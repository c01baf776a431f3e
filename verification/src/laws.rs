//! What holds of the registry and the dispatcher, whatever was registered.
//!
//! The laws speak of the registry as a map from route keys to handlers, and
//! of a history of registrations as a sequence of `(method, path, handler)`
//! triples in the order in which they were made.

use crate::dispatch::{spec_dispatch, Decision};
use crate::metrics::{spec_matched_events, spec_not_found_events, RouteMetrics};
use crate::response::spec_not_found_response;
use crate::route_key::{
    lemma_route_key_injective, lemma_route_key_of_spaceless_pair, spec_route_key,
};
use crate::router::{spec_add_route, spec_lookup};
use vstd::prelude::*;

verus! {

/// The registry that a history of registrations leaves behind, starting from
/// an empty one.
pub open spec fn routes_after<H>(registrations: Seq<(Seq<char>, Seq<char>, H)>) -> Map<
    Seq<char>,
    H,
>
    decreases registrations.len(),
{
    if registrations.len() == 0 {
        Map::empty()
    } else {
        let last = registrations.last();
        spec_add_route(routes_after(registrations.drop_last()), last.0, last.1, last.2)
    }
}

/// The key of the `i`-th registration of a history.
pub open spec fn key_at<H>(registrations: Seq<(Seq<char>, Seq<char>, H)>, i: int) -> Seq<char> {
    spec_route_key(registrations[i].0, registrations[i].1)
}

/// A lookup right after a registration finds the handler just registered.
pub proof fn lemma_lookup_finds_registered<H>(
    routes: Map<Seq<char>, H>,
    method: Seq<char>,
    path: Seq<char>,
    handler: H,
)
    ensures
        spec_lookup(spec_add_route(routes, method, path, handler), method, path) == Some(handler),
{
}

/// Registering a route leaves the lookup of every route with another key as
/// it was.
pub proof fn lemma_registration_keeps_other_routes<H>(
    routes: Map<Seq<char>, H>,
    method: Seq<char>,
    path: Seq<char>,
    handler: H,
    other_method: Seq<char>,
    other_path: Seq<char>,
)
    requires
        spec_route_key(other_method, other_path) != spec_route_key(method, path),
    ensures
        spec_lookup(spec_add_route(routes, method, path, handler), other_method, other_path)
            == spec_lookup(routes, other_method, other_path),
{
}

/// Last registration wins: after any history, a lookup of the pair of the
/// `i`-th registration finds the handler of that registration, provided that
/// no later registration has the same key.
pub proof fn lemma_last_registration_wins<H>(
    registrations: Seq<(Seq<char>, Seq<char>, H)>,
    i: int,
)
    requires
        0 <= i < registrations.len(),
        forall|j: int|
            i < j < registrations.len() ==> #[trigger] key_at(registrations, j) != key_at(
                registrations,
                i,
            ),
    ensures
        spec_lookup(routes_after(registrations), registrations[i].0, registrations[i].1) == Some(
            registrations[i].2,
        ),
    decreases registrations.len(),
{
    let last = registrations.len() - 1;
    if i < last {
        let earlier = registrations.drop_last();
        assert forall|j: int| i < j < earlier.len() implies #[trigger] key_at(earlier, j)
            != key_at(earlier, i) by {
            assert(key_at(registrations, j) != key_at(registrations, i));
        }
        lemma_last_registration_wins(earlier, i);
        assert(key_at(registrations, last) != key_at(registrations, i));
    }
}

/// Registering the same pair again replaces its handler and leaves no trace
/// of the old one: the registry is what it would be had only the second
/// registration been made, so every later dispatch of the pair is matched to
/// the new handler.
pub proof fn lemma_reregistration_replaces<H>(
    routes: Map<Seq<char>, H>,
    method: Seq<char>,
    path: Seq<char>,
    first: H,
    second: H,
)
    ensures
        spec_add_route(spec_add_route(routes, method, path, first), method, path, second)
            == spec_add_route(routes, method, path, second),
        spec_dispatch(
            spec_add_route(spec_add_route(routes, method, path, first), method, path, second),
            method,
            path,
        ) == (Decision::Matched {
            handler: second,
            events: spec_matched_events(spec_route_key(method, path)),
        }),
{
}

/// After any history, the registry holds exactly the keys that were
/// registered.
pub proof fn lemma_routes_are_the_registered_keys<H>(
    registrations: Seq<(Seq<char>, Seq<char>, H)>,
    key: Seq<char>,
)
    ensures
        routes_after(registrations).contains_key(key) <==> exists|j: int|
            0 <= j < registrations.len() && #[trigger] key_at(registrations, j) == key,
    decreases registrations.len(),
{
    if registrations.len() > 0 {
        let earlier = registrations.drop_last();
        let last = registrations.len() - 1;
        lemma_routes_are_the_registered_keys(earlier, key);
        if routes_after(registrations).contains_key(key) {
            if key == key_at(registrations, last) {
            } else {
                let j = choose|j: int| 0 <= j < earlier.len() && #[trigger] key_at(earlier, j) == key;
                assert(key_at(registrations, j) == key);
            }
        }
        if exists|j: int| 0 <= j < registrations.len() && #[trigger] key_at(registrations, j) == key {
            let j = choose|j: int|
                0 <= j < registrations.len() && #[trigger] key_at(registrations, j) == key;
            if j < last {
                assert(key_at(earlier, j) == key);
            }
        }
    }
}

/// A request whose key was never registered is not found: the dispatch
/// gives the 404 response with the body `Not Found`, one count, and no
/// handler.
pub proof fn lemma_unregistered_key_is_not_found<H>(
    registrations: Seq<(Seq<char>, Seq<char>, H)>,
    method: Seq<char>,
    path: Seq<char>,
)
    requires
        forall|j: int|
            0 <= j < registrations.len() ==> #[trigger] key_at(registrations, j) != spec_route_key(
                method,
                path,
            ),
    ensures
        spec_lookup(routes_after(registrations), method, path).is_none(),
        spec_dispatch(routes_after(registrations), method, path) == (Decision::<H>::NotFound {
            response: spec_not_found_response(),
            events: spec_not_found_events(),
        }),
        spec_not_found_response().status == 404,
        spec_not_found_response().body == vstd::utf8::encode_utf8("Not Found"@),
{
    lemma_routes_are_the_registered_keys(registrations, spec_route_key(method, path));
}

/// A pair that was never registered and holds no space, in its method or
/// in its path, is not found, whatever was registered. (A pair with a space
/// can share its key with a different pair, and is then found under the
/// other's registration.)
pub proof fn lemma_unregistered_pair_is_not_found<H>(
    registrations: Seq<(Seq<char>, Seq<char>, H)>,
    method: Seq<char>,
    path: Seq<char>,
)
    requires
        !method.contains(' '),
        !path.contains(' '),
        forall|j: int|
            0 <= j < registrations.len() ==> !((#[trigger] registrations[j]).0 == method
                && registrations[j].1 == path),
    ensures
        spec_dispatch(routes_after(registrations), method, path) == (Decision::<H>::NotFound {
            response: spec_not_found_response(),
            events: spec_not_found_events(),
        }),
{
    assert forall|j: int| 0 <= j < registrations.len() implies #[trigger] key_at(
        registrations,
        j,
    ) != spec_route_key(method, path) by {
        lemma_route_key_of_spaceless_pair(method, path, registrations[j].0, registrations[j].1);
    }
    lemma_unregistered_key_is_not_found(registrations, method, path);
}

/// A pair that was never registered is not found either where its path
/// holds spaces, provided that no method in play holds one.
pub proof fn lemma_unregistered_pair_is_not_found_among_spaceless_methods<H>(
    registrations: Seq<(Seq<char>, Seq<char>, H)>,
    method: Seq<char>,
    path: Seq<char>,
)
    requires
        !method.contains(' '),
        forall|j: int|
            0 <= j < registrations.len() ==> !(#[trigger] registrations[j]).0.contains(' '),
        forall|j: int|
            0 <= j < registrations.len() ==> !((#[trigger] registrations[j]).0 == method
                && registrations[j].1 == path),
    ensures
        spec_dispatch(routes_after(registrations), method, path) == (Decision::<H>::NotFound {
            response: spec_not_found_response(),
            events: spec_not_found_events(),
        }),
{
    assert forall|j: int| 0 <= j < registrations.len() implies #[trigger] key_at(
        registrations,
        j,
    ) != spec_route_key(method, path) by {
        lemma_route_key_injective(registrations[j].0, registrations[j].1, method, path);
    }
    lemma_unregistered_key_is_not_found(registrations, method, path);
}

/// Routes do not interfere: where all registered keys differ, a dispatch of
/// the pair of any registration is matched to the handler of that
/// registration and to no other.
pub proof fn lemma_distinct_routes_keep_their_handlers<H>(
    registrations: Seq<(Seq<char>, Seq<char>, H)>,
    i: int,
)
    requires
        0 <= i < registrations.len(),
        forall|j: int, k: int|
            0 <= j < k < registrations.len() ==> #[trigger] key_at(registrations, j)
                != #[trigger] key_at(registrations, k),
    ensures
        spec_dispatch(routes_after(registrations), registrations[i].0, registrations[i].1) == (
        Decision::Matched {
            handler: registrations[i].2,
            events: spec_matched_events(key_at(registrations, i)),
        }),
{
    lemma_last_registration_wins(registrations, i);
}

/// The total time of a request is never less than the time its handler
/// took, whatever the readings; and where the readings were taken in order,
/// it is never less than lookup and handler together. No duration is
/// negative: each is an unsigned number of nanoseconds.
pub proof fn lemma_total_time_covers_handler(
    matched_at: u128,
    handler_started_at: u128,
    finished_at: u128,
)
    ensures
        RouteMetrics::spec_matched(matched_at, handler_started_at, finished_at).route_match_time
            >= 0,
        RouteMetrics::spec_matched(matched_at, handler_started_at, finished_at).handler_duration
            >= 0,
        RouteMetrics::spec_matched(matched_at, handler_started_at, finished_at).total_request_time
            >= RouteMetrics::spec_matched(
            matched_at,
            handler_started_at,
            finished_at,
        ).handler_duration,
        matched_at <= handler_started_at <= finished_at ==> RouteMetrics::spec_matched(
            matched_at,
            handler_started_at,
            finished_at,
        ).total_request_time >= matched_at + (finished_at - handler_started_at),
{
}

} // verus!
