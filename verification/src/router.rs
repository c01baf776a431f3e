//! The route registry and the dispatcher built on it.

use crate::clock::Stopwatch;
use crate::dispatch::{spec_dispatch, Completed, Dispatch, Pending};
use crate::metrics::MetricEvent;
use crate::route_key::{route_key, spec_route_key};
use crate::slots::{slot_entries, slots_get, slots_insert, slots_new};
use dashmap::DashMap;
use vstd::prelude::*;

verus! {

/// The registry after `handler` was registered for `(method, path)`: the key
/// of the pair now leads to `handler`, every other key is as before.
pub open spec fn spec_add_route<H>(
    routes: Map<Seq<char>, H>,
    method: Seq<char>,
    path: Seq<char>,
    handler: H,
) -> Map<Seq<char>, H> {
    routes.insert(spec_route_key(method, path), handler)
}

/// The handler that `routes` holds for `(method, path)`, if it holds one.
pub open spec fn spec_lookup<H>(routes: Map<Seq<char>, H>, method: Seq<char>, path: Seq<char>) -> Option<H> {
    routes.get(spec_route_key(method, path))
}

/// A registry of handlers of type `H`, keyed by exact `(method, path)` pairs.
///
/// The handlers live in `handlers`; `slots` sends the key of each registered
/// route to the position of its handler.
pub struct Router<H> {
    slots: DashMap<String, usize>,
    handlers: Vec<H>,
}

impl<H> View for Router<H> {
    type V = Map<Seq<char>, H>;

    /// The registry as a map from route keys to handlers.
    closed spec fn view(&self) -> Map<Seq<char>, H> {
        Map::new(
            |key: Seq<char>| slot_entries(self.slots).contains_key(key),
            |key: Seq<char>| self.handlers@[slot_entries(self.slots)[key] as int],
        )
    }
}

impl<H> Router<H> {
    /// Every slot in the table points at a handler, and no two keys share a
    /// slot. `new` establishes this and every method keeps it.
    pub closed spec fn wf(&self) -> bool {
        let entries = slot_entries(self.slots);
        &&& forall|key: Seq<char>| #[trigger]
            entries.contains_key(key) ==> entries[key] < self.handlers@.len()
        &&& forall|a: Seq<char>, b: Seq<char>|
            #![trigger entries[a], entries[b]]
            entries.contains_key(a) && entries.contains_key(b) && entries[a] == entries[b] ==> a
                == b
    }

    /// A registry without routes.
    pub fn new() -> (router: Self)
        ensures
            router.wf(),
            router@ == Map::<Seq<char>, H>::empty(),
    {
        Router { slots: slots_new(), handlers: Vec::new() }
    }

    /// Registers `handler` for `(method, path)`. A route registered before
    /// under the same key loses its handler to the new one; all other routes
    /// keep theirs. The strings are stored as given.
    pub fn add_route(&mut self, method: &str, path: &str, handler: H)
        requires
            old(self).wf(),
        ensures
            final(self).wf(),
            final(self)@ == spec_add_route(old(self)@, method@, path@, handler),
    {
        let key = route_key(method, path);
        match slots_get(&self.slots, key.as_str()) {
            Some(slot) => {
                self.handlers[slot] = handler;
            },
            None => {
                let slot = self.handlers.len();
                self.handlers.push(handler);
                let _ = slots_insert(&mut self.slots, key, slot);
            },
        }
    }

    /// The handler registered for `(method, path)`, or `None` where the pair
    /// has no route. Keys are compared for exact equality.
    pub fn lookup(&self, method: &str, path: &str) -> (found: Option<&H>)
        requires
            self.wf(),
        ensures
            match found {
                Some(handler) => spec_lookup(self@, method@, path@) == Some(*handler),
                None => spec_lookup(self@, method@, path@).is_none(),
            },
    {
        let key = route_key(method, path);
        self.lookup_key(key.as_str())
    }

    /// The handler registered under `key`, if there is one.
    fn lookup_key(&self, key: &str) -> (found: Option<&H>)
        requires
            self.wf(),
        ensures
            match found {
                Some(handler) => self@.get(key@) == Some(*handler),
                None => self@.get(key@).is_none(),
            },
    {
        match slots_get(&self.slots, key) {
            Some(slot) => Some(&self.handlers[slot]),
            None => None,
        }
    }

    /// Dispatches the request `(method, path)`.
    ///
    /// The key of the request is derived and looked up, and the time this
    /// takes is measured. Where no route has the key, the dispatch ends with
    /// the 404 response and one count to report; no handler is handed out.
    /// Where a route has it, its handler is handed out with one count to
    /// report, and the dispatch goes on in `Pending::finish`. The registry is
    /// left as it is.
    pub fn handle_request(&self, method: &str, path: &str) -> (dispatch: Dispatch<'_, H>)
        requires
            self.wf(),
        ensures
            dispatch.decision() == spec_dispatch(self@, method@, path@),
            dispatch matches Dispatch::NotFound(done) ==> done.metrics.handler_duration == 0,
            dispatch matches Dispatch::NotFound(done) ==> done.metrics.total_request_time
                >= done.metrics.route_match_time,
            dispatch matches Dispatch::Matched { pending, .. } ==> pending.handler_started_at()
                >= pending.route_match_time(),
    {
        let mut watch = Stopwatch::start();
        let key = route_key(method, path);
        let found = self.lookup_key(key.as_str());
        let matched_at = watch.elapsed();
        match found {
            Some(handler) => {
                let events = MetricEvent::matched_events(key.as_str());
                let pending = Pending::start(watch, matched_at);
                Dispatch::Matched { handler, events, pending }
            },
            None => {
                let finished_at = watch.elapsed();
                Dispatch::NotFound(Completed::not_found(matched_at, finished_at))
            },
        }
    }
}

} // verus!
