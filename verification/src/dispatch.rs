//! What a dispatch decides: its two outcomes, and the request whose handler
//! is still to run.

use crate::clock::Stopwatch;
use crate::metrics::{
    spec_matched_events, spec_not_found_events, spec_timing_events, MetricEvent, MetricEventView,
    RouteMetrics,
};
use crate::response::{not_found_response, spec_not_found_response, Response, ResponseView};
use crate::route_key::spec_route_key;
use crate::router::spec_lookup;
use vstd::prelude::*;

verus! {

/// A finished dispatch: the response to send, what was measured, and the
/// events still to report.
pub struct Completed<R> {
    pub response: R,
    pub metrics: RouteMetrics,
    pub events: Vec<MetricEvent>,
}

impl Completed<Response> {
    /// The outcome of a request without a route, from the two readings taken
    /// for it: the 404 response, the measurements, and the one count to
    /// report. No timing is reported for such a request.
    pub fn not_found(matched_at: u128, finished_at: u128) -> (done: Self)
        ensures
            done.response.deep_view() == spec_not_found_response(),
            done.metrics == RouteMetrics::spec_not_found(matched_at, finished_at),
            done.events.deep_view() == spec_not_found_events(),
    {
        Completed {
            response: not_found_response(),
            metrics: RouteMetrics::not_found(matched_at, finished_at),
            events: MetricEvent::not_found_events(),
        }
    }
}

impl<R> Completed<R> {
    /// The outcome of a request whose handler returned `response`, from the
    /// three readings taken for it: the response as the handler gave it, the
    /// measurements, and the three timings to report.
    pub fn matched(
        response: R,
        matched_at: u128,
        handler_started_at: u128,
        finished_at: u128,
    ) -> (done: Self)
        ensures
            done.response == response,
            done.metrics == RouteMetrics::spec_matched(matched_at, handler_started_at, finished_at),
            done.events.deep_view() == spec_timing_events(done.metrics),
    {
        let metrics = RouteMetrics::matched(matched_at, handler_started_at, finished_at);
        let events = MetricEvent::timing_events(&metrics);
        Completed { response, metrics, events }
    }
}

/// A request that matched a route and whose handler has not returned yet.
///
/// It keeps the stopwatch of the dispatch and the readings taken so far.
pub struct Pending {
    watch: Stopwatch,
    matched_at: u128,
    handler_started_at: u128,
}

impl Pending {
    /// The readings were taken in order.
    #[verifier::type_invariant]
    spec fn readings_in_order(self) -> bool {
        self.matched_at <= self.handler_started_at <= self.watch.last_reading()
    }

    /// The time that the lookup took, in nanoseconds.
    pub closed spec fn route_match_time(&self) -> u128 {
        self.matched_at
    }

    /// The reading at which the handler was started, in nanoseconds since
    /// the start of the dispatch.
    pub closed spec fn handler_started_at(&self) -> u128 {
        self.handler_started_at
    }

    /// Marks the start of the handler for a request whose lookup ended at
    /// `matched_at` on `watch`.
    pub(crate) fn start(watch: Stopwatch, matched_at: u128) -> (pending: Self)
        requires
            matched_at <= watch.last_reading(),
        ensures
            pending.route_match_time() == matched_at,
            pending.handler_started_at() >= matched_at,
    {
        let mut watch = watch;
        let handler_started_at = watch.elapsed();
        Pending { watch, matched_at, handler_started_at }
    }

    /// Marks the start of the handler anew, at the present moment.
    ///
    /// A pending request is made with the start of its handler set to the
    /// moment at which it matched. Whoever reports the matched count, or does
    /// anything else before the handler runs, calls this afterwards, so that
    /// the handler's duration holds none of that. The start never moves back
    /// and the time of the lookup stays as it is.
    pub fn handler_starts(&mut self)
        ensures
            final(self).route_match_time() == old(self).route_match_time(),
            final(self).handler_started_at() >= old(self).handler_started_at(),
    {
        proof {
            use_type_invariant(&*self);
        }
        let mut watch = self.watch;
        let started_at = watch.elapsed();
        self.watch = watch;
        self.handler_started_at = started_at;
    }

    /// Ends the dispatch once the handler has returned `response`.
    ///
    /// The response is handed on as it is. The end of the dispatch is read
    /// off the stopwatch now, and is not before the start of the handler;
    /// the measurements are those of `RouteMetrics::matched` for the three
    /// readings. So the total is at least the handler's duration, and covers
    /// the lookup and the handler together. The three timings are the events
    /// to report.
    pub fn finish<R>(self, response: R) -> (done: Completed<R>)
        ensures
            done.response == response,
            done.metrics == RouteMetrics::spec_matched(
                self.route_match_time(),
                self.handler_started_at(),
                done.metrics.total_request_time,
            ),
            done.metrics.total_request_time >= self.handler_started_at()
                >= self.route_match_time(),
            done.metrics.total_request_time >= done.metrics.handler_duration,
            done.metrics.total_request_time >= done.metrics.route_match_time
                + done.metrics.handler_duration,
            done.events.deep_view() == spec_timing_events(done.metrics),
    {
        proof {
            use_type_invariant(&self);
        }
        let Pending { watch, matched_at, handler_started_at } = self;
        let mut watch = watch;
        let finished_at = watch.elapsed();
        Completed::matched(response, matched_at, handler_started_at, finished_at)
    }
}

/// The decision taken for one request.
pub enum Dispatch<'a, H> {
    /// No route has the key of the request. The dispatch is over and no
    /// handler runs.
    NotFound(Completed<Response>),
    /// The request matched a route. `events` are to be reported now; then
    /// `pending` marks the start of the handler, `handler` runs, and
    /// `pending` ends the dispatch with its response.
    Matched { handler: &'a H, events: Vec<MetricEvent>, pending: Pending },
}

/// The decision taken for one request, as a mathematical value: all of a
/// `Dispatch` but the time readings.
pub enum Decision<H> {
    /// No handler runs; `response` is sent and `events` are reported.
    NotFound { response: ResponseView, events: Seq<MetricEventView> },
    /// `handler` runs, after `events` are reported.
    Matched { handler: H, events: Seq<MetricEventView> },
}

impl<'a, H> Dispatch<'a, H> {
    /// What was decided, without the time readings.
    pub open spec fn decision(self) -> Decision<H> {
        match self {
            Dispatch::NotFound(done) => Decision::NotFound {
                response: done.response.deep_view(),
                events: done.events.deep_view(),
            },
            Dispatch::Matched { handler, events, pending } => Decision::Matched {
                handler: *handler,
                events: events.deep_view(),
            },
        }
    }
}

/// The decision that a registry `routes` gives for the request
/// `(method, path)`.
///
/// A request whose key has a route is matched to the handler of that route,
/// with one count tagged with the key. Any other request gets the 404
/// response, with one count and no handler.
pub open spec fn spec_dispatch<H>(
    routes: Map<Seq<char>, H>,
    method: Seq<char>,
    path: Seq<char>,
) -> Decision<H> {
    match spec_lookup(routes, method, path) {
        Some(handler) => Decision::Matched {
            handler,
            events: spec_matched_events(spec_route_key(method, path)),
        },
        None => Decision::NotFound {
            response: spec_not_found_response(),
            events: spec_not_found_events(),
        },
    }
}

} // verus!
