//! The measurements of one dispatch and the metric events that report them.

use vstd::prelude::*;

verus! {

/// The three durations measured for one request, in nanoseconds.
#[derive(Debug, Clone, Copy, PartialEq, Eq)]
pub struct RouteMetrics {
    /// Time taken to derive the route key and look it up.
    pub route_match_time: u128,
    /// Time spent inside the matched handler; zero where none ran.
    pub handler_duration: u128,
    /// Time from the start of the dispatch to its end.
    pub total_request_time: u128,
}

impl RouteMetrics {
    /// The measurements of a request without a route: the lookup ended at
    /// `matched_at` and the dispatch at `finished_at`, both counted from the
    /// start of the dispatch. No handler ran.
    pub open spec fn spec_not_found(matched_at: u128, finished_at: u128) -> RouteMetrics {
        RouteMetrics {
            route_match_time: matched_at,
            handler_duration: 0,
            total_request_time: finished_at,
        }
    }

    /// The measurements of a request whose handler ran from
    /// `handler_started_at` to `finished_at`, after a lookup that ended at
    /// `matched_at`; all three counted from the start of the dispatch. A
    /// handler that seems to end before it began is given no duration.
    pub open spec fn spec_matched(
        matched_at: u128,
        handler_started_at: u128,
        finished_at: u128,
    ) -> RouteMetrics {
        RouteMetrics {
            route_match_time: matched_at,
            handler_duration: if finished_at >= handler_started_at {
                (finished_at - handler_started_at) as u128
            } else {
                0
            },
            total_request_time: finished_at,
        }
    }

    /// Measurements of a request that matched no route.
    ///
    /// The total is at least the handler's share, and at least the lookup's
    /// share where the readings were taken in order.
    pub fn not_found(matched_at: u128, finished_at: u128) -> (metrics: RouteMetrics)
        ensures
            metrics == Self::spec_not_found(matched_at, finished_at),
            metrics.total_request_time >= metrics.handler_duration,
            matched_at <= finished_at ==> metrics.total_request_time
                >= metrics.route_match_time + metrics.handler_duration,
    {
        RouteMetrics {
            route_match_time: matched_at,
            handler_duration: 0,
            total_request_time: finished_at,
        }
    }

    /// Measurements of a request whose handler ran.
    ///
    /// The total is at least the handler's share, whatever the readings.
    /// Where the readings were taken in order, the handler's share is the
    /// exact difference and the total covers lookup and handler together.
    pub fn matched(matched_at: u128, handler_started_at: u128, finished_at: u128) -> (metrics:
        RouteMetrics)
        ensures
            metrics == Self::spec_matched(matched_at, handler_started_at, finished_at),
            metrics.total_request_time >= metrics.handler_duration,
            handler_started_at <= finished_at ==> metrics.handler_duration == finished_at
                - handler_started_at,
            matched_at <= handler_started_at <= finished_at ==> metrics.total_request_time
                >= metrics.route_match_time + metrics.handler_duration,
    {
        let handler_duration: u128 = if finished_at >= handler_started_at {
            finished_at - handler_started_at
        } else {
            0
        };
        RouteMetrics {
            route_match_time: matched_at,
            handler_duration,
            total_request_time: finished_at,
        }
    }
}

/// One observation handed to the metrics collector.
///
/// The two request events are counters, each counting one; the three timing
/// events are histogram observations of a duration. Durations are held in
/// nanoseconds; the series are named for seconds, and whoever reports an
/// observation divides by 10^9.
#[derive(Debug, Clone, PartialEq, Eq)]
pub enum MetricEvent {
    /// A request matched the route with key `route`.
    RequestMatched { route: String },
    /// A request matched no route.
    RequestNotFound,
    /// The time a lookup took.
    RouteMatchTime { nanos: u128 },
    /// The time a handler took.
    HandlerDuration { nanos: u128 },
    /// The time a whole dispatch took.
    TotalRequestTime { nanos: u128 },
}

/// A metric event as a mathematical value.
pub enum MetricEventView {
    RequestMatched { route: Seq<char> },
    RequestNotFound,
    RouteMatchTime { nanos: u128 },
    HandlerDuration { nanos: u128 },
    TotalRequestTime { nanos: u128 },
}

impl DeepView for MetricEvent {
    type V = MetricEventView;

    open spec fn deep_view(&self) -> MetricEventView {
        match *self {
            MetricEvent::RequestMatched { route } => MetricEventView::RequestMatched { route: route@ },
            MetricEvent::RequestNotFound => MetricEventView::RequestNotFound,
            MetricEvent::RouteMatchTime { nanos } => MetricEventView::RouteMatchTime { nanos },
            MetricEvent::HandlerDuration { nanos } => MetricEventView::HandlerDuration { nanos },
            MetricEvent::TotalRequestTime { nanos } => MetricEventView::TotalRequestTime { nanos },
        }
    }
}

impl MetricEventView {
    /// The name of the series that the event belongs to.
    pub open spec fn name(self) -> Seq<char> {
        match self {
            MetricEventView::RequestMatched { .. } => "requests_total"@,
            MetricEventView::RequestNotFound => "requests_not_found"@,
            MetricEventView::RouteMatchTime { .. } => "route_match_time_seconds"@,
            MetricEventView::HandlerDuration { .. } => "handler_duration_seconds"@,
            MetricEventView::TotalRequestTime { .. } => "total_request_time_seconds"@,
        }
    }

    /// Whether the event is a counter; the others are histogram observations.
    pub open spec fn is_counter(self) -> bool {
        self is RequestMatched || self is RequestNotFound
    }

    /// The tag that the event carries, as the tag's name and its value: a
    /// matched request is tagged `route` with the key of its route, and no
    /// other event is tagged.
    pub open spec fn label(self) -> Option<(Seq<char>, Seq<char>)> {
        match self {
            MetricEventView::RequestMatched { route } => Some(("route"@, route)),
            _ => None,
        }
    }
}

/// The event reported when a request has no route.
pub open spec fn spec_not_found_events() -> Seq<MetricEventView> {
    seq![MetricEventView::RequestNotFound]
}

/// The event reported when a request matched the route with key `route`.
pub open spec fn spec_matched_events(route: Seq<char>) -> Seq<MetricEventView> {
    seq![MetricEventView::RequestMatched { route }]
}

/// The events reported when a handler has run: the three durations, each in
/// a series of its own.
pub open spec fn spec_timing_events(metrics: RouteMetrics) -> Seq<MetricEventView> {
    seq![
        MetricEventView::RouteMatchTime { nanos: metrics.route_match_time },
        MetricEventView::HandlerDuration { nanos: metrics.handler_duration },
        MetricEventView::TotalRequestTime { nanos: metrics.total_request_time },
    ]
}

impl MetricEvent {
    /// The name of the series that the event belongs to.
    pub fn name(&self) -> (name: &'static str)
        ensures
            name@ == self.deep_view().name(),
    {
        match self {
            MetricEvent::RequestMatched { .. } => "requests_total",
            MetricEvent::RequestNotFound => "requests_not_found",
            MetricEvent::RouteMatchTime { .. } => "route_match_time_seconds",
            MetricEvent::HandlerDuration { .. } => "handler_duration_seconds",
            MetricEvent::TotalRequestTime { .. } => "total_request_time_seconds",
        }
    }

    /// Whether the event is a counter; the others are histogram observations.
    pub fn is_counter(&self) -> (counter: bool)
        ensures
            counter == self.deep_view().is_counter(),
    {
        match self {
            MetricEvent::RequestMatched { .. } => true,
            MetricEvent::RequestNotFound => true,
            _ => false,
        }
    }

    /// The tag that the event carries, as the tag's name and its value.
    pub fn label(&self) -> (label: Option<(&'static str, &str)>)
        ensures
            label matches Some(tag) ==> self.deep_view().label() == Some((tag.0@, tag.1@)),
            label is None ==> self.deep_view().label() is None,
    {
        match self {
            MetricEvent::RequestMatched { route } => Some(("route", route.as_str())),
            _ => None,
        }
    }

    /// The events to report for a request without a route: one count.
    pub fn not_found_events() -> (events: Vec<MetricEvent>)
        ensures
            events.deep_view() == spec_not_found_events(),
    {
        let mut events: Vec<MetricEvent> = Vec::new();
        events.push(MetricEvent::RequestNotFound);
        events
    }

    /// The events to report when a request has matched a route, before its
    /// handler runs: one count, tagged with the key of the route.
    pub fn matched_events(route: &str) -> (events: Vec<MetricEvent>)
        ensures
            events.deep_view() == spec_matched_events(route@),
    {
        let mut events: Vec<MetricEvent> = Vec::new();
        events.push(MetricEvent::RequestMatched { route: String::from_str(route) });
        events
    }

    /// The events to report when a handler has run: one observation for
    /// each of the three durations.
    pub fn timing_events(metrics: &RouteMetrics) -> (events: Vec<MetricEvent>)
        ensures
            events.deep_view() == spec_timing_events(*metrics),
    {
        let mut events: Vec<MetricEvent> = Vec::new();
        events.push(MetricEvent::RouteMatchTime { nanos: metrics.route_match_time });
        events.push(MetricEvent::HandlerDuration { nanos: metrics.handler_duration });
        events.push(MetricEvent::TotalRequestTime { nanos: metrics.total_request_time });
        events
    }
}

} // verus!
