//! Request metrics: the attribute set and sizes that a request's measurements
//! carry, the phases that make sure a request is measured exactly once, and the
//! setup of the histogram instruments.
use crate::attributes::{
    attrs_model, metrics_attributes, metrics_attrs, pair_model, Attribute, ConnSnapshot,
};
use crate::lifecycle::HostEvent;
use crate::text::{parse_u64, parse_unsigned, u64_max};
use vstd::prelude::*;

verus! {

/// The request body size of a request: its `Content-Length` header, where that
/// is the text of a number that fits in a `u64`.
pub open spec fn request_len_of(content_length: Option<Seq<char>>) -> Option<u64> {
    match content_length {
        Some(t) => match parse_unsigned(t, u64_max()) {
            Some(n) => Some(n as u64),
            None => None,
        },
        None => None,
    }
}

/// What a request's measurements carry, computed when its response is about to
/// be sent. Every measurement of the request records with this one attribute set.
#[derive(Debug)]
pub struct MetricsPlan {
    pub attributes: Vec<Attribute>,
    /// The request body size, where a well-formed `Content-Length` was sent.
    pub request_len: Option<u64>,
    /// The response body size, where it is known.
    pub response_len: Option<u64>,
}

/// The plan of a request's measurements. `route` is the route as resolved now,
/// `classified` the error classifier's answer, and `server` the server address
/// and port where the caller opted in to them.
pub fn metrics_plan(
    conn: &ConnSnapshot,
    route: Option<String>,
    classified: Option<String>,
    server: Option<(String, u16)>,
) -> (r: MetricsPlan)
    requires
        conn.wf(),
    ensures
        attrs_model(r.attributes@) == metrics_attrs(
            *conn,
            route.deep_view(),
            classified.deep_view(),
            pair_model(server),
        ),
        r.request_len == request_len_of(conn.content_length.deep_view()),
        r.response_len == conn.response_len,
{
    let request_len = match &conn.content_length {
        Some(t) => parse_u64(t.as_str()),
        None => None,
    };
    let attributes = metrics_attributes(conn, route, classified, server);
    MetricsPlan { attributes, request_len, response_len: conn.response_len }
}

/// One measurement of a request.
#[derive(Clone, Copy, Debug, PartialEq, Eq, Structural)]
pub enum Measurement {
    /// The time from the request's arrival to the end of sending, in seconds.
    Duration,
    RequestSize(u64),
    ResponseSize(u64),
}

/// The measurements of a request, in order: the duration always, then the
/// response size and the request size where known.
pub open spec fn measurements_of(request_len: Option<u64>, response_len: Option<u64>) -> Seq<
    Measurement,
> {
    seq![Measurement::Duration] + match response_len {
        Some(n) => seq![Measurement::ResponseSize(n)],
        None => seq![],
    } + match request_len {
        Some(n) => seq![Measurement::RequestSize(n)],
        None => seq![],
    }
}

impl MetricsPlan {
    /// The measurements to record when the response has been sent.
    pub fn measurements(&self) -> (r: Vec<Measurement>)
        ensures
            r@ == measurements_of(self.request_len, self.response_len),
    {
        let mut v: Vec<Measurement> = Vec::new();
        v.push(Measurement::Duration);
        match self.response_len {
            Some(n) => v.push(Measurement::ResponseSize(n)),
            None => {},
        }
        match self.request_len {
            Some(n) => v.push(Measurement::RequestSize(n)),
            None => {},
        }
        assert(v@ =~= measurements_of(self.request_len, self.response_len));
        v
    }
}

/// Where the measurement of a request stands.
#[derive(Clone, Copy, Debug, PartialEq, Eq, Structural)]
pub enum MetricsPhase {
    /// Main processing has not reached the handler.
    Unmarked,
    /// Main processing placed the marker.
    Marked,
    /// The marker was taken and the measurements wait for the end of sending.
    Scheduled,
    /// The measurements were recorded.
    Recorded,
}

/// What to do for a request's measurements at a host event.
#[derive(Clone, Copy, Debug, PartialEq, Eq, Structural)]
pub enum MetricsStep {
    Nothing,
    /// Place the marker on the request.
    Mark,
    /// Take the marker, plan the measurements (see `metrics_plan`) and register
    /// their recording for the end of sending.
    Schedule,
    /// Record the planned measurements.
    Record,
}

/// The next phase of a request's measurement, and what to do, at a host event.
pub open spec fn metrics_next(p: MetricsPhase, e: HostEvent) -> (MetricsPhase, MetricsStep) {
    match (p, e) {
        (MetricsPhase::Unmarked, HostEvent::Run) => (MetricsPhase::Marked, MetricsStep::Mark),
        (MetricsPhase::Marked, HostEvent::BeforeSend) => (
            MetricsPhase::Scheduled,
            MetricsStep::Schedule,
        ),
        (MetricsPhase::Scheduled, HostEvent::Sent { .. }) => (
            MetricsPhase::Recorded,
            MetricsStep::Record,
        ),
        _ => (p, MetricsStep::Nothing),
    }
}

impl MetricsPhase {
    /// The next phase of a request's measurement, and what to do, at a host
    /// event. Only a request that main processing marked is planned when its
    /// response is about to be sent, and only a planned one is recorded.
    pub fn step(self, e: HostEvent) -> (r: (MetricsPhase, MetricsStep))
        ensures
            r == metrics_next(self, e),
    {
        match (self, e) {
            (MetricsPhase::Unmarked, HostEvent::Run) => (MetricsPhase::Marked, MetricsStep::Mark),
            (MetricsPhase::Marked, HostEvent::BeforeSend) => (
                MetricsPhase::Scheduled,
                MetricsStep::Schedule,
            ),
            (MetricsPhase::Scheduled, HostEvent::Sent { .. }) => (
                MetricsPhase::Recorded,
                MetricsStep::Record,
            ),
            _ => (self, MetricsStep::Nothing),
        }
    }
}

/// The phase of a request's measurement after a sequence of host events, and
/// how many times its duration was recorded.
pub open spec fn metrics_run(p: MetricsPhase, evs: Seq<HostEvent>) -> (MetricsPhase, nat)
    decreases evs.len(),
{
    if evs.len() == 0 {
        (p, 0)
    } else {
        let (q, n) = metrics_run(p, evs.drop_last());
        let (r, step) = metrics_next(q, evs.last());
        (r, if step is Record { n + 1 } else { n })
    }
}

/// How many duration measurements a request with these host events records.
pub open spec fn durations_recorded(evs: Seq<HostEvent>) -> nat {
    metrics_run(MetricsPhase::Unmarked, evs).1
}

/// How far a request's measurement has gone.
pub open spec fn metrics_rank(p: MetricsPhase) -> nat {
    match p {
        MetricsPhase::Unmarked => 0,
        MetricsPhase::Marked => 1,
        MetricsPhase::Scheduled => 2,
        MetricsPhase::Recorded => 3,
    }
}

proof fn lemma_records_count_recorded(evs: Seq<HostEvent>)
    ensures
        metrics_run(MetricsPhase::Unmarked, evs).1 == (if metrics_run(
            MetricsPhase::Unmarked,
            evs,
        ).0 == MetricsPhase::Recorded {
            1nat
        } else {
            0nat
        }),
    decreases evs.len(),
{
    if evs.len() > 0 {
        lemma_records_count_recorded(evs.drop_last());
    }
}

proof fn lemma_metrics_rank_grows(evs: Seq<HostEvent>, a: int, b: int)
    requires
        0 <= a <= b <= evs.len(),
    ensures
        metrics_rank(metrics_run(MetricsPhase::Unmarked, evs.take(a)).0) <= metrics_rank(
            metrics_run(MetricsPhase::Unmarked, evs.take(b)).0,
        ),
    decreases b - a,
{
    if a < b {
        lemma_metrics_rank_grows(evs, a, b - 1);
        assert(evs.take(b).drop_last() =~= evs.take(b - 1));
    }
}

proof fn lemma_metrics_step_at(evs: Seq<HostEvent>, i: int)
    requires
        0 <= i < evs.len(),
    ensures
        metrics_run(MetricsPhase::Unmarked, evs.take(i + 1)).0 == metrics_next(
            metrics_run(MetricsPhase::Unmarked, evs.take(i)).0,
            evs[i],
        ).0,
{
    assert(evs.take(i + 1).drop_last() =~= evs.take(i));
}

proof fn lemma_unmarked_without_run(evs: Seq<HostEvent>)
    requires
        crate::lifecycle::never_runs(evs),
    ensures
        metrics_run(MetricsPhase::Unmarked, evs).0 == MetricsPhase::Unmarked,
    decreases evs.len(),
{
    if evs.len() > 0 {
        assert(evs.last() == evs[evs.len() - 1]);
        assert(crate::lifecycle::never_runs(evs.drop_last()));
        lemma_unmarked_without_run(evs.drop_last());
    }
}

/// A request records at most one duration measurement, whatever the host does;
/// exactly one where the host ran main processing, then the pre-send phase, then
/// signalled the end of sending; and none where main processing never reached
/// the handler.
pub proof fn one_duration_per_request(evs: Seq<HostEvent>)
    ensures
        durations_recorded(evs) <= 1,
        crate::lifecycle::runs_to_completion(evs) ==> durations_recorded(evs) == 1,
        crate::lifecycle::never_runs(evs) ==> durations_recorded(evs) == 0,
{
    lemma_records_count_recorded(evs);
    if crate::lifecycle::runs_to_completion(evs) {
        let (i, j, k) = choose|i: int, j: int, k: int|
            0 <= i < j < k < evs.len() && #[trigger] evs[i] == HostEvent::Run && #[trigger] evs[j]
                == HostEvent::BeforeSend && (#[trigger] evs[k] is Sent);
        lemma_metrics_step_at(evs, i);
        lemma_metrics_rank_grows(evs, i + 1, j);
        lemma_metrics_step_at(evs, j);
        lemma_metrics_rank_grows(evs, j + 1, k);
        lemma_metrics_step_at(evs, k);
        lemma_metrics_rank_grows(evs, k + 1, evs.len() as int);
        assert(evs.take(evs.len() as int) =~= evs);
    }
    if crate::lifecycle::never_runs(evs) {
        lemma_unmarked_without_run(evs);
    }
}

/// The bucket boundaries of the three histograms, each where one was set.
#[derive(Clone, Debug)]
pub struct HistogramBoundaries<B> {
    pub duration: Option<B>,
    pub request_size: Option<B>,
    pub response_size: Option<B>,
}

/// The setup of the histogram instruments. Boundaries may be set until the
/// instruments are built, at the pipeline's initialization; after that, setting
/// them or initializing again is reported and ignored, and only then may
/// measurements be recorded. `B` is the type of a list of boundaries.
#[derive(Clone, Debug)]
pub enum HistogramSetup<B> {
    Pending(HistogramBoundaries<B>),
    Built,
}

/// Which histogram a setting is for.
#[derive(Clone, Copy, Debug, PartialEq, Eq, Structural)]
pub enum HistogramKind {
    Duration,
    RequestSize,
    ResponseSize,
}

/// The boundaries after setting those of one histogram.
pub open spec fn with_boundaries<B>(
    b: HistogramBoundaries<B>,
    kind: HistogramKind,
    boundaries: B,
) -> HistogramBoundaries<B> {
    match kind {
        HistogramKind::Duration => HistogramBoundaries { duration: Some(boundaries), ..b },
        HistogramKind::RequestSize => HistogramBoundaries { request_size: Some(boundaries), ..b },
        HistogramKind::ResponseSize => HistogramBoundaries { response_size: Some(boundaries), ..b },
    }
}

impl<B> HistogramSetup<B> {
    /// A setup with no boundaries set and no instruments built.
    pub fn new() -> (r: Self)
        ensures
            r == HistogramSetup::Pending(
                HistogramBoundaries::<B> { duration: None, request_size: None, response_size: None },
            ),
    {
        HistogramSetup::Pending(
            HistogramBoundaries { duration: None, request_size: None, response_size: None },
        )
    }

    /// Sets the boundaries of one histogram. Returns whether they were taken:
    /// `false` where the instruments were already built, which leaves the setup
    /// as it was and is to be reported.
    pub fn set_boundaries(&mut self, kind: HistogramKind, boundaries: B) -> (applied: bool)
        ensures
            applied == (*old(self) is Pending),
            match *old(self) {
                HistogramSetup::Pending(b) => *final(self) == HistogramSetup::Pending(
                    with_boundaries(b, kind, boundaries),
                ),
                HistogramSetup::Built => *final(self) == HistogramSetup::<B>::Built,
            },
    {
        match self {
            HistogramSetup::Pending(b) => {
                match kind {
                    HistogramKind::Duration => {
                        b.duration = Some(boundaries);
                    },
                    HistogramKind::RequestSize => {
                        b.request_size = Some(boundaries);
                    },
                    HistogramKind::ResponseSize => {
                        b.response_size = Some(boundaries);
                    },
                }
                true
            },
            HistogramSetup::Built => false,
        }
    }

    /// Marks the instruments as built, and hands out the boundaries to build them
    /// with. Returns `None` where they were already built, which is to be reported.
    pub fn initialize(&mut self) -> (r: Option<HistogramBoundaries<B>>)
        ensures
            *final(self) == HistogramSetup::<B>::Built,
            match *old(self) {
                HistogramSetup::Pending(b) => r == Some(b),
                HistogramSetup::Built => r is None,
            },
    {
        let r = match self {
            HistogramSetup::Pending(b) => {
                let duration = b.duration.take();
                let request_size = b.request_size.take();
                let response_size = b.response_size.take();
                Some(HistogramBoundaries { duration, request_size, response_size })
            },
            HistogramSetup::Built => None,
        };
        *self = HistogramSetup::Built;
        r
    }

    /// Whether measurements may be recorded: only once the instruments are built.
    /// A recording attempted before is to be reported and dropped.
    pub fn is_built(&self) -> (r: bool)
        ensures
            r == (*self is Built),
    {
        match self {
            HistogramSetup::Pending(_) => false,
            HistogramSetup::Built => true,
        }
    }
}

} // verus!
