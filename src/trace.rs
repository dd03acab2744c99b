//! The trace span of a request: what it is named and carries when it starts,
//! what is added when the response is about to be sent, and the phases that
//! make sure it ends exactly once.
use crate::attributes::{
    address_port_attrs, attrs_model, effective_status, error_type_of, has_key, header_key,
    headers_attrs, headers_model, int_attr, is_server_error, lower_of, opt_str_attr, pair_model,
    protocol_version, push_address_port, push_attr, push_headers, push_opt_str,
    resolve_error_type, scheme, scheme_text, server_error, status_or_not_found, str_attr,
    version_number, Attribute, ConnSnapshot, MirroredHeader, ValueModel,
};
use crate::lifecycle::HostEvent;
use crate::semconv::{
    http_request_method_key, http_response_status_code_key, http_route_key,
    network_protocol_name_key, network_protocol_version_key, server_address_key,
    server_port_key, url_scheme_key,
};
use crate::text::decimal;
use vstd::prelude::*;

verus! {

/// The name of a request's span: the method, followed by the route where one is known.
pub open spec fn span_name(method: Seq<char>, route: Option<Seq<char>>) -> Seq<char> {
    match route {
        Some(r) => method + " "@ + r,
        None => method,
    }
}

/// The attributes of a span when it starts, in order.
pub open spec fn span_start_attrs(
    conn: ConnSnapshot,
    local: Option<(Seq<char>, u16)>,
    headers: Seq<(Seq<char>, Seq<Seq<char>>)>,
    server: Option<(Seq<char>, u16)>,
    route: Option<Seq<char>>,
) -> Seq<(Seq<char>, ValueModel)> {
    seq![
        ("http.request.method"@, ValueModel::Str(conn.method@)),
        ("url.path"@, ValueModel::Str(conn.path@)),
        ("url.scheme"@, ValueModel::Str(scheme(conn.is_secure))),
        ("url.query"@, ValueModel::Str(conn.query@)),
        ("network.protocol.name"@, ValueModel::Str("http"@)),
        ("network.protocol.version"@, ValueModel::Str(protocol_version(conn.http_version@))),
    ] + address_port_attrs("network.local.address"@, "network.local.port"@, local)
        + opt_str_attr("client.address"@, conn.peer_ip.deep_view()) + headers_attrs(headers)
        + address_port_attrs("server.address"@, "server.port"@, server) + opt_str_attr(
        "user_agent.original"@,
        conn.user_agent.deep_view(),
    ) + opt_str_attr("http.route"@, route)
}

/// How to start a request's span.
#[derive(Debug)]
pub struct SpanStart {
    pub name: String,
    pub attributes: Vec<Attribute>,
    /// Whether the route was known at the start, so that it need not be
    /// resolved again when the response is sent.
    pub route_was_available: bool,
}

fn span_name_text(method: &str, route: &str) -> (r: String)
    ensures
        r@ == method@ + " "@ + route@,
{
    let mut name = String::from_str(method);
    name.append(" ");
    name.append(route);
    name
}

/// The start of a request's span. `local` is the local socket address and port
/// where their capture is enabled; `headers` are the mirrored request headers
/// that the request carries; `server` is the server address and port where the
/// caller opted in to them; `route` is the route as resolved at the start.
pub fn span_start(
    conn: &ConnSnapshot,
    local: Option<(String, u16)>,
    headers: &Vec<MirroredHeader>,
    server: Option<(String, u16)>,
    route: Option<String>,
) -> (r: SpanStart)
    requires
        conn.wf(),
    ensures
        r.name@ == span_name(conn.method@, route.deep_view()),
        attrs_model(r.attributes@) == span_start_attrs(
            *conn,
            pair_model(local),
            headers_model(headers@),
            pair_model(server),
            route.deep_view(),
        ),
        r.route_was_available == route.is_some(),
{
    let mut v: Vec<Attribute> = Vec::new();
    push_attr(&mut v, str_attr(http_request_method_key(), conn.method.clone()));
    push_attr(&mut v, str_attr("url.path", conn.path.clone()));
    push_attr(&mut v, str_attr(url_scheme_key(), scheme_text(conn.is_secure)));
    push_attr(&mut v, str_attr("url.query", conn.query.clone()));
    push_attr(&mut v, str_attr(network_protocol_name_key(), String::from_str("http")));
    push_attr(
        &mut v,
        str_attr(network_protocol_version_key(), version_number(conn.http_version.as_str())),
    );
    push_address_port(&mut v, "network.local.address", "network.local.port", local);
    push_opt_str(&mut v, "client.address", conn.peer_ip.clone());
    push_headers(&mut v, headers);
    push_address_port(&mut v, server_address_key(), server_port_key(), server);
    push_opt_str(&mut v, "user_agent.original", conn.user_agent.clone());
    let route_was_available = route.is_some();
    let name = match &route {
        Some(r) => span_name_text(conn.method.as_str(), r.as_str()),
        None => conn.method.clone(),
    };
    push_opt_str(&mut v, http_route_key(), route);
    assert(attrs_model(v@) =~= span_start_attrs(
        *conn,
        pair_model(local),
        headers_model(headers@),
        pair_model(server),
        route.deep_view(),
    ));
    SpanStart { name, attributes: v, route_was_available }
}

/// The new name of a span when the response is about to be sent: only where the
/// route was not known at the start and is known now.
pub open spec fn span_rename(
    method: Seq<char>,
    route_was_available: bool,
    route_now: Option<Seq<char>>,
) -> Option<Seq<char>> {
    if route_was_available {
        None
    } else {
        match route_now {
            Some(r) => Some(span_name(method, Some(r))),
            None => None,
        }
    }
}

/// The attributes added to a span when the response is about to be sent, in
/// order: the status code, the route where it was not known at the start and is
/// known now, and the error type where there is one.
pub open spec fn span_update_attrs(
    status: Option<u16>,
    route_was_available: bool,
    route_now: Option<Seq<char>>,
    classified: Option<Seq<char>>,
) -> Seq<(Seq<char>, ValueModel)> {
    seq![("http.response.status_code"@, ValueModel::Int(effective_status(status) as int))]
        + (if route_was_available {
        seq![]
    } else {
        opt_str_attr("http.route"@, route_now)
    }) + opt_str_attr("error.type"@, error_type_of(classified, status))
}

/// Whether a span is marked as failed when the response is about to be sent:
/// exactly when a status was set and it is a server error.
pub open spec fn span_update_is_error(status: Option<u16>) -> bool {
    match status {
        Some(s) => server_error(s),
        None => false,
    }
}

/// The name a span ends with, from the one it started with and its renaming.
pub open spec fn final_span_name(start: Seq<char>, rename: Option<Seq<char>>) -> Seq<char> {
    match rename {
        Some(n) => n,
        None => start,
    }
}

/// How to update a request's span when the response is about to be sent.
#[derive(Debug)]
pub struct SpanUpdate {
    /// Whether to set the span's status to error, with an empty description:
    /// the error type attribute carries the detail.
    pub error_status: bool,
    /// The span's new name, if it is to be renamed.
    pub rename: Option<String>,
    pub attributes: Vec<Attribute>,
}

/// The update of a request's span when the response is about to be sent.
/// `route_now` is the route as resolved now, `classified` the error
/// classifier's answer.
pub fn span_update(
    conn: &ConnSnapshot,
    route_was_available: bool,
    route_now: Option<String>,
    classified: Option<String>,
) -> (r: SpanUpdate)
    ensures
        r.error_status == span_update_is_error(conn.status),
        r.rename.deep_view() == span_rename(conn.method@, route_was_available, route_now.deep_view()),
        attrs_model(r.attributes@) == span_update_attrs(
            conn.status,
            route_was_available,
            route_now.deep_view(),
            classified.deep_view(),
        ),
{
    let error_status = match conn.status {
        Some(s) => is_server_error(s),
        None => false,
    };
    let mut v: Vec<Attribute> = Vec::new();
    push_attr(
        &mut v,
        int_attr(http_response_status_code_key(), status_or_not_found(conn.status) as i64),
    );
    let mut rename: Option<String> = None;
    if !route_was_available {
        match &route_now {
            Some(r) => {
                rename = Some(span_name_text(conn.method.as_str(), r.as_str()));
            },
            None => {},
        }
        push_opt_str(&mut v, http_route_key(), route_now);
    }
    let error_type = resolve_error_type(classified, conn.status);
    push_opt_str(&mut v, "error.type", error_type);
    assert(attrs_model(v@) =~= span_update_attrs(
        conn.status,
        route_was_available,
        route_now.deep_view(),
        classified.deep_view(),
    ));
    SpanUpdate { error_status, rename, attributes: v }
}

/// The text that describes a failed send, as both the span's status
/// description and its error type.
pub open spec fn send_error_text() -> Seq<char> {
    "http send error"@
}

/// The attributes added to a span when it ends: the error type of a failed send,
/// where sending failed.
pub open spec fn span_end_attrs(success: bool) -> Seq<(Seq<char>, ValueModel)> {
    if success {
        seq![]
    } else {
        seq![("error.type"@, ValueModel::Str(send_error_text()))]
    }
}

/// The description of a span's error status after a failed send.
pub fn send_error_description() -> (r: String)
    ensures
        r@ == send_error_text(),
{
    String::from_str("http send error")
}

/// The attributes added to a span when it ends, after a send that succeeded or not.
pub fn span_end_attributes(success: bool) -> (r: Vec<Attribute>)
    ensures
        attrs_model(r@) == span_end_attrs(success),
{
    let mut v: Vec<Attribute> = Vec::new();
    if !success {
        push_attr(&mut v, str_attr("error.type", send_error_description()));
    }
    assert(attrs_model(v@) =~= span_end_attrs(success));
    v
}

/// Where a request's span stands.
#[derive(Clone, Copy, Debug, PartialEq, Eq, Structural)]
pub enum SpanPhase {
    /// No span was started.
    Absent,
    /// The span was started and is attached to the request.
    Open,
    /// The span was updated and its finalizer waits for the end of sending.
    Closing,
    /// The span has ended.
    Ended,
}

/// What to do with a request's span at a host event.
#[derive(Clone, Copy, Debug, PartialEq, Eq, Structural)]
pub enum SpanStep {
    Nothing,
    /// Start the span (see `span_start`) and attach it to the request.
    Start,
    /// Update the span (see `span_update`) and register its finalizer for the end of sending.
    Update,
    /// End the span, after marking it as failed where sending failed.
    End { send_failed: bool },
}

/// The next phase of a span, and what to do, at a host event.
pub open spec fn span_next(p: SpanPhase, e: HostEvent) -> (SpanPhase, SpanStep) {
    match (p, e) {
        (SpanPhase::Absent, HostEvent::Run) => (SpanPhase::Open, SpanStep::Start),
        (SpanPhase::Open, HostEvent::BeforeSend) => (SpanPhase::Closing, SpanStep::Update),
        (SpanPhase::Closing, HostEvent::Sent { success }) => (
            SpanPhase::Ended,
            SpanStep::End { send_failed: !success },
        ),
        _ => (p, SpanStep::Nothing),
    }
}

impl SpanPhase {
    /// The next phase of a span, and what to do, at a host event. Main processing
    /// starts a span only where none was; the pre-send phase updates an open span
    /// only; the end of sending ends a span only after its update.
    pub fn step(self, e: HostEvent) -> (r: (SpanPhase, SpanStep))
        ensures
            r == span_next(self, e),
    {
        match (self, e) {
            (SpanPhase::Absent, HostEvent::Run) => (SpanPhase::Open, SpanStep::Start),
            (SpanPhase::Open, HostEvent::BeforeSend) => (SpanPhase::Closing, SpanStep::Update),
            (SpanPhase::Closing, HostEvent::Sent { success }) => (
                SpanPhase::Ended,
                SpanStep::End { send_failed: !success },
            ),
            _ => (self, SpanStep::Nothing),
        }
    }
}

/// The phase of a span after a sequence of host events, and how many times it ended.
pub open spec fn span_run(p: SpanPhase, evs: Seq<HostEvent>) -> (SpanPhase, nat)
    decreases evs.len(),
{
    if evs.len() == 0 {
        (p, 0)
    } else {
        let (q, n) = span_run(p, evs.drop_last());
        let (r, step) = span_next(q, evs.last());
        (r, if step is End { n + 1 } else { n })
    }
}

/// How many times the span of a request with these host events ends.
pub open spec fn span_ends(evs: Seq<HostEvent>) -> nat {
    span_run(SpanPhase::Absent, evs).1
}

/// How far a span has gone.
pub open spec fn span_rank(p: SpanPhase) -> nat {
    match p {
        SpanPhase::Absent => 0,
        SpanPhase::Open => 1,
        SpanPhase::Closing => 2,
        SpanPhase::Ended => 3,
    }
}

proof fn lemma_span_ends_counts_ended(evs: Seq<HostEvent>)
    ensures
        span_run(SpanPhase::Absent, evs).1 == (if span_run(SpanPhase::Absent, evs).0
            == SpanPhase::Ended {
            1nat
        } else {
            0nat
        }),
    decreases evs.len(),
{
    if evs.len() > 0 {
        lemma_span_ends_counts_ended(evs.drop_last());
    }
}

proof fn lemma_span_rank_grows(evs: Seq<HostEvent>, a: int, b: int)
    requires
        0 <= a <= b <= evs.len(),
    ensures
        span_rank(span_run(SpanPhase::Absent, evs.take(a)).0) <= span_rank(
            span_run(SpanPhase::Absent, evs.take(b)).0,
        ),
    decreases b - a,
{
    if a < b {
        lemma_span_rank_grows(evs, a, b - 1);
        assert(evs.take(b).drop_last() =~= evs.take(b - 1));
    }
}

proof fn lemma_span_step_at(evs: Seq<HostEvent>, i: int)
    requires
        0 <= i < evs.len(),
    ensures
        span_run(SpanPhase::Absent, evs.take(i + 1)).0 == span_next(
            span_run(SpanPhase::Absent, evs.take(i)).0,
            evs[i],
        ).0,
{
    assert(evs.take(i + 1).drop_last() =~= evs.take(i));
}

/// A request's span ends at most once, whatever the host does; and where the
/// host ran main processing, then the pre-send phase, then signalled the end of
/// sending (also a failed send or an abort), it ends exactly once.
pub proof fn span_ends_exactly_once(evs: Seq<HostEvent>)
    ensures
        span_ends(evs) <= 1,
        crate::lifecycle::runs_to_completion(evs) ==> span_ends(evs) == 1,
{
    lemma_span_ends_counts_ended(evs);
    if crate::lifecycle::runs_to_completion(evs) {
        let (i, j, k) = choose|i: int, j: int, k: int|
            0 <= i < j < k < evs.len() && #[trigger] evs[i] == HostEvent::Run && #[trigger] evs[j]
                == HostEvent::BeforeSend && (#[trigger] evs[k] is Sent);
        lemma_span_step_at(evs, i);
        lemma_span_rank_grows(evs, i + 1, j);
        lemma_span_step_at(evs, j);
        lemma_span_rank_grows(evs, j + 1, k);
        lemma_span_step_at(evs, k);
        lemma_span_rank_grows(evs, k + 1, evs.len() as int);
        assert(evs.take(evs.len() as int) =~= evs);
    }
}

/// A route that is only resolved after main processing still names the span in
/// the end, and is carried as its route attribute; the span starts with the bare
/// method as its name.
pub proof fn late_route_names_span(
    method: Seq<char>,
    status: Option<u16>,
    route: Seq<char>,
    classified: Option<Seq<char>>,
)
    ensures
        span_name(method, None) == method,
        final_span_name(span_name(method, None), span_rename(method, false, Some(route)))
            == method + " "@ + route,
        span_update_attrs(status, false, Some(route), classified)[1] == (
            "http.route"@,
            ValueModel::Str(route),
        ),
{
}

/// Whether no key of `m` starts with `c`.
pub open spec fn keys_avoid(m: Seq<(Seq<char>, ValueModel)>, c: char) -> bool {
    forall|i: int| 0 <= i < m.len() ==> #[trigger] m[i].0.len() > 0 && m[i].0[0] != c
}

proof fn lemma_keys_avoid_concat(a: Seq<(Seq<char>, ValueModel)>, b: Seq<(Seq<char>, ValueModel)>, c: char)
    requires
        keys_avoid(a, c),
        keys_avoid(b, c),
    ensures
        keys_avoid(a + b, c),
{
    assert forall|i: int| 0 <= i < (a + b).len() implies #[trigger] (a + b)[i].0.len() > 0 && (a
        + b)[i].0[0] != c by {
        if i >= a.len() {
            assert((a + b)[i] == b[i - a.len()]);
            assert(b[i - a.len()].0.len() > 0);
        } else {
            assert((a + b)[i] == a[i]);
            assert(a[i].0.len() > 0);
        }
    }
}

proof fn lemma_span_start_keys_avoid_s(
    conn: ConnSnapshot,
    local: Option<(Seq<char>, u16)>,
    headers: Seq<(Seq<char>, Seq<Seq<char>>)>,
    route: Option<Seq<char>>,
)
    ensures
        keys_avoid(span_start_attrs(conn, local, headers, None, route), 's'),
{
    reveal_strlit("http.request.method");
    reveal_strlit("url.path");
    reveal_strlit("url.scheme");
    reveal_strlit("url.query");
    reveal_strlit("network.protocol.name");
    reveal_strlit("network.protocol.version");
    reveal_strlit("network.local.address");
    reveal_strlit("network.local.port");
    reveal_strlit("client.address");
    reveal_strlit("http.request.header.");
    reveal_strlit("user_agent.original");
    reveal_strlit("http.route");
    let fixed = seq![
        ("http.request.method"@, ValueModel::Str(conn.method@)),
        ("url.path"@, ValueModel::Str(conn.path@)),
        ("url.scheme"@, ValueModel::Str(scheme(conn.is_secure))),
        ("url.query"@, ValueModel::Str(conn.query@)),
        ("network.protocol.name"@, ValueModel::Str("http"@)),
        ("network.protocol.version"@, ValueModel::Str(protocol_version(conn.http_version@))),
    ];
    let a = address_port_attrs("network.local.address"@, "network.local.port"@, local);
    let b = opt_str_attr("client.address"@, conn.peer_ip.deep_view());
    let h = headers_attrs(headers);
    let d = address_port_attrs("server.address"@, "server.port"@, None);
    let e = opt_str_attr("user_agent.original"@, conn.user_agent.deep_view());
    let f = opt_str_attr("http.route"@, route);
    assert(keys_avoid(fixed, 's'));
    assert(keys_avoid(a, 's'));
    assert(keys_avoid(b, 's'));
    assert forall|i: int| 0 <= i < h.len() implies #[trigger] h[i].0.len() > 0 && h[i].0[0]
        != 's' by {
        let k = header_key(lower_of(headers[i].0));
        assert(h[i].0 == k);
        assert(k[0] == "http.request.header."@[0]);
    }
    assert(keys_avoid(d, 's'));
    assert(keys_avoid(e, 's'));
    assert(keys_avoid(f, 's'));
    lemma_keys_avoid_concat(fixed, a, 's');
    lemma_keys_avoid_concat(fixed + a, b, 's');
    lemma_keys_avoid_concat(fixed + a + b, h, 's');
    lemma_keys_avoid_concat(fixed + a + b + h, d, 's');
    lemma_keys_avoid_concat(fixed + a + b + h + d, e, 's');
    lemma_keys_avoid_concat(fixed + a + b + h + d + e, f, 's');
}

/// A span carries no server address or port unless the caller opted in to
/// them, whatever headers the request holds and mirrors.
pub proof fn span_server_attributes_need_opt_in(
    conn: ConnSnapshot,
    local: Option<(Seq<char>, u16)>,
    headers: Seq<(Seq<char>, Seq<Seq<char>>)>,
    route: Option<Seq<char>>,
)
    ensures
        !has_key(span_start_attrs(conn, local, headers, None, route), "server.address"@),
        !has_key(span_start_attrs(conn, local, headers, None, route), "server.port"@),
{
    lemma_span_start_keys_avoid_s(conn, local, headers, route);
    reveal_strlit("server.address");
    reveal_strlit("server.port");
    let m = span_start_attrs(conn, local, headers, None, route);
    assert forall|i: int| 0 <= i < m.len() implies #[trigger] m[i].0 != "server.address"@
        && m[i].0 != "server.port"@ by {
        assert(m[i].0.len() > 0 && m[i].0[0] != 's');
    }
}

/// The error type that a span is given when the response is about to be sent is
/// the classifier's answer where it gave one; otherwise the decimal status code
/// where the status is a server error; otherwise the span gets no error type.
pub proof fn span_error_type_attribute(
    status: Option<u16>,
    route_was_available: bool,
    route_now: Option<Seq<char>>,
    classified: Option<Seq<char>>,
)
    ensures
        ({
            let m = span_update_attrs(status, route_was_available, route_now, classified);
            &&& classified matches Some(c) ==> m.last() == ("error.type"@, ValueModel::Str(c))
            &&& classified is None && server_error(effective_status(status)) ==> m.last() == (
                "error.type"@,
                ValueModel::Str(decimal(effective_status(status) as nat)),
            )
            &&& classified is None && !server_error(effective_status(status)) ==> !has_key(
                m,
                "error.type"@,
            )
        }),
{
    reveal_strlit("http.response.status_code");
    reveal_strlit("http.route");
    reveal_strlit("error.type");
    let m = span_update_attrs(status, route_was_available, route_now, classified);
    if classified is None && !server_error(effective_status(status)) {
        assert("http.response.status_code"@[0] != "error.type"@[0]);
        assert("http.route"@[0] != "error.type"@[0]);
        assert forall|i: int| 0 <= i < m.len() implies #[trigger] m[i].0 != "error.type"@ by {
            assert(m[i].0 == "http.response.status_code"@ || m[i].0 == "http.route"@);
        }
    }
}

} // verus!
