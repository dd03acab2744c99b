//! Semantic-convention attributes of a request, computed from a snapshot of the
//! connection. Nothing here has state or side effects.
use crate::semconv::{
    http_request_method_key, http_response_status_code_key, http_route_key,
    network_protocol_name_key, network_protocol_version_key, server_address_key,
    server_port_key, url_scheme_key,
};
use crate::text::{
    decimal, decimal_text, find_colon, first_colon, parse_u16, parse_unsigned, u16_max,
};
use vstd::prelude::*;

verus! {

/// What an attribute value stands for.
pub enum ValueModel {
    Str(Seq<char>),
    Int(int),
    StrArray(Seq<Seq<char>>),
}

/// The value of an attribute: a string, an integer, or an array of strings.
#[derive(Clone, Debug, PartialEq, Eq)]
pub enum AttrValue {
    Str(String),
    Int(i64),
    StrArray(Vec<String>),
}

impl View for AttrValue {
    type V = ValueModel;

    open spec fn view(&self) -> ValueModel {
        match self {
            AttrValue::Str(s) => ValueModel::Str(s@),
            AttrValue::Int(i) => ValueModel::Int(*i as int),
            AttrValue::StrArray(v) => ValueModel::StrArray(v.deep_view()),
        }
    }
}

/// One named attribute.
#[derive(Clone, Debug, PartialEq, Eq)]
pub struct Attribute {
    pub key: String,
    pub value: AttrValue,
}

impl View for Attribute {
    type V = (Seq<char>, ValueModel);

    open spec fn view(&self) -> (Seq<char>, ValueModel) {
        (self.key@, self.value@)
    }
}

/// What an attribute set stands for: its (key, value) pairs in order.
pub open spec fn attrs_model(v: Seq<Attribute>) -> Seq<(Seq<char>, ValueModel)> {
    v.map_values(|a: Attribute| a@)
}

/// Whether some attribute of `m` has the key `k`.
pub open spec fn has_key(m: Seq<(Seq<char>, ValueModel)>, k: Seq<char>) -> bool {
    exists|i: int| 0 <= i < m.len() && #[trigger] m[i].0 == k
}

/// A string attribute, if the value is present.
pub open spec fn opt_str_attr(k: Seq<char>, v: Option<Seq<char>>) -> Seq<(Seq<char>, ValueModel)> {
    match v {
        Some(s) => seq![(k, ValueModel::Str(s))],
        None => seq![],
    }
}

/// An address attribute and a port attribute, if the pair is present.
pub open spec fn address_port_attrs(
    address_key: Seq<char>,
    port_key: Seq<char>,
    v: Option<(Seq<char>, u16)>,
) -> Seq<(Seq<char>, ValueModel)> {
    match v {
        Some((a, p)) => seq![
            (address_key, ValueModel::Str(a)),
            (port_key, ValueModel::Int(p as int)),
        ],
        None => seq![],
    }
}

/// The plain value of an optional address and port.
pub open spec fn pair_model(v: Option<(String, u16)>) -> Option<(Seq<char>, u16)> {
    match v {
        Some((a, p)) => Some((a@, p)),
        None => None,
    }
}

/// A snapshot of what the attributes read from a connection.
#[derive(Clone, Debug)]
pub struct ConnSnapshot {
    /// The request method, such as `GET`.
    pub method: String,
    /// The request path, without the query.
    pub path: String,
    /// The query string, without the `?`.
    pub query: String,
    /// Whether the connection is secure.
    pub is_secure: bool,
    /// The protocol version as the connection reports it, such as `HTTP/1.1`.
    pub http_version: String,
    /// The address of the peer, if known.
    pub peer_ip: Option<String>,
    /// The `User-Agent` request header, if present.
    pub user_agent: Option<String>,
    /// The `Content-Length` request header, if present.
    pub content_length: Option<String>,
    /// The response status, if one was set.
    pub status: Option<u16>,
    /// The length of the response body, if known.
    pub response_len: Option<u64>,
}

/// Whether a protocol version string starts with `HTTP/`.
pub open spec fn has_http_prefix(v: Seq<char>) -> bool {
    v.len() >= 5 && v.subrange(0, 5) == "HTTP/"@
}

impl ConnSnapshot {
    /// The host guarantees a protocol version of the form `HTTP/<number>`.
    pub open spec fn wf(&self) -> bool {
        has_http_prefix(self.http_version@)
    }
}

/// The numeric part of a protocol version: what follows `HTTP/`.
pub open spec fn protocol_version(v: Seq<char>) -> Seq<char> {
    v.subrange(5, v.len() as int)
}

/// The URL scheme of a connection.
pub open spec fn scheme(secure: bool) -> Seq<char> {
    if secure {
        "https"@
    } else {
        "http"@
    }
}

/// The status of a response: the one set, or 404 where none was.
pub open spec fn effective_status(status: Option<u16>) -> u16 {
    match status {
        Some(s) => s,
        None => 404,
    }
}

/// Whether a status is a server error.
pub open spec fn server_error(status: u16) -> bool {
    500 <= status && status < 600
}

/// The error type of a request: the classifier's answer where it gave one;
/// else the decimal status code where the status is a server error; else none.
pub open spec fn error_type_of(classified: Option<Seq<char>>, status: Option<u16>) -> Option<
    Seq<char>,
> {
    match classified {
        Some(c) => Some(c),
        None => if server_error(effective_status(status)) {
            Some(decimal(effective_status(status) as nat))
        } else {
            None
        },
    }
}

/// Whether `v` starts with `HTTP/`.
pub fn is_http_version(v: &str) -> (r: bool)
    ensures
        r == has_http_prefix(v@),
{
    proof {
        reveal_strlit("HTTP/");
    }
    let len = v.unicode_len();
    if len < 5 {
        return false;
    }
    let r = v.get_char(0) == 'H' && v.get_char(1) == 'T' && v.get_char(2) == 'T'
        && v.get_char(3) == 'P' && v.get_char(4) == '/';
    proof {
        let prefix = v@.subrange(0, 5);
        assert(r ==> prefix =~= "HTTP/"@);
        assert(prefix == "HTTP/"@ ==> prefix[0] == 'H' && prefix[1] == 'T' && prefix[2] == 'T'
            && prefix[3] == 'P' && prefix[4] == '/');
    }
    r
}

/// The numeric part of a protocol version such as `HTTP/1.1`. A version without
/// that prefix breaks the host's guarantee and is not accepted.
pub fn version_number(v: &str) -> (r: String)
    requires
        has_http_prefix(v@),
    ensures
        r@ == protocol_version(v@),
{
    let len = v.unicode_len();
    String::from_str(v.substring_char(5, len))
}

/// The status of a response: the one set, or 404 where none was.
pub fn status_or_not_found(status: Option<u16>) -> (r: u16)
    ensures
        r == effective_status(status),
{
    match status {
        Some(s) => s,
        None => 404,
    }
}

/// Whether a status is a server error (`5xx`).
pub fn is_server_error(status: u16) -> (r: bool)
    ensures
        r == server_error(status),
{
    500 <= status && status < 600
}

/// Resolves the error type of a request: the classifier's answer comes first;
/// where it gave none, a server-error status gives its decimal code; otherwise
/// there is no error type.
pub fn resolve_error_type(classified: Option<String>, status: Option<u16>) -> (r: Option<String>)
    ensures
        r.deep_view() == error_type_of(classified.deep_view(), status),
{
    match classified {
        Some(c) => Some(c),
        None => {
            let s = status_or_not_found(status);
            if is_server_error(s) {
                Some(decimal_text(s))
            } else {
                None
            }
        },
    }
}

/// The server address and port of a `Host` header: the part before the first
/// `:` and the number after it, where that number is a port; else the whole
/// header and the scheme's default port.
pub open spec fn address_and_port_of_host(host: Seq<char>, secure: bool) -> (Seq<char>, u16) {
    let default = (host, if secure { 443u16 } else { 80u16 });
    match first_colon(host) {
        Some(i) => match parse_unsigned(host.subrange(i + 1, host.len() as int), u16_max()) {
            Some(p) => (host.subrange(0, i), p as u16),
            None => default,
        },
        None => default,
    }
}

/// The server address and port that a `Host` header names.
pub fn server_address_and_port_from_host(host: &str, secure: bool) -> (r: (String, u16))
    ensures
        (r.0@, r.1) == address_and_port_of_host(host@, secure),
{
    let default_port: u16 = if secure {
        443
    } else {
        80
    };
    match find_colon(host) {
        Some(i) => {
            let len = host.unicode_len();
            match parse_u16(host.substring_char(i + 1, len)) {
                Some(p) => (String::from_str(host.substring_char(0, i)), p),
                None => (String::from_str(host), default_port),
            }
        },
        None => (String::from_str(host), default_port),
    }
}

pub(crate) fn push_attr(v: &mut Vec<Attribute>, a: Attribute)
    ensures
        attrs_model(final(v)@) == attrs_model(old(v)@).push(a@),
{
    let ghost a_model = a@;
    v.push(a);
    assert(attrs_model(v@) =~= attrs_model(old(v)@).push(a_model));
}

pub(crate) fn str_attr(key: &str, value: String) -> (r: Attribute)
    ensures
        r@ == (key@, ValueModel::Str(value@)),
{
    Attribute { key: String::from_str(key), value: AttrValue::Str(value) }
}

pub(crate) fn int_attr(key: &str, value: i64) -> (r: Attribute)
    ensures
        r@ == (key@, ValueModel::Int(value as int)),
{
    Attribute { key: String::from_str(key), value: AttrValue::Int(value) }
}

pub(crate) fn push_opt_str(v: &mut Vec<Attribute>, key: &str, value: Option<String>)
    ensures
        attrs_model(final(v)@) == attrs_model(old(v)@) + opt_str_attr(key@, value.deep_view()),
{
    match value {
        Some(s) => {
            push_attr(v, str_attr(key, s));
        },
        None => {},
    }
    assert(attrs_model(v@) =~= attrs_model(old(v)@) + opt_str_attr(key@, value.deep_view()));
}

pub(crate) fn push_address_port(
    v: &mut Vec<Attribute>,
    address_key: &str,
    port_key: &str,
    value: Option<(String, u16)>,
)
    ensures
        attrs_model(final(v)@) == attrs_model(old(v)@) + address_port_attrs(
            address_key@,
            port_key@,
            pair_model(value),
        ),
{
    let ghost m = pair_model(value);
    match value {
        Some((a, p)) => {
            push_attr(v, str_attr(address_key, a));
            push_attr(v, int_attr(port_key, p as i64));
        },
        None => {},
    }
    assert(attrs_model(v@) =~= attrs_model(old(v)@) + address_port_attrs(
        address_key@,
        port_key@,
        m,
    ));
}

/// The attributes that every measurement of a request carries, in order: method,
/// status code, protocol name, scheme, protocol version; then the error type,
/// the route, and the server address and port, each where present.
pub open spec fn metrics_attrs(
    conn: ConnSnapshot,
    route: Option<Seq<char>>,
    classified: Option<Seq<char>>,
    server: Option<(Seq<char>, u16)>,
) -> Seq<(Seq<char>, ValueModel)> {
    seq![
        ("http.request.method"@, ValueModel::Str(conn.method@)),
        ("http.response.status_code"@, ValueModel::Int(effective_status(conn.status) as int)),
        ("network.protocol.name"@, ValueModel::Str("http"@)),
        ("url.scheme"@, ValueModel::Str(scheme(conn.is_secure))),
        ("network.protocol.version"@, ValueModel::Str(protocol_version(conn.http_version@))),
    ] + opt_str_attr("error.type"@, error_type_of(classified, conn.status)) + opt_str_attr(
        "http.route"@,
        route,
    ) + address_port_attrs("server.address"@, "server.port"@, server)
}

pub(crate) fn scheme_text(secure: bool) -> (r: String)
    ensures
        r@ == scheme(secure),
{
    if secure {
        String::from_str("https")
    } else {
        String::from_str("http")
    }
}

/// The attributes of a request's measurements. `server` is the server address
/// and port where the caller opted in to them, and `None` otherwise.
pub fn metrics_attributes(
    conn: &ConnSnapshot,
    route: Option<String>,
    classified: Option<String>,
    server: Option<(String, u16)>,
) -> (r: Vec<Attribute>)
    requires
        conn.wf(),
    ensures
        attrs_model(r@) == metrics_attrs(
            *conn,
            route.deep_view(),
            classified.deep_view(),
            pair_model(server),
        ),
{
    let mut v: Vec<Attribute> = Vec::new();
    push_attr(&mut v, str_attr(http_request_method_key(), conn.method.clone()));
    push_attr(
        &mut v,
        int_attr(http_response_status_code_key(), status_or_not_found(conn.status) as i64),
    );
    push_attr(&mut v, str_attr(network_protocol_name_key(), String::from_str("http")));
    push_attr(&mut v, str_attr(url_scheme_key(), scheme_text(conn.is_secure)));
    push_attr(
        &mut v,
        str_attr(network_protocol_version_key(), version_number(conn.http_version.as_str())),
    );
    let error_type = resolve_error_type(classified, conn.status);
    push_opt_str(&mut v, "error.type", error_type);
    push_opt_str(&mut v, http_route_key(), route);
    push_address_port(&mut v, server_address_key(), server_port_key(), server);
    assert(attrs_model(v@) =~= metrics_attrs(
        *conn,
        route.deep_view(),
        classified.deep_view(),
        pair_model(server),
    ));
    v
}

/// The lower-case form of a header name, as `str::to_lowercase` gives it.
pub uninterp spec fn lower_of(s: Seq<char>) -> Seq<char>;

/// Relies on `str::to_lowercase`: its result depends on the characters alone, and
/// the empty string stays empty.
#[verifier::external_body]
fn lowercase(s: &str) -> (r: String)
    ensures
        r@ == lower_of(s@),
        s@.len() == 0 ==> r@.len() == 0,
{
    s.to_lowercase()
}

/// A request header to mirror into span attributes, with all of its values.
#[derive(Clone, Debug)]
pub struct MirroredHeader {
    pub name: String,
    pub values: Vec<String>,
}

impl View for MirroredHeader {
    type V = (Seq<char>, Seq<Seq<char>>);

    open spec fn view(&self) -> (Seq<char>, Seq<Seq<char>>) {
        (self.name@, self.values.deep_view())
    }
}

/// The key of a mirrored header whose lower-case name is `lowered`.
pub open spec fn header_key(lowered: Seq<char>) -> Seq<char> {
    "http.request.header."@ + lowered
}

/// The attribute of a mirrored header: its values as an array of strings.
pub open spec fn header_attr(lowered: Seq<char>, values: Seq<Seq<char>>) -> (
    Seq<char>,
    ValueModel,
) {
    (header_key(lowered), ValueModel::StrArray(values))
}

/// The attributes of mirrored headers, one for each, in order.
pub open spec fn headers_attrs(headers: Seq<(Seq<char>, Seq<Seq<char>>)>) -> Seq<
    (Seq<char>, ValueModel),
> {
    headers.map_values(|h: (Seq<char>, Seq<Seq<char>>)| header_attr(lower_of(h.0), h.1))
}

/// What a list of mirrored headers stands for.
pub open spec fn headers_model(headers: Seq<MirroredHeader>) -> Seq<(Seq<char>, Seq<Seq<char>>)> {
    headers.map_values(|h: MirroredHeader| h@)
}

/// The attribute of a mirrored header, given its name already in lower case.
pub fn header_attribute(lowered_name: &str, values: Vec<String>) -> (r: Attribute)
    ensures
        r@ == header_attr(lowered_name@, values.deep_view()),
{
    let mut key = String::from_str("http.request.header.");
    key.append(lowered_name);
    Attribute { key, value: AttrValue::StrArray(values) }
}

/// Appends the attribute of each mirrored header, in order.
pub(crate) fn push_headers(v: &mut Vec<Attribute>, headers: &Vec<MirroredHeader>)
    ensures
        attrs_model(final(v)@) == attrs_model(old(v)@) + headers_attrs(headers_model(headers@)),
{
    let ghost base = attrs_model(v@);
    let ghost hm = headers_model(headers@);
    let mut i: usize = 0;
    while i < headers.len()
        invariant
            i <= headers@.len(),
            hm == headers_model(headers@),
            attrs_model(v@) == base + headers_attrs(hm.take(i as int)),
        decreases headers@.len() - i,
    {
        let h = &headers[i];
        let lowered = lowercase(h.name.as_str());
        let values = h.values.clone();
        assert(values.deep_view() =~= h.values.deep_view());
        push_attr(v, header_attribute(lowered.as_str(), values));
        assert(hm.take(i + 1) =~= hm.take(i as int).push(hm[i as int]));
        assert(headers_attrs(hm.take(i + 1)) =~= headers_attrs(hm.take(i as int)).push(
            header_attr(lower_of(hm[i as int].0), hm[i as int].1),
        ));
        assert(attrs_model(v@) =~= base + headers_attrs(hm.take(i + 1)));
        i = i + 1;
    }
    assert(hm.take(headers@.len() as int) =~= hm);
}

proof fn lemma_metrics_keys_differ()
    ensures
        "http.request.method"@ != "error.type"@,
        "http.response.status_code"@ != "error.type"@,
        "network.protocol.name"@ != "error.type"@,
        "url.scheme"@ != "error.type"@,
        "network.protocol.version"@ != "error.type"@,
        "http.route"@ != "error.type"@,
        "server.address"@ != "error.type"@,
        "server.port"@ != "error.type"@,
        "http.request.method"@ != "server.address"@,
        "http.response.status_code"@ != "server.address"@,
        "network.protocol.name"@ != "server.address"@,
        "url.scheme"@ != "server.address"@,
        "network.protocol.version"@ != "server.address"@,
        "http.route"@ != "server.address"@,
        "error.type"@ != "server.address"@,
        "http.request.method"@ != "server.port"@,
        "http.response.status_code"@ != "server.port"@,
        "network.protocol.name"@ != "server.port"@,
        "url.scheme"@ != "server.port"@,
        "network.protocol.version"@ != "server.port"@,
        "http.route"@ != "server.port"@,
        "error.type"@ != "server.port"@,
{
    reveal_strlit("http.request.method");
    reveal_strlit("http.response.status_code");
    reveal_strlit("network.protocol.name");
    reveal_strlit("url.scheme");
    reveal_strlit("network.protocol.version");
    reveal_strlit("http.route");
    reveal_strlit("server.address");
    reveal_strlit("server.port");
    reveal_strlit("error.type");
    assert("http.request.method"@[0] != "error.type"@[0]);
    assert("http.response.status_code"@[0] != "error.type"@[0]);
    assert("network.protocol.name"@[0] != "error.type"@[0]);
    assert("url.scheme"@[0] != "error.type"@[0]);
    assert("network.protocol.version"@[0] != "error.type"@[0]);
    assert("http.route"@[0] != "error.type"@[0]);
    assert("server.address"@[0] != "error.type"@[0]);
    assert("server.port"@[0] != "error.type"@[0]);
    assert("http.request.method"@[0] != "server.address"@[0]);
    assert("http.response.status_code"@[0] != "server.address"@[0]);
    assert("network.protocol.name"@[0] != "server.address"@[0]);
    assert("url.scheme"@[0] != "server.address"@[0]);
    assert("network.protocol.version"@[0] != "server.address"@[0]);
    assert("http.route"@[0] != "server.address"@[0]);
    assert("http.request.method"@[0] != "server.port"@[0]);
    assert("http.response.status_code"@[0] != "server.port"@[0]);
    assert("network.protocol.name"@[0] != "server.port"@[0]);
    assert("url.scheme"@[0] != "server.port"@[0]);
    assert("network.protocol.version"@[0] != "server.port"@[0]);
    assert("http.route"@[0] != "server.port"@[0]);
    assert("server.address"@.len() != "server.port"@.len());
}

/// The error type of a request's measurements is the classifier's answer where
/// it gave one; otherwise the decimal status code where the status is a server
/// error; otherwise the measurements carry no error type.
pub proof fn error_type_attribute(
    conn: ConnSnapshot,
    route: Option<Seq<char>>,
    classified: Option<Seq<char>>,
    server: Option<(Seq<char>, u16)>,
)
    ensures
        classified matches Some(c) ==> metrics_attrs(conn, route, classified, server)[5] == (
            "error.type"@,
            ValueModel::Str(c),
        ),
        classified is None && server_error(effective_status(conn.status)) ==> metrics_attrs(
            conn,
            route,
            classified,
            server,
        )[5] == ("error.type"@, ValueModel::Str(decimal(effective_status(conn.status) as nat))),
        classified is None && !server_error(effective_status(conn.status)) ==> !has_key(
            metrics_attrs(conn, route, classified, server),
            "error.type"@,
        ),
{
    lemma_metrics_keys_differ();
    let m = metrics_attrs(conn, route, classified, server);
    if classified is None && !server_error(effective_status(conn.status)) {
        assert forall|i: int| 0 <= i < m.len() implies #[trigger] m[i].0 != "error.type"@ by {
            if i >= 5 {
                assert(m[i].0 == "http.route"@ || m[i].0 == "server.address"@ || m[i].0
                    == "server.port"@);
            }
        }
    }
}

/// The measurements of a request carry no server address or port unless the
/// caller opted in to them, whatever the request holds.
pub proof fn server_attributes_need_opt_in(
    conn: ConnSnapshot,
    route: Option<Seq<char>>,
    classified: Option<Seq<char>>,
)
    ensures
        !has_key(metrics_attrs(conn, route, classified, None), "server.address"@),
        !has_key(metrics_attrs(conn, route, classified, None), "server.port"@),
{
    lemma_metrics_keys_differ();
    let m = metrics_attrs(conn, route, classified, None);
    assert forall|i: int| 0 <= i < m.len() implies #[trigger] m[i].0 != "server.address"@
        && m[i].0 != "server.port"@ by {
        if i >= 5 {
            assert(m[i].0 == "http.route"@ || m[i].0 == "error.type"@);
        }
    }
}

} // verus!
