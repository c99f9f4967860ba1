//! HTTP upgrade for SPDY/3.1 port-forwarding.
//!
//! There are two upgrade paths, and both deliver SPDY/3.1 frames to the
//! apiserver: SPDY tunnelled inside a WebSocket, and raw SPDY/3.1 over an
//! HTTP/1.1 upgrade for older apiservers. The tunnelled path is tried first.
//! Sending the requests is left to the caller.
use crate::error::Error;
use crate::outside::encode::base64_encode;
use crate::outside::encode::base64_standard;
use crate::outside::encode::debug_str;
use crate::outside::encode::debug_text;
use crate::outside::encode::is_base64_char;
use crate::outside::encode::random_bytes;
use crate::outside::headers::ascii_bytes;
use crate::outside::headers::ascii_text;
use crate::outside::headers::header_entries;
use crate::outside::headers::header_get;
use crate::outside::headers::header_insert;
use crate::outside::headers::header_map_new;
use crate::outside::headers::header_value_to_str;
use crate::outside::headers::http_uri;
use crate::outside::headers::is_header_name;
use crate::outside::headers::is_header_text;
use crate::outside::headers::is_visible;
use crate::outside::headers::parse_uri;
use crate::recovery::RecoverySignal;
use crate::subprotocol::Subprotocol;
use crate::text::clone_opt;
use crate::text::decimal;
use crate::text::opt_text;
use crate::text::str_eq;
use crate::text::to_decimal;
use http::HeaderMap;
use http::HeaderValue;
use vstd::prelude::*;

verus! {

/// The subprotocol asked for on the tunnelled path.
pub const SPDY_SUBPROTOCOL: &'static str = "SPDY/3.1+portforward.k8s.io";

/// The protocol asked for on the raw path.
pub const LEGACY_SPDY_UPGRADE: &'static str = "SPDY/3.1";

/// The stream protocol asked for on the raw path.
pub const LEGACY_STREAM_PROTOCOL: &'static str = "portforward.k8s.io";

/// Where the apiserver is.
pub struct ClusterUrl {
    pub scheme: Option<String>,
    pub authority: Option<String>,
}

impl ClusterUrl {
    /// Reads a cluster URL. The error is the complaint in words.
    pub fn parse(text: &str) -> (r: Result<ClusterUrl, String>)
        ensures
            match http_uri(text@) {
                Ok(uri) => r matches Ok(url) && opt_text(url.scheme) == uri.scheme && opt_text(
                    url.authority,
                ) == uri.authority,
                Err(complaint) => r matches Err(message) && message@ == complaint,
            },
    {
        match parse_uri(text) {
            Ok(uri) => Ok(ClusterUrl { scheme: uri.scheme, authority: uri.authority }),
            Err(complaint) => Err(complaint),
        }
    }

    /// Whether `other` is the same place.
    pub open spec fn same_as(self, other: ClusterUrl) -> bool {
        opt_text(self.scheme) == opt_text(other.scheme) && opt_text(self.authority) == opt_text(
            other.authority,
        )
    }
}

impl Clone for ClusterUrl {
    fn clone(&self) -> (r: ClusterUrl)
        ensures
            r.same_as(*self),
    {
        ClusterUrl { scheme: clone_opt(&self.scheme), authority: clone_opt(&self.authority) }
    }
}

/// HTTP methods in use.
#[derive(Clone, Copy, Debug, PartialEq, Eq, Structural)]
pub enum Method {
    Get,
    Post,
}

/// An upgrade request.
pub struct UpgradeRequest {
    pub method: Method,
    pub uri: String,
    pub headers: HeaderMap<HeaderValue>,
    pub body: Vec<u8>,
}

/// What is looked at in the answer to an upgrade request.
pub struct UpgradeResponse {
    pub status: u16,
    pub headers: HeaderMap<HeaderValue>,
}

/// Characters of a namespace or pod name: ASCII, not a control character, and
/// none that would end a path segment.
pub open spec fn is_name_safe(c: char) -> bool {
    ' ' <= c <= '~' && c != '/' && c != '?' && c != '#'
}

/// A namespace or pod name that may stand in a path.
pub open spec fn valid_name(name: Seq<char>) -> bool {
    &&& name.len() > 0
    &&& forall|i: int| 0 <= i < name.len() ==> is_name_safe(#[trigger] name[i])
}

/// The path of a pod's port-forward endpoint.
pub open spec fn portforward_path(namespace: Seq<char>, pod: Seq<char>) -> Seq<char> {
    "/api/v1/namespaces/"@ + namespace + "/pods/"@ + pod + "/portforward"@
}

/// The URI of a pod's port-forward endpoint, as it is put together.
pub open spec fn portforward_text(
    scheme: Seq<char>,
    authority: Seq<char>,
    namespace: Seq<char>,
    pod: Seq<char>,
) -> Seq<char> {
    scheme + "://"@ + authority + portforward_path(namespace, pod)
}

/// The URI of a pod's port-forward endpoint, or the complaint.
pub open spec fn portforward_target(
    scheme: Option<Seq<char>>,
    authority: Option<Seq<char>>,
    namespace: Seq<char>,
    pod: Seq<char>,
) -> Result<Seq<char>, Seq<char>> {
    if !valid_name(namespace) || !valid_name(pod) {
        Err("invalid namespace or pod name: has a forbidden character or non-ASCII"@)
    } else {
        match (scheme, authority) {
            (None, _) => Err("cluster_url has no scheme"@),
            (_, None) => Err("cluster_url has no authority"@),
            (Some(s), Some(a)) => match http_uri(portforward_text(s, a, namespace, pod)) {
                Ok(uri) => Ok(uri.text),
                Err(complaint) => Err("invalid port-forward URI: "@ + complaint),
            },
        }
    }
}

/// [`portforward_target`] on a cluster URL.
pub open spec fn target(url: ClusterUrl, namespace: Seq<char>, pod: Seq<char>) -> Result<
    Seq<char>,
    Seq<char>,
> {
    portforward_target(opt_text(url.scheme), opt_text(url.authority), namespace, pod)
}

/// The one value of a header.
pub open spec fn one(value: Seq<char>) -> Seq<Seq<u8>> {
    seq![ascii_bytes(value)]
}

/// The headers of a tunnelled upgrade before the WebSocket handshake's own.
pub open spec fn tunnel_headers() -> Map<Seq<char>, Seq<Seq<u8>>> {
    Map::empty().insert("sec-websocket-protocol"@, one(SPDY_SUBPROTOCOL@))
}

/// The headers of a raw upgrade.
pub open spec fn legacy_headers() -> Map<Seq<char>, Seq<Seq<u8>>> {
    Map::empty().insert("connection"@, one("Upgrade"@)).insert(
        "upgrade"@,
        one(LEGACY_SPDY_UPGRADE@),
    ).insert("x-stream-protocol-version"@, one(LEGACY_STREAM_PROTOCOL@))
}

/// `headers` with those of a WebSocket handshake under the key `key`.
pub open spec fn with_handshake(
    headers: Map<Seq<char>, Seq<Seq<u8>>>,
    key: Seq<char>,
) -> Map<Seq<char>, Seq<Seq<u8>>> {
    headers.insert("connection"@, one("Upgrade"@)).insert("upgrade"@, one("websocket"@)).insert(
        "sec-websocket-version"@,
        one("13"@),
    ).insert("sec-websocket-key"@, one(key))
}

/// The text of a header, empty where it is missing or not plain text.
pub open spec fn header_text(headers: Map<Seq<char>, Seq<Seq<u8>>>, name: Seq<char>) -> Seq<char> {
    if headers.dom().contains(name) && is_header_text(ascii_text(headers[name][0])) {
        ascii_text(headers[name][0])
    } else {
        Seq::empty()
    }
}

/// A character in lower case, where it is an ASCII letter.
pub open spec fn ascii_lower(c: char) -> char {
    if 'A' <= c <= 'Z' {
        ((c as u32) + 32) as char
    } else {
        c
    }
}

/// Whether two texts differ in the case of ASCII letters at most.
pub open spec fn same_ignoring_case(a: Seq<char>, b: Seq<char>) -> bool {
    &&& a.len() == b.len()
    &&& forall|i: int| 0 <= i < a.len() ==> ascii_lower(#[trigger] a[i]) == ascii_lower(b[i])
}

/// Whether `s` may stand in a path.
pub fn name_is_valid(s: &str) -> (r: bool)
    ensures
        r == valid_name(s@),
{
    let n = s.unicode_len();
    let mut i: usize = 0;
    while i < n
        invariant
            n == s@.len(),
            i <= n,
            forall|j: int| 0 <= j < i ==> is_name_safe(#[trigger] s@[j]),
        decreases n - i,
    {
        let c = s.get_char(i);
        if c < ' ' || c > '~' || c == '/' || c == '?' || c == '#' {
            assert(!is_name_safe(s@[i as int]));
            return false;
        }
        i = i + 1;
    }
    n > 0
}

/// Whether two texts are equal but for the case of ASCII letters.
pub fn eq_ignore_ascii_case(a: &str, b: &str) -> (r: bool)
    ensures
        r == same_ignoring_case(a@, b@),
{
    let n = a.unicode_len();
    if n != b.unicode_len() {
        return false;
    }
    let mut i: usize = 0;
    while i < n
        invariant
            n == a@.len(),
            n == b@.len(),
            i <= n,
            forall|j: int| 0 <= j < i ==> ascii_lower(#[trigger] a@[j]) == ascii_lower(b@[j]),
        decreases n - i,
    {
        if to_lower(a.get_char(i)) != to_lower(b.get_char(i)) {
            assert(ascii_lower(a@[i as int]) != ascii_lower(b@[i as int]));
            return false;
        }
        i = i + 1;
    }
    true
}

fn to_lower(c: char) -> (r: char)
    ensures
        r == ascii_lower(c),
{
    if 'A' <= c && c <= 'Z' {
        ((c as u8) + 32) as char
    } else {
        c
    }
}

/// The URI of a pod's port-forward endpoint.
pub fn portforward_uri(cluster_url: &ClusterUrl, namespace: &str, pod: &str) -> (r: Result<
    String,
    Error,
>)
    ensures
        match target(*cluster_url, namespace@, pod@) {
            Ok(uri) => r matches Ok(text) && text@ == uri,
            Err(complaint) => r matches Err(e) && e.is_configuration(complaint),
        },
{
    if !name_is_valid(namespace) || !name_is_valid(pod) {
        return Err(
            Error::Configuration(
                "invalid namespace or pod name: has a forbidden character or non-ASCII".to_owned(),
            ),
        );
    }
    let scheme = match &cluster_url.scheme {
        Some(s) => s,
        None => {
            return Err(Error::Configuration("cluster_url has no scheme".to_owned()));
        },
    };
    let authority = match &cluster_url.authority {
        Some(a) => a,
        None => {
            return Err(Error::Configuration("cluster_url has no authority".to_owned()));
        },
    };
    let path = "/api/v1/namespaces/".to_owned().concat(namespace).concat("/pods/").concat(
        pod,
    ).concat("/portforward");
    let text = scheme.clone().concat("://").concat(authority.as_str()).concat(path.as_str());
    assert(text@ == portforward_text(scheme@, authority@, namespace@, pod@));
    match parse_uri(text.as_str()) {
        Ok(uri) => Ok(uri.text),
        Err(complaint) => Err(
            Error::Configuration(
                "invalid port-forward URI: ".to_owned().concat(complaint.as_str()),
            ),
        ),
    }
}

/// Whether `r` is a request with this method and these headers to the pod's
/// endpoint, or the complaint about the endpoint.
pub open spec fn request_built(
    url: ClusterUrl,
    namespace: Seq<char>,
    pod: Seq<char>,
    method: Method,
    headers: Map<Seq<char>, Seq<Seq<u8>>>,
    r: Result<UpgradeRequest, Error>,
) -> bool {
    match target(url, namespace, pod) {
        Ok(uri) => r matches Ok(request) && {
            &&& request.method == method
            &&& request.uri@ == uri
            &&& header_entries(request.headers) =~= headers
            &&& request.body@.len() == 0
        },
        Err(complaint) => r matches Err(e) && e.is_configuration(complaint),
    }
}

/// Builds a WebSocket-tunnelled SPDY upgrade request.
pub fn build_spdy_tunnel_request(cluster_url: &ClusterUrl, namespace: &str, pod: &str) -> (r:
    Result<UpgradeRequest, Error>)
    ensures
        request_built(*cluster_url, namespace@, pod@, Method::Get, tunnel_headers(), r),
{
    let uri = match portforward_uri(cluster_url, namespace, pod) {
        Ok(uri) => uri,
        Err(e) => {
            return Err(e);
        },
    };
    let mut headers = header_map_new();
    proof {
        lemma_literals();
        assert(header_entries(headers) =~= Map::empty());
    }
    header_insert(&mut headers, "sec-websocket-protocol", SPDY_SUBPROTOCOL);
    Ok(UpgradeRequest { method: Method::Get, uri, headers, body: Vec::new() })
}

/// Builds a raw SPDY/3.1 upgrade request, without a WebSocket envelope.
pub fn build_legacy_spdy_request(cluster_url: &ClusterUrl, namespace: &str, pod: &str) -> (r:
    Result<UpgradeRequest, Error>)
    ensures
        request_built(*cluster_url, namespace@, pod@, Method::Post, legacy_headers(), r),
{
    let uri = match portforward_uri(cluster_url, namespace, pod) {
        Ok(uri) => uri,
        Err(e) => {
            return Err(e);
        },
    };
    let mut headers = header_map_new();
    proof {
        lemma_literals();
        assert(header_entries(headers) =~= Map::empty());
    }
    header_insert(&mut headers, "connection", "Upgrade");
    header_insert(&mut headers, "upgrade", LEGACY_SPDY_UPGRADE);
    header_insert(&mut headers, "x-stream-protocol-version", LEGACY_STREAM_PROTOCOL);
    Ok(UpgradeRequest { method: Method::Post, uri, headers, body: Vec::new() })
}

/// The value of `Sec-WebSocket-Key` for sixteen bytes.
pub fn ws_key(bytes: &[u8; 16]) -> (r: String)
    ensures
        r@ == base64_standard(bytes@),
        r@.len() == 24,
        forall|i: int| 0 <= i < r@.len() ==> is_base64_char(#[trigger] r@[i]),
{
    base64_encode(bytes)
}

/// Generates a `Sec-WebSocket-Key` header value. Which one, chance decides;
/// see [`ws_key`].
pub fn generate_ws_key() -> (r: String)
    ensures
        r@.len() == 24,
        forall|i: int| 0 <= i < r@.len() ==> is_base64_char(#[trigger] r@[i]),
        exists|bytes: Seq<u8>| bytes.len() == 16 && r@ == #[trigger] base64_standard(bytes),
{
    let bytes = random_bytes();
    ws_key(&bytes)
}

/// Adds the headers of a WebSocket handshake under the key `key`.
pub fn add_handshake_headers(request: &mut UpgradeRequest, key: &str)
    requires
        is_header_text(key@),
        header_entries(old(request).headers).dom().finite(),
        header_entries(old(request).headers).dom().len() < 5000,
    ensures
        header_entries(final(request).headers) == with_handshake(
            header_entries(old(request).headers),
            key@,
        ),
        final(request).method == old(request).method,
        final(request).uri == old(request).uri,
        final(request).body == old(request).body,
{
    proof {
        lemma_literals();
    }
    header_insert(&mut request.headers, "connection", "Upgrade");
    header_insert(&mut request.headers, "upgrade", "websocket");
    header_insert(&mut request.headers, "sec-websocket-version", "13");
    header_insert(&mut request.headers, "sec-websocket-key", key);
}

/// Builds the whole request of the tunnelled path under a fresh key.
pub fn ws_upgrade_request(cluster_url: &ClusterUrl, namespace: &str, pod: &str) -> (r: Result<
    UpgradeRequest,
    Error,
>)
    ensures
        exists|bytes: Seq<u8>|
            bytes.len() == 16 && request_built(
                *cluster_url,
                namespace@,
                pod@,
                Method::Get,
                with_handshake(tunnel_headers(), #[trigger] base64_standard(bytes)),
                r,
            ),
{
    let mut request = match build_spdy_tunnel_request(cluster_url, namespace, pod) {
        Ok(request) => request,
        Err(e) => {
            let ghost any = Seq::new(16, |i: int| 0u8);
            assert(base64_standard(any) == base64_standard(any));
            return Err(e);
        },
    };
    let key = generate_ws_key();
    proof {
        assert forall|i: int| 0 <= i < key@.len() implies is_visible(#[trigger] key@[i]) by {
            assert(is_base64_char(key@[i]));
        }
        assert(tunnel_headers().dom() =~= Set::empty().insert("sec-websocket-protocol"@));
    }
    add_handshake_headers(&mut request, key.as_str());
    Ok(request)
}

/// The text of a header, empty where it is missing or not plain text.
fn read_header(headers: &HeaderMap<HeaderValue>, name: &str) -> (r: String)
    requires
        is_header_name(name@),
    ensures
        r@ == header_text(header_entries(*headers), name@),
{
    match header_get(headers, name) {
        Some(value) => match header_value_to_str(value) {
            Some(text) => text.to_owned(),
            None => {
                proof {
                    reveal_strlit("");
                }
                "".to_owned()
            },
        },
        None => {
            proof {
                reveal_strlit("");
            }
            "".to_owned()
        },
    }
}

/// What is wrong with the answer on the tunnelled path, if anything.
pub open spec fn ws_answer_error(
    status: u16,
    headers: Map<Seq<char>, Seq<Seq<u8>>>,
) -> Option<UpgradeRefusal> {
    let negotiated = header_text(headers, "sec-websocket-protocol"@);
    if status != 101 {
        Some(
            UpgradeRefusal::Status {
                status,
                message: "SPDY-over-WebSocket upgrade: expected 101, got "@ + decimal(
                    status as nat,
                ),
            },
        )
    } else if negotiated != SPDY_SUBPROTOCOL@ {
        Some(
            UpgradeRefusal::Violation {
                context: "SPDY-over-WebSocket subprotocol negotiation"@,
                detail: "server picked an unexpected subprotocol: "@ + debug_text(negotiated)
                    + " (wanted "@ + debug_text(SPDY_SUBPROTOCOL@) + ")"@,
            },
        )
    } else {
        None
    }
}

/// What is wrong with the answer on the raw path, if anything.
pub open spec fn legacy_answer_error(
    status: u16,
    headers: Map<Seq<char>, Seq<Seq<u8>>>,
) -> Option<UpgradeRefusal> {
    let upgrade = header_text(headers, "upgrade"@);
    let stream_protocol = header_text(headers, "x-stream-protocol-version"@);
    if status != 101 {
        Some(
            UpgradeRefusal::Status {
                status,
                message: "legacy SPDY upgrade: expected 101, got "@ + decimal(status as nat),
            },
        )
    } else if !same_ignoring_case(upgrade, LEGACY_SPDY_UPGRADE@) {
        Some(
            UpgradeRefusal::Violation {
                context: "legacy SPDY upgrade"@,
                detail: "server sent back an unexpected Upgrade header: "@ + debug_text(upgrade)
                    + " (wanted "@ + debug_text(LEGACY_SPDY_UPGRADE@) + ")"@,
            },
        )
    } else if stream_protocol != LEGACY_STREAM_PROTOCOL@ {
        Some(
            UpgradeRefusal::Violation {
                context: "legacy SPDY upgrade"@,
                detail: "server sent back an unexpected X-Stream-Protocol-Version: "@ + debug_text(
                    stream_protocol,
                ) + " (wanted "@ + debug_text(LEGACY_STREAM_PROTOCOL@) + ")"@,
            },
        )
    } else {
        None
    }
}

/// A refused upgrade, in short.
pub enum UpgradeRefusal {
    /// The status was not "switching protocols".
    Status { status: u16, message: Seq<char> },
    /// A header was not what was asked for.
    Violation { context: Seq<char>, detail: Seq<char> },
}

/// Whether `error` reports `refusal`.
pub open spec fn reports(error: Error, refusal: UpgradeRefusal) -> bool {
    match refusal {
        UpgradeRefusal::Status { status, message } => error matches Error::UpgradeFailed {
            status: s,
            message: m,
        } && s == Some(status) && m@ == message,
        UpgradeRefusal::Violation { context, detail } => error matches Error::ProtocolViolation {
            context: c,
            detail: d,
        } && c@ == context && d@ == detail,
    }
}

/// A complaint about a header: what came, and what was wanted.
fn unexpected(what: &str, got: &str, wanted: &str) -> (r: String)
    ensures
        r@ == what@ + debug_text(got@) + " (wanted "@ + debug_text(wanted@) + ")"@,
{
    what.to_owned().concat(debug_str(got).as_str()).concat(" (wanted ").concat(
        debug_str(wanted).as_str(),
    ).concat(")")
}

/// Checks the answer on the tunnelled path.
pub fn check_ws_upgrade(response: &UpgradeResponse) -> (r: Result<(), Error>)
    ensures
        match ws_answer_error(response.status, header_entries(response.headers)) {
            Some(refusal) => r matches Err(e) && reports(e, refusal),
            None => r is Ok,
        },
{
    if response.status != 101 {
        return Err(
            Error::UpgradeFailed {
                status: Some(response.status),
                message: "SPDY-over-WebSocket upgrade: expected 101, got ".to_owned().concat(
                    to_decimal(response.status as u64).as_str(),
                ),
            },
        );
    }
    proof {
        lemma_literals();
    }
    let negotiated = read_header(&response.headers, "sec-websocket-protocol");
    if !str_eq(negotiated.as_str(), SPDY_SUBPROTOCOL) {
        return Err(
            Error::ProtocolViolation {
                context: "SPDY-over-WebSocket subprotocol negotiation",
                detail: unexpected(
                    "server picked an unexpected subprotocol: ",
                    negotiated.as_str(),
                    SPDY_SUBPROTOCOL,
                ),
            },
        );
    }
    Ok(())
}

/// Checks the answer on the raw path.
pub fn check_legacy_upgrade(response: &UpgradeResponse) -> (r: Result<(), Error>)
    ensures
        match legacy_answer_error(response.status, header_entries(response.headers)) {
            Some(refusal) => r matches Err(e) && reports(e, refusal),
            None => r is Ok,
        },
{
    if response.status != 101 {
        return Err(
            Error::UpgradeFailed {
                status: Some(response.status),
                message: "legacy SPDY upgrade: expected 101, got ".to_owned().concat(
                    to_decimal(response.status as u64).as_str(),
                ),
            },
        );
    }
    proof {
        lemma_literals();
    }
    let upgrade = read_header(&response.headers, "upgrade");
    if !eq_ignore_ascii_case(upgrade.as_str(), LEGACY_SPDY_UPGRADE) {
        return Err(
            Error::ProtocolViolation {
                context: "legacy SPDY upgrade",
                detail: unexpected(
                    "server sent back an unexpected Upgrade header: ",
                    upgrade.as_str(),
                    LEGACY_SPDY_UPGRADE,
                ),
            },
        );
    }
    let stream_protocol = read_header(&response.headers, "x-stream-protocol-version");
    if !str_eq(stream_protocol.as_str(), LEGACY_STREAM_PROTOCOL) {
        return Err(
            Error::ProtocolViolation {
                context: "legacy SPDY upgrade",
                detail: unexpected(
                    "server sent back an unexpected X-Stream-Protocol-Version: ",
                    stream_protocol.as_str(),
                    LEGACY_STREAM_PROTOCOL,
                ),
            },
        );
    }
    Ok(())
}

/// Takes the end of an upgrade that was agreed on: the connection was handed
/// over, or it was not for the cause given.
pub fn upgrade_completed(outcome: Result<(), String>) -> (r: Result<(), Error>)
    ensures
        match outcome {
            Ok(_) => r is Ok,
            Err(cause) => r matches Err(e) && e.is_network(
                "failed to complete HTTP upgrade: "@ + cause@,
            ),
        },
{
    match outcome {
        Ok(()) => Ok(()),
        Err(cause) => Err(
            Error::Network("failed to complete HTTP upgrade: ".to_owned().concat(cause.as_str())),
        ),
    }
}

/// What is wrong with the answer to an upgrade with this protocol.
pub open spec fn answer_error(protocol: Subprotocol, response: UpgradeResponse) -> Option<
    UpgradeRefusal,
> {
    match protocol {
        Subprotocol::Spdy31Tunnel => ws_answer_error(
            response.status,
            header_entries(response.headers),
        ),
        Subprotocol::LegacySpdy => legacy_answer_error(
            response.status,
            header_entries(response.headers),
        ),
    }
}

/// Takes the answer to an upgrade request with this protocol, or the words in
/// which the Kubernetes client says that there is none.
pub fn upgrade_answered(protocol: Subprotocol, answer: Result<UpgradeResponse, String>) -> (r:
    Result<(), Error>)
    ensures
        match answer {
            Ok(response) => match answer_error(protocol, response) {
                Some(refusal) => r matches Err(e) && reports(e, refusal),
                None => r is Ok,
            },
            Err(cause) => r == Err::<(), Error>(Error::Kube(cause)),
        },
{
    match answer {
        Ok(response) => match protocol {
            Subprotocol::Spdy31Tunnel => check_ws_upgrade(&response),
            Subprotocol::LegacySpdy => check_legacy_upgrade(&response),
        },
        Err(cause) => Err(Error::Kube(cause)),
    }
}

/// A failed attempt to upgrade, with the error in words.
pub struct UpgradeFailure {
    pub error: Error,
    pub text: String,
}

/// How the upgrade goes on.
pub enum FallbackStep {
    /// The upgrade came about on this path.
    Done(Subprotocol),
    /// Try the raw path and hand in the outcome together with this failure.
    TryLegacy(UpgradeFailure),
    /// The upgrade failed for good. The signal goes to the session's owner.
    Failed { error: Error, signal: Option<RecoverySignal> },
}

/// Whether a failed first try should trigger the raw path.
pub open spec fn falls_back(error: Error) -> bool {
    error is UpgradeFailed || error is ProtocolViolation
}

/// Whether a failed first try should trigger the raw path: the server
/// answered, but refused or misunderstood the tunnelled upgrade.
pub fn should_fallback(error: &Error) -> (r: bool)
    ensures
        r == falls_back(*error),
{
    match error {
        Error::UpgradeFailed { .. } => true,
        Error::ProtocolViolation { .. } => true,
        _ => false,
    }
}

/// The status that an error carries.
pub open spec fn status_of(error: Error) -> Option<u16> {
    match error {
        Error::UpgradeFailed { status, message: _ } => status,
        _ => None,
    }
}

/// Whether `signal` reports a failed upgrade with this status and text.
pub open spec fn signals(
    signal: Option<RecoverySignal>,
    status: Option<u16>,
    text: Seq<char>,
) -> bool {
    signal matches Some(RecoverySignal::UpgradeFailed { status: s, message }) && s == status
        && message@ == text
}

/// What follows on the first try.
pub open spec fn after_tunnel(
    outcome: Result<(), UpgradeFailure>,
    step: FallbackStep,
) -> bool {
    match outcome {
        Ok(_) => step == FallbackStep::Done(Subprotocol::Spdy31Tunnel),
        Err(failure) => if falls_back(failure.error) {
            step == FallbackStep::TryLegacy(failure)
        } else {
            step matches FallbackStep::Failed { error, signal } && {
                &&& error == failure.error
                &&& if failure.error is Kube || failure.error is Network {
                    signals(signal, None, failure.text@)
                } else {
                    signal is None
                }
            }
        },
    }
}

/// What follows on the second try.
pub open spec fn after_legacy(
    first: UpgradeFailure,
    outcome: Result<(), UpgradeFailure>,
    step: FallbackStep,
) -> bool {
    match outcome {
        Ok(_) => step == FallbackStep::Done(Subprotocol::LegacySpdy),
        Err(failure) => step matches FallbackStep::Failed { error, signal } && {
            &&& error == failure.error
            &&& signals(
                signal,
                if failure.error is UpgradeFailed {
                    status_of(failure.error)
                } else {
                    status_of(first.error)
                },
                "websocket upgrade rejected ("@ + first.text@
                    + "); legacy fallback also failed: "@ + failure.text@,
            )
        },
    }
}

/// Goes on after the first try, on the tunnelled path. A refused upgrade
/// leads to the raw path; a failure below HTTP is final and is signalled.
pub fn tunnel_tried(outcome: Result<(), UpgradeFailure>) -> (step: FallbackStep)
    ensures
        after_tunnel(outcome, step),
{
    match outcome {
        Ok(()) => FallbackStep::Done(Subprotocol::Spdy31Tunnel),
        Err(failure) => {
            if should_fallback(&failure.error) {
                return FallbackStep::TryLegacy(failure);
            }
            let below_http = match &failure.error {
                Error::Kube(_) => true,
                Error::Network(_) => true,
                _ => false,
            };
            let signal = if below_http {
                Some(RecoverySignal::UpgradeFailed { status: None, message: failure.text })
            } else {
                None
            };
            FallbackStep::Failed { error: failure.error, signal }
        },
    }
}

/// Goes on after the second try, on the raw path, which `first` led to.
pub fn legacy_tried(first: UpgradeFailure, outcome: Result<(), UpgradeFailure>) -> (step:
    FallbackStep)
    ensures
        after_legacy(first, outcome, step),
{
    match outcome {
        Ok(()) => FallbackStep::Done(Subprotocol::LegacySpdy),
        Err(failure) => {
            let status: Option<u16> = match &failure.error {
                Error::UpgradeFailed { status, .. } => *status,
                _ => match &first.error {
                    Error::UpgradeFailed { status, .. } => *status,
                    _ => None,
                },
            };
            let message = "websocket upgrade rejected (".to_owned().concat(
                first.text.as_str(),
            ).concat("); legacy fallback also failed: ").concat(failure.text.as_str());
            FallbackStep::Failed {
                error: failure.error,
                signal: Some(RecoverySignal::UpgradeFailed { status, message }),
            }
        },
    }
}

/// Different pods have different endpoints.
pub proof fn law_path_names_the_pod(
    namespace: Seq<char>,
    pod: Seq<char>,
    other_namespace: Seq<char>,
    other_pod: Seq<char>,
)
    requires
        valid_name(namespace),
        valid_name(pod),
        valid_name(other_namespace),
        valid_name(other_pod),
        portforward_path(namespace, pod) == portforward_path(other_namespace, other_pod),
    ensures
        namespace == other_namespace,
        pod == other_pod,
{
    let a = portforward_path(namespace, pod);
    let b = portforward_path(other_namespace, other_pod);
    let p = "/api/v1/namespaces/"@.len() as int;
    reveal_strlit("/pods/");
    assert(a[p + namespace.len()] == '/');
    assert(b[p + other_namespace.len()] == '/');
    if namespace.len() < other_namespace.len() {
        assert(b[p + namespace.len()] == other_namespace[namespace.len() as int]);
        assert(is_name_safe(other_namespace[namespace.len() as int]));
    } else if other_namespace.len() < namespace.len() {
        assert(a[p + other_namespace.len()] == namespace[other_namespace.len() as int]);
        assert(is_name_safe(namespace[other_namespace.len() as int]));
    }
    assert(a.subrange(p, p + namespace.len()) =~= namespace);
    assert(b.subrange(p, p + other_namespace.len()) =~= other_namespace);
    let q = p + namespace.len() + "/pods/"@.len();
    assert(a.subrange(q, q + pod.len()) =~= pod);
    assert(b.subrange(q, q + other_pod.len()) =~= other_pod);
}

/// The two paths address the same endpoint, and fail for the same reasons
/// before anything is sent.
pub proof fn law_both_paths_address_one_endpoint(
    cluster_url: ClusterUrl,
    namespace: Seq<char>,
    pod: Seq<char>,
    tunnel: Result<UpgradeRequest, Error>,
    legacy: Result<UpgradeRequest, Error>,
)
    requires
        request_built(cluster_url, namespace, pod, Method::Get, tunnel_headers(), tunnel),
        request_built(cluster_url, namespace, pod, Method::Post, legacy_headers(), legacy),
    ensures
        tunnel is Ok <==> legacy is Ok,
        tunnel matches Ok(a) ==> a.uri@ == legacy->Ok_0.uri@,
        !valid_name(namespace) || !valid_name(pod) ==> tunnel is Err,
{
}

/// An upgrade that comes about, on either path, raises no signal. One that
/// fails after both paths raises exactly one, and the error returned is that
/// of the last attempt.
pub proof fn law_signal_only_on_final_failure(
    first: Result<(), UpgradeFailure>,
    second: Result<(), UpgradeFailure>,
    step_one: FallbackStep,
    step_two: FallbackStep,
)
    requires
        after_tunnel(first, step_one),
        step_one is TryLegacy ==> after_legacy(step_one->TryLegacy_0, second, step_two),
    ensures
        first is Ok ==> step_one is Done,
        step_one is TryLegacy && second is Ok ==> step_two is Done,
        step_one is TryLegacy && second is Err ==> step_two is Failed
            && step_two->Failed_signal is Some && step_two->Failed_error == second->Err_0.error,
        step_one is Failed ==> !falls_back(first->Err_0.error) && (step_one->Failed_signal is Some
            <==> first->Err_0.error is Kube || first->Err_0.error is Network),
{
}

/// The names and values written here may stand in headers.
proof fn lemma_literals()
    ensures
        is_header_name("connection"@),
        is_header_name("upgrade"@),
        is_header_name("sec-websocket-protocol"@),
        is_header_name("sec-websocket-version"@),
        is_header_name("sec-websocket-key"@),
        is_header_name("x-stream-protocol-version"@),
        is_header_text("Upgrade"@),
        is_header_text("websocket"@),
        is_header_text("13"@),
        is_header_text(SPDY_SUBPROTOCOL@),
        is_header_text(LEGACY_SPDY_UPGRADE@),
        is_header_text(LEGACY_STREAM_PROTOCOL@),
{
    reveal_strlit("connection");
    reveal_strlit("upgrade");
    reveal_strlit("sec-websocket-protocol");
    reveal_strlit("sec-websocket-version");
    reveal_strlit("sec-websocket-key");
    reveal_strlit("x-stream-protocol-version");
    reveal_strlit("Upgrade");
    reveal_strlit("websocket");
    reveal_strlit("13");
    reveal_strlit("SPDY/3.1+portforward.k8s.io");
    reveal_strlit("SPDY/3.1");
    reveal_strlit("portforward.k8s.io");
}

/// Whether a character may stand in the name of a Kubernetes object.
pub open spec fn is_kubernetes_char(c: char) -> bool {
    'a' <= c <= 'z' || '0' <= c <= '9' || c == '-' || c == '.'
}

/// Every name that Kubernetes allows is accepted, digits, hyphens and dots
/// included. With a cluster URL that has a scheme and an authority the
/// request goes to `/api/v1/namespaces/{namespace}/pods/{pod}/portforward`
/// there, as the URI parser takes it.
pub proof fn law_kubernetes_names_reach_their_endpoint(
    url: ClusterUrl,
    scheme: String,
    authority: String,
    namespace: Seq<char>,
    pod: Seq<char>,
    method: Method,
    headers: Map<Seq<char>, Seq<Seq<u8>>>,
    r: Result<UpgradeRequest, Error>,
)
    requires
        url.scheme == Some(scheme),
        url.authority == Some(authority),
        namespace.len() > 0,
        pod.len() > 0,
        forall|i: int| 0 <= i < namespace.len() ==> is_kubernetes_char(#[trigger] namespace[i]),
        forall|i: int| 0 <= i < pod.len() ==> is_kubernetes_char(#[trigger] pod[i]),
        request_built(url, namespace, pod, method, headers, r),
    ensures
        valid_name(namespace),
        valid_name(pod),
        match http_uri(
            scheme@ + "://"@ + authority@ + "/api/v1/namespaces/"@ + namespace + "/pods/"@ + pod
                + "/portforward"@,
        ) {
            Ok(uri) => r matches Ok(request) && request.uri@ == uri.text && request.method == method
                && request.body@.len() == 0 && header_entries(request.headers) == headers,
            Err(complaint) => r matches Err(Error::Configuration(text)) && text@
                == "invalid port-forward URI: "@ + complaint,
        },
{
    assert forall|i: int| 0 <= i < namespace.len() implies is_name_safe(#[trigger] namespace[i]) by {
        assert(is_kubernetes_char(namespace[i]));
    }
    assert forall|i: int| 0 <= i < pod.len() implies is_name_safe(#[trigger] pod[i]) by {
        assert(is_kubernetes_char(pod[i]));
    }
    assert(scheme@ + "://"@ + authority@ + "/api/v1/namespaces/"@ + namespace + "/pods/"@ + pod
        + "/portforward"@ =~= portforward_text(scheme@, authority@, namespace, pod));
}

/// A name stands in a path exactly if it has at least one character and all
/// are printable ASCII, from the space to the tilde, other than the slash, the
/// question mark and the hash.
pub proof fn law_names_are_printable_segments(name: Seq<char>)
    ensures
        valid_name(name) <==> name.len() > 0 && forall|i: int|
            0 <= i < name.len() ==> 32 <= (#[trigger] name[i]) as int <= 126 && name[i] != '/'
                && name[i] != '?' && name[i] != '#',
{
    if valid_name(name) {
        assert forall|i: int| 0 <= i < name.len() implies 32 <= (
        #[trigger] name[i]) as int <= 126 && name[i] != '/' && name[i] != '?' && name[i] != '#' by {
            assert(is_name_safe(name[i]));
        }
    }
}

/// A name is accepted character by character: two parts that are accepted make
/// a name that is accepted, and a name with a part that is refused is refused.
pub proof fn law_names_are_checked_character_by_character(a: Seq<char>, b: Seq<char>)
    requires
        a.len() > 0,
        b.len() > 0,
    ensures
        valid_name(a + b) <==> valid_name(a) && valid_name(b),
{
    let both = a + b;
    if valid_name(both) {
        assert forall|i: int| 0 <= i < a.len() implies is_name_safe(#[trigger] a[i]) by {
            assert(both[i] == a[i]);
        }
        assert forall|i: int| 0 <= i < b.len() implies is_name_safe(#[trigger] b[i]) by {
            assert(both[a.len() + i] == b[i]);
        }
    }
}

/// Nothing is sent for a name that could change the path, or without knowing
/// where: an empty name, one with a control character, a character beyond
/// ASCII, a slash, a question mark or a hash, and a URL without scheme or
/// authority are refused, each with its own words, on both paths.
pub proof fn law_bad_endpoints_are_refused(
    url: ClusterUrl,
    namespace: Seq<char>,
    pod: Seq<char>,
    name: Seq<char>,
    i: int,
    method: Method,
    headers: Map<Seq<char>, Seq<Seq<u8>>>,
    r: Result<UpgradeRequest, Error>,
)
    requires
        request_built(url, namespace, pod, method, headers, r),
        name == namespace || name == pod,
    ensures
        name.len() == 0 || (0 <= i < name.len() && ((name[i] as int) < 32 || name[i] as int > 126
            || name[i] == '/' || name[i] == '?' || name[i] == '#')) ==> (r matches Err(
            Error::Configuration(text),
        ) && text@ == "invalid namespace or pod name: has a forbidden character or non-ASCII"@),
        valid_name(namespace) && valid_name(pod) && url.scheme is None ==> (r matches Err(
            Error::Configuration(text),
        ) && text@ == "cluster_url has no scheme"@),
        valid_name(namespace) && valid_name(pod) && url.scheme is Some && url.authority is None ==> (
        r matches Err(Error::Configuration(text)) && text@ == "cluster_url has no authority"@),
{
    if 0 <= i < name.len() && ((name[i] as int) < 32 || name[i] as int > 126 || name[i] == '/'
        || name[i] == '?' || name[i] == '#') {
        assert(!is_name_safe(name[i]));
        assert(!valid_name(name));
    }
}

/// The headers of the tunnelled request ask for a WebSocket upgrade under the
/// given key and for the SPDY subprotocol, and are no others.
pub proof fn law_tunnel_request_asks_for_a_websocket(key: Seq<char>)
    ensures
        ({
            let h = with_handshake(tunnel_headers(), key);
            &&& h["connection"@] == seq![ascii_bytes("Upgrade"@)]
            &&& h["upgrade"@] == seq![ascii_bytes("websocket"@)]
            &&& h["sec-websocket-version"@] == seq![ascii_bytes("13"@)]
            &&& h["sec-websocket-key"@] == seq![ascii_bytes(key)]
            &&& h["sec-websocket-protocol"@] == seq![
                ascii_bytes("SPDY/3.1+portforward.k8s.io"@),
            ]
            &&& h.dom() == set![
                "connection"@,
                "upgrade"@,
                "sec-websocket-version"@,
                "sec-websocket-key"@,
                "sec-websocket-protocol"@,
            ]
        }),
{
    lemma_header_names_differ();
    let h = with_handshake(tunnel_headers(), key);
    assert(h.dom() =~= set![
        "connection"@,
        "upgrade"@,
        "sec-websocket-version"@,
        "sec-websocket-key"@,
        "sec-websocket-protocol"@,
    ]);
}

/// The headers of the raw request ask for SPDY/3.1 and for the port-forward
/// stream protocol, and are no others.
pub proof fn law_raw_request_asks_for_spdy()
    ensures
        legacy_headers()["connection"@] == seq![ascii_bytes("Upgrade"@)],
        legacy_headers()["upgrade"@] == seq![ascii_bytes("SPDY/3.1"@)],
        legacy_headers()["x-stream-protocol-version"@] == seq![ascii_bytes("portforward.k8s.io"@)],
        legacy_headers().dom() == set!["connection"@, "upgrade"@, "x-stream-protocol-version"@],
{
    lemma_header_names_differ();
    assert(legacy_headers().dom() =~= set![
        "connection"@,
        "upgrade"@,
        "x-stream-protocol-version"@,
    ]);
}

proof fn lemma_header_names_differ()
    ensures
        "connection"@.len() == 10,
        "upgrade"@.len() == 7,
        "sec-websocket-protocol"@.len() == 22,
        "sec-websocket-version"@.len() == 21,
        "sec-websocket-key"@.len() == 17,
        "x-stream-protocol-version"@.len() == 25,
{
    reveal_strlit("connection");
    reveal_strlit("upgrade");
    reveal_strlit("sec-websocket-protocol");
    reveal_strlit("sec-websocket-version");
    reveal_strlit("sec-websocket-key");
    reveal_strlit("x-stream-protocol-version");
}

/// A header that was set to a printable text is read as that text; one that
/// is missing is read as nothing.
pub proof fn law_header_text_reads_back(
    headers: Map<Seq<char>, Seq<Seq<u8>>>,
    name: Seq<char>,
    text: Seq<char>,
)
    requires
        forall|i: int| 0 <= i < text.len() ==> ' ' <= #[trigger] text[i] <= '~',
    ensures
        header_text(headers.insert(name, seq![ascii_bytes(text)]), name) == text,
        header_text(headers.remove(name), name).len() == 0,
{
    assert forall|i: int| 0 <= i < text.len() implies #[trigger] ascii_text(
        ascii_bytes(text),
    )[i] == text[i] by {
        assert((text[i] as u8) as char == text[i]);
    }
    assert(ascii_text(ascii_bytes(text)) =~= text);
    assert(headers.insert(name, seq![ascii_bytes(text)])[name][0] == ascii_bytes(text));
}

/// Two texts count as equal but for case exactly if they are as long and agree
/// at every place, up to a letter from `A` to `Z` against its lower case.
pub proof fn law_case_matters_for_letters_only(a: Seq<char>, b: Seq<char>)
    ensures
        same_ignoring_case(a, b) <==> a.len() == b.len() && forall|i: int|
            0 <= i < a.len() ==> {
                ||| #[trigger] a[i] == b[i]
                ||| 'A' <= a[i] <= 'Z' && b[i] as u32 == a[i] as u32 + 32
                ||| 'A' <= b[i] <= 'Z' && a[i] as u32 == b[i] as u32 + 32
            },
        same_ignoring_case(a, a),
        same_ignoring_case(a, b) ==> same_ignoring_case(b, a),
{
    assert forall|c: char, d: char|
        #![trigger ascii_lower(c), ascii_lower(d)]
        ascii_lower(c) == ascii_lower(d) <==> (c == d || ('A' <= c <= 'Z' && d as u32 == c as u32
            + 32) || ('A' <= d <= 'Z' && c as u32 == d as u32 + 32)) by {
        lemma_ascii_lower(c);
        lemma_ascii_lower(d);
    }
    if same_ignoring_case(a, b) {
        assert forall|i: int| 0 <= i < a.len() implies {
            ||| #[trigger] a[i] == b[i]
            ||| 'A' <= a[i] <= 'Z' && b[i] as u32 == a[i] as u32 + 32
            ||| 'A' <= b[i] <= 'Z' && a[i] as u32 == b[i] as u32 + 32
        } by {
            assert(ascii_lower(a[i]) == ascii_lower(b[i]));
        }
        assert forall|i: int| 0 <= i < b.len() implies ascii_lower(#[trigger] b[i]) == ascii_lower(
            a[i],
        ) by {
            assert(ascii_lower(a[i]) == ascii_lower(b[i]));
        }
    }
}

proof fn lemma_ascii_lower(c: char)
    ensures
        'A' <= c <= 'Z' ==> ascii_lower(c) as u32 == c as u32 + 32,
        !('A' <= c <= 'Z') ==> ascii_lower(c) == c,
{
}

/// An answer on the tunnelled path is accepted exactly if its status is 101
/// and the server picked the subprotocol that was asked for, to the letter.
pub proof fn law_tunnel_needs_status_and_subprotocol(
    status: u16,
    headers: Map<Seq<char>, Seq<Seq<u8>>>,
)
    ensures
        ws_answer_error(status, headers) is None <==> status == 101 && headers.dom().contains(
            "sec-websocket-protocol"@,
        ) && ascii_text(headers["sec-websocket-protocol"@][0]) == "SPDY/3.1+portforward.k8s.io"@,
        status != 101 ==> (ws_answer_error(status, headers) matches Some(
            UpgradeRefusal::Status { status: s, .. },
        ) && s == status),
        status == 101 ==> !(ws_answer_error(status, headers) matches Some(
            UpgradeRefusal::Status { .. },
        )),
{
    reveal_strlit("SPDY/3.1+portforward.k8s.io");
    lemma_literals();
    assert(SPDY_SUBPROTOCOL@ == "SPDY/3.1+portforward.k8s.io"@);
    assert("SPDY/3.1+portforward.k8s.io"@.len() > 0);
    assert(Seq::<char>::empty().len() == 0);
}

/// An answer on the raw path is accepted exactly if its status is 101, the
/// server upgrades to SPDY/3.1, in letters of any case, and confirms the
/// stream protocol, to the letter.
pub proof fn law_raw_path_needs_status_and_protocols(
    status: u16,
    headers: Map<Seq<char>, Seq<Seq<u8>>>,
)
    ensures
        legacy_answer_error(status, headers) is None <==> status == 101 && same_ignoring_case(
            header_text(headers, "upgrade"@),
            "SPDY/3.1"@,
        ) && headers.dom().contains("x-stream-protocol-version"@) && ascii_text(
            headers["x-stream-protocol-version"@][0],
        ) == "portforward.k8s.io"@,
        legacy_answer_error(status, headers) is None ==> headers.dom().contains("upgrade"@),
        status != 101 ==> (legacy_answer_error(status, headers) matches Some(
            UpgradeRefusal::Status { status: s, .. },
        ) && s == status),
        status == 101 ==> !(legacy_answer_error(status, headers) matches Some(
            UpgradeRefusal::Status { .. },
        )),
{
    reveal_strlit("SPDY/3.1");
    reveal_strlit("portforward.k8s.io");
    lemma_literals();
    assert(LEGACY_SPDY_UPGRADE@ == "SPDY/3.1"@);
    assert(LEGACY_STREAM_PROTOCOL@ == "portforward.k8s.io"@);
    assert("SPDY/3.1"@.len() > 0);
    assert("portforward.k8s.io"@.len() > 0);
    assert(Seq::<char>::empty().len() == 0);
}

/// The raw path is tried exactly where the server answered and refused or
/// misunderstood the tunnelled upgrade. Any other failure of the first try is
/// final; it is signalled where it came from below HTTP, with its words and
/// without a status.
pub proof fn law_raw_path_follows_a_refusal(
    outcome: Result<(), UpgradeFailure>,
    step: FallbackStep,
    refusal: UpgradeRefusal,
)
    requires
        after_tunnel(outcome, step),
    ensures
        outcome is Ok <==> step is Done,
        step matches FallbackStep::Done(protocol) ==> protocol == Subprotocol::Spdy31Tunnel,
        outcome matches Err(failure) ==> {
            &&& reports(failure.error, refusal) ==> step == FallbackStep::TryLegacy(failure)
            &&& step is TryLegacy <==> failure.error is UpgradeFailed
                || failure.error is ProtocolViolation
            &&& step matches FallbackStep::TryLegacy(kept) ==> kept == failure
            &&& failure.error is Kube || failure.error is Network ==> (
            step matches FallbackStep::Failed {
                error,
                signal: Some(RecoverySignal::UpgradeFailed { status: None, message }),
            } && error == failure.error && message@ == failure.text@)
            &&& failure.error is Configuration || failure.error is Cancelled || failure.error is Mux
                || failure.error is CapacityExhausted ==> (step matches FallbackStep::Failed {
                error,
                signal: None,
            } && error == failure.error)
        },
{
}

/// After the raw path the upgrade is settled: it came about there, or it
/// failed with the raw path's error. The signal then carries the status of the
/// raw path's refusal, or else of the tunnelled one's, and the words of both.
pub proof fn law_second_failure_reports_both(
    first: UpgradeFailure,
    outcome: Result<(), UpgradeFailure>,
    step: FallbackStep,
)
    requires
        after_legacy(first, outcome, step),
    ensures
        outcome is Ok <==> step is Done,
        step matches FallbackStep::Done(protocol) ==> protocol == Subprotocol::LegacySpdy,
        !(step is TryLegacy),
        outcome matches Err(failure) ==> (step matches FallbackStep::Failed {
            error,
            signal: Some(RecoverySignal::UpgradeFailed { status, message }),
        } && {
            &&& error == failure.error
            &&& failure.error matches Error::UpgradeFailed { status: own, .. } ==> status == own
            &&& !(failure.error is UpgradeFailed) ==> (first.error matches Error::UpgradeFailed {
                status: earlier,
                ..
            } ==> status == earlier)
            &&& !(failure.error is UpgradeFailed) && !(first.error is UpgradeFailed)
                ==> status is None
            &&& message@ == "websocket upgrade rejected ("@ + first.text@
                + "); legacy fallback also failed: "@ + failure.text@
        }),
{
}

/// An answer is checked by the rules of the path that it came on, and an error
/// that reports a refusal carries the status that the server sent.
pub proof fn law_answers_are_checked_by_their_path(
    response: UpgradeResponse,
    error: Error,
    refusal: UpgradeRefusal,
)
    ensures
        answer_error(Subprotocol::Spdy31Tunnel, response) == ws_answer_error(
            response.status,
            header_entries(response.headers),
        ),
        answer_error(Subprotocol::LegacySpdy, response) == legacy_answer_error(
            response.status,
            header_entries(response.headers),
        ),
        response.status != 101 ==> answer_error(Subprotocol::Spdy31Tunnel, response) is Some
            && answer_error(Subprotocol::LegacySpdy, response) is Some,
        reports(error, refusal) ==> match refusal {
            UpgradeRefusal::Status { status, .. } => status_of(error) == Some(status)
                && error is UpgradeFailed,
            UpgradeRefusal::Violation { .. } => status_of(error) is None
                && error is ProtocolViolation,
        },
{
}

/// A refusal names the status that came in decimal; a wrong header is reported
/// with what came and what was wanted, and the `Upgrade` header is looked at
/// before the stream protocol.
pub proof fn law_refusals_say_what_came(status: u16, headers: Map<Seq<char>, Seq<Seq<u8>>>)
    ensures
        ws_answer_error(status, headers) matches Some(UpgradeRefusal::Status { message, .. }) ==> {
            let prefix = "SPDY-over-WebSocket upgrade: expected 101, got "@;
            message.take(prefix.len() as int) == prefix && crate::text::decimal_value(
                message.skip(prefix.len() as int),
            ) == status
        },
        legacy_answer_error(status, headers) matches Some(UpgradeRefusal::Status { message, .. }) ==> {
            let prefix = "legacy SPDY upgrade: expected 101, got "@;
            message.take(prefix.len() as int) == prefix && crate::text::decimal_value(
                message.skip(prefix.len() as int),
            ) == status
        },
        ws_answer_error(status, headers) matches Some(UpgradeRefusal::Violation { context, detail })
            ==> {
            &&& context == "SPDY-over-WebSocket subprotocol negotiation"@
            &&& detail == "server picked an unexpected subprotocol: "@ + debug_text(
                header_text(headers, "sec-websocket-protocol"@),
            ) + " (wanted "@ + debug_text("SPDY/3.1+portforward.k8s.io"@) + ")"@
        },
        legacy_answer_error(status, headers) matches Some(
            UpgradeRefusal::Violation { context, detail },
        ) ==> {
            &&& context == "legacy SPDY upgrade"@
            &&& !same_ignoring_case(header_text(headers, "upgrade"@), "SPDY/3.1"@) ==> detail
                == "server sent back an unexpected Upgrade header: "@ + debug_text(
                header_text(headers, "upgrade"@),
            ) + " (wanted "@ + debug_text("SPDY/3.1"@) + ")"@
            &&& same_ignoring_case(header_text(headers, "upgrade"@), "SPDY/3.1"@) ==> detail
                == "server sent back an unexpected X-Stream-Protocol-Version: "@ + debug_text(
                header_text(headers, "x-stream-protocol-version"@),
            ) + " (wanted "@ + debug_text("portforward.k8s.io"@) + ")"@
        },
{
    assert(SPDY_SUBPROTOCOL@ == "SPDY/3.1+portforward.k8s.io"@);
    assert(LEGACY_SPDY_UPGRADE@ == "SPDY/3.1"@);
    assert(LEGACY_STREAM_PROTOCOL@ == "portforward.k8s.io"@);
    crate::text::law_decimal_reads_back(status as nat);
    let digits = decimal(status as nat);
    let ws = "SPDY-over-WebSocket upgrade: expected 101, got "@;
    let raw = "legacy SPDY upgrade: expected 101, got "@;
    assert((ws + digits).take(ws.len() as int) =~= ws);
    assert((ws + digits).skip(ws.len() as int) =~= digits);
    assert((raw + digits).take(raw.len() as int) =~= raw);
    assert((raw + digits).skip(raw.len() as int) =~= digits);
}

} // verus!
