//! Entry point: opening sessions to a cluster.
//!
//! A session is opened by one probing upgrade, which settles the protocol,
//! and further upgrades with that protocol for the rest of the pool.
use crate::connect::build_legacy_spdy_request;
use crate::connect::law_raw_request_asks_for_spdy;
use crate::connect::law_tunnel_request_asks_for_a_websocket;
use crate::connect::legacy_headers;
use crate::connect::request_built;
use crate::connect::target;
use crate::connect::tunnel_headers;
use crate::connect::with_handshake;
use crate::connect::ws_upgrade_request;
use crate::connect::ClusterUrl;
use crate::connect::Method;
use crate::connect::UpgradeRequest;
use crate::error::Error;
use crate::error::MuxError;
use crate::outside::encode::base64_standard;
use crate::outside::headers::ascii_bytes;
use crate::outside::headers::header_entries;
use crate::session::Session;
use crate::spdy;
use crate::spdy::config::MuxConfig;
use crate::spdy::session::healthy;
use crate::spdy::session::MuxHandle;
use crate::subprotocol::Subprotocol;
use tokio_util::sync::CancellationToken;
use crate::spdy::metrics::RTT_SEED_NS;
use vstd::prelude::*;

verus! {

/// Connections in the pool of a session, by default.
pub const DEFAULT_SPDY_POOL_SIZE: usize = 6;

/// Entry point that bundles a Kubernetes client with its cluster URL.
pub struct Client {
    pub kube: kube::Client,
    pub cluster_url: ClusterUrl,
}

impl Client {
    pub fn new(kube_client: kube::Client, cluster_url: ClusterUrl) -> (r: Client)
        ensures
            r.kube == kube_client,
            r.cluster_url == cluster_url,
    {
        Client { kube: kube_client, cluster_url }
    }

    /// A builder with nothing set.
    pub fn builder() -> (r: ClientBuilder)
        ensures
            r.kube is None,
            r.cluster_url is None,
    {
        ClientBuilder::default()
    }

    /// A builder for a session to a pod's port.
    pub fn session(&self, namespace: String, pod: String, port: u16) -> (r: SessionBuilder<'_>)
        ensures
            *r.client == *self,
            r.namespace == namespace,
            r.pod == pod,
            r.port == port,
            r.cancel is None,
            r.spdy_pool_size == DEFAULT_SPDY_POOL_SIZE,
    {
        SessionBuilder {
            client: self,
            namespace,
            pod,
            port,
            cancel: None,
            spdy_pool_size: DEFAULT_SPDY_POOL_SIZE,
        }
    }

    pub fn kube_client(&self) -> (r: &kube::Client)
        ensures
            *r == self.kube,
    {
        &self.kube
    }

    pub fn cluster_url(&self) -> (r: &ClusterUrl)
        ensures
            *r == self.cluster_url,
    {
        &self.cluster_url
    }
}

impl Clone for Client {
    fn clone(&self) -> (r: Client)
        ensures
            r.cluster_url.same_as(self.cluster_url),
    {
        Client { kube: self.kube.clone(), cluster_url: self.cluster_url.clone() }
    }
}

/// Builder of a [`Client`].
pub struct ClientBuilder {
    pub kube: Option<kube::Client>,
    pub cluster_url: Option<ClusterUrl>,
}

impl Default for ClientBuilder {
    fn default() -> (r: ClientBuilder)
        ensures
            r.kube is None,
            r.cluster_url is None,
    {
        ClientBuilder { kube: None, cluster_url: None }
    }
}

impl ClientBuilder {
    pub fn kube_client(self, c: kube::Client) -> (r: ClientBuilder)
        ensures
            r.kube == Some(c),
            r.cluster_url == self.cluster_url,
    {
        ClientBuilder { kube: Some(c), cluster_url: self.cluster_url }
    }

    pub fn cluster_url(self, u: ClusterUrl) -> (r: ClientBuilder)
        ensures
            r.kube == self.kube,
            r.cluster_url == Some(u),
    {
        ClientBuilder { kube: self.kube, cluster_url: Some(u) }
    }

    /// Builds the client. Both parts are required.
    pub fn build(self) -> (r: Result<Client, Error>)
        ensures
            match (self.kube, self.cluster_url) {
                (None, _) => r matches Err(e) && e.is_configuration("kube_client is required"@),
                (_, None) => r matches Err(e) && e.is_configuration("cluster_url is required"@),
                (Some(kube), Some(url)) => r matches Ok(c) && c.kube == kube && c.cluster_url
                    == url,
            },
    {
        let kube = match self.kube {
            Some(kube) => kube,
            None => {
                return Err(Error::Configuration("kube_client is required".to_owned()));
            },
        };
        let cluster_url = match self.cluster_url {
            Some(url) => url,
            None => {
                return Err(Error::Configuration("cluster_url is required".to_owned()));
            },
        };
        Ok(Client::new(kube, cluster_url))
    }
}

/// Builder for opening a session.
pub struct SessionBuilder<'c> {
    pub client: &'c Client,
    pub namespace: String,
    pub pod: String,
    pub port: u16,
    pub cancel: Option<CancellationToken>,
    pub spdy_pool_size: usize,
}

/// A session that is being opened.
pub struct SessionOpen<'c> {
    pub client: &'c Client,
    pub namespace: String,
    pub pod: String,
    pub port: u16,
    pub pool_size: usize,
    pub cancel: CancellationToken,
}

impl<'c> SessionBuilder<'c> {
    /// Whether everything but the token and the pool size is as in `other`.
    pub open spec fn same_place(self, other: SessionBuilder<'c>) -> bool {
        &&& self.client == other.client
        &&& self.namespace == other.namespace
        &&& self.pod == other.pod
        &&& self.port == other.port
    }

    /// The token that ends the session.
    pub fn cancellation_token(self, t: CancellationToken) -> (r: SessionBuilder<'c>)
        ensures
            r.same_place(self),
            r.cancel == Some(t),
            r.spdy_pool_size == self.spdy_pool_size,
    {
        SessionBuilder {
            client: self.client,
            namespace: self.namespace,
            pod: self.pod,
            port: self.port,
            cancel: Some(t),
            spdy_pool_size: self.spdy_pool_size,
        }
    }

    /// Number of parallel upgraded connections in the pool, at least one.
    pub fn spdy_pool_size(self, n: usize) -> (r: SessionBuilder<'c>)
        ensures
            r.same_place(self),
            r.cancel == self.cancel,
            r.spdy_pool_size == (if n == 0 {
                1
            } else {
                n as int
            }),
    {
        let size: usize = if n == 0 {
            1
        } else {
            n
        };
        SessionBuilder {
            client: self.client,
            namespace: self.namespace,
            pod: self.pod,
            port: self.port,
            cancel: self.cancel,
            spdy_pool_size: size,
        }
    }

    /// Begins to open the session. Without a token of the caller's it gets
    /// one of its own.
    pub fn open(self) -> (r: SessionOpen<'c>)
        ensures
            r.client == self.client,
            r.namespace == self.namespace,
            r.pod == self.pod,
            r.port == self.port,
            r.pool_size == self.spdy_pool_size,
            self.cancel matches Some(t) ==> r.cancel == t,
    {
        let cancel = match self.cancel {
            Some(t) => t,
            None => CancellationToken::new(),
        };
        SessionOpen {
            client: self.client,
            namespace: self.namespace,
            pod: self.pod,
            port: self.port,
            pool_size: self.spdy_pool_size,
            cancel,
        }
    }
}

/// How many of the connections came up.
pub open spec fn came_up(extras: Seq<bool>) -> nat
    decreases extras.len(),
{
    if extras.len() == 0 {
        0
    } else {
        came_up(extras.drop_last()) + if extras.last() {
            1nat
        } else {
            0
        }
    }
}

impl<'c> SessionOpen<'c> {
    /// Whether `r` is an upgrade request for the session with this protocol.
    pub open spec fn upgrade_requested(
        self,
        protocol: Subprotocol,
        r: Result<UpgradeRequest, Error>,
    ) -> bool {
        match protocol {
            Subprotocol::Spdy31Tunnel => exists|bytes: Seq<u8>|
                bytes.len() == 16 && request_built(
                    self.client.cluster_url,
                    self.namespace@,
                    self.pod@,
                    Method::Get,
                    with_handshake(tunnel_headers(), #[trigger] base64_standard(bytes)),
                    r,
                ),
            Subprotocol::LegacySpdy => request_built(
                self.client.cluster_url,
                self.namespace@,
                self.pod@,
                Method::Post,
                legacy_headers(),
                r,
            ),
        }
    }

    /// The upgrade request for one connection with this protocol.
    pub fn upgrade_request(&self, protocol: Subprotocol) -> (r: Result<UpgradeRequest, Error>)
        ensures
            self.upgrade_requested(protocol, r),
    {
        match protocol {
            Subprotocol::Spdy31Tunnel => ws_upgrade_request(
                &self.client.cluster_url,
                self.namespace.as_str(),
                self.pod.as_str(),
            ),
            Subprotocol::LegacySpdy => build_legacy_spdy_request(
                &self.client.cluster_url,
                self.namespace.as_str(),
                self.pod.as_str(),
            ),
        }
    }

    /// How many connections are to be upgraded beside the probe.
    pub fn extra_connections(&self) -> (r: usize)
        ensures
            r == (if self.pool_size > 1 {
                self.pool_size - 1
            } else {
                0
            }),
    {
        if self.pool_size > 1 {
            self.pool_size - 1
        } else {
            0
        }
    }

    /// The limits of the multiplexer once `extra` connections came up beside
    /// the probe: the pool is as large as what came up.
    pub fn mux_config(&self, extra: usize) -> (r: MuxConfig)
        requires
            extra < usize::MAX,
        ensures
            r.pool_size == extra + 1,
            r.has_default_limits(),
    {
        MuxConfig::with_pool_size(extra + 1)
    }

    /// The limits of the multiplexer, from whether each of the extra
    /// connections came up: one that did not is left out of the pool.
    pub fn filled(&self, extras: &Vec<bool>) -> (r: MuxConfig)
        requires
            extras@.len() < usize::MAX,
        ensures
            r.pool_size == 1 + came_up(extras@),
            r.has_default_limits(),
    {
        let mut extra: usize = 0;
        let mut i: usize = 0;
        assert(extras@.take(0) =~= Seq::empty());
        while i < extras.len()
            invariant
                i <= extras@.len(),
                extra <= i,
                extras@.len() < usize::MAX,
                extra == came_up(extras@.take(i as int)),
            decreases extras@.len() - i,
        {
            assert(extras@.take(i + 1).drop_last() =~= extras@.take(i as int));
            if extras[i] {
                extra = extra + 1;
            }
            i = i + 1;
        }
        assert(extras@.take(i as int) =~= extras@);
        self.mux_config(extra)
    }

    /// What the opening ends with: a session on the connections that came
    /// up, to the port that was asked for, or the last connection's error
    /// where none came up.
    pub open spec fn opening_ended(
        self,
        protocol: Subprotocol,
        outcomes: Seq<Result<MuxHandle, MuxError>>,
        r: Result<Session, Error>,
    ) -> bool {
        match r {
            Ok(s) => {
                &&& s.wf()
                &&& s.inner.pool@ == healthy(outcomes)
                &&& s.inner.next == 0
                &&& forall|i: int|
                    0 <= i < s.inner.metrics@.len() ==> #[trigger] s.inner.metrics@[i].rtt_ns
                        == RTT_SEED_NS
                &&& s.inner.cancel == self.cancel
                &&& s.protocol == protocol
                &&& s.port == self.port
                &&& s.next_request_id == 0
                &&& s.spares().len() == 0
                &&& !s.replenishing
            },
            Err(e) => {
                &&& healthy(outcomes).len() == 0
                &&& if outcomes.len() == 0 {
                    e == Error::Mux(MuxError::MuxClosed)
                } else {
                    outcomes.last() matches Err(m) && e == Error::of_mux(m)
                }
            },
        }
    }

    /// Ends the opening, from the outcomes of the connections' initial PING.
    pub fn finish(
        self,
        protocol: Subprotocol,
        outcomes: Vec<Result<MuxHandle, MuxError>>,
    ) -> (r: Result<Session, Error>)
        ensures
            self.opening_ended(protocol, outcomes@, r),
    {
        match spdy::session::Session::with_config(outcomes, self.cancel) {
            Ok(inner) => Ok(Session::from_spdy(inner, protocol, self.port)),
            Err(e) => Err(Error::from_mux(e)),
        }
    }
}

/// Every connection that came up counts once, one that did not counts not at
/// all, and the order does not matter.
pub proof fn law_connections_are_counted(some: Seq<bool>, more: Seq<bool>)
    ensures
        came_up(some + more) == came_up(some) + came_up(more),
        came_up(some + more) == came_up(more + some),
        came_up(seq![true]) == 1,
        came_up(seq![false]) == 0,
        came_up(some) <= some.len(),
        (forall|i: int| 0 <= i < some.len() ==> some[i]) ==> came_up(some) == some.len(),
    decreases some.len() + more.len(),
{
    lemma_came_up_adds(some, more);
    lemma_came_up_adds(more, some);
    reveal_with_fuel(came_up, 2);
    assert(seq![true].drop_last() =~= Seq::empty());
    assert(seq![false].drop_last() =~= Seq::empty());
    if some.len() > 0 {
        law_connections_are_counted(some.drop_last(), Seq::empty());
        if forall|i: int| 0 <= i < some.len() ==> some[i] {
            assert forall|i: int| 0 <= i < some.drop_last().len() implies some.drop_last()[i] by {
                assert(some[i]);
            }
            assert(some[some.len() - 1]);
        }
    }
}

proof fn lemma_came_up_adds(some: Seq<bool>, more: Seq<bool>)
    ensures
        came_up(some + more) == came_up(some) + came_up(more),
    decreases more.len(),
{
    if more.len() == 0 {
        assert(some + more =~= some);
    } else {
        lemma_came_up_adds(some, more.drop_last());
        assert((some + more).drop_last() =~= some + more.drop_last());
        assert((some + more).last() == more.last());
    }
}

/// A session comes about exactly if one connection came up. It runs on those
/// that did, goes to the port that was asked for, and starts with no streams
/// to spare and the first request id. Without any connection the last failure
/// is the error.
pub proof fn law_session_needs_one_connection(
    open: SessionOpen<'_>,
    protocol: Subprotocol,
    outcomes: Seq<Result<MuxHandle, MuxError>>,
    r: Result<Session, Error>,
)
    requires
        open.opening_ended(protocol, outcomes, r),
    ensures
        r matches Ok(s) ==> {
            &&& s.inner.pool@ == healthy(outcomes)
            &&& s.inner.pool@.len() > 0
            &&& s.inner.pool@.len() == s.inner.metrics@.len()
            &&& s.port == open.port
            &&& s.protocol == protocol
            &&& s.inner.cancel == open.cancel
            &&& s.next_request_id == 0
            &&& s.inner.next == 0
            &&& !s.replenishing
            &&& s.spares().len() == 0
            &&& forall|i: int|
                0 <= i < s.inner.metrics@.len() ==> (#[trigger] s.inner.metrics@[i]).rtt_ns
                    == 1_000_000
        },
        r is Err <==> healthy(outcomes).len() == 0,
        r matches Err(e) ==> {
            &&& outcomes.len() == 0 ==> e == Error::Mux(MuxError::MuxClosed)
            &&& outcomes.len() > 0 ==> (outcomes.last() matches Err(m) && e == Error::of_mux(m))
        },
{
}

/// Which request is built goes by the protocol: the tunnelled path asks by GET
/// for a WebSocket upgrade, under a key of sixteen bytes, and the raw path by
/// POST for SPDY. Both go to the endpoint of the session's pod.
pub proof fn law_requests_go_by_protocol(
    open: SessionOpen<'_>,
    tunnel: Result<UpgradeRequest, Error>,
    raw: Result<UpgradeRequest, Error>,
)
    requires
        open.upgrade_requested(Subprotocol::Spdy31Tunnel, tunnel),
        open.upgrade_requested(Subprotocol::LegacySpdy, raw),
    ensures
        tunnel is Ok <==> raw is Ok,
        tunnel matches Ok(request) ==> {
            &&& request.method == Method::Get
            &&& raw matches Ok(other) && other.uri@ == request.uri@
            &&& header_entries(request.headers)["upgrade"@] == seq![ascii_bytes("websocket"@)]
            &&& exists|bytes: Seq<u8>|
                bytes.len() == 16 && header_entries(request.headers)["sec-websocket-key"@] == seq![
                    ascii_bytes(#[trigger] base64_standard(bytes)),
                ]
        },
        raw matches Ok(request) ==> {
            &&& request.method == Method::Post
            &&& header_entries(request.headers)["upgrade"@] == seq![ascii_bytes("SPDY/3.1"@)]
        },
        target(open.client.cluster_url, open.namespace@, open.pod@) matches Ok(uri) ==> (
        tunnel matches Ok(request) && request.uri@ == uri),
{
    let bytes = choose|bytes: Seq<u8>|
        bytes.len() == 16 && request_built(
            open.client.cluster_url,
            open.namespace@,
            open.pod@,
            Method::Get,
            with_handshake(tunnel_headers(), #[trigger] base64_standard(bytes)),
            tunnel,
        );
    law_tunnel_request_asks_for_a_websocket(base64_standard(bytes));
    law_raw_request_asks_for_spdy();
}

} // verus!
