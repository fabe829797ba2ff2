//! Enclave kinds, their endpoints, and the errors of an attested connection.
use vstd::prelude::*;
use std::marker::PhantomData;
use vstd::std_specs::convert::FromSpecImpl;
use vstd::utf8::{decode_utf8, valid_utf8};
use crate::connection_manager::{
    AttemptResult, ConnectionParams, MultiRouteConnectionManager, RouteModel, ServiceState,
    SingleRouteThrottlingConnectionManager, WebSocketConnectError, first_ready, in_cooldown,
    multi_route_step, route_after, route_step, service_state,
};
use crate::text::{hex_encode, hex_text, join2, join3, str_from_utf8};

verus! {

/// A kind of enclave: it decides under which path an enclave is reached.
pub trait EnclaveKind {
    /// Whether a path can be made from this measurement.
    spec fn path_defined(enclave: Seq<u8>) -> bool;

    /// The path under which the enclave with this measurement is reached.
    spec fn spec_url_path(enclave: Seq<u8>) -> Seq<char>;

    /// Whether a path can be made from this measurement.
    fn has_path(enclave: &[u8]) -> (r: bool)
        ensures
            r == Self::path_defined(enclave@),
    ;

    /// The path under which the enclave with this measurement is reached.
    fn url_path(enclave: &[u8]) -> (r: String)
        requires
            Self::path_defined(enclave@),
        ensures
            r@ == Self::spec_url_path(enclave@),
    ;
}

/// An enclave kind that can take part in a secret-sharing setup.
pub trait Svr3Flavor: EnclaveKind {

}

/// Contact discovery.
pub struct Cdsi;

/// SGX enclaves.
pub struct Sgx;

/// Nitro enclaves.
pub struct Nitro;

/// TPM2 with SEV-SNP.
pub struct Tpm2Snp;

impl EnclaveKind for Cdsi {
    open spec fn path_defined(enclave: Seq<u8>) -> bool {
        true
    }

    fn has_path(enclave: &[u8]) -> (r: bool) {
        true
    }

    open spec fn spec_url_path(enclave: Seq<u8>) -> Seq<char> {
        "/v1/"@ + hex_text(enclave) + "/discovery"@
    }

    fn url_path(enclave: &[u8]) -> (r: String) {
        let hex = hex_encode(enclave);
        join3("/v1/", hex.as_str(), "/discovery")
    }
}

impl EnclaveKind for Sgx {
    open spec fn path_defined(enclave: Seq<u8>) -> bool {
        true
    }

    fn has_path(enclave: &[u8]) -> (r: bool) {
        true
    }

    open spec fn spec_url_path(enclave: Seq<u8>) -> Seq<char> {
        "/v1/"@ + hex_text(enclave)
    }

    fn url_path(enclave: &[u8]) -> (r: String) {
        let hex = hex_encode(enclave);
        join2("/v1/", hex.as_str())
    }
}

/// The path of an enclave whose measurement is text: the measurement itself,
/// read as UTF-8.
pub open spec fn text_path(enclave: Seq<u8>) -> Seq<char> {
    "/v1/"@ + decode_utf8(enclave)
}

fn make_text_path(enclave: &[u8]) -> (r: String)
    requires
        valid_utf8(enclave@),
    ensures
        r@ == text_path(enclave@),
{
    match str_from_utf8(enclave) {
        Some(text) => join2("/v1/", text),
        None => String::new(),
    }
}

impl EnclaveKind for Nitro {
    open spec fn path_defined(enclave: Seq<u8>) -> bool {
        valid_utf8(enclave)
    }

    fn has_path(enclave: &[u8]) -> (r: bool) {
        str_from_utf8(enclave).is_some()
    }

    open spec fn spec_url_path(enclave: Seq<u8>) -> Seq<char> {
        text_path(enclave)
    }

    fn url_path(enclave: &[u8]) -> (r: String) {
        make_text_path(enclave)
    }
}

impl EnclaveKind for Tpm2Snp {
    open spec fn path_defined(enclave: Seq<u8>) -> bool {
        valid_utf8(enclave)
    }

    fn has_path(enclave: &[u8]) -> (r: bool) {
        str_from_utf8(enclave).is_some()
    }

    open spec fn spec_url_path(enclave: Seq<u8>) -> Seq<char> {
        text_path(enclave)
    }

    fn url_path(enclave: &[u8]) -> (r: String) {
        make_text_path(enclave)
    }
}

impl Svr3Flavor for Sgx {

}

impl Svr3Flavor for Nitro {

}

impl Svr3Flavor for Tpm2Snp {

}

/// A fixed number of items, readable as a slice.
pub trait ArrayIsh<T> {
    /// How many items there are.
    spec fn spec_len() -> nat;

    /// How many items there are.
    fn len() -> (n: usize)
        ensures
            n == Self::spec_len(),
    ;
}

impl<T, const N: usize> ArrayIsh<T> for [T; N] {
    open spec fn spec_len() -> nat {
        N as nat
    }

    fn len() -> (n: usize) {
        N
    }
}

/// Something that stands for one attested connection over a stream.
pub trait IntoAttestedConnection {
    /// The stream the connection runs over.
    type Stream;
}

/// One or more connections over the same kind of stream.
pub trait IntoConnections {
    /// The stream the connections run over.
    type Stream;

    /// How many connections there are.
    spec fn spec_count() -> nat;

    /// How many connections there are.
    fn count() -> (n: usize)
        ensures
            n == Self::spec_count(),
    ;
}

impl<A: IntoAttestedConnection> IntoConnections for A {
    type Stream = A::Stream;

    open spec fn spec_count() -> nat {
        1
    }

    fn count() -> (n: usize) {
        1
    }
}

impl<A, B> IntoConnections for (A, B) where
    A: IntoAttestedConnection,
    B: IntoAttestedConnection<Stream = A::Stream>,
 {
    type Stream = A::Stream;

    open spec fn spec_count() -> nat {
        2
    }

    fn count() -> (n: usize) {
        2
    }
}

impl<A, B, C> IntoConnections for (A, B, C) where
    A: IntoAttestedConnection,
    B: IntoAttestedConnection<Stream = A::Stream>,
    C: IntoAttestedConnection<Stream = A::Stream>,
 {
    type Stream = A::Stream;

    open spec fn spec_count() -> nat {
        3
    }

    fn count() -> (n: usize) {
        3
    }
}

/// A setup in which a secret is shared among several enclaves.
pub trait PpssSetup {
    /// The identifiers of the servers that take part, in order.
    spec fn spec_server_ids() -> Seq<u64>;

    /// The identifiers of the servers that take part, in order.
    fn server_ids() -> (ids: Vec<u64>)
        ensures
            ids@ == Self::spec_server_ids(),
    ;
}

/// The setup with one enclave of each flavor.
pub struct Svr3Env;

impl PpssSetup for Svr3Env {
    open spec fn spec_server_ids() -> Seq<u64> {
        seq![1u64, 2u64, 3u64]
    }

    fn server_ids() -> (ids: Vec<u64>) {
        let mut ids: Vec<u64> = Vec::new();
        ids.push(1);
        ids.push(2);
        ids.push(3);
        assert(ids@ =~= seq![1u64, 2u64, 3u64]);
        ids
    }
}

/// The measurement of an enclave image, tagged with the enclave's kind.
pub struct MrEnclave<Bytes, E> {
    inner: Bytes,
    enclave_kind: PhantomData<E>,
}

impl<Bytes, E: EnclaveKind> MrEnclave<Bytes, E> {
    /// The measurement bytes.
    pub closed spec fn spec_bytes(self) -> Bytes {
        self.inner
    }

    /// Tags measurement bytes with the kind `E`.
    pub fn new(bytes: Bytes) -> (r: Self)
        ensures
            r.spec_bytes() == bytes,
    {
        Self { inner: bytes, enclave_kind: PhantomData }
    }
}

impl<'a, E: EnclaveKind> MrEnclave<&'a [u8], E> {
    /// The measurement bytes.
    pub fn as_ref(&self) -> (r: &'a [u8])
        ensures
            r == self.spec_bytes(),
    {
        self.inner
    }

    /// A copy of the measurement with the same tag.
    pub fn duplicate(&self) -> (r: Self)
        ensures
            r.spec_bytes() == self.spec_bytes(),
    {
        Self { inner: self.inner, enclave_kind: PhantomData }
    }
}

/// Where an endpoint is reached.
pub struct DomainConfig {
    pub hostname: String,
    pub port: u16,
}

impl DomainConfig {
    /// The parameters of a direct connection to the endpoint: the host name
    /// also serves as the name asked for in the TLS handshake.
    pub fn connection_params(&self) -> (r: ConnectionParams)
        ensures
            r.host@ == self.hostname@,
            r.sni@ == self.hostname@,
            r.port == self.port,
    {
        ConnectionParams { host: self.hostname.clone(), sni: self.hostname.clone(), port: self.port }
    }
}

/// An enclave and where it is reached.
pub struct EnclaveEndpoint<'a, E: EnclaveKind> {
    pub domain_config: DomainConfig,
    pub mr_enclave: MrEnclave<&'a [u8], E>,
}

/// Parameters of the consensus group that an enclave must report.
#[derive(Clone, Copy, Debug, PartialEq, Eq, Structural)]
pub struct RaftConfig {
    pub min_voting_replicas: u32,
    pub max_voting_replicas: u32,
    pub super_majority: u32,
    pub group_id: u64,
}

/// What the attestation handshake checks an enclave against.
pub struct EndpointParams<'a, E: EnclaveKind> {
    pub mr_enclave: MrEnclave<&'a [u8], E>,
    pub raft_config_override: Option<RaftConfig>,
}

impl<'a, E: EnclaveKind> EndpointParams<'a, E> {
    /// Parameters for the enclave with this measurement, with no override of
    /// the consensus parameters.
    pub fn new(mr_enclave: MrEnclave<&'a [u8], E>) -> (r: Self)
        ensures
            r.mr_enclave == mr_enclave,
            r.raft_config_override == None::<RaftConfig>,
    {
        Self { mr_enclave, raft_config_override: None }
    }

    /// The same parameters with the consensus parameters overridden.
    pub fn with_raft_override(self, raft_config: RaftConfig) -> (r: Self)
        ensures
            r.mr_enclave == self.mr_enclave,
            r.raft_config_override == Some(raft_config),
    {
        let mut out = self;
        out.raft_config_override = Some(raft_config);
        out
    }
}

/// How the WebSocket to an endpoint is opened.
pub struct WsConfig {
    /// The path asked for in the upgrade request.
    pub endpoint: String,
    /// How long an attempt may take, in milliseconds.
    pub connect_timeout_ms: u64,
}

/// Settings for the WebSocket under `endpoint`.
pub fn make_ws_config(endpoint: String, connect_timeout_ms: u64) -> (r: WsConfig)
    ensures
        r.endpoint == endpoint,
        r.connect_timeout_ms == connect_timeout_ms,
{
    WsConfig { endpoint, connect_timeout_ms }
}

/// A connection manager together with the settings of the WebSocket that it
/// opens.
pub struct EndpointConnection<C> {
    pub manager: C,
    pub config: WsConfig,
}

/// Everything needed to connect to one enclave.
pub struct EnclaveEndpointConnection<'a, E: EnclaveKind, C> {
    pub endpoint_connection: EndpointConnection<C>,
    pub params: EndpointParams<'a, E>,
}

impl<'a, E: EnclaveKind> EnclaveEndpointConnection<'a, E, SingleRouteThrottlingConnectionManager> {
    /// A connection to `endpoint` over its one route, with no override of the
    /// consensus parameters.
    pub fn new(endpoint: EnclaveEndpoint<'a, E>, connect_timeout_ms: u64) -> (r: Self)
        requires
            E::path_defined(endpoint.mr_enclave.spec_bytes()@),
        ensures
            r.endpoint_connection.config.endpoint@ == E::spec_url_path(
                endpoint.mr_enclave.spec_bytes()@,
            ),
            r.endpoint_connection.config.connect_timeout_ms == connect_timeout_ms,
            r.endpoint_connection.manager.wf(),
            r.endpoint_connection.manager@ == (RouteModel { failures: 0, cooldown_until: 0 }),
            r.endpoint_connection.manager.spec_timeout() == connect_timeout_ms,
            r.endpoint_connection.manager.spec_params().host@ == endpoint.domain_config.hostname@,
            r.endpoint_connection.manager.spec_params().sni@ == endpoint.domain_config.hostname@,
            r.endpoint_connection.manager.spec_params().port == endpoint.domain_config.port,
            r.params.mr_enclave == endpoint.mr_enclave,
            r.params.raft_config_override == None::<RaftConfig>,
    {
        Self::with_custom_properties(endpoint, connect_timeout_ms, None)
    }

    /// A connection to `endpoint` over its one route. The WebSocket is opened
    /// under the path that the enclave's kind gives its measurement.
    pub fn with_custom_properties(
        endpoint: EnclaveEndpoint<'a, E>,
        connect_timeout_ms: u64,
        raft_config_override: Option<RaftConfig>,
    ) -> (r: Self)
        requires
            E::path_defined(endpoint.mr_enclave.spec_bytes()@),
        ensures
            r.endpoint_connection.config.endpoint@ == E::spec_url_path(
                endpoint.mr_enclave.spec_bytes()@,
            ),
            r.endpoint_connection.config.connect_timeout_ms == connect_timeout_ms,
            r.endpoint_connection.manager.wf(),
            r.endpoint_connection.manager@ == (RouteModel { failures: 0, cooldown_until: 0 }),
            r.endpoint_connection.manager.spec_timeout() == connect_timeout_ms,
            r.endpoint_connection.manager.spec_params().host@ == endpoint.domain_config.hostname@,
            r.endpoint_connection.manager.spec_params().sni@ == endpoint.domain_config.hostname@,
            r.endpoint_connection.manager.spec_params().port == endpoint.domain_config.port,
            r.params.mr_enclave == endpoint.mr_enclave,
            r.params.raft_config_override == raft_config_override,
    {
        let path = E::url_path(endpoint.mr_enclave.as_ref());
        Self {
            endpoint_connection: EndpointConnection {
                manager: SingleRouteThrottlingConnectionManager::new(
                    endpoint.domain_config.connection_params(),
                    connect_timeout_ms,
                ),
                config: make_ws_config(path, connect_timeout_ms),
            },
            params: EndpointParams { mr_enclave: endpoint.mr_enclave, raft_config_override },
        }
    }
}

impl<'a, E: EnclaveKind> EnclaveEndpointConnection<'a, E, MultiRouteConnectionManager> {
    /// A connection to the enclave with this measurement over several routes,
    /// tried in the order given.
    pub fn new_multi(
        mr_enclave: MrEnclave<&'a [u8], E>,
        connection_params: Vec<ConnectionParams>,
        connect_timeout_ms: u64,
    ) -> (r: Self)
        requires
            E::path_defined(mr_enclave.spec_bytes()@),
        ensures
            r.endpoint_connection.config.endpoint@ == E::spec_url_path(mr_enclave.spec_bytes()@),
            r.endpoint_connection.config.connect_timeout_ms == connect_timeout_ms,
            r.endpoint_connection.manager.wf(),
            r.endpoint_connection.manager@.len() == connection_params@.len(),
            r.endpoint_connection.manager.spec_timeout() == connect_timeout_ms,
            forall|i: int|
                0 <= i < connection_params@.len() ==> #[trigger] r.endpoint_connection.manager@[i]
                    == (RouteModel { failures: 0, cooldown_until: 0 }),
            forall|i: int|
                0 <= i < connection_params@.len()
                    ==> #[trigger] r.endpoint_connection.manager.spec_params(i)
                    == connection_params@[i],
            r.params.mr_enclave == mr_enclave,
            r.params.raft_config_override == None::<RaftConfig>,
    {
        let path = E::url_path(mr_enclave.as_ref());
        Self {
            endpoint_connection: EndpointConnection {
                manager: MultiRouteConnectionManager::from_params(
                    connection_params,
                    connect_timeout_ms,
                ),
                config: make_ws_config(path, connect_timeout_ms),
            },
            params: EndpointParams { mr_enclave, raft_config_override: None },
        }
    }
}

/// A fault of the WebSocket after it was opened.
#[derive(Clone, Copy, Debug, PartialEq, Eq, Structural)]
pub enum WebSocketServiceError {
    /// The peer closed the channel.
    ChannelClosed,
    /// The peer did not answer in time.
    ChannelIdleTooLong,
    /// The peer broke the WebSocket protocol.
    Protocol,
    /// Reading or writing failed.
    Io,
}

/// Why an enclave would not attest itself.
#[derive(Clone, Debug, PartialEq, Eq)]
pub struct AttestationFailure {
    pub reason: String,
}

/// A fault while an attested connection was set up.
#[derive(Clone, Debug, PartialEq, Eq)]
pub enum AttestedConnectionError {
    /// The encrypted channel to the enclave failed.
    ClientConnection,
    /// The WebSocket failed.
    WebSocket(WebSocketServiceError),
    /// The peer sent what the protocol does not allow.
    Protocol,
    /// The enclave did not attest itself.
    Sgx(AttestationFailure),
}

/// Why no attested connection came about.
#[derive(Clone, Debug, PartialEq, Eq)]
pub enum Error {
    /// The WebSocket could not be opened.
    WebSocketConnect(WebSocketConnectError),
    /// The WebSocket failed after it was opened.
    WebSocket(WebSocketServiceError),
    /// The peer broke the protocol after the connection was made.
    Protocol,
    /// The enclave did not attest itself.
    AttestationError(AttestationFailure),
    /// No route could be tried in time.
    ConnectionTimedOut,
}

impl Error {
    /// Whether the same endpoint may be tried again after this error. An
    /// enclave that failed to attest itself is not tried again with the same
    /// measurement; every other error ends one attempt only.
    pub fn may_retry(&self) -> (r: bool)
        ensures
            r == !(self is AttestationError),
    {
        match self {
            Error::AttestationError(_) => false,
            _ => true,
        }
    }
}

impl From<AttestedConnectionError> for Error {
    fn from(value: AttestedConnectionError) -> (r: Self) {
        match value {
            AttestedConnectionError::ClientConnection => Error::Protocol,
            AttestedConnectionError::WebSocket(net) => Error::WebSocket(net),
            AttestedConnectionError::Protocol => Error::Protocol,
            AttestedConnectionError::Sgx(err) => Error::AttestationError(err),
        }
    }
}

impl FromSpecImpl<AttestedConnectionError> for Error {
    open spec fn obeys_from_spec() -> bool {
        true
    }

    open spec fn from_spec(value: AttestedConnectionError) -> Error {
        handshake_error(value)
    }
}

/// The error that the caller sees for a fault of the attestation handshake:
/// a failed attestation and a WebSocket fault are passed on, everything else
/// is a protocol error.
pub open spec fn handshake_error(value: AttestedConnectionError) -> Error {
    match value {
        AttestedConnectionError::ClientConnection => Error::Protocol,
        AttestedConnectionError::WebSocket(net) => Error::WebSocket(net),
        AttestedConnectionError::Protocol => Error::Protocol,
        AttestedConnectionError::Sgx(err) => Error::AttestationError(err),
    }
}

/// What the state of a service means for a connection attempt: nothing is
/// wrong when the service is active; an error of the attempt is passed on; a
/// route that is cooling down, like an attempt that ran out of time, counts as
/// a timeout.
pub open spec fn state_outcome(state: ServiceState) -> Result<(), Error> {
    match state {
        ServiceState::Active => Ok(()),
        ServiceState::Error(e) => Err(Error::WebSocketConnect(e)),
        ServiceState::Cooldown(_) => Err(Error::ConnectionTimedOut),
        ServiceState::ConnectionTimedOut => Err(Error::ConnectionTimedOut),
        ServiceState::Inactive => Err(Error::ConnectionTimedOut),
    }
}

/// Decides whether the attestation handshake may start, from the state in
/// which the connection attempt left the service. The attempt never leaves
/// the service inactive.
pub fn websocket_or_error(state: ServiceState) -> (r: Result<(), Error>)
    requires
        !(state is Inactive),
    ensures
        r == state_outcome(state),
{
    match state {
        ServiceState::Active => Ok(()),
        ServiceState::Error(e) => Err(Error::WebSocketConnect(e)),
        ServiceState::Cooldown(_) | ServiceState::ConnectionTimedOut => Err(
            Error::ConnectionTimedOut,
        ),
        ServiceState::Inactive => Err(Error::ConnectionTimedOut),
    }
}

/// The result of a connection: the error of the attempt where it failed, else
/// the error of the attestation handshake where that failed.
pub open spec fn connect_outcome(
    state: ServiceState,
    handshake: Result<(), AttestedConnectionError>,
) -> Result<(), Error> {
    match state_outcome(state) {
        Err(e) => Err(e),
        Ok(_) => match handshake {
            Ok(_) => Ok(()),
            Err(e) => Err(handshake_error(e)),
        },
    }
}

/// Maps the fault of an attestation handshake to the error that the caller
/// sees.
pub fn attested_or_error(handshake: Result<(), AttestedConnectionError>) -> (r: Result<(), Error>)
    ensures
        r == connect_outcome(ServiceState::Active, handshake),
{
    match handshake {
        Ok(()) => Ok(()),
        Err(e) => Err(Error::from(e)),
    }
}

/// While a route is left alone it is not tried: the caller is told to wait,
/// and the connection fails as timed out without the transport being used.
pub proof fn lemma_cooldown_times_out(route: RouteModel, now: u64)
    requires
        in_cooldown(route, now as nat),
    ensures
        !(route_step(route, now) is Attempt),
        route_step(route, now).spec_outcome() is Some,
        state_outcome(service_state(route_step(route, now).spec_outcome()->Some_0)) == Err::<
            (),
            Error,
        >(Error::ConnectionTimedOut),
{
}

/// Two failures in a row are enough: for a second after the second one, and
/// for longer after further ones, the route is left alone. This is stated for
/// times at which the longest interval can still be added to the clock.
pub proof fn lemma_failures_install_cooldown(
    route: RouteModel,
    first_at: u64,
    first: AttemptResult,
    second_at: u64,
    second: AttemptResult,
    now: u64,
)
    requires
        !(first is Connected),
        !(second is Connected),
        second_at <= now < second_at + 1_000,
        second_at + 64_000 <= u64::MAX,
    ensures
        in_cooldown(route_after(route_after(route, first_at, first), second_at, second), now as nat),
{
}

/// Where every route from the place `from` on is left alone, none is ready.
proof fn lemma_none_ready(routes: Seq<RouteModel>, from: int, now: nat)
    requires
        forall|i: int| 0 <= i < routes.len() ==> in_cooldown(#[trigger] routes[i], now),
    ensures
        first_ready(routes, from, now) is None,
    decreases routes.len() - from,
{
    if 0 <= from < routes.len() {
        lemma_none_ready(routes, from + 1, now);
    }
}

/// Where every route is left alone, no route is tried and the connection
/// fails as timed out.
pub proof fn lemma_exhausted_routes_time_out(routes: Seq<RouteModel>, now: u64)
    requires
        forall|i: int| 0 <= i < routes.len() ==> in_cooldown(#[trigger] routes[i], now as nat),
    ensures
        multi_route_step(routes, 0, now) is Done,
        state_outcome(service_state(multi_route_step(routes, 0, now)->Done_0)) == Err::<(), Error>(
            Error::ConnectionTimedOut,
        ),
{
    lemma_none_ready(routes, 0, now as nat);
}

} // verus!
