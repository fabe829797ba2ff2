use signal_client_core::connection_manager::{
    cooldown_interval_ms, AttemptResult, ConnectionAttemptOutcome, ConnectionParams,
    MultiRouteConnectionManager, MultiRouteStep, RouteStep, ServiceState,
    SingleRouteThrottlingConnectionManager, TransportConnectError, WebSocketConnectError,
};
use signal_client_core::dns::{
    dns_resolver_for_known_ns, DnsLookupRequest, DnsQueryResult, DnsSource, DohTransport, Ipv4,
    Ipv6, ResourceType,
};
use signal_client_core::dns_message::{create_request_with_id, parse_response};
use signal_client_core::enclave::{
    attested_or_error, websocket_or_error, AttestationFailure, AttestedConnectionError, Cdsi,
    DomainConfig, EnclaveEndpoint, EnclaveEndpointConnection, EnclaveKind, EndpointParams, Error,
    MrEnclave, Nitro, PpssSetup, RaftConfig, Sgx, Svr3Env, Tpm2Snp, WebSocketServiceError,
};
use signal_client_core::server_requests::{
    ack_status, incoming_message, last_timestamp_header, route_request, stream_incoming_messages,
    timestamp_from_header, RequestProto, ServerMessage, Timestamp, ACK_STATUS,
};

const CONNECT_TIMEOUT_MS: u64 = 10_000;
const NOW: u64 = 1_000_000;

fn fake_connection_params() -> ConnectionParams {
    ConnectionParams { host: "fake".to_string(), sni: "fake-sni".to_string(), port: 1234 }
}

fn three_routes() -> MultiRouteConnectionManager {
    MultiRouteConnectionManager::new(
        vec![
            SingleRouteThrottlingConnectionManager::new(fake_connection_params(), CONNECT_TIMEOUT_MS),
            SingleRouteThrottlingConnectionManager::new(fake_connection_params(), CONNECT_TIMEOUT_MS),
            SingleRouteThrottlingConnectionManager::new(fake_connection_params(), CONNECT_TIMEOUT_MS),
        ],
        CONNECT_TIMEOUT_MS,
    )
}

fn connect_single(
    manager: &mut SingleRouteThrottlingConnectionManager,
    now: u64,
    connector: AttemptResult,
) -> ConnectionAttemptOutcome {
    match manager.next_step(now).outcome() {
        Some(outcome) => outcome,
        None => manager.record(now, connector),
    }
}

fn connect_multi(
    manager: &mut MultiRouteConnectionManager,
    now: u64,
    connector: AttemptResult,
) -> ConnectionAttemptOutcome {
    let mut from = 0;
    loop {
        match manager.next_step(from, now) {
            MultiRouteStep::Done(outcome) => return outcome,
            MultiRouteStep::Attempt(index) => {
                if let Some(outcome) = manager.record(index, now, connector) {
                    return outcome;
                }
                from = index + 1;
            }
        }
    }
}

fn enclave_result(outcome: ConnectionAttemptOutcome) -> Result<(), Error> {
    websocket_or_error(ServiceState::from_outcome(outcome))
}

const TCP_FAILED: AttemptResult =
    AttemptResult::Failed(WebSocketConnectError::Transport(TransportConnectError::TcpConnectionFailed));

#[test]
fn single_route_enclave_connect_failure() {
    let mut manager =
        SingleRouteThrottlingConnectionManager::new(fake_connection_params(), CONNECT_TIMEOUT_MS);
    let result = enclave_result(connect_single(&mut manager, NOW, TCP_FAILED));
    assert_eq!(
        result,
        Err(Error::WebSocketConnect(WebSocketConnectError::Transport(
            TransportConnectError::TcpConnectionFailed
        )))
    );
}

#[test]
fn multi_route_enclave_connect_failure() {
    let mut manager = three_routes();
    let result = enclave_result(connect_multi(&mut manager, NOW, TCP_FAILED));
    assert_eq!(result, Err(Error::ConnectionTimedOut));
}

#[test]
fn multi_route_enclave_connect_cooldown() {
    let mut manager = three_routes();
    let mut tries = 0;
    loop {
        tries += 1;
        assert!(tries <= 100, "didn't finish setup after many iterations");
        match connect_multi(&mut manager, NOW, AttemptResult::Failed(WebSocketConnectError::Timeout)) {
            ConnectionAttemptOutcome::WaitUntil(_) => break,
            ConnectionAttemptOutcome::Attempted(_) => (),
            ConnectionAttemptOutcome::TimedOut => (),
        }
    }
    assert_eq!(manager.next_step(0, NOW), MultiRouteStep::Done(ConnectionAttemptOutcome::WaitUntil(NOW + 1_000)));
    let result = enclave_result(connect_multi(&mut manager, NOW, TCP_FAILED));
    assert_eq!(result, Err(Error::ConnectionTimedOut));
}

#[test]
fn single_route_cools_down_after_failures() {
    let mut manager =
        SingleRouteThrottlingConnectionManager::new(fake_connection_params(), CONNECT_TIMEOUT_MS);
    assert_eq!(manager.next_step(NOW), RouteStep::Attempt);
    assert_eq!(
        manager.record(NOW, TCP_FAILED),
        ConnectionAttemptOutcome::Attempted(Err(WebSocketConnectError::Transport(
            TransportConnectError::TcpConnectionFailed
        )))
    );
    assert_eq!(manager.next_step(NOW), RouteStep::Attempt);
    assert_eq!(manager.record(NOW + 5, AttemptResult::TimedOut), ConnectionAttemptOutcome::TimedOut);
    assert_eq!(manager.next_step(NOW + 5), RouteStep::WaitUntil(NOW + 1_005));
    assert_eq!(manager.next_step(NOW + 1_004), RouteStep::WaitUntil(NOW + 1_005));
    assert_eq!(
        enclave_result(connect_single(&mut manager, NOW + 1_004, AttemptResult::Connected)),
        Err(Error::ConnectionTimedOut)
    );
    assert_eq!(manager.next_step(NOW + 1_005), RouteStep::Attempt);
    assert_eq!(manager.record(NOW + 1_005, TCP_FAILED), ConnectionAttemptOutcome::Attempted(Err(
        WebSocketConnectError::Transport(TransportConnectError::TcpConnectionFailed)
    )));
    assert_eq!(manager.next_step(NOW + 3_004), RouteStep::WaitUntil(NOW + 3_005));
    assert_eq!(
        enclave_result(connect_single(&mut manager, NOW + 3_005, AttemptResult::Connected)),
        Ok(())
    );
    assert_eq!(manager.next_step(NOW + 3_005), RouteStep::Attempt);
    assert_eq!(manager.connection_timeout_ms(), CONNECT_TIMEOUT_MS);
    assert_eq!(manager.connection_params().port, 1234);
}

#[test]
fn cooldown_saturates_at_the_end_of_time() {
    let mut manager =
        SingleRouteThrottlingConnectionManager::new(fake_connection_params(), CONNECT_TIMEOUT_MS);
    manager.record(u64::MAX - 10, TCP_FAILED);
    manager.record(u64::MAX - 10, TCP_FAILED);
    assert_eq!(manager.next_step(u64::MAX - 1), RouteStep::WaitUntil(u64::MAX));
    assert_eq!(manager.next_step(u64::MAX), RouteStep::Attempt);
}

#[test]
fn cooldown_intervals_double_up_to_the_longest() {
    let expected = [0u64, 0, 1_000, 2_000, 4_000, 8_000, 16_000, 32_000, 64_000, 64_000];
    for (failures, interval) in expected.iter().enumerate() {
        assert_eq!(cooldown_interval_ms(failures as u32), *interval);
    }
    assert_eq!(cooldown_interval_ms(u32::MAX), 64_000);
}

#[test]
fn multi_route_tries_routes_in_order() {
    let mut manager = MultiRouteConnectionManager::from_params(
        vec![
            ConnectionParams { host: "a".to_string(), sni: "a".to_string(), port: 1 },
            ConnectionParams { host: "b".to_string(), sni: "b".to_string(), port: 2 },
            ConnectionParams { host: "c".to_string(), sni: "c".to_string(), port: 3 },
        ],
        CONNECT_TIMEOUT_MS,
    );
    assert_eq!(manager.len(), 3);
    assert_eq!(manager.connection_params(0).host, "a");
    assert_eq!(manager.connection_params(1).host, "b");
    assert_eq!(manager.connection_params(2).port, 3);
    assert_eq!(manager.next_step(0, NOW), MultiRouteStep::Attempt(0));
    assert_eq!(manager.record(0, NOW, TCP_FAILED), None);
    assert_eq!(manager.record(0, NOW, TCP_FAILED), None);
    assert_eq!(manager.next_step(0, NOW), MultiRouteStep::Attempt(1));
    assert_eq!(manager.next_step(2, NOW), MultiRouteStep::Attempt(2));
    assert_eq!(
        manager.next_step(3, NOW),
        MultiRouteStep::Done(ConnectionAttemptOutcome::WaitUntil(NOW + 1_000))
    );
    assert_eq!(
        manager.record(1, NOW, AttemptResult::Connected),
        Some(ConnectionAttemptOutcome::Attempted(Ok(())))
    );
    assert_eq!(
        manager.record(2, NOW + 1, AttemptResult::TimedOut),
        Some(ConnectionAttemptOutcome::TimedOut)
    );
    manager.record(2, NOW + 1, TCP_FAILED);
    manager.record(2, NOW + 1, TCP_FAILED);
    manager.record(1, NOW + 2, TCP_FAILED);
    manager.record(1, NOW + 2, TCP_FAILED);
    assert_eq!(
        manager.next_step(0, NOW + 3),
        MultiRouteStep::Done(ConnectionAttemptOutcome::WaitUntil(NOW + 1_000))
    );
    assert_eq!(manager.next_step(0, NOW + 1_000), MultiRouteStep::Attempt(0));
    assert_eq!(
        manager.next_step(1, NOW + 1_000),
        MultiRouteStep::Done(ConnectionAttemptOutcome::WaitUntil(NOW + 1_002))
    );
    let empty = MultiRouteConnectionManager::new(vec![], CONNECT_TIMEOUT_MS);
    assert_eq!(empty.next_step(0, NOW), MultiRouteStep::Done(ConnectionAttemptOutcome::TimedOut));
}

#[test]
fn service_states_map_to_errors() {
    assert_eq!(websocket_or_error(ServiceState::Active), Ok(()));
    assert_eq!(
        websocket_or_error(ServiceState::Error(WebSocketConnectError::Timeout)),
        Err(Error::WebSocketConnect(WebSocketConnectError::Timeout))
    );
    assert_eq!(websocket_or_error(ServiceState::Cooldown(5)), Err(Error::ConnectionTimedOut));
    assert_eq!(websocket_or_error(ServiceState::ConnectionTimedOut), Err(Error::ConnectionTimedOut));
    assert_eq!(
        ServiceState::from_outcome(ConnectionAttemptOutcome::WaitUntil(9)),
        ServiceState::Cooldown(9)
    );
    assert_eq!(
        ServiceState::from_outcome(ConnectionAttemptOutcome::Attempted(Ok(()))),
        ServiceState::Active
    );
}

#[test]
fn handshake_faults_map_to_errors() {
    let failure = AttestationFailure { reason: "stale".to_string() };
    assert_eq!(Error::from(AttestedConnectionError::ClientConnection), Error::Protocol);
    assert_eq!(Error::from(AttestedConnectionError::Protocol), Error::Protocol);
    assert_eq!(
        Error::from(AttestedConnectionError::WebSocket(WebSocketServiceError::ChannelClosed)),
        Error::WebSocket(WebSocketServiceError::ChannelClosed)
    );
    assert_eq!(
        Error::from(AttestedConnectionError::Sgx(failure.clone())),
        Error::AttestationError(failure.clone())
    );
    assert_eq!(attested_or_error(Ok(())), Ok(()));
    assert_eq!(
        attested_or_error(Err(AttestedConnectionError::Sgx(failure.clone()))),
        Err(Error::AttestationError(failure))
    );
}

#[test]
fn url_paths_follow_the_enclave_kind() {
    assert_eq!(Cdsi::url_path(b"abcdef"), "/v1/616263646566/discovery");
    assert_eq!(Sgx::url_path(&[0x00, 0x0f, 0xa0, 0xff]), "/v1/000fa0ff");
    assert_eq!(Sgx::url_path(&[]), "/v1/");
    assert_eq!(Nitro::url_path(b"abcdef.12"), "/v1/abcdef.12");
    assert_eq!(Tpm2Snp::url_path("caf\u{e9}".as_bytes()), "/v1/caf\u{e9}");
    assert_eq!(Svr3Env::server_ids(), vec![1, 2, 3]);
    assert!(Cdsi::has_path(&[0xff]));
    assert!(Sgx::has_path(&[0xff]));
    assert!(Nitro::has_path(b"abc"));
    assert!(!Nitro::has_path(&[0xff, 0xfe]));
    assert!(!Tpm2Snp::has_path(&[0xc0, 0x80]));
    assert!(!Tpm2Snp::has_path(&[0xed, 0xa0, 0x80]));
}

#[test]
fn only_failed_attestation_is_final() {
    let failure = AttestationFailure { reason: "wrong measurement".to_string() };
    assert!(!Error::AttestationError(failure).may_retry());
    assert!(Error::ConnectionTimedOut.may_retry());
    assert!(Error::Protocol.may_retry());
    assert!(Error::WebSocket(WebSocketServiceError::Io).may_retry());
    assert!(Error::WebSocketConnect(WebSocketConnectError::Timeout).may_retry());
}

#[test]
fn endpoint_connections_carry_path_and_params() {
    let bytes: &'static [u8] = b"abcdef";
    let endpoint = EnclaveEndpoint::<Cdsi> {
        domain_config: DomainConfig { hostname: "cdsi.example".to_string(), port: 443 },
        mr_enclave: MrEnclave::new(bytes),
    };
    let single = EnclaveEndpointConnection::new(endpoint, CONNECT_TIMEOUT_MS);
    assert_eq!(single.endpoint_connection.config.endpoint, "/v1/616263646566/discovery");
    assert_eq!(single.endpoint_connection.config.connect_timeout_ms, CONNECT_TIMEOUT_MS);
    assert_eq!(single.endpoint_connection.manager.connection_params().host, "cdsi.example");
    assert_eq!(single.endpoint_connection.manager.connection_params().sni, "cdsi.example");
    assert_eq!(single.endpoint_connection.manager.next_step(0), RouteStep::Attempt);
    assert_eq!(single.params.mr_enclave.as_ref(), bytes);
    assert_eq!(single.params.raft_config_override, None);

    let raft = RaftConfig { min_voting_replicas: 3, max_voting_replicas: 5, super_majority: 0, group_id: 77 };
    let endpoint = EnclaveEndpoint::<Nitro> {
        domain_config: DomainConfig { hostname: "svr.example".to_string(), port: 443 },
        mr_enclave: MrEnclave::new(bytes),
    };
    let custom = EnclaveEndpointConnection::with_custom_properties(endpoint, 5, Some(raft));
    assert_eq!(custom.endpoint_connection.config.endpoint, "/v1/abcdef");
    assert_eq!(custom.params.raft_config_override, Some(raft));

    let multi = EnclaveEndpointConnection::<Sgx, _>::new_multi(
        MrEnclave::new(bytes),
        vec![fake_connection_params(), fake_connection_params()],
        CONNECT_TIMEOUT_MS,
    );
    assert_eq!(multi.endpoint_connection.config.endpoint, "/v1/616263646566");
    assert_eq!(multi.endpoint_connection.manager.len(), 2);
    assert_eq!(multi.endpoint_connection.manager.next_step(0, NOW), MultiRouteStep::Attempt(0));

    let params = EndpointParams::<Tpm2Snp>::new(MrEnclave::new(bytes)).with_raft_override(raft);
    assert_eq!(params.raft_config_override, Some(raft));
    assert_eq!(params.mr_enclave.duplicate().as_ref(), bytes);
}

fn request(verb: &str, path: Option<&str>, headers: &[&str], body: Option<Vec<u8>>) -> RequestProto {
    RequestProto {
        verb: Some(verb.to_string()),
        path: path.map(|p| p.to_string()),
        body,
        headers: headers.iter().map(|h| h.to_string()).collect(),
        id: Some(42),
    }
}

fn unpack(message: Option<ServerMessage>) -> Option<(u64, Vec<u8>, u64)> {
    match message {
        Some(ServerMessage::IncomingMessage { request_id, envelope, server_delivery_timestamp }) => {
            Some((request_id, envelope, server_delivery_timestamp.epoch_millis()))
        }
        _ => None,
    }
}

#[test]
fn other_verbs_and_unknown_paths_yield_nothing() {
    for verb in ["GET", "POST", "put", "", "PUT "] {
        assert!(incoming_message(request(verb, Some("/api/v1/message"), &[], None)).is_none());
        assert!(incoming_message(request(verb, Some("/api/v1/queue/empty"), &[], None)).is_none());
    }
    for path in [Some(""), None, Some("/api/v1/messages"), Some("/api/v1/queue"), Some("/API/V1/MESSAGE")] {
        assert!(incoming_message(request("PUT", path, &["x-signal-timestamp: 5"], None)).is_none());
    }
    let no_verb = RequestProto { verb: None, path: Some("/api/v1/message".to_string()), body: None, headers: vec![], id: None };
    assert!(incoming_message(no_verb).is_none());
}

#[test]
fn queue_empty_is_recognised() {
    let message = incoming_message(request("PUT", Some("/api/v1/queue/empty"), &[], Some(vec![1])));
    assert!(matches!(message, Some(ServerMessage::QueueEmpty)));
    assert_eq!(message.unwrap().describe(), "QueueEmpty");
    assert_eq!(ACK_STATUS, 200);
    assert_eq!(ack_status(), 200);
}

#[test]
fn batches_keep_the_order_of_arrival() {
    let requests = vec![
        request("PUT", Some("/api/v1/message"), &["x-signal-timestamp: 1"], Some(vec![1])),
        request("GET", Some("/api/v1/message"), &["x-signal-timestamp: 2"], Some(vec![2])),
        request("PUT", Some("/api/v1/queue/empty"), &[], None),
        request("PUT", Some("/nowhere"), &[], None),
        request("PUT", Some("/api/v1/message"), &["x-signal-timestamp: 3"], Some(vec![3])),
    ];
    let mut messages = stream_incoming_messages(requests).into_iter();
    assert_eq!(unpack(messages.next()), Some((42, vec![1], 1)));
    assert!(matches!(messages.next(), Some(ServerMessage::QueueEmpty)));
    assert_eq!(unpack(messages.next()), Some((42, vec![3], 3)));
    assert!(messages.next().is_none());
    assert!(stream_incoming_messages(vec![]).is_empty());
}

#[test]
fn last_timestamp_header_wins() {
    let headers = [
        "X-Signal-Timestamp: 100",
        "Content-Type: text/plain",
        "x-signal-timestamp:  1700000000123 ",
        "X-SIGNAL-TIMESTAMP: not a number",
        "X-Other:7",
    ];
    let message = incoming_message(request("PUT", Some("/api/v1/message"), &headers, Some(vec![9, 8, 7])));
    assert_eq!(unpack(message), Some((42, vec![9, 8, 7], 1_700_000_000_123)));
}

#[test]
fn missing_timestamp_and_body_default() {
    let message = incoming_message(request("PUT", Some("/api/v1/message"), &["x-signal-timestamp 5", "a:b"], None));
    assert_eq!(unpack(message), Some((42, vec![], 0)));
    let bare = RequestProto {
        verb: Some("PUT".to_string()),
        path: Some("/api/v1/message".to_string()),
        body: None,
        headers: vec!["x-signal-timestamp:18446744073709551616".to_string()],
        id: None,
    };
    assert_eq!(unpack(incoming_message(bare)), Some((0, vec![], 0)));
}

#[test]
fn headers_are_read_one_by_one() {
    assert_eq!(timestamp_from_header("X-Signal-Timestamp:12"), Some(12));
    assert_eq!(timestamp_from_header("x-signal-timestamp:\t18446744073709551615\r\n"), Some(u64::MAX));
    assert_eq!(timestamp_from_header("x-signal-timestamp: -1"), None);
    assert_eq!(timestamp_from_header("x-signal-timestamp: 1:2"), None);
    assert_eq!(timestamp_from_header("x-signal-timestamp : 3"), None);
    assert_eq!(timestamp_from_header("x-signal-timestamp"), None);
    assert_eq!(timestamp_from_header(":x-signal-timestamp: 3"), None);
    assert_eq!(last_timestamp_header(&vec![]), None);
    assert_eq!(
        last_timestamp_header(&vec!["x-signal-timestamp: 1".to_string(), "x-signal-timestamp: 2".to_string()]),
        Some(2)
    );
    assert_eq!(
        last_timestamp_header(&vec!["x-signal-timestamp: 1".to_string(), "x-signal-timestamp: x".to_string()]),
        Some(1)
    );
}

#[test]
fn routing_uses_the_given_timestamp() {
    let message = route_request("PUT", "/api/v1/message", 7, vec![1, 2], Some(99));
    assert_eq!(message.as_ref().unwrap().describe(),
        "IncomingMessage { request_id: 7, envelope: 2 bytes, server_delivery_timestamp: Timestamp(99) }");
    assert_eq!(unpack(message), Some((7, vec![1, 2], 99)));
    assert!(route_request("GET", "/api/v1/message", 7, vec![], Some(99)).is_none());
    assert_eq!(Timestamp::from_epoch_millis(4), Timestamp(4));
}

#[test]
fn known_name_servers_are_pinned() {
    let resolver = dns_resolver_for_known_ns(true);
    assert!(resolver.ipv6_enabled);
    assert!(!dns_resolver_for_known_ns(false).ipv6_enabled);
    assert_eq!(resolver.names, vec!["1.1.1.1", "dns.google"]);
    assert_eq!(resolver.position("dns.google"), Some(1));
    assert_eq!(resolver.position("1.1.1.1"), Some(0));
    assert_eq!(resolver.position("example.org"), None);
    let cloudflare = &resolver.results[0];
    assert_eq!(cloudflare.source, DnsSource::Static);
    assert_eq!(cloudflare.ipv4, vec![Ipv4([1, 1, 1, 1])]);
    assert_eq!(
        cloudflare.ipv6,
        vec![Ipv6([0x26, 0x06, 0x47, 0x00, 0x47, 0x00, 0, 0, 0, 0, 0, 0, 0, 0, 0x11, 0x11])]
    );
    let google = &resolver.results[1];
    assert_eq!(google.ipv4, vec![Ipv4([8, 8, 8, 8])]);
    assert_eq!(
        google.ipv6,
        vec![Ipv6([0x20, 0x01, 0x48, 0x60, 0x48, 0x60, 0, 0, 0, 0, 0, 0, 0, 0, 0x88, 0x88])]
    );
}

#[test]
fn lookups_ask_for_both_families_when_ipv6_is_on() {
    let transport = DohTransport::new(true);
    let both = DnsLookupRequest { hostname: "example.org".to_string(), ipv6_enabled: true };
    let only_v4 = DnsLookupRequest { hostname: "example.org".to_string(), ipv6_enabled: false };
    assert_eq!(transport.send_queries(&both), vec![ResourceType::AAAA, ResourceType::A]);
    assert_eq!(transport.send_queries(&only_v4), vec![ResourceType::A]);
    assert_eq!(DohTransport::dns_source(), DnsSource::DnsOverHttpsLookup);
    let plan = DohTransport::request_for(vec![0, 0, 1, 0]);
    assert_eq!(plan.method, "POST");
    assert_eq!(plan.path, "/dns-query");
    assert_eq!(plan.accept, "application/dns-message");
    assert_eq!(plan.content_type, "application/dns-message");
    assert_eq!(plan.body, vec![0, 0, 1, 0]);
}

#[test]
fn answers_are_read_by_status_and_record_length() {
    let v4 = vec![vec![10, 0, 0, 1], vec![10, 0, 0, 2]];
    match DohTransport::read_answer(200, &v4, ResourceType::A) {
        Ok(DnsQueryResult::Left(found)) => assert_eq!(found, vec![Ipv4([10, 0, 0, 1]), Ipv4([10, 0, 0, 2])]),
        other => panic!("unexpected {other:?}"),
    }
    let v6 = vec![(0u8..16).collect::<Vec<u8>>()];
    match DohTransport::read_answer(200, &v6, ResourceType::AAAA) {
        Ok(DnsQueryResult::Right(found)) => {
            assert_eq!(found, vec![Ipv6([0, 1, 2, 3, 4, 5, 6, 7, 8, 9, 10, 11, 12, 13, 14, 15])])
        }
        other => panic!("unexpected {other:?}"),
    }
    assert!(matches!(DohTransport::read_answer(200, &vec![], ResourceType::A), Ok(DnsQueryResult::Left(v)) if v.is_empty()));
    assert!(matches!(DohTransport::read_answer(404, &v4, ResourceType::A), Err(signal_client_core::dns::Error::DohRequestBadStatus(404))));
    assert!(matches!(DohTransport::read_answer(500, &v6, ResourceType::A), Err(signal_client_core::dns::Error::DohRequestBadStatus(500))));
    assert!(matches!(DohTransport::read_answer(200, &v6, ResourceType::A), Err(signal_client_core::dns::Error::ProtocolErrorInvalidRecord)));
    assert!(matches!(DohTransport::read_answer(200, &v4, ResourceType::AAAA), Err(signal_client_core::dns::Error::ProtocolErrorInvalidRecord)));
}

fn example_query(type_code: u8) -> Vec<u8> {
    let mut expected = vec![0, 0, 1, 0, 0, 1, 0, 0, 0, 0, 0, 0];
    expected.push(7);
    expected.extend_from_slice(b"example");
    expected.push(3);
    expected.extend_from_slice(b"org");
    expected.push(0);
    expected.extend_from_slice(&[0, type_code, 0, 1]);
    expected
}

#[test]
fn queries_are_written_in_wire_format() {
    assert_eq!(create_request_with_id(0, "example.org", ResourceType::A), Ok(example_query(1)));
    assert_eq!(create_request_with_id(0, "example.org", ResourceType::AAAA), Ok(example_query(28)));
    let with_id = create_request_with_id(0x1234, "a", ResourceType::A).unwrap();
    assert_eq!(with_id, vec![0x12, 0x34, 1, 0, 0, 1, 0, 0, 0, 0, 0, 0, 1, b'a', 0, 0, 1, 0, 1]);
    let plan = DohTransport::query_for("example.org", ResourceType::AAAA).unwrap();
    assert_eq!(plan.body, example_query(28));
    assert_eq!(plan.method, "POST");
}

#[test]
fn names_that_cannot_be_asked_for_are_refused() {
    let invalid = Err(signal_client_core::dns::Error::ProtocolErrorInvalidName);
    for name in ["", ".", "example.", ".org", "a..b"] {
        assert_eq!(create_request_with_id(0, name, ResourceType::A), invalid);
    }
    let label63 = "a".repeat(63);
    let label64 = "a".repeat(64);
    assert!(create_request_with_id(0, &label63, ResourceType::A).is_ok());
    assert_eq!(create_request_with_id(0, &label64, ResourceType::A), invalid);
    let long = format!("{label63}.{label63}.{label63}.{}", "b".repeat(61));
    assert_eq!(long.len(), 253);
    let message = create_request_with_id(0, &long, ResourceType::A).unwrap();
    assert_eq!(message.len(), 12 + 255 + 4);
    let too_long = format!("{long}c");
    assert_eq!(create_request_with_id(0, &too_long, ResourceType::A), invalid);
    assert!(DohTransport::query_for("a..b", ResourceType::A).is_err());
}

fn example_response(answers: &[(u16, &[u8])], rcode: u8) -> Vec<u8> {
    let mut message = vec![0, 0, 0x81, 0x80 | rcode, 0, 1, 0, answers.len() as u8, 0, 0, 0, 0];
    message.push(7);
    message.extend_from_slice(b"example");
    message.push(3);
    message.extend_from_slice(b"org");
    message.push(0);
    message.extend_from_slice(&[0, 1, 0, 1]);
    for (type_code, data) in answers {
        message.extend_from_slice(&[0xc0, 12]);
        message.extend_from_slice(&type_code.to_be_bytes());
        message.extend_from_slice(&[0, 1, 0, 0, 1, 44]);
        message.extend_from_slice(&(data.len() as u16).to_be_bytes());
        message.extend_from_slice(data);
    }
    message
}

#[test]
fn answers_are_read_from_wire_format() {
    let cname: &[u8] = &[3, b'w', b'w', b'w', 0xc0, 12];
    let v4a: &[u8] = &[93, 184, 216, 34];
    let v4b: &[u8] = &[10, 0, 0, 1];
    let v6: &[u8] = &[0x26, 0x06, 0x28, 0, 2, 0x20, 0, 1, 2, 0x48, 0x18, 0x93, 0x25, 0xc8, 0x19, 0x46];
    let message = example_response(&[(5, cname), (1, v4a), (28, v6), (1, v4b)], 0);
    assert_eq!(parse_response(&message, ResourceType::A), Ok(vec![v4a.to_vec(), v4b.to_vec()]));
    assert_eq!(parse_response(&message, ResourceType::AAAA), Ok(vec![v6.to_vec()]));
    match DohTransport::read_response(200, &message, ResourceType::A) {
        Ok(DnsQueryResult::Left(found)) => {
            assert_eq!(found, vec![Ipv4([93, 184, 216, 34]), Ipv4([10, 0, 0, 1])])
        }
        other => panic!("unexpected {other:?}"),
    }
    match DohTransport::read_response(200, &message, ResourceType::AAAA) {
        Ok(DnsQueryResult::Right(found)) => assert_eq!(found.len(), 1),
        other => panic!("unexpected {other:?}"),
    }
    assert_eq!(parse_response(&example_response(&[], 0), ResourceType::A), Ok(vec![]));
}

#[test]
fn broken_answers_are_refused() {
    let invalid = Err(signal_client_core::dns::Error::ProtocolErrorInvalidMessage);
    let v4: &[u8] = &[93, 184, 216, 34];
    let message = example_response(&[(1, v4)], 0);
    for cut in [0, 5, 11, 12, 20, 28, 29, 30, 40, message.len() - 1] {
        assert_eq!(parse_response(&message[..cut], ResourceType::A), invalid, "cut at {cut}");
    }
    assert!(parse_response(&message, ResourceType::A).is_ok());
    let mut bad_label = message.clone();
    bad_label[12] = 0x40;
    assert_eq!(parse_response(&bad_label, ResourceType::A), invalid);
    assert_eq!(
        parse_response(&example_response(&[], 3), ResourceType::A),
        Err(signal_client_core::dns::Error::RequestFailedWithErrorCode(3))
    );
    assert!(matches!(
        DohTransport::read_response(503, &message, ResourceType::A),
        Err(signal_client_core::dns::Error::DohRequestBadStatus(503))
    ));
    assert!(matches!(
        DohTransport::read_response(200, &example_response(&[(1, &[1, 2, 3])], 0), ResourceType::A),
        Err(signal_client_core::dns::Error::ProtocolErrorInvalidRecord)
    ));
    assert!(matches!(
        DohTransport::read_response(200, &[], ResourceType::A),
        Err(signal_client_core::dns::Error::ProtocolErrorInvalidMessage)
    ));
}
