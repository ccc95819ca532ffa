use rpcedge_relay::client_error::RelayClientError;
use rpcedge_relay::duration::Duration;
use rpcedge_relay::error::ProtocolError;
use rpcedge_relay::frame::{QuicPayloadKind, QuicSubmitHeader};
use rpcedge_relay::http::{
    is_success_status, settle_json_rpc_reply, settle_reply, HttpBody, HttpReply,
    JsonRpcSubmitRequest, JsonRpcSubmitResponse, RelayClient, RelayClientConfig, SubmitResponse,
};
use rpcedge_relay::quic::{
    accept_answer, parse_quic_response, settle_quic_reply, QuicProtocol, QuicRelayClient,
    QuicRelayClientConfig, QuicReply, QuicStep,
};
use rpcedge_relay::request::{RelayMethod, SubmitRequest, VERSION};
use rpcedge_relay::routes::{RelayRoute, RouteSet};
use rpcedge_relay::transaction::{Base64Error, TransactionVersion};

const RELAY_KEY: &str = "00000000-0000-4000-8000-000000000000";

fn client(endpoint: &str) -> RelayClient {
    RelayClient::new(RelayClientConfig::new(endpoint, RELAY_KEY)).unwrap()
}

fn answer() -> SubmitResponse {
    SubmitResponse {
        accepted: true,
        request_id: "relay-req-1".to_string(),
        signature: "sig-1".to_string(),
    }
}

#[test]
fn rejects_empty_config() {
    assert!(RelayClient::new(RelayClientConfig::new("", "key")).is_err());
}

#[test]
fn builds_send_transaction_request() {
    let client = RelayClient::new(RelayClientConfig::new(
        "https://relay.rpcedge.com",
        "00000000-0000-4000-8000-000000000000",
    ))
    .unwrap();

    let request = client.build_send_transaction_request(
        "AA==",
        RouteSet::default_plus(vec![RelayRoute::HeliusSenderSwqos]),
    );

    assert_eq!(request.version, VERSION);
    assert_eq!(request.method, RelayMethod::SendTransaction);
}

#[test]
fn submit_posts_route_aware_envelope_with_bearer_auth() {
    let relay_key = "00000000-0000-4000-8000-000000000000";
    let client =
        RelayClient::new(RelayClientConfig::new("http://127.0.0.1:8080", relay_key)).unwrap();

    let post = client
        .send_transaction_base64(
            "AA==",
            RouteSet::default_plus(vec![RelayRoute::HeliusSenderSwqos]),
        )
        .unwrap();
    assert_eq!(post.url, "http://127.0.0.1:8080/v1/submit");
    assert_eq!(post.credential, relay_key);
    assert_eq!(
        post.headers(),
        [
            ("authorization", format!("Bearer {relay_key}")),
            ("x-api-key", relay_key.to_string()),
        ]
    );
    match post.body {
        HttpBody::Envelope(request) => {
            assert_eq!(request.method, RelayMethod::SendTransaction);
            assert_eq!(request.transaction.as_deref(), Some("AA=="));
            assert_eq!(
                request.route_set,
                RouteSet::default_plus(vec![RelayRoute::HeliusSenderSwqos])
            );
        }
        other => panic!("{other:?}"),
    }

    let response = settle_reply(HttpReply::Responded {
        status: 200,
        text: None,
        parsed: Ok(SubmitResponse {
            accepted: true,
            request_id: "relay-req-1".to_string(),
            signature: "sig-1".to_string(),
        }),
    })
    .unwrap();
    assert_eq!(
        response,
        SubmitResponse {
            accepted: true,
            request_id: "relay-req-1".to_string(),
            signature: "sig-1".to_string(),
        }
    );
}

#[test]
fn submit_returns_status_error_body() {
    let client = client("http://127.0.0.1:8080");
    let post = client
        .send_bundle_base64(
            vec!["AA==".to_string()],
            RouteSet::only(vec![RelayRoute::JitoBundle]),
        )
        .unwrap();
    assert_eq!(post.url, "http://127.0.0.1:8080/v1/submit");

    assert!(!is_success_status(403));
    let error = settle_reply::<SubmitResponse>(HttpReply::Responded {
        status: 403,
        text: Some("route denied".to_string()),
        parsed: Err(String::new()),
    })
    .expect_err("relay status should fail");
    assert!(matches!(
        error,
        RelayClientError::Status { status: 403, .. }
    ));
    assert_eq!(error.message(), "relay returned HTTP 403: route denied");
}

#[test]
fn a_client_needs_an_endpoint_and_a_key() {
    assert!(matches!(
        RelayClient::new(RelayClientConfig::new(" \t\n", "")),
        Err(RelayClientError::InvalidConfig("endpoint is empty"))
    ));
    assert!(matches!(
        RelayClient::new(RelayClientConfig::new("http://relay", "\u{a0}\u{3000}")),
        Err(RelayClientError::InvalidConfig("api_key is empty"))
    ));
    let client = RelayClient::new(
        RelayClientConfig::new(" http://relay ", " key ").with_timeout(Duration::from_millis(5)),
    )
    .unwrap();
    assert_eq!(client.endpoint(), " http://relay ");
    assert_eq!(client.api_key(), " key ");
    assert_eq!(client.timeout(), Duration::from_millis(5));
    assert_eq!(client.clone().endpoint(), " http://relay ");
    assert_eq!(
        RelayClientConfig::new("e", "k").timeout,
        Duration::from_secs(2)
    );
}

#[test]
fn urls_are_trimmed_and_not_doubled() {
    let spaced = client("  http://relay.example//  ");
    assert_eq!(spaced.submit_url(), "http://relay.example/v1/submit");
    assert_eq!(
        spaced.json_rpc_url(),
        "http://relay.example/v1/sendTransaction"
    );
    assert_eq!(
        spaced.raw_transaction_url(),
        "http://relay.example/v1/transactions"
    );
    let full = client("http://relay.example/v1/submit/");
    assert_eq!(full.submit_url(), "http://relay.example/v1/submit");
    assert_eq!(
        full.json_rpc_url(),
        "http://relay.example/v1/submit/v1/sendTransaction"
    );
    assert_eq!(
        client(&spaced.submit_url()).submit_url(),
        spaced.submit_url()
    );
    assert_eq!(client("/ /").url_for_path("/x"), "/ /x");
}

#[test]
fn posts_carry_the_trimmed_key() {
    let client = RelayClient::new(RelayClientConfig::new("http://relay", "  key\n")).unwrap();
    let post = client.send_transaction_raw_bytes(&[1, 2, 3]);
    assert_eq!(post.credential, "key");
    assert_eq!(post.url, "http://relay/v1/transactions");
    assert_eq!(
        post.headers(),
        [
            ("authorization", "Bearer key".to_string()),
            ("x-api-key", "key".to_string()),
            ("content-type", "application/octet-stream".to_string()),
        ]
    );
    assert!(matches!(post.body, HttpBody::Raw(bytes) if bytes == [1, 2, 3]));
}

#[test]
fn fast_submission_differs_in_its_method_alone() {
    let client = client("http://relay");
    let fast = client
        .send_transaction_fast_base64("AA==", RouteSet::server_default())
        .unwrap();
    let mut expected = SubmitRequest::send_transaction_base64("AA==", RouteSet::server_default());
    expected.method = RelayMethod::SendTransactionFast;
    assert!(matches!(fast.body, HttpBody::Envelope(request) if request == expected));
}

#[test]
fn json_rpc_calls_have_their_form() {
    let client = client("http://relay");
    let post = client.send_transaction_json_rpc_base64("AA==");
    assert_eq!(post.url, "http://relay/v1/sendTransaction");
    assert_eq!(post.headers().len(), 2);
    assert!(matches!(
        post.body,
        HttpBody::JsonRpc(call) if call == (JsonRpcSubmitRequest {
            jsonrpc: "2.0",
            id: 1,
            method: "sendTransaction",
            transaction: "AA==".to_string(),
            encoding: "base64",
        })
    ));
    let settled = settle_json_rpc_reply(HttpReply::Responded {
        status: 200,
        text: None,
        parsed: Ok(JsonRpcSubmitResponse {
            result: "sig-1".to_string(),
            request_id: "relay-req-1".to_string(),
        }),
    })
    .unwrap();
    assert_eq!(settled, answer());
    assert!(matches!(
        settle_json_rpc_reply(HttpReply::Responded {
            status: 500,
            text: Some("down".to_string()),
            parsed: Ok(JsonRpcSubmitResponse {
                result: "sig-1".to_string(),
                request_id: "relay-req-1".to_string(),
            }),
        }),
        Err(RelayClientError::Status { status: 500, body }) if body == "down"
    ));
    assert!(matches!(
        settle_json_rpc_reply(HttpReply::Failed("down".to_string())),
        Err(RelayClientError::Http(reason)) if reason == "down"
    ));
}

#[test]
fn raw_base64_is_posted_as_bytes() {
    let client = client("http://relay");
    let post = client.send_transaction_raw_base64("aGVsbG8=").unwrap();
    assert!(matches!(post.body, HttpBody::Raw(bytes) if bytes == b"hello"));
    assert!(matches!(
        client.send_transaction_raw_base64("aGVsbG8"),
        Err(RelayClientError::Protocol(ProtocolError::Base64(
            Base64Error::InvalidPadding
        )))
    ));
}

#[test]
fn a_request_of_the_wrong_shape_is_not_posted() {
    let client = client("http://relay");
    assert!(matches!(
        client.send_bundle_base64(Vec::new(), RouteSet::server_default()),
        Err(RelayClientError::Protocol(ProtocolError::InvalidPayload(_)))
    ));
    let mut request = SubmitRequest::send_transaction_base64("AA==", RouteSet::server_default());
    request.version = 3;
    assert!(matches!(
        client.submit(request),
        Err(RelayClientError::Protocol(ProtocolError::UnsupportedVersion(3)))
    ));
}

#[test]
fn replies_are_settled_by_what_came_back() {
    assert!(is_success_status(200) && is_success_status(299));
    assert!(!is_success_status(199) && !is_success_status(300));
    assert!(matches!(
        settle_reply::<SubmitResponse>(HttpReply::Failed("refused".to_string())),
        Err(RelayClientError::Http(reason)) if reason == "refused"
    ));
    assert!(matches!(
        settle_reply::<SubmitResponse>(HttpReply::Responded {
            status: 500,
            text: None,
            parsed: Ok(answer()),
        }),
        Err(RelayClientError::Status { status: 500, body }) if body.is_empty()
    ));
    assert!(matches!(
        settle_reply::<SubmitResponse>(HttpReply::Responded {
            status: 200,
            text: None,
            parsed: Err("no json".to_string()),
        }),
        Err(RelayClientError::Http(reason)) if reason == "no json"
    ));
}

#[test]
fn the_status_alone_decides_whether_a_post_was_refused() {
    for status in [100, 199, 200, 204, 299, 300, 403, 599] {
        let settled = settle_reply(HttpReply::Responded {
            status,
            text: Some("words".to_string()),
            parsed: Ok(answer()),
        });
        match settled {
            Ok(response) => {
                assert!((200..300).contains(&status));
                assert_eq!(response, answer());
            }
            Err(RelayClientError::Status { status: told, body }) => {
                assert!(!(200..300).contains(&status));
                assert_eq!((told, body.as_str()), (status, "words"));
            }
            Err(other) => panic!("{}", other.message()),
        }
    }
}

#[test]
fn a_connection_offers_the_protocol_that_it_speaks() {
    let mut config = QuicRelayClientConfig::new((), "k");
    let settings = config.tls_settings(QuicProtocol::V1);
    assert_eq!(settings.alpn, "rpcedge-submit-v1");
    assert!(!settings.verify_server_certificate);
    assert!(!settings.early_data);
    config.insecure_skip_server_certificate_verification = false;
    let settings = config.tls_settings(QuicProtocol::V2);
    assert_eq!(settings.alpn, "rpcedge-submit-v2");
    assert!(settings.verify_server_certificate);
    for (version, protocol) in [
        (TransactionVersion::Legacy, QuicProtocol::V1),
        (TransactionVersion::V0, QuicProtocol::V1),
        (TransactionVersion::V1, QuicProtocol::V2),
    ] {
        assert_eq!(QuicProtocol::carrying(version), protocol);
    }
}

#[test]
fn quic_configuration_has_defaults_and_is_checked() {
    let config = QuicRelayClientConfig::new(4433u16, " key ");
    assert_eq!(config.endpoint, 4433);
    assert_eq!(config.server_name, "relay.rpcedge.com");
    assert_eq!(config.timeout, Duration::from_secs(2));
    assert_eq!(config.max_response_bytes, 4096);
    assert!(config.insecure_skip_server_certificate_verification);
    assert!(config.validate().is_ok());
    assert_eq!(config.credential(), "key");

    let config = config
        .with_server_name(" other ")
        .with_timeout(Duration::from_millis(7));
    assert_eq!(config.verified_name(), "other");
    assert_eq!(config.timeout, Duration::from_millis(7));
    assert!(matches!(
        config.with_server_name("  ").validate(),
        Err(RelayClientError::InvalidConfig("server_name is empty"))
    ));
    assert!(matches!(
        QuicRelayClientConfig::new((), "").with_server_name("").validate(),
        Err(RelayClientError::InvalidConfig("api_key is empty"))
    ));
}

#[test]
fn quic_answers_are_json_or_an_error_line() {
    let read = |_: &[u8]| Ok(answer());
    assert_eq!(parse_quic_response(b"{}", read).unwrap(), answer());
    assert!(matches!(
        parse_quic_response(b"error: route denied\r\n", read),
        Err(RelayClientError::QuicStatus(body)) if body == "error: route denied"
    ));
    assert!(matches!(
        parse_quic_response(b"error:\xff ", read),
        Err(RelayClientError::QuicStatus(body)) if body == "error:\u{fffd}"
    ));
    assert!(parse_quic_response(b" error:", read).is_ok());
    assert!(parse_quic_response(b"error", read).is_ok());
    assert!(matches!(
        parse_quic_response(b"nonsense", |_: &[u8]| Err("bad".to_string())),
        Err(RelayClientError::Json(reason)) if reason == "bad"
    ));
    assert_eq!(accept_answer(Ok(answer())).unwrap(), answer());
}

#[test]
fn quic_steps_name_their_failures() {
    assert!(matches!(
        QuicStep::Connect.timed_out(),
        RelayClientError::Timeout("QUIC connect")
    ));
    assert!(matches!(
        QuicStep::OpenStream.timed_out(),
        RelayClientError::Timeout("QUIC open stream")
    ));
    assert!(matches!(
        QuicStep::Write.timed_out(),
        RelayClientError::Timeout("QUIC write")
    ));
    assert!(matches!(
        QuicStep::Read.timed_out(),
        RelayClientError::Timeout("QUIC read")
    ));
    assert_eq!(
        QuicStep::Connect.failed("x".to_string()).message(),
        "failed to connect QUIC: x"
    );
    assert_eq!(
        QuicStep::OpenStream.failed("x".to_string()).message(),
        "failed to open QUIC stream: x"
    );
    assert_eq!(
        QuicStep::Write.failed("x".to_string()).message(),
        "failed to write QUIC stream: x"
    );
    assert_eq!(
        QuicStep::Read.failed("x".to_string()).message(),
        "failed to read QUIC response: x"
    );
}

#[test]
fn client_errors_read_well() {
    let why = || "x".to_string();
    assert_eq!(
        RelayClientError::InvalidConfig("x").message(),
        "invalid relay client config: x"
    );
    assert_eq!(
        RelayClientError::HttpClient(why()).message(),
        "failed to build HTTP client: x"
    );
    assert_eq!(
        RelayClientError::Http(why()).message(),
        "HTTP request failed: x"
    );
    assert_eq!(
        RelayClientError::Protocol(ProtocolError::FrameTooShort).message(),
        "invalid relay protocol request: frame is too short"
    );
    assert_eq!(
        RelayClientError::QuicEndpoint(why()).message(),
        "failed to build QUIC endpoint: x"
    );
    assert_eq!(
        RelayClientError::QuicConnectStart(why()).message(),
        "failed to start QUIC connection: x"
    );
    assert_eq!(
        RelayClientError::QuicClientConfig(why()).message(),
        "failed to build QUIC client config: x"
    );
    assert_eq!(
        RelayClientError::QuicFinish(why()).message(),
        "failed to finish QUIC stream: x"
    );
    assert_eq!(
        RelayClientError::Timeout("QUIC read").message(),
        "QUIC request timed out during QUIC read"
    );
    assert_eq!(
        RelayClientError::QuicStatus(why()).message(),
        "relay returned QUIC error: x"
    );
    assert_eq!(
        RelayClientError::Json(why()).message(),
        "invalid relay response json: x"
    );
}

#[test]
fn durations_count_nanoseconds() {
    let span = Duration::from_parts(3, 500);
    assert_eq!(span.as_secs(), 3);
    assert_eq!(span.subsec_nanos(), 500);
    assert_eq!(Duration::from_millis(1_500), Duration::from_parts(1, 500_000_000));
    assert!(Duration::zero().is_zero());
    assert!(Duration::from_millis(999).is_shorter_than(&Duration::from_secs(1)));
    assert_eq!(
        Duration::from_secs(u64::MAX).saturating_mul(2),
        Duration::from_parts(u64::MAX, 999_999_999)
    );
    assert_eq!(
        Duration::from_secs(1).divided_by(3),
        Duration::from_parts(0, 333_333_333)
    );
}

fn empty_object(_: &QuicSubmitHeader) -> Result<Vec<u8>, String> {
    Ok(b"{}".to_vec())
}

#[test]
fn a_quic_client_writes_its_key_then_a_frame() {
    let client = QuicRelayClient::new(QuicRelayClientConfig::new((), "  k ")).unwrap();
    assert_eq!(client.config().api_key, "  k ");
    let expected = b"api-key: k\n\0\0\0\x02{}hello";
    assert_eq!(
        client
            .send_transaction_raw_bytes(b"hello", empty_object)
            .unwrap(),
        expected
    );
    assert_eq!(
        client
            .send_transaction_raw_base64("aGVsbG8=", empty_object)
            .unwrap(),
        expected
    );
    assert_eq!(
        client
            .clone()
            .send_transaction_raw_base64_with_route_set(
                "aGVsbG8=",
                RouteSet::server_default(),
                empty_object
            )
            .unwrap(),
        expected
    );
    assert!(matches!(
        client.send_transaction_raw_base64("*", empty_object),
        Err(RelayClientError::Protocol(ProtocolError::Base64(_)))
    ));
    assert!(matches!(
        client.send_transaction_raw_bytes(&vec![0; 1_233], empty_object),
        Err(RelayClientError::Protocol(
            ProtocolError::TransactionTooLarge { .. }
        ))
    ));
    assert!(QuicRelayClient::new(QuicRelayClientConfig::new((), " ")).is_err());
}

#[test]
fn a_quic_client_hands_its_header_to_the_codec() {
    let client = QuicRelayClient::new(QuicRelayClientConfig::new((), "k")).unwrap();
    let describe = |header: &QuicSubmitHeader| {
        assert_eq!(header.version, VERSION);
        assert_eq!(header.method, RelayMethod::SendTransaction);
        assert_eq!(header.payload_kind, QuicPayloadKind::SingleRawTransaction);
        assert_eq!(header.response_mode, None);
        assert_eq!(header.signature, None);
        Ok(format!("{:?} {:?}", header.route_set, header.request_id).into_bytes())
    };
    let routed = RouteSet::only(vec![RelayRoute::TpuUdp]);
    let written = client
        .send_transaction_raw_bytes_with_request_id(
            b"tx",
            routed.clone(),
            Some("req".to_string()),
            describe,
        )
        .unwrap();
    let text = format!("{:?} {:?}", routed, Some("req"));
    assert_eq!(&written[15..written.len() - 2], text.as_bytes());
    let plain = client
        .send_transaction_raw_bytes_with_route_set(b"tx", routed.clone(), describe)
        .unwrap();
    let text = format!("{:?} {:?}", routed, None::<String>);
    assert_eq!(&plain[15..plain.len() - 2], text.as_bytes());
}

#[test]
fn quic_replies_are_settled_by_where_they_ended() {
    let read = |_: &[u8]| Ok(answer());
    assert!(matches!(
        settle_quic_reply(QuicReply::TimedOut(QuicStep::Write), read),
        Err(RelayClientError::Timeout("QUIC write"))
    ));
    assert!(matches!(
        settle_quic_reply(QuicReply::Failed(QuicStep::OpenStream, "x".to_string()), read),
        Err(RelayClientError::QuicOpenStream(reason)) if reason == "x"
    ));
    assert!(matches!(
        settle_quic_reply(QuicReply::Unfinished("x".to_string()), read),
        Err(RelayClientError::QuicFinish(reason)) if reason == "x"
    ));
    assert!(matches!(
        settle_quic_reply(QuicReply::Answered(b"error: no ".to_vec()), read),
        Err(RelayClientError::QuicStatus(body)) if body == "error: no"
    ));
    assert_eq!(
        settle_quic_reply(QuicReply::Answered(b"{}".to_vec()), read).unwrap(),
        answer()
    );
}
