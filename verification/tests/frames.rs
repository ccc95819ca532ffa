use rpcedge_relay::adaptive::{quic_submission, AdaptiveRelayRequest};
use rpcedge_relay::error::ProtocolError;
use rpcedge_relay::frame::{
    accept_parsed, accept_parsed_v2, decode_quic_frame, decode_quic_frame_v2, encode_quic_frame,
    encode_quic_frame_v2, frame_serialized, frame_serialized_v2, split_frame, QuicPayloadKind,
    QuicSubmitHeader, QuicSubmitHeaderV2, ALPN_V2, DEFAULT_ALPN, DEFAULT_MAX_FRAME_HEADER_BYTES,
};
use rpcedge_relay::quic::{
    encode_routed_quic_frame, encode_versioned_quic_frame, routed_quic_header_v2,
};
use rpcedge_relay::request::{RelayMethod, ResponseMode, VERSION, VERSION_V2};
use rpcedge_relay::routes::{RelayRoute, RouteSet, RouteSetMode};
use rpcedge_relay::transaction::TransactionVersion;
use serde_json::Value;

type Object = serde_json::Map<String, Value>;

fn method_name(method: RelayMethod) -> &'static str {
    match method {
        RelayMethod::SendTransaction => "sendTransaction",
        RelayMethod::SendTransactionFast => "sendTransactionFast",
        RelayMethod::SendBundle => "sendBundle",
    }
}

fn kind_name(kind: QuicPayloadKind) -> &'static str {
    match kind {
        QuicPayloadKind::SingleRawTransaction => "single_raw_transaction",
        QuicPayloadKind::BundleJson => "bundle_json",
    }
}

fn mode_name(mode: RouteSetMode) -> &'static str {
    match mode {
        RouteSetMode::ServerDefault => "server_default",
        RouteSetMode::Only => "only",
        RouteSetMode::DefaultPlus => "default_plus",
        RouteSetMode::DefaultMinus => "default_minus",
    }
}

fn route_name(route: RelayRoute) -> &'static str {
    match route {
        RelayRoute::TpuQuic => "tpu_quic",
        RelayRoute::TpuUdp => "tpu_udp",
        RelayRoute::HarmonicBundle => "harmonic_bundle",
        RelayRoute::HeliusSenderSwqos => "helius_sender_swqos",
        RelayRoute::RpcFallback => "rpc_fallback",
        RelayRoute::JitoTransaction => "jito_transaction",
        RelayRoute::JitoBundle => "jito_bundle",
    }
}

fn response_name(mode: ResponseMode) -> &'static str {
    match mode {
        ResponseMode::Fast => "fast",
        ResponseMode::RouteResults => "route_results",
    }
}

fn version_name(version: TransactionVersion) -> &'static str {
    match version {
        TransactionVersion::Legacy => "legacy",
        TransactionVersion::V0 => "v0",
        TransactionVersion::V1 => "v1",
    }
}

fn text(value: &str) -> Value {
    Value::String(value.to_string())
}

fn find<T: Copy>(all: &[T], name: impl Fn(T) -> &'static str, wanted: &str) -> Result<T, String> {
    all.iter()
        .copied()
        .find(|item| name(*item) == wanted)
        .ok_or_else(|| format!("unknown variant {wanted}"))
}

fn field<'a>(map: &'a Object, name: &str) -> Result<&'a Value, String> {
    map.get(name).ok_or_else(|| format!("missing field {name}"))
}

fn text_field<'a>(map: &'a Object, name: &str) -> Result<&'a str, String> {
    field(map, name)?
        .as_str()
        .ok_or_else(|| format!("{name} is no string"))
}

fn optional_text(map: &Object, name: &str) -> Option<String> {
    map.get(name).and_then(Value::as_str).map(str::to_string)
}

fn number_field(map: &Object, name: &str) -> Result<u64, String> {
    field(map, name)?
        .as_u64()
        .ok_or_else(|| format!("{name} is no number"))
}

fn route_set_value(route_set: &RouteSet) -> Value {
    let mut map = Object::new();
    map.insert("mode".to_string(), text(mode_name(route_set.mode)));
    map.insert(
        "routes".to_string(),
        Value::Array(
            route_set
                .routes
                .iter()
                .map(|route| text(route_name(*route)))
                .collect(),
        ),
    );
    Value::Object(map)
}

fn read_route_set(value: &Value) -> Result<RouteSet, String> {
    let map = value.as_object().ok_or("route_set is no object")?;
    let mode = find(
        &[
            RouteSetMode::ServerDefault,
            RouteSetMode::Only,
            RouteSetMode::DefaultPlus,
            RouteSetMode::DefaultMinus,
        ],
        mode_name,
        text_field(map, "mode")?,
    )?;
    let mut routes = Vec::new();
    for route in field(map, "routes")?.as_array().ok_or("routes is no array")? {
        routes.push(find(
            &[
                RelayRoute::TpuQuic,
                RelayRoute::TpuUdp,
                RelayRoute::HarmonicBundle,
                RelayRoute::HeliusSenderSwqos,
                RelayRoute::RpcFallback,
                RelayRoute::JitoTransaction,
                RelayRoute::JitoBundle,
            ],
            route_name,
            route.as_str().ok_or("route is no string")?,
        )?);
    }
    Ok(RouteSet { mode, routes })
}

fn common_fields(
    version: u8,
    method: RelayMethod,
    kind: QuicPayloadKind,
    request_id: &Option<String>,
    route_set: &RouteSet,
    response_mode: Option<ResponseMode>,
    signature: &Option<String>,
) -> Object {
    let mut map = Object::new();
    map.insert("version".to_string(), Value::from(version));
    map.insert("method".to_string(), text(method_name(method)));
    map.insert("payload_kind".to_string(), text(kind_name(kind)));
    if let Some(id) = request_id {
        map.insert("request_id".to_string(), text(id));
    }
    map.insert("route_set".to_string(), route_set_value(route_set));
    if let Some(mode) = response_mode {
        map.insert("responseMode".to_string(), text(response_name(mode)));
    }
    if let Some(signature) = signature {
        map.insert("signature".to_string(), text(signature));
    }
    map
}

fn to_json(header: &QuicSubmitHeader) -> Result<Vec<u8>, String> {
    let map = common_fields(
        header.version,
        header.method,
        header.payload_kind,
        &header.request_id,
        &header.route_set,
        header.response_mode,
        &header.signature,
    );
    serde_json::to_vec(&Value::Object(map)).map_err(|error| error.to_string())
}

fn v2_value(header: &QuicSubmitHeaderV2) -> Value {
    let mut map = common_fields(
        header.version,
        header.method,
        header.payload_kind,
        &header.request_id,
        &header.route_set,
        header.response_mode,
        &header.signature,
    );
    map.insert(
        "transaction_version".to_string(),
        text(version_name(header.transaction_version)),
    );
    map.insert(
        "raw_transaction_length".to_string(),
        Value::from(header.raw_transaction_length),
    );
    Value::Object(map)
}

fn to_json_v2(header: &QuicSubmitHeaderV2) -> Result<Vec<u8>, String> {
    serde_json::to_vec(&v2_value(header)).map_err(|error| error.to_string())
}

fn read_object(json: &[u8]) -> Result<Object, String> {
    let value: Value = serde_json::from_slice(json).map_err(|error| error.to_string())?;
    match value {
        Value::Object(map) => Ok(map),
        _ => Err("no object".to_string()),
    }
}

fn read_method(map: &Object) -> Result<RelayMethod, String> {
    find(
        &[
            RelayMethod::SendTransaction,
            RelayMethod::SendTransactionFast,
            RelayMethod::SendBundle,
        ],
        method_name,
        text_field(map, "method")?,
    )
}

fn read_kind(map: &Object) -> Result<QuicPayloadKind, String> {
    find(
        &[
            QuicPayloadKind::SingleRawTransaction,
            QuicPayloadKind::BundleJson,
        ],
        kind_name,
        text_field(map, "payload_kind")?,
    )
}

fn read_response_mode(map: &Object) -> Result<Option<ResponseMode>, String> {
    match optional_text(map, "responseMode") {
        Some(name) => find(
            &[ResponseMode::Fast, ResponseMode::RouteResults],
            response_name,
            &name,
        )
        .map(Some),
        None => Ok(None),
    }
}

fn from_json(json: &[u8]) -> Result<QuicSubmitHeader, String> {
    let map = read_object(json)?;
    Ok(QuicSubmitHeader {
        version: number_field(&map, "version")? as u8,
        method: read_method(&map)?,
        payload_kind: read_kind(&map)?,
        request_id: optional_text(&map, "request_id"),
        route_set: read_route_set(field(&map, "route_set")?)?,
        response_mode: read_response_mode(&map)?,
        signature: optional_text(&map, "signature"),
    })
}

fn from_json_v2(json: &[u8]) -> Result<QuicSubmitHeaderV2, String> {
    let map = read_object(json)?;
    Ok(QuicSubmitHeaderV2 {
        version: number_field(&map, "version")? as u8,
        method: read_method(&map)?,
        payload_kind: read_kind(&map)?,
        transaction_version: find(
            &[
                TransactionVersion::Legacy,
                TransactionVersion::V0,
                TransactionVersion::V1,
            ],
            version_name,
            text_field(&map, "transaction_version")?,
        )?,
        raw_transaction_length: number_field(&map, "raw_transaction_length")? as u32,
        request_id: optional_text(&map, "request_id"),
        route_set: read_route_set(field(&map, "route_set")?)?,
        response_mode: read_response_mode(&map)?,
        signature: optional_text(&map, "signature"),
    })
}

fn v1_header() -> QuicSubmitHeader {
    QuicSubmitHeader {
        version: VERSION,
        method: RelayMethod::SendTransaction,
        payload_kind: QuicPayloadKind::SingleRawTransaction,
        request_id: None,
        route_set: RouteSet::server_default(),
        response_mode: None,
        signature: None,
    }
}

fn v2_header(
    transaction_version: TransactionVersion,
    raw_transaction_length: u32,
) -> QuicSubmitHeaderV2 {
    QuicSubmitHeaderV2 {
        version: VERSION_V2,
        method: RelayMethod::SendTransaction,
        payload_kind: QuicPayloadKind::SingleRawTransaction,
        transaction_version,
        raw_transaction_length,
        request_id: Some("req-v2".to_string()),
        route_set: RouteSet::server_default(),
        response_mode: Some(ResponseMode::Fast),
        signature: None,
    }
}

#[test]
fn quic_frame_round_trips() {
    let header = QuicSubmitHeader {
        version: VERSION,
        method: RelayMethod::SendTransaction,
        payload_kind: QuicPayloadKind::SingleRawTransaction,
        request_id: Some("req-1".to_string()),
        route_set: RouteSet::server_default(),
        response_mode: None,
        signature: Some("sig".to_string()),
    };
    let encoded = encode_quic_frame(&header, b"tx", to_json).unwrap();
    let (decoded_header, decoded_payload) = decode_quic_frame(&encoded, from_json).unwrap();

    assert_eq!(decoded_header, header);
    assert_eq!(decoded_payload, b"tx");
}

#[test]
fn quic_frame_preserves_route_set_and_request_id() {
    let header = QuicSubmitHeader {
        version: VERSION,
        method: RelayMethod::SendTransaction,
        payload_kind: QuicPayloadKind::SingleRawTransaction,
        request_id: Some("bench-req-1".to_string()),
        route_set: RouteSet::only(vec![RelayRoute::TpuQuic]),
        response_mode: Some(ResponseMode::RouteResults),
        signature: None,
    };
    let payload = b"unique-transaction-bytes";
    let encoded = encode_quic_frame(&header, payload, to_json).unwrap();
    let (decoded_header, decoded_payload) = decode_quic_frame(&encoded, from_json).unwrap();

    assert_eq!(
        decoded_header.route_set,
        RouteSet::only(vec![RelayRoute::TpuQuic])
    );
    assert_eq!(decoded_header.request_id.as_deref(), Some("bench-req-1"));
    assert_eq!(
        decoded_header.response_mode,
        Some(ResponseMode::RouteResults)
    );
    assert_eq!(decoded_payload, payload);
}

#[test]
fn v1_codec_retains_1232_byte_ceiling() {
    let header = v1_header();

    let frame = encode_quic_frame(&header, &vec![0; 1_232], to_json).unwrap();
    assert_eq!(
        decode_quic_frame(&frame, from_json).unwrap().1.len(),
        1_232
    );
    assert!(matches!(
        encode_quic_frame(&header, &vec![0; 1_233], to_json),
        Err(ProtocolError::TransactionTooLarge { max: 1_232, .. })
    ));
}

#[test]
fn v2_accepts_v1_through_4096_and_rejects_4097() {
    let header = v2_header(TransactionVersion::V1, 4_096);
    let frame = encode_quic_frame_v2(&header, &vec![0; 4_096], to_json_v2).unwrap();
    let (decoded, payload) = decode_quic_frame_v2(&frame, from_json_v2).unwrap();
    assert_eq!(decoded, header);
    assert_eq!(payload.len(), 4_096);

    let oversized = v2_header(TransactionVersion::V1, 4_097);
    assert!(matches!(
        encode_quic_frame_v2(&oversized, &vec![0; 4_097], to_json_v2),
        Err(ProtocolError::TransactionTooLarge { max: 4_096, .. })
    ));
}

#[test]
fn v2_retains_1232_ceiling_for_legacy_and_v0() {
    for version in [TransactionVersion::Legacy, TransactionVersion::V0] {
        let header = v2_header(version, 1_233);
        assert!(matches!(
            encode_quic_frame_v2(&header, &vec![0; 1_233], to_json_v2),
            Err(ProtocolError::TransactionTooLarge { max: 1_232, .. })
        ));
    }
}

#[test]
fn v2_rejects_declared_length_mismatch() {
    let header = v2_header(TransactionVersion::V1, 4);
    assert!(matches!(
        encode_quic_frame_v2(&header, &[1, 2, 3], to_json_v2),
        Err(ProtocolError::TransactionLengthMismatch {
            declared: 4,
            actual: 3
        })
    ));
}

#[test]
fn v2_rejects_future_version_and_truncated_frames() {
    let mut future = v2_value(&v2_header(TransactionVersion::V1, 1));
    future["version"] = Value::from(VERSION_V2 + 1);
    let header = serde_json::to_vec(&future).unwrap();
    let mut frame = Vec::new();
    frame.extend_from_slice(&(header.len() as u32).to_be_bytes());
    frame.extend_from_slice(&header);
    frame.push(0);

    assert!(matches!(
        decode_quic_frame_v2(&frame, from_json_v2),
        Err(ProtocolError::UnsupportedVersion(version)) if version == VERSION_V2 + 1
    ));
    assert!(matches!(
        decode_quic_frame_v2(&[0, 0, 0], from_json_v2),
        Err(ProtocolError::FrameTooShort)
    ));
    assert!(matches!(
        decode_quic_frame_v2(&[0, 0, 0, 8, b'{'], from_json_v2),
        Err(ProtocolError::FrameTooShort)
    ));
}

#[test]
fn quic_frame_encoder_carries_route_set_after_api_key_prelude() {
    let frame = encode_routed_quic_frame(
        "plab_test_key",
        b"tx-bytes",
        RouteSet::only(vec![RelayRoute::TpuQuic]),
        Some("req-1".to_string()),
        to_json,
    )
    .unwrap();
    let newline = frame
        .iter()
        .position(|byte| *byte == b'\n')
        .expect("api key prelude");

    assert_eq!(&frame[..newline], b"api-key: plab_test_key");
    let (header, payload) = decode_quic_frame(&frame[newline + 1..], from_json).unwrap();
    assert_eq!(header.route_set, RouteSet::only(vec![RelayRoute::TpuQuic]));
    assert_eq!(header.request_id.as_deref(), Some("req-1"));
    assert_eq!(payload, b"tx-bytes");
}

#[test]
fn a_frame_is_a_big_endian_length_then_json_then_payload() {
    let frame = frame_serialized(&v1_header(), Ok(b"{}".to_vec()), &[7, 8, 9]).unwrap();
    assert_eq!(frame, [0, 0, 0, 2, b'{', b'}', 7, 8, 9]);
    let (json, payload) = split_frame(&frame).unwrap();
    assert_eq!(json, b"{}");
    assert_eq!(payload, [7, 8, 9]);

    let long = frame_serialized(&v1_header(), Ok(vec![b' '; 0x0102]), &[]).unwrap();
    assert_eq!(&long[..4], &[0, 0, 1, 2]);
}

#[test]
fn every_cut_of_a_frame_is_refused() {
    let frame = encode_quic_frame_v2(
        &v2_header(TransactionVersion::V0, 3),
        &[1, 2, 3],
        to_json_v2,
    )
    .unwrap();
    let header_end = frame.len() - 3;
    for kept in 0..header_end {
        assert!(matches!(
            decode_quic_frame_v2(&frame[..kept], from_json_v2),
            Err(ProtocolError::FrameTooShort)
        ));
    }
    for kept in 0..3 {
        assert!(matches!(
            decode_quic_frame_v2(&frame[..header_end + kept], from_json_v2),
            Err(ProtocolError::TransactionLengthMismatch { declared: 3, actual }) if actual == kept
        ));
    }
    assert_eq!(
        decode_quic_frame_v2(&frame, from_json_v2).unwrap().1,
        [1, 2, 3]
    );
}

#[test]
fn header_size_is_limited_both_ways() {
    let limit = DEFAULT_MAX_FRAME_HEADER_BYTES;
    assert!(frame_serialized(&v1_header(), Ok(vec![b' '; limit]), &[]).is_ok());
    assert!(matches!(
        frame_serialized(&v1_header(), Ok(vec![b' '; limit + 1]), &[]),
        Err(ProtocolError::HeaderTooLarge {
            actual: 4097,
            max: 4096
        })
    ));
    assert!(matches!(
        frame_serialized_v2(
            &v2_header(TransactionVersion::V1, 0),
            Ok(vec![b' '; limit + 1]),
            &[]
        ),
        Err(ProtocolError::HeaderTooLarge {
            actual: 4097,
            max: 4096
        })
    ));
    assert!(matches!(
        split_frame(&[0, 0, 0x10, 1]),
        Err(ProtocolError::HeaderTooLarge {
            actual: 4097,
            max: 4096
        })
    ));
    assert!(matches!(
        split_frame(&[0xff, 0xff, 0xff, 0xff, 0]),
        Err(ProtocolError::HeaderTooLarge {
            actual: 0xffff_ffff,
            ..
        })
    ));
}

#[test]
fn v1_limits_raw_transactions_but_not_bundles() {
    let mut header = v1_header();
    header.payload_kind = QuicPayloadKind::BundleJson;
    let frame = encode_quic_frame(&header, &vec![1; 2_000], to_json).unwrap();
    let (decoded, payload) = decode_quic_frame(&frame, from_json).unwrap();
    assert_eq!(decoded, header);
    assert_eq!(payload, vec![1; 2_000]);
    assert!(matches!(
        accept_parsed(Ok(v1_header()), &vec![1; 1_233]),
        Err(ProtocolError::TransactionTooLarge {
            actual: 1_233,
            max: 1_232
        })
    ));
}

#[test]
fn v1_refuses_other_versions_and_bad_json() {
    let mut header = v1_header();
    header.version = VERSION_V2;
    assert!(matches!(
        encode_quic_frame(&header, &[], to_json),
        Err(ProtocolError::UnsupportedVersion(2))
    ));
    assert!(matches!(
        accept_parsed(Ok(header), &[]),
        Err(ProtocolError::UnsupportedVersion(2))
    ));
    assert!(matches!(
        decode_quic_frame(&[0, 0, 0, 1, b'{'], from_json),
        Err(ProtocolError::Json(_))
    ));
    assert!(matches!(
        frame_serialized(&v1_header(), Err("no form".to_string()), &[]),
        Err(ProtocolError::Json(reason)) if reason == "no form"
    ));
}

#[test]
fn v2_refuses_bundles_and_bad_json() {
    let mut header = v2_header(TransactionVersion::V1, 0);
    header.payload_kind = QuicPayloadKind::BundleJson;
    assert!(matches!(
        encode_quic_frame_v2(&header, &[], to_json_v2),
        Err(ProtocolError::InvalidPayload(
            "protocol v2 supports single raw transactions only"
        ))
    ));
    assert!(matches!(
        accept_parsed_v2(Err("no header".to_string()), &[]),
        Err(ProtocolError::Json(reason)) if reason == "no header"
    ));
    let mut old = v2_header(TransactionVersion::V1, 0);
    old.version = VERSION;
    assert!(matches!(
        encode_quic_frame_v2(&old, &[], to_json_v2),
        Err(ProtocolError::UnsupportedVersion(1))
    ));
}

#[test]
fn the_two_protocols_have_their_own_names() {
    assert_eq!(DEFAULT_ALPN, "rpcedge-submit-v1");
    assert_eq!(ALPN_V2, "rpcedge-submit-v2");
}

#[test]
fn a_header_clone_is_the_same_header() {
    let header = v1_header();
    assert_eq!(header.clone(), header);
    let header = v2_header(TransactionVersion::V0, 9);
    assert_eq!(header.clone(), header);
}

#[test]
fn a_versioned_frame_takes_the_oldest_protocol_that_carries_it() {
    let body = |frame: Vec<u8>| {
        let newline = frame.iter().position(|byte| *byte == b'\n').unwrap();
        assert_eq!(&frame[..newline], b"api-key: k");
        frame[newline + 1..].to_vec()
    };
    let old = encode_versioned_quic_frame(
        "k",
        b"tx",
        TransactionVersion::V0,
        RouteSet::server_default(),
        Some("req".to_string()),
        Some(ResponseMode::Fast),
        to_json,
        to_json_v2,
    )
    .unwrap();
    let (header, payload) = decode_quic_frame(&body(old), from_json).unwrap();
    assert_eq!(header.version, VERSION);
    assert_eq!(header.response_mode, Some(ResponseMode::Fast));
    assert_eq!(payload, b"tx");

    let new = encode_versioned_quic_frame(
        "k",
        b"tx",
        TransactionVersion::V1,
        RouteSet::server_default(),
        Some("req".to_string()),
        Some(ResponseMode::Fast),
        to_json,
        to_json_v2,
    )
    .unwrap();
    let (header, payload) = decode_quic_frame_v2(&body(new), from_json_v2).unwrap();
    assert_eq!(
        header,
        routed_quic_header_v2(
            TransactionVersion::V1,
            b"tx",
            RouteSet::server_default(),
            Some("req".to_string()),
            Some(ResponseMode::Fast)
        )
    );
    assert_eq!(header.raw_transaction_length, 2);
    assert_eq!(payload, b"tx");
}

#[test]
fn a_quic_submission_carries_the_complete_request() {
    let mut request = AdaptiveRelayRequest {
        transaction: b"tx",
        transaction_version: TransactionVersion::Legacy,
        route_set: RouteSet::only(vec![RelayRoute::TpuQuic]),
        request_id: "request-1".to_string(),
        response_mode: ResponseMode::RouteResults,
    };
    let written = quic_submission("k", &request, to_json, to_json_v2).unwrap();
    assert_eq!(&written[..11], b"api-key: k\n");
    let (header, payload) = decode_quic_frame(&written[11..], from_json).unwrap();
    assert_eq!(header.route_set, request.route_set);
    assert_eq!(header.request_id.as_deref(), Some("request-1"));
    assert_eq!(header.response_mode, Some(ResponseMode::RouteResults));
    assert_eq!(payload, b"tx");

    request.transaction_version = TransactionVersion::V1;
    let written = quic_submission("k", &request, to_json, to_json_v2).unwrap();
    let (header, payload) = decode_quic_frame_v2(&written[11..], from_json_v2).unwrap();
    assert_eq!(header.transaction_version, TransactionVersion::V1);
    assert_eq!(header.raw_transaction_length, 2);
    assert_eq!(header.route_set, request.route_set);
    assert_eq!(header.request_id.as_deref(), Some("request-1"));
    assert_eq!(header.response_mode, Some(ResponseMode::RouteResults));
    assert_eq!(payload, b"tx");

    let large = vec![0; 1_233];
    request.transaction = &large;
    request.transaction_version = TransactionVersion::V0;
    assert!(matches!(
        quic_submission("k", &request, to_json, to_json_v2),
        Err(ProtocolError::TransactionTooLarge {
            actual: 1_233,
            max: 1_232
        })
    ));
}
