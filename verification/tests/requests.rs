use rpcedge_relay::error::ProtocolError;
use rpcedge_relay::request::{
    validate_version, validate_version_v2, RelayMethod, ResponseMode, SubmitRequest,
    TransactionEncoding, VERSION,
};
use rpcedge_relay::routes::{RelayRoute, RouteSet};
use rpcedge_relay::transaction::{
    decode_transaction_base64, encode_transaction_base64, Base64Error, TransactionVersion,
};

#[test]
fn validates_single_tx_and_bundle_shapes() {
    SubmitRequest::send_transaction_base64("AA==", RouteSet::server_default())
        .validate_shape()
        .unwrap();
    SubmitRequest::send_bundle_base64(
        vec!["AA==".to_string(), "AQ==".to_string()],
        RouteSet::only(vec![RelayRoute::JitoBundle]),
    )
    .validate_shape()
    .unwrap();

    let invalid = SubmitRequest::send_bundle_base64(Vec::new(), RouteSet::server_default());
    assert!(matches!(
        invalid.validate_shape(),
        Err(ProtocolError::InvalidPayload(_))
    ));
}

#[test]
fn bundles_hold_one_to_five_transactions() {
    for count in 0..8usize {
        let request = SubmitRequest::send_bundle_base64(
            vec!["AA==".to_string(); count],
            RouteSet::server_default(),
        );
        match request.validate_shape() {
            Ok(()) => assert!((1..=5).contains(&count)),
            Err(ProtocolError::InvalidPayload(reason)) => {
                assert!(count == 0 || count > 5);
                assert_eq!(reason, "sendBundle requires 1..=5 transactions");
            }
            Err(other) => panic!("{}", other.message()),
        }
    }
}

#[test]
fn a_method_takes_its_own_payload_alone() {
    let mut request = SubmitRequest::send_transaction_base64("AA==", RouteSet::server_default());
    request.method = RelayMethod::SendTransactionFast;
    assert!(request.validate_shape().is_ok());
    request.transactions = Some(vec!["AA==".to_string()]);
    assert!(matches!(
        request.validate_shape(),
        Err(ProtocolError::InvalidPayload(
            "single transaction methods require transaction only"
        ))
    ));
    request.method = RelayMethod::SendBundle;
    assert!(request.validate_shape().is_err());
    request.transaction = None;
    assert!(request.validate_shape().is_ok());
    request.version = 9;
    assert!(matches!(
        request.validate_shape(),
        Err(ProtocolError::UnsupportedVersion(9))
    ));
}

#[test]
fn constructors_set_what_they_say() {
    let request = SubmitRequest::send_transaction_base64("AA==", RouteSet::server_default());
    assert_eq!(
        request,
        SubmitRequest {
            version: VERSION,
            method: RelayMethod::SendTransaction,
            request_id: None,
            route_set: RouteSet::server_default(),
            response_mode: None,
            transaction_encoding: Some(TransactionEncoding::Base64),
            transaction: Some("AA==".to_string()),
            transactions: None,
        }
    );
    let mut full = SubmitRequest::send_bundle_base64(
        vec!["AA==".to_string()],
        RouteSet::only(vec![RelayRoute::TpuUdp]),
    );
    full.request_id = Some("id".to_string());
    full.response_mode = Some(ResponseMode::RouteResults);
    assert_eq!(full.clone(), full);
}

#[test]
fn each_protocol_speaks_its_own_version() {
    assert!(validate_version(1).is_ok());
    assert!(matches!(
        validate_version(2),
        Err(ProtocolError::UnsupportedVersion(2))
    ));
    assert!(validate_version_v2(2).is_ok());
    assert!(matches!(
        validate_version_v2(1),
        Err(ProtocolError::UnsupportedVersion(1))
    ));
}

#[test]
fn formats_have_their_ceilings() {
    assert_eq!(TransactionVersion::Legacy.max_transaction_bytes(), 1232);
    assert_eq!(TransactionVersion::V0.max_transaction_bytes(), 1232);
    assert_eq!(TransactionVersion::V1.max_transaction_bytes(), 4096);
    assert!(TransactionVersion::Legacy.supports_protocol_v1());
    assert!(TransactionVersion::V0.supports_protocol_v1());
    assert!(!TransactionVersion::V1.supports_protocol_v1());
}

#[test]
fn base64_is_standard_and_padded() {
    assert_eq!(encode_transaction_base64(b""), "");
    assert_eq!(encode_transaction_base64(&[0]), "AA==");
    assert_eq!(encode_transaction_base64(&[1]), "AQ==");
    assert_eq!(encode_transaction_base64(&[0xfb, 0xff, 0xfe]), "+//+");
    assert_eq!(encode_transaction_base64(b"hello"), "aGVsbG8=");
}

#[test]
fn base64_reads_back_what_was_written() {
    for len in 0..70u8 {
        let bytes: Vec<u8> = (0..len).map(|i| i.wrapping_mul(37)).collect();
        let text = encode_transaction_base64(&bytes);
        assert_eq!(text.len(), 4 * ((len as usize + 2) / 3));
        let read = decode_transaction_base64(&text).unwrap();
        assert_eq!(read, bytes);
        assert_eq!(encode_transaction_base64(&read), text);
    }
}

#[test]
fn base64_refusals_say_why() {
    assert!(matches!(
        decode_transaction_base64("A*=="),
        Err(ProtocolError::Base64(Base64Error::InvalidByte(1, b'*')))
    ));
    assert!(matches!(
        decode_transaction_base64("AAAAA"),
        Err(ProtocolError::Base64(Base64Error::InvalidLength(5)))
    ));
    assert!(matches!(
        decode_transaction_base64("AB=="),
        Err(ProtocolError::Base64(Base64Error::InvalidLastSymbol(1, b'B')))
    ));
    assert!(matches!(
        decode_transaction_base64("AA"),
        Err(ProtocolError::Base64(Base64Error::InvalidPadding))
    ));
}

#[test]
fn base64_messages_are_those_of_the_codec() {
    assert_eq!(
        Base64Error::InvalidByte(1, 42).message(),
        base64::DecodeError::InvalidByte(1, 42).to_string()
    );
    assert_eq!(
        Base64Error::InvalidLength(5).message(),
        base64::DecodeError::InvalidLength(5).to_string()
    );
    assert_eq!(
        Base64Error::InvalidLastSymbol(1, 66).message(),
        base64::DecodeError::InvalidLastSymbol(1, 66).to_string()
    );
    assert_eq!(
        Base64Error::InvalidPadding.message(),
        base64::DecodeError::InvalidPadding.to_string()
    );
}

#[test]
fn protocol_errors_read_well() {
    assert_eq!(
        ProtocolError::UnsupportedVersion(7).message(),
        "unsupported protocol version: 7"
    );
    assert_eq!(
        ProtocolError::InvalidPayload("why").message(),
        "invalid payload: why"
    );
    assert_eq!(ProtocolError::FrameTooShort.message(), "frame is too short");
    assert_eq!(
        ProtocolError::HeaderTooLarge {
            actual: 5000,
            max: 4096
        }
        .message(),
        "frame header is too large: 5000 > 4096"
    );
    assert_eq!(
        ProtocolError::TransactionTooLarge {
            actual: 1233,
            max: 1232
        }
        .message(),
        "transaction is too large: 1233 > 1232"
    );
    assert_eq!(
        ProtocolError::TransactionLengthMismatch {
            declared: 4,
            actual: 3
        }
        .message(),
        "transaction length does not match header: declared 4, actual 3"
    );
    assert_eq!(
        ProtocolError::TransactionVersionMismatch {
            declared: TransactionVersion::Legacy,
            classified: TransactionVersion::V1
        }
        .message(),
        "transaction version does not match its bytes: declared Legacy, classified V1"
    );
    assert_eq!(
        ProtocolError::UnsupportedTransactionVersion {
            protocol_version: 1,
            transaction_version: TransactionVersion::V1
        }
        .message(),
        "protocol version 1 does not carry transaction version V1"
    );
    assert_eq!(
        ProtocolError::Json("eof".to_string()).message(),
        "invalid json: eof"
    );
    assert_eq!(
        ProtocolError::Base64(Base64Error::InvalidPadding).message(),
        "invalid base64 transaction: Invalid padding"
    );
}
