//! QUIC submission frames: a big-endian header length, a JSON header, then the payload.
use crate::error::ProtocolError;
use crate::request::{
    copy_text, validate_version, validate_version_v2, version_check, RelayMethod, ResponseMode, VERSION,
    VERSION_V2,
};
use crate::routes::RouteSet;
use crate::transaction::{TransactionVersion, DEFAULT_MAX_TRANSACTION_BYTES};
use vstd::prelude::*;
use vstd::slice::{slice_subrange, slice_to_vec};

verus! {

/// The ALPN name of protocol version one.
pub const DEFAULT_ALPN: &'static str = "rpcedge-submit-v1";

/// The ALPN name of protocol version two.
pub const ALPN_V2: &'static str = "rpcedge-submit-v2";

/// The largest JSON header of a frame, in bytes.
pub const DEFAULT_MAX_FRAME_HEADER_BYTES: usize = 4096;

/// What the payload of a frame is.
#[derive(Debug, Clone, Copy, PartialEq, Eq, Structural)]
pub enum QuicPayloadKind {
    SingleRawTransaction,
    BundleJson,
}

/// The header of a version-one frame.
#[derive(Debug, PartialEq, Eq)]
pub struct QuicSubmitHeader {
    pub version: u8,
    pub method: RelayMethod,
    pub payload_kind: QuicPayloadKind,
    pub request_id: Option<String>,
    pub route_set: RouteSet,
    pub response_mode: Option<ResponseMode>,
    pub signature: Option<String>,
}

/// The header of a version-two frame.
///
/// It is a type of its own, so that the version-one wire form stays as it is.
#[derive(Debug, PartialEq, Eq)]
pub struct QuicSubmitHeaderV2 {
    pub version: u8,
    pub method: RelayMethod,
    pub payload_kind: QuicPayloadKind,
    pub transaction_version: TransactionVersion,
    pub raw_transaction_length: u32,
    pub request_id: Option<String>,
    pub route_set: RouteSet,
    pub response_mode: Option<ResponseMode>,
    pub signature: Option<String>,
}

impl Clone for QuicSubmitHeader {
    fn clone(&self) -> (res: Self)
        ensures
            res.version == self.version,
            res.method == self.method,
            res.payload_kind == self.payload_kind,
            res.request_id == self.request_id,
            res.route_set.mode == self.route_set.mode,
            res.route_set.routes@ == self.route_set.routes@,
            res.response_mode == self.response_mode,
            res.signature == self.signature,
    {
        QuicSubmitHeader {
            version: self.version,
            method: self.method,
            payload_kind: self.payload_kind,
            request_id: copy_text(&self.request_id),
            route_set: self.route_set.clone(),
            response_mode: self.response_mode,
            signature: copy_text(&self.signature),
        }
    }
}

impl Clone for QuicSubmitHeaderV2 {
    fn clone(&self) -> (res: Self)
        ensures
            res.version == self.version,
            res.method == self.method,
            res.payload_kind == self.payload_kind,
            res.transaction_version == self.transaction_version,
            res.raw_transaction_length == self.raw_transaction_length,
            res.request_id == self.request_id,
            res.route_set.mode == self.route_set.mode,
            res.route_set.routes@ == self.route_set.routes@,
            res.response_mode == self.response_mode,
            res.signature == self.signature,
    {
        QuicSubmitHeaderV2 {
            version: self.version,
            method: self.method,
            payload_kind: self.payload_kind,
            transaction_version: self.transaction_version,
            raw_transaction_length: self.raw_transaction_length,
            request_id: copy_text(&self.request_id),
            route_set: self.route_set.clone(),
            response_mode: self.response_mode,
            signature: copy_text(&self.signature),
        }
    }
}

/// The four bytes of `n`, most significant first.
pub open spec fn be32(n: nat) -> Seq<u8> {
    seq![
        (n / 0x100_0000 % 0x100) as u8,
        (n / 0x1_0000 % 0x100) as u8,
        (n / 0x100 % 0x100) as u8,
        (n % 0x100) as u8,
    ]
}

/// The number whose bytes, most significant first, start `s`.
pub open spec fn be32_value(s: Seq<u8>) -> nat {
    (s[0] as nat) * 0x100_0000 + (s[1] as nat) * 0x1_0000 + (s[2] as nat) * 0x100 + (s[3] as nat)
}

/// The frame of a JSON header and a payload.
pub open spec fn framed(json: Seq<u8>, payload: Seq<u8>) -> Seq<u8> {
    be32(json.len()) + json + payload
}

/// The JSON header and the payload of a frame, or why it has none.
pub open spec fn split(frame: Seq<u8>) -> Result<(Seq<u8>, Seq<u8>), ProtocolError> {
    if frame.len() < 4 {
        Err(ProtocolError::FrameTooShort)
    } else if be32_value(frame) > DEFAULT_MAX_FRAME_HEADER_BYTES {
        Err(
            ProtocolError::HeaderTooLarge {
                actual: be32_value(frame) as usize,
                max: DEFAULT_MAX_FRAME_HEADER_BYTES,
            },
        )
    } else if frame.len() < 4 + be32_value(frame) {
        Err(ProtocolError::FrameTooShort)
    } else {
        let end = 4 + be32_value(frame) as int;
        Ok((frame.subrange(4, end), frame.skip(end)))
    }
}

/// What a check of a header's size gives.
pub open spec fn header_size_check(len: nat) -> Result<(), ProtocolError> {
    if len > DEFAULT_MAX_FRAME_HEADER_BYTES {
        Err(
            ProtocolError::HeaderTooLarge {
                actual: len as usize,
                max: DEFAULT_MAX_FRAME_HEADER_BYTES,
            },
        )
    } else {
        Ok(())
    }
}

/// What a check of a version-one payload's size gives: only a raw transaction is limited.
pub open spec fn payload_check(kind: QuicPayloadKind, len: nat) -> Result<(), ProtocolError> {
    if kind == QuicPayloadKind::SingleRawTransaction && len > DEFAULT_MAX_TRANSACTION_BYTES {
        Err(
            ProtocolError::TransactionTooLarge {
                actual: len as usize,
                max: DEFAULT_MAX_TRANSACTION_BYTES,
            },
        )
    } else {
        Ok(())
    }
}

/// What a check of a version-two payload of `len` bytes against its header gives.
pub open spec fn v2_payload_check(header: QuicSubmitHeaderV2, len: nat) -> Result<
    (),
    ProtocolError,
> {
    if header.payload_kind != QuicPayloadKind::SingleRawTransaction {
        Err(ProtocolError::InvalidPayload("protocol v2 supports single raw transactions only"))
    } else if header.raw_transaction_length != len {
        Err(
            ProtocolError::TransactionLengthMismatch {
                declared: header.raw_transaction_length as usize,
                actual: len as usize,
            },
        )
    } else if len > header.transaction_version.max_bytes() {
        Err(
            ProtocolError::TransactionTooLarge {
                actual: len as usize,
                max: header.transaction_version.max_bytes() as usize,
            },
        )
    } else {
        Ok(())
    }
}

/// `value`, provided that `check` passed.
pub open spec fn checked<T>(check: Result<(), ProtocolError>, value: Result<T, ProtocolError>) -> Result<
    T,
    ProtocolError,
> {
    match check {
        Ok(_) => value,
        Err(error) => Err(error),
    }
}

/// What framing gives for a version-one header whose JSON form is `json`.
pub open spec fn encode_outcome(
    header: QuicSubmitHeader,
    json: Result<Vec<u8>, String>,
    payload: Seq<u8>,
) -> Result<Seq<u8>, ProtocolError> {
    checked(
        version_check(header.version, VERSION),
        match json {
            Err(reason) => Err(ProtocolError::Json(reason)),
            Ok(bytes) => checked(
                header_size_check(bytes@.len()),
                checked(
                    payload_check(header.payload_kind, payload.len()),
                    Ok(framed(bytes@, payload)),
                ),
            ),
        },
    )
}

/// What a version-one header, where it reads as `parsed`, and a payload are accepted as.
pub open spec fn accept_outcome(
    parsed: Result<QuicSubmitHeader, String>,
    payload: Seq<u8>,
) -> Result<(QuicSubmitHeader, Seq<u8>), ProtocolError> {
    match parsed {
        Err(reason) => Err(ProtocolError::Json(reason)),
        Ok(header) => checked(
            version_check(header.version, VERSION),
            checked(payload_check(header.payload_kind, payload.len()), Ok((header, payload))),
        ),
    }
}

/// What reading a version-one frame gives, where `parsed` is what its JSON header reads as.
pub open spec fn decode_outcome(
    frame: Seq<u8>,
    parsed: Result<QuicSubmitHeader, String>,
) -> Result<(QuicSubmitHeader, Seq<u8>), ProtocolError> {
    match split(frame) {
        Err(error) => Err(error),
        Ok(parts) => accept_outcome(parsed, parts.1),
    }
}

/// What framing gives for a version-two header whose JSON form is `json`.
pub open spec fn encode_outcome_v2(
    header: QuicSubmitHeaderV2,
    json: Result<Vec<u8>, String>,
    payload: Seq<u8>,
) -> Result<Seq<u8>, ProtocolError> {
    checked(
        version_check(header.version, VERSION_V2),
        checked(
            v2_payload_check(header, payload.len()),
            match json {
                Err(reason) => Err(ProtocolError::Json(reason)),
                Ok(bytes) => checked(
                    header_size_check(bytes@.len()),
                    Ok(framed(bytes@, payload)),
                ),
            },
        ),
    )
}

/// What a version-two header, where it reads as `parsed`, and a payload are accepted as.
pub open spec fn accept_outcome_v2(
    parsed: Result<QuicSubmitHeaderV2, String>,
    payload: Seq<u8>,
) -> Result<(QuicSubmitHeaderV2, Seq<u8>), ProtocolError> {
    match parsed {
        Err(reason) => Err(ProtocolError::Json(reason)),
        Ok(header) => checked(
            version_check(header.version, VERSION_V2),
            checked(v2_payload_check(header, payload.len()), Ok((header, payload))),
        ),
    }
}

/// What reading a version-two frame gives, where `parsed` is what its JSON header reads as.
pub open spec fn decode_outcome_v2(
    frame: Seq<u8>,
    parsed: Result<QuicSubmitHeaderV2, String>,
) -> Result<(QuicSubmitHeaderV2, Seq<u8>), ProtocolError> {
    match split(frame) {
        Err(error) => Err(error),
        Ok(parts) => accept_outcome_v2(parsed, parts.1),
    }
}

/// A frame with its bytes as a sequence.
pub open spec fn frame_view(res: Result<Vec<u8>, ProtocolError>) -> Result<
    Seq<u8>,
    ProtocolError,
> {
    match res {
        Ok(bytes) => Ok(bytes@),
        Err(error) => Err(error),
    }
}

/// A header and a payload, the payload as a sequence.
pub open spec fn decoded_view<H>(res: Result<(H, Vec<u8>), ProtocolError>) -> Result<
    (H, Seq<u8>),
    ProtocolError,
> {
    match res {
        Ok(parts) => Ok((parts.0, parts.1@)),
        Err(error) => Err(error),
    }
}

fn push_be32(out: &mut Vec<u8>, n: u32)
    ensures
        final(out)@ == old(out)@ + be32(n as nat),
{
    out.push((n / 0x100_0000 % 0x100) as u8);
    out.push((n / 0x1_0000 % 0x100) as u8);
    out.push((n / 0x100 % 0x100) as u8);
    out.push((n % 0x100) as u8);
    assert(out@ =~= old(out)@ + be32(n as nat));
}

/// Appends `bytes` to `out`.
pub fn push_bytes(out: &mut Vec<u8>, bytes: &[u8])
    ensures
        final(out)@ == old(out)@ + bytes@,
{
    out.extend_from_slice(bytes);
    assert(out@ =~= old(out)@ + bytes@);
}

/// Puts a JSON header and a payload into one frame.
fn build_frame(json: &Vec<u8>, payload: &[u8]) -> (res: Vec<u8>)
    requires
        json@.len() <= DEFAULT_MAX_FRAME_HEADER_BYTES,
    ensures
        res@ == framed(json@, payload@),
        res@.subrange(4, 4 + json@.len() as int) == json@,
        res@.skip(4 + json@.len() as int) == payload@,
{
    let mut out: Vec<u8> = Vec::new();
    push_be32(&mut out, json.len() as u32);
    push_bytes(&mut out, json.as_slice());
    push_bytes(&mut out, payload);
    assert(out@ =~= framed(json@, payload@));
    proof {
        lemma_frame_layout(json@, payload@);
    }
    out
}

/// Finds the JSON header and the payload of a frame.
pub fn split_frame(frame: &[u8]) -> (res: Result<(&[u8], &[u8]), ProtocolError>)
    ensures
        match split(frame@) {
            Ok(parts) => res matches Ok(found) && found.0@ == parts.0 && found.1@ == parts.1,
            Err(error) => res matches Err(e) && e == error,
        },
        res matches Ok(found) ==> ({
            let n = frame@[0] * 0x100_0000 + frame@[1] * 0x1_0000 + frame@[2] * 0x100 + frame@[3];
            &&& 4 + n <= frame@.len()
            &&& found.0@ == frame@.subrange(4, 4 + n)
            &&& found.1@ == frame@.skip(4 + n)
        }),
{
    if frame.len() < 4 {
        return Err(ProtocolError::FrameTooShort);
    }
    let header_len: usize = (frame[0] as u32 * 0x100_0000 + frame[1] as u32 * 0x1_0000
        + frame[2] as u32 * 0x100 + frame[3] as u32) as usize;
    assert(header_len == be32_value(frame@));
    if header_len > DEFAULT_MAX_FRAME_HEADER_BYTES {
        return Err(
            ProtocolError::HeaderTooLarge {
                actual: header_len,
                max: DEFAULT_MAX_FRAME_HEADER_BYTES,
            },
        );
    }
    if frame.len() < 4 + header_len {
        return Err(ProtocolError::FrameTooShort);
    }
    let json = slice_subrange(frame, 4, 4 + header_len);
    let payload = slice_subrange(frame, 4 + header_len, frame.len());
    assert(payload@ =~= frame@.skip(4 + be32_value(frame@) as int));
    Ok((json, payload))
}

fn check_header_size(len: usize) -> (res: Result<(), ProtocolError>)
    ensures
        res == header_size_check(len as nat),
{
    if len > DEFAULT_MAX_FRAME_HEADER_BYTES {
        return Err(
            ProtocolError::HeaderTooLarge { actual: len, max: DEFAULT_MAX_FRAME_HEADER_BYTES },
        );
    }
    Ok(())
}

fn check_payload(kind: QuicPayloadKind, len: usize) -> (res: Result<(), ProtocolError>)
    ensures
        res == payload_check(kind, len as nat),
{
    if len > DEFAULT_MAX_TRANSACTION_BYTES && kind == QuicPayloadKind::SingleRawTransaction {
        return Err(
            ProtocolError::TransactionTooLarge { actual: len, max: DEFAULT_MAX_TRANSACTION_BYTES },
        );
    }
    Ok(())
}

/// Checks a version-two payload against its header.
pub fn validate_v2_transaction(header: &QuicSubmitHeaderV2, payload: &[u8]) -> (res: Result<
    (),
    ProtocolError,
>)
    ensures
        res == v2_payload_check(*header, payload@.len()),
{
    if header.payload_kind != QuicPayloadKind::SingleRawTransaction {
        return Err(
            ProtocolError::InvalidPayload("protocol v2 supports single raw transactions only"),
        );
    }
    let actual: usize = payload.len();
    let declared: usize = header.raw_transaction_length as usize;
    if declared != actual {
        return Err(ProtocolError::TransactionLengthMismatch { declared, actual });
    }
    let max: usize = header.transaction_version.max_transaction_bytes();
    if actual > max {
        return Err(ProtocolError::TransactionTooLarge { actual, max });
    }
    Ok(())
}

/// Frames a version-one header whose JSON form is `json`, and a payload.
pub fn frame_serialized(
    header: &QuicSubmitHeader,
    json: Result<Vec<u8>, String>,
    payload: &[u8],
) -> (res: Result<Vec<u8>, ProtocolError>)
    ensures
        frame_view(res) == encode_outcome(*header, json, payload@),
        res matches Ok(frame) ==> (json matches Ok(bytes) && {
            &&& frame@.len() == 4 + bytes@.len() + payload@.len()
            &&& frame@[0] * 0x100_0000 + frame@[1] * 0x1_0000 + frame@[2] * 0x100 + frame@[3]
                == bytes@.len()
            &&& frame@.subrange(4, 4 + bytes@.len() as int) == bytes@
            &&& frame@.skip(4 + bytes@.len() as int) == payload@
        }),
{
    if let Err(error) = validate_version(header.version) {
        return Err(error);
    }
    let header_bytes = match json {
        Ok(bytes) => bytes,
        Err(reason) => {
            return Err(ProtocolError::Json(reason));
        },
    };
    if let Err(error) = check_header_size(header_bytes.len()) {
        return Err(error);
    }
    if let Err(error) = check_payload(header.payload_kind, payload.len()) {
        return Err(error);
    }
    proof {
        lemma_frame_layout(header_bytes@, payload@);
    }
    Ok(build_frame(&header_bytes, payload))
}

/// Accepts a version-one header, where it reads as `parsed`, with its payload.
pub fn accept_parsed(parsed: Result<QuicSubmitHeader, String>, payload: &[u8]) -> (res: Result<
    (QuicSubmitHeader, Vec<u8>),
    ProtocolError,
>)
    ensures
        decoded_view(res) == accept_outcome(parsed, payload@),
{
    let header = match parsed {
        Ok(header) => header,
        Err(reason) => {
            return Err(ProtocolError::Json(reason));
        },
    };
    if let Err(error) = validate_version(header.version) {
        return Err(error);
    }
    if let Err(error) = check_payload(header.payload_kind, payload.len()) {
        return Err(error);
    }
    Ok((header, slice_to_vec(payload)))
}

/// Frames a version-two header whose JSON form is `json`, and a payload.
pub fn frame_serialized_v2(
    header: &QuicSubmitHeaderV2,
    json: Result<Vec<u8>, String>,
    payload: &[u8],
) -> (res: Result<Vec<u8>, ProtocolError>)
    ensures
        frame_view(res) == encode_outcome_v2(*header, json, payload@),
        res matches Ok(frame) ==> (json matches Ok(bytes) && {
            &&& frame@.len() == 4 + bytes@.len() + payload@.len()
            &&& frame@[0] * 0x100_0000 + frame@[1] * 0x1_0000 + frame@[2] * 0x100 + frame@[3]
                == bytes@.len()
            &&& frame@.subrange(4, 4 + bytes@.len() as int) == bytes@
            &&& frame@.skip(4 + bytes@.len() as int) == payload@
        }),
{
    if let Err(error) = validate_version_v2(header.version) {
        return Err(error);
    }
    if let Err(error) = validate_v2_transaction(header, payload) {
        return Err(error);
    }
    let header_bytes = match json {
        Ok(bytes) => bytes,
        Err(reason) => {
            return Err(ProtocolError::Json(reason));
        },
    };
    if let Err(error) = check_header_size(header_bytes.len()) {
        return Err(error);
    }
    proof {
        lemma_frame_layout(header_bytes@, payload@);
    }
    Ok(build_frame(&header_bytes, payload))
}

/// Accepts a version-two header, where it reads as `parsed`, with its payload.
pub fn accept_parsed_v2(parsed: Result<QuicSubmitHeaderV2, String>, payload: &[u8]) -> (res: Result<
    (QuicSubmitHeaderV2, Vec<u8>),
    ProtocolError,
>)
    ensures
        decoded_view(res) == accept_outcome_v2(parsed, payload@),
{
    let header = match parsed {
        Ok(header) => header,
        Err(reason) => {
            return Err(ProtocolError::Json(reason));
        },
    };
    if let Err(error) = validate_version_v2(header.version) {
        return Err(error);
    }
    if let Err(error) = validate_v2_transaction(&header, payload) {
        return Err(error);
    }
    Ok((header, slice_to_vec(payload)))
}

/// Frames a version-one header, in the JSON form that `to_json` gives it, and a payload.
///
/// A header of another version is refused before it is serialized.
pub fn encode_quic_frame<F>(header: &QuicSubmitHeader, payload: &[u8], to_json: F) -> (res: Result<
    Vec<u8>,
    ProtocolError,
>) where F: Fn(&QuicSubmitHeader) -> Result<Vec<u8>, String>
    requires
        call_requires(to_json, (header,)),
    ensures
        version_check(header.version, VERSION) matches Err(error) ==> res matches Err(e) && e
            == error,
        version_check(header.version, VERSION) is Ok ==> exists|json: Result<Vec<u8>, String>|
            #![trigger call_ensures(to_json, (header,), json)]
            call_ensures(to_json, (header,), json) && frame_view(res) == encode_outcome(
                *header,
                json,
                payload@,
            ),
        res matches Ok(frame) ==> exists|bytes: Vec<u8>|
            #![trigger call_ensures(to_json, (header,), Ok::<Vec<u8>, String>(bytes))]
            {
                &&& call_ensures(to_json, (header,), Ok::<Vec<u8>, String>(bytes))
                &&& frame@.len() == 4 + bytes@.len() + payload@.len()
                &&& frame@[0] * 0x100_0000 + frame@[1] * 0x1_0000 + frame@[2] * 0x100 + frame@[3]
                    == bytes@.len()
                &&& frame@.subrange(4, 4 + bytes@.len() as int) == bytes@
                &&& frame@.skip(4 + bytes@.len() as int) == payload@
            },
{
    if let Err(error) = validate_version(header.version) {
        return Err(error);
    }
    frame_serialized(header, to_json(header), payload)
}

/// Reads a version-one frame, with `from_json` to read its JSON header.
pub fn decode_quic_frame<F>(frame: &[u8], from_json: F) -> (res: Result<
    (QuicSubmitHeader, Vec<u8>),
    ProtocolError,
>) where F: Fn(&[u8]) -> Result<QuicSubmitHeader, String>
    requires
        forall|json: &[u8]| call_requires(from_json, (json,)),
    ensures
        split(frame@) matches Err(error) ==> res matches Err(e) && e == error,
        split(frame@) matches Ok(parts) ==> exists|
            json: &[u8],
            parsed: Result<QuicSubmitHeader, String>,
        |
            #![trigger call_ensures(from_json, (json,), parsed)]
            json@ == parts.0 && call_ensures(from_json, (json,), parsed) && decoded_view(res)
                == decode_outcome(frame@, parsed),
        res matches Ok(parts) ==> exists|json: &[u8]|
            #![trigger call_ensures(from_json, (json,), Ok::<QuicSubmitHeader, String>(parts.0))]
            {
                let n = frame@[0] * 0x100_0000 + frame@[1] * 0x1_0000 + frame@[2] * 0x100 + frame@[3];
                &&& call_ensures(from_json, (json,), Ok::<QuicSubmitHeader, String>(parts.0))
                &&& 4 + n <= frame@.len()
                &&& json@ == frame@.subrange(4, 4 + n)
                &&& parts.1@ == frame@.skip(4 + n)
                &&& parts.0.version == 1
                &&& parts.0.payload_kind == QuicPayloadKind::SingleRawTransaction ==> parts.1@.len()
                    <= 1232
            },
{
    match split_frame(frame) {
        Ok((json, payload)) => accept_parsed(from_json(json), payload),
        Err(error) => Err(error),
    }
}

/// Frames a version-two header, in the JSON form that `to_json` gives it, and a payload.
///
/// A header of another version, or that does not match its payload, is refused before it is
/// serialized.
pub fn encode_quic_frame_v2<F>(
    header: &QuicSubmitHeaderV2,
    payload: &[u8],
    to_json: F,
) -> (res: Result<Vec<u8>, ProtocolError>) where
    F: Fn(&QuicSubmitHeaderV2) -> Result<Vec<u8>, String>,

    requires
        call_requires(to_json, (header,)),
    ensures
        checked::<()>(
            version_check(header.version, VERSION_V2),
            v2_payload_check(*header, payload@.len()),
        ) matches Err(error) ==> res matches Err(e) && e == error,
        checked::<()>(
            version_check(header.version, VERSION_V2),
            v2_payload_check(*header, payload@.len()),
        ) is Ok ==> exists|json: Result<Vec<u8>, String>|
            #![trigger call_ensures(to_json, (header,), json)]
            call_ensures(to_json, (header,), json) && frame_view(res) == encode_outcome_v2(
                *header,
                json,
                payload@,
            ),
        res matches Ok(frame) ==> exists|bytes: Vec<u8>|
            #![trigger call_ensures(to_json, (header,), Ok::<Vec<u8>, String>(bytes))]
            {
                &&& call_ensures(to_json, (header,), Ok::<Vec<u8>, String>(bytes))
                &&& frame@.len() == 4 + bytes@.len() + payload@.len()
                &&& frame@[0] * 0x100_0000 + frame@[1] * 0x1_0000 + frame@[2] * 0x100 + frame@[3]
                    == bytes@.len()
                &&& frame@.subrange(4, 4 + bytes@.len() as int) == bytes@
                &&& frame@.skip(4 + bytes@.len() as int) == payload@
            },
{
    if let Err(error) = validate_version_v2(header.version) {
        return Err(error);
    }
    if let Err(error) = validate_v2_transaction(header, payload) {
        return Err(error);
    }
    frame_serialized_v2(header, to_json(header), payload)
}

/// Reads a version-two frame, with `from_json` to read its JSON header.
pub fn decode_quic_frame_v2<F>(frame: &[u8], from_json: F) -> (res: Result<
    (QuicSubmitHeaderV2, Vec<u8>),
    ProtocolError,
>) where F: Fn(&[u8]) -> Result<QuicSubmitHeaderV2, String>
    requires
        forall|json: &[u8]| call_requires(from_json, (json,)),
    ensures
        split(frame@) matches Err(error) ==> res matches Err(e) && e == error,
        split(frame@) matches Ok(parts) ==> exists|
            json: &[u8],
            parsed: Result<QuicSubmitHeaderV2, String>,
        |
            #![trigger call_ensures(from_json, (json,), parsed)]
            json@ == parts.0 && call_ensures(from_json, (json,), parsed) && decoded_view(res)
                == decode_outcome_v2(frame@, parsed),
        res matches Ok(parts) ==> exists|json: &[u8]|
            #![trigger call_ensures(from_json, (json,), Ok::<QuicSubmitHeaderV2, String>(parts.0))]
            {
                let n = frame@[0] * 0x100_0000 + frame@[1] * 0x1_0000 + frame@[2] * 0x100 + frame@[3];
                &&& call_ensures(from_json, (json,), Ok::<QuicSubmitHeaderV2, String>(parts.0))
                &&& 4 + n <= frame@.len()
                &&& json@ == frame@.subrange(4, 4 + n)
                &&& parts.1@ == frame@.skip(4 + n)
                &&& parts.0.version == 2
                &&& parts.0.payload_kind == QuicPayloadKind::SingleRawTransaction
                &&& parts.0.raw_transaction_length == parts.1@.len()
                &&& parts.1@.len() <= (if parts.0.transaction_version == TransactionVersion::V1 {
                    4096int
                } else {
                    1232int
                })
            },
{
    match split_frame(frame) {
        Ok((json, payload)) => accept_parsed_v2(from_json(json), payload),
        Err(error) => Err(error),
    }
}

proof fn lemma_be32_round_trip(n: nat)
    requires
        n < 0x1_0000_0000,
    ensures
        be32_value(be32(n)) == n,
        be32(n).len() == 4,
{
}

proof fn lemma_be32_value_round_trip(s: Seq<u8>)
    requires
        s.len() >= 4,
    ensures
        be32(be32_value(s)) == s.take(4),
{
    let n = be32_value(s);
    assert(n / 0x100_0000 == s[0]);
    assert(n / 0x1_0000 == s[0] * 0x100 + s[1]);
    assert(n / 0x100 == s[0] * 0x1_0000 + s[1] * 0x100 + s[2]);
    assert(be32(n) =~= s.take(4));
}

/// Splitting a frame gives back the header and the payload that it was built from.
pub proof fn lemma_split_inverts_framed(json: Seq<u8>, payload: Seq<u8>)
    requires
        header_size_check(json.len()) is Ok,
    ensures
        split(framed(json, payload)) == Ok::<(Seq<u8>, Seq<u8>), ProtocolError>((json, payload)),
{
    let frame = framed(json, payload);
    lemma_be32_round_trip(json.len());
    assert(frame.take(4) =~= be32(json.len()));
    assert(be32_value(frame) == be32_value(frame.take(4)));
    assert(frame.subrange(4, 4 + json.len() as int) =~= json);
    assert(frame.skip(4 + json.len() as int) =~= payload);
}

/// A frame that splits is the frame of its parts: no two frames split alike.
pub proof fn lemma_framed_inverts_split(frame: Seq<u8>)
    ensures
        split(frame) matches Ok(parts) ==> framed(parts.0, parts.1) == frame && header_size_check(
            parts.0.len(),
        ) is Ok,
{
    if let Ok(parts) = split(frame) {
        lemma_be32_value_round_trip(frame);
        assert(framed(parts.0, parts.1) =~= frame);
    }
}

/// A frame that was cut before the end of its header is refused as too short.
pub proof fn lemma_truncated_frame_is_too_short(json: Seq<u8>, payload: Seq<u8>, kept: nat)
    requires
        header_size_check(json.len()) is Ok,
        kept < 4 + json.len(),
    ensures
        split(framed(json, payload).take(kept as int)) == Err::<(Seq<u8>, Seq<u8>), ProtocolError>(
            ProtocolError::FrameTooShort,
        ),
{
    let frame = framed(json, payload);
    let cut = frame.take(kept as int);
    if kept >= 4 {
        lemma_be32_round_trip(json.len());
        assert(cut.take(4) =~= be32(json.len()));
        assert(be32_value(cut) == be32_value(cut.take(4)));
    }
}

/// A version-one header and payload come back from the frame that carries them, wherever the
/// JSON form of the header reads as that header.
pub proof fn lemma_quic_frame_round_trip(header: QuicSubmitHeader, json: Vec<u8>, payload: Seq<u8>)
    ensures
        encode_outcome(header, Ok(json), payload) matches Ok(frame) ==> {
            &&& split(frame) == Ok::<(Seq<u8>, Seq<u8>), ProtocolError>((json@, payload))
            &&& decode_outcome(frame, Ok(header)) == Ok::<
                (QuicSubmitHeader, Seq<u8>),
                ProtocolError,
            >((header, payload))
        },
{
    if encode_outcome(header, Ok(json), payload) is Ok {
        lemma_split_inverts_framed(json@, payload);
    }
}

/// A version-one frame that is accepted is the frame that encoding its parts gives.
pub proof fn lemma_quic_frame_is_canonical(frame: Seq<u8>, header: QuicSubmitHeader, json: Vec<u8>)
    requires
        split(frame) matches Ok(parts) && parts.0 == json@,
    ensures
        decode_outcome(frame, Ok(header)) matches Ok(accepted) ==> encode_outcome(
            header,
            Ok(json),
            accepted.1,
        ) == Ok::<Seq<u8>, ProtocolError>(frame),
{
    lemma_framed_inverts_split(frame);
}

/// A version-two header and payload come back from the frame that carries them, wherever the
/// JSON form of the header reads as that header.
pub proof fn lemma_quic_frame_v2_round_trip(
    header: QuicSubmitHeaderV2,
    json: Vec<u8>,
    payload: Seq<u8>,
)
    ensures
        encode_outcome_v2(header, Ok(json), payload) matches Ok(frame) ==> {
            &&& split(frame) == Ok::<(Seq<u8>, Seq<u8>), ProtocolError>((json@, payload))
            &&& decode_outcome_v2(frame, Ok(header)) == Ok::<
                (QuicSubmitHeaderV2, Seq<u8>),
                ProtocolError,
            >((header, payload))
        },
{
    if encode_outcome_v2(header, Ok(json), payload) is Ok {
        lemma_split_inverts_framed(json@, payload);
    }
}

/// A version-two frame that is accepted is the frame that encoding its parts gives.
pub proof fn lemma_quic_frame_v2_is_canonical(
    frame: Seq<u8>,
    header: QuicSubmitHeaderV2,
    json: Vec<u8>,
)
    requires
        split(frame) matches Ok(parts) && parts.0 == json@,
    ensures
        decode_outcome_v2(frame, Ok(header)) matches Ok(accepted) ==> encode_outcome_v2(
            header,
            Ok(json),
            accepted.1,
        ) == Ok::<Seq<u8>, ProtocolError>(frame),
{
    lemma_framed_inverts_split(frame);
}

/// A version-one frame is built exactly for a header of that version whose JSON fits, with a raw
/// transaction of at most the legacy ceiling, or any bundle.
pub proof fn lemma_what_a_frame_carries(header: QuicSubmitHeader, json: Vec<u8>, payload: Seq<u8>)
    ensures
        encode_outcome(header, Ok(json), payload) is Ok <==> {
            &&& header.version == 1
            &&& json@.len() <= 4096
            &&& header.payload_kind == QuicPayloadKind::SingleRawTransaction ==> payload.len()
                <= 1232
        },
{
}

/// A version-two frame is built exactly for a header of that version whose JSON fits, with a raw
/// transaction that has the declared length and is within the ceiling of its format.
pub proof fn lemma_what_a_v2_frame_carries(
    header: QuicSubmitHeaderV2,
    json: Vec<u8>,
    payload: Seq<u8>,
)
    ensures
        encode_outcome_v2(header, Ok(json), payload) is Ok <==> {
            &&& header.version == 2
            &&& json@.len() <= 4096
            &&& header.payload_kind == QuicPayloadKind::SingleRawTransaction
            &&& header.raw_transaction_length == payload.len()
            &&& payload.len() <= header.transaction_version.max_bytes()
        },
{
}

/// Whatever a version-one frame holds, what is accepted from it is of that version and within the
/// ceiling of a raw transaction.
pub proof fn lemma_accepted_frame_is_bounded(
    frame: Seq<u8>,
    parsed: Result<QuicSubmitHeader, String>,
)
    ensures
        decode_outcome(frame, parsed) matches Ok(accepted) ==> {
            &&& accepted.0.version == 1
            &&& accepted.0.payload_kind == QuicPayloadKind::SingleRawTransaction
                ==> accepted.1.len() <= 1232
        },
{
}

/// Whatever a version-two frame holds, what is accepted from it is one raw transaction of the
/// declared length, within the ceiling of its format.
pub proof fn lemma_accepted_v2_frame_is_bounded(
    frame: Seq<u8>,
    parsed: Result<QuicSubmitHeaderV2, String>,
)
    ensures
        decode_outcome_v2(frame, parsed) matches Ok(accepted) ==> {
            &&& accepted.0.version == 2
            &&& accepted.0.payload_kind == QuicPayloadKind::SingleRawTransaction
            &&& accepted.1.len() == accepted.0.raw_transaction_length
            &&& accepted.1.len() <= accepted.0.transaction_version.max_bytes()
        },
{
}

/// A version-two frame that was cut within its payload is refused for its length.
pub proof fn lemma_truncated_v2_payload_is_refused(
    header: QuicSubmitHeaderV2,
    json: Vec<u8>,
    payload: Seq<u8>,
    kept: nat,
)
    requires
        encode_outcome_v2(header, Ok(json), payload) is Ok,
        kept < payload.len(),
    ensures
        decode_outcome_v2(
            framed(json@, payload).take((4 + json@.len() + kept) as int),
            Ok(header),
        ) == Err::<(QuicSubmitHeaderV2, Seq<u8>), ProtocolError>(
            ProtocolError::TransactionLengthMismatch {
                declared: header.raw_transaction_length as usize,
                actual: kept as usize,
            },
        ),
{
    let cut = payload.take(kept as int);
    assert(framed(json@, payload).take((4 + json@.len() + kept) as int) =~= framed(json@, cut));
    lemma_split_inverts_framed(json@, cut);
}

/// A frame is, byte for byte, the length of the JSON header in four bytes with the most significant
/// first, then the JSON header, then the payload, however long the payload is.
pub proof fn lemma_frame_layout(json: Seq<u8>, payload: Seq<u8>)
    requires
        json.len() <= 4096,
    ensures
        ({
            let frame = framed(json, payload);
            &&& frame.len() == 4 + json.len() + payload.len()
            &&& frame[0] * 0x100_0000 + frame[1] * 0x1_0000 + frame[2] * 0x100 + frame[3] == json.len()
            &&& frame.subrange(4, 4 + json.len() as int) == json
            &&& frame.skip(4 + json.len() as int) == payload
        }),
{
    let frame = framed(json, payload);
    lemma_be32_round_trip(json.len());
    assert(frame.take(4) =~= be32(json.len()));
    assert(frame[0] == frame.take(4)[0]);
    assert(frame[1] == frame.take(4)[1]);
    assert(frame[2] == frame.take(4)[2]);
    assert(frame[3] == frame.take(4)[3]);
    assert(frame.subrange(4, 4 + json.len() as int) =~= json);
    assert(frame.skip(4 + json.len() as int) =~= payload);
}

/// What a frame splits into: where its first four bytes, the most significant first, name `n`, the
/// header is the `n` bytes that follow them and the payload is all bytes after those. It is refused
/// where `n` is above the limit, or where the frame ends before its header does.
pub proof fn lemma_split_layout(frame: Seq<u8>)
    ensures
        frame.len() < 4 ==> split(frame) == Err::<(Seq<u8>, Seq<u8>), ProtocolError>(
            ProtocolError::FrameTooShort,
        ),
        frame.len() >= 4 ==> ({
            let n = frame[0] * 0x100_0000 + frame[1] * 0x1_0000 + frame[2] * 0x100 + frame[3];
            &&& n > 4096 ==> split(frame) == Err::<(Seq<u8>, Seq<u8>), ProtocolError>(
                ProtocolError::HeaderTooLarge { actual: n as usize, max: 4096 },
            )
            &&& n <= 4096 && frame.len() < 4 + n ==> split(frame) == Err::<
                (Seq<u8>, Seq<u8>),
                ProtocolError,
            >(ProtocolError::FrameTooShort)
            &&& n <= 4096 && frame.len() >= 4 + n ==> split(frame) is Ok && split(frame)->Ok_0.0
                == frame.subrange(4, 4 + n) && split(frame)->Ok_0.1 == frame.skip(4 + n)
        }),
{
}

/// What a version-one header and a payload are framed as: the first of a wrong version, a JSON form
/// that cannot be had, a JSON form that is too large and a raw transaction that is too large
/// refuses them, in that order; else the frame holds exactly the JSON form and the payload.
pub proof fn lemma_framing_verdict(
    header: QuicSubmitHeader,
    json: Result<Vec<u8>, String>,
    payload: Seq<u8>,
)
    ensures
        ({
            let out = encode_outcome(header, json, payload);
            let single = header.payload_kind == QuicPayloadKind::SingleRawTransaction;
            if header.version != 1 {
                out == Err::<Seq<u8>, ProtocolError>(
                    ProtocolError::UnsupportedVersion(header.version),
                )
            } else {
                match json {
                    Err(reason) => out == Err::<Seq<u8>, ProtocolError>(
                        ProtocolError::Json(reason),
                    ),
                    Ok(bytes) => if bytes@.len() > 4096 {
                        out == Err::<Seq<u8>, ProtocolError>(
                            ProtocolError::HeaderTooLarge {
                                actual: bytes@.len() as usize,
                                max: 4096,
                            },
                        )
                    } else if single && payload.len() > 1232 {
                        out == Err::<Seq<u8>, ProtocolError>(
                            ProtocolError::TransactionTooLarge {
                                actual: payload.len() as usize,
                                max: 1232,
                            },
                        )
                    } else {
                        &&& out is Ok
                        &&& out->Ok_0.len() == 4 + bytes@.len() + payload.len()
                        &&& out->Ok_0[0] * 0x100_0000 + out->Ok_0[1] * 0x1_0000 + out->Ok_0[2] * 0x100
                            + out->Ok_0[3] == bytes@.len()
                        &&& out->Ok_0.subrange(4, 4 + bytes@.len() as int) == bytes@
                        &&& out->Ok_0.skip(4 + bytes@.len() as int) == payload
                    },
                }
            }
        }),
{
    if let Ok(bytes) = json {
        if bytes@.len() <= 4096 {
            lemma_frame_layout(bytes@, payload);
        }
    }
}

/// What a version-two header and a payload are framed as: a wrong version, a payload that is no
/// single raw transaction, one of another length than declared, one above the ceiling of its
/// format, a JSON form that cannot be had and one that is too large refuse them, in that order;
/// else the frame holds exactly the JSON form and the payload.
pub proof fn lemma_framing_verdict_v2(
    header: QuicSubmitHeaderV2,
    json: Result<Vec<u8>, String>,
    payload: Seq<u8>,
)
    ensures
        ({
            let out = encode_outcome_v2(header, json, payload);
            let ceiling = if header.transaction_version == TransactionVersion::V1 {
                4096nat
            } else {
                1232nat
            };
            if header.version != 2 {
                out == Err::<Seq<u8>, ProtocolError>(
                    ProtocolError::UnsupportedVersion(header.version),
                )
            } else if header.payload_kind != QuicPayloadKind::SingleRawTransaction {
                out == Err::<Seq<u8>, ProtocolError>(
                    ProtocolError::InvalidPayload(
                        "protocol v2 supports single raw transactions only",
                    ),
                )
            } else if header.raw_transaction_length != payload.len() {
                out == Err::<Seq<u8>, ProtocolError>(
                    ProtocolError::TransactionLengthMismatch {
                        declared: header.raw_transaction_length as usize,
                        actual: payload.len() as usize,
                    },
                )
            } else if payload.len() > ceiling {
                out == Err::<Seq<u8>, ProtocolError>(
                    ProtocolError::TransactionTooLarge {
                        actual: payload.len() as usize,
                        max: ceiling as usize,
                    },
                )
            } else {
                match json {
                    Err(reason) => out == Err::<Seq<u8>, ProtocolError>(
                        ProtocolError::Json(reason),
                    ),
                    Ok(bytes) => if bytes@.len() > 4096 {
                        out == Err::<Seq<u8>, ProtocolError>(
                            ProtocolError::HeaderTooLarge {
                                actual: bytes@.len() as usize,
                                max: 4096,
                            },
                        )
                    } else {
                        &&& out is Ok
                        &&& out->Ok_0.len() == 4 + bytes@.len() + payload.len()
                        &&& out->Ok_0[0] * 0x100_0000 + out->Ok_0[1] * 0x1_0000 + out->Ok_0[2] * 0x100
                            + out->Ok_0[3] == bytes@.len()
                        &&& out->Ok_0.subrange(4, 4 + bytes@.len() as int) == bytes@
                        &&& out->Ok_0.skip(4 + bytes@.len() as int) == payload
                    },
                }
            }
        }),
{
    if let Ok(bytes) = json {
        if bytes@.len() <= 4096 {
            lemma_frame_layout(bytes@, payload);
        }
    }
}

/// What a version-one header, where it reads as `parsed`, and a payload are accepted as: refused
/// where the header does not read, is of another version, or announces a raw transaction that is
/// too large; else handed out as they are.
pub proof fn lemma_reading_verdict(parsed: Result<QuicSubmitHeader, String>, payload: Seq<u8>)
    ensures
        ({
            let out = accept_outcome(parsed, payload);
            match parsed {
                Err(reason) => out == Err::<(QuicSubmitHeader, Seq<u8>), ProtocolError>(
                    ProtocolError::Json(reason),
                ),
                Ok(header) => if header.version != 1 {
                    out == Err::<(QuicSubmitHeader, Seq<u8>), ProtocolError>(
                        ProtocolError::UnsupportedVersion(header.version),
                    )
                } else if header.payload_kind == QuicPayloadKind::SingleRawTransaction
                    && payload.len() > 1232 {
                    out == Err::<(QuicSubmitHeader, Seq<u8>), ProtocolError>(
                        ProtocolError::TransactionTooLarge {
                            actual: payload.len() as usize,
                            max: 1232,
                        },
                    )
                } else {
                    out is Ok && out->Ok_0.0 == header && out->Ok_0.1 == payload
                },
            }
        }),
{
}

/// What a version-two header, where it reads as `parsed`, and a payload are accepted as: refused
/// where the header does not read, is of another version or does not describe the payload; else
/// handed out as they are.
pub proof fn lemma_reading_verdict_v2(parsed: Result<QuicSubmitHeaderV2, String>, payload: Seq<u8>)
    ensures
        ({
            let out = accept_outcome_v2(parsed, payload);
            match parsed {
                Err(reason) => out == Err::<(QuicSubmitHeaderV2, Seq<u8>), ProtocolError>(
                    ProtocolError::Json(reason),
                ),
                Ok(header) => {
                    let ceiling = if header.transaction_version == TransactionVersion::V1 {
                        4096nat
                    } else {
                        1232nat
                    };
                    if header.version != 2 {
                        out == Err::<(QuicSubmitHeaderV2, Seq<u8>), ProtocolError>(
                            ProtocolError::UnsupportedVersion(header.version),
                        )
                    } else if header.payload_kind != QuicPayloadKind::SingleRawTransaction {
                        out == Err::<(QuicSubmitHeaderV2, Seq<u8>), ProtocolError>(
                            ProtocolError::InvalidPayload(
                                "protocol v2 supports single raw transactions only",
                            ),
                        )
                    } else if header.raw_transaction_length != payload.len() {
                        out == Err::<(QuicSubmitHeaderV2, Seq<u8>), ProtocolError>(
                            ProtocolError::TransactionLengthMismatch {
                                declared: header.raw_transaction_length as usize,
                                actual: payload.len() as usize,
                            },
                        )
                    } else if payload.len() > ceiling {
                        out == Err::<(QuicSubmitHeaderV2, Seq<u8>), ProtocolError>(
                            ProtocolError::TransactionTooLarge {
                                actual: payload.len() as usize,
                                max: ceiling as usize,
                            },
                        )
                    } else {
                        out is Ok && out->Ok_0.0 == header && out->Ok_0.1 == payload
                    }
                },
            }
        }),
{
}

/// A frame that does not split is refused for that reason whatever its header would read as, and
/// one that splits is taken as its header and the payload that stands behind it.
pub proof fn lemma_reading_takes_the_split(
    frame: Seq<u8>,
    parsed: Result<QuicSubmitHeader, String>,
    parsed_v2: Result<QuicSubmitHeaderV2, String>,
)
    ensures
        split(frame) matches Err(error) ==> {
            &&& decode_outcome(frame, parsed) == Err::<(QuicSubmitHeader, Seq<u8>), ProtocolError>(
                error,
            )
            &&& decode_outcome_v2(frame, parsed_v2) == Err::<
                (QuicSubmitHeaderV2, Seq<u8>),
                ProtocolError,
            >(error)
        },
        split(frame) matches Ok(parts) ==> {
            &&& decode_outcome(frame, parsed) == accept_outcome(parsed, parts.1)
            &&& decode_outcome_v2(frame, parsed_v2) == accept_outcome_v2(parsed_v2, parts.1)
        },
{
}

/// A view changes neither an error nor a header, and gives the bytes as they are.
pub proof fn lemma_views_are_faithful(
    frame: Result<Vec<u8>, ProtocolError>,
    read: Result<(QuicSubmitHeader, Vec<u8>), ProtocolError>,
    read_v2: Result<(QuicSubmitHeaderV2, Vec<u8>), ProtocolError>,
)
    ensures
        match frame {
            Ok(bytes) => frame_view(frame) is Ok && frame_view(frame)->Ok_0 == bytes@,
            Err(error) => frame_view(frame) is Err && frame_view(frame)->Err_0 == error,
        },
        match read {
            Ok(parts) => decoded_view(read) is Ok && decoded_view(read)->Ok_0.0 == parts.0
                && decoded_view(read)->Ok_0.1 == parts.1@,
            Err(error) => decoded_view(read) is Err && decoded_view(read)->Err_0 == error,
        },
        match read_v2 {
            Ok(parts) => decoded_view(read_v2) is Ok && decoded_view(read_v2)->Ok_0.0 == parts.0
                && decoded_view(read_v2)->Ok_0.1 == parts.1@,
            Err(error) => decoded_view(read_v2) is Err && decoded_view(read_v2)->Err_0 == error,
        },
{
}

} // verus!
