//! The QUIC client's rules: configuration, the bytes it writes and how it takes the answer.
use crate::client_error::RelayClientError;
use crate::duration::Duration;
use crate::error::ProtocolError;
use crate::frame::{
    encode_outcome, encode_outcome_v2, frame_serialized, frame_serialized_v2, frame_view,
    lemma_framing_verdict,
    push_bytes, QuicPayloadKind, QuicSubmitHeader, QuicSubmitHeaderV2, ALPN_V2, DEFAULT_ALPN,
};
use crate::http::SubmitResponse;
use crate::request::{RelayMethod, ResponseMode, VERSION, VERSION_V2};
use crate::routes::{RelayRoute, RouteSet, RouteSetMode};
use crate::text::{blank, is_blank, lemma_trimmed_empty, trimmed};
use crate::transaction::{base64_decoding, decode_transaction_base64, TransactionVersion};
use vstd::prelude::*;
use vstd::utf8::{decode_utf8, encode_utf8, valid_utf8};

verus! {

/// Seconds that a step of a QUIC request may take unless configured otherwise.
pub const DEFAULT_QUIC_TIMEOUT_SECS: u64 = 2;

/// The server name that is verified unless configured otherwise.
pub const DEFAULT_QUIC_SERVER_NAME: &'static str = "relay.rpcedge.com";

/// The most bytes of an answer that are read unless configured otherwise.
pub const DEFAULT_QUIC_MAX_RESPONSE_BYTES: usize = 4096;

/// A version of the submission protocol that a QUIC connection can speak.
#[derive(Debug, Clone, Copy, PartialEq, Eq, Structural)]
pub enum QuicProtocol {
    V1,
    V2,
}

impl QuicProtocol {
    /// The version that frames of the protocol name.
    pub open spec fn version(self) -> u8 {
        match self {
            QuicProtocol::V1 => VERSION,
            QuicProtocol::V2 => VERSION_V2,
        }
    }

    /// The name by which a connection agrees on the protocol.
    pub open spec fn alpn_name(self) -> Seq<char> {
        match self {
            QuicProtocol::V1 => "rpcedge-submit-v1"@,
            QuicProtocol::V2 => "rpcedge-submit-v2"@,
        }
    }

    /// The oldest protocol that carries transactions of format `version`.
    pub open spec fn oldest_for(version: TransactionVersion) -> QuicProtocol {
        if version == TransactionVersion::V1 {
            QuicProtocol::V2
        } else {
            QuicProtocol::V1
        }
    }

    /// The name by which a connection agrees on the protocol.
    pub fn alpn(self) -> (res: &'static str)
        ensures
            res@ == self.alpn_name(),
            self == QuicProtocol::V1 ==> res@ == "rpcedge-submit-v1"@,
            self == QuicProtocol::V2 ==> res@ == "rpcedge-submit-v2"@,
    {
        match self {
            QuicProtocol::V1 => DEFAULT_ALPN,
            QuicProtocol::V2 => ALPN_V2,
        }
    }

    /// The oldest protocol that carries transactions of format `version`.
    pub fn carrying(version: TransactionVersion) -> (res: QuicProtocol)
        ensures
            res == QuicProtocol::oldest_for(version),
            res == QuicProtocol::V2 <==> version == TransactionVersion::V1,
    {
        if version.supports_protocol_v1() {
            QuicProtocol::V1
        } else {
            QuicProtocol::V2
        }
    }
}

/// What a connection asks of TLS.
#[derive(Debug, Clone, Copy, PartialEq, Eq)]
pub struct QuicTlsSettings {
    /// The one protocol that is offered.
    pub alpn: &'static str,
    /// Whether the server's certificate is checked.
    pub verify_server_certificate: bool,
    /// Whether data is sent before the handshake ends.
    pub early_data: bool,
}

/// How to reach the relay over QUIC, at an address of the transport's own type.
#[derive(Debug, PartialEq, Eq)]
pub struct QuicRelayClientConfig<A> {
    pub endpoint: A,
    pub api_key: String,
    pub server_name: String,
    pub timeout: Duration,
    pub max_response_bytes: usize,
    pub insecure_skip_server_certificate_verification: bool,
}

impl<A: Copy> Clone for QuicRelayClientConfig<A> {
    fn clone(&self) -> (res: Self)
        ensures
            res == *self,
    {
        QuicRelayClientConfig {
            endpoint: self.endpoint,
            api_key: self.api_key.clone(),
            server_name: self.server_name.clone(),
            timeout: self.timeout,
            max_response_bytes: self.max_response_bytes,
            insecure_skip_server_certificate_verification: self.insecure_skip_server_certificate_verification,
        }
    }
}

impl<A> QuicRelayClientConfig<A> {
    /// What a check of the configuration gives: the key is checked first.
    pub open spec fn config_check(self) -> Result<(), RelayClientError> {
        if is_blank(self.api_key@) {
            Err(RelayClientError::InvalidConfig("api_key is empty"))
        } else if is_blank(self.server_name@) {
            Err(RelayClientError::InvalidConfig("server_name is empty"))
        } else {
            Ok(())
        }
    }

    /// A configuration with the default server name and limits.
    pub fn new(endpoint: A, api_key: &str) -> (res: Self)
        ensures
            res.endpoint == endpoint,
            res.api_key@ == api_key@,
            res.server_name@ == "relay.rpcedge.com"@,
            res.timeout.nanos() == 2_000_000_000,
            res.max_response_bytes == 4096,
            res.insecure_skip_server_certificate_verification,
    {
        QuicRelayClientConfig {
            endpoint,
            api_key: api_key.to_owned(),
            server_name: DEFAULT_QUIC_SERVER_NAME.to_owned(),
            timeout: Duration::from_secs(DEFAULT_QUIC_TIMEOUT_SECS),
            max_response_bytes: DEFAULT_QUIC_MAX_RESPONSE_BYTES,
            insecure_skip_server_certificate_verification: true,
        }
    }

    /// The configuration with another server name.
    pub fn with_server_name(self, server_name: &str) -> (res: Self)
        ensures
            res.server_name@ == server_name@,
            res == (QuicRelayClientConfig { server_name: res.server_name, ..self }),
    {
        let mut config = self;
        config.server_name = server_name.to_owned();
        config
    }

    /// The configuration with another timeout.
    pub fn with_timeout(self, timeout: Duration) -> (res: Self)
        ensures
            res == (QuicRelayClientConfig { timeout, ..self }),
    {
        let mut config = self;
        config.timeout = timeout;
        config
    }

    /// Checks that the configuration names a key and a server.
    pub fn validate(&self) -> (res: Result<(), RelayClientError>)
        ensures
            res == self.config_check(),
    {
        if blank(self.api_key.as_str()) {
            return Err(RelayClientError::InvalidConfig("api_key is empty"));
        }
        if blank(self.server_name.as_str()) {
            return Err(RelayClientError::InvalidConfig("server_name is empty"));
        }
        Ok(())
    }

    /// The key that is sent: the configured one without the whitespace around it.
    pub fn credential(&self) -> (res: &str)
        ensures
            res@ == trimmed(self.api_key@),
            self.config_check() is Ok ==> res@.len() > 0,
    {
        proof {
            lemma_trimmed_empty(self.api_key@);
        }
        self.api_key.as_str().trim()
    }

    /// The name that is verified: the configured one without the whitespace around it.
    pub fn verified_name(&self) -> (res: &str)
        ensures
            res@ == trimmed(self.server_name@),
            self.config_check() is Ok ==> res@.len() > 0,
    {
        proof {
            lemma_trimmed_empty(self.server_name@);
        }
        self.server_name.as_str().trim()
    }

    /// What a connection that speaks `protocol` asks of TLS. Nothing is sent before the handshake
    /// ends.
    pub fn tls_settings(&self, protocol: QuicProtocol) -> (res: QuicTlsSettings)
        ensures
            res.alpn@ == protocol.alpn_name(),
            protocol == QuicProtocol::V1 ==> res.alpn@ == "rpcedge-submit-v1"@,
            protocol == QuicProtocol::V2 ==> res.alpn@ == "rpcedge-submit-v2"@,
            res.verify_server_certificate
                == !self.insecure_skip_server_certificate_verification,
            !res.early_data,
    {
        QuicTlsSettings {
            alpn: protocol.alpn(),
            verify_server_certificate: !self.insecure_skip_server_certificate_verification,
            early_data: false,
        }
    }
}

/// A step of a QUIC submission that can take too long.
#[derive(Debug, Clone, Copy, PartialEq, Eq, Structural)]
pub enum QuicStep {
    Connect,
    OpenStream,
    Write,
    Read,
}

/// The error of a step that failed for `reason`.
pub open spec fn step_error(step: QuicStep, reason: String) -> RelayClientError {
    match step {
        QuicStep::Connect => RelayClientError::QuicConnect(reason),
        QuicStep::OpenStream => RelayClientError::QuicOpenStream(reason),
        QuicStep::Write => RelayClientError::QuicWrite(reason),
        QuicStep::Read => RelayClientError::QuicRead(reason),
    }
}

impl QuicStep {
    /// The step in words.
    pub open spec fn name(self) -> Seq<char> {
        match self {
            QuicStep::Connect => "QUIC connect"@,
            QuicStep::OpenStream => "QUIC open stream"@,
            QuicStep::Write => "QUIC write"@,
            QuicStep::Read => "QUIC read"@,
        }
    }

    /// The error of a step that took too long.
    pub fn timed_out(self) -> (res: RelayClientError)
        ensures
            res matches RelayClientError::Timeout(step) && step@ == self.name(),
    {
        match self {
            QuicStep::Connect => RelayClientError::Timeout("QUIC connect"),
            QuicStep::OpenStream => RelayClientError::Timeout("QUIC open stream"),
            QuicStep::Write => RelayClientError::Timeout("QUIC write"),
            QuicStep::Read => RelayClientError::Timeout("QUIC read"),
        }
    }

    /// The error of a step that failed for `reason`.
    pub fn failed(self, reason: String) -> (res: RelayClientError)
        ensures
            res == step_error(self, reason),
    {
        match self {
            QuicStep::Connect => RelayClientError::QuicConnect(reason),
            QuicStep::OpenStream => RelayClientError::QuicOpenStream(reason),
            QuicStep::Write => RelayClientError::QuicWrite(reason),
            QuicStep::Read => RelayClientError::QuicRead(reason),
        }
    }
}

/// The version-one header of a raw transaction that goes over `route_set`.
pub open spec fn routed_header(
    route_set: RouteSet,
    request_id: Option<String>,
    response_mode: Option<ResponseMode>,
) -> QuicSubmitHeader {
    QuicSubmitHeader {
        version: VERSION,
        method: RelayMethod::SendTransaction,
        payload_kind: QuicPayloadKind::SingleRawTransaction,
        request_id,
        route_set,
        response_mode,
        signature: None,
    }
}

/// The version-two header of a raw transaction of `len` bytes that goes over `route_set`.
pub open spec fn routed_header_v2(
    version: TransactionVersion,
    len: nat,
    route_set: RouteSet,
    request_id: Option<String>,
    response_mode: Option<ResponseMode>,
) -> QuicSubmitHeaderV2 {
    QuicSubmitHeaderV2 {
        version: VERSION_V2,
        method: RelayMethod::SendTransaction,
        payload_kind: QuicPayloadKind::SingleRawTransaction,
        transaction_version: version,
        raw_transaction_length: if len <= u32::MAX {
            len as u32
        } else {
            u32::MAX
        },
        request_id,
        route_set,
        response_mode,
        signature: None,
    }
}

/// The line that names the API key, before a frame.
pub open spec fn api_key_line(api_key: Seq<char>) -> Seq<u8> {
    encode_utf8("api-key: "@) + encode_utf8(api_key) + seq![10u8]
}

/// A frame with the line that names the API key before it, where there is a frame.
pub open spec fn keyed(api_key: Seq<char>, frame: Result<Seq<u8>, ProtocolError>) -> Result<
    Seq<u8>,
    ProtocolError,
> {
    match frame {
        Ok(bytes) => Ok(api_key_line(api_key) + bytes),
        Err(error) => Err(error),
    }
}

/// The version-one header of a raw transaction that goes over `route_set`.
pub fn routed_quic_header(
    route_set: RouteSet,
    request_id: Option<String>,
    response_mode: Option<ResponseMode>,
) -> (res: QuicSubmitHeader)
    ensures
        res == routed_header(route_set, request_id, response_mode),
        res.version == 1,
        res.method == RelayMethod::SendTransaction,
        res.payload_kind == QuicPayloadKind::SingleRawTransaction,
        res.request_id == request_id,
        res.route_set == route_set,
        res.response_mode == response_mode,
        res.signature is None,
{
    QuicSubmitHeader {
        version: VERSION,
        method: RelayMethod::SendTransaction,
        payload_kind: QuicPayloadKind::SingleRawTransaction,
        request_id,
        route_set,
        response_mode,
        signature: None,
    }
}

/// The version-two header of a raw transaction that goes over `route_set`.
pub fn routed_quic_header_v2(
    version: TransactionVersion,
    transaction: &[u8],
    route_set: RouteSet,
    request_id: Option<String>,
    response_mode: Option<ResponseMode>,
) -> (res: QuicSubmitHeaderV2)
    ensures
        res == routed_header_v2(version, transaction@.len(), route_set, request_id, response_mode),
        res.version == 2,
        res.method == RelayMethod::SendTransaction,
        res.payload_kind == QuicPayloadKind::SingleRawTransaction,
        res.transaction_version == version,
        transaction@.len() <= u32::MAX ==> res.raw_transaction_length == transaction@.len(),
        res.request_id == request_id,
        res.route_set == route_set,
        res.response_mode == response_mode,
        res.signature is None,
{
    let len: usize = transaction.len();
    let raw_transaction_length: u32 = if len <= u32::MAX as usize {
        len as u32
    } else {
        u32::MAX
    };
    QuicSubmitHeaderV2 {
        version: VERSION_V2,
        method: RelayMethod::SendTransaction,
        payload_kind: QuicPayloadKind::SingleRawTransaction,
        transaction_version: version,
        raw_transaction_length,
        request_id,
        route_set,
        response_mode,
        signature: None,
    }
}

/// Puts the line that names the API key before a frame.
pub fn with_api_key_line(api_key: &str, frame: Result<Vec<u8>, ProtocolError>) -> (res: Result<
    Vec<u8>,
    ProtocolError,
>)
    ensures
        frame_view(res) == keyed(api_key@, frame_view(frame)),
{
    match frame {
        Ok(bytes) => {
            let mut out: Vec<u8> = Vec::new();
            push_bytes(&mut out, "api-key: ".as_bytes());
            push_bytes(&mut out, api_key.as_bytes());
            out.push(10u8);
            push_bytes(&mut out, bytes.as_slice());
            assert(out@ =~= api_key_line(api_key@) + bytes@);
            Ok(out)
        },
        Err(error) => Err(error),
    }
}

/// The bytes that submit one raw transaction: the API key line, then a frame whose header has
/// the JSON form that `to_json` gives it.
pub fn encode_routed_quic_frame<F>(
    api_key: &str,
    transaction: &[u8],
    route_set: RouteSet,
    request_id: Option<String>,
    to_json: F,
) -> (res: Result<Vec<u8>, ProtocolError>) where
    F: Fn(&QuicSubmitHeader) -> Result<Vec<u8>, String>,

    requires
        call_requires(to_json, (&routed_header(route_set, request_id, None),)),
    ensures
        exists|json: Result<Vec<u8>, String>|
            #![trigger call_ensures(to_json, (&routed_header(route_set, request_id, None),), json)]
            call_ensures(to_json, (&routed_header(route_set, request_id, None),), json) && frame_view(res)
                == keyed(
                api_key@,
                encode_outcome(routed_header(route_set, request_id, None), json, transaction@),
            ),
{
    let header = routed_quic_header(route_set, request_id, None);
    let json = to_json(&header);
    with_api_key_line(api_key, frame_serialized(&header, json, transaction))
}

/// The bytes that submit one raw transaction of format `version`: the API key line, then a frame
/// of the oldest protocol version that carries the format, whose header has the JSON form that
/// `to_json` or `to_json_v2` gives it.
pub fn encode_versioned_quic_frame<F, G>(
    api_key: &str,
    transaction: &[u8],
    version: TransactionVersion,
    route_set: RouteSet,
    request_id: Option<String>,
    response_mode: Option<ResponseMode>,
    to_json: F,
    to_json_v2: G,
) -> (res: Result<Vec<u8>, ProtocolError>) where
    F: Fn(&QuicSubmitHeader) -> Result<Vec<u8>, String>,
    G: Fn(&QuicSubmitHeaderV2) -> Result<Vec<u8>, String>,

    requires
        forall|header: &QuicSubmitHeader| call_requires(to_json, (header,)),
        forall|header: &QuicSubmitHeaderV2| call_requires(to_json_v2, (header,)),
    ensures
        QuicProtocol::oldest_for(version) == QuicProtocol::V1 ==> ({
            let header = routed_header(route_set, request_id, response_mode);
            exists|json: Result<Vec<u8>, String>|
                #![trigger call_ensures(to_json, (&header,), json)]
                call_ensures(to_json, (&header,), json) && frame_view(res) == keyed(
                    api_key@,
                    encode_outcome(header, json, transaction@),
                )
        }),
        QuicProtocol::oldest_for(version) == QuicProtocol::V2 ==> ({
            let header = routed_header_v2(
                version,
                transaction@.len(),
                route_set,
                request_id,
                response_mode,
            );
            exists|json: Result<Vec<u8>, String>|
                #![trigger call_ensures(to_json_v2, (&header,), json)]
                call_ensures(to_json_v2, (&header,), json) && frame_view(res) == keyed(
                    api_key@,
                    encode_outcome_v2(header, json, transaction@),
                )
        }),
{
    match QuicProtocol::carrying(version) {
        QuicProtocol::V1 => {
            let header = routed_quic_header(route_set, request_id, response_mode);
            let json = to_json(&header);
            with_api_key_line(api_key, frame_serialized(&header, json, transaction))
        },
        QuicProtocol::V2 => {
            let header = routed_quic_header_v2(
                version,
                transaction,
                route_set,
                request_id,
                response_mode,
            );
            let json = to_json_v2(&header);
            with_api_key_line(api_key, frame_serialized_v2(&header, json, transaction))
        },
    }
}

/// The text of `bytes` with every malformed part replaced.
pub uninterp spec fn utf8_lossy_text(bytes: Seq<u8>) -> Seq<char>;

/// `String::from_utf8_lossy`, as an owned string. The text is a function of the bytes alone,
/// and where the bytes are well-formed UTF-8 it is what they encode.
#[verifier::external_body]
fn utf8_lossy(bytes: &[u8]) -> (res: String)
    ensures
        res@ == utf8_lossy_text(bytes@),
        valid_utf8(bytes@) ==> res@ == decode_utf8(bytes@),
{
    String::from_utf8_lossy(bytes).into_owned()
}

/// Whether an answer is an error line.
pub open spec fn is_error_line(response: Seq<u8>) -> bool {
    encode_utf8("error:"@).is_prefix_of(response)
}

/// Whether `prefix` starts `bytes`.
pub fn starts_with_bytes(bytes: &[u8], prefix: &[u8]) -> (res: bool)
    ensures
        res == prefix@.is_prefix_of(bytes@),
{
    if bytes.len() < prefix.len() {
        return false;
    }
    let mut i: usize = 0;
    while i < prefix.len()
        invariant
            i <= prefix@.len() <= bytes@.len(),
            forall|j: int| 0 <= j < i ==> prefix@[j] == bytes@[j],
        decreases prefix@.len() - i,
    {
        if bytes[i] != prefix[i] {
            assert(bytes@.subrange(0, prefix@.len() as int)[i as int] != prefix@[i as int]);
            return false;
        }
        i = i + 1;
    }
    assert(prefix@ =~= bytes@.subrange(0, prefix@.len() as int));
    true
}

/// The error that an error line reports, given the text of the line.
pub fn quic_status(line: &str) -> (res: RelayClientError)
    ensures
        res matches RelayClientError::QuicStatus(body) && body@ == trimmed(line@),
{
    RelayClientError::QuicStatus(line.trim().to_owned())
}

/// What an answer that reads as `parsed` is taken as.
pub open spec fn answer_outcome(
    parsed: Result<SubmitResponse, String>,
    res: Result<SubmitResponse, RelayClientError>,
) -> bool {
    match parsed {
        Ok(response) => res matches Ok(r) && r == response,
        Err(reason) => res matches Err(RelayClientError::Json(r)) && r == reason,
    }
}

/// Takes the JSON of an answer, where it reads as `parsed`.
pub fn accept_answer(parsed: Result<SubmitResponse, String>) -> (res: Result<
    SubmitResponse,
    RelayClientError,
>)
    ensures
        answer_outcome(parsed, res),
        match parsed {
            Ok(response) => res is Ok && res->Ok_0.accepted == response.accepted
                && res->Ok_0.request_id == response.request_id && res->Ok_0.signature
                == response.signature,
            Err(reason) => res is Err && res->Err_0 == RelayClientError::Json(reason),
        },
{
    match parsed {
        Ok(response) => Ok(response),
        Err(reason) => Err(RelayClientError::Json(reason)),
    }
}

/// Takes the relay's answer: an error line, or JSON that `from_json` reads.
pub fn parse_quic_response<F>(response: &[u8], from_json: F) -> (res: Result<
    SubmitResponse,
    RelayClientError,
>) where F: Fn(&[u8]) -> Result<SubmitResponse, String>
    requires
        call_requires(from_json, (response,)),
    ensures
        is_error_line(response@) ==> (res matches Err(RelayClientError::QuicStatus(body)) && body@
            == trimmed(utf8_lossy_text(response@))),
        is_error_line(response@) && valid_utf8(response@) ==> (res matches Err(
            RelayClientError::QuicStatus(body),
        ) && body@ == trimmed(decode_utf8(response@))),
        !is_error_line(response@) ==> exists|parsed: Result<SubmitResponse, String>|
            #![trigger call_ensures(from_json, (response,), parsed)]
            call_ensures(from_json, (response,), parsed) && answer_outcome(parsed, res),
        res is Ok ==> !is_error_line(response@) && call_ensures(
            from_json,
            (response,),
            Ok::<SubmitResponse, String>(res->Ok_0),
        ),
        !is_error_line(response@) && res is Err ==> res->Err_0 is Json && call_ensures(
            from_json,
            (response,),
            Err::<SubmitResponse, String>(res->Err_0->Json_0),
        ),
{
    if starts_with_bytes(response, "error:".as_bytes()) {
        return Err(quic_status(utf8_lossy(response).as_str()));
    }
    accept_answer(from_json(response))
}

/// How an exchange over a QUIC stream ended.
#[derive(Debug)]
pub enum QuicReply {
    /// A step took too long.
    TimedOut(QuicStep),
    /// A step failed, for this reason.
    Failed(QuicStep, String),
    /// The sending side could not be finished, for this reason.
    Unfinished(String),
    /// The relay answered with these bytes.
    Answered(Vec<u8>),
}

/// Takes the relay's reply to a submission: its answer, or the error of the step that failed.
pub fn settle_quic_reply<F>(reply: QuicReply, from_json: F) -> (res: Result<
    SubmitResponse,
    RelayClientError,
>) where F: Fn(&[u8]) -> Result<SubmitResponse, String>
    requires
        forall|json: &[u8]| call_requires(from_json, (json,)),
    ensures
        match reply {
            QuicReply::TimedOut(step) => res matches Err(RelayClientError::Timeout(name)) && name@
                == step.name(),
            QuicReply::Failed(step, reason) => res matches Err(error) && error == step_error(
                step,
                reason,
            ),
            QuicReply::Unfinished(reason) => res matches Err(RelayClientError::QuicFinish(r)) && r
                == reason,
            QuicReply::Answered(bytes) => if is_error_line(bytes@) {
                res matches Err(RelayClientError::QuicStatus(body)) && body@ == trimmed(
                    utf8_lossy_text(bytes@),
                ) && (valid_utf8(bytes@) ==> body@ == trimmed(decode_utf8(bytes@)))
            } else {
                exists|json: &[u8], parsed: Result<SubmitResponse, String>|
                    #![trigger call_ensures(from_json, (json,), parsed)]
                    json@ == bytes@ && call_ensures(from_json, (json,), parsed) && answer_outcome(
                        parsed,
                        res,
                    )
            },
        },
        res is Ok ==> reply is Answered && !is_error_line(reply->Answered_0@) && exists|json: &[u8]|
            #![trigger call_ensures(from_json, (json,), Ok::<SubmitResponse, String>(res->Ok_0))]
            json@ == reply->Answered_0@ && call_ensures(
                from_json,
                (json,),
                Ok::<SubmitResponse, String>(res->Ok_0),
            ),
        reply is Answered && !is_error_line(reply->Answered_0@) && res is Err ==> res->Err_0 is Json
            && exists|json: &[u8]|
            #![trigger call_ensures(from_json, (json,), Err::<SubmitResponse, String>(res->Err_0->Json_0))]
            json@ == reply->Answered_0@ && call_ensures(
                from_json,
                (json,),
                Err::<SubmitResponse, String>(res->Err_0->Json_0),
            ),
{
    match reply {
        QuicReply::TimedOut(step) => Err(step.timed_out()),
        QuicReply::Failed(step, reason) => Err(step.failed(reason)),
        QuicReply::Unfinished(reason) => Err(RelayClientError::QuicFinish(reason)),
        QuicReply::Answered(bytes) => parse_quic_response(bytes.as_slice(), from_json),
    }
}

/// A client that submits to one relay over a QUIC connection.
#[derive(Debug)]
pub struct QuicRelayClient<A> {
    config: QuicRelayClientConfig<A>,
}

impl<A: Copy> Clone for QuicRelayClient<A> {
    fn clone(&self) -> (res: Self)
        ensures
            res == *self,
    {
        proof {
            use_type_invariant(self);
        }
        QuicRelayClient { config: self.config.clone() }
    }
}

/// Whether `header` is the version-one header of a raw transaction that goes over the routes that
/// `mode` and `routes` ask for.
pub open spec fn is_routed(
    header: QuicSubmitHeader,
    mode: RouteSetMode,
    routes: Seq<RelayRoute>,
    request_id: Option<String>,
) -> bool {
    &&& header == routed_header(header.route_set, request_id, None)
    &&& header.route_set.mode == mode
    &&& header.route_set.routes@ == routes
}

/// Whether `res` hands out what framing gave.
pub open spec fn hands_out(
    res: Result<Vec<u8>, RelayClientError>,
    frame: Result<Seq<u8>, ProtocolError>,
) -> bool {
    match frame {
        Ok(bytes) => res matches Ok(out) && out@ == bytes,
        Err(error) => res matches Err(RelayClientError::Protocol(e)) && e == error,
    }
}

impl<A> QuicRelayClient<A> {
    /// The configuration that the client was made with.
    pub closed spec fn configured(self) -> QuicRelayClientConfig<A> {
        self.config
    }

    #[verifier::type_invariant]
    spec fn usable(self) -> bool {
        self.config.config_check() is Ok
    }

    /// Whether `res` is what the client writes for a raw transaction, where `to_json` gives the
    /// header its JSON form. The key that it names is never empty.
    pub open spec fn writes<F: Fn(&QuicSubmitHeader) -> Result<Vec<u8>, String>>(
        self,
        to_json: F,
        transaction: Seq<u8>,
        mode: RouteSetMode,
        routes: Seq<RelayRoute>,
        request_id: Option<String>,
        res: Result<Vec<u8>, RelayClientError>,
    ) -> bool {
        &&& trimmed(self.configured().api_key@).len() > 0
        &&& exists|header: &QuicSubmitHeader, json: Result<Vec<u8>, String>|
            #![trigger call_ensures(to_json, (header,), json)]
            call_ensures(to_json, (header,), json) && is_routed(*header, mode, routes, request_id)
                && hands_out(
                res,
                keyed(
                    trimmed(self.configured().api_key@),
                    encode_outcome(*header, json, transaction),
                ),
            )
    }

    /// A client for `config`, which must name a key and a server.
    pub fn new(config: QuicRelayClientConfig<A>) -> (res: Result<Self, RelayClientError>)
        ensures
            match config.config_check() {
                Ok(_) => res matches Ok(client) && client.configured() == config,
                Err(error) => res matches Err(e) && e == error,
            },
    {
        match config.validate() {
            Ok(_) => Ok(QuicRelayClient { config }),
            Err(error) => Err(error),
        }
    }

    /// The configuration of the client, which names a key and a server.
    pub fn config(&self) -> (res: &QuicRelayClientConfig<A>)
        ensures
            *res == self.configured(),
            res.config_check() is Ok,
    {
        proof {
            use_type_invariant(self);
        }
        &self.config
    }

    /// The bytes that submit a raw transaction over the server's own choice of routes.
    pub fn send_transaction_raw_bytes<F>(&self, transaction: &[u8], to_json: F) -> (res: Result<
        Vec<u8>,
        RelayClientError,
    >) where F: Fn(&QuicSubmitHeader) -> Result<Vec<u8>, String>
        requires
            forall|header: &QuicSubmitHeader| call_requires(to_json, (header,)),
        ensures
            self.writes(
                to_json,
                transaction@,
                RouteSetMode::ServerDefault,
                Seq::empty(),
                None,
                res,
            ),
    {
        self.send_transaction_raw_bytes_with_route_set(
            transaction,
            RouteSet::server_default(),
            to_json,
        )
    }

    /// The bytes that submit a raw transaction over `route_set`.
    pub fn send_transaction_raw_bytes_with_route_set<F>(
        &self,
        transaction: &[u8],
        route_set: RouteSet,
        to_json: F,
    ) -> (res: Result<Vec<u8>, RelayClientError>) where
        F: Fn(&QuicSubmitHeader) -> Result<Vec<u8>, String>,

        requires
            forall|header: &QuicSubmitHeader| call_requires(to_json, (header,)),
        ensures
            self.writes(to_json, transaction@, route_set.mode, route_set.routes@, None, res),
    {
        self.send_transaction_raw_bytes_with_request_id(transaction, route_set, None, to_json)
    }

    /// The bytes that submit a raw transaction over `route_set`, under a request's name.
    pub fn send_transaction_raw_bytes_with_request_id<F>(
        &self,
        transaction: &[u8],
        route_set: RouteSet,
        request_id: Option<String>,
        to_json: F,
    ) -> (res: Result<Vec<u8>, RelayClientError>) where
        F: Fn(&QuicSubmitHeader) -> Result<Vec<u8>, String>,

        requires
            forall|header: &QuicSubmitHeader| call_requires(to_json, (header,)),
        ensures
            self.writes(to_json, transaction@, route_set.mode, route_set.routes@, request_id, res),
    {
        proof {
            use_type_invariant(self);
            lemma_trimmed_empty(self.config.api_key@);
        }
        match encode_routed_quic_frame(
            self.config.credential(),
            transaction,
            route_set,
            request_id,
            to_json,
        ) {
            Ok(bytes) => Ok(bytes),
            Err(error) => Err(RelayClientError::Protocol(error)),
        }
    }

    /// The bytes that submit the raw transaction that a base64 text carries, over the server's
    /// own choice of routes.
    pub fn send_transaction_raw_base64<F>(&self, transaction_base64: &str, to_json: F) -> (res:
        Result<Vec<u8>, RelayClientError>) where
        F: Fn(&QuicSubmitHeader) -> Result<Vec<u8>, String>,

        requires
            forall|header: &QuicSubmitHeader| call_requires(to_json, (header,)),
        ensures
            match base64_decoding(transaction_base64@) {
                Ok(raw) => self.writes(
                    to_json,
                    raw,
                    RouteSetMode::ServerDefault,
                    Seq::empty(),
                    None,
                    res,
                ),
                Err(error) => res matches Err(RelayClientError::Protocol(ProtocolError::Base64(e)))
                    && e == error,
            },
    {
        self.send_transaction_raw_base64_with_route_set(
            transaction_base64,
            RouteSet::server_default(),
            to_json,
        )
    }

    /// The bytes that submit the raw transaction that a base64 text carries, over `route_set`.
    pub fn send_transaction_raw_base64_with_route_set<F>(
        &self,
        transaction_base64: &str,
        route_set: RouteSet,
        to_json: F,
    ) -> (res: Result<Vec<u8>, RelayClientError>) where
        F: Fn(&QuicSubmitHeader) -> Result<Vec<u8>, String>,

        requires
            forall|header: &QuicSubmitHeader| call_requires(to_json, (header,)),
        ensures
            match base64_decoding(transaction_base64@) {
                Ok(raw) => self.writes(
                    to_json,
                    raw,
                    route_set.mode,
                    route_set.routes@,
                    None,
                    res,
                ),
                Err(error) => res matches Err(RelayClientError::Protocol(ProtocolError::Base64(e)))
                    && e == error,
            },
    {
        match decode_transaction_base64(transaction_base64) {
            Ok(transaction) => self.send_transaction_raw_bytes_with_route_set(
                transaction.as_slice(),
                route_set,
                to_json,
            ),
            Err(error) => Err(RelayClientError::Protocol(error)),
        }
    }
}

/// The two protocols agree on different names, and the header of a submission names the version
/// of the protocol whose name its connection agreed on.
pub proof fn lemma_protocols_are_told_apart(
    route_set: RouteSet,
    request_id: Option<String>,
    response_mode: Option<ResponseMode>,
    version: TransactionVersion,
    len: nat,
)
    ensures
        QuicProtocol::V1.alpn_name() != QuicProtocol::V2.alpn_name(),
        routed_header(route_set, request_id, response_mode).version == QuicProtocol::V1.version(),
        routed_header_v2(version, len, route_set, request_id, response_mode).version
            == QuicProtocol::V2.version(),
{
    reveal_strlit("rpcedge-submit-v1");
    reveal_strlit("rpcedge-submit-v2");
    assert(QuicProtocol::V1.alpn_name()[16] != QuicProtocol::V2.alpn_name()[16]);
}

proof fn lemma_key_label()
    ensures
        encode_utf8("api-key: "@).len() == 9,
        forall|i: int| 0 <= i < 9 ==> #[trigger] encode_utf8("api-key: "@)[i] != 10,
{
    reveal_strlit("api-key: ");
    vstd::utf8::is_ascii_chars_encode_utf8("api-key: "@);
}

/// The key line can be taken off again: where the key holds no line feed, the first line feed
/// ends the key line, and what follows it is the frame.
pub proof fn lemma_key_line_is_recoverable(api_key: Seq<char>, frame: Seq<u8>)
    requires
        !encode_utf8(api_key).contains(10u8),
    ensures
        ({
            let key = encode_utf8(api_key);
            let end = 9 + key.len() as int;
            let bytes = api_key_line(api_key) + frame;
            &&& forall|i: int| 0 <= i < end ==> #[trigger] bytes[i] != 10
            &&& bytes[end] == 10
            &&& bytes.subrange(9, end) == key
            &&& bytes.skip(end + 1) == frame
        }),
{
    lemma_key_label();
    let key = encode_utf8(api_key);
    let end = 9 + key.len() as int;
    let bytes = api_key_line(api_key) + frame;
    assert forall|i: int| 0 <= i < end implies #[trigger] bytes[i] != 10 by {
        if i >= 9 {
            assert(bytes[i] == key[i - 9]);
        } else {
            assert(bytes[i] == encode_utf8("api-key: "@)[i]);
        }
    }
    assert(bytes.subrange(9, end) =~= key);
    assert(bytes.skip(end + 1) =~= frame);
}

/// A configuration is refused exactly where its key, or else its server name, is nothing but
/// whitespace.
pub proof fn lemma_which_quic_configurations_are_usable<A>(config: QuicRelayClientConfig<A>)
    ensures
        trimmed(config.api_key@).len() == 0 ==> config.config_check() == Err::<
            (),
            RelayClientError,
        >(RelayClientError::InvalidConfig("api_key is empty")),
        trimmed(config.api_key@).len() > 0 && trimmed(config.server_name@).len() == 0
            ==> config.config_check() == Err::<(), RelayClientError>(
            RelayClientError::InvalidConfig("server_name is empty"),
        ),
        trimmed(config.api_key@).len() > 0 && trimmed(config.server_name@).len() > 0
            ==> config.config_check() is Ok,
{
    lemma_trimmed_empty(config.api_key@);
    lemma_trimmed_empty(config.server_name@);
}

/// Which protocol carries which format: version two only the format that version one does not.
pub proof fn lemma_protocol_of_a_format(version: TransactionVersion)
    ensures
        QuicProtocol::oldest_for(version) == QuicProtocol::V2 <==> version
            == TransactionVersion::V1,
        QuicProtocol::oldest_for(version) == QuicProtocol::V1 <==> version
            != TransactionVersion::V1,
        QuicProtocol::V1.version() == 1 && QuicProtocol::V2.version() == 2,
        QuicProtocol::V1.alpn_name() == "rpcedge-submit-v1"@,
        QuicProtocol::V2.alpn_name() == "rpcedge-submit-v2"@,
{
}

/// A step that failed is told as the failure of that very step, with its own reason.
pub proof fn lemma_failed_steps_are_told_apart(step: QuicStep, reason: String)
    ensures
        step == QuicStep::Connect ==> step_error(step, reason) == RelayClientError::QuicConnect(
            reason,
        ) && step.name() == "QUIC connect"@,
        step == QuicStep::OpenStream ==> step_error(step, reason)
            == RelayClientError::QuicOpenStream(reason) && step.name() == "QUIC open stream"@,
        step == QuicStep::Write ==> step_error(step, reason) == RelayClientError::QuicWrite(reason)
            && step.name() == "QUIC write"@,
        step == QuicStep::Read ==> step_error(step, reason) == RelayClientError::QuicRead(reason)
            && step.name() == "QUIC read"@,
{
}

/// The version-one header of a submission holds what it was asked to hold, whatever that is.
pub proof fn lemma_routed_header_holds(
    route_set: RouteSet,
    request_id: Option<String>,
    response_mode: Option<ResponseMode>,
)
    ensures
        ({
            let header = routed_header(route_set, request_id, response_mode);
            &&& header.version == 1
            &&& header.method == RelayMethod::SendTransaction
            &&& header.payload_kind == QuicPayloadKind::SingleRawTransaction
            &&& header.request_id == request_id
            &&& header.route_set == route_set
            &&& header.response_mode == response_mode
            &&& header.signature is None
        }),
{
}

/// The version-two header of a submission holds what it was asked to hold, and declares the
/// format and the length of the transaction.
pub proof fn lemma_routed_header_v2_holds(
    version: TransactionVersion,
    len: nat,
    route_set: RouteSet,
    request_id: Option<String>,
    response_mode: Option<ResponseMode>,
)
    ensures
        ({
            let header = routed_header_v2(version, len, route_set, request_id, response_mode);
            &&& header.version == 2
            &&& header.method == RelayMethod::SendTransaction
            &&& header.payload_kind == QuicPayloadKind::SingleRawTransaction
            &&& header.transaction_version == version
            &&& len <= u32::MAX ==> header.raw_transaction_length == len
            &&& len > u32::MAX ==> header.raw_transaction_length == u32::MAX
            &&& header.request_id == request_id
            &&& header.route_set == route_set
            &&& header.response_mode == response_mode
            &&& header.signature is None
        }),
{
}

/// A frame that is sent stands, unchanged, behind a line that names the key; what was refused is
/// refused for the same reason, whatever the key is.
pub proof fn lemma_key_line_stands_before_the_frame(
    api_key: Seq<char>,
    frame: Result<Seq<u8>, ProtocolError>,
)
    ensures
        match frame {
            Err(error) => keyed(api_key, frame) == Err::<Seq<u8>, ProtocolError>(error),
            Ok(bytes) => {
                let end = 9 + encode_utf8(api_key).len() as int;
                &&& keyed(api_key, frame) is Ok
                &&& keyed(api_key, frame)->Ok_0.len() == end + 1 + bytes.len()
                &&& keyed(api_key, frame)->Ok_0.take(9) == encode_utf8("api-key: "@)
                &&& keyed(api_key, frame)->Ok_0.subrange(9, end) == encode_utf8(api_key)
                &&& keyed(api_key, frame)->Ok_0[end] == 10
                &&& keyed(api_key, frame)->Ok_0.skip(end + 1) == bytes
            },
        },
{
    lemma_key_label();
    if let Ok(bytes) = frame {
        let end = 9 + encode_utf8(api_key).len() as int;
        let out = keyed(api_key, frame)->Ok_0;
        assert(out.take(9) =~= encode_utf8("api-key: "@));
        assert(out.subrange(9, end) =~= encode_utf8(api_key));
        assert(out.skip(end + 1) =~= bytes);
    }
}

/// An answer is an error line exactly where its first six bytes spell `error:`.
pub proof fn lemma_what_an_error_line_is(response: Seq<u8>)
    ensures
        is_error_line(response) <==> response.len() >= 6 && response[0] == 101 && response[1] == 114
            && response[2] == 114 && response[3] == 111 && response[4] == 114 && response[5] == 58,
{
    reveal_strlit("error:");
    vstd::utf8::is_ascii_chars_encode_utf8("error:"@);
    let prefix = encode_utf8("error:"@);
    assert(prefix =~= seq![101u8, 114, 114, 111, 114, 58]);
    if response.len() >= 6 {
        let start = response.subrange(0, 6);
        assert(start[0] == response[0] && start[1] == response[1] && start[2] == response[2]
            && start[3] == response[3] && start[4] == response[4] && start[5] == response[5]);
        if response[0] == 101 && response[1] == 114 && response[2] == 114 && response[3] == 111
            && response[4] == 114 && response[5] == 58 {
            assert(prefix =~= start);
        }
    }
}

/// An answer is handed out as it reads: every field of it is the relay's own, so that a submission
/// counts as accepted only where the relay's answer says so. One that does not read is told as bad
/// JSON for the reader's own reason.
pub proof fn lemma_answers_are_handed_out_as_read(
    parsed: Result<SubmitResponse, String>,
    res: Result<SubmitResponse, RelayClientError>,
)
    requires
        answer_outcome(parsed, res),
    ensures
        parsed is Ok <==> res is Ok,
        parsed is Ok ==> {
            &&& res->Ok_0.accepted == parsed->Ok_0.accepted
            &&& res->Ok_0.request_id@ == parsed->Ok_0.request_id@
            &&& res->Ok_0.signature@ == parsed->Ok_0.signature@
            &&& res->Ok_0 == parsed->Ok_0
        },
        parsed is Err ==> res->Err_0 == RelayClientError::Json(parsed->Err_0),
{
}

/// What a client writes for a raw transaction: the line that names its trimmed key, then a frame
/// with the JSON form of a header that holds the routes and the request's name, and with the
/// transaction.
pub proof fn lemma_what_a_client_writes<A, F: Fn(&QuicSubmitHeader) -> Result<Vec<u8>, String>>(
    client: QuicRelayClient<A>,
    to_json: F,
    transaction: Seq<u8>,
    mode: RouteSetMode,
    routes: Seq<RelayRoute>,
    request_id: Option<String>,
    res: Result<Vec<u8>, RelayClientError>,
)
    requires
        client.writes(to_json, transaction, mode, routes, request_id, res),
        res is Ok,
    ensures
        transaction.len() <= 1232,
        trimmed(client.configured().api_key@).len() > 0,
        exists|header: &QuicSubmitHeader, json: Vec<u8>|
            #![trigger call_ensures(to_json, (header,), Ok::<Vec<u8>, String>(json))]
            {
                let key = encode_utf8(trimmed(client.configured().api_key@));
                let out = res->Ok_0@;
                let frame = out.skip(10 + key.len() as int);
                &&& call_ensures(to_json, (header,), Ok::<Vec<u8>, String>(json))
                &&& header.version == 1
                &&& header.method == RelayMethod::SendTransaction
                &&& header.payload_kind == QuicPayloadKind::SingleRawTransaction
                &&& header.request_id == request_id
                &&& header.route_set.mode == mode
                &&& header.route_set.routes@ == routes
                &&& header.response_mode is None
                &&& header.signature is None
                &&& out.take(9) == encode_utf8("api-key: "@)
                &&& out.subrange(9, 9 + key.len() as int) == key
                &&& out[9 + key.len() as int] == 10
                &&& frame.len() == 4 + json@.len() + transaction.len()
                &&& frame[0] * 0x100_0000 + frame[1] * 0x1_0000 + frame[2] * 0x100 + frame[3]
                    == json@.len()
                &&& frame.subrange(4, 4 + json@.len() as int) == json@
                &&& frame.skip(4 + json@.len() as int) == transaction
            },
{
    let (header, json) = choose|header: &QuicSubmitHeader, json: Result<Vec<u8>, String>|
        #![trigger call_ensures(to_json, (header,), json)]
        call_ensures(to_json, (header,), json) && is_routed(*header, mode, routes, request_id)
            && hands_out(
            res,
            keyed(
                trimmed(client.configured().api_key@),
                encode_outcome(*header, json, transaction),
            ),
        );
    lemma_framing_verdict(*header, json, transaction);
    lemma_key_line_stands_before_the_frame(
        trimmed(client.configured().api_key@),
        encode_outcome(*header, json, transaction),
    );
    assert(json is Ok);
    assert(call_ensures(to_json, (header,), Ok::<Vec<u8>, String>(json->Ok_0)));
}

/// Where a client writes nothing, it is for a reason of the protocol: its codec gives the header no
/// JSON form, or too large a one, or the transaction is above the ceiling.
pub proof fn lemma_why_a_client_writes_nothing<
    A,
    F: Fn(&QuicSubmitHeader) -> Result<Vec<u8>, String>,
>(
    client: QuicRelayClient<A>,
    to_json: F,
    transaction: Seq<u8>,
    mode: RouteSetMode,
    routes: Seq<RelayRoute>,
    request_id: Option<String>,
    res: Result<Vec<u8>, RelayClientError>,
)
    requires
        client.writes(to_json, transaction, mode, routes, request_id, res),
        res is Err,
    ensures
        res->Err_0 is Protocol,
        exists|header: &QuicSubmitHeader, json: Result<Vec<u8>, String>|
            #![trigger call_ensures(to_json, (header,), json)]
            {
                &&& call_ensures(to_json, (header,), json)
                &&& header.request_id == request_id
                &&& header.route_set.mode == mode
                &&& header.route_set.routes@ == routes
                &&& match json {
                    Err(reason) => res->Err_0->Protocol_0 == ProtocolError::Json(reason),
                    Ok(bytes) => if bytes@.len() > 4096 {
                        res->Err_0->Protocol_0 == ProtocolError::HeaderTooLarge {
                            actual: bytes@.len() as usize,
                            max: 4096,
                        }
                    } else {
                        transaction.len() > 1232 && res->Err_0->Protocol_0
                            == ProtocolError::TransactionTooLarge {
                            actual: transaction.len() as usize,
                            max: 1232,
                        }
                    },
                }
            },
{
    let (header, json) = choose|header: &QuicSubmitHeader, json: Result<Vec<u8>, String>|
        #![trigger call_ensures(to_json, (header,), json)]
        call_ensures(to_json, (header,), json) && is_routed(*header, mode, routes, request_id)
            && hands_out(
            res,
            keyed(
                trimmed(client.configured().api_key@),
                encode_outcome(*header, json, transaction),
            ),
        );
    lemma_framing_verdict(*header, json, transaction);
    lemma_key_line_stands_before_the_frame(
        trimmed(client.configured().api_key@),
        encode_outcome(*header, json, transaction),
    );
    assert(call_ensures(to_json, (header,), json));
}

} // verus!
