//! Submission over QUIC with HTTP to fall back on: which transport is tried, when, and what the
//! caller is told.
use crate::attempt::{
    failure_kind, http_error_kind, map_attempt_error, quic_error_kind, AttemptKind, FailureKind,
    RelayAttemptError, RelayTransport, TransportAttemptError,
};
use crate::client_error::RelayClientError;
use crate::error::ProtocolError;
use crate::frame::{
    encode_outcome, encode_outcome_v2, frame_view, QuicPayloadKind, QuicSubmitHeader,
    QuicSubmitHeaderV2,
};
use crate::http::SubmitResponse;
use crate::quic::{
    encode_versioned_quic_frame, keyed, routed_header, routed_header_v2, QuicProtocol,
};
use crate::request::{RelayMethod, ResponseMode, SubmitRequest, TransactionEncoding, VERSION};
use crate::routes::RouteSet;
use crate::transaction::{
    base64_decoding, base64_len, base64_text, decoded, encode_transaction_base64,
    TransactionVersion,
};
use vstd::prelude::*;

verus! {

/// Why a submission went over HTTP.
#[derive(Debug, Clone, Copy, PartialEq, Eq, Structural)]
pub enum RelayFallbackReason {
    QuicDisconnected,
    QuicOpenFailed,
    QuicResponseAmbiguous,
}

/// How to choose between the transports.
#[derive(Debug, Clone, Copy, PartialEq, Eq, Structural)]
pub struct AdaptiveRelayClientConfig {
    /// Whether a request may be sent again over HTTP where QUIC left open if it was taken.
    pub retry_ambiguous_with_idempotency: bool,
}

impl Default for AdaptiveRelayClientConfig {
    fn default() -> (res: Self)
        ensures
            !res.retry_ambiguous_with_idempotency,
    {
        AdaptiveRelayClientConfig { retry_ambiguous_with_idempotency: false }
    }
}

/// An accepted submission, and how it got there.
#[derive(Debug, PartialEq, Eq)]
pub struct RelaySubmitReceipt {
    pub response: SubmitResponse,
    pub transport: RelayTransport,
    pub fallback_reason: Option<RelayFallbackReason>,
}

impl Clone for RelaySubmitReceipt {
    fn clone(&self) -> (res: Self)
        ensures
            res == *self,
    {
        RelaySubmitReceipt {
            response: self.response.clone(),
            transport: self.transport,
            fallback_reason: self.fallback_reason,
        }
    }
}

/// One raw transaction to submit, whichever transport carries it.
#[derive(Debug)]
pub struct AdaptiveRelayRequest<'a> {
    pub transaction: &'a [u8],
    pub transaction_version: TransactionVersion,
    pub route_set: RouteSet,
    pub request_id: String,
    pub response_mode: ResponseMode,
}

impl<'a> Clone for AdaptiveRelayRequest<'a> {
    fn clone(&self) -> (res: Self)
        ensures
            res.transaction == self.transaction,
            res.transaction_version == self.transaction_version,
            res.route_set.mode == self.route_set.mode,
            res.route_set.routes@ == self.route_set.routes@,
            res.request_id == self.request_id,
            res.response_mode == self.response_mode,
    {
        AdaptiveRelayRequest {
            transaction: self.transaction,
            transaction_version: self.transaction_version,
            route_set: self.route_set.clone(),
            request_id: self.request_id.clone(),
            response_mode: self.response_mode,
        }
    }
}

impl<'a> AdaptiveRelayRequest<'a> {
    /// A request for a transaction of the legacy format.
    pub fn legacy(
        transaction: &'a [u8],
        route_set: RouteSet,
        request_id: String,
        response_mode: ResponseMode,
    ) -> (res: Self)
        ensures
            res.transaction == transaction,
            res.transaction_version == TransactionVersion::Legacy,
            res.route_set == route_set,
            res.request_id == request_id,
            res.response_mode == response_mode,
    {
        AdaptiveRelayRequest {
            transaction,
            transaction_version: TransactionVersion::Legacy,
            route_set,
            request_id,
            response_mode,
        }
    }
}

/// What a check of a transaction of `len` bytes, declared to be of one format, gives where its
/// bytes were classified so: the classification must succeed and agree, and the size must fit.
pub open spec fn wire_check(
    declared: TransactionVersion,
    len: nat,
    classified: Result<TransactionVersion, ProtocolError>,
) -> Result<(), ProtocolError> {
    match classified {
        Err(error) => Err(error),
        Ok(version) => if version != declared {
            Err(ProtocolError::TransactionVersionMismatch { declared, classified: version })
        } else if len > version.max_bytes() {
            Err(
                ProtocolError::TransactionTooLarge {
                    actual: len as usize,
                    max: version.max_bytes() as usize,
                },
            )
        } else {
            Ok(())
        },
    }
}

/// What a check that protocol version one carries a transaction format gives.
pub open spec fn v1_check(version: TransactionVersion) -> Result<(), ProtocolError> {
    if version == TransactionVersion::V1 {
        Err(
            ProtocolError::UnsupportedTransactionVersion {
                protocol_version: VERSION,
                transaction_version: version,
            },
        )
    } else {
        Ok(())
    }
}

/// Checks that the bytes of a request, classified so, are what the request declares.
pub fn validate_transaction_wire_request(
    request: &AdaptiveRelayRequest,
    classified: Result<TransactionVersion, ProtocolError>,
) -> (res: Result<(), ProtocolError>)
    ensures
        res == wire_check(request.transaction_version, request.transaction@.len(), classified),
{
    let version = match classified {
        Ok(version) => version,
        Err(error) => return Err(error),
    };
    if version != request.transaction_version {
        return Err(
            ProtocolError::TransactionVersionMismatch {
                declared: request.transaction_version,
                classified: version,
            },
        );
    }
    let max: usize = version.max_transaction_bytes();
    if request.transaction.len() > max {
        return Err(
            ProtocolError::TransactionTooLarge { actual: request.transaction.len(), max },
        );
    }
    Ok(())
}

/// Checks that protocol version one carries the request.
pub fn validate_protocol_v1_compatibility(request: &AdaptiveRelayRequest) -> (res: Result<
    (),
    ProtocolError,
>)
    ensures
        res == v1_check(request.transaction_version),
{
    if !request.transaction_version.supports_protocol_v1() {
        return Err(
            ProtocolError::UnsupportedTransactionVersion {
                protocol_version: VERSION,
                transaction_version: request.transaction_version,
            },
        );
    }
    Ok(())
}

/// Whether `envelope` carries all of a request that goes over HTTP.
pub open spec fn carries_request(envelope: SubmitRequest, request: AdaptiveRelayRequest) -> bool {
    &&& envelope.version == VERSION
    &&& envelope.method == RelayMethod::SendTransaction
    &&& envelope.request_id == Some(request.request_id)
    &&& envelope.route_set.mode == request.route_set.mode
    &&& envelope.route_set.routes@ == request.route_set.routes@
    &&& envelope.response_mode == Some(request.response_mode)
    &&& envelope.transaction_encoding == Some(TransactionEncoding::Base64)
    &&& envelope.transaction matches Some(text)
    &&& text@ == base64_text(request.transaction@)
    &&& base64_decoding(text@) == decoded(request.transaction@)
    &&& envelope.transactions is None
}

/// The envelope of a request that goes over HTTP. It is well shaped, and the request can be read
/// back from it.
pub fn http_envelope(request: &AdaptiveRelayRequest) -> (res: SubmitRequest)
    requires
        base64_len(request.transaction@.len()) <= isize::MAX,
    ensures
        carries_request(res, *request),
        res.shape_check() is Ok,
{
    let transaction = encode_transaction_base64(request.transaction);
    let mut envelope = SubmitRequest::send_transaction_base64(
        transaction.as_str(),
        request.route_set.clone(),
    );
    envelope.request_id = Some(request.request_id.clone());
    envelope.response_mode = Some(request.response_mode);
    envelope
}

/// Whether `header` carries all of a request that protocol version one carries.
pub open spec fn heads_request(header: QuicSubmitHeader, request: AdaptiveRelayRequest) -> bool {
    &&& header == routed_header(
        header.route_set,
        Some(request.request_id),
        Some(request.response_mode),
    )
    &&& header.route_set.mode == request.route_set.mode
    &&& header.route_set.routes@ == request.route_set.routes@
}

/// Whether `header` carries all of a request that only protocol version two carries.
pub open spec fn heads_request_v2(
    header: QuicSubmitHeaderV2,
    request: AdaptiveRelayRequest,
) -> bool {
    &&& header == routed_header_v2(
        request.transaction_version,
        request.transaction@.len(),
        header.route_set,
        Some(request.request_id),
        Some(request.response_mode),
    )
    &&& header.route_set.mode == request.route_set.mode
    &&& header.route_set.routes@ == request.route_set.routes@
}

/// The bytes that submit a request over QUIC: the API key line, then a frame of the oldest
/// protocol that carries the transaction, whose header has the JSON form that `to_json` or
/// `to_json_v2` gives it.
pub fn quic_submission<F, G>(
    api_key: &str,
    request: &AdaptiveRelayRequest,
    to_json: F,
    to_json_v2: G,
) -> (res: Result<Vec<u8>, ProtocolError>) where
    F: Fn(&QuicSubmitHeader) -> Result<Vec<u8>, String>,
    G: Fn(&QuicSubmitHeaderV2) -> Result<Vec<u8>, String>,

    requires
        forall|header: &QuicSubmitHeader| call_requires(to_json, (header,)),
        forall|header: &QuicSubmitHeaderV2| call_requires(to_json_v2, (header,)),
    ensures
        match QuicProtocol::oldest_for(request.transaction_version) {
            QuicProtocol::V1 => exists|header: &QuicSubmitHeader, json: Result<Vec<u8>, String>|
                #![trigger call_ensures(to_json, (header,), json)]
                call_ensures(to_json, (header,), json) && heads_request(*header, *request)
                    && header.version == 1 && header.method == RelayMethod::SendTransaction
                    && header.payload_kind == QuicPayloadKind::SingleRawTransaction
                    && header.request_id == Some(request.request_id) && header.response_mode
                    == Some(request.response_mode) && header.route_set.mode
                    == request.route_set.mode && header.route_set.routes@
                    == request.route_set.routes@ && header.signature is None && frame_view(res) == keyed(
                    api_key@,
                    encode_outcome(*header, json, request.transaction@),
                ),
            QuicProtocol::V2 => exists|header: &QuicSubmitHeaderV2, json: Result<Vec<u8>, String>|
                #![trigger call_ensures(to_json_v2, (header,), json)]
                call_ensures(to_json_v2, (header,), json) && heads_request_v2(*header, *request)
                    && header.version == 2 && header.method == RelayMethod::SendTransaction
                    && header.payload_kind == QuicPayloadKind::SingleRawTransaction
                    && header.transaction_version == request.transaction_version && (
                request.transaction@.len() <= u32::MAX ==> header.raw_transaction_length
                    == request.transaction@.len()) && header.request_id == Some(request.request_id)
                    && header.response_mode == Some(request.response_mode) && header.route_set.mode
                    == request.route_set.mode && header.route_set.routes@
                    == request.route_set.routes@ && header.signature is None && frame_view(res) == keyed(
                    api_key@,
                    encode_outcome_v2(*header, json, request.transaction@),
                ),
        },
{
    encode_versioned_quic_frame(
        api_key,
        request.transaction,
        request.transaction_version,
        request.route_set.clone(),
        Some(request.request_id.clone()),
        Some(request.response_mode),
        to_json,
        to_json_v2,
    )
}

/// What a submission does next.
#[derive(Debug)]
pub enum SubmitAction {
    /// Attempt the request over QUIC.
    SendQuic,
    /// Attempt the request over HTTP, for this reason.
    SendHttp(RelayFallbackReason),
    /// Nothing more: the submission ended so.
    Finish(Result<RelaySubmitReceipt, RelayAttemptError>),
}

/// How an attempt ended.
#[verifier::ext_equal]
pub enum AttemptView {
    Accepted(SubmitResponse),
    Failed(AttemptKind, Seq<char>),
}

/// How a submission ended.
#[verifier::ext_equal]
pub enum OutcomeView {
    Receipt(RelaySubmitReceipt),
    Failure(FailureKind, RelayTransport, Seq<char>),
}

/// What a submission does next, with the texts of errors as sequences.
#[verifier::ext_equal]
pub enum ActionView {
    SendQuic,
    SendHttp(RelayFallbackReason),
    Finish(OutcomeView),
}

/// How an attempt ended.
pub open spec fn attempt_view(result: Result<SubmitResponse, TransportAttemptError>) -> AttemptView {
    match result {
        Ok(response) => AttemptView::Accepted(response),
        Err(error) => AttemptView::Failed(error.kind(), error.detail()),
    }
}

/// How a submission ended.
pub open spec fn outcome_view(result: Result<RelaySubmitReceipt, RelayAttemptError>) -> OutcomeView {
    match result {
        Ok(receipt) => OutcomeView::Receipt(receipt),
        Err(error) => OutcomeView::Failure(error.kind(), error.over(), error.detail()),
    }
}

impl View for SubmitAction {
    type V = ActionView;

    open spec fn view(&self) -> ActionView {
        match *self {
            SubmitAction::SendQuic => ActionView::SendQuic,
            SubmitAction::SendHttp(reason) => ActionView::SendHttp(reason),
            SubmitAction::Finish(result) => ActionView::Finish(outcome_view(result)),
        }
    }
}

/// The outcome of a request that breaks the protocol.
pub open spec fn protocol_failure(transport: RelayTransport, error: ProtocolError) -> OutcomeView {
    OutcomeView::Failure(FailureKind::Protocol, transport, error.text())
}

/// What follows where HTTP is to carry a transaction of format `version`.
pub open spec fn http_action(
    version: TransactionVersion,
    reason: RelayFallbackReason,
) -> ActionView {
    match v1_check(version) {
        Ok(_) => ActionView::SendHttp(reason),
        Err(error) => ActionView::Finish(protocol_failure(RelayTransport::Http, error)),
    }
}

/// What a submission starts with.
pub open spec fn first_action(
    check: Result<(), ProtocolError>,
    version: TransactionVersion,
    ready: bool,
) -> ActionView {
    match check {
        Err(error) => ActionView::Finish(protocol_failure(RelayTransport::Quic, error)),
        Ok(_) => if ready {
            ActionView::SendQuic
        } else {
            http_action(version, RelayFallbackReason::QuicDisconnected)
        },
    }
}

/// What follows an attempt over QUIC.
pub open spec fn quic_action(
    config: AdaptiveRelayClientConfig,
    version: TransactionVersion,
    attempt: AttemptView,
) -> ActionView {
    match attempt {
        AttemptView::Accepted(response) => ActionView::Finish(
            OutcomeView::Receipt(
                RelaySubmitReceipt {
                    response,
                    transport: RelayTransport::Quic,
                    fallback_reason: None,
                },
            ),
        ),
        AttemptView::Failed(kind, detail) => if kind == AttemptKind::PreWrite {
            http_action(version, RelayFallbackReason::QuicOpenFailed)
        } else if kind == AttemptKind::Ambiguous && config.retry_ambiguous_with_idempotency {
            http_action(version, RelayFallbackReason::QuicResponseAmbiguous)
        } else {
            ActionView::Finish(
                OutcomeView::Failure(failure_kind(kind), RelayTransport::Quic, detail),
            )
        },
    }
}

/// The outcome of an attempt over HTTP.
pub open spec fn http_outcome(reason: RelayFallbackReason, attempt: AttemptView) -> OutcomeView {
    match attempt {
        AttemptView::Accepted(response) => OutcomeView::Receipt(
            RelaySubmitReceipt {
                response,
                transport: RelayTransport::Http,
                fallback_reason: Some(reason),
            },
        ),
        AttemptView::Failed(kind, detail) => OutcomeView::Failure(
            failure_kind(kind),
            RelayTransport::Http,
            detail,
        ),
    }
}

/// Falls back to HTTP, where protocol version one carries the request.
pub fn fall_back(request: &AdaptiveRelayRequest, reason: RelayFallbackReason) -> (res: SubmitAction)
    ensures
        res@ == http_action(request.transaction_version, reason),
        request.transaction_version != TransactionVersion::V1 ==> res is SendHttp
            && res->SendHttp_0 == reason,
        request.transaction_version == TransactionVersion::V1 ==> res is Finish
            && res->Finish_0 is Err && res->Finish_0->Err_0 is Protocol
            && res->Finish_0->Err_0->Protocol_transport == RelayTransport::Http
            && res->Finish_0->Err_0->Protocol_message@ == (
        ProtocolError::UnsupportedTransactionVersion {
            protocol_version: 1,
            transaction_version: TransactionVersion::V1,
        }).text(),
{
    match validate_protocol_v1_compatibility(request) {
        Ok(_) => SubmitAction::SendHttp(reason),
        Err(error) => SubmitAction::Finish(
            Err(
                RelayAttemptError::Protocol {
                    transport: RelayTransport::Http,
                    message: error.message(),
                },
            ),
        ),
    }
}

/// Starts a submission, given how the transaction's bytes were classified and whether QUIC is
/// connected.
pub fn begin_submit(
    request: &AdaptiveRelayRequest,
    classified: Result<TransactionVersion, ProtocolError>,
    ready: bool,
) -> (res: SubmitAction)
    ensures
        res@ == first_action(
            wire_check(request.transaction_version, request.transaction@.len(), classified),
            request.transaction_version,
            ready,
        ),
        res is SendQuic <==> ready && classified == Ok::<TransactionVersion, ProtocolError>(
            request.transaction_version,
        ) && request.transaction@.len() <= (if request.transaction_version
            == TransactionVersion::V1 {
            4096int
        } else {
            1232int
        }),
        res is SendHttp <==> !ready && request.transaction_version != TransactionVersion::V1
            && classified == Ok::<TransactionVersion, ProtocolError>(request.transaction_version)
            && request.transaction@.len() <= 1232,
        res is SendHttp ==> res->SendHttp_0 == RelayFallbackReason::QuicDisconnected,
        res is Finish ==> res->Finish_0 is Err && res->Finish_0->Err_0 is Protocol,
{
    if let Err(error) = validate_transaction_wire_request(request, classified) {
        return SubmitAction::Finish(
            Err(
                RelayAttemptError::Protocol {
                    transport: RelayTransport::Quic,
                    message: error.message(),
                },
            ),
        );
    }
    if !ready {
        return fall_back(request, RelayFallbackReason::QuicDisconnected);
    }
    SubmitAction::SendQuic
}

/// Goes on after an attempt over QUIC.
pub fn after_quic(
    config: AdaptiveRelayClientConfig,
    request: &AdaptiveRelayRequest,
    result: Result<SubmitResponse, TransportAttemptError>,
) -> (res: SubmitAction)
    ensures
        res@ == quic_action(config, request.transaction_version, attempt_view(result)),
        match result {
            Ok(response) => res is Finish && res->Finish_0 is Ok && res->Finish_0->Ok_0 == (
            RelaySubmitReceipt { response, transport: RelayTransport::Quic, fallback_reason: None }),
            Err(TransportAttemptError::PreWrite(_)) => request.transaction_version
                != TransactionVersion::V1 ==> res is SendHttp && res->SendHttp_0
                == RelayFallbackReason::QuicOpenFailed,
            Err(TransportAttemptError::Ambiguous(message)) => {
                &&& !config.retry_ambiguous_with_idempotency ==> res is Finish && res->Finish_0 is Err
                    && res->Finish_0->Err_0 == RelayAttemptError::Ambiguous {
                    transport: RelayTransport::Quic,
                    message,
                }
                &&& config.retry_ambiguous_with_idempotency && request.transaction_version
                    != TransactionVersion::V1 ==> res is SendHttp && res->SendHttp_0
                    == RelayFallbackReason::QuicResponseAmbiguous
            },
            Err(TransportAttemptError::Server(message)) => res is Finish && res->Finish_0 is Err
                && res->Finish_0->Err_0 == RelayAttemptError::Server {
                transport: RelayTransport::Quic,
                message,
            },
            Err(TransportAttemptError::Protocol(message)) => res is Finish && res->Finish_0 is Err
                && res->Finish_0->Err_0 == RelayAttemptError::Protocol {
                transport: RelayTransport::Quic,
                message,
            },
            Err(TransportAttemptError::Transport(message)) => res is Finish && res->Finish_0 is Err
                && res->Finish_0->Err_0 == RelayAttemptError::Transport {
                transport: RelayTransport::Quic,
                message,
            },
        },
        res !is SendQuic,
{
    match result {
        Ok(response) => SubmitAction::Finish(
            Ok(
                RelaySubmitReceipt {
                    response,
                    transport: RelayTransport::Quic,
                    fallback_reason: None,
                },
            ),
        ),
        Err(TransportAttemptError::PreWrite(_)) => fall_back(
            request,
            RelayFallbackReason::QuicOpenFailed,
        ),
        Err(error) => {
            if config.retry_ambiguous_with_idempotency && matches!(error, TransportAttemptError::Ambiguous(_)) {
                fall_back(request, RelayFallbackReason::QuicResponseAmbiguous)
            } else {
                SubmitAction::Finish(Err(map_attempt_error(RelayTransport::Quic, error)))
            }
        },
    }
}

/// Ends a submission after an attempt over HTTP that was made for `reason`.
pub fn after_http(
    reason: RelayFallbackReason,
    result: Result<SubmitResponse, TransportAttemptError>,
) -> (res: Result<RelaySubmitReceipt, RelayAttemptError>)
    ensures
        outcome_view(res) == http_outcome(reason, attempt_view(result)),
        match result {
            Ok(response) => res is Ok && res->Ok_0 == (RelaySubmitReceipt {
                response,
                transport: RelayTransport::Http,
                fallback_reason: Some(reason),
            }),
            Err(TransportAttemptError::PreWrite(message))
            | Err(TransportAttemptError::Transport(message)) => res is Err && res->Err_0
                == RelayAttemptError::Transport { transport: RelayTransport::Http, message },
            Err(TransportAttemptError::Ambiguous(message)) => res is Err && res->Err_0
                == RelayAttemptError::Ambiguous { transport: RelayTransport::Http, message },
            Err(TransportAttemptError::Server(message)) => res is Err && res->Err_0
                == RelayAttemptError::Server { transport: RelayTransport::Http, message },
            Err(TransportAttemptError::Protocol(message)) => res is Err && res->Err_0
                == RelayAttemptError::Protocol { transport: RelayTransport::Http, message },
        },
{
    match result {
        Ok(response) => Ok(
            RelaySubmitReceipt {
                response,
                transport: RelayTransport::Http,
                fallback_reason: Some(reason),
            },
        ),
        Err(error) => Err(map_attempt_error(RelayTransport::Http, error)),
    }
}

/// What decides a submission: the configuration, the request's check and format, whether QUIC is
/// connected, and how an attempt over each transport would end.
pub struct Situation {
    pub config: AdaptiveRelayClientConfig,
    pub check: Result<(), ProtocolError>,
    pub version: TransactionVersion,
    pub ready: bool,
    pub quic: AttemptView,
    pub http: AttemptView,
}

/// The attempts that a submission makes, in order, and how it ends.
pub struct Course {
    pub attempts: Seq<RelayTransport>,
    pub outcome: OutcomeView,
}

/// What is left of a submission from an action on that does not attempt QUIC.
pub open spec fn finished(
    before: Seq<RelayTransport>,
    action: ActionView,
    http: AttemptView,
) -> Course {
    match action {
        ActionView::Finish(outcome) => Course { attempts: before, outcome },
        ActionView::SendHttp(reason) => Course {
            attempts: before.push(RelayTransport::Http),
            outcome: http_outcome(reason, http),
        },
        ActionView::SendQuic => arbitrary(),
    }
}

/// The course of a submission: each action is carried out until one ends it.
pub open spec fn course(s: Situation) -> Course {
    match first_action(s.check, s.version, s.ready) {
        ActionView::SendQuic => finished(
            seq![RelayTransport::Quic],
            quic_action(s.config, s.version, s.quic),
            s.http,
        ),
        action => finished(Seq::empty(), action, s.http),
    }
}

/// Each transport is attempted at most once, and QUIC before HTTP.
pub proof fn lemma_each_transport_once(s: Situation)
    ensures
        course(s).attempts == Seq::<RelayTransport>::empty() || course(s).attempts == seq![
            RelayTransport::Quic,
        ] || course(s).attempts == seq![RelayTransport::Http] || course(s).attempts == seq![
            RelayTransport::Quic,
            RelayTransport::Http,
        ],
{
    assert(Seq::<RelayTransport>::empty().push(RelayTransport::Http) =~= seq![RelayTransport::Http]);
    assert(seq![RelayTransport::Quic].push(RelayTransport::Http) =~= seq![
        RelayTransport::Quic,
        RelayTransport::Http,
    ]);
}

/// A request passes the check exactly where its bytes were classified as what it declares and are
/// no more than that format allows.
pub proof fn lemma_what_passes_the_check(
    declared: TransactionVersion,
    len: nat,
    classified: Result<TransactionVersion, ProtocolError>,
)
    ensures
        wire_check(declared, len, classified) is Ok <==> classified == Ok::<
            TransactionVersion,
            ProtocolError,
        >(declared) && len <= declared.max_bytes(),
{
}

/// A request whose transaction is malformed, mislabelled or too large is refused before any
/// attempt, whatever the state of the transports.
pub proof fn lemma_refused_before_any_attempt(s: Situation)
    requires
        s.check is Err,
    ensures
        course(s).attempts == Seq::<RelayTransport>::empty(),
        course(s).outcome == protocol_failure(RelayTransport::Quic, s.check->Err_0),
{
}

/// Where QUIC is connected and takes the request, it is attempted once and HTTP is not.
pub proof fn lemma_healthy_quic_suffices(s: Situation)
    requires
        s.check is Ok,
        s.ready,
        s.quic is Accepted,
    ensures
        course(s).attempts == seq![RelayTransport::Quic],
        course(s).outcome matches OutcomeView::Receipt(receipt) && receipt.response
            == s.quic->Accepted_0 && receipt.transport == RelayTransport::Quic
            && receipt.fallback_reason is None,
{
}

/// Where QUIC is not connected, HTTP is attempted at once and alone.
pub proof fn lemma_disconnected_quic_is_not_awaited(s: Situation)
    requires
        s.check is Ok,
        !s.ready,
        s.version != TransactionVersion::V1,
    ensures
        course(s).attempts == seq![RelayTransport::Http],
        course(s).outcome == http_outcome(RelayFallbackReason::QuicDisconnected, s.http),
{
    assert(Seq::<RelayTransport>::empty().push(RelayTransport::Http) =~= seq![RelayTransport::Http]);
}

/// HTTP is attempted exactly where protocol version one carries the transaction and QUIC was not
/// connected, wrote nothing, or left the outcome open with a retry allowed.
pub proof fn lemma_when_http_is_attempted(s: Situation)
    ensures
        course(s).attempts.contains(RelayTransport::Http) <==> {
            &&& s.check is Ok
            &&& s.version != TransactionVersion::V1
            &&& {
                ||| !s.ready
                ||| s.quic matches AttemptView::Failed(kind, _) && (kind == AttemptKind::PreWrite
                    || (kind == AttemptKind::Ambiguous && s.config.retry_ambiguous_with_idempotency))
            }
        },
{
    let none = Seq::<RelayTransport>::empty();
    let quic = seq![RelayTransport::Quic];
    assert(none.push(RelayTransport::Http).last() == RelayTransport::Http);
    assert(quic.push(RelayTransport::Http).last() == RelayTransport::Http);
    assert(none.push(RelayTransport::Http).contains(RelayTransport::Http));
    assert(quic.push(RelayTransport::Http).contains(RelayTransport::Http));
}

/// An answer of the relay over QUIC, a refusal as much as an acceptance, is final: the submission
/// never falls back from it.
pub proof fn lemma_refusal_never_falls_back(s: Situation, detail: Seq<char>)
    requires
        s.check is Ok,
        s.ready,
        s.quic == AttemptView::Failed(AttemptKind::Server, detail),
    ensures
        course(s).attempts == seq![RelayTransport::Quic],
        course(s).outcome == OutcomeView::Failure(FailureKind::Server, RelayTransport::Quic, detail),
{
}

/// A request that the relay denies fails, and the caller is told the relay's words: it is neither
/// sent again nor changed.
pub proof fn lemma_denied_request_fails_explicitly(s: Situation, error: RelayClientError)
    requires
        s.check is Ok,
        error is Status || error is QuicStatus,
        s.ready ==> s.quic == AttemptView::Failed(quic_error_kind(error), error.text()),
        !s.ready ==> s.version != TransactionVersion::V1 && s.http == AttemptView::Failed(
            http_error_kind(error),
            error.text(),
        ),
    ensures
        course(s).attempts.len() == 1,
        course(s).outcome == OutcomeView::Failure(
            FailureKind::Server,
            if s.ready {
                RelayTransport::Quic
            } else {
                RelayTransport::Http
            },
            error.text(),
        ),
{
}

/// Whichever course a submission takes, where the relay denies the request at the last attempt the
/// submission fails as refused by the relay over that transport, in the relay's words.
pub proof fn lemma_denial_ends_every_course(s: Situation, error: RelayClientError)
    requires
        course(s).attempts.len() > 0,
        error is Status || error is QuicStatus,
        course(s).attempts.last() == RelayTransport::Quic ==> s.quic == AttemptView::Failed(
            quic_error_kind(error),
            error.text(),
        ),
        course(s).attempts.last() == RelayTransport::Http ==> s.http == AttemptView::Failed(
            http_error_kind(error),
            error.text(),
        ),
    ensures
        course(s).outcome == OutcomeView::Failure(
            FailureKind::Server,
            course(s).attempts.last(),
            error.text(),
        ),
{
}

/// Where QUIC left open whether the request was taken, it is sent again only if the configuration
/// says that this is safe.
pub proof fn lemma_ambiguity_needs_idempotency(s: Situation, detail: Seq<char>)
    requires
        s.check is Ok,
        s.ready,
        s.quic == AttemptView::Failed(AttemptKind::Ambiguous, detail),
    ensures
        !s.config.retry_ambiguous_with_idempotency ==> course(s).attempts == seq![
            RelayTransport::Quic,
        ] && course(s).outcome == OutcomeView::Failure(
            FailureKind::Ambiguous,
            RelayTransport::Quic,
            detail,
        ),
        s.config.retry_ambiguous_with_idempotency && s.version != TransactionVersion::V1 ==> course(
            s,
        ).attempts == seq![RelayTransport::Quic, RelayTransport::Http] && course(s).outcome
            == http_outcome(RelayFallbackReason::QuicResponseAmbiguous, s.http),
{
    assert(seq![RelayTransport::Quic].push(RelayTransport::Http) =~= seq![
        RelayTransport::Quic,
        RelayTransport::Http,
    ]);
}

/// A transaction that only protocol version two carries never goes over HTTP: where QUIC is not
/// connected it is refused without any attempt.
pub proof fn lemma_v1_transaction_stays_on_quic(s: Situation)
    requires
        s.version == TransactionVersion::V1,
    ensures
        !course(s).attempts.contains(RelayTransport::Http),
        s.check is Ok && !s.ready ==> course(s).attempts == Seq::<RelayTransport>::empty()
            && course(s).outcome == protocol_failure(RelayTransport::Http, v1_check(s.version)->Err_0),
{
    lemma_when_http_is_attempted(s);
}

/// A receipt gives a reason for falling back exactly where it came over HTTP, and holds the
/// answer of the transport that it names.
pub proof fn lemma_receipt_is_truthful(s: Situation, receipt: RelaySubmitReceipt)
    requires
        course(s).outcome == OutcomeView::Receipt(receipt),
    ensures
        receipt.fallback_reason is Some <==> receipt.transport == RelayTransport::Http,
        course(s).attempts.last() == receipt.transport,
        receipt.transport == RelayTransport::Quic ==> s.quic == AttemptView::Accepted(
            receipt.response,
        ),
        receipt.transport == RelayTransport::Http ==> s.http == AttemptView::Accepted(
            receipt.response,
        ),
{
}

/// What the check of a request's bytes says where it refuses them: the classifier's own error, the
/// two formats that disagree, or the size and the ceiling of the format.
pub proof fn lemma_what_the_check_says(
    declared: TransactionVersion,
    len: nat,
    classified: Result<TransactionVersion, ProtocolError>,
)
    ensures
        ({
            let out = wire_check(declared, len, classified);
            let ceiling = if declared == TransactionVersion::V1 {
                4096nat
            } else {
                1232nat
            };
            match classified {
                Err(error) => out == Err::<(), ProtocolError>(error),
                Ok(version) => if version != declared {
                    out == Err::<(), ProtocolError>(
                        ProtocolError::TransactionVersionMismatch { declared, classified: version },
                    )
                } else if len > ceiling {
                    out == Err::<(), ProtocolError>(
                        ProtocolError::TransactionTooLarge {
                            actual: len as usize,
                            max: ceiling as usize,
                        },
                    )
                } else {
                    out is Ok
                },
            }
        }),
{
}

/// Protocol version one carries every format but the newest, which it refuses by name.
pub proof fn lemma_what_version_one_carries(version: TransactionVersion)
    ensures
        v1_check(version) is Ok <==> version == TransactionVersion::Legacy || version
            == TransactionVersion::V0,
        version == TransactionVersion::V1 ==> v1_check(version) == Err::<(), ProtocolError>(
            ProtocolError::UnsupportedTransactionVersion {
                protocol_version: 1,
                transaction_version: TransactionVersion::V1,
            },
        ),
{
}

/// An envelope that carries a request holds each part of it: the transaction can be read back, and
/// the name, the routes and the response mode are the request's own.
pub proof fn lemma_envelope_holds_the_request(
    envelope: SubmitRequest,
    request: AdaptiveRelayRequest,
)
    requires
        carries_request(envelope, request),
    ensures
        envelope.version == 1,
        envelope.method == RelayMethod::SendTransaction,
        envelope.request_id is Some && envelope.request_id->Some_0@ == request.request_id@,
        envelope.route_set.mode == request.route_set.mode,
        envelope.route_set.routes@ == request.route_set.routes@,
        envelope.response_mode is Some && envelope.response_mode->Some_0 == request.response_mode,
        envelope.transaction_encoding is Some,
        envelope.transaction is Some,
        base64_decoding(envelope.transaction->Some_0@) is Ok && base64_decoding(
            envelope.transaction->Some_0@,
        )->Ok_0 == request.transaction@,
        envelope.transactions is None,
{
}

/// A QUIC header that carries a request holds each part of it, whatever the response mode and
/// whichever protocol it belongs to.
pub proof fn lemma_quic_headers_hold_the_request(
    header: QuicSubmitHeader,
    header_v2: QuicSubmitHeaderV2,
    request: AdaptiveRelayRequest,
)
    ensures
        heads_request(header, request) ==> {
            &&& header.version == 1
            &&& header.method == RelayMethod::SendTransaction
            &&& header.payload_kind == QuicPayloadKind::SingleRawTransaction
            &&& header.request_id == Some(request.request_id)
            &&& header.response_mode == Some(request.response_mode)
            &&& header.route_set.mode == request.route_set.mode
            &&& header.route_set.routes@ == request.route_set.routes@
            &&& header.signature is None
        },
        heads_request_v2(header_v2, request) ==> {
            &&& header_v2.version == 2
            &&& header_v2.method == RelayMethod::SendTransaction
            &&& header_v2.payload_kind == QuicPayloadKind::SingleRawTransaction
            &&& header_v2.transaction_version == request.transaction_version
            &&& request.transaction@.len() <= u32::MAX ==> header_v2.raw_transaction_length
                == request.transaction@.len()
            &&& header_v2.request_id == Some(request.request_id)
            &&& header_v2.response_mode == Some(request.response_mode)
            &&& header_v2.route_set.mode == request.route_set.mode
            &&& header_v2.route_set.routes@ == request.route_set.routes@
            &&& header_v2.signature is None
        },
{
}

/// The views of an attempt, an outcome and an action hold what those hold: which of them it is, and
/// every part of it.
pub proof fn lemma_submission_views_are_faithful(
    attempt: Result<SubmitResponse, TransportAttemptError>,
    outcome: Result<RelaySubmitReceipt, RelayAttemptError>,
    action: SubmitAction,
)
    ensures
        attempt matches Ok(response) ==> attempt_view(attempt) == AttemptView::Accepted(response),
        attempt matches Err(error) ==> attempt_view(attempt) == AttemptView::Failed(
            error.kind(),
            error.detail(),
        ),
        outcome matches Ok(receipt) ==> outcome_view(outcome) == OutcomeView::Receipt(receipt),
        outcome matches Err(error) ==> outcome_view(outcome) == OutcomeView::Failure(
            error.kind(),
            error.over(),
            error.detail(),
        ),
        action is SendQuic <==> action@ is SendQuic,
        action matches SubmitAction::SendHttp(reason) ==> action@ == ActionView::SendHttp(reason),
        action matches SubmitAction::Finish(result) ==> action@ == ActionView::Finish(
            outcome_view(result),
        ),
{
}

/// QUIC is attempted exactly where the request passes its check and QUIC is connected, and then it
/// is attempted first.
pub proof fn lemma_when_quic_is_attempted(s: Situation)
    ensures
        course(s).attempts.contains(RelayTransport::Quic) <==> s.check is Ok && s.ready,
        s.check is Ok && s.ready ==> course(s).attempts.len() > 0 && course(s).attempts[0]
            == RelayTransport::Quic,
{
    lemma_each_transport_once(s);
    if s.check is Ok && s.ready {
        assert(course(s).attempts[0] == RelayTransport::Quic);
    }
}

/// A submission that made no attempt failed for a reason of the protocol: the request's own check,
/// or, where QUIC is not connected, a format that HTTP cannot carry.
pub proof fn lemma_why_nothing_was_attempted(s: Situation)
    ensures
        course(s).attempts.len() == 0 <==> s.check is Err || (!s.ready && s.version
            == TransactionVersion::V1),
        s.check is Err ==> course(s).outcome == OutcomeView::Failure(
            FailureKind::Protocol,
            RelayTransport::Quic,
            s.check->Err_0.text(),
        ),
        s.check is Ok && !s.ready && s.version == TransactionVersion::V1 ==> course(s).outcome
            == OutcomeView::Failure(
            FailureKind::Protocol,
            RelayTransport::Http,
            ProtocolError::UnsupportedTransactionVersion {
                protocol_version: 1,
                transaction_version: TransactionVersion::V1,
            }.text(),
        ),
{
}

/// A submission whose attempt over HTTP failed is told as that attempt failed: as refused by the
/// server only where the relay refused it, as a failure of the transport where the transport
/// failed or nothing was written, and in the attempt's own words.
pub proof fn lemma_http_failures_are_told_as_they_were(
    s: Situation,
    kind: AttemptKind,
    detail: Seq<char>,
)
    requires
        course(s).attempts.contains(RelayTransport::Http),
        s.http == AttemptView::Failed(kind, detail),
    ensures
        course(s).outcome == OutcomeView::Failure(
            match kind {
                AttemptKind::PreWrite => FailureKind::Transport,
                AttemptKind::Transport => FailureKind::Transport,
                AttemptKind::Ambiguous => FailureKind::Ambiguous,
                AttemptKind::Server => FailureKind::Server,
                AttemptKind::Protocol => FailureKind::Protocol,
            },
            RelayTransport::Http,
            detail,
        ),
{
    lemma_when_http_is_attempted(s);
}

/// A submission whose only attempt, over QUIC, failed is told as that attempt failed, in its own
/// words; but where it could have gone on over HTTP and the transaction's format does not allow
/// it, it is told that.
pub proof fn lemma_quic_failures_are_told_as_they_were(
    s: Situation,
    kind: AttemptKind,
    detail: Seq<char>,
)
    requires
        course(s).attempts == seq![RelayTransport::Quic],
        s.quic == AttemptView::Failed(kind, detail),
    ensures
        kind == AttemptKind::Server ==> course(s).outcome == OutcomeView::Failure(
            FailureKind::Server,
            RelayTransport::Quic,
            detail,
        ),
        kind == AttemptKind::Protocol ==> course(s).outcome == OutcomeView::Failure(
            FailureKind::Protocol,
            RelayTransport::Quic,
            detail,
        ),
        kind == AttemptKind::Transport ==> course(s).outcome == OutcomeView::Failure(
            FailureKind::Transport,
            RelayTransport::Quic,
            detail,
        ),
        kind == AttemptKind::Ambiguous && !s.config.retry_ambiguous_with_idempotency ==> course(
            s,
        ).outcome == OutcomeView::Failure(FailureKind::Ambiguous, RelayTransport::Quic, detail),
        kind == AttemptKind::PreWrite || (kind == AttemptKind::Ambiguous
            && s.config.retry_ambiguous_with_idempotency) ==> s.version == TransactionVersion::V1
            && course(s).outcome == OutcomeView::Failure(
            FailureKind::Protocol,
            RelayTransport::Http,
            ProtocolError::UnsupportedTransactionVersion {
                protocol_version: 1,
                transaction_version: TransactionVersion::V1,
            }.text(),
        ),
{
    lemma_when_quic_is_attempted(s);
    lemma_when_http_is_attempted(s);
    assert(course(s).attempts.contains(RelayTransport::Quic)) by {
        assert(course(s).attempts[0] == RelayTransport::Quic);
    }
}

/// A caller is told that the server rejected a request only where the relay did: over the
/// transport that is named, which was the last that was attempted, and in those words.
pub proof fn lemma_rejection_comes_from_the_relay(
    s: Situation,
    transport: RelayTransport,
    detail: Seq<char>,
)
    requires
        course(s).outcome == OutcomeView::Failure(FailureKind::Server, transport, detail),
    ensures
        course(s).attempts.len() > 0 && course(s).attempts.last() == transport,
        transport == RelayTransport::Quic ==> s.quic == AttemptView::Failed(
            AttemptKind::Server,
            detail,
        ),
        transport == RelayTransport::Http ==> s.http == AttemptView::Failed(
            AttemptKind::Server,
            detail,
        ),
{
}

/// A request that is taken over HTTP gives a receipt with the relay's answer and the reason for
/// falling back: QUIC was not connected, could not be written to, or left the outcome open.
pub proof fn lemma_receipt_over_http(s: Situation, response: SubmitResponse)
    requires
        course(s).attempts.contains(RelayTransport::Http),
        s.http == AttemptView::Accepted(response),
    ensures
        course(s).outcome is Receipt,
        course(s).outcome->Receipt_0.response == response,
        course(s).outcome->Receipt_0.transport == RelayTransport::Http,
        course(s).outcome->Receipt_0.fallback_reason == Some(
            if !s.ready {
                RelayFallbackReason::QuicDisconnected
            } else if s.quic->Failed_0 == AttemptKind::PreWrite {
                RelayFallbackReason::QuicOpenFailed
            } else {
                RelayFallbackReason::QuicResponseAmbiguous
            },
        ),
{
    lemma_when_http_is_attempted(s);
}

} // verus!
