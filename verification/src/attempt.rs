//! How one attempt to submit over one transport can fail, and what a caller is told of it.
use crate::client_error::RelayClientError;
use crate::http::{is_success, reply_outcome, HttpReply, SubmitResponse};
use crate::quic::{step_error, QuicStep};
use crate::text::{decimal, same_text};
use vstd::prelude::*;

verus! {

/// What carries a submission.
#[derive(Debug, Clone, Copy, PartialEq, Eq, Structural)]
pub enum RelayTransport {
    Quic,
    Http,
}

impl RelayTransport {
    /// The name of the transport.
    pub open spec fn name(self) -> Seq<char> {
        match self {
            RelayTransport::Quic => "Quic"@,
            RelayTransport::Http => "Http"@,
        }
    }

    /// The name of the transport.
    pub fn name_text(self) -> (res: &'static str)
        ensures
            res@ == self.name(),
    {
        match self {
            RelayTransport::Quic => "Quic",
            RelayTransport::Http => "Http",
        }
    }
}

/// Why an attempt over one transport failed.
#[derive(Debug)]
pub enum TransportAttemptError {
    /// Nothing of the request was written.
    PreWrite(String),
    /// The relay may or may not have taken the request.
    Ambiguous(String),
    /// The relay refused the request.
    Server(String),
    /// The request or the answer breaks the protocol.
    Protocol(String),
    /// The transport failed.
    Transport(String),
}

/// The kinds of failed attempts.
#[derive(Debug, Clone, Copy, PartialEq, Eq, Structural)]
pub enum AttemptKind {
    PreWrite,
    Ambiguous,
    Server,
    Protocol,
    Transport,
}

impl TransportAttemptError {
    /// What kind of failure this is.
    pub open spec fn kind(self) -> AttemptKind {
        match self {
            TransportAttemptError::PreWrite(_) => AttemptKind::PreWrite,
            TransportAttemptError::Ambiguous(_) => AttemptKind::Ambiguous,
            TransportAttemptError::Server(_) => AttemptKind::Server,
            TransportAttemptError::Protocol(_) => AttemptKind::Protocol,
            TransportAttemptError::Transport(_) => AttemptKind::Transport,
        }
    }

    /// The failure in words.
    pub open spec fn detail(self) -> Seq<char> {
        match self {
            TransportAttemptError::PreWrite(message) => message@,
            TransportAttemptError::Ambiguous(message) => message@,
            TransportAttemptError::Server(message) => message@,
            TransportAttemptError::Protocol(message) => message@,
            TransportAttemptError::Transport(message) => message@,
        }
    }

    fn of_kind(kind: AttemptKind, message: String) -> (res: Self)
        ensures
            res.kind() == kind,
            res.detail() == message@,
    {
        match kind {
            AttemptKind::PreWrite => TransportAttemptError::PreWrite(message),
            AttemptKind::Ambiguous => TransportAttemptError::Ambiguous(message),
            AttemptKind::Server => TransportAttemptError::Server(message),
            AttemptKind::Protocol => TransportAttemptError::Protocol(message),
            AttemptKind::Transport => TransportAttemptError::Transport(message),
        }
    }
}

/// Why a submission failed, and over which transport.
#[derive(Debug)]
#[allow(inconsistent_fields)]
pub enum RelayAttemptError {
    Server { transport: RelayTransport, message: String },
    Transport { transport: RelayTransport, message: String },
    Ambiguous { transport: RelayTransport, message: String },
    Protocol { transport: RelayTransport, message: String },
}

/// The kinds of failed submissions.
#[derive(Debug, Clone, Copy, PartialEq, Eq, Structural)]
pub enum FailureKind {
    Server,
    Transport,
    Ambiguous,
    Protocol,
}

impl FailureKind {
    /// What is said of a failure, between the transport's name and the details.
    pub open spec fn phrase(self) -> Seq<char> {
        match self {
            FailureKind::Server => " server rejected the request: "@,
            FailureKind::Transport => " transport failed: "@,
            FailureKind::Ambiguous => " result is ambiguous: "@,
            FailureKind::Protocol => " protocol failed: "@,
        }
    }
}

impl RelayAttemptError {
    /// What kind of failure this is.
    pub open spec fn kind(self) -> FailureKind {
        match self {
            RelayAttemptError::Server { .. } => FailureKind::Server,
            RelayAttemptError::Transport { .. } => FailureKind::Transport,
            RelayAttemptError::Ambiguous { .. } => FailureKind::Ambiguous,
            RelayAttemptError::Protocol { .. } => FailureKind::Protocol,
        }
    }

    /// The transport that failed.
    pub open spec fn over(self) -> RelayTransport {
        match self {
            RelayAttemptError::Server { transport, .. } => transport,
            RelayAttemptError::Transport { transport, .. } => transport,
            RelayAttemptError::Ambiguous { transport, .. } => transport,
            RelayAttemptError::Protocol { transport, .. } => transport,
        }
    }

    /// The details of the failure.
    pub open spec fn detail(self) -> Seq<char> {
        match self {
            RelayAttemptError::Server { message, .. } => message@,
            RelayAttemptError::Transport { message, .. } => message@,
            RelayAttemptError::Ambiguous { message, .. } => message@,
            RelayAttemptError::Protocol { message, .. } => message@,
        }
    }

    /// The error in words.
    pub open spec fn text(self) -> Seq<char> {
        "relay "@ + self.over().name() + self.kind().phrase() + self.detail()
    }

    /// The error in words.
    pub fn message(&self) -> (res: String)
        ensures
            res@ == self.text(),
    {
        let mut out = "relay ".to_owned();
        match self {
            RelayAttemptError::Server { transport, message } => {
                out.append(transport.name_text());
                out.append(" server rejected the request: ");
                out.append(message.as_str());
            },
            RelayAttemptError::Transport { transport, message } => {
                out.append(transport.name_text());
                out.append(" transport failed: ");
                out.append(message.as_str());
            },
            RelayAttemptError::Ambiguous { transport, message } => {
                out.append(transport.name_text());
                out.append(" result is ambiguous: ");
                out.append(message.as_str());
            },
            RelayAttemptError::Protocol { transport, message } => {
                out.append(transport.name_text());
                out.append(" protocol failed: ");
                out.append(message.as_str());
            },
        }
        out
    }
}

/// What kind of failed attempt an error of the HTTP client is.
pub open spec fn http_error_kind(error: RelayClientError) -> AttemptKind {
    match error {
        RelayClientError::Status { .. } | RelayClientError::QuicStatus(_) => AttemptKind::Server,
        RelayClientError::Protocol(_) | RelayClientError::Json(_) => AttemptKind::Protocol,
        _ => AttemptKind::Transport,
    }
}

/// What kind of failed attempt an error of the QUIC client is. Only what fails before the stream
/// is open leaves nothing written; once it is open, a failure that is no answer is ambiguous.
pub open spec fn quic_error_kind(error: RelayClientError) -> AttemptKind {
    match error {
        RelayClientError::QuicStatus(_) | RelayClientError::Status { .. } => AttemptKind::Server,
        RelayClientError::QuicOpenStream(_) => AttemptKind::PreWrite,
        RelayClientError::Protocol(_) => AttemptKind::Protocol,
        RelayClientError::Timeout(step) => if step@ == "QUIC open stream"@ {
            AttemptKind::PreWrite
        } else {
            AttemptKind::Ambiguous
        },
        RelayClientError::QuicWrite(_)
        | RelayClientError::QuicFinish(_)
        | RelayClientError::QuicRead(_)
        | RelayClientError::Json(_) => AttemptKind::Ambiguous,
        _ => AttemptKind::Transport,
    }
}

/// Takes an error of the HTTP client as a failed attempt.
pub fn classify_http_error(error: RelayClientError) -> (res: TransportAttemptError)
    ensures
        res.kind() == http_error_kind(error),
        res.detail() == error.text(),
        match error {
            RelayClientError::Status { .. } | RelayClientError::QuicStatus(_) => res is Server
                && res->Server_0@ == error.text(),
            RelayClientError::Protocol(_) | RelayClientError::Json(_) => res is Protocol
                && res->Protocol_0@ == error.text(),
            _ => res is Transport && res->Transport_0@ == error.text(),
        },
{
    let kind = match &error {
        RelayClientError::Status { .. } | RelayClientError::QuicStatus(_) => AttemptKind::Server,
        RelayClientError::Protocol(_) | RelayClientError::Json(_) => AttemptKind::Protocol,
        _ => AttemptKind::Transport,
    };
    TransportAttemptError::of_kind(kind, error.message())
}

/// Takes an error of the QUIC client as a failed attempt.
pub fn classify_quic_error(error: RelayClientError) -> (res: TransportAttemptError)
    ensures
        res.kind() == quic_error_kind(error),
        res.detail() == error.text(),
        match error {
            RelayClientError::QuicStatus(_) | RelayClientError::Status { .. } => res is Server
                && res->Server_0@ == error.text(),
            RelayClientError::QuicOpenStream(_) => res is PreWrite && res->PreWrite_0@
                == error.text(),
            RelayClientError::Timeout(step) => if step@ == "QUIC open stream"@ {
                res is PreWrite && res->PreWrite_0@ == error.text()
            } else {
                res is Ambiguous && res->Ambiguous_0@ == error.text()
            },
            RelayClientError::Protocol(_) => res is Protocol && res->Protocol_0@ == error.text(),
            RelayClientError::QuicWrite(_)
            | RelayClientError::QuicFinish(_)
            | RelayClientError::QuicRead(_)
            | RelayClientError::Json(_) => res is Ambiguous && res->Ambiguous_0@ == error.text(),
            _ => res is Transport && res->Transport_0@ == error.text(),
        },
{
    let kind = match &error {
        RelayClientError::QuicStatus(_) | RelayClientError::Status { .. } => AttemptKind::Server,
        RelayClientError::QuicOpenStream(_) => AttemptKind::PreWrite,
        RelayClientError::Protocol(_) => AttemptKind::Protocol,
        RelayClientError::Timeout(step) => if same_text(step, "QUIC open stream") {
            AttemptKind::PreWrite
        } else {
            AttemptKind::Ambiguous
        },
        RelayClientError::QuicWrite(_)
        | RelayClientError::QuicFinish(_)
        | RelayClientError::QuicRead(_)
        | RelayClientError::Json(_) => AttemptKind::Ambiguous,
        _ => AttemptKind::Transport,
    };
    TransportAttemptError::of_kind(kind, error.message())
}

/// What a caller is told of a failed attempt.
pub open spec fn failure_kind(kind: AttemptKind) -> FailureKind {
    match kind {
        AttemptKind::PreWrite | AttemptKind::Transport => FailureKind::Transport,
        AttemptKind::Ambiguous => FailureKind::Ambiguous,
        AttemptKind::Server => FailureKind::Server,
        AttemptKind::Protocol => FailureKind::Protocol,
    }
}

/// Tells a caller of a failed attempt over `transport`.
pub fn map_attempt_error(transport: RelayTransport, error: TransportAttemptError) -> (res:
    RelayAttemptError)
    ensures
        res.kind() == failure_kind(error.kind()),
        res.over() == transport,
        res.detail() == error.detail(),
        match error {
            TransportAttemptError::PreWrite(m) | TransportAttemptError::Transport(m) => res
                == RelayAttemptError::Transport { transport, message: m },
            TransportAttemptError::Ambiguous(m) => res == RelayAttemptError::Ambiguous {
                transport,
                message: m,
            },
            TransportAttemptError::Server(m) => res == RelayAttemptError::Server {
                transport,
                message: m,
            },
            TransportAttemptError::Protocol(m) => res == RelayAttemptError::Protocol {
                transport,
                message: m,
            },
        },
{
    match error {
        TransportAttemptError::PreWrite(message) | TransportAttemptError::Transport(message) => {
            RelayAttemptError::Transport { transport, message }
        },
        TransportAttemptError::Ambiguous(message) => RelayAttemptError::Ambiguous {
            transport,
            message,
        },
        TransportAttemptError::Server(message) => RelayAttemptError::Server { transport, message },
        TransportAttemptError::Protocol(message) => RelayAttemptError::Protocol {
            transport,
            message,
        },
    }
}

/// The outcome of an attempt over HTTP.
pub fn http_attempt(result: Result<SubmitResponse, RelayClientError>) -> (res: Result<
    SubmitResponse,
    TransportAttemptError,
>)
    ensures
        match result {
            Ok(response) => res matches Ok(r) && r == response,
            Err(error) => res matches Err(e) && e.kind() == http_error_kind(error) && e.detail()
                == error.text(),
        },
{
    match result {
        Ok(response) => Ok(response),
        Err(error) => Err(classify_http_error(error)),
    }
}

/// The outcome of an attempt over QUIC; there is no result where no connection was published.
pub fn quic_attempt(result: Option<Result<SubmitResponse, RelayClientError>>) -> (res: Result<
    SubmitResponse,
    TransportAttemptError,
>)
    ensures
        match result {
            None => res matches Err(e) && e.kind() == AttemptKind::PreWrite && e.detail()
                == "QUIC is disconnected"@,
            Some(Ok(response)) => res matches Ok(r) && r == response,
            Some(Err(error)) => res matches Err(e) && e.kind() == quic_error_kind(error)
                && e.detail() == error.text(),
        },
{
    match result {
        None => Err(TransportAttemptError::PreWrite("QUIC is disconnected".to_owned())),
        Some(Ok(response)) => Ok(response),
        Some(Err(error)) => Err(classify_quic_error(error)),
    }
}

/// A QUIC step that took too long left nothing written only where it was the opening of the
/// stream; after any other step the outcome is ambiguous.
pub proof fn lemma_timed_out_step(step: QuicStep, error: RelayClientError)
    requires
        error matches RelayClientError::Timeout(name) && name@ == step.name(),
    ensures
        quic_error_kind(error) == (if step == QuicStep::OpenStream {
            AttemptKind::PreWrite
        } else {
            AttemptKind::Ambiguous
        }),
{
    reveal_strlit("QUIC connect");
    reveal_strlit("QUIC open stream");
    reveal_strlit("QUIC write");
    reveal_strlit("QUIC read");
    assert("QUIC connect"@[5] != "QUIC open stream"@[5]);
    assert("QUIC write"@[5] != "QUIC open stream"@[5]);
    assert("QUIC read"@[5] != "QUIC open stream"@[5]);
}

/// A QUIC step that failed left nothing written only where it was the opening of the stream; once
/// the stream is open the outcome is ambiguous.
pub proof fn lemma_failed_step(step: QuicStep, reason: String)
    ensures
        quic_error_kind(step_error(step, reason)) == (match step {
            QuicStep::Connect => AttemptKind::Transport,
            QuicStep::OpenStream => AttemptKind::PreWrite,
            QuicStep::Write | QuicStep::Read => AttemptKind::Ambiguous,
        }),
{
}

/// A post that the relay answers with a status outside the successes is told to the caller as a
/// refusal, in the words of that status.
pub proof fn lemma_unsuccessful_status_is_a_refusal<T>(
    status: u16,
    text: Option<String>,
    parsed: Result<T, String>,
    res: Result<T, RelayClientError>,
)
    requires
        !is_success(status),
        reply_outcome(HttpReply::Responded { status, text, parsed }, res),
    ensures
        res matches Err(error) && failure_kind(http_error_kind(error)) == FailureKind::Server
            && error.text() == "relay returned HTTP "@ + decimal(status as nat) + ": "@ + (
        match text {
            Some(body) => body@,
            None => Seq::<char>::empty(),
        }),
{
}

/// A refusal by the relay stays a refusal, over either transport, from the client's error to what
/// the caller is told.
pub proof fn lemma_refusal_is_reported_as_such(error: RelayClientError)
    requires
        error is Status || error is QuicStatus,
    ensures
        failure_kind(http_error_kind(error)) == FailureKind::Server,
        failure_kind(quic_error_kind(error)) == FailureKind::Server,
{
}

/// How an error of the HTTP client counts: the relay's refusal as the server's, a breach of the
/// protocol as such, and every other error as a failure of the transport.
pub proof fn lemma_how_http_errors_count(error: RelayClientError)
    ensures
        http_error_kind(error) == AttemptKind::Server <==> error is Status || error is QuicStatus,
        http_error_kind(error) == AttemptKind::Protocol <==> error is Protocol || error is Json,
        http_error_kind(error) != AttemptKind::PreWrite,
        http_error_kind(error) != AttemptKind::Ambiguous,
{
}

/// How an error of the QUIC client counts: the relay's refusal as the server's, a breach of the
/// protocol as such, what failed before the stream was open as nothing written, what failed once
/// it was open as ambiguous, and every other error as a failure of the transport.
pub proof fn lemma_how_quic_errors_count(error: RelayClientError)
    ensures
        quic_error_kind(error) == AttemptKind::Server <==> error is Status || error is QuicStatus,
        quic_error_kind(error) == AttemptKind::Protocol <==> error is Protocol,
        quic_error_kind(error) == AttemptKind::PreWrite <==> error is QuicOpenStream || (
        error is Timeout && error->Timeout_0@ == "QUIC open stream"@),
        quic_error_kind(error) == AttemptKind::Ambiguous <==> error is QuicWrite
            || error is QuicFinish || error is QuicRead || error is Json || (error is Timeout
            && error->Timeout_0@ != "QUIC open stream"@),
{
}

/// What a caller is told of a failed attempt: each kind as itself, but where nothing was written
/// as a failure of the transport.
pub proof fn lemma_how_failures_are_told(kind: AttemptKind)
    ensures
        failure_kind(kind) == FailureKind::Server <==> kind == AttemptKind::Server,
        failure_kind(kind) == FailureKind::Protocol <==> kind == AttemptKind::Protocol,
        failure_kind(kind) == FailureKind::Ambiguous <==> kind == AttemptKind::Ambiguous,
        failure_kind(kind) == FailureKind::Transport <==> kind == AttemptKind::Transport || kind
            == AttemptKind::PreWrite,
{
}

/// The kind and the words of a failed attempt are its variant and what it holds.
pub proof fn lemma_attempt_errors_hold(error: TransportAttemptError)
    ensures
        error matches TransportAttemptError::PreWrite(m) ==> error.kind() == AttemptKind::PreWrite
            && error.detail() == m@,
        error matches TransportAttemptError::Ambiguous(m) ==> error.kind()
            == AttemptKind::Ambiguous && error.detail() == m@,
        error matches TransportAttemptError::Server(m) ==> error.kind() == AttemptKind::Server
            && error.detail() == m@,
        error matches TransportAttemptError::Protocol(m) ==> error.kind() == AttemptKind::Protocol
            && error.detail() == m@,
        error matches TransportAttemptError::Transport(m) ==> error.kind()
            == AttemptKind::Transport && error.detail() == m@,
{
}

/// The kind, the transport and the words of a failed submission are its variant and what it holds,
/// and the whole of it reads as the transport's name, a phrase of its kind and those words.
pub proof fn lemma_failed_submissions_hold(error: RelayAttemptError)
    ensures
        ({
            let (kind, phrase, transport, words) = match error {
                RelayAttemptError::Server { transport, message } => (
                    FailureKind::Server,
                    " server rejected the request: "@,
                    transport,
                    message@,
                ),
                RelayAttemptError::Transport { transport, message } => (
                    FailureKind::Transport,
                    " transport failed: "@,
                    transport,
                    message@,
                ),
                RelayAttemptError::Ambiguous { transport, message } => (
                    FailureKind::Ambiguous,
                    " result is ambiguous: "@,
                    transport,
                    message@,
                ),
                RelayAttemptError::Protocol { transport, message } => (
                    FailureKind::Protocol,
                    " protocol failed: "@,
                    transport,
                    message@,
                ),
            };
            &&& error.kind() == kind
            &&& error.over() == transport
            &&& error.detail() == words
            &&& error.text() == "relay "@ + (if transport == RelayTransport::Quic {
                "Quic"@
            } else {
                "Http"@
            }) + phrase + words
        }),
{
}

} // verus!
