//! Errors of the relay clients.
use crate::error::ProtocolError;
use crate::text::{decimal, decimal_text};
use vstd::prelude::*;

verus! {

/// Why a client could not be made or a submission failed.
///
/// A failure of a transport library is held as that library's own account of it.
#[derive(Debug)]
pub enum RelayClientError {
    InvalidConfig(&'static str),
    HttpClient(String),
    Http(String),
    Status { status: u16, body: String },
    Protocol(ProtocolError),
    QuicEndpoint(String),
    QuicConnectStart(String),
    QuicConnect(String),
    QuicClientConfig(String),
    QuicOpenStream(String),
    QuicWrite(String),
    QuicFinish(String),
    QuicRead(String),
    Timeout(&'static str),
    QuicStatus(String),
    Json(String),
}

fn prefixed(prefix: &str, rest: &str) -> (res: String)
    ensures
        res@ == prefix@ + rest@,
{
    let mut out = prefix.to_owned();
    out.append(rest);
    out
}

impl RelayClientError {
    /// The error in words.
    pub open spec fn text(self) -> Seq<char> {
        match self {
            RelayClientError::InvalidConfig(reason) => "invalid relay client config: "@ + reason@,
            RelayClientError::HttpClient(reason) => "failed to build HTTP client: "@ + reason@,
            RelayClientError::Http(reason) => "HTTP request failed: "@ + reason@,
            RelayClientError::Status { status, body } => "relay returned HTTP "@ + decimal(
                status as nat,
            ) + ": "@ + body@,
            RelayClientError::Protocol(error) => "invalid relay protocol request: "@ + error.text(),
            RelayClientError::QuicEndpoint(reason) => "failed to build QUIC endpoint: "@ + reason@,
            RelayClientError::QuicConnectStart(reason) => "failed to start QUIC connection: "@
                + reason@,
            RelayClientError::QuicConnect(reason) => "failed to connect QUIC: "@ + reason@,
            RelayClientError::QuicClientConfig(reason) => "failed to build QUIC client config: "@
                + reason@,
            RelayClientError::QuicOpenStream(reason) => "failed to open QUIC stream: "@ + reason@,
            RelayClientError::QuicWrite(reason) => "failed to write QUIC stream: "@ + reason@,
            RelayClientError::QuicFinish(reason) => "failed to finish QUIC stream: "@ + reason@,
            RelayClientError::QuicRead(reason) => "failed to read QUIC response: "@ + reason@,
            RelayClientError::Timeout(step) => "QUIC request timed out during "@ + step@,
            RelayClientError::QuicStatus(body) => "relay returned QUIC error: "@ + body@,
            RelayClientError::Json(reason) => "invalid relay response json: "@ + reason@,
        }
    }

    /// The error in words.
    pub fn message(&self) -> (res: String)
        ensures
            res@ == self.text(),
    {
        match self {
            RelayClientError::InvalidConfig(reason) => prefixed(
                "invalid relay client config: ",
                reason,
            ),
            RelayClientError::HttpClient(reason) => prefixed(
                "failed to build HTTP client: ",
                reason.as_str(),
            ),
            RelayClientError::Http(reason) => prefixed("HTTP request failed: ", reason.as_str()),
            RelayClientError::Status { status, body } => {
                let mut out = "relay returned HTTP ".to_owned();
                out.append(decimal_text(*status as u64).as_str());
                out.append(": ");
                out.append(body.as_str());
                out
            },
            RelayClientError::Protocol(error) => prefixed(
                "invalid relay protocol request: ",
                error.message().as_str(),
            ),
            RelayClientError::QuicEndpoint(reason) => prefixed(
                "failed to build QUIC endpoint: ",
                reason.as_str(),
            ),
            RelayClientError::QuicConnectStart(reason) => prefixed(
                "failed to start QUIC connection: ",
                reason.as_str(),
            ),
            RelayClientError::QuicConnect(reason) => prefixed(
                "failed to connect QUIC: ",
                reason.as_str(),
            ),
            RelayClientError::QuicClientConfig(reason) => prefixed(
                "failed to build QUIC client config: ",
                reason.as_str(),
            ),
            RelayClientError::QuicOpenStream(reason) => prefixed(
                "failed to open QUIC stream: ",
                reason.as_str(),
            ),
            RelayClientError::QuicWrite(reason) => prefixed(
                "failed to write QUIC stream: ",
                reason.as_str(),
            ),
            RelayClientError::QuicFinish(reason) => prefixed(
                "failed to finish QUIC stream: ",
                reason.as_str(),
            ),
            RelayClientError::QuicRead(reason) => prefixed(
                "failed to read QUIC response: ",
                reason.as_str(),
            ),
            RelayClientError::Timeout(step) => prefixed("QUIC request timed out during ", step),
            RelayClientError::QuicStatus(body) => prefixed(
                "relay returned QUIC error: ",
                body.as_str(),
            ),
            RelayClientError::Json(reason) => prefixed(
                "invalid relay response json: ",
                reason.as_str(),
            ),
        }
    }
}

/// What an error says: a phrase of its own kind, then the reason that it holds, word for word.
pub proof fn lemma_client_error_words(error: RelayClientError)
    ensures
        match error {
            RelayClientError::InvalidConfig(reason) => error.text() == "invalid relay client config: "@ + reason@,
            RelayClientError::HttpClient(reason) => error.text() == "failed to build HTTP client: "@ + reason@,
            RelayClientError::Http(reason) => error.text() == "HTTP request failed: "@ + reason@,
            RelayClientError::QuicEndpoint(reason) => error.text() == "failed to build QUIC endpoint: "@ + reason@,
            RelayClientError::QuicConnectStart(reason) => error.text() == "failed to start QUIC connection: "@ + reason@,
            RelayClientError::QuicConnect(reason) => error.text() == "failed to connect QUIC: "@ + reason@,
            RelayClientError::QuicClientConfig(reason) => error.text() == "failed to build QUIC client config: "@ + reason@,
            RelayClientError::QuicOpenStream(reason) => error.text() == "failed to open QUIC stream: "@ + reason@,
            RelayClientError::QuicWrite(reason) => error.text() == "failed to write QUIC stream: "@ + reason@,
            RelayClientError::QuicFinish(reason) => error.text() == "failed to finish QUIC stream: "@ + reason@,
            RelayClientError::QuicRead(reason) => error.text() == "failed to read QUIC response: "@ + reason@,
            RelayClientError::Timeout(reason) => error.text() == "QUIC request timed out during "@ + reason@,
            RelayClientError::QuicStatus(reason) => error.text() == "relay returned QUIC error: "@ + reason@,
            RelayClientError::Json(reason) => error.text() == "invalid relay response json: "@ + reason@,
            RelayClientError::Status { status, body } => error.text() == "relay returned HTTP "@
                + decimal(status as nat) + ": "@ + body@,
            RelayClientError::Protocol(reason) => error.text()
                == "invalid relay protocol request: "@ + reason.text(),
        },
{
}

} // verus!
