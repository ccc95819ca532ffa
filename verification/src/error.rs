//! Errors of the wire protocol.
use crate::text::{decimal, decimal_text};
use crate::transaction::{Base64Error, TransactionVersion};
use vstd::prelude::*;

verus! {

/// Why a request, a frame or a transaction is refused.
#[derive(Debug)]
#[allow(inconsistent_fields)]
pub enum ProtocolError {
    UnsupportedVersion(u8),
    InvalidPayload(&'static str),
    FrameTooShort,
    HeaderTooLarge { actual: usize, max: usize },
    TransactionTooLarge { actual: usize, max: usize },
    TransactionLengthMismatch { declared: usize, actual: usize },
    TransactionVersionMismatch { declared: TransactionVersion, classified: TransactionVersion },
    UnsupportedTransactionVersion { protocol_version: u8, transaction_version: TransactionVersion },
    /// The JSON codec's own account of what went wrong.
    Json(String),
    Base64(Base64Error),
}

/// Two numbers with `prefix` before the first and `middle` between them.
pub open spec fn two_numbers(prefix: Seq<char>, a: nat, middle: Seq<char>, b: nat) -> Seq<char> {
    prefix + decimal(a) + middle + decimal(b)
}

fn two_numbers_text(prefix: &str, a: usize, middle: &str, b: usize) -> (res: String)
    ensures
        res@ == two_numbers(prefix@, a as nat, middle@, b as nat),
{
    let mut out = prefix.to_owned();
    out.append(decimal_text(a as u64).as_str());
    out.append(middle);
    out.append(decimal_text(b as u64).as_str());
    out
}

impl ProtocolError {
    /// The error in words.
    pub open spec fn text(self) -> Seq<char> {
        match self {
            ProtocolError::UnsupportedVersion(version) => "unsupported protocol version: "@
                + decimal(version as nat),
            ProtocolError::InvalidPayload(reason) => "invalid payload: "@ + reason@,
            ProtocolError::FrameTooShort => "frame is too short"@,
            ProtocolError::HeaderTooLarge { actual, max } => two_numbers(
                "frame header is too large: "@,
                actual as nat,
                " > "@,
                max as nat,
            ),
            ProtocolError::TransactionTooLarge { actual, max } => two_numbers(
                "transaction is too large: "@,
                actual as nat,
                " > "@,
                max as nat,
            ),
            ProtocolError::TransactionLengthMismatch { declared, actual } => two_numbers(
                "transaction length does not match header: declared "@,
                declared as nat,
                ", actual "@,
                actual as nat,
            ),
            ProtocolError::TransactionVersionMismatch { declared, classified } =>
                "transaction version does not match its bytes: declared "@ + declared.name()
                    + ", classified "@ + classified.name(),
            ProtocolError::UnsupportedTransactionVersion { protocol_version, transaction_version } =>
                "protocol version "@ + decimal(protocol_version as nat)
                    + " does not carry transaction version "@ + transaction_version.name(),
            ProtocolError::Json(reason) => "invalid json: "@ + reason@,
            ProtocolError::Base64(error) => "invalid base64 transaction: "@ + error.text(),
        }
    }

    /// The error in words.
    pub fn message(&self) -> (res: String)
        ensures
            res@ == self.text(),
    {
        match self {
            ProtocolError::UnsupportedVersion(version) => {
                let mut out = "unsupported protocol version: ".to_owned();
                out.append(decimal_text(*version as u64).as_str());
                out
            },
            ProtocolError::InvalidPayload(reason) => {
                let mut out = "invalid payload: ".to_owned();
                out.append(reason);
                out
            },
            ProtocolError::FrameTooShort => "frame is too short".to_owned(),
            ProtocolError::HeaderTooLarge { actual, max } => two_numbers_text(
                "frame header is too large: ",
                *actual,
                " > ",
                *max,
            ),
            ProtocolError::TransactionTooLarge { actual, max } => two_numbers_text(
                "transaction is too large: ",
                *actual,
                " > ",
                *max,
            ),
            ProtocolError::TransactionLengthMismatch { declared, actual } => two_numbers_text(
                "transaction length does not match header: declared ",
                *declared,
                ", actual ",
                *actual,
            ),
            ProtocolError::TransactionVersionMismatch { declared, classified } => {
                let mut out = "transaction version does not match its bytes: declared ".to_owned();
                out.append(declared.name_text());
                out.append(", classified ");
                out.append(classified.name_text());
                out
            },
            ProtocolError::UnsupportedTransactionVersion {
                protocol_version,
                transaction_version,
            } => {
                let mut out = "protocol version ".to_owned();
                out.append(decimal_text(*protocol_version as u64).as_str());
                out.append(" does not carry transaction version ");
                out.append(transaction_version.name_text());
                out
            },
            ProtocolError::Json(reason) => {
                let mut out = "invalid json: ".to_owned();
                out.append(reason.as_str());
                out
            },
            ProtocolError::Base64(error) => {
                let mut out = "invalid base64 transaction: ".to_owned();
                out.append(error.message().as_str());
                out
            },
        }
    }
}

/// What an error says: a phrase of its own kind, then the numbers, names or words that it holds, in
/// that order.
pub proof fn lemma_protocol_error_words(error: ProtocolError)
    ensures
        match error {
            ProtocolError::UnsupportedVersion(version) => error.text()
                == "unsupported protocol version: "@ + decimal(version as nat),
            ProtocolError::InvalidPayload(reason) => error.text() == "invalid payload: "@ + reason@,
            ProtocolError::FrameTooShort => error.text() == "frame is too short"@,
            ProtocolError::HeaderTooLarge { actual, max } => error.text()
                == "frame header is too large: "@ + decimal(actual as nat) + " > "@ + decimal(
                max as nat,
            ),
            ProtocolError::TransactionTooLarge { actual, max } => error.text()
                == "transaction is too large: "@ + decimal(actual as nat) + " > "@ + decimal(
                max as nat,
            ),
            ProtocolError::TransactionLengthMismatch { declared, actual } => error.text()
                == "transaction length does not match header: declared "@ + decimal(declared as nat)
                + ", actual "@ + decimal(actual as nat),
            ProtocolError::TransactionVersionMismatch { declared, classified } => error.text()
                == "transaction version does not match its bytes: declared "@ + declared.name()
                + ", classified "@ + classified.name(),
            ProtocolError::UnsupportedTransactionVersion { protocol_version, transaction_version } =>
                error.text() == "protocol version "@ + decimal(protocol_version as nat)
                    + " does not carry transaction version "@ + transaction_version.name(),
            ProtocolError::Json(reason) => error.text() == "invalid json: "@ + reason@,
            ProtocolError::Base64(reason) => error.text() == "invalid base64 transaction: "@
                + reason.text(),
        },
{
}

} // verus!
