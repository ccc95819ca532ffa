//! Transaction formats and the base64 text that carries raw transactions.
use crate::error::ProtocolError;
use crate::text::{decimal, decimal_text};
use base64::Engine;
use vstd::prelude::*;

verus! {

/// The largest raw transaction of the legacy and v0 formats, in bytes.
pub const DEFAULT_MAX_TRANSACTION_BYTES: usize = 1232;

/// The largest raw transaction of the v1 format, in bytes.
pub const MAX_V1_TRANSACTION_BYTES: usize = 4096;

/// The format of a raw transaction.
#[derive(Debug, Clone, Copy, PartialEq, Eq, Structural)]
pub enum TransactionVersion {
    Legacy,
    V0,
    V1,
}

impl TransactionVersion {
    /// The byte ceiling of a raw transaction in this format.
    pub open spec fn max_bytes(self) -> nat {
        match self {
            TransactionVersion::Legacy | TransactionVersion::V0 => 1232,
            TransactionVersion::V1 => 4096,
        }
    }

    /// The byte ceiling of a raw transaction in this format.
    pub fn max_transaction_bytes(self) -> (res: usize)
        ensures
            res == self.max_bytes(),
            res == (if self == TransactionVersion::V1 {
                4096
            } else {
                1232int
            }),
    {
        match self {
            TransactionVersion::Legacy | TransactionVersion::V0 => DEFAULT_MAX_TRANSACTION_BYTES,
            TransactionVersion::V1 => MAX_V1_TRANSACTION_BYTES,
        }
    }

    /// Whether protocol version one can carry a transaction in this format.
    pub fn supports_protocol_v1(self) -> (res: bool)
        ensures
            res == (self != TransactionVersion::V1),
    {
        matches!(self, TransactionVersion::Legacy | TransactionVersion::V0)
    }

    /// The name of the format.
    pub open spec fn name(self) -> Seq<char> {
        match self {
            TransactionVersion::Legacy => "Legacy"@,
            TransactionVersion::V0 => "V0"@,
            TransactionVersion::V1 => "V1"@,
        }
    }

    /// The name of the format.
    pub fn name_text(self) -> (res: &'static str)
        ensures
            res@ == self.name(),
    {
        match self {
            TransactionVersion::Legacy => "Legacy",
            TransactionVersion::V0 => "V0",
            TransactionVersion::V1 => "V1",
        }
    }
}

/// Why a text is not the base64 form of a transaction.
#[derive(Debug, Clone, Copy, PartialEq, Eq, Structural)]
pub enum Base64Error {
    /// The byte at the offset is not a symbol, or is padding in the wrong place.
    InvalidByte(usize, u8),
    /// The number of symbols cannot be that of an encoding.
    InvalidLength(usize),
    /// The last symbol, at the offset, has bits set that no byte would use.
    InvalidLastSymbol(usize, u8),
    /// The padding is absent or incomplete.
    InvalidPadding,
}

impl Base64Error {
    /// The error in words.
    pub open spec fn text(self) -> Seq<char> {
        match self {
            Base64Error::InvalidByte(offset, byte) => "Invalid symbol "@ + decimal(byte as nat)
                + ", offset "@ + decimal(offset as nat) + "."@,
            Base64Error::InvalidLength(len) => "Invalid input length: "@ + decimal(len as nat),
            Base64Error::InvalidLastSymbol(offset, byte) => "Invalid last symbol "@ + decimal(
                byte as nat,
            ) + ", offset "@ + decimal(offset as nat) + "."@,
            Base64Error::InvalidPadding => "Invalid padding"@,
        }
    }

    /// The error in words.
    pub fn message(&self) -> (res: String)
        ensures
            res@ == self.text(),
    {
        match self {
            Base64Error::InvalidByte(offset, byte) => {
                let mut out = "Invalid symbol ".to_owned();
                out.append(decimal_text(*byte as u64).as_str());
                out.append(", offset ");
                out.append(decimal_text(*offset as u64).as_str());
                out.append(".");
                out
            },
            Base64Error::InvalidLength(len) => {
                let mut out = "Invalid input length: ".to_owned();
                out.append(decimal_text(*len as u64).as_str());
                out
            },
            Base64Error::InvalidLastSymbol(offset, byte) => {
                let mut out = "Invalid last symbol ".to_owned();
                out.append(decimal_text(*byte as u64).as_str());
                out.append(", offset ");
                out.append(decimal_text(*offset as u64).as_str());
                out.append(".");
                out
            },
            Base64Error::InvalidPadding => "Invalid padding".to_owned(),
        }
    }
}

/// The padded base64 text of `bytes` over the standard alphabet.
pub uninterp spec fn base64_text(bytes: Seq<u8>) -> Seq<char>;

/// What strict decoding of `text` over the standard alphabet gives.
pub uninterp spec fn base64_decoding(text: Seq<char>) -> Result<Seq<u8>, Base64Error>;

/// The successful decoding to `bytes`.
pub open spec fn decoded(bytes: Seq<u8>) -> Result<Seq<u8>, Base64Error> {
    Ok(bytes)
}

/// A decoding with its bytes as a sequence.
pub open spec fn decoding_view(res: Result<Vec<u8>, Base64Error>) -> Result<Seq<u8>, Base64Error> {
    match res {
        Ok(bytes) => Ok(bytes@),
        Err(error) => Err(error),
    }
}

/// The length of the padded base64 text of `n` bytes.
pub open spec fn base64_len(n: nat) -> nat {
    4 * ((n + 2) / 3)
}

/// `base64::Engine::encode` on the `STANDARD` engine. The text is a function of the bytes alone,
/// has four characters for each started group of three bytes, and decodes on the same engine to
/// the bytes it was made from. The text must fit in memory: the engine allocates all of it
/// before it writes.
#[verifier::external_body]
fn standard_encode(bytes: &[u8]) -> (res: String)
    requires
        base64_len(bytes@.len()) <= isize::MAX,
    ensures
        res@ == base64_text(bytes@),
        res@.len() == base64_len(bytes@.len()),
        base64_decoding(res@) == decoded(bytes@),
{
    base64::engine::general_purpose::STANDARD.encode(bytes)
}

/// `base64::Engine::decode` on the `STANDARD` engine. The outcome is a function of the text
/// alone. The engine accepts only canonical padding and no stray trailing bits, so a text that
/// it accepts is the encoding of the bytes that it gives.
#[verifier::external_body]
fn standard_decode(text: &str) -> (res: Result<Vec<u8>, Base64Error>)
    ensures
        decoding_view(res) == base64_decoding(text@),
        res matches Ok(bytes) ==> base64_text(bytes@) == text@,
{
    base64::engine::general_purpose::STANDARD.decode(text).map_err(
        |error| match error {
            base64::DecodeError::InvalidByte(offset, byte) => Base64Error::InvalidByte(offset, byte),
            base64::DecodeError::InvalidLength(len) => Base64Error::InvalidLength(len),
            base64::DecodeError::InvalidLastSymbol(offset, byte) => Base64Error::InvalidLastSymbol(offset, byte),
            base64::DecodeError::InvalidPadding => Base64Error::InvalidPadding,
        },
    )
}

/// The base64 text of a raw transaction.
pub fn encode_transaction_base64(transaction: &[u8]) -> (res: String)
    requires
        base64_len(transaction@.len()) <= isize::MAX,
    ensures
        res@ == base64_text(transaction@),
        res@.len() == base64_len(transaction@.len()),
        base64_decoding(res@) == decoded(transaction@),
        base64_decoding(res@) is Ok && base64_decoding(res@)->Ok_0 == transaction@,
{
    standard_encode(transaction)
}

/// The raw transaction that a base64 text carries.
pub fn decode_transaction_base64(transaction: &str) -> (res: Result<Vec<u8>, ProtocolError>)
    ensures
        match base64_decoding(transaction@) {
            Ok(bytes) => res matches Ok(decoded) && decoded@ == bytes,
            Err(error) => res matches Err(e) && e == ProtocolError::Base64(error),
        },
        res matches Ok(decoded) ==> base64_text(decoded@) == transaction@,
{
    match standard_decode(transaction) {
        Ok(bytes) => Ok(bytes),
        Err(error) => Err(ProtocolError::Base64(error)),
    }
}

/// The ceilings and the names of the formats.
pub proof fn lemma_formats(version: TransactionVersion)
    ensures
        version == TransactionVersion::V1 ==> version.max_bytes() == 4096 && version.name() == "V1"@,
        version == TransactionVersion::V0 ==> version.max_bytes() == 1232 && version.name() == "V0"@,
        version == TransactionVersion::Legacy ==> version.max_bytes() == 1232 && version.name()
            == "Legacy"@,
{
}

/// What a refusal of a base64 text says: its kind, then the byte and the offset, or the length.
pub proof fn lemma_base64_error_words(error: Base64Error)
    ensures
        match error {
            Base64Error::InvalidByte(offset, byte) => error.text() == "Invalid symbol "@ + decimal(
                byte as nat,
            ) + ", offset "@ + decimal(offset as nat) + "."@,
            Base64Error::InvalidLength(len) => error.text() == "Invalid input length: "@ + decimal(
                len as nat,
            ),
            Base64Error::InvalidLastSymbol(offset, byte) => error.text() == "Invalid last symbol "@
                + decimal(byte as nat) + ", offset "@ + decimal(offset as nat) + "."@,
            Base64Error::InvalidPadding => error.text() == "Invalid padding"@,
        },
{
}

} // verus!
