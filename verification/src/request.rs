//! The HTTP submission envelope and its rules.
use crate::error::ProtocolError;
use crate::routes::RouteSet;
use vstd::prelude::*;

verus! {

/// The version of the established protocol.
pub const VERSION: u8 = 1;

/// The version of the protocol that carries larger transactions.
pub const VERSION_V2: u8 = 2;

/// The most transactions that one bundle may hold.
pub const DEFAULT_MAX_BUNDLE_TRANSACTIONS: usize = 5;

/// What a request asks the relay to do.
#[derive(Debug, Clone, Copy, PartialEq, Eq, Structural)]
pub enum RelayMethod {
    SendTransaction,
    SendTransactionFast,
    SendBundle,
}

/// When the relay answers a request.
#[derive(Debug, Clone, Copy, PartialEq, Eq, Structural)]
pub enum ResponseMode {
    Fast,
    RouteResults,
}

/// The text form of a transaction in an envelope.
#[derive(Debug, Clone, Copy, PartialEq, Eq, Structural)]
pub enum TransactionEncoding {
    Base64,
}

/// A submission over HTTP.
#[derive(Debug, PartialEq, Eq)]
pub struct SubmitRequest {
    pub version: u8,
    pub method: RelayMethod,
    pub request_id: Option<String>,
    pub route_set: RouteSet,
    pub response_mode: Option<ResponseMode>,
    pub transaction_encoding: Option<TransactionEncoding>,
    pub transaction: Option<String>,
    pub transactions: Option<Vec<String>>,
}

impl Clone for SubmitRequest {
    fn clone(&self) -> (res: Self)
        ensures
            res.version == self.version,
            res.method == self.method,
            res.request_id == self.request_id,
            res.route_set.mode == self.route_set.mode,
            res.route_set.routes@ == self.route_set.routes@,
            res.response_mode == self.response_mode,
            res.transaction_encoding == self.transaction_encoding,
            res.transaction == self.transaction,
            match self.transactions {
                Some(bundle) => res.transactions matches Some(copy) && copy@ == bundle@,
                None => res.transactions is None,
            },
    {
        let transactions = match &self.transactions {
            Some(bundle) => {
                let copy = bundle.clone();
                assert(copy@ =~= bundle@);
                Some(copy)
            },
            None => None,
        };
        SubmitRequest {
            version: self.version,
            method: self.method,
            request_id: copy_text(&self.request_id),
            route_set: self.route_set.clone(),
            response_mode: self.response_mode,
            transaction_encoding: self.transaction_encoding,
            transaction: copy_text(&self.transaction),
            transactions,
        }
    }
}

/// A copy of an optional text.
pub fn copy_text(text: &Option<String>) -> (res: Option<String>)
    ensures
        res == *text,
{
    match text {
        Some(text) => Some(text.clone()),
        None => None,
    }
}

/// What a check of the version `version` against the one that is spoken gives.
pub open spec fn version_check(version: u8, spoken: u8) -> Result<(), ProtocolError> {
    if version == spoken {
        Ok(())
    } else {
        Err(ProtocolError::UnsupportedVersion(version))
    }
}

/// Accepts protocol version one alone.
pub fn validate_version(version: u8) -> (res: Result<(), ProtocolError>)
    ensures
        res == version_check(version, VERSION),
        res is Ok <==> version == 1,
{
    if version == VERSION {
        Ok(())
    } else {
        Err(ProtocolError::UnsupportedVersion(version))
    }
}

/// Accepts protocol version two alone.
pub fn validate_version_v2(version: u8) -> (res: Result<(), ProtocolError>)
    ensures
        res == version_check(version, VERSION_V2),
        res is Ok <==> version == 2,
{
    if version == VERSION_V2 {
        Ok(())
    } else {
        Err(ProtocolError::UnsupportedVersion(version))
    }
}

impl SubmitRequest {
    /// Whether the request carries one transaction and no bundle.
    pub open spec fn carries_single(self) -> bool {
        self.transaction is Some && self.transactions is None
    }

    /// Whether the request carries a bundle of one to five transactions and nothing else.
    pub open spec fn carries_bundle(self) -> bool {
        &&& self.transaction is None
        &&& self.transactions matches Some(bundle)
        &&& 1 <= bundle@.len() <= 5
    }

    /// What a check of the request's shape gives: the version is checked first, then that the
    /// payload is the one that the method takes.
    pub open spec fn shape_check(self) -> Result<(), ProtocolError> {
        if self.version != VERSION {
            Err(ProtocolError::UnsupportedVersion(self.version))
        } else if self.method == RelayMethod::SendBundle {
            if self.carries_bundle() {
                Ok(())
            } else {
                Err(ProtocolError::InvalidPayload("sendBundle requires 1..=5 transactions"))
            }
        } else {
            if self.carries_single() {
                Ok(())
            } else {
                Err(
                    ProtocolError::InvalidPayload(
                        "single transaction methods require transaction only",
                    ),
                )
            }
        }
    }

    /// Whether the request asks, by either single-transaction method, for `transaction` to go
    /// over `route_set`, with nothing else set.
    pub open spec fn is_single_request(self, transaction: Seq<char>, route_set: RouteSet) -> bool {
        &&& self.version == VERSION
        &&& self.method != RelayMethod::SendBundle
        &&& self.request_id is None
        &&& self.route_set == route_set
        &&& self.response_mode is None
        &&& self.transaction_encoding == Some(TransactionEncoding::Base64)
        &&& self.transaction matches Some(text)
        &&& text@ == transaction
        &&& self.transactions is None
    }

    /// Whether the request asks for the bundle `transactions` to go over `route_set`, with
    /// nothing else set.
    pub open spec fn is_bundle_request(
        self,
        transactions: Vec<String>,
        route_set: RouteSet,
    ) -> bool {
        &&& self.version == VERSION
        &&& self.method == RelayMethod::SendBundle
        &&& self.request_id is None
        &&& self.route_set == route_set
        &&& self.response_mode is None
        &&& self.transaction_encoding == Some(TransactionEncoding::Base64)
        &&& self.transaction is None
        &&& self.transactions == Some(transactions)
    }

    /// A request to send one transaction. It is always well shaped.
    pub fn send_transaction_base64(transaction: &str, route_set: RouteSet) -> (res: Self)
        ensures
            res.is_single_request(transaction@, route_set),
            res.method == RelayMethod::SendTransaction,
            res.shape_check() is Ok,
    {
        SubmitRequest {
            version: VERSION,
            method: RelayMethod::SendTransaction,
            request_id: None,
            route_set,
            response_mode: None,
            transaction_encoding: Some(TransactionEncoding::Base64),
            transaction: Some(transaction.to_owned()),
            transactions: None,
        }
    }

    /// A request to send a bundle. It is well shaped where the bundle's size is in range.
    pub fn send_bundle_base64(transactions: Vec<String>, route_set: RouteSet) -> (res: Self)
        ensures
            res.is_bundle_request(transactions, route_set),
            res.shape_check() is Ok <==> 1 <= transactions@.len() <= 5,
    {
        SubmitRequest {
            version: VERSION,
            method: RelayMethod::SendBundle,
            request_id: None,
            route_set,
            response_mode: None,
            transaction_encoding: Some(TransactionEncoding::Base64),
            transaction: None,
            transactions: Some(transactions),
        }
    }

    /// Checks that the request is of a known version and carries what its method takes.
    pub fn validate_shape(&self) -> (res: Result<(), ProtocolError>)
        ensures
            res == self.shape_check(),
    {
        if let Err(error) = validate_version(self.version) {
            return Err(error);
        }
        match self.method {
            RelayMethod::SendTransaction | RelayMethod::SendTransactionFast => {
                if self.transaction.is_none() || self.transactions.is_some() {
                    return Err(
                        ProtocolError::InvalidPayload(
                            "single transaction methods require transaction only",
                        ),
                    );
                }
            },
            RelayMethod::SendBundle => {
                let count: usize = match &self.transactions {
                    Some(bundle) => bundle.len(),
                    None => 0,
                };
                if self.transaction.is_some() || count == 0 || count
                    > DEFAULT_MAX_BUNDLE_TRANSACTIONS {
                    return Err(
                        ProtocolError::InvalidPayload("sendBundle requires 1..=5 transactions"),
                    );
                }
            },
        }
        Ok(())
    }
}

/// Which requests are well shaped: those of version one whose method takes one transaction and
/// that hold one and no bundle, and those that hold a bundle of one to five and nothing else. A
/// wrong version is told before a wrong payload, and the payload's refusal names what the method
/// takes.
pub proof fn lemma_which_requests_are_well_shaped(request: SubmitRequest)
    ensures
        request.version != 1 ==> request.shape_check() == Err::<(), ProtocolError>(
            ProtocolError::UnsupportedVersion(request.version),
        ),
        request.version == 1 && request.method != RelayMethod::SendBundle ==> request.shape_check()
            == (if request.transaction is Some && request.transactions is None {
            Ok::<(), ProtocolError>(())
        } else {
            Err(ProtocolError::InvalidPayload("single transaction methods require transaction only"))
        }),
        request.version == 1 && request.method == RelayMethod::SendBundle ==> request.shape_check()
            == (if request.transaction is None && request.transactions is Some && 1
            <= request.transactions->Some_0@.len() && request.transactions->Some_0@.len() <= 5 {
            Ok::<(), ProtocolError>(())
        } else {
            Err(ProtocolError::InvalidPayload("sendBundle requires 1..=5 transactions"))
        }),
{
}

/// A request for one transaction holds it, its routes and its encoding, and nothing else.
pub proof fn lemma_single_request_holds(
    request: SubmitRequest,
    transaction: Seq<char>,
    route_set: RouteSet,
)
    requires
        request.is_single_request(transaction, route_set),
    ensures
        request.version == 1,
        request.method == RelayMethod::SendTransaction || request.method
            == RelayMethod::SendTransactionFast,
        request.route_set == route_set,
        request.transaction is Some && request.transaction->Some_0@ == transaction,
        request.transaction_encoding == Some(TransactionEncoding::Base64),
        request.request_id is None && request.response_mode is None && request.transactions is None,
{
}

/// A request for a bundle holds its transactions, its routes and their encoding, and nothing else.
pub proof fn lemma_bundle_request_holds(
    request: SubmitRequest,
    transactions: Vec<String>,
    route_set: RouteSet,
)
    requires
        request.is_bundle_request(transactions, route_set),
    ensures
        request.version == 1,
        request.method == RelayMethod::SendBundle,
        request.route_set == route_set,
        request.transactions is Some && request.transactions->Some_0 == transactions,
        request.transaction_encoding == Some(TransactionEncoding::Base64),
        request.request_id is None && request.response_mode is None && request.transaction is None,
{
}

/// A version passes exactly where it is the one that is spoken, and is named where it does not.
pub proof fn lemma_version_check(version: u8, spoken: u8)
    ensures
        version_check(version, spoken) is Ok <==> version == spoken,
        version != spoken ==> version_check(version, spoken) == Err::<(), ProtocolError>(
            ProtocolError::UnsupportedVersion(version),
        ),
{
}

} // verus!
