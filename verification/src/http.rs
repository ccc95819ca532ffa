//! The HTTP client's rules: which posts it makes and how it takes the relay's replies.
use crate::client_error::RelayClientError;
use crate::duration::Duration;
use crate::error::ProtocolError;
use crate::request::{RelayMethod, SubmitRequest, VERSION};
use crate::routes::RouteSet;
use crate::text::{
    blank, ends_with_text, has_suffix, is_blank, is_white_space, lemma_trimmed_empty,
    lemma_ending_is_a_last_part, lemma_trailing_copies_are_removed, lemma_trimmed_fixed,
    lemma_trimming_takes_off_whitespace, trim_trailing, trimmed, without_trailing,
};
use crate::transaction::{base64_decoding, decode_transaction_base64};
use vstd::prelude::*;
use vstd::slice::slice_to_vec;

verus! {

/// Seconds that an HTTP request may take unless configured otherwise.
pub const DEFAULT_HTTP_TIMEOUT_SECS: u64 = 2;

/// Where envelopes are posted.
pub const SUBMIT_PATH: &'static str = "/v1/submit";

/// Where JSON-RPC requests are posted.
pub const JSON_RPC_PATH: &'static str = "/v1/sendTransaction";

/// Where raw transactions are posted.
pub const RAW_TRANSACTION_PATH: &'static str = "/v1/transactions";

/// How to reach the relay over HTTP.
#[derive(Debug, PartialEq, Eq)]
pub struct RelayClientConfig {
    pub endpoint: String,
    pub api_key: String,
    pub timeout: Duration,
}

impl Clone for RelayClientConfig {
    fn clone(&self) -> (res: Self)
        ensures
            res == *self,
    {
        RelayClientConfig {
            endpoint: self.endpoint.clone(),
            api_key: self.api_key.clone(),
            timeout: self.timeout,
        }
    }
}

impl RelayClientConfig {
    /// A configuration with the default timeout.
    pub fn new(endpoint: &str, api_key: &str) -> (res: Self)
        ensures
            res.endpoint@ == endpoint@,
            res.api_key@ == api_key@,
            res.timeout.nanos() == 2_000_000_000,
    {
        RelayClientConfig {
            endpoint: endpoint.to_owned(),
            api_key: api_key.to_owned(),
            timeout: Duration::from_secs(DEFAULT_HTTP_TIMEOUT_SECS),
        }
    }

    /// The configuration with another timeout.
    pub fn with_timeout(self, timeout: Duration) -> (res: Self)
        ensures
            res.endpoint == self.endpoint,
            res.api_key == self.api_key,
            res.timeout == timeout,
    {
        RelayClientConfig { endpoint: self.endpoint, api_key: self.api_key, timeout }
    }
}

/// The relay's answer to an accepted submission.
#[derive(Debug, PartialEq, Eq)]
pub struct SubmitResponse {
    pub accepted: bool,
    pub request_id: String,
    pub signature: String,
}

impl Clone for SubmitResponse {
    fn clone(&self) -> (res: Self)
        ensures
            res == *self,
    {
        SubmitResponse {
            accepted: self.accepted,
            request_id: self.request_id.clone(),
            signature: self.signature.clone(),
        }
    }
}

/// The relay's answer to a JSON-RPC submission.
#[derive(Debug, PartialEq, Eq)]
pub struct JsonRpcSubmitResponse {
    pub result: String,
    pub request_id: String,
}

impl Clone for JsonRpcSubmitResponse {
    fn clone(&self) -> (res: Self)
        ensures
            res == *self,
    {
        JsonRpcSubmitResponse { result: self.result.clone(), request_id: self.request_id.clone() }
    }
}

/// A JSON-RPC call: its parameters are the transaction and an object with its encoding.
#[derive(Debug, PartialEq, Eq)]
pub struct JsonRpcSubmitRequest {
    pub jsonrpc: &'static str,
    pub id: u64,
    pub method: &'static str,
    pub transaction: String,
    pub encoding: &'static str,
}

/// What a post carries.
#[derive(Debug)]
pub enum HttpBody {
    /// An envelope, as JSON.
    Envelope(SubmitRequest),
    /// A JSON-RPC call, as JSON.
    JsonRpc(JsonRpcSubmitRequest),
    /// A raw transaction, as an octet stream.
    Raw(Vec<u8>),
}

/// A post to make.
#[derive(Debug)]
pub struct HttpPost {
    pub url: String,
    pub credential: String,
    pub body: HttpBody,
}

/// Headers with their names and values as sequences.
pub open spec fn headers_view(headers: Seq<(&'static str, String)>) -> Seq<(Seq<char>, Seq<char>)> {
    headers.map_values(|header: (&'static str, String)| (header.0@, header.1@))
}

impl HttpPost {
    /// The headers that the post sets: the credential as a bearer token and as the API key, and
    /// the content type of a raw transaction.
    pub open spec fn header_list(self) -> Seq<(Seq<char>, Seq<char>)> {
        let keys = seq![
            ("authorization"@, "Bearer "@ + self.credential@),
            ("x-api-key"@, self.credential@),
        ];
        if self.body is Raw {
            keys.push(("content-type"@, "application/octet-stream"@))
        } else {
            keys
        }
    }

    /// The headers that the post sets. The content type of a JSON body is left to its writer.
    pub fn headers(&self) -> (res: Vec<(&'static str, String)>)
        ensures
            headers_view(res@) == self.header_list(),
            res@.len() == (if self.body is Raw {
                3int
            } else {
                2int
            }),
            res@[0].0@ == "authorization"@ && res@[0].1@ == "Bearer "@ + self.credential@,
            res@[1].0@ == "x-api-key"@ && res@[1].1@ == self.credential@,
            self.body is Raw ==> res@[2].0@ == "content-type"@ && res@[2].1@
                == "application/octet-stream"@,
    {
        let mut bearer = "Bearer ".to_owned();
        bearer.append(self.credential.as_str());
        let mut out: Vec<(&'static str, String)> = Vec::new();
        out.push(("authorization", bearer));
        out.push(("x-api-key", self.credential.clone()));
        if let HttpBody::Raw(_) = &self.body {
            out.push(("content-type", "application/octet-stream".to_owned()));
        }
        assert(headers_view(out@) =~= self.header_list());
        out
    }
}

/// How a post ended.
#[derive(Debug)]
pub enum HttpReply<T> {
    /// The request could not be made.
    Failed(String),
    /// The relay answered with this status: the text of its body, read where the status is no
    /// success and absent where it could not be read, and what the body reads as, of account
    /// where the status is a success.
    Responded { status: u16, text: Option<String>, parsed: Result<T, String> },
}

/// A client that posts submissions to one relay endpoint.
#[derive(Debug)]
pub struct RelayClient {
    config: RelayClientConfig,
}

/// What a check of a client configuration gives: the endpoint is checked first.
pub open spec fn config_check(config: RelayClientConfig) -> Result<(), RelayClientError> {
    if is_blank(config.endpoint@) {
        Err(RelayClientError::InvalidConfig("endpoint is empty"))
    } else if is_blank(config.api_key@) {
        Err(RelayClientError::InvalidConfig("api_key is empty"))
    } else {
        Ok(())
    }
}

/// An endpoint without the whitespace around it and the slashes that end it.
pub open spec fn base_url(endpoint: Seq<char>) -> Seq<char> {
    without_trailing(trimmed(endpoint), '/')
}

/// The URL of `path` at an endpoint, which may name the path already.
pub open spec fn url_of(endpoint: Seq<char>, path: Seq<char>) -> Seq<char> {
    if ends_with_text(base_url(endpoint), path) {
        base_url(endpoint)
    } else {
        base_url(endpoint) + path
    }
}

/// Whether an HTTP status is a success.
pub open spec fn is_success(status: u16) -> bool {
    200 <= status < 300
}

/// Whether an HTTP status is a success.
pub fn is_success_status(status: u16) -> (res: bool)
    ensures
        res == is_success(status),
        res == (200 <= status < 300),
{
    200 <= status && status < 300
}

/// The outcome of a post: the status alone decides whether the relay refused it.
pub open spec fn reply_outcome<T>(reply: HttpReply<T>, res: Result<T, RelayClientError>) -> bool {
    match reply {
        HttpReply::Failed(reason) => res matches Err(RelayClientError::Http(r)) && r == reason,
        HttpReply::Responded { status, text, parsed } => if !is_success(status) {
            &&& res matches Err(RelayClientError::Status { status: s, body })
            &&& s == status
            &&& match text {
                Some(text) => body@ == text@,
                None => body@ == Seq::<char>::empty(),
            }
        } else {
            match parsed {
                Ok(answer) => res matches Ok(a) && a == answer,
                Err(reason) => res matches Err(RelayClientError::Http(r)) && r == reason,
            }
        },
    }
}

/// Takes the relay's reply to a post.
pub fn settle_reply<T>(reply: HttpReply<T>) -> (res: Result<T, RelayClientError>)
    ensures
        reply_outcome(reply, res),
        res is Ok <==> reply is Responded && 200 <= reply->status < 300 && reply->parsed is Ok,
        res is Ok ==> res->Ok_0 == reply->parsed->Ok_0,
{
    match reply {
        HttpReply::Failed(reason) => Err(RelayClientError::Http(reason)),
        HttpReply::Responded { status, text, parsed } => {
            if !is_success_status(status) {
                let body = match text {
                    Some(text) => text,
                    None => String::new(),
                };
                return Err(RelayClientError::Status { status, body });
            }
            match parsed {
                Ok(answer) => Ok(answer),
                Err(reason) => Err(RelayClientError::Http(reason)),
            }
        },
    }
}

/// Takes the relay's reply to a JSON-RPC post: a result is an accepted submission.
pub fn settle_json_rpc_reply(reply: HttpReply<JsonRpcSubmitResponse>) -> (res: Result<
    SubmitResponse,
    RelayClientError,
>)
    ensures
        match reply {
            HttpReply::Responded { status, parsed: Ok(answer), .. } => if is_success(status) {
                res matches Ok(response) && response.accepted && response.request_id
                    == answer.request_id && response.signature == answer.result
            } else {
                res matches Err(error) && reply_outcome(reply, Err(error))
            },
            _ => res matches Err(error) && reply_outcome(reply, Err(error)),
        },
{
    match settle_reply(reply) {
        Ok(answer) => Ok(
            SubmitResponse {
                accepted: true,
                request_id: answer.request_id,
                signature: answer.result,
            },
        ),
        Err(error) => Err(error),
    }
}

/// A post is taken as accepted only where its status is a success, and one with any other status
/// always ends in that status.
pub proof fn lemma_status_decides<T>(
    status: u16,
    text: Option<String>,
    parsed: Result<T, String>,
    res: Result<T, RelayClientError>,
)
    requires
        reply_outcome(HttpReply::Responded { status, text, parsed }, res),
    ensures
        res is Ok ==> 200 <= status < 300,
        !(200 <= status < 300) <==> (res matches Err(error) && error is Status),
        res matches Err(RelayClientError::Status { status: s, .. }) ==> s == status,
{
}

impl Clone for RelayClient {
    fn clone(&self) -> (res: Self)
        ensures
            res == *self,
    {
        proof {
            use_type_invariant(self);
        }
        RelayClient { config: self.config.clone() }
    }
}

impl RelayClient {
    /// The configuration that the client was made with.
    pub closed spec fn config(self) -> RelayClientConfig {
        self.config
    }

    #[verifier::type_invariant]
    spec fn usable(self) -> bool {
        config_check(self.config) is Ok
    }

    /// Whether `post` carries the client's key, which is never empty, to `path` at its endpoint.
    pub open spec fn addressed(self, post: HttpPost, path: Seq<char>) -> bool {
        &&& post.url@ == url_of(self.config().endpoint@, path)
        &&& post.credential@ == trimmed(self.config().api_key@)
        &&& post.credential@.len() > 0
    }

    /// Whether `post` submits one transaction by `method` over `route_set`.
    pub open spec fn posts_single(
        self,
        post: HttpPost,
        method: RelayMethod,
        transaction: Seq<char>,
        route_set: RouteSet,
    ) -> bool {
        &&& self.addressed(post, "/v1/submit"@)
        &&& post.body matches HttpBody::Envelope(request)
        &&& request.is_single_request(transaction, route_set)
        &&& request.method == method
    }

    /// Whether `post` submits the bundle `transactions` over `route_set`.
    pub open spec fn posts_bundle(
        self,
        post: HttpPost,
        transactions: Vec<String>,
        route_set: RouteSet,
    ) -> bool {
        &&& self.addressed(post, "/v1/submit"@)
        &&& post.body matches HttpBody::Envelope(request)
        &&& request.is_bundle_request(transactions, route_set)
    }

    /// Whether `post` sends the raw transaction `bytes`.
    pub open spec fn posts_raw(self, post: HttpPost, bytes: Seq<u8>) -> bool {
        &&& self.addressed(post, "/v1/transactions"@)
        &&& post.body matches HttpBody::Raw(raw)
        &&& raw@ == bytes
    }

    /// A client for `config`, which must name an endpoint and a key.
    pub fn new(config: RelayClientConfig) -> (res: Result<Self, RelayClientError>)
        ensures
            match config_check(config) {
                Ok(_) => res matches Ok(client) && client.config() == config,
                Err(error) => res matches Err(e) && e == error,
            },
    {
        if blank(config.endpoint.as_str()) {
            return Err(RelayClientError::InvalidConfig("endpoint is empty"));
        }
        if blank(config.api_key.as_str()) {
            return Err(RelayClientError::InvalidConfig("api_key is empty"));
        }
        Ok(RelayClient { config })
    }

    /// The endpoint as configured.
    pub fn endpoint(&self) -> (res: &str)
        ensures
            res@ == self.config().endpoint@,
            !is_blank(res@),
    {
        proof {
            use_type_invariant(self);
        }
        self.config.endpoint.as_str()
    }

    /// The API key as configured.
    pub fn api_key(&self) -> (res: &str)
        ensures
            res@ == self.config().api_key@,
            !is_blank(res@),
    {
        proof {
            use_type_invariant(self);
        }
        self.config.api_key.as_str()
    }

    /// How long a request may take.
    pub fn timeout(&self) -> (res: Duration)
        ensures
            res == self.config().timeout,
    {
        self.config.timeout
    }

    /// The URL of `path` at the client's endpoint.
    pub fn url_for_path(&self, path: &str) -> (res: String)
        ensures
            res@ == url_of(self.config().endpoint@, path@),
    {
        let endpoint = trim_trailing(self.config.endpoint.as_str().trim(), '/');
        if has_suffix(endpoint, path) {
            endpoint.to_owned()
        } else {
            let mut url = endpoint.to_owned();
            url.append(path);
            url
        }
    }

    /// Where the client posts envelopes.
    pub fn submit_url(&self) -> (res: String)
        ensures
            res@ == url_of(self.config().endpoint@, "/v1/submit"@),
    {
        self.url_for_path(SUBMIT_PATH)
    }

    /// Where the client posts JSON-RPC calls.
    pub fn json_rpc_url(&self) -> (res: String)
        ensures
            res@ == url_of(self.config().endpoint@, "/v1/sendTransaction"@),
    {
        self.url_for_path(JSON_RPC_PATH)
    }

    /// Where the client posts raw transactions.
    pub fn raw_transaction_url(&self) -> (res: String)
        ensures
            res@ == url_of(self.config().endpoint@, "/v1/transactions"@),
    {
        self.url_for_path(RAW_TRANSACTION_PATH)
    }

    fn credential(&self) -> (res: String)
        ensures
            res@ == trimmed(self.config().api_key@),
            res@.len() > 0,
    {
        proof {
            use_type_invariant(self);
            lemma_trimmed_empty(self.config.api_key@);
        }
        self.config.api_key.as_str().trim().to_owned()
    }

    /// The post that submits `request`. A request of the wrong shape is never posted.
    pub fn submit(&self, request: SubmitRequest) -> (res: Result<HttpPost, RelayClientError>)
        ensures
            match request.shape_check() {
                Ok(_) => res matches Ok(post) && self.addressed(post, "/v1/submit"@) && post.body
                    == HttpBody::Envelope(request),
                Err(error) => res matches Err(RelayClientError::Protocol(e)) && e == error,
            },
    {
        match request.validate_shape() {
            Ok(_) => Ok(
                HttpPost {
                    url: self.submit_url(),
                    credential: self.credential(),
                    body: HttpBody::Envelope(request),
                },
            ),
            Err(error) => Err(RelayClientError::Protocol(error)),
        }
    }

    /// A request to send one transaction.
    pub fn build_send_transaction_request(
        &self,
        transaction_base64: &str,
        route_set: RouteSet,
    ) -> (res: SubmitRequest)
        ensures
            res.is_single_request(transaction_base64@, route_set),
            res.method == RelayMethod::SendTransaction,
    {
        SubmitRequest::send_transaction_base64(transaction_base64, route_set)
    }

    /// The post that sends one transaction.
    pub fn send_transaction_base64(
        &self,
        transaction_base64: &str,
        route_set: RouteSet,
    ) -> (res: Result<HttpPost, RelayClientError>)
        ensures
            res matches Ok(post) && self.posts_single(
                post,
                RelayMethod::SendTransaction,
                transaction_base64@,
                route_set,
            ),
    {
        let request = self.build_send_transaction_request(transaction_base64, route_set);
        self.submit(request)
    }

    /// The post that sends one transaction without waiting for its routes.
    pub fn send_transaction_fast_base64(
        &self,
        transaction_base64: &str,
        route_set: RouteSet,
    ) -> (res: Result<HttpPost, RelayClientError>)
        ensures
            res matches Ok(post) && self.posts_single(
                post,
                RelayMethod::SendTransactionFast,
                transaction_base64@,
                route_set,
            ),
    {
        let mut request = self.build_send_transaction_request(transaction_base64, route_set);
        request.method = RelayMethod::SendTransactionFast;
        self.submit(request)
    }

    /// The post that sends one transaction as a JSON-RPC call.
    pub fn send_transaction_json_rpc_base64(&self, transaction_base64: &str) -> (res: HttpPost)
        ensures
            self.addressed(res, "/v1/sendTransaction"@),
            res.body matches HttpBody::JsonRpc(call) && call.jsonrpc@ == "2.0"@ && call.id == 1
                && call.method@ == "sendTransaction"@ && call.transaction@ == transaction_base64@
                && call.encoding@ == "base64"@,
    {
        HttpPost {
            url: self.json_rpc_url(),
            credential: self.credential(),
            body: HttpBody::JsonRpc(
                JsonRpcSubmitRequest {
                    jsonrpc: "2.0",
                    id: 1,
                    method: "sendTransaction",
                    transaction: transaction_base64.to_owned(),
                    encoding: "base64",
                },
            ),
        }
    }

    /// The post that sends one raw transaction.
    pub fn send_transaction_raw_bytes(&self, transaction: &[u8]) -> (res: HttpPost)
        ensures
            self.posts_raw(res, transaction@),
    {
        HttpPost {
            url: self.raw_transaction_url(),
            credential: self.credential(),
            body: HttpBody::Raw(slice_to_vec(transaction)),
        }
    }

    /// The post that sends, as raw bytes, the transaction that a base64 text carries.
    pub fn send_transaction_raw_base64(&self, transaction_base64: &str) -> (res: Result<
        HttpPost,
        RelayClientError,
    >)
        ensures
            match base64_decoding(transaction_base64@) {
                Ok(raw) => res matches Ok(post) && self.posts_raw(post, raw),
                Err(error) => res matches Err(RelayClientError::Protocol(ProtocolError::Base64(e)))
                    && e == error,
            },
    {
        match decode_transaction_base64(transaction_base64) {
            Ok(transaction) => Ok(self.send_transaction_raw_bytes(transaction.as_slice())),
            Err(error) => Err(RelayClientError::Protocol(error)),
        }
    }

    /// The post that sends a bundle of one to five transactions.
    pub fn send_bundle_base64(
        &self,
        transactions_base64: Vec<String>,
        route_set: RouteSet,
    ) -> (res: Result<HttpPost, RelayClientError>)
        ensures
            if 1 <= transactions_base64@.len() <= 5 {
                res matches Ok(post) && self.posts_bundle(post, transactions_base64, route_set)
            } else {
                res matches Err(RelayClientError::Protocol(error)) && error
                    == ProtocolError::InvalidPayload("sendBundle requires 1..=5 transactions")
            },
    {
        let request = SubmitRequest::send_bundle_base64(transactions_base64, route_set);
        self.submit(request)
    }
}

proof fn lemma_without_trailing_keeps(s: Seq<char>, c: char)
    ensures
        without_trailing(s, c).len() <= s.len(),
        without_trailing(s, c) == s.take(without_trailing(s, c).len() as int),
    decreases s.len(),
{
    if s.len() > 0 && s.last() == c {
        lemma_without_trailing_keeps(s.drop_last(), c);
        assert(s.drop_last().take(without_trailing(s, c).len() as int) =~= s.take(
            without_trailing(s, c).len() as int,
        ));
    } else {
        assert(s.take(s.len() as int) =~= s);
    }
}

/// The URL of a path ends with the path, whatever the endpoint is.
pub proof fn lemma_url_ends_with_path(endpoint: Seq<char>, path: Seq<char>)
    ensures
        ends_with_text(url_of(endpoint, path), path),
{
    let base = base_url(endpoint);
    if !ends_with_text(base, path) {
        assert((base + path).skip(base.len() as int) =~= path);
    }
}

/// The URL of a path serves as an endpoint for that path: it is its own URL. The path must
/// start with no whitespace and end with neither whitespace nor a slash.
pub proof fn lemma_url_is_its_own_endpoint(endpoint: Seq<char>, path: Seq<char>)
    requires
        path.len() > 0,
        !is_white_space(path.first()),
        !is_white_space(path.last()),
        path.last() != '/',
    ensures
        url_of(url_of(endpoint, path), path) == url_of(endpoint, path),
{
    let url = url_of(endpoint, path);
    let base = base_url(endpoint);
    lemma_url_ends_with_path(endpoint, path);
    assert(url.last() == path.last()) by {
        assert(url.skip(url.len() - path.len()).last() == url.last());
    }
    assert(!is_white_space(url.first())) by {
        crate::text::lemma_trimmed_edges(endpoint);
        lemma_without_trailing_keeps(trimmed(endpoint), '/');
        if base.len() > 0 {
            assert(url.first() == base.first());
            assert(base.first() == trimmed(endpoint).first());
        } else {
            assert(url =~= path);
        }
    }
    lemma_trimmed_fixed(url);
}

/// The URL of a path at an endpoint, however the endpoint is written: with whitespace around it and
/// any number of slashes behind it. Where what is left of it ends with the path, it is the URL;
/// else the path is put behind it.
pub proof fn lemma_url_of_an_endpoint(
    lead: Seq<char>,
    base: Seq<char>,
    slashes: Seq<char>,
    trail: Seq<char>,
    path: Seq<char>,
)
    requires
        forall|i: int| 0 <= i < lead.len() ==> is_white_space(#[trigger] lead[i]),
        forall|i: int| 0 <= i < trail.len() ==> is_white_space(#[trigger] trail[i]),
        forall|i: int| 0 <= i < slashes.len() ==> #[trigger] slashes[i] == '/',
        base.len() > 0 ==> !is_white_space(base.first()) && base.last() != '/',
        base.len() > 0 && slashes.len() == 0 ==> !is_white_space(base.last()),
    ensures
        (exists|front: Seq<char>| base == #[trigger] (front + path)) ==> url_of(
            lead + (base + slashes) + trail,
            path,
        ) == base,
        !(exists|front: Seq<char>| base == #[trigger] (front + path)) ==> url_of(
            lead + (base + slashes) + trail,
            path,
        ) == base + path,
{
    let core = base + slashes;
    if core.len() > 0 {
        if base.len() > 0 {
            assert(core.first() == base.first());
        } else {
            assert(core.first() == slashes[0]);
        }
        if slashes.len() > 0 {
            assert(core.last() == slashes.last());
        } else {
            assert(core.last() == base.last());
        }
    }
    lemma_trimming_takes_off_whitespace(lead, core, trail);
    lemma_trailing_copies_are_removed(base, slashes, '/');
    lemma_ending_is_a_last_part(base, path);
}

/// A configuration is refused exactly where its endpoint, or else its key, is nothing but
/// whitespace.
pub proof fn lemma_which_configurations_are_usable(config: RelayClientConfig)
    ensures
        trimmed(config.endpoint@).len() == 0 ==> config_check(config) == Err::<
            (),
            RelayClientError,
        >(RelayClientError::InvalidConfig("endpoint is empty")),
        trimmed(config.endpoint@).len() > 0 && trimmed(config.api_key@).len() == 0 ==> config_check(
            config,
        ) == Err::<(), RelayClientError>(RelayClientError::InvalidConfig("api_key is empty")),
        trimmed(config.endpoint@).len() > 0 && trimmed(config.api_key@).len() > 0 ==> config_check(
            config,
        ) is Ok,
{
    lemma_trimmed_empty(config.endpoint@);
    lemma_trimmed_empty(config.api_key@);
}

/// What a post is taken as: a request that could not be made, and a body of a success that does
/// not read, are failures of HTTP for their own reason; any status but a success is told with the
/// text that came with it; the body of a success is handed out as it reads.
pub proof fn lemma_what_a_reply_is_taken_as<T>(reply: HttpReply<T>, res: Result<T, RelayClientError>)
    requires
        reply_outcome(reply, res),
    ensures
        reply matches HttpReply::Failed(reason) ==> (res matches Err(error) && error
            == RelayClientError::Http(reason)),
        reply matches HttpReply::Responded { status, text, parsed } ==> {
            if status < 200 || status >= 300 {
                &&& res is Err
                &&& res->Err_0 is Status
                &&& res->Err_0->Status_status == status
                &&& text is Some ==> res->Err_0->Status_body@ == text->Some_0@
                &&& text is None ==> res->Err_0->Status_body@.len() == 0
            } else {
                match parsed {
                    Ok(answer) => res is Ok && res->Ok_0 == answer,
                    Err(reason) => res matches Err(error) && error == RelayClientError::Http(
                        reason,
                    ),
                }
            }
        },
{
}

/// The headers of a post: the bearer token and the API key are the credential itself, and a raw
/// body alone names its content type.
pub proof fn lemma_headers_carry_the_credential(post: HttpPost)
    ensures
        post.header_list().len() == (if post.body is Raw {
            3int
        } else {
            2int
        }),
        post.header_list()[0].0 == "authorization"@,
        post.header_list()[0].1 == "Bearer "@ + post.credential@,
        post.header_list()[1].0 == "x-api-key"@,
        post.header_list()[1].1 == post.credential@,
        post.body is Raw ==> post.header_list()[2].0 == "content-type"@
            && post.header_list()[2].1 == "application/octet-stream"@,
{
}

/// What a client posts: its trimmed key, which is never empty, to the URL of the path at its
/// endpoint, with the transaction, the routes and the method that were asked for.
pub proof fn lemma_what_a_client_posts(
    client: RelayClient,
    post: HttpPost,
    method: RelayMethod,
    transaction: Seq<char>,
    transactions: Vec<String>,
    route_set: RouteSet,
    raw: Seq<u8>,
    path: Seq<char>,
)
    ensures
        client.addressed(post, path) ==> {
            &&& post.url@ == url_of(client.config().endpoint@, path)
            &&& post.credential@ == trimmed(client.config().api_key@)
            &&& post.credential@.len() > 0
        },
        client.posts_single(post, method, transaction, route_set) ==> {
            &&& client.addressed(post, "/v1/submit"@)
            &&& post.body is Envelope
            &&& post.body->Envelope_0.version == 1
            &&& post.body->Envelope_0.method == method
            &&& post.body->Envelope_0.route_set == route_set
            &&& post.body->Envelope_0.transaction is Some
            &&& post.body->Envelope_0.transaction->Some_0@ == transaction
            &&& post.body->Envelope_0.transactions is None
            &&& post.body->Envelope_0.request_id is None
            &&& post.body->Envelope_0.response_mode is None
            &&& post.body->Envelope_0.transaction_encoding is Some
        },
        client.posts_bundle(post, transactions, route_set) ==> {
            &&& client.addressed(post, "/v1/submit"@)
            &&& post.body is Envelope
            &&& post.body->Envelope_0.version == 1
            &&& post.body->Envelope_0.method == RelayMethod::SendBundle
            &&& post.body->Envelope_0.route_set == route_set
            &&& post.body->Envelope_0.transactions == Some(transactions)
            &&& post.body->Envelope_0.transaction is None
            &&& post.body->Envelope_0.request_id is None
            &&& post.body->Envelope_0.response_mode is None
            &&& post.body->Envelope_0.transaction_encoding is Some
        },
        client.posts_raw(post, raw) ==> {
            &&& client.addressed(post, "/v1/transactions"@)
            &&& post.body is Raw
            &&& post.body->Raw_0@ == raw
        },
{
}

} // verus!
