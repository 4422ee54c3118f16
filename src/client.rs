//! The client of the current API generation: its configuration, the request
//! each operation makes, and the setup of the block subscription.
use vstd::prelude::*;
use crate::endpoint;
use crate::error::VernachainError;
use crate::header::{header_safe, header_value_accepted};
use crate::text::{decimal, replace_all, replace_every, trim_slashes, trim_trailing_slashes};
use crate::wire::{json_quoted, parse_url, to_json_string, url_parses};

verus! {

/// How many blocks the subscription channel holds for a subscriber that has
/// not yet received them; a subscriber that falls further behind misses blocks.
pub const BLOCK_CHANNEL_CAPACITY: usize = 100;

/// The HTTP verbs the API uses.
#[derive(Debug, Clone, Copy, PartialEq, Eq, Structural)]
pub enum HttpMethod {
    Get,
    Post,
}

/// One call to make: a verb and the full URL. The JSON body, where the
/// operation has one, is the operation's request value.
#[derive(Debug, Clone)]
pub struct ApiRequest {
    pub method: HttpMethod,
    pub url: String,
}

/// The prefix of the `Authorization` header value.
pub open spec fn bearer(key: Seq<char>) -> Seq<char> {
    "Bearer "@ + key
}

/// The API key, if any, can stand in an `Authorization` header.
pub open spec fn key_usable(api_key: Option<Seq<char>>) -> bool {
    api_key matches Some(k) ==> header_safe(bearer(k))
}

/// The WebSocket base URL derived from a node URL: `http` becomes `ws`
/// wherever it occurs (so `https` becomes `wss`).
pub open spec fn ws_base(node_url: Seq<char>) -> Seq<char> {
    replace_all(node_url, "http"@, "ws"@)
}

/// The text of the authentication frame for a JSON-quoted key.
pub open spec fn auth_frame_text(quoted_key: Seq<char>) -> Seq<char> {
    "{\"token\":"@ + quoted_key + ",\"type\":\"auth\"}"@
}

pub struct ClientView {
    pub base_url: Seq<char>,
    pub ws_url: Seq<char>,
    pub api_key: Option<Seq<char>>,
}

/// A client of one node.
#[derive(Debug, Clone)]
pub struct VernachainClient {
    base_url: String,
    ws_url: String,
    api_key: Option<String>,
}

pub open spec fn key_view(k: Option<String>) -> Option<Seq<char>> {
    match k {
        Some(s) => Some(s@),
        None => None,
    }
}

impl View for VernachainClient {
    type V = ClientView;

    closed spec fn view(&self) -> ClientView {
        ClientView {
            base_url: self.base_url@,
            ws_url: self.ws_url@,
            api_key: key_view(self.api_key),
        }
    }
}

impl VernachainClient {
    /// A client of the node at `node_url`. Requests go to the URL without its
    /// trailing slashes; the block stream goes to the URL with `http` turned
    /// into `ws`. The key must be usable in an `Authorization` header.
    pub fn new(node_url: &str, api_key: Option<String>) -> (r: Self)
        requires
            key_usable(key_view(api_key)),
        ensures
            r@.base_url == trim_slashes(node_url@),
            r@.ws_url == ws_base(node_url@),
            r@.api_key == key_view(api_key),
    {
        proof {
            reveal_strlit("http");
        }
        let ws_url = replace_every(node_url, "http", "ws");
        VernachainClient { base_url: trim_trailing_slashes(node_url), ws_url, api_key }
    }

    /// Whether `api_key` can be handed to `new`.
    pub fn accepts_key(api_key: &Option<String>) -> (r: bool)
        ensures
            r == key_usable(key_view(*api_key)),
    {
        match api_key {
            Some(k) => {
                let v = Self::bearer_value(k);
                header_value_accepted(v.as_str())
            },
            None => true,
        }
    }

    fn bearer_value(key: &String) -> (r: String)
        ensures
            r@ == bearer(key@),
    {
        let mut v = String::from_str("Bearer ");
        v.append(key.as_str());
        v
    }

    pub fn base_url(&self) -> (r: &str)
        ensures
            r@ == self@.base_url,
    {
        self.base_url.as_str()
    }

    pub fn ws_url(&self) -> (r: &str)
        ensures
            r@ == self@.ws_url,
    {
        self.ws_url.as_str()
    }

    pub fn api_key(&self) -> (r: &Option<String>)
        ensures
            key_view(*r) == self@.api_key,
    {
        &self.api_key
    }

    /// The value of the `Authorization` header that every request carries,
    /// if a key was given.
    pub fn authorization(&self) -> (r: Option<String>)
        ensures
            key_view(r) == (match self@.api_key {
                Some(k) => Some(bearer(k)),
                None => None,
            }),
    {
        match &self.api_key {
            Some(k) => Some(Self::bearer_value(k)),
            None => None,
        }
    }

    /// A call of `method` on `endpoint`, relative to the base URL.
    pub fn request(&self, method: HttpMethod, endpoint: &str) -> (r: ApiRequest)
        ensures
            r.method == method,
            r.url@ == self@.base_url + endpoint@,
    {
        let mut url = self.base_url.clone();
        url.append(endpoint);
        ApiRequest { method, url }
    }

    /// Submits a transaction; the body is the transaction request.
    pub fn create_transaction(&self) -> (r: ApiRequest)
        ensures
            r.method == HttpMethod::Post,
            r.url@ == self@.base_url + "/api/v1/transactions"@,
    {
        self.request(HttpMethod::Post, endpoint::transactions_path().as_str())
    }

    pub fn get_transaction(&self, tx_hash: &str) -> (r: ApiRequest)
        ensures
            r.method == HttpMethod::Get,
            r.url@ == self@.base_url + "/api/v1/transactions/"@ + tx_hash@,
    {
        let r = self.request(HttpMethod::Get, endpoint::transaction_path(tx_hash).as_str());
        assert(r.url@ =~= self@.base_url + "/api/v1/transactions/"@ + tx_hash@);
        r
    }

    pub fn get_block(&self, block_number: u64, shard_id: u64) -> (r: ApiRequest)
        ensures
            r.method == HttpMethod::Get,
            r.url@ == self@.base_url + "/api/v1/blocks/"@ + decimal(block_number as nat)
                + endpoint::shard_query(shard_id),
    {
        let r = self.request(HttpMethod::Get, endpoint::block_path(block_number, shard_id).as_str());
        assert(r.url@ =~= self@.base_url + "/api/v1/blocks/"@ + decimal(block_number as nat)
            + endpoint::shard_query(shard_id));
        r
    }

    pub fn get_latest_block(&self, shard_id: u64) -> (r: ApiRequest)
        ensures
            r.method == HttpMethod::Get,
            r.url@ == self@.base_url + "/api/v1/blocks/latest"@ + endpoint::shard_query(shard_id),
    {
        let r = self.request(HttpMethod::Get, endpoint::latest_block_path(shard_id).as_str());
        assert(r.url@ =~= self@.base_url + "/api/v1/blocks/latest"@ + endpoint::shard_query(shard_id));
        r
    }

    /// Deploys a contract; the body is the deploy request.
    pub fn deploy_contract(&self) -> (r: ApiRequest)
        ensures
            r.method == HttpMethod::Post,
            r.url@ == self@.base_url + "/api/v1/contracts"@,
    {
        self.request(HttpMethod::Post, endpoint::contracts_path().as_str())
    }

    /// Calls a contract method; the body holds the method's name and its
    /// parameters.
    pub fn call_contract(&self, contract_address: &str) -> (r: ApiRequest)
        ensures
            r.method == HttpMethod::Post,
            r.url@ == self@.base_url + "/api/v1/contracts/"@ + contract_address@ + "/call"@,
    {
        let r = self.request(HttpMethod::Post, endpoint::contract_call_path(contract_address).as_str());
        assert(r.url@ =~= self@.base_url + "/api/v1/contracts/"@ + contract_address@ + "/call"@);
        r
    }

    /// Starts a transfer between shards; the body is the transfer request.
    pub fn initiate_cross_shard_transfer(&self) -> (r: ApiRequest)
        ensures
            r.method == HttpMethod::Post,
            r.url@ == self@.base_url + "/api/v1/cross-shard/transfer"@,
    {
        self.request(HttpMethod::Post, endpoint::cross_shard_transfer_path().as_str())
    }

    pub fn get_validator_set(&self, shard_id: u64) -> (r: ApiRequest)
        ensures
            r.method == HttpMethod::Get,
            r.url@ == self@.base_url + "/api/v1/validators"@ + endpoint::shard_query(shard_id),
    {
        let r = self.request(HttpMethod::Get, endpoint::validator_set_path(shard_id).as_str());
        assert(r.url@ =~= self@.base_url + "/api/v1/validators"@ + endpoint::shard_query(shard_id));
        r
    }

    /// Stakes with a validator; the body holds the amount and the validator.
    pub fn stake(&self) -> (r: ApiRequest)
        ensures
            r.method == HttpMethod::Post,
            r.url@ == self@.base_url + "/api/v1/stake"@,
    {
        self.request(HttpMethod::Post, endpoint::stake_path().as_str())
    }

    /// Starts a bridge transfer; the body is the transfer request.
    pub fn bridge_transfer(&self) -> (r: ApiRequest)
        ensures
            r.method == HttpMethod::Post,
            r.url@ == self@.base_url + "/api/v1/bridge/transfer"@,
    {
        self.request(HttpMethod::Post, endpoint::bridge_transfer_path().as_str())
    }

    /// The address of the block stream of a shard.
    pub fn block_stream_address(&self, shard_id: u64) -> (r: String)
        ensures
            r@ == self@.ws_url + "/ws/blocks"@ + endpoint::shard_query(shard_id),
    {
        let mut a = self.ws_url.clone();
        a.append(endpoint::block_stream_path(shard_id).as_str());
        assert(a@ =~= self@.ws_url + "/ws/blocks"@ + endpoint::shard_query(shard_id));
        a
    }

    /// The parsed address of the block stream of a shard; an address that
    /// does not parse is an internal error.
    pub fn block_stream_url(&self, shard_id: u64) -> (r: Result<url::Url, VernachainError>)
        ensures
            r is Ok <==> url_parses(self@.ws_url + "/ws/blocks"@ + endpoint::shard_query(shard_id)),
            r matches Err(e) ==> e is InternalError,
    {
        let address = self.block_stream_address(shard_id);
        match parse_url(address.as_str()) {
            Ok(u) => Ok(u),
            Err(msg) => Err(VernachainError::InternalError(msg)),
        }
    }

    /// The frame that authenticates the subscription, sent first where a key
    /// was given: a JSON object of type `auth` whose token is the key.
    pub fn auth_frame(&self) -> (r: Option<String>)
        ensures
            self@.api_key is None ==> r is None,
            self@.api_key matches Some(k)
                ==> (r matches Some(t) && t@ == auth_frame_text(json_quoted(k))),
    {
        match &self.api_key {
            None => None,
            Some(k) => match to_json_string(k.as_str()) {
                Ok(q) => Some(auth_frame_from_quoted(q.as_str())),
                Err(_) => None,
            },
        }
    }
}

/// The authentication frame around a key already written as a JSON string.
pub fn auth_frame_from_quoted(quoted_key: &str) -> (r: String)
    ensures
        r@ == auth_frame_text(quoted_key@),
{
    let mut t = String::from_str("{\"token\":");
    t.append(quoted_key);
    t.append(",\"type\":\"auth\"}");
    t
}

} // verus!
