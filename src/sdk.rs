//! The client of the first API generation.
use vstd::prelude::*;
use crate::client::{ApiRequest, HttpMethod};
use crate::endpoint;
use crate::header::{header_safe, header_value_accepted};
use crate::status::is_success_code;
use crate::text::{decimal, trim_slashes, trim_trailing_slashes};

verus! {

/// What a call of the first-generation client can fail with, besides the
/// transport.
#[derive(Debug, Clone, PartialEq, Eq)]
pub enum SdkError {
    /// The API key cannot stand in the `X-API-Key` header.
    InvalidApiKey,
    /// The node answered with a failure status; the message holds its JSON body.
    Api(String),
    /// A successful answer lacked the expected field.
    InvalidResponseFormat,
}

pub open spec fn api_error_text(body: Seq<char>) -> Seq<char> {
    "API error: "@ + body
}

impl SdkError {
    /// The error for a failure answer whose JSON body reads `body`.
    pub fn api(body: &str) -> (r: SdkError)
        ensures
            r matches SdkError::Api(m) && m@ == api_error_text(body@),
    {
        let mut m = String::from_str("API error: ");
        m.append(body);
        SdkError::Api(m)
    }

    /// The error's message.
    pub fn message(&self) -> (r: String)
        ensures
            self matches SdkError::Api(m) ==> r@ == m@,
            self is InvalidApiKey ==> r@ == "invalid API key"@,
            self is InvalidResponseFormat ==> r@ == "Invalid response format"@,
    {
        match self {
            SdkError::InvalidApiKey => String::from_str("invalid API key"),
            SdkError::Api(m) => m.clone(),
            SdkError::InvalidResponseFormat => String::from_str("Invalid response format"),
        }
    }
}

/// The result read from a string field of a successful answer: the field's
/// text, or `InvalidResponseFormat` where the field is missing or not a string.
pub fn response_field(field: Option<String>) -> (r: Result<String, SdkError>)
    ensures
        field matches Some(s) ==> r == Ok::<String, SdkError>(s),
        field is None ==> r == Err::<String, SdkError>(SdkError::InvalidResponseFormat),
{
    match field {
        Some(s) => Ok(s),
        None => Err(SdkError::InvalidResponseFormat),
    }
}

/// Whether an answer with status `code` is decoded as the result.
pub fn status_ok(code: u16) -> (r: bool)
    ensures
        r == is_success_code(code),
{
    200 <= code && code <= 299
}

pub struct SdkView {
    pub api_url: Seq<char>,
    pub api_key: Seq<char>,
}

/// A first-generation client of one node.
pub struct VernachainSDK {
    api_url: String,
    api_key: String,
}

impl View for VernachainSDK {
    type V = SdkView;

    closed spec fn view(&self) -> SdkView {
        SdkView { api_url: self.api_url@, api_key: self.api_key@ }
    }
}

impl VernachainSDK {
    /// A client of the node at `api_url`, without its trailing slashes,
    /// sending `api_key` in the `X-API-Key` header. Fails exactly when the key
    /// cannot stand in a header.
    pub fn new(api_url: &str, api_key: &str) -> (r: Result<Self, SdkError>)
        ensures
            header_safe(api_key@) <==> r is Ok,
            r matches Ok(c) ==> c@.api_url == trim_slashes(api_url@) && c@.api_key == api_key@,
            r matches Err(e) ==> e is InvalidApiKey,
    {
        if !header_value_accepted(api_key) {
            return Err(SdkError::InvalidApiKey);
        }
        Ok(VernachainSDK {
            api_url: trim_trailing_slashes(api_url),
            api_key: String::from_str(api_key),
        })
    }

    pub fn api_url(&self) -> (r: &str)
        ensures
            r@ == self@.api_url,
    {
        self.api_url.as_str()
    }

    pub fn api_key(&self) -> (r: &str)
        ensures
            r@ == self@.api_key,
    {
        self.api_key.as_str()
    }

    fn call(&self, method: HttpMethod, path: String) -> (r: ApiRequest)
        ensures
            r.method == method,
            r.url@ == self@.api_url + path@,
    {
        let mut url = self.api_url.clone();
        url.append(path.as_str());
        ApiRequest { method, url }
    }

    pub fn get_block(&self, block_id: u64) -> (r: ApiRequest)
        ensures
            r.method == HttpMethod::Get,
            r.url@ == self@.api_url + "/api/v1/block/"@ + decimal(block_id as nat),
    {
        let r = self.call(HttpMethod::Get, endpoint::legacy_block_path(block_id));
        assert(r.url@ =~= self@.api_url + "/api/v1/block/"@ + decimal(block_id as nat));
        r
    }

    pub fn get_transaction(&self, tx_hash: &str) -> (r: ApiRequest)
        ensures
            r.method == HttpMethod::Get,
            r.url@ == self@.api_url + "/api/v1/transaction/"@ + tx_hash@,
    {
        let r = self.call(HttpMethod::Get, endpoint::legacy_transaction_path(tx_hash));
        assert(r.url@ =~= self@.api_url + "/api/v1/transaction/"@ + tx_hash@);
        r
    }

    /// The account of `address`; its `balance` field is the balance.
    pub fn get_balance(&self, address: &str) -> (r: ApiRequest)
        ensures
            r.method == HttpMethod::Get,
            r.url@ == self@.api_url + "/api/v1/address/"@ + address@,
    {
        let r = self.call(HttpMethod::Get, endpoint::legacy_address_path(address));
        assert(r.url@ =~= self@.api_url + "/api/v1/address/"@ + address@);
        r
    }

    /// Sends a transaction; the answer's `transaction_hash` field is the result.
    pub fn send_transaction(&self) -> (r: ApiRequest)
        ensures
            r.method == HttpMethod::Post,
            r.url@ == self@.api_url + "/api/v1/transaction"@,
    {
        self.call(HttpMethod::Post, endpoint::legacy_send_transaction_path())
    }

    /// Deploys a contract; the answer's `contract_address` field is the result.
    pub fn deploy_contract(&self) -> (r: ApiRequest)
        ensures
            r.method == HttpMethod::Post,
            r.url@ == self@.api_url + "/api/v1/contract/deploy"@,
    {
        self.call(HttpMethod::Post, endpoint::legacy_deploy_contract_path())
    }

    /// Calls a contract; the answer's `result` field is the result.
    pub fn call_contract(&self, contract_address: &str) -> (r: ApiRequest)
        ensures
            r.method == HttpMethod::Post,
            r.url@ == self@.api_url + "/api/v1/contract/"@ + contract_address@ + "/call"@,
    {
        let r = self.call(HttpMethod::Post, endpoint::legacy_call_contract_path(contract_address));
        assert(r.url@ =~= self@.api_url + "/api/v1/contract/"@ + contract_address@ + "/call"@);
        r
    }

    /// Starts a bridge transfer; the answer's `bridge_tx_hash` field is the
    /// result.
    pub fn bridge_transfer(&self) -> (r: ApiRequest)
        ensures
            r.method == HttpMethod::Post,
            r.url@ == self@.api_url + "/api/v1/bridge/transfer"@,
    {
        self.call(HttpMethod::Post, endpoint::bridge_transfer_path())
    }

    pub fn get_bridge_transaction(&self, tx_hash: &str) -> (r: ApiRequest)
        ensures
            r.method == HttpMethod::Get,
            r.url@ == self@.api_url + "/api/v1/bridge/transaction/"@ + tx_hash@,
    {
        let r = self.call(HttpMethod::Get, endpoint::legacy_bridge_transaction_path(tx_hash));
        assert(r.url@ =~= self@.api_url + "/api/v1/bridge/transaction/"@ + tx_hash@);
        r
    }

    pub fn get_network_stats(&self) -> (r: ApiRequest)
        ensures
            r.method == HttpMethod::Get,
            r.url@ == self@.api_url + "/api/v1/stats"@,
    {
        self.call(HttpMethod::Get, endpoint::legacy_stats_path())
    }

    pub fn get_validators(&self) -> (r: ApiRequest)
        ensures
            r.method == HttpMethod::Get,
            r.url@ == self@.api_url + "/api/v1/validators"@,
    {
        self.call(HttpMethod::Get, endpoint::legacy_validators_path())
    }
}

} // verus!
