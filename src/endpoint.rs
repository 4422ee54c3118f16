//! Endpoint paths of the node API, relative to the node's base URL.
use vstd::prelude::*;
use crate::text::{append_decimal, decimal};

verus! {

/// `prefix + decimal(n)`.
fn with_number(prefix: &str, n: u64) -> (r: String)
    ensures
        r@ == prefix@ + decimal(n as nat),
{
    let mut out = String::from_str(prefix);
    append_decimal(&mut out, n);
    out
}

/// `prefix + s`.
fn joined(prefix: &str, s: &str) -> (r: String)
    ensures
        r@ == prefix@ + s@,
{
    let mut out = String::from_str(prefix);
    out.append(s);
    out
}

/// `prefix + s + suffix`.
fn around(prefix: &str, s: &str, suffix: &str) -> (r: String)
    ensures
        r@ == prefix@ + s@ + suffix@,
{
    let mut out = String::from_str(prefix);
    out.append(s);
    out.append(suffix);
    out
}

// Paths of the current API generation.

pub fn transactions_path() -> (r: String)
    ensures
        r@ == "/api/v1/transactions"@,
{
    String::from_str("/api/v1/transactions")
}

pub fn transaction_path(tx_hash: &str) -> (r: String)
    ensures
        r@ == "/api/v1/transactions/"@ + tx_hash@,
{
    joined("/api/v1/transactions/", tx_hash)
}

pub open spec fn shard_query(shard_id: u64) -> Seq<char> {
    "?shard_id="@ + decimal(shard_id as nat)
}

pub fn block_path(block_number: u64, shard_id: u64) -> (r: String)
    ensures
        r@ == "/api/v1/blocks/"@ + decimal(block_number as nat) + shard_query(shard_id),
{
    let mut out = with_number("/api/v1/blocks/", block_number);
    out.append("?shard_id=");
    append_decimal(&mut out, shard_id);
    out
}

pub fn latest_block_path(shard_id: u64) -> (r: String)
    ensures
        r@ == "/api/v1/blocks/latest"@ + shard_query(shard_id),
{
    let mut out = String::from_str("/api/v1/blocks/latest");
    out.append("?shard_id=");
    append_decimal(&mut out, shard_id);
    out
}

pub fn contracts_path() -> (r: String)
    ensures
        r@ == "/api/v1/contracts"@,
{
    String::from_str("/api/v1/contracts")
}

pub fn contract_call_path(contract_address: &str) -> (r: String)
    ensures
        r@ == "/api/v1/contracts/"@ + contract_address@ + "/call"@,
{
    around("/api/v1/contracts/", contract_address, "/call")
}

pub fn cross_shard_transfer_path() -> (r: String)
    ensures
        r@ == "/api/v1/cross-shard/transfer"@,
{
    String::from_str("/api/v1/cross-shard/transfer")
}

pub fn validator_set_path(shard_id: u64) -> (r: String)
    ensures
        r@ == "/api/v1/validators"@ + shard_query(shard_id),
{
    let mut out = String::from_str("/api/v1/validators");
    out.append("?shard_id=");
    append_decimal(&mut out, shard_id);
    out
}

pub fn stake_path() -> (r: String)
    ensures
        r@ == "/api/v1/stake"@,
{
    String::from_str("/api/v1/stake")
}

/// The bridge transfer endpoint; both API generations use it.
pub fn bridge_transfer_path() -> (r: String)
    ensures
        r@ == "/api/v1/bridge/transfer"@,
{
    String::from_str("/api/v1/bridge/transfer")
}

/// The block stream, relative to the WebSocket base URL.
pub fn block_stream_path(shard_id: u64) -> (r: String)
    ensures
        r@ == "/ws/blocks"@ + shard_query(shard_id),
{
    let mut out = String::from_str("/ws/blocks");
    out.append("?shard_id=");
    append_decimal(&mut out, shard_id);
    out
}

// Paths of the first API generation.

pub fn legacy_block_path(block_id: u64) -> (r: String)
    ensures
        r@ == "/api/v1/block/"@ + decimal(block_id as nat),
{
    with_number("/api/v1/block/", block_id)
}

pub fn legacy_transaction_path(tx_hash: &str) -> (r: String)
    ensures
        r@ == "/api/v1/transaction/"@ + tx_hash@,
{
    joined("/api/v1/transaction/", tx_hash)
}

pub fn legacy_address_path(address: &str) -> (r: String)
    ensures
        r@ == "/api/v1/address/"@ + address@,
{
    joined("/api/v1/address/", address)
}

pub fn legacy_send_transaction_path() -> (r: String)
    ensures
        r@ == "/api/v1/transaction"@,
{
    String::from_str("/api/v1/transaction")
}

pub fn legacy_deploy_contract_path() -> (r: String)
    ensures
        r@ == "/api/v1/contract/deploy"@,
{
    String::from_str("/api/v1/contract/deploy")
}

pub fn legacy_call_contract_path(contract_address: &str) -> (r: String)
    ensures
        r@ == "/api/v1/contract/"@ + contract_address@ + "/call"@,
{
    around("/api/v1/contract/", contract_address, "/call")
}

pub fn legacy_bridge_transaction_path(tx_hash: &str) -> (r: String)
    ensures
        r@ == "/api/v1/bridge/transaction/"@ + tx_hash@,
{
    joined("/api/v1/bridge/transaction/", tx_hash)
}

pub fn legacy_stats_path() -> (r: String)
    ensures
        r@ == "/api/v1/stats"@,
{
    String::from_str("/api/v1/stats")
}

pub fn legacy_validators_path() -> (r: String)
    ensures
        r@ == "/api/v1/validators"@,
{
    String::from_str("/api/v1/validators")
}

} // verus!
