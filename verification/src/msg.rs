//! Messages the contract takes and answers, with addresses as their text and binary
//! payloads as their bytes.

use vstd::prelude::*;

verus! {

/// A contract that this one talks to: its code hash and address.
#[derive(Clone, Debug)]
pub struct ContractInfo {
    /// contract's code hash string
    pub code_hash: String,
    /// contract's address
    pub address: String,
}

/// What the contract is set up with.
#[derive(Clone, Debug)]
pub struct InstantiateMsg {
    pub entropy: String,
    pub wolf_pack_contract: ContractInfo,
    pub power_up_contract: ContractInfo,
    pub level_cap: i32,
    pub levels: Vec<Level>,
}

/// One row of the level table: the XP at which `level + 1` starts.
#[derive(Clone, Copy, Debug, PartialEq, Eq, Structural)]
pub struct Level {
    pub level: i32,
    pub xp_needed: i32,
}

/// A wolf and the power-up tokens chosen for it.
#[derive(Clone, Debug)]
pub struct PowerUpMsg {
    pub wolf_token_id: String,
    pub powerup_token_ids: Vec<String>,
}

/// The record of one power-up.
#[derive(Clone, Debug)]
pub struct HistoryToken {
    pub wolf_token_id: String,
    pub powerup_token_ids: Vec<String>,
    pub power_up_date: Option<u64>,
    pub power_up_amount: i32,
}

/// The payload that comes with a batch of received tokens.
#[derive(Clone, Debug)]
pub struct RelatedTokensMsg {
    pub related_token_ids: Vec<String>,
}

/// A wolf held by the contract until its power-up arrives.
#[derive(Clone, Debug)]
pub struct Token {
    pub token_id: String,
    pub owner: String,
    pub sender: String,
    pub related_token_ids: Vec<String>,
}

/// The running totals of the contract.
#[derive(Clone, Copy, Debug, PartialEq, Eq, Structural)]
pub struct PowerUpInfoResponse {
    pub total_power_ups: i32,
    pub total_xp_boost: i32,
    pub total_bones_used: i32,
}

/// A permission that a query permit can grant.
#[derive(Clone, Copy, Debug, PartialEq, Eq, Structural)]
pub enum TokenPermissions {
    Allowance,
    Balance,
    History,
    Owner,
}

/// The signed part of a query permit.
#[derive(Clone, Debug)]
pub struct PermitParams {
    pub allowed_tokens: Vec<String>,
    pub permit_name: String,
    pub chain_id: String,
    pub permissions: Vec<TokenPermissions>,
}

/// The public key that signed a permit.
#[derive(Clone, Debug)]
pub struct PubKey {
    pub key_type: String,
    pub value: Vec<u8>,
}

/// A permit's signature.
#[derive(Clone, Debug)]
pub struct PermitSignature {
    pub pub_key: PubKey,
    pub signature: Vec<u8>,
}

/// A query permit: what it allows, and who signed it.
#[derive(Clone, Debug)]
pub struct Permit {
    pub params: PermitParams,
    pub signature: PermitSignature,
}

/// What the contract can be asked to do.
#[derive(Clone, Debug)]
pub enum ExecuteMsg {
    RevokePermit { permit_name: String },
    BatchReceiveNft { from: String, token_ids: Vec<String>, msg: Option<Vec<u8>> },
    SendNftBack { token_id: String, owner: String },
}

/// What the contract can be asked about.
#[derive(Clone, Debug)]
pub enum QueryMsg {
    GetPowerUpInfo {},
    GetUserHistory { permit: Permit, start_page: u32, page_size: u32 },
    GetNumUserHistory { permit: Permit },
}

/// A list of contracts.
#[derive(Clone, Debug)]
pub struct ContractsResponse {
    pub contract_infos: Vec<ContractInfo>,
}

/// How a handler refuses a request.
#[derive(Clone, Debug)]
pub enum ContractError {
    CustomError { val: String },
}

} // verus!
