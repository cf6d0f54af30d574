//! The contract's configuration and totals.

use vstd::prelude::*;
use crate::msg::ContractInfo;

verus! {

/// What the contract keeps between calls.
#[derive(Clone, Debug)]
pub struct State {
    pub owner: String,
    pub wolf_pack_contract: ContractInfo,
    pub power_up_contract: ContractInfo,
    pub level_cap: i32,
    pub viewing_key: Option<String>,
    pub total_power_ups: i32,
    pub total_xp_boost: i32,
    pub total_bones_used: i32,
}

} // verus!
