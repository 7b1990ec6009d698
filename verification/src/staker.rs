use vstd::prelude::*;

verus! {

/// The persistent state of the staking contract, as the current version of
/// the contract lays it out.
#[derive(Clone, Debug, PartialEq, Eq)]
pub struct NearStaker {
    /// Account that owns the contract and may change its settings.
    pub owner_id: String,
    /// Account that receives the distribution fees.
    pub treasury_id: String,
    /// Whether user-facing operations are currently refused.
    pub is_paused: bool,
    /// Fee taken on distributed rewards.
    pub distribution_fee: u32,
    /// Stake, in yoctoNEAR, on which no fee is charged.
    pub tax_exempt_stake: u128,
}

} // verus!
