//! State of the NEAR staking contract and the versioned envelope in which
//! that state is stored, so that a contract upgrade can read the state it
//! finds on chain and carry it over to the current layout.

pub mod staker;
pub mod upgrade;
