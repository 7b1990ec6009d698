use crate::staker::NearStaker;
use vstd::prelude::*;

verus! {

/// The contract state as it is stored, tagged with the layout version it was
/// written in.
pub enum VersionedNearStaker {
    V1(NearStaker),
}

impl VersionedNearStaker {
    /// The state that a stored value of any version stands for, in the
    /// current layout.
    pub open spec fn current(self) -> NearStaker {
        match self {
            VersionedNearStaker::V1(state) => state,
        }
    }
}

/// Converts from an old version of the contract to the new one.
impl From<VersionedNearStaker> for NearStaker {
    fn from(contract: VersionedNearStaker) -> (state: Self)
        ensures
            state == contract.current(),
            contract == VersionedNearStaker::V1(state),
    {
        match contract {
            VersionedNearStaker::V1(state) => state,
        }
    }
}

impl vstd::std_specs::convert::FromSpecImpl<VersionedNearStaker> for NearStaker {
    open spec fn obeys_from_spec() -> bool {
        true
    }

    open spec fn from_spec(contract: VersionedNearStaker) -> NearStaker {
        contract.current()
    }
}

/// Upgrading a state stored in the first layout gives back that very state:
/// no field is changed by the conversion.
pub proof fn lemma_upgrade_keeps_v1_state(state: NearStaker)
    ensures
        VersionedNearStaker::V1(state).current() == state,
{
}

/// The conversion loses nothing: wrapping the upgraded state as the current
/// version gives back the stored value it came from.
pub proof fn lemma_upgrade_round_trip(contract: VersionedNearStaker)
    ensures
        VersionedNearStaker::V1(contract.current()) == contract,
{
}

} // verus!
