//! The consensus of the chain as one value: block validation and chain
//! weight over a fixed beacon schedule.

use vstd::prelude::*;
use std::sync::Arc;
use crate::beacon::{Beacon, BeaconSchedule};
use crate::block::Block;
use crate::errors::NonEmpty;
use crate::tipset::Tipset;
use crate::validation::{
    block_faults, reported, validate_block, ChainParams, ParentState, StateFailure,
};
use crate::weight::{weight, wins_along, ChainStoreError, Weight, WeightParams};

verus! {

/// Expected consensus over the beacons of a schedule.
pub struct FilecoinConsensus<B> {
    /// The beacons of the network, by the epoch from which each serves.
    beacon: Arc<BeaconSchedule<B>>,
}

impl<B: Beacon> FilecoinConsensus<B> {
    /// The beacon schedule that the consensus validates against.
    pub closed spec fn schedule(&self) -> BeaconSchedule<B> {
        *self.beacon
    }

    pub fn new(beacon: Arc<BeaconSchedule<B>>) -> (consensus: Self)
        ensures
            consensus.schedule() == *beacon,
    {
        FilecoinConsensus { beacon }
    }

    /// Validates `block` against the state at its parent tipset: accepted
    /// exactly when no rule is broken, and otherwise refused with every
    /// broken rule.
    pub fn validate_block(
        &self,
        params: &ChainParams,
        state: &Result<ParentState, StateFailure>,
        block: &Block,
    ) -> (result: Result<(), NonEmpty>)
        ensures
            reported(result) == block_faults(*params, self.schedule().0@, *state, *block),
            result is Ok <==> block_faults(*params, self.schedule().0@, *state, *block).len() == 0,
    {
        validate_block(params, &*self.beacon, state, block)
    }

    /// The weight of the chain `ancestry`, listed from genesis to its head.
    pub fn weight(params: &WeightParams, ancestry: &Vec<Option<Tipset>>) -> (result: Result<
        Weight,
        ChainStoreError,
    >)
        ensures
            ancestry@.len() == 0 ==> result == Err::<Weight, ChainStoreError>(
                ChainStoreError::EmptyChain,
            ),
            ancestry@.len() > 0 ==> match result {
                Ok(w) => (forall|i: int| 0 <= i < ancestry@.len() ==> ancestry@[i] is Some) && w@
                    == params.weigh(wins_along(ancestry@)),
                Err(ChainStoreError::MissingTipset(at)) => at < ancestry@.len()
                    && ancestry@[at as int] is None && forall|j: int|
                    0 <= j < at ==> ancestry@[j] is Some,
                Err(ChainStoreError::EmptyChain) => false,
            },
    {
        weight(params, ancestry)
    }
}

} // verus!
