//! Block headers, reduced to the fields that the consensus rules read.

use vstd::prelude::*;
use crate::beacon::BeaconEntry;

verus! {

/// Proof-of-randomness output that orders the blocks of one epoch. Tickets
/// are compared as raw bytes; the smaller one wins a tie.
#[derive(Debug)]
pub struct Ticket {
    pub vrfproof: Vec<u8>,
}

/// The claim of a miner to have won an epoch.
#[derive(Debug)]
pub struct ElectionProof {
    /// Number of wins that the miner claims.
    pub win_count: i64,
    /// VRF proof from which the win count is derived.
    pub vrfproof: Vec<u8>,
}

/// A block header.
#[derive(Debug)]
pub struct Block {
    /// Actor id of the miner that produced the block.
    pub miner: u64,
    /// Chain height of the block.
    pub epoch: u64,
    /// Key of the parent tipset.
    pub parents: Vec<u8>,
    pub ticket: Option<Ticket>,
    pub election_proof: Option<ElectionProof>,
    /// Beacon entries that the block carries for its epoch.
    pub beacon_entries: Vec<BeaconEntry>,
    /// Seconds since the Unix epoch.
    pub timestamp: u64,
    /// Content identifier of the block, as bytes.
    pub cid: Vec<u8>,
}

impl Block {
    /// The ticket bytes of the block; empty when it has no ticket.
    pub open spec fn ticket_bytes(&self) -> Seq<u8> {
        match self.ticket {
            Some(t) => t.vrfproof@,
            None => Seq::empty(),
        }
    }

    /// The wins that the block contributes to the weight of its tipset: the
    /// claimed count where it is positive, and nothing otherwise.
    pub open spec fn wins(&self) -> nat {
        match self.election_proof {
            Some(p) => if p.win_count > 0 { p.win_count as nat } else { 0 },
            None => 0,
        }
    }

    /// The wins that the block contributes to the weight of its tipset.
    pub fn win_total(&self) -> (wins: u64)
        ensures
            wins == self.wins(),
    {
        match &self.election_proof {
            Some(p) => if p.win_count > 0 { p.win_count as u64 } else { 0 },
            None => 0,
        }
    }
}

} // verus!
