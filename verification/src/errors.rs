//! The errors of block validation, and non-empty lists of them.

use vstd::prelude::*;

verus! {

/// Everything that can be wrong with a block, or go wrong while it is
/// validated.
///
/// The last three variants report failures of the storage and state services
/// that validation consults; they say that no verdict could be reached. All
/// others are verdicts: the block breaks a consensus rule.
#[derive(Debug)]
pub enum FilecoinConsensusError {
    /// Block must have an election proof included in tipset.
    BlockWithoutElectionProof,
    /// Block without ticket.
    BlockWithoutTicket,
    /// Block had the wrong timestamp: the one it carries, then the one
    /// expected.
    UnequalBlockTimestamps(u64, u64),
    /// Tipset without ticket to verify.
    TipsetWithoutTicket,
    /// Block is not claiming to be a winner.
    NotClaimingWin,
    /// Block miner was slashed or is invalid.
    InvalidOrSlashedMiner,
    /// Miner power not available for miner address.
    MinerPowerNotAvailable,
    /// Miner claimed wrong number of wins: the claim, then the count
    /// computed.
    MinerWinClaimsIncorrect(i64, i64),
    /// Drawing chain randomness failed.
    DrawingChainRandomness(String),
    /// Miner isn't eligible to mine.
    MinerNotEligibleToMine,
    /// Querying miner power failed.
    MinerPowerUnavailable(String),
    /// Power actor not found.
    PowerActorUnavailable,
    /// Verifying VRF failed.
    VrfValidation(String),
    /// Failed to validate blocks random beacon values.
    BeaconValidation(String),
    /// Failed to verify winning PoSt.
    WinningPoStValidation(String),
    /// A winning PoSt failure that was let through because proof validation
    /// is switched off.
    InsecurePostValidation(String),
    /// Chain store error.
    ChainStore(String),
    /// State manager error.
    StateManager(String),
    /// Encoding error.
    ForestEncoding(String),
}

/// What an error holds, with its text as a sequence of characters.
pub enum Fault {
    BlockWithoutElectionProof,
    BlockWithoutTicket,
    UnequalBlockTimestamps(u64, u64),
    TipsetWithoutTicket,
    NotClaimingWin,
    InvalidOrSlashedMiner,
    MinerPowerNotAvailable,
    MinerWinClaimsIncorrect(i64, i64),
    DrawingChainRandomness(Seq<char>),
    MinerNotEligibleToMine,
    MinerPowerUnavailable(Seq<char>),
    PowerActorUnavailable,
    VrfValidation(Seq<char>),
    BeaconValidation(Seq<char>),
    WinningPoStValidation(Seq<char>),
    InsecurePostValidation(Seq<char>),
    ChainStore(Seq<char>),
    StateManager(Seq<char>),
    ForestEncoding(Seq<char>),
}

impl View for FilecoinConsensusError {
    type V = Fault;

    open spec fn view(&self) -> Fault {
        match *self {
            FilecoinConsensusError::BlockWithoutElectionProof => Fault::BlockWithoutElectionProof,
            FilecoinConsensusError::BlockWithoutTicket => Fault::BlockWithoutTicket,
            FilecoinConsensusError::UnequalBlockTimestamps(a, e) => Fault::UnequalBlockTimestamps(
                a,
                e,
            ),
            FilecoinConsensusError::TipsetWithoutTicket => Fault::TipsetWithoutTicket,
            FilecoinConsensusError::NotClaimingWin => Fault::NotClaimingWin,
            FilecoinConsensusError::InvalidOrSlashedMiner => Fault::InvalidOrSlashedMiner,
            FilecoinConsensusError::MinerPowerNotAvailable => Fault::MinerPowerNotAvailable,
            FilecoinConsensusError::MinerWinClaimsIncorrect(c, j) => Fault::MinerWinClaimsIncorrect(
                c,
                j,
            ),
            FilecoinConsensusError::DrawingChainRandomness(m) => Fault::DrawingChainRandomness(m@),
            FilecoinConsensusError::MinerNotEligibleToMine => Fault::MinerNotEligibleToMine,
            FilecoinConsensusError::MinerPowerUnavailable(m) => Fault::MinerPowerUnavailable(m@),
            FilecoinConsensusError::PowerActorUnavailable => Fault::PowerActorUnavailable,
            FilecoinConsensusError::VrfValidation(m) => Fault::VrfValidation(m@),
            FilecoinConsensusError::BeaconValidation(m) => Fault::BeaconValidation(m@),
            FilecoinConsensusError::WinningPoStValidation(m) => Fault::WinningPoStValidation(m@),
            FilecoinConsensusError::InsecurePostValidation(m) => Fault::InsecurePostValidation(m@),
            FilecoinConsensusError::ChainStore(m) => Fault::ChainStore(m@),
            FilecoinConsensusError::StateManager(m) => Fault::StateManager(m@),
            FilecoinConsensusError::ForestEncoding(m) => Fault::ForestEncoding(m@),
        }
    }
}

impl Fault {
    /// Whether the fault reports a failure of a service that validation
    /// consults, as opposed to a broken consensus rule.
    pub open spec fn is_infrastructure(self) -> bool {
        self is ChainStore || self is StateManager || self is ForestEncoding
    }
}

impl FilecoinConsensusError {
    /// Whether the error reports a failure of a service that validation
    /// consults. Such an error says that no verdict was reached and that
    /// validation may be tried again; every other error is a final verdict on
    /// the block.
    pub fn is_infrastructure(&self) -> (infra: bool)
        ensures
            infra == self@.is_infrastructure(),
    {
        match self {
            FilecoinConsensusError::ChainStore(_) => true,
            FilecoinConsensusError::StateManager(_) => true,
            FilecoinConsensusError::ForestEncoding(_) => true,
            _ => false,
        }
    }
}

/// What a list of errors holds.
pub open spec fn faults_of(errors: Seq<FilecoinConsensusError>) -> Seq<Fault> {
    Seq::new(errors.len(), |i: int| errors[i]@)
}

/// A list of errors with at least one member.
#[derive(Debug)]
pub struct NonEmpty {
    pub head: FilecoinConsensusError,
    pub tail: Vec<FilecoinConsensusError>,
}

impl NonEmpty {
    /// The members of the list, in order.
    pub open spec fn items(&self) -> Seq<FilecoinConsensusError> {
        seq![self.head] + self.tail@
    }

    /// The list of the members of `errors`, or nothing when there are none.
    pub fn from_vec(errors: Vec<FilecoinConsensusError>) -> (list: Option<NonEmpty>)
        ensures
            list is None <==> errors@.len() == 0,
            list is Some ==> list->0.items() == errors@,
    {
        let mut errors = errors;
        if errors.len() == 0 {
            None
        } else {
            let ghost all = errors@;
            let head = errors.remove(0);
            let list = NonEmpty { head, tail: errors };
            proof {
                assert(list.items() =~= all);
            }
            Some(list)
        }
    }

    /// The number of members, which is never zero.
    pub fn len(&self) -> (n: usize)
        requires
            self.tail@.len() < usize::MAX,
        ensures
            n == self.items().len(),
            n > 0,
    {
        self.tail.len() + 1
    }
}

} // verus!
