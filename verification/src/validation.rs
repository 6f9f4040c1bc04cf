//! The validation pipeline: every rule that a block must meet, run in a fixed
//! order, with all failures collected.
//!
//! Validation reads the block, the constants of the network, the beacon that
//! serves the block's epoch, and what the state at the parent tipset says of
//! the block's miner. It changes nothing, so its result depends on these
//! values alone.

use vstd::prelude::*;
use crate::beacon::{
    beacon_fault, entry_models, fault_of, validate_beacon_entries, Beacon, BeaconEntry,
    BeaconSchedule, BeaconPoint, serves,
};
use crate::block::Block;
use crate::errors::{faults_of, Fault, FilecoinConsensusError, NonEmpty};

verus! {

/// Constants of the network that validation needs.
#[derive(Clone, Copy, Debug)]
pub struct ChainParams {
    /// Timestamp of the genesis block, in seconds.
    pub genesis_timestamp: u64,
    /// Seconds between two epochs.
    pub block_delay_secs: u64,
    /// Lets every block through the check of its winning PoSt. Only for test
    /// and development networks; switched off unless set on purpose.
    pub insecure_post_validation: bool,
}

/// What the state at the parent tipset holds on a miner that has power.
#[derive(Clone, Copy, Debug)]
pub struct MinerStanding {
    /// Whether the miner meets the conditions to mine at all.
    pub eligible: bool,
    /// Whether the miner has been slashed.
    pub slashed: bool,
    /// The number of wins that follow from the block's VRF proof and the
    /// miner's share of the network's power.
    pub computed_win_count: i64,
}

/// Answer of the power oracle for a miner.
#[derive(Debug)]
pub enum PowerLookup {
    /// The query itself failed.
    QueryFailed(String),
    /// The state holds no power actor.
    NoPowerActor,
    /// The miner has no power entry.
    NotFound,
    /// The miner's standing.
    Found(MinerStanding),
}

/// What the services around validation report for one block: the latest
/// beacon entry before it, and the outcome of each check that only they can
/// make.
#[derive(Debug)]
pub struct ParentState {
    /// The latest beacon entry on the chain before the block.
    pub prev_beacon: BeaconEntry,
    /// Why drawing the election randomness failed, if it did.
    pub draw_failure: Option<String>,
    /// Why the VRF proof did not verify against that randomness, if it did
    /// not.
    pub vrf_failure: Option<String>,
    /// The miner's power and standing.
    pub power: PowerLookup,
    /// Whether the winning PoSt verified, or why that could not be decided.
    pub winning_post: Result<bool, String>,
}

/// Why the services around validation could report nothing on a block.
/// None of these is a verdict on the block: validation may be tried again
/// once the service is back.
#[derive(Debug)]
pub enum StateFailure {
    /// The state of the parent tipset has not been computed yet.
    NotReady,
    /// The chain store failed.
    ChainStore(String),
    /// The state manager failed.
    StateManager(String),
    /// A value read from the state could not be decoded or encoded.
    Encoding(String),
}

/// The fault that reports a failure of the services.
pub open spec fn failure_fault(failure: StateFailure) -> Fault {
    match failure {
        StateFailure::NotReady => Fault::StateManager(text_state_not_ready()),
        StateFailure::ChainStore(reason) => Fault::ChainStore(reason@),
        StateFailure::StateManager(reason) => Fault::StateManager(reason@),
        StateFailure::Encoding(reason) => Fault::ForestEncoding(reason@),
    }
}

/// Text of the error for a parent state that is not there yet.
pub open spec fn text_state_not_ready() -> Seq<char> {
    "state of the parent tipset is not available yet"@
}

/// Text of the error for a block at an epoch that no beacon serves.
pub open spec fn text_no_beacon() -> Seq<char> {
    "no beacon serves the epoch of the block"@
}

/// Text of the error for a winning PoSt that did not verify.
pub open spec fn text_post_invalid() -> Seq<char> {
    "winning PoSt proof did not verify"@
}

/// The timestamp that a block at `epoch` must carry.
pub open spec fn expected_timestamp(params: ChainParams, epoch: u64) -> int {
    params.genesis_timestamp + epoch * params.block_delay_secs
}

/// `value`, or the largest `u64` where it is beyond that.
pub open spec fn clip(value: int) -> u64 {
    if value > u64::MAX {
        u64::MAX
    } else if value < 0 {
        0
    } else {
        value as u64
    }
}

/// A block must carry a ticket.
pub open spec fn ticket_fault(block: Block) -> Option<Fault> {
    if block.ticket is None {
        Some(Fault::BlockWithoutTicket)
    } else {
        None
    }
}

/// A block must carry an election proof.
pub open spec fn proof_fault(block: Block) -> Option<Fault> {
    if block.election_proof is None {
        Some(Fault::BlockWithoutElectionProof)
    } else {
        None
    }
}

/// A block must carry exactly the timestamp of its epoch. The error reports
/// the timestamp found and the one expected, the latter clipped to a `u64`.
pub open spec fn timestamp_fault(params: ChainParams, block: Block) -> Option<Fault> {
    if block.timestamp == expected_timestamp(params, block.epoch) {
        None
    } else {
        Some(
            Fault::UnequalBlockTimestamps(
                block.timestamp,
                clip(expected_timestamp(params, block.epoch)),
            ),
        )
    }
}

/// The beacon entries of a block must be those that the beacon serving its
/// epoch expects.
pub open spec fn scheduled_beacon_fault<B: Beacon>(
    points: Seq<BeaconPoint<B>>,
    state: ParentState,
    block: Block,
) -> Option<Fault> {
    if exists|i: int| serves(points, i, block.epoch) {
        let i = choose|i: int| serves(points, i, block.epoch);
        beacon_fault(
            &points[i].beacon,
            block.epoch,
            state.prev_beacon@,
            entry_models(block.beacon_entries@),
        )
    } else {
        Some(Fault::BeaconValidation(text_no_beacon()))
    }
}

/// The election randomness must have been drawn, and the VRF proof of the
/// election proof must verify against it. A block without election proof
/// has nothing to verify.
pub open spec fn randomness_fault(state: ParentState, block: Block) -> Option<Fault> {
    if block.election_proof is None {
        None
    } else {
        match state.draw_failure {
            Some(reason) => Some(Fault::DrawingChainRandomness(reason@)),
            None => match state.vrf_failure {
                Some(reason) => Some(Fault::VrfValidation(reason@)),
                None => None,
            },
        }
    }
}

/// The miner must have power, must not be slashed and must be eligible.
pub open spec fn power_fault(state: ParentState) -> Option<Fault> {
    match state.power {
        PowerLookup::QueryFailed(reason) => Some(Fault::MinerPowerUnavailable(reason@)),
        PowerLookup::NoPowerActor => Some(Fault::PowerActorUnavailable),
        PowerLookup::NotFound => Some(Fault::MinerPowerNotAvailable),
        PowerLookup::Found(standing) => if standing.slashed {
            Some(Fault::InvalidOrSlashedMiner)
        } else if !standing.eligible {
            Some(Fault::MinerNotEligibleToMine)
        } else {
            None
        },
    }
}

/// The election proof must claim at least one win, and where the miner's
/// power is known, exactly the number of wins that follows from it.
pub open spec fn win_fault(state: ParentState, block: Block) -> Option<Fault> {
    match block.election_proof {
        None => None,
        Some(proof) => if proof.win_count <= 0 {
            Some(Fault::NotClaimingWin)
        } else {
            match state.power {
                PowerLookup::Found(standing) => if standing.computed_win_count
                    != proof.win_count {
                    Some(
                        Fault::MinerWinClaimsIncorrect(
                            proof.win_count,
                            standing.computed_win_count,
                        ),
                    )
                } else {
                    None
                },
                _ => None,
            }
        },
    }
}

/// The winning PoSt must verify, unless its validation is switched off.
pub open spec fn post_fault(params: ChainParams, state: ParentState) -> Option<Fault> {
    if params.insecure_post_validation {
        None
    } else {
        match state.winning_post {
            Ok(true) => None,
            Ok(false) => Some(Fault::WinningPoStValidation(text_post_invalid())),
            Err(reason) => Some(Fault::WinningPoStValidation(reason@)),
        }
    }
}

/// What must be logged where the validation of winning PoSts is switched off
/// and lets a failure through.
pub open spec fn post_notice(params: ChainParams, state: ParentState) -> Option<Fault> {
    if !params.insecure_post_validation {
        None
    } else {
        match state.winning_post {
            Ok(true) => None,
            Ok(false) => Some(Fault::InsecurePostValidation(text_post_invalid())),
            Err(reason) => Some(Fault::InsecurePostValidation(reason@)),
        }
    }
}

/// The list of no fault or of one.
pub open spec fn listed(fault: Option<Fault>) -> Seq<Fault> {
    match fault {
        Some(f) => seq![f],
        None => Seq::empty(),
    }
}

/// Every fault of a block, in the order in which the rules are tried. Where
/// the services could report nothing, their failure is the only fault: no
/// rule is tried, and the fault is no verdict on the block.
pub open spec fn block_faults<B: Beacon>(
    params: ChainParams,
    points: Seq<BeaconPoint<B>>,
    state: Result<ParentState, StateFailure>,
    block: Block,
) -> Seq<Fault> {
    match state {
        Err(failure) => seq![failure_fault(failure)],
        Ok(st) => listed(ticket_fault(block)) + listed(proof_fault(block)) + listed(
            timestamp_fault(params, block),
        ) + listed(scheduled_beacon_fault(points, st, block)) + listed(
            randomness_fault(st, block),
        ) + listed(power_fault(st)) + listed(win_fault(st, block)) + listed(
            post_fault(params, st),
        ),
    }
}

/// The faults that a result of validation reports: none for an accepted
/// block.
pub open spec fn reported(result: Result<(), NonEmpty>) -> Seq<Fault> {
    match result {
        Ok(_) => Seq::empty(),
        Err(list) => faults_of(list.items()),
    }
}

/// Checks that the block carries a ticket.
pub fn check_ticket(block: &Block) -> (found: Option<FilecoinConsensusError>)
    ensures
        fault_of(found) == ticket_fault(*block),
{
    if block.ticket.is_none() {
        Some(FilecoinConsensusError::BlockWithoutTicket)
    } else {
        None
    }
}

/// Checks that the block carries an election proof.
pub fn check_election_proof(block: &Block) -> (found: Option<FilecoinConsensusError>)
    ensures
        fault_of(found) == proof_fault(*block),
{
    if block.election_proof.is_none() {
        Some(FilecoinConsensusError::BlockWithoutElectionProof)
    } else {
        None
    }
}

/// Checks that the block carries the timestamp of its epoch, which is the
/// genesis timestamp plus the block delay for each epoch since.
pub fn check_timestamp(params: &ChainParams, block: &Block) -> (found: Option<
    FilecoinConsensusError,
>)
    ensures
        fault_of(found) == timestamp_fault(*params, *block),
        found is None <==> block.timestamp == params.genesis_timestamp + block.epoch
            * params.block_delay_secs,
{
    let epoch: u128 = block.epoch as u128;
    let delay: u128 = params.block_delay_secs as u128;
    proof {
        assert(epoch * delay <= 0xffff_ffff_ffff_ffff * 0xffff_ffff_ffff_ffff) by (nonlinear_arith)
            requires
                epoch <= 0xffff_ffff_ffff_ffff,
                delay <= 0xffff_ffff_ffff_ffff,
        ;
    }
    let expected: u128 = params.genesis_timestamp as u128 + epoch * delay;
    if block.timestamp as u128 == expected {
        None
    } else {
        let shown: u64 = if expected > u64::MAX as u128 {
            u64::MAX
        } else {
            expected as u64
        };
        Some(FilecoinConsensusError::UnequalBlockTimestamps(block.timestamp, shown))
    }
}

/// Two points of a schedule cannot both serve one epoch.
proof fn lemma_serving_point_unique<B>(points: Seq<BeaconPoint<B>>, i: int, j: int, epoch: u64)
    requires
        serves(points, i, epoch),
        serves(points, j, epoch),
    ensures
        i == j,
{
}

/// Checks the beacon entries of the block against the beacon that the
/// schedule gives for its epoch.
pub fn check_beacon<B: Beacon>(
    schedule: &BeaconSchedule<B>,
    state: &ParentState,
    block: &Block,
) -> (found: Option<FilecoinConsensusError>)
    ensures
        fault_of(found) == scheduled_beacon_fault(schedule.0@, *state, *block),
{
    match schedule.beacon_for_epoch(block.epoch) {
        None => Some(
            FilecoinConsensusError::BeaconValidation(
                "no beacon serves the epoch of the block".to_owned(),
            ),
        ),
        Some(index) => {
            proof {
                let chosen = choose|i: int| serves(schedule.0@, i, block.epoch);
                lemma_serving_point_unique(schedule.0@, index as int, chosen, block.epoch);
            }
            validate_beacon_entries(
                &schedule.0[index].beacon,
                block.epoch,
                &state.prev_beacon,
                &block.beacon_entries,
            )
        },
    }
}

/// Reports a failure to draw the election randomness, or else a VRF proof
/// that did not verify.
pub fn check_randomness(state: &ParentState, block: &Block) -> (found: Option<
    FilecoinConsensusError,
>)
    ensures
        fault_of(found) == randomness_fault(*state, *block),
{
    if block.election_proof.is_none() {
        return None;
    }
    match &state.draw_failure {
        Some(reason) => Some(FilecoinConsensusError::DrawingChainRandomness(reason.clone())),
        None => match &state.vrf_failure {
            Some(reason) => Some(FilecoinConsensusError::VrfValidation(reason.clone())),
            None => None,
        },
    }
}

/// Checks the miner's power and standing.
pub fn check_power(state: &ParentState) -> (found: Option<FilecoinConsensusError>)
    ensures
        fault_of(found) == power_fault(*state),
{
    match &state.power {
        PowerLookup::QueryFailed(reason) => Some(
            FilecoinConsensusError::MinerPowerUnavailable(reason.clone()),
        ),
        PowerLookup::NoPowerActor => Some(FilecoinConsensusError::PowerActorUnavailable),
        PowerLookup::NotFound => Some(FilecoinConsensusError::MinerPowerNotAvailable),
        PowerLookup::Found(standing) => if standing.slashed {
            Some(FilecoinConsensusError::InvalidOrSlashedMiner)
        } else if !standing.eligible {
            Some(FilecoinConsensusError::MinerNotEligibleToMine)
        } else {
            None
        },
    }
}

/// Checks the number of wins that the election proof claims against the
/// number computed from the miner's power.
pub fn check_win_count(state: &ParentState, block: &Block) -> (found: Option<
    FilecoinConsensusError,
>)
    ensures
        fault_of(found) == win_fault(*state, *block),
{
    match &block.election_proof {
        None => None,
        Some(proof) => if proof.win_count <= 0 {
            Some(FilecoinConsensusError::NotClaimingWin)
        } else {
            match &state.power {
                PowerLookup::Found(standing) => if standing.computed_win_count
                    != proof.win_count {
                    Some(
                        FilecoinConsensusError::MinerWinClaimsIncorrect(
                            proof.win_count,
                            standing.computed_win_count,
                        ),
                    )
                } else {
                    None
                },
                _ => None,
            }
        },
    }
}

/// Checks the outcome of the winning PoSt verification.
pub fn check_winning_post(params: &ChainParams, state: &ParentState) -> (found: Option<
    FilecoinConsensusError,
>)
    ensures
        fault_of(found) == post_fault(*params, *state),
{
    if params.insecure_post_validation {
        return None;
    }
    match &state.winning_post {
        Ok(true) => None,
        Ok(false) => Some(
            FilecoinConsensusError::WinningPoStValidation(
                "winning PoSt proof did not verify".to_owned(),
            ),
        ),
        Err(reason) => Some(FilecoinConsensusError::WinningPoStValidation(reason.clone())),
    }
}

/// What to log for a winning PoSt failure that is let through because the
/// validation of winning PoSts is switched off.
pub fn insecure_post_notice(params: &ChainParams, state: &ParentState) -> (found: Option<
    FilecoinConsensusError,
>)
    ensures
        fault_of(found) == post_notice(*params, *state),
{
    if !params.insecure_post_validation {
        return None;
    }
    match &state.winning_post {
        Ok(true) => None,
        Ok(false) => Some(
            FilecoinConsensusError::InsecurePostValidation(
                "winning PoSt proof did not verify".to_owned(),
            ),
        ),
        Err(reason) => Some(FilecoinConsensusError::InsecurePostValidation(reason.clone())),
    }
}

/// Adds `found` to `errors`, if it is an error.
fn collect(errors: &mut Vec<FilecoinConsensusError>, found: Option<FilecoinConsensusError>)
    ensures
        faults_of(final(errors)@) == faults_of(old(errors)@) + listed(fault_of(found)),
{
    match found {
        Some(error) => {
            errors.push(error);
            proof {
                assert(faults_of(errors@) =~= faults_of(old(errors)@) + listed(
                    fault_of(Some(error)),
                ));
            }
        },
        None => {
            proof {
                assert(faults_of(errors@) =~= faults_of(old(errors)@) + listed(
                    fault_of(None::<FilecoinConsensusError>),
                ));
            }
        },
    }
}

/// Reports a failure of the services around validation as an error of its
/// class.
pub fn failure_error(failure: &StateFailure) -> (error: FilecoinConsensusError)
    ensures
        error@ == failure_fault(*failure),
        error@.is_infrastructure(),
{
    match failure {
        StateFailure::NotReady => FilecoinConsensusError::StateManager(
            "state of the parent tipset is not available yet".to_owned(),
        ),
        StateFailure::ChainStore(reason) => FilecoinConsensusError::ChainStore(reason.clone()),
        StateFailure::StateManager(reason) => FilecoinConsensusError::StateManager(reason.clone()),
        StateFailure::Encoding(reason) => FilecoinConsensusError::ForestEncoding(reason.clone()),
    }
}

/// Validates `block` against the constants of the network, the beacon
/// schedule and the state at its parent tipset.
///
/// Every rule is tried and every failure reported, in the order of
/// [`block_faults`]; the block is accepted exactly when there is none. A
/// failure of the services is reported alone, as an error of its own class,
/// so that the caller can try again later.
pub fn validate_block<B: Beacon>(
    params: &ChainParams,
    schedule: &BeaconSchedule<B>,
    state: &Result<ParentState, StateFailure>,
    block: &Block,
) -> (result: Result<(), NonEmpty>)
    ensures
        reported(result) == block_faults(*params, schedule.0@, *state, *block),
        result is Ok <==> block_faults(*params, schedule.0@, *state, *block).len() == 0,
{
    let mut errors: Vec<FilecoinConsensusError> = Vec::new();
    proof {
        assert(faults_of(errors@) =~= Seq::<Fault>::empty());
    }
    match state {
        Err(failure) => {
            let error = failure_error(failure);
            errors.push(error);
            proof {
                assert(faults_of(errors@) =~= seq![failure_fault(*failure)]);
            }
        },
        Ok(st) => {
            collect(&mut errors, check_ticket(block));
            collect(&mut errors, check_election_proof(block));
            collect(&mut errors, check_timestamp(params, block));
            collect(&mut errors, check_beacon(schedule, st, block));
            collect(&mut errors, check_randomness(st, block));
            collect(&mut errors, check_power(st));
            collect(&mut errors, check_win_count(st, block));
            collect(&mut errors, check_winning_post(params, st));
            proof {
                assert(faults_of(errors@) =~= block_faults(
                    *params,
                    schedule.0@,
                    *state,
                    *block,
                ));
            }
        },
    }
    match NonEmpty::from_vec(errors) {
        None => Ok(()),
        Some(list) => Err(list),
    }
}

/// A member of either part is a member of the whole.
proof fn lemma_member_of_parts(front: Seq<Fault>, back: Seq<Fault>, fault: Fault)
    ensures
        front.contains(fault) ==> (front + back).contains(fault),
        back.contains(fault) ==> (front + back).contains(fault),
{
    if front.contains(fault) {
        let i = choose|i: int| 0 <= i < front.len() && front[i] == fault;
        assert((front + back)[i] == fault);
    }
    if back.contains(fault) {
        let i = choose|i: int| 0 <= i < back.len() && back[i] == fault;
        assert((front + back)[front.len() + i] == fault);
    }
}

/// Nothing is dropped: where the services have reported, the fault that any
/// one rule finds is among the faults of the block, whatever the other rules
/// find.
pub proof fn lemma_every_fault_reported<B: Beacon>(
    params: ChainParams,
    points: Seq<BeaconPoint<B>>,
    state: ParentState,
    block: Block,
    fault: Fault,
)
    requires
        ticket_fault(block) == Some(fault) || proof_fault(block) == Some(fault) || timestamp_fault(
            params,
            block,
        ) == Some(fault) || scheduled_beacon_fault(points, state, block) == Some(fault)
            || randomness_fault(state, block) == Some(fault) || power_fault(state) == Some(fault)
            || win_fault(state, block) == Some(fault) || post_fault(params, state) == Some(fault),
    ensures
        block_faults(params, points, Ok(state), block).contains(fault),
{
    let s1 = listed(ticket_fault(block));
    let s2 = listed(proof_fault(block));
    let s3 = listed(timestamp_fault(params, block));
    let s4 = listed(scheduled_beacon_fault(points, state, block));
    let s5 = listed(randomness_fault(state, block));
    let s6 = listed(power_fault(state));
    let s7 = listed(win_fault(state, block));
    let s8 = listed(post_fault(params, state));
    assert(seq![fault][0] == fault);
    lemma_member_of_parts(s1, s2, fault);
    lemma_member_of_parts(s1 + s2, s3, fault);
    lemma_member_of_parts(s1 + s2 + s3, s4, fault);
    lemma_member_of_parts(s1 + s2 + s3 + s4, s5, fault);
    lemma_member_of_parts(s1 + s2 + s3 + s4 + s5, s6, fault);
    lemma_member_of_parts(s1 + s2 + s3 + s4 + s5 + s6, s7, fault);
    lemma_member_of_parts(s1 + s2 + s3 + s4 + s5 + s6 + s7, s8, fault);
}

/// A block without ticket and without election proof is reported for both,
/// the ticket first.
pub proof fn lemma_both_absences_reported<B: Beacon>(
    params: ChainParams,
    points: Seq<BeaconPoint<B>>,
    state: ParentState,
    block: Block,
)
    requires
        block.ticket is None,
        block.election_proof is None,
    ensures
        block_faults(params, points, Ok(state), block).len() >= 2,
        block_faults(params, points, Ok(state), block)[0] == Fault::BlockWithoutTicket,
        block_faults(params, points, Ok(state), block)[1] == Fault::BlockWithoutElectionProof,
{
}

/// A block is accepted only with the timestamp of its epoch, and a block
/// with any other timestamp is reported with the timestamp it carries and
/// the one expected.
pub proof fn lemma_timestamp_exact<B: Beacon>(
    params: ChainParams,
    points: Seq<BeaconPoint<B>>,
    state: ParentState,
    block: Block,
)
    ensures
        block_faults(params, points, Ok(state), block).len() == 0 ==> block.timestamp
            == params.genesis_timestamp + block.epoch * params.block_delay_secs,
        block.timestamp != expected_timestamp(params, block.epoch) && expected_timestamp(
            params,
            block.epoch,
        ) <= u64::MAX ==> block_faults(params, points, Ok(state), block).contains(
            Fault::UnequalBlockTimestamps(
                block.timestamp,
                expected_timestamp(params, block.epoch) as u64,
            ),
        ),
{
    if block.timestamp != expected_timestamp(params, block.epoch) {
        let fault = timestamp_fault(params, block)->0;
        lemma_every_fault_reported(params, points, state, block, fault);
    }
}

/// A positive claim of wins that differs from the count computed from the
/// miner's power is reported as incorrect, with both numbers.
pub proof fn lemma_wrong_claim_reported<B: Beacon>(
    params: ChainParams,
    points: Seq<BeaconPoint<B>>,
    state: ParentState,
    block: Block,
)
    requires
        block.election_proof is Some,
        block.election_proof->0.win_count > 0,
        state.power is Found,
        state.power->Found_0.computed_win_count != block.election_proof->0.win_count,
    ensures
        block_faults(params, points, Ok(state), block).contains(
            Fault::MinerWinClaimsIncorrect(
                block.election_proof->0.win_count,
                state.power->Found_0.computed_win_count,
            ),
        ),
{
    let fault = Fault::MinerWinClaimsIncorrect(
        block.election_proof->0.win_count,
        state.power->Found_0.computed_win_count,
    );
    assert(win_fault(state, block) == Some(fault));
    lemma_every_fault_reported(params, points, state, block, fault);
}

/// Validation is a function of what it reads: two validations of one block
/// against one state, schedule and set of constants report the same faults,
/// and accept or refuse alike.
pub proof fn lemma_same_block_same_verdict<B: Beacon>(
    params: ChainParams,
    points: Seq<BeaconPoint<B>>,
    state: Result<ParentState, StateFailure>,
    block: Block,
    first: Result<(), NonEmpty>,
    second: Result<(), NonEmpty>,
)
    requires
        reported(first) == block_faults(params, points, state, block),
        first is Ok <==> block_faults(params, points, state, block).len() == 0,
        reported(second) == block_faults(params, points, state, block),
        second is Ok <==> block_faults(params, points, state, block).len() == 0,
    ensures
        reported(first) == reported(second),
        first is Ok <==> second is Ok,
{
}

/// Whether every fault of the list is a verdict on the block, none a failure
/// of a service.
pub open spec fn all_verdicts(faults: Seq<Fault>) -> bool {
    forall|i: int| 0 <= i < faults.len() ==> !(#[trigger] faults[i]).is_infrastructure()
}

/// A fault in a chain of beacon entries is a verdict.
proof fn lemma_chain_fault_is_verdict<B: Beacon>(
    beacon: &B,
    prev: crate::beacon::BeaconEntryModel,
    entries: Seq<crate::beacon::BeaconEntryModel>,
)
    ensures
        all_verdicts(listed(crate::beacon::chain_fault(beacon, prev, entries))),
    decreases entries.len(),
{
    if entries.len() > 0 {
        lemma_chain_fault_is_verdict(beacon, entries[0], entries.drop_first());
    }
}

/// Two lists of verdicts make a list of verdicts.
proof fn lemma_verdicts_join(front: Seq<Fault>, back: Seq<Fault>)
    requires
        all_verdicts(front),
        all_verdicts(back),
    ensures
        all_verdicts(front + back),
{
    assert forall|i: int| 0 <= i < (front + back).len() implies !(#[trigger] (front + back)[i]).is_infrastructure() by {
        if i < front.len() {
            assert((front + back)[i] == front[i]);
        } else {
            assert((front + back)[i] == back[i - front.len()]);
        }
    }
}

/// The two classes of errors never mix. Where the services have reported,
/// every fault of the block is a verdict on it; where they have failed, the
/// one fault reported is that failure and no verdict.
pub proof fn lemma_classes_apart<B: Beacon>(
    params: ChainParams,
    points: Seq<BeaconPoint<B>>,
    state: Result<ParentState, StateFailure>,
    block: Block,
)
    ensures
        state is Ok ==> all_verdicts(block_faults(params, points, state, block)),
        state is Err ==> block_faults(params, points, state, block).len() == 1 && block_faults(
            params,
            points,
            state,
            block,
        )[0].is_infrastructure(),
{
    if let Ok(st) = state {
        let s1 = listed(ticket_fault(block));
        let s2 = listed(proof_fault(block));
        let s3 = listed(timestamp_fault(params, block));
        let s4 = listed(scheduled_beacon_fault(points, st, block));
        let s5 = listed(randomness_fault(st, block));
        let s6 = listed(power_fault(st));
        let s7 = listed(win_fault(st, block));
        let s8 = listed(post_fault(params, st));
        if exists|i: int| serves(points, i, block.epoch) {
            let i = choose|i: int| serves(points, i, block.epoch);
            lemma_chain_fault_is_verdict(
                &points[i].beacon,
                st.prev_beacon@,
                entry_models(block.beacon_entries@),
            );
        }
        assert(all_verdicts(s4));
        lemma_verdicts_join(s1, s2);
        lemma_verdicts_join(s1 + s2, s3);
        lemma_verdicts_join(s1 + s2 + s3, s4);
        lemma_verdicts_join(s1 + s2 + s3 + s4, s5);
        lemma_verdicts_join(s1 + s2 + s3 + s4 + s5, s6);
        lemma_verdicts_join(s1 + s2 + s3 + s4 + s5 + s6, s7);
        lemma_verdicts_join(s1 + s2 + s3 + s4 + s5 + s6 + s7, s8);
    }
}

} // verus!
