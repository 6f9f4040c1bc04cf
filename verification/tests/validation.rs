use std::sync::Arc;

use fil_consensus::beacon::{BeaconEntry, BeaconPoint, BeaconSchedule, MockBeacon};
use fil_consensus::block::{Block, ElectionProof, Ticket};
use fil_consensus::consensus::FilecoinConsensus;
use fil_consensus::errors::{FilecoinConsensusError, NonEmpty};
use fil_consensus::validation::{
    check_timestamp, check_win_count, insecure_post_notice, validate_block, ChainParams,
    MinerStanding, ParentState, PowerLookup, StateFailure,
};

const GENESIS: u64 = 1_600_000_000;
const DELAY: u64 = 30;

fn params() -> ChainParams {
    ChainParams {
        genesis_timestamp: GENESIS,
        block_delay_secs: DELAY,
        insecure_post_validation: false,
    }
}

fn schedule() -> BeaconSchedule<MockBeacon> {
    BeaconSchedule(vec![BeaconPoint { height: 0, beacon: MockBeacon {} }])
}

fn good_block() -> Block {
    Block {
        miner: 1000,
        epoch: 5,
        parents: vec![1, 2, 3],
        ticket: Some(Ticket { vrfproof: vec![1] }),
        election_proof: Some(ElectionProof { win_count: 2, vrfproof: vec![2] }),
        beacon_entries: vec![MockBeacon::entry_after(4, 5)],
        timestamp: GENESIS + 5 * DELAY,
        cid: vec![42],
    }
}

fn good_state() -> Result<ParentState, StateFailure> {
    Ok(ParentState {
        prev_beacon: BeaconEntry::new(4, vec![]),
        draw_failure: None,
        vrf_failure: None,
        power: PowerLookup::Found(MinerStanding {
            eligible: true,
            slashed: false,
            computed_win_count: 2,
        }),
        winning_post: Ok(true),
    })
}

fn errors(result: Result<(), NonEmpty>) -> Vec<String> {
    match result {
        Ok(()) => Vec::new(),
        Err(list) => {
            let mut out = vec![format!("{:?}", list.head)];
            out.extend(list.tail.iter().map(|e| format!("{:?}", e)));
            out
        }
    }
}

#[test]
fn well_formed_block_is_accepted() {
    assert!(validate_block(&params(), &schedule(), &good_state(), &good_block()).is_ok());
}

#[test]
fn consensus_validates_through_its_schedule() {
    let consensus = FilecoinConsensus::new(Arc::new(schedule()));
    assert!(consensus.validate_block(&params(), &good_state(), &good_block()).is_ok());
    let mut block = good_block();
    block.ticket = None;
    let got = errors(consensus.validate_block(&params(), &good_state(), &block));
    assert_eq!(got, vec!["BlockWithoutTicket"]);
}

#[test]
fn missing_ticket_and_election_proof_are_both_reported() {
    let mut block = good_block();
    block.ticket = None;
    block.election_proof = None;
    let got = errors(validate_block(&params(), &schedule(), &good_state(), &block));
    assert_eq!(got, vec!["BlockWithoutTicket", "BlockWithoutElectionProof"]);
}

#[test]
fn timestamp_off_by_one_second_is_refused() {
    let expected = GENESIS + 5 * DELAY;
    for actual in [expected - 1, expected + 1] {
        let mut block = good_block();
        block.timestamp = actual;
        let result = validate_block(&params(), &schedule(), &good_state(), &block);
        let list = result.unwrap_err();
        assert!(list.tail.is_empty());
        match list.head {
            FilecoinConsensusError::UnequalBlockTimestamps(a, e) => {
                assert_eq!((a, e), (actual, expected))
            }
            other => panic!("expected a timestamp error, got {:?}", other),
        }
    }
}

#[test]
fn timestamp_at_genesis_and_beyond_the_range() {
    let mut block = good_block();
    block.epoch = 0;
    block.timestamp = GENESIS;
    assert!(check_timestamp(&params(), &block).is_none());
    // An epoch whose timestamp no u64 can hold is reported with the largest.
    block.epoch = u64::MAX;
    block.timestamp = 7;
    match check_timestamp(&params(), &block) {
        Some(FilecoinConsensusError::UnequalBlockTimestamps(a, e)) => {
            assert_eq!((a, e), (7, u64::MAX))
        }
        other => panic!("expected a timestamp error, got {:?}", other),
    }
}

#[test]
fn wrong_win_claim_reports_claim_and_count() {
    let mut block = good_block();
    block.election_proof = Some(ElectionProof { win_count: 3, vrfproof: vec![2] });
    let list = validate_block(&params(), &schedule(), &good_state(), &block).unwrap_err();
    assert!(list.tail.is_empty());
    assert!(matches!(list.head, FilecoinConsensusError::MinerWinClaimsIncorrect(3, 2)));
}

#[test]
fn claim_of_no_win_is_refused() {
    for claimed in [0, -1] {
        let mut block = good_block();
        block.election_proof = Some(ElectionProof { win_count: claimed, vrfproof: vec![2] });
        let got = errors(validate_block(&params(), &schedule(), &good_state(), &block));
        assert_eq!(got, vec!["NotClaimingWin"]);
    }
}

#[test]
fn win_count_is_not_checked_without_power() {
    let mut state = good_state().unwrap();
    state.power = PowerLookup::NotFound;
    let mut block = good_block();
    block.election_proof = Some(ElectionProof { win_count: 9, vrfproof: vec![] });
    assert!(check_win_count(&state, &block).is_none());
}

#[test]
fn power_faults() {
    let cases: Vec<(PowerLookup, &str)> = vec![
        (PowerLookup::NotFound, "MinerPowerNotAvailable"),
        (PowerLookup::NoPowerActor, "PowerActorUnavailable"),
        (PowerLookup::QueryFailed("db closed".to_string()), "MinerPowerUnavailable(\"db closed\")"),
        (
            PowerLookup::Found(MinerStanding { eligible: true, slashed: true, computed_win_count: 2 }),
            "InvalidOrSlashedMiner",
        ),
        (
            PowerLookup::Found(MinerStanding { eligible: false, slashed: false, computed_win_count: 2 }),
            "MinerNotEligibleToMine",
        ),
    ];
    for (power, expected) in cases {
        let mut state = good_state().unwrap();
        state.power = power;
        let got = errors(validate_block(&params(), &schedule(), &Ok(state), &good_block()));
        assert_eq!(got, vec![expected]);
    }
}

#[test]
fn randomness_and_vrf_faults() {
    let mut state = good_state().unwrap();
    state.draw_failure = Some("bad seed".to_string());
    state.vrf_failure = Some("bad proof".to_string());
    let got = errors(validate_block(&params(), &schedule(), &Ok(state), &good_block()));
    assert_eq!(got, vec!["DrawingChainRandomness(\"bad seed\")"]);

    let mut state = good_state().unwrap();
    state.vrf_failure = Some("bad proof".to_string());
    let got = errors(validate_block(&params(), &schedule(), &Ok(state), &good_block()));
    assert_eq!(got, vec!["VrfValidation(\"bad proof\")"]);
}

#[test]
fn winning_post_faults() {
    let mut state = good_state().unwrap();
    state.winning_post = Ok(false);
    let got = errors(validate_block(&params(), &schedule(), &Ok(state), &good_block()));
    assert_eq!(got, vec!["WinningPoStValidation(\"winning PoSt proof did not verify\")"]);

    let mut state = good_state().unwrap();
    state.winning_post = Err("no sectors".to_string());
    let got = errors(validate_block(&params(), &schedule(), &Ok(state), &good_block()));
    assert_eq!(got, vec!["WinningPoStValidation(\"no sectors\")"]);
}

#[test]
fn insecure_mode_lets_post_failures_through_and_says_so() {
    let mut insecure = params();
    insecure.insecure_post_validation = true;
    let mut state = good_state().unwrap();
    state.winning_post = Ok(false);
    match insecure_post_notice(&insecure, &state) {
        Some(FilecoinConsensusError::InsecurePostValidation(m)) => {
            assert_eq!(m, "winning PoSt proof did not verify")
        }
        other => panic!("expected a notice, got {:?}", other),
    }
    assert!(insecure_post_notice(&params(), &state).is_none());
    assert!(validate_block(&insecure, &schedule(), &Ok(state), &good_block()).is_ok());
}

#[test]
fn beacon_faults_are_reported_with_the_others() {
    let mut block = good_block();
    block.beacon_entries = vec![MockBeacon::entry_after(3, 5)];
    block.ticket = None;
    block.timestamp += 1;
    let mut state = good_state().unwrap();
    state.power = PowerLookup::NotFound;
    state.winning_post = Ok(false);
    let got = errors(validate_block(&params(), &schedule(), &Ok(state), &block));
    assert_eq!(
        got,
        vec![
            "BlockWithoutTicket".to_string(),
            format!("UnequalBlockTimestamps({}, {})", GENESIS + 151, GENESIS + 150),
            "BeaconValidation(\"beacon entry was invalid\")".to_string(),
            "MinerPowerNotAvailable".to_string(),
            "WinningPoStValidation(\"winning PoSt proof did not verify\")".to_string(),
        ]
    );
}

#[test]
fn block_without_entries_where_a_round_is_due() {
    let mut block = good_block();
    block.beacon_entries = Vec::new();
    let got = errors(validate_block(&params(), &schedule(), &good_state(), &block));
    assert_eq!(got, vec!["TipsetWithoutTicket"]);
}

#[test]
fn epoch_that_no_beacon_serves() {
    let late = BeaconSchedule(vec![BeaconPoint { height: 6, beacon: MockBeacon {} }]);
    let got = errors(validate_block(&params(), &late, &good_state(), &good_block()));
    assert_eq!(got, vec!["BeaconValidation(\"no beacon serves the epoch of the block\")"]);
}

#[test]
fn parent_state_that_is_not_ready_is_an_infrastructure_error() {
    let mut block = good_block();
    block.ticket = None;
    let list = validate_block(&params(), &schedule(), &Err(StateFailure::NotReady), &block).unwrap_err();
    assert!(list.tail.is_empty());
    assert!(list.head.is_infrastructure());
    match list.head {
        FilecoinConsensusError::StateManager(m) => {
            assert_eq!(m, "state of the parent tipset is not available yet")
        }
        other => panic!("expected a state manager error, got {:?}", other),
    }
}

#[test]
fn failures_of_the_services_are_reported_alone_and_as_such() {
    let mut block = good_block();
    block.ticket = None;
    block.timestamp = 0;
    let cases: Vec<(StateFailure, &str)> = vec![
        (StateFailure::ChainStore("disk gone".to_string()), "ChainStore(\"disk gone\")"),
        (StateFailure::StateManager("timed out".to_string()), "StateManager(\"timed out\")"),
        (StateFailure::Encoding("bad cbor".to_string()), "ForestEncoding(\"bad cbor\")"),
    ];
    for (failure, expected) in cases {
        let list = validate_block(&params(), &schedule(), &Err(failure), &block).unwrap_err();
        assert!(list.tail.is_empty());
        assert!(list.head.is_infrastructure());
        assert_eq!(format!("{:?}", list.head), expected);
    }
}

#[test]
fn verdicts_are_never_infrastructure_errors() {
    let mut block = good_block();
    block.ticket = None;
    block.election_proof = Some(ElectionProof { win_count: 0, vrfproof: vec![] });
    block.timestamp = 0;
    block.beacon_entries = Vec::new();
    let mut state = good_state().unwrap();
    state.power = PowerLookup::QueryFailed("x".to_string());
    state.draw_failure = Some("y".to_string());
    state.winning_post = Err("z".to_string());
    let list = validate_block(&params(), &schedule(), &Ok(state), &block).unwrap_err();
    assert_eq!(list.len(), 7);
    assert!(!list.head.is_infrastructure());
    assert!(list.tail.iter().all(|e| !e.is_infrastructure()));
}

#[test]
fn validating_twice_gives_the_same_result() {
    let mut block = good_block();
    block.election_proof = None;
    block.timestamp = 1;
    let first = errors(validate_block(&params(), &schedule(), &good_state(), &block));
    let second = errors(validate_block(&params(), &schedule(), &good_state(), &block));
    assert_eq!(first, second);
    assert_eq!(first.len(), 2);
    assert!(validate_block(&params(), &schedule(), &good_state(), &good_block()).is_ok());
    assert!(validate_block(&params(), &schedule(), &good_state(), &good_block()).is_ok());
}

#[test]
fn classes_of_errors() {
    assert!(FilecoinConsensusError::ChainStore("x".to_string()).is_infrastructure());
    assert!(FilecoinConsensusError::StateManager("x".to_string()).is_infrastructure());
    assert!(FilecoinConsensusError::ForestEncoding("x".to_string()).is_infrastructure());
    assert!(!FilecoinConsensusError::BlockWithoutTicket.is_infrastructure());
    assert!(!FilecoinConsensusError::BeaconValidation("x".to_string()).is_infrastructure());
    assert!(!FilecoinConsensusError::MinerPowerUnavailable("x".to_string()).is_infrastructure());
}

#[test]
fn non_empty_list() {
    assert!(NonEmpty::from_vec(Vec::new()).is_none());
    let list = NonEmpty::from_vec(vec![
        FilecoinConsensusError::NotClaimingWin,
        FilecoinConsensusError::BlockWithoutTicket,
    ])
    .unwrap();
    assert_eq!(list.len(), 2);
    assert!(matches!(list.head, FilecoinConsensusError::NotClaimingWin));
    assert!(matches!(list.tail[0], FilecoinConsensusError::BlockWithoutTicket));
}
