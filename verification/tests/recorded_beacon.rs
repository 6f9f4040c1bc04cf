use fil_consensus::beacon::{
    validate_beacon_entries, validate_entry_chain, Beacon, BeaconEntry, RecordedBeacon,
    RecordedRound, RecordedVerdict,
};
use fil_consensus::errors::FilecoinConsensusError;

fn entry(round: u64) -> BeaconEntry {
    BeaconEntry::new(round, vec![round as u8])
}

fn record(curr: u64, prev: u64, outcome: Result<bool, String>) -> RecordedVerdict {
    RecordedVerdict { curr: entry(curr), prev: entry(prev), outcome }
}

fn beacon() -> RecordedBeacon {
    RecordedBeacon {
        verdicts: vec![
            record(5, 4, Ok(true)),
            record(6, 5, Err("beacon unreachable".to_string())),
            record(7, 6, Ok(true)),
            record(5, 4, Ok(false)),
        ],
        rounds: vec![
            RecordedRound { epoch: 10, round: 7 },
            RecordedRound { epoch: 11, round: 8 },
            RecordedRound { epoch: 10, round: 99 },
        ],
    }
}

#[test]
fn recorded_answers_are_given_back() {
    let b = beacon();
    assert_eq!(b.verify_entry(&entry(5), &entry(4)), Ok(true));
    assert_eq!(b.verify_entry(&entry(6), &entry(5)), Err("beacon unreachable".to_string()));
    assert_eq!(
        b.verify_entry(&entry(9), &entry(8)),
        Err("no verdict of the beacon is recorded for this entry".to_string())
    );
    // The entries must match in full, not in the round alone.
    assert!(b.verify_entry(&BeaconEntry::new(5, vec![0]), &entry(4)).is_err());
    assert_eq!(b.max_beacon_round_for_epoch(10), 7);
    assert_eq!(b.max_beacon_round_for_epoch(11), 8);
    assert_eq!(b.max_beacon_round_for_epoch(12), 0);
}

#[test]
fn failure_of_the_beacon_is_passed_on() {
    let b = beacon();
    let entries = vec![entry(5), entry(6), entry(7)];
    match validate_entry_chain(&b, &entry(4), &entries) {
        Some(FilecoinConsensusError::BeaconValidation(m)) => assert_eq!(m, "beacon unreachable"),
        other => panic!("expected a beacon validation error, got {:?}", other),
    }
    match validate_beacon_entries(&b, 10, &entry(4), &entries) {
        Some(FilecoinConsensusError::BeaconValidation(m)) => assert_eq!(m, "beacon unreachable"),
        other => panic!("expected a beacon validation error, got {:?}", other),
    }
    assert!(validate_entry_chain(&b, &entry(4), &vec![entry(5)]).is_none());
}
