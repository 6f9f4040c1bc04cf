use fil_consensus::beacon::{
    validate_beacon_entries, validate_entry_chain, Beacon, BeaconEntry, BeaconPoint,
    BeaconSchedule, MockBeacon,
};
use fil_consensus::errors::FilecoinConsensusError;

fn chain(from: u64, rounds: &[u64]) -> Vec<BeaconEntry> {
    let mut prev = from;
    let mut out = Vec::new();
    for r in rounds {
        out.push(MockBeacon::entry_after(prev, *r));
        prev = *r;
    }
    out
}

fn message(found: Option<FilecoinConsensusError>) -> String {
    match found {
        Some(FilecoinConsensusError::BeaconValidation(m)) => m,
        other => panic!("expected a beacon validation error, got {:?}", other),
    }
}

#[test]
fn entry_getters() {
    let e = BeaconEntry::new(7, b"sig7".to_vec());
    assert_eq!(e.round(), 7);
    assert_eq!(e.data(), b"sig7");
    assert_eq!(e, BeaconEntry::new(7, b"sig7".to_vec()));
    assert_ne!(e, BeaconEntry::new(8, b"sig7".to_vec()));
    assert_ne!(e, BeaconEntry::new(7, b"sig8".to_vec()));
    assert_eq!(BeaconEntry::default(), BeaconEntry::new(0, Vec::new()));
    assert_eq!(e.clone(), e);
}

#[test]
fn mock_entries_carry_the_previous_round() {
    let e = MockBeacon::entry_after(0x0102030405060708, 9);
    assert_eq!(e.round(), 9);
    assert_eq!(e.data(), &[1, 2, 3, 4, 5, 6, 7, 8]);
}

#[test]
fn mock_beacon_verifies_its_own_chain() {
    let b = MockBeacon {};
    let prev = BeaconEntry::new(4, vec![]);
    let curr = MockBeacon::entry_after(4, 5);
    assert_eq!(b.verify_entry(&curr, &prev), Ok(true));
    let wrong = MockBeacon::entry_after(3, 5);
    assert_eq!(b.verify_entry(&wrong, &prev), Ok(false));
    assert_eq!(b.max_beacon_round_for_epoch(12), 12);
}

#[test]
fn chain_of_verifying_entries_is_accepted() {
    let b = MockBeacon {};
    let prev = BeaconEntry::new(4, vec![]);
    assert!(validate_entry_chain(&b, &prev, &chain(4, &[5, 6, 7])).is_none());
    assert!(validate_entry_chain(&b, &prev, &chain(4, &[6, 9])).is_none());
    assert!(validate_entry_chain(&b, &prev, &Vec::new()).is_none());
}

#[test]
fn mutated_entry_is_refused_with_all_that_follow() {
    let b = MockBeacon {};
    let prev = BeaconEntry::new(4, vec![]);
    let mut entries = chain(4, &[5, 6, 7]);
    let mut data = entries[1].data().to_vec();
    data[7] ^= 1;
    entries[1] = BeaconEntry::new(6, data);
    assert_eq!(message(validate_entry_chain(&b, &prev, &entries)), "beacon entry was invalid");
    // The block is refused as well: its last entry is of the right round, yet
    // the chain to it is broken.
    assert_eq!(
        message(validate_beacon_entries(&b, 7, &prev, &entries)),
        "beacon entry was invalid"
    );
}

#[test]
fn rounds_must_increase() {
    let b = MockBeacon {};
    let prev = BeaconEntry::new(4, vec![]);
    let entries = vec![
        MockBeacon::entry_after(4, 5),
        MockBeacon::entry_after(5, 5),
    ];
    assert_eq!(
        message(validate_entry_chain(&b, &prev, &entries)),
        "beacon entry round does not follow the previous round"
    );
    let stale = vec![MockBeacon::entry_after(4, 4)];
    assert_eq!(
        message(validate_entry_chain(&b, &prev, &stale)),
        "beacon entry round does not follow the previous round"
    );
}

#[test]
fn block_with_expected_entries_is_accepted() {
    let b = MockBeacon {};
    let prev = BeaconEntry::new(4, vec![]);
    assert!(validate_beacon_entries(&b, 5, &prev, &chain(4, &[5])).is_none());
    assert!(validate_beacon_entries(&b, 8, &prev, &chain(4, &[5, 6, 7, 8])).is_none());
}

#[test]
fn block_without_new_round_carries_no_entry() {
    let b = MockBeacon {};
    let prev = BeaconEntry::new(5, vec![]);
    assert!(validate_beacon_entries(&b, 5, &prev, &Vec::new()).is_none());
    assert_eq!(
        message(validate_beacon_entries(&b, 5, &prev, &chain(5, &[6]))),
        "expected not to have any beacon entries in this block"
    );
    // The same holds where the chain is already ahead of the epoch.
    assert!(validate_beacon_entries(&b, 3, &prev, &Vec::new()).is_none());
}

#[test]
fn block_that_under_reports_randomness_is_refused() {
    let b = MockBeacon {};
    let prev = BeaconEntry::new(4, vec![]);
    let found = validate_beacon_entries(&b, 5, &prev, &Vec::new());
    assert!(matches!(found, Some(FilecoinConsensusError::TipsetWithoutTicket)));
}

#[test]
fn last_entry_must_be_of_the_latest_round() {
    let b = MockBeacon {};
    let prev = BeaconEntry::new(4, vec![]);
    assert_eq!(
        message(validate_beacon_entries(&b, 7, &prev, &chain(4, &[5, 6]))),
        "final beacon entry in block is not of the expected round"
    );
}

#[test]
fn schedule_gives_the_latest_beacon_that_has_started() {
    let schedule = BeaconSchedule(vec![
        BeaconPoint { height: 0, beacon: MockBeacon {} },
        BeaconPoint { height: 100, beacon: MockBeacon {} },
        BeaconPoint { height: 200, beacon: MockBeacon {} },
    ]);
    assert_eq!(schedule.beacon_for_epoch(0), Some(0));
    assert_eq!(schedule.beacon_for_epoch(99), Some(0));
    assert_eq!(schedule.beacon_for_epoch(100), Some(1));
    assert_eq!(schedule.beacon_for_epoch(5000), Some(2));
}

#[test]
fn schedule_that_starts_later_serves_nothing_before() {
    let schedule = BeaconSchedule(vec![BeaconPoint { height: 10, beacon: MockBeacon {} }]);
    assert_eq!(schedule.beacon_for_epoch(9), None);
    let empty: BeaconSchedule<MockBeacon> = BeaconSchedule(Vec::new());
    assert_eq!(empty.beacon_for_epoch(0), None);
}
