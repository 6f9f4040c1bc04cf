use fil_consensus::block::{Block, ElectionProof, Ticket};
use fil_consensus::tipset::{may_precede, sort_blocks, Tipset, TipsetError};

fn block(miner: u64, ticket: &[u8], wins: i64) -> Block {
    Block {
        miner,
        epoch: 10,
        parents: vec![7, 7],
        ticket: Some(Ticket { vrfproof: ticket.to_vec() }),
        election_proof: Some(ElectionProof { win_count: wins, vrfproof: vec![1] }),
        beacon_entries: Vec::new(),
        timestamp: 0,
        cid: vec![miner as u8],
    }
}

#[test]
fn tipset_of_ordered_blocks() {
    let ts = Tipset::new(vec![block(1, &[1], 1), block(2, &[2], 2)], vec![9]).unwrap();
    assert_eq!(ts.blocks().len(), 2);
    assert_eq!(ts.epoch(), 10);
    assert_eq!(ts.key(), &vec![9]);
    assert_eq!(ts.min_ticket(), &vec![1]);
    assert_eq!(ts.win_total(), 3);
}

#[test]
fn empty_tipset_is_refused() {
    assert_eq!(Tipset::new(Vec::new(), vec![]).unwrap_err(), TipsetError::Empty);
}

#[test]
fn block_without_ticket_is_refused() {
    let mut b = block(2, &[2], 1);
    b.ticket = None;
    let err = Tipset::new(vec![block(1, &[1], 1), b], vec![]).unwrap_err();
    assert_eq!(err, TipsetError::MissingTicket);
}

#[test]
fn mixed_epochs_are_refused() {
    let mut b = block(2, &[2], 1);
    b.epoch = 11;
    let err = Tipset::new(vec![block(1, &[1], 1), b], vec![]).unwrap_err();
    assert_eq!(err, TipsetError::MixedEpochs);
}

#[test]
fn mixed_parents_are_refused() {
    let mut b = block(2, &[2], 1);
    b.parents = vec![7, 8];
    let err = Tipset::new(vec![block(1, &[1], 1), b], vec![]).unwrap_err();
    assert_eq!(err, TipsetError::MixedParents);
}

#[test]
fn duplicate_miner_is_refused() {
    let err = Tipset::new(
        vec![block(1, &[1], 1), block(2, &[2], 1), block(1, &[3], 1)],
        vec![],
    )
    .unwrap_err();
    assert_eq!(err, TipsetError::DuplicateMiner);
}

#[test]
fn unordered_blocks_are_refused() {
    let err = Tipset::new(vec![block(1, &[2], 1), block(2, &[1], 1)], vec![]).unwrap_err();
    assert_eq!(err, TipsetError::Unordered);
}

#[test]
fn equal_tickets_are_ordered_by_identifier() {
    // Identifiers are [1] and [2]: this order is canonical, the other is not.
    assert!(Tipset::new(vec![block(1, &[5], 1), block(2, &[5], 1)], vec![]).is_ok());
    let err = Tipset::new(vec![block(2, &[5], 1), block(1, &[5], 1)], vec![]).unwrap_err();
    assert_eq!(err, TipsetError::Unordered);
}

#[test]
fn faults_are_reported_in_a_fixed_order() {
    // Both a different epoch and a repeated miner: the epoch is reported.
    let mut b = block(1, &[2], 1);
    b.epoch = 11;
    let err = Tipset::new(vec![block(1, &[1], 1), b], vec![]).unwrap_err();
    assert_eq!(err, TipsetError::MixedEpochs);
}

#[test]
fn wins_count_only_positive_claims() {
    let mut none = block(3, &[3], 0);
    none.election_proof = None;
    let ts = Tipset::new(
        vec![block(1, &[1], 4), block(2, &[2], -3), none],
        vec![],
    )
    .unwrap();
    assert_eq!(ts.win_total(), 4);
    assert_eq!(ts.blocks()[0].win_total(), 4);
    assert_eq!(ts.blocks()[1].win_total(), 0);
    assert_eq!(ts.blocks()[2].win_total(), 0);
}

#[test]
fn wins_do_not_overflow() {
    let ts = Tipset::new(
        vec![block(1, &[1], i64::MAX), block(2, &[2], i64::MAX), block(3, &[3], i64::MAX)],
        vec![],
    )
    .unwrap();
    assert_eq!(ts.win_total(), 3 * (i64::MAX as u128));
}

#[test]
fn blocks_are_sorted_by_ticket_then_identifier() {
    let blocks = vec![
        block(4, &[9], 1),
        block(3, &[2, 0], 1),
        block(2, &[2], 1),
        block(1, &[9], 1),
        block(5, &[], 1),
    ];
    let sorted = sort_blocks(blocks);
    let miners: Vec<u64> = sorted.iter().map(|b| b.miner).collect();
    // Tickets [], [2], [2, 0], [9], [9]; the two last by identifier.
    assert_eq!(miners, vec![5, 2, 3, 1, 4]);
    assert!(Tipset::new(sorted, vec![]).is_ok());
}

#[test]
fn sorting_keeps_every_block() {
    assert!(sort_blocks(Vec::new()).is_empty());
    let sorted = sort_blocks(vec![block(1, &[3], 1), block(1, &[3], 1), block(2, &[1], 7)]);
    assert_eq!(sorted.len(), 3);
    assert_eq!(sorted[0].miner, 2);
    assert_eq!(sorted[0].win_total(), 7);
    assert_eq!(sorted[1].miner, 1);
    assert_eq!(sorted[2].miner, 1);
}

#[test]
fn a_block_without_ticket_sorts_first() {
    let mut bare = block(9, &[0], 1);
    bare.ticket = None;
    assert!(may_precede(&bare, &block(1, &[0], 1)));
    assert!(!may_precede(&block(1, &[0], 1), &bare));
    assert!(may_precede(&block(1, &[5], 1), &block(1, &[5], 1)));
    assert!(may_precede(&block(1, &[5], 1), &block(2, &[5], 1)));
    assert!(!may_precede(&block(2, &[5], 1), &block(1, &[5], 1)));
}
