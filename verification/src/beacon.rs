//! The randomness beacon: its entries, the capability that verifies them, the
//! schedule that says which beacon serves which epoch, and the check of the
//! entries that a block carries.

use vstd::prelude::*;
use crate::bytes::bytes_equal;
use crate::errors::{Fault, FilecoinConsensusError};

verus! {

/// One round of beacon randomness: the round number and the signature for
/// that round, which chains to the previous round's signature.
#[derive(Clone, Debug)]
pub struct BeaconEntry {
    round: u64,
    data: Vec<u8>,
}

/// What a beacon entry holds.
pub struct BeaconEntryModel {
    pub round: u64,
    pub data: Seq<u8>,
}

impl View for BeaconEntry {
    type V = BeaconEntryModel;

    closed spec fn view(&self) -> BeaconEntryModel {
        BeaconEntryModel { round: self.round, data: self.data@ }
    }
}

impl PartialEq for BeaconEntry {
    fn eq(&self, other: &BeaconEntry) -> (same: bool) {
        self.round == other.round && bytes_equal(&self.data, &other.data)
    }
}

impl vstd::std_specs::cmp::PartialEqSpecImpl for BeaconEntry {
    open spec fn obeys_eq_spec() -> bool {
        true
    }

    open spec fn eq_spec(&self, other: &BeaconEntry) -> bool {
        self@.round == other@.round && self@.data == other@.data
    }
}

impl Eq for BeaconEntry {

}

impl Default for BeaconEntry {
    fn default() -> (entry: BeaconEntry)
        ensures
            entry@.round == 0,
            entry@.data.len() == 0,
    {
        BeaconEntry { round: 0, data: Vec::new() }
    }
}

impl BeaconEntry {
    pub fn new(round: u64, data: Vec<u8>) -> (entry: BeaconEntry)
        ensures
            entry@.round == round,
            entry@.data == data@,
    {
        BeaconEntry { round, data }
    }

    /// Returns the round number.
    pub fn round(&self) -> (round: u64)
        ensures
            round == self@.round,
    {
        self.round
    }

    /// The signature of the round.
    pub fn data(&self) -> (data: &[u8])
        ensures
            data@ == self@.data,
    {
        self.data.as_slice()
    }
}

/// What verifying an entry came to, with the text of a failure as a sequence
/// of characters.
pub open spec fn verdict_of(outcome: Result<bool, String>) -> Result<bool, Seq<char>> {
    match outcome {
        Ok(valid) => Ok(valid),
        Err(reason) => Err(reason@),
    }
}

/// A source of verifiable randomness.
///
/// Whether an entry follows from its predecessor is for the beacon to say;
/// the rules of this crate are stated for every beacon. What they assume of
/// one is that its answers depend on nothing but the values asked about.
pub trait Beacon {
    /// What verifying `curr` against `prev` comes to: `Ok(true)` if `curr`
    /// follows from `prev`, `Ok(false)` if it does not, and `Err` if the
    /// beacon could not tell.
    spec fn verdict(&self, curr: BeaconEntryModel, prev: BeaconEntryModel) -> Result<
        bool,
        Seq<char>,
    >;

    /// The latest round that the beacon has produced by `epoch`.
    spec fn latest_round(&self, epoch: u64) -> u64;

    /// Verifies `curr` against the entry `prev` that precedes it.
    fn verify_entry(&self, curr: &BeaconEntry, prev: &BeaconEntry) -> (outcome: Result<bool, String>)
        ensures
            verdict_of(outcome) == self.verdict(curr@, prev@),
    ;

    /// The latest round that the beacon has produced by `epoch`.
    fn max_beacon_round_for_epoch(&self, epoch: u64) -> (round: u64)
        ensures
            round == self.latest_round(epoch),
    ;
}

/// The signature that [`MockBeacon`] gives to the round after `round`: the
/// eight bytes of `round`, most significant first.
pub open spec fn mock_signature(round: u64) -> Seq<u8> {
    seq![
        (round >> 56) as u8,
        (round >> 48) as u8,
        (round >> 40) as u8,
        (round >> 32) as u8,
        (round >> 24) as u8,
        (round >> 16) as u8,
        (round >> 8) as u8,
        round as u8,
    ]
}

/// A deterministic beacon for tests. It produces one round per epoch, and an
/// entry follows from its predecessor exactly when its data is the
/// predecessor's round number, written as eight bytes.
#[derive(Clone, Copy, Debug)]
pub struct MockBeacon {}

impl MockBeacon {
    /// The entry of round `round` that follows an entry of round `previous`.
    pub fn entry_after(previous: u64, round: u64) -> (entry: BeaconEntry)
        ensures
            entry@.round == round,
            entry@.data == mock_signature(previous),
    {
        let mut data: Vec<u8> = Vec::new();
        data.push((previous >> 56) as u8);
        data.push((previous >> 48) as u8);
        data.push((previous >> 40) as u8);
        data.push((previous >> 32) as u8);
        data.push((previous >> 24) as u8);
        data.push((previous >> 16) as u8);
        data.push((previous >> 8) as u8);
        data.push(previous as u8);
        proof {
            assert(data@ =~= mock_signature(previous));
        }
        BeaconEntry::new(round, data)
    }
}

impl Beacon for MockBeacon {
    open spec fn verdict(&self, curr: BeaconEntryModel, prev: BeaconEntryModel) -> Result<
        bool,
        Seq<char>,
    > {
        Ok(curr.data == mock_signature(prev.round))
    }

    open spec fn latest_round(&self, epoch: u64) -> u64 {
        epoch
    }

    fn verify_entry(&self, curr: &BeaconEntry, prev: &BeaconEntry) -> (outcome: Result<bool, String>) {
        let expected = MockBeacon::entry_after(prev.round, 0);
        Ok(bytes_equal(&curr.data, &expected.data))
    }

    fn max_beacon_round_for_epoch(&self, epoch: u64) -> (round: u64) {
        epoch
    }
}

/// What a beacon answered when it was asked to verify `curr` against
/// `prev`.
#[derive(Debug)]
pub struct RecordedVerdict {
    pub curr: BeaconEntry,
    pub prev: BeaconEntry,
    pub outcome: Result<bool, String>,
}

/// The latest round that a beacon had produced by `epoch`.
#[derive(Clone, Copy, Debug)]
pub struct RecordedRound {
    pub epoch: u64,
    pub round: u64,
}

/// The answers of a beacon that cannot be asked during validation, such as
/// one that is reached over the network: whoever drives validation asks it
/// beforehand and records what it said.
#[derive(Debug)]
pub struct RecordedBeacon {
    pub verdicts: Vec<RecordedVerdict>,
    pub rounds: Vec<RecordedRound>,
}

/// Text of the error for a pair of entries on which no answer was recorded.
pub open spec fn text_no_verdict() -> Seq<char> {
    "no verdict of the beacon is recorded for this entry"@
}

/// The first answer recorded for `curr` against `prev`; an error where there
/// is none.
pub open spec fn recorded_verdict(
    verdicts: Seq<RecordedVerdict>,
    curr: BeaconEntryModel,
    prev: BeaconEntryModel,
) -> Result<bool, Seq<char>>
    decreases verdicts.len(),
{
    if verdicts.len() == 0 {
        Err(text_no_verdict())
    } else if verdicts[0].curr@ == curr && verdicts[0].prev@ == prev {
        verdict_of(verdicts[0].outcome)
    } else {
        recorded_verdict(verdicts.drop_first(), curr, prev)
    }
}

/// The first round recorded for `epoch`; zero where there is none.
pub open spec fn recorded_round(rounds: Seq<RecordedRound>, epoch: u64) -> u64
    decreases rounds.len(),
{
    if rounds.len() == 0 {
        0
    } else if rounds[0].epoch == epoch {
        rounds[0].round
    } else {
        recorded_round(rounds.drop_first(), epoch)
    }
}

impl Beacon for RecordedBeacon {
    open spec fn verdict(&self, curr: BeaconEntryModel, prev: BeaconEntryModel) -> Result<
        bool,
        Seq<char>,
    > {
        recorded_verdict(self.verdicts@, curr, prev)
    }

    open spec fn latest_round(&self, epoch: u64) -> u64 {
        recorded_round(self.rounds@, epoch)
    }

    fn verify_entry(&self, curr: &BeaconEntry, prev: &BeaconEntry) -> (outcome: Result<bool, String>) {
        let mut i: usize = 0;
        proof {
            assert(self.verdicts@.skip(0) =~= self.verdicts@);
        }
        while i < self.verdicts.len()
            invariant
                i <= self.verdicts@.len(),
                recorded_verdict(self.verdicts@, curr@, prev@) == recorded_verdict(
                    self.verdicts@.skip(i as int),
                    curr@,
                    prev@,
                ),
            decreases self.verdicts@.len() - i,
        {
            let record = &self.verdicts[i];
            proof {
                let rest = self.verdicts@.skip(i as int);
                assert(rest[0] == *record);
                assert(rest.drop_first() =~= self.verdicts@.skip(i + 1));
            }
            if record.curr.round == curr.round && bytes_equal(&record.curr.data, &curr.data)
                && record.prev.round == prev.round && bytes_equal(&record.prev.data, &prev.data) {
                return match &record.outcome {
                    Ok(valid) => Ok(*valid),
                    Err(reason) => Err(reason.clone()),
                };
            }
            i += 1;
        }
        Err("no verdict of the beacon is recorded for this entry".to_owned())
    }

    fn max_beacon_round_for_epoch(&self, epoch: u64) -> (round: u64) {
        let mut i: usize = 0;
        proof {
            assert(self.rounds@.skip(0) =~= self.rounds@);
        }
        while i < self.rounds.len()
            invariant
                i <= self.rounds@.len(),
                recorded_round(self.rounds@, epoch) == recorded_round(
                    self.rounds@.skip(i as int),
                    epoch,
                ),
            decreases self.rounds@.len() - i,
        {
            proof {
                let rest = self.rounds@.skip(i as int);
                assert(rest[0] == self.rounds@[i as int]);
                assert(rest.drop_first() =~= self.rounds@.skip(i + 1));
            }
            if self.rounds[i].epoch == epoch {
                return self.rounds[i].round;
            }
            i += 1;
        }
        0
    }
}

/// A beacon together with the epoch from which it serves.
#[derive(Debug)]
pub struct BeaconPoint<B> {
    pub height: u64,
    pub beacon: B,
}

/// The beacons of a network, each with the epoch from which it serves, in the
/// order in which they take over. Built once when the node starts and only
/// read afterwards.
#[derive(Debug)]
pub struct BeaconSchedule<B>(pub Vec<BeaconPoint<B>>);

/// Whether the point at `index` serves `epoch`: it has started by then, and
/// no later point of the schedule has.
pub open spec fn serves<B>(points: Seq<BeaconPoint<B>>, index: int, epoch: u64) -> bool {
    &&& 0 <= index < points.len()
    &&& points[index].height <= epoch
    &&& forall|j: int| index < j < points.len() ==> (#[trigger] points[j]).height > epoch
}

impl<B> BeaconSchedule<B> {
    /// The position of the beacon that serves `epoch`: the last point of the
    /// schedule that has started by then. There is none where every point
    /// starts later.
    pub fn beacon_for_epoch(&self, epoch: u64) -> (found: Option<usize>)
        ensures
            match found {
                Some(index) => serves(self.0@, index as int, epoch),
                None => forall|j: int| 0 <= j < self.0@.len() ==> (#[trigger] self.0@[j]).height
                    > epoch,
            },
    {
        let mut i: usize = self.0.len();
        while i > 0
            invariant
                i <= self.0@.len(),
                forall|j: int| i <= j < self.0@.len() ==> (#[trigger] self.0@[j]).height > epoch,
            decreases i,
        {
            i -= 1;
            if self.0[i].height <= epoch {
                return Some(i);
            }
        }
        None
    }
}

/// Text of the error for entries on a block that should carry none.
pub open spec fn text_unexpected_entries() -> Seq<char> {
    "expected not to have any beacon entries in this block"@
}

/// Text of the error for a block whose last entry is not of the latest round.
pub open spec fn text_wrong_final_round() -> Seq<char> {
    "final beacon entry in block is not of the expected round"@
}

/// Text of the error for an entry whose round does not exceed that of its
/// predecessor.
pub open spec fn text_round_out_of_order() -> Seq<char> {
    "beacon entry round does not follow the previous round"@
}

/// Text of the error for an entry that does not follow from its predecessor.
pub open spec fn text_entry_invalid() -> Seq<char> {
    "beacon entry was invalid"@
}

/// The first fault in a chain of entries that starts after `prev`, if any.
/// Each entry must be of a later round than its predecessor and must verify
/// against it.
pub open spec fn chain_fault<B: Beacon>(
    beacon: &B,
    prev: BeaconEntryModel,
    entries: Seq<BeaconEntryModel>,
) -> Option<Fault>
    decreases entries.len(),
{
    if entries.len() == 0 {
        None
    } else if entries[0].round <= prev.round {
        Some(Fault::BeaconValidation(text_round_out_of_order()))
    } else {
        match beacon.verdict(entries[0], prev) {
            Err(reason) => Some(Fault::BeaconValidation(reason)),
            Ok(false) => Some(Fault::BeaconValidation(text_entry_invalid())),
            Ok(true) => chain_fault(beacon, entries[0], entries.drop_first()),
        }
    }
}

/// The fault, if any, in the entries that a block at `epoch` carries, where
/// `prev` is the latest entry on the chain before the block.
///
/// The rounds that the block must cover are those after `prev` up to the
/// latest round of the beacon at `epoch`. Where there is none, the block
/// carries no entry. Otherwise it carries at least one, the last is of the
/// latest round, and the entries form a chain from `prev`.
pub open spec fn beacon_fault<B: Beacon>(
    beacon: &B,
    epoch: u64,
    prev: BeaconEntryModel,
    entries: Seq<BeaconEntryModel>,
) -> Option<Fault> {
    if beacon.latest_round(epoch) <= prev.round {
        if entries.len() == 0 {
            None
        } else {
            Some(Fault::BeaconValidation(text_unexpected_entries()))
        }
    } else if entries.len() == 0 {
        Some(Fault::TipsetWithoutTicket)
    } else if entries.last().round != beacon.latest_round(epoch) {
        Some(Fault::BeaconValidation(text_wrong_final_round()))
    } else {
        chain_fault(beacon, prev, entries)
    }
}

/// What a list of entries holds.
pub open spec fn entry_models(entries: Seq<BeaconEntry>) -> Seq<BeaconEntryModel> {
    Seq::new(entries.len(), |i: int| entries[i]@)
}

/// What an optional error holds.
pub open spec fn fault_of(error: Option<FilecoinConsensusError>) -> Option<Fault> {
    match error {
        Some(e) => Some(e@),
        None => None,
    }
}

/// Checks that `entries` form a chain from `prev`; see [`chain_fault`].
pub fn validate_entry_chain<B: Beacon>(
    beacon: &B,
    prev: &BeaconEntry,
    entries: &Vec<BeaconEntry>,
) -> (found: Option<FilecoinConsensusError>)
    ensures
        fault_of(found) == chain_fault(beacon, prev@, entry_models(entries@)),
{
    let ghost all = entry_models(entries@);
    let mut last = prev;
    let mut i: usize = 0;
    proof {
        assert(all.skip(0) =~= all);
    }
    while i < entries.len()
        invariant
            i <= entries@.len(),
            all == entry_models(entries@),
            chain_fault(beacon, prev@, all) == chain_fault(beacon, last@, all.skip(i as int)),
        decreases entries@.len() - i,
    {
        let curr = &entries[i];
        proof {
            let rest = all.skip(i as int);
            assert(rest[0] == curr@);
            assert(rest.drop_first() =~= all.skip(i + 1));
        }
        if curr.round <= last.round {
            return Some(
                FilecoinConsensusError::BeaconValidation(
                    "beacon entry round does not follow the previous round".to_owned(),
                ),
            );
        }
        match beacon.verify_entry(curr, last) {
            Err(reason) => {
                return Some(FilecoinConsensusError::BeaconValidation(reason));
            },
            Ok(false) => {
                return Some(
                    FilecoinConsensusError::BeaconValidation("beacon entry was invalid".to_owned()),
                );
            },
            Ok(true) => {},
        }
        last = curr;
        i += 1;
    }
    None
}

/// Checks the beacon entries that a block at `epoch` carries against the
/// beacon that serves the epoch; see [`beacon_fault`].
pub fn validate_beacon_entries<B: Beacon>(
    beacon: &B,
    epoch: u64,
    prev: &BeaconEntry,
    entries: &Vec<BeaconEntry>,
) -> (found: Option<FilecoinConsensusError>)
    ensures
        fault_of(found) == beacon_fault(beacon, epoch, prev@, entry_models(entries@)),
{
    let max_round = beacon.max_beacon_round_for_epoch(epoch);
    if max_round <= prev.round {
        if entries.len() == 0 {
            return None;
        }
        return Some(
            FilecoinConsensusError::BeaconValidation(
                "expected not to have any beacon entries in this block".to_owned(),
            ),
        );
    }
    if entries.len() == 0 {
        return Some(FilecoinConsensusError::TipsetWithoutTicket);
    }
    if entries[entries.len() - 1].round != max_round {
        return Some(
            FilecoinConsensusError::BeaconValidation(
                "final beacon entry in block is not of the expected round".to_owned(),
            ),
        );
    }
    validate_entry_chain(beacon, prev, entries)
}

/// Whether every entry verifies against its predecessor, the first against
/// `prev`.
pub open spec fn all_verify<B: Beacon>(
    beacon: &B,
    prev: BeaconEntryModel,
    entries: Seq<BeaconEntryModel>,
) -> bool {
    forall|i: int|
        0 <= i < entries.len() ==> beacon.verdict(
            #[trigger] entries[i],
            if i == 0 {
                prev
            } else {
                entries[i - 1]
            },
        ) == Ok::<bool, Seq<char>>(true)
}

/// Whether the rounds increase from entry to entry, the first being later
/// than that of `prev`.
pub open spec fn rounds_increase(prev: BeaconEntryModel, entries: Seq<BeaconEntryModel>) -> bool {
    forall|i: int|
        0 <= i < entries.len() ==> (#[trigger] entries[i]).round > (if i == 0 {
            prev
        } else {
            entries[i - 1]
        }).round
}

/// A chain of entries with increasing rounds is accepted exactly when every
/// entry verifies against its predecessor.
pub proof fn lemma_chain_integrity<B: Beacon>(
    beacon: &B,
    prev: BeaconEntryModel,
    entries: Seq<BeaconEntryModel>,
)
    requires
        rounds_increase(prev, entries),
    ensures
        chain_fault(beacon, prev, entries) is None <==> all_verify(beacon, prev, entries),
    decreases entries.len(),
{
    if entries.len() > 0 {
        let rest = entries.drop_first();
        assert(entries[0].round > prev.round);
        assert forall|i: int| 0 <= i < rest.len() implies (#[trigger] rest[i]).round > (if i == 0 {
            entries[0]
        } else {
            rest[i - 1]
        }).round by {
            assert(rest[i] == entries[i + 1]);
        }
        lemma_chain_integrity(beacon, entries[0], rest);
        if chain_fault(beacon, prev, entries) is None {
            assert forall|i: int| 0 <= i < entries.len() implies beacon.verdict(
                #[trigger] entries[i],
                if i == 0 {
                    prev
                } else {
                    entries[i - 1]
                },
            ) == Ok::<bool, Seq<char>>(true) by {
                if i > 0 {
                    assert(rest[i - 1] == entries[i]);
                }
            }
        }
        if all_verify(beacon, prev, entries) {
            assert(beacon.verdict(entries[0], prev) == Ok::<bool, Seq<char>>(true));
            assert forall|i: int| 0 <= i < rest.len() implies beacon.verdict(
                #[trigger] rest[i],
                if i == 0 {
                    entries[0]
                } else {
                    rest[i - 1]
                },
            ) == Ok::<bool, Seq<char>>(true) by {
                assert(rest[i] == entries[i + 1]);
            }
        }
    }
}

/// An entry that does not verify against its predecessor spoils the chain:
/// whatever follows it, the entries are refused as a failed beacon
/// validation.
pub proof fn lemma_bad_entry_rejects<B: Beacon>(
    beacon: &B,
    prev: BeaconEntryModel,
    entries: Seq<BeaconEntryModel>,
    at: int,
)
    requires
        0 <= at < entries.len(),
        beacon.verdict(
            entries[at],
            if at == 0 {
                prev
            } else {
                entries[at - 1]
            },
        ) != Ok::<bool, Seq<char>>(true),
    ensures
        chain_fault(beacon, prev, entries) is Some,
        chain_fault(beacon, prev, entries)->0 is BeaconValidation,
    decreases entries.len(),
{
    if at > 0 && entries[0].round > prev.round && beacon.verdict(entries[0], prev) == Ok::<
        bool,
        Seq<char>,
    >(true) {
        let rest = entries.drop_first();
        assert(rest[at - 1] == entries[at]);
        if at - 1 > 0 {
            assert(rest[at - 2] == entries[at - 1]);
        }
        lemma_bad_entry_rejects(beacon, entries[0], rest, at - 1);
    }
}

/// In a chain of increasing rounds every entry is of a later round than the
/// entry before the chain.
proof fn lemma_rounds_exceed_start(prev: BeaconEntryModel, entries: Seq<BeaconEntryModel>, at: int)
    requires
        rounds_increase(prev, entries),
        0 <= at < entries.len(),
    ensures
        entries[at].round > prev.round,
    decreases at,
{
    if at > 0 {
        lemma_rounds_exceed_start(prev, entries, at - 1);
    }
}

/// A block whose entries have increasing rounds and end at the latest round
/// of the beacon passes the check of its entries exactly when every entry
/// verifies against its predecessor.
pub proof fn lemma_block_entries_integrity<B: Beacon>(
    beacon: &B,
    epoch: u64,
    prev: BeaconEntryModel,
    entries: Seq<BeaconEntryModel>,
)
    requires
        entries.len() > 0,
        rounds_increase(prev, entries),
        entries.last().round == beacon.latest_round(epoch),
    ensures
        beacon_fault(beacon, epoch, prev, entries) is None <==> all_verify(beacon, prev, entries),
{
    lemma_rounds_exceed_start(prev, entries, entries.len() - 1);
    lemma_chain_integrity(beacon, prev, entries);
}

/// With the mock beacon, changing the data of an entry that verified, at any
/// byte and in any way, has the chain refused as a failed beacon validation,
/// whatever the entries after it hold.
pub proof fn lemma_mock_mutation_rejected(
    beacon: &MockBeacon,
    prev: BeaconEntryModel,
    entries: Seq<BeaconEntryModel>,
    at: int,
    mutated: Seq<u8>,
)
    requires
        0 <= at < entries.len(),
        entries[at].data == mock_signature(
            (if at == 0 {
                prev
            } else {
                entries[at - 1]
            }).round,
        ),
        mutated != entries[at].data,
    ensures
        chain_fault(
            beacon,
            prev,
            entries.update(at, BeaconEntryModel { round: entries[at].round, data: mutated }),
        ) is Some,
        chain_fault(
            beacon,
            prev,
            entries.update(at, BeaconEntryModel { round: entries[at].round, data: mutated }),
        )->0 is BeaconValidation,
{
    let changed = entries.update(at, BeaconEntryModel { round: entries[at].round, data: mutated });
    if at > 0 {
        assert(changed[at - 1] == entries[at - 1]);
    }
    lemma_bad_entry_rejects(beacon, prev, changed, at);
}

} // verus!
