//! Tipsets: the blocks of one epoch that share a parent, in canonical order.

use vstd::prelude::*;
use crate::block::Block;
use crate::bytes::{
    bytes_equal, compare_bytes, lemma_lex_le_transitive, lemma_lex_total, lex_le, lex_lt,
    ByteOrder,
};

verus! {

/// Why a list of blocks is not a tipset.
#[derive(Clone, Copy, Debug, PartialEq, Eq, Structural)]
pub enum TipsetError {
    /// The list is empty.
    Empty,
    /// Some block carries no ticket.
    MissingTicket,
    /// Two blocks are at different epochs.
    MixedEpochs,
    /// Two blocks name different parents.
    MixedParents,
    /// Two blocks come from the same miner.
    DuplicateMiner,
    /// The blocks are not sorted by ticket, then by block identifier.
    Unordered,
}

/// Every block carries a ticket.
pub open spec fn all_ticketed(blocks: Seq<Block>) -> bool {
    forall|i: int| 0 <= i < blocks.len() ==> (#[trigger] blocks[i]).ticket is Some
}

/// Every block is at the epoch of the first.
pub open spec fn same_epoch(blocks: Seq<Block>) -> bool {
    forall|i: int| 0 <= i < blocks.len() ==> (#[trigger] blocks[i]).epoch == blocks[0].epoch
}

/// Every block names the parents of the first.
pub open spec fn same_parents(blocks: Seq<Block>) -> bool {
    forall|i: int| 0 <= i < blocks.len() ==> (#[trigger] blocks[i]).parents@ == blocks[0].parents@
}

/// No two blocks come from one miner.
pub open spec fn distinct_miners(blocks: Seq<Block>) -> bool {
    forall|i: int, j: int|
        0 <= i < j < blocks.len() ==> (#[trigger] blocks[i]).miner != (#[trigger] blocks[j]).miner
}

/// `a` may stand directly before `b`: its ticket is smaller, or the tickets
/// are equal and its identifier is not larger.
pub open spec fn in_order(a: Block, b: Block) -> bool {
    lex_lt(a.ticket_bytes(), b.ticket_bytes()) || (a.ticket_bytes() == b.ticket_bytes() && lex_le(
        a.cid@,
        b.cid@,
    ))
}

/// Each block may stand before its successor.
pub open spec fn canonical_order(blocks: Seq<Block>) -> bool {
    forall|i: int| 0 <= i < blocks.len() - 1 ==> in_order(#[trigger] blocks[i], blocks[i + 1])
}

/// The first rule that `blocks` breaks, if any. The rules are tried in the
/// order of the variants of [`TipsetError`].
pub open spec fn tipset_fault(blocks: Seq<Block>) -> Option<TipsetError> {
    if blocks.len() == 0 {
        Some(TipsetError::Empty)
    } else if !all_ticketed(blocks) {
        Some(TipsetError::MissingTicket)
    } else if !same_epoch(blocks) {
        Some(TipsetError::MixedEpochs)
    } else if !same_parents(blocks) {
        Some(TipsetError::MixedParents)
    } else if !distinct_miners(blocks) {
        Some(TipsetError::DuplicateMiner)
    } else if !canonical_order(blocks) {
        Some(TipsetError::Unordered)
    } else {
        None
    }
}

/// The wins of all blocks together.
pub open spec fn total_wins(blocks: Seq<Block>) -> nat
    decreases blocks.len(),
{
    if blocks.len() == 0 {
        0
    } else {
        total_wins(blocks.drop_last()) + blocks.last().wins()
    }
}

/// In a canonically ordered list the first ticket is the smallest.
pub proof fn lemma_first_ticket_least(blocks: Seq<Block>, i: int)
    requires
        canonical_order(blocks),
        0 <= i < blocks.len(),
    ensures
        lex_le(blocks[0].ticket_bytes(), blocks[i].ticket_bytes()),
    decreases i,
{
    if i > 0 {
        lemma_first_ticket_least(blocks, i - 1);
        assert(in_order(blocks[i - 1], blocks[i - 1 + 1]));
        lemma_lex_le_transitive(
            blocks[0].ticket_bytes(),
            blocks[i - 1].ticket_bytes(),
            blocks[i].ticket_bytes(),
        );
    }
}

/// A non-empty set of blocks at one epoch with one parent, each from a
/// distinct miner, sorted by ticket and then by block identifier.
#[derive(Debug)]
pub struct Tipset {
    blocks: Vec<Block>,
    key: Vec<u8>,
}

fn check_tickets(blocks: &Vec<Block>) -> (ok: bool)
    ensures
        ok == all_ticketed(blocks@),
{
    let mut i: usize = 0;
    while i < blocks.len()
        invariant
            i <= blocks@.len(),
            forall|j: int| 0 <= j < i ==> (#[trigger] blocks@[j]).ticket is Some,
        decreases blocks@.len() - i,
    {
        if blocks[i].ticket.is_none() {
            return false;
        }
        i += 1;
    }
    true
}

fn check_epochs(blocks: &Vec<Block>) -> (ok: bool)
    requires
        blocks@.len() > 0,
    ensures
        ok == same_epoch(blocks@),
{
    let mut i: usize = 0;
    while i < blocks.len()
        invariant
            blocks@.len() > 0,
            i <= blocks@.len(),
            forall|j: int| 0 <= j < i ==> (#[trigger] blocks@[j]).epoch == blocks@[0].epoch,
        decreases blocks@.len() - i,
    {
        if blocks[i].epoch != blocks[0].epoch {
            return false;
        }
        i += 1;
    }
    true
}

fn check_parents(blocks: &Vec<Block>) -> (ok: bool)
    requires
        blocks@.len() > 0,
    ensures
        ok == same_parents(blocks@),
{
    let mut i: usize = 0;
    while i < blocks.len()
        invariant
            blocks@.len() > 0,
            i <= blocks@.len(),
            forall|j: int| 0 <= j < i ==> (#[trigger] blocks@[j]).parents@ == blocks@[0].parents@,
        decreases blocks@.len() - i,
    {
        if !bytes_equal(&blocks[i].parents, &blocks[0].parents) {
            return false;
        }
        i += 1;
    }
    true
}

fn check_miners(blocks: &Vec<Block>) -> (ok: bool)
    ensures
        ok == distinct_miners(blocks@),
{
    let mut j: usize = 0;
    while j < blocks.len()
        invariant
            j <= blocks@.len(),
            forall|a: int, b: int|
                0 <= a < b < j ==> (#[trigger] blocks@[a]).miner != (#[trigger] blocks@[b]).miner,
        decreases blocks@.len() - j,
    {
        let mut i: usize = 0;
        while i < j
            invariant
                j < blocks@.len(),
                i <= j,
                forall|a: int| 0 <= a < i ==> (#[trigger] blocks@[a]).miner != blocks@[j as int].miner,
            decreases j - i,
        {
            if blocks[i].miner == blocks[j].miner {
                return false;
            }
            i += 1;
        }
        j += 1;
    }
    true
}

fn ticket_of(block: &Block) -> (ticket: &Vec<u8>)
    requires
        block.ticket is Some,
    ensures
        ticket@ == block.ticket_bytes(),
{
    match &block.ticket {
        Some(t) => &t.vrfproof,
        None => &block.cid,
    }
}

fn check_order(blocks: &Vec<Block>) -> (ok: bool)
    ensures
        ok == canonical_order(blocks@),
{
    let mut i: usize = 1;
    while i < blocks.len()
        invariant
            1 <= i,
            forall|j: int| 0 <= j < i - 1 ==> in_order(#[trigger] blocks@[j], blocks@[j + 1]),
        decreases blocks@.len() - i,
    {
        if !may_precede(&blocks[i - 1], &blocks[i]) {
            proof {
                assert(!in_order(blocks@[i - 1], blocks@[i - 1 + 1]));
            }
            return false;
        }
        i += 1;
    }
    true
}

/// Of any two blocks, one may stand before the other.
pub proof fn lemma_in_order_total(a: Block, b: Block)
    ensures
        in_order(a, b) || in_order(b, a),
{
    lemma_lex_total(a.ticket_bytes(), b.ticket_bytes());
    lemma_lex_total(a.cid@, b.cid@);
}

/// An empty sequence holds nothing.
proof fn lemma_empty_holds_nothing(items: Seq<Block>)
    requires
        items.len() == 0,
    ensures
        items.to_multiset() == vstd::multiset::Multiset::<Block>::empty(),
{
    items.to_multiset_ensures();
    vstd::multiset::lemma_multiset_empty_len(items.to_multiset());
}

/// Whether `a` may stand directly before `b`; see [`in_order`].
pub fn may_precede(a: &Block, b: &Block) -> (ok: bool)
    ensures
        ok == in_order(*a, *b),
{
    let empty: Vec<u8> = Vec::new();
    let ticket_a = match &a.ticket {
        Some(t) => &t.vrfproof,
        None => &empty,
    };
    let ticket_b = match &b.ticket {
        Some(t) => &t.vrfproof,
        None => &empty,
    };
    match compare_bytes(ticket_a, ticket_b) {
        ByteOrder::Less => true,
        ByteOrder::Greater => false,
        ByteOrder::Same => match compare_bytes(&a.cid, &b.cid) {
            ByteOrder::Greater => false,
            _ => true,
        },
    }
}

/// Puts blocks into canonical order: by ticket, and by block identifier where
/// tickets are equal. The result holds the same blocks, each as often as it
/// was given.
pub fn sort_blocks(blocks: Vec<Block>) -> (sorted: Vec<Block>)
    ensures
        sorted@.to_multiset() == blocks@.to_multiset(),
        canonical_order(sorted@),
{
    let mut rest = blocks;
    let mut sorted: Vec<Block> = Vec::new();
    proof {
        lemma_empty_holds_nothing(sorted@);
        assert(sorted@.to_multiset().add(rest@.to_multiset()) =~= blocks@.to_multiset());
    }
    while rest.len() > 0
        invariant
            canonical_order(sorted@),
            sorted@.to_multiset().add(rest@.to_multiset()) == blocks@.to_multiset(),
        decreases rest@.len(),
    {
        let ghost rest_before = rest@;
        let ghost sorted_before = sorted@;
        let block = rest.pop().unwrap();
        let mut at: usize = 0;
        while at < sorted.len() && !may_precede(&block, &sorted[at])
            invariant
                at <= sorted@.len(),
                sorted@ == sorted_before,
                forall|k: int| 0 <= k < at ==> !in_order(block, #[trigger] sorted@[k]),
            decreases sorted@.len() - at,
        {
            at += 1;
        }
        sorted.insert(at, block);
        proof {
            assert(rest_before =~= rest@.push(block));
            vstd::seq_lib::to_multiset_build(rest@, block);
            vstd::seq_lib::to_multiset_insert(sorted_before, at as int, block);
            assert(sorted@.to_multiset().add(rest@.to_multiset()) =~= sorted_before.to_multiset().add(
                rest_before.to_multiset(),
            ));
            assert forall|i: int| 0 <= i < sorted@.len() - 1 implies in_order(
                #[trigger] sorted@[i],
                sorted@[i + 1],
            ) by {
                if i + 1 < at {
                    assert(in_order(sorted_before[i], sorted_before[i + 1]));
                } else if i + 1 == at {
                    assert(!in_order(block, sorted_before[i]));
                    lemma_in_order_total(block, sorted_before[i]);
                } else if i == at {
                    assert(sorted@[i + 1] == sorted_before[i]);
                } else {
                    assert(sorted@[i] == sorted_before[i - 1]);
                    assert(sorted@[i + 1] == sorted_before[i - 1 + 1]);
                    assert(in_order(sorted_before[i - 1], sorted_before[i - 1 + 1]));
                }
            }
        }
    }
    proof {
        lemma_empty_holds_nothing(rest@);
        assert(sorted@.to_multiset().add(rest@.to_multiset()) =~= sorted@.to_multiset());
    }
    sorted
}

impl Tipset {
    #[verifier::type_invariant]
    closed spec fn well_formed(self) -> bool {
        tipset_fault(self.blocks@) is None
    }

    /// The blocks of the tipset, in canonical order.
    pub closed spec fn members(&self) -> Seq<Block> {
        self.blocks@
    }

    /// The key under which the tipset is stored and looked up.
    pub closed spec fn key_bytes(&self) -> Seq<u8> {
        self.key@
    }

    /// Builds the tipset of `blocks`, stored under `key`. The blocks must
    /// already stand in canonical order, into which [`sort_blocks`] puts
    /// them; each broken rule is reported by its own error, the rules being
    /// tried in the order of [`tipset_fault`].
    pub fn new(blocks: Vec<Block>, key: Vec<u8>) -> (made: Result<Tipset, TipsetError>)
        ensures
            match tipset_fault(blocks@) {
                Some(e) => made == Err::<Tipset, TipsetError>(e),
                None => made is Ok && made->Ok_0.members() == blocks@ && made->Ok_0.key_bytes()
                    == key@,
            },
    {
        if blocks.len() == 0 {
            return Err(TipsetError::Empty);
        }
        if !check_tickets(&blocks) {
            return Err(TipsetError::MissingTicket);
        }
        if !check_epochs(&blocks) {
            return Err(TipsetError::MixedEpochs);
        }
        if !check_parents(&blocks) {
            return Err(TipsetError::MixedParents);
        }
        if !check_miners(&blocks) {
            return Err(TipsetError::DuplicateMiner);
        }
        if !check_order(&blocks) {
            return Err(TipsetError::Unordered);
        }
        Ok(Tipset { blocks, key })
    }

    /// The blocks of the tipset, in canonical order.
    pub fn blocks(&self) -> (blocks: &Vec<Block>)
        ensures
            blocks@ == self.members(),
            tipset_fault(blocks@) is None,
    {
        proof {
            use_type_invariant(self);
        }
        &self.blocks
    }

    /// The key under which the tipset is stored and looked up.
    pub fn key(&self) -> (key: &Vec<u8>)
        ensures
            key@ == self.key_bytes(),
    {
        &self.key
    }

    /// The epoch that all blocks of the tipset share.
    pub fn epoch(&self) -> (epoch: u64)
        ensures
            self.members().len() > 0,
            epoch == self.members()[0].epoch,
    {
        proof {
            use_type_invariant(self);
        }
        self.blocks[0].epoch
    }

    /// The smallest ticket among the blocks of the tipset.
    pub fn min_ticket(&self) -> (ticket: &Vec<u8>)
        ensures
            self.members().len() > 0,
            ticket@ == self.members()[0].ticket_bytes(),
            forall|i: int|
                0 <= i < self.members().len() ==> lex_le(
                    ticket@,
                    (#[trigger] self.members()[i]).ticket_bytes(),
                ),
    {
        proof {
            use_type_invariant(self);
            assert forall|i: int| 0 <= i < self.blocks@.len() implies lex_le(
                self.blocks@[0].ticket_bytes(),
                (#[trigger] self.blocks@[i]).ticket_bytes(),
            ) by {
                lemma_first_ticket_least(self.blocks@, i);
            }
        }
        ticket_of(&self.blocks[0])
    }

    /// The wins of all blocks of the tipset together.
    pub fn win_total(&self) -> (wins: u128)
        ensures
            wins == total_wins(self.members()),
    {
        let mut sum: u128 = 0;
        let mut i: usize = 0;
        while i < self.blocks.len()
            invariant
                i <= self.blocks@.len(),
                sum == total_wins(self.blocks@.subrange(0, i as int)),
                sum <= i * 0x7fff_ffff_ffff_ffff,
            decreases self.blocks@.len() - i,
        {
            let w: u64 = self.blocks[i].win_total();
            proof {
                let next = self.blocks@.subrange(0, i + 1);
                assert(next.drop_last() =~= self.blocks@.subrange(0, i as int));
                assert(next.last() == self.blocks@[i as int]);
                assert(w <= 0x7fff_ffff_ffff_ffff);
                assert((i + 1) * 0x7fff_ffff_ffff_ffff <= 0x1_0000_0000_0000_0000
                    * 0x7fff_ffff_ffff_ffff) by (nonlinear_arith)
                    requires
                        i + 1 <= 0x1_0000_0000_0000_0000,
                ;
                assert((i + 1) * 0x7fff_ffff_ffff_ffff == i * 0x7fff_ffff_ffff_ffff
                    + 0x7fff_ffff_ffff_ffff) by (nonlinear_arith);
            }
            sum = sum + w as u128;
            i += 1;
        }
        proof {
            assert(self.blocks@.subrange(0, self.blocks@.len() as int) =~= self.blocks@);
        }
        sum
    }
}

} // verus!
