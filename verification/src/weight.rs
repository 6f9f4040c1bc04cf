//! Chain weight: the arbitrary-precision score by which competing chains are
//! ranked.

use vstd::prelude::*;
use crate::bigint::Natural;
use crate::block::Block;
use crate::bytes::{
    compare_bytes, lemma_lex_asymmetric, lemma_lex_irreflexive, lemma_lex_total, lex_le, lex_lt,
    ByteOrder,
};
use crate::tipset::{total_wins, Tipset};

verus! {

/// A chain weight: a natural number of any size, never negative and never
/// undefined.
pub type Weight = Natural;

/// The constants of the weight function, fixed when the node starts.
///
/// Every tipset adds `baseline` to the weight of its chain, and a bonus of
/// `bonus_numerator / bonus_denominator` for each win claimed by its blocks,
/// the bonus of a tipset being rounded down as a whole.
#[derive(Clone, Copy, Debug)]
pub struct WeightParams {
    baseline: u64,
    bonus_numerator: u64,
    bonus_denominator: u64,
}

/// What one tipset with `wins` wins adds to the weight of its chain.
pub open spec fn tipset_increment(baseline: nat, numerator: nat, denominator: nat, wins: nat) -> nat {
    baseline + (numerator * wins) / denominator
}

/// The weight of a chain whose tipsets, from genesis on, hold `wins` wins
/// each. The genesis tipset weighs exactly the baseline; every later tipset
/// adds its increment. The empty chain weighs nothing.
pub open spec fn chain_weight(baseline: nat, numerator: nat, denominator: nat, wins: Seq<nat>) -> nat
    decreases wins.len(),
{
    if wins.len() == 0 {
        0
    } else if wins.len() == 1 {
        baseline
    } else {
        chain_weight(baseline, numerator, denominator, wins.drop_last()) + tipset_increment(
            baseline,
            numerator,
            denominator,
            wins.last(),
        )
    }
}

impl WeightParams {
    #[verifier::type_invariant]
    closed spec fn well_formed(self) -> bool {
        self.baseline > 0 && self.bonus_denominator > 0
    }

    /// The fixed increment of every tipset.
    pub closed spec fn base(&self) -> nat {
        self.baseline as nat
    }

    /// Numerator of the bonus per win.
    pub closed spec fn numerator(&self) -> nat {
        self.bonus_numerator as nat
    }

    /// Denominator of the bonus per win.
    pub closed spec fn denominator(&self) -> nat {
        self.bonus_denominator as nat
    }

    /// The weight of a chain under these constants; see [`chain_weight`].
    pub open spec fn weigh(&self, wins: Seq<nat>) -> nat {
        chain_weight(self.base(), self.numerator(), self.denominator(), wins)
    }

    /// The constants with the given values. A baseline of zero would let a
    /// chain grow without gaining weight, and a zero denominator has no
    /// meaning: both are refused.
    pub fn new(baseline: u64, bonus_numerator: u64, bonus_denominator: u64) -> (made: Option<
        WeightParams,
    >)
        ensures
            made is Some <==> baseline > 0 && bonus_denominator > 0,
            made is Some ==> made->0.base() == baseline && made->0.numerator() == bonus_numerator
                && made->0.denominator() == bonus_denominator,
    {
        if baseline == 0 || bonus_denominator == 0 {
            None
        } else {
            Some(WeightParams { baseline, bonus_numerator, bonus_denominator })
        }
    }

    /// The weight of a genesis tipset: the baseline.
    pub fn genesis_weight(&self) -> (weight: Weight)
        ensures
            weight@ == self.base(),
            weight@ > 0,
    {
        proof {
            use_type_invariant(self);
        }
        Weight::from_u128(self.baseline as u128)
    }

    /// What `tipset` adds to the weight of the chain that it extends.
    pub fn increment(&self, tipset: &Tipset) -> (added: Weight)
        ensures
            added@ == tipset_increment(
                self.base(),
                self.numerator(),
                self.denominator(),
                total_wins(tipset.members()),
            ),
            added@ > 0,
    {
        proof {
            use_type_invariant(self);
        }
        let wins = Weight::from_u128(tipset.win_total());
        let numerator = Weight::from_u128(self.bonus_numerator as u128);
        let denominator = Weight::from_u128(self.bonus_denominator as u128);
        let bonus = numerator.times(&wins).div_floor(&denominator);
        Weight::from_u128(self.baseline as u128).plus(&bonus)
    }

    /// The weight of the chain that ends in `tipset`, given the weight of the
    /// chain up to its parent.
    pub fn extend(&self, parent_weight: &Weight, tipset: &Tipset) -> (weight: Weight)
        ensures
            weight@ == parent_weight@ + tipset_increment(
                self.base(),
                self.numerator(),
                self.denominator(),
                total_wins(tipset.members()),
            ),
            weight@ > parent_weight@,
    {
        let added = self.increment(tipset);
        parent_weight.plus(&added)
    }
}

/// Why the weight of a chain could not be computed.
#[derive(Clone, Copy, Debug, PartialEq, Eq, Structural)]
pub enum ChainStoreError {
    /// No tipset was given at all.
    EmptyChain,
    /// The store did not hold the tipset at this position, counted from
    /// genesis.
    MissingTipset(usize),
}

/// The wins of each tipset of `ancestry`; a missing tipset counts nothing.
pub open spec fn wins_along(ancestry: Seq<Option<Tipset>>) -> Seq<nat> {
    Seq::new(
        ancestry.len(),
        |i: int|
            match ancestry[i] {
                Some(t) => total_wins(t.members()),
                None => 0,
            },
    )
}

/// The weight of the chain `ancestry`, which lists the tipsets from genesis
/// up to the one to be weighed, each as the store returned it.
///
/// A chain of which any tipset is missing has no weight: the first gap is
/// reported and nothing is guessed.
pub fn weight(params: &WeightParams, ancestry: &Vec<Option<Tipset>>) -> (result: Result<
    Weight,
    ChainStoreError,
>)
    ensures
        ancestry@.len() == 0 ==> result == Err::<Weight, ChainStoreError>(
            ChainStoreError::EmptyChain,
        ),
        ancestry@.len() > 0 ==> match result {
            Ok(w) => (forall|i: int| 0 <= i < ancestry@.len() ==> ancestry@[i] is Some) && w@
                == params.weigh(wins_along(ancestry@)),
            Err(ChainStoreError::MissingTipset(at)) => at < ancestry@.len() && ancestry@[at as int]
                is None && forall|j: int| 0 <= j < at ==> ancestry@[j] is Some,
            Err(ChainStoreError::EmptyChain) => false,
        },
{
    if ancestry.len() == 0 {
        return Err(ChainStoreError::EmptyChain);
    }
    if ancestry[0].is_none() {
        return Err(ChainStoreError::MissingTipset(0));
    }
    let mut total = params.genesis_weight();
    let mut i: usize = 1;
    proof {
        assert(wins_along(ancestry@).subrange(0, 1).len() == 1);
    }
    while i < ancestry.len()
        invariant
            1 <= i <= ancestry@.len(),
            forall|j: int| 0 <= j < i ==> ancestry@[j] is Some,
            total@ == params.weigh(wins_along(ancestry@).subrange(0, i as int)),
        decreases ancestry@.len() - i,
    {
        match &ancestry[i] {
            None => {
                return Err(ChainStoreError::MissingTipset(i));
            },
            Some(tipset) => {
                total = params.extend(&total, tipset);
                proof {
                    let all = wins_along(ancestry@);
                    let next = all.subrange(0, i + 1);
                    assert(next.drop_last() =~= all.subrange(0, i as int));
                    assert(next.last() == total_wins(tipset.members()));
                }
            },
        }
        i += 1;
    }
    proof {
        let all = wins_along(ancestry@);
        assert(all.subrange(0, all.len() as int) =~= all);
    }
    Ok(total)
}

/// Which of two candidate heads fork choice takes.
#[derive(Clone, Copy, Debug, PartialEq, Eq, Structural)]
pub enum Preference {
    First,
    Second,
    /// The two candidates are one and the same tipset.
    Neither,
}

/// The fork-choice rule on two candidates, each given by its weight, its
/// smallest ticket and its key: the greater weight wins; between equal
/// weights the smaller ticket wins; between equal tickets the smaller key.
pub open spec fn preferred(
    weight_a: nat,
    ticket_a: Seq<u8>,
    key_a: Seq<u8>,
    weight_b: nat,
    ticket_b: Seq<u8>,
    key_b: Seq<u8>,
) -> Preference {
    if weight_a > weight_b {
        Preference::First
    } else if weight_a < weight_b {
        Preference::Second
    } else if lex_lt(ticket_a, ticket_b) {
        Preference::First
    } else if lex_lt(ticket_b, ticket_a) {
        Preference::Second
    } else if lex_lt(key_a, key_b) {
        Preference::First
    } else if lex_lt(key_b, key_a) {
        Preference::Second
    } else {
        Preference::Neither
    }
}

/// Whether `ticket` is the smallest ticket among `blocks`.
pub open spec fn is_least_ticket(ticket: Seq<u8>, blocks: Seq<Block>) -> bool {
    &&& exists|i: int| 0 <= i < blocks.len() && (#[trigger] blocks[i]).ticket_bytes() == ticket
    &&& forall|i: int| 0 <= i < blocks.len() ==> lex_le(ticket, (#[trigger] blocks[i]).ticket_bytes())
}

/// The smallest ticket among the blocks of a tipset: that of its first
/// block.
pub open spec fn least_ticket(tipset: &Tipset) -> Seq<u8> {
    tipset.members()[0].ticket_bytes()
}

/// Chooses between two candidate heads, each given with the weight of its
/// chain, by the rule of [`preferred`] on their weights, their smallest
/// tickets and their keys.
pub fn heavier(weight_a: &Weight, a: &Tipset, weight_b: &Weight, b: &Tipset) -> (choice: Preference)
    ensures
        is_least_ticket(least_ticket(a), a.members()),
        is_least_ticket(least_ticket(b), b.members()),
        choice == preferred(
            weight_a@,
            least_ticket(a),
            a.key_bytes(),
            weight_b@,
            least_ticket(b),
            b.key_bytes(),
        ),
{
    let ticket_a = a.min_ticket();
    let ticket_b = b.min_ticket();
    if weight_b.is_below(weight_a) {
        return Preference::First;
    }
    if weight_a.is_below(weight_b) {
        return Preference::Second;
    }
    match compare_bytes(ticket_a, ticket_b) {
        ByteOrder::Less => Preference::First,
        ByteOrder::Greater => {
            proof {
                lemma_lex_total(ticket_a@, ticket_b@);
            }
            Preference::Second
        },
        ByteOrder::Same => {
            proof {
                lemma_lex_irreflexive(ticket_a@);
            }
            match compare_bytes(a.key(), b.key()) {
                ByteOrder::Less => Preference::First,
                ByteOrder::Greater => {
                    proof {
                        lemma_lex_total(a.key_bytes(), b.key_bytes());
                    }
                    Preference::Second
                },
                ByteOrder::Same => {
                    proof {
                        lemma_lex_irreflexive(a.key_bytes());
                    }
                    Preference::Neither
                },
            }
        },
    }
}

/// A chain gains weight with every tipset: whatever tipset extends a
/// non-empty chain, the extended chain weighs strictly more, and a chain of
/// the genesis tipset alone weighs exactly the baseline.
pub proof fn lemma_weight_grows(
    baseline: nat,
    numerator: nat,
    denominator: nat,
    wins: Seq<nat>,
    child_wins: nat,
)
    requires
        baseline > 0,
        denominator > 0,
        wins.len() > 0,
    ensures
        chain_weight(baseline, numerator, denominator, wins.push(child_wins)) > chain_weight(
            baseline,
            numerator,
            denominator,
            wins,
        ),
        wins.len() == 1 ==> chain_weight(baseline, numerator, denominator, wins) == baseline,
{
    let longer = wins.push(child_wins);
    assert(longer.drop_last() =~= wins);
    assert(longer.last() == child_wins);
    assert((numerator * child_wins) / denominator >= 0) by (nonlinear_arith)
        requires
            denominator > 0,
    ;
}

/// A chain never weighs less than any chain that it extends, and strictly
/// more than any proper prefix of itself.
pub proof fn lemma_weight_of_prefix(
    baseline: nat,
    numerator: nat,
    denominator: nat,
    wins: Seq<nat>,
    n: int,
)
    requires
        baseline > 0,
        denominator > 0,
        1 <= n < wins.len(),
    ensures
        chain_weight(baseline, numerator, denominator, wins.subrange(0, n)) < chain_weight(
            baseline,
            numerator,
            denominator,
            wins,
        ),
    decreases wins.len(),
{
    let shorter = wins.drop_last();
    assert(wins =~= shorter.push(wins.last()));
    lemma_weight_grows(baseline, numerator, denominator, shorter, wins.last());
    if n < shorter.len() {
        lemma_weight_of_prefix(baseline, numerator, denominator, shorter, n);
        assert(shorter.subrange(0, n) =~= wins.subrange(0, n));
    } else {
        assert(wins.subrange(0, n) =~= shorter);
    }
}

/// Between two candidates of equal weight the one with the smaller ticket is
/// preferred, in whichever order the two are given.
pub proof fn lemma_tie_break_by_ticket(
    weight: nat,
    ticket_a: Seq<u8>,
    key_a: Seq<u8>,
    ticket_b: Seq<u8>,
    key_b: Seq<u8>,
)
    requires
        lex_lt(ticket_a, ticket_b),
    ensures
        preferred(weight, ticket_a, key_a, weight, ticket_b, key_b) == Preference::First,
        preferred(weight, ticket_b, key_b, weight, ticket_a, key_a) == Preference::Second,
{
    lemma_lex_asymmetric(ticket_a, ticket_b);
}

/// Fork choice does not depend on the order of its arguments: swapping the
/// candidates swaps the answer.
pub proof fn lemma_preference_symmetric(
    weight_a: nat,
    ticket_a: Seq<u8>,
    key_a: Seq<u8>,
    weight_b: nat,
    ticket_b: Seq<u8>,
    key_b: Seq<u8>,
)
    ensures
        preferred(weight_a, ticket_a, key_a, weight_b, ticket_b, key_b) == Preference::First
            <==> preferred(weight_b, ticket_b, key_b, weight_a, ticket_a, key_a)
            == Preference::Second,
        preferred(weight_a, ticket_a, key_a, weight_b, ticket_b, key_b) == Preference::Neither
            <==> preferred(weight_b, ticket_b, key_b, weight_a, ticket_a, key_a)
            == Preference::Neither,
{
    if lex_lt(ticket_a, ticket_b) {
        lemma_lex_asymmetric(ticket_a, ticket_b);
    }
    if lex_lt(ticket_b, ticket_a) {
        lemma_lex_asymmetric(ticket_b, ticket_a);
    }
    if lex_lt(key_a, key_b) {
        lemma_lex_asymmetric(key_a, key_b);
    }
    if lex_lt(key_b, key_a) {
        lemma_lex_asymmetric(key_b, key_a);
    }
}

/// Fork choice is undecided only between candidates that agree in weight,
/// ticket and key: two tipsets with different keys are never tied.
pub proof fn lemma_preference_total(
    weight_a: nat,
    ticket_a: Seq<u8>,
    key_a: Seq<u8>,
    weight_b: nat,
    ticket_b: Seq<u8>,
    key_b: Seq<u8>,
)
    ensures
        preferred(weight_a, ticket_a, key_a, weight_b, ticket_b, key_b) == Preference::Neither
            <==> weight_a == weight_b && ticket_a == ticket_b && key_a == key_b,
{
    lemma_lex_total(ticket_a, ticket_b);
    lemma_lex_total(key_a, key_b);
    lemma_lex_irreflexive(ticket_a);
    lemma_lex_irreflexive(key_a);
}

} // verus!
