//! Roll-up rules and the line-item traits that the statement maps are generic over.

use vstd::prelude::*;

verus! {

/// One roll-up rule: `target` is the signed sum of its positive contributors
/// minus the sum of its negative contributors.
pub struct Rule<T, C> {
    pub target: T,
    pub pos: Vec<C>,
    pub neg: Vec<C>,
}

/// Mathematical form of a [`Rule`].
pub struct RuleView<T, C> {
    pub target: T,
    pub pos: Seq<C>,
    pub neg: Seq<C>,
}

impl<T, C> View for Rule<T, C> {
    type V = RuleView<T, C>;

    open spec fn view(&self) -> RuleView<T, C> {
        RuleView { target: self.target, pos: self.pos@, neg: self.neg@ }
    }
}

/// Most contributors a rule may list; keeps every rule sum far inside `i128`.
pub const MAX_CONTRIBUTORS: usize = 64;

/// A closed set of line items laid out densely as `0..count()`.
pub trait LineItem: Sized + Copy {
    spec fn idx(self) -> nat;

    spec fn count() -> nat;

    spec fn from_idx(i: nat) -> Self;

    proof fn lemma_index(k: Self)
        ensures
            k.idx() < Self::count(),
            Self::from_idx(k.idx()) == k,
    ;

    proof fn lemma_from_index(i: nat)
        requires
            i < Self::count(),
        ensures
            Self::from_idx(i).idx() == i,
    ;

    fn index(self) -> (r: usize)
        ensures
            r == self.idx(),
    ;

    fn count_items() -> (r: usize)
        ensures
            r == Self::count(),
    ;

    fn from_index(i: usize) -> (r: Self)
        requires
            i < Self::count(),
        ensures
            r == Self::from_idx(i as nat),
    ;
}

/// A statement's line items together with its roll-up rule table.
///
/// `rank` gives the position of a calculated item's rule in the table and is
/// negative for entered items. The table is ordered: every contributor of
/// rule `i` is entered or the target of an earlier rule.
pub trait FinType: LineItem {
    spec fn rank(self) -> int;

    spec fn n_rules() -> nat;

    spec fn rule_spec(i: int) -> RuleView<Self, Self>;

    /// Item that a common-size statement divides by.
    spec fn anchor() -> Self;

    proof fn lemma_rule(i: int)
        requires
            0 <= i < Self::n_rules(),
        ensures
            Self::rule_spec(i).target.rank() == i,
            forall|j: int|
                0 <= j < Self::rule_spec(i).pos.len() ==> #[trigger] Self::rule_spec(i).pos[j].rank()
                    < i,
            forall|j: int|
                0 <= j < Self::rule_spec(i).neg.len() ==> #[trigger] Self::rule_spec(i).neg[j].rank()
                    < i,
            Self::rule_spec(i).pos.len() + Self::rule_spec(i).neg.len() <= MAX_CONTRIBUTORS,
    ;

    proof fn lemma_rank(k: Self)
        ensures
            k.rank() < Self::n_rules(),
            k.rank() >= 0 ==> Self::rule_spec(k.rank()).target == k,
    ;

    /// Whether the item is calculated (a rule target) rather than entered.
    fn is_calc(self) -> (r: bool)
        ensures
            r == (self.rank() >= 0),
    ;

    fn rule_count() -> (r: usize)
        ensures
            r == Self::n_rules(),
    ;

    fn rule(i: usize) -> (r: Rule<Self, Self>)
        requires
            i < Self::n_rules(),
        ensures
            r.target == Self::rule_spec(i as int).target,
            r.pos@ =~= Self::rule_spec(i as int).pos,
            r.neg@ =~= Self::rule_spec(i as int).neg,
    ;

    fn anchor_item() -> (r: Self)
        ensures
            r == Self::anchor(),
    ;
}

/// `k` is the target of some rule of its table.
pub open spec fn is_target<K: FinType>(k: K) -> bool {
    exists|i: int| 0 <= i < K::n_rules() && (#[trigger] K::rule_spec(i)).target == k
}

/// Being calculated is exactly being the target of a rule.
pub proof fn lemma_calc_iff_target<K: FinType>(k: K)
    ensures
        (k.rank() >= 0) == is_target(k),
{
    K::lemma_rank(k);
    if k.rank() >= 0 {
        assert(K::rule_spec(k.rank()).target == k);
    }
    if is_target(k) {
        let i = choose|i: int| 0 <= i < K::n_rules() && (#[trigger] K::rule_spec(i)).target == k;
        K::lemma_rule(i);
    }
}

/// Distinct dense indices belong to distinct items.
pub proof fn lemma_idx_injective<K: LineItem>(a: K, b: K)
    ensures
        (a.idx() == b.idx()) == (a == b),
{
    K::lemma_index(a);
    K::lemma_index(b);
}

} // verus!
