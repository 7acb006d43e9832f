//! Balance-sheet specifics: the debit/credit polarity of entered items,
//! debit and credit postings, and the accounting identity.

use crate::fmap::{
    amount_of, derived, fits, is_material, lemma_rollup_consistent, rule_value, sum_of,
    StatementMap,
    MATERIALITY,
};
use crate::items::BsType;
use crate::rules::{FinType, LineItem};
use vstd::prelude::*;

verus! {

/// How an entered balance-sheet item behaves under a debit.
#[derive(Debug, Clone, Copy, PartialEq, Eq, Structural)]
pub enum BalanceSheetEntry {
    AssetEntry,
    AssetContra,
    LiabilityEntry,
    LiabilityContra,
    EquityEntry,
    EquityContra,
}

/// Polarity slots, one per balance-sheet item in dense index order.
pub type Polarities = Seq<Option<BalanceSheetEntry>>;

/// Walk the contributors `xs` of a rule whose index is below `bound`: an
/// entered contributor gets `p`; a calculated one is walked with the same pair.
pub open spec fn walk_list(
    m: Polarities,
    xs: Seq<BsType>,
    bound: int,
    p: BalanceSheetEntry,
    q: BalanceSheetEntry,
) -> Polarities
    decreases bound, 0nat, xs.len(),
{
    if xs.len() == 0 || bound < 0 {
        m
    } else {
        let m1 = walk_list(m, xs.drop_last(), bound, p, q);
        let x = xs.last();
        if x.rank() < 0 {
            m1.update(x.idx() as int, Some(p))
        } else if x.rank() < bound {
            walk_rule(m1, x.rank(), p, q)
        } else {
            m1
        }
    }
}

/// Walk rule `i`: its positive contributors with `(p, q)`, then its negative
/// contributors with the pair swapped.
pub open spec fn walk_rule(
    m: Polarities,
    i: int,
    p: BalanceSheetEntry,
    q: BalanceSheetEntry,
) -> Polarities
    decreases i, 1nat, 0nat,
{
    if i < 0 {
        m
    } else {
        let r = BsType::rule_spec(i);
        walk_list(walk_list(m, r.pos, i, p, q), r.neg, i, q, p)
    }
}

/// Polarity of every entered balance-sheet item, walked down from assets,
/// liabilities and equity in that order (a later assignment wins).
pub open spec fn debit_table() -> Polarities {
    let m0 = Seq::new(BsType::count(), |i: int| None::<BalanceSheetEntry>);
    let m1 = walk_rule(
        m0,
        BsType::Assets.rank(),
        BalanceSheetEntry::AssetEntry,
        BalanceSheetEntry::AssetContra,
    );
    let m2 = walk_rule(
        m1,
        BsType::Liabilities.rank(),
        BalanceSheetEntry::LiabilityEntry,
        BalanceSheetEntry::LiabilityContra,
    );
    walk_rule(
        m2,
        BsType::Equity.rank(),
        BalanceSheetEntry::EquityEntry,
        BalanceSheetEntry::EquityContra,
    )
}

/// Polarity of `k`, if it has one.
pub open spec fn polarity(k: BsType) -> Option<BalanceSheetEntry> {
    debit_table()[k.idx() as int]
}

/// A debit increases items of this polarity.
pub open spec fn debit_increases(e: BalanceSheetEntry) -> bool {
    e is AssetEntry || e is LiabilityContra || e is EquityContra
}

/// Amount that a debit of `v` adds to an item of polarity `e`.
pub open spec fn debit_effect(e: BalanceSheetEntry, v: int) -> int {
    if debit_increases(e) {
        v
    } else {
        -v
    }
}

/// `m` after debiting `v` to `k`.
pub open spec fn debited(m: Map<BsType, int>, k: BsType, v: int) -> Map<BsType, int> {
    m.insert(k, amount_of(m, k) + debit_effect(polarity(k)->Some_0, v))
}

/// `m` after crediting `v` to `k`: a debit of `-v`.
pub open spec fn credited(m: Map<BsType, int>, k: BsType, v: int) -> Map<BsType, int> {
    debited(m, k, -v)
}

/// `k` can be posted to: it is entered and has a polarity.
pub open spec fn postable(k: BsType) -> bool {
    k.rank() < 0 && polarity(k) is Some
}

/// A debit of `v` to `k` in `m` is allowed and its result representable.
pub open spec fn debit_ok(m: Map<BsType, int>, k: BsType, v: int) -> bool {
    postable(k) && fits(v) && fits(-v) && fits(amount_of(debited(m, k, v), k))
}

/// `m` after posting each `(debit item, credit item, amount)` in order.
pub open spec fn transacted_all(m: Map<BsType, int>, s: Seq<(BsType, BsType, i64)>) -> Map<
    BsType,
    int,
>
    decreases s.len(),
{
    if s.len() == 0 {
        m
    } else {
        let t = s.last();
        credited(debited(transacted_all(m, s.drop_last()), t.0, t.2 as int), t.1, t.2 as int)
    }
}

/// Every posting of `s`, applied to `m` in order, is allowed and representable.
pub open spec fn transactions_ok(m: Map<BsType, int>, s: Seq<(BsType, BsType, i64)>) -> bool {
    forall|i: int|
        #![trigger s[i]]
        0 <= i < s.len() ==> {
            let before = transacted_all(m, s.take(i));
            &&& debit_ok(before, s[i].0, s[i].2 as int)
            &&& debit_ok(debited(before, s[i].0, s[i].2 as int), s[i].1, -s[i].2)
        }
}

/// Assign polarities below the calculated item `calc_type`: entered
/// contributors reached through positive links get `calc_pos`, through an
/// odd number of negative links `calc_neg`.
pub fn debit_mapping(
    debit_map: &mut Vec<Option<BalanceSheetEntry>>,
    calc_type: BsType,
    calc_pos: BalanceSheetEntry,
    calc_neg: BalanceSheetEntry,
)
    requires
        calc_type.rank() >= 0,
        old(debit_map).len() == BsType::count(),
    ensures
        final(debit_map)@ == walk_rule(old(debit_map)@, calc_type.rank(), calc_pos, calc_neg),
        final(debit_map).len() == BsType::count(),
    decreases calc_type.rank(),
{
    proof {
        BsType::lemma_rank(calc_type);
    }
    let i = rank_of(calc_type);
    let r = BsType::rule(i);
    proof {
        BsType::lemma_rule(i as int);
    }
    walk_contributors(debit_map, &r.pos, i, calc_pos, calc_neg);
    walk_contributors(debit_map, &r.neg, i, calc_neg, calc_pos);
}

/// The walk over one contributor list; see [`debit_mapping`].
fn walk_contributors(
    debit_map: &mut Vec<Option<BalanceSheetEntry>>,
    xs: &Vec<BsType>,
    bound: usize,
    p: BalanceSheetEntry,
    q: BalanceSheetEntry,
)
    requires
        old(debit_map).len() == BsType::count(),
        bound < BsType::n_rules(),
        forall|j: int| 0 <= j < xs.len() ==> (#[trigger] xs@[j]).rank() < bound,
    ensures
        final(debit_map)@ == walk_list(old(debit_map)@, xs@, bound as int, p, q),
        final(debit_map).len() == BsType::count(),
    decreases bound, 0nat, xs.len(),
{
    let mut j: usize = 0;
    while j < xs.len()
        invariant
            j <= xs.len(),
            debit_map.len() == BsType::count(),
            bound < BsType::n_rules(),
            forall|t: int| 0 <= t < xs.len() ==> (#[trigger] xs@[t]).rank() < bound,
            debit_map@ == walk_list(old(debit_map)@, xs@.take(j as int), bound as int, p, q),
        decreases xs.len() - j,
    {
        let x = xs[j];
        proof {
            let s1 = xs@.take(j + 1);
            assert(s1.drop_last() =~= xs@.take(j as int));
            assert(xs@[j as int] == s1.last());
            BsType::lemma_index(x);
        }
        if x.is_calc() {
            debit_mapping(debit_map, x, p, q);
        } else {
            debit_map.set(x.index(), Some(p));
        }
        j += 1;
    }
    proof {
        assert(xs@.take(xs.len() as int) =~= xs@);
    }
}

/// Position of a calculated item's rule in the balance-sheet table.
fn rank_of(k: BsType) -> (r: usize)
    requires
        k.rank() >= 0,
    ensures
        r as int == k.rank(),
        r < BsType::n_rules(),
{
    proof {
        BsType::lemma_rank(k);
    }
    let n = BsType::rule_count();
    let mut i: usize = 0;
    while i < n
        invariant
            i <= n,
            n == BsType::n_rules(),
            i <= k.rank(),
        decreases n - i,
    {
        let r = BsType::rule(i);
        proof {
            BsType::lemma_rule(i as int);
        }
        if r.target == k {
            return i;
        }
        i += 1;
    }
    i
}

/// The polarity slots of every balance-sheet item.
pub fn debit_types() -> (r: Vec<Option<BalanceSheetEntry>>)
    ensures
        r@ == debit_table(),
        r.len() == BsType::count(),
{
    let count = BsType::count_items();
    let mut m: Vec<Option<BalanceSheetEntry>> = Vec::new();
    let mut i: usize = 0;
    while i < count
        invariant
            i <= count,
            count == BsType::count(),
            m@ == Seq::new(i as nat, |t: int| None::<BalanceSheetEntry>),
        decreases count - i,
    {
        m.push(None);
        proof {
            assert(m@ =~= Seq::new((i + 1) as nat, |t: int| None::<BalanceSheetEntry>));
        }
        i += 1;
    }
    debit_mapping(
        &mut m,
        BsType::Assets,
        BalanceSheetEntry::AssetEntry,
        BalanceSheetEntry::AssetContra,
    );
    debit_mapping(
        &mut m,
        BsType::Liabilities,
        BalanceSheetEntry::LiabilityEntry,
        BalanceSheetEntry::LiabilityContra,
    );
    debit_mapping(
        &mut m,
        BsType::Equity,
        BalanceSheetEntry::EquityEntry,
        BalanceSheetEntry::EquityContra,
    );
    m
}

/// Polarity of `k`: `None` for calculated items.
pub fn debit_type(k: BsType) -> (r: Option<BalanceSheetEntry>)
    ensures
        r == polarity(k),
{
    let t = debit_types();
    proof {
        BsType::lemma_index(k);
    }
    t[k.index()]
}

/// Walking one more contributor is one more step of the walk.
proof fn lemma_walk_list_push()
    ensures
        forall|m: Polarities, xs: Seq<BsType>, x: BsType, b: int, p: BalanceSheetEntry, q: BalanceSheetEntry|
            b >= 0 ==> #[trigger] walk_list(m, xs.push(x), b, p, q) == {
                let m1 = walk_list(m, xs, b, p, q);
                if x.rank() < 0 {
                    m1.update(x.idx() as int, Some(p))
                } else if x.rank() < b {
                    walk_rule(m1, x.rank(), p, q)
                } else {
                    m1
                }
            },
        forall|m: Polarities, b: int, p: BalanceSheetEntry, q: BalanceSheetEntry|
            #[trigger] walk_list(m, Seq::<BsType>::empty(), b, p, q) == m,
{
    assert forall|m: Polarities, xs: Seq<BsType>, x: BsType, b: int, p: BalanceSheetEntry, q: BalanceSheetEntry|
        b >= 0 implies #[trigger] walk_list(m, xs.push(x), b, p, q) == {
            let m1 = walk_list(m, xs, b, p, q);
            if x.rank() < 0 {
                m1.update(x.idx() as int, Some(p))
            } else if x.rank() < b {
                walk_rule(m1, x.rank(), p, q)
            } else {
                m1
            }
        } by {
        assert(xs.push(x).drop_last() =~= xs);
    }
}

proof fn lemma_walk_rule_0()
    ensures
        forall|m: Polarities, p: BalanceSheetEntry, q: BalanceSheetEntry|
            m.len() == BsType::count() ==> #[trigger] walk_rule(m, 0, p, q) == m.update(7, Some(p)).update(8, Some(p)).update(9, Some(p)),
{
    assert forall|m: Polarities, p: BalanceSheetEntry, q: BalanceSheetEntry|
        m.len() == BsType::count() implies #[trigger] walk_rule(m, 0, p, q) == m.update(7, Some(p)).update(8, Some(p)).update(9, Some(p)) by {
        lemma_walk_list_push();
        let r = BsType::rule_spec(0);
        assert(r.pos =~= Seq::<BsType>::empty().push(BsType::RawMaterials).push(BsType::WorkInProgress).push(BsType::FinishedGoods));
        assert(r.neg =~= Seq::<BsType>::empty());
        assert(walk_list(m, Seq::<BsType>::empty().push(BsType::RawMaterials), 0, p, q) == m.update(7, Some(p)));
        assert(walk_list(m, Seq::<BsType>::empty().push(BsType::RawMaterials).push(BsType::WorkInProgress), 0, p, q) == m.update(7, Some(p)).update(8, Some(p)));
        assert(walk_list(m, Seq::<BsType>::empty().push(BsType::RawMaterials).push(BsType::WorkInProgress).push(BsType::FinishedGoods), 0, p, q) == m.update(7, Some(p)).update(8, Some(p)).update(9, Some(p)));
        assert(walk_rule(m, 0, p, q) == walk_list(walk_list(m, Seq::<BsType>::empty().push(BsType::RawMaterials).push(BsType::WorkInProgress).push(BsType::FinishedGoods), 0, p, q), Seq::<BsType>::empty(), 0, q, p));
    }
}

proof fn lemma_walk_rule_1()
    ensures
        forall|m: Polarities, p: BalanceSheetEntry, q: BalanceSheetEntry|
            m.len() == BsType::count() ==> #[trigger] walk_rule(m, 1, p, q) == m.update(0, Some(p)).update(1, Some(p)).update(2, Some(p)).update(3, Some(p)).update(4, Some(p)).update(5, Some(p)).update(7, Some(p)).update(8, Some(p)).update(9, Some(p)),
{
    assert forall|m: Polarities, p: BalanceSheetEntry, q: BalanceSheetEntry|
        m.len() == BsType::count() implies #[trigger] walk_rule(m, 1, p, q) == m.update(0, Some(p)).update(1, Some(p)).update(2, Some(p)).update(3, Some(p)).update(4, Some(p)).update(5, Some(p)).update(7, Some(p)).update(8, Some(p)).update(9, Some(p)) by {
        lemma_walk_list_push();
        lemma_walk_rule_0();
        let r = BsType::rule_spec(1);
        assert(r.pos =~= Seq::<BsType>::empty().push(BsType::Cash).push(BsType::CurrentReceivables).push(BsType::CurrentLoans).push(BsType::CurrentAdvances).push(BsType::OtherCurrentAssets).push(BsType::CurrentInvestments).push(BsType::Inventories));
        assert(r.neg =~= Seq::<BsType>::empty());
        assert(walk_list(m, Seq::<BsType>::empty().push(BsType::Cash), 1, p, q) == m.update(0, Some(p)));
        assert(walk_list(m, Seq::<BsType>::empty().push(BsType::Cash).push(BsType::CurrentReceivables), 1, p, q) == m.update(0, Some(p)).update(1, Some(p)));
        assert(walk_list(m, Seq::<BsType>::empty().push(BsType::Cash).push(BsType::CurrentReceivables).push(BsType::CurrentLoans), 1, p, q) == m.update(0, Some(p)).update(1, Some(p)).update(2, Some(p)));
        assert(walk_list(m, Seq::<BsType>::empty().push(BsType::Cash).push(BsType::CurrentReceivables).push(BsType::CurrentLoans).push(BsType::CurrentAdvances), 1, p, q) == m.update(0, Some(p)).update(1, Some(p)).update(2, Some(p)).update(3, Some(p)));
        assert(walk_list(m, Seq::<BsType>::empty().push(BsType::Cash).push(BsType::CurrentReceivables).push(BsType::CurrentLoans).push(BsType::CurrentAdvances).push(BsType::OtherCurrentAssets), 1, p, q) == m.update(0, Some(p)).update(1, Some(p)).update(2, Some(p)).update(3, Some(p)).update(4, Some(p)));
        assert(walk_list(m, Seq::<BsType>::empty().push(BsType::Cash).push(BsType::CurrentReceivables).push(BsType::CurrentLoans).push(BsType::CurrentAdvances).push(BsType::OtherCurrentAssets).push(BsType::CurrentInvestments), 1, p, q) == m.update(0, Some(p)).update(1, Some(p)).update(2, Some(p)).update(3, Some(p)).update(4, Some(p)).update(5, Some(p)));
        assert(walk_list(m, Seq::<BsType>::empty().push(BsType::Cash).push(BsType::CurrentReceivables).push(BsType::CurrentLoans).push(BsType::CurrentAdvances).push(BsType::OtherCurrentAssets).push(BsType::CurrentInvestments).push(BsType::Inventories), 1, p, q) == m.update(0, Some(p)).update(1, Some(p)).update(2, Some(p)).update(3, Some(p)).update(4, Some(p)).update(5, Some(p)).update(7, Some(p)).update(8, Some(p)).update(9, Some(p)));
        assert(walk_rule(m, 1, p, q) == walk_list(walk_list(m, Seq::<BsType>::empty().push(BsType::Cash).push(BsType::CurrentReceivables).push(BsType::CurrentLoans).push(BsType::CurrentAdvances).push(BsType::OtherCurrentAssets).push(BsType::CurrentInvestments).push(BsType::Inventories), 1, p, q), Seq::<BsType>::empty(), 1, q, p));
    }
}

proof fn lemma_walk_rule_2()
    ensures
        forall|m: Polarities, p: BalanceSheetEntry, q: BalanceSheetEntry|
            m.len() == BsType::count() ==> #[trigger] walk_rule(m, 2, p, q) == m.update(16, Some(p)).update(17, Some(q)),
{
    assert forall|m: Polarities, p: BalanceSheetEntry, q: BalanceSheetEntry|
        m.len() == BsType::count() implies #[trigger] walk_rule(m, 2, p, q) == m.update(16, Some(p)).update(17, Some(q)) by {
        lemma_walk_list_push();
        let r = BsType::rule_spec(2);
        assert(r.pos =~= Seq::<BsType>::empty().push(BsType::PlantPropertyEquipment));
        assert(r.neg =~= Seq::<BsType>::empty().push(BsType::AccumulatedDepreciation));
        assert(walk_list(m, Seq::<BsType>::empty().push(BsType::PlantPropertyEquipment), 2, p, q) == m.update(16, Some(p)));
        assert(walk_list(m.update(16, Some(p)), Seq::<BsType>::empty().push(BsType::AccumulatedDepreciation), 2, q, p) == m.update(16, Some(p)).update(17, Some(q)));
        assert(walk_rule(m, 2, p, q) == walk_list(walk_list(m, Seq::<BsType>::empty().push(BsType::PlantPropertyEquipment), 2, p, q), Seq::<BsType>::empty().push(BsType::AccumulatedDepreciation), 2, q, p));
    }
}

proof fn lemma_walk_rule_3()
    ensures
        forall|m: Polarities, p: BalanceSheetEntry, q: BalanceSheetEntry|
            m.len() == BsType::count() ==> #[trigger] walk_rule(m, 3, p, q) == m.update(19, Some(p)).update(20, Some(q)),
{
    assert forall|m: Polarities, p: BalanceSheetEntry, q: BalanceSheetEntry|
        m.len() == BsType::count() implies #[trigger] walk_rule(m, 3, p, q) == m.update(19, Some(p)).update(20, Some(q)) by {
        lemma_walk_list_push();
        let r = BsType::rule_spec(3);
        assert(r.pos =~= Seq::<BsType>::empty().push(BsType::LeasingRentalAssets));
        assert(r.neg =~= Seq::<BsType>::empty().push(BsType::AccumulatedAmortizationLease));
        assert(walk_list(m, Seq::<BsType>::empty().push(BsType::LeasingRentalAssets), 3, p, q) == m.update(19, Some(p)));
        assert(walk_list(m.update(19, Some(p)), Seq::<BsType>::empty().push(BsType::AccumulatedAmortizationLease), 3, q, p) == m.update(19, Some(p)).update(20, Some(q)));
        assert(walk_rule(m, 3, p, q) == walk_list(walk_list(m, Seq::<BsType>::empty().push(BsType::LeasingRentalAssets), 3, p, q), Seq::<BsType>::empty().push(BsType::AccumulatedAmortizationLease), 3, q, p));
    }
}

proof fn lemma_walk_rule_4()
    ensures
        forall|m: Polarities, p: BalanceSheetEntry, q: BalanceSheetEntry|
            m.len() == BsType::count() ==> #[trigger] walk_rule(m, 4, p, q) == m.update(25, Some(p)).update(26, Some(p)).update(27, Some(q)),
{
    assert forall|m: Polarities, p: BalanceSheetEntry, q: BalanceSheetEntry|
        m.len() == BsType::count() implies #[trigger] walk_rule(m, 4, p, q) == m.update(25, Some(p)).update(26, Some(p)).update(27, Some(q)) by {
        lemma_walk_list_push();
        let r = BsType::rule_spec(4);
        assert(r.pos =~= Seq::<BsType>::empty().push(BsType::IntangibleAssets).push(BsType::IntangibleAssetsDevelopment));
        assert(r.neg =~= Seq::<BsType>::empty().push(BsType::AccumulatedAmortization));
        assert(walk_list(m, Seq::<BsType>::empty().push(BsType::IntangibleAssets), 4, p, q) == m.update(25, Some(p)));
        assert(walk_list(m, Seq::<BsType>::empty().push(BsType::IntangibleAssets).push(BsType::IntangibleAssetsDevelopment), 4, p, q) == m.update(25, Some(p)).update(26, Some(p)));
        assert(walk_list(m.update(25, Some(p)).update(26, Some(p)), Seq::<BsType>::empty().push(BsType::AccumulatedAmortization), 4, q, p) == m.update(25, Some(p)).update(26, Some(p)).update(27, Some(q)));
        assert(walk_rule(m, 4, p, q) == walk_list(walk_list(m, Seq::<BsType>::empty().push(BsType::IntangibleAssets).push(BsType::IntangibleAssetsDevelopment), 4, p, q), Seq::<BsType>::empty().push(BsType::AccumulatedAmortization), 4, q, p));
    }
}

proof fn lemma_walk_rule_5()
    ensures
        forall|m: Polarities, p: BalanceSheetEntry, q: BalanceSheetEntry|
            m.len() == BsType::count() ==> #[trigger] walk_rule(m, 5, p, q) == m.update(11, Some(p)).update(12, Some(p)).update(13, Some(p)).update(14, Some(p)).update(15, Some(p)).update(16, Some(p)).update(17, Some(q)).update(19, Some(p)).update(20, Some(q)).update(22, Some(p)).update(23, Some(p)).update(24, Some(p)).update(25, Some(p)).update(26, Some(p)).update(27, Some(q)),
{
    assert forall|m: Polarities, p: BalanceSheetEntry, q: BalanceSheetEntry|
        m.len() == BsType::count() implies #[trigger] walk_rule(m, 5, p, q) == m.update(11, Some(p)).update(12, Some(p)).update(13, Some(p)).update(14, Some(p)).update(15, Some(p)).update(16, Some(p)).update(17, Some(q)).update(19, Some(p)).update(20, Some(q)).update(22, Some(p)).update(23, Some(p)).update(24, Some(p)).update(25, Some(p)).update(26, Some(p)).update(27, Some(q)) by {
        lemma_walk_list_push();
        lemma_walk_rule_2();
        lemma_walk_rule_3();
        lemma_walk_rule_4();
        let r = BsType::rule_spec(5);
        assert(r.pos =~= Seq::<BsType>::empty().push(BsType::AccountReceivables).push(BsType::LongTermLoanAssets).push(BsType::LongTermAdvances).push(BsType::LongTermInvestments).push(BsType::OtherLongTermAssets).push(BsType::NetPlantPropertyEquipment).push(BsType::NetLeaseRentalAssets).push(BsType::Goodwill).push(BsType::CapitalWip).push(BsType::OtherTangibleAssets).push(BsType::NetIntangibleAssets));
        assert(r.neg =~= Seq::<BsType>::empty());
        assert(walk_list(m, Seq::<BsType>::empty().push(BsType::AccountReceivables), 5, p, q) == m.update(11, Some(p)));
        assert(walk_list(m, Seq::<BsType>::empty().push(BsType::AccountReceivables).push(BsType::LongTermLoanAssets), 5, p, q) == m.update(11, Some(p)).update(12, Some(p)));
        assert(walk_list(m, Seq::<BsType>::empty().push(BsType::AccountReceivables).push(BsType::LongTermLoanAssets).push(BsType::LongTermAdvances), 5, p, q) == m.update(11, Some(p)).update(12, Some(p)).update(13, Some(p)));
        assert(walk_list(m, Seq::<BsType>::empty().push(BsType::AccountReceivables).push(BsType::LongTermLoanAssets).push(BsType::LongTermAdvances).push(BsType::LongTermInvestments), 5, p, q) == m.update(11, Some(p)).update(12, Some(p)).update(13, Some(p)).update(14, Some(p)));
        assert(walk_list(m, Seq::<BsType>::empty().push(BsType::AccountReceivables).push(BsType::LongTermLoanAssets).push(BsType::LongTermAdvances).push(BsType::LongTermInvestments).push(BsType::OtherLongTermAssets), 5, p, q) == m.update(11, Some(p)).update(12, Some(p)).update(13, Some(p)).update(14, Some(p)).update(15, Some(p)));
        assert(walk_list(m, Seq::<BsType>::empty().push(BsType::AccountReceivables).push(BsType::LongTermLoanAssets).push(BsType::LongTermAdvances).push(BsType::LongTermInvestments).push(BsType::OtherLongTermAssets).push(BsType::NetPlantPropertyEquipment), 5, p, q) == m.update(11, Some(p)).update(12, Some(p)).update(13, Some(p)).update(14, Some(p)).update(15, Some(p)).update(16, Some(p)).update(17, Some(q)));
        assert(walk_list(m, Seq::<BsType>::empty().push(BsType::AccountReceivables).push(BsType::LongTermLoanAssets).push(BsType::LongTermAdvances).push(BsType::LongTermInvestments).push(BsType::OtherLongTermAssets).push(BsType::NetPlantPropertyEquipment).push(BsType::NetLeaseRentalAssets), 5, p, q) == m.update(11, Some(p)).update(12, Some(p)).update(13, Some(p)).update(14, Some(p)).update(15, Some(p)).update(16, Some(p)).update(17, Some(q)).update(19, Some(p)).update(20, Some(q)));
        assert(walk_list(m, Seq::<BsType>::empty().push(BsType::AccountReceivables).push(BsType::LongTermLoanAssets).push(BsType::LongTermAdvances).push(BsType::LongTermInvestments).push(BsType::OtherLongTermAssets).push(BsType::NetPlantPropertyEquipment).push(BsType::NetLeaseRentalAssets).push(BsType::Goodwill), 5, p, q) == m.update(11, Some(p)).update(12, Some(p)).update(13, Some(p)).update(14, Some(p)).update(15, Some(p)).update(16, Some(p)).update(17, Some(q)).update(19, Some(p)).update(20, Some(q)).update(22, Some(p)));
        assert(walk_list(m, Seq::<BsType>::empty().push(BsType::AccountReceivables).push(BsType::LongTermLoanAssets).push(BsType::LongTermAdvances).push(BsType::LongTermInvestments).push(BsType::OtherLongTermAssets).push(BsType::NetPlantPropertyEquipment).push(BsType::NetLeaseRentalAssets).push(BsType::Goodwill).push(BsType::CapitalWip), 5, p, q) == m.update(11, Some(p)).update(12, Some(p)).update(13, Some(p)).update(14, Some(p)).update(15, Some(p)).update(16, Some(p)).update(17, Some(q)).update(19, Some(p)).update(20, Some(q)).update(22, Some(p)).update(23, Some(p)));
        assert(walk_list(m, Seq::<BsType>::empty().push(BsType::AccountReceivables).push(BsType::LongTermLoanAssets).push(BsType::LongTermAdvances).push(BsType::LongTermInvestments).push(BsType::OtherLongTermAssets).push(BsType::NetPlantPropertyEquipment).push(BsType::NetLeaseRentalAssets).push(BsType::Goodwill).push(BsType::CapitalWip).push(BsType::OtherTangibleAssets), 5, p, q) == m.update(11, Some(p)).update(12, Some(p)).update(13, Some(p)).update(14, Some(p)).update(15, Some(p)).update(16, Some(p)).update(17, Some(q)).update(19, Some(p)).update(20, Some(q)).update(22, Some(p)).update(23, Some(p)).update(24, Some(p)));
        assert(walk_list(m, Seq::<BsType>::empty().push(BsType::AccountReceivables).push(BsType::LongTermLoanAssets).push(BsType::LongTermAdvances).push(BsType::LongTermInvestments).push(BsType::OtherLongTermAssets).push(BsType::NetPlantPropertyEquipment).push(BsType::NetLeaseRentalAssets).push(BsType::Goodwill).push(BsType::CapitalWip).push(BsType::OtherTangibleAssets).push(BsType::NetIntangibleAssets), 5, p, q) == m.update(11, Some(p)).update(12, Some(p)).update(13, Some(p)).update(14, Some(p)).update(15, Some(p)).update(16, Some(p)).update(17, Some(q)).update(19, Some(p)).update(20, Some(q)).update(22, Some(p)).update(23, Some(p)).update(24, Some(p)).update(25, Some(p)).update(26, Some(p)).update(27, Some(q)));
        assert(walk_rule(m, 5, p, q) == walk_list(walk_list(m, Seq::<BsType>::empty().push(BsType::AccountReceivables).push(BsType::LongTermLoanAssets).push(BsType::LongTermAdvances).push(BsType::LongTermInvestments).push(BsType::OtherLongTermAssets).push(BsType::NetPlantPropertyEquipment).push(BsType::NetLeaseRentalAssets).push(BsType::Goodwill).push(BsType::CapitalWip).push(BsType::OtherTangibleAssets).push(BsType::NetIntangibleAssets), 5, p, q), Seq::<BsType>::empty(), 5, q, p));
    }
}

proof fn lemma_walk_rule_6()
    ensures
        forall|m: Polarities, p: BalanceSheetEntry, q: BalanceSheetEntry|
            m.len() == BsType::count() ==> #[trigger] walk_rule(m, 6, p, q) == m.update(0, Some(p)).update(1, Some(p)).update(2, Some(p)).update(3, Some(p)).update(4, Some(p)).update(5, Some(p)).update(7, Some(p)).update(8, Some(p)).update(9, Some(p)).update(11, Some(p)).update(12, Some(p)).update(13, Some(p)).update(14, Some(p)).update(15, Some(p)).update(16, Some(p)).update(17, Some(q)).update(19, Some(p)).update(20, Some(q)).update(22, Some(p)).update(23, Some(p)).update(24, Some(p)).update(25, Some(p)).update(26, Some(p)).update(27, Some(q)),
{
    assert forall|m: Polarities, p: BalanceSheetEntry, q: BalanceSheetEntry|
        m.len() == BsType::count() implies #[trigger] walk_rule(m, 6, p, q) == m.update(0, Some(p)).update(1, Some(p)).update(2, Some(p)).update(3, Some(p)).update(4, Some(p)).update(5, Some(p)).update(7, Some(p)).update(8, Some(p)).update(9, Some(p)).update(11, Some(p)).update(12, Some(p)).update(13, Some(p)).update(14, Some(p)).update(15, Some(p)).update(16, Some(p)).update(17, Some(q)).update(19, Some(p)).update(20, Some(q)).update(22, Some(p)).update(23, Some(p)).update(24, Some(p)).update(25, Some(p)).update(26, Some(p)).update(27, Some(q)) by {
        lemma_walk_list_push();
        lemma_walk_rule_1();
        lemma_walk_rule_5();
        let r = BsType::rule_spec(6);
        assert(r.pos =~= Seq::<BsType>::empty().push(BsType::CurrentAssets).push(BsType::LongTermAssets));
        assert(r.neg =~= Seq::<BsType>::empty());
        assert(walk_list(m, Seq::<BsType>::empty().push(BsType::CurrentAssets), 6, p, q) == m.update(0, Some(p)).update(1, Some(p)).update(2, Some(p)).update(3, Some(p)).update(4, Some(p)).update(5, Some(p)).update(7, Some(p)).update(8, Some(p)).update(9, Some(p)));
        assert(walk_list(m, Seq::<BsType>::empty().push(BsType::CurrentAssets).push(BsType::LongTermAssets), 6, p, q) == m.update(0, Some(p)).update(1, Some(p)).update(2, Some(p)).update(3, Some(p)).update(4, Some(p)).update(5, Some(p)).update(7, Some(p)).update(8, Some(p)).update(9, Some(p)).update(11, Some(p)).update(12, Some(p)).update(13, Some(p)).update(14, Some(p)).update(15, Some(p)).update(16, Some(p)).update(17, Some(q)).update(19, Some(p)).update(20, Some(q)).update(22, Some(p)).update(23, Some(p)).update(24, Some(p)).update(25, Some(p)).update(26, Some(p)).update(27, Some(q)));
        assert(walk_rule(m, 6, p, q) == walk_list(walk_list(m, Seq::<BsType>::empty().push(BsType::CurrentAssets).push(BsType::LongTermAssets), 6, p, q), Seq::<BsType>::empty(), 6, q, p));
    }
}

proof fn lemma_walk_rule_7()
    ensures
        forall|m: Polarities, p: BalanceSheetEntry, q: BalanceSheetEntry|
            m.len() == BsType::count() ==> #[trigger] walk_rule(m, 7, p, q) == m.update(31, Some(p)).update(32, Some(p)).update(33, Some(p)).update(34, Some(p)).update(35, Some(p)).update(36, Some(p)).update(37, Some(p)).update(38, Some(p)).update(39, Some(p)),
{
    assert forall|m: Polarities, p: BalanceSheetEntry, q: BalanceSheetEntry|
        m.len() == BsType::count() implies #[trigger] walk_rule(m, 7, p, q) == m.update(31, Some(p)).update(32, Some(p)).update(33, Some(p)).update(34, Some(p)).update(35, Some(p)).update(36, Some(p)).update(37, Some(p)).update(38, Some(p)).update(39, Some(p)) by {
        lemma_walk_list_push();
        let r = BsType::rule_spec(7);
        assert(r.pos =~= Seq::<BsType>::empty().push(BsType::CurrentPayables).push(BsType::CurrentBorrowings).push(BsType::CurrentNotesPayable).push(BsType::OtherCurrentLiabilities).push(BsType::InterestPayable).push(BsType::CurrentProvisions).push(BsType::CurrentTaxPayables).push(BsType::LiabilitiesSaleAssets).push(BsType::CurrentLeasesLiability));
        assert(r.neg =~= Seq::<BsType>::empty());
        assert(walk_list(m, Seq::<BsType>::empty().push(BsType::CurrentPayables), 7, p, q) == m.update(31, Some(p)));
        assert(walk_list(m, Seq::<BsType>::empty().push(BsType::CurrentPayables).push(BsType::CurrentBorrowings), 7, p, q) == m.update(31, Some(p)).update(32, Some(p)));
        assert(walk_list(m, Seq::<BsType>::empty().push(BsType::CurrentPayables).push(BsType::CurrentBorrowings).push(BsType::CurrentNotesPayable), 7, p, q) == m.update(31, Some(p)).update(32, Some(p)).update(33, Some(p)));
        assert(walk_list(m, Seq::<BsType>::empty().push(BsType::CurrentPayables).push(BsType::CurrentBorrowings).push(BsType::CurrentNotesPayable).push(BsType::OtherCurrentLiabilities), 7, p, q) == m.update(31, Some(p)).update(32, Some(p)).update(33, Some(p)).update(34, Some(p)));
        assert(walk_list(m, Seq::<BsType>::empty().push(BsType::CurrentPayables).push(BsType::CurrentBorrowings).push(BsType::CurrentNotesPayable).push(BsType::OtherCurrentLiabilities).push(BsType::InterestPayable), 7, p, q) == m.update(31, Some(p)).update(32, Some(p)).update(33, Some(p)).update(34, Some(p)).update(35, Some(p)));
        assert(walk_list(m, Seq::<BsType>::empty().push(BsType::CurrentPayables).push(BsType::CurrentBorrowings).push(BsType::CurrentNotesPayable).push(BsType::OtherCurrentLiabilities).push(BsType::InterestPayable).push(BsType::CurrentProvisions), 7, p, q) == m.update(31, Some(p)).update(32, Some(p)).update(33, Some(p)).update(34, Some(p)).update(35, Some(p)).update(36, Some(p)));
        assert(walk_list(m, Seq::<BsType>::empty().push(BsType::CurrentPayables).push(BsType::CurrentBorrowings).push(BsType::CurrentNotesPayable).push(BsType::OtherCurrentLiabilities).push(BsType::InterestPayable).push(BsType::CurrentProvisions).push(BsType::CurrentTaxPayables), 7, p, q) == m.update(31, Some(p)).update(32, Some(p)).update(33, Some(p)).update(34, Some(p)).update(35, Some(p)).update(36, Some(p)).update(37, Some(p)));
        assert(walk_list(m, Seq::<BsType>::empty().push(BsType::CurrentPayables).push(BsType::CurrentBorrowings).push(BsType::CurrentNotesPayable).push(BsType::OtherCurrentLiabilities).push(BsType::InterestPayable).push(BsType::CurrentProvisions).push(BsType::CurrentTaxPayables).push(BsType::LiabilitiesSaleAssets), 7, p, q) == m.update(31, Some(p)).update(32, Some(p)).update(33, Some(p)).update(34, Some(p)).update(35, Some(p)).update(36, Some(p)).update(37, Some(p)).update(38, Some(p)));
        assert(walk_list(m, Seq::<BsType>::empty().push(BsType::CurrentPayables).push(BsType::CurrentBorrowings).push(BsType::CurrentNotesPayable).push(BsType::OtherCurrentLiabilities).push(BsType::InterestPayable).push(BsType::CurrentProvisions).push(BsType::CurrentTaxPayables).push(BsType::LiabilitiesSaleAssets).push(BsType::CurrentLeasesLiability), 7, p, q) == m.update(31, Some(p)).update(32, Some(p)).update(33, Some(p)).update(34, Some(p)).update(35, Some(p)).update(36, Some(p)).update(37, Some(p)).update(38, Some(p)).update(39, Some(p)));
        assert(walk_rule(m, 7, p, q) == walk_list(walk_list(m, Seq::<BsType>::empty().push(BsType::CurrentPayables).push(BsType::CurrentBorrowings).push(BsType::CurrentNotesPayable).push(BsType::OtherCurrentLiabilities).push(BsType::InterestPayable).push(BsType::CurrentProvisions).push(BsType::CurrentTaxPayables).push(BsType::LiabilitiesSaleAssets).push(BsType::CurrentLeasesLiability), 7, p, q), Seq::<BsType>::empty(), 7, q, p));
    }
}

proof fn lemma_walk_rule_8()
    ensures
        forall|m: Polarities, p: BalanceSheetEntry, q: BalanceSheetEntry|
            m.len() == BsType::count() ==> #[trigger] walk_rule(m, 8, p, q) == m.update(41, Some(p)).update(42, Some(p)).update(43, Some(p)).update(44, Some(p)).update(45, Some(p)).update(46, Some(p)).update(47, Some(p)).update(48, Some(p)).update(49, Some(p)).update(50, Some(p)).update(51, Some(p)).update(52, Some(p)),
{
    assert forall|m: Polarities, p: BalanceSheetEntry, q: BalanceSheetEntry|
        m.len() == BsType::count() implies #[trigger] walk_rule(m, 8, p, q) == m.update(41, Some(p)).update(42, Some(p)).update(43, Some(p)).update(44, Some(p)).update(45, Some(p)).update(46, Some(p)).update(47, Some(p)).update(48, Some(p)).update(49, Some(p)).update(50, Some(p)).update(51, Some(p)).update(52, Some(p)) by {
        lemma_walk_list_push();
        let r = BsType::rule_spec(8);
        assert(r.pos =~= Seq::<BsType>::empty().push(BsType::AccountPayables).push(BsType::LongTermBorrowings).push(BsType::BondsPayable).push(BsType::DeferredTaxLiabilities).push(BsType::LongTermLeasesLiability).push(BsType::DeferredCompensation).push(BsType::DeferredRevenues).push(BsType::CustomerDeposits).push(BsType::OtherLongTermLiabilities).push(BsType::PensionProvision).push(BsType::TaxProvision).push(BsType::LongTermProvision));
        assert(r.neg =~= Seq::<BsType>::empty());
        assert(walk_list(m, Seq::<BsType>::empty().push(BsType::AccountPayables), 8, p, q) == m.update(41, Some(p)));
        assert(walk_list(m, Seq::<BsType>::empty().push(BsType::AccountPayables).push(BsType::LongTermBorrowings), 8, p, q) == m.update(41, Some(p)).update(42, Some(p)));
        assert(walk_list(m, Seq::<BsType>::empty().push(BsType::AccountPayables).push(BsType::LongTermBorrowings).push(BsType::BondsPayable), 8, p, q) == m.update(41, Some(p)).update(42, Some(p)).update(43, Some(p)));
        assert(walk_list(m, Seq::<BsType>::empty().push(BsType::AccountPayables).push(BsType::LongTermBorrowings).push(BsType::BondsPayable).push(BsType::DeferredTaxLiabilities), 8, p, q) == m.update(41, Some(p)).update(42, Some(p)).update(43, Some(p)).update(44, Some(p)));
        assert(walk_list(m, Seq::<BsType>::empty().push(BsType::AccountPayables).push(BsType::LongTermBorrowings).push(BsType::BondsPayable).push(BsType::DeferredTaxLiabilities).push(BsType::LongTermLeasesLiability), 8, p, q) == m.update(41, Some(p)).update(42, Some(p)).update(43, Some(p)).update(44, Some(p)).update(45, Some(p)));
        assert(walk_list(m, Seq::<BsType>::empty().push(BsType::AccountPayables).push(BsType::LongTermBorrowings).push(BsType::BondsPayable).push(BsType::DeferredTaxLiabilities).push(BsType::LongTermLeasesLiability).push(BsType::DeferredCompensation), 8, p, q) == m.update(41, Some(p)).update(42, Some(p)).update(43, Some(p)).update(44, Some(p)).update(45, Some(p)).update(46, Some(p)));
        assert(walk_list(m, Seq::<BsType>::empty().push(BsType::AccountPayables).push(BsType::LongTermBorrowings).push(BsType::BondsPayable).push(BsType::DeferredTaxLiabilities).push(BsType::LongTermLeasesLiability).push(BsType::DeferredCompensation).push(BsType::DeferredRevenues), 8, p, q) == m.update(41, Some(p)).update(42, Some(p)).update(43, Some(p)).update(44, Some(p)).update(45, Some(p)).update(46, Some(p)).update(47, Some(p)));
        assert(walk_list(m, Seq::<BsType>::empty().push(BsType::AccountPayables).push(BsType::LongTermBorrowings).push(BsType::BondsPayable).push(BsType::DeferredTaxLiabilities).push(BsType::LongTermLeasesLiability).push(BsType::DeferredCompensation).push(BsType::DeferredRevenues).push(BsType::CustomerDeposits), 8, p, q) == m.update(41, Some(p)).update(42, Some(p)).update(43, Some(p)).update(44, Some(p)).update(45, Some(p)).update(46, Some(p)).update(47, Some(p)).update(48, Some(p)));
        assert(walk_list(m, Seq::<BsType>::empty().push(BsType::AccountPayables).push(BsType::LongTermBorrowings).push(BsType::BondsPayable).push(BsType::DeferredTaxLiabilities).push(BsType::LongTermLeasesLiability).push(BsType::DeferredCompensation).push(BsType::DeferredRevenues).push(BsType::CustomerDeposits).push(BsType::OtherLongTermLiabilities), 8, p, q) == m.update(41, Some(p)).update(42, Some(p)).update(43, Some(p)).update(44, Some(p)).update(45, Some(p)).update(46, Some(p)).update(47, Some(p)).update(48, Some(p)).update(49, Some(p)));
        assert(walk_list(m, Seq::<BsType>::empty().push(BsType::AccountPayables).push(BsType::LongTermBorrowings).push(BsType::BondsPayable).push(BsType::DeferredTaxLiabilities).push(BsType::LongTermLeasesLiability).push(BsType::DeferredCompensation).push(BsType::DeferredRevenues).push(BsType::CustomerDeposits).push(BsType::OtherLongTermLiabilities).push(BsType::PensionProvision), 8, p, q) == m.update(41, Some(p)).update(42, Some(p)).update(43, Some(p)).update(44, Some(p)).update(45, Some(p)).update(46, Some(p)).update(47, Some(p)).update(48, Some(p)).update(49, Some(p)).update(50, Some(p)));
        assert(walk_list(m, Seq::<BsType>::empty().push(BsType::AccountPayables).push(BsType::LongTermBorrowings).push(BsType::BondsPayable).push(BsType::DeferredTaxLiabilities).push(BsType::LongTermLeasesLiability).push(BsType::DeferredCompensation).push(BsType::DeferredRevenues).push(BsType::CustomerDeposits).push(BsType::OtherLongTermLiabilities).push(BsType::PensionProvision).push(BsType::TaxProvision), 8, p, q) == m.update(41, Some(p)).update(42, Some(p)).update(43, Some(p)).update(44, Some(p)).update(45, Some(p)).update(46, Some(p)).update(47, Some(p)).update(48, Some(p)).update(49, Some(p)).update(50, Some(p)).update(51, Some(p)));
        assert(walk_list(m, Seq::<BsType>::empty().push(BsType::AccountPayables).push(BsType::LongTermBorrowings).push(BsType::BondsPayable).push(BsType::DeferredTaxLiabilities).push(BsType::LongTermLeasesLiability).push(BsType::DeferredCompensation).push(BsType::DeferredRevenues).push(BsType::CustomerDeposits).push(BsType::OtherLongTermLiabilities).push(BsType::PensionProvision).push(BsType::TaxProvision).push(BsType::LongTermProvision), 8, p, q) == m.update(41, Some(p)).update(42, Some(p)).update(43, Some(p)).update(44, Some(p)).update(45, Some(p)).update(46, Some(p)).update(47, Some(p)).update(48, Some(p)).update(49, Some(p)).update(50, Some(p)).update(51, Some(p)).update(52, Some(p)));
        assert(walk_rule(m, 8, p, q) == walk_list(walk_list(m, Seq::<BsType>::empty().push(BsType::AccountPayables).push(BsType::LongTermBorrowings).push(BsType::BondsPayable).push(BsType::DeferredTaxLiabilities).push(BsType::LongTermLeasesLiability).push(BsType::DeferredCompensation).push(BsType::DeferredRevenues).push(BsType::CustomerDeposits).push(BsType::OtherLongTermLiabilities).push(BsType::PensionProvision).push(BsType::TaxProvision).push(BsType::LongTermProvision), 8, p, q), Seq::<BsType>::empty(), 8, q, p));
    }
}

proof fn lemma_walk_rule_9()
    ensures
        forall|m: Polarities, p: BalanceSheetEntry, q: BalanceSheetEntry|
            m.len() == BsType::count() ==> #[trigger] walk_rule(m, 9, p, q) == m.update(31, Some(p)).update(32, Some(p)).update(33, Some(p)).update(34, Some(p)).update(35, Some(p)).update(36, Some(p)).update(37, Some(p)).update(38, Some(p)).update(39, Some(p)).update(41, Some(p)).update(42, Some(p)).update(43, Some(p)).update(44, Some(p)).update(45, Some(p)).update(46, Some(p)).update(47, Some(p)).update(48, Some(p)).update(49, Some(p)).update(50, Some(p)).update(51, Some(p)).update(52, Some(p)),
{
    assert forall|m: Polarities, p: BalanceSheetEntry, q: BalanceSheetEntry|
        m.len() == BsType::count() implies #[trigger] walk_rule(m, 9, p, q) == m.update(31, Some(p)).update(32, Some(p)).update(33, Some(p)).update(34, Some(p)).update(35, Some(p)).update(36, Some(p)).update(37, Some(p)).update(38, Some(p)).update(39, Some(p)).update(41, Some(p)).update(42, Some(p)).update(43, Some(p)).update(44, Some(p)).update(45, Some(p)).update(46, Some(p)).update(47, Some(p)).update(48, Some(p)).update(49, Some(p)).update(50, Some(p)).update(51, Some(p)).update(52, Some(p)) by {
        lemma_walk_list_push();
        lemma_walk_rule_7();
        lemma_walk_rule_8();
        let r = BsType::rule_spec(9);
        assert(r.pos =~= Seq::<BsType>::empty().push(BsType::CurrentLiabilities).push(BsType::LongTermLiabilities));
        assert(r.neg =~= Seq::<BsType>::empty());
        assert(walk_list(m, Seq::<BsType>::empty().push(BsType::CurrentLiabilities), 9, p, q) == m.update(31, Some(p)).update(32, Some(p)).update(33, Some(p)).update(34, Some(p)).update(35, Some(p)).update(36, Some(p)).update(37, Some(p)).update(38, Some(p)).update(39, Some(p)));
        assert(walk_list(m, Seq::<BsType>::empty().push(BsType::CurrentLiabilities).push(BsType::LongTermLiabilities), 9, p, q) == m.update(31, Some(p)).update(32, Some(p)).update(33, Some(p)).update(34, Some(p)).update(35, Some(p)).update(36, Some(p)).update(37, Some(p)).update(38, Some(p)).update(39, Some(p)).update(41, Some(p)).update(42, Some(p)).update(43, Some(p)).update(44, Some(p)).update(45, Some(p)).update(46, Some(p)).update(47, Some(p)).update(48, Some(p)).update(49, Some(p)).update(50, Some(p)).update(51, Some(p)).update(52, Some(p)));
        assert(walk_rule(m, 9, p, q) == walk_list(walk_list(m, Seq::<BsType>::empty().push(BsType::CurrentLiabilities).push(BsType::LongTermLiabilities), 9, p, q), Seq::<BsType>::empty(), 9, q, p));
    }
}

proof fn lemma_walk_rule_10()
    ensures
        forall|m: Polarities, p: BalanceSheetEntry, q: BalanceSheetEntry|
            m.len() == BsType::count() ==> #[trigger] walk_rule(m, 10, p, q) == m.update(55, Some(p)).update(56, Some(p)).update(57, Some(p)).update(58, Some(p)).update(59, Some(p)).update(60, Some(p)).update(61, Some(p)).update(62, Some(p)).update(63, Some(p)),
{
    assert forall|m: Polarities, p: BalanceSheetEntry, q: BalanceSheetEntry|
        m.len() == BsType::count() implies #[trigger] walk_rule(m, 10, p, q) == m.update(55, Some(p)).update(56, Some(p)).update(57, Some(p)).update(58, Some(p)).update(59, Some(p)).update(60, Some(p)).update(61, Some(p)).update(62, Some(p)).update(63, Some(p)) by {
        lemma_walk_list_push();
        let r = BsType::rule_spec(10);
        assert(r.pos =~= Seq::<BsType>::empty().push(BsType::CommonStock).push(BsType::PreferredStock).push(BsType::PdInCapAbovePar).push(BsType::PdInCapTreasuryStock).push(BsType::RevaluationReserves).push(BsType::Reserves).push(BsType::RetainedEarnings).push(BsType::AccumulatedOCI).push(BsType::MinorityInterests));
        assert(r.neg =~= Seq::<BsType>::empty());
        assert(walk_list(m, Seq::<BsType>::empty().push(BsType::CommonStock), 10, p, q) == m.update(55, Some(p)));
        assert(walk_list(m, Seq::<BsType>::empty().push(BsType::CommonStock).push(BsType::PreferredStock), 10, p, q) == m.update(55, Some(p)).update(56, Some(p)));
        assert(walk_list(m, Seq::<BsType>::empty().push(BsType::CommonStock).push(BsType::PreferredStock).push(BsType::PdInCapAbovePar), 10, p, q) == m.update(55, Some(p)).update(56, Some(p)).update(57, Some(p)));
        assert(walk_list(m, Seq::<BsType>::empty().push(BsType::CommonStock).push(BsType::PreferredStock).push(BsType::PdInCapAbovePar).push(BsType::PdInCapTreasuryStock), 10, p, q) == m.update(55, Some(p)).update(56, Some(p)).update(57, Some(p)).update(58, Some(p)));
        assert(walk_list(m, Seq::<BsType>::empty().push(BsType::CommonStock).push(BsType::PreferredStock).push(BsType::PdInCapAbovePar).push(BsType::PdInCapTreasuryStock).push(BsType::RevaluationReserves), 10, p, q) == m.update(55, Some(p)).update(56, Some(p)).update(57, Some(p)).update(58, Some(p)).update(59, Some(p)));
        assert(walk_list(m, Seq::<BsType>::empty().push(BsType::CommonStock).push(BsType::PreferredStock).push(BsType::PdInCapAbovePar).push(BsType::PdInCapTreasuryStock).push(BsType::RevaluationReserves).push(BsType::Reserves), 10, p, q) == m.update(55, Some(p)).update(56, Some(p)).update(57, Some(p)).update(58, Some(p)).update(59, Some(p)).update(60, Some(p)));
        assert(walk_list(m, Seq::<BsType>::empty().push(BsType::CommonStock).push(BsType::PreferredStock).push(BsType::PdInCapAbovePar).push(BsType::PdInCapTreasuryStock).push(BsType::RevaluationReserves).push(BsType::Reserves).push(BsType::RetainedEarnings), 10, p, q) == m.update(55, Some(p)).update(56, Some(p)).update(57, Some(p)).update(58, Some(p)).update(59, Some(p)).update(60, Some(p)).update(61, Some(p)));
        assert(walk_list(m, Seq::<BsType>::empty().push(BsType::CommonStock).push(BsType::PreferredStock).push(BsType::PdInCapAbovePar).push(BsType::PdInCapTreasuryStock).push(BsType::RevaluationReserves).push(BsType::Reserves).push(BsType::RetainedEarnings).push(BsType::AccumulatedOCI), 10, p, q) == m.update(55, Some(p)).update(56, Some(p)).update(57, Some(p)).update(58, Some(p)).update(59, Some(p)).update(60, Some(p)).update(61, Some(p)).update(62, Some(p)));
        assert(walk_list(m, Seq::<BsType>::empty().push(BsType::CommonStock).push(BsType::PreferredStock).push(BsType::PdInCapAbovePar).push(BsType::PdInCapTreasuryStock).push(BsType::RevaluationReserves).push(BsType::Reserves).push(BsType::RetainedEarnings).push(BsType::AccumulatedOCI).push(BsType::MinorityInterests), 10, p, q) == m.update(55, Some(p)).update(56, Some(p)).update(57, Some(p)).update(58, Some(p)).update(59, Some(p)).update(60, Some(p)).update(61, Some(p)).update(62, Some(p)).update(63, Some(p)));
        assert(walk_rule(m, 10, p, q) == walk_list(walk_list(m, Seq::<BsType>::empty().push(BsType::CommonStock).push(BsType::PreferredStock).push(BsType::PdInCapAbovePar).push(BsType::PdInCapTreasuryStock).push(BsType::RevaluationReserves).push(BsType::Reserves).push(BsType::RetainedEarnings).push(BsType::AccumulatedOCI).push(BsType::MinorityInterests), 10, p, q), Seq::<BsType>::empty(), 10, q, p));
    }
}

/// Polarity of each balance-sheet item, item by item: every entered item
/// under assets is an asset entry except the accumulated depreciation and
/// amortisation items, which are contra-assets; liabilities and equity items
/// are liability and equity entries; calculated items have none.
pub open spec fn polarity_of(k: BsType) -> Option<BalanceSheetEntry> {
    match k {
        BsType::Cash => Some(BalanceSheetEntry::AssetEntry),
        BsType::CurrentReceivables => Some(BalanceSheetEntry::AssetEntry),
        BsType::CurrentLoans => Some(BalanceSheetEntry::AssetEntry),
        BsType::CurrentAdvances => Some(BalanceSheetEntry::AssetEntry),
        BsType::OtherCurrentAssets => Some(BalanceSheetEntry::AssetEntry),
        BsType::CurrentInvestments => Some(BalanceSheetEntry::AssetEntry),
        BsType::RawMaterials => Some(BalanceSheetEntry::AssetEntry),
        BsType::WorkInProgress => Some(BalanceSheetEntry::AssetEntry),
        BsType::FinishedGoods => Some(BalanceSheetEntry::AssetEntry),
        BsType::AccountReceivables => Some(BalanceSheetEntry::AssetEntry),
        BsType::LongTermLoanAssets => Some(BalanceSheetEntry::AssetEntry),
        BsType::LongTermAdvances => Some(BalanceSheetEntry::AssetEntry),
        BsType::LongTermInvestments => Some(BalanceSheetEntry::AssetEntry),
        BsType::OtherLongTermAssets => Some(BalanceSheetEntry::AssetEntry),
        BsType::PlantPropertyEquipment => Some(BalanceSheetEntry::AssetEntry),
        BsType::AccumulatedDepreciation => Some(BalanceSheetEntry::AssetContra),
        BsType::LeasingRentalAssets => Some(BalanceSheetEntry::AssetEntry),
        BsType::AccumulatedAmortizationLease => Some(BalanceSheetEntry::AssetContra),
        BsType::Goodwill => Some(BalanceSheetEntry::AssetEntry),
        BsType::CapitalWip => Some(BalanceSheetEntry::AssetEntry),
        BsType::OtherTangibleAssets => Some(BalanceSheetEntry::AssetEntry),
        BsType::IntangibleAssets => Some(BalanceSheetEntry::AssetEntry),
        BsType::IntangibleAssetsDevelopment => Some(BalanceSheetEntry::AssetEntry),
        BsType::AccumulatedAmortization => Some(BalanceSheetEntry::AssetContra),
        BsType::CurrentPayables => Some(BalanceSheetEntry::LiabilityEntry),
        BsType::CurrentBorrowings => Some(BalanceSheetEntry::LiabilityEntry),
        BsType::CurrentNotesPayable => Some(BalanceSheetEntry::LiabilityEntry),
        BsType::OtherCurrentLiabilities => Some(BalanceSheetEntry::LiabilityEntry),
        BsType::InterestPayable => Some(BalanceSheetEntry::LiabilityEntry),
        BsType::CurrentProvisions => Some(BalanceSheetEntry::LiabilityEntry),
        BsType::CurrentTaxPayables => Some(BalanceSheetEntry::LiabilityEntry),
        BsType::LiabilitiesSaleAssets => Some(BalanceSheetEntry::LiabilityEntry),
        BsType::CurrentLeasesLiability => Some(BalanceSheetEntry::LiabilityEntry),
        BsType::AccountPayables => Some(BalanceSheetEntry::LiabilityEntry),
        BsType::LongTermBorrowings => Some(BalanceSheetEntry::LiabilityEntry),
        BsType::BondsPayable => Some(BalanceSheetEntry::LiabilityEntry),
        BsType::DeferredTaxLiabilities => Some(BalanceSheetEntry::LiabilityEntry),
        BsType::LongTermLeasesLiability => Some(BalanceSheetEntry::LiabilityEntry),
        BsType::DeferredCompensation => Some(BalanceSheetEntry::LiabilityEntry),
        BsType::DeferredRevenues => Some(BalanceSheetEntry::LiabilityEntry),
        BsType::CustomerDeposits => Some(BalanceSheetEntry::LiabilityEntry),
        BsType::OtherLongTermLiabilities => Some(BalanceSheetEntry::LiabilityEntry),
        BsType::PensionProvision => Some(BalanceSheetEntry::LiabilityEntry),
        BsType::TaxProvision => Some(BalanceSheetEntry::LiabilityEntry),
        BsType::LongTermProvision => Some(BalanceSheetEntry::LiabilityEntry),
        BsType::CommonStock => Some(BalanceSheetEntry::EquityEntry),
        BsType::PreferredStock => Some(BalanceSheetEntry::EquityEntry),
        BsType::PdInCapAbovePar => Some(BalanceSheetEntry::EquityEntry),
        BsType::PdInCapTreasuryStock => Some(BalanceSheetEntry::EquityEntry),
        BsType::RevaluationReserves => Some(BalanceSheetEntry::EquityEntry),
        BsType::Reserves => Some(BalanceSheetEntry::EquityEntry),
        BsType::RetainedEarnings => Some(BalanceSheetEntry::EquityEntry),
        BsType::AccumulatedOCI => Some(BalanceSheetEntry::EquityEntry),
        BsType::MinorityInterests => Some(BalanceSheetEntry::EquityEntry),
        _ => None,
    }
}

/// The walked polarity table is the item-by-item one: every entered
/// balance-sheet item has a polarity, and calculated items have none.
pub proof fn lemma_polarity_table(k: BsType)
    ensures
        polarity(k) == polarity_of(k),
        k.rank() < 0 <==> polarity(k) is Some,
{
    let m0 = Seq::new(BsType::count(), |i: int| None::<BalanceSheetEntry>);
    lemma_walk_rule_6();
    lemma_walk_rule_9();
    lemma_walk_rule_10();
    let t = m0.update(0, Some(BalanceSheetEntry::AssetEntry)).update(1, Some(BalanceSheetEntry::AssetEntry)).update(2, Some(BalanceSheetEntry::AssetEntry)).update(3, Some(BalanceSheetEntry::AssetEntry)).update(4, Some(BalanceSheetEntry::AssetEntry)).update(5, Some(BalanceSheetEntry::AssetEntry)).update(7, Some(BalanceSheetEntry::AssetEntry)).update(8, Some(BalanceSheetEntry::AssetEntry)).update(9, Some(BalanceSheetEntry::AssetEntry)).update(11, Some(BalanceSheetEntry::AssetEntry)).update(12, Some(BalanceSheetEntry::AssetEntry)).update(13, Some(BalanceSheetEntry::AssetEntry)).update(14, Some(BalanceSheetEntry::AssetEntry)).update(15, Some(BalanceSheetEntry::AssetEntry)).update(16, Some(BalanceSheetEntry::AssetEntry)).update(17, Some(BalanceSheetEntry::AssetContra)).update(19, Some(BalanceSheetEntry::AssetEntry)).update(20, Some(BalanceSheetEntry::AssetContra)).update(22, Some(BalanceSheetEntry::AssetEntry)).update(23, Some(BalanceSheetEntry::AssetEntry)).update(24, Some(BalanceSheetEntry::AssetEntry)).update(25, Some(BalanceSheetEntry::AssetEntry)).update(26, Some(BalanceSheetEntry::AssetEntry)).update(27, Some(BalanceSheetEntry::AssetContra)).update(31, Some(BalanceSheetEntry::LiabilityEntry)).update(32, Some(BalanceSheetEntry::LiabilityEntry)).update(33, Some(BalanceSheetEntry::LiabilityEntry)).update(34, Some(BalanceSheetEntry::LiabilityEntry)).update(35, Some(BalanceSheetEntry::LiabilityEntry)).update(36, Some(BalanceSheetEntry::LiabilityEntry)).update(37, Some(BalanceSheetEntry::LiabilityEntry)).update(38, Some(BalanceSheetEntry::LiabilityEntry)).update(39, Some(BalanceSheetEntry::LiabilityEntry)).update(41, Some(BalanceSheetEntry::LiabilityEntry)).update(42, Some(BalanceSheetEntry::LiabilityEntry)).update(43, Some(BalanceSheetEntry::LiabilityEntry)).update(44, Some(BalanceSheetEntry::LiabilityEntry)).update(45, Some(BalanceSheetEntry::LiabilityEntry)).update(46, Some(BalanceSheetEntry::LiabilityEntry)).update(47, Some(BalanceSheetEntry::LiabilityEntry)).update(48, Some(BalanceSheetEntry::LiabilityEntry)).update(49, Some(BalanceSheetEntry::LiabilityEntry)).update(50, Some(BalanceSheetEntry::LiabilityEntry)).update(51, Some(BalanceSheetEntry::LiabilityEntry)).update(52, Some(BalanceSheetEntry::LiabilityEntry)).update(55, Some(BalanceSheetEntry::EquityEntry)).update(56, Some(BalanceSheetEntry::EquityEntry)).update(57, Some(BalanceSheetEntry::EquityEntry)).update(58, Some(BalanceSheetEntry::EquityEntry)).update(59, Some(BalanceSheetEntry::EquityEntry)).update(60, Some(BalanceSheetEntry::EquityEntry)).update(61, Some(BalanceSheetEntry::EquityEntry)).update(62, Some(BalanceSheetEntry::EquityEntry)).update(63, Some(BalanceSheetEntry::EquityEntry));
    assert(debit_table() =~= t);
    match k {
        BsType::Cash => {}
        BsType::CurrentReceivables => {}
        BsType::CurrentLoans => {}
        BsType::CurrentAdvances => {}
        BsType::OtherCurrentAssets => {}
        BsType::CurrentInvestments => {}
        BsType::Inventories => {}
        BsType::RawMaterials => {}
        BsType::WorkInProgress => {}
        BsType::FinishedGoods => {}
        BsType::CurrentAssets => {}
        BsType::AccountReceivables => {}
        BsType::LongTermLoanAssets => {}
        BsType::LongTermAdvances => {}
        BsType::LongTermInvestments => {}
        BsType::OtherLongTermAssets => {}
        BsType::PlantPropertyEquipment => {}
        BsType::AccumulatedDepreciation => {}
        BsType::NetPlantPropertyEquipment => {}
        BsType::LeasingRentalAssets => {}
        BsType::AccumulatedAmortizationLease => {}
        BsType::NetLeaseRentalAssets => {}
        BsType::Goodwill => {}
        BsType::CapitalWip => {}
        BsType::OtherTangibleAssets => {}
        BsType::IntangibleAssets => {}
        BsType::IntangibleAssetsDevelopment => {}
        BsType::AccumulatedAmortization => {}
        BsType::NetIntangibleAssets => {}
        BsType::LongTermAssets => {}
        BsType::Assets => {}
        BsType::CurrentPayables => {}
        BsType::CurrentBorrowings => {}
        BsType::CurrentNotesPayable => {}
        BsType::OtherCurrentLiabilities => {}
        BsType::InterestPayable => {}
        BsType::CurrentProvisions => {}
        BsType::CurrentTaxPayables => {}
        BsType::LiabilitiesSaleAssets => {}
        BsType::CurrentLeasesLiability => {}
        BsType::CurrentLiabilities => {}
        BsType::AccountPayables => {}
        BsType::LongTermBorrowings => {}
        BsType::BondsPayable => {}
        BsType::DeferredTaxLiabilities => {}
        BsType::LongTermLeasesLiability => {}
        BsType::DeferredCompensation => {}
        BsType::DeferredRevenues => {}
        BsType::CustomerDeposits => {}
        BsType::OtherLongTermLiabilities => {}
        BsType::PensionProvision => {}
        BsType::TaxProvision => {}
        BsType::LongTermProvision => {}
        BsType::LongTermLiabilities => {}
        BsType::Liabilities => {}
        BsType::CommonStock => {}
        BsType::PreferredStock => {}
        BsType::PdInCapAbovePar => {}
        BsType::PdInCapTreasuryStock => {}
        BsType::RevaluationReserves => {}
        BsType::Reserves => {}
        BsType::RetainedEarnings => {}
        BsType::AccumulatedOCI => {}
        BsType::MinorityInterests => {}
        BsType::Equity => {}
        BsType::BalanceSheetCheck => {}
    }
}


impl StatementMap<BsType> {
    /// Debit `val` to the entered item `typ`: its amount rises by `val` when a
    /// debit increases its polarity (asset entry, liability or equity contra)
    /// and falls by `val` otherwise.
    pub fn debit(&mut self, typ: BsType, val: i64)
        requires
            debit_ok(old(self)@, typ, val as int),
        ensures
            final(self)@ == debited(old(self)@, typ, val as int),
    {
        let e = debit_type(typ);
        match e {
            Some(BalanceSheetEntry::AssetEntry)
            | Some(BalanceSheetEntry::LiabilityContra)
            | Some(BalanceSheetEntry::EquityContra) => self.add(typ, val),
            _ => self.add(typ, -val),
        }
    }

    /// Credit `val` to the entered item `typ`: a debit of `-val`.
    pub fn credit(&mut self, typ: BsType, val: i64)
        requires
            debit_ok(old(self)@, typ, -val),
        ensures
            final(self)@ == credited(old(self)@, typ, val as int),
    {
        self.debit(typ, -val);
    }

    /// One balanced posting: debit `deb` and credit `crd` by `val`.
    pub fn transact(&mut self, trans: (BsType, BsType, i64))
        requires
            debit_ok(old(self)@, trans.0, trans.2 as int),
            debit_ok(debited(old(self)@, trans.0, trans.2 as int), trans.1, -trans.2),
        ensures
            final(self)@ == credited(
                debited(old(self)@, trans.0, trans.2 as int),
                trans.1,
                trans.2 as int,
            ),
    {
        let (deb, crd, val) = trans;
        self.debit(deb, val);
        self.credit(crd, val);
    }

    /// [`StatementMap::transact`] each posting of `trans`, in order.
    pub fn transact_series(&mut self, trans: Vec<(BsType, BsType, i64)>)
        requires
            transactions_ok(old(self)@, trans@),
        ensures
            final(self)@ == transacted_all(old(self)@, trans@),
    {
        let mut i: usize = 0;
        while i < trans.len()
            invariant
                i <= trans.len(),
                transactions_ok(old(self)@, trans@),
                self@ == transacted_all(old(self)@, trans@.take(i as int)),
            decreases trans.len() - i,
        {
            let t = trans[i];
            proof {
                let s1 = trans@.take(i + 1);
                assert(s1.drop_last() =~= trans@.take(i as int));
                assert(trans@[i as int] == s1.last());
                assert(trans@[i as int] == t);
            }
            self.transact(t);
            i += 1;
        }
        proof {
            assert(trans@.take(trans.len() as int) =~= trans@);
        }
    }
}

/// A debit followed by a credit of the same amount to the same item leaves
/// its amount where it was, and every other item untouched.
pub proof fn lemma_debit_credit_round_trip(m: Map<BsType, int>, k: BsType, v: int)
    requires
        postable(k),
    ensures
        amount_of(credited(debited(m, k, v), k, v), k) == amount_of(m, k),
        credited(debited(m, k, v), k, v) == m.insert(k, amount_of(m, k)),
{
    assert(credited(debited(m, k, v), k, v) =~= m.insert(k, amount_of(m, k)));
}

/// Accounting identity: in a derived balance sheet the check item holds
/// `Assets - Liabilities - Equity` when that is material and is absent
/// otherwise; so where the check is absent the three balance to within the
/// materiality threshold.
pub proof fn lemma_balance_sheet_identity(m: Map<BsType, int>)
    ensures
        ({
            let f = derived(m);
            let gap = amount_of(f, BsType::Assets) - amount_of(f, BsType::Liabilities) - amount_of(
                f,
                BsType::Equity,
            );
            &&& f.contains_key(BsType::BalanceSheetCheck) == is_material(gap)
            &&& f.contains_key(BsType::BalanceSheetCheck) ==> f[BsType::BalanceSheetCheck] == gap
            &&& !f.contains_key(BsType::BalanceSheetCheck) ==> -MATERIALITY <= gap <= MATERIALITY
        }),
{
    let f = derived(m);
    lemma_rollup_consistent(m, 11);
    let r = BsType::rule_spec(11);
    assert(r.pos =~= seq![BsType::Assets]);
    assert(r.neg =~= seq![BsType::Liabilities, BsType::Equity]);
    assert(r.pos.last() == BsType::Assets);
    assert(r.pos.drop_last() =~= Seq::<BsType>::empty());
    assert(sum_of(f, Seq::<BsType>::empty()) == 0);
    assert(sum_of(f, r.pos) == amount_of(f, BsType::Assets));
    let n1 = r.neg.drop_last();
    assert(n1 =~= seq![BsType::Liabilities]);
    assert(r.neg.last() == BsType::Equity);
    assert(n1.last() == BsType::Liabilities);
    assert(n1.drop_last() =~= Seq::<BsType>::empty());
    assert(sum_of(f, n1) == amount_of(f, BsType::Liabilities));
    assert(sum_of(f, r.neg) == amount_of(f, BsType::Liabilities) + amount_of(f, BsType::Equity));
    assert(rule_value(f, r) == amount_of(f, BsType::Assets) - amount_of(f, BsType::Liabilities)
        - amount_of(f, BsType::Equity));
}

} // verus!
