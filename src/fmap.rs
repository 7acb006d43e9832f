//! Statement maps: amounts keyed by line item, with the operations shared by
//! the balance sheet, the profit-and-loss statement and the cash-flow statement.

use crate::rules::{lemma_idx_injective, FinType, LineItem, RuleView, MAX_CONTRIBUTORS};
use std::marker::PhantomData;
use vstd::prelude::*;

verus! {

/// Fixed-point scale: one currency unit (or a rate of 1.0) is `SCALE`.
pub const SCALE: i64 = 100_000;

/// Materiality threshold, in amount units (1e-5 of a currency unit).
/// Roll-up values whose magnitude does not exceed it are not stored.
pub const MATERIALITY: i64 = 1;

/// `v` is representable as an amount.
pub open spec fn fits(v: int) -> bool {
    i64::MIN <= v <= i64::MAX
}

/// `v` exceeds the materiality threshold in magnitude.
pub open spec fn is_material(v: int) -> bool {
    v > MATERIALITY || v < -MATERIALITY
}

/// Amount of `k` in `m`; an absent item counts as zero.
pub open spec fn amount_of<K>(m: Map<K, int>, k: K) -> int {
    if m.contains_key(k) {
        m[k]
    } else {
        0
    }
}

/// Sum of the amounts of `ks` in `m` (an item listed twice counts twice).
pub open spec fn sum_of<K>(m: Map<K, int>, ks: Seq<K>) -> int
    decreases ks.len(),
{
    if ks.len() == 0 {
        0
    } else {
        sum_of(m, ks.drop_last()) + amount_of(m, ks.last())
    }
}

/// Value of a rule over `m`: positive contributors minus negative ones.
pub open spec fn rule_value<T, K>(m: Map<K, int>, r: RuleView<T, K>) -> int {
    sum_of(m, r.pos) - sum_of(m, r.neg)
}

/// Store `v` at `k` when material, otherwise drop `k`.
pub open spec fn set_material<K>(m: Map<K, int>, k: K, v: int) -> Map<K, int> {
    if is_material(v) {
        m.insert(k, v)
    } else {
        m.remove(k)
    }
}

/// `m` after evaluating the first `n` rules of the table, in table order.
pub open spec fn rollup<K: FinType>(m: Map<K, int>, n: nat) -> Map<K, int>
    decreases n,
{
    if n == 0 {
        m
    } else {
        let prev = rollup(m, (n - 1) as nat);
        let r = K::rule_spec(n - 1);
        set_material(prev, r.target, rule_value(prev, r))
    }
}

/// `m` with every calculated item derived from the rest.
pub open spec fn derived<K: FinType>(m: Map<K, int>) -> Map<K, int> {
    rollup(m, K::n_rules())
}

/// Every value computed while deriving `m` is representable as an amount.
pub open spec fn rollup_fits<K: FinType>(m: Map<K, int>) -> bool {
    forall|i: int|
        #![trigger K::rule_spec(i)]
        0 <= i < K::n_rules() ==> fits(rule_value(rollup(m, i as nat), K::rule_spec(i)))
}

/// The entries of `m` whose amounts are material.
pub open spec fn material_part<K>(m: Map<K, int>) -> Map<K, int> {
    Map::new(|k: K| m.contains_key(k) && is_material(m[k]), |k: K| m[k])
}

/// The entered entries of `m` whose amounts are material.
pub open spec fn entered_part<K: FinType>(m: Map<K, int>) -> Map<K, int> {
    Map::new(|k: K| m.contains_key(k) && k.rank() < 0 && is_material(m[k]), |k: K| m[k])
}

/// `m` after replacing, in order, the amount of each listed item.
pub open spec fn upserted_all<K>(m: Map<K, int>, s: Seq<(K, i64)>) -> Map<K, int>
    decreases s.len(),
{
    if s.len() == 0 {
        m
    } else {
        upserted_all(m, s.drop_last()).insert(s.last().0, s.last().1 as int)
    }
}

/// `m` after adding, in order, each listed amount to its item.
pub open spec fn added_all<K>(m: Map<K, int>, s: Seq<(K, i64)>) -> Map<K, int>
    decreases s.len(),
{
    if s.len() == 0 {
        m
    } else {
        let prev = added_all(m, s.drop_last());
        prev.insert(s.last().0, amount_of(prev, s.last().0) + s.last().1)
    }
}

/// Every partial sum formed by adding `s` to `m` in order is representable.
#[verifier::opaque]
pub open spec fn adds_fit<K>(m: Map<K, int>, s: Seq<(K, i64)>) -> bool {
    forall|i: int|
        #![trigger s[i]]
        0 <= i < s.len() ==> fits(amount_of(added_all(m, s.take(i)), s[i].0) + s[i].1)
}

/// `a * b / SCALE`, rounded toward zero: a fixed-point product.
pub open spec fn scaled_product(a: int, b: int) -> int {
    let p = a * b;
    if p >= 0 {
        p / (SCALE as int)
    } else {
        -((-p) / (SCALE as int))
    }
}

/// `a * SCALE / b`, rounded toward zero: a fixed-point ratio.
pub open spec fn scaled_ratio(a: int, b: int) -> int {
    let p = a * SCALE;
    if (p >= 0) == (b > 0) {
        (if p >= 0 { p } else { -p }) / (if b > 0 { b } else { -b })
    } else {
        -((if p >= 0 { p } else { -p }) / (if b > 0 { b } else { -b }))
    }
}

/// `m` divided through by the amount at `anchor`.
pub open spec fn common_sized<K>(m: Map<K, int>, anchor: K) -> Map<K, int> {
    Map::new(|k: K| m.contains_key(k), |k: K| scaled_ratio(m[k], m[anchor]))
}

/// A slot after dropping an immaterial amount, or a calculated item when `entered_only`.
pub open spec fn kept_slot<K: FinType>(slot: Option<i64>, k: K, entered_only: bool) -> Option<i64> {
    match slot {
        Some(v) => if is_material(v as int) && !(entered_only && k.rank() >= 0) {
            Some(v)
        } else {
            None
        },
        None => None,
    }
}

/// `a * SCALE / b`, rounded toward zero.
pub fn fixed_ratio(a: i64, b: i64) -> (r: i128)
    requires
        b != 0,
    ensures
        r == scaled_ratio(a as int, b as int),
{
    proof {
        assert(-0x8000_0000_0000_0000 * 100_000 <= a * 100_000 <= 0x8000_0000_0000_0000 * 100_000)
            by (nonlinear_arith)
            requires
                -0x8000_0000_0000_0000 <= a < 0x8000_0000_0000_0000,
        ;
    }
    let p: i128 = a as i128 * SCALE as i128;
    let pa: u128 = if p >= 0 { p as u128 } else { (-p) as u128 };
    let ba: u128 = if b > 0 { b as u128 } else { (-(b as i128)) as u128 };
    let q: u128 = pa / ba;
    proof {
        assert(pa <= 0x8000_0000_0000_0000u128 * 100_000) by (nonlinear_arith)
            requires
                p == a * 100_000,
                pa == (if p >= 0 { p as int } else { -p }),
                -0x8000_0000_0000_0000 <= a < 0x8000_0000_0000_0000,
        ;
        assert(q <= pa) by (nonlinear_arith)
            requires
                q == pa / ba,
                ba >= 1,
        ;
    }
    if (p >= 0) == (b > 0) {
        q as i128
    } else {
        -(q as i128)
    }
}

/// `a * b / SCALE`, rounded toward zero.
pub fn fixed_product(a: i64, b: i64) -> (r: i128)
    ensures
        r == scaled_product(a as int, b as int),
        -0x4000_0000_0000_0000_0000_0000_0000 <= r <= 0x4000_0000_0000_0000_0000_0000_0000,
{
    proof {
        assert(-0x4000_0000_0000_0000_0000_0000_0000_0000 <= a * b <= 0x4000_0000_0000_0000_0000_0000_0000_0000)
            by (nonlinear_arith)
            requires
                -0x8000_0000_0000_0000 <= a < 0x8000_0000_0000_0000,
                -0x8000_0000_0000_0000 <= b < 0x8000_0000_0000_0000,
        ;
    }
    let p: i128 = a as i128 * b as i128;
    let pa: u128 = if p >= 0 { p as u128 } else { (-p) as u128 };
    let q: u128 = pa / (SCALE as u128);
    proof {
        assert(q <= 0x4000_0000_0000_0000_0000_0000_0000) by (nonlinear_arith)
            requires
                q == pa / 100_000,
                pa <= 0x4000_0000_0000_0000_0000_0000_0000_0000,
        ;
    }
    if p >= 0 {
        q as i128
    } else {
        -(q as i128)
    }
}

/// One more pair of `s` added to `m`.
proof fn lemma_added_step<K>(m: Map<K, int>, s: Seq<(K, i64)>, i: int)
    requires
        0 <= i < s.len(),
        adds_fit(m, s),
    ensures
        ({
            let prev = added_all(m, s.take(i));
            &&& fits(amount_of(prev, s[i].0) + s[i].1)
            &&& added_all(m, s.take(i + 1)) == prev.insert(s[i].0, amount_of(prev, s[i].0) + s[i].1)
        }),
{
    reveal(adds_fit);
    let s1 = s.take(i + 1);
    assert(s1.drop_last() =~= s.take(i));
    assert(s[i] == s1.last());
}

/// Changing an item that `ks` does not list leaves their sum alone.
pub proof fn lemma_sum_other<K>(m: Map<K, int>, ks: Seq<K>, k: K, v: int)
    requires
        forall|j: int| 0 <= j < ks.len() ==> ks[j] != k,
    ensures
        sum_of(m.insert(k, v), ks) == sum_of(m, ks),
        sum_of(m.remove(k), ks) == sum_of(m, ks),
    decreases ks.len(),
{
    if ks.len() > 0 {
        lemma_sum_other(m, ks.drop_last(), k, v);
    }
}

/// Setting the target of rule `j >= i` leaves the value of rule `i` alone.
proof fn lemma_rule_value_other<K: FinType>(m: Map<K, int>, i: int, j: int, v: int)
    requires
        0 <= i <= j < K::n_rules(),
    ensures
        rule_value(set_material(m, K::rule_spec(j).target, v), K::rule_spec(i)) == rule_value(
            m,
            K::rule_spec(i),
        ),
{
    K::lemma_rule(i);
    K::lemma_rule(j);
    let t = K::rule_spec(j).target;
    let r = K::rule_spec(i);
    assert forall|x: int| 0 <= x < r.pos.len() implies r.pos[x] != t by {
        assert(r.pos[x].rank() < i);
    }
    assert forall|x: int| 0 <= x < r.neg.len() implies r.neg[x] != t by {
        assert(r.neg[x].rank() < i);
    }
    lemma_sum_other(m, r.pos, t, v);
    lemma_sum_other(m, r.neg, t, v);
}

/// After the first `n` rules, the target of each rule `i < n` holds exactly
/// the rule's value over the result when material, and is absent otherwise.
pub proof fn lemma_rollup_prefix<K: FinType>(m: Map<K, int>, n: nat, i: int)
    requires
        0 <= i < n <= K::n_rules(),
    ensures
        ({
            let f = rollup(m, n);
            let s = rule_value(f, K::rule_spec(i));
            &&& f.contains_key(K::rule_spec(i).target) == is_material(s)
            &&& f.contains_key(K::rule_spec(i).target) ==> f[K::rule_spec(i).target] == s
        }),
    decreases n,
{
    let prev = rollup(m, (n - 1) as nat);
    let j = n - 1;
    let v = rule_value(prev, K::rule_spec(j));
    lemma_rule_value_other(prev, i, j, v);
    if i < j {
        lemma_rollup_prefix(m, (n - 1) as nat, i);
        K::lemma_rule(i);
        K::lemma_rule(j);
    }
}

/// Roll-up consistency: once every calculated item has been derived, each
/// one equals the signed sum of its contributors in the derived map whenever
/// that sum is material, is absent otherwise, and so never differs from the
/// sum by more than the materiality threshold.
pub proof fn lemma_rollup_consistent<K: FinType>(m: Map<K, int>, i: int)
    requires
        0 <= i < K::n_rules(),
    ensures
        ({
            let f = derived(m);
            let t = K::rule_spec(i).target;
            let s = rule_value(f, K::rule_spec(i));
            &&& f.contains_key(t) == is_material(s)
            &&& f.contains_key(t) ==> f[t] == s
            &&& -MATERIALITY <= amount_of(f, t) - s <= MATERIALITY
        }),
{
    lemma_rollup_prefix(m, K::n_rules(), i);
}

/// Deriving an already derived map changes nothing.
pub proof fn lemma_rollup_idempotent<K: FinType>(m: Map<K, int>)
    ensures
        derived(derived(m)) == derived(m),
{
    let f = derived(m);
    assert forall|i: int|
        #![trigger K::rule_spec(i)]
        0 <= i < K::n_rules() implies {
            let s = rule_value(f, K::rule_spec(i));
            &&& f.contains_key(K::rule_spec(i).target) == is_material(s)
            &&& f.contains_key(K::rule_spec(i).target) ==> f[K::rule_spec(i).target] == s
        } by {
        lemma_rollup_consistent(m, i);
    }
    lemma_rollup_fixed(f, K::n_rules());
}

proof fn lemma_rollup_fixed<K: FinType>(f: Map<K, int>, n: nat)
    requires
        n <= K::n_rules(),
        forall|i: int|
            #![trigger K::rule_spec(i)]
            0 <= i < K::n_rules() ==> {
                let s = rule_value(f, K::rule_spec(i));
                &&& f.contains_key(K::rule_spec(i).target) == is_material(s)
                &&& f.contains_key(K::rule_spec(i).target) ==> f[K::rule_spec(i).target] == s
            },
    ensures
        rollup(f, n) == f,
    decreases n,
{
    if n > 0 {
        lemma_rollup_fixed(f, (n - 1) as nat);
        let r = K::rule_spec(n - 1);
        let s = rule_value(f, r);
        if is_material(s) {
            assert(f.insert(r.target, s) =~= f);
        } else {
            assert(f.remove(r.target) =~= f);
        }
    }
}

/// Amounts keyed by line item `K`; an absent item means "not material".
///
/// Slot `i` of `vals` holds the amount of the item with dense index `i`;
/// slots past the end of `vals` are absent.
pub struct StatementMap<K> {
    vals: Vec<Option<i64>>,
    marker: PhantomData<K>,
}

/// Balance-sheet amounts at one date.
pub type BsMap = StatementMap<crate::items::BsType>;

/// Profit-and-loss amounts over one period.
pub type PlMap = StatementMap<crate::items::PlType>;

/// Cash-flow amounts over one period.
pub type CfMap = StatementMap<crate::items::CfType>;

/// Other per-period figures (tax rates, ratios), in the same fixed point.
pub type FinOthersMap = StatementMap<crate::items::FinOthersTyp>;

impl<K: LineItem> View for StatementMap<K> {
    type V = Map<K, int>;

    closed spec fn view(&self) -> Map<K, int> {
        Map::new(
            |k: K| (k.idx() as int) < self.vals.len() && self.vals@[k.idx() as int] is Some,
            |k: K| self.vals@[k.idx() as int]->Some_0 as int,
        )
    }
}

impl<K: LineItem> Clone for StatementMap<K> {
    fn clone(&self) -> (r: Self)
        ensures
            r@ == self@,
    {
        let mut vals: Vec<Option<i64>> = Vec::new();
        let mut j: usize = 0;
        while j < self.vals.len()
            invariant
                j <= self.vals.len(),
                vals@ == self.vals@.take(j as int),
            decreases self.vals.len() - j,
        {
            vals.push(self.vals[j]);
            proof {
                assert(vals@ =~= self.vals@.take(j + 1));
            }
            j += 1;
        }
        proof {
            assert(vals@ =~= self.vals@);
        }
        let r = StatementMap { vals, marker: PhantomData };
        assert(r@ =~= self@);
        r
    }
}

impl<K: LineItem> StatementMap<K> {
    /// An empty map.
    pub fn new() -> (r: Self)
        ensures
            r@ == Map::<K, int>::empty(),
    {
        let r = StatementMap { vals: Vec::new(), marker: PhantomData };
        assert(r@ =~= Map::<K, int>::empty());
        r
    }

    /// The stored amount of `k`, if any.
    pub fn get(&self, k: K) -> (r: Option<i64>)
        ensures
            r is Some == self@.contains_key(k),
            r is Some ==> r->Some_0 as int == self@[k],
    {
        let i = k.index();
        if i < self.vals.len() {
            self.vals[i]
        } else {
            None
        }
    }

    /// The amount of `k`; zero when absent.
    pub fn value(&self, k: K) -> (r: i64)
        ensures
            r as int == amount_of(self@, k),
    {
        match self.get(k) {
            Some(v) => v,
            None => 0,
        }
    }

    /// Make slot `i` exist without changing the map.
    fn reserve_slot(&mut self, i: usize)
        ensures
            final(self).vals.len() > i,
            final(self).vals.len() >= old(self).vals.len(),
            final(self)@ == old(self)@,
            forall|t: int|
                0 <= t < old(self).vals.len() ==> final(self).vals@[t] == old(self).vals@[t],
            forall|t: int|
                old(self).vals.len() <= t < final(self).vals.len() ==> final(self).vals@[t] is None,
    {
        while self.vals.len() <= i
            invariant
                self.vals.len() >= old(self).vals.len(),
                forall|t: int|
                    0 <= t < old(self).vals.len() ==> self.vals@[t] == old(self).vals@[t],
                forall|t: int| old(self).vals.len() <= t < self.vals.len() ==> self.vals@[t] is None,
            decreases i + 1 - self.vals.len(),
        {
            self.vals.push(None);
        }
        assert(self@ =~= old(self)@);
    }

    /// Store `v` at slot `i` (the dense index of `k`).
    fn put_slot(&mut self, k: K, v: Option<i64>)
        ensures
            v is Some ==> final(self)@ == old(self)@.insert(k, v->Some_0 as int),
            v is None ==> final(self)@ == old(self)@.remove(k),
    {
        let i = k.index();
        self.reserve_slot(i);
        let ghost mid = self@;
        self.vals.set(i, v);
        proof {
            assert forall|j: K| #[trigger] self@.contains_key(j) == (if v is Some {
                mid.insert(k, v->Some_0 as int).contains_key(j)
            } else {
                mid.remove(k).contains_key(j)
            }) by {
                lemma_idx_injective(j, k);
            }
            if v is Some {
                assert forall|j: K| #[trigger] self@.contains_key(j) implies self@[j] == mid.insert(
                    k,
                    v->Some_0 as int,
                )[j] by {
                    lemma_idx_injective(j, k);
                }
                assert(self@ =~= mid.insert(k, v->Some_0 as int));
            } else {
                assert forall|j: K| #[trigger] self@.contains_key(j) implies self@[j]
                    == mid.remove(k)[j] by {
                    lemma_idx_injective(j, k);
                }
                assert(self@ =~= mid.remove(k));
            }
        }
    }

    /// Store `v` at `k`, whatever kind of item `k` is (used to load stored
    /// statements; see [`StatementMap::upsert`] for the guarded form).
    pub fn insert(&mut self, k: K, v: i64)
        ensures
            final(self)@ == old(self)@.insert(k, v as int),
    {
        self.put_slot(k, Some(v));
    }

    /// Remove `k`.
    pub fn remove(&mut self, k: K)
        ensures
            final(self)@ == old(self)@.remove(k),
    {
        self.put_slot(k, None);
    }
    /// The stored entries, in item order.
    pub fn entries(&self) -> (r: Vec<(K, i64)>)
        ensures
            forall|i: int|
                0 <= i < r.len() ==> #[trigger] self@.contains_key(r@[i].0) && self@[r@[i].0]
                    == r@[i].1 as int,
            forall|k: K| #[trigger] self@.contains_key(k) ==> exists|i: int|
                0 <= i < r.len() && r@[i].0 == k,
    {
        let mut r: Vec<(K, i64)> = Vec::new();
        let n = if self.vals.len() < K::count_items() {
            self.vals.len()
        } else {
            K::count_items()
        };
        let mut j: usize = 0;
        while j < n
            invariant
                j <= n,
                n <= self.vals.len(),
                n <= K::count(),
                forall|i: int|
                    0 <= i < r.len() ==> #[trigger] self@.contains_key(r@[i].0) && self@[r@[i].0]
                        == r@[i].1 as int,
                forall|k: K|
                    #[trigger] self@.contains_key(k) && k.idx() < j ==> exists|i: int|
                        0 <= i < r.len() && r@[i].0 == k,
            decreases n - j,
        {
            let ghost r_old = r@;
            if let Some(v) = self.vals[j] {
                let k = K::from_index(j);
                proof {
                    K::lemma_from_index(j as nat);
                }
                r.push((k, v));
                proof {
                    assert(r@[r.len() - 1].0 == k);
                }
            }
            proof {
                assert forall|k: K|
                    #[trigger] self@.contains_key(k) && k.idx() < j + 1 implies exists|i: int|
                    0 <= i < r.len() && r@[i].0 == k by {
                    K::lemma_index(k);
                    if k.idx() == j {
                        assert(r@[r.len() - 1].0 == k);
                    } else {
                        let i0 = choose|i: int| 0 <= i < r_old.len() && r_old[i].0 == k;
                        assert(r@[i0] == r_old[i0]);
                    }
                }
            }
            j += 1;
        }
        proof {
            assert forall|k: K| #[trigger] self@.contains_key(k) implies exists|i: int|
                0 <= i < r.len() && r@[i].0 == k by {
                K::lemma_index(k);
            }
        }
        r
    }
}

impl<K: FinType> StatementMap<K> {
    /// Add `v` to the amount of the entered item `k` (inserting it when absent).
    pub fn add(&mut self, k: K, v: i64)
        requires
            k.rank() < 0,
            fits(amount_of(old(self)@, k) + v),
        ensures
            final(self)@ == old(self)@.insert(k, amount_of(old(self)@, k) + v),
    {
        let cur = self.value(k);
        self.insert(k, cur + v);
    }

    /// Set the amount of the entered item `k` to `v`.
    pub fn upsert(&mut self, k: K, v: i64)
        requires
            k.rank() < 0,
        ensures
            final(self)@ == old(self)@.insert(k, v as int),
    {
        self.insert(k, v);
    }

    /// [`StatementMap::add`] each pair of `x`, in order.
    pub fn add_vec(&mut self, x: &Vec<(K, i64)>)
        requires
            forall|i: int| 0 <= i < x.len() ==> (#[trigger] x@[i]).0.rank() < 0,
            adds_fit(old(self)@, x@),
        ensures
            final(self)@ == added_all(old(self)@, x@),
    {
        let mut i: usize = 0;
        while i < x.len()
            invariant
                i <= x.len(),
                forall|t: int| 0 <= t < x.len() ==> (#[trigger] x@[t]).0.rank() < 0,
                adds_fit(old(self)@, x@),
                self@ == added_all(old(self)@, x@.take(i as int)),
            decreases x.len() - i,
        {
            let (k, v) = x[i];
            proof {
                lemma_added_step(old(self)@, x@, i as int);
            }
            self.add(k, v);
            i += 1;
        }
        proof {
            assert(x@.take(x.len() as int) =~= x@);
        }
    }

    /// [`StatementMap::upsert`] each pair of `x`, in order; later pairs win.
    pub fn upsert_vec(&mut self, x: &Vec<(K, i64)>)
        requires
            forall|i: int| 0 <= i < x.len() ==> (#[trigger] x@[i]).0.rank() < 0,
        ensures
            final(self)@ == upserted_all(old(self)@, x@),
    {
        let mut i: usize = 0;
        while i < x.len()
            invariant
                i <= x.len(),
                forall|t: int| 0 <= t < x.len() ==> (#[trigger] x@[t]).0.rank() < 0,
                self@ == upserted_all(old(self)@, x@.take(i as int)),
            decreases x.len() - i,
        {
            let (k, v) = x[i];
            proof {
                assert(x@.take(i + 1).drop_last() =~= x@.take(i as int));
                assert(x@[i as int] == x@.take(i + 1).last());
            }
            self.upsert(k, v);
            i += 1;
        }
        proof {
            assert(x@.take(x.len() as int) =~= x@);
        }
    }

    /// Sum of the amounts of `ks`.
    pub fn sum_items(&self, ks: &Vec<K>) -> (r: i128)
        requires
            ks.len() <= MAX_CONTRIBUTORS,
        ensures
            r == sum_of(self@, ks@),
            -(ks.len() as int) * 0x8000_0000_0000_0000 <= r <= (ks.len() as int) * 0x8000_0000_0000_0000,
    {
        let mut acc: i128 = 0;
        let mut i: usize = 0;
        while i < ks.len()
            invariant
                i <= ks.len(),
                ks.len() <= MAX_CONTRIBUTORS,
                acc == sum_of(self@, ks@.take(i as int)),
                -(i as int) * 0x8000_0000_0000_0000 <= acc <= (i as int) * 0x8000_0000_0000_0000,
            decreases ks.len() - i,
        {
            let v = self.value(ks[i]);
            proof {
                assert(ks@.take(i + 1).drop_last() =~= ks@.take(i as int));
                assert(ks@[i as int] == ks@.take(i + 1).last());
            }
            acc = acc + v as i128;
            i += 1;
        }
        proof {
            assert(ks@.take(ks.len() as int) =~= ks@);
        }
        acc
    }

    /// Drop the immaterial entries, and the calculated ones too when `entered_only`.
    fn retain_material(&mut self, entered_only: bool)
        ensures
            entered_only ==> final(self)@ == entered_part(old(self)@),
            !entered_only ==> final(self)@ == material_part(old(self)@),
    {
        let n = self.vals.len();
        let count = K::count_items();
        let mut j: usize = 0;
        while j < n
            invariant
                j <= n,
                n == self.vals.len(),
                n == old(self).vals.len(),
                count == K::count(),
                forall|t: int|
                    j <= t < n ==> #[trigger] self.vals@[t] == old(self).vals@[t],
                forall|t: int|
                    0 <= t < j && t < count ==> #[trigger] self.vals@[t] == kept_slot(
                        old(self).vals@[t],
                        K::from_idx(t as nat),
                        entered_only,
                    ),
            decreases n - j,
        {
            if j < count {
                if let Some(v) = self.vals[j] {
                    let k = K::from_index(j);
                    if !(v > MATERIALITY || v < -MATERIALITY) || (entered_only && k.is_calc()) {
                        self.vals.set(j, None);
                    }
                }
            }
            j += 1;
        }
        proof {
            assert forall|k: K| #[trigger] self@.contains_key(k) == (if entered_only {
                entered_part(old(self)@).contains_key(k)
            } else {
                material_part(old(self)@).contains_key(k)
            }) by {
                K::lemma_index(k);
            }
            if entered_only {
                assert forall|k: K| #[trigger] self@.contains_key(k) implies self@[k]
                    == entered_part(old(self)@)[k] by {
                    K::lemma_index(k);
                }
                assert(self@ =~= entered_part(old(self)@));
            } else {
                assert forall|k: K| #[trigger] self@.contains_key(k) implies self@[k]
                    == material_part(old(self)@)[k] by {
                    K::lemma_index(k);
                }
                assert(self@ =~= material_part(old(self)@));
            }
        }
    }

    /// Strip every calculated item and every immaterial entry, leaving the
    /// material entered data.
    pub fn remove_calc_clean(&mut self)
        ensures
            final(self)@ == entered_part(old(self)@),
    {
        self.retain_material(true);
    }

    /// Remove the entries whose amounts are not material.
    pub fn clean(&mut self)
        ensures
            final(self)@ == material_part(old(self)@),
    {
        self.retain_material(false);
    }

    /// A common-size statement: every amount divided by the anchor item's
    /// (assets, revenue or net cash flow), as a fixed-point ratio.
    pub fn common_size(&self) -> (r: Self)
        requires
            self@.contains_key(K::anchor()),
            self@[K::anchor()] != 0,
            forall|k: K|
                #[trigger] self@.contains_key(k) ==> fits(
                    scaled_ratio(self@[k], self@[K::anchor()]),
                ),
        ensures
            r@ == common_sized(self@, K::anchor()),
    {
        let anchor = K::anchor_item();
        let base = self.value(anchor);
        let mut r = Self::new();
        let n = self.vals.len();
        let count = K::count_items();
        let mut j: usize = 0;
        while j < n
            invariant
                j <= n,
                n == self.vals.len(),
                count == K::count(),
                anchor == K::anchor(),
                base as int == self@[anchor],
                base != 0,
                forall|k: K|
                    #[trigger] self@.contains_key(k) ==> fits(
                        scaled_ratio(self@[k], self@[K::anchor()]),
                    ),
                r@ == Map::new(
                    |k: K| self@.contains_key(k) && k.idx() < j,
                    |k: K| scaled_ratio(self@[k], self@[anchor]),
                ),
            decreases n - j,
        {
            let ghost before = r@;
            if j < count {
                if let Some(v) = self.vals[j] {
                    let k = K::from_index(j);
                    proof {
                        K::lemma_from_index(j as nat);
                    }
                    let q = fixed_ratio(v, base);
                    r.insert(k, q as i64);
                }
            }
            proof {
                let target = Map::new(
                    |k: K| self@.contains_key(k) && k.idx() < j + 1,
                    |k: K| scaled_ratio(self@[k], self@[anchor]),
                );
                assert forall|k: K| #[trigger] r@.contains_key(k) == target.contains_key(k) by {
                    K::lemma_index(k);
                    if j < count {
                        K::lemma_from_index(j as nat);
                        lemma_idx_injective(k, K::from_idx(j as nat));
                    }
                }
                assert forall|k: K| #[trigger] r@.contains_key(k) implies r@[k] == target[k] by {
                    K::lemma_index(k);
                    if j < count {
                        K::lemma_from_index(j as nat);
                        lemma_idx_injective(k, K::from_idx(j as nat));
                    }
                }
                assert(r@ =~= target);
            }
            j += 1;
        }
        proof {
            assert forall|k: K| #[trigger] self@.contains_key(k) implies k.idx() < j by {
                K::lemma_index(k);
            }
            assert(r@ =~= common_sized(self@, K::anchor()));
        }
        r
    }

    /// Derive every calculated item from the entered ones, rule by rule in
    /// table order; a derived value that is not material is removed instead.
    pub fn calc_elements(&mut self)
        requires
            rollup_fits(old(self)@),
        ensures
            final(self)@ == derived(old(self)@),
    {
        let n = K::rule_count();
        let ghost m0 = self@;
        let mut i: usize = 0;
        while i < n
            invariant
                i <= n,
                n == K::n_rules(),
                rollup_fits(m0),
                self@ == rollup(m0, i as nat),
            decreases n - i,
        {
            let r = K::rule(i);
            proof {
                K::lemma_rule(i as int);
                assert(r@ == K::rule_spec(i as int));
            }
            let p = self.sum_items(&r.pos) - self.sum_items(&r.neg);
            assert(fits(rule_value(rollup(m0, i as nat), K::rule_spec(i as int))));
            let p = p as i64;
            if p > MATERIALITY || p < -MATERIALITY {
                self.insert(r.target, p);
            } else {
                self.remove(r.target);
            }
            i += 1;
        }
    }
}

} // verus!
