//! The multi-period account store: balance sheets keyed by date, and
//! profit-and-loss, cash-flow and other figures keyed by period.

use crate::cashflow::{
    calc_cash_flow, cash_flow_fits, depreciation_adjust, depreciation_tax_adjust,
    derived_cash_flow,
};
use crate::fmap::{
    amount_of, derived, entered_part, fits, fixed_product, rollup_fits, scaled_product, BsMap,
    CfMap, FinOthersMap, PlMap, StatementMap,
};
use crate::items::{BsType, CfType, FinOthersTyp, PlType};
use crate::rules::{FinType, LineItem};
use crate::Currency;
use vstd::prelude::*;

verus! {

/// Day number of a calendar date (proleptic Gregorian, 0001-01-01 is day 1),
/// or `None` when the date does not exist.
pub uninterp spec fn days_from_ce(year: i32, month: u32, day: u32) -> Option<i32>;

/// Relies on chrono's `NaiveDate::from_ymd_opt`, which is `None` for a month
/// or day out of range or a day the month does not have, and on
/// `Datelike::num_days_from_ce` for the day number of a valid date.
#[verifier::external_body]
fn ce_day_number(year: i32, month: u32, day: u32) -> (r: Option<i32>)
    ensures
        r == days_from_ce(year, month, day),
        month < 1 || month > 12 || day < 1 || day > 31 ==> r is None,
{
    chrono::NaiveDate::from_ymd_opt(year, month, day).map(|d| chrono::Datelike::num_days_from_ce(&d))
}

/// A calendar date, as its day number (0001-01-01 is day 1).
#[derive(Debug, Clone, Copy, PartialEq, Eq, Structural, PartialOrd, Ord, Hash)]
pub struct Date {
    pub days: i32,
}

impl Date {
    /// The date `year-month-day`, or `None` when it does not exist.
    pub fn from_ymd(year: i32, month: u32, day: u32) -> (r: Option<Date>)
        ensures
            r is Some == days_from_ce(year, month, day) is Some,
            r is Some ==> r->Some_0.days == days_from_ce(year, month, day)->Some_0,
    {
        match ce_day_number(year, month, day) {
            Some(days) => Some(Date { days }),
            None => None,
        }
    }
}

/// A (beginning, end) pair of dates.
pub type Period = (Date, Date);

/// Span, in days, above which a period counts as annual rather than quarterly.
pub const QUARTER_DAYS: i32 = 120;

/// A balance sheet at one date.
pub struct BalanceSheet {
    pub date: Date,
    pub items: BsMap,
}

/// A statement over one period.
pub struct PeriodStatement<K> {
    pub date_beg: Date,
    pub date_end: Date,
    pub items: StatementMap<K>,
}

/// A profit-and-loss statement over one period.
pub type ProfitLoss = PeriodStatement<PlType>;

/// A cash-flow statement over one period.
pub type CashFlow = PeriodStatement<CfType>;

/// Other figures (tax rates, ratios) over one period.
pub type FinOthers = PeriodStatement<FinOthersTyp>;

/// Position of the first balance sheet dated `d` in `s`, or -1.
pub open spec fn bs_pos(s: Seq<BalanceSheet>, d: Date) -> int
    decreases s.len(),
{
    if s.len() == 0 {
        -1
    } else {
        let p = bs_pos(s.drop_last(), d);
        if p >= 0 {
            p
        } else if s.last().date == d {
            s.len() - 1
        } else {
            -1
        }
    }
}

/// Position of the first statement over `(d0, d1)` in `s`, or -1.
pub open spec fn period_pos<K>(s: Seq<PeriodStatement<K>>, d0: Date, d1: Date) -> int
    decreases s.len(),
{
    if s.len() == 0 {
        -1
    } else {
        let p = period_pos(s.drop_last(), d0, d1);
        if p >= 0 {
            p
        } else if s.last().date_beg == d0 && s.last().date_end == d1 {
            s.len() - 1
        } else {
            -1
        }
    }
}

proof fn lemma_bs_pos(s: Seq<BalanceSheet>, d: Date, n: int)
    requires
        0 <= n <= s.len(),
        bs_pos(s.take(n), d) >= 0,
    ensures
        bs_pos(s, d) == bs_pos(s.take(n), d),
    decreases s.len(),
{
    if s.len() == n {
        assert(s.take(n) =~= s);
    } else {
        assert(s.drop_last().take(n) =~= s.take(n));
        lemma_bs_pos(s.drop_last(), d, n);
    }
}

/// A found position is in range and has the key.
pub proof fn lemma_bs_pos_valid(s: Seq<BalanceSheet>, d: Date)
    ensures
        bs_pos(s, d) < s.len(),
        bs_pos(s, d) >= 0 ==> s[bs_pos(s, d)].date == d,
        bs_pos(s, d) < 0 ==> forall|i: int| 0 <= i < s.len() ==> s[i].date != d,
    decreases s.len(),
{
    if s.len() > 0 {
        lemma_bs_pos_valid(s.drop_last(), d);
        assert forall|i: int| 0 <= i < s.len() - 1 implies s.drop_last()[i] == s[i] by {}
    }
}

proof fn lemma_period_pos<K>(s: Seq<PeriodStatement<K>>, d0: Date, d1: Date, n: int)
    requires
        0 <= n <= s.len(),
        period_pos(s.take(n), d0, d1) >= 0,
    ensures
        period_pos(s, d0, d1) == period_pos(s.take(n), d0, d1),
    decreases s.len(),
{
    if s.len() == n {
        assert(s.take(n) =~= s);
    } else {
        assert(s.drop_last().take(n) =~= s.take(n));
        lemma_period_pos(s.drop_last(), d0, d1, n);
    }
}

/// A found position is in range and has the key.
pub proof fn lemma_period_pos_valid<K>(s: Seq<PeriodStatement<K>>, d0: Date, d1: Date)
    ensures
        period_pos(s, d0, d1) < s.len(),
        period_pos(s, d0, d1) >= 0 ==> s[period_pos(s, d0, d1)].date_beg == d0 && s[period_pos(
            s,
            d0,
            d1,
        )].date_end == d1,
        period_pos(s, d0, d1) < 0 ==> forall|i: int|
            0 <= i < s.len() ==> !(s[i].date_beg == d0 && s[i].date_end == d1),
    decreases s.len(),
{
    if s.len() > 0 {
        lemma_period_pos_valid(s.drop_last(), d0, d1);
        assert forall|i: int| 0 <= i < s.len() - 1 implies s.drop_last()[i] == s[i] by {}
    }
}

/// Position of the first balance sheet dated `d`.
fn find_date(s: &Vec<BalanceSheet>, d: Date) -> (r: Option<usize>)
    ensures
        r is Some == (bs_pos(s@, d) >= 0),
        r is Some ==> r->Some_0 as int == bs_pos(s@, d),
{
    let mut i: usize = 0;
    while i < s.len()
        invariant
            i <= s.len(),
            bs_pos(s@.take(i as int), d) < 0,
        decreases s.len() - i,
    {
        proof {
            assert(s@.take(i + 1).drop_last() =~= s@.take(i as int));
        }
        if s[i].date == d {
            proof {
                lemma_bs_pos(s@, d, i + 1);
            }
            return Some(i);
        }
        i += 1;
    }
    proof {
        assert(s@.take(s.len() as int) =~= s@);
    }
    None
}

/// Position of the first statement over `(d0, d1)`.
fn find_period<K>(s: &Vec<PeriodStatement<K>>, d0: Date, d1: Date) -> (r: Option<usize>)
    ensures
        r is Some == (period_pos(s@, d0, d1) >= 0),
        r is Some ==> r->Some_0 as int == period_pos(s@, d0, d1),
{
    let mut i: usize = 0;
    while i < s.len()
        invariant
            i <= s.len(),
            period_pos(s@.take(i as int), d0, d1) < 0,
        decreases s.len() - i,
    {
        proof {
            assert(s@.take(i + 1).drop_last() =~= s@.take(i as int));
        }
        if s[i].date_beg == d0 && s[i].date_end == d1 {
            proof {
                lemma_period_pos(s@, d0, d1, i + 1);
            }
            return Some(i);
        }
        i += 1;
    }
    proof {
        assert(s@.take(s.len() as int) =~= s@);
    }
    None
}

/// The span of `(d0, d1)` exceeds a quarter: an annual period.
pub open spec fn is_annual(d0: Date, d1: Date) -> bool {
    d1.days - d0.days > QUARTER_DAYS
}

/// Periods of `s`, in order, that satisfy `annual == is_annual`.
pub open spec fn periods_where<K>(s: Seq<PeriodStatement<K>>, annual: bool) -> Seq<Period>
    decreases s.len(),
{
    if s.len() == 0 {
        Seq::empty()
    } else {
        let prev = periods_where(s.drop_last(), annual);
        if is_annual(s.last().date_beg, s.last().date_end) == annual {
            prev.push((s.last().date_beg, s.last().date_end))
        } else {
            prev
        }
    }
}

/// The dates that bound the periods of `s`.
pub open spec fn period_bounds<K>(s: Seq<PeriodStatement<K>>) -> Set<Date> {
    Set::new(
        |d: Date|
            exists|i: int|
                0 <= i < s.len() && ((#[trigger] s[i]).date_beg == d || s[i].date_end == d),
    )
}

/// `s` is strictly increasing: an ordered set of dates.
pub open spec fn dates_sorted(s: Seq<Date>) -> bool {
    forall|a: int, b: int| 0 <= a < b < s.len() ==> (#[trigger] s[a]).days < (#[trigger] s[b]).days
}

/// Every period of `s` begins no later than it ends.
pub open spec fn periods_ordered<K>(s: Seq<PeriodStatement<K>>) -> bool {
    forall|i: int| 0 <= i < s.len() ==> (#[trigger] s[i]).date_beg.days <= s[i].date_end.days
}

/// The view of an optional map.
pub open spec fn opt_view<K: LineItem>(o: Option<StatementMap<K>>) -> Option<Map<K, int>> {
    match o {
        Some(m) => Some(m@),
        None => None,
    }
}

/// The balance sheet dated `d` in `s`, if any.
pub open spec fn bs_at(s: Seq<BalanceSheet>, d: Date) -> Option<Map<BsType, int>> {
    if bs_pos(s, d) >= 0 {
        Some(s[bs_pos(s, d)].items@)
    } else {
        None
    }
}

/// The statement over `(d0, d1)` in `s`, if any.
pub open spec fn period_at<K: LineItem>(s: Seq<PeriodStatement<K>>, d0: Date, d1: Date) -> Option<
    Map<K, int>,
> {
    if period_pos(s, d0, d1) >= 0 {
        Some(s[period_pos(s, d0, d1)].items@)
    } else {
        None
    }
}

/// `after` holds the balance sheets of `before`, each map transformed by `f`.
pub open spec fn bs_mapped(
    before: Seq<BalanceSheet>,
    after: Seq<BalanceSheet>,
    f: spec_fn(Map<BsType, int>) -> Map<BsType, int>,
) -> bool {
    &&& after.len() == before.len()
    &&& forall|i: int|
        0 <= i < before.len() ==> (#[trigger] after[i]).date == before[i].date && after[i].items@
            == f(before[i].items@)
}

/// `after` holds the statements of `before`, each map transformed by `f`.
pub open spec fn periods_mapped<K: LineItem>(
    before: Seq<PeriodStatement<K>>,
    after: Seq<PeriodStatement<K>>,
    f: spec_fn(Map<K, int>) -> Map<K, int>,
) -> bool {
    &&& after.len() == before.len()
    &&& forall|i: int|
        0 <= i < before.len() ==> (#[trigger] after[i]).date_beg == before[i].date_beg
            && after[i].date_end == before[i].date_end && after[i].items@ == f(before[i].items@)
}

/// Every map of `s` can be derived within the amount range.
pub open spec fn bs_fit(s: Seq<BalanceSheet>) -> bool {
    forall|i: int| 0 <= i < s.len() ==> rollup_fits(#[trigger] s[i].items@)
}

/// Every map of `s` can be derived within the amount range.
pub open spec fn periods_fit<K: FinType>(s: Seq<PeriodStatement<K>>) -> bool {
    forall|i: int| 0 <= i < s.len() ==> rollup_fits(#[trigger] s[i].items@)
}

/// No two statements of `s` cover the same period.
pub open spec fn periods_unique<K>(s: Seq<PeriodStatement<K>>) -> bool {
    forall|i: int, j: int|
        0 <= i < j < s.len() ==> !((#[trigger] s[i]).date_beg == (#[trigger] s[j]).date_beg
            && s[i].date_end == s[j].date_end)
}

/// `m` with the three tax rates set.
pub open spec fn with_rates(m: Map<FinOthersTyp, int>, corp: int, gp: int, rev: int) -> Map<
    FinOthersTyp,
    int,
> {
    m.insert(FinOthersTyp::CorporateTaxRate, corp).insert(FinOthersTyp::GrossProfitTaxRate, gp).insert(
        FinOthersTyp::RevenueTaxRate,
        rev,
    )
}

/// The three tax rates are all present in `m`.
pub open spec fn has_rates(m: Map<FinOthersTyp, int>) -> bool {
    &&& m.contains_key(FinOthersTyp::CorporateTaxRate)
    &&& m.contains_key(FinOthersTyp::GrossProfitTaxRate)
    &&& m.contains_key(FinOthersTyp::RevenueTaxRate)
}

/// The current tax of a derived profit-and-loss statement: the greater of the
/// corporate tax on tax-adjusted earnings plus the gross-profit tax on EBITDA,
/// and the revenue tax (an alternative minimum tax). Missing rates count as zero.
pub open spec fn current_tax(pl: Map<PlType, int>, oth: Map<FinOthersTyp, int>) -> int {
    let on_earnings = scaled_product(
        amount_of(oth, FinOthersTyp::CorporateTaxRate),
        amount_of(pl, PlType::EBT) + depreciation_adjust(pl),
    ) + scaled_product(
        amount_of(oth, FinOthersTyp::GrossProfitTaxRate),
        amount_of(pl, PlType::EBITDA),
    );
    let on_revenue = scaled_product(
        amount_of(oth, FinOthersTyp::RevenueTaxRate),
        amount_of(pl, PlType::Revenue),
    );
    if on_earnings > on_revenue {
        on_earnings
    } else {
        on_revenue
    }
}

/// The derived cash flow of a period from its derived statements and its rates.
pub open spec fn period_cash_flow(
    b0: Map<BsType, int>,
    b1: Map<BsType, int>,
    pl: Map<PlType, int>,
    oth: Map<FinOthersTyp, int>,
) -> Map<CfType, int> {
    derived(
        derived_cash_flow(
            b0,
            b1,
            pl,
            oth[FinOthersTyp::CorporateTaxRate],
            oth[FinOthersTyp::GrossProfitTaxRate],
            oth[FinOthersTyp::RevenueTaxRate],
        ),
    )
}

/// The cash flow of a period can be derived: its rates are known and every
/// value formed stays in the amount range.
pub open spec fn cash_flow_ready(
    b0: Map<BsType, int>,
    b1: Map<BsType, int>,
    pl: Map<PlType, int>,
    oth: Option<Map<FinOthersTyp, int>>,
) -> bool {
    &&& oth is Some
    &&& has_rates(oth->Some_0)
    &&& fits(oth->Some_0[FinOthersTyp::CorporateTaxRate])
    &&& fits(oth->Some_0[FinOthersTyp::GrossProfitTaxRate])
    &&& fits(oth->Some_0[FinOthersTyp::RevenueTaxRate])
    &&& cash_flow_fits(b0, b1, pl, oth->Some_0[FinOthersTyp::CorporateTaxRate])
    &&& rollup_fits(
        derived_cash_flow(
            b0,
            b1,
            pl,
            oth->Some_0[FinOthersTyp::CorporateTaxRate],
            oth->Some_0[FinOthersTyp::GrossProfitTaxRate],
            oth->Some_0[FinOthersTyp::RevenueTaxRate],
        ),
    )
}

/// Statements of one period: the balance sheets at its beginning and end,
/// and its profit-and-loss, cash-flow and other figures.
pub struct FinancialReport {
    pub date_beg: Date,
    pub date_end: Date,
    pub balance_sheet_beg: Option<BsMap>,
    pub balance_sheet_end: Option<BsMap>,
    pub profit_loss: Option<PlMap>,
    pub cash_flow: Option<CfMap>,
    pub others: Option<FinOthersMap>,
}

fn clone_opt<K: LineItem>(o: &Option<StatementMap<K>>) -> (r: Option<StatementMap<K>>)
    ensures
        opt_view(r) == opt_view(*o),
{
    match o {
        Some(m) => Some(m.clone()),
        None => None,
    }
}

fn derive_opt<K: FinType>(o: &Option<StatementMap<K>>) -> (r: Option<StatementMap<K>>)
    requires
        o is Some ==> rollup_fits(o->Some_0@),
    ensures
        r is Some == o is Some,
        r is Some ==> r->Some_0@ == derived(o->Some_0@),
{
    match o {
        Some(m) => {
            let mut x = m.clone();
            x.calc_elements();
            Some(x)
        },
        None => None,
    }
}

impl FinancialReport {
    /// Assemble a report from its statements. The profit-and-loss statement
    /// sets the period; the result is `None` unless every other statement
    /// given has matching dates.
    pub fn from_statements(
        bs0: &Option<BalanceSheet>,
        bs1: &Option<BalanceSheet>,
        plx: &Option<ProfitLoss>,
        cf: &Option<CashFlow>,
        ft: &Option<FinOthers>,
    ) -> (r: Option<Self>)
        requires
            plx is Some,
        ensures
            ({
                let pl = plx->Some_0;
                let ok = (bs0 is Some ==> bs0->Some_0.date == pl.date_beg) && (bs1 is Some
                    ==> bs1->Some_0.date == pl.date_end) && (cf is Some ==> cf->Some_0.date_beg
                    == pl.date_beg && cf->Some_0.date_end == pl.date_end) && (ft is Some
                    ==> ft->Some_0.date_beg == pl.date_beg && ft->Some_0.date_end == pl.date_end);
                &&& r is Some == ok
                &&& r is Some ==> {
                    let x = r->Some_0;
                    &&& x.date_beg == pl.date_beg
                    &&& x.date_end == pl.date_end
                    &&& opt_view(x.profit_loss) == Some(pl.items@)
                    &&& opt_view(x.balance_sheet_beg) == (if bs0 is Some {
                        Some(bs0->Some_0.items@)
                    } else {
                        None
                    })
                    &&& opt_view(x.balance_sheet_end) == (if bs1 is Some {
                        Some(bs1->Some_0.items@)
                    } else {
                        None
                    })
                    &&& opt_view(x.cash_flow) == (if cf is Some {
                        Some(cf->Some_0.items@)
                    } else {
                        None
                    })
                    &&& opt_view(x.others) == (if ft is Some {
                        Some(ft->Some_0.items@)
                    } else {
                        None
                    })
                }
            }),
    {
        let pl = plx.as_ref().unwrap();
        let date_beg = pl.date_beg;
        let date_end = pl.date_end;
        let ok0 = match bs0 {
            Some(b) => b.date == date_beg,
            None => true,
        };
        let ok1 = match bs1 {
            Some(b) => b.date == date_end,
            None => true,
        };
        let okc = match cf {
            Some(c) => c.date_beg == date_beg && c.date_end == date_end,
            None => true,
        };
        let okf = match ft {
            Some(f) => f.date_beg == date_beg && f.date_end == date_end,
            None => true,
        };
        if ok0 && ok1 && okc && okf {
            let balance_sheet_beg = match bs0 {
                Some(b) => Some(b.items.clone()),
                None => None,
            };
            let balance_sheet_end = match bs1 {
                Some(b) => Some(b.items.clone()),
                None => None,
            };
            let cash_flow = match cf {
                Some(c) => Some(c.items.clone()),
                None => None,
            };
            let others = match ft {
                Some(f) => Some(f.items.clone()),
                None => None,
            };
            Some(
                FinancialReport {
                    date_beg,
                    date_end,
                    balance_sheet_beg,
                    balance_sheet_end,
                    profit_loss: Some(pl.items.clone()),
                    cash_flow,
                    others,
                },
            )
        } else {
            None
        }
    }

    /// Derive every statement of the report; when both balance sheets are
    /// present, the cash flow is derived anew from them, the profit-and-loss
    /// statement and the tax rates, and rolled up.
    pub fn calc_elements(&mut self)
        requires
            old(self).profit_loss is Some,
            rollup_fits(old(self).profit_loss->Some_0@),
            old(self).balance_sheet_beg is Some ==> rollup_fits(
                old(self).balance_sheet_beg->Some_0@,
            ),
            old(self).balance_sheet_end is Some ==> rollup_fits(
                old(self).balance_sheet_end->Some_0@,
            ),
            old(self).balance_sheet_beg is Some && old(self).balance_sheet_end is Some
                ==> cash_flow_ready(
                derived(old(self).balance_sheet_beg->Some_0@),
                derived(old(self).balance_sheet_end->Some_0@),
                derived(old(self).profit_loss->Some_0@),
                opt_view(old(self).others),
            ),
        ensures
            final(self).date_beg == old(self).date_beg,
            final(self).date_end == old(self).date_end,
            opt_view(final(self).others) == opt_view(old(self).others),
            opt_view(final(self).profit_loss) == Some(derived(old(self).profit_loss->Some_0@)),
            final(self).balance_sheet_beg is Some == old(self).balance_sheet_beg is Some,
            final(self).balance_sheet_beg is Some ==> final(self).balance_sheet_beg->Some_0@
                == derived(old(self).balance_sheet_beg->Some_0@),
            final(self).balance_sheet_end is Some == old(self).balance_sheet_end is Some,
            final(self).balance_sheet_end is Some ==> final(self).balance_sheet_end->Some_0@
                == derived(old(self).balance_sheet_end->Some_0@),
            final(self).cash_flow is Some == (old(self).balance_sheet_beg is Some
                && old(self).balance_sheet_end is Some),
            final(self).cash_flow is Some ==> final(self).cash_flow->Some_0@ == period_cash_flow(
                derived(old(self).balance_sheet_beg->Some_0@),
                derived(old(self).balance_sheet_end->Some_0@),
                derived(old(self).profit_loss->Some_0@),
                opt_view(old(self).others)->Some_0,
            ),
    {
        let pl = derive_opt(&self.profit_loss).unwrap();
        let b_beg = derive_opt(&self.balance_sheet_beg);
        let b_end = derive_opt(&self.balance_sheet_end);
        let cf = match (&b_beg, &b_end) {
            (Some(b0), Some(b1)) => {
                let oth = self.others.as_ref().unwrap();
                let corp = oth.get(FinOthersTyp::CorporateTaxRate).unwrap();
                let gp = oth.get(FinOthersTyp::GrossProfitTaxRate).unwrap();
                let rev = oth.get(FinOthersTyp::RevenueTaxRate).unwrap();
                let mut c = calc_cash_flow(b0, b1, &pl, corp, gp, rev);
                c.calc_elements();
                Some(c)
            },
            _ => None,
        };
        self.balance_sheet_beg = b_beg;
        self.balance_sheet_end = b_end;
        self.profit_loss = Some(pl);
        self.cash_flow = cf;
    }

    /// The beginning balance sheet, dated at the start of the period.
    pub fn balance_sheet_beg(&self) -> (r: Option<BalanceSheet>)
        ensures
            r is Some == self.balance_sheet_beg is Some,
            r is Some ==> r->Some_0.date == self.date_beg && r->Some_0.items@
                == self.balance_sheet_beg->Some_0@,
    {
        match &self.balance_sheet_beg {
            Some(m) => Some(BalanceSheet { date: self.date_beg, items: m.clone() }),
            None => None,
        }
    }

    /// The ending balance sheet, dated at the end of the period.
    pub fn balance_sheet_end(&self) -> (r: Option<BalanceSheet>)
        ensures
            r is Some == self.balance_sheet_end is Some,
            r is Some ==> r->Some_0.date == self.date_end && r->Some_0.items@
                == self.balance_sheet_end->Some_0@,
    {
        match &self.balance_sheet_end {
            Some(m) => Some(BalanceSheet { date: self.date_end, items: m.clone() }),
            None => None,
        }
    }

    /// The profit-and-loss statement over the period.
    pub fn profit_loss(&self) -> (r: Option<ProfitLoss>)
        ensures
            r is Some == self.profit_loss is Some,
            r is Some ==> r->Some_0.date_beg == self.date_beg && r->Some_0.date_end
                == self.date_end && r->Some_0.items@ == self.profit_loss->Some_0@,
    {
        match &self.profit_loss {
            Some(m) => Some(
                PeriodStatement { date_beg: self.date_beg, date_end: self.date_end, items: m.clone() },
            ),
            None => None,
        }
    }

    /// The cash-flow statement over the period.
    pub fn cash_flow(&self) -> (r: Option<CashFlow>)
        ensures
            r is Some == self.cash_flow is Some,
            r is Some ==> r->Some_0.date_beg == self.date_beg && r->Some_0.date_end
                == self.date_end && r->Some_0.items@ == self.cash_flow->Some_0@,
    {
        match &self.cash_flow {
            Some(m) => Some(
                PeriodStatement { date_beg: self.date_beg, date_end: self.date_end, items: m.clone() },
            ),
            None => None,
        }
    }

    /// The other figures over the period.
    pub fn fin_others(&self) -> (r: Option<FinOthers>)
        ensures
            r is Some == self.others is Some,
            r is Some ==> r->Some_0.date_beg == self.date_beg && r->Some_0.date_end
                == self.date_end && r->Some_0.items@ == self.others->Some_0@,
    {
        match &self.others {
            Some(m) => Some(
                PeriodStatement { date_beg: self.date_beg, date_end: self.date_end, items: m.clone() },
            ),
            None => None,
        }
    }

    /// All five statements, dated by the report's period.
    pub fn to_statements(&self) -> (r: (
        Option<BalanceSheet>,
        Option<BalanceSheet>,
        Option<ProfitLoss>,
        Option<CashFlow>,
        Option<FinOthers>,
    ))
        ensures
            r.0 is Some == self.balance_sheet_beg is Some,
            r.0 is Some ==> r.0->Some_0.date == self.date_beg && r.0->Some_0.items@
                == self.balance_sheet_beg->Some_0@,
            r.1 is Some == self.balance_sheet_end is Some,
            r.1 is Some ==> r.1->Some_0.date == self.date_end && r.1->Some_0.items@
                == self.balance_sheet_end->Some_0@,
            r.2 is Some == self.profit_loss is Some,
            r.2 is Some ==> r.2->Some_0.date_beg == self.date_beg && r.2->Some_0.date_end
                == self.date_end && r.2->Some_0.items@ == self.profit_loss->Some_0@,
            r.3 is Some == self.cash_flow is Some,
            r.3 is Some ==> r.3->Some_0.date_beg == self.date_beg && r.3->Some_0.date_end
                == self.date_end && r.3->Some_0.items@ == self.cash_flow->Some_0@,
            r.4 is Some == self.others is Some,
            r.4 is Some ==> r.4->Some_0.date_beg == self.date_beg && r.4->Some_0.date_end
                == self.date_end && r.4->Some_0.items@ == self.others->Some_0@,
    {
        (
            self.balance_sheet_beg(),
            self.balance_sheet_end(),
            self.profit_loss(),
            self.cash_flow(),
            self.fin_others(),
        )
    }
}

/// The current tax of a derived statement `pl` with other figures `oth` can
/// be computed, stored and rolled up within the amount range.
pub open spec fn tax_ready(pl: Map<PlType, int>, oth: Option<Map<FinOthersTyp, int>>) -> bool {
    &&& oth is Some
    &&& fits(amount_of(oth->Some_0, FinOthersTyp::CorporateTaxRate))
    &&& fits(amount_of(oth->Some_0, FinOthersTyp::GrossProfitTaxRate))
    &&& fits(amount_of(oth->Some_0, FinOthersTyp::RevenueTaxRate))
    &&& fits(depreciation_adjust(pl))
    &&& fits(amount_of(pl, PlType::EBT) + depreciation_adjust(pl))
    &&& fits(current_tax(pl, oth->Some_0))
    &&& rollup_fits(pl.insert(PlType::TaxesCurrent, current_tax(pl, oth->Some_0)))
}

/// `pl` derived, with its current tax recomputed and derived again.
pub open spec fn taxed(pl: Map<PlType, int>, oth: Map<FinOthersTyp, int>) -> Map<PlType, int> {
    derived(derived(pl).insert(PlType::TaxesCurrent, current_tax(derived(pl), oth)))
}

/// Some profit-and-loss statement of `pl` covers `(d0, d1)`, and `bs` holds
/// balance sheets at both dates: the cash flow of that period is derived anew.
pub open spec fn recomputes(pl: Seq<ProfitLoss>, bs: Seq<BalanceSheet>, d0: Date, d1: Date) -> bool {
    &&& exists|i: int|
        0 <= i < pl.len() && (#[trigger] pl[i]).date_beg == d0 && pl[i].date_end == d1
    &&& bs_at(bs, d0) is Some
    &&& bs_at(bs, d1) is Some
}

/// Some profit-and-loss statement of `pl` covers `(d0, d1)`.
pub open spec fn covers(pl: Seq<ProfitLoss>, d0: Date, d1: Date) -> bool {
    exists|i: int| 0 <= i < pl.len() && (#[trigger] pl[i]).date_beg == d0 && pl[i].date_end == d1
}

proof fn lemma_covers_step(pl: Seq<ProfitLoss>, i: int)
    requires
        0 <= i < pl.len(),
    ensures
        forall|d0: Date, d1: Date|
            #[trigger] covers(pl.take(i + 1), d0, d1) == (covers(pl.take(i), d0, d1) || (d0
                == pl[i].date_beg && d1 == pl[i].date_end)),
{
    assert forall|d0: Date, d1: Date|
        #[trigger] covers(pl.take(i + 1), d0, d1) == (covers(pl.take(i), d0, d1) || (d0
            == pl[i].date_beg && d1 == pl[i].date_end)) by {
        let s1 = pl.take(i + 1);
        let s0 = pl.take(i);
        if covers(s1, d0, d1) {
            let t = choose|t: int| 0 <= t < s1.len() && (#[trigger] s1[t]).date_beg == d0 && s1[t].date_end == d1;
            if t < i {
                assert(s0[t] == s1[t]);
            }
        }
        if covers(s0, d0, d1) {
            let t = choose|t: int| 0 <= t < s0.len() && (#[trigger] s0[t]).date_beg == d0 && s0[t].date_end == d1;
            assert(s0[t] == s1[t]);
        }
        if d0 == pl[i].date_beg && d1 == pl[i].date_end {
            assert(s1[i] == pl[i]);
        }
    }
}

/// Setting the rates twice is setting them once.
proof fn lemma_with_rates_twice(m: Map<FinOthersTyp, int>, c: int, g: int, r: int)
    ensures
        with_rates(with_rates(m, c, g, r), c, g, r) == with_rates(m, c, g, r),
{
    assert(with_rates(with_rates(m, c, g, r), c, g, r) =~= with_rates(m, c, g, r));
}

/// `after` is `before` with the three rates set for every period that `pl`
/// covers: in the first statement of that period when there is one, in a new
/// statement appended otherwise; every other statement is unchanged.
pub open spec fn rates_set(
    before: Seq<FinOthers>,
    after: Seq<FinOthers>,
    pl: Seq<ProfitLoss>,
    c: int,
    g: int,
    r: int,
) -> bool {
    &&& after.len() >= before.len()
    &&& forall|j: int|
        0 <= j < before.len() ==> {
            let b = #[trigger] before[j];
            &&& after[j].date_beg == b.date_beg
            &&& after[j].date_end == b.date_end
            &&& if covers(pl, b.date_beg, b.date_end) && j == period_pos(
                before,
                b.date_beg,
                b.date_end,
            ) {
                after[j].items@ == with_rates(b.items@, c, g, r)
            } else {
                after[j] == b
            }
        }
    &&& forall|j: int|
        before.len() <= j < after.len() ==> covers(
            pl,
            (#[trigger] after[j]).date_beg,
            after[j].date_end,
        ) && after[j].items@ == with_rates(Map::empty(), c, g, r)
}

/// Statements of one company over several dates and periods.
pub struct Accounts {
    pub currency: Currency,
    pub consolidated: bool,
    pub dates: Vec<Date>,
    pub balance_sheet: Vec<BalanceSheet>,
    pub profit_loss: Vec<ProfitLoss>,
    pub cash_flow: Vec<CashFlow>,
    pub others: Vec<FinOthers>,
}

/// `x` is the report over `(d0, d1)` assembled from the statements of `ac`.
pub open spec fn report_of(ac: Accounts, d0: Date, d1: Date, x: FinancialReport) -> bool {
    &&& x.date_beg == d0
    &&& x.date_end == d1
    &&& opt_view(x.balance_sheet_beg) == bs_at(ac.balance_sheet@, d0)
    &&& opt_view(x.balance_sheet_end) == bs_at(ac.balance_sheet@, d1)
    &&& opt_view(x.profit_loss) == period_at(ac.profit_loss@, d0, d1)
    &&& opt_view(x.cash_flow) == period_at(ac.cash_flow@, d0, d1)
    &&& opt_view(x.others) == period_at(ac.others@, d0, d1)
}

impl Accounts {
    /// An empty store.
    pub fn new(currency: Currency, consolidated: bool) -> (r: Self)
        ensures
            r.currency == currency,
            r.consolidated == consolidated,
            r.dates@.len() == 0,
            r.balance_sheet@.len() == 0,
            r.profit_loss@.len() == 0,
            r.cash_flow@.len() == 0,
            r.others@.len() == 0,
    {
        Accounts {
            currency,
            consolidated,
            dates: Vec::new(),
            balance_sheet: Vec::new(),
            profit_loss: Vec::new(),
            cash_flow: Vec::new(),
            others: Vec::new(),
        }
    }

    /// Store `bs`, replacing the balance sheet of the same date if there is one.
    pub fn add_balance_sheet(&mut self, bs: BalanceSheet)
        ensures
            ({
                let p = bs_pos(old(self).balance_sheet@, bs.date);
                final(self).balance_sheet@ == if p >= 0 {
                    old(self).balance_sheet@.update(p, bs)
                } else {
                    old(self).balance_sheet@.push(bs)
                }
            }),
            final(self).dates == old(self).dates,
            final(self).profit_loss == old(self).profit_loss,
            final(self).cash_flow == old(self).cash_flow,
            final(self).others == old(self).others,
    {
        match find_date(&self.balance_sheet, bs.date) {
            Some(i) => {
                proof {
                    lemma_bs_pos_valid(self.balance_sheet@, bs.date);
                }
                self.balance_sheet.set(i, bs);
            },
            None => self.balance_sheet.push(bs),
        }
    }

    /// Store `pl`, replacing the statement of the same period if there is one.
    pub fn add_profit_loss(&mut self, pl: ProfitLoss)
        ensures
            final(self).profit_loss@ == replaced_or_pushed(old(self).profit_loss@, pl),
            periods_unique(old(self).profit_loss@) ==> periods_unique(final(self).profit_loss@),
            final(self).dates == old(self).dates,
            final(self).balance_sheet == old(self).balance_sheet,
            final(self).cash_flow == old(self).cash_flow,
            final(self).others == old(self).others,
    {
        store_period(&mut self.profit_loss, pl);
    }

    /// Store `cf`, replacing the statement of the same period if there is one.
    pub fn add_cash_flow(&mut self, cf: CashFlow)
        ensures
            final(self).cash_flow@ == replaced_or_pushed(old(self).cash_flow@, cf),
            periods_unique(old(self).cash_flow@) ==> periods_unique(final(self).cash_flow@),
            final(self).dates == old(self).dates,
            final(self).balance_sheet == old(self).balance_sheet,
            final(self).profit_loss == old(self).profit_loss,
            final(self).others == old(self).others,
    {
        store_period(&mut self.cash_flow, cf);
    }

    /// Store `fo`, replacing the figures of the same period if there are some.
    pub fn add_others(&mut self, fo: FinOthers)
        ensures
            final(self).others@ == replaced_or_pushed(old(self).others@, fo),
            periods_unique(old(self).others@) ==> periods_unique(final(self).others@),
            final(self).dates == old(self).dates,
            final(self).balance_sheet == old(self).balance_sheet,
            final(self).profit_loss == old(self).profit_loss,
            final(self).cash_flow == old(self).cash_flow,
    {
        store_period(&mut self.others, fo);
    }

    /// Whether `dt` is one of the store's dates.
    pub fn valid_date(&self, dt: Date) -> (r: bool)
        ensures
            r == self.dates@.contains(dt),
    {
        let mut i: usize = 0;
        while i < self.dates.len()
            invariant
                i <= self.dates.len(),
                forall|t: int| 0 <= t < i ==> self.dates@[t] != dt,
            decreases self.dates.len() - i,
        {
            if self.dates[i] == dt {
                return true;
            }
            i += 1;
        }
        false
    }

    /// Add the beginning and end of every profit-and-loss period to the
    /// store's dates.
    pub fn set_dates_from_profit_loss(&mut self)
        requires
            periods_ordered(old(self).profit_loss@),
        ensures
            final(self).dates@.to_set() == old(self).dates@.to_set().union(
                period_bounds(old(self).profit_loss@),
            ),
            dates_sorted(old(self).dates@) ==> dates_sorted(final(self).dates@),
            final(self).balance_sheet == old(self).balance_sheet,
            final(self).profit_loss == old(self).profit_loss,
            final(self).cash_flow == old(self).cash_flow,
            final(self).others == old(self).others,
    {
        let mut i: usize = 0;
        while i < self.profit_loss.len()
            invariant
                i <= self.profit_loss.len(),
                self.profit_loss == old(self).profit_loss,
                self.balance_sheet == old(self).balance_sheet,
                self.cash_flow == old(self).cash_flow,
                self.others == old(self).others,
                self.dates@.to_set() == old(self).dates@.to_set().union(
                    period_bounds(self.profit_loss@.take(i as int)),
                ),
                dates_sorted(old(self).dates@) ==> dates_sorted(self.dates@),
            decreases self.profit_loss.len() - i,
        {
            let d0 = self.profit_loss[i].date_beg;
            let d1 = self.profit_loss[i].date_end;
            insert_date(&mut self.dates, d0);
            insert_date(&mut self.dates, d1);
            proof {
                let s = self.profit_loss@;
                assert(period_bounds(s.take(i + 1)) =~= period_bounds(s.take(i as int)).insert(
                    d0,
                ).insert(d1)) by {
                    assert forall|d: Date| #[trigger]
                        period_bounds(s.take(i + 1)).contains(d) implies period_bounds(
                        s.take(i as int),
                    ).insert(d0).insert(d1).contains(d) by {
                        let s1 = s.take(i + 1);
                        let t = choose|t: int|
                            0 <= t < i + 1 && ((#[trigger] s1[t]).date_beg == d || s1[t].date_end
                                == d);
                        if t < i {
                            assert(s.take(i as int)[t] == s.take(i + 1)[t]);
                        }
                    }
                    assert forall|d: Date| #[trigger]
                        period_bounds(s.take(i as int)).contains(d) implies period_bounds(
                        s.take(i + 1),
                    ).contains(d) by {
                        let s0 = s.take(i as int);
                        let t = choose|t: int|
                            0 <= t < i && ((#[trigger] s0[t]).date_beg == d || s0[t].date_end
                                == d);
                        assert(s.take(i as int)[t] == s.take(i + 1)[t]);
                    }
                    assert(s.take(i + 1)[i as int] == s[i as int]);
                }
            }
            i += 1;
        }
        proof {
            assert(self.profit_loss@.take(self.profit_loss.len() as int) =~= self.profit_loss@);
        }
    }

    /// Split the profit-and-loss periods into annual ones (spanning more than
    /// 120 days) and quarterly ones (spanning at most 120 days), each in
    /// store order.
    pub fn split_periods(&self) -> (r: (Vec<Period>, Vec<Period>))
        ensures
            r.0@ == periods_where(self.profit_loss@, true),
            r.1@ == periods_where(self.profit_loss@, false),
    {
        let mut ann: Vec<Period> = Vec::new();
        let mut qtr: Vec<Period> = Vec::new();
        let mut i: usize = 0;
        while i < self.profit_loss.len()
            invariant
                i <= self.profit_loss.len(),
                ann@ == periods_where(self.profit_loss@.take(i as int), true),
                qtr@ == periods_where(self.profit_loss@.take(i as int), false),
            decreases self.profit_loss.len() - i,
        {
            let d0 = self.profit_loss[i].date_beg;
            let d1 = self.profit_loss[i].date_end;
            proof {
                assert(self.profit_loss@.take(i + 1).drop_last() =~= self.profit_loss@.take(
                    i as int,
                ));
            }
            if d1.days as i64 - d0.days as i64 > QUARTER_DAYS as i64 {
                ann.push((d0, d1));
            } else {
                qtr.push((d0, d1));
            }
            i += 1;
        }
        proof {
            assert(self.profit_loss@.take(self.profit_loss.len() as int) =~= self.profit_loss@);
        }
        (ann, qtr)
    }

    /// Strip calculated and immaterial entries from every stored statement.
    pub fn remove_calc_clean(&mut self)
        ensures
            bs_mapped(
                old(self).balance_sheet@,
                final(self).balance_sheet@,
                |m: Map<BsType, int>| entered_part(m),
            ),
            periods_mapped(
                old(self).profit_loss@,
                final(self).profit_loss@,
                |m: Map<PlType, int>| entered_part(m),
            ),
            periods_mapped(
                old(self).cash_flow@,
                final(self).cash_flow@,
                |m: Map<CfType, int>| entered_part(m),
            ),
            final(self).dates == old(self).dates,
            final(self).others == old(self).others,
    {
        let mut i: usize = 0;
        while i < self.balance_sheet.len()
            invariant
                i <= self.balance_sheet.len(),
                self.balance_sheet.len() == old(self).balance_sheet.len(),
                forall|t: int|
                    0 <= t < i ==> (#[trigger] self.balance_sheet@[t]).date == old(
                        self,
                    ).balance_sheet@[t].date && self.balance_sheet@[t].items@ == entered_part(
                        old(self).balance_sheet@[t].items@,
                    ),
                forall|t: int|
                    i <= t < self.balance_sheet.len() ==> #[trigger] self.balance_sheet@[t] == old(
                        self,
                    ).balance_sheet@[t],
                self.profit_loss == old(self).profit_loss,
                self.cash_flow == old(self).cash_flow,
                self.dates == old(self).dates,
                self.others == old(self).others,
            decreases self.balance_sheet.len() - i,
        {
            self.balance_sheet[i].items.remove_calc_clean();
            i += 1;
        }
        clean_periods(&mut self.profit_loss);
        clean_periods(&mut self.cash_flow);
    }

    /// Derive the calculated items of every stored statement.
    pub fn calc_elements(&mut self)
        requires
            bs_fit(old(self).balance_sheet@),
            periods_fit(old(self).profit_loss@),
            periods_fit(old(self).cash_flow@),
        ensures
            bs_mapped(
                old(self).balance_sheet@,
                final(self).balance_sheet@,
                |m: Map<BsType, int>| derived(m),
            ),
            periods_mapped(
                old(self).profit_loss@,
                final(self).profit_loss@,
                |m: Map<PlType, int>| derived(m),
            ),
            periods_mapped(
                old(self).cash_flow@,
                final(self).cash_flow@,
                |m: Map<CfType, int>| derived(m),
            ),
            final(self).dates == old(self).dates,
            final(self).others == old(self).others,
    {
        let mut i: usize = 0;
        while i < self.balance_sheet.len()
            invariant
                i <= self.balance_sheet.len(),
                self.balance_sheet.len() == old(self).balance_sheet.len(),
                bs_fit(old(self).balance_sheet@),
                forall|t: int|
                    0 <= t < i ==> (#[trigger] self.balance_sheet@[t]).date == old(
                        self,
                    ).balance_sheet@[t].date && self.balance_sheet@[t].items@ == derived(
                        old(self).balance_sheet@[t].items@,
                    ),
                forall|t: int|
                    i <= t < self.balance_sheet.len() ==> #[trigger] self.balance_sheet@[t] == old(
                        self,
                    ).balance_sheet@[t],
                self.profit_loss == old(self).profit_loss,
                self.cash_flow == old(self).cash_flow,
                self.dates == old(self).dates,
                self.others == old(self).others,
            decreases self.balance_sheet.len() - i,
        {
            assert(rollup_fits(old(self).balance_sheet@[i as int].items@));
            self.balance_sheet[i].items.calc_elements();
            i += 1;
        }
        derive_periods(&mut self.profit_loss);
        derive_periods(&mut self.cash_flow);
    }

    /// The report over `(d0, d1)`; `None` when there is no profit-and-loss
    /// statement over that period.
    pub fn get_account(&self, d0: Date, d1: Date) -> (r: Option<FinancialReport>)
        ensures
            r is Some == (period_pos(self.profit_loss@, d0, d1) >= 0),
            r is Some ==> report_of(*self, d0, d1, r->Some_0),
    {
        match find_period(&self.profit_loss, d0, d1) {
            None => None,
            Some(i) => {
                proof {
                    lemma_period_pos_valid(self.profit_loss@, d0, d1);
                }
                Some(
                    FinancialReport {
                        date_beg: d0,
                        date_end: d1,
                        balance_sheet_beg: bs_copy(&self.balance_sheet, d0),
                        balance_sheet_end: bs_copy(&self.balance_sheet, d1),
                        profit_loss: Some(self.profit_loss[i].items.clone()),
                        cash_flow: period_copy(&self.cash_flow, d0, d1),
                        others: period_copy(&self.others, d0, d1),
                    },
                )
            },
        }
    }

    /// The report of every profit-and-loss period, in store order.
    pub fn to_account_vec(&self) -> (r: Vec<FinancialReport>)
        ensures
            r.len() == self.profit_loss.len(),
            forall|i: int|
                0 <= i < r.len() ==> report_of(
                    *self,
                    self.profit_loss@[i].date_beg,
                    self.profit_loss@[i].date_end,
                    #[trigger] r@[i],
                ),
    {
        let mut r: Vec<FinancialReport> = Vec::new();
        let mut i: usize = 0;
        while i < self.profit_loss.len()
            invariant
                i <= self.profit_loss.len(),
                r.len() == i,
                forall|t: int|
                    0 <= t < i ==> report_of(
                        *self,
                        self.profit_loss@[t].date_beg,
                        self.profit_loss@[t].date_end,
                        #[trigger] r@[t],
                    ),
            decreases self.profit_loss.len() - i,
        {
            let d0 = self.profit_loss[i].date_beg;
            let d1 = self.profit_loss[i].date_end;
            proof {
                lemma_period_pos_valid(self.profit_loss@, d0, d1);
                assert(period_pos(self.profit_loss@, d0, d1) >= 0);
            }
            let x = self.get_account(d0, d1).unwrap();
            r.push(x);
            i += 1;
        }
        r
    }

    /// Set the three tax rates of every profit-and-loss period, creating the
    /// period's other figures when missing.
    pub fn set_tax_rates(&mut self, corp_tax: i64, gross_profit_tax: i64, revenue_tax: i64)
        ensures
            forall|i: int|
                0 <= i < old(self).profit_loss.len() ==> ({
                    let pl = #[trigger] old(self).profit_loss@[i];
                    let o = period_at(final(self).others@, pl.date_beg, pl.date_end);
                    &&& o is Some
                    &&& o->Some_0[FinOthersTyp::CorporateTaxRate] == corp_tax
                    &&& o->Some_0[FinOthersTyp::GrossProfitTaxRate] == gross_profit_tax
                    &&& o->Some_0[FinOthersTyp::RevenueTaxRate] == revenue_tax
                }),
            rates_set(
                old(self).others@,
                final(self).others@,
                old(self).profit_loss@,
                corp_tax as int,
                gross_profit_tax as int,
                revenue_tax as int,
            ),
            final(self).dates == old(self).dates,
            final(self).balance_sheet == old(self).balance_sheet,
            final(self).profit_loss == old(self).profit_loss,
            final(self).cash_flow == old(self).cash_flow,
    {
        let mut i: usize = 0;
        while i < self.profit_loss.len()
            invariant
                i <= self.profit_loss.len(),
                self.profit_loss == old(self).profit_loss,
                self.balance_sheet == old(self).balance_sheet,
                self.cash_flow == old(self).cash_flow,
                self.dates == old(self).dates,
                rates_set(
                    old(self).others@,
                    self.others@,
                    self.profit_loss@.take(i as int),
                    corp_tax as int,
                    gross_profit_tax as int,
                    revenue_tax as int,
                ),
                forall|t: int|
                    0 <= t < i ==> ({
                        let pl = #[trigger] self.profit_loss@[t];
                        let o = period_at(self.others@, pl.date_beg, pl.date_end);
                        &&& o is Some
                        &&& o->Some_0[FinOthersTyp::CorporateTaxRate] == corp_tax
                        &&& o->Some_0[FinOthersTyp::GrossProfitTaxRate] == gross_profit_tax
                        &&& o->Some_0[FinOthersTyp::RevenueTaxRate] == revenue_tax
                    }),
            decreases self.profit_loss.len() - i,
        {
            let d0 = self.profit_loss[i].date_beg;
            let d1 = self.profit_loss[i].date_end;
            let ghost before = self.others@;
            match find_period(&self.others, d0, d1) {
                Some(j) => {
                    proof {
                        lemma_period_pos_valid(self.others@, d0, d1);
                    }
                    self.others[j].items.insert(FinOthersTyp::CorporateTaxRate, corp_tax);
                    self.others[j].items.insert(FinOthersTyp::GrossProfitTaxRate, gross_profit_tax);
                    self.others[j].items.insert(FinOthersTyp::RevenueTaxRate, revenue_tax);
                },
                None => {
                    let mut items = FinOthersMap::new();
                    items.insert(FinOthersTyp::CorporateTaxRate, corp_tax);
                    items.insert(FinOthersTyp::GrossProfitTaxRate, gross_profit_tax);
                    items.insert(FinOthersTyp::RevenueTaxRate, revenue_tax);
                    self.others.push(PeriodStatement { date_beg: d0, date_end: d1, items });
                },
            }
            proof {
                let c = corp_tax as int;
                let g = gross_profit_tax as int;
                let r = revenue_tax as int;
                let after = self.others@;
                let old_o = old(self).others@;
                let pl = self.profit_loss@;
                lemma_covers_step(pl, i as int);
                lemma_period_pos_keys(before, after);
                lemma_period_pos_keys(old_o, before);
                lemma_period_pos_valid(before, d0, d1);
                assert forall|j: int| 0 <= j < old_o.len() implies {
                    let b = #[trigger] old_o[j];
                    &&& after[j].date_beg == b.date_beg
                    &&& after[j].date_end == b.date_end
                    &&& if covers(pl.take(i + 1), b.date_beg, b.date_end) && j == period_pos(
                        old_o,
                        b.date_beg,
                        b.date_end,
                    ) {
                        after[j].items@ == with_rates(b.items@, c, g, r)
                    } else {
                        after[j] == b
                    }
                } by {
                    let b = old_o[j];
                    lemma_period_pos_valid(old_o, b.date_beg, b.date_end);
                    lemma_with_rates_twice(b.items@, c, g, r);
                    assert(before[j].date_beg == b.date_beg);
                }
                assert forall|j: int| old_o.len() <= j < after.len() implies covers(
                    pl.take(i + 1),
                    (#[trigger] after[j]).date_beg,
                    after[j].date_end,
                ) && after[j].items@ == with_rates(Map::empty(), c, g, r) by {
                    lemma_with_rates_twice(Map::empty(), c, g, r);
                    if j < before.len() {
                        assert(covers(pl.take(i as int), before[j].date_beg, before[j].date_end));
                    } else {
                        assert(after[j].items@ =~= with_rates(Map::empty(), c, g, r));
                    }
                }
                assert forall|t: int| 0 <= t < i + 1 implies ({
                    let pl = #[trigger] self.profit_loss@[t];
                    let o = period_at(self.others@, pl.date_beg, pl.date_end);
                    &&& o is Some
                    &&& o->Some_0[FinOthersTyp::CorporateTaxRate] == corp_tax
                    &&& o->Some_0[FinOthersTyp::GrossProfitTaxRate] == gross_profit_tax
                    &&& o->Some_0[FinOthersTyp::RevenueTaxRate] == revenue_tax
                }) by {
                    let pl = self.profit_loss@[t];
                    lemma_period_pos_valid(before, pl.date_beg, pl.date_end);
                    lemma_period_pos_valid(self.others@, pl.date_beg, pl.date_end);
                    lemma_period_pos_keys(before, self.others@);
                    if t < i {
                        let p = period_pos(before, pl.date_beg, pl.date_end);
                        assert(period_pos(self.others@, pl.date_beg, pl.date_end) == p);
                        if !(pl.date_beg == d0 && pl.date_end == d1) {
                            assert(self.others@[p] == before[p]);
                        }
                    }
                }
            }
            i += 1;
        }
        proof {
            assert(self.profit_loss@.take(self.profit_loss.len() as int) =~= self.profit_loss@);
        }
    }

    /// For every profit-and-loss period whose beginning and ending balance
    /// sheets are both stored, derive its cash flow from them, the
    /// profit-and-loss statement and the period's tax rates, roll it up, and
    /// store it in place of the period's cash flow.
    pub fn calc_cash_flow(&mut self)
        requires
            periods_unique(old(self).profit_loss@),
            forall|i: int|
                0 <= i < old(self).profit_loss.len() ==> ({
                    let p = #[trigger] old(self).profit_loss@[i];
                    let b0 = bs_at(old(self).balance_sheet@, p.date_beg);
                    let b1 = bs_at(old(self).balance_sheet@, p.date_end);
                    b0 is Some && b1 is Some ==> cash_flow_ready(
                        b0->Some_0,
                        b1->Some_0,
                        p.items@,
                        period_at(old(self).others@, p.date_beg, p.date_end),
                    )
                }),
        ensures
            forall|i: int|
                0 <= i < old(self).profit_loss.len() ==> ({
                    let p = #[trigger] old(self).profit_loss@[i];
                    let b0 = bs_at(old(self).balance_sheet@, p.date_beg);
                    let b1 = bs_at(old(self).balance_sheet@, p.date_end);
                    b0 is Some && b1 is Some ==> period_at(
                        final(self).cash_flow@,
                        p.date_beg,
                        p.date_end,
                    ) == Some(
                        period_cash_flow(
                            b0->Some_0,
                            b1->Some_0,
                            p.items@,
                            period_at(old(self).others@, p.date_beg, p.date_end)->Some_0,
                        ),
                    )
                }),
            final(self).cash_flow.len() >= old(self).cash_flow.len(),
            forall|j: int|
                0 <= j < old(self).cash_flow.len() ==> (#[trigger] final(self).cash_flow@[j]).date_beg
                    == old(self).cash_flow@[j].date_beg && final(self).cash_flow@[j].date_end
                    == old(self).cash_flow@[j].date_end,
            forall|j: int|
                0 <= j < old(self).cash_flow.len() && !recomputes(
                    old(self).profit_loss@,
                    old(self).balance_sheet@,
                    old(self).cash_flow@[j].date_beg,
                    old(self).cash_flow@[j].date_end,
                ) ==> #[trigger] final(self).cash_flow@[j] == old(self).cash_flow@[j],
            forall|j: int|
                old(self).cash_flow.len() <= j < final(self).cash_flow.len() ==> recomputes(
                    old(self).profit_loss@,
                    old(self).balance_sheet@,
                    (#[trigger] final(self).cash_flow@[j]).date_beg,
                    final(self).cash_flow@[j].date_end,
                ),
            final(self).dates == old(self).dates,
            final(self).balance_sheet == old(self).balance_sheet,
            final(self).profit_loss == old(self).profit_loss,
            final(self).others == old(self).others,
    {
        let mut i: usize = 0;
        while i < self.profit_loss.len()
            invariant
                i <= self.profit_loss.len(),
                self.profit_loss == old(self).profit_loss,
                self.balance_sheet == old(self).balance_sheet,
                self.others == old(self).others,
                self.dates == old(self).dates,
                periods_unique(self.profit_loss@),
                forall|t: int|
                    0 <= t < self.profit_loss.len() ==> ({
                        let p = #[trigger] self.profit_loss@[t];
                        let b0 = bs_at(self.balance_sheet@, p.date_beg);
                        let b1 = bs_at(self.balance_sheet@, p.date_end);
                        b0 is Some && b1 is Some ==> cash_flow_ready(
                            b0->Some_0,
                            b1->Some_0,
                            p.items@,
                            period_at(self.others@, p.date_beg, p.date_end),
                        )
                    }),
                forall|t: int|
                    0 <= t < i ==> ({
                        let p = #[trigger] self.profit_loss@[t];
                        let b0 = bs_at(self.balance_sheet@, p.date_beg);
                        let b1 = bs_at(self.balance_sheet@, p.date_end);
                        b0 is Some && b1 is Some ==> period_at(
                            self.cash_flow@,
                            p.date_beg,
                            p.date_end,
                        ) == Some(
                            period_cash_flow(
                                b0->Some_0,
                                b1->Some_0,
                                p.items@,
                                period_at(self.others@, p.date_beg, p.date_end)->Some_0,
                            ),
                        )
                    }),
                self.cash_flow.len() >= old(self).cash_flow.len(),
                forall|j: int|
                    0 <= j < old(self).cash_flow.len() ==> (#[trigger] self.cash_flow@[j]).date_beg
                        == old(self).cash_flow@[j].date_beg && self.cash_flow@[j].date_end == old(
                        self,
                    ).cash_flow@[j].date_end,
                forall|j: int|
                    0 <= j < old(self).cash_flow.len() && !recomputes(
                        old(self).profit_loss@,
                        old(self).balance_sheet@,
                        old(self).cash_flow@[j].date_beg,
                        old(self).cash_flow@[j].date_end,
                    ) ==> #[trigger] self.cash_flow@[j] == old(self).cash_flow@[j],
                forall|j: int|
                    old(self).cash_flow.len() <= j < self.cash_flow.len() ==> recomputes(
                        old(self).profit_loss@,
                        old(self).balance_sheet@,
                        (#[trigger] self.cash_flow@[j]).date_beg,
                        self.cash_flow@[j].date_end,
                    ),
            decreases self.profit_loss.len() - i,
        {
            let d0 = self.profit_loss[i].date_beg;
            let d1 = self.profit_loss[i].date_end;
            let ghost before = self.cash_flow@;
            let ghost pi = self.profit_loss@[i as int];
            match (find_date(&self.balance_sheet, d0), find_date(&self.balance_sheet, d1)) {
                (Some(a), Some(b)) => {
                    proof {
                        lemma_bs_pos_valid(self.balance_sheet@, d0);
                        lemma_bs_pos_valid(self.balance_sheet@, d1);
                        assert(cash_flow_ready(
                            bs_at(self.balance_sheet@, d0)->Some_0,
                            bs_at(self.balance_sheet@, d1)->Some_0,
                            pi.items@,
                            period_at(self.others@, d0, d1),
                        ));
                    }
                    let j = find_period(&self.others, d0, d1).unwrap();
                    proof {
                        lemma_period_pos_valid(self.others@, d0, d1);
                    }
                    let corp = self.others[j].items.get(FinOthersTyp::CorporateTaxRate).unwrap();
                    let gp = self.others[j].items.get(FinOthersTyp::GrossProfitTaxRate).unwrap();
                    let rev = self.others[j].items.get(FinOthersTyp::RevenueTaxRate).unwrap();
                    let mut cf = calc_cash_flow(
                        &self.balance_sheet[a].items,
                        &self.balance_sheet[b].items,
                        &self.profit_loss[i].items,
                        corp,
                        gp,
                        rev,
                    );
                    cf.calc_elements();
                    let ghost stored = cf@;
                    store_period(
                        &mut self.cash_flow,
                        PeriodStatement { date_beg: d0, date_end: d1, items: cf },
                    );
                    proof {
                        let after = self.cash_flow@;
                        lemma_period_pos_valid(before, d0, d1);
                        assert(after.len() >= before.len());
                        assert forall|j: int| 0 <= j < before.len() implies (#[trigger] after[j]).date_beg
                            == before[j].date_beg && after[j].date_end == before[j].date_end by {}
                        lemma_period_pos_keys(before, after);
                        lemma_period_pos_valid(after, d0, d1);
                        assert(self.profit_loss@[i as int].date_beg == d0);
                        assert(recomputes(self.profit_loss@, self.balance_sheet@, d0, d1));
                        assert forall|j: int| 0 <= j < before.len() && !(before[j].date_beg == d0
                            && before[j].date_end == d1) implies #[trigger] after[j] == before[j] by {}
                        if period_pos(before, d0, d1) < 0 {
                            assert(after.drop_last() =~= before);
                            assert(period_pos(after, d0, d1) == before.len());
                        }
                        assert(period_at(after, d0, d1) == Some(stored));
                        assert forall|t: int| 0 <= t < i implies ({
                            let p = #[trigger] self.profit_loss@[t];
                            let b0 = bs_at(self.balance_sheet@, p.date_beg);
                            let b1 = bs_at(self.balance_sheet@, p.date_end);
                            b0 is Some && b1 is Some ==> period_at(
                                after,
                                p.date_beg,
                                p.date_end,
                            ) == Some(
                                period_cash_flow(
                                    b0->Some_0,
                                    b1->Some_0,
                                    p.items@,
                                    period_at(self.others@, p.date_beg, p.date_end)->Some_0,
                                ),
                            )
                        }) by {
                            let p = self.profit_loss@[t];
                            if bs_at(self.balance_sheet@, p.date_beg) is Some && bs_at(
                                self.balance_sheet@,
                                p.date_end,
                            ) is Some {
                                assert(!(p.date_beg == d0 && p.date_end == d1));
                                lemma_period_pos_valid(before, p.date_beg, p.date_end);
                                let q = period_pos(before, p.date_beg, p.date_end);
                                assert(period_pos(after, p.date_beg, p.date_end) == q);
                                assert(after[q] == before[q]);
                            }
                        }
                    }
                },
                _ => {},
            }
            i += 1;
        }
    }

    /// Derive every statement, then set each period's current tax to the
    /// greater of the corporate tax on tax-adjusted earnings plus the
    /// gross-profit tax on EBITDA, and the revenue tax; then derive each
    /// profit-and-loss statement again.
    pub fn calc_tax(&mut self)
        requires
            bs_fit(old(self).balance_sheet@),
            periods_fit(old(self).profit_loss@),
            periods_fit(old(self).cash_flow@),
            forall|i: int|
                0 <= i < old(self).profit_loss.len() ==> ({
                    let p = #[trigger] old(self).profit_loss@[i];
                    tax_ready(derived(p.items@), period_at(old(self).others@, p.date_beg, p.date_end))
                }),
        ensures
            bs_mapped(
                old(self).balance_sheet@,
                final(self).balance_sheet@,
                |m: Map<BsType, int>| derived(m),
            ),
            periods_mapped(
                old(self).cash_flow@,
                final(self).cash_flow@,
                |m: Map<CfType, int>| derived(m),
            ),
            final(self).profit_loss.len() == old(self).profit_loss.len(),
            forall|i: int|
                0 <= i < old(self).profit_loss.len() ==> ({
                    let p = #[trigger] old(self).profit_loss@[i];
                    let q = final(self).profit_loss@[i];
                    &&& q.date_beg == p.date_beg
                    &&& q.date_end == p.date_end
                    &&& q.items@ == taxed(
                        p.items@,
                        period_at(old(self).others@, p.date_beg, p.date_end)->Some_0,
                    )
                }),
            final(self).dates == old(self).dates,
            final(self).others == old(self).others,
    {
        self.calc_elements();
        let ghost derived_pl = self.profit_loss@;
        let mut i: usize = 0;
        while i < self.profit_loss.len()
            invariant
                i <= self.profit_loss.len(),
                self.profit_loss.len() == old(self).profit_loss.len(),
                periods_mapped(old(self).profit_loss@, derived_pl, |m: Map<PlType, int>| derived(m)),
                bs_mapped(
                    old(self).balance_sheet@,
                    self.balance_sheet@,
                    |m: Map<BsType, int>| derived(m),
                ),
                periods_mapped(
                    old(self).cash_flow@,
                    self.cash_flow@,
                    |m: Map<CfType, int>| derived(m),
                ),
                self.others == old(self).others,
                self.dates == old(self).dates,
                forall|t: int|
                    0 <= t < old(self).profit_loss.len() ==> ({
                        let p = #[trigger] old(self).profit_loss@[t];
                        tax_ready(
                            derived(p.items@),
                            period_at(old(self).others@, p.date_beg, p.date_end),
                        )
                    }),
                forall|t: int|
                    0 <= t < i ==> ({
                        let p = #[trigger] old(self).profit_loss@[t];
                        let q = self.profit_loss@[t];
                        &&& q.date_beg == p.date_beg
                        &&& q.date_end == p.date_end
                        &&& q.items@ == taxed(
                            p.items@,
                            period_at(old(self).others@, p.date_beg, p.date_end)->Some_0,
                        )
                    }),
                forall|t: int|
                    i <= t < self.profit_loss.len() ==> #[trigger] self.profit_loss@[t]
                        == derived_pl[t],
            decreases self.profit_loss.len() - i,
        {
            let d0 = self.profit_loss[i].date_beg;
            let d1 = self.profit_loss[i].date_end;
            proof {
                let p = old(self).profit_loss@[i as int];
                assert(tax_ready(derived(p.items@), period_at(old(self).others@, p.date_beg, p.date_end)));
                assert(derived_pl[i as int].items@ == derived(p.items@));
            }
            let j = find_period(&self.others, d0, d1).unwrap();
            proof {
                lemma_period_pos_valid(self.others@, d0, d1);
            }
            let ct = self.others[j].items.value(FinOthersTyp::CorporateTaxRate);
            let gt = self.others[j].items.value(FinOthersTyp::GrossProfitTaxRate);
            let mt = self.others[j].items.value(FinOthersTyp::RevenueTaxRate);
            let adj = depreciation_tax_adjust(&self.profit_loss[i].items);
            let ebt = (self.profit_loss[i].items.value(PlType::EBT) as i128 + adj as i128) as i64;
            let on_earnings = fixed_product(ct, ebt) + fixed_product(
                gt,
                self.profit_loss[i].items.value(PlType::EBITDA),
            );
            let on_revenue = fixed_product(mt, self.profit_loss[i].items.value(PlType::Revenue));
            let tax = if on_earnings > on_revenue {
                on_earnings
            } else {
                on_revenue
            };
            let tax = tax as i64;
            self.profit_loss[i].items.upsert(PlType::TaxesCurrent, tax);
            self.profit_loss[i].items.calc_elements();
            i += 1;
        }
    }

    /// Amount of `ty` in the balance sheet dated `d`.
    pub fn get_balance_sheet(&self, d: Date, ty: BsType) -> (r: i64)
        requires
            bs_pos(self.balance_sheet@, d) >= 0,
        ensures
            r as int == amount_of(self.balance_sheet@[bs_pos(self.balance_sheet@, d)].items@, ty),
    {
        let i = find_date(&self.balance_sheet, d).unwrap();
        proof {
            lemma_bs_pos_valid(self.balance_sheet@, d);
        }
        self.balance_sheet[i].items.value(ty)
    }

    /// Amount of `ty` in the profit-and-loss statement over `d`.
    pub fn get_profit_loss(&self, d: Period, ty: PlType) -> (r: i64)
        requires
            period_pos(self.profit_loss@, d.0, d.1) >= 0,
        ensures
            r as int == amount_of(
                self.profit_loss@[period_pos(self.profit_loss@, d.0, d.1)].items@,
                ty,
            ),
    {
        let i = find_period(&self.profit_loss, d.0, d.1).unwrap();
        proof {
            lemma_period_pos_valid(self.profit_loss@, d.0, d.1);
        }
        self.profit_loss[i].items.value(ty)
    }

    /// Amount of `ty` in the cash-flow statement over `d`.
    pub fn get_cash_flow(&self, d: Period, ty: CfType) -> (r: i64)
        requires
            period_pos(self.cash_flow@, d.0, d.1) >= 0,
        ensures
            r as int == amount_of(self.cash_flow@[period_pos(self.cash_flow@, d.0, d.1)].items@, ty),
    {
        let i = find_period(&self.cash_flow, d.0, d.1).unwrap();
        proof {
            lemma_period_pos_valid(self.cash_flow@, d.0, d.1);
        }
        self.cash_flow[i].items.value(ty)
    }

    /// Set the entered item `ty` of the balance sheet dated `d` to `val`.
    /// Calculated items are not recomputed: call `calc_elements` afterwards.
    pub fn put_balance_sheet(&mut self, d: Date, ty: BsType, val: i64)
        requires
            ty.rank() < 0,
            bs_pos(old(self).balance_sheet@, d) >= 0,
        ensures
            ({
                let p = bs_pos(old(self).balance_sheet@, d);
                let old_bs = old(self).balance_sheet@;
                &&& final(self).balance_sheet@.len() == old_bs.len()
                &&& forall|i: int|
                    0 <= i < old_bs.len() && i != p ==> #[trigger] final(self).balance_sheet@[i]
                        == old_bs[i]
                &&& final(self).balance_sheet@[p].date == d
                &&& final(self).balance_sheet@[p].items@ == old_bs[p].items@.insert(ty, val as int)
            }),
            final(self).dates == old(self).dates,
            final(self).profit_loss == old(self).profit_loss,
            final(self).cash_flow == old(self).cash_flow,
            final(self).others == old(self).others,
    {
        let i = find_date(&self.balance_sheet, d).unwrap();
        proof {
            lemma_bs_pos_valid(self.balance_sheet@, d);
        }
        self.balance_sheet[i].items.upsert(ty, val);
    }

    /// Set the entered item `ty` of the profit-and-loss statement over `d` to `val`.
    /// Calculated items are not recomputed: call `calc_elements` afterwards.
    pub fn put_profit_loss(&mut self, d: Period, ty: PlType, val: i64)
        requires
            ty.rank() < 0,
            period_pos(old(self).profit_loss@, d.0, d.1) >= 0,
        ensures
            put_at(
                old(self).profit_loss@,
                final(self).profit_loss@,
                period_pos(old(self).profit_loss@, d.0, d.1),
                ty,
                val as int,
            ),
            final(self).dates == old(self).dates,
            final(self).balance_sheet == old(self).balance_sheet,
            final(self).cash_flow == old(self).cash_flow,
            final(self).others == old(self).others,
    {
        let i = find_period(&self.profit_loss, d.0, d.1).unwrap();
        proof {
            lemma_period_pos_valid(self.profit_loss@, d.0, d.1);
        }
        self.profit_loss[i].items.upsert(ty, val);
    }

    /// Set the entered item `ty` of the cash-flow statement over `d` to `val`.
    /// Calculated items are not recomputed: call `calc_elements` afterwards.
    pub fn put_cash_flow(&mut self, d: Period, ty: CfType, val: i64)
        requires
            ty.rank() < 0,
            period_pos(old(self).cash_flow@, d.0, d.1) >= 0,
        ensures
            put_at(
                old(self).cash_flow@,
                final(self).cash_flow@,
                period_pos(old(self).cash_flow@, d.0, d.1),
                ty,
                val as int,
            ),
            final(self).dates == old(self).dates,
            final(self).balance_sheet == old(self).balance_sheet,
            final(self).profit_loss == old(self).profit_loss,
            final(self).others == old(self).others,
    {
        let i = find_period(&self.cash_flow, d.0, d.1).unwrap();
        proof {
            lemma_period_pos_valid(self.cash_flow@, d.0, d.1);
        }
        self.cash_flow[i].items.upsert(ty, val);
    }
}

/// `s` with `x` in place of the statement of the same period, or with `x`
/// appended when there is none.
pub open spec fn replaced_or_pushed<K>(s: Seq<PeriodStatement<K>>, x: PeriodStatement<K>) -> Seq<
    PeriodStatement<K>,
> {
    let p = period_pos(s, x.date_beg, x.date_end);
    if p >= 0 {
        s.update(p, x)
    } else {
        s.push(x)
    }
}

/// `after` is `before` with item `k` of the statement at `p` set to `v`.
pub open spec fn put_at<K: LineItem>(
    before: Seq<PeriodStatement<K>>,
    after: Seq<PeriodStatement<K>>,
    p: int,
    k: K,
    v: int,
) -> bool {
    &&& after.len() == before.len()
    &&& forall|i: int| 0 <= i < before.len() && i != p ==> #[trigger] after[i] == before[i]
    &&& after[p].date_beg == before[p].date_beg
    &&& after[p].date_end == before[p].date_end
    &&& after[p].items@ == before[p].items@.insert(k, v)
}

/// Positions found in `before` stay the same in `after` when `after` keeps the
/// periods of `before` in place and only appends.
proof fn lemma_period_pos_key<K>(
    before: Seq<PeriodStatement<K>>,
    after: Seq<PeriodStatement<K>>,
    d0: Date,
    d1: Date,
)
    requires
        after.len() >= before.len(),
        forall|j: int|
            0 <= j < before.len() ==> (#[trigger] after[j]).date_beg == before[j].date_beg
                && after[j].date_end == before[j].date_end,
    ensures
        period_pos(before, d0, d1) >= 0 ==> period_pos(after, d0, d1) == period_pos(before, d0, d1),
        after.len() == before.len() ==> period_pos(after, d0, d1) == period_pos(before, d0, d1),
    decreases after.len(),
{
    if after.len() > before.len() {
        lemma_period_pos_key(before, after.drop_last(), d0, d1);
    } else if before.len() > 0 {
        lemma_period_pos_key(before.drop_last(), after.drop_last(), d0, d1);
        assert(after.last() == after[after.len() - 1]);
        assert(before.last() == before[before.len() - 1]);
    }
}

proof fn lemma_period_pos_keys<K>(before: Seq<PeriodStatement<K>>, after: Seq<PeriodStatement<K>>)
    requires
        after.len() >= before.len(),
        forall|j: int|
            0 <= j < before.len() ==> (#[trigger] after[j]).date_beg == before[j].date_beg
                && after[j].date_end == before[j].date_end,
    ensures
        forall|d0: Date, d1: Date|
            #[trigger] period_pos(before, d0, d1) >= 0 ==> period_pos(after, d0, d1) == period_pos(
                before,
                d0,
                d1,
            ),
{
    assert forall|d0: Date, d1: Date| #[trigger] period_pos(before, d0, d1) >= 0 implies period_pos(
        after,
        d0,
        d1,
    ) == period_pos(before, d0, d1) by {
        lemma_period_pos_key(before, after, d0, d1);
    }
}

fn bs_copy(s: &Vec<BalanceSheet>, d: Date) -> (r: Option<BsMap>)
    ensures
        opt_view(r) == bs_at(s@, d),
{
    match find_date(s, d) {
        Some(i) => {
            proof {
                lemma_bs_pos_valid(s@, d);
            }
            Some(s[i].items.clone())
        },
        None => None,
    }
}

fn period_copy<K: LineItem>(s: &Vec<PeriodStatement<K>>, d0: Date, d1: Date) -> (r: Option<
    StatementMap<K>,
>)
    ensures
        opt_view(r) == period_at(s@, d0, d1),
{
    match find_period(s, d0, d1) {
        Some(i) => {
            proof {
                lemma_period_pos_valid(s@, d0, d1);
            }
            Some(s[i].items.clone())
        },
        None => None,
    }
}

fn clean_periods<K: FinType>(s: &mut Vec<PeriodStatement<K>>)
    ensures
        periods_mapped(old(s)@, final(s)@, |m: Map<K, int>| entered_part(m)),
{
    let mut i: usize = 0;
    while i < s.len()
        invariant
            i <= s.len(),
            s.len() == old(s).len(),
            forall|t: int|
                0 <= t < i ==> (#[trigger] s@[t]).date_beg == old(s)@[t].date_beg && s@[t].date_end
                    == old(s)@[t].date_end && s@[t].items@ == entered_part(old(s)@[t].items@),
            forall|t: int| i <= t < s.len() ==> #[trigger] s@[t] == old(s)@[t],
        decreases s.len() - i,
    {
        s[i].items.remove_calc_clean();
        i += 1;
    }
}

fn derive_periods<K: FinType>(s: &mut Vec<PeriodStatement<K>>)
    requires
        periods_fit(old(s)@),
    ensures
        periods_mapped(old(s)@, final(s)@, |m: Map<K, int>| derived(m)),
{
    let mut i: usize = 0;
    while i < s.len()
        invariant
            i <= s.len(),
            s.len() == old(s).len(),
            periods_fit(old(s)@),
            forall|t: int|
                0 <= t < i ==> (#[trigger] s@[t]).date_beg == old(s)@[t].date_beg && s@[t].date_end
                    == old(s)@[t].date_end && s@[t].items@ == derived(old(s)@[t].items@),
            forall|t: int| i <= t < s.len() ==> #[trigger] s@[t] == old(s)@[t],
        decreases s.len() - i,
    {
        assert(rollup_fits(old(s)@[i as int].items@));
        s[i].items.calc_elements();
        i += 1;
    }
}

fn store_period<K>(s: &mut Vec<PeriodStatement<K>>, x: PeriodStatement<K>)
    ensures
        final(s)@ == replaced_or_pushed(old(s)@, x),
        periods_unique(old(s)@) ==> periods_unique(final(s)@),
{
    proof {
        lemma_period_pos_valid(s@, x.date_beg, x.date_end);
    }
    match find_period(s, x.date_beg, x.date_end) {
        Some(i) => {
            proof {
                lemma_period_pos_valid(s@, x.date_beg, x.date_end);
            }
            s.set(i, x);
        },
        None => s.push(x),
    }
}

fn insert_date(dates: &mut Vec<Date>, d: Date)
    ensures
        final(dates)@.to_set() == old(dates)@.to_set().insert(d),
        dates_sorted(old(dates)@) ==> dates_sorted(final(dates)@),
{
    let mut i: usize = 0;
    while i < dates.len() && dates[i].days <= d.days
        invariant
            i <= dates.len(),
            forall|t: int| 0 <= t < i ==> (#[trigger] dates@[t]).days < d.days,
        decreases dates.len() - i,
    {
        if dates[i] == d {
            proof {
                assert(dates@.to_set().contains(d));
                assert(dates@.to_set().insert(d) =~= dates@.to_set());
            }
            return;
        }
        i += 1;
    }
    let ghost before = dates@;
    dates.insert(i, d);
    proof {
        assert(dates@ == before.insert(i as int, d));
        assert(dates@.to_set() =~= before.to_set().insert(d)) by {
            assert forall|x: Date| #[trigger] dates@.to_set().contains(x) implies before.to_set().insert(
                d,
            ).contains(x) by {
                let t = choose|t: int| 0 <= t < dates@.len() && dates@[t] == x;
                if t < i {
                    assert(before[t] == x);
                } else if t > i {
                    assert(before[t - 1] == x);
                }
            }
            assert forall|x: Date| #[trigger] before.to_set().insert(d).contains(x) implies dates@.to_set().contains(x) by {
                if x == d {
                    assert(dates@[i as int] == d);
                } else {
                    let t = choose|t: int| 0 <= t < before.len() && before[t] == x;
                    if t < i {
                        assert(dates@[t] == x);
                    } else {
                        assert(dates@[t + 1] == x);
                    }
                }
            }
        }
        if dates_sorted(before) {
            assert forall|a: int, b: int| 0 <= a < b < dates@.len() implies (#[trigger] dates@[a]).days
                < (#[trigger] dates@[b]).days by {
                if b < i {
                } else if b == i {
                } else if a < i {
                    assert(dates@[b] == before[b - 1]);
                    if i < before.len() {
                        assert(before[i as int].days > d.days);
                    }
                } else if a == i {
                    assert(dates@[b] == before[b - 1]);
                    assert(before[i as int].days > d.days);
                    assert(i == b - 1 || before[i as int].days < before[b - 1].days);
                } else {
                    assert(dates@[a] == before[a - 1]);
                    assert(dates@[b] == before[b - 1]);
                }
            }
        }
    }
}

} // verus!
