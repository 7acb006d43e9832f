//! Cash-flow derivation: flows read off the profit-and-loss statement, flows
//! computed as balance-sheet movements, and the interest tax shield.

use crate::fmap::{
    amount_of, fits, fixed_product, is_material, rule_value, scaled_product, sum_of, CfMap,
    StatementMap, MATERIALITY,
};
use crate::items::{BsType, CfType, PlType};
use crate::rules::{FinType, Rule, RuleView, MAX_CONTRIBUTORS};
use vstd::prelude::*;

verus! {

/// Number of rules in [`cash_flow_profit_loss_rule`].
pub open spec fn cash_flow_profit_loss_len() -> nat {
    4
}

/// Cash-flow items read off the profit-and-loss statement of the period.
pub open spec fn cash_flow_profit_loss_spec(i: int) -> RuleView<CfType, PlType> {
    if i == 0 {
        RuleView { target: CfType::CashFlowInterests, pos: seq![PlType::InterestExpense, PlType::CostDebt], neg: seq![] }
    } else if i == 1 {
        RuleView { target: CfType::CashFlowDividends, pos: seq![PlType::Dividends], neg: seq![] }
    } else if i == 2 {
        RuleView { target: CfType::AdjustmentsRetainedEarnings, pos: seq![PlType::InterestExpense, PlType::CostDebt, PlType::Dividends, PlType::AccAmortSalesPPE, PlType::AccAmortSalesLeaseRental, PlType::AccAmortSalesIntangible], neg: seq![PlType::GainsLossesSales] }
    } else {
        RuleView { target: CfType::AdjustmentsSalesAssets, pos: seq![PlType::GainsLossesSales], neg: seq![PlType::AccAmortSalesPPE, PlType::AccAmortSalesLeaseRental, PlType::AccAmortSalesIntangible] }
    }
}

/// Rule `i` of [`cash_flow_profit_loss_spec`].
pub fn cash_flow_profit_loss_rule(i: usize) -> (r: Rule<CfType, PlType>)
    requires
        i < cash_flow_profit_loss_len(),
    ensures
        r.target == cash_flow_profit_loss_spec(i as int).target,
        r.pos@ =~= cash_flow_profit_loss_spec(i as int).pos,
        r.neg@ =~= cash_flow_profit_loss_spec(i as int).neg,
        r.pos.len() + r.neg.len() <= MAX_CONTRIBUTORS,
{
    if i == 0 {
        Rule { target: CfType::CashFlowInterests, pos: vec![PlType::InterestExpense, PlType::CostDebt], neg: vec![] }
    } else if i == 1 {
        Rule { target: CfType::CashFlowDividends, pos: vec![PlType::Dividends], neg: vec![] }
    } else if i == 2 {
        Rule { target: CfType::AdjustmentsRetainedEarnings, pos: vec![PlType::InterestExpense, PlType::CostDebt, PlType::Dividends, PlType::AccAmortSalesPPE, PlType::AccAmortSalesLeaseRental, PlType::AccAmortSalesIntangible], neg: vec![PlType::GainsLossesSales] }
    } else {
        Rule { target: CfType::AdjustmentsSalesAssets, pos: vec![PlType::GainsLossesSales], neg: vec![PlType::AccAmortSalesPPE, PlType::AccAmortSalesLeaseRental, PlType::AccAmortSalesIntangible] }
    }
}

/// Number of rules in [`cash_flow_balance_sheet_rule`].
pub open spec fn cash_flow_balance_sheet_len() -> nat {
    17
}

/// Cash-flow items computed as the movement of balance-sheet items over the period.
pub open spec fn cash_flow_balance_sheet_spec(i: int) -> RuleView<CfType, BsType> {
    if i == 0 {
        RuleView { target: CfType::ChangeCurrentAssets, pos: seq![BsType::CurrentReceivables, BsType::CurrentLoans, BsType::CurrentAdvances, BsType::OtherCurrentAssets, BsType::CurrentInvestments, BsType::RawMaterials, BsType::WorkInProgress, BsType::FinishedGoods], neg: seq![] }
    } else if i == 1 {
        RuleView { target: CfType::ChangeLongTermAssets, pos: seq![BsType::AccountReceivables, BsType::LongTermAdvances, BsType::CapitalWip], neg: seq![BsType::AccumulatedDepreciation, BsType::AccumulatedAmortizationLease, BsType::AccumulatedAmortization] }
    } else if i == 2 {
        RuleView { target: CfType::ChangeCurrentLiabilities, pos: seq![BsType::CurrentPayables, BsType::CurrentBorrowings, BsType::CurrentNotesPayable, BsType::OtherCurrentLiabilities, BsType::InterestPayable, BsType::CurrentProvisions, BsType::CurrentTaxPayables, BsType::LiabilitiesSaleAssets, BsType::CurrentLeasesLiability], neg: seq![] }
    } else if i == 3 {
        RuleView { target: CfType::ChangeLongTermLiabilities, pos: seq![BsType::AccountPayables, BsType::DeferredTaxLiabilities, BsType::DeferredCompensation, BsType::DeferredRevenues, BsType::CustomerDeposits, BsType::OtherLongTermLiabilities], neg: seq![] }
    } else if i == 4 {
        RuleView { target: CfType::ChangeProvisions, pos: seq![BsType::PensionProvision, BsType::TaxProvision, BsType::LongTermProvision], neg: seq![] }
    } else if i == 5 {
        RuleView { target: CfType::ChangeRetainedEarnings, pos: seq![BsType::RetainedEarnings], neg: seq![] }
    } else if i == 6 {
        RuleView { target: CfType::ChangeAccumulatedOci, pos: seq![BsType::AccumulatedOCI], neg: seq![] }
    } else if i == 7 {
        RuleView { target: CfType::ChangePPE, pos: seq![BsType::PlantPropertyEquipment, BsType::LeasingRentalAssets], neg: seq![] }
    } else if i == 8 {
        RuleView { target: CfType::ChangeReserves, pos: seq![BsType::RevaluationReserves, BsType::Reserves], neg: seq![] }
    } else if i == 9 {
        RuleView { target: CfType::InvestmentsCapDevp, pos: seq![BsType::IntangibleAssetsDevelopment], neg: seq![] }
    } else if i == 10 {
        RuleView { target: CfType::InvestmentsLoans, pos: seq![BsType::LongTermLoanAssets], neg: seq![] }
    } else if i == 11 {
        RuleView { target: CfType::ChangeEquityAssets, pos: seq![BsType::IntangibleAssets], neg: seq![] }
    } else if i == 12 {
        RuleView { target: CfType::ChangeInvestments, pos: seq![BsType::LongTermInvestments, BsType::Goodwill], neg: seq![] }
    } else if i == 13 {
        RuleView { target: CfType::OtherCashFlowInvestments, pos: seq![], neg: seq![BsType::OtherLongTermAssets, BsType::OtherTangibleAssets] }
    } else if i == 14 {
        RuleView { target: CfType::StockSalesAndPurchase, pos: seq![BsType::CommonStock, BsType::PreferredStock, BsType::PdInCapAbovePar, BsType::PdInCapTreasuryStock], neg: seq![] }
    } else if i == 15 {
        RuleView { target: CfType::ChangeDebt, pos: seq![BsType::LongTermBorrowings, BsType::BondsPayable, BsType::LongTermLeasesLiability], neg: seq![] }
    } else {
        RuleView { target: CfType::OtherCashFlowFinancing, pos: seq![BsType::MinorityInterests], neg: seq![] }
    }
}

/// Rule `i` of [`cash_flow_balance_sheet_spec`].
pub fn cash_flow_balance_sheet_rule(i: usize) -> (r: Rule<CfType, BsType>)
    requires
        i < cash_flow_balance_sheet_len(),
    ensures
        r.target == cash_flow_balance_sheet_spec(i as int).target,
        r.pos@ =~= cash_flow_balance_sheet_spec(i as int).pos,
        r.neg@ =~= cash_flow_balance_sheet_spec(i as int).neg,
        r.pos.len() + r.neg.len() <= MAX_CONTRIBUTORS,
{
    if i == 0 {
        Rule { target: CfType::ChangeCurrentAssets, pos: vec![BsType::CurrentReceivables, BsType::CurrentLoans, BsType::CurrentAdvances, BsType::OtherCurrentAssets, BsType::CurrentInvestments, BsType::RawMaterials, BsType::WorkInProgress, BsType::FinishedGoods], neg: vec![] }
    } else if i == 1 {
        Rule { target: CfType::ChangeLongTermAssets, pos: vec![BsType::AccountReceivables, BsType::LongTermAdvances, BsType::CapitalWip], neg: vec![BsType::AccumulatedDepreciation, BsType::AccumulatedAmortizationLease, BsType::AccumulatedAmortization] }
    } else if i == 2 {
        Rule { target: CfType::ChangeCurrentLiabilities, pos: vec![BsType::CurrentPayables, BsType::CurrentBorrowings, BsType::CurrentNotesPayable, BsType::OtherCurrentLiabilities, BsType::InterestPayable, BsType::CurrentProvisions, BsType::CurrentTaxPayables, BsType::LiabilitiesSaleAssets, BsType::CurrentLeasesLiability], neg: vec![] }
    } else if i == 3 {
        Rule { target: CfType::ChangeLongTermLiabilities, pos: vec![BsType::AccountPayables, BsType::DeferredTaxLiabilities, BsType::DeferredCompensation, BsType::DeferredRevenues, BsType::CustomerDeposits, BsType::OtherLongTermLiabilities], neg: vec![] }
    } else if i == 4 {
        Rule { target: CfType::ChangeProvisions, pos: vec![BsType::PensionProvision, BsType::TaxProvision, BsType::LongTermProvision], neg: vec![] }
    } else if i == 5 {
        Rule { target: CfType::ChangeRetainedEarnings, pos: vec![BsType::RetainedEarnings], neg: vec![] }
    } else if i == 6 {
        Rule { target: CfType::ChangeAccumulatedOci, pos: vec![BsType::AccumulatedOCI], neg: vec![] }
    } else if i == 7 {
        Rule { target: CfType::ChangePPE, pos: vec![BsType::PlantPropertyEquipment, BsType::LeasingRentalAssets], neg: vec![] }
    } else if i == 8 {
        Rule { target: CfType::ChangeReserves, pos: vec![BsType::RevaluationReserves, BsType::Reserves], neg: vec![] }
    } else if i == 9 {
        Rule { target: CfType::InvestmentsCapDevp, pos: vec![BsType::IntangibleAssetsDevelopment], neg: vec![] }
    } else if i == 10 {
        Rule { target: CfType::InvestmentsLoans, pos: vec![BsType::LongTermLoanAssets], neg: vec![] }
    } else if i == 11 {
        Rule { target: CfType::ChangeEquityAssets, pos: vec![BsType::IntangibleAssets], neg: vec![] }
    } else if i == 12 {
        Rule { target: CfType::ChangeInvestments, pos: vec![BsType::LongTermInvestments, BsType::Goodwill], neg: vec![] }
    } else if i == 13 {
        Rule { target: CfType::OtherCashFlowInvestments, pos: vec![], neg: vec![BsType::OtherLongTermAssets, BsType::OtherTangibleAssets] }
    } else if i == 14 {
        Rule { target: CfType::StockSalesAndPurchase, pos: vec![BsType::CommonStock, BsType::PreferredStock, BsType::PdInCapAbovePar, BsType::PdInCapTreasuryStock], neg: vec![] }
    } else if i == 15 {
        Rule { target: CfType::ChangeDebt, pos: vec![BsType::LongTermBorrowings, BsType::BondsPayable, BsType::LongTermLeasesLiability], neg: vec![] }
    } else {
        Rule { target: CfType::OtherCashFlowFinancing, pos: vec![BsType::MinorityInterests], neg: vec![] }
    }
}

/// Flows of the first `n` profit-and-loss rules evaluated over `pl`; only
/// material values are kept.
pub open spec fn flows_from_pl(pl: Map<PlType, int>, n: nat) -> Map<CfType, int>
    decreases n,
{
    if n == 0 {
        Map::empty()
    } else {
        let prev = flows_from_pl(pl, (n - 1) as nat);
        let r = cash_flow_profit_loss_spec(n - 1);
        let v = rule_value(pl, r);
        if is_material(v) {
            prev.insert(r.target, v)
        } else {
            prev
        }
    }
}

/// `cf` with the flows of the first `n` balance-sheet rules added: each is the
/// rule's value at the end of the period minus its value at the beginning.
pub open spec fn flows_from_bs(
    cf: Map<CfType, int>,
    b0: Map<BsType, int>,
    b1: Map<BsType, int>,
    n: nat,
) -> Map<CfType, int>
    decreases n,
{
    if n == 0 {
        cf
    } else {
        let prev = flows_from_bs(cf, b0, b1, (n - 1) as nat);
        let r = cash_flow_balance_sheet_spec(n - 1);
        let v = rule_value(b1, r) - rule_value(b0, r);
        if is_material(v) {
            prev.insert(r.target, v)
        } else {
            prev
        }
    }
}

/// The flows derived from the two tables.
pub open spec fn table_flows(
    b0: Map<BsType, int>,
    b1: Map<BsType, int>,
    pl: Map<PlType, int>,
) -> Map<CfType, int> {
    flows_from_bs(
        flows_from_pl(pl, cash_flow_profit_loss_len()),
        b0,
        b1,
        cash_flow_balance_sheet_len(),
    )
}

/// Book depreciation minus tax depreciation, when tax depreciation is given.
pub open spec fn depreciation_adjust(pl: Map<PlType, int>) -> int {
    if pl.contains_key(PlType::TaxDepreciation) {
        amount_of(pl, PlType::Depreciation) - pl[PlType::TaxDepreciation]
    } else {
        0
    }
}

/// Taxable base of the corporate tax: earnings before tax, plus interest,
/// plus the depreciation adjustment.
pub open spec fn tax_base(pl: Map<PlType, int>, interest: int) -> int {
    amount_of(pl, PlType::EBT) + interest + depreciation_adjust(pl)
}

/// Interest tax shield: the corporate tax on interest, capped by the tax
/// actually payable (corporate tax on the taxable base, plus gross-profit tax,
/// minus revenue tax) and never below zero unless the interest itself is.
pub open spec fn tax_shield(
    pl: Map<PlType, int>,
    interest: int,
    corp_tax: int,
    gp_tax: int,
    revenue_tax: int,
) -> int {
    let on_interest = scaled_product(corp_tax, interest);
    let payable = scaled_product(corp_tax, tax_base(pl, interest)) + scaled_product(
        gp_tax,
        amount_of(pl, PlType::GrossProfit),
    ) - scaled_product(revenue_tax, amount_of(pl, PlType::Revenue));
    let capped = if payable > 0 {
        payable
    } else {
        0
    };
    if on_interest < capped {
        on_interest
    } else {
        capped
    }
}

/// The cash-flow items derived from the balance sheets `b0` (beginning) and
/// `b1` (end) and the period's profit-and-loss statement `pl`.
pub open spec fn derived_cash_flow(
    b0: Map<BsType, int>,
    b1: Map<BsType, int>,
    pl: Map<PlType, int>,
    corp_tax: int,
    gp_tax: int,
    revenue_tax: int,
) -> Map<CfType, int> {
    let f = table_flows(b0, b1, pl);
    let s = tax_shield(
        pl,
        amount_of(f, CfType::CashFlowInterests),
        corp_tax,
        gp_tax,
        revenue_tax,
    );
    if is_material(s) {
        f.insert(CfType::CashFlowTaxShield, s)
    } else {
        f
    }
}

/// Every value formed while deriving the cash flow is representable.
pub open spec fn cash_flow_fits(
    b0: Map<BsType, int>,
    b1: Map<BsType, int>,
    pl: Map<PlType, int>,
    corp_tax: int,
) -> bool {
    let interest = amount_of(table_flows(b0, b1, pl), CfType::CashFlowInterests);
    &&& forall|i: int|
        #![trigger cash_flow_profit_loss_spec(i)]
        0 <= i < cash_flow_profit_loss_len() ==> fits(
            rule_value(pl, cash_flow_profit_loss_spec(i)),
        )
    &&& forall|i: int|
        #![trigger cash_flow_balance_sheet_spec(i)]
        0 <= i < cash_flow_balance_sheet_len() ==> fits(
            rule_value(b1, cash_flow_balance_sheet_spec(i)) - rule_value(
                b0,
                cash_flow_balance_sheet_spec(i),
            ),
        )
    &&& fits(depreciation_adjust(pl))
    &&& fits(tax_base(pl, interest))
    &&& fits(scaled_product(corp_tax, interest))
}

/// Book depreciation minus tax depreciation; zero when no tax depreciation is given.
pub fn depreciation_tax_adjust(pl: &StatementMap<PlType>) -> (r: i64)
    requires
        fits(depreciation_adjust(pl@)),
    ensures
        r as int == depreciation_adjust(pl@),
{
    match pl.get(PlType::TaxDepreciation) {
        Some(x) => {
            let d = pl.value(PlType::Depreciation);
            (d as i128 - x as i128) as i64
        },
        None => 0,
    }
}

/// Derive the entered cash-flow items of a period from its beginning and
/// ending balance sheets and its profit-and-loss statement. Rates are fixed
/// point (`SCALE` is 1.0). The calculated cash-flow items still have to be
/// rolled up with `calc_elements`.
pub fn calc_cash_flow(
    b0: &StatementMap<BsType>,
    b1: &StatementMap<BsType>,
    pl: &StatementMap<PlType>,
    corp_tax: i64,
    gp_tax: i64,
    revenue_tax: i64,
) -> (r: CfMap)
    requires
        cash_flow_fits(b0@, b1@, pl@, corp_tax as int),
    ensures
        r@ == derived_cash_flow(
            b0@,
            b1@,
            pl@,
            corp_tax as int,
            gp_tax as int,
            revenue_tax as int,
        ),
{
    let mut cf = CfMap::new();
    let n_pl: usize = 4;
    let mut i: usize = 0;
    while i < n_pl
        invariant
            i <= n_pl,
            n_pl == cash_flow_profit_loss_len(),
            cash_flow_fits(b0@, b1@, pl@, corp_tax as int),
            cf@ == flows_from_pl(pl@, i as nat),
        decreases n_pl - i,
    {
        let r = cash_flow_profit_loss_rule(i);
        let elem = pl.sum_items(&r.pos) - pl.sum_items(&r.neg);
        assert(fits(rule_value(pl@, cash_flow_profit_loss_spec(i as int))));
        let elem = elem as i64;
        if elem > MATERIALITY || elem < -MATERIALITY {
            cf.insert(r.target, elem);
        }
        i += 1;
    }
    let ghost from_pl = cf@;
    let n_bs: usize = 17;
    let mut i: usize = 0;
    while i < n_bs
        invariant
            i <= n_bs,
            n_bs == cash_flow_balance_sheet_len(),
            cash_flow_fits(b0@, b1@, pl@, corp_tax as int),
            from_pl == flows_from_pl(pl@, cash_flow_profit_loss_len()),
            cf@ == flows_from_bs(from_pl, b0@, b1@, i as nat),
        decreases n_bs - i,
    {
        let r = cash_flow_balance_sheet_rule(i);
        let end = b1.sum_items(&r.pos) - b1.sum_items(&r.neg);
        let beg = b0.sum_items(&r.pos) - b0.sum_items(&r.neg);
        let elem = end - beg;
        assert(fits(
            rule_value(b1@, cash_flow_balance_sheet_spec(i as int)) - rule_value(
                b0@,
                cash_flow_balance_sheet_spec(i as int),
            ),
        ));
        let elem = elem as i64;
        if elem > MATERIALITY || elem < -MATERIALITY {
            cf.insert(r.target, elem);
        }
        i += 1;
    }
    let intr = cf.value(CfType::CashFlowInterests);
    let adj = depreciation_tax_adjust(pl);
    let base = (pl.value(PlType::EBT) as i128 + intr as i128 + adj as i128) as i64;
    let on_interest = fixed_product(corp_tax, intr);
    let payable = fixed_product(corp_tax, base) + fixed_product(gp_tax, pl.value(PlType::GrossProfit))
        - fixed_product(revenue_tax, pl.value(PlType::Revenue));
    let capped: i128 = if payable > 0 {
        payable
    } else {
        0
    };
    let shield = if on_interest < capped {
        on_interest
    } else {
        capped
    };
    let shield = shield as i64;
    if shield > MATERIALITY || shield < -MATERIALITY {
        cf.insert(CfType::CashFlowTaxShield, shield);
    }
    cf
}

/// Number of times `k` is listed in `ks`.
pub open spec fn count_of<K>(ks: Seq<K>, k: K) -> nat
    decreases ks.len(),
{
    if ks.len() == 0 {
        0
    } else {
        count_of(ks.drop_last(), k) + if ks.last() == k {
            1nat
        } else {
            0nat
        }
    }
}

/// When two maps differ only at `k`, by `delta`, the sums over `ks` differ by
/// `delta` once for each listing of `k`.
pub proof fn lemma_sum_shift<K>(b0: Map<K, int>, b1: Map<K, int>, ks: Seq<K>, k: K, delta: int)
    requires
        forall|x: K| x != k ==> #[trigger] amount_of(b1, x) == amount_of(b0, x),
        amount_of(b1, k) == amount_of(b0, k) + delta,
    ensures
        sum_of(b1, ks) - sum_of(b0, ks) == delta * count_of(ks, k),
    decreases ks.len(),
{
    assert(delta * 0 == 0);
    if ks.len() > 0 {
        lemma_sum_shift(b0, b1, ks.drop_last(), k, delta);
        let c = count_of(ks.drop_last(), k);
        assert(delta * (c + 1) == delta * c + delta) by (nonlinear_arith);
        if ks.last() != k {
            assert(amount_of(b1, ks.last()) == amount_of(b0, ks.last()));
        }
    }
}

/// Receivables are listed once, positively, under the change in current
/// assets, and under no other balance-sheet flow.
proof fn lemma_receivables_listed()
    ensures
        cash_flow_balance_sheet_spec(0).target == CfType::ChangeCurrentAssets,
        count_of(cash_flow_balance_sheet_spec(0).pos, BsType::CurrentReceivables) == 1,
        count_of(cash_flow_balance_sheet_spec(0).neg, BsType::CurrentReceivables) == 0,
        forall|i: int|
            1 <= i < cash_flow_balance_sheet_len() ==> count_of(
                #[trigger] cash_flow_balance_sheet_spec(i).pos,
                BsType::CurrentReceivables,
            ) == 0 && count_of(cash_flow_balance_sheet_spec(i).neg, BsType::CurrentReceivables)
                == 0,
{
    reveal_with_fuel(count_of, 13);
}

proof fn lemma_flows_one_change(
    cf: Map<CfType, int>,
    b0: Map<BsType, int>,
    b1: Map<BsType, int>,
    delta: int,
    n: nat,
)
    requires
        1 <= n <= cash_flow_balance_sheet_len(),
        forall|x: BsType| x != BsType::CurrentReceivables ==> #[trigger] amount_of(b1, x) == amount_of(b0, x),
        amount_of(b1, BsType::CurrentReceivables) == amount_of(b0, BsType::CurrentReceivables) + delta,
    ensures
        flows_from_bs(cf, b0, b1, n) == if is_material(delta) {
            cf.insert(CfType::ChangeCurrentAssets, delta)
        } else {
            cf
        },
    decreases n,
{
    lemma_receivables_listed();
    let r = cash_flow_balance_sheet_spec(n - 1);
    lemma_sum_shift(b0, b1, r.pos, BsType::CurrentReceivables, delta);
    lemma_sum_shift(b0, b1, r.neg, BsType::CurrentReceivables, delta);
    assert(delta * 0 == 0);
    assert(delta * 1 == delta);
    if n > 1 {
        lemma_flows_one_change(cf, b0, b1, delta, (n - 1) as nat);
    } else {
        assert(flows_from_bs(cf, b0, b1, 0) == cf);
    }
}

/// Cash-flow delta convention: for two balance sheets that differ only in
/// current receivables, by `delta`, the balance-sheet flows of the period are
/// exactly a change in current assets of `delta` (when material), which the
/// roll-up then subtracts from the cash flow from operations.
pub proof fn lemma_receivables_delta(
    b0: Map<BsType, int>,
    b1: Map<BsType, int>,
    pl: Map<PlType, int>,
    delta: int,
)
    requires
        forall|x: BsType| x != BsType::CurrentReceivables ==> #[trigger] amount_of(b1, x) == amount_of(b0, x),
        amount_of(b1, BsType::CurrentReceivables) == amount_of(b0, BsType::CurrentReceivables) + delta,
    ensures
        table_flows(b0, b1, pl) == if is_material(delta) {
            flows_from_pl(pl, cash_flow_profit_loss_len()).insert(CfType::ChangeCurrentAssets, delta)
        } else {
            flows_from_pl(pl, cash_flow_profit_loss_len())
        },
        CfType::rule_spec(0).target == CfType::CashFlowOperations,
        CfType::rule_spec(0).neg[0] == CfType::ChangeCurrentAssets,
{
    lemma_flows_one_change(
        flows_from_pl(pl, cash_flow_profit_loss_len()),
        b0,
        b1,
        delta,
        cash_flow_balance_sheet_len(),
    );
}

} // verus!
