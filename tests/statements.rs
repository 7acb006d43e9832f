use financelib::accounts::{
    Accounts, BalanceSheet, Date, FinancialReport, PeriodStatement, QUARTER_DAYS,
};
use financelib::balance::{debit_type, BalanceSheetEntry};
use financelib::cashflow::{calc_cash_flow, depreciation_tax_adjust};
use financelib::fmap::{BsMap, CfMap, FinOthersMap, PlMap, MATERIALITY, SCALE};
use financelib::items::{BsType, CfType, FinOthersTyp, PlType};
use financelib::rules::{FinType, LineItem};
use financelib::Currency;

use BalanceSheetEntry::{AssetContra, AssetEntry, EquityEntry, LiabilityEntry};
use BsType::{
    AccumulatedAmortizationLease, AccumulatedDepreciation, Assets, BalanceSheetCheck,
    BondsPayable, Cash, CommonStock, CurrentAdvances, CurrentAssets, CurrentLoans,
    CurrentPayables, CurrentReceivables, Equity, FinishedGoods, Inventories, Liabilities,
    LongTermLiabilities, MinorityInterests, NetPlantPropertyEquipment, PlantPropertyEquipment,
    RawMaterials, RetainedEarnings, WorkInProgress,
};
use CfType::{
    CashFlowFinancing, CashFlowInterests, CashFlowInvestments, CashFlowOperations,
    CashFlowTaxShield, ChangeCurrentAssets, ChangeRetainedEarnings, NetCashFlow,
};
use PlType::{
    CostMaterial, Depreciation, GrossProfit, InterestExpense, OperatingRevenue, OtherExpenses,
    Revenue, Salaries, TaxDepreciation, TaxesCurrent, COGS, EAT, EBITDA, EBT,
};

/// A decimal amount in the library's fixed point.
fn amt(x: f64) -> i64 {
    (x * SCALE as f64).round() as i64
}

/// A whole number of currency units.
fn units(x: i64) -> i64 {
    x * SCALE
}

fn day(y: i32, m: u32, d: u32) -> Date {
    Date::from_ymd(y, m, d).unwrap()
}

#[test]
fn type_checks() {
    let y = Inventories;
    let x = BsType::rule(0).target;
    assert_eq!(Inventories, x);
    assert!(y.is_calc());
    assert!(y.is_calc());
    assert!(NetPlantPropertyEquipment.is_calc());
    assert!(!RawMaterials.is_calc());
    assert!(EBITDA.is_calc());
    assert!(!Salaries.is_calc());
    assert_eq!(debit_type(Inventories), None);
    assert_eq!(debit_type(RawMaterials), Some(AssetEntry));
    assert_eq!(debit_type(CurrentAdvances), Some(AssetEntry));
    assert_eq!(debit_type(NetPlantPropertyEquipment), None);
    assert_eq!(debit_type(AccumulatedDepreciation), Some(AssetContra));
    assert_eq!(debit_type(AccumulatedAmortizationLease), Some(AssetContra));
    assert_eq!(debit_type(LongTermLiabilities), None);
    assert_eq!(debit_type(BondsPayable), Some(LiabilityEntry));
    assert_eq!(debit_type(Equity), None);
    assert_eq!(debit_type(MinorityInterests), Some(EquityEntry));
}

#[test]
fn account_check() {
    let mut beg = BsMap::new();
    beg.insert(Cash, amt(23.5));
    beg.insert(Equity, amt(12.5));
    let mut pl0 = PlMap::new();
    pl0.insert(Revenue, amt(-2.58));
    pl0.insert(EAT, amt(24.8));
    let ac1 = FinancialReport {
        date_beg: day(2009, 5, 22),
        date_end: day(2010, 9, 27),
        balance_sheet_beg: Some(beg),
        balance_sheet_end: None,
        profit_loss: Some(pl0),
        cash_flow: None,
        others: Some(FinOthersMap::new()),
    };
    let bg = ac1.balance_sheet_beg.as_ref().unwrap();
    assert_eq!(bg.value(Cash), amt(23.5));
    assert_eq!(bg.value(CommonStock), 0);

    let mut bs = BsMap::new();
    bs.insert(Cash, amt(30.45));
    bs.insert(CurrentReceivables, amt(80.56));
    bs.upsert_vec(&vec![(Cash, amt(24.45)), (CurrentLoans, amt(34.56))]);
    bs.add(WorkInProgress, amt(15.6));
    bs.add_vec(&vec![(Cash, amt(15.23)), (RawMaterials, amt(87.5))]);
    bs.upsert(CurrentPayables, amt(89.5));
    bs.add(RawMaterials, amt(12.13));
    bs.upsert(CurrentLoans, amt(22.86));
    assert_eq!(bs.value(Cash), amt(39.68));
    assert_eq!(bs.value(RawMaterials), amt(99.63));
    assert_eq!(bs.value(WorkInProgress), amt(15.6));
    assert_eq!(bs.value(CurrentPayables), amt(89.5));
    assert_eq!(bs.value(CurrentLoans), amt(22.86));
    assert_eq!(bs.value(Equity), 0);

    let mut pl = PlMap::new();
    pl.insert(OperatingRevenue, amt(58.35));
    pl.insert(OtherExpenses, amt(41.58));
    pl.upsert(OperatingRevenue, amt(15.76));
    pl.upsert_vec(&vec![(CostMaterial, amt(55.87)), (OperatingRevenue, amt(88.65))]);
    pl.add(OperatingRevenue, amt(-22.6));
    assert_eq!(pl.value(OperatingRevenue), amt(66.05));
    assert_eq!(pl.value(EAT), 0);

    let mut cf = CfMap::new();
    cf.insert(CashFlowFinancing, amt(58.35));
    cf.insert(NetCashFlow, amt(41.58));
    assert_eq!(cf.value(CashFlowFinancing), amt(58.35));
    assert_eq!(cf.value(CashFlowInvestments), 0);
}

#[test]
fn roll_up_sums_contributors() {
    let mut bs = BsMap::new();
    bs.upsert(Cash, units(100));
    bs.upsert(RawMaterials, units(10));
    bs.upsert(WorkInProgress, units(5));
    bs.upsert(FinishedGoods, units(7));
    bs.upsert(PlantPropertyEquipment, units(300));
    bs.upsert(AccumulatedDepreciation, units(120));
    bs.upsert(CurrentPayables, units(50));
    bs.upsert(CommonStock, units(200));
    bs.calc_elements();
    assert_eq!(bs.value(Inventories), units(22));
    assert_eq!(bs.value(CurrentAssets), units(122));
    assert_eq!(bs.value(NetPlantPropertyEquipment), units(180));
    assert_eq!(bs.value(Assets), units(302));
    assert_eq!(bs.value(Liabilities), units(50));
    assert_eq!(bs.value(Equity), units(200));
    assert_eq!(bs.value(BalanceSheetCheck), units(52));
}

#[test]
fn balance_sheet_identity_holds_when_balanced() {
    let mut bs = BsMap::new();
    bs.upsert(Cash, units(250));
    bs.upsert(CurrentPayables, units(50));
    bs.upsert(CommonStock, units(200));
    bs.calc_elements();
    assert_eq!(bs.get(BalanceSheetCheck), None);
    assert_eq!(bs.value(Assets) - bs.value(Liabilities) - bs.value(Equity), 0);
}

#[test]
fn debit_credit_round_trip() {
    let mut bs = BsMap::new();
    bs.upsert(Cash, units(40));
    bs.upsert(AccumulatedDepreciation, units(10));
    bs.debit(Cash, units(15));
    assert_eq!(bs.value(Cash), units(55));
    bs.credit(Cash, units(15));
    assert_eq!(bs.value(Cash), units(40));
    bs.debit(AccumulatedDepreciation, units(3));
    assert_eq!(bs.value(AccumulatedDepreciation), units(7));
    bs.credit(AccumulatedDepreciation, units(3));
    assert_eq!(bs.value(AccumulatedDepreciation), units(10));
    bs.credit(BondsPayable, units(8));
    assert_eq!(bs.value(BondsPayable), units(8));
}

#[test]
fn transactions_balance() {
    let mut bs = BsMap::new();
    bs.transact((Cash, CommonStock, units(100)));
    assert_eq!(bs.value(Cash), units(100));
    assert_eq!(bs.value(CommonStock), units(100));
    bs.transact_series(vec![(RawMaterials, Cash, units(30)), (Cash, BondsPayable, units(20))]);
    assert_eq!(bs.value(Cash), units(90));
    assert_eq!(bs.value(RawMaterials), units(30));
    assert_eq!(bs.value(BondsPayable), units(20));
    bs.calc_elements();
    assert_eq!(bs.get(BalanceSheetCheck), None);
}

#[test]
fn every_rule_target_is_guarded() {
    for i in 0..BsType::rule_count() {
        assert!(BsType::rule(i).target.is_calc());
    }
    for i in 0..PlType::rule_count() {
        assert!(PlType::rule(i).target.is_calc());
    }
    for i in 0..CfType::rule_count() {
        assert!(CfType::rule(i).target.is_calc());
    }
    let n_calc = (0..BsType::count_items()).filter(|&i| BsType::from_index(i).is_calc()).count();
    assert_eq!(n_calc, BsType::rule_count());
    let n_calc = (0..PlType::count_items()).filter(|&i| PlType::from_index(i).is_calc()).count();
    assert_eq!(n_calc, PlType::rule_count());
    let n_calc = (0..CfType::count_items()).filter(|&i| CfType::from_index(i).is_calc()).count();
    assert_eq!(n_calc, CfType::rule_count());
    assert!(!FinOthersTyp::CorporateTaxRate.is_calc());
}

#[test]
fn receivables_movement_is_operating_outflow() {
    let mut b0 = BsMap::new();
    b0.upsert(Cash, units(100));
    b0.upsert(CurrentReceivables, units(40));
    let mut b1 = BsMap::new();
    b1.upsert(Cash, units(100));
    b1.upsert(CurrentReceivables, units(65));
    let pl = PlMap::new();
    let mut cf = calc_cash_flow(&b0, &b1, &pl, 0, 0, 0);
    assert_eq!(cf.value(ChangeCurrentAssets), units(25));
    cf.calc_elements();
    assert_eq!(cf.value(CashFlowOperations), -units(25));
    assert_eq!(cf.value(NetCashFlow), -units(25));
}

#[test]
fn immaterial_values_are_dropped_and_derivation_is_stable() {
    let mut bs = BsMap::new();
    bs.upsert(RawMaterials, MATERIALITY);
    bs.upsert(Cash, units(5));
    bs.calc_elements();
    assert_eq!(bs.get(Inventories), None);
    assert_eq!(bs.value(CurrentAssets), units(5));
    let first = bs.entries();
    bs.calc_elements();
    assert_eq!(bs.entries(), first);
    bs.upsert(RawMaterials, 2 * MATERIALITY);
    bs.calc_elements();
    assert_eq!(bs.get(Inventories), Some(2 * MATERIALITY));
}

#[test]
fn empty_map_derives_nothing() {
    let mut pl = PlMap::new();
    pl.calc_elements();
    assert!(pl.entries().is_empty());
    assert_eq!(pl.value(Revenue), 0);
}

#[test]
fn clean_and_remove_calc_clean() {
    let mut bs = BsMap::new();
    bs.insert(Cash, units(10));
    bs.insert(CurrentReceivables, 1);
    bs.insert(Assets, units(99));
    bs.clean();
    assert_eq!(bs.get(CurrentReceivables), None);
    assert_eq!(bs.get(Assets), Some(units(99)));
    bs.remove_calc_clean();
    assert_eq!(bs.get(Assets), None);
    assert_eq!(bs.entries(), vec![(Cash, units(10))]);
}

#[test]
fn common_size_divides_by_anchor() {
    let mut pl = PlMap::new();
    pl.upsert(OperatingRevenue, units(400));
    pl.upsert(CostMaterial, units(100));
    pl.calc_elements();
    let cs = pl.common_size();
    assert_eq!(cs.value(Revenue), SCALE);
    assert_eq!(cs.value(COGS), SCALE / 4);
    assert_eq!(cs.value(GrossProfit), 3 * SCALE / 4);
}

#[test]
fn depreciation_adjustment() {
    let mut pl = PlMap::new();
    pl.upsert(Depreciation, units(30));
    assert_eq!(depreciation_tax_adjust(&pl), 0);
    pl.upsert(TaxDepreciation, units(45));
    assert_eq!(depreciation_tax_adjust(&pl), -units(15));
}

#[test]
fn tax_shield_is_capped_by_payable_tax() {
    let b = BsMap::new();
    let mut pl = PlMap::new();
    pl.upsert(OperatingRevenue, units(1000));
    pl.upsert(InterestExpense, units(100));
    pl.calc_elements();
    // EBT = 900; base = 900 + 100 = 1000; corporate tax 30% => 300 payable;
    // shield = min(30% * 100, 300) = 30.
    let corp = 30 * SCALE / 100;
    let cf = calc_cash_flow(&b, &b, &pl, corp, 0, 0);
    assert_eq!(cf.value(CashFlowInterests), units(100));
    assert_eq!(cf.value(CashFlowTaxShield), units(30));
    // A revenue tax of 10% (100) leaves 200 payable: still 30.
    let cf = calc_cash_flow(&b, &b, &pl, corp, 0, 10 * SCALE / 100);
    assert_eq!(cf.value(CashFlowTaxShield), units(30));
    // A revenue tax of 99% (990) exceeds the payable tax: no shield.
    let cf = calc_cash_flow(&b, &b, &pl, corp, 0, 99 * SCALE / 100);
    assert_eq!(cf.get(CashFlowTaxShield), None);
}

#[test]
fn dates_come_from_chrono() {
    assert_eq!(day(1970, 1, 1).days, 719_163);
    assert_eq!(day(1, 1, 1).days, 1);
    assert_eq!(Date::from_ymd(2023, 2, 29), None);
    assert_eq!(Date::from_ymd(2023, 13, 1), None);
    assert_eq!(day(2024, 3, 1).days - day(2024, 2, 1).days, 29);
}

fn two_period_accounts() -> (Accounts, Date, Date) {
    let d0 = day(2020, 1, 1);
    let d1 = day(2020, 12, 31);
    let mut ac = Accounts::new(Currency::USD, false);
    let mut b0 = BsMap::new();
    b0.upsert(Cash, units(100));
    b0.upsert(CurrentReceivables, units(50));
    b0.upsert(CommonStock, units(150));
    let mut b1 = BsMap::new();
    b1.upsert(Cash, units(300));
    b1.upsert(CurrentReceivables, units(80));
    b1.upsert(CommonStock, units(150));
    b1.upsert(RetainedEarnings, units(230));
    ac.add_balance_sheet(BalanceSheet { date: d0, items: b0 });
    ac.add_balance_sheet(BalanceSheet { date: d1, items: b1 });
    let mut pl = PlMap::new();
    pl.upsert(OperatingRevenue, units(500));
    pl.upsert(CostMaterial, units(300));
    ac.add_profit_loss(PeriodStatement { date_beg: d0, date_end: d1, items: pl });
    (ac, d0, d1)
}

#[test]
fn end_to_end_two_dates() {
    let (mut ac, d0, d1) = two_period_accounts();
    ac.set_dates_from_profit_loss();
    assert!(ac.valid_date(d0));
    assert!(ac.valid_date(d1));
    assert_eq!(ac.dates.len(), 2);
    ac.calc_elements();
    ac.set_tax_rates(0, 0, 0);
    ac.calc_cash_flow();
    ac.calc_elements();
    assert_eq!(ac.get_profit_loss((d0, d1), GrossProfit), units(200));
    assert_eq!(ac.get_profit_loss((d0, d1), Revenue), units(500));
    assert_eq!(ac.get_profit_loss((d0, d1), COGS), units(300));
    assert_eq!(ac.get_cash_flow((d0, d1), ChangeCurrentAssets), units(30));
    assert_eq!(ac.get_cash_flow((d0, d1), ChangeRetainedEarnings), units(230));
    let cfo = ac.get_cash_flow((d0, d1), CashFlowOperations);
    let cfi = ac.get_cash_flow((d0, d1), CashFlowInvestments);
    let cff = ac.get_cash_flow((d0, d1), CashFlowFinancing);
    assert_eq!(cfo, units(200));
    assert_eq!(ac.get_cash_flow((d0, d1), NetCashFlow), cfo + cfi + cff);
    assert_eq!(ac.get_cash_flow((d0, d1), NetCashFlow), units(200));
    assert_eq!(
        ac.get_balance_sheet(d1, Cash) - ac.get_balance_sheet(d0, Cash),
        ac.get_cash_flow((d0, d1), NetCashFlow)
    );
}

#[test]
fn reports_and_periods() {
    let (mut ac, d0, d1) = two_period_accounts();
    let q0 = day(2021, 1, 1);
    let q1 = day(2021, 3, 31);
    ac.add_profit_loss(PeriodStatement { date_beg: q0, date_end: q1, items: PlMap::new() });
    let edge = day(2021, 5, 1);
    assert_eq!(edge.days - q0.days, QUARTER_DAYS);
    ac.add_profit_loss(PeriodStatement { date_beg: q0, date_end: edge, items: PlMap::new() });
    let (ann, qtr) = ac.split_periods();
    assert_eq!(ann, vec![(d0, d1)]);
    assert_eq!(qtr, vec![(q0, q1), (q0, edge)]);

    let rep = ac.get_account(d0, d1).unwrap();
    assert!(rep.balance_sheet_beg.is_some());
    assert!(rep.cash_flow.is_none());
    assert_eq!(rep.profit_loss.as_ref().unwrap().value(OperatingRevenue), units(500));
    let rep_q = ac.get_account(q0, q1).unwrap();
    assert!(rep_q.balance_sheet_beg.is_none());
    assert!(ac.get_account(d1, q0).is_none());
    assert_eq!(ac.to_account_vec().len(), 3);

    let (bs0, bs1, pl, cf, fo) = rep.to_statements();
    assert_eq!(bs0.as_ref().unwrap().date, d0);
    assert!(bs1.is_some());
    assert!(cf.is_none());
    assert!(fo.is_none());
    let back = FinancialReport::from_statements(&bs0, &bs1, &pl, &cf, &fo).unwrap();
    assert_eq!(back.date_beg, d0);
    assert_eq!(back.date_end, d1);
    let wrong = FinancialReport::from_statements(&bs1, &bs0, &pl, &cf, &fo);
    assert!(wrong.is_none());
}

#[test]
fn report_derives_its_cash_flow() {
    let (mut ac, d0, d1) = two_period_accounts();
    ac.set_tax_rates(0, 0, 0);
    let mut rep = ac.get_account(d0, d1).unwrap();
    rep.calc_elements();
    assert_eq!(rep.profit_loss.as_ref().unwrap().value(GrossProfit), units(200));
    assert_eq!(rep.cash_flow.as_ref().unwrap().value(NetCashFlow), units(200));
}

#[test]
fn point_mutators_and_tax() {
    let (mut ac, d0, d1) = two_period_accounts();
    ac.put_balance_sheet(d0, CurrentReceivables, units(60));
    assert_eq!(ac.get_balance_sheet(d0, CurrentReceivables), units(60));
    ac.put_profit_loss((d0, d1), InterestExpense, units(100));
    assert_eq!(ac.get_profit_loss((d0, d1), InterestExpense), units(100));
    ac.set_tax_rates(10 * SCALE / 100, 0, 50 * SCALE / 100 / 100);
    ac.calc_tax();
    // EBT = 500 - 300 - 100 = 100: 10% is 10; revenue tax 0.5% of 500 is 2.5.
    assert_eq!(ac.get_profit_loss((d0, d1), TaxesCurrent), units(10));
    assert_eq!(ac.get_profit_loss((d0, d1), EAT), units(90));
    ac.calc_cash_flow();
    ac.put_cash_flow((d0, d1), CashFlowTaxShield, units(1));
    assert_eq!(ac.get_cash_flow((d0, d1), CashFlowTaxShield), units(1));
    let mut rates = FinOthersMap::new();
    rates.insert(FinOthersTyp::CorporateTaxRate, SCALE);
    assert_eq!(rates.value(FinOthersTyp::CorporateTaxRate), SCALE);
}

#[test]
fn store_wide_cleaning() {
    let (mut ac, d0, d1) = two_period_accounts();
    ac.calc_elements();
    assert_eq!(ac.get_balance_sheet(d0, Assets), units(150));
    ac.remove_calc_clean();
    assert_eq!(ac.get_balance_sheet(d0, Assets), 0);
    assert_eq!(ac.get_balance_sheet(d0, Cash), units(100));
    assert_eq!(ac.get_profit_loss((d0, d1), GrossProfit), 0);
    assert_eq!(ac.get_profit_loss((d0, d1), OperatingRevenue), units(500));
}

#[test]
fn minimum_tax_on_revenue_wins() {
    let (mut ac, d0, d1) = two_period_accounts();
    // EBT = 200: 1% corporate tax is 2; 1% revenue tax on 500 is 5.
    ac.set_tax_rates(SCALE / 100, 0, SCALE / 100);
    ac.calc_tax();
    assert_eq!(ac.get_profit_loss((d0, d1), TaxesCurrent), units(5));
    assert_eq!(ac.get_profit_loss((d0, d1), EAT), units(195));
}

#[test]
fn profit_and_loss_chain() {
    let mut pl = PlMap::new();
    pl.upsert(OperatingRevenue, units(1000));
    pl.upsert(CostMaterial, units(400));
    pl.upsert(Salaries, units(100));
    pl.upsert(Depreciation, units(50));
    pl.upsert(InterestExpense, units(20));
    pl.upsert(TaxesCurrent, units(30));
    pl.calc_elements();
    assert_eq!(pl.value(GrossProfit), units(600));
    assert_eq!(pl.value(EBITDA), units(500));
    assert_eq!(pl.value(EBT), units(430));
    assert_eq!(pl.value(EAT), units(400));
    assert_eq!(pl.value(PlType::NetIncome), units(400));
    assert_eq!(pl.value(PlType::TotalComprehensiveIncome), units(400));
}

#[test]
fn dates_form_an_ordered_set() {
    let mut ac = Accounts::new(Currency::INR, true);
    let a = day(2021, 1, 1);
    let b = day(2021, 6, 30);
    let c = day(2021, 12, 31);
    ac.add_profit_loss(PeriodStatement { date_beg: b, date_end: c, items: PlMap::new() });
    ac.add_profit_loss(PeriodStatement { date_beg: a, date_end: b, items: PlMap::new() });
    ac.add_profit_loss(PeriodStatement { date_beg: a, date_end: c, items: PlMap::new() });
    ac.set_dates_from_profit_loss();
    assert_eq!(ac.dates, vec![a, b, c]);
    assert!(!ac.valid_date(day(2021, 3, 1)));
}

#[test]
fn tax_rates_keep_other_figures() {
    let (mut ac, d0, d1) = two_period_accounts();
    let mut fo = FinOthersMap::new();
    fo.insert(FinOthersTyp::CurrentRatio, 3 * SCALE);
    ac.add_others(PeriodStatement { date_beg: d0, date_end: d1, items: fo });
    let far = day(2030, 1, 1);
    let mut other = FinOthersMap::new();
    other.insert(FinOthersTyp::AcidRatio, SCALE);
    ac.add_others(PeriodStatement { date_beg: far, date_end: far, items: other });
    ac.set_tax_rates(SCALE / 10, SCALE / 50, SCALE / 200);
    assert_eq!(ac.others.len(), 2);
    let o = &ac.others[0].items;
    assert_eq!(o.value(FinOthersTyp::CurrentRatio), 3 * SCALE);
    assert_eq!(o.value(FinOthersTyp::CorporateTaxRate), SCALE / 10);
    assert_eq!(o.value(FinOthersTyp::RevenueTaxRate), SCALE / 200);
    assert_eq!(ac.others[1].items.entries(), vec![(FinOthersTyp::AcidRatio, SCALE)]);
}

#[test]
fn cash_flow_pass_leaves_other_periods() {
    let (mut ac, d0, d1) = two_period_accounts();
    let far = day(2030, 1, 1);
    let mut kept = CfMap::new();
    kept.insert(CashFlowFinancing, units(7));
    ac.add_cash_flow(PeriodStatement { date_beg: far, date_end: far, items: kept });
    ac.set_tax_rates(0, 0, 0);
    ac.calc_cash_flow();
    assert_eq!(ac.cash_flow.len(), 2);
    assert_eq!(ac.cash_flow[0].items.entries(), vec![(CashFlowFinancing, units(7))]);
    assert_eq!(ac.get_cash_flow((d0, d1), NetCashFlow), units(200));
}
