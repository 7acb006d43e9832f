//! Line-item taxonomies of the three statements and their roll-up rule tables.

use crate::rules::{FinType, LineItem, Rule, RuleView};
use vstd::prelude::*;

verus! {

/// Balance-sheet line items.
#[derive(Debug, Clone, Copy, PartialEq, Eq, Structural, PartialOrd, Ord, Hash)]
pub enum BsType {
    Cash,
    CurrentReceivables,
    CurrentLoans,
    CurrentAdvances,
    OtherCurrentAssets,
    CurrentInvestments,
    Inventories,
    RawMaterials,
    WorkInProgress,
    FinishedGoods,
    CurrentAssets,
    AccountReceivables,
    LongTermLoanAssets,
    LongTermAdvances,
    LongTermInvestments,
    OtherLongTermAssets,
    PlantPropertyEquipment,
    AccumulatedDepreciation,
    NetPlantPropertyEquipment,
    LeasingRentalAssets,
    AccumulatedAmortizationLease,
    NetLeaseRentalAssets,
    Goodwill,
    CapitalWip,
    OtherTangibleAssets,
    IntangibleAssets,
    IntangibleAssetsDevelopment,
    AccumulatedAmortization,
    NetIntangibleAssets,
    LongTermAssets,
    Assets,
    CurrentPayables,
    CurrentBorrowings,
    CurrentNotesPayable,
    OtherCurrentLiabilities,
    InterestPayable,
    CurrentProvisions,
    CurrentTaxPayables,
    LiabilitiesSaleAssets,
    CurrentLeasesLiability,
    CurrentLiabilities,
    AccountPayables,
    LongTermBorrowings,
    BondsPayable,
    DeferredTaxLiabilities,
    LongTermLeasesLiability,
    DeferredCompensation,
    DeferredRevenues,
    CustomerDeposits,
    OtherLongTermLiabilities,
    PensionProvision,
    TaxProvision,
    LongTermProvision,
    LongTermLiabilities,
    Liabilities,
    CommonStock,
    PreferredStock,
    PdInCapAbovePar,
    PdInCapTreasuryStock,
    RevaluationReserves,
    Reserves,
    RetainedEarnings,
    AccumulatedOCI,
    MinorityInterests,
    Equity,
    BalanceSheetCheck,
}

impl LineItem for BsType {
    open spec fn idx(self) -> nat {
        match self {
            BsType::Cash => 0,
            BsType::CurrentReceivables => 1,
            BsType::CurrentLoans => 2,
            BsType::CurrentAdvances => 3,
            BsType::OtherCurrentAssets => 4,
            BsType::CurrentInvestments => 5,
            BsType::Inventories => 6,
            BsType::RawMaterials => 7,
            BsType::WorkInProgress => 8,
            BsType::FinishedGoods => 9,
            BsType::CurrentAssets => 10,
            BsType::AccountReceivables => 11,
            BsType::LongTermLoanAssets => 12,
            BsType::LongTermAdvances => 13,
            BsType::LongTermInvestments => 14,
            BsType::OtherLongTermAssets => 15,
            BsType::PlantPropertyEquipment => 16,
            BsType::AccumulatedDepreciation => 17,
            BsType::NetPlantPropertyEquipment => 18,
            BsType::LeasingRentalAssets => 19,
            BsType::AccumulatedAmortizationLease => 20,
            BsType::NetLeaseRentalAssets => 21,
            BsType::Goodwill => 22,
            BsType::CapitalWip => 23,
            BsType::OtherTangibleAssets => 24,
            BsType::IntangibleAssets => 25,
            BsType::IntangibleAssetsDevelopment => 26,
            BsType::AccumulatedAmortization => 27,
            BsType::NetIntangibleAssets => 28,
            BsType::LongTermAssets => 29,
            BsType::Assets => 30,
            BsType::CurrentPayables => 31,
            BsType::CurrentBorrowings => 32,
            BsType::CurrentNotesPayable => 33,
            BsType::OtherCurrentLiabilities => 34,
            BsType::InterestPayable => 35,
            BsType::CurrentProvisions => 36,
            BsType::CurrentTaxPayables => 37,
            BsType::LiabilitiesSaleAssets => 38,
            BsType::CurrentLeasesLiability => 39,
            BsType::CurrentLiabilities => 40,
            BsType::AccountPayables => 41,
            BsType::LongTermBorrowings => 42,
            BsType::BondsPayable => 43,
            BsType::DeferredTaxLiabilities => 44,
            BsType::LongTermLeasesLiability => 45,
            BsType::DeferredCompensation => 46,
            BsType::DeferredRevenues => 47,
            BsType::CustomerDeposits => 48,
            BsType::OtherLongTermLiabilities => 49,
            BsType::PensionProvision => 50,
            BsType::TaxProvision => 51,
            BsType::LongTermProvision => 52,
            BsType::LongTermLiabilities => 53,
            BsType::Liabilities => 54,
            BsType::CommonStock => 55,
            BsType::PreferredStock => 56,
            BsType::PdInCapAbovePar => 57,
            BsType::PdInCapTreasuryStock => 58,
            BsType::RevaluationReserves => 59,
            BsType::Reserves => 60,
            BsType::RetainedEarnings => 61,
            BsType::AccumulatedOCI => 62,
            BsType::MinorityInterests => 63,
            BsType::Equity => 64,
            BsType::BalanceSheetCheck => 65,
        }
    }

    open spec fn count() -> nat {
        66
    }

    open spec fn from_idx(i: nat) -> Self {
        if i == 0 {
            BsType::Cash
        } else if i == 1 {
            BsType::CurrentReceivables
        } else if i == 2 {
            BsType::CurrentLoans
        } else if i == 3 {
            BsType::CurrentAdvances
        } else if i == 4 {
            BsType::OtherCurrentAssets
        } else if i == 5 {
            BsType::CurrentInvestments
        } else if i == 6 {
            BsType::Inventories
        } else if i == 7 {
            BsType::RawMaterials
        } else if i == 8 {
            BsType::WorkInProgress
        } else if i == 9 {
            BsType::FinishedGoods
        } else if i == 10 {
            BsType::CurrentAssets
        } else if i == 11 {
            BsType::AccountReceivables
        } else if i == 12 {
            BsType::LongTermLoanAssets
        } else if i == 13 {
            BsType::LongTermAdvances
        } else if i == 14 {
            BsType::LongTermInvestments
        } else if i == 15 {
            BsType::OtherLongTermAssets
        } else if i == 16 {
            BsType::PlantPropertyEquipment
        } else if i == 17 {
            BsType::AccumulatedDepreciation
        } else if i == 18 {
            BsType::NetPlantPropertyEquipment
        } else if i == 19 {
            BsType::LeasingRentalAssets
        } else if i == 20 {
            BsType::AccumulatedAmortizationLease
        } else if i == 21 {
            BsType::NetLeaseRentalAssets
        } else if i == 22 {
            BsType::Goodwill
        } else if i == 23 {
            BsType::CapitalWip
        } else if i == 24 {
            BsType::OtherTangibleAssets
        } else if i == 25 {
            BsType::IntangibleAssets
        } else if i == 26 {
            BsType::IntangibleAssetsDevelopment
        } else if i == 27 {
            BsType::AccumulatedAmortization
        } else if i == 28 {
            BsType::NetIntangibleAssets
        } else if i == 29 {
            BsType::LongTermAssets
        } else if i == 30 {
            BsType::Assets
        } else if i == 31 {
            BsType::CurrentPayables
        } else if i == 32 {
            BsType::CurrentBorrowings
        } else if i == 33 {
            BsType::CurrentNotesPayable
        } else if i == 34 {
            BsType::OtherCurrentLiabilities
        } else if i == 35 {
            BsType::InterestPayable
        } else if i == 36 {
            BsType::CurrentProvisions
        } else if i == 37 {
            BsType::CurrentTaxPayables
        } else if i == 38 {
            BsType::LiabilitiesSaleAssets
        } else if i == 39 {
            BsType::CurrentLeasesLiability
        } else if i == 40 {
            BsType::CurrentLiabilities
        } else if i == 41 {
            BsType::AccountPayables
        } else if i == 42 {
            BsType::LongTermBorrowings
        } else if i == 43 {
            BsType::BondsPayable
        } else if i == 44 {
            BsType::DeferredTaxLiabilities
        } else if i == 45 {
            BsType::LongTermLeasesLiability
        } else if i == 46 {
            BsType::DeferredCompensation
        } else if i == 47 {
            BsType::DeferredRevenues
        } else if i == 48 {
            BsType::CustomerDeposits
        } else if i == 49 {
            BsType::OtherLongTermLiabilities
        } else if i == 50 {
            BsType::PensionProvision
        } else if i == 51 {
            BsType::TaxProvision
        } else if i == 52 {
            BsType::LongTermProvision
        } else if i == 53 {
            BsType::LongTermLiabilities
        } else if i == 54 {
            BsType::Liabilities
        } else if i == 55 {
            BsType::CommonStock
        } else if i == 56 {
            BsType::PreferredStock
        } else if i == 57 {
            BsType::PdInCapAbovePar
        } else if i == 58 {
            BsType::PdInCapTreasuryStock
        } else if i == 59 {
            BsType::RevaluationReserves
        } else if i == 60 {
            BsType::Reserves
        } else if i == 61 {
            BsType::RetainedEarnings
        } else if i == 62 {
            BsType::AccumulatedOCI
        } else if i == 63 {
            BsType::MinorityInterests
        } else if i == 64 {
            BsType::Equity
        } else {
            BsType::BalanceSheetCheck
        }
    }

    proof fn lemma_index(k: Self) {
    }

    proof fn lemma_from_index(i: nat) {
    }

    fn index(self) -> (r: usize) {
        match self {
            BsType::Cash => 0,
            BsType::CurrentReceivables => 1,
            BsType::CurrentLoans => 2,
            BsType::CurrentAdvances => 3,
            BsType::OtherCurrentAssets => 4,
            BsType::CurrentInvestments => 5,
            BsType::Inventories => 6,
            BsType::RawMaterials => 7,
            BsType::WorkInProgress => 8,
            BsType::FinishedGoods => 9,
            BsType::CurrentAssets => 10,
            BsType::AccountReceivables => 11,
            BsType::LongTermLoanAssets => 12,
            BsType::LongTermAdvances => 13,
            BsType::LongTermInvestments => 14,
            BsType::OtherLongTermAssets => 15,
            BsType::PlantPropertyEquipment => 16,
            BsType::AccumulatedDepreciation => 17,
            BsType::NetPlantPropertyEquipment => 18,
            BsType::LeasingRentalAssets => 19,
            BsType::AccumulatedAmortizationLease => 20,
            BsType::NetLeaseRentalAssets => 21,
            BsType::Goodwill => 22,
            BsType::CapitalWip => 23,
            BsType::OtherTangibleAssets => 24,
            BsType::IntangibleAssets => 25,
            BsType::IntangibleAssetsDevelopment => 26,
            BsType::AccumulatedAmortization => 27,
            BsType::NetIntangibleAssets => 28,
            BsType::LongTermAssets => 29,
            BsType::Assets => 30,
            BsType::CurrentPayables => 31,
            BsType::CurrentBorrowings => 32,
            BsType::CurrentNotesPayable => 33,
            BsType::OtherCurrentLiabilities => 34,
            BsType::InterestPayable => 35,
            BsType::CurrentProvisions => 36,
            BsType::CurrentTaxPayables => 37,
            BsType::LiabilitiesSaleAssets => 38,
            BsType::CurrentLeasesLiability => 39,
            BsType::CurrentLiabilities => 40,
            BsType::AccountPayables => 41,
            BsType::LongTermBorrowings => 42,
            BsType::BondsPayable => 43,
            BsType::DeferredTaxLiabilities => 44,
            BsType::LongTermLeasesLiability => 45,
            BsType::DeferredCompensation => 46,
            BsType::DeferredRevenues => 47,
            BsType::CustomerDeposits => 48,
            BsType::OtherLongTermLiabilities => 49,
            BsType::PensionProvision => 50,
            BsType::TaxProvision => 51,
            BsType::LongTermProvision => 52,
            BsType::LongTermLiabilities => 53,
            BsType::Liabilities => 54,
            BsType::CommonStock => 55,
            BsType::PreferredStock => 56,
            BsType::PdInCapAbovePar => 57,
            BsType::PdInCapTreasuryStock => 58,
            BsType::RevaluationReserves => 59,
            BsType::Reserves => 60,
            BsType::RetainedEarnings => 61,
            BsType::AccumulatedOCI => 62,
            BsType::MinorityInterests => 63,
            BsType::Equity => 64,
            BsType::BalanceSheetCheck => 65,
        }
    }

    fn count_items() -> (r: usize) {
        66
    }

    fn from_index(i: usize) -> (r: Self) {
        if i == 0 {
            BsType::Cash
        } else if i == 1 {
            BsType::CurrentReceivables
        } else if i == 2 {
            BsType::CurrentLoans
        } else if i == 3 {
            BsType::CurrentAdvances
        } else if i == 4 {
            BsType::OtherCurrentAssets
        } else if i == 5 {
            BsType::CurrentInvestments
        } else if i == 6 {
            BsType::Inventories
        } else if i == 7 {
            BsType::RawMaterials
        } else if i == 8 {
            BsType::WorkInProgress
        } else if i == 9 {
            BsType::FinishedGoods
        } else if i == 10 {
            BsType::CurrentAssets
        } else if i == 11 {
            BsType::AccountReceivables
        } else if i == 12 {
            BsType::LongTermLoanAssets
        } else if i == 13 {
            BsType::LongTermAdvances
        } else if i == 14 {
            BsType::LongTermInvestments
        } else if i == 15 {
            BsType::OtherLongTermAssets
        } else if i == 16 {
            BsType::PlantPropertyEquipment
        } else if i == 17 {
            BsType::AccumulatedDepreciation
        } else if i == 18 {
            BsType::NetPlantPropertyEquipment
        } else if i == 19 {
            BsType::LeasingRentalAssets
        } else if i == 20 {
            BsType::AccumulatedAmortizationLease
        } else if i == 21 {
            BsType::NetLeaseRentalAssets
        } else if i == 22 {
            BsType::Goodwill
        } else if i == 23 {
            BsType::CapitalWip
        } else if i == 24 {
            BsType::OtherTangibleAssets
        } else if i == 25 {
            BsType::IntangibleAssets
        } else if i == 26 {
            BsType::IntangibleAssetsDevelopment
        } else if i == 27 {
            BsType::AccumulatedAmortization
        } else if i == 28 {
            BsType::NetIntangibleAssets
        } else if i == 29 {
            BsType::LongTermAssets
        } else if i == 30 {
            BsType::Assets
        } else if i == 31 {
            BsType::CurrentPayables
        } else if i == 32 {
            BsType::CurrentBorrowings
        } else if i == 33 {
            BsType::CurrentNotesPayable
        } else if i == 34 {
            BsType::OtherCurrentLiabilities
        } else if i == 35 {
            BsType::InterestPayable
        } else if i == 36 {
            BsType::CurrentProvisions
        } else if i == 37 {
            BsType::CurrentTaxPayables
        } else if i == 38 {
            BsType::LiabilitiesSaleAssets
        } else if i == 39 {
            BsType::CurrentLeasesLiability
        } else if i == 40 {
            BsType::CurrentLiabilities
        } else if i == 41 {
            BsType::AccountPayables
        } else if i == 42 {
            BsType::LongTermBorrowings
        } else if i == 43 {
            BsType::BondsPayable
        } else if i == 44 {
            BsType::DeferredTaxLiabilities
        } else if i == 45 {
            BsType::LongTermLeasesLiability
        } else if i == 46 {
            BsType::DeferredCompensation
        } else if i == 47 {
            BsType::DeferredRevenues
        } else if i == 48 {
            BsType::CustomerDeposits
        } else if i == 49 {
            BsType::OtherLongTermLiabilities
        } else if i == 50 {
            BsType::PensionProvision
        } else if i == 51 {
            BsType::TaxProvision
        } else if i == 52 {
            BsType::LongTermProvision
        } else if i == 53 {
            BsType::LongTermLiabilities
        } else if i == 54 {
            BsType::Liabilities
        } else if i == 55 {
            BsType::CommonStock
        } else if i == 56 {
            BsType::PreferredStock
        } else if i == 57 {
            BsType::PdInCapAbovePar
        } else if i == 58 {
            BsType::PdInCapTreasuryStock
        } else if i == 59 {
            BsType::RevaluationReserves
        } else if i == 60 {
            BsType::Reserves
        } else if i == 61 {
            BsType::RetainedEarnings
        } else if i == 62 {
            BsType::AccumulatedOCI
        } else if i == 63 {
            BsType::MinorityInterests
        } else if i == 64 {
            BsType::Equity
        } else {
            BsType::BalanceSheetCheck
        }
    }
}

impl FinType for BsType {
    open spec fn rank(self) -> int {
        match self {
            BsType::Inventories => 0,
            BsType::CurrentAssets => 1,
            BsType::NetPlantPropertyEquipment => 2,
            BsType::NetLeaseRentalAssets => 3,
            BsType::NetIntangibleAssets => 4,
            BsType::LongTermAssets => 5,
            BsType::Assets => 6,
            BsType::CurrentLiabilities => 7,
            BsType::LongTermLiabilities => 8,
            BsType::Liabilities => 9,
            BsType::Equity => 10,
            BsType::BalanceSheetCheck => 11,
            _ => -1,
        }
    }

    open spec fn n_rules() -> nat {
        12
    }

    open spec fn rule_spec(i: int) -> RuleView<Self, Self> {
        if i == 0 {
            RuleView { target: BsType::Inventories, pos: seq![BsType::RawMaterials, BsType::WorkInProgress, BsType::FinishedGoods], neg: seq![] }
        } else if i == 1 {
            RuleView { target: BsType::CurrentAssets, pos: seq![BsType::Cash, BsType::CurrentReceivables, BsType::CurrentLoans, BsType::CurrentAdvances, BsType::OtherCurrentAssets, BsType::CurrentInvestments, BsType::Inventories], neg: seq![] }
        } else if i == 2 {
            RuleView { target: BsType::NetPlantPropertyEquipment, pos: seq![BsType::PlantPropertyEquipment], neg: seq![BsType::AccumulatedDepreciation] }
        } else if i == 3 {
            RuleView { target: BsType::NetLeaseRentalAssets, pos: seq![BsType::LeasingRentalAssets], neg: seq![BsType::AccumulatedAmortizationLease] }
        } else if i == 4 {
            RuleView { target: BsType::NetIntangibleAssets, pos: seq![BsType::IntangibleAssets, BsType::IntangibleAssetsDevelopment], neg: seq![BsType::AccumulatedAmortization] }
        } else if i == 5 {
            RuleView { target: BsType::LongTermAssets, pos: seq![BsType::AccountReceivables, BsType::LongTermLoanAssets, BsType::LongTermAdvances, BsType::LongTermInvestments, BsType::OtherLongTermAssets, BsType::NetPlantPropertyEquipment, BsType::NetLeaseRentalAssets, BsType::Goodwill, BsType::CapitalWip, BsType::OtherTangibleAssets, BsType::NetIntangibleAssets], neg: seq![] }
        } else if i == 6 {
            RuleView { target: BsType::Assets, pos: seq![BsType::CurrentAssets, BsType::LongTermAssets], neg: seq![] }
        } else if i == 7 {
            RuleView { target: BsType::CurrentLiabilities, pos: seq![BsType::CurrentPayables, BsType::CurrentBorrowings, BsType::CurrentNotesPayable, BsType::OtherCurrentLiabilities, BsType::InterestPayable, BsType::CurrentProvisions, BsType::CurrentTaxPayables, BsType::LiabilitiesSaleAssets, BsType::CurrentLeasesLiability], neg: seq![] }
        } else if i == 8 {
            RuleView { target: BsType::LongTermLiabilities, pos: seq![BsType::AccountPayables, BsType::LongTermBorrowings, BsType::BondsPayable, BsType::DeferredTaxLiabilities, BsType::LongTermLeasesLiability, BsType::DeferredCompensation, BsType::DeferredRevenues, BsType::CustomerDeposits, BsType::OtherLongTermLiabilities, BsType::PensionProvision, BsType::TaxProvision, BsType::LongTermProvision], neg: seq![] }
        } else if i == 9 {
            RuleView { target: BsType::Liabilities, pos: seq![BsType::CurrentLiabilities, BsType::LongTermLiabilities], neg: seq![] }
        } else if i == 10 {
            RuleView { target: BsType::Equity, pos: seq![BsType::CommonStock, BsType::PreferredStock, BsType::PdInCapAbovePar, BsType::PdInCapTreasuryStock, BsType::RevaluationReserves, BsType::Reserves, BsType::RetainedEarnings, BsType::AccumulatedOCI, BsType::MinorityInterests], neg: seq![] }
        } else {
            RuleView { target: BsType::BalanceSheetCheck, pos: seq![BsType::Assets], neg: seq![BsType::Liabilities, BsType::Equity] }
        }
    }

    open spec fn anchor() -> Self {
        BsType::Assets
    }

    proof fn lemma_rule(i: int) {
    }

    proof fn lemma_rank(k: Self) {
    }

    fn is_calc(self) -> (r: bool) {
        match self {
            BsType::Inventories => true,
            BsType::CurrentAssets => true,
            BsType::NetPlantPropertyEquipment => true,
            BsType::NetLeaseRentalAssets => true,
            BsType::NetIntangibleAssets => true,
            BsType::LongTermAssets => true,
            BsType::Assets => true,
            BsType::CurrentLiabilities => true,
            BsType::LongTermLiabilities => true,
            BsType::Liabilities => true,
            BsType::Equity => true,
            BsType::BalanceSheetCheck => true,
            _ => false,
        }
    }

    fn rule_count() -> (r: usize) {
        12
    }

    fn rule(i: usize) -> (r: Rule<Self, Self>) {
        if i == 0 {
            Rule { target: BsType::Inventories, pos: vec![BsType::RawMaterials, BsType::WorkInProgress, BsType::FinishedGoods], neg: vec![] }
        } else if i == 1 {
            Rule { target: BsType::CurrentAssets, pos: vec![BsType::Cash, BsType::CurrentReceivables, BsType::CurrentLoans, BsType::CurrentAdvances, BsType::OtherCurrentAssets, BsType::CurrentInvestments, BsType::Inventories], neg: vec![] }
        } else if i == 2 {
            Rule { target: BsType::NetPlantPropertyEquipment, pos: vec![BsType::PlantPropertyEquipment], neg: vec![BsType::AccumulatedDepreciation] }
        } else if i == 3 {
            Rule { target: BsType::NetLeaseRentalAssets, pos: vec![BsType::LeasingRentalAssets], neg: vec![BsType::AccumulatedAmortizationLease] }
        } else if i == 4 {
            Rule { target: BsType::NetIntangibleAssets, pos: vec![BsType::IntangibleAssets, BsType::IntangibleAssetsDevelopment], neg: vec![BsType::AccumulatedAmortization] }
        } else if i == 5 {
            Rule { target: BsType::LongTermAssets, pos: vec![BsType::AccountReceivables, BsType::LongTermLoanAssets, BsType::LongTermAdvances, BsType::LongTermInvestments, BsType::OtherLongTermAssets, BsType::NetPlantPropertyEquipment, BsType::NetLeaseRentalAssets, BsType::Goodwill, BsType::CapitalWip, BsType::OtherTangibleAssets, BsType::NetIntangibleAssets], neg: vec![] }
        } else if i == 6 {
            Rule { target: BsType::Assets, pos: vec![BsType::CurrentAssets, BsType::LongTermAssets], neg: vec![] }
        } else if i == 7 {
            Rule { target: BsType::CurrentLiabilities, pos: vec![BsType::CurrentPayables, BsType::CurrentBorrowings, BsType::CurrentNotesPayable, BsType::OtherCurrentLiabilities, BsType::InterestPayable, BsType::CurrentProvisions, BsType::CurrentTaxPayables, BsType::LiabilitiesSaleAssets, BsType::CurrentLeasesLiability], neg: vec![] }
        } else if i == 8 {
            Rule { target: BsType::LongTermLiabilities, pos: vec![BsType::AccountPayables, BsType::LongTermBorrowings, BsType::BondsPayable, BsType::DeferredTaxLiabilities, BsType::LongTermLeasesLiability, BsType::DeferredCompensation, BsType::DeferredRevenues, BsType::CustomerDeposits, BsType::OtherLongTermLiabilities, BsType::PensionProvision, BsType::TaxProvision, BsType::LongTermProvision], neg: vec![] }
        } else if i == 9 {
            Rule { target: BsType::Liabilities, pos: vec![BsType::CurrentLiabilities, BsType::LongTermLiabilities], neg: vec![] }
        } else if i == 10 {
            Rule { target: BsType::Equity, pos: vec![BsType::CommonStock, BsType::PreferredStock, BsType::PdInCapAbovePar, BsType::PdInCapTreasuryStock, BsType::RevaluationReserves, BsType::Reserves, BsType::RetainedEarnings, BsType::AccumulatedOCI, BsType::MinorityInterests], neg: vec![] }
        } else {
            Rule { target: BsType::BalanceSheetCheck, pos: vec![BsType::Assets], neg: vec![BsType::Liabilities, BsType::Equity] }
        }
    }

    fn anchor_item() -> (r: Self) {
        BsType::Assets
    }
}

/// Profit-and-loss line items.
#[derive(Debug, Clone, Copy, PartialEq, Eq, Structural, PartialOrd, Ord, Hash)]
pub enum PlType {
    OperatingRevenue,
    NonOperatingRevenue,
    ExciseStaxLevy,
    OtherIncome,
    Revenue,
    CostMaterial,
    DirectExpenses,
    COGS,
    Salaries,
    AdministrativeExpenses,
    ResearchNDevelopment,
    OtherOverheads,
    OtherOperativeExpenses,
    OtherExpenses,
    ExceptionalItems,
    GrossProfit,
    EBITDA,
    Depreciation,
    TaxDepreciation,
    AssetImpairment,
    LossDivestitures,
    Amortization,
    EBITX,
    InterestRevenue,
    InterestExpense,
    CostDebt,
    OtherFinancialRevenue,
    EBTX,
    ExtraordinaryItems,
    PriorYears,
    EBT,
    TaxesCurrent,
    TaxesDeferred,
    EAT,
    NetIncomeDiscontinuedOps,
    NetIncome,
    Dividends,
    ContributionRetainedEarnings,
    GainsLossesForex,
    GainsLossesActurial,
    GrossSalesPPE,
    GrossSalesLeaseRentalAssets,
    GrossSalesIntangibleAssets,
    AccAmortSalesPPE,
    AccAmortSalesLeaseRental,
    AccAmortSalesIntangible,
    SalesAmountPPE,
    SalesAmountLeaseRentalAssets,
    SalesAmountIntangibleAssets,
    GainsLossesSales,
    FvChangeAvlSale,
    OtherDeferredTaxes,
    OtherComprehensiveIncome,
    TotalComprehensiveIncome,
}

impl LineItem for PlType {
    open spec fn idx(self) -> nat {
        match self {
            PlType::OperatingRevenue => 0,
            PlType::NonOperatingRevenue => 1,
            PlType::ExciseStaxLevy => 2,
            PlType::OtherIncome => 3,
            PlType::Revenue => 4,
            PlType::CostMaterial => 5,
            PlType::DirectExpenses => 6,
            PlType::COGS => 7,
            PlType::Salaries => 8,
            PlType::AdministrativeExpenses => 9,
            PlType::ResearchNDevelopment => 10,
            PlType::OtherOverheads => 11,
            PlType::OtherOperativeExpenses => 12,
            PlType::OtherExpenses => 13,
            PlType::ExceptionalItems => 14,
            PlType::GrossProfit => 15,
            PlType::EBITDA => 16,
            PlType::Depreciation => 17,
            PlType::TaxDepreciation => 18,
            PlType::AssetImpairment => 19,
            PlType::LossDivestitures => 20,
            PlType::Amortization => 21,
            PlType::EBITX => 22,
            PlType::InterestRevenue => 23,
            PlType::InterestExpense => 24,
            PlType::CostDebt => 25,
            PlType::OtherFinancialRevenue => 26,
            PlType::EBTX => 27,
            PlType::ExtraordinaryItems => 28,
            PlType::PriorYears => 29,
            PlType::EBT => 30,
            PlType::TaxesCurrent => 31,
            PlType::TaxesDeferred => 32,
            PlType::EAT => 33,
            PlType::NetIncomeDiscontinuedOps => 34,
            PlType::NetIncome => 35,
            PlType::Dividends => 36,
            PlType::ContributionRetainedEarnings => 37,
            PlType::GainsLossesForex => 38,
            PlType::GainsLossesActurial => 39,
            PlType::GrossSalesPPE => 40,
            PlType::GrossSalesLeaseRentalAssets => 41,
            PlType::GrossSalesIntangibleAssets => 42,
            PlType::AccAmortSalesPPE => 43,
            PlType::AccAmortSalesLeaseRental => 44,
            PlType::AccAmortSalesIntangible => 45,
            PlType::SalesAmountPPE => 46,
            PlType::SalesAmountLeaseRentalAssets => 47,
            PlType::SalesAmountIntangibleAssets => 48,
            PlType::GainsLossesSales => 49,
            PlType::FvChangeAvlSale => 50,
            PlType::OtherDeferredTaxes => 51,
            PlType::OtherComprehensiveIncome => 52,
            PlType::TotalComprehensiveIncome => 53,
        }
    }

    open spec fn count() -> nat {
        54
    }

    open spec fn from_idx(i: nat) -> Self {
        if i == 0 {
            PlType::OperatingRevenue
        } else if i == 1 {
            PlType::NonOperatingRevenue
        } else if i == 2 {
            PlType::ExciseStaxLevy
        } else if i == 3 {
            PlType::OtherIncome
        } else if i == 4 {
            PlType::Revenue
        } else if i == 5 {
            PlType::CostMaterial
        } else if i == 6 {
            PlType::DirectExpenses
        } else if i == 7 {
            PlType::COGS
        } else if i == 8 {
            PlType::Salaries
        } else if i == 9 {
            PlType::AdministrativeExpenses
        } else if i == 10 {
            PlType::ResearchNDevelopment
        } else if i == 11 {
            PlType::OtherOverheads
        } else if i == 12 {
            PlType::OtherOperativeExpenses
        } else if i == 13 {
            PlType::OtherExpenses
        } else if i == 14 {
            PlType::ExceptionalItems
        } else if i == 15 {
            PlType::GrossProfit
        } else if i == 16 {
            PlType::EBITDA
        } else if i == 17 {
            PlType::Depreciation
        } else if i == 18 {
            PlType::TaxDepreciation
        } else if i == 19 {
            PlType::AssetImpairment
        } else if i == 20 {
            PlType::LossDivestitures
        } else if i == 21 {
            PlType::Amortization
        } else if i == 22 {
            PlType::EBITX
        } else if i == 23 {
            PlType::InterestRevenue
        } else if i == 24 {
            PlType::InterestExpense
        } else if i == 25 {
            PlType::CostDebt
        } else if i == 26 {
            PlType::OtherFinancialRevenue
        } else if i == 27 {
            PlType::EBTX
        } else if i == 28 {
            PlType::ExtraordinaryItems
        } else if i == 29 {
            PlType::PriorYears
        } else if i == 30 {
            PlType::EBT
        } else if i == 31 {
            PlType::TaxesCurrent
        } else if i == 32 {
            PlType::TaxesDeferred
        } else if i == 33 {
            PlType::EAT
        } else if i == 34 {
            PlType::NetIncomeDiscontinuedOps
        } else if i == 35 {
            PlType::NetIncome
        } else if i == 36 {
            PlType::Dividends
        } else if i == 37 {
            PlType::ContributionRetainedEarnings
        } else if i == 38 {
            PlType::GainsLossesForex
        } else if i == 39 {
            PlType::GainsLossesActurial
        } else if i == 40 {
            PlType::GrossSalesPPE
        } else if i == 41 {
            PlType::GrossSalesLeaseRentalAssets
        } else if i == 42 {
            PlType::GrossSalesIntangibleAssets
        } else if i == 43 {
            PlType::AccAmortSalesPPE
        } else if i == 44 {
            PlType::AccAmortSalesLeaseRental
        } else if i == 45 {
            PlType::AccAmortSalesIntangible
        } else if i == 46 {
            PlType::SalesAmountPPE
        } else if i == 47 {
            PlType::SalesAmountLeaseRentalAssets
        } else if i == 48 {
            PlType::SalesAmountIntangibleAssets
        } else if i == 49 {
            PlType::GainsLossesSales
        } else if i == 50 {
            PlType::FvChangeAvlSale
        } else if i == 51 {
            PlType::OtherDeferredTaxes
        } else if i == 52 {
            PlType::OtherComprehensiveIncome
        } else {
            PlType::TotalComprehensiveIncome
        }
    }

    proof fn lemma_index(k: Self) {
    }

    proof fn lemma_from_index(i: nat) {
    }

    fn index(self) -> (r: usize) {
        match self {
            PlType::OperatingRevenue => 0,
            PlType::NonOperatingRevenue => 1,
            PlType::ExciseStaxLevy => 2,
            PlType::OtherIncome => 3,
            PlType::Revenue => 4,
            PlType::CostMaterial => 5,
            PlType::DirectExpenses => 6,
            PlType::COGS => 7,
            PlType::Salaries => 8,
            PlType::AdministrativeExpenses => 9,
            PlType::ResearchNDevelopment => 10,
            PlType::OtherOverheads => 11,
            PlType::OtherOperativeExpenses => 12,
            PlType::OtherExpenses => 13,
            PlType::ExceptionalItems => 14,
            PlType::GrossProfit => 15,
            PlType::EBITDA => 16,
            PlType::Depreciation => 17,
            PlType::TaxDepreciation => 18,
            PlType::AssetImpairment => 19,
            PlType::LossDivestitures => 20,
            PlType::Amortization => 21,
            PlType::EBITX => 22,
            PlType::InterestRevenue => 23,
            PlType::InterestExpense => 24,
            PlType::CostDebt => 25,
            PlType::OtherFinancialRevenue => 26,
            PlType::EBTX => 27,
            PlType::ExtraordinaryItems => 28,
            PlType::PriorYears => 29,
            PlType::EBT => 30,
            PlType::TaxesCurrent => 31,
            PlType::TaxesDeferred => 32,
            PlType::EAT => 33,
            PlType::NetIncomeDiscontinuedOps => 34,
            PlType::NetIncome => 35,
            PlType::Dividends => 36,
            PlType::ContributionRetainedEarnings => 37,
            PlType::GainsLossesForex => 38,
            PlType::GainsLossesActurial => 39,
            PlType::GrossSalesPPE => 40,
            PlType::GrossSalesLeaseRentalAssets => 41,
            PlType::GrossSalesIntangibleAssets => 42,
            PlType::AccAmortSalesPPE => 43,
            PlType::AccAmortSalesLeaseRental => 44,
            PlType::AccAmortSalesIntangible => 45,
            PlType::SalesAmountPPE => 46,
            PlType::SalesAmountLeaseRentalAssets => 47,
            PlType::SalesAmountIntangibleAssets => 48,
            PlType::GainsLossesSales => 49,
            PlType::FvChangeAvlSale => 50,
            PlType::OtherDeferredTaxes => 51,
            PlType::OtherComprehensiveIncome => 52,
            PlType::TotalComprehensiveIncome => 53,
        }
    }

    fn count_items() -> (r: usize) {
        54
    }

    fn from_index(i: usize) -> (r: Self) {
        if i == 0 {
            PlType::OperatingRevenue
        } else if i == 1 {
            PlType::NonOperatingRevenue
        } else if i == 2 {
            PlType::ExciseStaxLevy
        } else if i == 3 {
            PlType::OtherIncome
        } else if i == 4 {
            PlType::Revenue
        } else if i == 5 {
            PlType::CostMaterial
        } else if i == 6 {
            PlType::DirectExpenses
        } else if i == 7 {
            PlType::COGS
        } else if i == 8 {
            PlType::Salaries
        } else if i == 9 {
            PlType::AdministrativeExpenses
        } else if i == 10 {
            PlType::ResearchNDevelopment
        } else if i == 11 {
            PlType::OtherOverheads
        } else if i == 12 {
            PlType::OtherOperativeExpenses
        } else if i == 13 {
            PlType::OtherExpenses
        } else if i == 14 {
            PlType::ExceptionalItems
        } else if i == 15 {
            PlType::GrossProfit
        } else if i == 16 {
            PlType::EBITDA
        } else if i == 17 {
            PlType::Depreciation
        } else if i == 18 {
            PlType::TaxDepreciation
        } else if i == 19 {
            PlType::AssetImpairment
        } else if i == 20 {
            PlType::LossDivestitures
        } else if i == 21 {
            PlType::Amortization
        } else if i == 22 {
            PlType::EBITX
        } else if i == 23 {
            PlType::InterestRevenue
        } else if i == 24 {
            PlType::InterestExpense
        } else if i == 25 {
            PlType::CostDebt
        } else if i == 26 {
            PlType::OtherFinancialRevenue
        } else if i == 27 {
            PlType::EBTX
        } else if i == 28 {
            PlType::ExtraordinaryItems
        } else if i == 29 {
            PlType::PriorYears
        } else if i == 30 {
            PlType::EBT
        } else if i == 31 {
            PlType::TaxesCurrent
        } else if i == 32 {
            PlType::TaxesDeferred
        } else if i == 33 {
            PlType::EAT
        } else if i == 34 {
            PlType::NetIncomeDiscontinuedOps
        } else if i == 35 {
            PlType::NetIncome
        } else if i == 36 {
            PlType::Dividends
        } else if i == 37 {
            PlType::ContributionRetainedEarnings
        } else if i == 38 {
            PlType::GainsLossesForex
        } else if i == 39 {
            PlType::GainsLossesActurial
        } else if i == 40 {
            PlType::GrossSalesPPE
        } else if i == 41 {
            PlType::GrossSalesLeaseRentalAssets
        } else if i == 42 {
            PlType::GrossSalesIntangibleAssets
        } else if i == 43 {
            PlType::AccAmortSalesPPE
        } else if i == 44 {
            PlType::AccAmortSalesLeaseRental
        } else if i == 45 {
            PlType::AccAmortSalesIntangible
        } else if i == 46 {
            PlType::SalesAmountPPE
        } else if i == 47 {
            PlType::SalesAmountLeaseRentalAssets
        } else if i == 48 {
            PlType::SalesAmountIntangibleAssets
        } else if i == 49 {
            PlType::GainsLossesSales
        } else if i == 50 {
            PlType::FvChangeAvlSale
        } else if i == 51 {
            PlType::OtherDeferredTaxes
        } else if i == 52 {
            PlType::OtherComprehensiveIncome
        } else {
            PlType::TotalComprehensiveIncome
        }
    }
}

impl FinType for PlType {
    open spec fn rank(self) -> int {
        match self {
            PlType::Revenue => 0,
            PlType::COGS => 1,
            PlType::GrossProfit => 2,
            PlType::EBITDA => 3,
            PlType::EBITX => 4,
            PlType::EBTX => 5,
            PlType::EBT => 6,
            PlType::EAT => 7,
            PlType::NetIncome => 8,
            PlType::ContributionRetainedEarnings => 9,
            PlType::GainsLossesSales => 10,
            PlType::OtherComprehensiveIncome => 11,
            PlType::TotalComprehensiveIncome => 12,
            _ => -1,
        }
    }

    open spec fn n_rules() -> nat {
        13
    }

    open spec fn rule_spec(i: int) -> RuleView<Self, Self> {
        if i == 0 {
            RuleView { target: PlType::Revenue, pos: seq![PlType::OperatingRevenue, PlType::NonOperatingRevenue], neg: seq![PlType::ExciseStaxLevy] }
        } else if i == 1 {
            RuleView { target: PlType::COGS, pos: seq![PlType::CostMaterial, PlType::DirectExpenses], neg: seq![] }
        } else if i == 2 {
            RuleView { target: PlType::GrossProfit, pos: seq![PlType::Revenue], neg: seq![PlType::COGS] }
        } else if i == 3 {
            RuleView { target: PlType::EBITDA, pos: seq![PlType::GrossProfit, PlType::OtherIncome], neg: seq![PlType::Salaries, PlType::AdministrativeExpenses, PlType::ResearchNDevelopment, PlType::OtherOverheads, PlType::OtherOperativeExpenses, PlType::OtherExpenses, PlType::ExceptionalItems] }
        } else if i == 4 {
            RuleView { target: PlType::EBITX, pos: seq![PlType::EBITDA], neg: seq![PlType::Depreciation, PlType::AssetImpairment, PlType::LossDivestitures, PlType::Amortization] }
        } else if i == 5 {
            RuleView { target: PlType::EBTX, pos: seq![PlType::EBITX, PlType::InterestRevenue, PlType::OtherFinancialRevenue], neg: seq![PlType::InterestExpense, PlType::CostDebt] }
        } else if i == 6 {
            RuleView { target: PlType::EBT, pos: seq![PlType::EBTX], neg: seq![PlType::ExtraordinaryItems, PlType::PriorYears] }
        } else if i == 7 {
            RuleView { target: PlType::EAT, pos: seq![PlType::EBT], neg: seq![PlType::TaxesCurrent, PlType::TaxesDeferred] }
        } else if i == 8 {
            RuleView { target: PlType::NetIncome, pos: seq![PlType::EAT, PlType::NetIncomeDiscontinuedOps], neg: seq![] }
        } else if i == 9 {
            RuleView { target: PlType::ContributionRetainedEarnings, pos: seq![PlType::NetIncome], neg: seq![PlType::Dividends] }
        } else if i == 10 {
            RuleView { target: PlType::GainsLossesSales, pos: seq![PlType::SalesAmountPPE, PlType::SalesAmountLeaseRentalAssets, PlType::SalesAmountIntangibleAssets, PlType::AccAmortSalesPPE, PlType::AccAmortSalesLeaseRental, PlType::AccAmortSalesIntangible], neg: seq![PlType::GrossSalesPPE, PlType::GrossSalesLeaseRentalAssets, PlType::GrossSalesIntangibleAssets] }
        } else if i == 11 {
            RuleView { target: PlType::OtherComprehensiveIncome, pos: seq![PlType::GainsLossesForex, PlType::GainsLossesActurial, PlType::GainsLossesSales, PlType::FvChangeAvlSale], neg: seq![PlType::OtherDeferredTaxes] }
        } else {
            RuleView { target: PlType::TotalComprehensiveIncome, pos: seq![PlType::NetIncome, PlType::OtherComprehensiveIncome], neg: seq![] }
        }
    }

    open spec fn anchor() -> Self {
        PlType::Revenue
    }

    proof fn lemma_rule(i: int) {
    }

    proof fn lemma_rank(k: Self) {
    }

    fn is_calc(self) -> (r: bool) {
        match self {
            PlType::Revenue => true,
            PlType::COGS => true,
            PlType::GrossProfit => true,
            PlType::EBITDA => true,
            PlType::EBITX => true,
            PlType::EBTX => true,
            PlType::EBT => true,
            PlType::EAT => true,
            PlType::NetIncome => true,
            PlType::ContributionRetainedEarnings => true,
            PlType::GainsLossesSales => true,
            PlType::OtherComprehensiveIncome => true,
            PlType::TotalComprehensiveIncome => true,
            _ => false,
        }
    }

    fn rule_count() -> (r: usize) {
        13
    }

    fn rule(i: usize) -> (r: Rule<Self, Self>) {
        if i == 0 {
            Rule { target: PlType::Revenue, pos: vec![PlType::OperatingRevenue, PlType::NonOperatingRevenue], neg: vec![PlType::ExciseStaxLevy] }
        } else if i == 1 {
            Rule { target: PlType::COGS, pos: vec![PlType::CostMaterial, PlType::DirectExpenses], neg: vec![] }
        } else if i == 2 {
            Rule { target: PlType::GrossProfit, pos: vec![PlType::Revenue], neg: vec![PlType::COGS] }
        } else if i == 3 {
            Rule { target: PlType::EBITDA, pos: vec![PlType::GrossProfit, PlType::OtherIncome], neg: vec![PlType::Salaries, PlType::AdministrativeExpenses, PlType::ResearchNDevelopment, PlType::OtherOverheads, PlType::OtherOperativeExpenses, PlType::OtherExpenses, PlType::ExceptionalItems] }
        } else if i == 4 {
            Rule { target: PlType::EBITX, pos: vec![PlType::EBITDA], neg: vec![PlType::Depreciation, PlType::AssetImpairment, PlType::LossDivestitures, PlType::Amortization] }
        } else if i == 5 {
            Rule { target: PlType::EBTX, pos: vec![PlType::EBITX, PlType::InterestRevenue, PlType::OtherFinancialRevenue], neg: vec![PlType::InterestExpense, PlType::CostDebt] }
        } else if i == 6 {
            Rule { target: PlType::EBT, pos: vec![PlType::EBTX], neg: vec![PlType::ExtraordinaryItems, PlType::PriorYears] }
        } else if i == 7 {
            Rule { target: PlType::EAT, pos: vec![PlType::EBT], neg: vec![PlType::TaxesCurrent, PlType::TaxesDeferred] }
        } else if i == 8 {
            Rule { target: PlType::NetIncome, pos: vec![PlType::EAT, PlType::NetIncomeDiscontinuedOps], neg: vec![] }
        } else if i == 9 {
            Rule { target: PlType::ContributionRetainedEarnings, pos: vec![PlType::NetIncome], neg: vec![PlType::Dividends] }
        } else if i == 10 {
            Rule { target: PlType::GainsLossesSales, pos: vec![PlType::SalesAmountPPE, PlType::SalesAmountLeaseRentalAssets, PlType::SalesAmountIntangibleAssets, PlType::AccAmortSalesPPE, PlType::AccAmortSalesLeaseRental, PlType::AccAmortSalesIntangible], neg: vec![PlType::GrossSalesPPE, PlType::GrossSalesLeaseRentalAssets, PlType::GrossSalesIntangibleAssets] }
        } else if i == 11 {
            Rule { target: PlType::OtherComprehensiveIncome, pos: vec![PlType::GainsLossesForex, PlType::GainsLossesActurial, PlType::GainsLossesSales, PlType::FvChangeAvlSale], neg: vec![PlType::OtherDeferredTaxes] }
        } else {
            Rule { target: PlType::TotalComprehensiveIncome, pos: vec![PlType::NetIncome, PlType::OtherComprehensiveIncome], neg: vec![] }
        }
    }

    fn anchor_item() -> (r: Self) {
        PlType::Revenue
    }
}

/// Cash-flow line items.
#[derive(Debug, Clone, Copy, PartialEq, Eq, Structural, PartialOrd, Ord, Hash)]
pub enum CfType {
    ChangeCurrentAssets,
    ChangeLongTermAssets,
    ChangeCurrentLiabilities,
    ChangeLongTermLiabilities,
    ChangeProvisions,
    ChangeRetainedEarnings,
    AdjustmentsRetainedEarnings,
    ChangeAccumulatedOci,
    OtherCashFlowOperations,
    CashFlowOperations,
    ChangePPE,
    ChangeReserves,
    AdjustmentsSalesAssets,
    InvestmentsCapDevp,
    InvestmentsLoans,
    ChangeEquityAssets,
    ChangeInvestments,
    OtherCashFlowInvestments,
    CashFlowInvestments,
    StockSalesAndPurchase,
    ChangeDebt,
    CashFlowInterests,
    CashFlowDividends,
    DonorContribution,
    OtherCashFlowFinancing,
    CashFlowFinancing,
    NetCashFlow,
    FreeCashFlowFirm,
    CashFlowTaxShield,
    FreeCashFlowEquity,
    CashFlowDebt,
}

impl LineItem for CfType {
    open spec fn idx(self) -> nat {
        match self {
            CfType::ChangeCurrentAssets => 0,
            CfType::ChangeLongTermAssets => 1,
            CfType::ChangeCurrentLiabilities => 2,
            CfType::ChangeLongTermLiabilities => 3,
            CfType::ChangeProvisions => 4,
            CfType::ChangeRetainedEarnings => 5,
            CfType::AdjustmentsRetainedEarnings => 6,
            CfType::ChangeAccumulatedOci => 7,
            CfType::OtherCashFlowOperations => 8,
            CfType::CashFlowOperations => 9,
            CfType::ChangePPE => 10,
            CfType::ChangeReserves => 11,
            CfType::AdjustmentsSalesAssets => 12,
            CfType::InvestmentsCapDevp => 13,
            CfType::InvestmentsLoans => 14,
            CfType::ChangeEquityAssets => 15,
            CfType::ChangeInvestments => 16,
            CfType::OtherCashFlowInvestments => 17,
            CfType::CashFlowInvestments => 18,
            CfType::StockSalesAndPurchase => 19,
            CfType::ChangeDebt => 20,
            CfType::CashFlowInterests => 21,
            CfType::CashFlowDividends => 22,
            CfType::DonorContribution => 23,
            CfType::OtherCashFlowFinancing => 24,
            CfType::CashFlowFinancing => 25,
            CfType::NetCashFlow => 26,
            CfType::FreeCashFlowFirm => 27,
            CfType::CashFlowTaxShield => 28,
            CfType::FreeCashFlowEquity => 29,
            CfType::CashFlowDebt => 30,
        }
    }

    open spec fn count() -> nat {
        31
    }

    open spec fn from_idx(i: nat) -> Self {
        if i == 0 {
            CfType::ChangeCurrentAssets
        } else if i == 1 {
            CfType::ChangeLongTermAssets
        } else if i == 2 {
            CfType::ChangeCurrentLiabilities
        } else if i == 3 {
            CfType::ChangeLongTermLiabilities
        } else if i == 4 {
            CfType::ChangeProvisions
        } else if i == 5 {
            CfType::ChangeRetainedEarnings
        } else if i == 6 {
            CfType::AdjustmentsRetainedEarnings
        } else if i == 7 {
            CfType::ChangeAccumulatedOci
        } else if i == 8 {
            CfType::OtherCashFlowOperations
        } else if i == 9 {
            CfType::CashFlowOperations
        } else if i == 10 {
            CfType::ChangePPE
        } else if i == 11 {
            CfType::ChangeReserves
        } else if i == 12 {
            CfType::AdjustmentsSalesAssets
        } else if i == 13 {
            CfType::InvestmentsCapDevp
        } else if i == 14 {
            CfType::InvestmentsLoans
        } else if i == 15 {
            CfType::ChangeEquityAssets
        } else if i == 16 {
            CfType::ChangeInvestments
        } else if i == 17 {
            CfType::OtherCashFlowInvestments
        } else if i == 18 {
            CfType::CashFlowInvestments
        } else if i == 19 {
            CfType::StockSalesAndPurchase
        } else if i == 20 {
            CfType::ChangeDebt
        } else if i == 21 {
            CfType::CashFlowInterests
        } else if i == 22 {
            CfType::CashFlowDividends
        } else if i == 23 {
            CfType::DonorContribution
        } else if i == 24 {
            CfType::OtherCashFlowFinancing
        } else if i == 25 {
            CfType::CashFlowFinancing
        } else if i == 26 {
            CfType::NetCashFlow
        } else if i == 27 {
            CfType::FreeCashFlowFirm
        } else if i == 28 {
            CfType::CashFlowTaxShield
        } else if i == 29 {
            CfType::FreeCashFlowEquity
        } else {
            CfType::CashFlowDebt
        }
    }

    proof fn lemma_index(k: Self) {
    }

    proof fn lemma_from_index(i: nat) {
    }

    fn index(self) -> (r: usize) {
        match self {
            CfType::ChangeCurrentAssets => 0,
            CfType::ChangeLongTermAssets => 1,
            CfType::ChangeCurrentLiabilities => 2,
            CfType::ChangeLongTermLiabilities => 3,
            CfType::ChangeProvisions => 4,
            CfType::ChangeRetainedEarnings => 5,
            CfType::AdjustmentsRetainedEarnings => 6,
            CfType::ChangeAccumulatedOci => 7,
            CfType::OtherCashFlowOperations => 8,
            CfType::CashFlowOperations => 9,
            CfType::ChangePPE => 10,
            CfType::ChangeReserves => 11,
            CfType::AdjustmentsSalesAssets => 12,
            CfType::InvestmentsCapDevp => 13,
            CfType::InvestmentsLoans => 14,
            CfType::ChangeEquityAssets => 15,
            CfType::ChangeInvestments => 16,
            CfType::OtherCashFlowInvestments => 17,
            CfType::CashFlowInvestments => 18,
            CfType::StockSalesAndPurchase => 19,
            CfType::ChangeDebt => 20,
            CfType::CashFlowInterests => 21,
            CfType::CashFlowDividends => 22,
            CfType::DonorContribution => 23,
            CfType::OtherCashFlowFinancing => 24,
            CfType::CashFlowFinancing => 25,
            CfType::NetCashFlow => 26,
            CfType::FreeCashFlowFirm => 27,
            CfType::CashFlowTaxShield => 28,
            CfType::FreeCashFlowEquity => 29,
            CfType::CashFlowDebt => 30,
        }
    }

    fn count_items() -> (r: usize) {
        31
    }

    fn from_index(i: usize) -> (r: Self) {
        if i == 0 {
            CfType::ChangeCurrentAssets
        } else if i == 1 {
            CfType::ChangeLongTermAssets
        } else if i == 2 {
            CfType::ChangeCurrentLiabilities
        } else if i == 3 {
            CfType::ChangeLongTermLiabilities
        } else if i == 4 {
            CfType::ChangeProvisions
        } else if i == 5 {
            CfType::ChangeRetainedEarnings
        } else if i == 6 {
            CfType::AdjustmentsRetainedEarnings
        } else if i == 7 {
            CfType::ChangeAccumulatedOci
        } else if i == 8 {
            CfType::OtherCashFlowOperations
        } else if i == 9 {
            CfType::CashFlowOperations
        } else if i == 10 {
            CfType::ChangePPE
        } else if i == 11 {
            CfType::ChangeReserves
        } else if i == 12 {
            CfType::AdjustmentsSalesAssets
        } else if i == 13 {
            CfType::InvestmentsCapDevp
        } else if i == 14 {
            CfType::InvestmentsLoans
        } else if i == 15 {
            CfType::ChangeEquityAssets
        } else if i == 16 {
            CfType::ChangeInvestments
        } else if i == 17 {
            CfType::OtherCashFlowInvestments
        } else if i == 18 {
            CfType::CashFlowInvestments
        } else if i == 19 {
            CfType::StockSalesAndPurchase
        } else if i == 20 {
            CfType::ChangeDebt
        } else if i == 21 {
            CfType::CashFlowInterests
        } else if i == 22 {
            CfType::CashFlowDividends
        } else if i == 23 {
            CfType::DonorContribution
        } else if i == 24 {
            CfType::OtherCashFlowFinancing
        } else if i == 25 {
            CfType::CashFlowFinancing
        } else if i == 26 {
            CfType::NetCashFlow
        } else if i == 27 {
            CfType::FreeCashFlowFirm
        } else if i == 28 {
            CfType::CashFlowTaxShield
        } else if i == 29 {
            CfType::FreeCashFlowEquity
        } else {
            CfType::CashFlowDebt
        }
    }
}

impl FinType for CfType {
    open spec fn rank(self) -> int {
        match self {
            CfType::CashFlowOperations => 0,
            CfType::CashFlowInvestments => 1,
            CfType::CashFlowFinancing => 2,
            CfType::NetCashFlow => 3,
            CfType::FreeCashFlowEquity => 4,
            CfType::CashFlowDebt => 5,
            CfType::FreeCashFlowFirm => 6,
            _ => -1,
        }
    }

    open spec fn n_rules() -> nat {
        7
    }

    open spec fn rule_spec(i: int) -> RuleView<Self, Self> {
        if i == 0 {
            RuleView { target: CfType::CashFlowOperations, pos: seq![CfType::ChangeCurrentLiabilities, CfType::ChangeLongTermLiabilities, CfType::ChangeProvisions, CfType::ChangeRetainedEarnings, CfType::AdjustmentsRetainedEarnings, CfType::ChangeAccumulatedOci, CfType::OtherCashFlowOperations], neg: seq![CfType::ChangeCurrentAssets, CfType::ChangeLongTermAssets] }
        } else if i == 1 {
            RuleView { target: CfType::CashFlowInvestments, pos: seq![CfType::OtherCashFlowInvestments, CfType::AdjustmentsSalesAssets, CfType::ChangeReserves], neg: seq![CfType::ChangePPE, CfType::InvestmentsCapDevp, CfType::InvestmentsLoans, CfType::ChangeEquityAssets, CfType::ChangeInvestments] }
        } else if i == 2 {
            RuleView { target: CfType::CashFlowFinancing, pos: seq![CfType::StockSalesAndPurchase, CfType::ChangeDebt, CfType::DonorContribution, CfType::OtherCashFlowFinancing], neg: seq![CfType::CashFlowInterests, CfType::CashFlowDividends] }
        } else if i == 3 {
            RuleView { target: CfType::NetCashFlow, pos: seq![CfType::CashFlowOperations, CfType::CashFlowInvestments, CfType::CashFlowFinancing], neg: seq![] }
        } else if i == 4 {
            RuleView { target: CfType::FreeCashFlowEquity, pos: seq![CfType::CashFlowOperations, CfType::ChangeDebt, CfType::ChangeReserves, CfType::AdjustmentsSalesAssets], neg: seq![CfType::CashFlowInterests, CfType::ChangePPE] }
        } else if i == 5 {
            RuleView { target: CfType::CashFlowDebt, pos: seq![CfType::CashFlowInterests], neg: seq![CfType::ChangeDebt] }
        } else {
            RuleView { target: CfType::FreeCashFlowFirm, pos: seq![CfType::FreeCashFlowEquity, CfType::CashFlowDebt], neg: seq![CfType::CashFlowTaxShield] }
        }
    }

    open spec fn anchor() -> Self {
        CfType::NetCashFlow
    }

    proof fn lemma_rule(i: int) {
    }

    proof fn lemma_rank(k: Self) {
    }

    fn is_calc(self) -> (r: bool) {
        match self {
            CfType::CashFlowOperations => true,
            CfType::CashFlowInvestments => true,
            CfType::CashFlowFinancing => true,
            CfType::NetCashFlow => true,
            CfType::FreeCashFlowEquity => true,
            CfType::CashFlowDebt => true,
            CfType::FreeCashFlowFirm => true,
            _ => false,
        }
    }

    fn rule_count() -> (r: usize) {
        7
    }

    fn rule(i: usize) -> (r: Rule<Self, Self>) {
        if i == 0 {
            Rule { target: CfType::CashFlowOperations, pos: vec![CfType::ChangeCurrentLiabilities, CfType::ChangeLongTermLiabilities, CfType::ChangeProvisions, CfType::ChangeRetainedEarnings, CfType::AdjustmentsRetainedEarnings, CfType::ChangeAccumulatedOci, CfType::OtherCashFlowOperations], neg: vec![CfType::ChangeCurrentAssets, CfType::ChangeLongTermAssets] }
        } else if i == 1 {
            Rule { target: CfType::CashFlowInvestments, pos: vec![CfType::OtherCashFlowInvestments, CfType::AdjustmentsSalesAssets, CfType::ChangeReserves], neg: vec![CfType::ChangePPE, CfType::InvestmentsCapDevp, CfType::InvestmentsLoans, CfType::ChangeEquityAssets, CfType::ChangeInvestments] }
        } else if i == 2 {
            Rule { target: CfType::CashFlowFinancing, pos: vec![CfType::StockSalesAndPurchase, CfType::ChangeDebt, CfType::DonorContribution, CfType::OtherCashFlowFinancing], neg: vec![CfType::CashFlowInterests, CfType::CashFlowDividends] }
        } else if i == 3 {
            Rule { target: CfType::NetCashFlow, pos: vec![CfType::CashFlowOperations, CfType::CashFlowInvestments, CfType::CashFlowFinancing], neg: vec![] }
        } else if i == 4 {
            Rule { target: CfType::FreeCashFlowEquity, pos: vec![CfType::CashFlowOperations, CfType::ChangeDebt, CfType::ChangeReserves, CfType::AdjustmentsSalesAssets], neg: vec![CfType::CashFlowInterests, CfType::ChangePPE] }
        } else if i == 5 {
            Rule { target: CfType::CashFlowDebt, pos: vec![CfType::CashFlowInterests], neg: vec![CfType::ChangeDebt] }
        } else {
            Rule { target: CfType::FreeCashFlowFirm, pos: vec![CfType::FreeCashFlowEquity, CfType::CashFlowDebt], neg: vec![CfType::CashFlowTaxShield] }
        }
    }

    fn anchor_item() -> (r: Self) {
        CfType::NetCashFlow
    }
}

/// Other per-period figures kept beside the statements (tax rates, ratios).
#[derive(Debug, Clone, Copy, PartialEq, Eq, Structural, PartialOrd, Ord, Hash)]
pub enum FinOthersTyp {
    CorporateTaxRate,
    GrossProfitTaxRate,
    RevenueTaxRate,
    CurrentRatio,
    AcidRatio,
    DaysOfInventory,
    InventoryTurnoverRatio,
}

impl LineItem for FinOthersTyp {
    open spec fn idx(self) -> nat {
        match self {
            FinOthersTyp::CorporateTaxRate => 0,
            FinOthersTyp::GrossProfitTaxRate => 1,
            FinOthersTyp::RevenueTaxRate => 2,
            FinOthersTyp::CurrentRatio => 3,
            FinOthersTyp::AcidRatio => 4,
            FinOthersTyp::DaysOfInventory => 5,
            FinOthersTyp::InventoryTurnoverRatio => 6,
        }
    }

    open spec fn count() -> nat {
        7
    }

    open spec fn from_idx(i: nat) -> Self {
        if i == 0 {
            FinOthersTyp::CorporateTaxRate
        } else if i == 1 {
            FinOthersTyp::GrossProfitTaxRate
        } else if i == 2 {
            FinOthersTyp::RevenueTaxRate
        } else if i == 3 {
            FinOthersTyp::CurrentRatio
        } else if i == 4 {
            FinOthersTyp::AcidRatio
        } else if i == 5 {
            FinOthersTyp::DaysOfInventory
        } else {
            FinOthersTyp::InventoryTurnoverRatio
        }
    }

    proof fn lemma_index(k: Self) {
    }

    proof fn lemma_from_index(i: nat) {
    }

    fn index(self) -> (r: usize) {
        match self {
            FinOthersTyp::CorporateTaxRate => 0,
            FinOthersTyp::GrossProfitTaxRate => 1,
            FinOthersTyp::RevenueTaxRate => 2,
            FinOthersTyp::CurrentRatio => 3,
            FinOthersTyp::AcidRatio => 4,
            FinOthersTyp::DaysOfInventory => 5,
            FinOthersTyp::InventoryTurnoverRatio => 6,
        }
    }

    fn count_items() -> (r: usize) {
        7
    }

    fn from_index(i: usize) -> (r: Self) {
        if i == 0 {
            FinOthersTyp::CorporateTaxRate
        } else if i == 1 {
            FinOthersTyp::GrossProfitTaxRate
        } else if i == 2 {
            FinOthersTyp::RevenueTaxRate
        } else if i == 3 {
            FinOthersTyp::CurrentRatio
        } else if i == 4 {
            FinOthersTyp::AcidRatio
        } else if i == 5 {
            FinOthersTyp::DaysOfInventory
        } else {
            FinOthersTyp::InventoryTurnoverRatio
        }
    }
}

impl FinType for FinOthersTyp {
    open spec fn rank(self) -> int {
        -1
    }

    open spec fn n_rules() -> nat {
        0
    }

    open spec fn rule_spec(i: int) -> RuleView<Self, Self> {
        RuleView { target: FinOthersTyp::CorporateTaxRate, pos: seq![], neg: seq![] }
    }

    open spec fn anchor() -> Self {
        FinOthersTyp::CorporateTaxRate
    }

    proof fn lemma_rule(i: int) {
    }

    proof fn lemma_rank(k: Self) {
    }

    fn is_calc(self) -> (r: bool) {
        false
    }

    fn rule_count() -> (r: usize) {
        0
    }

    fn rule(i: usize) -> (r: Rule<Self, Self>) {
        Rule { target: FinOthersTyp::CorporateTaxRate, pos: vec![], neg: vec![] }
    }

    fn anchor_item() -> (r: Self) {
        FinOthersTyp::CorporateTaxRate
    }
}

/// Industry affiliation of a company.
#[derive(Debug, Clone, Copy, PartialEq, Eq, Structural, PartialOrd, Ord, Hash)]
pub enum Industry {
    General,
    Automotive,
    Aerospace,
    HeavyEngineering,
    InformationTech,
    Banking,
    Metals,
    Retail,
    Education,
}

} // verus!
