//! Financial-statement aggregation: line-item taxonomies, roll-up rule tables,
//! debit/credit polarity, statement maps, cash-flow derivation and a
//! multi-period account store.
//!
//! Every amount is a fixed-point integer counted in hundred-thousandths of a
//! currency unit (see [`fmap::SCALE`]); rates and ratios use the same scale.

pub mod rules;
pub mod items;
pub mod fmap;
pub mod balance;
pub mod cashflow;
pub mod accounts;
pub mod valuations;

use vstd::prelude::*;

verus! {

/// Gregorian leap-year rule.
pub open spec fn leap_year(y: int) -> bool {
    (y % 4 == 0 && y % 100 != 0) || y % 400 == 0
}

/// Check if `y` is a leap year.
pub fn is_leap_year(y: i32) -> (r: bool)
    ensures
        r == leap_year(y as int),
{
    let a: i64 = if y < 0 { -(y as i64) } else { y as i64 };
    proof {
        assert(a % 4 == 0 <==> y % 4 == 0) by (nonlinear_arith) requires a == y || a == -y;
        assert(a % 100 == 0 <==> y % 100 == 0) by (nonlinear_arith) requires a == y || a == -y;
        assert(a % 400 == 0 <==> y % 400 == 0) by (nonlinear_arith) requires a == y || a == -y;
    }
    (a % 4 == 0 && a % 100 != 0) || a % 400 == 0
}

/// Number of days in the year `yr`.
pub fn days_in_year(yr: i32) -> (r: i64)
    ensures
        r == if leap_year(yr as int) { 366int } else { 365int },
{
    if is_leap_year(yr) {
        366
    } else {
        365
    }
}

/// Day-count conventions.
///
/// - `US30360`: US 30/360 or NASD 30/360
/// - `EU30360`: Euro 30/360
/// - `ACTACT`: actual days in leap years / 366 + actual days in other years / 365
/// - `ACT360`: actual days / 360
/// - `ACT365`: actual days / 365
#[allow(non_camel_case_types)]
#[derive(Debug, Clone, Copy, PartialEq, Eq, Structural)]
pub enum DayCountConvention {
    US30360,
    EU30360,
    ACTACT,
    ACT360,
    ACT365,
}

/// Reporting currencies.
#[derive(Debug, Clone, Copy, PartialEq, Eq, Structural)]
pub enum Currency {
    INR,
    USD,
    NGN,
    EUR,
    GBP,
    CNY,
    MZN,
    ZAR,
}

} // verus!
