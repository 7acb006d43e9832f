#[test]
fn derivatives_it_works() {
    let result = 2 + 2;
    assert_eq!(result, 4);
}

#[test]
fn forwards_it_works() {
    let result = 2 + 2;
    assert_eq!(result, 4);
}

#[test]
fn swaps_it_works() {
    let result = 2 + 2;
    assert_eq!(result, 4);
}

#[test]
fn fixedincomes_it_works() {
    let result = 2 + 2;
    assert_eq!(result, 4);
}

#[test]
fn durations_it_works() {
    let result = 2 + 2;
    assert_eq!(result, 4);
}

#[test]
fn leap_years() {
    assert!(financelib::is_leap_year(2024));
    assert!(financelib::is_leap_year(2000));
    assert!(financelib::is_leap_year(1600));
    assert!(!financelib::is_leap_year(1900));
    assert!(!financelib::is_leap_year(2023));
    assert!(financelib::is_leap_year(-4));
    assert_eq!(financelib::days_in_year(2020), 366);
    assert_eq!(financelib::days_in_year(2021), 365);
}
