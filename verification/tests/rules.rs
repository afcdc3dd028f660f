//! The seasonal rule engine, digit extraction, aggregation sums, and the
//! User-Agent authorization check.

use neko_server::aggregate::aggregate_sum;
use neko_server::auth::agent_authorized;
use neko_server::digits::digits_vec;
use neko_server::season::{seasonal_name, seasonal_name_for, Date, RuleKind, RuleSet};

fn leap_year_month_len(month: u8) -> u8 {
    match month {
        2 => 29,
        4 | 6 | 9 | 11 => 30,
        _ => 31,
    }
}

#[test]
fn every_leap_year_day_matches_some_rule() {
    let rules = RuleSet::standard();
    let mut days: u32 = 0;
    for month in 1u8..=12 {
        for day in 1u8..=leap_year_month_len(month) {
            let date = Date::new(month, day).unwrap();
            let selected = rules.select(date);
            assert!(selected.is_some(), "no rule matched {}-{}", month, day);
            days += 1;
        }
    }
    assert_eq!(days, 366);
}

#[test]
fn halloween_matches_exactly_its_range() {
    for month in 1u8..=12 {
        for day in 1u8..=leap_year_month_len(month) {
            let date = Date::new(month, day).unwrap();
            let name = seasonal_name_for(date);
            let in_range = (month == 10 && day >= 19) || (month == 11 && day <= 3);
            if in_range {
                assert_eq!(name, "Halloween", "{}-{}", month, day);
            } else {
                assert_ne!(name, "Halloween", "{}-{}", month, day);
            }
        }
    }
}

#[test]
fn seasonal_names_at_boundaries() {
    assert_eq!(seasonal_name_for(Date::new(10, 18).unwrap()), "Default");
    assert_eq!(seasonal_name_for(Date::new(10, 19).unwrap()), "Halloween");
    assert_eq!(seasonal_name_for(Date::new(10, 31).unwrap()), "Halloween");
    assert_eq!(seasonal_name_for(Date::new(11, 1).unwrap()), "Halloween");
    assert_eq!(seasonal_name_for(Date::new(11, 3).unwrap()), "Halloween");
    assert_eq!(seasonal_name_for(Date::new(11, 4).unwrap()), "Default");
    assert_eq!(seasonal_name_for(Date::new(12, 1).unwrap()), "Christmas Advent");
    assert_eq!(seasonal_name_for(Date::new(12, 22).unwrap()), "Christmas Advent");
    assert_eq!(seasonal_name_for(Date::new(12, 23).unwrap()), "Christmas Holliday");
    assert_eq!(seasonal_name_for(Date::new(12, 27).unwrap()), "Christmas Holliday");
    assert_eq!(seasonal_name_for(Date::new(12, 28).unwrap()), "Default");
    assert_eq!(seasonal_name_for(Date::new(6, 15).unwrap()), "Default");
}

#[test]
fn seasonal_name_is_one_of_the_rules() {
    let name = seasonal_name();
    assert!(
        name == "Halloween" || name == "Christmas Advent" || name == "Christmas Holliday"
            || name == "Default"
    );
}

#[test]
fn broken_rule_list_falls_back_to_default() {
    let broken = RuleSet::new(vec![RuleKind::Halloween, RuleKind::ChristmasAdvent]);
    let summer = Date::new(6, 15).unwrap();
    assert!(broken.select(summer).is_none());
    assert_eq!(broken.evaluate(summer).name(), "Default");
    let standard = RuleSet::standard();
    assert!(standard.select(summer).is_some());
}

#[test]
fn date_validation() {
    assert!(Date::new(2, 29).is_some());
    assert!(Date::new(2, 30).is_none());
    assert!(Date::new(4, 31).is_none());
    assert!(Date::new(0, 1).is_none());
    assert!(Date::new(13, 1).is_none());
    assert!(Date::new(1, 0).is_none());
    assert!(Date::new(12, 31).is_some());
}

#[test]
fn digits_of_counts() {
    assert_eq!(digits_vec(0), vec![0]);
    assert_eq!(digits_vec(7), vec![7]);
    assert_eq!(digits_vec(42), vec![4, 2]);
    assert_eq!(digits_vec(1203), vec![1, 2, 0, 3]);
    assert_eq!(digits_vec(u128::MAX).len(), 39);
    let expected: Vec<u8> =
        u128::MAX.to_string().chars().map(|c| c.to_digit(10).unwrap() as u8).collect();
    assert_eq!(digits_vec(u128::MAX), expected);
}

#[test]
fn aggregate_sums_present_values() {
    assert_eq!(aggregate_sum(&vec![]), 0);
    assert_eq!(aggregate_sum(&vec![None, None]), 0);
    assert_eq!(aggregate_sum(&vec![Some(1), None, Some(41)]), 42);
    assert_eq!(
        aggregate_sum(&vec![Some(u64::MAX), Some(u64::MAX)]),
        2 * (u64::MAX as u128)
    );
}

#[test]
fn agent_authorization() {
    assert!(agent_authorized(Some("NekoFans/2.1")));
    assert!(agent_authorized(Some("mobile NekoFans client")));
    assert!(!agent_authorized(Some("Mozilla/5.0")));
    assert!(!agent_authorized(Some("nekofans")));
    assert!(!agent_authorized(Some("")));
    assert!(!agent_authorized(None));
}
