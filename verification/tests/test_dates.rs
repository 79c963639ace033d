// Dates, validity periods and expirations.
use chrono::Datelike;
use licensegen::db::types::DbApplication;
use licensegen::license::evaluator::determine_validity;
use licensegen::license::types::{ValidityInfo, ValidityUnit};
use licensegen::util::datetime::{compute_expiration, date_to_string, epoch, Date, DateTime};

fn date(y: i32, m: u32, d: u32) -> Date {
    Date::from_ymd_opt(y, m, d).unwrap()
}

fn chrono_days(y: i32, m: u32, d: u32) -> i32 {
    chrono::NaiveDate::from_ymd_opt(y, m, d).unwrap().num_days_from_ce()
}

fn application(value: u16, unit: Option<&str>) -> DbApplication {
    DbApplication {
        id: 7,
        name: "Monitor".into(),
        customer_id: 3,
        edition_id: 4,
        price: rust_decimal::Decimal::ZERO,
        valid_major: Some(2),
        validity_value: value,
        validity_unit: unit.map(|u| u.to_string()),
        raw_yaml: String::new(),
        received: date(2026, 3, 4),
        acquired: date(2026, 3, 1),
        status: None,
        created: epoch(),
        updated: epoch(),
    }
}

#[test]
fn day_numbers_are_chronos() {
    assert_eq!(date(2026, 3, 4).days(), chrono_days(2026, 3, 4));
    assert_eq!(date(1, 1, 1).days(), 1);
    assert_eq!(date(1970, 1, 1).days(), 719163);
    assert!(Date::from_ymd_opt(2026, 2, 30).is_none());
}

#[test]
fn dates_display_as_chrono_does() {
    for (y, m, d) in [(2026, 3, 4), (0, 1, 1), (9999, 12, 31), (-1, 1, 1), (10000, 12, 31), (5, 7, 9)] {
        let expected = chrono::NaiveDate::from_ymd_opt(y, m, d).unwrap().to_string();
        assert_eq!(date_to_string(date(y, m, d)), expected);
    }
    assert_eq!(date_to_string(date(2015, 9, 5)), "2015-09-05");
    assert_eq!(date_to_string(date(-1, 1, 1)), "-0001-01-01");
    assert_eq!(date_to_string(date(10000, 12, 31)), "+10000-12-31");
}

#[test]
fn dates_parse_from_iso_text() {
    assert_eq!(Date::parse("2015-09-18"), Some(date(2015, 9, 18)));
    assert_eq!(Date::parse("+12345-6-7"), Some(date(12345, 6, 7)));
    assert!(Date::parse("foo").is_none());
}

#[test]
fn adding_days_stays_in_range() {
    let d = date(2015, 9, 5);
    assert_eq!(d.checked_add_days(40), Some(date(2015, 10, 15)));
    assert_eq!(d.checked_add_days(-40), Some(date(2015, 7, 27)));
    assert!(d.checked_add_days(1_000_000_000).is_none());
    assert!(Date::from_ymd_opt(262142, 12, 31).unwrap().checked_add_days(1).is_none());
    assert_eq!(Date::from_days(-95746129).unwrap(), Date::from_ymd_opt(-262143, 1, 1).unwrap());
}

#[test]
fn the_epoch_is_1970() {
    let e: DateTime = epoch();
    assert_eq!(e.date, date(1970, 1, 1));
    assert_eq!((e.hour, e.minute, e.second, e.micro), (0, 0, 0, 0));
}

#[test]
fn validity_of_each_unit() {
    let v = determine_validity(&application(10, Some("days")));
    assert_eq!(v.expires, Some(date(2026, 3, 14)));
    assert_eq!(v.issued, date(2026, 3, 4));
    assert_eq!(v.validity_unit, Some(ValidityUnit::Days));
    assert_eq!(v.validity_value, Some(10));
    assert_eq!(v.valid_major, Some(2));
    assert_eq!(determine_validity(&application(2, Some("weeks"))).expires, Some(date(2026, 3, 18)));
    assert_eq!(determine_validity(&application(1, Some("months"))).expires, Some(date(2026, 4, 3)));
    assert_eq!(determine_validity(&application(1, Some("years"))).expires, Some(date(2027, 3, 4)));
    let none = determine_validity(&application(3, Some("fortnights")));
    assert!(none.expires.is_none());
    assert!(none.validity_unit.is_none());
    let never = determine_validity(&application(0, Some("years")));
    assert!(never.expires.is_none());
    assert_eq!(never.validity_unit, Some(ValidityUnit::Years));
    assert_eq!(never.validity_value, Some(0));
}

fn validity(expires: Option<Date>, value: Option<u16>, unit: Option<ValidityUnit>) -> Option<ValidityInfo> {
    Some(ValidityInfo { issued: date(2026, 3, 4), expires, valid_major: None, validity_value: value, validity_unit: unit })
}

#[test]
fn expiration_prefers_the_explicit_date() {
    assert_eq!(compute_expiration(&None), None);
    assert_eq!(
        compute_expiration(&validity(Some(date(2030, 1, 1)), Some(1), Some(ValidityUnit::Days))),
        Some(date(2030, 1, 1))
    );
    assert_eq!(compute_expiration(&validity(None, Some(3), Some(ValidityUnit::Weeks))), Some(date(2026, 3, 25)));
    assert_eq!(compute_expiration(&validity(None, Some(2), Some(ValidityUnit::Months))), Some(date(2026, 5, 3)));
    assert_eq!(compute_expiration(&validity(None, Some(1), Some(ValidityUnit::Years))), Some(date(2027, 3, 4)));
    assert_eq!(compute_expiration(&validity(None, Some(9), Some(ValidityUnit::NoExpiration))), Some(date(2026, 3, 4)));
    assert_eq!(compute_expiration(&validity(None, None, Some(ValidityUnit::Days))), None);
    assert_eq!(compute_expiration(&validity(None, Some(5), None)), None);
}

#[test]
fn granted_validity_and_expiration_agree() {
    for (value, unit) in [(10u16, "days"), (2, "weeks"), (4, "months"), (1, "years")] {
        let v = determine_validity(&application(value, Some(unit)));
        let expires = v.expires;
        assert_eq!(compute_expiration(&Some(v)), expires);
    }
}
