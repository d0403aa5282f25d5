use ls02::common::Date;
use ls02::db::names::{date_name, dates_of_names, parse_date_name};
use ls02::db::{HeartRateDailyDatabase, RecordedStepsDailyDatabase};

#[test]
fn names_are_decimal_without_leading_zeros() {
    assert_eq!(date_name(Date::new(2024, 3, 9)), "2024-3-9");
    assert_eq!(date_name(Date::new(2024, 12, 31)), "2024-12-31");
    assert_eq!(date_name(Date::new(0, 0, 0)), "0-0-0");
    assert_eq!(date_name(Date::new(65535, 255, 255)), "65535-255-255");
    assert_eq!(date_name(Date::new(10, 100, 9)), "10-100-9");
    assert_eq!(date_name(Date::new(1000, 10, 1)), "1000-10-1");
    assert_eq!(date_name(Date::new(10000, 99, 199)), "10000-99-199");
}

#[test]
fn names_are_read_back() {
    for year in [0u16, 1, 9, 10, 99, 100, 999, 1000, 2024, 9999, 10000, 65535] {
        for month in [0u8, 1, 9, 10, 12, 99, 100, 255] {
            for day in [0u8, 7, 31, 200, 255] {
                let date = Date::new(year, month, day);
                assert_eq!(parse_date_name(&date_name(date)), Some(date));
            }
        }
    }
}

#[test]
fn numbers_may_carry_a_plus_sign_or_leading_zeros() {
    assert_eq!(parse_date_name("2024-03-09"), Some(Date::new(2024, 3, 9)));
    assert_eq!(parse_date_name("+2024-+3-+9"), Some(Date::new(2024, 3, 9)));
    assert_eq!(parse_date_name("0002024-1-1"), Some(Date::new(2024, 1, 1)));
}

#[test]
fn malformed_names_are_no_dates() {
    for name in [
        "",
        "-",
        "--",
        "2024",
        "2024-3",
        "2024-3-",
        "-3-9",
        "2024--9",
        "2024-3-9-1",
        "2024-3-9-",
        "-2024-3-9",
        "2024-3-9 ",
        " 2024-3-9",
        "2024-3-x",
        "20a4-3-9",
        "2024-3-+",
        "++2024-3-9",
        "2024-3-9+",
        "65536-1-1",
        "2024-256-1",
        "2024-1-256",
        "99999999999999999999-1-1",
        "2024-1-99999999999999999999",
        "２０２４-3-9",
        "2024–3–9",
        "notes.txt",
    ] {
        assert_eq!(parse_date_name(name), None, "{:?}", name);
    }
}

#[test]
fn listing_skips_malformed_names_and_keeps_the_order() {
    let names: Vec<String> = ["2024-3-9", "junk", "2023-12-31", "", "2024-3-9", "1-2-3-4", "7-8-9"]
        .iter()
        .map(|s| s.to_string())
        .collect();
    let expected = vec![
        Date::new(2024, 3, 9),
        Date::new(2023, 12, 31),
        Date::new(2024, 3, 9),
        Date::new(7, 8, 9),
    ];
    assert_eq!(dates_of_names(&names), expected);
    assert_eq!(HeartRateDailyDatabase::list_dates(&names), expected);
    assert_eq!(RecordedStepsDailyDatabase::list_dates(&names), expected);
    assert_eq!(dates_of_names(&vec![]), vec![]);
}
