use ls02::common::{Date, StepsEntry};

#[test]
fn date_fields() {
    let d = Date::new(2024, 12, 31);
    assert_eq!((d.year(), d.month(), d.day()), (2024, 12, 31));
    assert_eq!(d, Date { year: 2024, month: 12, day: 31 });
}

#[test]
fn dates_are_ordered_by_year_month_day() {
    let a = Date::new(2023, 12, 31);
    let b = Date::new(2024, 1, 1);
    let c = Date::new(2024, 1, 2);
    let d = Date::new(2024, 2, 1);
    assert!(a < b && b < c && c < d);
    assert!(d > a);
    assert!(a <= a && a >= a);
    assert!(!(a < a));
    assert_eq!(a.partial_cmp(&b), Some(std::cmp::Ordering::Less));
    assert_eq!(b.partial_cmp(&a), Some(std::cmp::Ordering::Greater));
    assert_eq!(c.partial_cmp(&c), Some(std::cmp::Ordering::Equal));
    assert_eq!(a.cmp(&b), std::cmp::Ordering::Less);
    let mut dates = vec![d, b, a, c];
    dates.sort();
    assert_eq!(dates, vec![a, b, c, d]);
    assert!(Date::new(256, 1, 1) > Date::new(255, 12, 31));
}

#[test]
fn date_wire_bytes() {
    let mut out = vec![0xEE];
    Date::new(0x1234, 5, 6).put(&mut out);
    assert_eq!(out, vec![0xEE, 0x12, 0x34, 5, 6]);
    assert_eq!(Date::get(&out, 1), Date::new(0x1234, 5, 6));
    assert_eq!(Date::WIRE_LEN, 4);
}

#[test]
fn steps_entry_wire_bytes() {
    let e = StepsEntry {
        date: Date::new(2024, 3, 9),
        hour: 14,
        new_all_step_count: 300,
        unk_1: 1,
        last_new_run_step_min: 2,
        unk_2: 3,
        new_run_step_count: 12,
        unk_3: 4,
        last_new_walk_step_min: 5,
        unk_4: 6,
        new_walk_step_count: 288,
    };
    let mut out = Vec::new();
    e.put(&mut out);
    assert_eq!(out, vec![0x07, 0xE8, 3, 9, 14, 0x01, 0x2C, 1, 2, 3, 0x00, 0x0C, 4, 5, 6, 0x01, 0x20]);
    assert_eq!(out.len(), StepsEntry::WIRE_LEN);
    assert_eq!(StepsEntry::get(&out, 0), e);
}

#[test]
fn the_day_after() {
    assert_eq!(Date::new(2024, 3, 9).following(), Some(Date::new(2024, 3, 10)));
    assert_eq!(Date::new(2024, 1, 31).following(), Some(Date::new(2024, 2, 1)));
    assert_eq!(Date::new(2024, 4, 30).following(), Some(Date::new(2024, 5, 1)));
    assert_eq!(Date::new(2024, 12, 31).following(), Some(Date::new(2025, 1, 1)));
    assert_eq!(Date::new(2024, 2, 28).following(), Some(Date::new(2024, 2, 29)));
    assert_eq!(Date::new(2024, 2, 29).following(), Some(Date::new(2024, 3, 1)));
    assert_eq!(Date::new(2023, 2, 28).following(), Some(Date::new(2023, 3, 1)));
    assert_eq!(Date::new(1900, 2, 28).following(), Some(Date::new(1900, 3, 1)));
    assert_eq!(Date::new(2000, 2, 28).following(), Some(Date::new(2000, 2, 29)));
    assert_eq!(Date::new(65535, 12, 30).following(), Some(Date::new(65535, 12, 31)));
    assert_eq!(Date::new(65535, 12, 31).following(), None);
}

#[test]
fn dates_that_are_no_days_have_no_day_after() {
    for date in [
        Date::new(2024, 0, 1),
        Date::new(2024, 13, 1),
        Date::new(2024, 1, 0),
        Date::new(2024, 1, 32),
        Date::new(2024, 4, 31),
        Date::new(2023, 2, 29),
        Date::new(1900, 2, 29),
        Date::new(2024, 2, 30),
        Date::new(0, 0, 0),
        Date::new(65535, 255, 255),
    ] {
        assert!(!date.is_valid(), "{:?}", date);
        assert_eq!(date.following(), None);
    }
    assert!(Date::new(2024, 2, 29).is_valid());
    assert!(Date::new(2000, 2, 29).is_valid());
    assert!(Date::new(0, 1, 1).is_valid());
}

#[test]
fn a_year_of_days_after() {
    let mut date = Date::new(2023, 12, 31);
    let mut days = 0;
    while date != Date::new(2024, 12, 31) {
        let next = date.following().unwrap();
        assert!(date < next);
        date = next;
        days += 1;
    }
    assert_eq!(days, 366);
}
