use ls02::common::{CommandId, Date, HeartRateCommandSubId, StepsEntry, INVALID_HEART_RATE};
use ls02::data2::res::{HeartRateDataDayHourEntryResponse, HeartRateDataTodayResponse};
use ls02::db::{HeartRateDailyDatabaseEntry, RecordedStepKind, RecordedStepsDailyDatabaseEntry};
use ls02::telemetry::{heart_rate_rollup, heart_rate_samples, step_entries};

fn steps_entry(walk: u16, run: u16) -> StepsEntry {
    StepsEntry {
        date: Date::new(2024, 3, 9),
        hour: 14,
        new_all_step_count: walk.wrapping_add(run),
        unk_1: 0,
        last_new_run_step_min: 30,
        unk_2: 0,
        new_run_step_count: run,
        unk_3: 0,
        last_new_walk_step_min: 45,
        unk_4: 0,
        new_walk_step_count: walk,
    }
}

#[test]
fn sentinel_is_255() {
    assert_eq!(INVALID_HEART_RATE, 255);
}

fn today(hour: u8, min: u8) -> HeartRateDataTodayResponse {
    HeartRateDataTodayResponse {
        id: CommandId::HeartRate,
        sub_id: HeartRateCommandSubId::DataToday,
        date: Date::new(2024, 3, 9),
        hour,
        min,
        max_heart_rate: 150,
        min_heart_rate: 48,
        avg_heart_rate: 72,
    }
}

fn hour_of_samples(hour: u8) -> HeartRateDataDayHourEntryResponse {
    HeartRateDataDayHourEntryResponse {
        id: CommandId::HeartRate,
        date: Date::new(2024, 3, 9),
        hour,
        heart_rates: [60, 61, 62, 63, 64, 65, 66, 67, 68, 69, 70, 255],
    }
}

#[test]
fn rollup_entry_has_no_instantaneous_rate() {
    let entry = heart_rate_rollup(&today(23, 59)).unwrap();
    assert_eq!(entry.heart_rate, INVALID_HEART_RATE);
    assert_eq!(
        entry,
        HeartRateDailyDatabaseEntry {
            hour: 23,
            min: 59,
            heart_rate: 255,
            max_heart_rate: 150,
            min_heart_rate: 48,
            avg_heart_rate: 72
        }
    );
    assert!(heart_rate_rollup(&today(0, 0)).is_some());
}

#[test]
fn rollup_outside_the_day_gives_no_entry() {
    assert_eq!(heart_rate_rollup(&today(24, 0)), None);
    assert_eq!(heart_rate_rollup(&today(0, 60)), None);
    assert_eq!(heart_rate_rollup(&today(255, 255)), None);
}

#[test]
fn sample_entries_have_no_rollup() {
    let res = hour_of_samples(10);
    let samples = heart_rate_samples(&res);
    assert!(samples.next_day.is_empty());
    let entries = samples.entries;
    assert_eq!(entries.len(), 12);
    let times: Vec<(u8, u8)> = entries.iter().map(|e| (e.hour, e.min)).collect();
    assert_eq!(
        times,
        vec![
            (10, 0),
            (10, 10),
            (10, 20),
            (10, 30),
            (10, 40),
            (10, 50),
            (11, 0),
            (11, 10),
            (11, 20),
            (11, 30),
            (11, 40),
            (11, 50)
        ]
    );
    for (k, e) in entries.iter().enumerate() {
        assert_eq!(e.heart_rate, res.heart_rates[k]);
        assert_eq!(e.max_heart_rate, INVALID_HEART_RATE);
        assert_eq!(e.min_heart_rate, INVALID_HEART_RATE);
        assert_eq!(e.avg_heart_rate, INVALID_HEART_RATE);
    }
}

#[test]
fn samples_of_hour_22_end_at_23_50() {
    let samples = heart_rate_samples(&hour_of_samples(22));
    assert_eq!(samples.entries.len(), 12);
    assert!(samples.next_day.is_empty());
    assert_eq!((samples.entries[11].hour, samples.entries[11].min), (23, 50));
}

#[test]
fn samples_of_hour_23_run_into_the_next_day() {
    let res = hour_of_samples(23);
    let samples = heart_rate_samples(&res);
    let times: Vec<(u8, u8)> = samples.entries.iter().map(|e| (e.hour, e.min)).collect();
    assert_eq!(times, vec![(23, 0), (23, 10), (23, 20), (23, 30), (23, 40), (23, 50)]);
    let times: Vec<(u8, u8)> = samples.next_day.iter().map(|e| (e.hour, e.min)).collect();
    assert_eq!(times, vec![(0, 0), (0, 10), (0, 20), (0, 30), (0, 40), (0, 50)]);
    let rates: Vec<u8> = samples.entries.iter().map(|e| e.heart_rate).collect();
    assert_eq!(rates, vec![60, 61, 62, 63, 64, 65]);
    let rates: Vec<u8> = samples.next_day.iter().map(|e| e.heart_rate).collect();
    assert_eq!(rates, vec![66, 67, 68, 69, 70, 255]);
    for e in samples.entries.iter().chain(samples.next_day.iter()) {
        assert_eq!(e.max_heart_rate, INVALID_HEART_RATE);
        assert_eq!(e.min_heart_rate, INVALID_HEART_RATE);
        assert_eq!(e.avg_heart_rate, INVALID_HEART_RATE);
    }
}

#[test]
fn samples_stay_within_the_day_and_keep_distinct_times() {
    for hour in 0..=23u8 {
        let samples = heart_rate_samples(&hour_of_samples(hour));
        assert_eq!(samples.entries.len() + samples.next_day.len(), 12);
        for part in [&samples.entries, &samples.next_day] {
            let mut times: Vec<(u8, u8)> = part.iter().map(|e| (e.hour, e.min)).collect();
            assert!(times.iter().all(|&(h, m)| h <= 23 && m <= 59));
            times.sort();
            times.dedup();
            assert_eq!(times.len(), part.len());
        }
    }
}

#[test]
fn samples_of_no_hour_of_the_day_give_no_entry() {
    for hour in [24u8, 25, 100, 250, 255] {
        let samples = heart_rate_samples(&hour_of_samples(hour));
        assert!(samples.entries.is_empty());
        assert!(samples.next_day.is_empty());
    }
}

#[test]
fn constructors_set_the_sentinels() {
    let s = HeartRateDailyDatabaseEntry::sample(1, 2, 3);
    assert_eq!((s.max_heart_rate, s.min_heart_rate, s.avg_heart_rate), (255, 255, 255));
    assert_eq!((s.hour, s.min, s.heart_rate), (1, 2, 3));
    let r = HeartRateDailyDatabaseEntry::rollup(1, 2, 3, 4, 5);
    assert_eq!(r.heart_rate, 255);
    assert_eq!((r.hour, r.min, r.max_heart_rate, r.min_heart_rate, r.avg_heart_rate), (1, 2, 3, 4, 5));
}

#[test]
fn only_run_steps_give_one_run_entry() {
    let entries = step_entries(&steps_entry(0, 12)).unwrap();
    assert_eq!(
        entries,
        vec![RecordedStepsDailyDatabaseEntry {
            hour: 14,
            min: 30,
            new_step_kind: RecordedStepKind::Run,
            new_step_count: 12
        }]
    );
}

#[test]
fn only_walk_steps_give_one_walk_entry() {
    let entries = step_entries(&steps_entry(300, 0)).unwrap();
    assert_eq!(
        entries,
        vec![RecordedStepsDailyDatabaseEntry {
            hour: 14,
            min: 45,
            new_step_kind: RecordedStepKind::Walk,
            new_step_count: 300
        }]
    );
}

#[test]
fn both_kinds_give_walk_then_run() {
    let entries = step_entries(&steps_entry(65535, 1)).unwrap();
    assert_eq!(entries.len(), 2);
    assert_eq!(entries[0].new_step_kind, RecordedStepKind::Walk);
    assert_eq!(entries[0].new_step_count, 65535);
    assert_eq!(entries[1].new_step_kind, RecordedStepKind::Run);
    assert_eq!(entries[1].new_step_count, 1);
}

#[test]
fn no_new_steps_give_no_entry() {
    assert_eq!(step_entries(&steps_entry(0, 0)), Some(vec![]));
}

#[test]
fn steps_outside_the_day_give_no_entry() {
    let mut entry = steps_entry(5, 6);
    entry.hour = 24;
    assert_eq!(step_entries(&entry), None);
    let mut entry = steps_entry(0, 0);
    entry.hour = 24;
    assert_eq!(step_entries(&entry), None);
    let mut entry = steps_entry(5, 6);
    entry.last_new_walk_step_min = 60;
    assert_eq!(step_entries(&entry), None);
    let mut entry = steps_entry(5, 6);
    entry.last_new_run_step_min = 60;
    assert_eq!(step_entries(&entry), None);
}

#[test]
fn the_minute_of_a_kind_without_new_steps_does_not_count() {
    let mut entry = steps_entry(0, 12);
    entry.last_new_walk_step_min = 200;
    let entries = step_entries(&entry).unwrap();
    assert_eq!(entries.len(), 1);
    assert_eq!(entries[0].new_step_kind, RecordedStepKind::Run);
    let mut entry = steps_entry(12, 0);
    entry.last_new_run_step_min = 200;
    entry.hour = 23;
    let entries = step_entries(&entry).unwrap();
    assert_eq!(entries.len(), 1);
    assert_eq!((entries[0].hour, entries[0].min), (23, 45));
}
