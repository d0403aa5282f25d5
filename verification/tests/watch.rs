use ls02::common::Date;
use ls02::db::{HeartRateDailyDatabaseEntry, RecordedStepKind};
use ls02::demux::{demux, Demuxed};
use ls02::watch::{Effect, WatchContext};
use ls02::Endpoint;

#[test]
fn a_new_context_knows_nothing() {
    let ctx = WatchContext::new();
    assert!(!ctx.is_connected);
    assert_eq!(ctx.battery, None);
    assert_eq!(ctx.pair_key, None);
    assert_eq!(ctx.firmware, None);
    assert!(ctx.hr_db_dates.is_empty());
    assert!(ctx.rs_db_dates.is_empty());
}

#[test]
fn battery_pair_key_and_firmware_are_kept() {
    let mut ctx = WatchContext::new();
    assert!(matches!(ctx.on_notification(Endpoint::GeneralN1, &[0xA2, 87]), Effect::Repaint));
    assert_eq!(ctx.battery, Some(87));
    assert!(matches!(
        ctx.on_notification(Endpoint::GeneralN1, &[0x20, 0x03, 1, 2, 3, 4]),
        Effect::Repaint
    ));
    assert_eq!(ctx.pair_key, Some([1, 2, 3, 4]));
    let mut raw = vec![0xA1];
    raw.extend_from_slice(b"LS02_V1.0.0.1");
    assert!(matches!(ctx.on_notification(Endpoint::GeneralN1, &raw), Effect::Repaint));
    assert_eq!(ctx.firmware, Some(*b"LS02_V1.0.0.1"));
    assert_eq!(ctx.battery, Some(87));
    assert_eq!(ctx.pair_key, Some([1, 2, 3, 4]));
}

#[test]
fn responses_on_the_wrong_characteristic_change_nothing() {
    let mut ctx = WatchContext::new();
    assert!(matches!(ctx.on_notification(Endpoint::Data2N, &[0xA2, 87]), Effect::Unrecognized));
    assert_eq!(ctx.battery, None);
    assert!(matches!(ctx.on_notification(Endpoint::GeneralN1, &[0xA2]), Effect::Unrecognized));
    assert!(matches!(ctx.on_notification(Endpoint::GeneralN1, &[]), Effect::Unrecognized));
    assert_eq!(ctx.battery, None);
}

#[test]
fn other_responses_are_ignored() {
    let mut ctx = WatchContext::new();
    assert!(matches!(ctx.on_notification(Endpoint::GeneralN1, &[0xD1, 7]), Effect::Ignore));
    assert!(matches!(ctx.on_notification(Endpoint::Data2N, &[0x18, 0x01]), Effect::Ignore));
    assert_eq!(ctx.battery, None);
}

#[test]
fn heart_rate_rollup_is_stored() {
    let mut ctx = WatchContext::new();
    let raw = [0x18, 0x04, 0x07, 0xE8, 3, 9, 23, 59, 150, 48, 72];
    match ctx.on_notification(Endpoint::Data2N, &raw) {
        Effect::StoreHeartRate { date, entries } => {
            assert_eq!(date, Date::new(2024, 3, 9));
            assert_eq!(entries, vec![HeartRateDailyDatabaseEntry::rollup(23, 59, 150, 48, 72)]);
        }
        other => panic!("{:?}", other),
    }
}

#[test]
fn heart_rate_samples_are_stored() {
    let mut ctx = WatchContext::new();
    let raw = [0x18, 0x07, 0xE8, 3, 9, 10, 60, 61, 62, 63, 64, 65, 66, 67, 68, 69, 70, 71];
    match ctx.on_notification(Endpoint::Data2N, &raw) {
        Effect::StoreHeartRate { date, entries } => {
            assert_eq!(date, Date::new(2024, 3, 9));
            assert_eq!(entries.len(), 12);
            assert_eq!(entries[0], HeartRateDailyDatabaseEntry::sample(10, 0, 60));
            assert_eq!(entries[11], HeartRateDailyDatabaseEntry::sample(11, 50, 71));
        }
        other => panic!("{:?}", other),
    }
}

#[test]
fn recorded_steps_on_data2_are_stored() {
    let mut ctx = WatchContext::new();
    let raw = [0x0A, 0x07, 0xE8, 3, 9, 14, 0, 12, 0, 30, 0, 0, 12, 0, 45, 0, 0, 0];
    match ctx.on_notification(Endpoint::Data2N, &raw) {
        Effect::StoreSteps { date, steps } => {
            assert_eq!(date, Date::new(2024, 3, 9));
            assert_eq!(steps.len(), 1);
            assert_eq!(steps[0].new_step_kind, RecordedStepKind::Run);
            assert_eq!(steps[0].new_step_count, 12);
            assert_eq!((steps[0].hour, steps[0].min), (14, 30));
        }
        other => panic!("{:?}", other),
    }
    let mut general = raw;
    general[0] = 0xB2;
    assert!(matches!(ctx.on_notification(Endpoint::GeneralN1, &general), Effect::Ignore));
}

#[test]
fn apply_takes_a_decoded_response() {
    let mut ctx = WatchContext::new();
    match demux(Endpoint::GeneralN1, &[0xA2, 3]) {
        Demuxed::Recognized(resp) => {
            assert!(matches!(ctx.apply(&resp), Effect::Repaint));
        }
        Demuxed::Unrecognized => panic!("not recognized"),
    }
    assert_eq!(ctx.battery, Some(3));
}

#[test]
fn samples_of_hour_23_are_stored_under_two_dates() {
    let mut ctx = WatchContext::new();
    let raw = [0x18, 0x07, 0xE8, 2, 29, 23, 60, 61, 62, 63, 64, 65, 66, 67, 68, 69, 70, 71];
    match ctx.on_notification(Endpoint::Data2N, &raw) {
        Effect::StoreHeartRateOverMidnight { date, entries, next_date, next_entries } => {
            assert_eq!(date, Date::new(2024, 2, 29));
            assert_eq!(next_date, Date::new(2024, 3, 1));
            assert_eq!(entries.len(), 6);
            assert_eq!(next_entries.len(), 6);
            assert_eq!(entries[0], HeartRateDailyDatabaseEntry::sample(23, 0, 60));
            assert_eq!(entries[5], HeartRateDailyDatabaseEntry::sample(23, 50, 65));
            assert_eq!(next_entries[0], HeartRateDailyDatabaseEntry::sample(0, 0, 66));
            assert_eq!(next_entries[5], HeartRateDailyDatabaseEntry::sample(0, 50, 71));
        }
        other => panic!("{:?}", other),
    }
}

#[test]
fn samples_past_midnight_without_a_next_day_are_left_out() {
    let mut ctx = WatchContext::new();
    let raw = [0x18, 0x07, 0xE8, 13, 1, 23, 60, 61, 62, 63, 64, 65, 66, 67, 68, 69, 70, 71];
    match ctx.on_notification(Endpoint::Data2N, &raw) {
        Effect::StoreHeartRate { date, entries } => {
            assert_eq!(date, Date::new(2024, 13, 1));
            assert_eq!(entries.len(), 6);
            assert_eq!(entries[5], HeartRateDailyDatabaseEntry::sample(23, 50, 65));
        }
        other => panic!("{:?}", other),
    }
    let raw = [0x18, 0xFF, 0xFF, 12, 31, 23, 60, 61, 62, 63, 64, 65, 66, 67, 68, 69, 70, 71];
    assert!(matches!(
        ctx.on_notification(Endpoint::Data2N, &raw),
        Effect::StoreHeartRate { .. }
    ));
}

#[test]
fn telemetry_outside_the_day_is_malformed() {
    let mut ctx = WatchContext::new();
    let samples = [0x18, 0x07, 0xE8, 3, 9, 24, 60, 61, 62, 63, 64, 65, 66, 67, 68, 69, 70, 71];
    assert!(matches!(ctx.on_notification(Endpoint::Data2N, &samples), Effect::Malformed));
    let rollup = [0x18, 0x04, 0x07, 0xE8, 3, 9, 23, 60, 150, 48, 72];
    assert!(matches!(ctx.on_notification(Endpoint::Data2N, &rollup), Effect::Malformed));
    let rollup = [0x18, 0x04, 0x07, 0xE8, 3, 9, 24, 0, 150, 48, 72];
    assert!(matches!(ctx.on_notification(Endpoint::Data2N, &rollup), Effect::Malformed));
    let steps = [0x0A, 0x07, 0xE8, 3, 9, 24, 0, 12, 0, 30, 0, 0, 12, 0, 45, 0, 0, 0];
    assert!(matches!(ctx.on_notification(Endpoint::Data2N, &steps), Effect::Malformed));
    let steps = [0x0A, 0x07, 0xE8, 3, 9, 14, 0, 12, 0, 60, 0, 0, 12, 0, 45, 0, 0, 0];
    assert!(matches!(ctx.on_notification(Endpoint::Data2N, &steps), Effect::Malformed));
}
