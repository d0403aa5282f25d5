use ls02::common::{CommandId, Date, DevicePulseType, HeartRateCommandSubId, StepsEntry};
use ls02::data2::res as data2;
use ls02::demux::{candidates, classify_with, decode_as, demux, Demuxed, Response, ResponseKind};
use ls02::general::res as general;
use ls02::{DecodeError, Endpoint, WireRecord};

fn steps_entry() -> StepsEntry {
    StepsEntry {
        date: Date::new(2024, 3, 9),
        hour: 14,
        new_all_step_count: 12,
        unk_1: 0,
        last_new_run_step_min: 30,
        unk_2: 0,
        new_run_step_count: 12,
        unk_3: 0,
        last_new_walk_step_min: 0,
        unk_4: 0,
        new_walk_step_count: 0,
    }
}

#[test]
fn general_priority_table() {
    assert_eq!(
        candidates(Endpoint::GeneralN1),
        vec![
            ResponseKind::PairKey,
            ResponseKind::Battery,
            ResponseKind::SetDateTime,
            ResponseKind::Firmware,
            ResponseKind::DevicePulse,
            ResponseKind::SetWeather,
            ResponseKind::HeartRateMenuDataPeriodic,
            ResponseKind::HeartRateMenuDataLeaving,
            ResponseKind::HeartRateMenuChange,
            ResponseKind::SilentModeChange,
            ResponseKind::SportStatus,
            ResponseKind::GeneralRecordedStepsEntry,
            ResponseKind::GeneralRecordedStepsEnd,
        ]
    );
}

#[test]
fn data2_priority_table() {
    assert_eq!(
        candidates(Endpoint::Data2N),
        vec![
            ResponseKind::HeartRateDataToday,
            ResponseKind::HeartRateDataDayHourEntry,
            ResponseKind::HeartRateDataEnd,
            ResponseKind::HeartRateDataPeriodic,
            ResponseKind::HeartRateEnable,
            ResponseKind::HeartRateDisable,
            ResponseKind::Steps,
            ResponseKind::HeartRateMenuPeriodic,
            ResponseKind::HeartRateMenuMoveDown,
            ResponseKind::HeartRateDataTodayUnk2,
            ResponseKind::StepsUnk2,
            ResponseKind::HeartRateDataPeriodicUnk2,
            ResponseKind::DevicePulseUnk2,
            ResponseKind::Data2RecordedStepsEntry,
            ResponseKind::Data2RecordedStepsEnd,
        ]
    );
}

#[test]
fn other_characteristics_have_no_candidates() {
    for e in [
        Endpoint::GeneralRw1,
        Endpoint::GeneralRw2,
        Endpoint::GeneralN2,
        Endpoint::Data1Rw,
        Endpoint::Data1N,
        Endpoint::Data2Rw,
        Endpoint::Data3Rw,
        Endpoint::Data3N,
    ] {
        assert!(candidates(e).is_empty());
        assert_eq!(demux(e, &[0xA2, 50]), Demuxed::Unrecognized);
    }
}

#[test]
fn kinds_arrive_on_their_characteristic() {
    for kind in candidates(Endpoint::GeneralN1) {
        assert_eq!(kind.endpoint(), Endpoint::GeneralN1);
    }
    for kind in candidates(Endpoint::Data2N) {
        assert_eq!(kind.endpoint(), Endpoint::Data2N);
    }
}

#[test]
fn battery_is_recognized_on_general() {
    let d = demux(Endpoint::GeneralN1, &[0xA2, 64]);
    let expected = general::BatteryResponse { id: CommandId::Battery, battery_percentage: 64 };
    assert_eq!(d, Demuxed::Recognized(Response::Battery(expected)));
    match d {
        Demuxed::Recognized(resp) => assert_eq!(resp.kind(), ResponseKind::Battery),
        Demuxed::Unrecognized => panic!("not recognized"),
    }
}

#[test]
fn battery_is_unrecognized_on_data2() {
    assert_eq!(demux(Endpoint::Data2N, &[0xA2, 64]), Demuxed::Unrecognized);
}

#[test]
fn heart_rate_family_is_told_apart_by_sub_id_and_length() {
    let today = [0x18, 0x04, 0x07, 0xE8, 3, 9, 10, 30, 120, 55, 80];
    match demux(Endpoint::Data2N, &today) {
        Demuxed::Recognized(Response::HeartRateDataToday(r)) => {
            assert_eq!(r.date, Date::new(2024, 3, 9));
            assert_eq!((r.hour, r.min), (10, 30));
            assert_eq!((r.max_heart_rate, r.min_heart_rate, r.avg_heart_rate), (120, 55, 80));
        }
        other => panic!("{:?}", other),
    }
    let hour = [0x18, 0x07, 0xE8, 3, 9, 10, 60, 61, 62, 63, 64, 65, 66, 67, 68, 69, 70, 71];
    match demux(Endpoint::Data2N, &hour) {
        Demuxed::Recognized(Response::HeartRateDataDayHourEntry(r)) => {
            assert_eq!(r.hour, 10);
            assert_eq!(r.heart_rates, [60, 61, 62, 63, 64, 65, 66, 67, 68, 69, 70, 71]);
        }
        other => panic!("{:?}", other),
    }
    let periodic = [0x18, 0x03, 0x07, 0xE8, 3, 9, 10, 31, 77];
    match demux(Endpoint::Data2N, &periodic) {
        Demuxed::Recognized(Response::HeartRateDataPeriodic(r)) => assert_eq!(r.heart_rate, 77),
        other => panic!("{:?}", other),
    }
    match demux(Endpoint::Data2N, &[0x18, 0xFD, 0]) {
        Demuxed::Recognized(Response::HeartRateDataEnd(r)) => {
            assert_eq!(r.sub_id, HeartRateCommandSubId::DataEnd)
        }
        other => panic!("{:?}", other),
    }
    assert!(matches!(
        demux(Endpoint::Data2N, &[0x18, 0x01]),
        Demuxed::Recognized(Response::HeartRateEnable(_))
    ));
    assert!(matches!(
        demux(Endpoint::Data2N, &[0x18, 0x02]),
        Demuxed::Recognized(Response::HeartRateDisable(_))
    ));
}

#[test]
fn recorded_steps_differ_by_service() {
    let mut general_bytes = vec![0xB2];
    steps_entry().put(&mut general_bytes);
    match demux(Endpoint::GeneralN1, &general_bytes) {
        Demuxed::Recognized(Response::GeneralRecordedStepsEntry(r)) => {
            assert_eq!(r.entry, steps_entry())
        }
        other => panic!("{:?}", other),
    }
    assert_eq!(demux(Endpoint::Data2N, &general_bytes), Demuxed::Unrecognized);
    let mut data2_bytes = vec![0x0A];
    steps_entry().put(&mut data2_bytes);
    match demux(Endpoint::Data2N, &data2_bytes) {
        Demuxed::Recognized(Response::Data2RecordedStepsEntry(r)) => {
            assert_eq!(r.entry, steps_entry())
        }
        other => panic!("{:?}", other),
    }
    assert_eq!(demux(Endpoint::GeneralN1, &data2_bytes), Demuxed::Unrecognized);
    assert!(matches!(
        demux(Endpoint::GeneralN1, &[0xB2, 0xFD, 0]),
        Demuxed::Recognized(Response::GeneralRecordedStepsEnd(_))
    ));
    assert!(matches!(
        demux(Endpoint::Data2N, &[0x0A, 0xFD, 0]),
        Demuxed::Recognized(Response::Data2RecordedStepsEnd(_))
    ));
}

#[test]
fn a_record_with_trailing_bytes_is_unrecognized() {
    assert_eq!(demux(Endpoint::GeneralN1, &[0xA2, 64, 0]), Demuxed::Unrecognized);
    assert_eq!(demux(Endpoint::GeneralN1, &[0xE5, 0x11, 0]), Demuxed::Unrecognized);
    assert!(matches!(
        demux(Endpoint::GeneralN1, &[0xE5, 0x11]),
        Demuxed::Recognized(Response::HeartRateMenuChange(_))
    ));
    assert!(matches!(
        demux(Endpoint::GeneralN1, &[0xE5, 0x11, 0, 70]),
        Demuxed::Recognized(Response::HeartRateMenuDataPeriodic(_))
    ));
    assert!(matches!(
        demux(Endpoint::GeneralN1, &[0xE5, 0x00, 0, 70]),
        Demuxed::Recognized(Response::HeartRateMenuDataLeaving(_))
    ));
}

#[test]
fn unknown_and_empty_buffers_are_unrecognized() {
    assert_eq!(demux(Endpoint::GeneralN1, &[]), Demuxed::Unrecognized);
    assert_eq!(demux(Endpoint::Data2N, &[]), Demuxed::Unrecognized);
    assert_eq!(demux(Endpoint::GeneralN1, &[0x99, 1, 2, 3]), Demuxed::Unrecognized);
    assert_eq!(demux(Endpoint::GeneralN1, &[0xD1, 3]), Demuxed::Unrecognized);
}

#[test]
fn classification_is_repeatable() {
    let buffers: Vec<Vec<u8>> = vec![
        vec![0xA2, 64],
        vec![0xD1, 7],
        vec![0xE5, 0x11],
        vec![0xE5, 0x11, 0, 70],
        vec![0x20, 0x03, 1, 2, 3, 4],
        vec![0x42],
        vec![],
    ];
    for raw in &buffers {
        let first = demux(Endpoint::GeneralN1, raw);
        for _ in 0..5 {
            assert_eq!(demux(Endpoint::GeneralN1, raw), first);
        }
    }
}

#[test]
fn the_first_kind_of_the_table_that_accepts_wins() {
    let raw = [0xD1, 7];
    let table = [ResponseKind::Battery, ResponseKind::DevicePulse, ResponseKind::DevicePulse];
    match classify_with(&table, &raw) {
        Demuxed::Recognized(Response::DevicePulse(r)) => {
            assert_eq!(r.pulse_type, DevicePulseType::MusicPauseResume)
        }
        other => panic!("{:?}", other),
    }
    assert_eq!(classify_with(&[ResponseKind::Battery], &raw), Demuxed::Unrecognized);
    assert_eq!(classify_with(&[], &raw), Demuxed::Unrecognized);
}

#[test]
fn the_order_of_the_table_does_not_change_what_is_recognized() {
    let buffers: Vec<Vec<u8>> = vec![
        vec![0x18, 0x01],
        vec![0x18, 0xFD, 9],
        vec![0x16, 0x11],
        vec![0x16, 0x11, 0, 80],
        vec![0x12, 10],
        vec![0xF7, 0x03, 0x07, 0xE8, 3, 9, 10, 31, 77],
        vec![0x18, 0x05],
    ];
    let table = candidates(Endpoint::Data2N);
    let mut reversed = table.clone();
    reversed.reverse();
    for raw in &buffers {
        assert_eq!(classify_with(&table, raw), classify_with(&reversed, raw));
        assert_eq!(classify_with(&table, raw), demux(Endpoint::Data2N, raw));
    }
}

#[test]
fn decode_as_reports_why() {
    assert_eq!(
        decode_as(ResponseKind::Battery, &[0xA2, 1]),
        Ok(Response::Battery(general::BatteryResponse {
            id: CommandId::Battery,
            battery_percentage: 1
        }))
    );
    assert_eq!(decode_as(ResponseKind::Battery, &[0xA1, 1]), Err(DecodeError::TypeMismatch));
    assert_eq!(decode_as(ResponseKind::Battery, &[0xA2]), Err(DecodeError::Malformed));
    assert_eq!(decode_as(ResponseKind::DevicePulseUnk2, &[0x12, 3]), Err(DecodeError::Malformed));
    assert_eq!(
        decode_as(ResponseKind::DevicePulseUnk2, &[0x12, 2]),
        Ok(Response::DevicePulseUnk2(data2::DevicePulseUnk2Response {
            id: CommandId::DevicePulseUnk2,
            pulse_type: DevicePulseType::HangCall
        }))
    );
}

#[test]
fn every_kind_decodes_the_encoding_of_its_own_type() {
    let raw = general::BatteryResponse { id: CommandId::Battery, battery_percentage: 5 }.encode();
    for kind in candidates(Endpoint::GeneralN1).into_iter().chain(candidates(Endpoint::Data2N)) {
        let r = decode_as(kind, &raw);
        assert_eq!(r.is_ok(), kind == ResponseKind::Battery);
    }
}
