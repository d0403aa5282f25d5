use ls02::data2::{req, res};
use ls02::common::{
    CommandId,
    Date,
    DevicePulseType,
    HeartRateCommandSubId,
    HeartRateMenuCommandSubId,
    RecordedStepsCommandSubId,
    StepsEntry,
};
use ls02::{DecodeError, WireRecord};

#[test]
fn data2_req_heart_rate_data_request_round_trip() {
    let v = req::HeartRateDataRequest {
        id: CommandId::HeartRate,
        sub_id: HeartRateCommandSubId::DataRequest,
    };
    assert!(v.well_formed());
    let bytes = v.encode();
    assert_eq!(bytes, vec![0x18, 0xFA]);
    assert_eq!(req::HeartRateDataRequest::decode(&bytes), Ok(v));
}

#[test]
fn data2_req_heart_rate_data_request_rejects() {
    let good: Vec<u8> = vec![0x18, 0xFA];
    assert!(req::HeartRateDataRequest::decode(&good).is_ok());
    let mut longer = good.clone();
    longer.push(0);
    assert_eq!(req::HeartRateDataRequest::decode(&longer), Err(DecodeError::Malformed));
    assert_eq!(req::HeartRateDataRequest::decode(&good[..good.len() - 1]), Err(DecodeError::TypeMismatch));
    let mut other = good.clone();
    other[0] = 0x55;
    assert_eq!(req::HeartRateDataRequest::decode(&other), Err(DecodeError::TypeMismatch));
    let mut other = good.clone();
    other[1] = 0x55;
    assert_eq!(req::HeartRateDataRequest::decode(&other), Err(DecodeError::TypeMismatch));
    assert_eq!(req::HeartRateDataRequest::decode(&[]), Err(DecodeError::TypeMismatch));
}

#[test]
fn data2_req_heart_rate_enable_request_round_trip() {
    let v = req::HeartRateEnableRequest {
        id: CommandId::HeartRate,
        sub_id: HeartRateCommandSubId::Enable,
    };
    assert!(v.well_formed());
    let bytes = v.encode();
    assert_eq!(bytes, vec![0x18, 0x01]);
    assert_eq!(req::HeartRateEnableRequest::decode(&bytes), Ok(v));
}

#[test]
fn data2_req_heart_rate_enable_request_rejects() {
    let good: Vec<u8> = vec![0x18, 0x01];
    assert!(req::HeartRateEnableRequest::decode(&good).is_ok());
    let mut longer = good.clone();
    longer.push(0);
    assert_eq!(req::HeartRateEnableRequest::decode(&longer), Err(DecodeError::Malformed));
    assert_eq!(req::HeartRateEnableRequest::decode(&good[..good.len() - 1]), Err(DecodeError::TypeMismatch));
    let mut other = good.clone();
    other[0] = 0x55;
    assert_eq!(req::HeartRateEnableRequest::decode(&other), Err(DecodeError::TypeMismatch));
    let mut other = good.clone();
    other[1] = 0x55;
    assert_eq!(req::HeartRateEnableRequest::decode(&other), Err(DecodeError::TypeMismatch));
    assert_eq!(req::HeartRateEnableRequest::decode(&[]), Err(DecodeError::TypeMismatch));
}

#[test]
fn data2_req_heart_rate_disable_request_round_trip() {
    let v = req::HeartRateDisableRequest {
        id: CommandId::HeartRate,
        sub_id: HeartRateCommandSubId::Disable,
    };
    assert!(v.well_formed());
    let bytes = v.encode();
    assert_eq!(bytes, vec![0x18, 0x02]);
    assert_eq!(req::HeartRateDisableRequest::decode(&bytes), Ok(v));
}

#[test]
fn data2_req_heart_rate_disable_request_rejects() {
    let good: Vec<u8> = vec![0x18, 0x02];
    assert!(req::HeartRateDisableRequest::decode(&good).is_ok());
    let mut longer = good.clone();
    longer.push(0);
    assert_eq!(req::HeartRateDisableRequest::decode(&longer), Err(DecodeError::Malformed));
    assert_eq!(req::HeartRateDisableRequest::decode(&good[..good.len() - 1]), Err(DecodeError::TypeMismatch));
    let mut other = good.clone();
    other[0] = 0x55;
    assert_eq!(req::HeartRateDisableRequest::decode(&other), Err(DecodeError::TypeMismatch));
    let mut other = good.clone();
    other[1] = 0x55;
    assert_eq!(req::HeartRateDisableRequest::decode(&other), Err(DecodeError::TypeMismatch));
    assert_eq!(req::HeartRateDisableRequest::decode(&[]), Err(DecodeError::TypeMismatch));
}

#[test]
fn data2_req_recorded_steps_request_round_trip() {
    let v = req::RecordedStepsRequest {
        id: CommandId::RecordedStepsData2,
        sub_id: RecordedStepsCommandSubId::Request,
        unk: 1,
    };
    assert!(v.well_formed());
    let bytes = v.encode();
    assert_eq!(bytes, vec![0x0A, 0x03, 0x01]);
    assert_eq!(req::RecordedStepsRequest::decode(&bytes), Ok(v));
}

#[test]
fn data2_req_recorded_steps_request_rejects() {
    let good: Vec<u8> = vec![0x0A, 0x03, 0x01];
    assert!(req::RecordedStepsRequest::decode(&good).is_ok());
    let mut longer = good.clone();
    longer.push(0);
    assert_eq!(req::RecordedStepsRequest::decode(&longer), Err(DecodeError::Malformed));
    assert_eq!(req::RecordedStepsRequest::decode(&good[..good.len() - 1]), Err(DecodeError::Malformed));
    let mut other = good.clone();
    other[0] = 0x55;
    assert_eq!(req::RecordedStepsRequest::decode(&other), Err(DecodeError::TypeMismatch));
    let mut other = good.clone();
    other[1] = 0x55;
    assert_eq!(req::RecordedStepsRequest::decode(&other), Err(DecodeError::TypeMismatch));
    assert_eq!(req::RecordedStepsRequest::decode(&[]), Err(DecodeError::TypeMismatch));
    let mut bad = good.clone();
    bad[2] = 0x77;
    assert_eq!(req::RecordedStepsRequest::decode(&bad), Err(DecodeError::Malformed));
}

#[test]
fn data2_res_heart_rate_data_today_response_round_trip() {
    let v = res::HeartRateDataTodayResponse {
        id: CommandId::HeartRate,
        sub_id: HeartRateCommandSubId::DataToday,
        date: Date::new(2024, 3, 9),
        hour: 70,
        min: 77,
        max_heart_rate: 84,
        min_heart_rate: 91,
        avg_heart_rate: 98,
    };
    assert!(v.well_formed());
    let bytes = v.encode();
    assert_eq!(bytes, vec![0x18, 0x04, 0x07, 0xE8, 0x03, 0x09, 0x46, 0x4D, 0x54, 0x5B, 0x62]);
    assert_eq!(res::HeartRateDataTodayResponse::decode(&bytes), Ok(v));
}

#[test]
fn data2_res_heart_rate_data_today_response_rejects() {
    let good: Vec<u8> = vec![0x18, 0x04, 0x07, 0xE8, 0x03, 0x09, 0x46, 0x4D, 0x54, 0x5B, 0x62];
    assert!(res::HeartRateDataTodayResponse::decode(&good).is_ok());
    let mut longer = good.clone();
    longer.push(0);
    assert_eq!(res::HeartRateDataTodayResponse::decode(&longer), Err(DecodeError::Malformed));
    assert_eq!(res::HeartRateDataTodayResponse::decode(&good[..good.len() - 1]), Err(DecodeError::Malformed));
    let mut other = good.clone();
    other[0] = 0x55;
    assert_eq!(res::HeartRateDataTodayResponse::decode(&other), Err(DecodeError::TypeMismatch));
    let mut other = good.clone();
    other[1] = 0x55;
    assert_eq!(res::HeartRateDataTodayResponse::decode(&other), Err(DecodeError::TypeMismatch));
    assert_eq!(res::HeartRateDataTodayResponse::decode(&[]), Err(DecodeError::TypeMismatch));
}

#[test]
fn data2_res_heart_rate_data_end_response_round_trip() {
    let v = res::HeartRateDataEndResponse {
        id: CommandId::HeartRate,
        sub_id: HeartRateCommandSubId::DataEnd,
        unk: 63,
    };
    assert!(v.well_formed());
    let bytes = v.encode();
    assert_eq!(bytes, vec![0x18, 0xFD, 0x3F]);
    assert_eq!(res::HeartRateDataEndResponse::decode(&bytes), Ok(v));
}

#[test]
fn data2_res_heart_rate_data_end_response_rejects() {
    let good: Vec<u8> = vec![0x18, 0xFD, 0x3F];
    assert!(res::HeartRateDataEndResponse::decode(&good).is_ok());
    let mut longer = good.clone();
    longer.push(0);
    assert_eq!(res::HeartRateDataEndResponse::decode(&longer), Err(DecodeError::Malformed));
    assert_eq!(res::HeartRateDataEndResponse::decode(&good[..good.len() - 1]), Err(DecodeError::Malformed));
    let mut other = good.clone();
    other[0] = 0x55;
    assert_eq!(res::HeartRateDataEndResponse::decode(&other), Err(DecodeError::TypeMismatch));
    let mut other = good.clone();
    other[1] = 0x55;
    assert_eq!(res::HeartRateDataEndResponse::decode(&other), Err(DecodeError::TypeMismatch));
    assert_eq!(res::HeartRateDataEndResponse::decode(&[]), Err(DecodeError::TypeMismatch));
}

#[test]
fn data2_res_heart_rate_data_day_hour_entry_response_round_trip() {
    let v = res::HeartRateDataDayHourEntryResponse {
        id: CommandId::HeartRate,
        date: Date::new(2024, 3, 9),
        hour: 63,
        heart_rates: [160, 161, 162, 163, 164, 165, 166, 167, 168, 169, 170, 171],
    };
    assert!(v.well_formed());
    let bytes = v.encode();
    assert_eq!(bytes, vec![0x18, 0x07, 0xE8, 0x03, 0x09, 0x3F, 0xA0, 0xA1, 0xA2, 0xA3, 0xA4, 0xA5, 0xA6, 0xA7, 0xA8, 0xA9, 0xAA, 0xAB]);
    assert_eq!(res::HeartRateDataDayHourEntryResponse::decode(&bytes), Ok(v));
}

#[test]
fn data2_res_heart_rate_data_day_hour_entry_response_rejects() {
    let good: Vec<u8> = vec![0x18, 0x07, 0xE8, 0x03, 0x09, 0x3F, 0xA0, 0xA1, 0xA2, 0xA3, 0xA4, 0xA5, 0xA6, 0xA7, 0xA8, 0xA9, 0xAA, 0xAB];
    assert!(res::HeartRateDataDayHourEntryResponse::decode(&good).is_ok());
    let mut longer = good.clone();
    longer.push(0);
    assert_eq!(res::HeartRateDataDayHourEntryResponse::decode(&longer), Err(DecodeError::Malformed));
    assert_eq!(res::HeartRateDataDayHourEntryResponse::decode(&good[..good.len() - 1]), Err(DecodeError::Malformed));
    let mut other = good.clone();
    other[0] = 0x55;
    assert_eq!(res::HeartRateDataDayHourEntryResponse::decode(&other), Err(DecodeError::TypeMismatch));
    assert_eq!(res::HeartRateDataDayHourEntryResponse::decode(&[]), Err(DecodeError::TypeMismatch));
}

#[test]
fn data2_res_heart_rate_data_periodic_response_round_trip() {
    let v = res::HeartRateDataPeriodicResponse {
        id: CommandId::HeartRate,
        sub_id: HeartRateCommandSubId::DataPeriodic,
        date: Date::new(2024, 3, 9),
        hour: 70,
        min: 77,
        heart_rate: 84,
    };
    assert!(v.well_formed());
    let bytes = v.encode();
    assert_eq!(bytes, vec![0x18, 0x03, 0x07, 0xE8, 0x03, 0x09, 0x46, 0x4D, 0x54]);
    assert_eq!(res::HeartRateDataPeriodicResponse::decode(&bytes), Ok(v));
}

#[test]
fn data2_res_heart_rate_data_periodic_response_rejects() {
    let good: Vec<u8> = vec![0x18, 0x03, 0x07, 0xE8, 0x03, 0x09, 0x46, 0x4D, 0x54];
    assert!(res::HeartRateDataPeriodicResponse::decode(&good).is_ok());
    let mut longer = good.clone();
    longer.push(0);
    assert_eq!(res::HeartRateDataPeriodicResponse::decode(&longer), Err(DecodeError::Malformed));
    assert_eq!(res::HeartRateDataPeriodicResponse::decode(&good[..good.len() - 1]), Err(DecodeError::Malformed));
    let mut other = good.clone();
    other[0] = 0x55;
    assert_eq!(res::HeartRateDataPeriodicResponse::decode(&other), Err(DecodeError::TypeMismatch));
    let mut other = good.clone();
    other[1] = 0x55;
    assert_eq!(res::HeartRateDataPeriodicResponse::decode(&other), Err(DecodeError::TypeMismatch));
    assert_eq!(res::HeartRateDataPeriodicResponse::decode(&[]), Err(DecodeError::TypeMismatch));
}

#[test]
fn data2_res_heart_rate_enable_response_round_trip() {
    let v = res::HeartRateEnableResponse {
        id: CommandId::HeartRate,
        sub_id: HeartRateCommandSubId::Enable,
    };
    assert!(v.well_formed());
    let bytes = v.encode();
    assert_eq!(bytes, vec![0x18, 0x01]);
    assert_eq!(res::HeartRateEnableResponse::decode(&bytes), Ok(v));
}

#[test]
fn data2_res_heart_rate_enable_response_rejects() {
    let good: Vec<u8> = vec![0x18, 0x01];
    assert!(res::HeartRateEnableResponse::decode(&good).is_ok());
    let mut longer = good.clone();
    longer.push(0);
    assert_eq!(res::HeartRateEnableResponse::decode(&longer), Err(DecodeError::Malformed));
    assert_eq!(res::HeartRateEnableResponse::decode(&good[..good.len() - 1]), Err(DecodeError::TypeMismatch));
    let mut other = good.clone();
    other[0] = 0x55;
    assert_eq!(res::HeartRateEnableResponse::decode(&other), Err(DecodeError::TypeMismatch));
    let mut other = good.clone();
    other[1] = 0x55;
    assert_eq!(res::HeartRateEnableResponse::decode(&other), Err(DecodeError::TypeMismatch));
    assert_eq!(res::HeartRateEnableResponse::decode(&[]), Err(DecodeError::TypeMismatch));
}

#[test]
fn data2_res_heart_rate_disable_response_round_trip() {
    let v = res::HeartRateDisableResponse {
        id: CommandId::HeartRate,
        sub_id: HeartRateCommandSubId::Disable,
    };
    assert!(v.well_formed());
    let bytes = v.encode();
    assert_eq!(bytes, vec![0x18, 0x02]);
    assert_eq!(res::HeartRateDisableResponse::decode(&bytes), Ok(v));
}

#[test]
fn data2_res_heart_rate_disable_response_rejects() {
    let good: Vec<u8> = vec![0x18, 0x02];
    assert!(res::HeartRateDisableResponse::decode(&good).is_ok());
    let mut longer = good.clone();
    longer.push(0);
    assert_eq!(res::HeartRateDisableResponse::decode(&longer), Err(DecodeError::Malformed));
    assert_eq!(res::HeartRateDisableResponse::decode(&good[..good.len() - 1]), Err(DecodeError::TypeMismatch));
    let mut other = good.clone();
    other[0] = 0x55;
    assert_eq!(res::HeartRateDisableResponse::decode(&other), Err(DecodeError::TypeMismatch));
    let mut other = good.clone();
    other[1] = 0x55;
    assert_eq!(res::HeartRateDisableResponse::decode(&other), Err(DecodeError::TypeMismatch));
    assert_eq!(res::HeartRateDisableResponse::decode(&[]), Err(DecodeError::TypeMismatch));
}

#[test]
fn data2_res_steps_response_round_trip() {
    let v = res::StepsResponse {
        id: CommandId::Steps,
        date: Date::new(2024, 3, 9),
        hour: 63,
        min: 70,
        new_step_count: 77,
        unk: [160, 161, 162, 163, 164, 165, 166, 167, 168, 169],
    };
    assert!(v.well_formed());
    let bytes = v.encode();
    assert_eq!(bytes, vec![0x09, 0x07, 0xE8, 0x03, 0x09, 0x3F, 0x46, 0x4D, 0xA0, 0xA1, 0xA2, 0xA3, 0xA4, 0xA5, 0xA6, 0xA7, 0xA8, 0xA9]);
    assert_eq!(res::StepsResponse::decode(&bytes), Ok(v));
}

#[test]
fn data2_res_steps_response_rejects() {
    let good: Vec<u8> = vec![0x09, 0x07, 0xE8, 0x03, 0x09, 0x3F, 0x46, 0x4D, 0xA0, 0xA1, 0xA2, 0xA3, 0xA4, 0xA5, 0xA6, 0xA7, 0xA8, 0xA9];
    assert!(res::StepsResponse::decode(&good).is_ok());
    let mut longer = good.clone();
    longer.push(0);
    assert_eq!(res::StepsResponse::decode(&longer), Err(DecodeError::Malformed));
    assert_eq!(res::StepsResponse::decode(&good[..good.len() - 1]), Err(DecodeError::Malformed));
    let mut other = good.clone();
    other[0] = 0x55;
    assert_eq!(res::StepsResponse::decode(&other), Err(DecodeError::TypeMismatch));
    assert_eq!(res::StepsResponse::decode(&[]), Err(DecodeError::TypeMismatch));
}

#[test]
fn data2_res_heart_rate_menu_periodic_response_round_trip() {
    let v = res::HeartRateMenuPeriodicResponse {
        id: CommandId::HeartRateMenuData,
        sub_id: HeartRateMenuCommandSubId::InMenu,
        unk_maybe_pad: 63,
        heart_rate: 70,
    };
    assert!(v.well_formed());
    let bytes = v.encode();
    assert_eq!(bytes, vec![0x16, 0x11, 0x3F, 0x46]);
    assert_eq!(res::HeartRateMenuPeriodicResponse::decode(&bytes), Ok(v));
}

#[test]
fn data2_res_heart_rate_menu_periodic_response_rejects() {
    let good: Vec<u8> = vec![0x16, 0x11, 0x3F, 0x46];
    assert!(res::HeartRateMenuPeriodicResponse::decode(&good).is_ok());
    let mut longer = good.clone();
    longer.push(0);
    assert_eq!(res::HeartRateMenuPeriodicResponse::decode(&longer), Err(DecodeError::Malformed));
    assert_eq!(res::HeartRateMenuPeriodicResponse::decode(&good[..good.len() - 1]), Err(DecodeError::Malformed));
    let mut other = good.clone();
    other[0] = 0x55;
    assert_eq!(res::HeartRateMenuPeriodicResponse::decode(&other), Err(DecodeError::TypeMismatch));
    let mut other = good.clone();
    other[1] = 0x55;
    assert_eq!(res::HeartRateMenuPeriodicResponse::decode(&other), Err(DecodeError::TypeMismatch));
    assert_eq!(res::HeartRateMenuPeriodicResponse::decode(&[]), Err(DecodeError::TypeMismatch));
}

#[test]
fn data2_res_heart_rate_menu_move_down_response_round_trip() {
    let v = res::HeartRateMenuMoveDownResponse {
        id: CommandId::HeartRateMenuData,
        sub_id: HeartRateMenuCommandSubId::InMenu,
    };
    assert!(v.well_formed());
    let bytes = v.encode();
    assert_eq!(bytes, vec![0x16, 0x11]);
    assert_eq!(res::HeartRateMenuMoveDownResponse::decode(&bytes), Ok(v));
}

#[test]
fn data2_res_heart_rate_menu_move_down_response_rejects() {
    let good: Vec<u8> = vec![0x16, 0x11];
    assert!(res::HeartRateMenuMoveDownResponse::decode(&good).is_ok());
    let mut longer = good.clone();
    longer.push(0);
    assert_eq!(res::HeartRateMenuMoveDownResponse::decode(&longer), Err(DecodeError::Malformed));
    assert_eq!(res::HeartRateMenuMoveDownResponse::decode(&good[..good.len() - 1]), Err(DecodeError::TypeMismatch));
    let mut other = good.clone();
    other[0] = 0x55;
    assert_eq!(res::HeartRateMenuMoveDownResponse::decode(&other), Err(DecodeError::TypeMismatch));
    let mut other = good.clone();
    other[1] = 0x55;
    assert_eq!(res::HeartRateMenuMoveDownResponse::decode(&other), Err(DecodeError::TypeMismatch));
    assert_eq!(res::HeartRateMenuMoveDownResponse::decode(&[]), Err(DecodeError::TypeMismatch));
}

#[test]
fn data2_res_heart_rate_data_today_unk2_response_round_trip() {
    let v = res::HeartRateDataTodayUnk2Response {
        id: CommandId::HeartRateUnk2,
        sub_id: HeartRateCommandSubId::DataToday,
        date: Date::new(2024, 3, 9),
        hour: 70,
        min: 77,
        max_heart_rate: 84,
        min_heart_rate: 91,
        avg_heart_rate: 98,
    };
    assert!(v.well_formed());
    let bytes = v.encode();
    assert_eq!(bytes, vec![0xF7, 0x04, 0x07, 0xE8, 0x03, 0x09, 0x46, 0x4D, 0x54, 0x5B, 0x62]);
    assert_eq!(res::HeartRateDataTodayUnk2Response::decode(&bytes), Ok(v));
}

#[test]
fn data2_res_heart_rate_data_today_unk2_response_rejects() {
    let good: Vec<u8> = vec![0xF7, 0x04, 0x07, 0xE8, 0x03, 0x09, 0x46, 0x4D, 0x54, 0x5B, 0x62];
    assert!(res::HeartRateDataTodayUnk2Response::decode(&good).is_ok());
    let mut longer = good.clone();
    longer.push(0);
    assert_eq!(res::HeartRateDataTodayUnk2Response::decode(&longer), Err(DecodeError::Malformed));
    assert_eq!(res::HeartRateDataTodayUnk2Response::decode(&good[..good.len() - 1]), Err(DecodeError::Malformed));
    let mut other = good.clone();
    other[0] = 0x55;
    assert_eq!(res::HeartRateDataTodayUnk2Response::decode(&other), Err(DecodeError::TypeMismatch));
    let mut other = good.clone();
    other[1] = 0x55;
    assert_eq!(res::HeartRateDataTodayUnk2Response::decode(&other), Err(DecodeError::TypeMismatch));
    assert_eq!(res::HeartRateDataTodayUnk2Response::decode(&[]), Err(DecodeError::TypeMismatch));
}

#[test]
fn data2_res_steps_unk2_response_round_trip() {
    let v = res::StepsUnk2Response {
        id: CommandId::StepsUnk2,
        entry: StepsEntry { date: Date::new(2023, 12, 31), hour: 17, new_all_step_count: 0x0102, unk_1: 5, last_new_run_step_min: 6, unk_2: 7, new_run_step_count: 0x0304, unk_3: 8, last_new_walk_step_min: 9, unk_4: 10, new_walk_step_count: 0x0506 },
    };
    assert!(v.well_formed());
    let bytes = v.encode();
    assert_eq!(bytes, vec![0xB1, 0x07, 0xE7, 0x0C, 0x1F, 0x11, 0x01, 0x02, 0x05, 0x06, 0x07, 0x03, 0x04, 0x08, 0x09, 0x0A, 0x05, 0x06]);
    assert_eq!(res::StepsUnk2Response::decode(&bytes), Ok(v));
}

#[test]
fn data2_res_steps_unk2_response_rejects() {
    let good: Vec<u8> = vec![0xB1, 0x07, 0xE7, 0x0C, 0x1F, 0x11, 0x01, 0x02, 0x05, 0x06, 0x07, 0x03, 0x04, 0x08, 0x09, 0x0A, 0x05, 0x06];
    assert!(res::StepsUnk2Response::decode(&good).is_ok());
    let mut longer = good.clone();
    longer.push(0);
    assert_eq!(res::StepsUnk2Response::decode(&longer), Err(DecodeError::Malformed));
    assert_eq!(res::StepsUnk2Response::decode(&good[..good.len() - 1]), Err(DecodeError::Malformed));
    let mut other = good.clone();
    other[0] = 0x55;
    assert_eq!(res::StepsUnk2Response::decode(&other), Err(DecodeError::TypeMismatch));
    assert_eq!(res::StepsUnk2Response::decode(&[]), Err(DecodeError::TypeMismatch));
}

#[test]
fn data2_res_heart_rate_data_periodic_unk2_response_round_trip() {
    let v = res::HeartRateDataPeriodicUnk2Response {
        id: CommandId::HeartRateUnk2,
        sub_id: HeartRateCommandSubId::DataPeriodic,
        date: Date::new(2024, 3, 9),
        hour: 70,
        min: 77,
        heart_rate: 84,
    };
    assert!(v.well_formed());
    let bytes = v.encode();
    assert_eq!(bytes, vec![0xF7, 0x03, 0x07, 0xE8, 0x03, 0x09, 0x46, 0x4D, 0x54]);
    assert_eq!(res::HeartRateDataPeriodicUnk2Response::decode(&bytes), Ok(v));
}

#[test]
fn data2_res_heart_rate_data_periodic_unk2_response_rejects() {
    let good: Vec<u8> = vec![0xF7, 0x03, 0x07, 0xE8, 0x03, 0x09, 0x46, 0x4D, 0x54];
    assert!(res::HeartRateDataPeriodicUnk2Response::decode(&good).is_ok());
    let mut longer = good.clone();
    longer.push(0);
    assert_eq!(res::HeartRateDataPeriodicUnk2Response::decode(&longer), Err(DecodeError::Malformed));
    assert_eq!(res::HeartRateDataPeriodicUnk2Response::decode(&good[..good.len() - 1]), Err(DecodeError::Malformed));
    let mut other = good.clone();
    other[0] = 0x55;
    assert_eq!(res::HeartRateDataPeriodicUnk2Response::decode(&other), Err(DecodeError::TypeMismatch));
    let mut other = good.clone();
    other[1] = 0x55;
    assert_eq!(res::HeartRateDataPeriodicUnk2Response::decode(&other), Err(DecodeError::TypeMismatch));
    assert_eq!(res::HeartRateDataPeriodicUnk2Response::decode(&[]), Err(DecodeError::TypeMismatch));
}

#[test]
fn data2_res_device_pulse_unk2_response_round_trip() {
    let v = res::DevicePulseUnk2Response {
        id: CommandId::DevicePulseUnk2,
        pulse_type: DevicePulseType::MusicNext,
    };
    assert!(v.well_formed());
    let bytes = v.encode();
    assert_eq!(bytes, vec![0x12, 0x08]);
    assert_eq!(res::DevicePulseUnk2Response::decode(&bytes), Ok(v));
}

#[test]
fn data2_res_device_pulse_unk2_response_rejects() {
    let good: Vec<u8> = vec![0x12, 0x08];
    assert!(res::DevicePulseUnk2Response::decode(&good).is_ok());
    let mut longer = good.clone();
    longer.push(0);
    assert_eq!(res::DevicePulseUnk2Response::decode(&longer), Err(DecodeError::Malformed));
    assert_eq!(res::DevicePulseUnk2Response::decode(&good[..good.len() - 1]), Err(DecodeError::Malformed));
    let mut other = good.clone();
    other[0] = 0x55;
    assert_eq!(res::DevicePulseUnk2Response::decode(&other), Err(DecodeError::TypeMismatch));
    assert_eq!(res::DevicePulseUnk2Response::decode(&[]), Err(DecodeError::TypeMismatch));
    let mut bad = good.clone();
    bad[1] = 0x77;
    assert_eq!(res::DevicePulseUnk2Response::decode(&bad), Err(DecodeError::Malformed));
}

#[test]
fn data2_res_recorded_steps_entry_response_round_trip() {
    let v = res::RecordedStepsEntryResponse {
        id: CommandId::RecordedStepsData2,
        entry: StepsEntry { date: Date::new(2023, 12, 31), hour: 17, new_all_step_count: 0x0102, unk_1: 5, last_new_run_step_min: 6, unk_2: 7, new_run_step_count: 0x0304, unk_3: 8, last_new_walk_step_min: 9, unk_4: 10, new_walk_step_count: 0x0506 },
    };
    assert!(v.well_formed());
    let bytes = v.encode();
    assert_eq!(bytes, vec![0x0A, 0x07, 0xE7, 0x0C, 0x1F, 0x11, 0x01, 0x02, 0x05, 0x06, 0x07, 0x03, 0x04, 0x08, 0x09, 0x0A, 0x05, 0x06]);
    assert_eq!(res::RecordedStepsEntryResponse::decode(&bytes), Ok(v));
}

#[test]
fn data2_res_recorded_steps_entry_response_rejects() {
    let good: Vec<u8> = vec![0x0A, 0x07, 0xE7, 0x0C, 0x1F, 0x11, 0x01, 0x02, 0x05, 0x06, 0x07, 0x03, 0x04, 0x08, 0x09, 0x0A, 0x05, 0x06];
    assert!(res::RecordedStepsEntryResponse::decode(&good).is_ok());
    let mut longer = good.clone();
    longer.push(0);
    assert_eq!(res::RecordedStepsEntryResponse::decode(&longer), Err(DecodeError::Malformed));
    assert_eq!(res::RecordedStepsEntryResponse::decode(&good[..good.len() - 1]), Err(DecodeError::Malformed));
    let mut other = good.clone();
    other[0] = 0x55;
    assert_eq!(res::RecordedStepsEntryResponse::decode(&other), Err(DecodeError::TypeMismatch));
    assert_eq!(res::RecordedStepsEntryResponse::decode(&[]), Err(DecodeError::TypeMismatch));
}

#[test]
fn data2_res_recorded_steps_end_response_round_trip() {
    let v = res::RecordedStepsEndResponse {
        id: CommandId::RecordedStepsData2,
        sub_id: RecordedStepsCommandSubId::End,
        unk: 63,
    };
    assert!(v.well_formed());
    let bytes = v.encode();
    assert_eq!(bytes, vec![0x0A, 0xFD, 0x3F]);
    assert_eq!(res::RecordedStepsEndResponse::decode(&bytes), Ok(v));
}

#[test]
fn data2_res_recorded_steps_end_response_rejects() {
    let good: Vec<u8> = vec![0x0A, 0xFD, 0x3F];
    assert!(res::RecordedStepsEndResponse::decode(&good).is_ok());
    let mut longer = good.clone();
    longer.push(0);
    assert_eq!(res::RecordedStepsEndResponse::decode(&longer), Err(DecodeError::Malformed));
    assert_eq!(res::RecordedStepsEndResponse::decode(&good[..good.len() - 1]), Err(DecodeError::Malformed));
    let mut other = good.clone();
    other[0] = 0x55;
    assert_eq!(res::RecordedStepsEndResponse::decode(&other), Err(DecodeError::TypeMismatch));
    let mut other = good.clone();
    other[1] = 0x55;
    assert_eq!(res::RecordedStepsEndResponse::decode(&other), Err(DecodeError::TypeMismatch));
    assert_eq!(res::RecordedStepsEndResponse::decode(&[]), Err(DecodeError::TypeMismatch));
}
