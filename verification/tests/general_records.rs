use ls02::general::{req, res};
use ls02::common::{
    CommandId,
    Date,
    DevicePulseType,
    DistanceUnit,
    HeartRateMenuCommandSubId,
    PairCommandSubId,
    RecordedStepsCommandSubId,
    ResetCommandSubId,
    SilentModeCommandSubId,
    SilentModeStatus,
    SportCommandSubId,
    SportKind,
    StepsEntry,
    TimeFormat,
    UserGender,
    UserLiftWristMode,
    WeatherDate,
    WeatherType,
};
use ls02::{DecodeError, WireRecord};

#[test]
fn general_req_pair_request_round_trip() {
    let v = req::PairRequest {
        id: CommandId::Pair,
        sub_id: PairCommandSubId::Pair,
        pair_key: [160, 161, 162, 163],
    };
    assert!(v.well_formed());
    let bytes = v.encode();
    assert_eq!(bytes, vec![0x20, 0x02, 0xA0, 0xA1, 0xA2, 0xA3]);
    assert_eq!(req::PairRequest::decode(&bytes), Ok(v));
}

#[test]
fn general_req_pair_request_rejects() {
    let good: Vec<u8> = vec![0x20, 0x02, 0xA0, 0xA1, 0xA2, 0xA3];
    assert!(req::PairRequest::decode(&good).is_ok());
    let mut longer = good.clone();
    longer.push(0);
    assert_eq!(req::PairRequest::decode(&longer), Err(DecodeError::Malformed));
    assert_eq!(req::PairRequest::decode(&good[..good.len() - 1]), Err(DecodeError::Malformed));
    let mut other = good.clone();
    other[0] = 0x55;
    assert_eq!(req::PairRequest::decode(&other), Err(DecodeError::TypeMismatch));
    let mut other = good.clone();
    other[1] = 0x55;
    assert_eq!(req::PairRequest::decode(&other), Err(DecodeError::TypeMismatch));
    assert_eq!(req::PairRequest::decode(&[]), Err(DecodeError::TypeMismatch));
}

#[test]
fn general_req_pair_key_request_round_trip() {
    let v = req::PairKeyRequest {
        id: CommandId::Pair,
        sub_id: PairCommandSubId::CurrentPairKey,
    };
    assert!(v.well_formed());
    let bytes = v.encode();
    assert_eq!(bytes, vec![0x20, 0x03]);
    assert_eq!(req::PairKeyRequest::decode(&bytes), Ok(v));
}

#[test]
fn general_req_pair_key_request_rejects() {
    let good: Vec<u8> = vec![0x20, 0x03];
    assert!(req::PairKeyRequest::decode(&good).is_ok());
    let mut longer = good.clone();
    longer.push(0);
    assert_eq!(req::PairKeyRequest::decode(&longer), Err(DecodeError::Malformed));
    assert_eq!(req::PairKeyRequest::decode(&good[..good.len() - 1]), Err(DecodeError::TypeMismatch));
    let mut other = good.clone();
    other[0] = 0x55;
    assert_eq!(req::PairKeyRequest::decode(&other), Err(DecodeError::TypeMismatch));
    let mut other = good.clone();
    other[1] = 0x55;
    assert_eq!(req::PairKeyRequest::decode(&other), Err(DecodeError::TypeMismatch));
    assert_eq!(req::PairKeyRequest::decode(&[]), Err(DecodeError::TypeMismatch));
}

#[test]
fn general_req_battery_request_round_trip() {
    let v = req::BatteryRequest {
        id: CommandId::Battery,
    };
    assert!(v.well_formed());
    let bytes = v.encode();
    assert_eq!(bytes, vec![0xA2]);
    assert_eq!(req::BatteryRequest::decode(&bytes), Ok(v));
}

#[test]
fn general_req_battery_request_rejects() {
    let good: Vec<u8> = vec![0xA2];
    assert!(req::BatteryRequest::decode(&good).is_ok());
    let mut longer = good.clone();
    longer.push(0);
    assert_eq!(req::BatteryRequest::decode(&longer), Err(DecodeError::Malformed));
    assert_eq!(req::BatteryRequest::decode(&good[..good.len() - 1]), Err(DecodeError::TypeMismatch));
    let mut other = good.clone();
    other[0] = 0x55;
    assert_eq!(req::BatteryRequest::decode(&other), Err(DecodeError::TypeMismatch));
    assert_eq!(req::BatteryRequest::decode(&[]), Err(DecodeError::TypeMismatch));
}

#[test]
fn general_req_set_date_time_request_round_trip() {
    let v = req::SetDateTimeRequest {
        id: CommandId::DateTime,
        date: Date::new(2024, 3, 9),
        hour: 63,
        min: 70,
        sec: 77,
    };
    assert!(v.well_formed());
    let bytes = v.encode();
    assert_eq!(bytes, vec![0x04, 0x07, 0xE8, 0x03, 0x09, 0x3F, 0x46, 0x4D]);
    assert_eq!(req::SetDateTimeRequest::decode(&bytes), Ok(v));
}

#[test]
fn general_req_set_date_time_request_rejects() {
    let good: Vec<u8> = vec![0x04, 0x07, 0xE8, 0x03, 0x09, 0x3F, 0x46, 0x4D];
    assert!(req::SetDateTimeRequest::decode(&good).is_ok());
    let mut longer = good.clone();
    longer.push(0);
    assert_eq!(req::SetDateTimeRequest::decode(&longer), Err(DecodeError::Malformed));
    assert_eq!(req::SetDateTimeRequest::decode(&good[..good.len() - 1]), Err(DecodeError::Malformed));
    let mut other = good.clone();
    other[0] = 0x55;
    assert_eq!(req::SetDateTimeRequest::decode(&other), Err(DecodeError::TypeMismatch));
    assert_eq!(req::SetDateTimeRequest::decode(&[]), Err(DecodeError::TypeMismatch));
}

#[test]
fn general_req_firmware_request_round_trip() {
    let v = req::FirmwareRequest {
        id: CommandId::Firmware,
    };
    assert!(v.well_formed());
    let bytes = v.encode();
    assert_eq!(bytes, vec![0xA1]);
    assert_eq!(req::FirmwareRequest::decode(&bytes), Ok(v));
}

#[test]
fn general_req_firmware_request_rejects() {
    let good: Vec<u8> = vec![0xA1];
    assert!(req::FirmwareRequest::decode(&good).is_ok());
    let mut longer = good.clone();
    longer.push(0);
    assert_eq!(req::FirmwareRequest::decode(&longer), Err(DecodeError::Malformed));
    assert_eq!(req::FirmwareRequest::decode(&good[..good.len() - 1]), Err(DecodeError::TypeMismatch));
    let mut other = good.clone();
    other[0] = 0x55;
    assert_eq!(req::FirmwareRequest::decode(&other), Err(DecodeError::TypeMismatch));
    assert_eq!(req::FirmwareRequest::decode(&[]), Err(DecodeError::TypeMismatch));
}

#[test]
fn general_req_reset_request_round_trip() {
    let v = req::ResetRequest {
        id: CommandId::Reset,
        sub_id: ResetCommandSubId::ResetAndReboot,
    };
    assert!(v.well_formed());
    let bytes = v.encode();
    assert_eq!(bytes, vec![0x07, 0x00]);
    assert_eq!(req::ResetRequest::decode(&bytes), Ok(v));
}

#[test]
fn general_req_reset_request_rejects() {
    let good: Vec<u8> = vec![0x07, 0x00];
    assert!(req::ResetRequest::decode(&good).is_ok());
    let mut longer = good.clone();
    longer.push(0);
    assert_eq!(req::ResetRequest::decode(&longer), Err(DecodeError::Malformed));
    assert_eq!(req::ResetRequest::decode(&good[..good.len() - 1]), Err(DecodeError::Malformed));
    let mut other = good.clone();
    other[0] = 0x55;
    assert_eq!(req::ResetRequest::decode(&other), Err(DecodeError::TypeMismatch));
    assert_eq!(req::ResetRequest::decode(&[]), Err(DecodeError::TypeMismatch));
    let mut bad = good.clone();
    bad[1] = 0x77;
    assert_eq!(req::ResetRequest::decode(&bad), Err(DecodeError::Malformed));
}

#[test]
fn general_req_config_display_formats_request_round_trip() {
    let v = req::ConfigDisplayFormatsRequest {
        id: CommandId::Config,
        distance_unit: DistanceUnit::Metric,
        time_fmt: TimeFormat::H12,
    };
    assert!(v.well_formed());
    let bytes = v.encode();
    assert_eq!(bytes, vec![0x01, 0x01, 0x02]);
    assert_eq!(req::ConfigDisplayFormatsRequest::decode(&bytes), Ok(v));
}

#[test]
fn general_req_config_display_formats_request_rejects() {
    let good: Vec<u8> = vec![0x01, 0x01, 0x02];
    assert!(req::ConfigDisplayFormatsRequest::decode(&good).is_ok());
    let mut longer = good.clone();
    longer.push(0);
    assert_eq!(req::ConfigDisplayFormatsRequest::decode(&longer), Err(DecodeError::Malformed));
    assert_eq!(req::ConfigDisplayFormatsRequest::decode(&good[..good.len() - 1]), Err(DecodeError::Malformed));
    let mut other = good.clone();
    other[0] = 0x55;
    assert_eq!(req::ConfigDisplayFormatsRequest::decode(&other), Err(DecodeError::TypeMismatch));
    assert_eq!(req::ConfigDisplayFormatsRequest::decode(&[]), Err(DecodeError::TypeMismatch));
    let mut bad = good.clone();
    bad[1] = 0x77;
    assert_eq!(req::ConfigDisplayFormatsRequest::decode(&bad), Err(DecodeError::Malformed));
    let mut bad = good.clone();
    bad[2] = 0x77;
    assert_eq!(req::ConfigDisplayFormatsRequest::decode(&bad), Err(DecodeError::Malformed));
}

#[test]
fn general_req_alert_push_request_round_trip() {
    let v = req::AlertPushRequest {
        id: CommandId::Alert,
        push_ident: 253,
    };
    assert!(v.well_formed());
    let bytes = v.encode();
    assert_eq!(bytes, vec![0x0F, 0xFD]);
    assert_eq!(req::AlertPushRequest::decode(&bytes), Ok(v));
}

#[test]
fn general_req_alert_push_request_rejects() {
    let good: Vec<u8> = vec![0x0F, 0xFD];
    assert!(req::AlertPushRequest::decode(&good).is_ok());
    let mut longer = good.clone();
    longer.push(0);
    assert_eq!(req::AlertPushRequest::decode(&longer), Err(DecodeError::Malformed));
    assert_eq!(req::AlertPushRequest::decode(&good[..good.len() - 1]), Err(DecodeError::Malformed));
    let mut other = good.clone();
    other[0] = 0x55;
    assert_eq!(req::AlertPushRequest::decode(&other), Err(DecodeError::TypeMismatch));
    assert_eq!(req::AlertPushRequest::decode(&[]), Err(DecodeError::TypeMismatch));
    let mut bad = good.clone();
    bad[1] = 0x77;
    assert_eq!(req::AlertPushRequest::decode(&bad), Err(DecodeError::Malformed));
}

#[test]
fn general_req_set_user_info_request_round_trip() {
    let v = req::SetUserInfoRequest {
        id: CommandId::UserInfo,
        unk0: 56,
        height_cm: 63,
        unk1: 70,
        weight_kg: 77,
        screen_show_timeout_seconds: 84,
        unk2: 91,
        unk3: 98,
        step_goal: 0x1A3C,
        lift_wrist_mode: UserLiftWristMode::Off,
        unk4: 119,
        unk5: 126,
        age: 133,
        gender: UserGender::Male,
        unk6: 147,
        unk7: 154,
        unk8: 161,
        unk9: 168,
    };
    assert!(v.well_formed());
    let bytes = v.encode();
    assert_eq!(bytes, vec![0x05, 0x38, 0x3F, 0x46, 0x4D, 0x54, 0x5B, 0x62, 0x1A, 0x3C, 0x00, 0x77, 0x7E, 0x85, 0x01, 0x93, 0x9A, 0xA1, 0xA8]);
    assert_eq!(req::SetUserInfoRequest::decode(&bytes), Ok(v));
}

#[test]
fn general_req_set_user_info_request_rejects() {
    let good: Vec<u8> = vec![0x05, 0x38, 0x3F, 0x46, 0x4D, 0x54, 0x5B, 0x62, 0x1A, 0x3C, 0x00, 0x77, 0x7E, 0x85, 0x01, 0x93, 0x9A, 0xA1, 0xA8];
    assert!(req::SetUserInfoRequest::decode(&good).is_ok());
    let mut longer = good.clone();
    longer.push(0);
    assert_eq!(req::SetUserInfoRequest::decode(&longer), Err(DecodeError::Malformed));
    assert_eq!(req::SetUserInfoRequest::decode(&good[..good.len() - 1]), Err(DecodeError::Malformed));
    let mut other = good.clone();
    other[0] = 0x55;
    assert_eq!(req::SetUserInfoRequest::decode(&other), Err(DecodeError::TypeMismatch));
    assert_eq!(req::SetUserInfoRequest::decode(&[]), Err(DecodeError::TypeMismatch));
    let mut bad = good.clone();
    bad[10] = 0x77;
    assert_eq!(req::SetUserInfoRequest::decode(&bad), Err(DecodeError::Malformed));
    let mut bad = good.clone();
    bad[14] = 0x77;
    assert_eq!(req::SetUserInfoRequest::decode(&bad), Err(DecodeError::Malformed));
}

#[test]
fn general_req_set_weather_today_request_round_trip() {
    let v = req::SetWeatherTodayRequest {
        id: CommandId::Weather,
        weather_date: WeatherDate::Today,
        weather_type: WeatherType::SunnyRainy,
        unk: 70,
        cur_temperature: 77,
        max_temperature: 84,
        min_temperature: 91,
    };
    assert!(v.well_formed());
    let bytes = v.encode();
    assert_eq!(bytes, vec![0x11, 0x01, 0x04, 0x46, 0x4D, 0x54, 0x5B]);
    assert_eq!(req::SetWeatherTodayRequest::decode(&bytes), Ok(v));
}

#[test]
fn general_req_set_weather_today_request_rejects() {
    let good: Vec<u8> = vec![0x11, 0x01, 0x04, 0x46, 0x4D, 0x54, 0x5B];
    assert!(req::SetWeatherTodayRequest::decode(&good).is_ok());
    let mut longer = good.clone();
    longer.push(0);
    assert_eq!(req::SetWeatherTodayRequest::decode(&longer), Err(DecodeError::Malformed));
    assert_eq!(req::SetWeatherTodayRequest::decode(&good[..good.len() - 1]), Err(DecodeError::Malformed));
    let mut other = good.clone();
    other[0] = 0x55;
    assert_eq!(req::SetWeatherTodayRequest::decode(&other), Err(DecodeError::TypeMismatch));
    let mut other = good.clone();
    other[1] = 0x55;
    assert_eq!(req::SetWeatherTodayRequest::decode(&other), Err(DecodeError::TypeMismatch));
    assert_eq!(req::SetWeatherTodayRequest::decode(&[]), Err(DecodeError::TypeMismatch));
    let mut bad = good.clone();
    bad[2] = 0x77;
    assert_eq!(req::SetWeatherTodayRequest::decode(&bad), Err(DecodeError::Malformed));
}

#[test]
fn general_req_set_weather_following_days_request_round_trip() {
    let v = req::SetWeatherFollowingDaysRequest {
        id: CommandId::Weather,
        weather_date: WeatherDate::FollowingDays,
        next_1_weather_type: WeatherType::SunnyRainy,
        next_1_unk: 70,
        next_1_max_temperature: 77,
        next_1_min_temperature: 84,
        next_2_weather_type: WeatherType::VeryRainy,
        next_2_unk: 98,
        next_2_max_temperature: 105,
        next_2_min_temperature: 112,
        next_3_weather_type: WeatherType::Windy,
        next_3_unk: 126,
        next_3_max_temperature: 133,
        next_3_min_temperature: 140,
    };
    assert!(v.well_formed());
    let bytes = v.encode();
    assert_eq!(bytes, vec![0x11, 0x02, 0x04, 0x46, 0x4D, 0x54, 0x08, 0x62, 0x69, 0x70, 0x0C, 0x7E, 0x85, 0x8C]);
    assert_eq!(req::SetWeatherFollowingDaysRequest::decode(&bytes), Ok(v));
}

#[test]
fn general_req_set_weather_following_days_request_rejects() {
    let good: Vec<u8> = vec![0x11, 0x02, 0x04, 0x46, 0x4D, 0x54, 0x08, 0x62, 0x69, 0x70, 0x0C, 0x7E, 0x85, 0x8C];
    assert!(req::SetWeatherFollowingDaysRequest::decode(&good).is_ok());
    let mut longer = good.clone();
    longer.push(0);
    assert_eq!(req::SetWeatherFollowingDaysRequest::decode(&longer), Err(DecodeError::Malformed));
    assert_eq!(req::SetWeatherFollowingDaysRequest::decode(&good[..good.len() - 1]), Err(DecodeError::Malformed));
    let mut other = good.clone();
    other[0] = 0x55;
    assert_eq!(req::SetWeatherFollowingDaysRequest::decode(&other), Err(DecodeError::TypeMismatch));
    let mut other = good.clone();
    other[1] = 0x55;
    assert_eq!(req::SetWeatherFollowingDaysRequest::decode(&other), Err(DecodeError::TypeMismatch));
    assert_eq!(req::SetWeatherFollowingDaysRequest::decode(&[]), Err(DecodeError::TypeMismatch));
    let mut bad = good.clone();
    bad[2] = 0x77;
    assert_eq!(req::SetWeatherFollowingDaysRequest::decode(&bad), Err(DecodeError::Malformed));
    let mut bad = good.clone();
    bad[6] = 0x77;
    assert_eq!(req::SetWeatherFollowingDaysRequest::decode(&bad), Err(DecodeError::Malformed));
    let mut bad = good.clone();
    bad[10] = 0x77;
    assert_eq!(req::SetWeatherFollowingDaysRequest::decode(&bad), Err(DecodeError::Malformed));
}

#[test]
fn general_req_recorded_steps_request_round_trip() {
    let v = req::RecordedStepsRequest {
        id: CommandId::RecordedStepsGeneral,
        sub_id: RecordedStepsCommandSubId::Request,
        unk: 1,
    };
    assert!(v.well_formed());
    let bytes = v.encode();
    assert_eq!(bytes, vec![0xB2, 0x03, 0x01]);
    assert_eq!(req::RecordedStepsRequest::decode(&bytes), Ok(v));
}

#[test]
fn general_req_recorded_steps_request_rejects() {
    let good: Vec<u8> = vec![0xB2, 0x03, 0x01];
    assert!(req::RecordedStepsRequest::decode(&good).is_ok());
    let mut longer = good.clone();
    longer.push(0);
    assert_eq!(req::RecordedStepsRequest::decode(&longer), Err(DecodeError::Malformed));
    assert_eq!(req::RecordedStepsRequest::decode(&good[..good.len() - 1]), Err(DecodeError::Malformed));
    let mut other = good.clone();
    other[0] = 0x55;
    assert_eq!(req::RecordedStepsRequest::decode(&other), Err(DecodeError::TypeMismatch));
    let mut other = good.clone();
    other[1] = 0x55;
    assert_eq!(req::RecordedStepsRequest::decode(&other), Err(DecodeError::TypeMismatch));
    assert_eq!(req::RecordedStepsRequest::decode(&[]), Err(DecodeError::TypeMismatch));
    let mut bad = good.clone();
    bad[2] = 0x77;
    assert_eq!(req::RecordedStepsRequest::decode(&bad), Err(DecodeError::Malformed));
}

#[test]
fn general_res_pair_key_response_round_trip() {
    let v = res::PairKeyResponse {
        id: CommandId::Pair,
        sub_id: PairCommandSubId::CurrentPairKey,
        cur_pair_key: [160, 161, 162, 163],
    };
    assert!(v.well_formed());
    let bytes = v.encode();
    assert_eq!(bytes, vec![0x20, 0x03, 0xA0, 0xA1, 0xA2, 0xA3]);
    assert_eq!(res::PairKeyResponse::decode(&bytes), Ok(v));
}

#[test]
fn general_res_pair_key_response_rejects() {
    let good: Vec<u8> = vec![0x20, 0x03, 0xA0, 0xA1, 0xA2, 0xA3];
    assert!(res::PairKeyResponse::decode(&good).is_ok());
    let mut longer = good.clone();
    longer.push(0);
    assert_eq!(res::PairKeyResponse::decode(&longer), Err(DecodeError::Malformed));
    assert_eq!(res::PairKeyResponse::decode(&good[..good.len() - 1]), Err(DecodeError::Malformed));
    let mut other = good.clone();
    other[0] = 0x55;
    assert_eq!(res::PairKeyResponse::decode(&other), Err(DecodeError::TypeMismatch));
    let mut other = good.clone();
    other[1] = 0x55;
    assert_eq!(res::PairKeyResponse::decode(&other), Err(DecodeError::TypeMismatch));
    assert_eq!(res::PairKeyResponse::decode(&[]), Err(DecodeError::TypeMismatch));
}

#[test]
fn general_res_battery_response_round_trip() {
    let v = res::BatteryResponse {
        id: CommandId::Battery,
        battery_percentage: 56,
    };
    assert!(v.well_formed());
    let bytes = v.encode();
    assert_eq!(bytes, vec![0xA2, 0x38]);
    assert_eq!(res::BatteryResponse::decode(&bytes), Ok(v));
}

#[test]
fn general_res_battery_response_rejects() {
    let good: Vec<u8> = vec![0xA2, 0x38];
    assert!(res::BatteryResponse::decode(&good).is_ok());
    let mut longer = good.clone();
    longer.push(0);
    assert_eq!(res::BatteryResponse::decode(&longer), Err(DecodeError::Malformed));
    assert_eq!(res::BatteryResponse::decode(&good[..good.len() - 1]), Err(DecodeError::Malformed));
    let mut other = good.clone();
    other[0] = 0x55;
    assert_eq!(res::BatteryResponse::decode(&other), Err(DecodeError::TypeMismatch));
    assert_eq!(res::BatteryResponse::decode(&[]), Err(DecodeError::TypeMismatch));
}

#[test]
fn general_res_set_date_time_response_round_trip() {
    let v = res::SetDateTimeResponse {
        id: CommandId::DateTime,
        year: 0x1335,
        month: 63,
        day: 70,
        hour: 77,
        min: 84,
        sec: 91,
    };
    assert!(v.well_formed());
    let bytes = v.encode();
    assert_eq!(bytes, vec![0x04, 0x13, 0x35, 0x3F, 0x46, 0x4D, 0x54, 0x5B]);
    assert_eq!(res::SetDateTimeResponse::decode(&bytes), Ok(v));
}

#[test]
fn general_res_set_date_time_response_rejects() {
    let good: Vec<u8> = vec![0x04, 0x13, 0x35, 0x3F, 0x46, 0x4D, 0x54, 0x5B];
    assert!(res::SetDateTimeResponse::decode(&good).is_ok());
    let mut longer = good.clone();
    longer.push(0);
    assert_eq!(res::SetDateTimeResponse::decode(&longer), Err(DecodeError::Malformed));
    assert_eq!(res::SetDateTimeResponse::decode(&good[..good.len() - 1]), Err(DecodeError::Malformed));
    let mut other = good.clone();
    other[0] = 0x55;
    assert_eq!(res::SetDateTimeResponse::decode(&other), Err(DecodeError::TypeMismatch));
    assert_eq!(res::SetDateTimeResponse::decode(&[]), Err(DecodeError::TypeMismatch));
}

#[test]
fn general_res_firmware_response_round_trip() {
    let v = res::FirmwareResponse {
        id: CommandId::Firmware,
        name: [160, 161, 162, 163, 164, 165, 166, 167, 168, 169, 170, 171, 172],
    };
    assert!(v.well_formed());
    let bytes = v.encode();
    assert_eq!(bytes, vec![0xA1, 0xA0, 0xA1, 0xA2, 0xA3, 0xA4, 0xA5, 0xA6, 0xA7, 0xA8, 0xA9, 0xAA, 0xAB, 0xAC]);
    assert_eq!(res::FirmwareResponse::decode(&bytes), Ok(v));
}

#[test]
fn general_res_firmware_response_rejects() {
    let good: Vec<u8> = vec![0xA1, 0xA0, 0xA1, 0xA2, 0xA3, 0xA4, 0xA5, 0xA6, 0xA7, 0xA8, 0xA9, 0xAA, 0xAB, 0xAC];
    assert!(res::FirmwareResponse::decode(&good).is_ok());
    let mut longer = good.clone();
    longer.push(0);
    assert_eq!(res::FirmwareResponse::decode(&longer), Err(DecodeError::Malformed));
    assert_eq!(res::FirmwareResponse::decode(&good[..good.len() - 1]), Err(DecodeError::Malformed));
    let mut other = good.clone();
    other[0] = 0x55;
    assert_eq!(res::FirmwareResponse::decode(&other), Err(DecodeError::TypeMismatch));
    assert_eq!(res::FirmwareResponse::decode(&[]), Err(DecodeError::TypeMismatch));
}

#[test]
fn general_res_device_pulse_response_round_trip() {
    let v = res::DevicePulseResponse {
        id: CommandId::DevicePulse,
        pulse_type: DevicePulseType::MusicNext,
    };
    assert!(v.well_formed());
    let bytes = v.encode();
    assert_eq!(bytes, vec![0xD1, 0x08]);
    assert_eq!(res::DevicePulseResponse::decode(&bytes), Ok(v));
}

#[test]
fn general_res_device_pulse_response_rejects() {
    let good: Vec<u8> = vec![0xD1, 0x08];
    assert!(res::DevicePulseResponse::decode(&good).is_ok());
    let mut longer = good.clone();
    longer.push(0);
    assert_eq!(res::DevicePulseResponse::decode(&longer), Err(DecodeError::Malformed));
    assert_eq!(res::DevicePulseResponse::decode(&good[..good.len() - 1]), Err(DecodeError::Malformed));
    let mut other = good.clone();
    other[0] = 0x55;
    assert_eq!(res::DevicePulseResponse::decode(&other), Err(DecodeError::TypeMismatch));
    assert_eq!(res::DevicePulseResponse::decode(&[]), Err(DecodeError::TypeMismatch));
    let mut bad = good.clone();
    bad[1] = 0x77;
    assert_eq!(res::DevicePulseResponse::decode(&bad), Err(DecodeError::Malformed));
}

#[test]
fn general_res_set_weather_response_round_trip() {
    let v = res::SetWeatherResponse {
        id: CommandId::Weather,
        weather_date: WeatherDate::Today,
    };
    assert!(v.well_formed());
    let bytes = v.encode();
    assert_eq!(bytes, vec![0x11, 0x01]);
    assert_eq!(res::SetWeatherResponse::decode(&bytes), Ok(v));
}

#[test]
fn general_res_set_weather_response_rejects() {
    let good: Vec<u8> = vec![0x11, 0x01];
    assert!(res::SetWeatherResponse::decode(&good).is_ok());
    let mut longer = good.clone();
    longer.push(0);
    assert_eq!(res::SetWeatherResponse::decode(&longer), Err(DecodeError::Malformed));
    assert_eq!(res::SetWeatherResponse::decode(&good[..good.len() - 1]), Err(DecodeError::Malformed));
    let mut other = good.clone();
    other[0] = 0x55;
    assert_eq!(res::SetWeatherResponse::decode(&other), Err(DecodeError::TypeMismatch));
    assert_eq!(res::SetWeatherResponse::decode(&[]), Err(DecodeError::TypeMismatch));
    let mut bad = good.clone();
    bad[1] = 0x77;
    assert_eq!(res::SetWeatherResponse::decode(&bad), Err(DecodeError::Malformed));
}

#[test]
fn general_res_heart_rate_menu_data_periodic_response_round_trip() {
    let v = res::HeartRateMenuDataPeriodicResponse {
        id: CommandId::HeartRateMenuGeneral,
        sub_id: HeartRateMenuCommandSubId::InMenu,
        unk_maybe_pad: 63,
        heart_rate: 70,
    };
    assert!(v.well_formed());
    let bytes = v.encode();
    assert_eq!(bytes, vec![0xE5, 0x11, 0x3F, 0x46]);
    assert_eq!(res::HeartRateMenuDataPeriodicResponse::decode(&bytes), Ok(v));
}

#[test]
fn general_res_heart_rate_menu_data_periodic_response_rejects() {
    let good: Vec<u8> = vec![0xE5, 0x11, 0x3F, 0x46];
    assert!(res::HeartRateMenuDataPeriodicResponse::decode(&good).is_ok());
    let mut longer = good.clone();
    longer.push(0);
    assert_eq!(res::HeartRateMenuDataPeriodicResponse::decode(&longer), Err(DecodeError::Malformed));
    assert_eq!(res::HeartRateMenuDataPeriodicResponse::decode(&good[..good.len() - 1]), Err(DecodeError::Malformed));
    let mut other = good.clone();
    other[0] = 0x55;
    assert_eq!(res::HeartRateMenuDataPeriodicResponse::decode(&other), Err(DecodeError::TypeMismatch));
    let mut other = good.clone();
    other[1] = 0x55;
    assert_eq!(res::HeartRateMenuDataPeriodicResponse::decode(&other), Err(DecodeError::TypeMismatch));
    assert_eq!(res::HeartRateMenuDataPeriodicResponse::decode(&[]), Err(DecodeError::TypeMismatch));
}

#[test]
fn general_res_heart_rate_menu_data_leaving_response_round_trip() {
    let v = res::HeartRateMenuDataLeavingResponse {
        id: CommandId::HeartRateMenuGeneral,
        sub_id: HeartRateMenuCommandSubId::LeavingMenu,
        unk_maybe_pad: 63,
        heart_rate: 70,
    };
    assert!(v.well_formed());
    let bytes = v.encode();
    assert_eq!(bytes, vec![0xE5, 0x00, 0x3F, 0x46]);
    assert_eq!(res::HeartRateMenuDataLeavingResponse::decode(&bytes), Ok(v));
}

#[test]
fn general_res_heart_rate_menu_data_leaving_response_rejects() {
    let good: Vec<u8> = vec![0xE5, 0x00, 0x3F, 0x46];
    assert!(res::HeartRateMenuDataLeavingResponse::decode(&good).is_ok());
    let mut longer = good.clone();
    longer.push(0);
    assert_eq!(res::HeartRateMenuDataLeavingResponse::decode(&longer), Err(DecodeError::Malformed));
    assert_eq!(res::HeartRateMenuDataLeavingResponse::decode(&good[..good.len() - 1]), Err(DecodeError::Malformed));
    let mut other = good.clone();
    other[0] = 0x55;
    assert_eq!(res::HeartRateMenuDataLeavingResponse::decode(&other), Err(DecodeError::TypeMismatch));
    let mut other = good.clone();
    other[1] = 0x55;
    assert_eq!(res::HeartRateMenuDataLeavingResponse::decode(&other), Err(DecodeError::TypeMismatch));
    assert_eq!(res::HeartRateMenuDataLeavingResponse::decode(&[]), Err(DecodeError::TypeMismatch));
}

#[test]
fn general_res_heart_rate_menu_change_response_round_trip() {
    let v = res::HeartRateMenuChangeResponse {
        id: CommandId::HeartRateMenuGeneral,
        sub_id: HeartRateMenuCommandSubId::InMenu,
    };
    assert!(v.well_formed());
    let bytes = v.encode();
    assert_eq!(bytes, vec![0xE5, 0x11]);
    assert_eq!(res::HeartRateMenuChangeResponse::decode(&bytes), Ok(v));
}

#[test]
fn general_res_heart_rate_menu_change_response_rejects() {
    let good: Vec<u8> = vec![0xE5, 0x11];
    assert!(res::HeartRateMenuChangeResponse::decode(&good).is_ok());
    let mut longer = good.clone();
    longer.push(0);
    assert_eq!(res::HeartRateMenuChangeResponse::decode(&longer), Err(DecodeError::Malformed));
    assert_eq!(res::HeartRateMenuChangeResponse::decode(&good[..good.len() - 1]), Err(DecodeError::TypeMismatch));
    let mut other = good.clone();
    other[0] = 0x55;
    assert_eq!(res::HeartRateMenuChangeResponse::decode(&other), Err(DecodeError::TypeMismatch));
    let mut other = good.clone();
    other[1] = 0x55;
    assert_eq!(res::HeartRateMenuChangeResponse::decode(&other), Err(DecodeError::TypeMismatch));
    assert_eq!(res::HeartRateMenuChangeResponse::decode(&[]), Err(DecodeError::TypeMismatch));
}

#[test]
fn general_res_silent_mode_change_response_round_trip() {
    let v = res::SilentModeChangeResponse {
        id: CommandId::SilentMode,
        sub_id: SilentModeCommandSubId::ModeChanged,
        mode: SilentModeStatus::On,
        unk: [160, 161, 162, 163, 164, 165, 166, 167, 168, 169, 170, 171, 172, 173, 174, 175, 176],
    };
    assert!(v.well_formed());
    let bytes = v.encode();
    assert_eq!(bytes, vec![0xBE, 0x02, 0x08, 0xA0, 0xA1, 0xA2, 0xA3, 0xA4, 0xA5, 0xA6, 0xA7, 0xA8, 0xA9, 0xAA, 0xAB, 0xAC, 0xAD, 0xAE, 0xAF, 0xB0]);
    assert_eq!(res::SilentModeChangeResponse::decode(&bytes), Ok(v));
}

#[test]
fn general_res_silent_mode_change_response_rejects() {
    let good: Vec<u8> = vec![0xBE, 0x02, 0x08, 0xA0, 0xA1, 0xA2, 0xA3, 0xA4, 0xA5, 0xA6, 0xA7, 0xA8, 0xA9, 0xAA, 0xAB, 0xAC, 0xAD, 0xAE, 0xAF, 0xB0];
    assert!(res::SilentModeChangeResponse::decode(&good).is_ok());
    let mut longer = good.clone();
    longer.push(0);
    assert_eq!(res::SilentModeChangeResponse::decode(&longer), Err(DecodeError::Malformed));
    assert_eq!(res::SilentModeChangeResponse::decode(&good[..good.len() - 1]), Err(DecodeError::Malformed));
    let mut other = good.clone();
    other[0] = 0x55;
    assert_eq!(res::SilentModeChangeResponse::decode(&other), Err(DecodeError::TypeMismatch));
    let mut other = good.clone();
    other[1] = 0x55;
    assert_eq!(res::SilentModeChangeResponse::decode(&other), Err(DecodeError::TypeMismatch));
    assert_eq!(res::SilentModeChangeResponse::decode(&[]), Err(DecodeError::TypeMismatch));
    let mut bad = good.clone();
    bad[2] = 0x77;
    assert_eq!(res::SilentModeChangeResponse::decode(&bad), Err(DecodeError::Malformed));
}

#[test]
fn general_res_sport_status_response_round_trip() {
    let v = res::SportStatusResponse {
        id: CommandId::Sport,
        sub_id: SportCommandSubId::Finish,
        kind: SportKind::FastRunning,
        unk: 70,
    };
    assert!(v.well_formed());
    let bytes = v.encode();
    assert_eq!(bytes, vec![0xFD, 0x00, 0x09, 0x46]);
    assert_eq!(res::SportStatusResponse::decode(&bytes), Ok(v));
}

#[test]
fn general_res_sport_status_response_rejects() {
    let good: Vec<u8> = vec![0xFD, 0x00, 0x09, 0x46];
    assert!(res::SportStatusResponse::decode(&good).is_ok());
    let mut longer = good.clone();
    longer.push(0);
    assert_eq!(res::SportStatusResponse::decode(&longer), Err(DecodeError::Malformed));
    assert_eq!(res::SportStatusResponse::decode(&good[..good.len() - 1]), Err(DecodeError::Malformed));
    let mut other = good.clone();
    other[0] = 0x55;
    assert_eq!(res::SportStatusResponse::decode(&other), Err(DecodeError::TypeMismatch));
    assert_eq!(res::SportStatusResponse::decode(&[]), Err(DecodeError::TypeMismatch));
    let mut bad = good.clone();
    bad[1] = 0x77;
    assert_eq!(res::SportStatusResponse::decode(&bad), Err(DecodeError::Malformed));
    let mut bad = good.clone();
    bad[2] = 0x77;
    assert_eq!(res::SportStatusResponse::decode(&bad), Err(DecodeError::Malformed));
}

#[test]
fn general_res_recorded_steps_entry_response_round_trip() {
    let v = res::RecordedStepsEntryResponse {
        id: CommandId::RecordedStepsGeneral,
        entry: StepsEntry { date: Date::new(2023, 12, 31), hour: 17, new_all_step_count: 0x0102, unk_1: 5, last_new_run_step_min: 6, unk_2: 7, new_run_step_count: 0x0304, unk_3: 8, last_new_walk_step_min: 9, unk_4: 10, new_walk_step_count: 0x0506 },
    };
    assert!(v.well_formed());
    let bytes = v.encode();
    assert_eq!(bytes, vec![0xB2, 0x07, 0xE7, 0x0C, 0x1F, 0x11, 0x01, 0x02, 0x05, 0x06, 0x07, 0x03, 0x04, 0x08, 0x09, 0x0A, 0x05, 0x06]);
    assert_eq!(res::RecordedStepsEntryResponse::decode(&bytes), Ok(v));
}

#[test]
fn general_res_recorded_steps_entry_response_rejects() {
    let good: Vec<u8> = vec![0xB2, 0x07, 0xE7, 0x0C, 0x1F, 0x11, 0x01, 0x02, 0x05, 0x06, 0x07, 0x03, 0x04, 0x08, 0x09, 0x0A, 0x05, 0x06];
    assert!(res::RecordedStepsEntryResponse::decode(&good).is_ok());
    let mut longer = good.clone();
    longer.push(0);
    assert_eq!(res::RecordedStepsEntryResponse::decode(&longer), Err(DecodeError::Malformed));
    assert_eq!(res::RecordedStepsEntryResponse::decode(&good[..good.len() - 1]), Err(DecodeError::Malformed));
    let mut other = good.clone();
    other[0] = 0x55;
    assert_eq!(res::RecordedStepsEntryResponse::decode(&other), Err(DecodeError::TypeMismatch));
    assert_eq!(res::RecordedStepsEntryResponse::decode(&[]), Err(DecodeError::TypeMismatch));
}

#[test]
fn general_res_recorded_steps_end_response_round_trip() {
    let v = res::RecordedStepsEndResponse {
        id: CommandId::RecordedStepsGeneral,
        sub_id: RecordedStepsCommandSubId::End,
        unk: 63,
    };
    assert!(v.well_formed());
    let bytes = v.encode();
    assert_eq!(bytes, vec![0xB2, 0xFD, 0x3F]);
    assert_eq!(res::RecordedStepsEndResponse::decode(&bytes), Ok(v));
}

#[test]
fn general_res_recorded_steps_end_response_rejects() {
    let good: Vec<u8> = vec![0xB2, 0xFD, 0x3F];
    assert!(res::RecordedStepsEndResponse::decode(&good).is_ok());
    let mut longer = good.clone();
    longer.push(0);
    assert_eq!(res::RecordedStepsEndResponse::decode(&longer), Err(DecodeError::Malformed));
    assert_eq!(res::RecordedStepsEndResponse::decode(&good[..good.len() - 1]), Err(DecodeError::Malformed));
    let mut other = good.clone();
    other[0] = 0x55;
    assert_eq!(res::RecordedStepsEndResponse::decode(&other), Err(DecodeError::TypeMismatch));
    let mut other = good.clone();
    other[1] = 0x55;
    assert_eq!(res::RecordedStepsEndResponse::decode(&other), Err(DecodeError::TypeMismatch));
    assert_eq!(res::RecordedStepsEndResponse::decode(&[]), Err(DecodeError::TypeMismatch));
}
