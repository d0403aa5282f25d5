//! The notification demultiplexer.
//!
//! A notification carries no tag that names its type. To classify a buffer,
//! every response type bound to the characteristic it arrived on is tried in
//! a fixed priority order, and the first that decodes the whole buffer wins.
//! The order is part of the contract: it is the order of the table that
//! [`candidates`] returns.
//!
//! Classification is a function of the characteristic and the buffer alone,
//! so classifying the same buffer again gives the same answer.

use crate::data2::res as data2;
use crate::general::res as general;
use crate::{accepts, CommandResponse, DecodeError, Endpoint, WireRecord};
use vstd::prelude::*;

verus! {

/// The response types, by name.
#[derive(Copy, Clone, PartialEq, Eq, Debug, Structural)]
pub enum ResponseKind {
    PairKey,
    Battery,
    SetDateTime,
    Firmware,
    DevicePulse,
    SetWeather,
    HeartRateMenuDataPeriodic,
    HeartRateMenuDataLeaving,
    HeartRateMenuChange,
    SilentModeChange,
    SportStatus,
    GeneralRecordedStepsEntry,
    GeneralRecordedStepsEnd,
    HeartRateDataToday,
    HeartRateDataDayHourEntry,
    HeartRateDataEnd,
    HeartRateDataPeriodic,
    HeartRateEnable,
    HeartRateDisable,
    Steps,
    HeartRateMenuPeriodic,
    HeartRateMenuMoveDown,
    HeartRateDataTodayUnk2,
    StepsUnk2,
    HeartRateDataPeriodicUnk2,
    DevicePulseUnk2,
    Data2RecordedStepsEntry,
    Data2RecordedStepsEnd,
}

/// A decoded response of any type.
#[derive(Copy, Clone, PartialEq, Eq, Debug)]
pub enum Response {
    PairKey(general::PairKeyResponse),
    Battery(general::BatteryResponse),
    SetDateTime(general::SetDateTimeResponse),
    Firmware(general::FirmwareResponse),
    DevicePulse(general::DevicePulseResponse),
    SetWeather(general::SetWeatherResponse),
    HeartRateMenuDataPeriodic(general::HeartRateMenuDataPeriodicResponse),
    HeartRateMenuDataLeaving(general::HeartRateMenuDataLeavingResponse),
    HeartRateMenuChange(general::HeartRateMenuChangeResponse),
    SilentModeChange(general::SilentModeChangeResponse),
    SportStatus(general::SportStatusResponse),
    GeneralRecordedStepsEntry(general::RecordedStepsEntryResponse),
    GeneralRecordedStepsEnd(general::RecordedStepsEndResponse),
    HeartRateDataToday(data2::HeartRateDataTodayResponse),
    HeartRateDataDayHourEntry(data2::HeartRateDataDayHourEntryResponse),
    HeartRateDataEnd(data2::HeartRateDataEndResponse),
    HeartRateDataPeriodic(data2::HeartRateDataPeriodicResponse),
    HeartRateEnable(data2::HeartRateEnableResponse),
    HeartRateDisable(data2::HeartRateDisableResponse),
    Steps(data2::StepsResponse),
    HeartRateMenuPeriodic(data2::HeartRateMenuPeriodicResponse),
    HeartRateMenuMoveDown(data2::HeartRateMenuMoveDownResponse),
    HeartRateDataTodayUnk2(data2::HeartRateDataTodayUnk2Response),
    StepsUnk2(data2::StepsUnk2Response),
    HeartRateDataPeriodicUnk2(data2::HeartRateDataPeriodicUnk2Response),
    DevicePulseUnk2(data2::DevicePulseUnk2Response),
    Data2RecordedStepsEntry(data2::RecordedStepsEntryResponse),
    Data2RecordedStepsEnd(data2::RecordedStepsEndResponse),
}

/// The outcome of classifying a buffer.
#[derive(Copy, Clone, PartialEq, Eq, Debug)]
pub enum Demuxed {
    /// The buffer is a record of the first candidate type that accepts it.
    Recognized(Response),
    /// No candidate accepts the buffer. The caller still holds the buffer and
    /// can log it.
    Unrecognized,
}

impl ResponseKind {
    /// The characteristic that responses of this kind arrive on.
    pub open spec fn spec_endpoint(self) -> Endpoint {
        match self {
            ResponseKind::PairKey => general::PairKeyResponse::spec_endpoint(),
            ResponseKind::Battery => general::BatteryResponse::spec_endpoint(),
            ResponseKind::SetDateTime => general::SetDateTimeResponse::spec_endpoint(),
            ResponseKind::Firmware => general::FirmwareResponse::spec_endpoint(),
            ResponseKind::DevicePulse => general::DevicePulseResponse::spec_endpoint(),
            ResponseKind::SetWeather => general::SetWeatherResponse::spec_endpoint(),
            ResponseKind::HeartRateMenuDataPeriodic => {
                general::HeartRateMenuDataPeriodicResponse::spec_endpoint()
            },
            ResponseKind::HeartRateMenuDataLeaving => {
                general::HeartRateMenuDataLeavingResponse::spec_endpoint()
            },
            ResponseKind::HeartRateMenuChange => {
                general::HeartRateMenuChangeResponse::spec_endpoint()
            },
            ResponseKind::SilentModeChange => general::SilentModeChangeResponse::spec_endpoint(),
            ResponseKind::SportStatus => general::SportStatusResponse::spec_endpoint(),
            ResponseKind::GeneralRecordedStepsEntry => {
                general::RecordedStepsEntryResponse::spec_endpoint()
            },
            ResponseKind::GeneralRecordedStepsEnd => {
                general::RecordedStepsEndResponse::spec_endpoint()
            },
            ResponseKind::HeartRateDataToday => data2::HeartRateDataTodayResponse::spec_endpoint(),
            ResponseKind::HeartRateDataDayHourEntry => {
                data2::HeartRateDataDayHourEntryResponse::spec_endpoint()
            },
            ResponseKind::HeartRateDataEnd => data2::HeartRateDataEndResponse::spec_endpoint(),
            ResponseKind::HeartRateDataPeriodic => {
                data2::HeartRateDataPeriodicResponse::spec_endpoint()
            },
            ResponseKind::HeartRateEnable => data2::HeartRateEnableResponse::spec_endpoint(),
            ResponseKind::HeartRateDisable => data2::HeartRateDisableResponse::spec_endpoint(),
            ResponseKind::Steps => data2::StepsResponse::spec_endpoint(),
            ResponseKind::HeartRateMenuPeriodic => {
                data2::HeartRateMenuPeriodicResponse::spec_endpoint()
            },
            ResponseKind::HeartRateMenuMoveDown => {
                data2::HeartRateMenuMoveDownResponse::spec_endpoint()
            },
            ResponseKind::HeartRateDataTodayUnk2 => {
                data2::HeartRateDataTodayUnk2Response::spec_endpoint()
            },
            ResponseKind::StepsUnk2 => data2::StepsUnk2Response::spec_endpoint(),
            ResponseKind::HeartRateDataPeriodicUnk2 => {
                data2::HeartRateDataPeriodicUnk2Response::spec_endpoint()
            },
            ResponseKind::DevicePulseUnk2 => data2::DevicePulseUnk2Response::spec_endpoint(),
            ResponseKind::Data2RecordedStepsEntry => {
                data2::RecordedStepsEntryResponse::spec_endpoint()
            },
            ResponseKind::Data2RecordedStepsEnd => data2::RecordedStepsEndResponse::spec_endpoint(),
        }
    }

    /// The buffer begins with the identifier bytes of this kind.
    pub open spec fn tagged(self, raw: Seq<u8>) -> bool {
        match self {
            ResponseKind::PairKey => general::PairKeyResponse::tagged(raw),
            ResponseKind::Battery => general::BatteryResponse::tagged(raw),
            ResponseKind::SetDateTime => general::SetDateTimeResponse::tagged(raw),
            ResponseKind::Firmware => general::FirmwareResponse::tagged(raw),
            ResponseKind::DevicePulse => general::DevicePulseResponse::tagged(raw),
            ResponseKind::SetWeather => general::SetWeatherResponse::tagged(raw),
            ResponseKind::HeartRateMenuDataPeriodic => {
                general::HeartRateMenuDataPeriodicResponse::tagged(raw)
            },
            ResponseKind::HeartRateMenuDataLeaving => {
                general::HeartRateMenuDataLeavingResponse::tagged(raw)
            },
            ResponseKind::HeartRateMenuChange => general::HeartRateMenuChangeResponse::tagged(raw),
            ResponseKind::SilentModeChange => general::SilentModeChangeResponse::tagged(raw),
            ResponseKind::SportStatus => general::SportStatusResponse::tagged(raw),
            ResponseKind::GeneralRecordedStepsEntry => {
                general::RecordedStepsEntryResponse::tagged(raw)
            },
            ResponseKind::GeneralRecordedStepsEnd => general::RecordedStepsEndResponse::tagged(raw),
            ResponseKind::HeartRateDataToday => data2::HeartRateDataTodayResponse::tagged(raw),
            ResponseKind::HeartRateDataDayHourEntry => {
                data2::HeartRateDataDayHourEntryResponse::tagged(raw)
            },
            ResponseKind::HeartRateDataEnd => data2::HeartRateDataEndResponse::tagged(raw),
            ResponseKind::HeartRateDataPeriodic => {
                data2::HeartRateDataPeriodicResponse::tagged(raw)
            },
            ResponseKind::HeartRateEnable => data2::HeartRateEnableResponse::tagged(raw),
            ResponseKind::HeartRateDisable => data2::HeartRateDisableResponse::tagged(raw),
            ResponseKind::Steps => data2::StepsResponse::tagged(raw),
            ResponseKind::HeartRateMenuPeriodic => {
                data2::HeartRateMenuPeriodicResponse::tagged(raw)
            },
            ResponseKind::HeartRateMenuMoveDown => {
                data2::HeartRateMenuMoveDownResponse::tagged(raw)
            },
            ResponseKind::HeartRateDataTodayUnk2 => {
                data2::HeartRateDataTodayUnk2Response::tagged(raw)
            },
            ResponseKind::StepsUnk2 => data2::StepsUnk2Response::tagged(raw),
            ResponseKind::HeartRateDataPeriodicUnk2 => {
                data2::HeartRateDataPeriodicUnk2Response::tagged(raw)
            },
            ResponseKind::DevicePulseUnk2 => data2::DevicePulseUnk2Response::tagged(raw),
            ResponseKind::Data2RecordedStepsEntry => data2::RecordedStepsEntryResponse::tagged(raw),
            ResponseKind::Data2RecordedStepsEnd => data2::RecordedStepsEndResponse::tagged(raw),
        }
    }

    /// The buffer is the encoding of a response of this kind.
    pub open spec fn accepts(self, raw: Seq<u8>) -> bool {
        match self {
            ResponseKind::PairKey => accepts::<general::PairKeyResponse>(raw),
            ResponseKind::Battery => accepts::<general::BatteryResponse>(raw),
            ResponseKind::SetDateTime => accepts::<general::SetDateTimeResponse>(raw),
            ResponseKind::Firmware => accepts::<general::FirmwareResponse>(raw),
            ResponseKind::DevicePulse => accepts::<general::DevicePulseResponse>(raw),
            ResponseKind::SetWeather => accepts::<general::SetWeatherResponse>(raw),
            ResponseKind::HeartRateMenuDataPeriodic => {
                accepts::<general::HeartRateMenuDataPeriodicResponse>(raw)
            },
            ResponseKind::HeartRateMenuDataLeaving => {
                accepts::<general::HeartRateMenuDataLeavingResponse>(raw)
            },
            ResponseKind::HeartRateMenuChange => {
                accepts::<general::HeartRateMenuChangeResponse>(raw)
            },
            ResponseKind::SilentModeChange => accepts::<general::SilentModeChangeResponse>(raw),
            ResponseKind::SportStatus => accepts::<general::SportStatusResponse>(raw),
            ResponseKind::GeneralRecordedStepsEntry => {
                accepts::<general::RecordedStepsEntryResponse>(raw)
            },
            ResponseKind::GeneralRecordedStepsEnd => {
                accepts::<general::RecordedStepsEndResponse>(raw)
            },
            ResponseKind::HeartRateDataToday => accepts::<data2::HeartRateDataTodayResponse>(raw),
            ResponseKind::HeartRateDataDayHourEntry => {
                accepts::<data2::HeartRateDataDayHourEntryResponse>(raw)
            },
            ResponseKind::HeartRateDataEnd => accepts::<data2::HeartRateDataEndResponse>(raw),
            ResponseKind::HeartRateDataPeriodic => {
                accepts::<data2::HeartRateDataPeriodicResponse>(raw)
            },
            ResponseKind::HeartRateEnable => accepts::<data2::HeartRateEnableResponse>(raw),
            ResponseKind::HeartRateDisable => accepts::<data2::HeartRateDisableResponse>(raw),
            ResponseKind::Steps => accepts::<data2::StepsResponse>(raw),
            ResponseKind::HeartRateMenuPeriodic => {
                accepts::<data2::HeartRateMenuPeriodicResponse>(raw)
            },
            ResponseKind::HeartRateMenuMoveDown => {
                accepts::<data2::HeartRateMenuMoveDownResponse>(raw)
            },
            ResponseKind::HeartRateDataTodayUnk2 => {
                accepts::<data2::HeartRateDataTodayUnk2Response>(raw)
            },
            ResponseKind::StepsUnk2 => accepts::<data2::StepsUnk2Response>(raw),
            ResponseKind::HeartRateDataPeriodicUnk2 => {
                accepts::<data2::HeartRateDataPeriodicUnk2Response>(raw)
            },
            ResponseKind::DevicePulseUnk2 => accepts::<data2::DevicePulseUnk2Response>(raw),
            ResponseKind::Data2RecordedStepsEntry => {
                accepts::<data2::RecordedStepsEntryResponse>(raw)
            },
            ResponseKind::Data2RecordedStepsEnd => accepts::<data2::RecordedStepsEndResponse>(raw),
        }
    }

    pub fn endpoint(self) -> (e: Endpoint)
        ensures
            e == self.spec_endpoint(),
    {
        match self {
            ResponseKind::PairKey => general::PairKeyResponse::endpoint(),
            ResponseKind::Battery => general::BatteryResponse::endpoint(),
            ResponseKind::SetDateTime => general::SetDateTimeResponse::endpoint(),
            ResponseKind::Firmware => general::FirmwareResponse::endpoint(),
            ResponseKind::DevicePulse => general::DevicePulseResponse::endpoint(),
            ResponseKind::SetWeather => general::SetWeatherResponse::endpoint(),
            ResponseKind::HeartRateMenuDataPeriodic => {
                general::HeartRateMenuDataPeriodicResponse::endpoint()
            },
            ResponseKind::HeartRateMenuDataLeaving => {
                general::HeartRateMenuDataLeavingResponse::endpoint()
            },
            ResponseKind::HeartRateMenuChange => general::HeartRateMenuChangeResponse::endpoint(),
            ResponseKind::SilentModeChange => general::SilentModeChangeResponse::endpoint(),
            ResponseKind::SportStatus => general::SportStatusResponse::endpoint(),
            ResponseKind::GeneralRecordedStepsEntry => {
                general::RecordedStepsEntryResponse::endpoint()
            },
            ResponseKind::GeneralRecordedStepsEnd => general::RecordedStepsEndResponse::endpoint(),
            ResponseKind::HeartRateDataToday => data2::HeartRateDataTodayResponse::endpoint(),
            ResponseKind::HeartRateDataDayHourEntry => {
                data2::HeartRateDataDayHourEntryResponse::endpoint()
            },
            ResponseKind::HeartRateDataEnd => data2::HeartRateDataEndResponse::endpoint(),
            ResponseKind::HeartRateDataPeriodic => data2::HeartRateDataPeriodicResponse::endpoint(),
            ResponseKind::HeartRateEnable => data2::HeartRateEnableResponse::endpoint(),
            ResponseKind::HeartRateDisable => data2::HeartRateDisableResponse::endpoint(),
            ResponseKind::Steps => data2::StepsResponse::endpoint(),
            ResponseKind::HeartRateMenuPeriodic => data2::HeartRateMenuPeriodicResponse::endpoint(),
            ResponseKind::HeartRateMenuMoveDown => data2::HeartRateMenuMoveDownResponse::endpoint(),
            ResponseKind::HeartRateDataTodayUnk2 => {
                data2::HeartRateDataTodayUnk2Response::endpoint()
            },
            ResponseKind::StepsUnk2 => data2::StepsUnk2Response::endpoint(),
            ResponseKind::HeartRateDataPeriodicUnk2 => {
                data2::HeartRateDataPeriodicUnk2Response::endpoint()
            },
            ResponseKind::DevicePulseUnk2 => data2::DevicePulseUnk2Response::endpoint(),
            ResponseKind::Data2RecordedStepsEntry => data2::RecordedStepsEntryResponse::endpoint(),
            ResponseKind::Data2RecordedStepsEnd => data2::RecordedStepsEndResponse::endpoint(),
        }
    }
}

impl Response {
    /// The kind of this response.
    pub open spec fn spec_kind(&self) -> ResponseKind {
        match self {
            Response::PairKey(_) => ResponseKind::PairKey,
            Response::Battery(_) => ResponseKind::Battery,
            Response::SetDateTime(_) => ResponseKind::SetDateTime,
            Response::Firmware(_) => ResponseKind::Firmware,
            Response::DevicePulse(_) => ResponseKind::DevicePulse,
            Response::SetWeather(_) => ResponseKind::SetWeather,
            Response::HeartRateMenuDataPeriodic(_) => ResponseKind::HeartRateMenuDataPeriodic,
            Response::HeartRateMenuDataLeaving(_) => ResponseKind::HeartRateMenuDataLeaving,
            Response::HeartRateMenuChange(_) => ResponseKind::HeartRateMenuChange,
            Response::SilentModeChange(_) => ResponseKind::SilentModeChange,
            Response::SportStatus(_) => ResponseKind::SportStatus,
            Response::GeneralRecordedStepsEntry(_) => ResponseKind::GeneralRecordedStepsEntry,
            Response::GeneralRecordedStepsEnd(_) => ResponseKind::GeneralRecordedStepsEnd,
            Response::HeartRateDataToday(_) => ResponseKind::HeartRateDataToday,
            Response::HeartRateDataDayHourEntry(_) => ResponseKind::HeartRateDataDayHourEntry,
            Response::HeartRateDataEnd(_) => ResponseKind::HeartRateDataEnd,
            Response::HeartRateDataPeriodic(_) => ResponseKind::HeartRateDataPeriodic,
            Response::HeartRateEnable(_) => ResponseKind::HeartRateEnable,
            Response::HeartRateDisable(_) => ResponseKind::HeartRateDisable,
            Response::Steps(_) => ResponseKind::Steps,
            Response::HeartRateMenuPeriodic(_) => ResponseKind::HeartRateMenuPeriodic,
            Response::HeartRateMenuMoveDown(_) => ResponseKind::HeartRateMenuMoveDown,
            Response::HeartRateDataTodayUnk2(_) => ResponseKind::HeartRateDataTodayUnk2,
            Response::StepsUnk2(_) => ResponseKind::StepsUnk2,
            Response::HeartRateDataPeriodicUnk2(_) => ResponseKind::HeartRateDataPeriodicUnk2,
            Response::DevicePulseUnk2(_) => ResponseKind::DevicePulseUnk2,
            Response::Data2RecordedStepsEntry(_) => ResponseKind::Data2RecordedStepsEntry,
            Response::Data2RecordedStepsEnd(_) => ResponseKind::Data2RecordedStepsEnd,
        }
    }

    /// The identifier fields of the response hold the constants of its type.
    pub open spec fn wf(&self) -> bool {
        match self {
            Response::PairKey(v) => v.wf(),
            Response::Battery(v) => v.wf(),
            Response::SetDateTime(v) => v.wf(),
            Response::Firmware(v) => v.wf(),
            Response::DevicePulse(v) => v.wf(),
            Response::SetWeather(v) => v.wf(),
            Response::HeartRateMenuDataPeriodic(v) => v.wf(),
            Response::HeartRateMenuDataLeaving(v) => v.wf(),
            Response::HeartRateMenuChange(v) => v.wf(),
            Response::SilentModeChange(v) => v.wf(),
            Response::SportStatus(v) => v.wf(),
            Response::GeneralRecordedStepsEntry(v) => v.wf(),
            Response::GeneralRecordedStepsEnd(v) => v.wf(),
            Response::HeartRateDataToday(v) => v.wf(),
            Response::HeartRateDataDayHourEntry(v) => v.wf(),
            Response::HeartRateDataEnd(v) => v.wf(),
            Response::HeartRateDataPeriodic(v) => v.wf(),
            Response::HeartRateEnable(v) => v.wf(),
            Response::HeartRateDisable(v) => v.wf(),
            Response::Steps(v) => v.wf(),
            Response::HeartRateMenuPeriodic(v) => v.wf(),
            Response::HeartRateMenuMoveDown(v) => v.wf(),
            Response::HeartRateDataTodayUnk2(v) => v.wf(),
            Response::StepsUnk2(v) => v.wf(),
            Response::HeartRateDataPeriodicUnk2(v) => v.wf(),
            Response::DevicePulseUnk2(v) => v.wf(),
            Response::Data2RecordedStepsEntry(v) => v.wf(),
            Response::Data2RecordedStepsEnd(v) => v.wf(),
        }
    }

    /// The bytes that carry the response.
    pub open spec fn wire(&self) -> Seq<u8> {
        match self {
            Response::PairKey(v) => v.wire(),
            Response::Battery(v) => v.wire(),
            Response::SetDateTime(v) => v.wire(),
            Response::Firmware(v) => v.wire(),
            Response::DevicePulse(v) => v.wire(),
            Response::SetWeather(v) => v.wire(),
            Response::HeartRateMenuDataPeriodic(v) => v.wire(),
            Response::HeartRateMenuDataLeaving(v) => v.wire(),
            Response::HeartRateMenuChange(v) => v.wire(),
            Response::SilentModeChange(v) => v.wire(),
            Response::SportStatus(v) => v.wire(),
            Response::GeneralRecordedStepsEntry(v) => v.wire(),
            Response::GeneralRecordedStepsEnd(v) => v.wire(),
            Response::HeartRateDataToday(v) => v.wire(),
            Response::HeartRateDataDayHourEntry(v) => v.wire(),
            Response::HeartRateDataEnd(v) => v.wire(),
            Response::HeartRateDataPeriodic(v) => v.wire(),
            Response::HeartRateEnable(v) => v.wire(),
            Response::HeartRateDisable(v) => v.wire(),
            Response::Steps(v) => v.wire(),
            Response::HeartRateMenuPeriodic(v) => v.wire(),
            Response::HeartRateMenuMoveDown(v) => v.wire(),
            Response::HeartRateDataTodayUnk2(v) => v.wire(),
            Response::StepsUnk2(v) => v.wire(),
            Response::HeartRateDataPeriodicUnk2(v) => v.wire(),
            Response::DevicePulseUnk2(v) => v.wire(),
            Response::Data2RecordedStepsEntry(v) => v.wire(),
            Response::Data2RecordedStepsEnd(v) => v.wire(),
        }
    }

    pub fn kind(&self) -> (k: ResponseKind)
        ensures
            k == self.spec_kind(),
    {
        match self {
            Response::PairKey(_) => ResponseKind::PairKey,
            Response::Battery(_) => ResponseKind::Battery,
            Response::SetDateTime(_) => ResponseKind::SetDateTime,
            Response::Firmware(_) => ResponseKind::Firmware,
            Response::DevicePulse(_) => ResponseKind::DevicePulse,
            Response::SetWeather(_) => ResponseKind::SetWeather,
            Response::HeartRateMenuDataPeriodic(_) => ResponseKind::HeartRateMenuDataPeriodic,
            Response::HeartRateMenuDataLeaving(_) => ResponseKind::HeartRateMenuDataLeaving,
            Response::HeartRateMenuChange(_) => ResponseKind::HeartRateMenuChange,
            Response::SilentModeChange(_) => ResponseKind::SilentModeChange,
            Response::SportStatus(_) => ResponseKind::SportStatus,
            Response::GeneralRecordedStepsEntry(_) => ResponseKind::GeneralRecordedStepsEntry,
            Response::GeneralRecordedStepsEnd(_) => ResponseKind::GeneralRecordedStepsEnd,
            Response::HeartRateDataToday(_) => ResponseKind::HeartRateDataToday,
            Response::HeartRateDataDayHourEntry(_) => ResponseKind::HeartRateDataDayHourEntry,
            Response::HeartRateDataEnd(_) => ResponseKind::HeartRateDataEnd,
            Response::HeartRateDataPeriodic(_) => ResponseKind::HeartRateDataPeriodic,
            Response::HeartRateEnable(_) => ResponseKind::HeartRateEnable,
            Response::HeartRateDisable(_) => ResponseKind::HeartRateDisable,
            Response::Steps(_) => ResponseKind::Steps,
            Response::HeartRateMenuPeriodic(_) => ResponseKind::HeartRateMenuPeriodic,
            Response::HeartRateMenuMoveDown(_) => ResponseKind::HeartRateMenuMoveDown,
            Response::HeartRateDataTodayUnk2(_) => ResponseKind::HeartRateDataTodayUnk2,
            Response::StepsUnk2(_) => ResponseKind::StepsUnk2,
            Response::HeartRateDataPeriodicUnk2(_) => ResponseKind::HeartRateDataPeriodicUnk2,
            Response::DevicePulseUnk2(_) => ResponseKind::DevicePulseUnk2,
            Response::Data2RecordedStepsEntry(_) => ResponseKind::Data2RecordedStepsEntry,
            Response::Data2RecordedStepsEnd(_) => ResponseKind::Data2RecordedStepsEnd,
        }
    }
}

/// The priority table of a characteristic: the response kinds bound to it,
/// most specific and most frequent first. Characteristics that carry no
/// known notification have an empty table.
pub open spec fn spec_candidates(endpoint: Endpoint) -> Seq<ResponseKind> {
    match endpoint {
        Endpoint::GeneralN1 => seq![
            ResponseKind::PairKey,
            ResponseKind::Battery,
            ResponseKind::SetDateTime,
            ResponseKind::Firmware,
            ResponseKind::DevicePulse,
            ResponseKind::SetWeather,
            ResponseKind::HeartRateMenuDataPeriodic,
            ResponseKind::HeartRateMenuDataLeaving,
            ResponseKind::HeartRateMenuChange,
            ResponseKind::SilentModeChange,
            ResponseKind::SportStatus,
            ResponseKind::GeneralRecordedStepsEntry,
            ResponseKind::GeneralRecordedStepsEnd,
        ],
        Endpoint::Data2N => seq![
            ResponseKind::HeartRateDataToday,
            ResponseKind::HeartRateDataDayHourEntry,
            ResponseKind::HeartRateDataEnd,
            ResponseKind::HeartRateDataPeriodic,
            ResponseKind::HeartRateEnable,
            ResponseKind::HeartRateDisable,
            ResponseKind::Steps,
            ResponseKind::HeartRateMenuPeriodic,
            ResponseKind::HeartRateMenuMoveDown,
            ResponseKind::HeartRateDataTodayUnk2,
            ResponseKind::StepsUnk2,
            ResponseKind::HeartRateDataPeriodicUnk2,
            ResponseKind::DevicePulseUnk2,
            ResponseKind::Data2RecordedStepsEntry,
            ResponseKind::Data2RecordedStepsEnd,
        ],
        _ => Seq::empty(),
    }
}

/// The first kind of the table that accepts the buffer, if any does.
pub open spec fn first_accepting(table: Seq<ResponseKind>, raw: Seq<u8>) -> Option<ResponseKind>
    decreases table.len(),
{
    if table.len() == 0 {
        None
    } else if table[0].accepts(raw) {
        Some(table[0])
    } else {
        first_accepting(table.drop_first(), raw)
    }
}

/// What classification promises of its outcome `d` on the buffer `raw`,
/// tried against `table`.
pub open spec fn classifies(table: Seq<ResponseKind>, raw: Seq<u8>, d: Demuxed) -> bool {
    match d {
        Demuxed::Recognized(resp) => {
            &&& first_accepting(table, raw) == Some(resp.spec_kind())
            &&& resp.wf()
            &&& resp.wire() == raw
        },
        Demuxed::Unrecognized => first_accepting(table, raw) is None,
    }
}

/// The table of a characteristic, for the caller to inspect or to hand to
/// [`classify_with`].
pub fn candidates(endpoint: Endpoint) -> (table: Vec<ResponseKind>)
    ensures
        table@ == spec_candidates(endpoint),
{
    let mut table: Vec<ResponseKind> = Vec::new();
    match endpoint {
        Endpoint::GeneralN1 => {
            table.push(ResponseKind::PairKey);
            table.push(ResponseKind::Battery);
            table.push(ResponseKind::SetDateTime);
            table.push(ResponseKind::Firmware);
            table.push(ResponseKind::DevicePulse);
            table.push(ResponseKind::SetWeather);
            table.push(ResponseKind::HeartRateMenuDataPeriodic);
            table.push(ResponseKind::HeartRateMenuDataLeaving);
            table.push(ResponseKind::HeartRateMenuChange);
            table.push(ResponseKind::SilentModeChange);
            table.push(ResponseKind::SportStatus);
            table.push(ResponseKind::GeneralRecordedStepsEntry);
            table.push(ResponseKind::GeneralRecordedStepsEnd);
        },
        Endpoint::Data2N => {
            table.push(ResponseKind::HeartRateDataToday);
            table.push(ResponseKind::HeartRateDataDayHourEntry);
            table.push(ResponseKind::HeartRateDataEnd);
            table.push(ResponseKind::HeartRateDataPeriodic);
            table.push(ResponseKind::HeartRateEnable);
            table.push(ResponseKind::HeartRateDisable);
            table.push(ResponseKind::Steps);
            table.push(ResponseKind::HeartRateMenuPeriodic);
            table.push(ResponseKind::HeartRateMenuMoveDown);
            table.push(ResponseKind::HeartRateDataTodayUnk2);
            table.push(ResponseKind::StepsUnk2);
            table.push(ResponseKind::HeartRateDataPeriodicUnk2);
            table.push(ResponseKind::DevicePulseUnk2);
            table.push(ResponseKind::Data2RecordedStepsEntry);
            table.push(ResponseKind::Data2RecordedStepsEnd);
        },
        _ => {},
    }
    assert(table@ =~= spec_candidates(endpoint));
    table
}

/// What decoding as one kind promises of its result `r` on the buffer
/// `raw`: success exactly on the encodings of the kind, and then the
/// response that the buffer encodes.
pub open spec fn decodes_as(
    kind: ResponseKind,
    raw: Seq<u8>,
    r: Result<Response, DecodeError>,
) -> bool {
    &&& r is Ok <==> kind.accepts(raw)
    &&& match r {
        Ok(resp) => resp.spec_kind() == kind && resp.wf() && resp.wire() == raw,
        Err(DecodeError::TypeMismatch) => !kind.tagged(raw),
        Err(DecodeError::Malformed) => kind.tagged(raw),
    }
}


fn decode_pair_key(raw: &[u8]) -> (r: Result<Response, DecodeError>)
    ensures
        decodes_as(ResponseKind::PairKey, raw@, r),
{
    match general::PairKeyResponse::decode(raw) {
        Ok(v) => Ok(Response::PairKey(v)),
        Err(e) => Err(e),
    }
}

fn decode_battery(raw: &[u8]) -> (r: Result<Response, DecodeError>)
    ensures
        decodes_as(ResponseKind::Battery, raw@, r),
{
    match general::BatteryResponse::decode(raw) {
        Ok(v) => Ok(Response::Battery(v)),
        Err(e) => Err(e),
    }
}

fn decode_set_date_time(raw: &[u8]) -> (r: Result<Response, DecodeError>)
    ensures
        decodes_as(ResponseKind::SetDateTime, raw@, r),
{
    match general::SetDateTimeResponse::decode(raw) {
        Ok(v) => Ok(Response::SetDateTime(v)),
        Err(e) => Err(e),
    }
}

fn decode_firmware(raw: &[u8]) -> (r: Result<Response, DecodeError>)
    ensures
        decodes_as(ResponseKind::Firmware, raw@, r),
{
    match general::FirmwareResponse::decode(raw) {
        Ok(v) => Ok(Response::Firmware(v)),
        Err(e) => Err(e),
    }
}

fn decode_device_pulse(raw: &[u8]) -> (r: Result<Response, DecodeError>)
    ensures
        decodes_as(ResponseKind::DevicePulse, raw@, r),
{
    match general::DevicePulseResponse::decode(raw) {
        Ok(v) => Ok(Response::DevicePulse(v)),
        Err(e) => Err(e),
    }
}

fn decode_set_weather(raw: &[u8]) -> (r: Result<Response, DecodeError>)
    ensures
        decodes_as(ResponseKind::SetWeather, raw@, r),
{
    match general::SetWeatherResponse::decode(raw) {
        Ok(v) => Ok(Response::SetWeather(v)),
        Err(e) => Err(e),
    }
}

fn decode_heart_rate_menu_data_periodic(raw: &[u8]) -> (r: Result<Response, DecodeError>)
    ensures
        decodes_as(ResponseKind::HeartRateMenuDataPeriodic, raw@, r),
{
    match general::HeartRateMenuDataPeriodicResponse::decode(raw) {
        Ok(v) => Ok(Response::HeartRateMenuDataPeriodic(v)),
        Err(e) => Err(e),
    }
}

fn decode_heart_rate_menu_data_leaving(raw: &[u8]) -> (r: Result<Response, DecodeError>)
    ensures
        decodes_as(ResponseKind::HeartRateMenuDataLeaving, raw@, r),
{
    match general::HeartRateMenuDataLeavingResponse::decode(raw) {
        Ok(v) => Ok(Response::HeartRateMenuDataLeaving(v)),
        Err(e) => Err(e),
    }
}

fn decode_heart_rate_menu_change(raw: &[u8]) -> (r: Result<Response, DecodeError>)
    ensures
        decodes_as(ResponseKind::HeartRateMenuChange, raw@, r),
{
    match general::HeartRateMenuChangeResponse::decode(raw) {
        Ok(v) => Ok(Response::HeartRateMenuChange(v)),
        Err(e) => Err(e),
    }
}

fn decode_silent_mode_change(raw: &[u8]) -> (r: Result<Response, DecodeError>)
    ensures
        decodes_as(ResponseKind::SilentModeChange, raw@, r),
{
    match general::SilentModeChangeResponse::decode(raw) {
        Ok(v) => Ok(Response::SilentModeChange(v)),
        Err(e) => Err(e),
    }
}

fn decode_sport_status(raw: &[u8]) -> (r: Result<Response, DecodeError>)
    ensures
        decodes_as(ResponseKind::SportStatus, raw@, r),
{
    match general::SportStatusResponse::decode(raw) {
        Ok(v) => Ok(Response::SportStatus(v)),
        Err(e) => Err(e),
    }
}

fn decode_general_recorded_steps_entry(raw: &[u8]) -> (r: Result<Response, DecodeError>)
    ensures
        decodes_as(ResponseKind::GeneralRecordedStepsEntry, raw@, r),
{
    match general::RecordedStepsEntryResponse::decode(raw) {
        Ok(v) => Ok(Response::GeneralRecordedStepsEntry(v)),
        Err(e) => Err(e),
    }
}

fn decode_general_recorded_steps_end(raw: &[u8]) -> (r: Result<Response, DecodeError>)
    ensures
        decodes_as(ResponseKind::GeneralRecordedStepsEnd, raw@, r),
{
    match general::RecordedStepsEndResponse::decode(raw) {
        Ok(v) => Ok(Response::GeneralRecordedStepsEnd(v)),
        Err(e) => Err(e),
    }
}

fn decode_heart_rate_data_today(raw: &[u8]) -> (r: Result<Response, DecodeError>)
    ensures
        decodes_as(ResponseKind::HeartRateDataToday, raw@, r),
{
    match data2::HeartRateDataTodayResponse::decode(raw) {
        Ok(v) => Ok(Response::HeartRateDataToday(v)),
        Err(e) => Err(e),
    }
}

fn decode_heart_rate_data_day_hour_entry(raw: &[u8]) -> (r: Result<Response, DecodeError>)
    ensures
        decodes_as(ResponseKind::HeartRateDataDayHourEntry, raw@, r),
{
    match data2::HeartRateDataDayHourEntryResponse::decode(raw) {
        Ok(v) => Ok(Response::HeartRateDataDayHourEntry(v)),
        Err(e) => Err(e),
    }
}

fn decode_heart_rate_data_end(raw: &[u8]) -> (r: Result<Response, DecodeError>)
    ensures
        decodes_as(ResponseKind::HeartRateDataEnd, raw@, r),
{
    match data2::HeartRateDataEndResponse::decode(raw) {
        Ok(v) => Ok(Response::HeartRateDataEnd(v)),
        Err(e) => Err(e),
    }
}

fn decode_heart_rate_data_periodic(raw: &[u8]) -> (r: Result<Response, DecodeError>)
    ensures
        decodes_as(ResponseKind::HeartRateDataPeriodic, raw@, r),
{
    match data2::HeartRateDataPeriodicResponse::decode(raw) {
        Ok(v) => Ok(Response::HeartRateDataPeriodic(v)),
        Err(e) => Err(e),
    }
}

fn decode_heart_rate_enable(raw: &[u8]) -> (r: Result<Response, DecodeError>)
    ensures
        decodes_as(ResponseKind::HeartRateEnable, raw@, r),
{
    match data2::HeartRateEnableResponse::decode(raw) {
        Ok(v) => Ok(Response::HeartRateEnable(v)),
        Err(e) => Err(e),
    }
}

fn decode_heart_rate_disable(raw: &[u8]) -> (r: Result<Response, DecodeError>)
    ensures
        decodes_as(ResponseKind::HeartRateDisable, raw@, r),
{
    match data2::HeartRateDisableResponse::decode(raw) {
        Ok(v) => Ok(Response::HeartRateDisable(v)),
        Err(e) => Err(e),
    }
}

fn decode_steps(raw: &[u8]) -> (r: Result<Response, DecodeError>)
    ensures
        decodes_as(ResponseKind::Steps, raw@, r),
{
    match data2::StepsResponse::decode(raw) {
        Ok(v) => Ok(Response::Steps(v)),
        Err(e) => Err(e),
    }
}

fn decode_heart_rate_menu_periodic(raw: &[u8]) -> (r: Result<Response, DecodeError>)
    ensures
        decodes_as(ResponseKind::HeartRateMenuPeriodic, raw@, r),
{
    match data2::HeartRateMenuPeriodicResponse::decode(raw) {
        Ok(v) => Ok(Response::HeartRateMenuPeriodic(v)),
        Err(e) => Err(e),
    }
}

fn decode_heart_rate_menu_move_down(raw: &[u8]) -> (r: Result<Response, DecodeError>)
    ensures
        decodes_as(ResponseKind::HeartRateMenuMoveDown, raw@, r),
{
    match data2::HeartRateMenuMoveDownResponse::decode(raw) {
        Ok(v) => Ok(Response::HeartRateMenuMoveDown(v)),
        Err(e) => Err(e),
    }
}

fn decode_heart_rate_data_today_unk2(raw: &[u8]) -> (r: Result<Response, DecodeError>)
    ensures
        decodes_as(ResponseKind::HeartRateDataTodayUnk2, raw@, r),
{
    match data2::HeartRateDataTodayUnk2Response::decode(raw) {
        Ok(v) => Ok(Response::HeartRateDataTodayUnk2(v)),
        Err(e) => Err(e),
    }
}

fn decode_steps_unk2(raw: &[u8]) -> (r: Result<Response, DecodeError>)
    ensures
        decodes_as(ResponseKind::StepsUnk2, raw@, r),
{
    match data2::StepsUnk2Response::decode(raw) {
        Ok(v) => Ok(Response::StepsUnk2(v)),
        Err(e) => Err(e),
    }
}

fn decode_heart_rate_data_periodic_unk2(raw: &[u8]) -> (r: Result<Response, DecodeError>)
    ensures
        decodes_as(ResponseKind::HeartRateDataPeriodicUnk2, raw@, r),
{
    match data2::HeartRateDataPeriodicUnk2Response::decode(raw) {
        Ok(v) => Ok(Response::HeartRateDataPeriodicUnk2(v)),
        Err(e) => Err(e),
    }
}

fn decode_device_pulse_unk2(raw: &[u8]) -> (r: Result<Response, DecodeError>)
    ensures
        decodes_as(ResponseKind::DevicePulseUnk2, raw@, r),
{
    match data2::DevicePulseUnk2Response::decode(raw) {
        Ok(v) => Ok(Response::DevicePulseUnk2(v)),
        Err(e) => Err(e),
    }
}

fn decode_data2_recorded_steps_entry(raw: &[u8]) -> (r: Result<Response, DecodeError>)
    ensures
        decodes_as(ResponseKind::Data2RecordedStepsEntry, raw@, r),
{
    match data2::RecordedStepsEntryResponse::decode(raw) {
        Ok(v) => Ok(Response::Data2RecordedStepsEntry(v)),
        Err(e) => Err(e),
    }
}

fn decode_data2_recorded_steps_end(raw: &[u8]) -> (r: Result<Response, DecodeError>)
    ensures
        decodes_as(ResponseKind::Data2RecordedStepsEnd, raw@, r),
{
    match data2::RecordedStepsEndResponse::decode(raw) {
        Ok(v) => Ok(Response::Data2RecordedStepsEnd(v)),
        Err(e) => Err(e),
    }
}

/// Decodes a whole buffer as a response of the given kind.
pub fn decode_as(kind: ResponseKind, raw: &[u8]) -> (r: Result<Response, DecodeError>)
    ensures
        decodes_as(kind, raw@, r),
{
    match kind {
        ResponseKind::PairKey => decode_pair_key(raw),
        ResponseKind::Battery => decode_battery(raw),
        ResponseKind::SetDateTime => decode_set_date_time(raw),
        ResponseKind::Firmware => decode_firmware(raw),
        ResponseKind::DevicePulse => decode_device_pulse(raw),
        ResponseKind::SetWeather => decode_set_weather(raw),
        ResponseKind::HeartRateMenuDataPeriodic => decode_heart_rate_menu_data_periodic(raw),
        ResponseKind::HeartRateMenuDataLeaving => decode_heart_rate_menu_data_leaving(raw),
        ResponseKind::HeartRateMenuChange => decode_heart_rate_menu_change(raw),
        ResponseKind::SilentModeChange => decode_silent_mode_change(raw),
        ResponseKind::SportStatus => decode_sport_status(raw),
        ResponseKind::GeneralRecordedStepsEntry => decode_general_recorded_steps_entry(raw),
        ResponseKind::GeneralRecordedStepsEnd => decode_general_recorded_steps_end(raw),
        ResponseKind::HeartRateDataToday => decode_heart_rate_data_today(raw),
        ResponseKind::HeartRateDataDayHourEntry => decode_heart_rate_data_day_hour_entry(raw),
        ResponseKind::HeartRateDataEnd => decode_heart_rate_data_end(raw),
        ResponseKind::HeartRateDataPeriodic => decode_heart_rate_data_periodic(raw),
        ResponseKind::HeartRateEnable => decode_heart_rate_enable(raw),
        ResponseKind::HeartRateDisable => decode_heart_rate_disable(raw),
        ResponseKind::Steps => decode_steps(raw),
        ResponseKind::HeartRateMenuPeriodic => decode_heart_rate_menu_periodic(raw),
        ResponseKind::HeartRateMenuMoveDown => decode_heart_rate_menu_move_down(raw),
        ResponseKind::HeartRateDataTodayUnk2 => decode_heart_rate_data_today_unk2(raw),
        ResponseKind::StepsUnk2 => decode_steps_unk2(raw),
        ResponseKind::HeartRateDataPeriodicUnk2 => decode_heart_rate_data_periodic_unk2(raw),
        ResponseKind::DevicePulseUnk2 => decode_device_pulse_unk2(raw),
        ResponseKind::Data2RecordedStepsEntry => decode_data2_recorded_steps_entry(raw),
        ResponseKind::Data2RecordedStepsEnd => decode_data2_recorded_steps_end(raw),
    }
}

/// Classifies a buffer against a priority table: the first kind of the
/// table that decodes the whole buffer gives the result.
pub fn classify_with(table: &[ResponseKind], raw: &[u8]) -> (d: Demuxed)
    ensures
        classifies(table@, raw@, d),
{
    let mut i: usize = 0;
    while i < table.len()
        invariant
            i <= table.len(),
            forall|j: int| 0 <= j < i ==> !(#[trigger] table@[j]).accepts(raw@),
        decreases table.len() - i,
    {
        match decode_as(table[i], raw) {
            Ok(resp) => {
                proof {
                    lemma_first_accepting_at(table@, raw@, i as int);
                }
                return Demuxed::Recognized(resp);
            },
            Err(_) => {},
        }
        i = i + 1;
    }
    proof {
        lemma_first_accepting_none(table@, raw@);
    }
    Demuxed::Unrecognized
}

/// Classifies the buffer of a notification that arrived on `endpoint`.
pub fn demux(endpoint: Endpoint, raw: &[u8]) -> (d: Demuxed)
    ensures
        classifies(spec_candidates(endpoint), raw@, d),
{
    let table = candidates(endpoint);
    classify_with(table.as_slice(), raw)
}

/// Whether position `i` holds the first kind of the table that accepts the
/// buffer.
pub open spec fn is_first_accepting(table: Seq<ResponseKind>, raw: Seq<u8>, i: int) -> bool {
    &&& 0 <= i < table.len()
    &&& table[i].accepts(raw)
    &&& forall|j: int| 0 <= j < i ==> !(#[trigger] table[j]).accepts(raw)
}

/// If the kind at position `i` accepts the buffer and none before it does,
/// that kind is the result.
pub proof fn lemma_first_accepting_at(table: Seq<ResponseKind>, raw: Seq<u8>, i: int)
    requires
        is_first_accepting(table, raw, i),
    ensures
        first_accepting(table, raw) == Some(table[i]),
    decreases table.len(),
{
    if i > 0 {
        assert(!table[0].accepts(raw));
        let rest = table.drop_first();
        assert forall|j: int| 0 <= j < i - 1 implies !(#[trigger] rest[j]).accepts(raw) by {
            assert(rest[j] == table[j + 1]);
        }
        lemma_first_accepting_at(rest, raw, i - 1);
    }
}

/// If no kind of the table accepts the buffer, there is no result.
pub proof fn lemma_first_accepting_none(table: Seq<ResponseKind>, raw: Seq<u8>)
    requires
        forall|j: int| 0 <= j < table.len() ==> !(#[trigger] table[j]).accepts(raw),
    ensures
        first_accepting(table, raw) is None,
    decreases table.len(),
{
    if table.len() > 0 {
        assert(!table[0].accepts(raw));
        let rest = table.drop_first();
        assert forall|j: int| 0 <= j < rest.len() implies !(#[trigger] rest[j]).accepts(raw) by {
            assert(rest[j] == table[j + 1]);
        }
        lemma_first_accepting_none(rest, raw);
    }
}

/// The priority rule. Whenever several kinds of a table accept one buffer,
/// the result is the one that stands first: a kind is the result exactly
/// when it accepts the buffer at a position before which no kind does.
pub proof fn lemma_priority_decides(table: Seq<ResponseKind>, raw: Seq<u8>)
    ensures
        match first_accepting(table, raw) {
            Some(kind) => exists|i: int|
                #[trigger] is_first_accepting(table, raw, i) && table[i] == kind,
            None => forall|j: int| 0 <= j < table.len() ==> !(#[trigger] table[j]).accepts(raw),
        },
    decreases table.len(),
{
    if table.len() == 0 {
    } else if table[0].accepts(raw) {
        assert(is_first_accepting(table, raw, 0));
    } else {
        let rest = table.drop_first();
        lemma_priority_decides(rest, raw);
        match first_accepting(rest, raw) {
            Some(kind) => {
                let i = choose|i: int|
                    #[trigger] is_first_accepting(rest, raw, i) && rest[i] == kind;
                assert forall|j: int| 0 <= j < i + 1 implies !(#[trigger] table[j]).accepts(
                    raw,
                ) by {
                    if j > 0 {
                        assert(table[j] == rest[j - 1]);
                    }
                }
                assert(table[i + 1] == rest[i]);
                assert(is_first_accepting(table, raw, i + 1));
            },
            None => {
                assert forall|j: int| 0 <= j < table.len() implies !(#[trigger] table[j]).accepts(
                    raw,
                ) by {
                    if j > 0 {
                        assert(table[j] == rest[j - 1]);
                    }
                }
            },
        }
    }
}

/// Classification is determined by its inputs: two outcomes for the same
/// table and buffer name the same kind and carry the same bytes.
pub proof fn lemma_classification_deterministic(
    table: Seq<ResponseKind>,
    raw: Seq<u8>,
    d1: Demuxed,
    d2: Demuxed,
)
    requires
        classifies(table, raw, d1),
        classifies(table, raw, d2),
    ensures
        d1 is Unrecognized <==> d2 is Unrecognized,
        d1 matches Demuxed::Recognized(r1) ==> d2 matches Demuxed::Recognized(r2) && r1.spec_kind()
            == r2.spec_kind() && r1.wire() == r2.wire(),
{
}

/// With the response types of this protocol no buffer is the encoding of
/// two kinds, so the order of a table never changes what a buffer is
/// recognized as; it only bounds how many kinds are tried.
pub proof fn lemma_kinds_exclusive(a: ResponseKind, b: ResponseKind, raw: Seq<u8>)
    requires
        a.accepts(raw),
        b.accepts(raw),
    ensures
        a == b,
{
}

} // verus!
