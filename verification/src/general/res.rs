//! Records the watch sends on the notification characteristic of the general
//! service.

use crate::common::{
    CommandId, DevicePulseType, HeartRateMenuCommandSubId, PairCommandSubId, PairKey,
    RecordedStepsCommandSubId, SilentModeCommandSubId, SilentModeStatus, SportCommandSubId,
    SportKind, StepsEntry, WeatherDate,
};
use crate::wire::{be16, get_array, get_be16, lemma_be16_injective, put_be16, put_bytes};
use crate::{CommandResponse, DecodeError, Endpoint, WireRecord};
use vstd::prelude::*;

verus! {

/// The key the watch is currently paired with.
#[derive(Copy, Clone, PartialEq, Eq, Debug)]
pub struct PairKeyResponse {
    pub id: CommandId,
    pub sub_id: PairCommandSubId,
    pub cur_pair_key: PairKey,
}

impl PairKeyResponse {
    /// Number of bytes a record of this type takes on the wire.
    pub const WIRE_LEN: usize = 6;
}

impl View for PairKeyResponse {
    type V = PairKeyResponse;

    open spec fn view(&self) -> PairKeyResponse {
        *self
    }
}

impl WireRecord for PairKeyResponse {
    open spec fn wf(&self) -> bool {
        &&& self.id == CommandId::Pair
        &&& self.sub_id == PairCommandSubId::CurrentPairKey
    }

    open spec fn wire(&self) -> Seq<u8> {
        seq![self.id.wire_byte(), self.sub_id.wire_byte()] + self.cur_pair_key@
    }

    open spec fn tagged(raw: Seq<u8>) -> bool {
        &&& raw.len() >= 2
        &&& raw[0] == CommandId::Pair.wire_byte()
        &&& raw[1] == PairCommandSubId::CurrentPairKey.wire_byte()
    }

    open spec fn shaped(raw: Seq<u8>) -> bool {
        raw.len() == 6
    }

    fn well_formed(&self) -> (b: bool) {
        self.id == CommandId::Pair && self.sub_id == PairCommandSubId::CurrentPairKey
    }

    fn encode(&self) -> (bytes: Vec<u8>) {
        let mut bytes: Vec<u8> = Vec::new();
        bytes.push(self.id.to_byte());
        bytes.push(self.sub_id.to_byte());
        put_bytes(&mut bytes, self.cur_pair_key.as_slice());
        assert(bytes@ =~= self.wire());
        bytes
    }

    fn decode(raw: &[u8]) -> (r: Result<Self, DecodeError>) {
        if raw.len() < 2 || raw[0] != CommandId::Pair.to_byte()
            || raw[1] != PairCommandSubId::CurrentPairKey.to_byte() {
            return Err(DecodeError::TypeMismatch);
        }
        if raw.len() != 6 {
            return Err(DecodeError::Malformed);
        }
        let v = PairKeyResponse {
            id: CommandId::Pair,
            sub_id: PairCommandSubId::CurrentPairKey,
            cur_pair_key: get_array(raw, 2),
        };
        proof {
            assert(v.cur_pair_key@ == raw@.subrange(2, 6));
            assert(v.wire() =~= raw@);
            v.lemma_wire_accepted();
        }
        Ok(v)
    }

    proof fn lemma_wire_accepted(&self) {
    }

    proof fn lemma_wire_injective(&self, other: &Self) {
        assert(self.cur_pair_key@ =~= self.wire().subrange(2, 6));
        assert(other.cur_pair_key@ =~= other.wire().subrange(2, 6));
        assert(self.cur_pair_key =~= other.cur_pair_key);
    }
}

impl CommandResponse for PairKeyResponse {
    open spec fn spec_endpoint() -> Endpoint {
        Endpoint::GeneralN1
    }

    fn endpoint() -> (e: Endpoint) {
        Endpoint::GeneralN1
    }
}

/// The battery charge, in percent.
#[derive(Copy, Clone, PartialEq, Eq, Debug)]
pub struct BatteryResponse {
    pub id: CommandId,
    pub battery_percentage: u8,
}

impl BatteryResponse {
    /// Number of bytes a record of this type takes on the wire.
    pub const WIRE_LEN: usize = 2;
}

impl View for BatteryResponse {
    type V = BatteryResponse;

    open spec fn view(&self) -> BatteryResponse {
        *self
    }
}

impl WireRecord for BatteryResponse {
    open spec fn wf(&self) -> bool {
        self.id == CommandId::Battery
    }

    open spec fn wire(&self) -> Seq<u8> {
        seq![self.id.wire_byte(), self.battery_percentage]
    }

    open spec fn tagged(raw: Seq<u8>) -> bool {
        raw.len() >= 1 && raw[0] == CommandId::Battery.wire_byte()
    }

    open spec fn shaped(raw: Seq<u8>) -> bool {
        raw.len() == 2
    }

    fn well_formed(&self) -> (b: bool) {
        self.id == CommandId::Battery
    }

    fn encode(&self) -> (bytes: Vec<u8>) {
        let mut bytes: Vec<u8> = Vec::new();
        bytes.push(self.id.to_byte());
        bytes.push(self.battery_percentage);
        assert(bytes@ =~= self.wire());
        bytes
    }

    fn decode(raw: &[u8]) -> (r: Result<Self, DecodeError>) {
        if raw.len() < 1 || raw[0] != CommandId::Battery.to_byte() {
            return Err(DecodeError::TypeMismatch);
        }
        if raw.len() != 2 {
            return Err(DecodeError::Malformed);
        }
        let v = BatteryResponse {
            id: CommandId::Battery,
            battery_percentage: raw[1],
        };
        proof {
            assert(v.wire() =~= raw@);
            v.lemma_wire_accepted();
        }
        Ok(v)
    }

    proof fn lemma_wire_accepted(&self) {
    }

    proof fn lemma_wire_injective(&self, other: &Self) {
        assert(self.battery_percentage == self.wire()[1]
            && other.battery_percentage == other.wire()[1]);
    }
}

impl CommandResponse for BatteryResponse {
    open spec fn spec_endpoint() -> Endpoint {
        Endpoint::GeneralN1
    }

    fn endpoint() -> (e: Endpoint) {
        Endpoint::GeneralN1
    }
}

/// The date and time the watch has taken over.
#[derive(Copy, Clone, PartialEq, Eq, Debug)]
pub struct SetDateTimeResponse {
    pub id: CommandId,
    pub year: u16,
    pub month: u8,
    pub day: u8,
    pub hour: u8,
    pub min: u8,
    pub sec: u8,
}

impl SetDateTimeResponse {
    /// Number of bytes a record of this type takes on the wire.
    pub const WIRE_LEN: usize = 8;
}

impl View for SetDateTimeResponse {
    type V = SetDateTimeResponse;

    open spec fn view(&self) -> SetDateTimeResponse {
        *self
    }
}

impl WireRecord for SetDateTimeResponse {
    open spec fn wf(&self) -> bool {
        self.id == CommandId::DateTime
    }

    open spec fn wire(&self) -> Seq<u8> {
        seq![self.id.wire_byte()]
            + be16(self.year)
            + seq![self.month, self.day, self.hour, self.min, self.sec]
    }

    open spec fn tagged(raw: Seq<u8>) -> bool {
        raw.len() >= 1 && raw[0] == CommandId::DateTime.wire_byte()
    }

    open spec fn shaped(raw: Seq<u8>) -> bool {
        raw.len() == 8
    }

    fn well_formed(&self) -> (b: bool) {
        self.id == CommandId::DateTime
    }

    fn encode(&self) -> (bytes: Vec<u8>) {
        let mut bytes: Vec<u8> = Vec::new();
        bytes.push(self.id.to_byte());
        put_be16(&mut bytes, self.year);
        bytes.push(self.month);
        bytes.push(self.day);
        bytes.push(self.hour);
        bytes.push(self.min);
        bytes.push(self.sec);
        assert(bytes@ =~= self.wire());
        bytes
    }

    fn decode(raw: &[u8]) -> (r: Result<Self, DecodeError>) {
        if raw.len() < 1 || raw[0] != CommandId::DateTime.to_byte() {
            return Err(DecodeError::TypeMismatch);
        }
        if raw.len() != 8 {
            return Err(DecodeError::Malformed);
        }
        let v = SetDateTimeResponse {
            id: CommandId::DateTime,
            year: get_be16(raw, 1),
            month: raw[3],
            day: raw[4],
            hour: raw[5],
            min: raw[6],
            sec: raw[7],
        };
        proof {
            assert(be16(v.year) == raw@.subrange(1, 3));
            assert(v.wire() =~= raw@);
            v.lemma_wire_accepted();
        }
        Ok(v)
    }

    proof fn lemma_wire_accepted(&self) {
    }

    proof fn lemma_wire_injective(&self, other: &Self) {
        assert(be16(self.year) =~= self.wire().subrange(1, 3));
        assert(be16(other.year) =~= other.wire().subrange(1, 3));
        lemma_be16_injective(self.year, other.year);
        assert(self.month == self.wire()[3] && other.month == other.wire()[3]);
        assert(self.day == self.wire()[4] && other.day == other.wire()[4]);
        assert(self.hour == self.wire()[5] && other.hour == other.wire()[5]);
        assert(self.min == self.wire()[6] && other.min == other.wire()[6]);
        assert(self.sec == self.wire()[7] && other.sec == other.wire()[7]);
    }
}

impl CommandResponse for SetDateTimeResponse {
    open spec fn spec_endpoint() -> Endpoint {
        Endpoint::GeneralN1
    }

    fn endpoint() -> (e: Endpoint) {
        Endpoint::GeneralN1
    }
}

/// The name of the firmware, thirteen bytes of text.
#[derive(Copy, Clone, PartialEq, Eq, Debug)]
pub struct FirmwareResponse {
    pub id: CommandId,
    pub name: [u8; 13],
}

impl FirmwareResponse {
    /// Number of bytes a record of this type takes on the wire.
    pub const WIRE_LEN: usize = 14;
}

impl View for FirmwareResponse {
    type V = FirmwareResponse;

    open spec fn view(&self) -> FirmwareResponse {
        *self
    }
}

impl WireRecord for FirmwareResponse {
    open spec fn wf(&self) -> bool {
        self.id == CommandId::Firmware
    }

    open spec fn wire(&self) -> Seq<u8> {
        seq![self.id.wire_byte()] + self.name@
    }

    open spec fn tagged(raw: Seq<u8>) -> bool {
        raw.len() >= 1 && raw[0] == CommandId::Firmware.wire_byte()
    }

    open spec fn shaped(raw: Seq<u8>) -> bool {
        raw.len() == 14
    }

    fn well_formed(&self) -> (b: bool) {
        self.id == CommandId::Firmware
    }

    fn encode(&self) -> (bytes: Vec<u8>) {
        let mut bytes: Vec<u8> = Vec::new();
        bytes.push(self.id.to_byte());
        put_bytes(&mut bytes, self.name.as_slice());
        assert(bytes@ =~= self.wire());
        bytes
    }

    fn decode(raw: &[u8]) -> (r: Result<Self, DecodeError>) {
        if raw.len() < 1 || raw[0] != CommandId::Firmware.to_byte() {
            return Err(DecodeError::TypeMismatch);
        }
        if raw.len() != 14 {
            return Err(DecodeError::Malformed);
        }
        let v = FirmwareResponse {
            id: CommandId::Firmware,
            name: get_array(raw, 1),
        };
        proof {
            assert(v.name@ == raw@.subrange(1, 14));
            assert(v.wire() =~= raw@);
            v.lemma_wire_accepted();
        }
        Ok(v)
    }

    proof fn lemma_wire_accepted(&self) {
    }

    proof fn lemma_wire_injective(&self, other: &Self) {
        assert(self.name@ =~= self.wire().subrange(1, 14));
        assert(other.name@ =~= other.wire().subrange(1, 14));
        assert(self.name =~= other.name);
    }
}

impl CommandResponse for FirmwareResponse {
    open spec fn spec_endpoint() -> Endpoint {
        Endpoint::GeneralN1
    }

    fn endpoint() -> (e: Endpoint) {
        Endpoint::GeneralN1
    }
}

/// A button or gesture event on the watch.
#[derive(Copy, Clone, PartialEq, Eq, Debug)]
pub struct DevicePulseResponse {
    pub id: CommandId,
    pub pulse_type: DevicePulseType,
}

impl DevicePulseResponse {
    /// Number of bytes a record of this type takes on the wire.
    pub const WIRE_LEN: usize = 2;
}

impl View for DevicePulseResponse {
    type V = DevicePulseResponse;

    open spec fn view(&self) -> DevicePulseResponse {
        *self
    }
}

impl WireRecord for DevicePulseResponse {
    open spec fn wf(&self) -> bool {
        self.id == CommandId::DevicePulse
    }

    open spec fn wire(&self) -> Seq<u8> {
        seq![self.id.wire_byte(), self.pulse_type.wire_byte()]
    }

    open spec fn tagged(raw: Seq<u8>) -> bool {
        raw.len() >= 1 && raw[0] == CommandId::DevicePulse.wire_byte()
    }

    open spec fn shaped(raw: Seq<u8>) -> bool {
        &&& raw.len() == 2
        &&& DevicePulseType::of_wire_byte(raw[1]) is Some
    }

    fn well_formed(&self) -> (b: bool) {
        self.id == CommandId::DevicePulse
    }

    fn encode(&self) -> (bytes: Vec<u8>) {
        let mut bytes: Vec<u8> = Vec::new();
        bytes.push(self.id.to_byte());
        bytes.push(self.pulse_type.to_byte());
        assert(bytes@ =~= self.wire());
        bytes
    }

    fn decode(raw: &[u8]) -> (r: Result<Self, DecodeError>) {
        if raw.len() < 1 || raw[0] != CommandId::DevicePulse.to_byte() {
            return Err(DecodeError::TypeMismatch);
        }
        if raw.len() != 2 {
            return Err(DecodeError::Malformed);
        }
        let pulse_type = match DevicePulseType::from_byte(raw[1]) {
            Some(v) => v,
            None => return Err(DecodeError::Malformed),
        };
        let v = DevicePulseResponse {
            id: CommandId::DevicePulse,
            pulse_type,
        };
        proof {
            DevicePulseType::lemma_wire_byte_inverse(pulse_type, raw[1]);
            assert(v.wire() =~= raw@);
            v.lemma_wire_accepted();
        }
        Ok(v)
    }

    proof fn lemma_wire_accepted(&self) {
        assert(self.wire()[1] == self.pulse_type.wire_byte());
        DevicePulseType::lemma_wire_byte_inverse(self.pulse_type, self.pulse_type.wire_byte());
    }

    proof fn lemma_wire_injective(&self, other: &Self) {
        assert(self.pulse_type.wire_byte() == self.wire()[1]);
        assert(other.pulse_type.wire_byte() == other.wire()[1]);
        DevicePulseType::lemma_wire_byte_inverse(self.pulse_type, self.wire()[1]);
        DevicePulseType::lemma_wire_byte_inverse(other.pulse_type, self.wire()[1]);
    }
}

impl CommandResponse for DevicePulseResponse {
    open spec fn spec_endpoint() -> Endpoint {
        Endpoint::GeneralN1
    }

    fn endpoint() -> (e: Endpoint) {
        Endpoint::GeneralN1
    }
}

/// Confirms a weather record, naming the forecast it carried.
#[derive(Copy, Clone, PartialEq, Eq, Debug)]
pub struct SetWeatherResponse {
    pub id: CommandId,
    pub weather_date: WeatherDate,
}

impl SetWeatherResponse {
    /// Number of bytes a record of this type takes on the wire.
    pub const WIRE_LEN: usize = 2;
}

impl View for SetWeatherResponse {
    type V = SetWeatherResponse;

    open spec fn view(&self) -> SetWeatherResponse {
        *self
    }
}

impl WireRecord for SetWeatherResponse {
    open spec fn wf(&self) -> bool {
        self.id == CommandId::Weather
    }

    open spec fn wire(&self) -> Seq<u8> {
        seq![self.id.wire_byte(), self.weather_date.wire_byte()]
    }

    open spec fn tagged(raw: Seq<u8>) -> bool {
        raw.len() >= 1 && raw[0] == CommandId::Weather.wire_byte()
    }

    open spec fn shaped(raw: Seq<u8>) -> bool {
        &&& raw.len() == 2
        &&& WeatherDate::of_wire_byte(raw[1]) is Some
    }

    fn well_formed(&self) -> (b: bool) {
        self.id == CommandId::Weather
    }

    fn encode(&self) -> (bytes: Vec<u8>) {
        let mut bytes: Vec<u8> = Vec::new();
        bytes.push(self.id.to_byte());
        bytes.push(self.weather_date.to_byte());
        assert(bytes@ =~= self.wire());
        bytes
    }

    fn decode(raw: &[u8]) -> (r: Result<Self, DecodeError>) {
        if raw.len() < 1 || raw[0] != CommandId::Weather.to_byte() {
            return Err(DecodeError::TypeMismatch);
        }
        if raw.len() != 2 {
            return Err(DecodeError::Malformed);
        }
        let weather_date = match WeatherDate::from_byte(raw[1]) {
            Some(v) => v,
            None => return Err(DecodeError::Malformed),
        };
        let v = SetWeatherResponse {
            id: CommandId::Weather,
            weather_date,
        };
        proof {
            WeatherDate::lemma_wire_byte_inverse(weather_date, raw[1]);
            assert(v.wire() =~= raw@);
            v.lemma_wire_accepted();
        }
        Ok(v)
    }

    proof fn lemma_wire_accepted(&self) {
        assert(self.wire()[1] == self.weather_date.wire_byte());
        WeatherDate::lemma_wire_byte_inverse(self.weather_date, self.weather_date.wire_byte());
    }

    proof fn lemma_wire_injective(&self, other: &Self) {
        assert(self.weather_date.wire_byte() == self.wire()[1]);
        assert(other.weather_date.wire_byte() == other.wire()[1]);
        WeatherDate::lemma_wire_byte_inverse(self.weather_date, self.wire()[1]);
        WeatherDate::lemma_wire_byte_inverse(other.weather_date, self.wire()[1]);
    }
}

impl CommandResponse for SetWeatherResponse {
    open spec fn spec_endpoint() -> Endpoint {
        Endpoint::GeneralN1
    }

    fn endpoint() -> (e: Endpoint) {
        Endpoint::GeneralN1
    }
}

/// A heart-rate sample taken while the heart-rate menu is shown.
#[derive(Copy, Clone, PartialEq, Eq, Debug)]
pub struct HeartRateMenuDataPeriodicResponse {
    pub id: CommandId,
    pub sub_id: HeartRateMenuCommandSubId,
    pub unk_maybe_pad: u8,
    pub heart_rate: u8,
}

impl HeartRateMenuDataPeriodicResponse {
    /// Number of bytes a record of this type takes on the wire.
    pub const WIRE_LEN: usize = 4;
}

impl View for HeartRateMenuDataPeriodicResponse {
    type V = HeartRateMenuDataPeriodicResponse;

    open spec fn view(&self) -> HeartRateMenuDataPeriodicResponse {
        *self
    }
}

impl WireRecord for HeartRateMenuDataPeriodicResponse {
    open spec fn wf(&self) -> bool {
        &&& self.id == CommandId::HeartRateMenuGeneral
        &&& self.sub_id == HeartRateMenuCommandSubId::InMenu
    }

    open spec fn wire(&self) -> Seq<u8> {
        seq![self.id.wire_byte(), self.sub_id.wire_byte(), self.unk_maybe_pad, self.heart_rate]
    }

    open spec fn tagged(raw: Seq<u8>) -> bool {
        &&& raw.len() >= 2
        &&& raw[0] == CommandId::HeartRateMenuGeneral.wire_byte()
        &&& raw[1] == HeartRateMenuCommandSubId::InMenu.wire_byte()
    }

    open spec fn shaped(raw: Seq<u8>) -> bool {
        raw.len() == 4
    }

    fn well_formed(&self) -> (b: bool) {
        self.id == CommandId::HeartRateMenuGeneral
            && self.sub_id == HeartRateMenuCommandSubId::InMenu
    }

    fn encode(&self) -> (bytes: Vec<u8>) {
        let mut bytes: Vec<u8> = Vec::new();
        bytes.push(self.id.to_byte());
        bytes.push(self.sub_id.to_byte());
        bytes.push(self.unk_maybe_pad);
        bytes.push(self.heart_rate);
        assert(bytes@ =~= self.wire());
        bytes
    }

    fn decode(raw: &[u8]) -> (r: Result<Self, DecodeError>) {
        if raw.len() < 2 || raw[0] != CommandId::HeartRateMenuGeneral.to_byte()
            || raw[1] != HeartRateMenuCommandSubId::InMenu.to_byte() {
            return Err(DecodeError::TypeMismatch);
        }
        if raw.len() != 4 {
            return Err(DecodeError::Malformed);
        }
        let v = HeartRateMenuDataPeriodicResponse {
            id: CommandId::HeartRateMenuGeneral,
            sub_id: HeartRateMenuCommandSubId::InMenu,
            unk_maybe_pad: raw[2],
            heart_rate: raw[3],
        };
        proof {
            assert(v.wire() =~= raw@);
            v.lemma_wire_accepted();
        }
        Ok(v)
    }

    proof fn lemma_wire_accepted(&self) {
    }

    proof fn lemma_wire_injective(&self, other: &Self) {
        assert(self.unk_maybe_pad == self.wire()[2] && other.unk_maybe_pad == other.wire()[2]);
        assert(self.heart_rate == self.wire()[3] && other.heart_rate == other.wire()[3]);
    }
}

impl CommandResponse for HeartRateMenuDataPeriodicResponse {
    open spec fn spec_endpoint() -> Endpoint {
        Endpoint::GeneralN1
    }

    fn endpoint() -> (e: Endpoint) {
        Endpoint::GeneralN1
    }
}

/// The last heart-rate sample, sent when the heart-rate menu is left.
#[derive(Copy, Clone, PartialEq, Eq, Debug)]
pub struct HeartRateMenuDataLeavingResponse {
    pub id: CommandId,
    pub sub_id: HeartRateMenuCommandSubId,
    pub unk_maybe_pad: u8,
    pub heart_rate: u8,
}

impl HeartRateMenuDataLeavingResponse {
    /// Number of bytes a record of this type takes on the wire.
    pub const WIRE_LEN: usize = 4;
}

impl View for HeartRateMenuDataLeavingResponse {
    type V = HeartRateMenuDataLeavingResponse;

    open spec fn view(&self) -> HeartRateMenuDataLeavingResponse {
        *self
    }
}

impl WireRecord for HeartRateMenuDataLeavingResponse {
    open spec fn wf(&self) -> bool {
        &&& self.id == CommandId::HeartRateMenuGeneral
        &&& self.sub_id == HeartRateMenuCommandSubId::LeavingMenu
    }

    open spec fn wire(&self) -> Seq<u8> {
        seq![self.id.wire_byte(), self.sub_id.wire_byte(), self.unk_maybe_pad, self.heart_rate]
    }

    open spec fn tagged(raw: Seq<u8>) -> bool {
        &&& raw.len() >= 2
        &&& raw[0] == CommandId::HeartRateMenuGeneral.wire_byte()
        &&& raw[1] == HeartRateMenuCommandSubId::LeavingMenu.wire_byte()
    }

    open spec fn shaped(raw: Seq<u8>) -> bool {
        raw.len() == 4
    }

    fn well_formed(&self) -> (b: bool) {
        self.id == CommandId::HeartRateMenuGeneral
            && self.sub_id == HeartRateMenuCommandSubId::LeavingMenu
    }

    fn encode(&self) -> (bytes: Vec<u8>) {
        let mut bytes: Vec<u8> = Vec::new();
        bytes.push(self.id.to_byte());
        bytes.push(self.sub_id.to_byte());
        bytes.push(self.unk_maybe_pad);
        bytes.push(self.heart_rate);
        assert(bytes@ =~= self.wire());
        bytes
    }

    fn decode(raw: &[u8]) -> (r: Result<Self, DecodeError>) {
        if raw.len() < 2 || raw[0] != CommandId::HeartRateMenuGeneral.to_byte()
            || raw[1] != HeartRateMenuCommandSubId::LeavingMenu.to_byte() {
            return Err(DecodeError::TypeMismatch);
        }
        if raw.len() != 4 {
            return Err(DecodeError::Malformed);
        }
        let v = HeartRateMenuDataLeavingResponse {
            id: CommandId::HeartRateMenuGeneral,
            sub_id: HeartRateMenuCommandSubId::LeavingMenu,
            unk_maybe_pad: raw[2],
            heart_rate: raw[3],
        };
        proof {
            assert(v.wire() =~= raw@);
            v.lemma_wire_accepted();
        }
        Ok(v)
    }

    proof fn lemma_wire_accepted(&self) {
    }

    proof fn lemma_wire_injective(&self, other: &Self) {
        assert(self.unk_maybe_pad == self.wire()[2] && other.unk_maybe_pad == other.wire()[2]);
        assert(self.heart_rate == self.wire()[3] && other.heart_rate == other.wire()[3]);
    }
}

impl CommandResponse for HeartRateMenuDataLeavingResponse {
    open spec fn spec_endpoint() -> Endpoint {
        Endpoint::GeneralN1
    }

    fn endpoint() -> (e: Endpoint) {
        Endpoint::GeneralN1
    }
}

/// The heart-rate menu was entered.
#[derive(Copy, Clone, PartialEq, Eq, Debug)]
pub struct HeartRateMenuChangeResponse {
    pub id: CommandId,
    pub sub_id: HeartRateMenuCommandSubId,
}

impl HeartRateMenuChangeResponse {
    /// Number of bytes a record of this type takes on the wire.
    pub const WIRE_LEN: usize = 2;
}

impl View for HeartRateMenuChangeResponse {
    type V = HeartRateMenuChangeResponse;

    open spec fn view(&self) -> HeartRateMenuChangeResponse {
        *self
    }
}

impl WireRecord for HeartRateMenuChangeResponse {
    open spec fn wf(&self) -> bool {
        &&& self.id == CommandId::HeartRateMenuGeneral
        &&& self.sub_id == HeartRateMenuCommandSubId::InMenu
    }

    open spec fn wire(&self) -> Seq<u8> {
        seq![self.id.wire_byte(), self.sub_id.wire_byte()]
    }

    open spec fn tagged(raw: Seq<u8>) -> bool {
        &&& raw.len() >= 2
        &&& raw[0] == CommandId::HeartRateMenuGeneral.wire_byte()
        &&& raw[1] == HeartRateMenuCommandSubId::InMenu.wire_byte()
    }

    open spec fn shaped(raw: Seq<u8>) -> bool {
        raw.len() == 2
    }

    fn well_formed(&self) -> (b: bool) {
        self.id == CommandId::HeartRateMenuGeneral
            && self.sub_id == HeartRateMenuCommandSubId::InMenu
    }

    fn encode(&self) -> (bytes: Vec<u8>) {
        let mut bytes: Vec<u8> = Vec::new();
        bytes.push(self.id.to_byte());
        bytes.push(self.sub_id.to_byte());
        assert(bytes@ =~= self.wire());
        bytes
    }

    fn decode(raw: &[u8]) -> (r: Result<Self, DecodeError>) {
        if raw.len() < 2 || raw[0] != CommandId::HeartRateMenuGeneral.to_byte()
            || raw[1] != HeartRateMenuCommandSubId::InMenu.to_byte() {
            return Err(DecodeError::TypeMismatch);
        }
        if raw.len() != 2 {
            return Err(DecodeError::Malformed);
        }
        let v = HeartRateMenuChangeResponse {
            id: CommandId::HeartRateMenuGeneral,
            sub_id: HeartRateMenuCommandSubId::InMenu,
        };
        proof {
            assert(v.wire() =~= raw@);
            v.lemma_wire_accepted();
        }
        Ok(v)
    }

    proof fn lemma_wire_accepted(&self) {
    }

    proof fn lemma_wire_injective(&self, other: &Self) {
    }
}

impl CommandResponse for HeartRateMenuChangeResponse {
    open spec fn spec_endpoint() -> Endpoint {
        Endpoint::GeneralN1
    }

    fn endpoint() -> (e: Endpoint) {
        Endpoint::GeneralN1
    }
}

/// The silent mode was switched on or off.
#[derive(Copy, Clone, PartialEq, Eq, Debug)]
pub struct SilentModeChangeResponse {
    pub id: CommandId,
    pub sub_id: SilentModeCommandSubId,
    pub mode: SilentModeStatus,
    pub unk: [u8; 17],
}

impl SilentModeChangeResponse {
    /// Number of bytes a record of this type takes on the wire.
    pub const WIRE_LEN: usize = 20;
}

impl View for SilentModeChangeResponse {
    type V = SilentModeChangeResponse;

    open spec fn view(&self) -> SilentModeChangeResponse {
        *self
    }
}

impl WireRecord for SilentModeChangeResponse {
    open spec fn wf(&self) -> bool {
        &&& self.id == CommandId::SilentMode
        &&& self.sub_id == SilentModeCommandSubId::ModeChanged
    }

    open spec fn wire(&self) -> Seq<u8> {
        seq![self.id.wire_byte(), self.sub_id.wire_byte(), self.mode.wire_byte()] + self.unk@
    }

    open spec fn tagged(raw: Seq<u8>) -> bool {
        &&& raw.len() >= 2
        &&& raw[0] == CommandId::SilentMode.wire_byte()
        &&& raw[1] == SilentModeCommandSubId::ModeChanged.wire_byte()
    }

    open spec fn shaped(raw: Seq<u8>) -> bool {
        &&& raw.len() == 20
        &&& SilentModeStatus::of_wire_byte(raw[2]) is Some
    }

    fn well_formed(&self) -> (b: bool) {
        self.id == CommandId::SilentMode && self.sub_id == SilentModeCommandSubId::ModeChanged
    }

    fn encode(&self) -> (bytes: Vec<u8>) {
        let mut bytes: Vec<u8> = Vec::new();
        bytes.push(self.id.to_byte());
        bytes.push(self.sub_id.to_byte());
        bytes.push(self.mode.to_byte());
        put_bytes(&mut bytes, self.unk.as_slice());
        assert(bytes@ =~= self.wire());
        bytes
    }

    fn decode(raw: &[u8]) -> (r: Result<Self, DecodeError>) {
        if raw.len() < 2 || raw[0] != CommandId::SilentMode.to_byte()
            || raw[1] != SilentModeCommandSubId::ModeChanged.to_byte() {
            return Err(DecodeError::TypeMismatch);
        }
        if raw.len() != 20 {
            return Err(DecodeError::Malformed);
        }
        let mode = match SilentModeStatus::from_byte(raw[2]) {
            Some(v) => v,
            None => return Err(DecodeError::Malformed),
        };
        let v = SilentModeChangeResponse {
            id: CommandId::SilentMode,
            sub_id: SilentModeCommandSubId::ModeChanged,
            mode,
            unk: get_array(raw, 3),
        };
        proof {
            SilentModeStatus::lemma_wire_byte_inverse(mode, raw[2]);
            assert(v.unk@ == raw@.subrange(3, 20));
            assert(v.wire() =~= raw@);
            v.lemma_wire_accepted();
        }
        Ok(v)
    }

    proof fn lemma_wire_accepted(&self) {
        assert(self.wire()[2] == self.mode.wire_byte());
        SilentModeStatus::lemma_wire_byte_inverse(self.mode, self.mode.wire_byte());
    }

    proof fn lemma_wire_injective(&self, other: &Self) {
        assert(self.mode.wire_byte() == self.wire()[2]);
        assert(other.mode.wire_byte() == other.wire()[2]);
        SilentModeStatus::lemma_wire_byte_inverse(self.mode, self.wire()[2]);
        SilentModeStatus::lemma_wire_byte_inverse(other.mode, self.wire()[2]);
        assert(self.unk@ =~= self.wire().subrange(3, 20));
        assert(other.unk@ =~= other.wire().subrange(3, 20));
        assert(self.unk =~= other.unk);
    }
}

impl CommandResponse for SilentModeChangeResponse {
    open spec fn spec_endpoint() -> Endpoint {
        Endpoint::GeneralN1
    }

    fn endpoint() -> (e: Endpoint) {
        Endpoint::GeneralN1
    }
}

/// A sport session started or finished.
#[derive(Copy, Clone, PartialEq, Eq, Debug)]
pub struct SportStatusResponse {
    pub id: CommandId,
    pub sub_id: SportCommandSubId,
    pub kind: SportKind,
    pub unk: u8,
}

impl SportStatusResponse {
    /// Number of bytes a record of this type takes on the wire.
    pub const WIRE_LEN: usize = 4;
}

impl View for SportStatusResponse {
    type V = SportStatusResponse;

    open spec fn view(&self) -> SportStatusResponse {
        *self
    }
}

impl WireRecord for SportStatusResponse {
    open spec fn wf(&self) -> bool {
        self.id == CommandId::Sport
    }

    open spec fn wire(&self) -> Seq<u8> {
        seq![self.id.wire_byte(), self.sub_id.wire_byte(), self.kind.wire_byte(), self.unk]
    }

    open spec fn tagged(raw: Seq<u8>) -> bool {
        raw.len() >= 1 && raw[0] == CommandId::Sport.wire_byte()
    }

    open spec fn shaped(raw: Seq<u8>) -> bool {
        &&& raw.len() == 4
        &&& SportCommandSubId::of_wire_byte(raw[1]) is Some
        &&& SportKind::of_wire_byte(raw[2]) is Some
    }

    fn well_formed(&self) -> (b: bool) {
        self.id == CommandId::Sport
    }

    fn encode(&self) -> (bytes: Vec<u8>) {
        let mut bytes: Vec<u8> = Vec::new();
        bytes.push(self.id.to_byte());
        bytes.push(self.sub_id.to_byte());
        bytes.push(self.kind.to_byte());
        bytes.push(self.unk);
        assert(bytes@ =~= self.wire());
        bytes
    }

    fn decode(raw: &[u8]) -> (r: Result<Self, DecodeError>) {
        if raw.len() < 1 || raw[0] != CommandId::Sport.to_byte() {
            return Err(DecodeError::TypeMismatch);
        }
        if raw.len() != 4 {
            return Err(DecodeError::Malformed);
        }
        let sub_id = match SportCommandSubId::from_byte(raw[1]) {
            Some(v) => v,
            None => return Err(DecodeError::Malformed),
        };
        let kind = match SportKind::from_byte(raw[2]) {
            Some(v) => v,
            None => return Err(DecodeError::Malformed),
        };
        let v = SportStatusResponse {
            id: CommandId::Sport,
            sub_id,
            kind,
            unk: raw[3],
        };
        proof {
            SportCommandSubId::lemma_wire_byte_inverse(sub_id, raw[1]);
            SportKind::lemma_wire_byte_inverse(kind, raw[2]);
            assert(v.wire() =~= raw@);
            v.lemma_wire_accepted();
        }
        Ok(v)
    }

    proof fn lemma_wire_accepted(&self) {
        assert(self.wire()[1] == self.sub_id.wire_byte());
        SportCommandSubId::lemma_wire_byte_inverse(self.sub_id, self.sub_id.wire_byte());
        assert(self.wire()[2] == self.kind.wire_byte());
        SportKind::lemma_wire_byte_inverse(self.kind, self.kind.wire_byte());
    }

    proof fn lemma_wire_injective(&self, other: &Self) {
        assert(self.sub_id.wire_byte() == self.wire()[1]);
        assert(other.sub_id.wire_byte() == other.wire()[1]);
        SportCommandSubId::lemma_wire_byte_inverse(self.sub_id, self.wire()[1]);
        SportCommandSubId::lemma_wire_byte_inverse(other.sub_id, self.wire()[1]);
        assert(self.kind.wire_byte() == self.wire()[2]);
        assert(other.kind.wire_byte() == other.wire()[2]);
        SportKind::lemma_wire_byte_inverse(self.kind, self.wire()[2]);
        SportKind::lemma_wire_byte_inverse(other.kind, self.wire()[2]);
        assert(self.unk == self.wire()[3] && other.unk == other.wire()[3]);
    }
}

impl CommandResponse for SportStatusResponse {
    open spec fn spec_endpoint() -> Endpoint {
        Endpoint::GeneralN1
    }

    fn endpoint() -> (e: Endpoint) {
        Endpoint::GeneralN1
    }
}

/// One hour of recorded steps, as sent on the general service.
#[derive(Copy, Clone, PartialEq, Eq, Debug)]
pub struct RecordedStepsEntryResponse {
    pub id: CommandId,
    pub entry: StepsEntry,
}

impl RecordedStepsEntryResponse {
    /// Number of bytes a record of this type takes on the wire.
    pub const WIRE_LEN: usize = 18;
}

impl View for RecordedStepsEntryResponse {
    type V = RecordedStepsEntryResponse;

    open spec fn view(&self) -> RecordedStepsEntryResponse {
        *self
    }
}

impl WireRecord for RecordedStepsEntryResponse {
    open spec fn wf(&self) -> bool {
        self.id == CommandId::RecordedStepsGeneral
    }

    open spec fn wire(&self) -> Seq<u8> {
        seq![self.id.wire_byte()] + self.entry.wire()
    }

    open spec fn tagged(raw: Seq<u8>) -> bool {
        raw.len() >= 1 && raw[0] == CommandId::RecordedStepsGeneral.wire_byte()
    }

    open spec fn shaped(raw: Seq<u8>) -> bool {
        raw.len() == 18
    }

    fn well_formed(&self) -> (b: bool) {
        self.id == CommandId::RecordedStepsGeneral
    }

    fn encode(&self) -> (bytes: Vec<u8>) {
        let mut bytes: Vec<u8> = Vec::new();
        bytes.push(self.id.to_byte());
        self.entry.put(&mut bytes);
        assert(bytes@ =~= self.wire());
        bytes
    }

    fn decode(raw: &[u8]) -> (r: Result<Self, DecodeError>) {
        if raw.len() < 1 || raw[0] != CommandId::RecordedStepsGeneral.to_byte() {
            return Err(DecodeError::TypeMismatch);
        }
        if raw.len() != 18 {
            return Err(DecodeError::Malformed);
        }
        let v = RecordedStepsEntryResponse {
            id: CommandId::RecordedStepsGeneral,
            entry: StepsEntry::get(raw, 1),
        };
        proof {
            assert(v.entry.wire() == raw@.subrange(1, 18));
            assert(v.wire() =~= raw@);
            v.lemma_wire_accepted();
        }
        Ok(v)
    }

    proof fn lemma_wire_accepted(&self) {
    }

    proof fn lemma_wire_injective(&self, other: &Self) {
        assert(self.entry.wire() =~= self.wire().subrange(1, 18));
        assert(other.entry.wire() =~= other.wire().subrange(1, 18));
        StepsEntry::lemma_wire_injective(self.entry, other.entry);
    }
}

impl CommandResponse for RecordedStepsEntryResponse {
    open spec fn spec_endpoint() -> Endpoint {
        Endpoint::GeneralN1
    }

    fn endpoint() -> (e: Endpoint) {
        Endpoint::GeneralN1
    }
}

/// Ends a run of recorded-steps entries on the general service.
#[derive(Copy, Clone, PartialEq, Eq, Debug)]
pub struct RecordedStepsEndResponse {
    pub id: CommandId,
    pub sub_id: RecordedStepsCommandSubId,
    pub unk: u8,
}

impl RecordedStepsEndResponse {
    /// Number of bytes a record of this type takes on the wire.
    pub const WIRE_LEN: usize = 3;
}

impl View for RecordedStepsEndResponse {
    type V = RecordedStepsEndResponse;

    open spec fn view(&self) -> RecordedStepsEndResponse {
        *self
    }
}

impl WireRecord for RecordedStepsEndResponse {
    open spec fn wf(&self) -> bool {
        &&& self.id == CommandId::RecordedStepsGeneral
        &&& self.sub_id == RecordedStepsCommandSubId::End
    }

    open spec fn wire(&self) -> Seq<u8> {
        seq![self.id.wire_byte(), self.sub_id.wire_byte(), self.unk]
    }

    open spec fn tagged(raw: Seq<u8>) -> bool {
        &&& raw.len() >= 2
        &&& raw[0] == CommandId::RecordedStepsGeneral.wire_byte()
        &&& raw[1] == RecordedStepsCommandSubId::End.wire_byte()
    }

    open spec fn shaped(raw: Seq<u8>) -> bool {
        raw.len() == 3
    }

    fn well_formed(&self) -> (b: bool) {
        self.id == CommandId::RecordedStepsGeneral && self.sub_id == RecordedStepsCommandSubId::End
    }

    fn encode(&self) -> (bytes: Vec<u8>) {
        let mut bytes: Vec<u8> = Vec::new();
        bytes.push(self.id.to_byte());
        bytes.push(self.sub_id.to_byte());
        bytes.push(self.unk);
        assert(bytes@ =~= self.wire());
        bytes
    }

    fn decode(raw: &[u8]) -> (r: Result<Self, DecodeError>) {
        if raw.len() < 2 || raw[0] != CommandId::RecordedStepsGeneral.to_byte()
            || raw[1] != RecordedStepsCommandSubId::End.to_byte() {
            return Err(DecodeError::TypeMismatch);
        }
        if raw.len() != 3 {
            return Err(DecodeError::Malformed);
        }
        let v = RecordedStepsEndResponse {
            id: CommandId::RecordedStepsGeneral,
            sub_id: RecordedStepsCommandSubId::End,
            unk: raw[2],
        };
        proof {
            assert(v.wire() =~= raw@);
            v.lemma_wire_accepted();
        }
        Ok(v)
    }

    proof fn lemma_wire_accepted(&self) {
    }

    proof fn lemma_wire_injective(&self, other: &Self) {
        assert(self.unk == self.wire()[2] && other.unk == other.wire()[2]);
    }
}

impl CommandResponse for RecordedStepsEndResponse {
    open spec fn spec_endpoint() -> Endpoint {
        Endpoint::GeneralN1
    }

    fn endpoint() -> (e: Endpoint) {
        Endpoint::GeneralN1
    }
}

} // verus!
