//! Records the watch sends on the notification characteristic of the second
//! data service: heart-rate and step telemetry.

use crate::common::{
    CommandId, Date, DevicePulseType, HeartRateCommandSubId, HeartRateMenuCommandSubId,
    RecordedStepsCommandSubId, StepsEntry,
};
use crate::wire::{get_array, put_bytes};
use crate::{CommandResponse, DecodeError, Endpoint, WireRecord};
use vstd::prelude::*;

verus! {

/// The heart-rate rollup of a day: highest, lowest and average rate.
#[derive(Copy, Clone, PartialEq, Eq, Debug)]
pub struct HeartRateDataTodayResponse {
    pub id: CommandId,
    pub sub_id: HeartRateCommandSubId,
    pub date: Date,
    pub hour: u8,
    pub min: u8,
    pub max_heart_rate: u8,
    pub min_heart_rate: u8,
    pub avg_heart_rate: u8,
}

impl HeartRateDataTodayResponse {
    /// Number of bytes a record of this type takes on the wire.
    pub const WIRE_LEN: usize = 11;
}

impl View for HeartRateDataTodayResponse {
    type V = HeartRateDataTodayResponse;

    open spec fn view(&self) -> HeartRateDataTodayResponse {
        *self
    }
}

impl WireRecord for HeartRateDataTodayResponse {
    open spec fn wf(&self) -> bool {
        &&& self.id == CommandId::HeartRate
        &&& self.sub_id == HeartRateCommandSubId::DataToday
    }

    open spec fn wire(&self) -> Seq<u8> {
        seq![self.id.wire_byte(), self.sub_id.wire_byte()]
            + self.date.wire()
            + seq![
                self.hour,
                self.min,
                self.max_heart_rate,
                self.min_heart_rate,
                self.avg_heart_rate,
            ]
    }

    open spec fn tagged(raw: Seq<u8>) -> bool {
        &&& raw.len() >= 2
        &&& raw[0] == CommandId::HeartRate.wire_byte()
        &&& raw[1] == HeartRateCommandSubId::DataToday.wire_byte()
    }

    open spec fn shaped(raw: Seq<u8>) -> bool {
        raw.len() == 11
    }

    fn well_formed(&self) -> (b: bool) {
        self.id == CommandId::HeartRate && self.sub_id == HeartRateCommandSubId::DataToday
    }

    fn encode(&self) -> (bytes: Vec<u8>) {
        let mut bytes: Vec<u8> = Vec::new();
        bytes.push(self.id.to_byte());
        bytes.push(self.sub_id.to_byte());
        self.date.put(&mut bytes);
        bytes.push(self.hour);
        bytes.push(self.min);
        bytes.push(self.max_heart_rate);
        bytes.push(self.min_heart_rate);
        bytes.push(self.avg_heart_rate);
        assert(bytes@ =~= self.wire());
        bytes
    }

    fn decode(raw: &[u8]) -> (r: Result<Self, DecodeError>) {
        if raw.len() < 2 || raw[0] != CommandId::HeartRate.to_byte()
            || raw[1] != HeartRateCommandSubId::DataToday.to_byte() {
            return Err(DecodeError::TypeMismatch);
        }
        if raw.len() != 11 {
            return Err(DecodeError::Malformed);
        }
        let v = HeartRateDataTodayResponse {
            id: CommandId::HeartRate,
            sub_id: HeartRateCommandSubId::DataToday,
            date: Date::get(raw, 2),
            hour: raw[6],
            min: raw[7],
            max_heart_rate: raw[8],
            min_heart_rate: raw[9],
            avg_heart_rate: raw[10],
        };
        proof {
            assert(v.date.wire() == raw@.subrange(2, 6));
            assert(v.wire() =~= raw@);
            v.lemma_wire_accepted();
        }
        Ok(v)
    }

    proof fn lemma_wire_accepted(&self) {
    }

    proof fn lemma_wire_injective(&self, other: &Self) {
        assert(self.date.wire() =~= self.wire().subrange(2, 6));
        assert(other.date.wire() =~= other.wire().subrange(2, 6));
        Date::lemma_wire_injective(self.date, other.date);
        assert(self.hour == self.wire()[6] && other.hour == other.wire()[6]);
        assert(self.min == self.wire()[7] && other.min == other.wire()[7]);
        assert(self.max_heart_rate == self.wire()[8] && other.max_heart_rate == other.wire()[8]);
        assert(self.min_heart_rate == self.wire()[9] && other.min_heart_rate == other.wire()[9]);
        assert(self.avg_heart_rate == self.wire()[10] && other.avg_heart_rate == other.wire()[10]);
    }
}

impl CommandResponse for HeartRateDataTodayResponse {
    open spec fn spec_endpoint() -> Endpoint {
        Endpoint::Data2N
    }

    fn endpoint() -> (e: Endpoint) {
        Endpoint::Data2N
    }
}

/// Ends a run of heart-rate records.
#[derive(Copy, Clone, PartialEq, Eq, Debug)]
pub struct HeartRateDataEndResponse {
    pub id: CommandId,
    pub sub_id: HeartRateCommandSubId,
    pub unk: u8,
}

impl HeartRateDataEndResponse {
    /// Number of bytes a record of this type takes on the wire.
    pub const WIRE_LEN: usize = 3;
}

impl View for HeartRateDataEndResponse {
    type V = HeartRateDataEndResponse;

    open spec fn view(&self) -> HeartRateDataEndResponse {
        *self
    }
}

impl WireRecord for HeartRateDataEndResponse {
    open spec fn wf(&self) -> bool {
        &&& self.id == CommandId::HeartRate
        &&& self.sub_id == HeartRateCommandSubId::DataEnd
    }

    open spec fn wire(&self) -> Seq<u8> {
        seq![self.id.wire_byte(), self.sub_id.wire_byte(), self.unk]
    }

    open spec fn tagged(raw: Seq<u8>) -> bool {
        &&& raw.len() >= 2
        &&& raw[0] == CommandId::HeartRate.wire_byte()
        &&& raw[1] == HeartRateCommandSubId::DataEnd.wire_byte()
    }

    open spec fn shaped(raw: Seq<u8>) -> bool {
        raw.len() == 3
    }

    fn well_formed(&self) -> (b: bool) {
        self.id == CommandId::HeartRate && self.sub_id == HeartRateCommandSubId::DataEnd
    }

    fn encode(&self) -> (bytes: Vec<u8>) {
        let mut bytes: Vec<u8> = Vec::new();
        bytes.push(self.id.to_byte());
        bytes.push(self.sub_id.to_byte());
        bytes.push(self.unk);
        assert(bytes@ =~= self.wire());
        bytes
    }

    fn decode(raw: &[u8]) -> (r: Result<Self, DecodeError>) {
        if raw.len() < 2 || raw[0] != CommandId::HeartRate.to_byte()
            || raw[1] != HeartRateCommandSubId::DataEnd.to_byte() {
            return Err(DecodeError::TypeMismatch);
        }
        if raw.len() != 3 {
            return Err(DecodeError::Malformed);
        }
        let v = HeartRateDataEndResponse {
            id: CommandId::HeartRate,
            sub_id: HeartRateCommandSubId::DataEnd,
            unk: raw[2],
        };
        proof {
            assert(v.wire() =~= raw@);
            v.lemma_wire_accepted();
        }
        Ok(v)
    }

    proof fn lemma_wire_accepted(&self) {
    }

    proof fn lemma_wire_injective(&self, other: &Self) {
        assert(self.unk == self.wire()[2] && other.unk == other.wire()[2]);
    }
}

impl CommandResponse for HeartRateDataEndResponse {
    open spec fn spec_endpoint() -> Endpoint {
        Endpoint::Data2N
    }

    fn endpoint() -> (e: Endpoint) {
        Endpoint::Data2N
    }
}

/// Twelve heart-rate samples, ten minutes apart, starting at the given hour.
#[derive(Copy, Clone, PartialEq, Eq, Debug)]
pub struct HeartRateDataDayHourEntryResponse {
    pub id: CommandId,
    pub date: Date,
    pub hour: u8,
    pub heart_rates: [u8; 12],
}

impl HeartRateDataDayHourEntryResponse {
    /// Number of bytes a record of this type takes on the wire.
    pub const WIRE_LEN: usize = 18;
}

impl View for HeartRateDataDayHourEntryResponse {
    type V = HeartRateDataDayHourEntryResponse;

    open spec fn view(&self) -> HeartRateDataDayHourEntryResponse {
        *self
    }
}

impl WireRecord for HeartRateDataDayHourEntryResponse {
    open spec fn wf(&self) -> bool {
        self.id == CommandId::HeartRate
    }

    open spec fn wire(&self) -> Seq<u8> {
        seq![self.id.wire_byte()] + self.date.wire() + seq![self.hour] + self.heart_rates@
    }

    open spec fn tagged(raw: Seq<u8>) -> bool {
        raw.len() >= 1 && raw[0] == CommandId::HeartRate.wire_byte()
    }

    open spec fn shaped(raw: Seq<u8>) -> bool {
        raw.len() == 18
    }

    fn well_formed(&self) -> (b: bool) {
        self.id == CommandId::HeartRate
    }

    fn encode(&self) -> (bytes: Vec<u8>) {
        let mut bytes: Vec<u8> = Vec::new();
        bytes.push(self.id.to_byte());
        self.date.put(&mut bytes);
        bytes.push(self.hour);
        put_bytes(&mut bytes, self.heart_rates.as_slice());
        assert(bytes@ =~= self.wire());
        bytes
    }

    fn decode(raw: &[u8]) -> (r: Result<Self, DecodeError>) {
        if raw.len() < 1 || raw[0] != CommandId::HeartRate.to_byte() {
            return Err(DecodeError::TypeMismatch);
        }
        if raw.len() != 18 {
            return Err(DecodeError::Malformed);
        }
        let v = HeartRateDataDayHourEntryResponse {
            id: CommandId::HeartRate,
            date: Date::get(raw, 1),
            hour: raw[5],
            heart_rates: get_array(raw, 6),
        };
        proof {
            assert(v.date.wire() == raw@.subrange(1, 5));
            assert(v.heart_rates@ == raw@.subrange(6, 18));
            assert(v.wire() =~= raw@);
            v.lemma_wire_accepted();
        }
        Ok(v)
    }

    proof fn lemma_wire_accepted(&self) {
    }

    proof fn lemma_wire_injective(&self, other: &Self) {
        assert(self.date.wire() =~= self.wire().subrange(1, 5));
        assert(other.date.wire() =~= other.wire().subrange(1, 5));
        Date::lemma_wire_injective(self.date, other.date);
        assert(self.hour == self.wire()[5] && other.hour == other.wire()[5]);
        assert(self.heart_rates@ =~= self.wire().subrange(6, 18));
        assert(other.heart_rates@ =~= other.wire().subrange(6, 18));
        assert(self.heart_rates =~= other.heart_rates);
    }
}

impl CommandResponse for HeartRateDataDayHourEntryResponse {
    open spec fn spec_endpoint() -> Endpoint {
        Endpoint::Data2N
    }

    fn endpoint() -> (e: Endpoint) {
        Endpoint::Data2N
    }
}

/// A single heart-rate sample taken by the periodic measurement.
#[derive(Copy, Clone, PartialEq, Eq, Debug)]
pub struct HeartRateDataPeriodicResponse {
    pub id: CommandId,
    pub sub_id: HeartRateCommandSubId,
    pub date: Date,
    pub hour: u8,
    pub min: u8,
    pub heart_rate: u8,
}

impl HeartRateDataPeriodicResponse {
    /// Number of bytes a record of this type takes on the wire.
    pub const WIRE_LEN: usize = 9;
}

impl View for HeartRateDataPeriodicResponse {
    type V = HeartRateDataPeriodicResponse;

    open spec fn view(&self) -> HeartRateDataPeriodicResponse {
        *self
    }
}

impl WireRecord for HeartRateDataPeriodicResponse {
    open spec fn wf(&self) -> bool {
        &&& self.id == CommandId::HeartRate
        &&& self.sub_id == HeartRateCommandSubId::DataPeriodic
    }

    open spec fn wire(&self) -> Seq<u8> {
        seq![self.id.wire_byte(), self.sub_id.wire_byte()]
            + self.date.wire()
            + seq![self.hour, self.min, self.heart_rate]
    }

    open spec fn tagged(raw: Seq<u8>) -> bool {
        &&& raw.len() >= 2
        &&& raw[0] == CommandId::HeartRate.wire_byte()
        &&& raw[1] == HeartRateCommandSubId::DataPeriodic.wire_byte()
    }

    open spec fn shaped(raw: Seq<u8>) -> bool {
        raw.len() == 9
    }

    fn well_formed(&self) -> (b: bool) {
        self.id == CommandId::HeartRate && self.sub_id == HeartRateCommandSubId::DataPeriodic
    }

    fn encode(&self) -> (bytes: Vec<u8>) {
        let mut bytes: Vec<u8> = Vec::new();
        bytes.push(self.id.to_byte());
        bytes.push(self.sub_id.to_byte());
        self.date.put(&mut bytes);
        bytes.push(self.hour);
        bytes.push(self.min);
        bytes.push(self.heart_rate);
        assert(bytes@ =~= self.wire());
        bytes
    }

    fn decode(raw: &[u8]) -> (r: Result<Self, DecodeError>) {
        if raw.len() < 2 || raw[0] != CommandId::HeartRate.to_byte()
            || raw[1] != HeartRateCommandSubId::DataPeriodic.to_byte() {
            return Err(DecodeError::TypeMismatch);
        }
        if raw.len() != 9 {
            return Err(DecodeError::Malformed);
        }
        let v = HeartRateDataPeriodicResponse {
            id: CommandId::HeartRate,
            sub_id: HeartRateCommandSubId::DataPeriodic,
            date: Date::get(raw, 2),
            hour: raw[6],
            min: raw[7],
            heart_rate: raw[8],
        };
        proof {
            assert(v.date.wire() == raw@.subrange(2, 6));
            assert(v.wire() =~= raw@);
            v.lemma_wire_accepted();
        }
        Ok(v)
    }

    proof fn lemma_wire_accepted(&self) {
    }

    proof fn lemma_wire_injective(&self, other: &Self) {
        assert(self.date.wire() =~= self.wire().subrange(2, 6));
        assert(other.date.wire() =~= other.wire().subrange(2, 6));
        Date::lemma_wire_injective(self.date, other.date);
        assert(self.hour == self.wire()[6] && other.hour == other.wire()[6]);
        assert(self.min == self.wire()[7] && other.min == other.wire()[7]);
        assert(self.heart_rate == self.wire()[8] && other.heart_rate == other.wire()[8]);
    }
}

impl CommandResponse for HeartRateDataPeriodicResponse {
    open spec fn spec_endpoint() -> Endpoint {
        Endpoint::Data2N
    }

    fn endpoint() -> (e: Endpoint) {
        Endpoint::Data2N
    }
}

/// Confirms that the periodic heart-rate measurement is on.
#[derive(Copy, Clone, PartialEq, Eq, Debug)]
pub struct HeartRateEnableResponse {
    pub id: CommandId,
    pub sub_id: HeartRateCommandSubId,
}

impl HeartRateEnableResponse {
    /// Number of bytes a record of this type takes on the wire.
    pub const WIRE_LEN: usize = 2;
}

impl View for HeartRateEnableResponse {
    type V = HeartRateEnableResponse;

    open spec fn view(&self) -> HeartRateEnableResponse {
        *self
    }
}

impl WireRecord for HeartRateEnableResponse {
    open spec fn wf(&self) -> bool {
        &&& self.id == CommandId::HeartRate
        &&& self.sub_id == HeartRateCommandSubId::Enable
    }

    open spec fn wire(&self) -> Seq<u8> {
        seq![self.id.wire_byte(), self.sub_id.wire_byte()]
    }

    open spec fn tagged(raw: Seq<u8>) -> bool {
        &&& raw.len() >= 2
        &&& raw[0] == CommandId::HeartRate.wire_byte()
        &&& raw[1] == HeartRateCommandSubId::Enable.wire_byte()
    }

    open spec fn shaped(raw: Seq<u8>) -> bool {
        raw.len() == 2
    }

    fn well_formed(&self) -> (b: bool) {
        self.id == CommandId::HeartRate && self.sub_id == HeartRateCommandSubId::Enable
    }

    fn encode(&self) -> (bytes: Vec<u8>) {
        let mut bytes: Vec<u8> = Vec::new();
        bytes.push(self.id.to_byte());
        bytes.push(self.sub_id.to_byte());
        assert(bytes@ =~= self.wire());
        bytes
    }

    fn decode(raw: &[u8]) -> (r: Result<Self, DecodeError>) {
        if raw.len() < 2 || raw[0] != CommandId::HeartRate.to_byte()
            || raw[1] != HeartRateCommandSubId::Enable.to_byte() {
            return Err(DecodeError::TypeMismatch);
        }
        if raw.len() != 2 {
            return Err(DecodeError::Malformed);
        }
        let v = HeartRateEnableResponse {
            id: CommandId::HeartRate,
            sub_id: HeartRateCommandSubId::Enable,
        };
        proof {
            assert(v.wire() =~= raw@);
            v.lemma_wire_accepted();
        }
        Ok(v)
    }

    proof fn lemma_wire_accepted(&self) {
    }

    proof fn lemma_wire_injective(&self, other: &Self) {
    }
}

impl CommandResponse for HeartRateEnableResponse {
    open spec fn spec_endpoint() -> Endpoint {
        Endpoint::Data2N
    }

    fn endpoint() -> (e: Endpoint) {
        Endpoint::Data2N
    }
}

/// Confirms that the periodic heart-rate measurement is off.
#[derive(Copy, Clone, PartialEq, Eq, Debug)]
pub struct HeartRateDisableResponse {
    pub id: CommandId,
    pub sub_id: HeartRateCommandSubId,
}

impl HeartRateDisableResponse {
    /// Number of bytes a record of this type takes on the wire.
    pub const WIRE_LEN: usize = 2;
}

impl View for HeartRateDisableResponse {
    type V = HeartRateDisableResponse;

    open spec fn view(&self) -> HeartRateDisableResponse {
        *self
    }
}

impl WireRecord for HeartRateDisableResponse {
    open spec fn wf(&self) -> bool {
        &&& self.id == CommandId::HeartRate
        &&& self.sub_id == HeartRateCommandSubId::Disable
    }

    open spec fn wire(&self) -> Seq<u8> {
        seq![self.id.wire_byte(), self.sub_id.wire_byte()]
    }

    open spec fn tagged(raw: Seq<u8>) -> bool {
        &&& raw.len() >= 2
        &&& raw[0] == CommandId::HeartRate.wire_byte()
        &&& raw[1] == HeartRateCommandSubId::Disable.wire_byte()
    }

    open spec fn shaped(raw: Seq<u8>) -> bool {
        raw.len() == 2
    }

    fn well_formed(&self) -> (b: bool) {
        self.id == CommandId::HeartRate && self.sub_id == HeartRateCommandSubId::Disable
    }

    fn encode(&self) -> (bytes: Vec<u8>) {
        let mut bytes: Vec<u8> = Vec::new();
        bytes.push(self.id.to_byte());
        bytes.push(self.sub_id.to_byte());
        assert(bytes@ =~= self.wire());
        bytes
    }

    fn decode(raw: &[u8]) -> (r: Result<Self, DecodeError>) {
        if raw.len() < 2 || raw[0] != CommandId::HeartRate.to_byte()
            || raw[1] != HeartRateCommandSubId::Disable.to_byte() {
            return Err(DecodeError::TypeMismatch);
        }
        if raw.len() != 2 {
            return Err(DecodeError::Malformed);
        }
        let v = HeartRateDisableResponse {
            id: CommandId::HeartRate,
            sub_id: HeartRateCommandSubId::Disable,
        };
        proof {
            assert(v.wire() =~= raw@);
            v.lemma_wire_accepted();
        }
        Ok(v)
    }

    proof fn lemma_wire_accepted(&self) {
    }

    proof fn lemma_wire_injective(&self, other: &Self) {
    }
}

impl CommandResponse for HeartRateDisableResponse {
    open spec fn spec_endpoint() -> Endpoint {
        Endpoint::Data2N
    }

    fn endpoint() -> (e: Endpoint) {
        Endpoint::Data2N
    }
}

/// Steps taken since the last report.
#[derive(Copy, Clone, PartialEq, Eq, Debug)]
pub struct StepsResponse {
    pub id: CommandId,
    pub date: Date,
    pub hour: u8,
    pub min: u8,
    pub new_step_count: u8,
    pub unk: [u8; 10],
}

impl StepsResponse {
    /// Number of bytes a record of this type takes on the wire.
    pub const WIRE_LEN: usize = 18;
}

impl View for StepsResponse {
    type V = StepsResponse;

    open spec fn view(&self) -> StepsResponse {
        *self
    }
}

impl WireRecord for StepsResponse {
    open spec fn wf(&self) -> bool {
        self.id == CommandId::Steps
    }

    open spec fn wire(&self) -> Seq<u8> {
        seq![self.id.wire_byte()]
            + self.date.wire()
            + seq![self.hour, self.min, self.new_step_count]
            + self.unk@
    }

    open spec fn tagged(raw: Seq<u8>) -> bool {
        raw.len() >= 1 && raw[0] == CommandId::Steps.wire_byte()
    }

    open spec fn shaped(raw: Seq<u8>) -> bool {
        raw.len() == 18
    }

    fn well_formed(&self) -> (b: bool) {
        self.id == CommandId::Steps
    }

    fn encode(&self) -> (bytes: Vec<u8>) {
        let mut bytes: Vec<u8> = Vec::new();
        bytes.push(self.id.to_byte());
        self.date.put(&mut bytes);
        bytes.push(self.hour);
        bytes.push(self.min);
        bytes.push(self.new_step_count);
        put_bytes(&mut bytes, self.unk.as_slice());
        assert(bytes@ =~= self.wire());
        bytes
    }

    fn decode(raw: &[u8]) -> (r: Result<Self, DecodeError>) {
        if raw.len() < 1 || raw[0] != CommandId::Steps.to_byte() {
            return Err(DecodeError::TypeMismatch);
        }
        if raw.len() != 18 {
            return Err(DecodeError::Malformed);
        }
        let v = StepsResponse {
            id: CommandId::Steps,
            date: Date::get(raw, 1),
            hour: raw[5],
            min: raw[6],
            new_step_count: raw[7],
            unk: get_array(raw, 8),
        };
        proof {
            assert(v.date.wire() == raw@.subrange(1, 5));
            assert(v.unk@ == raw@.subrange(8, 18));
            assert(v.wire() =~= raw@);
            v.lemma_wire_accepted();
        }
        Ok(v)
    }

    proof fn lemma_wire_accepted(&self) {
    }

    proof fn lemma_wire_injective(&self, other: &Self) {
        assert(self.date.wire() =~= self.wire().subrange(1, 5));
        assert(other.date.wire() =~= other.wire().subrange(1, 5));
        Date::lemma_wire_injective(self.date, other.date);
        assert(self.hour == self.wire()[5] && other.hour == other.wire()[5]);
        assert(self.min == self.wire()[6] && other.min == other.wire()[6]);
        assert(self.new_step_count == self.wire()[7] && other.new_step_count == other.wire()[7]);
        assert(self.unk@ =~= self.wire().subrange(8, 18));
        assert(other.unk@ =~= other.wire().subrange(8, 18));
        assert(self.unk =~= other.unk);
    }
}

impl CommandResponse for StepsResponse {
    open spec fn spec_endpoint() -> Endpoint {
        Endpoint::Data2N
    }

    fn endpoint() -> (e: Endpoint) {
        Endpoint::Data2N
    }
}

/// A heart-rate sample taken while the heart-rate menu is shown.
#[derive(Copy, Clone, PartialEq, Eq, Debug)]
pub struct HeartRateMenuPeriodicResponse {
    pub id: CommandId,
    pub sub_id: HeartRateMenuCommandSubId,
    pub unk_maybe_pad: u8,
    pub heart_rate: u8,
}

impl HeartRateMenuPeriodicResponse {
    /// Number of bytes a record of this type takes on the wire.
    pub const WIRE_LEN: usize = 4;
}

impl View for HeartRateMenuPeriodicResponse {
    type V = HeartRateMenuPeriodicResponse;

    open spec fn view(&self) -> HeartRateMenuPeriodicResponse {
        *self
    }
}

impl WireRecord for HeartRateMenuPeriodicResponse {
    open spec fn wf(&self) -> bool {
        &&& self.id == CommandId::HeartRateMenuData
        &&& self.sub_id == HeartRateMenuCommandSubId::InMenu
    }

    open spec fn wire(&self) -> Seq<u8> {
        seq![self.id.wire_byte(), self.sub_id.wire_byte(), self.unk_maybe_pad, self.heart_rate]
    }

    open spec fn tagged(raw: Seq<u8>) -> bool {
        &&& raw.len() >= 2
        &&& raw[0] == CommandId::HeartRateMenuData.wire_byte()
        &&& raw[1] == HeartRateMenuCommandSubId::InMenu.wire_byte()
    }

    open spec fn shaped(raw: Seq<u8>) -> bool {
        raw.len() == 4
    }

    fn well_formed(&self) -> (b: bool) {
        self.id == CommandId::HeartRateMenuData && self.sub_id == HeartRateMenuCommandSubId::InMenu
    }

    fn encode(&self) -> (bytes: Vec<u8>) {
        let mut bytes: Vec<u8> = Vec::new();
        bytes.push(self.id.to_byte());
        bytes.push(self.sub_id.to_byte());
        bytes.push(self.unk_maybe_pad);
        bytes.push(self.heart_rate);
        assert(bytes@ =~= self.wire());
        bytes
    }

    fn decode(raw: &[u8]) -> (r: Result<Self, DecodeError>) {
        if raw.len() < 2 || raw[0] != CommandId::HeartRateMenuData.to_byte()
            || raw[1] != HeartRateMenuCommandSubId::InMenu.to_byte() {
            return Err(DecodeError::TypeMismatch);
        }
        if raw.len() != 4 {
            return Err(DecodeError::Malformed);
        }
        let v = HeartRateMenuPeriodicResponse {
            id: CommandId::HeartRateMenuData,
            sub_id: HeartRateMenuCommandSubId::InMenu,
            unk_maybe_pad: raw[2],
            heart_rate: raw[3],
        };
        proof {
            assert(v.wire() =~= raw@);
            v.lemma_wire_accepted();
        }
        Ok(v)
    }

    proof fn lemma_wire_accepted(&self) {
    }

    proof fn lemma_wire_injective(&self, other: &Self) {
        assert(self.unk_maybe_pad == self.wire()[2] && other.unk_maybe_pad == other.wire()[2]);
        assert(self.heart_rate == self.wire()[3] && other.heart_rate == other.wire()[3]);
    }
}

impl CommandResponse for HeartRateMenuPeriodicResponse {
    open spec fn spec_endpoint() -> Endpoint {
        Endpoint::Data2N
    }

    fn endpoint() -> (e: Endpoint) {
        Endpoint::Data2N
    }
}

/// The heart-rate menu was entered.
#[derive(Copy, Clone, PartialEq, Eq, Debug)]
pub struct HeartRateMenuMoveDownResponse {
    pub id: CommandId,
    pub sub_id: HeartRateMenuCommandSubId,
}

impl HeartRateMenuMoveDownResponse {
    /// Number of bytes a record of this type takes on the wire.
    pub const WIRE_LEN: usize = 2;
}

impl View for HeartRateMenuMoveDownResponse {
    type V = HeartRateMenuMoveDownResponse;

    open spec fn view(&self) -> HeartRateMenuMoveDownResponse {
        *self
    }
}

impl WireRecord for HeartRateMenuMoveDownResponse {
    open spec fn wf(&self) -> bool {
        &&& self.id == CommandId::HeartRateMenuData
        &&& self.sub_id == HeartRateMenuCommandSubId::InMenu
    }

    open spec fn wire(&self) -> Seq<u8> {
        seq![self.id.wire_byte(), self.sub_id.wire_byte()]
    }

    open spec fn tagged(raw: Seq<u8>) -> bool {
        &&& raw.len() >= 2
        &&& raw[0] == CommandId::HeartRateMenuData.wire_byte()
        &&& raw[1] == HeartRateMenuCommandSubId::InMenu.wire_byte()
    }

    open spec fn shaped(raw: Seq<u8>) -> bool {
        raw.len() == 2
    }

    fn well_formed(&self) -> (b: bool) {
        self.id == CommandId::HeartRateMenuData && self.sub_id == HeartRateMenuCommandSubId::InMenu
    }

    fn encode(&self) -> (bytes: Vec<u8>) {
        let mut bytes: Vec<u8> = Vec::new();
        bytes.push(self.id.to_byte());
        bytes.push(self.sub_id.to_byte());
        assert(bytes@ =~= self.wire());
        bytes
    }

    fn decode(raw: &[u8]) -> (r: Result<Self, DecodeError>) {
        if raw.len() < 2 || raw[0] != CommandId::HeartRateMenuData.to_byte()
            || raw[1] != HeartRateMenuCommandSubId::InMenu.to_byte() {
            return Err(DecodeError::TypeMismatch);
        }
        if raw.len() != 2 {
            return Err(DecodeError::Malformed);
        }
        let v = HeartRateMenuMoveDownResponse {
            id: CommandId::HeartRateMenuData,
            sub_id: HeartRateMenuCommandSubId::InMenu,
        };
        proof {
            assert(v.wire() =~= raw@);
            v.lemma_wire_accepted();
        }
        Ok(v)
    }

    proof fn lemma_wire_accepted(&self) {
    }

    proof fn lemma_wire_injective(&self, other: &Self) {
    }
}

impl CommandResponse for HeartRateMenuMoveDownResponse {
    open spec fn spec_endpoint() -> Endpoint {
        Endpoint::Data2N
    }

    fn endpoint() -> (e: Endpoint) {
        Endpoint::Data2N
    }
}

/// The heart-rate rollup of a day, under the second heart-rate identifier.
#[derive(Copy, Clone, PartialEq, Eq, Debug)]
pub struct HeartRateDataTodayUnk2Response {
    pub id: CommandId,
    pub sub_id: HeartRateCommandSubId,
    pub date: Date,
    pub hour: u8,
    pub min: u8,
    pub max_heart_rate: u8,
    pub min_heart_rate: u8,
    pub avg_heart_rate: u8,
}

impl HeartRateDataTodayUnk2Response {
    /// Number of bytes a record of this type takes on the wire.
    pub const WIRE_LEN: usize = 11;
}

impl View for HeartRateDataTodayUnk2Response {
    type V = HeartRateDataTodayUnk2Response;

    open spec fn view(&self) -> HeartRateDataTodayUnk2Response {
        *self
    }
}

impl WireRecord for HeartRateDataTodayUnk2Response {
    open spec fn wf(&self) -> bool {
        &&& self.id == CommandId::HeartRateUnk2
        &&& self.sub_id == HeartRateCommandSubId::DataToday
    }

    open spec fn wire(&self) -> Seq<u8> {
        seq![self.id.wire_byte(), self.sub_id.wire_byte()]
            + self.date.wire()
            + seq![
                self.hour,
                self.min,
                self.max_heart_rate,
                self.min_heart_rate,
                self.avg_heart_rate,
            ]
    }

    open spec fn tagged(raw: Seq<u8>) -> bool {
        &&& raw.len() >= 2
        &&& raw[0] == CommandId::HeartRateUnk2.wire_byte()
        &&& raw[1] == HeartRateCommandSubId::DataToday.wire_byte()
    }

    open spec fn shaped(raw: Seq<u8>) -> bool {
        raw.len() == 11
    }

    fn well_formed(&self) -> (b: bool) {
        self.id == CommandId::HeartRateUnk2 && self.sub_id == HeartRateCommandSubId::DataToday
    }

    fn encode(&self) -> (bytes: Vec<u8>) {
        let mut bytes: Vec<u8> = Vec::new();
        bytes.push(self.id.to_byte());
        bytes.push(self.sub_id.to_byte());
        self.date.put(&mut bytes);
        bytes.push(self.hour);
        bytes.push(self.min);
        bytes.push(self.max_heart_rate);
        bytes.push(self.min_heart_rate);
        bytes.push(self.avg_heart_rate);
        assert(bytes@ =~= self.wire());
        bytes
    }

    fn decode(raw: &[u8]) -> (r: Result<Self, DecodeError>) {
        if raw.len() < 2 || raw[0] != CommandId::HeartRateUnk2.to_byte()
            || raw[1] != HeartRateCommandSubId::DataToday.to_byte() {
            return Err(DecodeError::TypeMismatch);
        }
        if raw.len() != 11 {
            return Err(DecodeError::Malformed);
        }
        let v = HeartRateDataTodayUnk2Response {
            id: CommandId::HeartRateUnk2,
            sub_id: HeartRateCommandSubId::DataToday,
            date: Date::get(raw, 2),
            hour: raw[6],
            min: raw[7],
            max_heart_rate: raw[8],
            min_heart_rate: raw[9],
            avg_heart_rate: raw[10],
        };
        proof {
            assert(v.date.wire() == raw@.subrange(2, 6));
            assert(v.wire() =~= raw@);
            v.lemma_wire_accepted();
        }
        Ok(v)
    }

    proof fn lemma_wire_accepted(&self) {
    }

    proof fn lemma_wire_injective(&self, other: &Self) {
        assert(self.date.wire() =~= self.wire().subrange(2, 6));
        assert(other.date.wire() =~= other.wire().subrange(2, 6));
        Date::lemma_wire_injective(self.date, other.date);
        assert(self.hour == self.wire()[6] && other.hour == other.wire()[6]);
        assert(self.min == self.wire()[7] && other.min == other.wire()[7]);
        assert(self.max_heart_rate == self.wire()[8] && other.max_heart_rate == other.wire()[8]);
        assert(self.min_heart_rate == self.wire()[9] && other.min_heart_rate == other.wire()[9]);
        assert(self.avg_heart_rate == self.wire()[10] && other.avg_heart_rate == other.wire()[10]);
    }
}

impl CommandResponse for HeartRateDataTodayUnk2Response {
    open spec fn spec_endpoint() -> Endpoint {
        Endpoint::Data2N
    }

    fn endpoint() -> (e: Endpoint) {
        Endpoint::Data2N
    }
}

/// One hour of steps, under the second steps identifier.
#[derive(Copy, Clone, PartialEq, Eq, Debug)]
pub struct StepsUnk2Response {
    pub id: CommandId,
    pub entry: StepsEntry,
}

impl StepsUnk2Response {
    /// Number of bytes a record of this type takes on the wire.
    pub const WIRE_LEN: usize = 18;
}

impl View for StepsUnk2Response {
    type V = StepsUnk2Response;

    open spec fn view(&self) -> StepsUnk2Response {
        *self
    }
}

impl WireRecord for StepsUnk2Response {
    open spec fn wf(&self) -> bool {
        self.id == CommandId::StepsUnk2
    }

    open spec fn wire(&self) -> Seq<u8> {
        seq![self.id.wire_byte()] + self.entry.wire()
    }

    open spec fn tagged(raw: Seq<u8>) -> bool {
        raw.len() >= 1 && raw[0] == CommandId::StepsUnk2.wire_byte()
    }

    open spec fn shaped(raw: Seq<u8>) -> bool {
        raw.len() == 18
    }

    fn well_formed(&self) -> (b: bool) {
        self.id == CommandId::StepsUnk2
    }

    fn encode(&self) -> (bytes: Vec<u8>) {
        let mut bytes: Vec<u8> = Vec::new();
        bytes.push(self.id.to_byte());
        self.entry.put(&mut bytes);
        assert(bytes@ =~= self.wire());
        bytes
    }

    fn decode(raw: &[u8]) -> (r: Result<Self, DecodeError>) {
        if raw.len() < 1 || raw[0] != CommandId::StepsUnk2.to_byte() {
            return Err(DecodeError::TypeMismatch);
        }
        if raw.len() != 18 {
            return Err(DecodeError::Malformed);
        }
        let v = StepsUnk2Response {
            id: CommandId::StepsUnk2,
            entry: StepsEntry::get(raw, 1),
        };
        proof {
            assert(v.entry.wire() == raw@.subrange(1, 18));
            assert(v.wire() =~= raw@);
            v.lemma_wire_accepted();
        }
        Ok(v)
    }

    proof fn lemma_wire_accepted(&self) {
    }

    proof fn lemma_wire_injective(&self, other: &Self) {
        assert(self.entry.wire() =~= self.wire().subrange(1, 18));
        assert(other.entry.wire() =~= other.wire().subrange(1, 18));
        StepsEntry::lemma_wire_injective(self.entry, other.entry);
    }
}

impl CommandResponse for StepsUnk2Response {
    open spec fn spec_endpoint() -> Endpoint {
        Endpoint::Data2N
    }

    fn endpoint() -> (e: Endpoint) {
        Endpoint::Data2N
    }
}

/// A single heart-rate sample, under the second heart-rate identifier.
#[derive(Copy, Clone, PartialEq, Eq, Debug)]
pub struct HeartRateDataPeriodicUnk2Response {
    pub id: CommandId,
    pub sub_id: HeartRateCommandSubId,
    pub date: Date,
    pub hour: u8,
    pub min: u8,
    pub heart_rate: u8,
}

impl HeartRateDataPeriodicUnk2Response {
    /// Number of bytes a record of this type takes on the wire.
    pub const WIRE_LEN: usize = 9;
}

impl View for HeartRateDataPeriodicUnk2Response {
    type V = HeartRateDataPeriodicUnk2Response;

    open spec fn view(&self) -> HeartRateDataPeriodicUnk2Response {
        *self
    }
}

impl WireRecord for HeartRateDataPeriodicUnk2Response {
    open spec fn wf(&self) -> bool {
        &&& self.id == CommandId::HeartRateUnk2
        &&& self.sub_id == HeartRateCommandSubId::DataPeriodic
    }

    open spec fn wire(&self) -> Seq<u8> {
        seq![self.id.wire_byte(), self.sub_id.wire_byte()]
            + self.date.wire()
            + seq![self.hour, self.min, self.heart_rate]
    }

    open spec fn tagged(raw: Seq<u8>) -> bool {
        &&& raw.len() >= 2
        &&& raw[0] == CommandId::HeartRateUnk2.wire_byte()
        &&& raw[1] == HeartRateCommandSubId::DataPeriodic.wire_byte()
    }

    open spec fn shaped(raw: Seq<u8>) -> bool {
        raw.len() == 9
    }

    fn well_formed(&self) -> (b: bool) {
        self.id == CommandId::HeartRateUnk2 && self.sub_id == HeartRateCommandSubId::DataPeriodic
    }

    fn encode(&self) -> (bytes: Vec<u8>) {
        let mut bytes: Vec<u8> = Vec::new();
        bytes.push(self.id.to_byte());
        bytes.push(self.sub_id.to_byte());
        self.date.put(&mut bytes);
        bytes.push(self.hour);
        bytes.push(self.min);
        bytes.push(self.heart_rate);
        assert(bytes@ =~= self.wire());
        bytes
    }

    fn decode(raw: &[u8]) -> (r: Result<Self, DecodeError>) {
        if raw.len() < 2 || raw[0] != CommandId::HeartRateUnk2.to_byte()
            || raw[1] != HeartRateCommandSubId::DataPeriodic.to_byte() {
            return Err(DecodeError::TypeMismatch);
        }
        if raw.len() != 9 {
            return Err(DecodeError::Malformed);
        }
        let v = HeartRateDataPeriodicUnk2Response {
            id: CommandId::HeartRateUnk2,
            sub_id: HeartRateCommandSubId::DataPeriodic,
            date: Date::get(raw, 2),
            hour: raw[6],
            min: raw[7],
            heart_rate: raw[8],
        };
        proof {
            assert(v.date.wire() == raw@.subrange(2, 6));
            assert(v.wire() =~= raw@);
            v.lemma_wire_accepted();
        }
        Ok(v)
    }

    proof fn lemma_wire_accepted(&self) {
    }

    proof fn lemma_wire_injective(&self, other: &Self) {
        assert(self.date.wire() =~= self.wire().subrange(2, 6));
        assert(other.date.wire() =~= other.wire().subrange(2, 6));
        Date::lemma_wire_injective(self.date, other.date);
        assert(self.hour == self.wire()[6] && other.hour == other.wire()[6]);
        assert(self.min == self.wire()[7] && other.min == other.wire()[7]);
        assert(self.heart_rate == self.wire()[8] && other.heart_rate == other.wire()[8]);
    }
}

impl CommandResponse for HeartRateDataPeriodicUnk2Response {
    open spec fn spec_endpoint() -> Endpoint {
        Endpoint::Data2N
    }

    fn endpoint() -> (e: Endpoint) {
        Endpoint::Data2N
    }
}

/// A button or gesture event on the watch, as sent on the data service.
#[derive(Copy, Clone, PartialEq, Eq, Debug)]
pub struct DevicePulseUnk2Response {
    pub id: CommandId,
    pub pulse_type: DevicePulseType,
}

impl DevicePulseUnk2Response {
    /// Number of bytes a record of this type takes on the wire.
    pub const WIRE_LEN: usize = 2;
}

impl View for DevicePulseUnk2Response {
    type V = DevicePulseUnk2Response;

    open spec fn view(&self) -> DevicePulseUnk2Response {
        *self
    }
}

impl WireRecord for DevicePulseUnk2Response {
    open spec fn wf(&self) -> bool {
        self.id == CommandId::DevicePulseUnk2
    }

    open spec fn wire(&self) -> Seq<u8> {
        seq![self.id.wire_byte(), self.pulse_type.wire_byte()]
    }

    open spec fn tagged(raw: Seq<u8>) -> bool {
        raw.len() >= 1 && raw[0] == CommandId::DevicePulseUnk2.wire_byte()
    }

    open spec fn shaped(raw: Seq<u8>) -> bool {
        &&& raw.len() == 2
        &&& DevicePulseType::of_wire_byte(raw[1]) is Some
    }

    fn well_formed(&self) -> (b: bool) {
        self.id == CommandId::DevicePulseUnk2
    }

    fn encode(&self) -> (bytes: Vec<u8>) {
        let mut bytes: Vec<u8> = Vec::new();
        bytes.push(self.id.to_byte());
        bytes.push(self.pulse_type.to_byte());
        assert(bytes@ =~= self.wire());
        bytes
    }

    fn decode(raw: &[u8]) -> (r: Result<Self, DecodeError>) {
        if raw.len() < 1 || raw[0] != CommandId::DevicePulseUnk2.to_byte() {
            return Err(DecodeError::TypeMismatch);
        }
        if raw.len() != 2 {
            return Err(DecodeError::Malformed);
        }
        let pulse_type = match DevicePulseType::from_byte(raw[1]) {
            Some(v) => v,
            None => return Err(DecodeError::Malformed),
        };
        let v = DevicePulseUnk2Response {
            id: CommandId::DevicePulseUnk2,
            pulse_type,
        };
        proof {
            DevicePulseType::lemma_wire_byte_inverse(pulse_type, raw[1]);
            assert(v.wire() =~= raw@);
            v.lemma_wire_accepted();
        }
        Ok(v)
    }

    proof fn lemma_wire_accepted(&self) {
        assert(self.wire()[1] == self.pulse_type.wire_byte());
        DevicePulseType::lemma_wire_byte_inverse(self.pulse_type, self.pulse_type.wire_byte());
    }

    proof fn lemma_wire_injective(&self, other: &Self) {
        assert(self.pulse_type.wire_byte() == self.wire()[1]);
        assert(other.pulse_type.wire_byte() == other.wire()[1]);
        DevicePulseType::lemma_wire_byte_inverse(self.pulse_type, self.wire()[1]);
        DevicePulseType::lemma_wire_byte_inverse(other.pulse_type, self.wire()[1]);
    }
}

impl CommandResponse for DevicePulseUnk2Response {
    open spec fn spec_endpoint() -> Endpoint {
        Endpoint::Data2N
    }

    fn endpoint() -> (e: Endpoint) {
        Endpoint::Data2N
    }
}

/// One hour of recorded steps, as sent on the data service.
#[derive(Copy, Clone, PartialEq, Eq, Debug)]
pub struct RecordedStepsEntryResponse {
    pub id: CommandId,
    pub entry: StepsEntry,
}

impl RecordedStepsEntryResponse {
    /// Number of bytes a record of this type takes on the wire.
    pub const WIRE_LEN: usize = 18;
}

impl View for RecordedStepsEntryResponse {
    type V = RecordedStepsEntryResponse;

    open spec fn view(&self) -> RecordedStepsEntryResponse {
        *self
    }
}

impl WireRecord for RecordedStepsEntryResponse {
    open spec fn wf(&self) -> bool {
        self.id == CommandId::RecordedStepsData2
    }

    open spec fn wire(&self) -> Seq<u8> {
        seq![self.id.wire_byte()] + self.entry.wire()
    }

    open spec fn tagged(raw: Seq<u8>) -> bool {
        raw.len() >= 1 && raw[0] == CommandId::RecordedStepsData2.wire_byte()
    }

    open spec fn shaped(raw: Seq<u8>) -> bool {
        raw.len() == 18
    }

    fn well_formed(&self) -> (b: bool) {
        self.id == CommandId::RecordedStepsData2
    }

    fn encode(&self) -> (bytes: Vec<u8>) {
        let mut bytes: Vec<u8> = Vec::new();
        bytes.push(self.id.to_byte());
        self.entry.put(&mut bytes);
        assert(bytes@ =~= self.wire());
        bytes
    }

    fn decode(raw: &[u8]) -> (r: Result<Self, DecodeError>) {
        if raw.len() < 1 || raw[0] != CommandId::RecordedStepsData2.to_byte() {
            return Err(DecodeError::TypeMismatch);
        }
        if raw.len() != 18 {
            return Err(DecodeError::Malformed);
        }
        let v = RecordedStepsEntryResponse {
            id: CommandId::RecordedStepsData2,
            entry: StepsEntry::get(raw, 1),
        };
        proof {
            assert(v.entry.wire() == raw@.subrange(1, 18));
            assert(v.wire() =~= raw@);
            v.lemma_wire_accepted();
        }
        Ok(v)
    }

    proof fn lemma_wire_accepted(&self) {
    }

    proof fn lemma_wire_injective(&self, other: &Self) {
        assert(self.entry.wire() =~= self.wire().subrange(1, 18));
        assert(other.entry.wire() =~= other.wire().subrange(1, 18));
        StepsEntry::lemma_wire_injective(self.entry, other.entry);
    }
}

impl CommandResponse for RecordedStepsEntryResponse {
    open spec fn spec_endpoint() -> Endpoint {
        Endpoint::Data2N
    }

    fn endpoint() -> (e: Endpoint) {
        Endpoint::Data2N
    }
}

/// Ends a run of recorded-steps entries on the data service.
#[derive(Copy, Clone, PartialEq, Eq, Debug)]
pub struct RecordedStepsEndResponse {
    pub id: CommandId,
    pub sub_id: RecordedStepsCommandSubId,
    pub unk: u8,
}

impl RecordedStepsEndResponse {
    /// Number of bytes a record of this type takes on the wire.
    pub const WIRE_LEN: usize = 3;
}

impl View for RecordedStepsEndResponse {
    type V = RecordedStepsEndResponse;

    open spec fn view(&self) -> RecordedStepsEndResponse {
        *self
    }
}

impl WireRecord for RecordedStepsEndResponse {
    open spec fn wf(&self) -> bool {
        &&& self.id == CommandId::RecordedStepsData2
        &&& self.sub_id == RecordedStepsCommandSubId::End
    }

    open spec fn wire(&self) -> Seq<u8> {
        seq![self.id.wire_byte(), self.sub_id.wire_byte(), self.unk]
    }

    open spec fn tagged(raw: Seq<u8>) -> bool {
        &&& raw.len() >= 2
        &&& raw[0] == CommandId::RecordedStepsData2.wire_byte()
        &&& raw[1] == RecordedStepsCommandSubId::End.wire_byte()
    }

    open spec fn shaped(raw: Seq<u8>) -> bool {
        raw.len() == 3
    }

    fn well_formed(&self) -> (b: bool) {
        self.id == CommandId::RecordedStepsData2 && self.sub_id == RecordedStepsCommandSubId::End
    }

    fn encode(&self) -> (bytes: Vec<u8>) {
        let mut bytes: Vec<u8> = Vec::new();
        bytes.push(self.id.to_byte());
        bytes.push(self.sub_id.to_byte());
        bytes.push(self.unk);
        assert(bytes@ =~= self.wire());
        bytes
    }

    fn decode(raw: &[u8]) -> (r: Result<Self, DecodeError>) {
        if raw.len() < 2 || raw[0] != CommandId::RecordedStepsData2.to_byte()
            || raw[1] != RecordedStepsCommandSubId::End.to_byte() {
            return Err(DecodeError::TypeMismatch);
        }
        if raw.len() != 3 {
            return Err(DecodeError::Malformed);
        }
        let v = RecordedStepsEndResponse {
            id: CommandId::RecordedStepsData2,
            sub_id: RecordedStepsCommandSubId::End,
            unk: raw[2],
        };
        proof {
            assert(v.wire() =~= raw@);
            v.lemma_wire_accepted();
        }
        Ok(v)
    }

    proof fn lemma_wire_accepted(&self) {
    }

    proof fn lemma_wire_injective(&self, other: &Self) {
        assert(self.unk == self.wire()[2] && other.unk == other.wire()[2]);
    }
}

impl CommandResponse for RecordedStepsEndResponse {
    open spec fn spec_endpoint() -> Endpoint {
        Endpoint::Data2N
    }

    fn endpoint() -> (e: Endpoint) {
        Endpoint::Data2N
    }
}

} // verus!
