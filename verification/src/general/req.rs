//! Commands written to the general service.

use crate::common::{
    AlertType, CommandId, Date, DistanceUnit, PairCommandSubId, PairKey, RecordedStepsCommandSubId,
    ResetCommandSubId, TimeFormat, UserGender, UserLiftWristMode, WeatherDate, WeatherType,
};
use crate::wire::{
    be16, be16_run, get_array, get_be16, get_be16_run, lemma_be16_injective,
    lemma_be16_run_injective, put_be16, put_be16_run, put_bytes,
};
use crate::{CommandRequest, DecodeError, Endpoint, MAX_WRITE_SIZE, WireRecord, WriteType};
use vstd::prelude::*;

verus! {

/// Pairs the watch with the given key.
#[derive(Copy, Clone, PartialEq, Eq, Debug)]
pub struct PairRequest {
    pub id: CommandId,
    pub sub_id: PairCommandSubId,
    pub pair_key: PairKey,
}

impl PairRequest {
    /// Number of bytes a record of this type takes on the wire.
    pub const WIRE_LEN: usize = 6;

    pub fn new(pair_key: PairKey) -> (req: Self)
        ensures
            req.wf(),
            req == (PairRequest { id: CommandId::Pair, sub_id: PairCommandSubId::Pair, pair_key }),
    {
        PairRequest { id: CommandId::Pair, sub_id: PairCommandSubId::Pair, pair_key }
    }
}

impl View for PairRequest {
    type V = PairRequest;

    open spec fn view(&self) -> PairRequest {
        *self
    }
}

impl WireRecord for PairRequest {
    open spec fn wf(&self) -> bool {
        &&& self.id == CommandId::Pair
        &&& self.sub_id == PairCommandSubId::Pair
    }

    open spec fn wire(&self) -> Seq<u8> {
        seq![self.id.wire_byte(), self.sub_id.wire_byte()] + self.pair_key@
    }

    open spec fn tagged(raw: Seq<u8>) -> bool {
        &&& raw.len() >= 2
        &&& raw[0] == CommandId::Pair.wire_byte()
        &&& raw[1] == PairCommandSubId::Pair.wire_byte()
    }

    open spec fn shaped(raw: Seq<u8>) -> bool {
        raw.len() == 6
    }

    fn well_formed(&self) -> (b: bool) {
        self.id == CommandId::Pair && self.sub_id == PairCommandSubId::Pair
    }

    fn encode(&self) -> (bytes: Vec<u8>) {
        let mut bytes: Vec<u8> = Vec::new();
        bytes.push(self.id.to_byte());
        bytes.push(self.sub_id.to_byte());
        put_bytes(&mut bytes, self.pair_key.as_slice());
        assert(bytes@ =~= self.wire());
        bytes
    }

    fn decode(raw: &[u8]) -> (r: Result<Self, DecodeError>) {
        if raw.len() < 2 || raw[0] != CommandId::Pair.to_byte()
            || raw[1] != PairCommandSubId::Pair.to_byte() {
            return Err(DecodeError::TypeMismatch);
        }
        if raw.len() != 6 {
            return Err(DecodeError::Malformed);
        }
        let v = PairRequest {
            id: CommandId::Pair,
            sub_id: PairCommandSubId::Pair,
            pair_key: get_array(raw, 2),
        };
        proof {
            assert(v.pair_key@ == raw@.subrange(2, 6));
            assert(v.wire() =~= raw@);
            v.lemma_wire_accepted();
        }
        Ok(v)
    }

    proof fn lemma_wire_accepted(&self) {
    }

    proof fn lemma_wire_injective(&self, other: &Self) {
        assert(self.pair_key@ =~= self.wire().subrange(2, 6));
        assert(other.pair_key@ =~= other.wire().subrange(2, 6));
        assert(self.pair_key =~= other.pair_key);
    }
}

impl CommandRequest for PairRequest {
    open spec fn spec_write_type() -> WriteType {
        WriteType::WithResponse
    }

    open spec fn spec_endpoint() -> Endpoint {
        Endpoint::GeneralRw1
    }

    fn write_type() -> (w: WriteType) {
        WriteType::WithResponse
    }

    fn endpoint() -> (e: Endpoint) {
        Endpoint::GeneralRw1
    }
}

/// Asks for the key the watch is paired with.
#[derive(Copy, Clone, PartialEq, Eq, Debug)]
pub struct PairKeyRequest {
    pub id: CommandId,
    pub sub_id: PairCommandSubId,
}

impl PairKeyRequest {
    /// Number of bytes a record of this type takes on the wire.
    pub const WIRE_LEN: usize = 2;

    pub fn new() -> (req: Self)
        ensures
            req.wf(),
            req == (PairKeyRequest {
                id: CommandId::Pair,
                sub_id: PairCommandSubId::CurrentPairKey,
            }),
    {
        PairKeyRequest { id: CommandId::Pair, sub_id: PairCommandSubId::CurrentPairKey }
    }
}

impl View for PairKeyRequest {
    type V = PairKeyRequest;

    open spec fn view(&self) -> PairKeyRequest {
        *self
    }
}

impl WireRecord for PairKeyRequest {
    open spec fn wf(&self) -> bool {
        &&& self.id == CommandId::Pair
        &&& self.sub_id == PairCommandSubId::CurrentPairKey
    }

    open spec fn wire(&self) -> Seq<u8> {
        seq![self.id.wire_byte(), self.sub_id.wire_byte()]
    }

    open spec fn tagged(raw: Seq<u8>) -> bool {
        &&& raw.len() >= 2
        &&& raw[0] == CommandId::Pair.wire_byte()
        &&& raw[1] == PairCommandSubId::CurrentPairKey.wire_byte()
    }

    open spec fn shaped(raw: Seq<u8>) -> bool {
        raw.len() == 2
    }

    fn well_formed(&self) -> (b: bool) {
        self.id == CommandId::Pair && self.sub_id == PairCommandSubId::CurrentPairKey
    }

    fn encode(&self) -> (bytes: Vec<u8>) {
        let mut bytes: Vec<u8> = Vec::new();
        bytes.push(self.id.to_byte());
        bytes.push(self.sub_id.to_byte());
        assert(bytes@ =~= self.wire());
        bytes
    }

    fn decode(raw: &[u8]) -> (r: Result<Self, DecodeError>) {
        if raw.len() < 2 || raw[0] != CommandId::Pair.to_byte()
            || raw[1] != PairCommandSubId::CurrentPairKey.to_byte() {
            return Err(DecodeError::TypeMismatch);
        }
        if raw.len() != 2 {
            return Err(DecodeError::Malformed);
        }
        let v = PairKeyRequest {
            id: CommandId::Pair,
            sub_id: PairCommandSubId::CurrentPairKey,
        };
        proof {
            assert(v.wire() =~= raw@);
            v.lemma_wire_accepted();
        }
        Ok(v)
    }

    proof fn lemma_wire_accepted(&self) {
    }

    proof fn lemma_wire_injective(&self, other: &Self) {
    }
}

impl CommandRequest for PairKeyRequest {
    open spec fn spec_write_type() -> WriteType {
        WriteType::WithResponse
    }

    open spec fn spec_endpoint() -> Endpoint {
        Endpoint::GeneralRw1
    }

    fn write_type() -> (w: WriteType) {
        WriteType::WithResponse
    }

    fn endpoint() -> (e: Endpoint) {
        Endpoint::GeneralRw1
    }
}

/// Asks for the battery charge.
#[derive(Copy, Clone, PartialEq, Eq, Debug)]
pub struct BatteryRequest {
    pub id: CommandId,
}

impl BatteryRequest {
    /// Number of bytes a record of this type takes on the wire.
    pub const WIRE_LEN: usize = 1;

    pub fn new() -> (req: Self)
        ensures
            req.wf(),
            req == (BatteryRequest { id: CommandId::Battery }),
    {
        BatteryRequest { id: CommandId::Battery }
    }
}

impl View for BatteryRequest {
    type V = BatteryRequest;

    open spec fn view(&self) -> BatteryRequest {
        *self
    }
}

impl WireRecord for BatteryRequest {
    open spec fn wf(&self) -> bool {
        self.id == CommandId::Battery
    }

    open spec fn wire(&self) -> Seq<u8> {
        seq![self.id.wire_byte()]
    }

    open spec fn tagged(raw: Seq<u8>) -> bool {
        raw.len() >= 1 && raw[0] == CommandId::Battery.wire_byte()
    }

    open spec fn shaped(raw: Seq<u8>) -> bool {
        raw.len() == 1
    }

    fn well_formed(&self) -> (b: bool) {
        self.id == CommandId::Battery
    }

    fn encode(&self) -> (bytes: Vec<u8>) {
        let mut bytes: Vec<u8> = Vec::new();
        bytes.push(self.id.to_byte());
        assert(bytes@ =~= self.wire());
        bytes
    }

    fn decode(raw: &[u8]) -> (r: Result<Self, DecodeError>) {
        if raw.len() < 1 || raw[0] != CommandId::Battery.to_byte() {
            return Err(DecodeError::TypeMismatch);
        }
        if raw.len() != 1 {
            return Err(DecodeError::Malformed);
        }
        let v = BatteryRequest {
            id: CommandId::Battery,
        };
        proof {
            assert(v.wire() =~= raw@);
            v.lemma_wire_accepted();
        }
        Ok(v)
    }

    proof fn lemma_wire_accepted(&self) {
    }

    proof fn lemma_wire_injective(&self, other: &Self) {
    }
}

impl CommandRequest for BatteryRequest {
    open spec fn spec_write_type() -> WriteType {
        WriteType::WithResponse
    }

    open spec fn spec_endpoint() -> Endpoint {
        Endpoint::GeneralRw1
    }

    fn write_type() -> (w: WriteType) {
        WriteType::WithResponse
    }

    fn endpoint() -> (e: Endpoint) {
        Endpoint::GeneralRw1
    }
}

/// Sets the clock of the watch.
#[derive(Copy, Clone, PartialEq, Eq, Debug)]
pub struct SetDateTimeRequest {
    pub id: CommandId,
    pub date: Date,
    pub hour: u8,
    pub min: u8,
    pub sec: u8,
}

impl SetDateTimeRequest {
    /// Number of bytes a record of this type takes on the wire.
    pub const WIRE_LEN: usize = 8;

    pub fn new(date: Date, hour: u8, min: u8, sec: u8) -> (req: Self)
        ensures
            req.wf(),
            req == (SetDateTimeRequest { id: CommandId::DateTime, date, hour, min, sec }),
    {
        SetDateTimeRequest { id: CommandId::DateTime, date, hour, min, sec }
    }
}

impl View for SetDateTimeRequest {
    type V = SetDateTimeRequest;

    open spec fn view(&self) -> SetDateTimeRequest {
        *self
    }
}

impl WireRecord for SetDateTimeRequest {
    open spec fn wf(&self) -> bool {
        self.id == CommandId::DateTime
    }

    open spec fn wire(&self) -> Seq<u8> {
        seq![self.id.wire_byte()] + self.date.wire() + seq![self.hour, self.min, self.sec]
    }

    open spec fn tagged(raw: Seq<u8>) -> bool {
        raw.len() >= 1 && raw[0] == CommandId::DateTime.wire_byte()
    }

    open spec fn shaped(raw: Seq<u8>) -> bool {
        raw.len() == 8
    }

    fn well_formed(&self) -> (b: bool) {
        self.id == CommandId::DateTime
    }

    fn encode(&self) -> (bytes: Vec<u8>) {
        let mut bytes: Vec<u8> = Vec::new();
        bytes.push(self.id.to_byte());
        self.date.put(&mut bytes);
        bytes.push(self.hour);
        bytes.push(self.min);
        bytes.push(self.sec);
        assert(bytes@ =~= self.wire());
        bytes
    }

    fn decode(raw: &[u8]) -> (r: Result<Self, DecodeError>) {
        if raw.len() < 1 || raw[0] != CommandId::DateTime.to_byte() {
            return Err(DecodeError::TypeMismatch);
        }
        if raw.len() != 8 {
            return Err(DecodeError::Malformed);
        }
        let v = SetDateTimeRequest {
            id: CommandId::DateTime,
            date: Date::get(raw, 1),
            hour: raw[5],
            min: raw[6],
            sec: raw[7],
        };
        proof {
            assert(v.date.wire() == raw@.subrange(1, 5));
            assert(v.wire() =~= raw@);
            v.lemma_wire_accepted();
        }
        Ok(v)
    }

    proof fn lemma_wire_accepted(&self) {
    }

    proof fn lemma_wire_injective(&self, other: &Self) {
        assert(self.date.wire() =~= self.wire().subrange(1, 5));
        assert(other.date.wire() =~= other.wire().subrange(1, 5));
        Date::lemma_wire_injective(self.date, other.date);
        assert(self.hour == self.wire()[5] && other.hour == other.wire()[5]);
        assert(self.min == self.wire()[6] && other.min == other.wire()[6]);
        assert(self.sec == self.wire()[7] && other.sec == other.wire()[7]);
    }
}

impl CommandRequest for SetDateTimeRequest {
    open spec fn spec_write_type() -> WriteType {
        WriteType::WithResponse
    }

    open spec fn spec_endpoint() -> Endpoint {
        Endpoint::GeneralRw1
    }

    fn write_type() -> (w: WriteType) {
        WriteType::WithResponse
    }

    fn endpoint() -> (e: Endpoint) {
        Endpoint::GeneralRw1
    }
}

/// Asks for the name of the firmware.
#[derive(Copy, Clone, PartialEq, Eq, Debug)]
pub struct FirmwareRequest {
    pub id: CommandId,
}

impl FirmwareRequest {
    /// Number of bytes a record of this type takes on the wire.
    pub const WIRE_LEN: usize = 1;

    pub fn new() -> (req: Self)
        ensures
            req.wf(),
            req == (FirmwareRequest { id: CommandId::Firmware }),
    {
        FirmwareRequest { id: CommandId::Firmware }
    }
}

impl View for FirmwareRequest {
    type V = FirmwareRequest;

    open spec fn view(&self) -> FirmwareRequest {
        *self
    }
}

impl WireRecord for FirmwareRequest {
    open spec fn wf(&self) -> bool {
        self.id == CommandId::Firmware
    }

    open spec fn wire(&self) -> Seq<u8> {
        seq![self.id.wire_byte()]
    }

    open spec fn tagged(raw: Seq<u8>) -> bool {
        raw.len() >= 1 && raw[0] == CommandId::Firmware.wire_byte()
    }

    open spec fn shaped(raw: Seq<u8>) -> bool {
        raw.len() == 1
    }

    fn well_formed(&self) -> (b: bool) {
        self.id == CommandId::Firmware
    }

    fn encode(&self) -> (bytes: Vec<u8>) {
        let mut bytes: Vec<u8> = Vec::new();
        bytes.push(self.id.to_byte());
        assert(bytes@ =~= self.wire());
        bytes
    }

    fn decode(raw: &[u8]) -> (r: Result<Self, DecodeError>) {
        if raw.len() < 1 || raw[0] != CommandId::Firmware.to_byte() {
            return Err(DecodeError::TypeMismatch);
        }
        if raw.len() != 1 {
            return Err(DecodeError::Malformed);
        }
        let v = FirmwareRequest {
            id: CommandId::Firmware,
        };
        proof {
            assert(v.wire() =~= raw@);
            v.lemma_wire_accepted();
        }
        Ok(v)
    }

    proof fn lemma_wire_accepted(&self) {
    }

    proof fn lemma_wire_injective(&self, other: &Self) {
    }
}

impl CommandRequest for FirmwareRequest {
    open spec fn spec_write_type() -> WriteType {
        WriteType::WithResponse
    }

    open spec fn spec_endpoint() -> Endpoint {
        Endpoint::GeneralRw1
    }

    fn write_type() -> (w: WriteType) {
        WriteType::WithResponse
    }

    fn endpoint() -> (e: Endpoint) {
        Endpoint::GeneralRw1
    }
}

/// Resets the watch, which then reboots or powers off.
#[derive(Copy, Clone, PartialEq, Eq, Debug)]
pub struct ResetRequest {
    pub id: CommandId,
    pub sub_id: ResetCommandSubId,
}

impl ResetRequest {
    /// Number of bytes a record of this type takes on the wire.
    pub const WIRE_LEN: usize = 2;

    pub fn new(sub_id: ResetCommandSubId) -> (req: Self)
        ensures
            req.wf(),
            req == (ResetRequest { id: CommandId::Reset, sub_id }),
    {
        ResetRequest { id: CommandId::Reset, sub_id }
    }
}

impl View for ResetRequest {
    type V = ResetRequest;

    open spec fn view(&self) -> ResetRequest {
        *self
    }
}

impl WireRecord for ResetRequest {
    open spec fn wf(&self) -> bool {
        self.id == CommandId::Reset
    }

    open spec fn wire(&self) -> Seq<u8> {
        seq![self.id.wire_byte(), self.sub_id.wire_byte()]
    }

    open spec fn tagged(raw: Seq<u8>) -> bool {
        raw.len() >= 1 && raw[0] == CommandId::Reset.wire_byte()
    }

    open spec fn shaped(raw: Seq<u8>) -> bool {
        &&& raw.len() == 2
        &&& ResetCommandSubId::of_wire_byte(raw[1]) is Some
    }

    fn well_formed(&self) -> (b: bool) {
        self.id == CommandId::Reset
    }

    fn encode(&self) -> (bytes: Vec<u8>) {
        let mut bytes: Vec<u8> = Vec::new();
        bytes.push(self.id.to_byte());
        bytes.push(self.sub_id.to_byte());
        assert(bytes@ =~= self.wire());
        bytes
    }

    fn decode(raw: &[u8]) -> (r: Result<Self, DecodeError>) {
        if raw.len() < 1 || raw[0] != CommandId::Reset.to_byte() {
            return Err(DecodeError::TypeMismatch);
        }
        if raw.len() != 2 {
            return Err(DecodeError::Malformed);
        }
        let sub_id = match ResetCommandSubId::from_byte(raw[1]) {
            Some(v) => v,
            None => return Err(DecodeError::Malformed),
        };
        let v = ResetRequest {
            id: CommandId::Reset,
            sub_id,
        };
        proof {
            ResetCommandSubId::lemma_wire_byte_inverse(sub_id, raw[1]);
            assert(v.wire() =~= raw@);
            v.lemma_wire_accepted();
        }
        Ok(v)
    }

    proof fn lemma_wire_accepted(&self) {
        assert(self.wire()[1] == self.sub_id.wire_byte());
        ResetCommandSubId::lemma_wire_byte_inverse(self.sub_id, self.sub_id.wire_byte());
    }

    proof fn lemma_wire_injective(&self, other: &Self) {
        assert(self.sub_id.wire_byte() == self.wire()[1]);
        assert(other.sub_id.wire_byte() == other.wire()[1]);
        ResetCommandSubId::lemma_wire_byte_inverse(self.sub_id, self.wire()[1]);
        ResetCommandSubId::lemma_wire_byte_inverse(other.sub_id, self.wire()[1]);
    }
}

impl CommandRequest for ResetRequest {
    open spec fn spec_write_type() -> WriteType {
        WriteType::WithResponse
    }

    open spec fn spec_endpoint() -> Endpoint {
        Endpoint::GeneralRw1
    }

    fn write_type() -> (w: WriteType) {
        WriteType::WithResponse
    }

    fn endpoint() -> (e: Endpoint) {
        Endpoint::GeneralRw1
    }
}

/// Sets the units and the clock format the watch displays.
#[derive(Copy, Clone, PartialEq, Eq, Debug)]
pub struct ConfigDisplayFormatsRequest {
    pub id: CommandId,
    pub distance_unit: DistanceUnit,
    pub time_fmt: TimeFormat,
}

impl ConfigDisplayFormatsRequest {
    /// Number of bytes a record of this type takes on the wire.
    pub const WIRE_LEN: usize = 3;

    pub fn new(distance_unit: DistanceUnit, time_fmt: TimeFormat) -> (req: Self)
        ensures
            req.wf(),
            req == (ConfigDisplayFormatsRequest { id: CommandId::Config, distance_unit, time_fmt }),
    {
        ConfigDisplayFormatsRequest { id: CommandId::Config, distance_unit, time_fmt }
    }
}

impl View for ConfigDisplayFormatsRequest {
    type V = ConfigDisplayFormatsRequest;

    open spec fn view(&self) -> ConfigDisplayFormatsRequest {
        *self
    }
}

impl WireRecord for ConfigDisplayFormatsRequest {
    open spec fn wf(&self) -> bool {
        self.id == CommandId::Config
    }

    open spec fn wire(&self) -> Seq<u8> {
        seq![self.id.wire_byte(), self.distance_unit.wire_byte(), self.time_fmt.wire_byte()]
    }

    open spec fn tagged(raw: Seq<u8>) -> bool {
        raw.len() >= 1 && raw[0] == CommandId::Config.wire_byte()
    }

    open spec fn shaped(raw: Seq<u8>) -> bool {
        &&& raw.len() == 3
        &&& DistanceUnit::of_wire_byte(raw[1]) is Some
        &&& TimeFormat::of_wire_byte(raw[2]) is Some
    }

    fn well_formed(&self) -> (b: bool) {
        self.id == CommandId::Config
    }

    fn encode(&self) -> (bytes: Vec<u8>) {
        let mut bytes: Vec<u8> = Vec::new();
        bytes.push(self.id.to_byte());
        bytes.push(self.distance_unit.to_byte());
        bytes.push(self.time_fmt.to_byte());
        assert(bytes@ =~= self.wire());
        bytes
    }

    fn decode(raw: &[u8]) -> (r: Result<Self, DecodeError>) {
        if raw.len() < 1 || raw[0] != CommandId::Config.to_byte() {
            return Err(DecodeError::TypeMismatch);
        }
        if raw.len() != 3 {
            return Err(DecodeError::Malformed);
        }
        let distance_unit = match DistanceUnit::from_byte(raw[1]) {
            Some(v) => v,
            None => return Err(DecodeError::Malformed),
        };
        let time_fmt = match TimeFormat::from_byte(raw[2]) {
            Some(v) => v,
            None => return Err(DecodeError::Malformed),
        };
        let v = ConfigDisplayFormatsRequest {
            id: CommandId::Config,
            distance_unit,
            time_fmt,
        };
        proof {
            DistanceUnit::lemma_wire_byte_inverse(distance_unit, raw[1]);
            TimeFormat::lemma_wire_byte_inverse(time_fmt, raw[2]);
            assert(v.wire() =~= raw@);
            v.lemma_wire_accepted();
        }
        Ok(v)
    }

    proof fn lemma_wire_accepted(&self) {
        assert(self.wire()[1] == self.distance_unit.wire_byte());
        DistanceUnit::lemma_wire_byte_inverse(self.distance_unit, self.distance_unit.wire_byte());
        assert(self.wire()[2] == self.time_fmt.wire_byte());
        TimeFormat::lemma_wire_byte_inverse(self.time_fmt, self.time_fmt.wire_byte());
    }

    proof fn lemma_wire_injective(&self, other: &Self) {
        assert(self.distance_unit.wire_byte() == self.wire()[1]);
        assert(other.distance_unit.wire_byte() == other.wire()[1]);
        DistanceUnit::lemma_wire_byte_inverse(self.distance_unit, self.wire()[1]);
        DistanceUnit::lemma_wire_byte_inverse(other.distance_unit, self.wire()[1]);
        assert(self.time_fmt.wire_byte() == self.wire()[2]);
        assert(other.time_fmt.wire_byte() == other.wire()[2]);
        TimeFormat::lemma_wire_byte_inverse(self.time_fmt, self.wire()[2]);
        TimeFormat::lemma_wire_byte_inverse(other.time_fmt, self.wire()[2]);
    }
}

impl CommandRequest for ConfigDisplayFormatsRequest {
    open spec fn spec_write_type() -> WriteType {
        WriteType::WithResponse
    }

    open spec fn spec_endpoint() -> Endpoint {
        Endpoint::GeneralRw1
    }

    fn write_type() -> (w: WriteType) {
        WriteType::WithResponse
    }

    fn endpoint() -> (e: Endpoint) {
        Endpoint::GeneralRw1
    }
}

/// The first batch of an alert: the kind of alert, the length in bytes of
/// the whole text, and as much of the text as fits into one write.
///
/// The text is UTF-16; on the wire each code unit travels most significant
/// byte first. The length field is one byte wide and holds the byte length
/// of the whole text modulo 256.
#[derive(Clone, PartialEq, Eq, Debug)]
pub struct AlertStartBatchRequest {
    pub id: CommandId,
    pub batch_idx: u8,
    pub alert_type: AlertType,
    pub msg_full_len_bytes: u8,
    pub msg_start_text_utf16: Vec<u16>,
}

/// The fields of an `AlertStartBatchRequest`, with the text as a sequence.
pub struct AlertStartBatchView {
    pub id: CommandId,
    pub batch_idx: u8,
    pub alert_type: AlertType,
    pub msg_full_len_bytes: u8,
    pub msg_start_text_utf16: Seq<u16>,
}

impl AlertStartBatchRequest {
    /// Number of bytes before the text.
    pub const HEADER_LEN: usize = 4;

    /// The largest number of code units that fit into the first batch.
    pub const MAX_UNITS: usize = 22;

    pub fn new(
        alert_type: AlertType,
        msg_full_len_bytes: u8,
        msg_start_text_utf16: Vec<u16>,
    ) -> (req: Self)
        ensures
            req.id == CommandId::Alert,
            req.batch_idx == 0,
            req.alert_type == alert_type,
            req.msg_full_len_bytes == msg_full_len_bytes,
            req.msg_start_text_utf16 == msg_start_text_utf16,
    {
        AlertStartBatchRequest {
            id: CommandId::Alert,
            batch_idx: 0,
            alert_type,
            msg_full_len_bytes,
            msg_start_text_utf16,
        }
    }
}

impl View for AlertStartBatchRequest {
    type V = AlertStartBatchView;

    open spec fn view(&self) -> AlertStartBatchView {
        AlertStartBatchView {
            id: self.id,
            batch_idx: self.batch_idx,
            alert_type: self.alert_type,
            msg_full_len_bytes: self.msg_full_len_bytes,
            msg_start_text_utf16: self.msg_start_text_utf16@,
        }
    }
}

impl WireRecord for AlertStartBatchRequest {
    open spec fn wf(&self) -> bool {
        &&& self.id == CommandId::Alert
        &&& self.batch_idx == 0
        &&& self.msg_start_text_utf16@.len() <= Self::MAX_UNITS
    }

    open spec fn wire(&self) -> Seq<u8> {
        seq![
            self.id.wire_byte(),
            self.batch_idx,
            self.alert_type.wire_byte(),
            self.msg_full_len_bytes,
        ] + be16_run(self.msg_start_text_utf16@)
    }

    open spec fn tagged(raw: Seq<u8>) -> bool {
        raw.len() >= 1 && raw[0] == CommandId::Alert.wire_byte()
    }

    open spec fn shaped(raw: Seq<u8>) -> bool {
        &&& 4 <= raw.len() <= MAX_WRITE_SIZE
        &&& (raw.len() - 4) % 2 == 0
        &&& raw[1] == 0
        &&& AlertType::of_wire_byte(raw[2]) is Some
    }

    fn well_formed(&self) -> (b: bool) {
        self.id == CommandId::Alert && self.batch_idx == 0 && self.msg_start_text_utf16.len()
            <= Self::MAX_UNITS
    }

    fn encode(&self) -> (bytes: Vec<u8>) {
        let mut bytes: Vec<u8> = Vec::new();
        bytes.push(self.id.to_byte());
        bytes.push(self.batch_idx);
        bytes.push(self.alert_type.to_byte());
        bytes.push(self.msg_full_len_bytes);
        put_be16_run(&mut bytes, &self.msg_start_text_utf16);
        assert(bytes@ =~= self.wire());
        bytes
    }

    fn decode(raw: &[u8]) -> (r: Result<Self, DecodeError>) {
        if raw.len() < 1 || raw[0] != CommandId::Alert.to_byte() {
            return Err(DecodeError::TypeMismatch);
        }
        if raw.len() < 4 || raw.len() > MAX_WRITE_SIZE || (raw.len() - 4) % 2 != 0 {
            return Err(DecodeError::Malformed);
        }
        if raw[1] != 0 {
            return Err(DecodeError::Malformed);
        }
        let alert_type = match AlertType::from_byte(raw[2]) {
            Some(v) => v,
            None => return Err(DecodeError::Malformed),
        };
        let v = AlertStartBatchRequest {
            id: CommandId::Alert,
            batch_idx: 0,
            alert_type,
            msg_full_len_bytes: raw[3],
            msg_start_text_utf16: get_be16_run(raw, 4),
        };
        proof {
            AlertType::lemma_wire_byte_inverse(alert_type, raw[2]);
            assert(be16_run(v.msg_start_text_utf16@) == raw@.subrange(4, raw.len() as int));
            assert(v.wire() =~= raw@);
            v.lemma_wire_accepted();
        }
        Ok(v)
    }

    proof fn lemma_wire_accepted(&self) {
        assert(self.wire().len() == 4 + 2 * self.msg_start_text_utf16@.len());
        assert(self.wire()[1] == self.batch_idx);
        assert(self.wire()[2] == self.alert_type.wire_byte());
        AlertType::lemma_wire_byte_inverse(self.alert_type, self.alert_type.wire_byte());
    }

    proof fn lemma_wire_injective(&self, other: &Self) {
        let n = self.wire().len() as int;
        assert(self.alert_type.wire_byte() == self.wire()[2]);
        assert(other.alert_type.wire_byte() == other.wire()[2]);
        AlertType::lemma_wire_byte_inverse(self.alert_type, self.wire()[2]);
        AlertType::lemma_wire_byte_inverse(other.alert_type, self.wire()[2]);
        assert(self.msg_full_len_bytes == self.wire()[3]);
        assert(other.msg_full_len_bytes == other.wire()[3]);
        assert(be16_run(self.msg_start_text_utf16@) =~= self.wire().subrange(4, n));
        assert(be16_run(other.msg_start_text_utf16@) =~= other.wire().subrange(4, n));
        lemma_be16_run_injective(self.msg_start_text_utf16@, other.msg_start_text_utf16@);
    }
}

impl CommandRequest for AlertStartBatchRequest {
    open spec fn spec_write_type() -> WriteType {
        WriteType::WithResponse
    }

    open spec fn spec_endpoint() -> Endpoint {
        Endpoint::GeneralRw1
    }

    fn write_type() -> (w: WriteType) {
        WriteType::WithResponse
    }

    fn endpoint() -> (e: Endpoint) {
        Endpoint::GeneralRw1
    }
}

/// A further batch of an alert: its index, counted from one, and the next
/// part of the text.
#[derive(Clone, PartialEq, Eq, Debug)]
pub struct AlertNextBatchRequest {
    pub id: CommandId,
    pub batch_idx: u8,
    pub msg_next_text_utf16: Vec<u16>,
}

/// The fields of an `AlertNextBatchRequest`, with the text as a sequence.
pub struct AlertNextBatchView {
    pub id: CommandId,
    pub batch_idx: u8,
    pub msg_next_text_utf16: Seq<u16>,
}

impl AlertNextBatchRequest {
    /// Number of bytes before the text.
    pub const HEADER_LEN: usize = 2;

    /// The largest number of code units that fit into a further batch.
    pub const MAX_UNITS: usize = 23;

    pub fn new(batch_idx: u8, msg_next_text_utf16: Vec<u16>) -> (req: Self)
        ensures
            req.id == CommandId::Alert,
            req.batch_idx == batch_idx,
            req.msg_next_text_utf16 == msg_next_text_utf16,
    {
        AlertNextBatchRequest { id: CommandId::Alert, batch_idx, msg_next_text_utf16 }
    }
}

impl View for AlertNextBatchRequest {
    type V = AlertNextBatchView;

    open spec fn view(&self) -> AlertNextBatchView {
        AlertNextBatchView {
            id: self.id,
            batch_idx: self.batch_idx,
            msg_next_text_utf16: self.msg_next_text_utf16@,
        }
    }
}

impl WireRecord for AlertNextBatchRequest {
    open spec fn wf(&self) -> bool {
        &&& self.id == CommandId::Alert
        &&& self.batch_idx > 0
        &&& self.msg_next_text_utf16@.len() <= Self::MAX_UNITS
    }

    open spec fn wire(&self) -> Seq<u8> {
        seq![self.id.wire_byte(), self.batch_idx] + be16_run(self.msg_next_text_utf16@)
    }

    open spec fn tagged(raw: Seq<u8>) -> bool {
        raw.len() >= 1 && raw[0] == CommandId::Alert.wire_byte()
    }

    open spec fn shaped(raw: Seq<u8>) -> bool {
        &&& 2 <= raw.len() <= MAX_WRITE_SIZE
        &&& (raw.len() - 2) % 2 == 0
        &&& raw[1] > 0
    }

    fn well_formed(&self) -> (b: bool) {
        self.id == CommandId::Alert && self.batch_idx > 0 && self.msg_next_text_utf16.len()
            <= Self::MAX_UNITS
    }

    fn encode(&self) -> (bytes: Vec<u8>) {
        let mut bytes: Vec<u8> = Vec::new();
        bytes.push(self.id.to_byte());
        bytes.push(self.batch_idx);
        put_be16_run(&mut bytes, &self.msg_next_text_utf16);
        assert(bytes@ =~= self.wire());
        bytes
    }

    fn decode(raw: &[u8]) -> (r: Result<Self, DecodeError>) {
        if raw.len() < 1 || raw[0] != CommandId::Alert.to_byte() {
            return Err(DecodeError::TypeMismatch);
        }
        if raw.len() < 2 || raw.len() > MAX_WRITE_SIZE || (raw.len() - 2) % 2 != 0 {
            return Err(DecodeError::Malformed);
        }
        if raw[1] == 0 {
            return Err(DecodeError::Malformed);
        }
        let v = AlertNextBatchRequest {
            id: CommandId::Alert,
            batch_idx: raw[1],
            msg_next_text_utf16: get_be16_run(raw, 2),
        };
        proof {
            assert(be16_run(v.msg_next_text_utf16@) == raw@.subrange(2, raw.len() as int));
            assert(v.wire() =~= raw@);
            v.lemma_wire_accepted();
        }
        Ok(v)
    }

    proof fn lemma_wire_accepted(&self) {
        assert(self.wire().len() == 2 + 2 * self.msg_next_text_utf16@.len());
        assert(self.wire()[1] == self.batch_idx);
    }

    proof fn lemma_wire_injective(&self, other: &Self) {
        let n = self.wire().len() as int;
        assert(self.batch_idx == self.wire()[1] && other.batch_idx == other.wire()[1]);
        assert(be16_run(self.msg_next_text_utf16@) =~= self.wire().subrange(2, n));
        assert(be16_run(other.msg_next_text_utf16@) =~= other.wire().subrange(2, n));
        lemma_be16_run_injective(self.msg_next_text_utf16@, other.msg_next_text_utf16@);
    }
}

impl CommandRequest for AlertNextBatchRequest {
    open spec fn spec_write_type() -> WriteType {
        WriteType::WithResponse
    }

    open spec fn spec_endpoint() -> Endpoint {
        Endpoint::GeneralRw1
    }

    fn write_type() -> (w: WriteType) {
        WriteType::WithResponse
    }

    fn endpoint() -> (e: Endpoint) {
        Endpoint::GeneralRw1
    }
}

/// Commits an alert: sent after the last text batch, it makes the watch
/// show the message.
#[derive(Copy, Clone, PartialEq, Eq, Debug)]
pub struct AlertPushRequest {
    pub id: CommandId,
    pub push_ident: u8,
}

impl AlertPushRequest {
    /// Number of bytes a record of this type takes on the wire.
    pub const WIRE_LEN: usize = 2;

    pub fn new() -> (req: Self)
        ensures
            req.wf(),
            req == (AlertPushRequest { id: CommandId::Alert, push_ident: 0xFD }),
    {
        AlertPushRequest { id: CommandId::Alert, push_ident: 0xFD }
    }
}

impl View for AlertPushRequest {
    type V = AlertPushRequest;

    open spec fn view(&self) -> AlertPushRequest {
        *self
    }
}

impl WireRecord for AlertPushRequest {
    open spec fn wf(&self) -> bool {
        &&& self.id == CommandId::Alert
        &&& self.push_ident == 0xFD
    }

    open spec fn wire(&self) -> Seq<u8> {
        seq![self.id.wire_byte(), self.push_ident]
    }

    open spec fn tagged(raw: Seq<u8>) -> bool {
        raw.len() >= 1 && raw[0] == CommandId::Alert.wire_byte()
    }

    open spec fn shaped(raw: Seq<u8>) -> bool {
        &&& raw.len() == 2
        &&& raw[1] == 0xFD
    }

    fn well_formed(&self) -> (b: bool) {
        self.id == CommandId::Alert && self.push_ident == 0xFD
    }

    fn encode(&self) -> (bytes: Vec<u8>) {
        let mut bytes: Vec<u8> = Vec::new();
        bytes.push(self.id.to_byte());
        bytes.push(self.push_ident);
        assert(bytes@ =~= self.wire());
        bytes
    }

    fn decode(raw: &[u8]) -> (r: Result<Self, DecodeError>) {
        if raw.len() < 1 || raw[0] != CommandId::Alert.to_byte() {
            return Err(DecodeError::TypeMismatch);
        }
        if raw.len() != 2 {
            return Err(DecodeError::Malformed);
        }
        if raw[1] != 0xFD {
            return Err(DecodeError::Malformed);
        }
        let v = AlertPushRequest {
            id: CommandId::Alert,
            push_ident: 0xFD,
        };
        proof {
            assert(v.wire() =~= raw@);
            v.lemma_wire_accepted();
        }
        Ok(v)
    }

    proof fn lemma_wire_accepted(&self) {
    }

    proof fn lemma_wire_injective(&self, other: &Self) {
    }
}

impl CommandRequest for AlertPushRequest {
    open spec fn spec_write_type() -> WriteType {
        WriteType::WithResponse
    }

    open spec fn spec_endpoint() -> Endpoint {
        Endpoint::GeneralRw1
    }

    fn write_type() -> (w: WriteType) {
        WriteType::WithResponse
    }

    fn endpoint() -> (e: Endpoint) {
        Endpoint::GeneralRw1
    }
}

/// Sets the user profile. The fields named `unk` are not understood; `new`
/// fills them with the values the vendor's application sends.
#[derive(Copy, Clone, PartialEq, Eq, Debug)]
pub struct SetUserInfoRequest {
    pub id: CommandId,
    pub unk0: u8,
    pub height_cm: u8,
    pub unk1: u8,
    pub weight_kg: u8,
    pub screen_show_timeout_seconds: u8,
    pub unk2: u8,
    pub unk3: u8,
    pub step_goal: u16,
    pub lift_wrist_mode: UserLiftWristMode,
    pub unk4: u8,
    pub unk5: u8,
    pub age: u8,
    pub gender: UserGender,
    pub unk6: u8,
    pub unk7: u8,
    pub unk8: u8,
    pub unk9: u8,
}

impl SetUserInfoRequest {
    /// Number of bytes a record of this type takes on the wire.
    pub const WIRE_LEN: usize = 19;

    pub fn new(
        height_cm: u8,
        weight_kg: u8,
        screen_show_timeout_seconds: u8,
        step_goal: u16,
        lift_wrist_mode: UserLiftWristMode,
        age: u8,
        gender: UserGender,
    ) -> (req: Self)
        ensures
            req.wf(),
            req == (SetUserInfoRequest {
                id: CommandId::UserInfo,
                unk0: 0,
                height_cm,
                unk1: 0,
                weight_kg,
                screen_show_timeout_seconds,
                unk2: 0,
                unk3: 0,
                step_goal,
                lift_wrist_mode,
                unk4: 160,
                unk5: 0,
                age,
                gender,
                unk6: 0,
                unk7: 1,
                unk8: 1,
                unk9: 40,
            }),
    {
        SetUserInfoRequest {
            id: CommandId::UserInfo,
            unk0: 0,
            height_cm,
            unk1: 0,
            weight_kg,
            screen_show_timeout_seconds,
            unk2: 0,
            unk3: 0,
            step_goal,
            lift_wrist_mode,
            unk4: 160,
            unk5: 0,
            age,
            gender,
            unk6: 0,
            unk7: 1,
            unk8: 1,
            unk9: 40,
        }
    }
}

impl View for SetUserInfoRequest {
    type V = SetUserInfoRequest;

    open spec fn view(&self) -> SetUserInfoRequest {
        *self
    }
}

impl WireRecord for SetUserInfoRequest {
    open spec fn wf(&self) -> bool {
        self.id == CommandId::UserInfo
    }

    open spec fn wire(&self) -> Seq<u8> {
        seq![
            self.id.wire_byte(),
            self.unk0,
            self.height_cm,
            self.unk1,
            self.weight_kg,
            self.screen_show_timeout_seconds,
            self.unk2,
            self.unk3,
        ]
            + be16(self.step_goal)
            + seq![
                self.lift_wrist_mode.wire_byte(),
                self.unk4,
                self.unk5,
                self.age,
                self.gender.wire_byte(),
                self.unk6,
                self.unk7,
                self.unk8,
                self.unk9,
            ]
    }

    open spec fn tagged(raw: Seq<u8>) -> bool {
        raw.len() >= 1 && raw[0] == CommandId::UserInfo.wire_byte()
    }

    open spec fn shaped(raw: Seq<u8>) -> bool {
        &&& raw.len() == 19
        &&& UserLiftWristMode::of_wire_byte(raw[10]) is Some
        &&& UserGender::of_wire_byte(raw[14]) is Some
    }

    fn well_formed(&self) -> (b: bool) {
        self.id == CommandId::UserInfo
    }

    fn encode(&self) -> (bytes: Vec<u8>) {
        let mut bytes: Vec<u8> = Vec::new();
        bytes.push(self.id.to_byte());
        bytes.push(self.unk0);
        bytes.push(self.height_cm);
        bytes.push(self.unk1);
        bytes.push(self.weight_kg);
        bytes.push(self.screen_show_timeout_seconds);
        bytes.push(self.unk2);
        bytes.push(self.unk3);
        put_be16(&mut bytes, self.step_goal);
        bytes.push(self.lift_wrist_mode.to_byte());
        bytes.push(self.unk4);
        bytes.push(self.unk5);
        bytes.push(self.age);
        bytes.push(self.gender.to_byte());
        bytes.push(self.unk6);
        bytes.push(self.unk7);
        bytes.push(self.unk8);
        bytes.push(self.unk9);
        assert(bytes@ =~= self.wire());
        bytes
    }

    fn decode(raw: &[u8]) -> (r: Result<Self, DecodeError>) {
        if raw.len() < 1 || raw[0] != CommandId::UserInfo.to_byte() {
            return Err(DecodeError::TypeMismatch);
        }
        if raw.len() != 19 {
            return Err(DecodeError::Malformed);
        }
        let lift_wrist_mode = match UserLiftWristMode::from_byte(raw[10]) {
            Some(v) => v,
            None => return Err(DecodeError::Malformed),
        };
        let gender = match UserGender::from_byte(raw[14]) {
            Some(v) => v,
            None => return Err(DecodeError::Malformed),
        };
        let v = SetUserInfoRequest {
            id: CommandId::UserInfo,
            unk0: raw[1],
            height_cm: raw[2],
            unk1: raw[3],
            weight_kg: raw[4],
            screen_show_timeout_seconds: raw[5],
            unk2: raw[6],
            unk3: raw[7],
            step_goal: get_be16(raw, 8),
            lift_wrist_mode,
            unk4: raw[11],
            unk5: raw[12],
            age: raw[13],
            gender,
            unk6: raw[15],
            unk7: raw[16],
            unk8: raw[17],
            unk9: raw[18],
        };
        proof {
            UserLiftWristMode::lemma_wire_byte_inverse(lift_wrist_mode, raw[10]);
            UserGender::lemma_wire_byte_inverse(gender, raw[14]);
            assert(be16(v.step_goal) == raw@.subrange(8, 10));
            assert(v.wire() =~= raw@);
            v.lemma_wire_accepted();
        }
        Ok(v)
    }

    proof fn lemma_wire_accepted(&self) {
        assert(self.wire()[10] == self.lift_wrist_mode.wire_byte());
        UserLiftWristMode::lemma_wire_byte_inverse(
            self.lift_wrist_mode,
            self.lift_wrist_mode.wire_byte(),
        );
        assert(self.wire()[14] == self.gender.wire_byte());
        UserGender::lemma_wire_byte_inverse(self.gender, self.gender.wire_byte());
    }

    proof fn lemma_wire_injective(&self, other: &Self) {
        assert(self.unk0 == self.wire()[1] && other.unk0 == other.wire()[1]);
        assert(self.height_cm == self.wire()[2] && other.height_cm == other.wire()[2]);
        assert(self.unk1 == self.wire()[3] && other.unk1 == other.wire()[3]);
        assert(self.weight_kg == self.wire()[4] && other.weight_kg == other.wire()[4]);
        assert(self.screen_show_timeout_seconds == self.wire()[5]
            && other.screen_show_timeout_seconds == other.wire()[5]);
        assert(self.unk2 == self.wire()[6] && other.unk2 == other.wire()[6]);
        assert(self.unk3 == self.wire()[7] && other.unk3 == other.wire()[7]);
        assert(be16(self.step_goal) =~= self.wire().subrange(8, 10));
        assert(be16(other.step_goal) =~= other.wire().subrange(8, 10));
        lemma_be16_injective(self.step_goal, other.step_goal);
        assert(self.lift_wrist_mode.wire_byte() == self.wire()[10]);
        assert(other.lift_wrist_mode.wire_byte() == other.wire()[10]);
        UserLiftWristMode::lemma_wire_byte_inverse(self.lift_wrist_mode, self.wire()[10]);
        UserLiftWristMode::lemma_wire_byte_inverse(other.lift_wrist_mode, self.wire()[10]);
        assert(self.unk4 == self.wire()[11] && other.unk4 == other.wire()[11]);
        assert(self.unk5 == self.wire()[12] && other.unk5 == other.wire()[12]);
        assert(self.age == self.wire()[13] && other.age == other.wire()[13]);
        assert(self.gender.wire_byte() == self.wire()[14]);
        assert(other.gender.wire_byte() == other.wire()[14]);
        UserGender::lemma_wire_byte_inverse(self.gender, self.wire()[14]);
        UserGender::lemma_wire_byte_inverse(other.gender, self.wire()[14]);
        assert(self.unk6 == self.wire()[15] && other.unk6 == other.wire()[15]);
        assert(self.unk7 == self.wire()[16] && other.unk7 == other.wire()[16]);
        assert(self.unk8 == self.wire()[17] && other.unk8 == other.wire()[17]);
        assert(self.unk9 == self.wire()[18] && other.unk9 == other.wire()[18]);
    }
}

impl CommandRequest for SetUserInfoRequest {
    open spec fn spec_write_type() -> WriteType {
        WriteType::WithResponse
    }

    open spec fn spec_endpoint() -> Endpoint {
        Endpoint::GeneralRw1
    }

    fn write_type() -> (w: WriteType) {
        WriteType::WithResponse
    }

    fn endpoint() -> (e: Endpoint) {
        Endpoint::GeneralRw1
    }
}

/// Sets today's weather.
#[derive(Copy, Clone, PartialEq, Eq, Debug)]
pub struct SetWeatherTodayRequest {
    pub id: CommandId,
    pub weather_date: WeatherDate,
    pub weather_type: WeatherType,
    pub unk: u8,
    pub cur_temperature: u8,
    pub max_temperature: u8,
    pub min_temperature: u8,
}

impl SetWeatherTodayRequest {
    /// Number of bytes a record of this type takes on the wire.
    pub const WIRE_LEN: usize = 7;

    pub fn new(
        weather_type: WeatherType,
        cur_temperature: u8,
        max_temperature: u8,
        min_temperature: u8,
    ) -> (req: Self)
        ensures
            req.wf(),
            req == (SetWeatherTodayRequest {
                id: CommandId::Weather,
                weather_date: WeatherDate::Today,
                weather_type,
                unk: 0,
                cur_temperature,
                max_temperature,
                min_temperature,
            }),
    {
        SetWeatherTodayRequest {
            id: CommandId::Weather,
            weather_date: WeatherDate::Today,
            weather_type,
            unk: 0,
            cur_temperature,
            max_temperature,
            min_temperature,
        }
    }
}

impl View for SetWeatherTodayRequest {
    type V = SetWeatherTodayRequest;

    open spec fn view(&self) -> SetWeatherTodayRequest {
        *self
    }
}

impl WireRecord for SetWeatherTodayRequest {
    open spec fn wf(&self) -> bool {
        &&& self.id == CommandId::Weather
        &&& self.weather_date == WeatherDate::Today
    }

    open spec fn wire(&self) -> Seq<u8> {
        seq![
            self.id.wire_byte(),
            self.weather_date.wire_byte(),
            self.weather_type.wire_byte(),
            self.unk,
            self.cur_temperature,
            self.max_temperature,
            self.min_temperature,
        ]
    }

    open spec fn tagged(raw: Seq<u8>) -> bool {
        &&& raw.len() >= 2
        &&& raw[0] == CommandId::Weather.wire_byte()
        &&& raw[1] == WeatherDate::Today.wire_byte()
    }

    open spec fn shaped(raw: Seq<u8>) -> bool {
        &&& raw.len() == 7
        &&& WeatherType::of_wire_byte(raw[2]) is Some
    }

    fn well_formed(&self) -> (b: bool) {
        self.id == CommandId::Weather && self.weather_date == WeatherDate::Today
    }

    fn encode(&self) -> (bytes: Vec<u8>) {
        let mut bytes: Vec<u8> = Vec::new();
        bytes.push(self.id.to_byte());
        bytes.push(self.weather_date.to_byte());
        bytes.push(self.weather_type.to_byte());
        bytes.push(self.unk);
        bytes.push(self.cur_temperature);
        bytes.push(self.max_temperature);
        bytes.push(self.min_temperature);
        assert(bytes@ =~= self.wire());
        bytes
    }

    fn decode(raw: &[u8]) -> (r: Result<Self, DecodeError>) {
        if raw.len() < 2 || raw[0] != CommandId::Weather.to_byte()
            || raw[1] != WeatherDate::Today.to_byte() {
            return Err(DecodeError::TypeMismatch);
        }
        if raw.len() != 7 {
            return Err(DecodeError::Malformed);
        }
        let weather_type = match WeatherType::from_byte(raw[2]) {
            Some(v) => v,
            None => return Err(DecodeError::Malformed),
        };
        let v = SetWeatherTodayRequest {
            id: CommandId::Weather,
            weather_date: WeatherDate::Today,
            weather_type,
            unk: raw[3],
            cur_temperature: raw[4],
            max_temperature: raw[5],
            min_temperature: raw[6],
        };
        proof {
            WeatherType::lemma_wire_byte_inverse(weather_type, raw[2]);
            assert(v.wire() =~= raw@);
            v.lemma_wire_accepted();
        }
        Ok(v)
    }

    proof fn lemma_wire_accepted(&self) {
        assert(self.wire()[2] == self.weather_type.wire_byte());
        WeatherType::lemma_wire_byte_inverse(self.weather_type, self.weather_type.wire_byte());
    }

    proof fn lemma_wire_injective(&self, other: &Self) {
        assert(self.weather_type.wire_byte() == self.wire()[2]);
        assert(other.weather_type.wire_byte() == other.wire()[2]);
        WeatherType::lemma_wire_byte_inverse(self.weather_type, self.wire()[2]);
        WeatherType::lemma_wire_byte_inverse(other.weather_type, self.wire()[2]);
        assert(self.unk == self.wire()[3] && other.unk == other.wire()[3]);
        assert(self.cur_temperature == self.wire()[4] && other.cur_temperature == other.wire()[4]);
        assert(self.max_temperature == self.wire()[5] && other.max_temperature == other.wire()[5]);
        assert(self.min_temperature == self.wire()[6] && other.min_temperature == other.wire()[6]);
    }
}

impl CommandRequest for SetWeatherTodayRequest {
    open spec fn spec_write_type() -> WriteType {
        WriteType::WithResponse
    }

    open spec fn spec_endpoint() -> Endpoint {
        Endpoint::GeneralRw1
    }

    fn write_type() -> (w: WriteType) {
        WriteType::WithResponse
    }

    fn endpoint() -> (e: Endpoint) {
        Endpoint::GeneralRw1
    }
}

/// Sets the forecast for the three days after today.
#[derive(Copy, Clone, PartialEq, Eq, Debug)]
pub struct SetWeatherFollowingDaysRequest {
    pub id: CommandId,
    pub weather_date: WeatherDate,
    pub next_1_weather_type: WeatherType,
    pub next_1_unk: u8,
    pub next_1_max_temperature: u8,
    pub next_1_min_temperature: u8,
    pub next_2_weather_type: WeatherType,
    pub next_2_unk: u8,
    pub next_2_max_temperature: u8,
    pub next_2_min_temperature: u8,
    pub next_3_weather_type: WeatherType,
    pub next_3_unk: u8,
    pub next_3_max_temperature: u8,
    pub next_3_min_temperature: u8,
}

impl SetWeatherFollowingDaysRequest {
    /// Number of bytes a record of this type takes on the wire.
    pub const WIRE_LEN: usize = 14;

    pub fn new(
        next_1_weather_type: WeatherType,
        next_1_max_temperature: u8,
        next_1_min_temperature: u8,
        next_2_weather_type: WeatherType,
        next_2_max_temperature: u8,
        next_2_min_temperature: u8,
        next_3_weather_type: WeatherType,
        next_3_max_temperature: u8,
        next_3_min_temperature: u8,
    ) -> (req: Self)
        ensures
            req.wf(),
            req == (SetWeatherFollowingDaysRequest {
                id: CommandId::Weather,
                weather_date: WeatherDate::FollowingDays,
                next_1_weather_type,
                next_1_unk: 0,
                next_1_max_temperature,
                next_1_min_temperature,
                next_2_weather_type,
                next_2_unk: 0,
                next_2_max_temperature,
                next_2_min_temperature,
                next_3_weather_type,
                next_3_unk: 0,
                next_3_max_temperature,
                next_3_min_temperature,
            }),
    {
        SetWeatherFollowingDaysRequest {
            id: CommandId::Weather,
            weather_date: WeatherDate::FollowingDays,
            next_1_weather_type,
            next_1_unk: 0,
            next_1_max_temperature,
            next_1_min_temperature,
            next_2_weather_type,
            next_2_unk: 0,
            next_2_max_temperature,
            next_2_min_temperature,
            next_3_weather_type,
            next_3_unk: 0,
            next_3_max_temperature,
            next_3_min_temperature,
        }
    }
}

impl View for SetWeatherFollowingDaysRequest {
    type V = SetWeatherFollowingDaysRequest;

    open spec fn view(&self) -> SetWeatherFollowingDaysRequest {
        *self
    }
}

impl WireRecord for SetWeatherFollowingDaysRequest {
    open spec fn wf(&self) -> bool {
        &&& self.id == CommandId::Weather
        &&& self.weather_date == WeatherDate::FollowingDays
    }

    open spec fn wire(&self) -> Seq<u8> {
        seq![
            self.id.wire_byte(),
            self.weather_date.wire_byte(),
            self.next_1_weather_type.wire_byte(),
            self.next_1_unk,
            self.next_1_max_temperature,
            self.next_1_min_temperature,
            self.next_2_weather_type.wire_byte(),
            self.next_2_unk,
            self.next_2_max_temperature,
            self.next_2_min_temperature,
            self.next_3_weather_type.wire_byte(),
            self.next_3_unk,
            self.next_3_max_temperature,
            self.next_3_min_temperature,
        ]
    }

    open spec fn tagged(raw: Seq<u8>) -> bool {
        &&& raw.len() >= 2
        &&& raw[0] == CommandId::Weather.wire_byte()
        &&& raw[1] == WeatherDate::FollowingDays.wire_byte()
    }

    open spec fn shaped(raw: Seq<u8>) -> bool {
        &&& raw.len() == 14
        &&& WeatherType::of_wire_byte(raw[2]) is Some
        &&& WeatherType::of_wire_byte(raw[6]) is Some
        &&& WeatherType::of_wire_byte(raw[10]) is Some
    }

    fn well_formed(&self) -> (b: bool) {
        self.id == CommandId::Weather && self.weather_date == WeatherDate::FollowingDays
    }

    fn encode(&self) -> (bytes: Vec<u8>) {
        let mut bytes: Vec<u8> = Vec::new();
        bytes.push(self.id.to_byte());
        bytes.push(self.weather_date.to_byte());
        bytes.push(self.next_1_weather_type.to_byte());
        bytes.push(self.next_1_unk);
        bytes.push(self.next_1_max_temperature);
        bytes.push(self.next_1_min_temperature);
        bytes.push(self.next_2_weather_type.to_byte());
        bytes.push(self.next_2_unk);
        bytes.push(self.next_2_max_temperature);
        bytes.push(self.next_2_min_temperature);
        bytes.push(self.next_3_weather_type.to_byte());
        bytes.push(self.next_3_unk);
        bytes.push(self.next_3_max_temperature);
        bytes.push(self.next_3_min_temperature);
        assert(bytes@ =~= self.wire());
        bytes
    }

    fn decode(raw: &[u8]) -> (r: Result<Self, DecodeError>) {
        if raw.len() < 2 || raw[0] != CommandId::Weather.to_byte()
            || raw[1] != WeatherDate::FollowingDays.to_byte() {
            return Err(DecodeError::TypeMismatch);
        }
        if raw.len() != 14 {
            return Err(DecodeError::Malformed);
        }
        let next_1_weather_type = match WeatherType::from_byte(raw[2]) {
            Some(v) => v,
            None => return Err(DecodeError::Malformed),
        };
        let next_2_weather_type = match WeatherType::from_byte(raw[6]) {
            Some(v) => v,
            None => return Err(DecodeError::Malformed),
        };
        let next_3_weather_type = match WeatherType::from_byte(raw[10]) {
            Some(v) => v,
            None => return Err(DecodeError::Malformed),
        };
        let v = SetWeatherFollowingDaysRequest {
            id: CommandId::Weather,
            weather_date: WeatherDate::FollowingDays,
            next_1_weather_type,
            next_1_unk: raw[3],
            next_1_max_temperature: raw[4],
            next_1_min_temperature: raw[5],
            next_2_weather_type,
            next_2_unk: raw[7],
            next_2_max_temperature: raw[8],
            next_2_min_temperature: raw[9],
            next_3_weather_type,
            next_3_unk: raw[11],
            next_3_max_temperature: raw[12],
            next_3_min_temperature: raw[13],
        };
        proof {
            WeatherType::lemma_wire_byte_inverse(next_1_weather_type, raw[2]);
            WeatherType::lemma_wire_byte_inverse(next_2_weather_type, raw[6]);
            WeatherType::lemma_wire_byte_inverse(next_3_weather_type, raw[10]);
            assert(v.wire() =~= raw@);
            v.lemma_wire_accepted();
        }
        Ok(v)
    }

    proof fn lemma_wire_accepted(&self) {
        assert(self.wire()[2] == self.next_1_weather_type.wire_byte());
        WeatherType::lemma_wire_byte_inverse(
            self.next_1_weather_type,
            self.next_1_weather_type.wire_byte(),
        );
        assert(self.wire()[6] == self.next_2_weather_type.wire_byte());
        WeatherType::lemma_wire_byte_inverse(
            self.next_2_weather_type,
            self.next_2_weather_type.wire_byte(),
        );
        assert(self.wire()[10] == self.next_3_weather_type.wire_byte());
        WeatherType::lemma_wire_byte_inverse(
            self.next_3_weather_type,
            self.next_3_weather_type.wire_byte(),
        );
    }

    proof fn lemma_wire_injective(&self, other: &Self) {
        assert(self.next_1_weather_type.wire_byte() == self.wire()[2]);
        assert(other.next_1_weather_type.wire_byte() == other.wire()[2]);
        WeatherType::lemma_wire_byte_inverse(self.next_1_weather_type, self.wire()[2]);
        WeatherType::lemma_wire_byte_inverse(other.next_1_weather_type, self.wire()[2]);
        assert(self.next_1_unk == self.wire()[3] && other.next_1_unk == other.wire()[3]);
        assert(self.next_1_max_temperature == self.wire()[4]
            && other.next_1_max_temperature == other.wire()[4]);
        assert(self.next_1_min_temperature == self.wire()[5]
            && other.next_1_min_temperature == other.wire()[5]);
        assert(self.next_2_weather_type.wire_byte() == self.wire()[6]);
        assert(other.next_2_weather_type.wire_byte() == other.wire()[6]);
        WeatherType::lemma_wire_byte_inverse(self.next_2_weather_type, self.wire()[6]);
        WeatherType::lemma_wire_byte_inverse(other.next_2_weather_type, self.wire()[6]);
        assert(self.next_2_unk == self.wire()[7] && other.next_2_unk == other.wire()[7]);
        assert(self.next_2_max_temperature == self.wire()[8]
            && other.next_2_max_temperature == other.wire()[8]);
        assert(self.next_2_min_temperature == self.wire()[9]
            && other.next_2_min_temperature == other.wire()[9]);
        assert(self.next_3_weather_type.wire_byte() == self.wire()[10]);
        assert(other.next_3_weather_type.wire_byte() == other.wire()[10]);
        WeatherType::lemma_wire_byte_inverse(self.next_3_weather_type, self.wire()[10]);
        WeatherType::lemma_wire_byte_inverse(other.next_3_weather_type, self.wire()[10]);
        assert(self.next_3_unk == self.wire()[11] && other.next_3_unk == other.wire()[11]);
        assert(self.next_3_max_temperature == self.wire()[12]
            && other.next_3_max_temperature == other.wire()[12]);
        assert(self.next_3_min_temperature == self.wire()[13]
            && other.next_3_min_temperature == other.wire()[13]);
    }
}

impl CommandRequest for SetWeatherFollowingDaysRequest {
    open spec fn spec_write_type() -> WriteType {
        WriteType::WithResponse
    }

    open spec fn spec_endpoint() -> Endpoint {
        Endpoint::GeneralRw1
    }

    fn write_type() -> (w: WriteType) {
        WriteType::WithResponse
    }

    fn endpoint() -> (e: Endpoint) {
        Endpoint::GeneralRw1
    }
}

/// Asks for the recorded steps, on the general service.
#[derive(Copy, Clone, PartialEq, Eq, Debug)]
pub struct RecordedStepsRequest {
    pub id: CommandId,
    pub sub_id: RecordedStepsCommandSubId,
    pub unk: u8,
}

impl RecordedStepsRequest {
    /// Number of bytes a record of this type takes on the wire.
    pub const WIRE_LEN: usize = 3;

    pub fn new() -> (req: Self)
        ensures
            req.wf(),
            req == (RecordedStepsRequest {
                id: CommandId::RecordedStepsGeneral,
                sub_id: RecordedStepsCommandSubId::Request,
                unk: 1,
            }),
    {
        RecordedStepsRequest {
            id: CommandId::RecordedStepsGeneral,
            sub_id: RecordedStepsCommandSubId::Request,
            unk: 1,
        }
    }
}

impl View for RecordedStepsRequest {
    type V = RecordedStepsRequest;

    open spec fn view(&self) -> RecordedStepsRequest {
        *self
    }
}

impl WireRecord for RecordedStepsRequest {
    open spec fn wf(&self) -> bool {
        &&& self.id == CommandId::RecordedStepsGeneral
        &&& self.sub_id == RecordedStepsCommandSubId::Request
        &&& self.unk == 1
    }

    open spec fn wire(&self) -> Seq<u8> {
        seq![self.id.wire_byte(), self.sub_id.wire_byte(), self.unk]
    }

    open spec fn tagged(raw: Seq<u8>) -> bool {
        &&& raw.len() >= 2
        &&& raw[0] == CommandId::RecordedStepsGeneral.wire_byte()
        &&& raw[1] == RecordedStepsCommandSubId::Request.wire_byte()
    }

    open spec fn shaped(raw: Seq<u8>) -> bool {
        &&& raw.len() == 3
        &&& raw[2] == 1
    }

    fn well_formed(&self) -> (b: bool) {
        self.id == CommandId::RecordedStepsGeneral
            && self.sub_id == RecordedStepsCommandSubId::Request
            && self.unk == 1
    }

    fn encode(&self) -> (bytes: Vec<u8>) {
        let mut bytes: Vec<u8> = Vec::new();
        bytes.push(self.id.to_byte());
        bytes.push(self.sub_id.to_byte());
        bytes.push(self.unk);
        assert(bytes@ =~= self.wire());
        bytes
    }

    fn decode(raw: &[u8]) -> (r: Result<Self, DecodeError>) {
        if raw.len() < 2 || raw[0] != CommandId::RecordedStepsGeneral.to_byte()
            || raw[1] != RecordedStepsCommandSubId::Request.to_byte() {
            return Err(DecodeError::TypeMismatch);
        }
        if raw.len() != 3 {
            return Err(DecodeError::Malformed);
        }
        if raw[2] != 1 {
            return Err(DecodeError::Malformed);
        }
        let v = RecordedStepsRequest {
            id: CommandId::RecordedStepsGeneral,
            sub_id: RecordedStepsCommandSubId::Request,
            unk: 1,
        };
        proof {
            assert(v.wire() =~= raw@);
            v.lemma_wire_accepted();
        }
        Ok(v)
    }

    proof fn lemma_wire_accepted(&self) {
    }

    proof fn lemma_wire_injective(&self, other: &Self) {
    }
}

impl CommandRequest for RecordedStepsRequest {
    open spec fn spec_write_type() -> WriteType {
        WriteType::WithResponse
    }

    open spec fn spec_endpoint() -> Endpoint {
        Endpoint::GeneralRw1
    }

    fn write_type() -> (w: WriteType) {
        WriteType::WithResponse
    }

    fn endpoint() -> (e: Endpoint) {
        Endpoint::GeneralRw1
    }
}

} // verus!
