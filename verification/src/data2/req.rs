//! Commands written to the second data service.

use crate::common::{CommandId, HeartRateCommandSubId, RecordedStepsCommandSubId};
use crate::{CommandRequest, DecodeError, Endpoint, WireRecord, WriteType};
use vstd::prelude::*;

verus! {

/// Asks for the recorded heart-rate data.
#[derive(Copy, Clone, PartialEq, Eq, Debug)]
pub struct HeartRateDataRequest {
    pub id: CommandId,
    pub sub_id: HeartRateCommandSubId,
}

impl HeartRateDataRequest {
    /// Number of bytes a record of this type takes on the wire.
    pub const WIRE_LEN: usize = 2;

    pub fn new() -> (req: Self)
        ensures
            req.wf(),
            req == (HeartRateDataRequest {
                id: CommandId::HeartRate,
                sub_id: HeartRateCommandSubId::DataRequest,
            }),
    {
        HeartRateDataRequest {
            id: CommandId::HeartRate,
            sub_id: HeartRateCommandSubId::DataRequest,
        }
    }
}

impl View for HeartRateDataRequest {
    type V = HeartRateDataRequest;

    open spec fn view(&self) -> HeartRateDataRequest {
        *self
    }
}

impl WireRecord for HeartRateDataRequest {
    open spec fn wf(&self) -> bool {
        &&& self.id == CommandId::HeartRate
        &&& self.sub_id == HeartRateCommandSubId::DataRequest
    }

    open spec fn wire(&self) -> Seq<u8> {
        seq![self.id.wire_byte(), self.sub_id.wire_byte()]
    }

    open spec fn tagged(raw: Seq<u8>) -> bool {
        &&& raw.len() >= 2
        &&& raw[0] == CommandId::HeartRate.wire_byte()
        &&& raw[1] == HeartRateCommandSubId::DataRequest.wire_byte()
    }

    open spec fn shaped(raw: Seq<u8>) -> bool {
        raw.len() == 2
    }

    fn well_formed(&self) -> (b: bool) {
        self.id == CommandId::HeartRate && self.sub_id == HeartRateCommandSubId::DataRequest
    }

    fn encode(&self) -> (bytes: Vec<u8>) {
        let mut bytes: Vec<u8> = Vec::new();
        bytes.push(self.id.to_byte());
        bytes.push(self.sub_id.to_byte());
        assert(bytes@ =~= self.wire());
        bytes
    }

    fn decode(raw: &[u8]) -> (r: Result<Self, DecodeError>) {
        if raw.len() < 2 || raw[0] != CommandId::HeartRate.to_byte()
            || raw[1] != HeartRateCommandSubId::DataRequest.to_byte() {
            return Err(DecodeError::TypeMismatch);
        }
        if raw.len() != 2 {
            return Err(DecodeError::Malformed);
        }
        let v = HeartRateDataRequest {
            id: CommandId::HeartRate,
            sub_id: HeartRateCommandSubId::DataRequest,
        };
        proof {
            assert(v.wire() =~= raw@);
            v.lemma_wire_accepted();
        }
        Ok(v)
    }

    proof fn lemma_wire_accepted(&self) {
    }

    proof fn lemma_wire_injective(&self, other: &Self) {
    }
}

impl CommandRequest for HeartRateDataRequest {
    open spec fn spec_write_type() -> WriteType {
        WriteType::WithoutResponse
    }

    open spec fn spec_endpoint() -> Endpoint {
        Endpoint::Data2Rw
    }

    fn write_type() -> (w: WriteType) {
        WriteType::WithoutResponse
    }

    fn endpoint() -> (e: Endpoint) {
        Endpoint::Data2Rw
    }
}

/// Switches the periodic heart-rate measurement on.
#[derive(Copy, Clone, PartialEq, Eq, Debug)]
pub struct HeartRateEnableRequest {
    pub id: CommandId,
    pub sub_id: HeartRateCommandSubId,
}

impl HeartRateEnableRequest {
    /// Number of bytes a record of this type takes on the wire.
    pub const WIRE_LEN: usize = 2;

    pub fn new() -> (req: Self)
        ensures
            req.wf(),
            req == (HeartRateEnableRequest {
                id: CommandId::HeartRate,
                sub_id: HeartRateCommandSubId::Enable,
            }),
    {
        HeartRateEnableRequest { id: CommandId::HeartRate, sub_id: HeartRateCommandSubId::Enable }
    }
}

impl View for HeartRateEnableRequest {
    type V = HeartRateEnableRequest;

    open spec fn view(&self) -> HeartRateEnableRequest {
        *self
    }
}

impl WireRecord for HeartRateEnableRequest {
    open spec fn wf(&self) -> bool {
        &&& self.id == CommandId::HeartRate
        &&& self.sub_id == HeartRateCommandSubId::Enable
    }

    open spec fn wire(&self) -> Seq<u8> {
        seq![self.id.wire_byte(), self.sub_id.wire_byte()]
    }

    open spec fn tagged(raw: Seq<u8>) -> bool {
        &&& raw.len() >= 2
        &&& raw[0] == CommandId::HeartRate.wire_byte()
        &&& raw[1] == HeartRateCommandSubId::Enable.wire_byte()
    }

    open spec fn shaped(raw: Seq<u8>) -> bool {
        raw.len() == 2
    }

    fn well_formed(&self) -> (b: bool) {
        self.id == CommandId::HeartRate && self.sub_id == HeartRateCommandSubId::Enable
    }

    fn encode(&self) -> (bytes: Vec<u8>) {
        let mut bytes: Vec<u8> = Vec::new();
        bytes.push(self.id.to_byte());
        bytes.push(self.sub_id.to_byte());
        assert(bytes@ =~= self.wire());
        bytes
    }

    fn decode(raw: &[u8]) -> (r: Result<Self, DecodeError>) {
        if raw.len() < 2 || raw[0] != CommandId::HeartRate.to_byte()
            || raw[1] != HeartRateCommandSubId::Enable.to_byte() {
            return Err(DecodeError::TypeMismatch);
        }
        if raw.len() != 2 {
            return Err(DecodeError::Malformed);
        }
        let v = HeartRateEnableRequest {
            id: CommandId::HeartRate,
            sub_id: HeartRateCommandSubId::Enable,
        };
        proof {
            assert(v.wire() =~= raw@);
            v.lemma_wire_accepted();
        }
        Ok(v)
    }

    proof fn lemma_wire_accepted(&self) {
    }

    proof fn lemma_wire_injective(&self, other: &Self) {
    }
}

impl CommandRequest for HeartRateEnableRequest {
    open spec fn spec_write_type() -> WriteType {
        WriteType::WithoutResponse
    }

    open spec fn spec_endpoint() -> Endpoint {
        Endpoint::Data2Rw
    }

    fn write_type() -> (w: WriteType) {
        WriteType::WithoutResponse
    }

    fn endpoint() -> (e: Endpoint) {
        Endpoint::Data2Rw
    }
}

/// Switches the periodic heart-rate measurement off.
#[derive(Copy, Clone, PartialEq, Eq, Debug)]
pub struct HeartRateDisableRequest {
    pub id: CommandId,
    pub sub_id: HeartRateCommandSubId,
}

impl HeartRateDisableRequest {
    /// Number of bytes a record of this type takes on the wire.
    pub const WIRE_LEN: usize = 2;

    pub fn new() -> (req: Self)
        ensures
            req.wf(),
            req == (HeartRateDisableRequest {
                id: CommandId::HeartRate,
                sub_id: HeartRateCommandSubId::Disable,
            }),
    {
        HeartRateDisableRequest { id: CommandId::HeartRate, sub_id: HeartRateCommandSubId::Disable }
    }
}

impl View for HeartRateDisableRequest {
    type V = HeartRateDisableRequest;

    open spec fn view(&self) -> HeartRateDisableRequest {
        *self
    }
}

impl WireRecord for HeartRateDisableRequest {
    open spec fn wf(&self) -> bool {
        &&& self.id == CommandId::HeartRate
        &&& self.sub_id == HeartRateCommandSubId::Disable
    }

    open spec fn wire(&self) -> Seq<u8> {
        seq![self.id.wire_byte(), self.sub_id.wire_byte()]
    }

    open spec fn tagged(raw: Seq<u8>) -> bool {
        &&& raw.len() >= 2
        &&& raw[0] == CommandId::HeartRate.wire_byte()
        &&& raw[1] == HeartRateCommandSubId::Disable.wire_byte()
    }

    open spec fn shaped(raw: Seq<u8>) -> bool {
        raw.len() == 2
    }

    fn well_formed(&self) -> (b: bool) {
        self.id == CommandId::HeartRate && self.sub_id == HeartRateCommandSubId::Disable
    }

    fn encode(&self) -> (bytes: Vec<u8>) {
        let mut bytes: Vec<u8> = Vec::new();
        bytes.push(self.id.to_byte());
        bytes.push(self.sub_id.to_byte());
        assert(bytes@ =~= self.wire());
        bytes
    }

    fn decode(raw: &[u8]) -> (r: Result<Self, DecodeError>) {
        if raw.len() < 2 || raw[0] != CommandId::HeartRate.to_byte()
            || raw[1] != HeartRateCommandSubId::Disable.to_byte() {
            return Err(DecodeError::TypeMismatch);
        }
        if raw.len() != 2 {
            return Err(DecodeError::Malformed);
        }
        let v = HeartRateDisableRequest {
            id: CommandId::HeartRate,
            sub_id: HeartRateCommandSubId::Disable,
        };
        proof {
            assert(v.wire() =~= raw@);
            v.lemma_wire_accepted();
        }
        Ok(v)
    }

    proof fn lemma_wire_accepted(&self) {
    }

    proof fn lemma_wire_injective(&self, other: &Self) {
    }
}

impl CommandRequest for HeartRateDisableRequest {
    open spec fn spec_write_type() -> WriteType {
        WriteType::WithoutResponse
    }

    open spec fn spec_endpoint() -> Endpoint {
        Endpoint::Data2Rw
    }

    fn write_type() -> (w: WriteType) {
        WriteType::WithoutResponse
    }

    fn endpoint() -> (e: Endpoint) {
        Endpoint::Data2Rw
    }
}

/// Asks for the recorded steps, on the data service.
#[derive(Copy, Clone, PartialEq, Eq, Debug)]
pub struct RecordedStepsRequest {
    pub id: CommandId,
    pub sub_id: RecordedStepsCommandSubId,
    pub unk: u8,
}

impl RecordedStepsRequest {
    /// Number of bytes a record of this type takes on the wire.
    pub const WIRE_LEN: usize = 3;

    pub fn new() -> (req: Self)
        ensures
            req.wf(),
            req == (RecordedStepsRequest {
                id: CommandId::RecordedStepsData2,
                sub_id: RecordedStepsCommandSubId::Request,
                unk: 1,
            }),
    {
        RecordedStepsRequest {
            id: CommandId::RecordedStepsData2,
            sub_id: RecordedStepsCommandSubId::Request,
            unk: 1,
        }
    }
}

impl View for RecordedStepsRequest {
    type V = RecordedStepsRequest;

    open spec fn view(&self) -> RecordedStepsRequest {
        *self
    }
}

impl WireRecord for RecordedStepsRequest {
    open spec fn wf(&self) -> bool {
        &&& self.id == CommandId::RecordedStepsData2
        &&& self.sub_id == RecordedStepsCommandSubId::Request
        &&& self.unk == 1
    }

    open spec fn wire(&self) -> Seq<u8> {
        seq![self.id.wire_byte(), self.sub_id.wire_byte(), self.unk]
    }

    open spec fn tagged(raw: Seq<u8>) -> bool {
        &&& raw.len() >= 2
        &&& raw[0] == CommandId::RecordedStepsData2.wire_byte()
        &&& raw[1] == RecordedStepsCommandSubId::Request.wire_byte()
    }

    open spec fn shaped(raw: Seq<u8>) -> bool {
        &&& raw.len() == 3
        &&& raw[2] == 1
    }

    fn well_formed(&self) -> (b: bool) {
        self.id == CommandId::RecordedStepsData2
            && self.sub_id == RecordedStepsCommandSubId::Request
            && self.unk == 1
    }

    fn encode(&self) -> (bytes: Vec<u8>) {
        let mut bytes: Vec<u8> = Vec::new();
        bytes.push(self.id.to_byte());
        bytes.push(self.sub_id.to_byte());
        bytes.push(self.unk);
        assert(bytes@ =~= self.wire());
        bytes
    }

    fn decode(raw: &[u8]) -> (r: Result<Self, DecodeError>) {
        if raw.len() < 2 || raw[0] != CommandId::RecordedStepsData2.to_byte()
            || raw[1] != RecordedStepsCommandSubId::Request.to_byte() {
            return Err(DecodeError::TypeMismatch);
        }
        if raw.len() != 3 {
            return Err(DecodeError::Malformed);
        }
        if raw[2] != 1 {
            return Err(DecodeError::Malformed);
        }
        let v = RecordedStepsRequest {
            id: CommandId::RecordedStepsData2,
            sub_id: RecordedStepsCommandSubId::Request,
            unk: 1,
        };
        proof {
            assert(v.wire() =~= raw@);
            v.lemma_wire_accepted();
        }
        Ok(v)
    }

    proof fn lemma_wire_accepted(&self) {
    }

    proof fn lemma_wire_injective(&self, other: &Self) {
    }
}

impl CommandRequest for RecordedStepsRequest {
    open spec fn spec_write_type() -> WriteType {
        WriteType::WithoutResponse
    }

    open spec fn spec_endpoint() -> Endpoint {
        Endpoint::Data2Rw
    }

    fn write_type() -> (w: WriteType) {
        WriteType::WithoutResponse
    }

    fn endpoint() -> (e: Endpoint) {
        Endpoint::Data2Rw
    }
}

} // verus!
