//! Codec for the command protocol of the LS02 smart watch, a demultiplexer
//! for the notifications the watch sends, and the per-day store that keeps
//! the heart-rate and step telemetry decoded from them.
//!
//! The watch exposes a handful of Bluetooth LE characteristics. Requests are
//! written to one of them, and the answers arrive later as notifications on
//! another. A record has no common envelope: its first one or two bytes name
//! the command, and the rest is a fixed layout whose length is implied by
//! the type. This crate states each layout once, as the bytes of a value
//! ([`WireRecord::wire`]), and proves that encoding produces exactly those
//! bytes and that decoding accepts exactly those bytes.
//!
//! Nothing here performs I/O: the transport hands byte buffers in and takes
//! byte buffers out.

pub mod alert;
pub mod common;
pub mod data2;
pub mod db;
pub mod demux;
pub mod general;
pub mod telemetry;
pub mod watch;
pub mod wire;

use vstd::prelude::*;

verus! {

/// The name the watch advertises.
pub const DEVICE_NAME: &'static str = "Haylou Smart Watch 2";

/// The largest number of bytes a single write may carry.
pub const MAX_WRITE_SIZE: usize = 48;

/// Identifier of the general service.
pub const SERVICE_GENERAL: u128 = 0x0000_55FF_0000_1000_8000_0080_5F9B_34FB;

/// Identifier of the first data service.
pub const SERVICE_DATA1: u128 = 0x0000_56FF_0000_1000_8000_0080_5F9B_34FB;

/// Identifier of the second data service.
pub const SERVICE_DATA2: u128 = 0x0000_60FF_0000_1000_8000_0080_5F9B_34FB;

/// Identifier of the third data service.
pub const SERVICE_DATA3: u128 = 0x0000_61FF_0000_1000_8000_0080_5F9B_34FB;

pub const CHAR_GENERAL_RW_1: Endpoint = Endpoint::GeneralRw1;

pub const CHAR_GENERAL_N_1: Endpoint = Endpoint::GeneralN1;

pub const CHAR_GENERAL_RW_2: Endpoint = Endpoint::GeneralRw2;

pub const CHAR_GENERAL_N_2: Endpoint = Endpoint::GeneralN2;

pub const CHAR_DATA1_RW: Endpoint = Endpoint::Data1Rw;

pub const CHAR_DATA1_N: Endpoint = Endpoint::Data1N;

pub const CHAR_DATA2_RW: Endpoint = Endpoint::Data2Rw;

pub const CHAR_DATA2_N: Endpoint = Endpoint::Data2N;

pub const CHAR_DATA3_RW: Endpoint = Endpoint::Data3Rw;

pub const CHAR_DATA3_N: Endpoint = Endpoint::Data3N;

/// A service of the watch, the group a characteristic belongs to.
#[derive(Copy, Clone, PartialEq, Eq, Debug, Structural)]
pub enum Service {
    General,
    Data1,
    Data2,
    Data3,
}

impl Service {
    /// The 128-bit identifier of the service.
    pub open spec fn spec_uuid(self) -> u128 {
        match self {
            Service::General => SERVICE_GENERAL,
            Service::Data1 => SERVICE_DATA1,
            Service::Data2 => SERVICE_DATA2,
            Service::Data3 => SERVICE_DATA3,
        }
    }

    pub fn uuid(self) -> (id: u128)
        ensures
            id == self.spec_uuid(),
    {
        match self {
            Service::General => SERVICE_GENERAL,
            Service::Data1 => SERVICE_DATA1,
            Service::Data2 => SERVICE_DATA2,
            Service::Data3 => SERVICE_DATA3,
        }
    }
}

/// What a characteristic can be used for.
#[derive(Copy, Clone, PartialEq, Eq, Debug, Structural)]
pub enum Access {
    Write,
    WriteWithoutResponse,
    Notify,
}

/// How a write is delivered: acknowledged by the watch, or fire-and-forget.
#[derive(Copy, Clone, PartialEq, Eq, Debug, Structural)]
pub enum WriteType {
    WithResponse,
    WithoutResponse,
}

/// A characteristic of the watch: the place a request is written to, or the
/// place notifications of some shape arrive on.
#[derive(Copy, Clone, PartialEq, Eq, Debug, Structural)]
pub enum Endpoint {
    GeneralRw1,
    GeneralN1,
    GeneralRw2,
    GeneralN2,
    Data1Rw,
    Data1N,
    Data2Rw,
    Data2N,
    Data3Rw,
    Data3N,
}

impl Endpoint {
    /// The 128-bit identifier of the characteristic.
    pub open spec fn spec_uuid(self) -> u128 {
        match self {
            Endpoint::GeneralRw1 => 0x0000_33F1_0000_1000_8000_0080_5F9B_34FB,
            Endpoint::GeneralN1 => 0x0000_33F2_0000_1000_8000_0080_5F9B_34FB,
            Endpoint::GeneralRw2 => 0x0000_B003_0000_1000_8000_0080_5F9B_34FB,
            Endpoint::GeneralN2 => 0x0000_B004_0000_1000_8000_0080_5F9B_34FB,
            Endpoint::Data1Rw => 0x0000_34F1_0000_1000_8000_0080_5F9B_34FB,
            Endpoint::Data1N => 0x0000_34F2_0000_1000_8000_0080_5F9B_34FB,
            Endpoint::Data2Rw => 0x0000_6001_0000_1000_8000_0080_5F9B_34FB,
            Endpoint::Data2N => 0x0000_6002_0000_1000_8000_0080_5F9B_34FB,
            Endpoint::Data3Rw => 0x0000_6101_0000_1000_8000_0080_5F9B_34FB,
            Endpoint::Data3N => 0x0000_6102_0000_1000_8000_0080_5F9B_34FB,
        }
    }

    /// The service the characteristic belongs to.
    pub open spec fn spec_service(self) -> Service {
        match self {
            Endpoint::GeneralRw1
            | Endpoint::GeneralN1
            | Endpoint::GeneralRw2
            | Endpoint::GeneralN2 => Service::General,
            Endpoint::Data1Rw | Endpoint::Data1N => Service::Data1,
            Endpoint::Data2Rw | Endpoint::Data2N => Service::Data2,
            Endpoint::Data3Rw | Endpoint::Data3N => Service::Data3,
        }
    }

    /// What the characteristic is used for.
    pub open spec fn spec_access(self) -> Access {
        match self {
            Endpoint::GeneralRw1 | Endpoint::GeneralRw2 => Access::Write,
            Endpoint::Data1Rw | Endpoint::Data2Rw | Endpoint::Data3Rw => {
                Access::WriteWithoutResponse
            },
            Endpoint::GeneralN1
            | Endpoint::GeneralN2
            | Endpoint::Data1N
            | Endpoint::Data2N
            | Endpoint::Data3N => Access::Notify,
        }
    }

    /// The characteristic with the given identifier, if the watch has one.
    pub open spec fn of_uuid(id: u128) -> Option<Endpoint> {
        if id == Endpoint::GeneralRw1.spec_uuid() {
            Some(Endpoint::GeneralRw1)
        } else if id == Endpoint::GeneralN1.spec_uuid() {
            Some(Endpoint::GeneralN1)
        } else if id == Endpoint::GeneralRw2.spec_uuid() {
            Some(Endpoint::GeneralRw2)
        } else if id == Endpoint::GeneralN2.spec_uuid() {
            Some(Endpoint::GeneralN2)
        } else if id == Endpoint::Data1Rw.spec_uuid() {
            Some(Endpoint::Data1Rw)
        } else if id == Endpoint::Data1N.spec_uuid() {
            Some(Endpoint::Data1N)
        } else if id == Endpoint::Data2Rw.spec_uuid() {
            Some(Endpoint::Data2Rw)
        } else if id == Endpoint::Data2N.spec_uuid() {
            Some(Endpoint::Data2N)
        } else if id == Endpoint::Data3Rw.spec_uuid() {
            Some(Endpoint::Data3Rw)
        } else if id == Endpoint::Data3N.spec_uuid() {
            Some(Endpoint::Data3N)
        } else {
            None
        }
    }

    pub fn uuid(self) -> (id: u128)
        ensures
            id == self.spec_uuid(),
    {
        match self {
            Endpoint::GeneralRw1 => 0x0000_33F1_0000_1000_8000_0080_5F9B_34FB,
            Endpoint::GeneralN1 => 0x0000_33F2_0000_1000_8000_0080_5F9B_34FB,
            Endpoint::GeneralRw2 => 0x0000_B003_0000_1000_8000_0080_5F9B_34FB,
            Endpoint::GeneralN2 => 0x0000_B004_0000_1000_8000_0080_5F9B_34FB,
            Endpoint::Data1Rw => 0x0000_34F1_0000_1000_8000_0080_5F9B_34FB,
            Endpoint::Data1N => 0x0000_34F2_0000_1000_8000_0080_5F9B_34FB,
            Endpoint::Data2Rw => 0x0000_6001_0000_1000_8000_0080_5F9B_34FB,
            Endpoint::Data2N => 0x0000_6002_0000_1000_8000_0080_5F9B_34FB,
            Endpoint::Data3Rw => 0x0000_6101_0000_1000_8000_0080_5F9B_34FB,
            Endpoint::Data3N => 0x0000_6102_0000_1000_8000_0080_5F9B_34FB,
        }
    }

    pub fn service(self) -> (s: Service)
        ensures
            s == self.spec_service(),
    {
        match self {
            Endpoint::GeneralRw1
            | Endpoint::GeneralN1
            | Endpoint::GeneralRw2
            | Endpoint::GeneralN2 => Service::General,
            Endpoint::Data1Rw | Endpoint::Data1N => Service::Data1,
            Endpoint::Data2Rw | Endpoint::Data2N => Service::Data2,
            Endpoint::Data3Rw | Endpoint::Data3N => Service::Data3,
        }
    }

    pub fn access(self) -> (a: Access)
        ensures
            a == self.spec_access(),
    {
        match self {
            Endpoint::GeneralRw1 | Endpoint::GeneralRw2 => Access::Write,
            Endpoint::Data1Rw | Endpoint::Data2Rw | Endpoint::Data3Rw => {
                Access::WriteWithoutResponse
            },
            Endpoint::GeneralN1
            | Endpoint::GeneralN2
            | Endpoint::Data1N
            | Endpoint::Data2N
            | Endpoint::Data3N => Access::Notify,
        }
    }

    /// Finds the characteristic that a notification names by its identifier.
    pub fn from_uuid(id: u128) -> (e: Option<Endpoint>)
        ensures
            e == Self::of_uuid(id),
    {
        if id == Endpoint::GeneralRw1.uuid() {
            Some(Endpoint::GeneralRw1)
        } else if id == Endpoint::GeneralN1.uuid() {
            Some(Endpoint::GeneralN1)
        } else if id == Endpoint::GeneralRw2.uuid() {
            Some(Endpoint::GeneralRw2)
        } else if id == Endpoint::GeneralN2.uuid() {
            Some(Endpoint::GeneralN2)
        } else if id == Endpoint::Data1Rw.uuid() {
            Some(Endpoint::Data1Rw)
        } else if id == Endpoint::Data1N.uuid() {
            Some(Endpoint::Data1N)
        } else if id == Endpoint::Data2Rw.uuid() {
            Some(Endpoint::Data2Rw)
        } else if id == Endpoint::Data2N.uuid() {
            Some(Endpoint::Data2N)
        } else if id == Endpoint::Data3Rw.uuid() {
            Some(Endpoint::Data3Rw)
        } else if id == Endpoint::Data3N.uuid() {
            Some(Endpoint::Data3N)
        } else {
            None
        }
    }

    /// An identifier names a characteristic exactly when it is that
    /// characteristic's identifier: no two characteristics share one.
    pub proof fn lemma_uuid_inverse(e: Endpoint, id: u128)
        ensures
            Self::of_uuid(id) == Some(e) <==> e.spec_uuid() == id,
    {
    }
}

/// Why a buffer was not decoded as the type asked for.
#[derive(Copy, Clone, PartialEq, Eq, Debug, Structural)]
pub enum DecodeError {
    /// The buffer does not begin with the identifier bytes of the type. This
    /// is the common outcome while a buffer is being classified, and says
    /// only that another type should be tried.
    TypeMismatch,
    /// The identifier is right, but what follows has the wrong length or
    /// holds a byte that no value of its field is mapped to.
    Malformed,
}

/// A record of the protocol: a value with a fixed place for every field, and
/// the bytes that carry it.
///
/// `wire` is the layout. `tagged` says that a buffer begins with the
/// identifier bytes of the type, `shaped` that the whole buffer has the
/// length and field bytes of a record of the type. The two lemmas tie them
/// together: the bytes of a well-formed value are accepted, and no two
/// well-formed values share their bytes.
pub trait WireRecord: Sized + View {
    /// The identifier fields hold the constants of the type, and a
    /// variable-length payload fits into one write.
    spec fn wf(&self) -> bool;

    /// The bytes that carry this value.
    spec fn wire(&self) -> Seq<u8>;

    /// The buffer begins with the identifier bytes of the type.
    spec fn tagged(raw: Seq<u8>) -> bool;

    /// The buffer has the length of a record of the type, and every byte
    /// that stands for an enumerated field is mapped to a value.
    spec fn shaped(raw: Seq<u8>) -> bool;

    /// Tests `wf`.
    fn well_formed(&self) -> (b: bool)
        ensures
            b == self.wf(),
    ;

    /// The exact bytes to transmit: the identifier bytes, then every field
    /// in order, each in its own width and byte order.
    fn encode(&self) -> (bytes: Vec<u8>)
        requires
            self.wf(),
        ensures
            bytes@ == self.wire(),
    ;

    /// Decodes a whole buffer as a value of this type. Every byte is
    /// consumed: a buffer that only begins with a record is rejected.
    fn decode(raw: &[u8]) -> (r: Result<Self, DecodeError>)
        ensures
            r is Ok <==> Self::tagged(raw@) && Self::shaped(raw@),
            match r {
                Ok(v) => v.wf() && v.wire() == raw@,
                Err(DecodeError::TypeMismatch) => !Self::tagged(raw@),
                Err(DecodeError::Malformed) => Self::tagged(raw@) && !Self::shaped(raw@),
            },
    ;

    /// The bytes of a well-formed value are accepted by the decoder.
    proof fn lemma_wire_accepted(&self)
        requires
            self.wf(),
        ensures
            Self::tagged(self.wire()),
            Self::shaped(self.wire()),
    ;

    /// Well-formed values with the same bytes have the same fields.
    proof fn lemma_wire_injective(&self, other: &Self)
        requires
            self.wf(),
            other.wf(),
            self.wire() == other.wire(),
        ensures
            self@ == other@,
    ;
}

/// What `WireRecord::decode` promises of its result `r` on the buffer `raw`.
pub open spec fn decodes<T: WireRecord>(raw: Seq<u8>, r: Result<T, DecodeError>) -> bool {
    &&& r is Ok <==> accepts::<T>(raw)
    &&& match r {
        Ok(v) => v.wf() && v.wire() == raw,
        Err(DecodeError::TypeMismatch) => !T::tagged(raw),
        Err(DecodeError::Malformed) => T::tagged(raw) && !T::shaped(raw),
    }
}

/// Whether a buffer is the encoding of some value of the type.
pub open spec fn accepts<T: WireRecord>(raw: Seq<u8>) -> bool {
    T::tagged(raw) && T::shaped(raw)
}

/// Decoding inverts encoding: whatever the decoder returns on the bytes of
/// a well-formed value, it is that value, field for field.
pub proof fn lemma_decode_inverts_encode<T: WireRecord>(v: T, r: Result<T, DecodeError>)
    requires
        v.wf(),
        decodes(v.wire(), r),
    ensures
        r matches Ok(d) && d@ == v@,
{
    v.lemma_wire_accepted();
    match r {
        Ok(d) => {
            d.lemma_wire_injective(&v);
        },
        Err(_) => {},
    }
}

/// A command that is written to the watch.
pub trait CommandRequest: WireRecord {
    /// How the write is delivered.
    spec fn spec_write_type() -> WriteType;

    /// The characteristic the command is written to.
    spec fn spec_endpoint() -> Endpoint;

    fn write_type() -> (w: WriteType)
        ensures
            w == Self::spec_write_type(),
    ;

    fn endpoint() -> (e: Endpoint)
        ensures
            e == Self::spec_endpoint(),
    ;

    /// The bytes of the command.
    fn build(&self) -> (cmd: Vec<u8>)
        requires
            self.wf(),
        ensures
            cmd@ == self.wire(),
    {
        self.encode()
    }

    /// The number of bytes of the command.
    fn len(&self) -> (n: usize)
        requires
            self.wf(),
        ensures
            n == self.wire().len(),
    {
        self.encode().len()
    }
}

/// A record that the watch sends as a notification.
pub trait CommandResponse: WireRecord {
    /// The characteristic that notifications of this shape arrive on.
    spec fn spec_endpoint() -> Endpoint;

    fn endpoint() -> (e: Endpoint)
        ensures
            e == Self::spec_endpoint(),
    ;

    /// Tries a buffer as a response of this type. The buffer is decoded
    /// whole. A buffer that does not begin with the identifier bytes of the
    /// type is a type mismatch, decided from these bytes alone; a buffer
    /// that does, but is no record of the type, is malformed.
    fn try_parse(raw: &Vec<u8>) -> (r: Result<Self, DecodeError>)
        ensures
            r is Ok <==> Self::tagged(raw@) && Self::shaped(raw@),
            match r {
                Ok(v) => v.wf() && v.wire() == raw@,
                Err(DecodeError::TypeMismatch) => !Self::tagged(raw@),
                Err(DecodeError::Malformed) => Self::tagged(raw@) && !Self::shaped(raw@),
            },
    {
        Self::decode(raw.as_slice())
    }
}

/// A write for the transport to perform: which characteristic, which
/// delivery mode, which bytes.
#[derive(PartialEq, Eq, Debug)]
pub struct OutboundWrite {
    pub endpoint: Endpoint,
    pub write_type: WriteType,
    pub bytes: Vec<u8>,
}

/// Prepares the write that sends `cmd`: the bytes of the command, bound to
/// the characteristic and the delivery mode of its type.
pub fn frame<C: CommandRequest>(cmd: &C) -> (w: OutboundWrite)
    requires
        cmd.wf(),
    ensures
        w.endpoint == C::spec_endpoint(),
        w.write_type == C::spec_write_type(),
        w.bytes@ == cmd.wire(),
{
    OutboundWrite { endpoint: C::endpoint(), write_type: C::write_type(), bytes: cmd.build() }
}

/// The outcome of reading a notification as one given response type.
#[derive(PartialEq, Eq, Debug)]
pub enum CommandResponseResult<C: CommandResponse> {
    /// The buffer is not a record of the type, for the reason given: its
    /// identifier bytes are those of another type, or it is malformed.
    Invalid(DecodeError),
    /// The buffer is a record of the type, but arrived on a characteristic
    /// that the type is not bound to.
    ImproperCharacteristic,
    /// The buffer is a record of the type and arrived where it belongs.
    Parsed(C),
}

/// Reads the buffer of a notification that arrived on `notif_char` as a
/// response of type `C`.
pub fn read<C: CommandResponse>(value: &Vec<u8>, notif_char: Endpoint) -> (r: CommandResponseResult<
    C,
>)
    ensures
        match r {
            CommandResponseResult::Parsed(res) => res.wf() && res.wire() == value@ && notif_char
                == C::spec_endpoint(),
            CommandResponseResult::ImproperCharacteristic => accepts::<C>(value@) && notif_char
                != C::spec_endpoint(),
            CommandResponseResult::Invalid(DecodeError::TypeMismatch) => !C::tagged(value@),
            CommandResponseResult::Invalid(DecodeError::Malformed) => C::tagged(value@)
                && !C::shaped(value@),
        },
{
    match C::try_parse(value) {
        Ok(res) => {
            if C::endpoint() == notif_char {
                CommandResponseResult::Parsed(res)
            } else {
                CommandResponseResult::ImproperCharacteristic
            }
        },
        Err(e) => CommandResponseResult::Invalid(e),
    }
}

} // verus!
