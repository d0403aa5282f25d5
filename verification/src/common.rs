//! Values shared by the request and response records: the command
//! identifiers, the small enumerations that travel as one byte each, the
//! calendar date and the step-count entry.
//!
//! Every enumeration has an explicit, checked mapping to and from its wire
//! byte. A byte outside the table is never given a default meaning.

use crate::wire::{be16, get_be16, lemma_be16_injective, put_be16};
use std::cmp::Ordering;
use vstd::prelude::*;

verus! {

/// The key the watch is paired with.
pub type PairKey = [u8; 4];

/// The value that marks a heart-rate field as not applicable.
pub const INVALID_HEART_RATE: u8 = 255;

/// A calendar date. Dates are equal and ordered by (year, month, day).
///
/// On the wire a date takes four bytes: the year with its most significant
/// byte first, then the month, then the day. No range is imposed on the
/// fields: the watch is taken at its word.
#[derive(Copy, Clone, PartialEq, Eq, Ord, Hash, Debug, Structural)]
pub struct Date {
    pub year: u16,
    pub month: u8,
    pub day: u8,
}

impl Date {
    /// Number of bytes a date takes on the wire.
    pub const WIRE_LEN: usize = 4;

    pub fn new(year: u16, month: u8, day: u8) -> (date: Date)
        ensures
            date == (Date { year, month, day }),
    {
        Date { year, month, day }
    }

    pub fn year(&self) -> (year: u16)
        ensures
            year == self.year,
    {
        self.year
    }

    pub fn month(&self) -> (month: u8)
        ensures
            month == self.month,
    {
        self.month
    }

    pub fn day(&self) -> (day: u8)
        ensures
            day == self.day,
    {
        self.day
    }

    /// Whether this date lies strictly before `other`.
    pub open spec fn is_before(&self, other: &Date) -> bool {
        ||| self.year < other.year
        ||| self.year == other.year && self.month < other.month
        ||| self.year == other.year && self.month == other.month && self.day < other.day
    }

    /// The four bytes of this date on the wire.
    pub open spec fn wire(&self) -> Seq<u8> {
        be16(self.year) + seq![self.month, self.day]
    }

    /// Appends the wire bytes of this date.
    pub fn put(&self, out: &mut Vec<u8>)
        ensures
            final(out)@ == old(out)@ + self.wire(),
    {
        put_be16(out, self.year);
        out.push(self.month);
        out.push(self.day);
        assert(out@ =~= old(out)@ + self.wire());
    }

    /// Reads the date whose wire bytes start at offset `at`.
    pub fn get(raw: &[u8], at: usize) -> (date: Date)
        requires
            at + 4 <= raw.len(),
        ensures
            date.wire() == raw@.subrange(at as int, at + 4),
    {
        let date = Date { year: get_be16(raw, at), month: raw[at + 2], day: raw[at + 3] };
        assert(be16(date.year) == raw@.subrange(at as int, at + 2));
        assert(date.wire() =~= raw@.subrange(at as int, at + 4));
        date
    }

    /// A date is determined by its wire bytes.
    pub proof fn lemma_wire_injective(a: Date, b: Date)
        requires
            a.wire() == b.wire(),
        ensures
            a == b,
    {
        assert(be16(a.year) =~= a.wire().subrange(0, 2));
        assert(be16(b.year) =~= b.wire().subrange(0, 2));
        lemma_be16_injective(a.year, b.year);
        assert(a.month == a.wire()[2] && b.month == b.wire()[2]);
        assert(a.day == a.wire()[3] && b.day == b.wire()[3]);
    }

    /// The order is strict and total: of two dates exactly one lies before
    /// the other, unless they are the same date.
    pub proof fn lemma_order_total(a: Date, b: Date)
        ensures
            a == b <==> !a.is_before(&b) && !b.is_before(&a),
            !(a.is_before(&b) && b.is_before(&a)),
    {
    }

    /// The order is transitive.
    pub proof fn lemma_order_transitive(a: Date, b: Date, c: Date)
        requires
            a.is_before(&b),
            b.is_before(&c),
        ensures
            a.is_before(&c),
    {
    }

    /// Whether a year has a 29th of February.
    pub open spec fn is_leap_year(year: u16) -> bool {
        year % 4 == 0 && (year % 100 != 0 || year % 400 == 0)
    }

    /// The number of days of a month, for the months 1 to 12.
    pub open spec fn days_in_month(year: u16, month: u8) -> u8 {
        if month == 2 {
            if Self::is_leap_year(year) {
                29
            } else {
                28
            }
        } else if month == 4 || month == 6 || month == 9 || month == 11 {
            30
        } else {
            31
        }
    }

    /// Whether the date is a day of the calendar: a month from 1 to 12 and
    /// a day that the month has.
    pub open spec fn is_calendar_date(&self) -> bool {
        &&& 1 <= self.month <= 12
        &&& 1 <= self.day <= Self::days_in_month(self.year, self.month)
    }

    /// The day after this one. A date that is no day of the calendar has
    /// none, and neither has the last day of the last year that sixteen
    /// bits can name.
    pub open spec fn spec_following(&self) -> Option<Date> {
        if !self.is_calendar_date() {
            None
        } else if self.day < Self::days_in_month(self.year, self.month) {
            Some(Date { year: self.year, month: self.month, day: (self.day + 1) as u8 })
        } else if self.month < 12 {
            Some(Date { year: self.year, month: (self.month + 1) as u8, day: 1 })
        } else if self.year < 65535 {
            Some(Date { year: (self.year + 1) as u16, month: 1, day: 1 })
        } else {
            None
        }
    }

    /// Tests `is_calendar_date`.
    pub fn is_valid(&self) -> (b: bool)
        ensures
            b == self.is_calendar_date(),
    {
        if self.month < 1 || self.month > 12 || self.day < 1 {
            return false;
        }
        self.day <= Self::month_len(self.year, self.month)
    }

    fn month_len(year: u16, month: u8) -> (days: u8)
        ensures
            days == Self::days_in_month(year, month),
    {
        if month == 2 {
            if year % 4 == 0 && (year % 100 != 0 || year % 400 == 0) {
                29
            } else {
                28
            }
        } else if month == 4 || month == 6 || month == 9 || month == 11 {
            30
        } else {
            31
        }
    }

    /// The day after this one, if there is one.
    pub fn following(&self) -> (next: Option<Date>)
        ensures
            next == self.spec_following(),
    {
        if !self.is_valid() {
            None
        } else if self.day < Self::month_len(self.year, self.month) {
            Some(Date { year: self.year, month: self.month, day: self.day + 1 })
        } else if self.month < 12 {
            Some(Date { year: self.year, month: self.month + 1, day: 1 })
        } else if self.year < 65535 {
            Some(Date { year: self.year + 1, month: 1, day: 1 })
        } else {
            None
        }
    }

    /// The day after a day of the calendar is a day of the calendar, it
    /// comes after that day, and no date lies between the two.
    pub proof fn lemma_following(date: Date, between: Date)
        ensures
            date.spec_following() matches Some(next) ==> {
                &&& next.is_calendar_date()
                &&& date.is_before(&next)
                &&& !(between.is_calendar_date() && date.is_before(&between) && between.is_before(
                    &next,
                ))
            },
    {
    }
}

impl PartialOrd for Date {
    fn partial_cmp(&self, other: &Date) -> (r: Option<Ordering>) {
        if self.year < other.year {
            Some(Ordering::Less)
        } else if self.year > other.year {
            Some(Ordering::Greater)
        } else if self.month < other.month {
            Some(Ordering::Less)
        } else if self.month > other.month {
            Some(Ordering::Greater)
        } else if self.day < other.day {
            Some(Ordering::Less)
        } else if self.day > other.day {
            Some(Ordering::Greater)
        } else {
            Some(Ordering::Equal)
        }
    }
}

impl vstd::std_specs::cmp::PartialOrdSpecImpl for Date {
    open spec fn obeys_partial_cmp_spec() -> bool {
        true
    }

    open spec fn partial_cmp_spec(&self, other: &Date) -> Option<Ordering> {
        if self.is_before(other) {
            Some(Ordering::Less)
        } else if other.is_before(self) {
            Some(Ordering::Greater)
        } else {
            Some(Ordering::Equal)
        }
    }
}

/// Identifies the command family a record belongs to; it is always the first byte on the wire.
#[derive(Copy, Clone, PartialEq, Eq, Debug, Structural)]
pub enum CommandId {
    Invalid,
    Config,
    DateTime,
    UserInfo,
    Reset,
    Steps,
    RecordedStepsData2,
    Alert,
    Weather,
    DevicePulseUnk2,
    HeartRateMenuData,
    HeartRate,
    Pair,
    Firmware,
    Battery,
    StepsUnk2,
    RecordedStepsGeneral,
    SilentMode,
    DevicePulse,
    HeartRateMenuGeneral,
    HeartRateUnk2,
    Sport,
}

impl CommandId {
    /// The byte that stands for this value on the wire.
    pub open spec fn wire_byte(self) -> u8 {
        match self {
            CommandId::Invalid => 0x00,
            CommandId::Config => 0x01,
            CommandId::DateTime => 0x04,
            CommandId::UserInfo => 0x05,
            CommandId::Reset => 0x07,
            CommandId::Steps => 0x09,
            CommandId::RecordedStepsData2 => 0x0A,
            CommandId::Alert => 0x0F,
            CommandId::Weather => 0x11,
            CommandId::DevicePulseUnk2 => 0x12,
            CommandId::HeartRateMenuData => 0x16,
            CommandId::HeartRate => 0x18,
            CommandId::Pair => 0x20,
            CommandId::Firmware => 0xA1,
            CommandId::Battery => 0xA2,
            CommandId::StepsUnk2 => 0xB1,
            CommandId::RecordedStepsGeneral => 0xB2,
            CommandId::SilentMode => 0xBE,
            CommandId::DevicePulse => 0xD1,
            CommandId::HeartRateMenuGeneral => 0xE5,
            CommandId::HeartRateUnk2 => 0xF7,
            CommandId::Sport => 0xFD,
        }
    }

    /// The value that a wire byte stands for, if it stands for any.
    pub open spec fn of_wire_byte(b: u8) -> Option<CommandId> {
        if b == 0x00 {
            Some(CommandId::Invalid)
        } else if b == 0x01 {
            Some(CommandId::Config)
        } else if b == 0x04 {
            Some(CommandId::DateTime)
        } else if b == 0x05 {
            Some(CommandId::UserInfo)
        } else if b == 0x07 {
            Some(CommandId::Reset)
        } else if b == 0x09 {
            Some(CommandId::Steps)
        } else if b == 0x0A {
            Some(CommandId::RecordedStepsData2)
        } else if b == 0x0F {
            Some(CommandId::Alert)
        } else if b == 0x11 {
            Some(CommandId::Weather)
        } else if b == 0x12 {
            Some(CommandId::DevicePulseUnk2)
        } else if b == 0x16 {
            Some(CommandId::HeartRateMenuData)
        } else if b == 0x18 {
            Some(CommandId::HeartRate)
        } else if b == 0x20 {
            Some(CommandId::Pair)
        } else if b == 0xA1 {
            Some(CommandId::Firmware)
        } else if b == 0xA2 {
            Some(CommandId::Battery)
        } else if b == 0xB1 {
            Some(CommandId::StepsUnk2)
        } else if b == 0xB2 {
            Some(CommandId::RecordedStepsGeneral)
        } else if b == 0xBE {
            Some(CommandId::SilentMode)
        } else if b == 0xD1 {
            Some(CommandId::DevicePulse)
        } else if b == 0xE5 {
            Some(CommandId::HeartRateMenuGeneral)
        } else if b == 0xF7 {
            Some(CommandId::HeartRateUnk2)
        } else if b == 0xFD {
            Some(CommandId::Sport)
        } else {
            None
        }
    }

    pub fn to_byte(self) -> (b: u8)
        ensures
            b == self.wire_byte(),
    {
        match self {
            CommandId::Invalid => 0x00,
            CommandId::Config => 0x01,
            CommandId::DateTime => 0x04,
            CommandId::UserInfo => 0x05,
            CommandId::Reset => 0x07,
            CommandId::Steps => 0x09,
            CommandId::RecordedStepsData2 => 0x0A,
            CommandId::Alert => 0x0F,
            CommandId::Weather => 0x11,
            CommandId::DevicePulseUnk2 => 0x12,
            CommandId::HeartRateMenuData => 0x16,
            CommandId::HeartRate => 0x18,
            CommandId::Pair => 0x20,
            CommandId::Firmware => 0xA1,
            CommandId::Battery => 0xA2,
            CommandId::StepsUnk2 => 0xB1,
            CommandId::RecordedStepsGeneral => 0xB2,
            CommandId::SilentMode => 0xBE,
            CommandId::DevicePulse => 0xD1,
            CommandId::HeartRateMenuGeneral => 0xE5,
            CommandId::HeartRateUnk2 => 0xF7,
            CommandId::Sport => 0xFD,
        }
    }

    /// Checked mapping from a wire byte; a byte outside the table gives `None`.
    pub fn from_byte(b: u8) -> (v: Option<CommandId>)
        ensures
            v == Self::of_wire_byte(b),
    {
        match b {
            0x00 => Some(CommandId::Invalid),
            0x01 => Some(CommandId::Config),
            0x04 => Some(CommandId::DateTime),
            0x05 => Some(CommandId::UserInfo),
            0x07 => Some(CommandId::Reset),
            0x09 => Some(CommandId::Steps),
            0x0A => Some(CommandId::RecordedStepsData2),
            0x0F => Some(CommandId::Alert),
            0x11 => Some(CommandId::Weather),
            0x12 => Some(CommandId::DevicePulseUnk2),
            0x16 => Some(CommandId::HeartRateMenuData),
            0x18 => Some(CommandId::HeartRate),
            0x20 => Some(CommandId::Pair),
            0xA1 => Some(CommandId::Firmware),
            0xA2 => Some(CommandId::Battery),
            0xB1 => Some(CommandId::StepsUnk2),
            0xB2 => Some(CommandId::RecordedStepsGeneral),
            0xBE => Some(CommandId::SilentMode),
            0xD1 => Some(CommandId::DevicePulse),
            0xE5 => Some(CommandId::HeartRateMenuGeneral),
            0xF7 => Some(CommandId::HeartRateUnk2),
            0xFD => Some(CommandId::Sport),
            _ => None,
        }
    }

    /// A byte is mapped to a value exactly when it is that value's wire byte.
    pub proof fn lemma_wire_byte_inverse(v: CommandId, b: u8)
        ensures
            Self::of_wire_byte(b) == Some(v) <==> v.wire_byte() == b,
    {
    }
}

impl Default for CommandId {
    fn default() -> (id: CommandId)
        ensures
            id == CommandId::Invalid,
    {
        CommandId::Invalid
    }
}

/// Sub-operation of the pairing command.
#[derive(Copy, Clone, PartialEq, Eq, Debug, Structural)]
pub enum PairCommandSubId {
    Pair,
    CurrentPairKey,
}

impl PairCommandSubId {
    /// The byte that stands for this value on the wire.
    pub open spec fn wire_byte(self) -> u8 {
        match self {
            PairCommandSubId::Pair => 0x02,
            PairCommandSubId::CurrentPairKey => 0x03,
        }
    }

    /// The value that a wire byte stands for, if it stands for any.
    pub open spec fn of_wire_byte(b: u8) -> Option<PairCommandSubId> {
        if b == 0x02 {
            Some(PairCommandSubId::Pair)
        } else if b == 0x03 {
            Some(PairCommandSubId::CurrentPairKey)
        } else {
            None
        }
    }

    pub fn to_byte(self) -> (b: u8)
        ensures
            b == self.wire_byte(),
    {
        match self {
            PairCommandSubId::Pair => 0x02,
            PairCommandSubId::CurrentPairKey => 0x03,
        }
    }

    /// Checked mapping from a wire byte; a byte outside the table gives `None`.
    pub fn from_byte(b: u8) -> (v: Option<PairCommandSubId>)
        ensures
            v == Self::of_wire_byte(b),
    {
        match b {
            0x02 => Some(PairCommandSubId::Pair),
            0x03 => Some(PairCommandSubId::CurrentPairKey),
            _ => None,
        }
    }

    /// A byte is mapped to a value exactly when it is that value's wire byte.
    pub proof fn lemma_wire_byte_inverse(v: PairCommandSubId, b: u8)
        ensures
            Self::of_wire_byte(b) == Some(v) <==> v.wire_byte() == b,
    {
    }
}

/// What the watch does after a reset.
#[derive(Copy, Clone, PartialEq, Eq, Debug, Structural)]
pub enum ResetCommandSubId {
    ResetAndReboot,
    ResetAndPowerOff,
}

impl ResetCommandSubId {
    /// The byte that stands for this value on the wire.
    pub open spec fn wire_byte(self) -> u8 {
        match self {
            ResetCommandSubId::ResetAndReboot => 0x00,
            ResetCommandSubId::ResetAndPowerOff => 0x01,
        }
    }

    /// The value that a wire byte stands for, if it stands for any.
    pub open spec fn of_wire_byte(b: u8) -> Option<ResetCommandSubId> {
        if b == 0x00 {
            Some(ResetCommandSubId::ResetAndReboot)
        } else if b == 0x01 {
            Some(ResetCommandSubId::ResetAndPowerOff)
        } else {
            None
        }
    }

    pub fn to_byte(self) -> (b: u8)
        ensures
            b == self.wire_byte(),
    {
        match self {
            ResetCommandSubId::ResetAndReboot => 0x00,
            ResetCommandSubId::ResetAndPowerOff => 0x01,
        }
    }

    /// Checked mapping from a wire byte; a byte outside the table gives `None`.
    pub fn from_byte(b: u8) -> (v: Option<ResetCommandSubId>)
        ensures
            v == Self::of_wire_byte(b),
    {
        match b {
            0x00 => Some(ResetCommandSubId::ResetAndReboot),
            0x01 => Some(ResetCommandSubId::ResetAndPowerOff),
            _ => None,
        }
    }

    /// A byte is mapped to a value exactly when it is that value's wire byte.
    pub proof fn lemma_wire_byte_inverse(v: ResetCommandSubId, b: u8)
        ensures
            Self::of_wire_byte(b) == Some(v) <==> v.wire_byte() == b,
    {
    }
}

/// A button or gesture event the watch reports to the host.
#[derive(Copy, Clone, PartialEq, Eq, Debug, Structural)]
pub enum DevicePulseType {
    HangCall,
    MusicPauseResume,
    MusicNext,
    MusicPrevious,
    Ring,
}

impl DevicePulseType {
    /// The byte that stands for this value on the wire.
    pub open spec fn wire_byte(self) -> u8 {
        match self {
            DevicePulseType::HangCall => 2,
            DevicePulseType::MusicPauseResume => 7,
            DevicePulseType::MusicNext => 8,
            DevicePulseType::MusicPrevious => 9,
            DevicePulseType::Ring => 10,
        }
    }

    /// The value that a wire byte stands for, if it stands for any.
    pub open spec fn of_wire_byte(b: u8) -> Option<DevicePulseType> {
        if b == 2 {
            Some(DevicePulseType::HangCall)
        } else if b == 7 {
            Some(DevicePulseType::MusicPauseResume)
        } else if b == 8 {
            Some(DevicePulseType::MusicNext)
        } else if b == 9 {
            Some(DevicePulseType::MusicPrevious)
        } else if b == 10 {
            Some(DevicePulseType::Ring)
        } else {
            None
        }
    }

    pub fn to_byte(self) -> (b: u8)
        ensures
            b == self.wire_byte(),
    {
        match self {
            DevicePulseType::HangCall => 2,
            DevicePulseType::MusicPauseResume => 7,
            DevicePulseType::MusicNext => 8,
            DevicePulseType::MusicPrevious => 9,
            DevicePulseType::Ring => 10,
        }
    }

    /// Checked mapping from a wire byte; a byte outside the table gives `None`.
    pub fn from_byte(b: u8) -> (v: Option<DevicePulseType>)
        ensures
            v == Self::of_wire_byte(b),
    {
        match b {
            2 => Some(DevicePulseType::HangCall),
            7 => Some(DevicePulseType::MusicPauseResume),
            8 => Some(DevicePulseType::MusicNext),
            9 => Some(DevicePulseType::MusicPrevious),
            10 => Some(DevicePulseType::Ring),
            _ => None,
        }
    }

    /// A byte is mapped to a value exactly when it is that value's wire byte.
    pub proof fn lemma_wire_byte_inverse(v: DevicePulseType, b: u8)
        ensures
            Self::of_wire_byte(b) == Some(v) <==> v.wire_byte() == b,
    {
    }
}

/// Clock display format.
#[derive(Copy, Clone, PartialEq, Eq, Debug, Structural)]
pub enum TimeFormat {
    H24,
    H12,
}

impl TimeFormat {
    /// The byte that stands for this value on the wire.
    pub open spec fn wire_byte(self) -> u8 {
        match self {
            TimeFormat::H24 => 1,
            TimeFormat::H12 => 2,
        }
    }

    /// The value that a wire byte stands for, if it stands for any.
    pub open spec fn of_wire_byte(b: u8) -> Option<TimeFormat> {
        if b == 1 {
            Some(TimeFormat::H24)
        } else if b == 2 {
            Some(TimeFormat::H12)
        } else {
            None
        }
    }

    pub fn to_byte(self) -> (b: u8)
        ensures
            b == self.wire_byte(),
    {
        match self {
            TimeFormat::H24 => 1,
            TimeFormat::H12 => 2,
        }
    }

    /// Checked mapping from a wire byte; a byte outside the table gives `None`.
    pub fn from_byte(b: u8) -> (v: Option<TimeFormat>)
        ensures
            v == Self::of_wire_byte(b),
    {
        match b {
            1 => Some(TimeFormat::H24),
            2 => Some(TimeFormat::H12),
            _ => None,
        }
    }

    /// A byte is mapped to a value exactly when it is that value's wire byte.
    pub proof fn lemma_wire_byte_inverse(v: TimeFormat, b: u8)
        ensures
            Self::of_wire_byte(b) == Some(v) <==> v.wire_byte() == b,
    {
    }
}

/// Unit system used for distances on the watch.
#[derive(Copy, Clone, PartialEq, Eq, Debug, Structural)]
pub enum DistanceUnit {
    Metric,
    Imperial,
}

impl DistanceUnit {
    /// The byte that stands for this value on the wire.
    pub open spec fn wire_byte(self) -> u8 {
        match self {
            DistanceUnit::Metric => 1,
            DistanceUnit::Imperial => 2,
        }
    }

    /// The value that a wire byte stands for, if it stands for any.
    pub open spec fn of_wire_byte(b: u8) -> Option<DistanceUnit> {
        if b == 1 {
            Some(DistanceUnit::Metric)
        } else if b == 2 {
            Some(DistanceUnit::Imperial)
        } else {
            None
        }
    }

    pub fn to_byte(self) -> (b: u8)
        ensures
            b == self.wire_byte(),
    {
        match self {
            DistanceUnit::Metric => 1,
            DistanceUnit::Imperial => 2,
        }
    }

    /// Checked mapping from a wire byte; a byte outside the table gives `None`.
    pub fn from_byte(b: u8) -> (v: Option<DistanceUnit>)
        ensures
            v == Self::of_wire_byte(b),
    {
        match b {
            1 => Some(DistanceUnit::Metric),
            2 => Some(DistanceUnit::Imperial),
            _ => None,
        }
    }

    /// A byte is mapped to a value exactly when it is that value's wire byte.
    pub proof fn lemma_wire_byte_inverse(v: DistanceUnit, b: u8)
        ensures
            Self::of_wire_byte(b) == Some(v) <==> v.wire_byte() == b,
    {
    }
}

/// The application an alert is shown as coming from.
#[derive(Copy, Clone, PartialEq, Eq, Debug, Structural)]
pub enum AlertType {
    Call,
    QQ,
    WeChat,
    Message,
    Facebook,
    Twitter,
    WhatsApp,
    Skype,
    Messenger,
    Hangouts,
    LINE,
    LinkedIn,
    Instagram,
    Viber,
    KakaoTalk,
    VK,
    Snapchat,
    GooglePlus,
    Email,
    Flickr,
    Tumblr,
    Pinterest,
    YouTube,
}

impl AlertType {
    /// The byte that stands for this value on the wire.
    pub open spec fn wire_byte(self) -> u8 {
        match self {
            AlertType::Call => 0,
            AlertType::QQ => 1,
            AlertType::WeChat => 2,
            AlertType::Message => 4,
            AlertType::Facebook => 5,
            AlertType::Twitter => 6,
            AlertType::WhatsApp => 7,
            AlertType::Skype => 8,
            AlertType::Messenger => 9,
            AlertType::Hangouts => 10,
            AlertType::LINE => 11,
            AlertType::LinkedIn => 12,
            AlertType::Instagram => 13,
            AlertType::Viber => 14,
            AlertType::KakaoTalk => 15,
            AlertType::VK => 16,
            AlertType::Snapchat => 17,
            AlertType::GooglePlus => 18,
            AlertType::Email => 19,
            AlertType::Flickr => 20,
            AlertType::Tumblr => 21,
            AlertType::Pinterest => 22,
            AlertType::YouTube => 23,
        }
    }

    /// The value that a wire byte stands for, if it stands for any.
    pub open spec fn of_wire_byte(b: u8) -> Option<AlertType> {
        if b == 0 {
            Some(AlertType::Call)
        } else if b == 1 {
            Some(AlertType::QQ)
        } else if b == 2 {
            Some(AlertType::WeChat)
        } else if b == 4 {
            Some(AlertType::Message)
        } else if b == 5 {
            Some(AlertType::Facebook)
        } else if b == 6 {
            Some(AlertType::Twitter)
        } else if b == 7 {
            Some(AlertType::WhatsApp)
        } else if b == 8 {
            Some(AlertType::Skype)
        } else if b == 9 {
            Some(AlertType::Messenger)
        } else if b == 10 {
            Some(AlertType::Hangouts)
        } else if b == 11 {
            Some(AlertType::LINE)
        } else if b == 12 {
            Some(AlertType::LinkedIn)
        } else if b == 13 {
            Some(AlertType::Instagram)
        } else if b == 14 {
            Some(AlertType::Viber)
        } else if b == 15 {
            Some(AlertType::KakaoTalk)
        } else if b == 16 {
            Some(AlertType::VK)
        } else if b == 17 {
            Some(AlertType::Snapchat)
        } else if b == 18 {
            Some(AlertType::GooglePlus)
        } else if b == 19 {
            Some(AlertType::Email)
        } else if b == 20 {
            Some(AlertType::Flickr)
        } else if b == 21 {
            Some(AlertType::Tumblr)
        } else if b == 22 {
            Some(AlertType::Pinterest)
        } else if b == 23 {
            Some(AlertType::YouTube)
        } else {
            None
        }
    }

    pub fn to_byte(self) -> (b: u8)
        ensures
            b == self.wire_byte(),
    {
        match self {
            AlertType::Call => 0,
            AlertType::QQ => 1,
            AlertType::WeChat => 2,
            AlertType::Message => 4,
            AlertType::Facebook => 5,
            AlertType::Twitter => 6,
            AlertType::WhatsApp => 7,
            AlertType::Skype => 8,
            AlertType::Messenger => 9,
            AlertType::Hangouts => 10,
            AlertType::LINE => 11,
            AlertType::LinkedIn => 12,
            AlertType::Instagram => 13,
            AlertType::Viber => 14,
            AlertType::KakaoTalk => 15,
            AlertType::VK => 16,
            AlertType::Snapchat => 17,
            AlertType::GooglePlus => 18,
            AlertType::Email => 19,
            AlertType::Flickr => 20,
            AlertType::Tumblr => 21,
            AlertType::Pinterest => 22,
            AlertType::YouTube => 23,
        }
    }

    /// Checked mapping from a wire byte; a byte outside the table gives `None`.
    pub fn from_byte(b: u8) -> (v: Option<AlertType>)
        ensures
            v == Self::of_wire_byte(b),
    {
        match b {
            0 => Some(AlertType::Call),
            1 => Some(AlertType::QQ),
            2 => Some(AlertType::WeChat),
            4 => Some(AlertType::Message),
            5 => Some(AlertType::Facebook),
            6 => Some(AlertType::Twitter),
            7 => Some(AlertType::WhatsApp),
            8 => Some(AlertType::Skype),
            9 => Some(AlertType::Messenger),
            10 => Some(AlertType::Hangouts),
            11 => Some(AlertType::LINE),
            12 => Some(AlertType::LinkedIn),
            13 => Some(AlertType::Instagram),
            14 => Some(AlertType::Viber),
            15 => Some(AlertType::KakaoTalk),
            16 => Some(AlertType::VK),
            17 => Some(AlertType::Snapchat),
            18 => Some(AlertType::GooglePlus),
            19 => Some(AlertType::Email),
            20 => Some(AlertType::Flickr),
            21 => Some(AlertType::Tumblr),
            22 => Some(AlertType::Pinterest),
            23 => Some(AlertType::YouTube),
            _ => None,
        }
    }

    /// A byte is mapped to a value exactly when it is that value's wire byte.
    pub proof fn lemma_wire_byte_inverse(v: AlertType, b: u8)
        ensures
            Self::of_wire_byte(b) == Some(v) <==> v.wire_byte() == b,
    {
    }
}

/// Gender stored in the user profile.
#[derive(Copy, Clone, PartialEq, Eq, Debug, Structural)]
pub enum UserGender {
    Male,
    Female,
}

impl UserGender {
    /// The byte that stands for this value on the wire.
    pub open spec fn wire_byte(self) -> u8 {
        match self {
            UserGender::Male => 1,
            UserGender::Female => 2,
        }
    }

    /// The value that a wire byte stands for, if it stands for any.
    pub open spec fn of_wire_byte(b: u8) -> Option<UserGender> {
        if b == 1 {
            Some(UserGender::Male)
        } else if b == 2 {
            Some(UserGender::Female)
        } else {
            None
        }
    }

    pub fn to_byte(self) -> (b: u8)
        ensures
            b == self.wire_byte(),
    {
        match self {
            UserGender::Male => 1,
            UserGender::Female => 2,
        }
    }

    /// Checked mapping from a wire byte; a byte outside the table gives `None`.
    pub fn from_byte(b: u8) -> (v: Option<UserGender>)
        ensures
            v == Self::of_wire_byte(b),
    {
        match b {
            1 => Some(UserGender::Male),
            2 => Some(UserGender::Female),
            _ => None,
        }
    }

    /// A byte is mapped to a value exactly when it is that value's wire byte.
    pub proof fn lemma_wire_byte_inverse(v: UserGender, b: u8)
        ensures
            Self::of_wire_byte(b) == Some(v) <==> v.wire_byte() == b,
    {
    }
}

/// Whether lifting the wrist wakes the screen.
#[derive(Copy, Clone, PartialEq, Eq, Debug, Structural)]
pub enum UserLiftWristMode {
    Off,
    On,
}

impl UserLiftWristMode {
    /// The byte that stands for this value on the wire.
    pub open spec fn wire_byte(self) -> u8 {
        match self {
            UserLiftWristMode::Off => 0,
            UserLiftWristMode::On => 1,
        }
    }

    /// The value that a wire byte stands for, if it stands for any.
    pub open spec fn of_wire_byte(b: u8) -> Option<UserLiftWristMode> {
        if b == 0 {
            Some(UserLiftWristMode::Off)
        } else if b == 1 {
            Some(UserLiftWristMode::On)
        } else {
            None
        }
    }

    pub fn to_byte(self) -> (b: u8)
        ensures
            b == self.wire_byte(),
    {
        match self {
            UserLiftWristMode::Off => 0,
            UserLiftWristMode::On => 1,
        }
    }

    /// Checked mapping from a wire byte; a byte outside the table gives `None`.
    pub fn from_byte(b: u8) -> (v: Option<UserLiftWristMode>)
        ensures
            v == Self::of_wire_byte(b),
    {
        match b {
            0 => Some(UserLiftWristMode::Off),
            1 => Some(UserLiftWristMode::On),
            _ => None,
        }
    }

    /// A byte is mapped to a value exactly when it is that value's wire byte.
    pub proof fn lemma_wire_byte_inverse(v: UserLiftWristMode, b: u8)
        ensures
            Self::of_wire_byte(b) == Some(v) <==> v.wire_byte() == b,
    {
    }
}

/// Which forecast a weather record carries.
#[derive(Copy, Clone, PartialEq, Eq, Debug, Structural)]
pub enum WeatherDate {
    Today,
    FollowingDays,
}

impl WeatherDate {
    /// The byte that stands for this value on the wire.
    pub open spec fn wire_byte(self) -> u8 {
        match self {
            WeatherDate::Today => 1,
            WeatherDate::FollowingDays => 2,
        }
    }

    /// The value that a wire byte stands for, if it stands for any.
    pub open spec fn of_wire_byte(b: u8) -> Option<WeatherDate> {
        if b == 1 {
            Some(WeatherDate::Today)
        } else if b == 2 {
            Some(WeatherDate::FollowingDays)
        } else {
            None
        }
    }

    pub fn to_byte(self) -> (b: u8)
        ensures
            b == self.wire_byte(),
    {
        match self {
            WeatherDate::Today => 1,
            WeatherDate::FollowingDays => 2,
        }
    }

    /// Checked mapping from a wire byte; a byte outside the table gives `None`.
    pub fn from_byte(b: u8) -> (v: Option<WeatherDate>)
        ensures
            v == Self::of_wire_byte(b),
    {
        match b {
            1 => Some(WeatherDate::Today),
            2 => Some(WeatherDate::FollowingDays),
            _ => None,
        }
    }

    /// A byte is mapped to a value exactly when it is that value's wire byte.
    pub proof fn lemma_wire_byte_inverse(v: WeatherDate, b: u8)
        ensures
            Self::of_wire_byte(b) == Some(v) <==> v.wire_byte() == b,
    {
    }
}

/// Weather icon shown by the watch.
#[derive(Copy, Clone, PartialEq, Eq, Debug, Structural)]
pub enum WeatherType {
    Sunny,
    SunnyCloudy,
    Cloudy,
    SunnyRainy,
    Stormy,
    Rainy,
    SlighlyRainy,
    VeryRainy,
    Snowy,
    S,
    Foggy,
    Windy,
    Night,
    CloudyNight,
    RainyNight,
}

impl WeatherType {
    /// The byte that stands for this value on the wire.
    pub open spec fn wire_byte(self) -> u8 {
        match self {
            WeatherType::Sunny => 1,
            WeatherType::SunnyCloudy => 2,
            WeatherType::Cloudy => 3,
            WeatherType::SunnyRainy => 4,
            WeatherType::Stormy => 5,
            WeatherType::Rainy => 6,
            WeatherType::SlighlyRainy => 7,
            WeatherType::VeryRainy => 8,
            WeatherType::Snowy => 9,
            WeatherType::S => 10,
            WeatherType::Foggy => 11,
            WeatherType::Windy => 12,
            WeatherType::Night => 13,
            WeatherType::CloudyNight => 14,
            WeatherType::RainyNight => 15,
        }
    }

    /// The value that a wire byte stands for, if it stands for any.
    pub open spec fn of_wire_byte(b: u8) -> Option<WeatherType> {
        if b == 1 {
            Some(WeatherType::Sunny)
        } else if b == 2 {
            Some(WeatherType::SunnyCloudy)
        } else if b == 3 {
            Some(WeatherType::Cloudy)
        } else if b == 4 {
            Some(WeatherType::SunnyRainy)
        } else if b == 5 {
            Some(WeatherType::Stormy)
        } else if b == 6 {
            Some(WeatherType::Rainy)
        } else if b == 7 {
            Some(WeatherType::SlighlyRainy)
        } else if b == 8 {
            Some(WeatherType::VeryRainy)
        } else if b == 9 {
            Some(WeatherType::Snowy)
        } else if b == 10 {
            Some(WeatherType::S)
        } else if b == 11 {
            Some(WeatherType::Foggy)
        } else if b == 12 {
            Some(WeatherType::Windy)
        } else if b == 13 {
            Some(WeatherType::Night)
        } else if b == 14 {
            Some(WeatherType::CloudyNight)
        } else if b == 15 {
            Some(WeatherType::RainyNight)
        } else {
            None
        }
    }

    pub fn to_byte(self) -> (b: u8)
        ensures
            b == self.wire_byte(),
    {
        match self {
            WeatherType::Sunny => 1,
            WeatherType::SunnyCloudy => 2,
            WeatherType::Cloudy => 3,
            WeatherType::SunnyRainy => 4,
            WeatherType::Stormy => 5,
            WeatherType::Rainy => 6,
            WeatherType::SlighlyRainy => 7,
            WeatherType::VeryRainy => 8,
            WeatherType::Snowy => 9,
            WeatherType::S => 10,
            WeatherType::Foggy => 11,
            WeatherType::Windy => 12,
            WeatherType::Night => 13,
            WeatherType::CloudyNight => 14,
            WeatherType::RainyNight => 15,
        }
    }

    /// Checked mapping from a wire byte; a byte outside the table gives `None`.
    pub fn from_byte(b: u8) -> (v: Option<WeatherType>)
        ensures
            v == Self::of_wire_byte(b),
    {
        match b {
            1 => Some(WeatherType::Sunny),
            2 => Some(WeatherType::SunnyCloudy),
            3 => Some(WeatherType::Cloudy),
            4 => Some(WeatherType::SunnyRainy),
            5 => Some(WeatherType::Stormy),
            6 => Some(WeatherType::Rainy),
            7 => Some(WeatherType::SlighlyRainy),
            8 => Some(WeatherType::VeryRainy),
            9 => Some(WeatherType::Snowy),
            10 => Some(WeatherType::S),
            11 => Some(WeatherType::Foggy),
            12 => Some(WeatherType::Windy),
            13 => Some(WeatherType::Night),
            14 => Some(WeatherType::CloudyNight),
            15 => Some(WeatherType::RainyNight),
            _ => None,
        }
    }

    /// A byte is mapped to a value exactly when it is that value's wire byte.
    pub proof fn lemma_wire_byte_inverse(v: WeatherType, b: u8)
        ensures
            Self::of_wire_byte(b) == Some(v) <==> v.wire_byte() == b,
    {
    }
}

/// Sub-operation of the heart-rate command.
#[derive(Copy, Clone, PartialEq, Eq, Debug, Structural)]
pub enum HeartRateCommandSubId {
    Enable,
    Disable,
    DataPeriodic,
    DataToday,
    DataRequest,
    DataEnd,
}

impl HeartRateCommandSubId {
    /// The byte that stands for this value on the wire.
    pub open spec fn wire_byte(self) -> u8 {
        match self {
            HeartRateCommandSubId::Enable => 0x01,
            HeartRateCommandSubId::Disable => 0x02,
            HeartRateCommandSubId::DataPeriodic => 0x03,
            HeartRateCommandSubId::DataToday => 0x04,
            HeartRateCommandSubId::DataRequest => 0xFA,
            HeartRateCommandSubId::DataEnd => 0xFD,
        }
    }

    /// The value that a wire byte stands for, if it stands for any.
    pub open spec fn of_wire_byte(b: u8) -> Option<HeartRateCommandSubId> {
        if b == 0x01 {
            Some(HeartRateCommandSubId::Enable)
        } else if b == 0x02 {
            Some(HeartRateCommandSubId::Disable)
        } else if b == 0x03 {
            Some(HeartRateCommandSubId::DataPeriodic)
        } else if b == 0x04 {
            Some(HeartRateCommandSubId::DataToday)
        } else if b == 0xFA {
            Some(HeartRateCommandSubId::DataRequest)
        } else if b == 0xFD {
            Some(HeartRateCommandSubId::DataEnd)
        } else {
            None
        }
    }

    pub fn to_byte(self) -> (b: u8)
        ensures
            b == self.wire_byte(),
    {
        match self {
            HeartRateCommandSubId::Enable => 0x01,
            HeartRateCommandSubId::Disable => 0x02,
            HeartRateCommandSubId::DataPeriodic => 0x03,
            HeartRateCommandSubId::DataToday => 0x04,
            HeartRateCommandSubId::DataRequest => 0xFA,
            HeartRateCommandSubId::DataEnd => 0xFD,
        }
    }

    /// Checked mapping from a wire byte; a byte outside the table gives `None`.
    pub fn from_byte(b: u8) -> (v: Option<HeartRateCommandSubId>)
        ensures
            v == Self::of_wire_byte(b),
    {
        match b {
            0x01 => Some(HeartRateCommandSubId::Enable),
            0x02 => Some(HeartRateCommandSubId::Disable),
            0x03 => Some(HeartRateCommandSubId::DataPeriodic),
            0x04 => Some(HeartRateCommandSubId::DataToday),
            0xFA => Some(HeartRateCommandSubId::DataRequest),
            0xFD => Some(HeartRateCommandSubId::DataEnd),
            _ => None,
        }
    }

    /// A byte is mapped to a value exactly when it is that value's wire byte.
    pub proof fn lemma_wire_byte_inverse(v: HeartRateCommandSubId, b: u8)
        ensures
            Self::of_wire_byte(b) == Some(v) <==> v.wire_byte() == b,
    {
    }
}

/// Whether the watch is showing its heart-rate menu.
#[derive(Copy, Clone, PartialEq, Eq, Debug, Structural)]
pub enum HeartRateMenuCommandSubId {
    LeavingMenu,
    InMenu,
}

impl HeartRateMenuCommandSubId {
    /// The byte that stands for this value on the wire.
    pub open spec fn wire_byte(self) -> u8 {
        match self {
            HeartRateMenuCommandSubId::LeavingMenu => 0x00,
            HeartRateMenuCommandSubId::InMenu => 0x11,
        }
    }

    /// The value that a wire byte stands for, if it stands for any.
    pub open spec fn of_wire_byte(b: u8) -> Option<HeartRateMenuCommandSubId> {
        if b == 0x00 {
            Some(HeartRateMenuCommandSubId::LeavingMenu)
        } else if b == 0x11 {
            Some(HeartRateMenuCommandSubId::InMenu)
        } else {
            None
        }
    }

    pub fn to_byte(self) -> (b: u8)
        ensures
            b == self.wire_byte(),
    {
        match self {
            HeartRateMenuCommandSubId::LeavingMenu => 0x00,
            HeartRateMenuCommandSubId::InMenu => 0x11,
        }
    }

    /// Checked mapping from a wire byte; a byte outside the table gives `None`.
    pub fn from_byte(b: u8) -> (v: Option<HeartRateMenuCommandSubId>)
        ensures
            v == Self::of_wire_byte(b),
    {
        match b {
            0x00 => Some(HeartRateMenuCommandSubId::LeavingMenu),
            0x11 => Some(HeartRateMenuCommandSubId::InMenu),
            _ => None,
        }
    }

    /// A byte is mapped to a value exactly when it is that value's wire byte.
    pub proof fn lemma_wire_byte_inverse(v: HeartRateMenuCommandSubId, b: u8)
        ensures
            Self::of_wire_byte(b) == Some(v) <==> v.wire_byte() == b,
    {
    }
}

/// Sub-operation of the silent-mode command.
#[derive(Copy, Clone, PartialEq, Eq, Debug, Structural)]
pub enum SilentModeCommandSubId {
    ModeChanged,
}

impl SilentModeCommandSubId {
    /// The byte that stands for this value on the wire.
    pub open spec fn wire_byte(self) -> u8 {
        match self {
            SilentModeCommandSubId::ModeChanged => 0x02,
        }
    }

    /// The value that a wire byte stands for, if it stands for any.
    pub open spec fn of_wire_byte(b: u8) -> Option<SilentModeCommandSubId> {
        if b == 0x02 {
            Some(SilentModeCommandSubId::ModeChanged)
        } else {
            None
        }
    }

    pub fn to_byte(self) -> (b: u8)
        ensures
            b == self.wire_byte(),
    {
        match self {
            SilentModeCommandSubId::ModeChanged => 0x02,
        }
    }

    /// Checked mapping from a wire byte; a byte outside the table gives `None`.
    pub fn from_byte(b: u8) -> (v: Option<SilentModeCommandSubId>)
        ensures
            v == Self::of_wire_byte(b),
    {
        match b {
            0x02 => Some(SilentModeCommandSubId::ModeChanged),
            _ => None,
        }
    }

    /// A byte is mapped to a value exactly when it is that value's wire byte.
    pub proof fn lemma_wire_byte_inverse(v: SilentModeCommandSubId, b: u8)
        ensures
            Self::of_wire_byte(b) == Some(v) <==> v.wire_byte() == b,
    {
    }
}

/// State of the watch's silent mode.
#[derive(Copy, Clone, PartialEq, Eq, Debug, Structural)]
pub enum SilentModeStatus {
    Off,
    On,
}

impl SilentModeStatus {
    /// The byte that stands for this value on the wire.
    pub open spec fn wire_byte(self) -> u8 {
        match self {
            SilentModeStatus::Off => 0,
            SilentModeStatus::On => 8,
        }
    }

    /// The value that a wire byte stands for, if it stands for any.
    pub open spec fn of_wire_byte(b: u8) -> Option<SilentModeStatus> {
        if b == 0 {
            Some(SilentModeStatus::Off)
        } else if b == 8 {
            Some(SilentModeStatus::On)
        } else {
            None
        }
    }

    pub fn to_byte(self) -> (b: u8)
        ensures
            b == self.wire_byte(),
    {
        match self {
            SilentModeStatus::Off => 0,
            SilentModeStatus::On => 8,
        }
    }

    /// Checked mapping from a wire byte; a byte outside the table gives `None`.
    pub fn from_byte(b: u8) -> (v: Option<SilentModeStatus>)
        ensures
            v == Self::of_wire_byte(b),
    {
        match b {
            0 => Some(SilentModeStatus::Off),
            8 => Some(SilentModeStatus::On),
            _ => None,
        }
    }

    /// A byte is mapped to a value exactly when it is that value's wire byte.
    pub proof fn lemma_wire_byte_inverse(v: SilentModeStatus, b: u8)
        ensures
            Self::of_wire_byte(b) == Some(v) <==> v.wire_byte() == b,
    {
    }
}

/// Whether a sport session starts or finishes.
#[derive(Copy, Clone, PartialEq, Eq, Debug, Structural)]
pub enum SportCommandSubId {
    Finish,
    Start,
}

impl SportCommandSubId {
    /// The byte that stands for this value on the wire.
    pub open spec fn wire_byte(self) -> u8 {
        match self {
            SportCommandSubId::Finish => 0x00,
            SportCommandSubId::Start => 0x11,
        }
    }

    /// The value that a wire byte stands for, if it stands for any.
    pub open spec fn of_wire_byte(b: u8) -> Option<SportCommandSubId> {
        if b == 0x00 {
            Some(SportCommandSubId::Finish)
        } else if b == 0x11 {
            Some(SportCommandSubId::Start)
        } else {
            None
        }
    }

    pub fn to_byte(self) -> (b: u8)
        ensures
            b == self.wire_byte(),
    {
        match self {
            SportCommandSubId::Finish => 0x00,
            SportCommandSubId::Start => 0x11,
        }
    }

    /// Checked mapping from a wire byte; a byte outside the table gives `None`.
    pub fn from_byte(b: u8) -> (v: Option<SportCommandSubId>)
        ensures
            v == Self::of_wire_byte(b),
    {
        match b {
            0x00 => Some(SportCommandSubId::Finish),
            0x11 => Some(SportCommandSubId::Start),
            _ => None,
        }
    }

    /// A byte is mapped to a value exactly when it is that value's wire byte.
    pub proof fn lemma_wire_byte_inverse(v: SportCommandSubId, b: u8)
        ensures
            Self::of_wire_byte(b) == Some(v) <==> v.wire_byte() == b,
    {
    }
}

/// The kind of sport session.
#[derive(Copy, Clone, PartialEq, Eq, Debug, Structural)]
pub enum SportKind {
    Jogging,
    Biking,
    Climbing,
    FastRunning,
    Basketball,
    Football,
    Spinning,
    Yoga,
    IndoorRunning,
    Gimnastics,
    Rowing,
    IntegratedTraining,
}

impl SportKind {
    /// The byte that stands for this value on the wire.
    pub open spec fn wire_byte(self) -> u8 {
        match self {
            SportKind::Jogging => 1,
            SportKind::Biking => 2,
            SportKind::Climbing => 8,
            SportKind::FastRunning => 9,
            SportKind::Basketball => 10,
            SportKind::Football => 11,
            SportKind::Spinning => 18,
            SportKind::Yoga => 19,
            SportKind::IndoorRunning => 21,
            SportKind::Gimnastics => 22,
            SportKind::Rowing => 23,
            SportKind::IntegratedTraining => 25,
        }
    }

    /// The value that a wire byte stands for, if it stands for any.
    pub open spec fn of_wire_byte(b: u8) -> Option<SportKind> {
        if b == 1 {
            Some(SportKind::Jogging)
        } else if b == 2 {
            Some(SportKind::Biking)
        } else if b == 8 {
            Some(SportKind::Climbing)
        } else if b == 9 {
            Some(SportKind::FastRunning)
        } else if b == 10 {
            Some(SportKind::Basketball)
        } else if b == 11 {
            Some(SportKind::Football)
        } else if b == 18 {
            Some(SportKind::Spinning)
        } else if b == 19 {
            Some(SportKind::Yoga)
        } else if b == 21 {
            Some(SportKind::IndoorRunning)
        } else if b == 22 {
            Some(SportKind::Gimnastics)
        } else if b == 23 {
            Some(SportKind::Rowing)
        } else if b == 25 {
            Some(SportKind::IntegratedTraining)
        } else {
            None
        }
    }

    pub fn to_byte(self) -> (b: u8)
        ensures
            b == self.wire_byte(),
    {
        match self {
            SportKind::Jogging => 1,
            SportKind::Biking => 2,
            SportKind::Climbing => 8,
            SportKind::FastRunning => 9,
            SportKind::Basketball => 10,
            SportKind::Football => 11,
            SportKind::Spinning => 18,
            SportKind::Yoga => 19,
            SportKind::IndoorRunning => 21,
            SportKind::Gimnastics => 22,
            SportKind::Rowing => 23,
            SportKind::IntegratedTraining => 25,
        }
    }

    /// Checked mapping from a wire byte; a byte outside the table gives `None`.
    pub fn from_byte(b: u8) -> (v: Option<SportKind>)
        ensures
            v == Self::of_wire_byte(b),
    {
        match b {
            1 => Some(SportKind::Jogging),
            2 => Some(SportKind::Biking),
            8 => Some(SportKind::Climbing),
            9 => Some(SportKind::FastRunning),
            10 => Some(SportKind::Basketball),
            11 => Some(SportKind::Football),
            18 => Some(SportKind::Spinning),
            19 => Some(SportKind::Yoga),
            21 => Some(SportKind::IndoorRunning),
            22 => Some(SportKind::Gimnastics),
            23 => Some(SportKind::Rowing),
            25 => Some(SportKind::IntegratedTraining),
            _ => None,
        }
    }

    /// A byte is mapped to a value exactly when it is that value's wire byte.
    pub proof fn lemma_wire_byte_inverse(v: SportKind, b: u8)
        ensures
            Self::of_wire_byte(b) == Some(v) <==> v.wire_byte() == b,
    {
    }
}

/// Sub-operation of the recorded-steps command.
#[derive(Copy, Clone, PartialEq, Eq, Debug, Structural)]
pub enum RecordedStepsCommandSubId {
    Request,
    End,
}

impl RecordedStepsCommandSubId {
    /// The byte that stands for this value on the wire.
    pub open spec fn wire_byte(self) -> u8 {
        match self {
            RecordedStepsCommandSubId::Request => 0x03,
            RecordedStepsCommandSubId::End => 0xFD,
        }
    }

    /// The value that a wire byte stands for, if it stands for any.
    pub open spec fn of_wire_byte(b: u8) -> Option<RecordedStepsCommandSubId> {
        if b == 0x03 {
            Some(RecordedStepsCommandSubId::Request)
        } else if b == 0xFD {
            Some(RecordedStepsCommandSubId::End)
        } else {
            None
        }
    }

    pub fn to_byte(self) -> (b: u8)
        ensures
            b == self.wire_byte(),
    {
        match self {
            RecordedStepsCommandSubId::Request => 0x03,
            RecordedStepsCommandSubId::End => 0xFD,
        }
    }

    /// Checked mapping from a wire byte; a byte outside the table gives `None`.
    pub fn from_byte(b: u8) -> (v: Option<RecordedStepsCommandSubId>)
        ensures
            v == Self::of_wire_byte(b),
    {
        match b {
            0x03 => Some(RecordedStepsCommandSubId::Request),
            0xFD => Some(RecordedStepsCommandSubId::End),
            _ => None,
        }
    }

    /// A byte is mapped to a value exactly when it is that value's wire byte.
    pub proof fn lemma_wire_byte_inverse(v: RecordedStepsCommandSubId, b: u8)
        ensures
            Self::of_wire_byte(b) == Some(v) <==> v.wire_byte() == b,
    {
    }
}

/// The step counts the watch recorded for one hour of one day.
///
/// On the wire an entry takes seventeen bytes, in the order of the fields;
/// the three counts travel most significant byte first.
#[derive(Copy, Clone, PartialEq, Eq, Debug)]
pub struct StepsEntry {
    pub date: Date,
    pub hour: u8,
    pub new_all_step_count: u16,
    pub unk_1: u8,
    pub last_new_run_step_min: u8,
    pub unk_2: u8,
    pub new_run_step_count: u16,
    pub unk_3: u8,
    pub last_new_walk_step_min: u8,
    pub unk_4: u8,
    pub new_walk_step_count: u16,
}

impl StepsEntry {
    /// Number of bytes an entry takes on the wire.
    pub const WIRE_LEN: usize = 17;

    /// The seventeen bytes of this entry on the wire.
    pub open spec fn wire(&self) -> Seq<u8> {
        self.date.wire() + seq![self.hour] + be16(self.new_all_step_count) + seq![
            self.unk_1,
            self.last_new_run_step_min,
            self.unk_2,
        ] + be16(self.new_run_step_count) + seq![
            self.unk_3,
            self.last_new_walk_step_min,
            self.unk_4,
        ] + be16(self.new_walk_step_count)
    }

    /// Appends the wire bytes of this entry.
    pub fn put(&self, out: &mut Vec<u8>)
        ensures
            final(out)@ == old(out)@ + self.wire(),
    {
        self.date.put(out);
        out.push(self.hour);
        put_be16(out, self.new_all_step_count);
        out.push(self.unk_1);
        out.push(self.last_new_run_step_min);
        out.push(self.unk_2);
        put_be16(out, self.new_run_step_count);
        out.push(self.unk_3);
        out.push(self.last_new_walk_step_min);
        out.push(self.unk_4);
        put_be16(out, self.new_walk_step_count);
        assert(out@ =~= old(out)@ + self.wire());
    }

    /// Reads the entry whose wire bytes start at offset `at`.
    pub fn get(raw: &[u8], at: usize) -> (entry: StepsEntry)
        requires
            at + 17 <= raw.len(),
        ensures
            entry.wire() == raw@.subrange(at as int, at + 17),
    {
        let entry = StepsEntry {
            date: Date::get(raw, at),
            hour: raw[at + 4],
            new_all_step_count: get_be16(raw, at + 5),
            unk_1: raw[at + 7],
            last_new_run_step_min: raw[at + 8],
            unk_2: raw[at + 9],
            new_run_step_count: get_be16(raw, at + 10),
            unk_3: raw[at + 12],
            last_new_walk_step_min: raw[at + 13],
            unk_4: raw[at + 14],
            new_walk_step_count: get_be16(raw, at + 15),
        };
        proof {
            let part = raw@.subrange(at as int, at + 17);
            assert(entry.date.wire() == part.subrange(0, 4));
            assert(be16(entry.new_all_step_count) == part.subrange(5, 7));
            assert(be16(entry.new_run_step_count) == part.subrange(10, 12));
            assert(be16(entry.new_walk_step_count) == part.subrange(15, 17));
            assert(entry.wire() =~= part);
        }
        entry
    }

    /// An entry is determined by its wire bytes.
    pub proof fn lemma_wire_injective(a: StepsEntry, b: StepsEntry)
        requires
            a.wire() == b.wire(),
        ensures
            a == b,
    {
        let w = a.wire();
        assert(a.date.wire() =~= w.subrange(0, 4));
        assert(b.date.wire() =~= b.wire().subrange(0, 4));
        Date::lemma_wire_injective(a.date, b.date);
        assert(be16(a.new_all_step_count) =~= w.subrange(5, 7));
        assert(be16(b.new_all_step_count) =~= b.wire().subrange(5, 7));
        lemma_be16_injective(a.new_all_step_count, b.new_all_step_count);
        assert(be16(a.new_run_step_count) =~= w.subrange(10, 12));
        assert(be16(b.new_run_step_count) =~= b.wire().subrange(10, 12));
        lemma_be16_injective(a.new_run_step_count, b.new_run_step_count);
        assert(be16(a.new_walk_step_count) =~= w.subrange(15, 17));
        assert(be16(b.new_walk_step_count) =~= b.wire().subrange(15, 17));
        lemma_be16_injective(a.new_walk_step_count, b.new_walk_step_count);
        assert(a.hour == w[4] && b.hour == b.wire()[4]);
        assert(a.unk_1 == w[7] && b.unk_1 == b.wire()[7]);
        assert(a.last_new_run_step_min == w[8] && b.last_new_run_step_min == b.wire()[8]);
        assert(a.unk_2 == w[9] && b.unk_2 == b.wire()[9]);
        assert(a.unk_3 == w[12] && b.unk_3 == b.wire()[12]);
        assert(a.last_new_walk_step_min == w[13] && b.last_new_walk_step_min == b.wire()[13]);
        assert(a.unk_4 == w[14] && b.unk_4 == b.wire()[14]);
    }
}

} // verus!
