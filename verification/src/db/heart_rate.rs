//! The heart-rate record of one day.
//!
//! Persisted, a record is the tag `HRDB`, the number of entries as four
//! bytes, least significant first, and the entries back to back. An entry
//! is the tag `HRDE` and six bytes: hour, minute, the instantaneous rate,
//! and the highest, lowest and average rate of a rollup. A rate of 255
//! means that the field does not apply.

use crate::common::{Date, INVALID_HEART_RATE};
use crate::db::names::{date_name, dates_of, dates_of_names, name_of};
use crate::db::{
    distinct_times, insert_all, lemma_distinct_times_bounded, lemma_merge_insert_distinct, merge,
    merge_insert, StoreError, Timed,
};
use crate::wire::{get_le32, has_bytes_at, le32, le32_value, lemma_le32_value, put_bytes, put_le32};
use vstd::prelude::*;
use vstd::string::StringExecFns;

verus! {

/// The heart rate at one time of day: either an instantaneous sample, or
/// the rollup of a day, never both.
#[derive(Copy, Clone, PartialEq, Eq, Debug)]
pub struct HeartRateDailyDatabaseEntry {
    pub hour: u8,
    pub min: u8,
    pub heart_rate: u8,
    pub max_heart_rate: u8,
    pub min_heart_rate: u8,
    pub avg_heart_rate: u8,
}

impl HeartRateDailyDatabaseEntry {
    /// The entry of an instantaneous sample: the rollup fields do not
    /// apply.
    pub fn sample(hour: u8, min: u8, heart_rate: u8) -> (entry: Self)
        ensures
            entry == (HeartRateDailyDatabaseEntry {
                hour,
                min,
                heart_rate,
                max_heart_rate: INVALID_HEART_RATE,
                min_heart_rate: INVALID_HEART_RATE,
                avg_heart_rate: INVALID_HEART_RATE,
            }),
    {
        HeartRateDailyDatabaseEntry {
            hour,
            min,
            heart_rate,
            max_heart_rate: INVALID_HEART_RATE,
            min_heart_rate: INVALID_HEART_RATE,
            avg_heart_rate: INVALID_HEART_RATE,
        }
    }

    /// The entry of a rollup: the instantaneous field does not apply.
    pub fn rollup(
        hour: u8,
        min: u8,
        max_heart_rate: u8,
        min_heart_rate: u8,
        avg_heart_rate: u8,
    ) -> (entry: Self)
        ensures
            entry == (HeartRateDailyDatabaseEntry {
                hour,
                min,
                heart_rate: INVALID_HEART_RATE,
                max_heart_rate,
                min_heart_rate,
                avg_heart_rate,
            }),
    {
        HeartRateDailyDatabaseEntry {
            hour,
            min,
            heart_rate: INVALID_HEART_RATE,
            max_heart_rate,
            min_heart_rate,
            avg_heart_rate,
        }
    }

    /// Minutes since midnight.
    pub fn minute_of_day(&self) -> (m: u32)
        ensures
            m == self.hour * 60 + self.min,
    {
        self.hour as u32 * 60 + self.min as u32
    }
}

impl Timed for HeartRateDailyDatabaseEntry {
    open spec fn time(&self) -> (u8, u8) {
        (self.hour, self.min)
    }

    fn hour_min(&self) -> (t: (u8, u8)) {
        (self.hour, self.min)
    }
}

/// The tag that begins a persisted heart-rate record: `HRDB`.
pub open spec fn record_tag() -> Seq<u8> {
    seq![0x48u8, 0x52u8, 0x44u8, 0x42u8]
}

/// The tag that begins each persisted entry: `HRDE`.
pub open spec fn entry_tag() -> Seq<u8> {
    seq![0x48u8, 0x52u8, 0x44u8, 0x45u8]
}

/// The ten bytes of a persisted entry.
pub open spec fn entry_bytes(e: HeartRateDailyDatabaseEntry) -> Seq<u8> {
    entry_tag() + seq![
        e.hour,
        e.min,
        e.heart_rate,
        e.max_heart_rate,
        e.min_heart_rate,
        e.avg_heart_rate,
    ]
}

/// The persisted entries, back to back.
pub open spec fn entries_bytes(s: Seq<HeartRateDailyDatabaseEntry>) -> Seq<u8> {
    Seq::new(10 * s.len(), |j: int| entry_bytes(s[j / 10])[j % 10])
}

/// The bytes of a persisted record: tag, count, entries.
pub open spec fn record_bytes(s: Seq<HeartRateDailyDatabaseEntry>) -> Seq<u8> {
    record_tag() + le32(s.len() as u32) + entries_bytes(s)
}

/// The entry that stands at position `i` of a persisted record, if the
/// bytes there are an entry.
pub open spec fn entry_at(raw: Seq<u8>, i: int) -> Option<HeartRateDailyDatabaseEntry> {
    let at = 8 + 10 * i;
    if raw.subrange(at, at + 4) == entry_tag() {
        Some(
            HeartRateDailyDatabaseEntry {
                hour: raw[at + 4],
                min: raw[at + 5],
                heart_rate: raw[at + 6],
                max_heart_rate: raw[at + 7],
                min_heart_rate: raw[at + 8],
                avg_heart_rate: raw[at + 9],
            },
        )
    } else {
        None
    }
}

/// The record that the bytes hold, if they hold one: the tag is right, as
/// many entries follow as the count says, and no two of them belong to the
/// same time of day. Bytes after the last entry are not looked at.
pub open spec fn stored(raw: Seq<u8>) -> Option<Seq<HeartRateDailyDatabaseEntry>> {
    if raw.len() >= 8 && raw.subrange(0, 4) == record_tag() {
        let n = le32_value(raw.subrange(4, 8));
        let s = Seq::new(n as nat, |i: int| entry_at(raw, i).unwrap());
        if 8 + 10 * n <= raw.len() && (forall|i: int|
            0 <= i < n ==> (#[trigger] entry_at(raw, i)) is Some) && distinct_times(s) {
            Some(s)
        } else {
            None
        }
    } else {
        None
    }
}

/// Appending an entry to a record appends its ten bytes.
pub proof fn lemma_entries_bytes_push(
    s: Seq<HeartRateDailyDatabaseEntry>,
    e: HeartRateDailyDatabaseEntry,
)
    ensures
        entries_bytes(s.push(e)) == entries_bytes(s) + entry_bytes(e),
{
    let l = entries_bytes(s.push(e));
    let r = entries_bytes(s) + entry_bytes(e);
    assert(l.len() == r.len());
    assert forall|j: int| 0 <= j < l.len() implies l[j] == r[j] by {
        if j < 10 * s.len() {
            assert(j / 10 < s.len());
        } else {
            assert(j / 10 == s.len());
            assert(j % 10 == j - 10 * s.len());
        }
    }
    assert(l =~= r);
}

/// The bytes of entry `i` stand at ten times `i` in the bytes of the
/// entries.
pub proof fn lemma_entries_bytes_at(s: Seq<HeartRateDailyDatabaseEntry>, i: int)
    requires
        0 <= i < s.len(),
    ensures
        entries_bytes(s).subrange(10 * i, 10 * i + 10) == entry_bytes(s[i]),
{
    let part = entries_bytes(s).subrange(10 * i, 10 * i + 10);
    assert(entry_bytes(s[i]).len() == 10);
    assert forall|k: int| 0 <= k < 10 implies part[k] == entry_bytes(s[i])[k] by {
        assert((10 * i + k) / 10 == i && (10 * i + k) % 10 == k);
    }
    assert(part =~= entry_bytes(s[i]));
}

/// The ten bytes of an entry, standing at position `i`, are read back as
/// that entry, and an entry that is read at position `i` stands there as
/// its ten bytes.
pub proof fn lemma_entry_at(raw: Seq<u8>, i: int, e: HeartRateDailyDatabaseEntry)
    requires
        0 <= i,
        8 + 10 * i + 10 <= raw.len(),
    ensures
        entry_at(raw, i) == Some(e) <==> raw.subrange(8 + 10 * i, 8 + 10 * i + 10) == entry_bytes(
            e,
        ),
{
    let at = 8 + 10 * i;
    let part = raw.subrange(at, at + 10);
    let bytes = entry_bytes(e);
    assert(bytes.len() == 10);
    assert(bytes[2] == entry_tag()[2] && bytes[3] == entry_tag()[3]);
    assert(bytes[4] == e.hour && bytes[5] == e.min && bytes[6] == e.heart_rate);
    assert(bytes[7] == e.max_heart_rate && bytes[8] == e.min_heart_rate);
    assert(bytes[9] == e.avg_heart_rate);
    if part == bytes {
        assert forall|k: int| 0 <= k < 10 implies raw[at + k] == bytes[k] by {
            assert(part[k] == bytes[k]);
        }
        assert(raw[at] == bytes[0] && raw[at + 1] == bytes[1] && raw[at + 2] == bytes[2]);
        assert(raw[at + 3] == bytes[3] && raw[at + 4] == bytes[4] && raw[at + 5] == bytes[5]);
        assert(raw[at + 6] == bytes[6] && raw[at + 7] == bytes[7] && raw[at + 8] == bytes[8]);
        assert(raw[at + 9] == bytes[9]);
        assert(raw.subrange(at, at + 4) =~= entry_tag());
    }
    if entry_at(raw, i) == Some(e) {
        assert(raw.subrange(at, at + 4)[0] == entry_tag()[0]);
        assert(raw.subrange(at, at + 4)[1] == entry_tag()[1]);
        assert(raw.subrange(at, at + 4)[2] == entry_tag()[2]);
        assert(raw.subrange(at, at + 4)[3] == entry_tag()[3]);
        assert(part =~= bytes);
    }
}

/// Saving and loading agree: the bytes of a record, with anything after
/// them, hold that record.
pub proof fn lemma_stored_record_bytes(s: Seq<HeartRateDailyDatabaseEntry>, rest: Seq<u8>)
    requires
        distinct_times(s),
    ensures
        stored(record_bytes(s) + rest) == Some(s),
{
    lemma_distinct_times_bounded(s);
    let n = s.len() as u32;
    let raw = record_bytes(s) + rest;
    lemma_le32_value(n);
    assert(raw.subrange(0, 4) =~= record_tag());
    assert(raw.subrange(4, 8) =~= le32(n));
    assert(raw.len() >= 8 + 10 * n);
    assert forall|i: int| 0 <= i < n implies entry_at(raw, i) == Some(s[i]) by {
        lemma_entries_bytes_at(s, i);
        let at = 8 + 10 * i;
        assert(raw.subrange(at, at + 10) =~= entries_bytes(s).subrange(10 * i, 10 * i + 10));
        lemma_entry_at(raw, i, s[i]);
    }
    assert(Seq::new(n as nat, |i: int| entry_at(raw, i).unwrap()) =~= s);
}

/// What is loaded is what was saved: bytes that hold a record begin with
/// the bytes of that record.
pub proof fn lemma_stored_is_prefix(raw: Seq<u8>)
    ensures
        stored(raw) matches Some(s) ==> distinct_times(s) && record_bytes(s).len() <= raw.len()
            && raw.subrange(0, record_bytes(s).len() as int) == record_bytes(s),
{
    if let Some(s) = stored(raw) {
        lemma_distinct_times_bounded(s);
        let n = s.len() as u32;
        let head = raw.subrange(4, 8);
        assert(le32(n) =~= head) by {
            let v = le32_value(head);
            assert(v == n);
            assert(n / 256 == (n / 65536) * 256 + n / 256 % 256);
            assert(n / 65536 == (n / 16777216) * 256 + n / 65536 % 256);
            assert(n % 256 == head[0]);
            assert(n / 256 % 256 == head[1]);
            assert(n / 65536 % 256 == head[2]);
            assert(n / 16777216 == head[3]);
        }
        let bytes = record_bytes(s);
        assert(bytes.len() == 8 + 10 * n);
        assert forall|j: int| 0 <= j < bytes.len() implies raw[j] == bytes[j] by {
            if j < 4 {
                assert(raw.subrange(0, 4)[j] == record_tag()[j]);
            } else if j < 8 {
                assert(head[j - 4] == le32(n)[j - 4]);
            } else {
                let i = (j - 8) / 10;
                let k = (j - 8) % 10;
                assert(entry_at(raw, i) is Some);
                assert(s[i] == entry_at(raw, i).unwrap());
                lemma_entry_at(raw, i, s[i]);
                assert(raw.subrange(8 + 10 * i, 8 + 10 * i + 10)[k] == entry_bytes(s[i])[k]);
                assert(bytes[j] == entries_bytes(s)[j - 8]);
            }
        }
        assert(raw.subrange(0, bytes.len() as int) =~= bytes);
    }
}

/// Whether an entry is an instantaneous sample.
pub open spec fn is_sample(e: HeartRateDailyDatabaseEntry) -> bool {
    e.heart_rate != INVALID_HEART_RATE
}

/// Whether an entry is the rollup of a day.
pub open spec fn is_rollup(e: HeartRateDailyDatabaseEntry) -> bool {
    e.heart_rate == INVALID_HEART_RATE && e.avg_heart_rate != INVALID_HEART_RATE
}

/// The points of the chart of a day: for every instantaneous sample, in the
/// order of the record, the minute of the day and the rate.
pub open spec fn chart_of(s: Seq<HeartRateDailyDatabaseEntry>) -> Seq<(u32, u8)>
    decreases s.len(),
{
    if s.len() == 0 {
        Seq::empty()
    } else if is_sample(s.last()) {
        chart_of(s.drop_last()).push(
            ((s.last().hour * 60 + s.last().min) as u32, s.last().heart_rate),
        )
    } else {
        chart_of(s.drop_last())
    }
}

/// The rollup of a day: the last entry of the record that is one.
pub open spec fn summary_of(s: Seq<HeartRateDailyDatabaseEntry>) -> Option<
    HeartRateDailyDatabaseEntry,
>
    decreases s.len(),
{
    if s.len() == 0 {
        None
    } else if is_rollup(s.last()) {
        Some(s.last())
    } else {
        summary_of(s.drop_last())
    }
}

/// The heart-rate record of one day: its entries in the order they
/// arrived, at most one for any time of day.
#[derive(PartialEq, Eq, Debug)]
pub struct HeartRateDailyDatabase {
    entry_count: u32,
    entries: Vec<HeartRateDailyDatabaseEntry>,
}

impl View for HeartRateDailyDatabase {
    type V = Seq<HeartRateDailyDatabaseEntry>;

    closed spec fn view(&self) -> Seq<HeartRateDailyDatabaseEntry> {
        self.entries@
    }
}

impl HeartRateDailyDatabase {
    #[verifier::type_invariant]
    spec fn inv(&self) -> bool {
        self.entry_count == self.entries@.len() && distinct_times(self.entries@)
    }

    /// The empty record.
    pub fn new() -> (db: Self)
        ensures
            db@ == Seq::<HeartRateDailyDatabaseEntry>::empty(),
    {
        HeartRateDailyDatabase { entry_count: 0, entries: Vec::new() }
    }

    /// The number of entries.
    pub fn entry_count(&self) -> (n: u32)
        ensures
            n == self@.len(),
    {
        proof {
            use_type_invariant(self);
        }
        self.entry_count
    }

    /// The entries, in the order they arrived.
    pub fn entries(&self) -> (entries: &Vec<HeartRateDailyDatabaseEntry>)
        ensures
            entries@ == self@,
            distinct_times(self@),
    {
        proof {
            use_type_invariant(self);
        }
        &self.entries
    }

    /// Merge-inserts an entry: the entry stored for the same hour and
    /// minute, if there is one, is removed, and the new entry is appended.
    pub fn push(&mut self, entry: HeartRateDailyDatabaseEntry)
        ensures
            final(self)@ == merge_insert(old(self)@, entry),
            distinct_times(final(self)@),
    {
        proof {
            use_type_invariant(&*self);
            lemma_merge_insert_distinct(self.entries@, entry);
            lemma_distinct_times_bounded(merge_insert(self.entries@, entry));
        }
        let entries = merge(&self.entries, entry);
        let entry_count: u32 = entries.len() as u32;
        *self = HeartRateDailyDatabase { entry_count, entries };
    }

    /// Merge-inserts the entries of `entries`, first to last.
    pub fn push_all(&mut self, entries: &Vec<HeartRateDailyDatabaseEntry>)
        ensures
            final(self)@ == insert_all(old(self)@, entries@),
            distinct_times(final(self)@),
    {
        let mut i: usize = 0;
        proof {
            use_type_invariant(&*self);
            assert(entries@.take(0) =~= Seq::<HeartRateDailyDatabaseEntry>::empty());
        }
        while i < entries.len()
            invariant
                i <= entries.len(),
                self@ == insert_all(old(self)@, entries@.take(i as int)),
                distinct_times(self@),
            decreases entries.len() - i,
        {
            proof {
                assert(entries@.take(i + 1).drop_last() =~= entries@.take(i as int));
                assert(entries@.take(i + 1).last() == entries@[i as int]);
            }
            self.push(entries[i]);
            i = i + 1;
        }
        assert(entries@.take(entries.len() as int) =~= entries@);
    }

    /// One load-merge-save step, from bytes to bytes: the record that the
    /// backing store holds for a date is loaded, the entries are
    /// merge-inserted, and the bytes to overwrite the backing object with
    /// are returned. A corrupt record is reported and nothing is returned
    /// to write.
    pub fn merged(
        persisted: Option<&[u8]>,
        entries: &Vec<HeartRateDailyDatabaseEntry>,
    ) -> (r: Result<Vec<u8>, StoreError>)
        ensures
            match persisted {
                None => r matches Ok(bytes) && bytes@ == record_bytes(
                    insert_all(Seq::empty(), entries@),
                ),
                Some(raw) => match stored(raw@) {
                    Some(s) => r matches Ok(bytes) && bytes@ == record_bytes(
                        insert_all(s, entries@),
                    ),
                    None => r is Err,
                },
            },
    {
        match Self::load(persisted) {
            Ok(mut db) => {
                db.push_all(entries);
                Ok(db.to_bytes())
            },
            Err(e) => Err(e),
        }
    }

    /// The points to chart: the instantaneous samples of the day.
    pub fn chart_samples(&self) -> (points: Vec<(u32, u8)>)
        ensures
            points@ == chart_of(self@),
    {
        let mut points: Vec<(u32, u8)> = Vec::new();
        let mut i: usize = 0;
        proof {
            assert(self.entries@.take(0) =~= Seq::<HeartRateDailyDatabaseEntry>::empty());
        }
        while i < self.entries.len()
            invariant
                i <= self.entries.len(),
                points@ == chart_of(self.entries@.take(i as int)),
            decreases self.entries.len() - i,
        {
            let e = self.entries[i];
            proof {
                assert(self.entries@.take(i + 1).drop_last() =~= self.entries@.take(i as int));
                assert(self.entries@.take(i + 1).last() == e);
            }
            if e.heart_rate != INVALID_HEART_RATE {
                points.push((e.minute_of_day(), e.heart_rate));
            }
            i = i + 1;
        }
        assert(self.entries@.take(self.entries.len() as int) =~= self.entries@);
        points
    }

    /// The rollup of the day, if the record holds one.
    pub fn day_summary(&self) -> (summary: Option<HeartRateDailyDatabaseEntry>)
        ensures
            summary == summary_of(self@),
    {
        let mut summary: Option<HeartRateDailyDatabaseEntry> = None;
        let mut i: usize = 0;
        proof {
            assert(self.entries@.take(0) =~= Seq::<HeartRateDailyDatabaseEntry>::empty());
        }
        while i < self.entries.len()
            invariant
                i <= self.entries.len(),
                summary == summary_of(self.entries@.take(i as int)),
            decreases self.entries.len() - i,
        {
            let e = self.entries[i];
            proof {
                assert(self.entries@.take(i + 1).drop_last() =~= self.entries@.take(i as int));
                assert(self.entries@.take(i + 1).last() == e);
            }
            if e.heart_rate == INVALID_HEART_RATE && e.avg_heart_rate != INVALID_HEART_RATE {
                summary = Some(e);
            }
            i = i + 1;
        }
        assert(self.entries@.take(self.entries.len() as int) =~= self.entries@);
        summary
    }

    /// The bytes that persist the record, in full.
    pub fn to_bytes(&self) -> (bytes: Vec<u8>)
        ensures
            bytes@ == record_bytes(self@),
            stored(bytes@) == Some(self@),
    {
        proof {
            use_type_invariant(self);
        }
        let mut bytes: Vec<u8> = Vec::new();
        let magic: [u8; 4] = [0x48, 0x52, 0x44, 0x42];
        let tag: [u8; 4] = [0x48, 0x52, 0x44, 0x45];
        put_bytes(&mut bytes, magic.as_slice());
        put_le32(&mut bytes, self.entry_count);
        let mut i: usize = 0;
        proof {
            assert(self.entries@.take(0) =~= Seq::empty());
            assert(entries_bytes(self.entries@.take(0)) =~= Seq::<u8>::empty());
            assert(magic@ =~= record_tag());
            assert(bytes@ =~= record_tag() + le32(self.entry_count) + entries_bytes(
                self.entries@.take(0),
            ));
        }
        while i < self.entries.len()
            invariant
                i <= self.entries.len(),
                tag@ == entry_tag(),
                bytes@ == record_tag() + le32(self.entry_count) + entries_bytes(
                    self.entries@.take(i as int),
                ),
            decreases self.entries.len() - i,
        {
            let e = self.entries[i];
            let ghost before = bytes@;
            put_bytes(&mut bytes, tag.as_slice());
            bytes.push(e.hour);
            bytes.push(e.min);
            bytes.push(e.heart_rate);
            bytes.push(e.max_heart_rate);
            bytes.push(e.min_heart_rate);
            bytes.push(e.avg_heart_rate);
            proof {
                lemma_entries_bytes_push(self.entries@.take(i as int), e);
                assert(self.entries@.take(i + 1) =~= self.entries@.take(i as int).push(e));
                assert(bytes@ =~= before + entry_bytes(e));
                assert(bytes@ =~= record_tag() + le32(self.entry_count) + entries_bytes(
                    self.entries@.take(i + 1),
                ));
            }
            i = i + 1;
        }
        proof {
            assert(self.entries@.take(self.entries.len() as int) =~= self.entries@);
            lemma_stored_record_bytes(self.entries@, Seq::empty());
            assert(record_bytes(self.entries@) + Seq::<u8>::empty() =~= record_bytes(
                self.entries@,
            ));
        }
        bytes
    }

    /// Reads a persisted record. Bytes that do not hold a heart-rate record
    /// are corrupt.
    pub fn from_bytes(raw: &[u8]) -> (r: Result<Self, StoreError>)
        ensures
            match r {
                Ok(db) => stored(raw@) == Some(db@),
                Err(StoreError::StoreCorrupt) => stored(raw@) is None,
            },
    {
        let magic: [u8; 4] = [0x48, 0x52, 0x44, 0x42];
        let tag: [u8; 4] = [0x48, 0x52, 0x44, 0x45];
        proof {
            assert(magic@ =~= record_tag());
            assert(tag@ =~= entry_tag());
        }
        if raw.len() < 8 || !has_bytes_at(raw, 0, magic.as_slice()) {
            return Err(StoreError::StoreCorrupt);
        }
        let n: u32 = get_le32(raw, 4);
        if (raw.len() - 8) / 10 < n as usize {
            return Err(StoreError::StoreCorrupt);
        }
        let ghost s = Seq::new(n as nat, |i: int| entry_at(raw@, i).unwrap());
        let mut entries: Vec<HeartRateDailyDatabaseEntry> = Vec::new();
        let mut i: usize = 0;
        while i < n as usize
            invariant
                i <= n,
                8 + 10 * n <= raw.len(),
                tag@ == entry_tag(),
                entries@.len() == i,
                forall|k: int| 0 <= k < i ==> entry_at(raw@, k) == Some(#[trigger] entries@[k]),
                distinct_times(entries@),
                s == Seq::new(n as nat, |i: int| entry_at(raw@, i).unwrap()),
                raw@.len() >= 8 && raw@.subrange(0, 4) == record_tag(),
                n == le32_value(raw@.subrange(4, 8)),
            decreases n - i,
        {
            let at: usize = 8 + 10 * i;
            if !has_bytes_at(raw, at, tag.as_slice()) {
                assert(entry_at(raw@, i as int) is None);
                return Err(StoreError::StoreCorrupt);
            }
            let e = HeartRateDailyDatabaseEntry {
                hour: raw[at + 4],
                min: raw[at + 5],
                heart_rate: raw[at + 6],
                max_heart_rate: raw[at + 7],
                min_heart_rate: raw[at + 8],
                avg_heart_rate: raw[at + 9],
            };
            assert(entry_at(raw@, i as int) == Some(e));
            let mut j: usize = 0;
            while j < entries.len()
                invariant
                    j <= entries.len(),
                    entries@.len() == i,
                    i < n,
                    forall|k: int| 0 <= k < j ==> (#[trigger] entries@[k]).time() != e.time(),
                    forall|k: int| 0 <= k < i ==> entry_at(raw@, k) == Some(#[trigger] entries@[k]),
                    entry_at(raw@, i as int) == Some(e),
                    s == Seq::new(n as nat, |i: int| entry_at(raw@, i).unwrap()),
                    raw@.len() >= 8 && raw@.subrange(0, 4) == record_tag(),
                    n == le32_value(raw@.subrange(4, 8)),
                decreases entries.len() - j,
            {
                if entries[j].hour == e.hour && entries[j].min == e.min {
                    proof {
                        assert(entry_at(raw@, j as int) == Some(entries@[j as int]));
                        assert(s[j as int] == entries@[j as int] && s[i as int] == e);
                        assert(s[j as int].time() == s[i as int].time());
                        assert(!distinct_times(s));
                    }
                    return Err(StoreError::StoreCorrupt);
                }
                j = j + 1;
            }
            entries.push(e);
            i = i + 1;
        }
        proof {
            assert(entries@ =~= s);
            assert forall|k: int| 0 <= k < n implies (#[trigger] entry_at(raw@, k)) is Some by {
                assert(entry_at(raw@, k) == Some(entries@[k]));
            }
            lemma_distinct_times_bounded(entries@);
        }
        let entry_count: u32 = entries.len() as u32;
        Ok(HeartRateDailyDatabase { entry_count, entries })
    }

    /// The partition of the backing store that keeps the heart-rate
    /// records.
    pub fn partition() -> (name: &'static str)
        ensures
            name@ == "db/hr"@,
    {
        "db/hr"
    }

    /// The place of the record of a date in the backing store: the
    /// partition of the heart-rate records, and in it the name of the date.
    pub fn get_db_path(date: Date) -> (path: String)
        ensures
            path@ == "db/hr"@ + "/"@ + name_of(date),
    {
        let mut path = String::new();
        path.append(Self::partition());
        path.append("/");
        let name = date_name(date);
        path.append(name.as_str());
        assert(path@ =~= "db/hr"@ + "/"@ + name_of(date));
        path
    }

    /// The dates that have a record, from the names listed in the
    /// partition of the heart-rate records. Names that are not the name of a
    /// record are passed over. The order is that of the listing.
    pub fn list_dates(names: &Vec<String>) -> (dates: Vec<Date>)
        ensures
            dates@ == dates_of(names@),
    {
        dates_of_names(names)
    }

    /// Loads the record of a date from what the backing store holds for it:
    /// the empty record if it holds nothing, the persisted record if it
    /// holds one, and an error if what it holds is corrupt.
    pub fn load(persisted: Option<&[u8]>) -> (r: Result<Self, StoreError>)
        ensures
            match persisted {
                None => r matches Ok(db) && db@ == Seq::<HeartRateDailyDatabaseEntry>::empty(),
                Some(raw) => match r {
                    Ok(db) => stored(raw@) == Some(db@),
                    Err(StoreError::StoreCorrupt) => stored(raw@) is None,
                },
            },
    {
        match persisted {
            None => Ok(Self::new()),
            Some(raw) => Self::from_bytes(raw),
        }
    }
}

} // verus!
