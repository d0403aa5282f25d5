//! The recorded-steps record of one day.
//!
//! Persisted, a record is the tag `RSDB`, the number of entries as four
//! bytes, least significant first, and the entries back to back. An entry
//! is the tag `RSDE` and five bytes: hour, minute, the kind of step (0 for
//! walking, 1 for running), and the number of steps as two bytes, least
//! significant first.

use crate::common::Date;
use crate::db::names::{date_name, dates_of, dates_of_names, name_of};
use crate::db::{
    distinct_times, insert_all, lemma_distinct_times_bounded, lemma_merge_insert_distinct, merge,
    merge_insert, StoreError, Timed,
};
use crate::wire::{
    get_le32, has_bytes_at, le16, le32, le32_value, lemma_le32_value, put_bytes, put_le16, put_le32,
};
use vstd::prelude::*;
use vstd::string::StringExecFns;

verus! {

/// Whether steps were walked or run.
#[derive(Copy, Clone, PartialEq, Eq, Debug, Structural)]
pub enum RecordedStepKind {
    Walk,
    Run,
}

impl RecordedStepKind {
    /// The byte that stands for this value on the wire.
    pub open spec fn wire_byte(self) -> u8 {
        match self {
            RecordedStepKind::Walk => 0,
            RecordedStepKind::Run => 1,
        }
    }

    /// The value that a wire byte stands for, if it stands for any.
    pub open spec fn of_wire_byte(b: u8) -> Option<RecordedStepKind> {
        if b == 0 {
            Some(RecordedStepKind::Walk)
        } else if b == 1 {
            Some(RecordedStepKind::Run)
        } else {
            None
        }
    }

    pub fn to_byte(self) -> (b: u8)
        ensures
            b == self.wire_byte(),
    {
        match self {
            RecordedStepKind::Walk => 0,
            RecordedStepKind::Run => 1,
        }
    }

    /// Checked mapping from a wire byte; a byte outside the table gives `None`.
    pub fn from_byte(b: u8) -> (v: Option<RecordedStepKind>)
        ensures
            v == Self::of_wire_byte(b),
    {
        match b {
            0 => Some(RecordedStepKind::Walk),
            1 => Some(RecordedStepKind::Run),
            _ => None,
        }
    }

    /// A byte is mapped to a value exactly when it is that value's wire byte.
    pub proof fn lemma_wire_byte_inverse(v: RecordedStepKind, b: u8)
        ensures
            Self::of_wire_byte(b) == Some(v) <==> v.wire_byte() == b,
    {
    }
}

/// The steps of one kind that were newly counted at one time of day.
#[derive(Copy, Clone, PartialEq, Eq, Debug)]
pub struct RecordedStepsDailyDatabaseEntry {
    pub hour: u8,
    pub min: u8,
    pub new_step_kind: RecordedStepKind,
    pub new_step_count: u16,
}

impl Timed for RecordedStepsDailyDatabaseEntry {
    open spec fn time(&self) -> (u8, u8) {
        (self.hour, self.min)
    }

    fn hour_min(&self) -> (t: (u8, u8)) {
        (self.hour, self.min)
    }
}

/// The tag that begins a persisted recorded-steps record: `RSDB`.
pub open spec fn record_tag() -> Seq<u8> {
    seq![0x52u8, 0x53u8, 0x44u8, 0x42u8]
}

/// The tag that begins each persisted entry: `RSDE`.
pub open spec fn entry_tag() -> Seq<u8> {
    seq![0x52u8, 0x53u8, 0x44u8, 0x45u8]
}

/// The nine bytes of a persisted entry.
pub open spec fn entry_bytes(e: RecordedStepsDailyDatabaseEntry) -> Seq<u8> {
    entry_tag() + seq![e.hour, e.min, e.new_step_kind.wire_byte()] + le16(e.new_step_count)
}

/// The persisted entries, back to back.
pub open spec fn entries_bytes(s: Seq<RecordedStepsDailyDatabaseEntry>) -> Seq<u8> {
    Seq::new(9 * s.len(), |j: int| entry_bytes(s[j / 9])[j % 9])
}

/// The bytes of a persisted record: tag, count, entries.
pub open spec fn record_bytes(s: Seq<RecordedStepsDailyDatabaseEntry>) -> Seq<u8> {
    record_tag() + le32(s.len() as u32) + entries_bytes(s)
}

/// The entry that stands at position `i` of a persisted record, if the
/// bytes there are an entry.
pub open spec fn entry_at(raw: Seq<u8>, i: int) -> Option<RecordedStepsDailyDatabaseEntry> {
    let at = 8 + 9 * i;
    if raw.subrange(at, at + 4) == entry_tag() {
        match RecordedStepKind::of_wire_byte(raw[at + 6]) {
            Some(kind) => Some(
                RecordedStepsDailyDatabaseEntry {
                    hour: raw[at + 4],
                    min: raw[at + 5],
                    new_step_kind: kind,
                    new_step_count: (raw[at + 7] + raw[at + 8] * 256) as u16,
                },
            ),
            None => None,
        }
    } else {
        None
    }
}

/// The record that the bytes hold, if they hold one: the tag is right, as
/// many entries follow as the count says, and no two of them belong to the
/// same time of day. Bytes after the last entry are not looked at.
pub open spec fn stored(raw: Seq<u8>) -> Option<Seq<RecordedStepsDailyDatabaseEntry>> {
    if raw.len() >= 8 && raw.subrange(0, 4) == record_tag() {
        let n = le32_value(raw.subrange(4, 8));
        let s = Seq::new(n as nat, |i: int| entry_at(raw, i).unwrap());
        if 8 + 9 * n <= raw.len() && (forall|i: int|
            0 <= i < n ==> (#[trigger] entry_at(raw, i)) is Some) && distinct_times(s) {
            Some(s)
        } else {
            None
        }
    } else {
        None
    }
}

/// Appending an entry to a record appends its nine bytes.
pub proof fn lemma_entries_bytes_push(
    s: Seq<RecordedStepsDailyDatabaseEntry>,
    e: RecordedStepsDailyDatabaseEntry,
)
    ensures
        entries_bytes(s.push(e)) == entries_bytes(s) + entry_bytes(e),
{
    let l = entries_bytes(s.push(e));
    let r = entries_bytes(s) + entry_bytes(e);
    assert(l.len() == r.len());
    assert forall|j: int| 0 <= j < l.len() implies l[j] == r[j] by {
        if j < 9 * s.len() {
            assert(j / 9 < s.len());
        } else {
            assert(j / 9 == s.len());
            assert(j % 9 == j - 9 * s.len());
        }
    }
    assert(l =~= r);
}

/// The bytes of entry `i` stand at nine times `i` in the bytes of the
/// entries.
pub proof fn lemma_entries_bytes_at(s: Seq<RecordedStepsDailyDatabaseEntry>, i: int)
    requires
        0 <= i < s.len(),
    ensures
        entries_bytes(s).subrange(9 * i, 9 * i + 9) == entry_bytes(s[i]),
{
    let part = entries_bytes(s).subrange(9 * i, 9 * i + 9);
    assert(entry_bytes(s[i]).len() == 9);
    assert forall|k: int| 0 <= k < 9 implies part[k] == entry_bytes(s[i])[k] by {
        assert((9 * i + k) / 9 == i && (9 * i + k) % 9 == k);
    }
    assert(part =~= entry_bytes(s[i]));
}

/// The nine bytes of an entry, standing at position `i`, are read back as
/// that entry, and an entry that is read at position `i` stands there as
/// its nine bytes.
pub proof fn lemma_entry_at(raw: Seq<u8>, i: int, e: RecordedStepsDailyDatabaseEntry)
    requires
        0 <= i,
        8 + 9 * i + 9 <= raw.len(),
    ensures
        entry_at(raw, i) == Some(e) <==> raw.subrange(8 + 9 * i, 8 + 9 * i + 9) == entry_bytes(
            e,
        ),
{
    let at = 8 + 9 * i;
    let part = raw.subrange(at, at + 9);
    let bytes = entry_bytes(e);
    RecordedStepKind::lemma_wire_byte_inverse(e.new_step_kind, raw[at + 6]);
    assert(bytes.len() == 9);
    assert(bytes[2] == entry_tag()[2] && bytes[3] == entry_tag()[3]);
    assert(bytes[4] == e.hour && bytes[5] == e.min && bytes[6] == e.new_step_kind.wire_byte());
    assert(bytes[7] == le16(e.new_step_count)[0] && bytes[8] == le16(e.new_step_count)[1]);
    if part == bytes {
        assert forall|k: int| 0 <= k < 9 implies raw[at + k] == bytes[k] by {
            assert(part[k] == bytes[k]);
        }
        assert(raw[at] == bytes[0] && raw[at + 1] == bytes[1] && raw[at + 2] == bytes[2]);
        assert(raw[at + 3] == bytes[3] && raw[at + 4] == bytes[4] && raw[at + 5] == bytes[5]);
        assert(raw[at + 6] == bytes[6] && raw[at + 7] == bytes[7] && raw[at + 8] == bytes[8]);
        assert(raw.subrange(at, at + 4) =~= entry_tag());
        assert(e.new_step_count == raw[at + 7] + raw[at + 8] * 256);
    }
    if entry_at(raw, i) == Some(e) {
        assert(raw.subrange(at, at + 4)[0] == entry_tag()[0]);
        assert(raw.subrange(at, at + 4)[1] == entry_tag()[1]);
        assert(raw.subrange(at, at + 4)[2] == entry_tag()[2]);
        assert(raw.subrange(at, at + 4)[3] == entry_tag()[3]);
        assert(part =~= bytes);
    }
}

/// Saving and loading agree: the bytes of a record, with anything after
/// them, hold that record.
pub proof fn lemma_stored_record_bytes(s: Seq<RecordedStepsDailyDatabaseEntry>, rest: Seq<u8>)
    requires
        distinct_times(s),
    ensures
        stored(record_bytes(s) + rest) == Some(s),
{
    lemma_distinct_times_bounded(s);
    let n = s.len() as u32;
    let raw = record_bytes(s) + rest;
    lemma_le32_value(n);
    assert(raw.subrange(0, 4) =~= record_tag());
    assert(raw.subrange(4, 8) =~= le32(n));
    assert(raw.len() >= 8 + 9 * n);
    assert forall|i: int| 0 <= i < n implies entry_at(raw, i) == Some(s[i]) by {
        lemma_entries_bytes_at(s, i);
        let at = 8 + 9 * i;
        assert(raw.subrange(at, at + 9) =~= entries_bytes(s).subrange(9 * i, 9 * i + 9));
        lemma_entry_at(raw, i, s[i]);
    }
    assert(Seq::new(n as nat, |i: int| entry_at(raw, i).unwrap()) =~= s);
}

/// What is loaded is what was saved: bytes that hold a record begin with
/// the bytes of that record.
pub proof fn lemma_stored_is_prefix(raw: Seq<u8>)
    ensures
        stored(raw) matches Some(s) ==> distinct_times(s) && record_bytes(s).len() <= raw.len()
            && raw.subrange(0, record_bytes(s).len() as int) == record_bytes(s),
{
    if let Some(s) = stored(raw) {
        lemma_distinct_times_bounded(s);
        let n = s.len() as u32;
        let head = raw.subrange(4, 8);
        assert(le32(n) =~= head) by {
            let v = le32_value(head);
            assert(v == n);
            assert(n / 256 == (n / 65536) * 256 + n / 256 % 256);
            assert(n / 65536 == (n / 16777216) * 256 + n / 65536 % 256);
            assert(n % 256 == head[0]);
            assert(n / 256 % 256 == head[1]);
            assert(n / 65536 % 256 == head[2]);
            assert(n / 16777216 == head[3]);
        }
        let bytes = record_bytes(s);
        assert(bytes.len() == 8 + 9 * n);
        assert forall|j: int| 0 <= j < bytes.len() implies raw[j] == bytes[j] by {
            if j < 4 {
                assert(raw.subrange(0, 4)[j] == record_tag()[j]);
            } else if j < 8 {
                assert(head[j - 4] == le32(n)[j - 4]);
            } else {
                let i = (j - 8) / 9;
                let k = (j - 8) % 9;
                assert(entry_at(raw, i) is Some);
                assert(s[i] == entry_at(raw, i).unwrap());
                lemma_entry_at(raw, i, s[i]);
                assert(raw.subrange(8 + 9 * i, 8 + 9 * i + 9)[k] == entry_bytes(s[i])[k]);
                assert(bytes[j] == entries_bytes(s)[j - 8]);
            }
        }
        assert(raw.subrange(0, bytes.len() as int) =~= bytes);
    }
}

/// The recorded-steps record of one day: its entries in the order they
/// arrived, at most one for any time of day.
#[derive(PartialEq, Eq, Debug)]
pub struct RecordedStepsDailyDatabase {
    entry_count: u32,
    entries: Vec<RecordedStepsDailyDatabaseEntry>,
}

impl View for RecordedStepsDailyDatabase {
    type V = Seq<RecordedStepsDailyDatabaseEntry>;

    closed spec fn view(&self) -> Seq<RecordedStepsDailyDatabaseEntry> {
        self.entries@
    }
}

impl RecordedStepsDailyDatabase {
    #[verifier::type_invariant]
    spec fn inv(&self) -> bool {
        self.entry_count == self.entries@.len() && distinct_times(self.entries@)
    }

    /// The empty record.
    pub fn new() -> (db: Self)
        ensures
            db@ == Seq::<RecordedStepsDailyDatabaseEntry>::empty(),
    {
        RecordedStepsDailyDatabase { entry_count: 0, entries: Vec::new() }
    }

    /// The number of entries.
    pub fn entry_count(&self) -> (n: u32)
        ensures
            n == self@.len(),
    {
        proof {
            use_type_invariant(self);
        }
        self.entry_count
    }

    /// The entries, in the order they arrived.
    pub fn entries(&self) -> (entries: &Vec<RecordedStepsDailyDatabaseEntry>)
        ensures
            entries@ == self@,
            distinct_times(self@),
    {
        proof {
            use_type_invariant(self);
        }
        &self.entries
    }

    /// Merge-inserts an entry: the entry stored for the same hour and
    /// minute, if there is one, is removed, and the new entry is appended.
    pub fn push(&mut self, entry: RecordedStepsDailyDatabaseEntry)
        ensures
            final(self)@ == merge_insert(old(self)@, entry),
            distinct_times(final(self)@),
    {
        proof {
            use_type_invariant(&*self);
            lemma_merge_insert_distinct(self.entries@, entry);
            lemma_distinct_times_bounded(merge_insert(self.entries@, entry));
        }
        let entries = merge(&self.entries, entry);
        let entry_count: u32 = entries.len() as u32;
        *self = RecordedStepsDailyDatabase { entry_count, entries };
    }

    /// Merge-inserts the entries of `entries`, first to last.
    pub fn push_all(&mut self, entries: &Vec<RecordedStepsDailyDatabaseEntry>)
        ensures
            final(self)@ == insert_all(old(self)@, entries@),
            distinct_times(final(self)@),
    {
        let mut i: usize = 0;
        proof {
            use_type_invariant(&*self);
            assert(entries@.take(0) =~= Seq::<RecordedStepsDailyDatabaseEntry>::empty());
        }
        while i < entries.len()
            invariant
                i <= entries.len(),
                self@ == insert_all(old(self)@, entries@.take(i as int)),
                distinct_times(self@),
            decreases entries.len() - i,
        {
            proof {
                assert(entries@.take(i + 1).drop_last() =~= entries@.take(i as int));
                assert(entries@.take(i + 1).last() == entries@[i as int]);
            }
            self.push(entries[i]);
            i = i + 1;
        }
        assert(entries@.take(entries.len() as int) =~= entries@);
    }

    /// One load-merge-save step, from bytes to bytes: the record that the
    /// backing store holds for a date is loaded, the entries are
    /// merge-inserted, and the bytes to overwrite the backing object with
    /// are returned. A corrupt record is reported and nothing is returned
    /// to write.
    pub fn merged(
        persisted: Option<&[u8]>,
        entries: &Vec<RecordedStepsDailyDatabaseEntry>,
    ) -> (r: Result<Vec<u8>, StoreError>)
        ensures
            match persisted {
                None => r matches Ok(bytes) && bytes@ == record_bytes(
                    insert_all(Seq::empty(), entries@),
                ),
                Some(raw) => match stored(raw@) {
                    Some(s) => r matches Ok(bytes) && bytes@ == record_bytes(
                        insert_all(s, entries@),
                    ),
                    None => r is Err,
                },
            },
    {
        match Self::load(persisted) {
            Ok(mut db) => {
                db.push_all(entries);
                Ok(db.to_bytes())
            },
            Err(e) => Err(e),
        }
    }

    /// The bytes that persist the record, in full.
    pub fn to_bytes(&self) -> (bytes: Vec<u8>)
        ensures
            bytes@ == record_bytes(self@),
            stored(bytes@) == Some(self@),
    {
        proof {
            use_type_invariant(self);
        }
        let mut bytes: Vec<u8> = Vec::new();
        let magic: [u8; 4] = [0x52, 0x53, 0x44, 0x42];
        let tag: [u8; 4] = [0x52, 0x53, 0x44, 0x45];
        put_bytes(&mut bytes, magic.as_slice());
        put_le32(&mut bytes, self.entry_count);
        let mut i: usize = 0;
        proof {
            assert(self.entries@.take(0) =~= Seq::empty());
            assert(entries_bytes(self.entries@.take(0)) =~= Seq::<u8>::empty());
            assert(magic@ =~= record_tag());
            assert(bytes@ =~= record_tag() + le32(self.entry_count) + entries_bytes(
                self.entries@.take(0),
            ));
        }
        while i < self.entries.len()
            invariant
                i <= self.entries.len(),
                tag@ == entry_tag(),
                bytes@ == record_tag() + le32(self.entry_count) + entries_bytes(
                    self.entries@.take(i as int),
                ),
            decreases self.entries.len() - i,
        {
            let e = self.entries[i];
            let ghost before = bytes@;
            put_bytes(&mut bytes, tag.as_slice());
            bytes.push(e.hour);
            bytes.push(e.min);
            bytes.push(e.new_step_kind.to_byte());
            put_le16(&mut bytes, e.new_step_count);
            proof {
                lemma_entries_bytes_push(self.entries@.take(i as int), e);
                assert(self.entries@.take(i + 1) =~= self.entries@.take(i as int).push(e));
                assert(bytes@ =~= before + entry_bytes(e));
                assert(bytes@ =~= record_tag() + le32(self.entry_count) + entries_bytes(
                    self.entries@.take(i + 1),
                ));
            }
            i = i + 1;
        }
        proof {
            assert(self.entries@.take(self.entries.len() as int) =~= self.entries@);
            lemma_stored_record_bytes(self.entries@, Seq::empty());
            assert(record_bytes(self.entries@) + Seq::<u8>::empty() =~= record_bytes(
                self.entries@,
            ));
        }
        bytes
    }

    /// Reads a persisted record. Bytes that do not hold a recorded-steps record
    /// are corrupt.
    pub fn from_bytes(raw: &[u8]) -> (r: Result<Self, StoreError>)
        ensures
            match r {
                Ok(db) => stored(raw@) == Some(db@),
                Err(StoreError::StoreCorrupt) => stored(raw@) is None,
            },
    {
        let magic: [u8; 4] = [0x52, 0x53, 0x44, 0x42];
        let tag: [u8; 4] = [0x52, 0x53, 0x44, 0x45];
        proof {
            assert(magic@ =~= record_tag());
            assert(tag@ =~= entry_tag());
        }
        if raw.len() < 8 || !has_bytes_at(raw, 0, magic.as_slice()) {
            return Err(StoreError::StoreCorrupt);
        }
        let n: u32 = get_le32(raw, 4);
        if (raw.len() - 8) / 9 < n as usize {
            return Err(StoreError::StoreCorrupt);
        }
        let ghost s = Seq::new(n as nat, |i: int| entry_at(raw@, i).unwrap());
        let mut entries: Vec<RecordedStepsDailyDatabaseEntry> = Vec::new();
        let mut i: usize = 0;
        while i < n as usize
            invariant
                i <= n,
                8 + 9 * n <= raw.len(),
                tag@ == entry_tag(),
                entries@.len() == i,
                forall|k: int| 0 <= k < i ==> entry_at(raw@, k) == Some(#[trigger] entries@[k]),
                distinct_times(entries@),
                s == Seq::new(n as nat, |i: int| entry_at(raw@, i).unwrap()),
                raw@.len() >= 8 && raw@.subrange(0, 4) == record_tag(),
                n == le32_value(raw@.subrange(4, 8)),
            decreases n - i,
        {
            let at: usize = 8 + 9 * i;
            if !has_bytes_at(raw, at, tag.as_slice()) {
                assert(entry_at(raw@, i as int) is None);
                return Err(StoreError::StoreCorrupt);
            }
            let kind = match RecordedStepKind::from_byte(raw[at + 6]) {
                Some(kind) => kind,
                None => {
                    assert(entry_at(raw@, i as int) is None);
                    return Err(StoreError::StoreCorrupt);
                },
            };
            let e = RecordedStepsDailyDatabaseEntry {
                hour: raw[at + 4],
                min: raw[at + 5],
                new_step_kind: kind,
                new_step_count: raw[at + 7] as u16 + raw[at + 8] as u16 * 256,
            };
            assert(entry_at(raw@, i as int) == Some(e));
            let mut j: usize = 0;
            while j < entries.len()
                invariant
                    j <= entries.len(),
                    entries@.len() == i,
                    i < n,
                    forall|k: int| 0 <= k < j ==> (#[trigger] entries@[k]).time() != e.time(),
                    forall|k: int| 0 <= k < i ==> entry_at(raw@, k) == Some(#[trigger] entries@[k]),
                    entry_at(raw@, i as int) == Some(e),
                    s == Seq::new(n as nat, |i: int| entry_at(raw@, i).unwrap()),
                    raw@.len() >= 8 && raw@.subrange(0, 4) == record_tag(),
                    n == le32_value(raw@.subrange(4, 8)),
                decreases entries.len() - j,
            {
                if entries[j].hour == e.hour && entries[j].min == e.min {
                    proof {
                        assert(entry_at(raw@, j as int) == Some(entries@[j as int]));
                        assert(s[j as int] == entries@[j as int] && s[i as int] == e);
                        assert(s[j as int].time() == s[i as int].time());
                        assert(!distinct_times(s));
                    }
                    return Err(StoreError::StoreCorrupt);
                }
                j = j + 1;
            }
            entries.push(e);
            i = i + 1;
        }
        proof {
            assert(entries@ =~= s);
            assert forall|k: int| 0 <= k < n implies (#[trigger] entry_at(raw@, k)) is Some by {
                assert(entry_at(raw@, k) == Some(entries@[k]));
            }
            lemma_distinct_times_bounded(entries@);
        }
        let entry_count: u32 = entries.len() as u32;
        Ok(RecordedStepsDailyDatabase { entry_count, entries })
    }

    /// The partition of the backing store that keeps the recorded-steps
    /// records.
    pub fn partition() -> (name: &'static str)
        ensures
            name@ == "db/rs"@,
    {
        "db/rs"
    }

    /// The place of the record of a date in the backing store: the
    /// partition of the recorded-steps records, and in it the name of the date.
    pub fn get_db_path(date: Date) -> (path: String)
        ensures
            path@ == "db/rs"@ + "/"@ + name_of(date),
    {
        let mut path = String::new();
        path.append(Self::partition());
        path.append("/");
        let name = date_name(date);
        path.append(name.as_str());
        assert(path@ =~= "db/rs"@ + "/"@ + name_of(date));
        path
    }

    /// The dates that have a record, from the names listed in the
    /// partition of the recorded-steps records. Names that are not the name of a
    /// record are passed over. The order is that of the listing.
    pub fn list_dates(names: &Vec<String>) -> (dates: Vec<Date>)
        ensures
            dates@ == dates_of(names@),
    {
        dates_of_names(names)
    }

    /// Loads the record of a date from what the backing store holds for it:
    /// the empty record if it holds nothing, the persisted record if it
    /// holds one, and an error if what it holds is corrupt.
    pub fn load(persisted: Option<&[u8]>) -> (r: Result<Self, StoreError>)
        ensures
            match persisted {
                None => r matches Ok(db) && db@ == Seq::<RecordedStepsDailyDatabaseEntry>::empty(),
                Some(raw) => match r {
                    Ok(db) => stored(raw@) == Some(db@),
                    Err(StoreError::StoreCorrupt) => stored(raw@) is None,
                },
            },
    {
        match persisted {
            None => Ok(Self::new()),
            Some(raw) => Self::from_bytes(raw),
        }
    }
}

} // verus!
