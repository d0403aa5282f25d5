//! The daily time-series store.
//!
//! Telemetry is kept in one record per metric and calendar date. A record is
//! a sequence of entries in the order they arrived, with at most one entry
//! for any time of day: inserting an entry replaces the one that was stored
//! for the same hour and minute. Readers that want the entries in
//! chronological order sort them by time of day.
//!
//! A record is persisted whole. Its bytes begin with a four-byte tag that
//! names the metric, so that the record of one metric is never loaded as
//! that of another. Reading and writing the backing objects is left to the
//! caller: this module turns records into bytes and bytes into records, and
//! dates into object names and back.

pub mod heart_rate;
pub mod names;
pub mod steps;

pub use heart_rate::{HeartRateDailyDatabase, HeartRateDailyDatabaseEntry};
pub use steps::{RecordedStepKind, RecordedStepsDailyDatabase, RecordedStepsDailyDatabaseEntry};

use vstd::prelude::*;

verus! {

/// Why a persisted record could not be loaded.
#[derive(Copy, Clone, PartialEq, Eq, Debug, Structural)]
pub enum StoreError {
    /// The bytes are not a record of the metric asked for: the tag is
    /// wrong, the bytes end before the entries do, an entry is not one, or
    /// two entries claim the same time of day. A corrupt record is never
    /// taken for an empty one.
    StoreCorrupt,
}

/// An entry of a daily record: a value that belongs to one time of day.
pub trait Timed: Copy {
    /// The hour and the minute the entry belongs to: its key in the record.
    spec fn time(&self) -> (u8, u8);

    fn hour_min(&self) -> (t: (u8, u8))
        ensures
            t == self.time(),
    ;
}

/// No two entries of the sequence belong to the same time of day.
pub open spec fn distinct_times<E: Timed>(s: Seq<E>) -> bool {
    forall|i: int, j: int|
        0 <= i < j < s.len() ==> (#[trigger] s[i]).time() != (#[trigger] s[j]).time()
}

/// The entries of `s` that do not belong to the time `t`, in their order.
pub open spec fn without_time<E: Timed>(s: Seq<E>, t: (u8, u8)) -> Seq<E> {
    s.filter(|e: E| e.time() != t)
}

/// Merge-insert: whatever was stored for the time of `e` is removed, and
/// `e` is appended.
pub open spec fn merge_insert<E: Timed>(s: Seq<E>, e: E) -> Seq<E> {
    without_time(s, e.time()).push(e)
}

/// The record after the entries of `es` have been merge-inserted, first to
/// last, into `s`.
pub open spec fn insert_all<E: Timed>(s: Seq<E>, es: Seq<E>) -> Seq<E>
    decreases es.len(),
{
    if es.len() == 0 {
        s
    } else {
        merge_insert(insert_all(s, es.drop_last()), es.last())
    }
}

/// Removing a time steps through the sequence entry by entry.
pub proof fn lemma_without_time_push<E: Timed>(s: Seq<E>, e: E, t: (u8, u8))
    ensures
        without_time(s.push(e), t) == if e.time() == t {
            without_time(s, t)
        } else {
            without_time(s, t).push(e)
        },
        without_time(Seq::<E>::empty(), t) == Seq::<E>::empty(),
{
    reveal(Seq::filter);
    assert(s.push(e).drop_last() =~= s);
    assert(Seq::<E>::empty().filter(|e: E| e.time() != t) =~= Seq::<E>::empty());
}

/// What removing a time keeps: exactly the entries of other times, each an
/// entry of the sequence it was taken from, and none twice if none was
/// there twice.
pub proof fn lemma_without_time<E: Timed>(s: Seq<E>, t: (u8, u8))
    ensures
        without_time(s, t).len() <= s.len(),
        forall|i: int|
            0 <= i < without_time(s, t).len() ==> (#[trigger] without_time(s, t)[i]).time() != t,
        forall|i: int|
            0 <= i < without_time(s, t).len() ==> s.contains(#[trigger] without_time(s, t)[i]),
        forall|i: int|
            0 <= i < s.len() && s[i].time() != t ==> without_time(s, t).contains(#[trigger] s[i]),
        distinct_times(s) ==> distinct_times(without_time(s, t)),
        (forall|i: int| 0 <= i < s.len() ==> (#[trigger] s[i]).time() != t) ==> without_time(s, t)
            == s,
    decreases s.len(),
{
    let out = without_time(s, t);
    if s.len() == 0 {
        lemma_without_time_push(s, arbitrary(), t);
        assert(s =~= Seq::<E>::empty());
    } else {
        let front = s.drop_last();
        let last = s.last();
        let kept = without_time(front, t);
        lemma_without_time(front, t);
        lemma_without_time_push(front, last, t);
        assert(front.push(last) =~= s);
        assert forall|i: int| 0 <= i < out.len() implies s.contains(#[trigger] out[i]) by {
            if i < kept.len() {
                assert(front.contains(kept[i]));
                let j = choose|j: int| 0 <= j < front.len() && front[j] == kept[i];
                assert(s[j] == out[i]);
            } else {
                assert(s[s.len() - 1] == out[i]);
            }
        }
        assert forall|i: int| 0 <= i < s.len() && s[i].time() != t implies out.contains(
            #[trigger] s[i],
        ) by {
            if i < front.len() {
                assert(front[i] == s[i]);
                assert(kept.contains(front[i]));
                let j = choose|j: int| 0 <= j < kept.len() && kept[j] == front[i];
                assert(out[j] == s[i]);
            } else {
                assert(out[out.len() - 1] == s[i]);
            }
        }
        if distinct_times(s) {
            assert(distinct_times(front)) by {
                assert forall|i: int, j: int| 0 <= i < j < front.len() implies (
                #[trigger] front[i]).time() != (#[trigger] front[j]).time() by {
                    assert(front[i] == s[i] && front[j] == s[j]);
                }
            }
            assert forall|i: int, j: int| 0 <= i < j < out.len() implies (
            #[trigger] out[i]).time() != (#[trigger] out[j]).time() by {
                if j < kept.len() {
                    assert(out[i] == kept[i] && out[j] == kept[j]);
                } else {
                    assert(out[j] == last);
                    assert(out[i] == kept[i]);
                    assert(front.contains(kept[i]));
                    let k = choose|k: int| 0 <= k < front.len() && front[k] == kept[i];
                    assert(s[k] == kept[i] && s[s.len() - 1] == last);
                }
            }
        }
        if forall|i: int| 0 <= i < s.len() ==> (#[trigger] s[i]).time() != t {
            assert forall|i: int| 0 <= i < front.len() implies (
            #[trigger] front[i]).time() != t by {
                assert(front[i] == s[i]);
            }
            assert(s[s.len() - 1].time() != t);
            assert(out =~= s);
        }
    }
}

/// Merge-insert keeps the invariant of a record: if no two entries shared a
/// time before, none do afterwards.
pub proof fn lemma_merge_insert_distinct<E: Timed>(s: Seq<E>, e: E)
    requires
        distinct_times(s),
    ensures
        distinct_times(merge_insert(s, e)),
        merge_insert(s, e).len() <= s.len() + 1,
{
    lemma_without_time(s, e.time());
    let kept = without_time(s, e.time());
    let out = merge_insert(s, e);
    assert forall|i: int, j: int| 0 <= i < j < out.len() implies (#[trigger] out[i]).time() != (
    #[trigger] out[j]).time() by {
        if j < kept.len() {
            assert(out[i] == kept[i] && out[j] == kept[j]);
        } else {
            assert(out[i] == kept[i]);
        }
    }
}

/// Last write wins. After two entries for the same time of day have been
/// inserted one after the other, the record is what it would be had only
/// the second been inserted; it holds exactly one entry for that time, and
/// that entry is the second. In particular, inserting the same entry twice
/// is the same as inserting it once.
pub proof fn lemma_merge_insert_last_wins<E: Timed>(s: Seq<E>, first: E, second: E)
    requires
        first.time() == second.time(),
    ensures
        merge_insert(merge_insert(s, first), second) == merge_insert(s, second),
        merge_insert(s, second).last() == second,
        forall|i: int|
            0 <= i < merge_insert(s, second).len() - 1 ==> (
            #[trigger] merge_insert(s, second)[i]).time() != second.time(),
{
    let t = second.time();
    let kept = without_time(s, t);
    lemma_without_time(s, t);
    lemma_without_time_push(kept, first, t);
    lemma_without_time(kept, t);
    assert(without_time(kept.push(first), t) == kept);
    assert forall|i: int| 0 <= i < merge_insert(s, second).len() - 1 implies (
    #[trigger] merge_insert(s, second)[i]).time() != t by {
        assert(merge_insert(s, second)[i] == kept[i]);
    }
}

/// Inserting an entry into a record that has none for its time of day
/// appends it and leaves the rest as it was.
pub proof fn lemma_merge_insert_fresh<E: Timed>(s: Seq<E>, e: E)
    requires
        forall|i: int| 0 <= i < s.len() ==> (#[trigger] s[i]).time() != e.time(),
    ensures
        merge_insert(s, e) == s.push(e),
{
    lemma_without_time(s, e.time());
}

/// Entries of distinct times do not disturb each other. Inserted into an
/// empty record, in whatever order they arrive, they are all kept, each as
/// it was inserted, and the record has as many entries as there are times.
pub proof fn lemma_insert_all_distinct<E: Timed>(es: Seq<E>)
    requires
        distinct_times(es),
    ensures
        insert_all(Seq::<E>::empty(), es) == es,
    decreases es.len(),
{
    if es.len() > 0 {
        let front = es.drop_last();
        assert forall|i: int, j: int| 0 <= i < j < front.len() implies (
        #[trigger] front[i]).time() != (#[trigger] front[j]).time() by {
            assert(front[i] == es[i] && front[j] == es[j]);
        }
        lemma_insert_all_distinct(front);
        assert forall|i: int| 0 <= i < front.len() implies (#[trigger] front[i]).time()
            != es.last().time() by {
            assert(front[i] == es[i] && es.last() == es[es.len() - 1]);
        }
        lemma_merge_insert_fresh(front, es.last());
        assert(front.push(es.last()) =~= es);
    } else {
        assert(es =~= Seq::<E>::empty());
    }
}

/// Insertions for different times of day commute, up to the order in which
/// the two entries come to stand at the end: both orders keep the same
/// entries of the record, and both keep both new entries.
pub proof fn lemma_merge_insert_commutes<E: Timed>(s: Seq<E>, a: E, b: E)
    requires
        a.time() != b.time(),
    ensures
        merge_insert(merge_insert(s, a), b) == without_time(
            without_time(s, a.time()),
            b.time(),
        ).push(a).push(b),
        merge_insert(merge_insert(s, b), a) == without_time(
            without_time(s, b.time()),
            a.time(),
        ).push(b).push(a),
        without_time(without_time(s, a.time()), b.time()) == without_time(
            without_time(s, b.time()),
            a.time(),
        ),
    decreases s.len(),
{
    let (ta, tb) = (a.time(), b.time());
    lemma_without_time_push(without_time(s, ta), a, tb);
    lemma_without_time_push(without_time(s, tb), b, ta);
    if s.len() == 0 {
        lemma_without_time_push(s, a, ta);
        lemma_without_time_push(s, a, tb);
        assert(s =~= Seq::<E>::empty());
    } else {
        let front = s.drop_last();
        let last = s.last();
        assert(front.push(last) =~= s);
        lemma_merge_insert_commutes(front, a, b);
        lemma_without_time_push(front, last, ta);
        lemma_without_time_push(front, last, tb);
        lemma_without_time_push(without_time(front, ta), last, tb);
        lemma_without_time_push(without_time(front, tb), last, ta);
    }
}

/// Whether the sequence holds an entry for the time `t`.
pub open spec fn has_time<E: Timed>(s: Seq<E>, t: (u8, u8)) -> bool {
    exists|i: int| 0 <= i < s.len() && (#[trigger] s[i]).time() == t
}

/// After a merge-insert the record holds an entry for the time of the new
/// entry and for every time it held an entry for before, and for no other.
pub proof fn lemma_merge_insert_times<E: Timed>(s: Seq<E>, e: E, t: (u8, u8))
    ensures
        has_time(merge_insert(s, e), t) <==> has_time(s, t) || t == e.time(),
{
    let kept = without_time(s, e.time());
    let out = merge_insert(s, e);
    lemma_without_time(s, e.time());
    if t == e.time() {
        assert(out[out.len() - 1].time() == t);
    } else if has_time(s, t) {
        let i = choose|i: int| 0 <= i < s.len() && (#[trigger] s[i]).time() == t;
        assert(kept.contains(s[i]));
        let j = choose|j: int| 0 <= j < kept.len() && kept[j] == s[i];
        assert(out[j].time() == t);
    }
    if has_time(out, t) && t != e.time() {
        let k = choose|k: int| 0 <= k < out.len() && (#[trigger] out[k]).time() == t;
        assert(out[k] == kept[k]);
        assert(s.contains(kept[k]));
        let i = choose|i: int| 0 <= i < s.len() && s[i] == kept[k];
        assert(s[i].time() == t);
    }
}

/// The times of day a record holds entries for do not depend on the order
/// in which the entries arrived: after any run of insertions they are the
/// times it held before and the times of the entries inserted. If no two
/// entries shared a time before, none do afterwards, so the record has one
/// entry for each of these times.
pub proof fn lemma_insert_all_times<E: Timed>(s: Seq<E>, es: Seq<E>, t: (u8, u8))
    ensures
        has_time(insert_all(s, es), t) <==> has_time(s, t) || has_time(es, t),
        distinct_times(s) ==> distinct_times(insert_all(s, es)),
    decreases es.len(),
{
    if es.len() > 0 {
        let front = es.drop_last();
        lemma_insert_all_times(s, front, t);
        lemma_merge_insert_times(insert_all(s, front), es.last(), t);
        if distinct_times(s) {
            lemma_merge_insert_distinct(insert_all(s, front), es.last());
        }
        if has_time(front, t) {
            let i = choose|i: int| 0 <= i < front.len() && (#[trigger] front[i]).time() == t;
            assert(es[i].time() == t);
        }
        if t == es.last().time() {
            assert(es[es.len() - 1].time() == t);
        }
        if has_time(es, t) && t != es.last().time() {
            let i = choose|i: int| 0 <= i < es.len() && (#[trigger] es[i]).time() == t;
            assert(front[i].time() == t);
        }
    }
}

/// For every time of day the record keeps the entry that arrived last: an
/// inserted entry is in the record unless a later one was inserted for the
/// same time.
pub proof fn lemma_insert_all_keeps_last<E: Timed>(s: Seq<E>, es: Seq<E>, i: int)
    requires
        0 <= i < es.len(),
        forall|j: int| i < j < es.len() ==> (#[trigger] es[j]).time() != es[i].time(),
    ensures
        insert_all(s, es).contains(es[i]),
    decreases es.len(),
{
    let front = es.drop_last();
    let before = insert_all(s, front);
    let out = insert_all(s, es);
    if i == es.len() - 1 {
        assert(out[out.len() - 1] == es[i]);
    } else {
        assert forall|j: int| i < j < front.len() implies (
        #[trigger] front[j]).time() != front[i].time() by {
            assert(front[j] == es[j] && front[i] == es[i]);
        }
        lemma_insert_all_keeps_last(s, front, i);
        assert(es[es.len() - 1].time() != es[i].time());
        let k = choose|k: int| 0 <= k < before.len() && before[k] == es[i];
        lemma_without_time(before, es.last().time());
        let kept = without_time(before, es.last().time());
        assert(kept.contains(before[k]));
        let m = choose|m: int| 0 <= m < kept.len() && kept[m] == before[k];
        assert(out[m] == es[i]);
    }
}

/// A record never holds more entries than there are times of day that two
/// bytes can name.
pub proof fn lemma_distinct_times_bounded<E: Timed>(s: Seq<E>)
    requires
        distinct_times(s),
    ensures
        s.len() <= 65536,
{
    let codes = Seq::new(s.len(), |i: int| s[i].time().0 as int * 256 + s[i].time().1 as int);
    assert(codes.no_duplicates()) by {
        assert forall|i: int, j: int|
            0 <= i < codes.len() && 0 <= j < codes.len() && i != j implies codes[i] != codes[j] by {
            if i < j {
                assert(s[i].time() != s[j].time());
            } else {
                assert(s[j].time() != s[i].time());
            }
        }
    }
    codes.unique_seq_to_set();
    let all = vstd::set_lib::set_int_range(0, 65536);
    vstd::set_lib::lemma_int_range(0, 65536);
    assert(codes.to_set().subset_of(all)) by {
        assert forall|c: int| codes.to_set().contains(c) implies all.contains(c) by {
            let i = choose|i: int| 0 <= i < codes.len() && codes[i] == c;
            assert(0 <= codes[i] < 65536);
        }
    }
    vstd::set_lib::lemma_len_subset(codes.to_set(), all);
}

/// Merge-inserts `entry` into `entries`: the entries of other times are
/// kept in their order and `entry` is appended.
pub fn merge<E: Timed>(entries: &Vec<E>, entry: E) -> (out: Vec<E>)
    ensures
        out@ == merge_insert(entries@, entry),
{
    let t = entry.hour_min();
    let mut out: Vec<E> = Vec::new();
    let mut i: usize = 0;
    proof {
        lemma_without_time_push(Seq::<E>::empty(), entry, entry.time());
        assert(entries@.take(0) =~= Seq::<E>::empty());
    }
    while i < entries.len()
        invariant
            i <= entries.len(),
            t == entry.time(),
            out@ == without_time(entries@.take(i as int), t),
        decreases entries.len() - i,
    {
        let e = entries[i];
        let k = e.hour_min();
        proof {
            lemma_without_time_push(entries@.take(i as int), e, t);
            assert(entries@.take(i + 1) =~= entries@.take(i as int).push(e));
        }
        if k.0 != t.0 || k.1 != t.1 {
            out.push(e);
        }
        i = i + 1;
    }
    assert(entries@.take(entries.len() as int) =~= entries@);
    out.push(entry);
    out
}

} // verus!
