//! From decoded responses to entries of the daily records.
//!
//! Two responses carry heart rates. The rollup of a day gives one entry
//! whose instantaneous field does not apply; the samples of an hour give
//! twelve entries, ten minutes apart, whose rollup fields do not apply. So
//! an entry never carries both. A steps response gives one entry for each
//! kind of step of which new steps were counted.
//!
//! Every entry built here belongs to a time of day: an hour from 0 to 23
//! and a minute from 0 to 59. The layout of a response admits any byte in
//! these places. A response that names an hour or a minute outside the day
//! gives no entry at all, and the caller is told so.
//!
//! The twelve samples of an hour span two hours. Those of hour 23 run past
//! midnight: the first six belong to the date of the response, the last six
//! to the hours 0:00 to 0:50 of the day after.

use crate::common::{StepsEntry, INVALID_HEART_RATE};
use crate::data2::res::{HeartRateDataDayHourEntryResponse, HeartRateDataTodayResponse};
use crate::db::{
    distinct_times, HeartRateDailyDatabaseEntry, RecordedStepKind, RecordedStepsDailyDatabaseEntry,
    Timed,
};
use vstd::prelude::*;

verus! {

/// Whether an hour and a minute name a time of day.
pub open spec fn is_time_of_day(hour: u8, min: u8) -> bool {
    hour <= 23 && min <= 59
}

/// Every entry of the sequence belongs to a time of day.
pub open spec fn all_in_day(s: Seq<HeartRateDailyDatabaseEntry>) -> bool {
    forall|k: int| 0 <= k < s.len() ==> is_time_of_day((#[trigger] s[k]).hour, s[k].min)
}

/// Every steps entry of the sequence belongs to a time of day.
pub open spec fn all_steps_in_day(s: Seq<RecordedStepsDailyDatabaseEntry>) -> bool {
    forall|k: int| 0 <= k < s.len() ==> is_time_of_day((#[trigger] s[k]).hour, s[k].min)
}

/// The entry that the rollup of a day gives, if the response names a time
/// of day.
pub open spec fn rollup_of(res: HeartRateDataTodayResponse) -> Option<HeartRateDailyDatabaseEntry> {
    if is_time_of_day(res.hour, res.min) {
        Some(
            HeartRateDailyDatabaseEntry {
                hour: res.hour,
                min: res.min,
                heart_rate: INVALID_HEART_RATE,
                max_heart_rate: res.max_heart_rate,
                min_heart_rate: res.min_heart_rate,
                avg_heart_rate: res.avg_heart_rate,
            },
        )
    } else {
        None
    }
}

/// The entry that sample `k` of an hour gives. The samples are ten minutes
/// apart and start at the full hour, so the last six belong to the hour
/// after, which for hour 23 is hour 0.
pub open spec fn sample_of(
    res: HeartRateDataDayHourEntryResponse,
    k: int,
) -> HeartRateDailyDatabaseEntry {
    HeartRateDailyDatabaseEntry {
        hour: ((res.hour + k / 6) % 24) as u8,
        min: (10 * k % 60) as u8,
        heart_rate: res.heart_rates@[k],
        max_heart_rate: INVALID_HEART_RATE,
        min_heart_rate: INVALID_HEART_RATE,
        avg_heart_rate: INVALID_HEART_RATE,
    }
}

/// The number of samples of an hour that belong to the date of the
/// response: all twelve up to hour 22, the first six for hour 23, and none
/// if the response names no hour of the day.
pub open spec fn samples_before_midnight(res: HeartRateDataDayHourEntryResponse) -> nat {
    if res.hour <= 22 {
        12
    } else if res.hour == 23 {
        6
    } else {
        0
    }
}

/// The entries for the date of the response, in the order of the samples.
pub open spec fn samples_of(res: HeartRateDataDayHourEntryResponse) -> Seq<
    HeartRateDailyDatabaseEntry,
> {
    Seq::new(samples_before_midnight(res), |k: int| sample_of(res, k))
}

/// The entries for the day after the date of the response, in the order of
/// the samples: the last six samples of hour 23, and none for any other
/// hour.
pub open spec fn samples_after_midnight(res: HeartRateDataDayHourEntryResponse) -> Seq<
    HeartRateDailyDatabaseEntry,
> {
    if res.hour == 23 {
        Seq::new(6, |k: int| sample_of(res, k + 6))
    } else {
        Seq::empty()
    }
}

/// The entry for the steps walked in an hour.
pub open spec fn walk_of(entry: StepsEntry) -> RecordedStepsDailyDatabaseEntry {
    RecordedStepsDailyDatabaseEntry {
        hour: entry.hour,
        min: entry.last_new_walk_step_min,
        new_step_kind: RecordedStepKind::Walk,
        new_step_count: entry.new_walk_step_count,
    }
}

/// The entry for the steps run in an hour.
pub open spec fn run_of(entry: StepsEntry) -> RecordedStepsDailyDatabaseEntry {
    RecordedStepsDailyDatabaseEntry {
        hour: entry.hour,
        min: entry.last_new_run_step_min,
        new_step_kind: RecordedStepKind::Run,
        new_step_count: entry.new_run_step_count,
    }
}

/// Whether a steps entry names times of day: its hour is an hour of the
/// day, and so is the minute of each kind of step of which new steps were
/// counted.
pub open spec fn steps_in_day(entry: StepsEntry) -> bool {
    &&& entry.hour <= 23
    &&& entry.new_walk_step_count > 0 ==> entry.last_new_walk_step_min <= 59
    &&& entry.new_run_step_count > 0 ==> entry.last_new_run_step_min <= 59
}

/// The entries that a steps entry gives: first the walked steps, then the
/// run steps, each only if its count is positive.
pub open spec fn steps_of(entry: StepsEntry) -> Seq<RecordedStepsDailyDatabaseEntry> {
    let walked = if entry.new_walk_step_count > 0 {
        seq![walk_of(entry)]
    } else {
        Seq::empty()
    };
    if entry.new_run_step_count > 0 {
        walked.push(run_of(entry))
    } else {
        walked
    }
}

/// The samples of an hour keep to the day. Every entry they give belongs
/// to a time of day, and the entries for one date belong to different
/// times, so none of them replaces another when they are merged into the
/// record of that date.
pub proof fn lemma_samples_in_day(res: HeartRateDataDayHourEntryResponse)
    ensures
        all_in_day(samples_of(res)),
        all_in_day(samples_after_midnight(res)),
        distinct_times(samples_of(res)),
        distinct_times(samples_after_midnight(res)),
        res.hour <= 23 ==> samples_of(res).len() + samples_after_midnight(res).len() == 12,
{
    let today = samples_of(res);
    let later = samples_after_midnight(res);
    assert forall|k: int| 0 <= k < today.len() implies is_time_of_day(
        (#[trigger] today[k]).hour,
        today[k].min,
    ) by {
        assert(today[k] == sample_of(res, k));
        assert(res.hour + k / 6 <= 23);
    }
    assert forall|k: int| 0 <= k < later.len() implies is_time_of_day(
        (#[trigger] later[k]).hour,
        later[k].min,
    ) by {
        assert(later[k] == sample_of(res, k + 6));
        assert((k + 6) / 6 == 1);
    }
    assert forall|i: int, j: int| 0 <= i < j < today.len() implies (#[trigger] today[i]).time() != (
    #[trigger] today[j]).time() by {
        assert(today[i] == sample_of(res, i) && today[j] == sample_of(res, j));
        assert(res.hour + j / 6 <= 23);
        if 10 * i % 60 == 10 * j % 60 {
            assert(j == i + 6);
            assert(i / 6 == 0 && j / 6 == 1);
        }
    }
    assert forall|i: int, j: int| 0 <= i < j < later.len() implies (#[trigger] later[i]).time() != (
    #[trigger] later[j]).time() by {
        assert(later[i] == sample_of(res, i + 6) && later[j] == sample_of(res, j + 6));
        assert(10 * (i + 6) % 60 == 10 * i);
        assert(10 * (j + 6) % 60 == 10 * j);
    }
}

/// Builds the entry of a rollup. Its instantaneous field holds the
/// sentinel. A response that names no time of day gives `None`.
pub fn heart_rate_rollup(res: &HeartRateDataTodayResponse) -> (entry: Option<
    HeartRateDailyDatabaseEntry,
>)
    ensures
        entry == rollup_of(*res),
        entry is Some <==> is_time_of_day(res.hour, res.min),
        entry matches Some(e) ==> e.heart_rate == INVALID_HEART_RATE && is_time_of_day(
            e.hour,
            e.min,
        ),
{
    if res.hour > 23 || res.min > 59 {
        return None;
    }
    Some(
        HeartRateDailyDatabaseEntry::rollup(
            res.hour,
            res.min,
            res.max_heart_rate,
            res.min_heart_rate,
            res.avg_heart_rate,
        ),
    )
}

/// The entries that the samples of an hour give, by the date they belong
/// to.
#[derive(PartialEq, Eq, Debug)]
pub struct HourSamples {
    /// The entries for the date of the response.
    pub entries: Vec<HeartRateDailyDatabaseEntry>,
    /// The entries for the day after: the samples of hour 23 that lie past
    /// midnight.
    pub next_day: Vec<HeartRateDailyDatabaseEntry>,
}

/// Builds sample `k` of an hour.
fn sample(res: &HeartRateDataDayHourEntryResponse, k: usize) -> (entry: HeartRateDailyDatabaseEntry)
    requires
        k < 12,
    ensures
        entry == sample_of(*res, k as int),
{
    let minutes: u32 = res.hour as u32 * 60 + 10 * k as u32;
    let hour: u8 = (minutes / 60 % 24) as u8;
    let min: u8 = (minutes % 60) as u8;
    proof {
        assert(minutes / 60 == res.hour + k / 6);
        assert(minutes % 60 == 10 * k % 60);
    }
    HeartRateDailyDatabaseEntry::sample(hour, min, res.heart_rates[k])
}

/// Builds the entries of the samples of an hour. Their rollup fields hold
/// the sentinel, every one of them belongs to a time of day, and no two
/// for one date belong to the same time. For an hour up to 22 all twelve
/// belong to the date of the response; for hour 23 the last six belong to
/// the day after; a response that names no hour of the day gives none.
pub fn heart_rate_samples(res: &HeartRateDataDayHourEntryResponse) -> (samples: HourSamples)
    ensures
        samples.entries@ == samples_of(*res),
        samples.next_day@ == samples_after_midnight(*res),
        all_in_day(samples.entries@),
        all_in_day(samples.next_day@),
        forall|k: int|
            0 <= k < samples.entries@.len() ==> {
                &&& (#[trigger] samples.entries@[k]).max_heart_rate == INVALID_HEART_RATE
                &&& samples.entries@[k].min_heart_rate == INVALID_HEART_RATE
                &&& samples.entries@[k].avg_heart_rate == INVALID_HEART_RATE
            },
        forall|k: int|
            0 <= k < samples.next_day@.len() ==> {
                &&& (#[trigger] samples.next_day@[k]).max_heart_rate == INVALID_HEART_RATE
                &&& samples.next_day@[k].min_heart_rate == INVALID_HEART_RATE
                &&& samples.next_day@[k].avg_heart_rate == INVALID_HEART_RATE
            },
        distinct_times(samples.entries@),
        distinct_times(samples.next_day@),
        res.hour <= 23 ==> samples.entries@.len() + samples.next_day@.len() == 12,
{
    let mut entries: Vec<HeartRateDailyDatabaseEntry> = Vec::new();
    let mut next_day: Vec<HeartRateDailyDatabaseEntry> = Vec::new();
    let today: usize = if res.hour <= 22 {
        12
    } else if res.hour == 23 {
        6
    } else {
        0
    };
    let mut k: usize = 0;
    while k < today
        invariant
            k <= today <= 12,
            today == samples_before_midnight(*res),
            entries@.len() == k,
            forall|j: int| 0 <= j < k ==> #[trigger] entries@[j] == sample_of(*res, j),
        decreases today - k,
    {
        entries.push(sample(res, k));
        k = k + 1;
    }
    if res.hour == 23 {
        let mut k: usize = 6;
        while k < 12
            invariant
                6 <= k <= 12,
                next_day@.len() == k - 6,
                forall|j: int| 0 <= j < k - 6 ==> #[trigger] next_day@[j] == sample_of(*res, j + 6),
            decreases 12 - k,
        {
            next_day.push(sample(res, k));
            k = k + 1;
        }
    }
    proof {
        assert(entries@ =~= samples_of(*res));
        assert(next_day@ =~= samples_after_midnight(*res));
        lemma_samples_in_day(*res);
    }
    HourSamples { entries, next_day }
}

/// Builds the entries of a steps entry: none, one or two. A steps entry
/// that names an hour or a minute outside the day gives `None`.
pub fn step_entries(entry: &StepsEntry) -> (entries: Option<Vec<RecordedStepsDailyDatabaseEntry>>)
    ensures
        entries is Some <==> steps_in_day(*entry),
        entries matches Some(entries) ==> {
            &&& entries@ == steps_of(*entry)
            &&& all_steps_in_day(entries@)
            &&& forall|k: int|
                0 <= k < entries@.len() ==> (#[trigger] entries@[k]).new_step_count > 0
        },
{
    if entry.hour > 23 {
        return None;
    }
    let mut entries: Vec<RecordedStepsDailyDatabaseEntry> = Vec::new();
    if entry.new_walk_step_count > 0 {
        if entry.last_new_walk_step_min > 59 {
            return None;
        }
        entries.push(
            RecordedStepsDailyDatabaseEntry {
                hour: entry.hour,
                min: entry.last_new_walk_step_min,
                new_step_kind: RecordedStepKind::Walk,
                new_step_count: entry.new_walk_step_count,
            },
        );
    }
    if entry.new_run_step_count > 0 {
        if entry.last_new_run_step_min > 59 {
            return None;
        }
        entries.push(
            RecordedStepsDailyDatabaseEntry {
                hour: entry.hour,
                min: entry.last_new_run_step_min,
                new_step_kind: RecordedStepKind::Run,
                new_step_count: entry.new_run_step_count,
            },
        );
    }
    assert(entries@ =~= steps_of(*entry));
    Some(entries)
}

} // verus!
