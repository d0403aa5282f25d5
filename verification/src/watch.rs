//! What the host knows of the watch, and what a notification changes.
//!
//! The transport runs the loop: it waits for a notification, hands the
//! buffer to [`WatchContext::on_notification`], and carries out the effect
//! that comes back. Deciding is done here and touches nothing but the
//! context. A buffer that is not recognized, or that is telemetry for a
//! time outside the day, changes nothing and is reported as such, so that
//! the loop can log it and go on.

use crate::common::{Date, PairKey};
use crate::db::{distinct_times, HeartRateDailyDatabaseEntry, RecordedStepsDailyDatabaseEntry};
use crate::demux::{classifies, demux, spec_candidates, Demuxed, Response};
use crate::telemetry::{
    all_in_day, all_steps_in_day, heart_rate_rollup, heart_rate_samples, rollup_of,
    samples_after_midnight, samples_of, step_entries, steps_in_day, steps_of,
};
use crate::Endpoint;
use vstd::prelude::*;

verus! {

/// The state of the connection, as far as the watch has told.
#[derive(Debug)]
pub struct WatchContext {
    pub is_connected: bool,
    pub battery: Option<u8>,
    pub pair_key: Option<PairKey>,
    /// The name of the firmware, as the bytes the watch sent.
    pub firmware: Option<[u8; 13]>,
    /// The dates that have a heart-rate record.
    pub hr_db_dates: Vec<Date>,
    /// The dates that have a recorded-steps record.
    pub rs_db_dates: Vec<Date>,
}

/// What the transport is to do after a notification.
#[derive(Debug)]
pub enum Effect {
    /// The response carries nothing that the context or the store keeps.
    Ignore,
    /// The context has changed: show it again.
    Repaint,
    /// Merge the entries into the heart-rate record of the date and persist
    /// the record.
    StoreHeartRate { date: Date, entries: Vec<HeartRateDailyDatabaseEntry> },
    /// The samples of an hour that runs past midnight. Merge the entries
    /// into the heart-rate record of the date, and the entries of the next
    /// day into the record of the day after, and persist both records.
    StoreHeartRateOverMidnight {
        date: Date,
        entries: Vec<HeartRateDailyDatabaseEntry>,
        next_date: Date,
        next_entries: Vec<HeartRateDailyDatabaseEntry>,
    },
    /// Merge the steps into the recorded-steps record of the date and
    /// persist the record.
    StoreSteps { date: Date, steps: Vec<RecordedStepsDailyDatabaseEntry> },
    /// The buffer is a telemetry response, but it names an hour or a minute
    /// outside the day. Nothing of it is kept; the caller still holds the
    /// buffer and can log it.
    Malformed,
    /// The buffer is no response that is known on the characteristic it
    /// arrived on.
    Unrecognized,
}

/// What a response does: to the context, which goes from `before` to
/// `after`, and as the effect handed back.
///
/// Telemetry leaves the context as it is and asks for entries to be
/// stored. The samples of hour 23 ask for two records to be stored, that of
/// the date of the response and that of the day after. If the date has no
/// day after, because it is no day of the calendar or the last that can be
/// named, the samples past midnight have no record to go to and are left
/// out.
pub open spec fn applies(
    before: WatchContext,
    resp: Response,
    after: WatchContext,
    effect: Effect,
) -> bool {
    match resp {
        Response::Battery(r) => {
            &&& after == (WatchContext { battery: Some(r.battery_percentage), ..before })
            &&& effect is Repaint
        },
        Response::PairKey(r) => {
            &&& after == (WatchContext { pair_key: Some(r.cur_pair_key), ..before })
            &&& effect is Repaint
        },
        Response::Firmware(r) => {
            &&& after == (WatchContext { firmware: Some(r.name), ..before })
            &&& effect is Repaint
        },
        Response::HeartRateDataToday(r) => {
            &&& after == before
            &&& match rollup_of(r) {
                Some(entry) => {
                    &&& effect matches Effect::StoreHeartRate { date, entries }
                    &&& date == r.date
                    &&& entries@ == seq![entry]
                    &&& all_in_day(entries@) && distinct_times(entries@)
                },
                None => effect is Malformed,
            }
        },
        Response::HeartRateDataDayHourEntry(r) => {
            &&& after == before
            &&& if r.hour > 23 {
                effect is Malformed
            } else if r.hour == 23 && r.date.spec_following() is Some {
                &&& effect matches Effect::StoreHeartRateOverMidnight {
                    date,
                    entries,
                    next_date,
                    next_entries,
                }
                &&& date == r.date
                &&& entries@ == samples_of(r)
                &&& Some(next_date) == r.date.spec_following()
                &&& next_entries@ == samples_after_midnight(r)
                &&& all_in_day(entries@) && distinct_times(entries@)
                &&& all_in_day(next_entries@) && distinct_times(next_entries@)
            } else {
                &&& effect matches Effect::StoreHeartRate { date, entries }
                &&& date == r.date
                &&& entries@ == samples_of(r)
                &&& all_in_day(entries@) && distinct_times(entries@)
            }
        },
        Response::Data2RecordedStepsEntry(r) => {
            &&& after == before
            &&& if steps_in_day(r.entry) {
                &&& effect matches Effect::StoreSteps { date, steps }
                &&& date == r.entry.date
                &&& steps@ == steps_of(r.entry)
                &&& all_steps_in_day(steps@)
            } else {
                effect is Malformed
            }
        },
        _ => after == before && effect is Ignore,
    }
}

impl WatchContext {
    /// The context before anything is known: not connected, nothing told.
    pub fn new() -> (ctx: Self)
        ensures
            !ctx.is_connected,
            ctx.battery is None,
            ctx.pair_key is None,
            ctx.firmware is None,
            ctx.hr_db_dates@ == Seq::<Date>::empty(),
            ctx.rs_db_dates@ == Seq::<Date>::empty(),
    {
        WatchContext {
            is_connected: false,
            battery: None,
            pair_key: None,
            firmware: None,
            hr_db_dates: Vec::new(),
            rs_db_dates: Vec::new(),
        }
    }

    /// Takes a decoded response into account.
    pub fn apply(&mut self, resp: &Response) -> (effect: Effect)
        ensures
            applies(*old(self), *resp, *final(self), effect),
    {
        match resp {
            Response::Battery(r) => {
                self.battery = Some(r.battery_percentage);
                Effect::Repaint
            },
            Response::PairKey(r) => {
                self.pair_key = Some(r.cur_pair_key);
                Effect::Repaint
            },
            Response::Firmware(r) => {
                self.firmware = Some(r.name);
                Effect::Repaint
            },
            Response::HeartRateDataToday(r) => match heart_rate_rollup(r) {
                Some(entry) => {
                    let mut entries: Vec<HeartRateDailyDatabaseEntry> = Vec::new();
                    entries.push(entry);
                    assert(entries@ =~= seq![entry]);
                    Effect::StoreHeartRate { date: r.date, entries }
                },
                None => Effect::Malformed,
            },
            Response::HeartRateDataDayHourEntry(r) => {
                if r.hour > 23 {
                    return Effect::Malformed;
                }
                let samples = heart_rate_samples(r);
                let following = if r.hour == 23 {
                    r.date.following()
                } else {
                    None
                };
                match following {
                    Some(next_date) => Effect::StoreHeartRateOverMidnight {
                        date: r.date,
                        entries: samples.entries,
                        next_date,
                        next_entries: samples.next_day,
                    },
                    None => Effect::StoreHeartRate { date: r.date, entries: samples.entries },
                }
            },
            Response::Data2RecordedStepsEntry(r) => match step_entries(&r.entry) {
                Some(steps) => Effect::StoreSteps { date: r.entry.date, steps },
                None => Effect::Malformed,
            },
            _ => Effect::Ignore,
        }
    }

    /// Takes the buffer of a notification into account: the buffer is
    /// classified by the characteristic it arrived on, and the response it
    /// is recognized as is applied. An unrecognized buffer changes nothing.
    pub fn on_notification(&mut self, endpoint: Endpoint, raw: &[u8]) -> (effect: Effect)
        ensures
            exists|d: Demuxed|
                {
                    &&& #[trigger] classifies(spec_candidates(endpoint), raw@, d)
                    &&& match d {
                        Demuxed::Recognized(resp) => applies(
                            *old(self),
                            resp,
                            *final(self),
                            effect,
                        ),
                        Demuxed::Unrecognized => *final(self) == *old(self)
                            && effect is Unrecognized,
                    }
                },
    {
        let d = demux(endpoint, raw);
        match d {
            Demuxed::Recognized(resp) => self.apply(&resp),
            Demuxed::Unrecognized => Effect::Unrecognized,
        }
    }
}

} // verus!
