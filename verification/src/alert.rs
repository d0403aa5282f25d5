//! Sending an alert.
//!
//! The text of an alert is sent as UTF-16 and does not fit into one write.
//! It is cut into batches: a first batch that names the kind of alert and
//! the length of the whole text and carries the first 22 code units, and
//! as many further batches of up to 23 code units as the rest of the text
//! needs, numbered from one. A push record after the last batch makes the
//! watch show the message. The batches are written in this order.
//!
//! A batch number is one byte, so a text of more than 22 + 255 * 23 code
//! units cannot be sent.

use crate::common::{AlertType, CommandId};
use crate::general::req::{AlertNextBatchRequest, AlertPushRequest, AlertStartBatchRequest};
use crate::wire::be16_run;
use crate::{frame, CommandRequest, Endpoint, OutboundWrite, WireRecord, WriteType};
use vstd::prelude::*;

verus! {

/// The largest number of UTF-16 code units an alert can carry.
pub const MAX_ALERT_UNITS: usize = 5887;

/// The UTF-16 code units of one character: the character itself if it lies
/// in the basic plane, and a surrogate pair if it does not.
pub open spec fn utf16_of(c: char) -> Seq<u16> {
    let u = c as u32;
    if u < 0x10000 {
        seq![u as u16]
    } else {
        seq![(0xD800 + (u - 0x10000) / 0x400) as u16, (0xDC00 + (u - 0x10000) % 0x400) as u16]
    }
}

/// The UTF-16 code units of a text.
pub open spec fn utf16(text: Seq<char>) -> Seq<u16>
    decreases text.len(),
{
    if text.len() == 0 {
        Seq::empty()
    } else {
        utf16(text.drop_last()) + utf16_of(text.last())
    }
}

/// The number of further batches that a text of `n` code units needs.
pub open spec fn next_batches(n: nat) -> nat {
    if n <= 22 {
        0
    } else {
        ((n - 22 + 22) / 23) as nat
    }
}

/// The part of the text that the first batch carries.
pub open spec fn start_text(units: Seq<u16>) -> Seq<u16> {
    if units.len() <= 22 {
        units
    } else {
        units.take(22)
    }
}

/// The part of the text that further batch `i`, counted from zero, carries.
pub open spec fn next_text(units: Seq<u16>, i: int) -> Seq<u16> {
    let from = 22 + 23 * i;
    if units.len() <= from + 23 {
        units.subrange(from, units.len() as int)
    } else {
        units.subrange(from, from + 23)
    }
}

/// The text that the first batch and the first `k` further batches carry
/// between them.
pub open spec fn carried(units: Seq<u16>, k: nat) -> Seq<u16>
    decreases k,
{
    if k == 0 {
        start_text(units)
    } else {
        carried(units, (k - 1) as nat) + next_text(units, k - 1)
    }
}

/// The bytes of the first batch.
pub open spec fn start_wire(alert_type: AlertType, units: Seq<u16>) -> Seq<u8> {
    seq![
        CommandId::Alert.wire_byte(),
        0u8,
        alert_type.wire_byte(),
        (2 * units.len() % 256) as u8,
    ] + be16_run(start_text(units))
}

/// The bytes of further batch `i`, counted from zero.
pub open spec fn next_wire(units: Seq<u16>, i: int) -> Seq<u8> {
    seq![CommandId::Alert.wire_byte(), (i + 1) as u8] + be16_run(next_text(units, i))
}

/// The bytes of the push record.
pub open spec fn push_wire() -> Seq<u8> {
    seq![CommandId::Alert.wire_byte(), 0xFDu8]
}

/// The batches leave nothing out and send nothing twice: put end to end,
/// what they carry is the text.
pub proof fn lemma_batches_carry_text(units: Seq<u16>)
    ensures
        carried(units, next_batches(units.len())) == units,
{
    if units.len() > 22 {
        let k = next_batches(units.len());
        lemma_carried_prefix(units, k);
        assert(units.take(units.len() as int) =~= units);
    }
}

/// What the first batch and the first `k` further batches carry is a
/// beginning of the text.
pub proof fn lemma_carried_prefix(units: Seq<u16>, k: nat)
    requires
        units.len() > 22,
        k <= next_batches(units.len()),
    ensures
        carried(units, k) == units.take(
            if 22 + 23 * k <= units.len() {
                22 + 23 * k as int
            } else {
                units.len() as int
            },
        ),
    decreases k,
{
    if k > 0 {
        lemma_carried_prefix(units, (k - 1) as nat);
        let from = 22 + 23 * (k - 1);
        assert(from < units.len());
        let to = if 22 + 23 * k <= units.len() {
            22 + 23 * k as int
        } else {
            units.len() as int
        };
        assert(units.take(from) + units.subrange(from, to) =~= units.take(to));
    }
}

/// Encodes a text as UTF-16.
pub fn encode_utf16(text: &str) -> (units: Vec<u16>)
    ensures
        units@ == utf16(text@),
{
    let mut units: Vec<u16> = Vec::new();
    proof {
        assert(text@.take(0) =~= Seq::<char>::empty());
    }
    for c in it: text.chars()
        invariant
            it.seq() == text@,
            units@ == utf16(text@.take(it.index() as int)),
    {
        let u: u32 = c as u32;
        proof {
            let i = it.index() as int;
            assert(text@.take(i + 1).drop_last() =~= text@.take(i));
            assert(text@.take(i + 1).last() == c);
        }
        if u < 0x10000 {
            units.push(u as u16);
        } else {
            let v: u32 = u - 0x10000;
            units.push((0xD800 + v / 0x400) as u16);
            units.push((0xDC00 + v % 0x400) as u16);
        }
        proof {
            assert(units@ =~= utf16(text@.take(it.index() as int)) + utf16_of(c));
        }
    }
    proof {
        assert(text@.take(text@.len() as int) =~= text@);
    }
    units
}

/// The requests that send one alert, in the order they are written.
#[derive(PartialEq, Eq, Debug)]
pub struct AlertTransmission {
    pub start: AlertStartBatchRequest,
    pub next: Vec<AlertNextBatchRequest>,
    pub push: AlertPushRequest,
}

/// Copies the code units from `from` up to `to`.
fn copy_units(units: &Vec<u16>, from: usize, to: usize) -> (part: Vec<u16>)
    requires
        from <= to <= units.len(),
    ensures
        part@ == units@.subrange(from as int, to as int),
{
    let mut part: Vec<u16> = Vec::new();
    let mut i: usize = from;
    while i < to
        invariant
            from <= i <= to <= units.len(),
            part@ == units@.subrange(from as int, i as int),
        decreases to - i,
    {
        part.push(units[i]);
        i = i + 1;
        assert(part@ =~= units@.subrange(from as int, i as int));
    }
    part
}

/// Cuts the text of an alert into batches. The text is too long if it
/// takes more than 255 further batches; then nothing is sent.
pub fn alert_batches(alert_type: AlertType, units: &Vec<u16>) -> (r: Option<AlertTransmission>)
    ensures
        r is Some <==> units@.len() <= MAX_ALERT_UNITS,
        r matches Some(t) ==> {
            &&& t.start.wf()
            &&& t.start.alert_type == alert_type
            &&& t.start.msg_full_len_bytes == 2 * units@.len() % 256
            &&& t.start.msg_start_text_utf16@ == start_text(units@)
            &&& t.start.wire() == start_wire(alert_type, units@)
            &&& t.next@.len() == next_batches(units@.len())
            &&& forall|i: int|
                0 <= i < t.next@.len() ==> {
                    &&& (#[trigger] t.next@[i]).wf()
                    &&& t.next@[i].batch_idx == i + 1
                    &&& t.next@[i].msg_next_text_utf16@ == next_text(units@, i)
                    &&& t.next@[i].wire() == next_wire(units@, i)
                }
            &&& t.push.wf()
            &&& t.push.wire() == push_wire()
        },
{
    let n: usize = units.len();
    if n > MAX_ALERT_UNITS {
        return None;
    }
    let full_len: u8 = ((n % 128) * 2) as u8;
    let first: usize = if n <= 22 {
        n
    } else {
        22
    };
    let start_units = copy_units(units, 0, first);
    proof {
        assert(units@.subrange(0, first as int) =~= start_text(units@));
    }
    let start = AlertStartBatchRequest::new(alert_type, full_len, start_units);
    let mut next: Vec<AlertNextBatchRequest> = Vec::new();
    let mut from: usize = first;
    let mut batch_idx: u8 = 0;
    while from < n
        invariant
            n == units@.len(),
            n <= MAX_ALERT_UNITS,
            first <= from <= n,
            n > 22 ==> from == 22 + 23 * batch_idx || from == n,
            n > 22 && from < n ==> from == 22 + 23 * batch_idx,
            n <= 22 ==> from == n && batch_idx == 0,
            batch_idx == next@.len(),
            from == n ==> batch_idx == next_batches(n as nat),
            from < n ==> batch_idx < next_batches(n as nat),
            forall|i: int|
                0 <= i < next@.len() ==> {
                    &&& (#[trigger] next@[i]).wf()
                    &&& next@[i].batch_idx == i + 1
                    &&& next@[i].msg_next_text_utf16@ == next_text(units@, i)
                    &&& next@[i].wire() == next_wire(units@, i)
                },
        decreases n - from,
    {
        let to: usize = if n - from <= 23 {
            n
        } else {
            from + 23
        };
        let part = copy_units(units, from, to);
        batch_idx = batch_idx + 1;
        let req = AlertNextBatchRequest::new(batch_idx, part);
        proof {
            assert(req.msg_next_text_utf16@ == next_text(units@, batch_idx - 1));
            assert(req.wire() =~= next_wire(units@, batch_idx - 1));
        }
        next.push(req);
        from = to;
    }
    let push = AlertPushRequest::new();
    proof {
        assert(start.wire() =~= start_wire(alert_type, units@));
        assert(push.wire() =~= push_wire());
    }
    Some(AlertTransmission { start, next, push })
}

/// The writes that send one alert, in order: the first batch, the further
/// batches, the push record. `None` if the text is too long to send.
pub fn alert_writes(alert_type: AlertType, text: &str) -> (r: Option<Vec<OutboundWrite>>)
    ensures
        r is Some <==> utf16(text@).len() <= MAX_ALERT_UNITS,
        r matches Some(writes) ==> {
            let units = utf16(text@);
            let k = next_batches(units.len());
            &&& writes@.len() == k + 2
            &&& forall|i: int|
                0 <= i < writes@.len() ==> {
                    &&& (#[trigger] writes@[i]).endpoint == Endpoint::GeneralRw1
                    &&& writes@[i].write_type == WriteType::WithResponse
                }
            &&& writes@[0].bytes@ == start_wire(alert_type, units)
            &&& forall|i: int|
                0 <= i < k ==> (#[trigger] writes@[i + 1]).bytes@ == next_wire(units, i)
            &&& writes@[k as int + 1].bytes@ == push_wire()
        },
{
    let units = encode_utf16(text);
    let t = match alert_batches(alert_type, &units) {
        Some(t) => t,
        None => {
            return None;
        },
    };
    let mut writes: Vec<OutboundWrite> = Vec::new();
    writes.push(frame(&t.start));
    let mut i: usize = 0;
    while i < t.next.len()
        invariant
            i <= t.next@.len(),
            t.next@.len() == next_batches(units@.len()),
            writes@.len() == i + 1,
            forall|j: int|
                0 <= j < t.next@.len() ==> {
                    &&& (#[trigger] t.next@[j]).wf()
                    &&& t.next@[j].wire() == next_wire(units@, j)
                },
            forall|j: int|
                0 <= j < writes@.len() ==> {
                    &&& (#[trigger] writes@[j]).endpoint == Endpoint::GeneralRw1
                    &&& writes@[j].write_type == WriteType::WithResponse
                },
            writes@[0].bytes@ == start_wire(alert_type, units@),
            forall|j: int|
                0 <= j < i ==> (#[trigger] writes@[j + 1]).bytes@ == next_wire(units@, j),
        decreases t.next@.len() - i,
    {
        assert(t.next@[i as int].wf());
        writes.push(frame(&t.next[i]));
        i = i + 1;
    }
    writes.push(frame(&t.push));
    Some(writes)
}

} // verus!
