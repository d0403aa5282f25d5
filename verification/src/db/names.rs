//! Names of the backing objects.
//!
//! The record of a date is kept in an object named after the date: year,
//! month and day in decimal, without leading zeros, joined by hyphens. The
//! dates that have a record are found by listing the names of a partition
//! and reading each name back as a date. A name that is not three numbers
//! joined by hyphens is not the name of a record and is passed over.

use crate::common::Date;
use vstd::prelude::*;
use vstd::string::StringExecFns;

verus! {

/// The character of a decimal digit.
pub open spec fn digit(d: nat) -> char {
    (48 + d) as char
}

/// Whether a character is a decimal digit.
pub open spec fn is_digit(c: char) -> bool {
    48 <= c as u32 <= 57
}

/// A number in decimal, without leading zeros.
pub open spec fn decimal(n: nat) -> Seq<char>
    decreases n,
{
    if n < 10 {
        seq![digit(n)]
    } else {
        decimal(n / 10).push(digit(n % 10))
    }
}

/// The name of the object that keeps the record of a date.
pub open spec fn name_of(date: Date) -> Seq<char> {
    decimal(date.year as nat) + seq!['-'] + decimal(date.month as nat) + seq!['-'] + decimal(
        date.day as nat,
    )
}

/// The number that a run of decimal digits stands for.
pub open spec fn digits_value(s: Seq<char>) -> nat
    decreases s.len(),
{
    if s.len() == 0 {
        0
    } else {
        digits_value(s.drop_last()) * 10 + (s.last() as u32 - 48) as nat
    }
}

/// Whether every character is a decimal digit.
pub open spec fn all_digits(s: Seq<char>) -> bool {
    forall|i: int| 0 <= i < s.len() ==> is_digit(#[trigger] s[i])
}

/// The number that a component of a name stands for: one or more digits,
/// with or without a plus sign before them, that make a number no greater
/// than `max`.
pub open spec fn number(s: Seq<char>, max: nat) -> Option<nat> {
    let body = if s.len() > 0 && s[0] == '+' {
        s.drop_first()
    } else {
        s
    };
    if body.len() > 0 && all_digits(body) && digits_value(body) <= max {
        Some(digits_value(body))
    } else {
        None
    }
}

/// The position of the first hyphen, or the length if there is none.
pub open spec fn hyphen_at(s: Seq<char>) -> int
    decreases s.len(),
{
    if s.len() == 0 || s[0] == '-' {
        0
    } else {
        1 + hyphen_at(s.drop_first())
    }
}

/// The date that a name stands for, if it is three numbers joined by
/// hyphens: a year that fits sixteen bits, and a month and a day that fit
/// eight.
pub open spec fn date_of(name: Seq<char>) -> Option<Date> {
    let p = hyphen_at(name);
    let rest = name.skip(p + 1);
    let q = hyphen_at(rest);
    if p < name.len() && q < rest.len() {
        match (
            number(name.take(p), 65535),
            number(rest.take(q), 255),
            number(rest.skip(q + 1), 255),
        ) {
            (Some(year), Some(month), Some(day)) => Some(
                Date { year: year as u16, month: month as u8, day: day as u8 },
            ),
            _ => None,
        }
    } else {
        None
    }
}

/// The dates that a listing of names stands for: every name that is the
/// name of a record, in the order of the listing.
pub open spec fn dates_of(names: Seq<String>) -> Seq<Date>
    decreases names.len(),
{
    if names.len() == 0 {
        Seq::empty()
    } else {
        match date_of(names.last()@) {
            Some(date) => dates_of(names.drop_last()).push(date),
            None => dates_of(names.drop_last()),
        }
    }
}

/// A number in decimal is one or more digits, none of them a hyphen or a
/// plus sign, and stands for itself.
pub proof fn lemma_decimal(n: nat)
    ensures
        decimal(n).len() > 0,
        all_digits(decimal(n)),
        digits_value(decimal(n)) == n,
    decreases n,
{
    if n < 10 {
        assert(decimal(n).drop_last() =~= Seq::<char>::empty());
        assert(digits_value(decimal(n).drop_last()) == 0);
    } else {
        lemma_decimal(n / 10);
        assert(decimal(n).drop_last() =~= decimal(n / 10));
    }
}

/// The first hyphen after a run of characters that holds none is found
/// right behind the run.
pub proof fn lemma_hyphen_after(s: Seq<char>, rest: Seq<char>)
    requires
        forall|i: int| 0 <= i < s.len() ==> #[trigger] s[i] != '-',
    ensures
        hyphen_at(s + seq!['-'] + rest) == s.len(),
    decreases s.len(),
{
    let whole = s + seq!['-'] + rest;
    if s.len() == 0 {
        assert(whole[0] == '-');
    } else {
        assert(whole[0] == s[0]);
        assert(whole.drop_first() =~= s.drop_first() + seq!['-'] + rest);
        let tail = s.drop_first();
        assert forall|i: int| 0 <= i < tail.len() implies #[trigger] tail[i] != '-' by {
            assert(tail[i] == s[i + 1]);
        }
        lemma_hyphen_after(s.drop_first(), rest);
    }
}

/// A name is read back as the date it was made from.
pub proof fn lemma_date_of_name(date: Date)
    ensures
        date_of(name_of(date)) == Some(date),
{
    let y = decimal(date.year as nat);
    let m = decimal(date.month as nat);
    let d = decimal(date.day as nat);
    lemma_decimal(date.year as nat);
    lemma_decimal(date.month as nat);
    lemma_decimal(date.day as nat);
    let name = name_of(date);
    assert forall|i: int| 0 <= i < y.len() implies #[trigger] y[i] != '-' by {
        assert(is_digit(y[i]));
    }
    assert forall|i: int| 0 <= i < m.len() implies #[trigger] m[i] != '-' by {
        assert(is_digit(m[i]));
    }
    assert(name =~= y + seq!['-'] + (m + seq!['-'] + d));
    lemma_hyphen_after(y, m + seq!['-'] + d);
    let rest = name.skip(y.len() as int + 1);
    assert(rest =~= m + seq!['-'] + d);
    lemma_hyphen_after(m, d);
    assert(name.take(y.len() as int) =~= y);
    assert(rest.take(m.len() as int) =~= m);
    assert(rest.skip(m.len() as int + 1) =~= d);
    assert(is_digit(y[0]) && is_digit(m[0]) && is_digit(d[0]));
}

/// The characters of a string, one by one.
fn chars_of(text: &str) -> (chars: Vec<char>)
    ensures
        chars@ == text@,
{
    let mut chars: Vec<char> = Vec::new();
    for c in it: text.chars()
        invariant
            it.seq() == text@,
            chars@ == text@.take(it.index() as int),
    {
        chars.push(c);
        assert(chars@ =~= text@.take(it.index() + 1));
    }
    assert(text@.take(text@.len() as int) =~= text@);
    chars
}

/// Finds the first hyphen at or after `from`.
fn find_hyphen(chars: &Vec<char>, from: usize) -> (at: usize)
    requires
        from <= chars.len(),
    ensures
        from <= at <= chars.len(),
        at - from == hyphen_at(chars@.skip(from as int)),
{
    let mut at: usize = from;
    while at < chars.len() && chars[at] != '-'
        invariant
            from <= at <= chars.len(),
            hyphen_at(chars@.skip(from as int)) == (at - from) + hyphen_at(chars@.skip(at as int)),
        decreases chars.len() - at,
    {
        proof {
            let tail = chars@.skip(at as int);
            assert(tail[0] == chars@[at as int]);
            assert(tail.drop_first() =~= chars@.skip(at + 1));
        }
        at = at + 1;
    }
    proof {
        let tail = chars@.skip(at as int);
        if at < chars.len() {
            assert(tail[0] == chars@[at as int]);
        }
    }
    at
}

/// Reads the component that lies between `from` and `to`.
fn read_number(chars: &Vec<char>, from: usize, to: usize, max: u32) -> (value: Option<u32>)
    requires
        from <= to <= chars.len(),
        max <= 65535,
    ensures
        match value {
            Some(v) => number(chars@.subrange(from as int, to as int), max as nat) == Some(
                v as nat,
            ),
            None => number(chars@.subrange(from as int, to as int), max as nat) is None,
        },
{
    let ghost part = chars@.subrange(from as int, to as int);
    let start: usize = if from < to && chars[from] == '+' {
        from + 1
    } else {
        from
    };
    let ghost body = chars@.subrange(start as int, to as int);
    proof {
        if from < to {
            assert(part[0] == chars@[from as int]);
        }
        if start == from {
            assert(body =~= part);
        } else {
            assert(body =~= part.drop_first());
        }
    }
    if start == to {
        return None;
    }
    let mut value: u32 = 0;
    let mut i: usize = start;
    proof {
        assert(body.take(0) =~= Seq::<char>::empty());
    }
    while i < to
        invariant
            start <= i <= to <= chars.len(),
            max <= 65535,
            body == chars@.subrange(start as int, to as int),
            part == chars@.subrange(from as int, to as int),
            body == if part.len() > 0 && part[0] == '+' {
                part.drop_first()
            } else {
                part
            },
            all_digits(body.take(i - start)),
            value == digits_value(body.take(i - start)),
            value <= max,
        decreases to - i,
    {
        let ch: char = chars[i];
        let c: u32 = ch as u32;
        proof {
            assert(body[i - start] == ch);
            assert(body.take(i - start + 1).drop_last() =~= body.take(i - start));
            assert(body.take(i - start + 1).last() == body[i - start]);
        }
        if c < 48 || c > 57 {
            proof {
                assert(!is_digit(body[i - start]));
            }
            return None;
        }
        let next: u32 = value * 10 + (c - 48);
        assert(next == digits_value(body.take(i - start + 1)));
        if next > max {
            proof {
                lemma_digits_value_grows(body, i - start + 1);
            }
            return None;
        }
        proof {
            assert forall|k: int| 0 <= k < i - start + 1 implies is_digit(
                #[trigger] body.take(i - start + 1)[k],
            ) by {
                if k < i - start {
                    assert(body.take(i - start)[k] == body[k]);
                }
            }
        }
        value = next;
        i = i + 1;
    }
    proof {
        assert(body.take(body.len() as int) =~= body);
    }
    Some(value)
}

/// A run of digits stands for no less than any of its beginnings does.
pub proof fn lemma_digits_value_grows(s: Seq<char>, k: int)
    requires
        0 <= k <= s.len(),
    ensures
        all_digits(s) ==> digits_value(s.take(k)) <= digits_value(s),
    decreases s.len() - k,
{
    if all_digits(s) && k < s.len() {
        lemma_digits_value_grows(s, k + 1);
        assert(s.take(k + 1).drop_last() =~= s.take(k));
        assert(is_digit(s[k]));
        assert(s.take(k + 1).last() == s[k]);
    } else {
        assert(s.take(s.len() as int) =~= s);
    }
}

/// Reads a name back as a date. A name that is not the name of a record
/// gives `None`.
pub fn parse_date_name(name: &str) -> (date: Option<Date>)
    ensures
        date == date_of(name@),
{
    let chars = chars_of(name);
    let p: usize = find_hyphen(&chars, 0);
    proof {
        assert(chars@.skip(0) =~= chars@);
    }
    if p >= chars.len() {
        return None;
    }
    let q: usize = find_hyphen(&chars, p + 1);
    if q >= chars.len() {
        return None;
    }
    proof {
        let rest = chars@.skip(p + 1);
        assert(chars@.take(p as int) =~= chars@.subrange(0, p as int));
        assert(rest.take(q - p - 1) =~= chars@.subrange(p + 1, q as int));
        assert(rest.skip(q - p) =~= chars@.subrange(q + 1, chars@.len() as int));
    }
    let year = read_number(&chars, 0, p, 65535);
    let month = read_number(&chars, p + 1, q, 255);
    let day = read_number(&chars, q + 1, chars.len(), 255);
    match (year, month, day) {
        (Some(year), Some(month), Some(day)) => Some(
            Date { year: year as u16, month: month as u8, day: day as u8 },
        ),
        _ => None,
    }
}

/// Appends one decimal digit.
fn push_digit(out: &mut String, d: u32)
    requires
        d < 10,
    ensures
        final(out)@ == old(out)@.push(digit(d as nat)),
{
    proof {
        reveal_strlit("0");
        reveal_strlit("1");
        reveal_strlit("2");
        reveal_strlit("3");
        reveal_strlit("4");
        reveal_strlit("5");
        reveal_strlit("6");
        reveal_strlit("7");
        reveal_strlit("8");
        reveal_strlit("9");
    }
    let text = if d == 0 {
        "0"
    } else if d == 1 {
        "1"
    } else if d == 2 {
        "2"
    } else if d == 3 {
        "3"
    } else if d == 4 {
        "4"
    } else if d == 5 {
        "5"
    } else if d == 6 {
        "6"
    } else if d == 7 {
        "7"
    } else if d == 8 {
        "8"
    } else {
        "9"
    };
    assert(text@ =~= seq![digit(d as nat)]);
    out.append(text);
    assert(out@ =~= old(out)@.push(digit(d as nat)));
}

/// Appends a number in decimal, without leading zeros.
fn push_decimal(out: &mut String, n: u32)
    requires
        n <= 65535,
    ensures
        final(out)@ == old(out)@ + decimal(n as nat),
{
    proof {
        reveal_with_fuel(decimal, 6);
    }
    if n >= 10000 {
        push_digit(out, n / 10000);
    }
    if n >= 1000 {
        push_digit(out, n / 1000 % 10);
    }
    if n >= 100 {
        push_digit(out, n / 100 % 10);
    }
    if n >= 10 {
        push_digit(out, n / 10 % 10);
    }
    push_digit(out, n % 10);
    assert(out@ =~= old(out)@ + decimal(n as nat));
}

/// The name of the object that keeps the record of a date.
pub fn date_name(date: Date) -> (name: String)
    ensures
        name@ == name_of(date),
        date_of(name@) == Some(date),
{
    let mut name = String::new();
    proof {
        reveal_strlit("-");
        lemma_date_of_name(date);
    }
    push_decimal(&mut name, date.year as u32);
    name.append("-");
    push_decimal(&mut name, date.month as u32);
    name.append("-");
    push_decimal(&mut name, date.day as u32);
    assert(name@ =~= name_of(date));
    name
}

/// The dates that have a record, from the names listed in a partition. The
/// dates come in the order of the listing, which the backing store does not
/// fix: sort them if they are to be shown in chronological order.
pub fn dates_of_names(names: &Vec<String>) -> (dates: Vec<Date>)
    ensures
        dates@ == dates_of(names@),
{
    let mut dates: Vec<Date> = Vec::new();
    let mut i: usize = 0;
    proof {
        assert(names@.take(0) =~= Seq::<String>::empty());
    }
    while i < names.len()
        invariant
            i <= names.len(),
            dates@ == dates_of(names@.take(i as int)),
        decreases names.len() - i,
    {
        proof {
            assert(names@.take(i + 1).drop_last() =~= names@.take(i as int));
            assert(names@.take(i + 1).last() == names@[i as int]);
        }
        match parse_date_name(names[i].as_str()) {
            Some(date) => {
                dates.push(date);
            },
            None => {},
        }
        i = i + 1;
    }
    assert(names@.take(names.len() as int) =~= names@);
    dates
}

} // verus!
