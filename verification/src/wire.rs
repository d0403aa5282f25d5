//! Fixed-width fields and the bytes that carry them.
//!
//! The protocol mixes byte orders: multi-byte integers inside command records
//! travel most significant byte first, while the persisted daily records store
//! them least significant byte first. Each helper here fixes one width and one
//! order, so that a record layout reads as a list of fields.

use vstd::prelude::*;

verus! {

/// A 16-bit value, most significant byte first.
pub open spec fn be16(v: u16) -> Seq<u8> {
    seq![(v / 256) as u8, (v % 256) as u8]
}

/// A 16-bit value, least significant byte first.
pub open spec fn le16(v: u16) -> Seq<u8> {
    seq![(v % 256) as u8, (v / 256) as u8]
}

/// A 32-bit value, least significant byte first.
pub open spec fn le32(v: u32) -> Seq<u8> {
    seq![
        (v % 256) as u8,
        (v / 256 % 256) as u8,
        (v / 65536 % 256) as u8,
        (v / 16777216) as u8,
    ]
}

/// The value that four bytes hold, least significant byte first.
pub open spec fn le32_value(bytes: Seq<u8>) -> int {
    bytes[0] + bytes[1] * 256 + bytes[2] * 65536 + bytes[3] * 16777216
}

/// Two 16-bit values with the same big-endian bytes are the same value.
pub proof fn lemma_be16_injective(a: u16, b: u16)
    requires
        be16(a) == be16(b),
    ensures
        a == b,
{
    assert(be16(a)[0] == be16(b)[0]);
    assert(be16(a)[1] == be16(b)[1]);
}

/// The four little-endian bytes of a value hold that value.
pub proof fn lemma_le32_value(v: u32)
    ensures
        le32_value(le32(v)) == v,
        le32(v).len() == 4,
{
    assert(v / 256 == (v / 65536) * 256 + v / 256 % 256);
    assert(v / 65536 == (v / 16777216) * 256 + v / 65536 % 256);
}

/// Appends `v`, most significant byte first.
pub fn put_be16(out: &mut Vec<u8>, v: u16)
    ensures
        final(out)@ == old(out)@ + be16(v),
{
    out.push((v / 256) as u8);
    out.push((v % 256) as u8);
    assert(out@ =~= old(out)@ + be16(v));
}

/// Appends `v`, least significant byte first.
pub fn put_le16(out: &mut Vec<u8>, v: u16)
    ensures
        final(out)@ == old(out)@ + le16(v),
{
    out.push((v % 256) as u8);
    out.push((v / 256) as u8);
    assert(out@ =~= old(out)@ + le16(v));
}

/// Appends `v`, least significant byte first.
pub fn put_le32(out: &mut Vec<u8>, v: u32)
    ensures
        final(out)@ == old(out)@ + le32(v),
{
    out.push((v % 256) as u8);
    out.push((v / 256 % 256) as u8);
    out.push((v / 65536 % 256) as u8);
    out.push((v / 16777216) as u8);
    assert(out@ =~= old(out)@ + le32(v));
}

/// Appends every byte of `src` in order.
pub fn put_bytes(out: &mut Vec<u8>, src: &[u8])
    ensures
        final(out)@ == old(out)@ + src@,
{
    let mut i: usize = 0;
    while i < src.len()
        invariant
            i <= src.len(),
            out@ == old(out)@ + src@.take(i as int),
        decreases src.len() - i,
    {
        out.push(src[i]);
        i = i + 1;
        assert(out@ =~= old(out)@ + src@.take(i as int));
    }
    assert(src@.take(src.len() as int) =~= src@);
}

/// Reads the big-endian 16-bit value at offset `at`.
pub fn get_be16(raw: &[u8], at: usize) -> (v: u16)
    requires
        at + 2 <= raw.len(),
    ensures
        be16(v) == raw@.subrange(at as int, at + 2),
{
    let hi: u16 = raw[at] as u16;
    let lo: u16 = raw[at + 1] as u16;
    let v: u16 = hi * 256 + lo;
    assert(be16(v) =~= raw@.subrange(at as int, at + 2));
    v
}

/// Reads the little-endian 32-bit value at offset `at`.
pub fn get_le32(raw: &[u8], at: usize) -> (v: u32)
    requires
        at + 4 <= raw.len(),
    ensures
        le32(v) == raw@.subrange(at as int, at + 4),
        v == le32_value(raw@.subrange(at as int, at + 4)),
{
    let b0: u32 = raw[at] as u32;
    let b1: u32 = raw[at + 1] as u32;
    let b2: u32 = raw[at + 2] as u32;
    let b3: u32 = raw[at + 3] as u32;
    let v: u32 = b0 + b1 * 256 + b2 * 65536 + b3 * 16777216;
    proof {
        assert(v % 256 == b0 && v / 256 == b1 + b2 * 256 + b3 * 65536);
        assert(v / 256 % 256 == b1);
        assert(v / 65536 == b2 + b3 * 256);
        assert(v / 65536 % 256 == b2);
        assert(v / 16777216 == b3);
        assert(le32(v) =~= raw@.subrange(at as int, at + 4));
    }
    v
}

/// A run of 16-bit values, each most significant byte first.
pub open spec fn be16_run(units: Seq<u16>) -> Seq<u8> {
    Seq::new(
        2 * units.len(),
        |i: int|
            if i % 2 == 0 {
                (units[i / 2] / 256) as u8
            } else {
                (units[i / 2] % 256) as u8
            },
    )
}

/// A run of 16-bit values is determined by its bytes.
pub proof fn lemma_be16_run_injective(a: Seq<u16>, b: Seq<u16>)
    requires
        be16_run(a) == be16_run(b),
    ensures
        a == b,
{
    assert(be16_run(a).len() == 2 * a.len());
    assert(be16_run(b).len() == 2 * b.len());
    assert(a.len() == b.len());
    assert forall|k: int| 0 <= k < a.len() implies a[k] == b[k] by {
        let hi = 2 * k;
        let lo = 2 * k + 1;
        assert(hi / 2 == k && hi % 2 == 0);
        assert(lo / 2 == k && lo % 2 == 1);
        assert(be16_run(a)[hi] == (a[k] / 256) as u8);
        assert(be16_run(b)[hi] == (b[k] / 256) as u8);
        assert(be16_run(a)[lo] == (a[k] % 256) as u8);
        assert(be16_run(b)[lo] == (b[k] % 256) as u8);
    }
    assert(a =~= b);
}

/// Appending one value to a run appends its two bytes.
pub proof fn lemma_be16_run_push(units: Seq<u16>, u: u16)
    ensures
        be16_run(units.push(u)) == be16_run(units) + be16(u),
{
    let l = be16_run(units.push(u));
    let r = be16_run(units) + be16(u);
    assert(l.len() == r.len());
    assert forall|i: int| 0 <= i < l.len() implies l[i] == r[i] by {
        if i < 2 * units.len() {
            assert(i / 2 < units.len());
        } else {
            assert(i / 2 == units.len());
        }
    }
    assert(l =~= r);
}

/// Appends every value of `units`, each most significant byte first.
pub fn put_be16_run(out: &mut Vec<u8>, units: &Vec<u16>)
    ensures
        final(out)@ == old(out)@ + be16_run(units@),
{
    let mut i: usize = 0;
    while i < units.len()
        invariant
            i <= units.len(),
            out@ == old(out)@ + be16_run(units@.take(i as int)),
        decreases units.len() - i,
    {
        let u: u16 = units[i];
        out.push((u / 256) as u8);
        out.push((u % 256) as u8);
        proof {
            lemma_be16_run_push(units@.take(i as int), u);
            assert(units@.take(i + 1) =~= units@.take(i as int).push(u));
        }
        i = i + 1;
        assert(out@ =~= old(out)@ + be16_run(units@.take(i as int)));
    }
    assert(units@.take(units.len() as int) =~= units@);
}

/// Reads the run of big-endian 16-bit values that fills the buffer from
/// offset `at` to its end.
pub fn get_be16_run(raw: &[u8], at: usize) -> (units: Vec<u16>)
    requires
        at <= raw.len(),
        (raw.len() - at) % 2 == 0,
    ensures
        be16_run(units@) == raw@.subrange(at as int, raw.len() as int),
        2 * units.len() == raw.len() - at,
{
    let mut units: Vec<u16> = Vec::new();
    let mut pos: usize = at;
    while pos < raw.len()
        invariant
            at <= pos <= raw.len(),
            (raw.len() - pos) % 2 == 0,
            pos - at == 2 * units.len(),
            forall|k: int|
                0 <= k < units.len() ==> be16(#[trigger] units@[k]) == raw@.subrange(
                    at + 2 * k,
                    at + 2 * k + 2,
                ),
        decreases raw.len() - pos,
    {
        let u: u16 = get_be16(raw, pos);
        units.push(u);
        pos = pos + 2;
    }
    proof {
        let tail = raw@.subrange(at as int, raw.len() as int);
        assert forall|i: int| 0 <= i < tail.len() implies be16_run(units@)[i] == tail[i] by {
            let k = i / 2;
            assert(be16(units@[k]) == raw@.subrange(at + 2 * k, at + 2 * k + 2));
            assert(be16(units@[k])[i % 2] == raw@.subrange(at + 2 * k, at + 2 * k + 2)[i % 2]);
        }
        assert(be16_run(units@) =~= tail);
    }
    units
}

/// Reads the `N` bytes that start at offset `at`.
pub fn get_array<const N: usize>(raw: &[u8], at: usize) -> (a: [u8; N])
    requires
        at + N <= raw.len(),
    ensures
        a@ == raw@.subrange(at as int, at + N),
{
    let mut a: [u8; N] = [0u8; N];
    let mut i: usize = 0;
    while i < N
        invariant
            i <= N,
            at + N <= raw.len(),
            forall|j: int| 0 <= j < i ==> a@[j] == raw@[at + j],
        decreases N - i,
    {
        a[i] = raw[at + i];
        i = i + 1;
    }
    assert(a@ =~= raw@.subrange(at as int, at + N));
    a
}

/// Whether the bytes of `tag` stand at offset `at`.
pub fn has_bytes_at(raw: &[u8], at: usize, tag: &[u8]) -> (b: bool)
    requires
        at + tag.len() <= raw.len(),
    ensures
        b == (raw@.subrange(at as int, at + tag.len()) == tag@),
{
    let mut i: usize = 0;
    while i < tag.len()
        invariant
            i <= tag.len(),
            at + tag.len() <= raw.len(),
            forall|j: int| 0 <= j < i ==> raw@[at + j] == tag@[j],
        decreases tag.len() - i,
    {
        if raw[at + i] != tag[i] {
            assert(raw@.subrange(at as int, at + tag.len())[i as int] != tag@[i as int]);
            return false;
        }
        i = i + 1;
    }
    assert(raw@.subrange(at as int, at + tag.len()) =~= tag@);
    true
}

} // verus!
