//! Fixed-capacity text fields and little-endian integers, the two building
//! blocks of every wire record.

use vstd::prelude::*;
use vstd::bytes::*;

verus! {

/// The content of a text field of `cap` bytes that carries `text`: the first
/// `cap - 1` bytes of `text` at most, then zeros up to the capacity.
pub open spec fn spec_pack_text(text: Seq<u8>, cap: nat) -> Seq<u8> {
    Seq::new(cap, |i: int| if i < text.len() && i + 1 < cap { text[i] } else { 0u8 })
}

/// The number of payload bytes that a field of `cap` bytes keeps of `text`.
pub open spec fn spec_payload_len(text: Seq<u8>, cap: nat) -> nat {
    if cap == 0 {
        0
    } else if text.len() < cap {
        text.len()
    } else {
        (cap - 1) as nat
    }
}

/// `n` is where the text in `buf` ends: no zero byte before it, and a zero
/// byte or the end of the buffer at it.
pub open spec fn text_ends_at(buf: Seq<u8>, n: int) -> bool {
    &&& 0 <= n <= buf.len()
    &&& forall|i: int| 0 <= i < n ==> buf[i] != 0
    &&& (n < buf.len() ==> buf[n] == 0)
}

/// The index of the first zero byte of `buf` at or after `from`, or the
/// length of `buf` where there is none.
pub open spec fn spec_text_end(buf: Seq<u8>, from: int) -> int
    decreases buf.len() - from,
{
    if from < 0 || from >= buf.len() {
        buf.len() as int
    } else if buf[from] == 0 {
        from
    } else {
        spec_text_end(buf, from + 1)
    }
}

/// The text that a field holds: everything before its first zero byte.
pub open spec fn spec_unpack_text(buf: Seq<u8>) -> Seq<u8> {
    buf.take(spec_text_end(buf, 0))
}

/// A text that a field of `cap` bytes carries without loss: it leaves room for
/// the terminator and holds no zero byte itself.
pub open spec fn text_fits(text: Seq<u8>, cap: nat) -> bool {
    &&& text.len() < cap
    &&& forall|i: int| 0 <= i < text.len() ==> text[i] != 0
}

proof fn lemma_text_end_from(buf: Seq<u8>, from: int)
    requires
        0 <= from <= buf.len(),
    ensures
        from <= spec_text_end(buf, from) <= buf.len(),
        forall|i: int| from <= i < spec_text_end(buf, from) ==> buf[i] != 0,
        spec_text_end(buf, from) < buf.len() ==> buf[spec_text_end(buf, from)] == 0,
    decreases buf.len() - from,
{
    if from < buf.len() && buf[from] != 0 {
        lemma_text_end_from(buf, from + 1);
    }
}

proof fn lemma_text_end_skips(buf: Seq<u8>, from: int, n: int)
    requires
        0 <= from <= n <= buf.len(),
        forall|i: int| from <= i < n ==> buf[i] != 0,
    ensures
        spec_text_end(buf, from) == spec_text_end(buf, n),
    decreases n - from,
{
    if from < n {
        lemma_text_end_skips(buf, from + 1, n);
    }
}

/// The end of the text in a buffer is the one index at which it ends.
pub proof fn lemma_text_end_unique(buf: Seq<u8>, n: int)
    ensures
        text_ends_at(buf, spec_text_end(buf, 0)),
        text_ends_at(buf, n) ==> n == spec_text_end(buf, 0),
{
    lemma_text_end_from(buf, 0);
    if text_ends_at(buf, n) {
        lemma_text_end_skips(buf, 0, n);
    }
}

/// Packing never overruns the field: the result has exactly `cap` bytes, the
/// kept payload is a prefix of `text`, and every byte after it is zero, so a
/// text of `cap` bytes or more leaves `cap - 1` payload bytes and a terminator.
pub proof fn lemma_pack_truncates(text: Seq<u8>, cap: nat)
    ensures
        spec_pack_text(text, cap).len() == cap,
        spec_payload_len(text, cap) <= text.len(),
        cap > 0 ==> spec_payload_len(text, cap) < cap,
        cap > 0 && text.len() >= cap ==> spec_payload_len(text, cap) == cap - 1,
        spec_pack_text(text, cap).take(spec_payload_len(text, cap) as int) == text.take(
            spec_payload_len(text, cap) as int,
        ),
        forall|i: int|
            spec_payload_len(text, cap) <= i < cap ==> spec_pack_text(text, cap)[i] == 0,
{
    let n = spec_payload_len(text, cap) as int;
    assert(spec_pack_text(text, cap).take(n) =~= text.take(n));
}

/// What comes back out of a field is the kept payload, up to the first zero
/// byte that the text itself held.
pub proof fn lemma_unpack_pack(text: Seq<u8>, cap: nat)
    ensures
        spec_unpack_text(spec_pack_text(text, cap)) == spec_unpack_text(
            text.take(spec_payload_len(text, cap) as int),
        ),
        text_fits(text, cap) ==> spec_unpack_text(spec_pack_text(text, cap)) == text,
{
    let n = spec_payload_len(text, cap) as int;
    let packed = spec_pack_text(text, cap);
    let kept = text.take(n);
    lemma_pack_truncates(text, cap);
    lemma_text_end_unique(kept, 0);
    let e = spec_text_end(kept, 0);
    assert(forall|i: int| 0 <= i < n ==> packed[i] == kept[i]);
    assert forall|i: int| 0 <= i < e implies packed[i] != 0 by {
        assert(kept[i] != 0);
    }
    if e < packed.len() {
        if e < n {
            assert(kept[e] == 0);
        }
        assert(packed[e] == 0);
    }
    assert(text_ends_at(packed, e));
    lemma_text_end_unique(packed, e);
    assert(packed.take(e) =~= kept.take(e));
    if text_fits(text, cap) {
        assert(kept =~= text);
        lemma_text_end_unique(text, text.len() as int);
        assert(text.take(text.len() as int) =~= text);
    }
}

/// Writes `text` into a zero-padded field of `cap` bytes, cutting it to
/// `cap - 1` bytes where it is longer.
pub fn pack_text(text: &[u8], cap: usize) -> (out: Vec<u8>)
    ensures
        out@ == spec_pack_text(text@, cap as nat),
        out@.len() == cap,
{
    let mut out: Vec<u8> = Vec::new();
    let mut i: usize = 0;
    while i < cap
        invariant
            i <= cap,
            out@.len() == i,
            forall|k: int| 0 <= k < i ==> out@[k] == spec_pack_text(text@, cap as nat)[k],
        decreases cap - i,
    {
        if i < text.len() && i + 1 < cap {
            out.push(text[i]);
        } else {
            out.push(0u8);
        }
        i = i + 1;
    }
    assert(out@ =~= spec_pack_text(text@, cap as nat));
    out
}

/// Reads the text of a field: the bytes before the first zero byte, or the
/// whole field where it holds none.
pub fn unpack_text(buf: &[u8]) -> (out: Vec<u8>)
    ensures
        out@ == spec_unpack_text(buf@),
        text_ends_at(buf@, out@.len() as int),
{
    let mut out: Vec<u8> = Vec::new();
    let mut i: usize = 0;
    while i < buf.len() && buf[i] != 0
        invariant
            i <= buf.len(),
            out@ == buf@.take(i as int),
            forall|k: int| 0 <= k < i ==> buf@[k] != 0,
        decreases buf.len() - i,
    {
        out.push(buf[i]);
        i = i + 1;
        assert(out@ =~= buf@.take(i as int));
    }
    proof {
        lemma_text_end_unique(buf@, i as int);
    }
    out
}

/// The four bytes of a signed 32-bit integer, least significant first.
pub open spec fn spec_i32_bytes(x: i32) -> Seq<u8> {
    spec_u32_to_le_bytes(x as u32)
}

/// The signed 32-bit integer that four bytes hold, least significant first.
pub open spec fn spec_i32_value(s: Seq<u8>) -> i32 {
    spec_u32_from_le_bytes(s) as i32
}

/// The eight bytes of a signed 64-bit integer, least significant first.
pub open spec fn spec_i64_bytes(x: i64) -> Seq<u8> {
    spec_u64_to_le_bytes(x as u64)
}

/// The signed 64-bit integer that eight bytes hold, least significant first.
pub open spec fn spec_i64_value(s: Seq<u8>) -> i64 {
    spec_u64_from_le_bytes(s) as i64
}

/// Integers survive their byte encoding, and the encodings have the width of
/// their type.
pub proof fn lemma_int_bytes(a: i32, b: i64, c: u64)
    ensures
        spec_i32_bytes(a).len() == 4,
        spec_i32_value(spec_i32_bytes(a)) == a,
        spec_i64_bytes(b).len() == 8,
        spec_i64_value(spec_i64_bytes(b)) == b,
        spec_u64_to_le_bytes(c).len() == 8,
        spec_u64_from_le_bytes(spec_u64_to_le_bytes(c)) == c,
{
    lemma_auto_spec_u32_to_from_le_bytes();
    lemma_auto_spec_u64_to_from_le_bytes();
    let ua = a as u32;
    let ub = b as u64;
    assert(spec_u32_to_le_bytes(ua).len() == 4);
    assert(spec_u32_from_le_bytes(spec_u32_to_le_bytes(ua)) == ua);
    assert(spec_u64_to_le_bytes(ub).len() == 8);
    assert(spec_u64_from_le_bytes(spec_u64_to_le_bytes(ub)) == ub);
    assert(spec_u64_to_le_bytes(c).len() == 8);
    assert((a as u32) as i32 == a) by (bit_vector);
    assert((b as u64) as i64 == b) by (bit_vector);
}

/// Appends every byte of `src` to `dst`.
pub fn append_bytes(dst: &mut Vec<u8>, src: &[u8])
    ensures
        final(dst)@ == old(dst)@ + src@,
{
    let mut i: usize = 0;
    while i < src.len()
        invariant
            i <= src.len(),
            dst@ == old(dst)@ + src@.take(i as int),
        decreases src.len() - i,
    {
        dst.push(src[i]);
        i = i + 1;
        assert(dst@ =~= old(dst)@ + src@.take(i as int));
    }
    assert(src@.take(src@.len() as int) =~= src@);
}

/// An owned copy of a byte string.
pub fn copy_bytes(src: &[u8]) -> (out: Vec<u8>)
    ensures
        out@ == src@,
{
    let mut out: Vec<u8> = Vec::new();
    append_bytes(&mut out, src);
    assert(out@ =~= src@);
    out
}

/// Whether two byte strings are the same.
pub fn bytes_equal(a: &[u8], b: &[u8]) -> (same: bool)
    ensures
        same == (a@ == b@),
{
    if a.len() != b.len() {
        return false;
    }
    let mut i: usize = 0;
    while i < a.len()
        invariant
            i <= a.len(),
            a@.len() == b@.len(),
            forall|k: int| 0 <= k < i ==> a@[k] == b@[k],
        decreases a.len() - i,
    {
        if a[i] != b[i] {
            return false;
        }
        i = i + 1;
    }
    assert(a@ =~= b@);
    true
}

} // verus!
