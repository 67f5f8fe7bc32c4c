//! Canonical binary encoding of the primitive fields of a transaction.
//!
//! A byte vector is written as its length (u64, little-endian) followed by
//! its bytes; an `i32` as four little-endian bytes of its two's-complement
//! form, an `i64` as eight.
use vstd::bytes::*;
use vstd::prelude::*;

verus! {

/// The encoding of a length-prefixed byte field.
pub open spec fn enc_bytes(b: Seq<u8>) -> Seq<u8> {
    spec_u64_to_le_bytes(b.len() as u64) + b
}

pub open spec fn enc_i32(a: i32) -> Seq<u8> {
    spec_u32_to_le_bytes(a as u32)
}

pub open spec fn enc_i64(a: i64) -> Seq<u8> {
    spec_u64_to_le_bytes(a as u64)
}

/// Reads a length-prefixed byte field at the front of `s`: the field and
/// what follows it, or `None` when `s` is too short.
pub open spec fn dec_bytes(s: Seq<u8>) -> Option<(Seq<u8>, Seq<u8>)> {
    if s.len() < 8 {
        None
    } else {
        let n = spec_u64_from_le_bytes(s.take(8)) as int;
        let r = s.skip(8);
        if r.len() < n {
            None
        } else {
            Some((r.take(n), r.skip(n)))
        }
    }
}

pub open spec fn dec_i32(s: Seq<u8>) -> Option<(i32, Seq<u8>)> {
    if s.len() < 4 {
        None
    } else {
        Some((spec_u32_from_le_bytes(s.take(4)) as i32, s.skip(4)))
    }
}

pub open spec fn dec_i64(s: Seq<u8>) -> Option<(i64, Seq<u8>)> {
    if s.len() < 8 {
        None
    } else {
        Some((spec_u64_from_le_bytes(s.take(8)) as i64, s.skip(8)))
    }
}

pub proof fn lemma_dec_bytes(b: Seq<u8>, rest: Seq<u8>)
    requires
        b.len() <= u64::MAX,
    ensures
        dec_bytes(enc_bytes(b) + rest) == Some((b, rest)),
{
    lemma_auto_spec_u64_to_from_le_bytes();
    let s = enc_bytes(b) + rest;
    let p = spec_u64_to_le_bytes(b.len() as u64);
    assert(s.take(8) =~= p);
    assert(s.skip(8) =~= b + rest);
    assert((b + rest).take(b.len() as int) =~= b);
    assert((b + rest).skip(b.len() as int) =~= rest);
}

pub proof fn lemma_dec_i32(a: i32, rest: Seq<u8>)
    ensures
        dec_i32(enc_i32(a) + rest) == Some((a, rest)),
{
    lemma_auto_spec_u32_to_from_le_bytes();
    let s = enc_i32(a) + rest;
    assert(s.take(4) =~= enc_i32(a));
    assert(s.skip(4) =~= rest);
    assert((a as u32) as i32 == a) by (bit_vector);
}

pub proof fn lemma_dec_i64(a: i64, rest: Seq<u8>)
    ensures
        dec_i64(enc_i64(a) + rest) == Some((a, rest)),
{
    lemma_auto_spec_u64_to_from_le_bytes();
    let s = enc_i64(a) + rest;
    assert(s.take(8) =~= enc_i64(a));
    assert(s.skip(8) =~= rest);
    assert((a as u64) as i64 == a) by (bit_vector);
}

/// Appends `b` to `out`.
pub(crate) fn push_all(out: &mut Vec<u8>, b: &[u8])
    ensures
        final(out)@ == old(out)@ + b@,
{
    let mut i: usize = 0;
    while i < b.len()
        invariant
            i <= b@.len(),
            out@ == old(out)@ + b@.take(i as int),
        decreases b@.len() - i,
    {
        out.push(b[i]);
        i = i + 1;
        assert(b@.take(i as int) =~= b@.take(i - 1) + seq![b@[i - 1]]);
    }
    assert(b@.take(i as int) =~= b@);
}

/// Appends the length-prefixed encoding of `b` to `out`.
pub fn encode_len_prefixed(out: &mut Vec<u8>, b: &[u8])
    ensures
        final(out)@ == old(out)@ + enc_bytes(b@),
{
    let n = b.len() as u64;
    let p = u64_to_le_bytes(n);
    push_all(out, p.as_slice());
    push_all(out, b);
    assert(final(out)@ =~= old(out)@ + enc_bytes(b@));
}

/// Appends the encoding of `a` to `out`.
pub fn encode_i32(out: &mut Vec<u8>, a: i32)
    ensures
        final(out)@ == old(out)@ + enc_i32(a),
{
    let p = u32_to_le_bytes(a as u32);
    push_all(out, p.as_slice());
}

/// Appends the encoding of `a` to `out`.
pub fn encode_i64(out: &mut Vec<u8>, a: i64)
    ensures
        final(out)@ == old(out)@ + enc_i64(a),
{
    let p = u64_to_le_bytes(a as u64);
    push_all(out, p.as_slice());
}

/// Copies `data[start..end]`.
fn copy_range(data: &[u8], start: usize, end: usize) -> (r: Vec<u8>)
    requires
        start <= end <= data@.len(),
    ensures
        r@ == data@.subrange(start as int, end as int),
{
    let mut r: Vec<u8> = Vec::new();
    let mut i: usize = start;
    while i < end
        invariant
            start <= i <= end,
            end <= data@.len(),
            r@ == data@.subrange(start as int, i as int),
        decreases end - i,
    {
        r.push(data[i]);
        i = i + 1;
        assert(r@ =~= data@.subrange(start as int, i as int));
    }
    r
}

/// Reads the length-prefixed byte field that starts at `pos`: the field and
/// the position after it, or `None` where the input ends too early.
pub fn decode_len_prefixed(data: &[u8], pos: usize) -> (r: Option<(Vec<u8>, usize)>)
    requires
        pos <= data@.len(),
    ensures
        match r {
            None => dec_bytes(data@.skip(pos as int)) is None,
            Some((v, next)) => pos <= next <= data@.len() && dec_bytes(data@.skip(pos as int))
                == Some((v@, data@.skip(next as int))),
        },
{
    let s = Ghost(data@.skip(pos as int));
    if data.len() - pos < 8 {
        return None;
    }
    let head = copy_range(data, pos, pos + 8);
    assert(head@ =~= s@.take(8));
    let n = u64_from_le_bytes(head.as_slice());
    let avail = (data.len() - pos - 8) as u64;
    if n > avail {
        return None;
    }
    let start = pos + 8;
    let end = start + n as usize;
    let v = copy_range(data, start, end);
    assert(v@ =~= s@.skip(8).take(n as int));
    assert(data@.skip(end as int) =~= s@.skip(8).skip(n as int));
    Some((v, end))
}

/// Reads the `i32` that starts at `pos`.
pub fn decode_i32(data: &[u8], pos: usize) -> (r: Option<(i32, usize)>)
    requires
        pos <= data@.len(),
    ensures
        match r {
            None => dec_i32(data@.skip(pos as int)) is None,
            Some((a, next)) => pos <= next <= data@.len() && dec_i32(data@.skip(pos as int))
                == Some((a, data@.skip(next as int))),
        },
{
    let s = Ghost(data@.skip(pos as int));
    if data.len() - pos < 4 {
        return None;
    }
    let head = copy_range(data, pos, pos + 4);
    assert(head@ =~= s@.take(4));
    let u = u32_from_le_bytes(head.as_slice());
    assert(data@.skip(pos + 4) =~= s@.skip(4));
    Some((u as i32, pos + 4))
}

/// Reads the `i64` that starts at `pos`.
pub fn decode_i64(data: &[u8], pos: usize) -> (r: Option<(i64, usize)>)
    requires
        pos <= data@.len(),
    ensures
        match r {
            None => dec_i64(data@.skip(pos as int)) is None,
            Some((a, next)) => pos <= next <= data@.len() && dec_i64(data@.skip(pos as int))
                == Some((a, data@.skip(next as int))),
        },
{
    let s = Ghost(data@.skip(pos as int));
    if data.len() - pos < 8 {
        return None;
    }
    let head = copy_range(data, pos, pos + 8);
    assert(head@ =~= s@.take(8));
    let u = u64_from_le_bytes(head.as_slice());
    assert(data@.skip(pos + 8) =~= s@.skip(8));
    Some((u as i64, pos + 8))
}

} // verus!
