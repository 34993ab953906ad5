//! The argument and result codec.
//!
//! Arguments travel in a flat buffer of eight-byte slots, one per argument,
//! whatever the argument's own width: a four-byte value sits in the first
//! four bytes of its slot and the rest is padding. All values are
//! little-endian. A result is written back in its own width, without padding.

use vstd::prelude::*;
use crate::error::HostError;
use crate::value::{Value, ValueType};

verus! {

/// The number of bytes of one argument slot.
pub const SLOT_SIZE: usize = 8;

/// The number read little-endian from the first four bytes of `b`.
pub open spec fn le_u32(b: Seq<u8>) -> u32
    recommends
        b.len() >= 4,
{
    (b[0] as int + b[1] as int * 0x100 + b[2] as int * 0x1_0000 + b[3] as int * 0x100_0000) as u32
}

/// The number read little-endian from the first eight bytes of `b`.
pub open spec fn le_u64(b: Seq<u8>) -> u64
    recommends
        b.len() >= 8,
{
    (le_u32(b) as int + le_u32(b.skip(4)) as int * 0x1_0000_0000) as u64
}

/// The four bytes of `w`, lowest first.
pub open spec fn u32_le_bytes(w: u32) -> Seq<u8> {
    seq![
        (w as int % 0x100) as u8,
        (w as int / 0x100 % 0x100) as u8,
        (w as int / 0x1_0000 % 0x100) as u8,
        (w as int / 0x100_0000) as u8,
    ]
}

/// The eight bytes of `w`, lowest first.
pub open spec fn u64_le_bytes(w: u64) -> Seq<u8> {
    u32_le_bytes((w as int % 0x1_0000_0000) as u32) + u32_le_bytes(
        (w as int / 0x1_0000_0000) as u32,
    )
}

/// The value of type `ty` that a slot holds. Only the first `ty.spec_width()`
/// bytes of the slot count.
pub open spec fn decode_slot(ty: ValueType, slot: Seq<u8>) -> Value
    recommends
        slot.len() >= 8,
{
    match ty {
        ValueType::I32 => Value::I32(le_u32(slot) as i32),
        ValueType::I64 => Value::I64(le_u64(slot) as i64),
        ValueType::F32 => Value::F32(le_u32(slot)),
        ValueType::F64 => Value::F64(le_u64(slot)),
    }
}

/// The bytes of `buf` from slot `i` on.
pub open spec fn slot_at(buf: Seq<u8>, i: int) -> Seq<u8> {
    buf.skip(8 * i)
}

/// The arguments that a buffer holds for a parameter list: the value of slot
/// `i` read at the type of parameter `i`.
pub open spec fn decode_args(params: Seq<ValueType>, buf: Seq<u8>) -> Seq<Value>
    recommends
        buf.len() >= 8 * params.len(),
{
    Seq::new(params.len(), |i: int| decode_slot(params[i], slot_at(buf, i)))
}

/// The bytes of a value in its own width.
pub open spec fn encode_value(v: Value) -> Seq<u8> {
    match v {
        Value::I32(x) => u32_le_bytes(x as u32),
        Value::I64(x) => u64_le_bytes(x as u64),
        Value::F32(x) => u32_le_bytes(x),
        Value::F64(x) => u64_le_bytes(x),
    }
}

/// Reads four bytes at `at` as a little-endian number.
pub fn read_u32(buf: &[u8], at: usize) -> (w: u32)
    requires
        at + 4 <= buf@.len(),
    ensures
        w == le_u32(buf@.skip(at as int)),
{
    let b0: u32 = buf[at] as u32;
    let b1: u32 = buf[at + 1] as u32;
    let b2: u32 = buf[at + 2] as u32;
    let b3: u32 = buf[at + 3] as u32;
    b0 + b1 * 0x100 + b2 * 0x1_0000 + b3 * 0x100_0000
}

/// Reads eight bytes at `at` as a little-endian number.
pub fn read_u64(buf: &[u8], at: usize) -> (w: u64)
    requires
        at + 8 <= buf@.len(),
    ensures
        w == le_u64(buf@.skip(at as int)),
{
    let len: usize = buf.len();
    assert(at + 8 <= len);
    let lo: u64 = read_u32(buf, at) as u64;
    let hi: u64 = read_u32(buf, at + 4) as u64;
    assert(buf@.skip(at as int).skip(4) == buf@.skip(at + 4));
    lo + hi * 0x1_0000_0000
}

/// Reads the slot that starts at `at` as a value of type `ty`.
pub fn read_slot(ty: ValueType, buf: &[u8], at: usize) -> (v: Value)
    requires
        at + 8 <= buf@.len(),
    ensures
        v == decode_slot(ty, buf@.skip(at as int)),
{
    match ty {
        ValueType::I32 => Value::I32(read_u32(buf, at) as i32),
        ValueType::I64 => Value::I64(read_u64(buf, at) as i64),
        ValueType::F32 => Value::F32(read_u32(buf, at)),
        ValueType::F64 => Value::F64(read_u64(buf, at)),
    }
}

/// Reads one argument per parameter from a buffer of slots. Fails with
/// `ArityUnderflow` exactly when the buffer holds fewer slots than there are
/// parameters; slots beyond the last parameter are ignored.
pub fn read_args(params: &Vec<ValueType>, buf: &[u8]) -> (r: Result<Vec<Value>, HostError>)
    ensures
        r is Err <==> buf@.len() < 8 * params@.len(),
        r matches Err(e) ==> e == HostError::ArityUnderflow,
        r matches Ok(args) ==> args@ == decode_args(params@, buf@),
{
    if buf.len() / SLOT_SIZE < params.len() {
        return Err(HostError::ArityUnderflow);
    }
    let mut args: Vec<Value> = Vec::new();
    let mut i: usize = 0;
    while i < params.len()
        invariant
            i <= params@.len(),
            8 * params@.len() <= buf@.len(),
            buf@.len() <= usize::MAX,
            args@.len() == i,
            forall|j: int| 0 <= j < i ==> args@[j] == decode_slot(params@[j], slot_at(buf@, j)),
        decreases params@.len() - i,
    {
        let v: Value = read_slot(params[i], buf, i * SLOT_SIZE);
        args.push(v);
        i = i + 1;
    }
    assert(args@ =~= decode_args(params@, buf@));
    Ok(args)
}

/// Appends the four bytes of `w`, lowest first.
pub fn push_u32(out: &mut Vec<u8>, w: u32)
    ensures
        final(out)@ == old(out)@ + u32_le_bytes(w),
{
    out.push((w % 0x100) as u8);
    out.push((w / 0x100 % 0x100) as u8);
    out.push((w / 0x1_0000 % 0x100) as u8);
    out.push((w / 0x100_0000) as u8);
    assert(out@ =~= old(out)@ + u32_le_bytes(w));
}

/// Appends the eight bytes of `w`, lowest first.
pub fn push_u64(out: &mut Vec<u8>, w: u64)
    ensures
        final(out)@ == old(out)@ + u64_le_bytes(w),
{
    push_u32(out, (w % 0x1_0000_0000) as u32);
    push_u32(out, (w / 0x1_0000_0000) as u32);
    assert(out@ =~= old(out)@ + u64_le_bytes(w));
}

/// The bytes of a value in its own width: four for the 32-bit types, eight
/// for the 64-bit ones.
pub fn write_value(v: Value) -> (out: Vec<u8>)
    ensures
        out@ == encode_value(v),
        out@.len() == v.spec_value_type().spec_width(),
{
    let mut out: Vec<u8> = Vec::new();
    match v {
        Value::I32(x) => push_u32(&mut out, x as u32),
        Value::I64(x) => push_u64(&mut out, x as u64),
        Value::F32(x) => push_u32(&mut out, x),
        Value::F64(x) => push_u64(&mut out, x),
    }
    assert(out@ =~= encode_value(v));
    out
}

/// Reading back what was written gives the number written.
pub proof fn lemma_le_u32_round_trip(w: u32, rest: Seq<u8>)
    ensures
        u32_le_bytes(w).len() == 4,
        le_u32(u32_le_bytes(w) + rest) == w,
{
}

/// Reading back what was written gives the number written.
pub proof fn lemma_le_u64_round_trip(w: u64, rest: Seq<u8>)
    ensures
        u64_le_bytes(w).len() == 8,
        le_u64(u64_le_bytes(w) + rest) == w,
{
    let lo: u32 = (w as int % 0x1_0000_0000) as u32;
    let hi: u32 = (w as int / 0x1_0000_0000) as u32;
    let b = u64_le_bytes(w) + rest;
    lemma_le_u32_round_trip(lo, u32_le_bytes(hi) + rest);
    lemma_le_u32_round_trip(hi, rest);
    assert(b =~= u32_le_bytes(lo) + (u32_le_bytes(hi) + rest));
    assert(b.skip(4) =~= u32_le_bytes(hi) + rest);
}

/// A slot that starts with the bytes of a value decodes to that value at the
/// value's type, whatever follows them.
pub proof fn lemma_slot_round_trip(v: Value, rest: Seq<u8>)
    ensures
        encode_value(v).len() == v.spec_value_type().spec_width(),
        decode_slot(v.spec_value_type(), encode_value(v) + rest) == v,
{
    match v {
        Value::I32(x) => {
            lemma_le_u32_round_trip(x as u32, rest);
            assert((x as u32) as i32 == x) by (bit_vector);
        },
        Value::I64(x) => {
            lemma_le_u64_round_trip(x as u64, rest);
            assert((x as u64) as i64 == x) by (bit_vector);
        },
        Value::F32(x) => {
            lemma_le_u32_round_trip(x, rest);
        },
        Value::F64(x) => {
            lemma_le_u64_round_trip(x, rest);
        },
    }
}

} // verus!
