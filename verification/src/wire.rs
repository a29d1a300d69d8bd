//! Little-endian integers in byte sequences.

use vstd::prelude::*;

verus! {

/// The unsigned 16-bit integer stored at `at`.
pub open spec fn u16_at(s: Seq<u8>, at: int) -> u16 {
    (s[at] + 0x100 * s[at + 1]) as u16
}

/// The unsigned 32-bit integer stored at `at`.
pub open spec fn u32_at(s: Seq<u8>, at: int) -> u32 {
    (s[at] + 0x100 * s[at + 1] + 0x1_0000 * s[at + 2] + 0x100_0000 * s[at + 3]) as u32
}

/// The number a 32-bit pattern stands for in two's complement.
pub open spec fn signed32(u: u32) -> i32 {
    if u < 0x8000_0000 {
        u as i32
    } else {
        (u - 0x1_0000_0000) as i32
    }
}

/// The 32-bit pattern of a number in two's complement.
pub open spec fn pattern32(i: i32) -> u32 {
    if i >= 0 {
        i as u32
    } else {
        (i + 0x1_0000_0000) as u32
    }
}

/// The signed 32-bit integer stored at `at`.
pub open spec fn i32_at(s: Seq<u8>, at: int) -> i32 {
    signed32(u32_at(s, at))
}

/// The two bytes of a 16-bit integer.
pub open spec fn u16_bytes(x: u16) -> Seq<u8> {
    seq![(x % 0x100) as u8, (x / 0x100) as u8]
}

/// The four bytes of a 32-bit integer.
pub open spec fn u32_bytes(x: u32) -> Seq<u8> {
    seq![
        (x % 0x100) as u8,
        (x / 0x100 % 0x100) as u8,
        (x / 0x1_0000 % 0x100) as u8,
        (x / 0x100_0000) as u8,
    ]
}

/// The four bytes of a signed 32-bit integer.
pub open spec fn i32_bytes(x: i32) -> Seq<u8> {
    u32_bytes(pattern32(x))
}

/// Reads the unsigned 16-bit integer at `at`.
pub fn read_u16(buf: &[u8], at: usize) -> (r: u16)
    requires
        at + 2 <= buf@.len(),
    ensures
        r == u16_at(buf@, at as int),
{
    buf[at] as u16 + 0x100 * (buf[at + 1] as u16)
}

/// Reads the unsigned 32-bit integer at `at`.
pub fn read_u32(buf: &[u8], at: usize) -> (r: u32)
    requires
        at + 4 <= buf@.len(),
    ensures
        r == u32_at(buf@, at as int),
{
    buf[at] as u32 + 0x100 * (buf[at + 1] as u32) + 0x1_0000 * (buf[at + 2] as u32) + 0x100_0000
        * (buf[at + 3] as u32)
}

/// Reads the signed 32-bit integer at `at`.
pub fn read_i32(buf: &[u8], at: usize) -> (r: i32)
    requires
        at + 4 <= buf@.len(),
    ensures
        r == i32_at(buf@, at as int),
{
    to_signed32(read_u32(buf, at))
}

/// Reads a 32-bit pattern as a number in two's complement.
pub fn to_signed32(u: u32) -> (r: i32)
    ensures
        r == signed32(u),
{
    if u < 0x8000_0000 {
        u as i32
    } else {
        (u as i64 - 0x1_0000_0000) as i32
    }
}

/// Appends a 16-bit integer.
pub fn push_u16(buf: &mut Vec<u8>, x: u16)
    ensures
        final(buf)@ == old(buf)@ + u16_bytes(x),
{
    buf.push((x % 0x100) as u8);
    buf.push((x / 0x100) as u8);
    proof {
        assert(buf@ =~= old(buf)@ + u16_bytes(x));
    }
}

/// Appends a 32-bit integer.
pub fn push_u32(buf: &mut Vec<u8>, x: u32)
    ensures
        final(buf)@ == old(buf)@ + u32_bytes(x),
{
    buf.push((x % 0x100) as u8);
    buf.push((x / 0x100 % 0x100) as u8);
    buf.push((x / 0x1_0000 % 0x100) as u8);
    buf.push((x / 0x100_0000) as u8);
    proof {
        assert(buf@ =~= old(buf)@ + u32_bytes(x));
    }
}

/// Appends a signed 32-bit integer.
pub fn push_i32(buf: &mut Vec<u8>, x: i32)
    ensures
        final(buf)@ == old(buf)@ + i32_bytes(x),
{
    let pattern: u32 = if x >= 0 {
        x as u32
    } else {
        (x as i64 + 0x1_0000_0000) as u32
    };
    push_u32(buf, pattern);
}

/// Reading back a written 16-bit integer gives the integer.
pub proof fn u16_round_trip(before: Seq<u8>, x: u16, after: Seq<u8>)
    ensures
        u16_at(before + u16_bytes(x) + after, before.len() as int) == x,
{
}

/// Reading back a written 32-bit integer gives the integer.
pub proof fn u32_round_trip(before: Seq<u8>, x: u32, after: Seq<u8>)
    ensures
        u32_at(before + u32_bytes(x) + after, before.len() as int) == x,
{
}

/// Reading back a written signed 32-bit integer gives the integer.
pub proof fn i32_round_trip(before: Seq<u8>, x: i32, after: Seq<u8>)
    ensures
        i32_at(before + i32_bytes(x) + after, before.len() as int) == x,
{
    u32_round_trip(before, pattern32(x), after);
}

} // verus!
