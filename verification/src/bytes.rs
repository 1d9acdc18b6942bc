//! Little-endian scalar readers over a byte buffer.
//!
//! Every multi-byte field of a BSP file is stored little-endian regardless
//! of the host. Each reader is verified against a spec function giving the
//! mathematical value of the bytes.

use vstd::prelude::*;

verus! {

pub open spec fn spec_le_u16(b: Seq<u8>, off: int) -> u16
    recommends
        0 <= off,
        off + 2 <= b.len(),
{
    (b[off] as int + b[off + 1] as int * 0x100) as u16
}

pub open spec fn spec_le_i16(b: Seq<u8>, off: int) -> i16 {
    spec_le_u16(b, off) as i16
}

pub open spec fn spec_le_u32(b: Seq<u8>, off: int) -> u32
    recommends
        0 <= off,
        off + 4 <= b.len(),
{
    (b[off] as int + b[off + 1] as int * 0x100 + b[off + 2] as int * 0x1_0000 + b[off
        + 3] as int * 0x100_0000) as u32
}

pub open spec fn spec_le_i32(b: Seq<u8>, off: int) -> i32 {
    spec_le_u32(b, off) as i32
}

pub fn le_u16(buf: &Vec<u8>, off: usize) -> (r: u16)
    requires
        off + 2 <= buf@.len(),
    ensures
        r == spec_le_u16(buf@, off as int),
{
    let _buf_len: usize = buf.len();
    let b0 = buf[off] as u16;
    let b1 = buf[off + 1] as u16;
    b0 + b1 * 0x100
}

pub fn le_i16(buf: &Vec<u8>, off: usize) -> (r: i16)
    requires
        off + 2 <= buf@.len(),
    ensures
        r == spec_le_i16(buf@, off as int),
{
    le_u16(buf, off) as i16
}

pub fn le_u32(buf: &Vec<u8>, off: usize) -> (r: u32)
    requires
        off + 4 <= buf@.len(),
    ensures
        r == spec_le_u32(buf@, off as int),
{
    let _buf_len: usize = buf.len();
    let b0 = buf[off] as u32;
    let b1 = buf[off + 1] as u32;
    let b2 = buf[off + 2] as u32;
    let b3 = buf[off + 3] as u32;
    b0 + b1 * 0x100 + b2 * 0x1_0000 + b3 * 0x100_0000
}

pub fn le_i32(buf: &Vec<u8>, off: usize) -> (r: i32)
    requires
        off + 4 <= buf@.len(),
    ensures
        r == spec_le_i32(buf@, off as int),
{
    le_u32(buf, off) as i32
}

} // verus!
