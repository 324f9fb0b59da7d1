//! Encoding of ioctl command numbers, and the V4L2 commands of a capture
//! session.
//!
//! A command number packs four fields: the sequence number in bits 0 to 7,
//! the type character in bits 8 to 15, the size of the payload in bits 16 to
//! 29 and the direction of the transfer in bits 30 and 31.

use vstd::prelude::*;

verus! {

pub const IOC_NRBITS: u8 = 8;

pub const IOC_TYPEBITS: u8 = 8;

pub const IOC_SIZEBITS: u8 = 14;

pub const IOC_NRSHIFT: u8 = 0;

pub const IOC_TYPESHIFT: u8 = IOC_NRSHIFT + IOC_NRBITS;

pub const IOC_SIZESHIFT: u8 = IOC_TYPESHIFT + IOC_TYPEBITS;

pub const IOC_DIRSHIFT: u8 = IOC_SIZESHIFT + IOC_SIZEBITS;

/// No payload is transferred.
pub const IOC_NONE: u8 = 0;

/// The caller writes the payload, the device reads it.
pub const IOC_WRITE: u8 = 1;

/// The device writes the payload, the caller reads it.
pub const IOC_READ: u8 = 2;

/// The type character of every V4L2 command.
pub const V4L2_IOC_TYPE: u8 = 0x56;

/// The command number as the bitwise union of its shifted fields. This is
/// what `ioc` computes for every input, also where a field is too wide for
/// its place and spills into the next one.
pub open spec fn ioc_bits(dir: u8, ty: u8, nr: u8, size: usize) -> u64 {
    ((dir as u64) << 30) | ((ty as u64) << 8) | ((nr as u64) << 0) | ((size as u64) << 16)
}

/// Whether direction and size fit the two and fourteen bits they are given.
pub open spec fn ioc_fits(dir: u8, size: usize) -> bool {
    dir < 4 && size < 0x4000
}

/// The command number of fields that fit, as a sum of place values.
pub open spec fn ioc_value(dir: u8, ty: u8, nr: u8, size: usize) -> int {
    (dir as int) * 0x4000_0000 + (size as int) * 0x1_0000 + (ty as int) * 0x100 + (nr as int)
}

/// Where the fields fit, the union of the shifted fields is their sum, and
/// each field can be read back from its place.
pub proof fn lemma_ioc_fields(dir: u8, ty: u8, nr: u8, size: usize)
    requires
        ioc_fits(dir, size),
    ensures
        ioc_bits(dir, ty, nr, size) as int == ioc_value(dir, ty, nr, size),
        ioc_bits(dir, ty, nr, size) & 0xff == nr as u64,
        (ioc_bits(dir, ty, nr, size) >> 8) & 0xff == ty as u64,
        (ioc_bits(dir, ty, nr, size) >> 16) & 0x3fff == size as u64,
        ioc_bits(dir, ty, nr, size) >> 30 == dir as u64,
{
    let d = dir as u64;
    let t = ty as u64;
    let n = nr as u64;
    let s = size as u64;
    let code = (d << 30) | (t << 8) | (n << 0) | (s << 16);
    assert(code as int == d * 0x4000_0000 + s * 0x1_0000 + t * 0x100 + n && code & 0xff == n && (code
        >> 8) & 0xff == t && (code >> 16) & 0x3fff == s && code >> 30 == d) by (bit_vector)
        requires
            d < 4,
            t < 0x100,
            n < 0x100,
            s < 0x4000,
            code == (d << 30) | (t << 8) | (n << 0) | (s << 16),
    ;
}

/// Builds a command number from direction, type character, sequence number
/// and payload size.
pub fn ioc(dir: u8, ty: u8, nr: u8, size: usize) -> (code: u64)
    ensures
        code == ioc_bits(dir, ty, nr, size),
        ioc_fits(dir, size) ==> code as int == ioc_value(dir, ty, nr, size),
{
    proof {
        if ioc_fits(dir, size) {
            lemma_ioc_fields(dir, ty, nr, size);
        }
    }
    ((dir as u64) << 30) | ((ty as u64) << 8) | ((nr as u64) << 0) | ((size as u64) << 16)
}

/// The number of a command that transfers nothing.
pub fn io(ty: u8, nr: u8) -> (code: u64)
    ensures
        code == ioc_bits(IOC_NONE, ty, nr, 0),
        code as int == ioc_value(IOC_NONE, ty, nr, 0),
{
    ioc(IOC_NONE, ty, nr, 0)
}

/// The number of a command whose payload the device fills in.
pub fn ior(ty: u8, nr: u8, size: usize) -> (code: u64)
    ensures
        code == ioc_bits(IOC_READ, ty, nr, size),
        size < 0x4000 ==> code as int == ioc_value(IOC_READ, ty, nr, size),
{
    ioc(IOC_READ, ty, nr, size)
}

/// The number of a command whose payload the caller fills in.
pub fn iow(ty: u8, nr: u8, size: usize) -> (code: u64)
    ensures
        code == ioc_bits(IOC_WRITE, ty, nr, size),
        size < 0x4000 ==> code as int == ioc_value(IOC_WRITE, ty, nr, size),
{
    ioc(IOC_WRITE, ty, nr, size)
}

/// The number of a command whose payload travels both ways.
pub fn iowr(ty: u8, nr: u8, size: usize) -> (code: u64)
    ensures
        code == ioc_bits(IOC_READ | IOC_WRITE, ty, nr, size),
        code == ioc_bits(3, ty, nr, size),
        size < 0x4000 ==> code as int == ioc_value(3, ty, nr, size),
{
    assert(IOC_READ | IOC_WRITE == 3u8) by (bit_vector);
    ioc(IOC_READ | IOC_WRITE, ty, nr, size)
}

} // verus!
