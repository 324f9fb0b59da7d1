//! Four-character pixel codes.

use vstd::prelude::*;

verus! {

/// The value of a four-character code: `a` is the least significant byte,
/// `d` the most significant one.
pub open spec fn fourcc_value(a: u8, b: u8, c: u8, d: u8) -> int {
    a as int + 0x100 * (b as int) + 0x1_0000 * (c as int) + 0x100_0000 * (d as int)
}

/// Packs four characters into the 32-bit pixel code that V4L2 uses.
pub fn v4l2_fourcc(a: u8, b: u8, c: u8, d: u8) -> (code: u32)
    ensures
        code as int == fourcc_value(a, b, c, d),
        code == (a as u32) | ((b as u32) << 8) | ((c as u32) << 16) | ((d as u32) << 24),
{
    let code: u32 = (a as u32) | ((b as u32) << 8) | ((c as u32) << 16) | ((d as u32) << 24);
    assert(((a as u32) | ((b as u32) << 8) | ((c as u32) << 16) | ((d as u32) << 24)) as int
        == a as int + 0x100 * (b as int) + 0x1_0000 * (c as int) + 0x100_0000 * (d as int))
        by (bit_vector);
    code
}

} // verus!
