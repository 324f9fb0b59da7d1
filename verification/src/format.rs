//! The capture format that client and device agree on.

use vstd::prelude::*;
use crate::fourcc::v4l2_fourcc;
use crate::fourcc::fourcc_value;

verus! {

/// The buffer type of single-planar video capture.
pub const BUF_TYPE_VIDEO_CAPTURE: u32 = 1;

/// The memory type of buffers that the kernel owns and the client maps.
pub const MEMORY_MMAP: u32 = 1;

/// The field order that leaves the choice to the device.
pub const FIELD_ANY: u32 = 0;

/// A capture format. The client proposes one; what the device answers
/// replaces it.
#[derive(Clone, Copy, Debug, PartialEq, Eq)]
pub struct Format {
    pub buffer_type: u32,
    pub width: u32,
    pub height: u32,
    /// The four-character code of the pixel encoding.
    pub pixel_encoding: u32,
    pub field_order: u32,
}

impl Format {
    /// A format for single-planar video capture.
    pub fn capture(width: u32, height: u32, pixel_encoding: u32, field_order: u32) -> (format: Self)
        ensures
            format == (Format {
                buffer_type: BUF_TYPE_VIDEO_CAPTURE,
                width,
                height,
                pixel_encoding,
                field_order,
            }),
    {
        Format { buffer_type: BUF_TYPE_VIDEO_CAPTURE, width, height, pixel_encoding, field_order }
    }

    /// The format a session asks for by default: 1280 by 720 pixels of
    /// Motion-JPEG, in whatever field order the device prefers.
    pub open spec fn standard_spec() -> Format {
        Format {
            buffer_type: BUF_TYPE_VIDEO_CAPTURE,
            width: 1280,
            height: 720,
            pixel_encoding: fourcc_value(0x4d, 0x4a, 0x50, 0x47) as u32,
            field_order: FIELD_ANY,
        }
    }

    /// Builds `standard_spec()`.
    pub fn standard() -> (format: Self)
        ensures
            format == Self::standard_spec(),
    {
        Format::capture(1280, 720, v4l2_fourcc(0x4d, 0x4a, 0x50, 0x47), FIELD_ANY)
    }
}

} // verus!
