//! What a device says it can do.

use vstd::prelude::*;

verus! {

/// The device captures video.
pub const V4L2_CAP_VIDEO_CAPTURE: u32 = 0x0000_0001;

/// The device supports the streaming ioctls.
pub const V4L2_CAP_STREAMING: u32 = 0x0400_0000;

/// A snapshot of the device's answer to the capability query.
#[derive(Clone, Copy, Debug, PartialEq, Eq)]
pub struct Capability {
    pub driver: [u8; 16],
    pub card: [u8; 32],
    pub bus_info: [u8; 32],
    pub capability_bits: u32,
}

/// The capabilities a capture session needs and a device lacks.
#[derive(Clone, Copy, Debug, PartialEq, Eq)]
pub struct MissingCapabilities {
    pub video_capture: bool,
    pub streaming: bool,
}

impl MissingCapabilities {
    pub open spec fn any_spec(self) -> bool {
        self.video_capture || self.streaming
    }

    /// Whether anything is missing.
    pub fn any(&self) -> (b: bool)
        ensures
            b == self.any_spec(),
    {
        self.video_capture || self.streaming
    }
}

/// Whether `bits` has any bit of `mask` set.
pub open spec fn has_bit(bits: u32, mask: u32) -> bool {
    bits & mask != 0
}

/// What a device with capability bits `bits` lacks.
pub open spec fn missing_of(bits: u32) -> MissingCapabilities {
    MissingCapabilities {
        video_capture: !has_bit(bits, V4L2_CAP_VIDEO_CAPTURE),
        streaming: !has_bit(bits, V4L2_CAP_STREAMING),
    }
}

impl Capability {
    /// Whether the device captures video.
    pub fn supports_video_capture(&self) -> (b: bool)
        ensures
            b == has_bit(self.capability_bits, V4L2_CAP_VIDEO_CAPTURE),
    {
        self.capability_bits & V4L2_CAP_VIDEO_CAPTURE != 0
    }

    /// Whether the device supports streaming I/O.
    pub fn supports_streaming(&self) -> (b: bool)
        ensures
            b == has_bit(self.capability_bits, V4L2_CAP_STREAMING),
    {
        self.capability_bits & V4L2_CAP_STREAMING != 0
    }

    /// The required capabilities that the device lacks.
    pub fn missing(&self) -> (m: MissingCapabilities)
        ensures
            m == missing_of(self.capability_bits),
    {
        MissingCapabilities {
            video_capture: !self.supports_video_capture(),
            streaming: !self.supports_streaming(),
        }
    }
}

} // verus!
