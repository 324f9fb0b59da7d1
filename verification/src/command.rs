//! The ioctl commands of a capture session and their numbers.
//!
//! A command's number holds the size of its payload, and the payload
//! structures are laid out by the platform's C ABI. The sizes therefore come
//! from the caller, as an `Abi`.

use vstd::prelude::*;
use crate::ioctl::IOC_READ;
use crate::ioctl::IOC_WRITE;
use crate::ioctl::V4L2_IOC_TYPE;
use crate::ioctl::ioc_bits;
use crate::ioctl::ioc_fits;
use crate::ioctl::ioc_value;
use crate::ioctl::ior;
use crate::ioctl::iow;
use crate::ioctl::iowr;

verus! {

/// The sizes in bytes of the payload structures, as the platform lays them
/// out.
#[derive(Clone, Copy, Debug, PartialEq, Eq)]
pub struct Abi {
    /// The capability structure.
    pub capability_size: usize,
    /// The format structure.
    pub format_size: usize,
    /// The structure that requests buffers.
    pub request_buffers_size: usize,
    /// The structure that describes one buffer.
    pub buffer_size: usize,
    /// The C integer that names a buffer type.
    pub buffer_type_size: usize,
}

impl Abi {
    /// The sizes on Linux with 64-bit pointers.
    pub open spec fn lp64_spec() -> Abi {
        Abi {
            capability_size: 104,
            format_size: 208,
            request_buffers_size: 20,
            buffer_size: 88,
            buffer_type_size: 4,
        }
    }

    /// Builds `lp64_spec()`.
    pub fn lp64() -> (abi: Self)
        ensures
            abi == Self::lp64_spec(),
    {
        Abi {
            capability_size: 104,
            format_size: 208,
            request_buffers_size: 20,
            buffer_size: 88,
            buffer_type_size: 4,
        }
    }

    /// Whether every size fits the fourteen bits that a command number has
    /// for it.
    pub open spec fn fits(self) -> bool {
        &&& self.capability_size < 0x4000
        &&& self.format_size < 0x4000
        &&& self.request_buffers_size < 0x4000
        &&& self.buffer_size < 0x4000
        &&& self.buffer_type_size < 0x4000
    }
}

/// An ioctl command of the V4L2 streaming protocol.
#[derive(Clone, Copy, Debug, PartialEq, Eq)]
pub enum Command {
    /// Query the device's capabilities.
    QueryCapabilities,
    /// Read the current format.
    GetFormat,
    /// Propose a format.
    SetFormat,
    /// Reserve buffers.
    RequestBuffers,
    /// Ask where one buffer lies and how long it is.
    QueryBuffer,
    /// Hand a buffer to the device for filling.
    QueueBuffer,
    /// Take a filled buffer back.
    DequeueBuffer,
    /// Start streaming.
    StreamOn,
    /// Stop streaming.
    StreamOff,
}

impl Command {
    /// The sequence number of the command.
    pub open spec fn number(self) -> u8 {
        match self {
            Command::QueryCapabilities => 0,
            Command::GetFormat => 4,
            Command::SetFormat => 5,
            Command::RequestBuffers => 8,
            Command::QueryBuffer => 9,
            Command::QueueBuffer => 15,
            Command::DequeueBuffer => 17,
            Command::StreamOn => 18,
            Command::StreamOff => 19,
        }
    }

    /// The direction in which the payload travels.
    pub open spec fn direction(self) -> u8 {
        match self {
            Command::QueryCapabilities => IOC_READ,
            Command::StreamOn | Command::StreamOff => IOC_WRITE,
            _ => 3,
        }
    }

    /// The size of the command's payload.
    pub open spec fn payload_size(self, abi: Abi) -> usize {
        match self {
            Command::QueryCapabilities => abi.capability_size,
            Command::GetFormat | Command::SetFormat => abi.format_size,
            Command::RequestBuffers => abi.request_buffers_size,
            Command::QueryBuffer | Command::QueueBuffer | Command::DequeueBuffer => abi.buffer_size,
            Command::StreamOn | Command::StreamOff => abi.buffer_type_size,
        }
    }

    /// The command's number under `abi`.
    pub open spec fn code_spec(self, abi: Abi) -> u64 {
        ioc_bits(self.direction(), V4L2_IOC_TYPE, self.number(), self.payload_size(abi))
    }

    /// Computes the command's number under `abi`.
    pub fn code(&self, abi: &Abi) -> (code: u64)
        ensures
            code == self.code_spec(*abi),
            abi.fits() ==> code as int == ioc_value(
                self.direction(),
                V4L2_IOC_TYPE,
                self.number(),
                self.payload_size(*abi),
            ),
    {
        match self {
            Command::QueryCapabilities => ior(V4L2_IOC_TYPE, 0, abi.capability_size),
            Command::GetFormat => iowr(V4L2_IOC_TYPE, 4, abi.format_size),
            Command::SetFormat => iowr(V4L2_IOC_TYPE, 5, abi.format_size),
            Command::RequestBuffers => iowr(V4L2_IOC_TYPE, 8, abi.request_buffers_size),
            Command::QueryBuffer => iowr(V4L2_IOC_TYPE, 9, abi.buffer_size),
            Command::QueueBuffer => iowr(V4L2_IOC_TYPE, 15, abi.buffer_size),
            Command::DequeueBuffer => iowr(V4L2_IOC_TYPE, 17, abi.buffer_size),
            Command::StreamOn => iow(V4L2_IOC_TYPE, 18, abi.buffer_type_size),
            Command::StreamOff => iow(V4L2_IOC_TYPE, 19, abi.buffer_type_size),
        }
    }
}

/// Under an ABI whose sizes fit, a command's number is the sum of the place
/// values of its fields.
pub proof fn lemma_code_value(command: Command, abi: Abi)
    requires
        abi.fits(),
    ensures
        command.code_spec(abi) as int == ioc_value(
            command.direction(),
            V4L2_IOC_TYPE,
            command.number(),
            command.payload_size(abi),
        ),
{
    crate::ioctl::lemma_ioc_fields(
        command.direction(),
        V4L2_IOC_TYPE,
        command.number(),
        command.payload_size(abi),
    );
}

/// Under an ABI whose sizes fit, two commands with the same number are the
/// same command.
pub proof fn lemma_codes_distinct(a: Command, b: Command, abi: Abi)
    requires
        abi.fits(),
        a.code_spec(abi) == b.code_spec(abi),
    ensures
        a == b,
{
    crate::ioctl::lemma_ioc_fields(a.direction(), V4L2_IOC_TYPE, a.number(), a.payload_size(abi));
    crate::ioctl::lemma_ioc_fields(b.direction(), V4L2_IOC_TYPE, b.number(), b.payload_size(abi));
    assert(ioc_fits(a.direction(), a.payload_size(abi)));
    assert(a.number() == b.number());
}

} // verus!
