//! What the session asks its caller to do.

use vstd::prelude::*;
use crate::capability::MissingCapabilities;
use crate::command::Command;
use crate::error::SessionError;
use crate::format::Format;
use crate::pool::RequestedBuffers;

verus! {

/// The payload of an ioctl as the caller is to fill it in.
#[derive(Clone, Copy, Debug, PartialEq, Eq)]
pub enum Request {
    QueryCapabilities,
    SetFormat(Format),
    GetFormat { buffer_type: u32 },
    RequestBuffers(RequestedBuffers),
    QueryBuffer { index: u32, buffer_type: u32, memory_type: u32 },
    QueueBuffer { index: u32, buffer_type: u32, memory_type: u32 },
    DequeueBuffer { buffer_type: u32, memory_type: u32 },
    StreamOn { buffer_type: u32 },
    StreamOff { buffer_type: u32 },
}

impl Request {
    /// The command that carries this payload.
    pub open spec fn command_spec(self) -> Command {
        match self {
            Request::QueryCapabilities => Command::QueryCapabilities,
            Request::SetFormat(_) => Command::SetFormat,
            Request::GetFormat { .. } => Command::GetFormat,
            Request::RequestBuffers(_) => Command::RequestBuffers,
            Request::QueryBuffer { .. } => Command::QueryBuffer,
            Request::QueueBuffer { .. } => Command::QueueBuffer,
            Request::DequeueBuffer { .. } => Command::DequeueBuffer,
            Request::StreamOn { .. } => Command::StreamOn,
            Request::StreamOff { .. } => Command::StreamOff,
        }
    }

    /// Computes `command_spec()`.
    pub fn command(&self) -> (command: Command)
        ensures
            command == self.command_spec(),
    {
        match self {
            Request::QueryCapabilities => Command::QueryCapabilities,
            Request::SetFormat(_) => Command::SetFormat,
            Request::GetFormat { .. } => Command::GetFormat,
            Request::RequestBuffers(_) => Command::RequestBuffers,
            Request::QueryBuffer { .. } => Command::QueryBuffer,
            Request::QueueBuffer { .. } => Command::QueueBuffer,
            Request::DequeueBuffer { .. } => Command::DequeueBuffer,
            Request::StreamOn { .. } => Command::StreamOn,
            Request::StreamOff { .. } => Command::StreamOff,
        }
    }
}

/// One step for the caller to perform. Its result comes back as an event.
#[derive(Clone, Copy, Debug, PartialEq, Eq)]
pub enum Action {
    /// Open the device for reading and writing, without blocking.
    OpenDevice,
    /// Issue the ioctl numbered `code` on `fd` with `request` as its
    /// payload.
    Ioctl { fd: i32, code: u64, request: Request },
    /// Map `length` bytes at `offset` on `fd`, readable, writable and
    /// shared.
    MapBuffer { fd: i32, length: u32, offset: u32 },
    /// Unmap `length` bytes at `base_address`.
    UnmapBuffer { base_address: usize, length: u32 },
    /// Wait until `fd` is readable, for `timeout_ms` milliseconds at most.
    WaitReadable { fd: i32, timeout_ms: i32 },
    /// The `length` bytes at `base_address` hold a frame. They stay valid
    /// until the caller reports that it is done with them.
    DeliverFrame { index: u32, base_address: usize, length: u32 },
    /// Close `fd`.
    CloseDevice { fd: i32 },
    /// Nothing is left to do. Every mapping is released and the device is
    /// closed; the session's first failure, if there was one, is the result.
    Finish(Result<(), SessionError>),
}

/// Something the caller may want to tell its user.
#[derive(Clone, Copy, Debug, PartialEq, Eq)]
pub enum Notice {
    /// The device lacks required capabilities; the session goes on
    /// regardless.
    MissingCapabilities(MissingCapabilities),
    /// Device and client have settled on a format.
    FormatNegotiated(Format),
    /// The device granted this many buffers.
    BuffersGranted(u32),
}

/// What one event leads to.
#[derive(Clone, Copy, Debug, PartialEq, Eq)]
pub struct Step {
    /// The action to perform next.
    pub action: Action,
    /// What the event brought to light.
    pub notice: Option<Notice>,
}

} // verus!
