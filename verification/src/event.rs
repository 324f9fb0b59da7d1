//! What the caller reports back after it has performed an action.

use vstd::prelude::*;
use crate::capability::Capability;
use crate::command::Command;
use crate::error::IoctlError;
use crate::error::SessionError;
use crate::format::Format;
use crate::pool::BufferInfo;
use crate::pool::RequestedBuffers;

verus! {

/// The address that a failed mapping returns.
pub const MAP_FAILED: usize = usize::MAX;

/// The payload of an ioctl as the device left it.
#[derive(Clone, Copy, Debug, PartialEq, Eq)]
pub enum Reply {
    /// The command leaves nothing to read.
    Nothing,
    Capability(Capability),
    Format(Format),
    Buffers(RequestedBuffers),
    Buffer(BufferInfo),
}

/// The result of one action.
#[derive(Clone, Copy, Debug, PartialEq, Eq)]
pub enum Event {
    /// The open call returned `ret`: a descriptor, or a negative value with
    /// the cause in `os_errno`.
    Opened { ret: i32, os_errno: i32 },
    /// The ioctl returned `ret`, negative on failure with the cause in
    /// `os_errno`, and left `reply` in its payload.
    IoctlReturned { ret: i32, os_errno: i32, reply: Reply },
    /// The map call returned `address`, which is `MAP_FAILED` on failure
    /// with the cause in `os_errno`.
    Mapped { address: usize, os_errno: i32 },
    /// The unmap call returned. Its result does not matter.
    Unmapped,
    /// The wait returned `ret`: the number of ready descriptors, zero when
    /// the bound elapsed, negative on failure with the cause in `os_errno`.
    WaitReturned { ret: i32, os_errno: i32 },
    /// The caller is done with the frame. `ret` is negative if it could not
    /// write it out, with the cause in `os_errno`.
    FrameConsumed { ret: i32, os_errno: i32 },
    /// The close call returned. Its result does not matter.
    Closed,
}

/// What an event says went wrong with the ioctl `command`: the ioctl's own
/// failure, or that the event is no ioctl result at all.
pub open spec fn ioctl_failure(command: Command, event: Event) -> Option<SessionError> {
    match event {
        Event::IoctlReturned { ret, os_errno, reply } => if ret < 0 {
            Some(SessionError::Ioctl(IoctlError { command, os_errno }))
        } else {
            None
        },
        _ => Some(SessionError::UnexpectedEvent),
    }
}

/// Whether an event reports an ioctl that succeeded.
pub open spec fn ioctl_succeeded(event: Event) -> bool {
    event matches Event::IoctlReturned { ret, os_errno, reply } && ret >= 0
}

/// The payload that an event carries, `Nothing` where it carries none.
pub open spec fn reply_of(event: Event) -> Reply {
    match event {
        Event::IoctlReturned { ret, os_errno, reply } => reply,
        _ => Reply::Nothing,
    }
}

impl Event {
    /// Computes `ioctl_failure(command, *self)`.
    pub fn failure_of(&self, command: Command) -> (failure: Option<SessionError>)
        ensures
            failure == ioctl_failure(command, *self),
    {
        match self {
            Event::IoctlReturned { ret, os_errno, reply } => {
                if *ret < 0 {
                    Some(SessionError::Ioctl(IoctlError { command, os_errno: *os_errno }))
                } else {
                    None
                }
            },
            _ => Some(SessionError::UnexpectedEvent),
        }
    }

    /// Computes `reply_of(*self)`.
    pub fn reply(&self) -> (reply: Reply)
        ensures
            reply == reply_of(*self),
    {
        match self {
            Event::IoctlReturned { ret, os_errno, reply } => *reply,
            _ => Reply::Nothing,
        }
    }
}

} // verus!
