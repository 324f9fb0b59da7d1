//! The ways in which a capture session fails.

use vstd::prelude::*;
use crate::capability::MissingCapabilities;
use crate::command::Command;

verus! {

/// The device could not be opened.
#[derive(Clone, Copy, Debug, PartialEq, Eq)]
pub struct OpenError {
    pub os_errno: i32,
}

/// An ioctl returned a negative result.
#[derive(Clone, Copy, Debug, PartialEq, Eq)]
pub struct IoctlError {
    pub command: Command,
    pub os_errno: i32,
}

/// A buffer could not be mapped.
#[derive(Clone, Copy, Debug, PartialEq, Eq)]
pub struct MapError {
    pub os_errno: i32,
}

/// The wait for a filled buffer ended without one.
#[derive(Clone, Copy, Debug, PartialEq, Eq)]
pub enum WaitError {
    /// The bound elapsed with nothing to read.
    Timeout,
    /// The wait itself failed.
    Io { os_errno: i32 },
}

/// The frame could not be written out.
#[derive(Clone, Copy, Debug, PartialEq, Eq)]
pub struct WriteError {
    pub os_errno: i32,
}

/// The first failure of a session.
#[derive(Clone, Copy, Debug, PartialEq, Eq)]
pub enum SessionError {
    Open(OpenError),
    Ioctl(IoctlError),
    Mapping(MapError),
    Wait(WaitError),
    Write(WriteError),
    /// The device lacks a required capability and the session is strict
    /// about it.
    MissingCapabilities(MissingCapabilities),
    /// The device granted no buffer.
    NoBuffers,
    /// The device handed back a buffer index that the pool does not hold.
    UnknownBuffer { index: u32 },
    /// The event does not answer the action that the session was waiting
    /// for.
    UnexpectedEvent,
}

} // verus!
