//! A capture session for Video4Linux2 devices, written without I/O.
//!
//! The session decides which system call comes next and what its result
//! means; the caller performs the call and hands the result back.

pub mod action;
pub mod capability;
pub mod command;
pub mod error;
pub mod event;
pub mod format;
pub mod fourcc;
pub mod ioctl;
pub mod laws;
pub mod pool;
pub mod session;
pub mod state;
