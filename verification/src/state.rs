//! The capture session as a state machine over plain values.
//!
//! A state names the one action that the session waits for; `next` says
//! which state an event leads to. The order of a session that meets no
//! failure is: open the device, query its capabilities, set and read back the
//! format, request buffers, then for each granted buffer query, map and
//! queue it, start streaming, wait for a frame, dequeue it, hand it out, stop
//! streaming, unmap every buffer, close the device. A failure cuts this
//! short: the session unmaps what is mapped, closes the device, and finishes
//! with the failure.

use vstd::prelude::*;
use crate::action::Action;
use crate::action::Notice;
use crate::action::Request;
use crate::capability::Capability;
use crate::capability::missing_of;
use crate::command::Abi;
use crate::command::Command;
use crate::error::MapError;
use crate::error::OpenError;
use crate::error::SessionError;
use crate::error::WaitError;
use crate::error::WriteError;
use crate::event::Event;
use crate::event::MAP_FAILED;
use crate::event::Reply;
use crate::event::ioctl_failure;
use crate::event::ioctl_succeeded;
use crate::event::reply_of;
use crate::format::BUF_TYPE_VIDEO_CAPTURE;
use crate::format::Format;
use crate::format::MEMORY_MMAP;
use crate::pool::BufferInfo;
use crate::pool::MappedBuffer;
use crate::pool::RequestedBuffers;
use crate::pool::in_index_order;

verus! {

/// Whether the device is delivering frames.
#[derive(Clone, Copy, Debug, PartialEq, Eq)]
pub enum StreamState {
    Idle,
    Streaming,
}

/// What to do about a device that lacks a required capability.
#[derive(Clone, Copy, Debug, PartialEq, Eq)]
pub enum CapabilityPolicy {
    /// Report it and go on.
    Lenient,
    /// Fail the session.
    Strict,
}

/// What a session is to do.
#[derive(Clone, Copy, Debug, PartialEq, Eq)]
pub struct Config {
    /// The format to propose.
    pub desired: Format,
    /// The number of buffers to ask for.
    pub buffer_count: u32,
    /// The longest time to wait for a frame, in milliseconds.
    pub timeout_ms: u32,
    pub policy: CapabilityPolicy,
    pub abi: Abi,
}

impl Config {
    /// The default session under `abi`: the standard format, sixty buffers,
    /// a wait of one second, and leniency about capabilities.
    pub open spec fn standard_spec(abi: Abi) -> Config {
        Config {
            desired: Format::standard_spec(),
            buffer_count: 60,
            timeout_ms: 1000,
            policy: CapabilityPolicy::Lenient,
            abi,
        }
    }

    /// Builds `standard_spec(abi)`.
    pub fn standard(abi: Abi) -> (config: Self)
        ensures
            config == Self::standard_spec(abi),
    {
        Config {
            desired: Format::standard(),
            buffer_count: 60,
            timeout_ms: 1000,
            policy: CapabilityPolicy::Lenient,
            abi,
        }
    }
}

/// The action that a session waits for.
#[derive(Clone, Copy, Debug, PartialEq, Eq)]
pub enum Phase {
    Opening,
    QueryingCapabilities,
    SettingFormat,
    ReadingFormat,
    RequestingBuffers,
    QueryingBuffer,
    MappingBuffer,
    QueueingBuffer,
    StartingStream,
    Waiting,
    Dequeuing,
    Delivering,
    StoppingStream,
    Unmapping,
    Closing,
    Finished,
}

impl Phase {
    /// Whether the session is giving back what it holds.
    pub open spec fn is_release(self) -> bool {
        self is Unmapping || self is Closing || self is Finished
    }

    /// Whether the session has yet to learn the format.
    pub open spec fn is_negotiation(self) -> bool {
        self is Opening || self is QueryingCapabilities || self is SettingFormat
            || self is ReadingFormat
    }

    /// Whether the session holds a complete pool and works with it.
    pub open spec fn is_capture(self) -> bool {
        self is StartingStream || self is Waiting || self is Dequeuing || self is Delivering
            || self is StoppingStream
    }
}

/// The state of a session.
pub struct SessionState {
    pub config: Config,
    pub phase: Phase,
    /// The device descriptor. It is open in every phase but `Opening` and
    /// `Finished`.
    pub fd: i32,
    /// The device's capabilities, once it has told them.
    pub capability: Option<Capability>,
    /// The format that the device settled on, once it has.
    pub negotiated: Option<Format>,
    /// The number of buffers that the device granted.
    pub granted: u32,
    /// The live mappings: those made and not yet handed out for unmapping.
    pub pool: Seq<MappedBuffer>,
    /// Length and offset of the buffer that is being mapped.
    pub probe: BufferInfo,
    pub stream: StreamState,
    /// The mapping that holds the frame being delivered.
    pub frame: MappedBuffer,
    /// The first failure.
    pub error: Option<SessionError>,
}

/// The bound handed to the wait: the configured one, or the largest that the
/// wait can take if that is smaller.
pub open spec fn wait_bound(timeout_ms: u32) -> i32 {
    if timeout_ms > i32::MAX {
        i32::MAX
    } else {
        timeout_ms as i32
    }
}

/// The result that a session with first failure `error` finishes with.
pub open spec fn outcome(error: Option<SessionError>) -> Result<(), SessionError> {
    match error {
        Some(e) => Err(e),
        None => Ok(()),
    }
}

impl SessionState {
    /// The state of a session that has done nothing yet.
    pub open spec fn initial(config: Config) -> SessionState {
        SessionState {
            config,
            phase: Phase::Opening,
            fd: -1i32,
            capability: None,
            negotiated: None,
            granted: 0,
            pool: Seq::empty(),
            probe: BufferInfo { index: 0, length: 0, offset: 0 },
            stream: StreamState::Idle,
            frame: MappedBuffer { index: 0, base_address: 0, length: 0 },
            error: None,
        }
    }

    /// Whether the device descriptor is open.
    pub open spec fn device_open(self) -> bool {
        !(self.phase is Opening) && !(self.phase is Finished)
    }

    /// What holds of every state that a session can be in.
    pub open spec fn wf(self) -> bool {
        &&& self.pool.len() <= self.granted
        &&& in_index_order(self.pool)
        &&& self.error is Some ==> self.phase.is_release()
        &&& self.phase.is_negotiation() ==> self.negotiated is None
        &&& self.error is None && !self.phase.is_negotiation() ==> self.negotiated is Some
        &&& match self.phase {
            Phase::Opening | Phase::QueryingCapabilities | Phase::SettingFormat
            | Phase::ReadingFormat | Phase::RequestingBuffers => {
                &&& self.pool.len() == 0
                &&& self.granted == 0
                &&& self.stream is Idle
            },
            Phase::QueryingBuffer | Phase::MappingBuffer => {
                &&& self.pool.len() < self.granted
                &&& self.stream is Idle
            },
            Phase::QueueingBuffer => {
                &&& 0 < self.pool.len()
                &&& self.stream is Idle
            },
            Phase::StartingStream => {
                &&& 0 < self.pool.len() == self.granted
                &&& self.stream is Idle
            },
            Phase::Waiting | Phase::Dequeuing | Phase::StoppingStream => {
                &&& 0 < self.pool.len() == self.granted
                &&& self.stream is Streaming
            },
            Phase::Delivering => {
                &&& 0 < self.pool.len() == self.granted
                &&& self.stream is Streaming
                &&& self.frame.index < self.pool.len()
                &&& self.pool[self.frame.index as int] == self.frame
            },
            Phase::Unmapping => 0 < self.pool.len(),
            Phase::Closing | Phase::Finished => self.pool.len() == 0,
        }
    }

    /// The ioctl that carries `request` on the session's descriptor.
    pub open spec fn ioctl(self, request: Request) -> Action {
        Action::Ioctl {
            fd: self.fd,
            code: request.command_spec().code_spec(self.config.abi),
            request,
        }
    }

    /// The action that the session waits for.
    pub open spec fn pending(self) -> Action {
        match self.phase {
            Phase::Opening => Action::OpenDevice,
            Phase::QueryingCapabilities => self.ioctl(Request::QueryCapabilities),
            Phase::SettingFormat => self.ioctl(Request::SetFormat(self.config.desired)),
            Phase::ReadingFormat => self.ioctl(
                Request::GetFormat { buffer_type: BUF_TYPE_VIDEO_CAPTURE },
            ),
            Phase::RequestingBuffers => self.ioctl(
                Request::RequestBuffers(
                    RequestedBuffers {
                        count: self.config.buffer_count,
                        buffer_type: BUF_TYPE_VIDEO_CAPTURE,
                        memory_type: MEMORY_MMAP,
                    },
                ),
            ),
            Phase::QueryingBuffer => self.ioctl(
                Request::QueryBuffer {
                    index: self.pool.len() as u32,
                    buffer_type: BUF_TYPE_VIDEO_CAPTURE,
                    memory_type: MEMORY_MMAP,
                },
            ),
            Phase::MappingBuffer => Action::MapBuffer {
                fd: self.fd,
                length: self.probe.length,
                offset: self.probe.offset,
            },
            Phase::QueueingBuffer => self.ioctl(
                Request::QueueBuffer {
                    index: (self.pool.len() - 1) as u32,
                    buffer_type: BUF_TYPE_VIDEO_CAPTURE,
                    memory_type: MEMORY_MMAP,
                },
            ),
            Phase::StartingStream => self.ioctl(
                Request::StreamOn { buffer_type: BUF_TYPE_VIDEO_CAPTURE },
            ),
            Phase::Waiting => Action::WaitReadable {
                fd: self.fd,
                timeout_ms: wait_bound(self.config.timeout_ms),
            },
            Phase::Dequeuing => self.ioctl(
                Request::DequeueBuffer {
                    buffer_type: BUF_TYPE_VIDEO_CAPTURE,
                    memory_type: MEMORY_MMAP,
                },
            ),
            Phase::Delivering => Action::DeliverFrame {
                index: self.frame.index,
                base_address: self.frame.base_address,
                length: self.frame.length,
            },
            Phase::StoppingStream => self.ioctl(
                Request::StreamOff { buffer_type: BUF_TYPE_VIDEO_CAPTURE },
            ),
            Phase::Unmapping => Action::UnmapBuffer {
                base_address: self.pool.last().base_address,
                length: self.pool.last().length,
            },
            Phase::Closing => Action::CloseDevice { fd: self.fd },
            Phase::Finished => Action::Finish(outcome(self.error)),
        }
    }

    /// The state that starts giving back what the session holds: the live
    /// mappings first, if there are any, then the descriptor.
    pub open spec fn release(self) -> SessionState {
        SessionState {
            phase: if self.pool.len() > 0 {
                Phase::Unmapping
            } else {
                Phase::Closing
            },
            ..self
        }
    }

    /// The state after the failure `error` on an open device: the failure is
    /// kept and the release begins.
    pub open spec fn fail(self, error: SessionError) -> SessionState {
        SessionState { error: Some(error), ..self }.release()
    }

    /// After the open call.
    pub open spec fn opened(self, event: Event) -> SessionState {
        match event {
            Event::Opened { ret, os_errno } => if ret < 0 {
                SessionState {
                    phase: Phase::Finished,
                    error: Some(SessionError::Open(OpenError { os_errno })),
                    ..self
                }
            } else {
                SessionState { phase: Phase::QueryingCapabilities, fd: ret, ..self }
            },
            _ => SessionState {
                phase: Phase::Finished,
                error: Some(SessionError::UnexpectedEvent),
                ..self
            },
        }
    }

    /// After the capability query.
    pub open spec fn capabilities_read(self, event: Event) -> SessionState {
        match ioctl_failure(Command::QueryCapabilities, event) {
            Some(error) => self.fail(error),
            None => match reply_of(event) {
                Reply::Capability(capability) => {
                    let missing = missing_of(capability.capability_bits);
                    if missing.any_spec() && self.config.policy is Strict {
                        self.fail(SessionError::MissingCapabilities(missing))
                    } else {
                        SessionState {
                            phase: Phase::SettingFormat,
                            capability: Some(capability),
                            ..self
                        }
                    }
                },
                _ => self.fail(SessionError::UnexpectedEvent),
            },
        }
    }

    /// After the format was proposed. What the device wrote into the
    /// proposal is not looked at: the format is read back next.
    pub open spec fn format_set(self, event: Event) -> SessionState {
        match ioctl_failure(Command::SetFormat, event) {
            Some(error) => self.fail(error),
            None => SessionState { phase: Phase::ReadingFormat, ..self },
        }
    }

    /// After the format was read back.
    pub open spec fn format_read(self, event: Event) -> SessionState {
        match ioctl_failure(Command::GetFormat, event) {
            Some(error) => self.fail(error),
            None => match reply_of(event) {
                Reply::Format(format) => SessionState {
                    phase: Phase::RequestingBuffers,
                    negotiated: Some(format),
                    ..self
                },
                _ => self.fail(SessionError::UnexpectedEvent),
            },
        }
    }

    /// After the request for buffers.
    pub open spec fn buffers_granted(self, event: Event) -> SessionState {
        match ioctl_failure(Command::RequestBuffers, event) {
            Some(error) => self.fail(error),
            None => match reply_of(event) {
                Reply::Buffers(buffers) => if buffers.count == 0 {
                    self.fail(SessionError::NoBuffers)
                } else {
                    SessionState {
                        phase: Phase::QueryingBuffer,
                        granted: buffers.count,
                        ..self
                    }
                },
                _ => self.fail(SessionError::UnexpectedEvent),
            },
        }
    }

    /// After the query for the next buffer.
    pub open spec fn buffer_queried(self, event: Event) -> SessionState {
        match ioctl_failure(Command::QueryBuffer, event) {
            Some(error) => self.fail(error),
            None => match reply_of(event) {
                Reply::Buffer(info) => SessionState {
                    phase: Phase::MappingBuffer,
                    probe: info,
                    ..self
                },
                _ => self.fail(SessionError::UnexpectedEvent),
            },
        }
    }

    /// The mapping that a map call at `address` establishes, given its place
    /// in the pool.
    pub open spec fn mapping_at(self, address: usize) -> MappedBuffer {
        MappedBuffer {
            index: self.pool.len() as u32,
            base_address: address,
            length: self.probe.length,
        }
    }

    /// After the map call.
    pub open spec fn buffer_mapped(self, event: Event) -> SessionState {
        match event {
            Event::Mapped { address, os_errno } => if address == MAP_FAILED {
                self.fail(SessionError::Mapping(MapError { os_errno }))
            } else {
                SessionState {
                    phase: Phase::QueueingBuffer,
                    pool: self.pool.push(self.mapping_at(address)),
                    ..self
                }
            },
            _ => self.fail(SessionError::UnexpectedEvent),
        }
    }

    /// After the fresh mapping was queued.
    pub open spec fn buffer_queued(self, event: Event) -> SessionState {
        match ioctl_failure(Command::QueueBuffer, event) {
            Some(error) => self.fail(error),
            None => SessionState {
                phase: if self.pool.len() < self.granted {
                    Phase::QueryingBuffer
                } else {
                    Phase::StartingStream
                },
                ..self
            },
        }
    }

    /// After the call that starts streaming.
    pub open spec fn stream_started(self, event: Event) -> SessionState {
        match ioctl_failure(Command::StreamOn, event) {
            Some(error) => self.fail(error),
            None => SessionState { phase: Phase::Waiting, stream: StreamState::Streaming, ..self },
        }
    }

    /// After the wait.
    pub open spec fn wait_returned(self, event: Event) -> SessionState {
        match event {
            Event::WaitReturned { ret, os_errno } => if ret < 0 {
                self.fail(SessionError::Wait(WaitError::Io { os_errno }))
            } else if ret == 0 {
                self.fail(SessionError::Wait(WaitError::Timeout))
            } else {
                SessionState { phase: Phase::Dequeuing, ..self }
            },
            _ => self.fail(SessionError::UnexpectedEvent),
        }
    }

    /// After the dequeue.
    pub open spec fn buffer_dequeued(self, event: Event) -> SessionState {
        match ioctl_failure(Command::DequeueBuffer, event) {
            Some(error) => self.fail(error),
            None => match reply_of(event) {
                Reply::Buffer(info) => if info.index < self.pool.len() {
                    SessionState {
                        phase: Phase::Delivering,
                        frame: self.pool[info.index as int],
                        ..self
                    }
                } else {
                    self.fail(SessionError::UnknownBuffer { index: info.index })
                },
                _ => self.fail(SessionError::UnexpectedEvent),
            },
        }
    }

    /// After the caller is done with the frame.
    pub open spec fn frame_consumed(self, event: Event) -> SessionState {
        match event {
            Event::FrameConsumed { ret, os_errno } => if ret < 0 {
                self.fail(SessionError::Write(WriteError { os_errno }))
            } else {
                SessionState { phase: Phase::StoppingStream, ..self }
            },
            _ => self.fail(SessionError::UnexpectedEvent),
        }
    }

    /// After the call that stops streaming.
    pub open spec fn stream_stopped(self, event: Event) -> SessionState {
        match ioctl_failure(Command::StreamOff, event) {
            Some(error) => self.fail(error),
            None => SessionState { stream: StreamState::Idle, ..self }.release(),
        }
    }

    /// After an unmap call, whatever it returned: the mapping is no longer
    /// live, and the release goes on.
    pub open spec fn buffer_unmapped(self) -> SessionState {
        SessionState { pool: self.pool.drop_last(), ..self }.release()
    }

    /// After the close call, whatever it returned.
    pub open spec fn device_closed(self) -> SessionState {
        SessionState { phase: Phase::Finished, ..self }
    }

    /// The state that `event` leads to.
    pub open spec fn next(self, event: Event) -> SessionState {
        match self.phase {
            Phase::Opening => self.opened(event),
            Phase::QueryingCapabilities => self.capabilities_read(event),
            Phase::SettingFormat => self.format_set(event),
            Phase::ReadingFormat => self.format_read(event),
            Phase::RequestingBuffers => self.buffers_granted(event),
            Phase::QueryingBuffer => self.buffer_queried(event),
            Phase::MappingBuffer => self.buffer_mapped(event),
            Phase::QueueingBuffer => self.buffer_queued(event),
            Phase::StartingStream => self.stream_started(event),
            Phase::Waiting => self.wait_returned(event),
            Phase::Dequeuing => self.buffer_dequeued(event),
            Phase::Delivering => self.frame_consumed(event),
            Phase::StoppingStream => self.stream_stopped(event),
            Phase::Unmapping => self.buffer_unmapped(),
            Phase::Closing => self.device_closed(),
            Phase::Finished => self,
        }
    }

    /// What `event` brings to light.
    pub open spec fn notice(self, event: Event) -> Option<Notice> {
        if !ioctl_succeeded(event) {
            None
        } else {
            match (self.phase, reply_of(event)) {
                (Phase::QueryingCapabilities, Reply::Capability(capability)) => {
                    let missing = missing_of(capability.capability_bits);
                    if missing.any_spec() && self.config.policy is Lenient {
                        Some(Notice::MissingCapabilities(missing))
                    } else {
                        None
                    }
                },
                (Phase::ReadingFormat, Reply::Format(format)) => Some(
                    Notice::FormatNegotiated(format),
                ),
                (Phase::RequestingBuffers, Reply::Buffers(buffers)) => Some(
                    Notice::BuffersGranted(buffers.count),
                ),
                _ => None,
            }
        }
    }
}

/// Every event leads from a state that a session can be in to another such
/// state.
pub proof fn lemma_next_wf(s: SessionState, event: Event)
    requires
        s.wf(),
    ensures
        s.next(event).wf(),
{
    let t = s.next(event);
    match s.phase {
        Phase::MappingBuffer => {
            match event {
                Event::Mapped { address, os_errno } => {
                    if address != MAP_FAILED {
                        assert(in_index_order(t.pool));
                    }
                },
                _ => {},
            }
        },
        Phase::Unmapping => {
            assert(in_index_order(t.pool));
        },
        _ => {},
    }
}

} // verus!
