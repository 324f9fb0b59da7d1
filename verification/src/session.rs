//! The capture session.
//!
//! A `Session` owns the device descriptor and the pool of mappings, in the
//! sense that it alone says when they are used and when they are given back.
//! It never makes a system call. The caller performs the session's pending
//! action, reports the result with `advance`, and gets the next action:
//!
//! ```text
//! let mut session = Session::new(config);
//! let mut action = session.pending();
//! loop {
//!     let event = match action {
//!         Action::Finish(result) => return result,
//!         other => perform(other),
//!     };
//!     action = session.advance(event).action;
//! }
//! ```

use vstd::prelude::*;
use crate::action::Action;
use crate::action::Notice;
use crate::action::Request;
use crate::action::Step;
use crate::capability::Capability;
use crate::command::Command;
use crate::error::MapError;
use crate::error::OpenError;
use crate::error::SessionError;
use crate::error::WaitError;
use crate::error::WriteError;
use crate::event::Event;
use crate::event::MAP_FAILED;
use crate::event::Reply;
use crate::format::BUF_TYPE_VIDEO_CAPTURE;
use crate::format::Format;
use crate::format::MEMORY_MMAP;
use crate::pool::BufferInfo;
use crate::pool::BufferPool;
use crate::pool::MappedBuffer;
use crate::pool::RequestedBuffers;
use crate::state::CapabilityPolicy;
use crate::state::Config;
use crate::state::Phase;
use crate::state::SessionState;
use crate::state::StreamState;
use crate::state::lemma_next_wf;

verus! {

/// A capture session: one frame from one device.
pub struct Session {
    config: Config,
    phase: Phase,
    fd: i32,
    capability: Option<Capability>,
    negotiated: Option<Format>,
    pool: BufferPool,
    probe: BufferInfo,
    stream: StreamState,
    frame: MappedBuffer,
    error: Option<SessionError>,
}

impl View for Session {
    type V = SessionState;

    closed spec fn view(&self) -> SessionState {
        SessionState {
            config: self.config,
            phase: self.phase,
            fd: self.fd,
            capability: self.capability,
            negotiated: self.negotiated,
            granted: self.pool.limit(),
            pool: self.pool@,
            probe: self.probe,
            stream: self.stream,
            frame: self.frame,
            error: self.error,
        }
    }
}

impl Session {
    /// The session is in a state that a session can be in.
    pub open spec fn wf(&self) -> bool {
        self@.wf()
    }

    /// A session that is about to open the device.
    pub fn new(config: Config) -> (session: Self)
        ensures
            session.wf(),
            session@ == SessionState::initial(config),
    {
        Session {
            config,
            phase: Phase::Opening,
            fd: -1,
            capability: None,
            negotiated: None,
            pool: BufferPool::new(0),
            probe: BufferInfo { index: 0, length: 0, offset: 0 },
            stream: StreamState::Idle,
            frame: MappedBuffer { index: 0, base_address: 0, length: 0 },
            error: None,
        }
    }

    /// The session's task.
    pub fn config(&self) -> (config: Config)
        ensures
            config == self@.config,
    {
        self.config
    }

    /// The action that the session waits for, by its kind.
    pub fn phase(&self) -> (phase: Phase)
        ensures
            phase == self@.phase,
    {
        self.phase
    }

    /// Whether nothing is left to do.
    pub fn is_finished(&self) -> (b: bool)
        ensures
            b == (self@.phase is Finished),
    {
        match self.phase {
            Phase::Finished => true,
            _ => false,
        }
    }

    /// The device descriptor, while it is open.
    pub fn descriptor(&self) -> (fd: Option<i32>)
        ensures
            fd == if self@.device_open() {
                Some(self@.fd)
            } else {
                None
            },
    {
        match self.phase {
            Phase::Opening | Phase::Finished => None,
            _ => Some(self.fd),
        }
    }

    /// The device's capabilities, once it has told them.
    pub fn capability(&self) -> (capability: Option<Capability>)
        ensures
            capability == self@.capability,
    {
        self.capability
    }

    /// The format that the device settled on, once it has.
    pub fn format(&self) -> (format: Option<Format>)
        ensures
            format == self@.negotiated,
    {
        self.negotiated
    }

    /// The number of buffers that the device granted.
    pub fn granted(&self) -> (n: u32)
        ensures
            n == self@.granted,
    {
        self.pool.granted()
    }

    /// The number of live mappings.
    pub fn mapped(&self) -> (n: u32)
        requires
            self.wf(),
        ensures
            n == self@.pool.len(),
    {
        self.pool.len()
    }

    /// The live mapping of the buffer with the given index.
    pub fn buffer(&self, index: u32) -> (buffer: Option<MappedBuffer>)
        requires
            self.wf(),
        ensures
            index < self@.pool.len() ==> buffer == Some(self@.pool[index as int]),
            index >= self@.pool.len() ==> buffer.is_none(),
    {
        self.pool.get(index)
    }

    /// Whether the device is streaming.
    pub fn stream_state(&self) -> (stream: StreamState)
        ensures
            stream == self@.stream,
    {
        self.stream
    }

    /// The mapping that holds the frame, while the caller may read it: from
    /// the dequeue until the caller reports that it is done.
    pub fn frame(&self) -> (frame: Option<MappedBuffer>)
        ensures
            frame == if self@.phase is Delivering {
                Some(self@.frame)
            } else {
                None
            },
    {
        match self.phase {
            Phase::Delivering => Some(self.frame),
            _ => None,
        }
    }

    /// The first failure, if the session has met one.
    pub fn error(&self) -> (error: Option<SessionError>)
        ensures
            error == self@.error,
    {
        self.error
    }

    /// Starts giving back what the session holds.
    fn release(&mut self)
        ensures
            final(self)@ == old(self)@.release(),
    {
        if self.pool.is_empty() {
            self.phase = Phase::Closing;
        } else {
            self.phase = Phase::Unmapping;
        }
    }

    /// Keeps the failure and starts the release.
    fn fail(&mut self, error: SessionError)
        ensures
            final(self)@ == old(self)@.fail(error),
    {
        self.error = Some(error);
        self.release();
    }

    /// Decides on the result of the open call.
    fn opened(&mut self, event: Event)
        requires
            old(self).wf(),
        ensures
            final(self)@ == old(self)@.opened(event),
    {
        match event {
            Event::Opened { ret, os_errno } => {
                if ret < 0 {
                    self.error = Some(SessionError::Open(OpenError { os_errno }));
                    self.phase = Phase::Finished;
                } else {
                    self.fd = ret;
                    self.phase = Phase::QueryingCapabilities;
                }
            },
            _ => {
                self.error = Some(SessionError::UnexpectedEvent);
                self.phase = Phase::Finished;
            },
        }
    }

    /// Decides on the device's capabilities: a device that lacks a required
    /// one fails a strict session and is reported by a lenient one.
    fn capabilities_read(&mut self, event: Event) -> (notice: Option<Notice>)
        requires
            old(self).wf(),
            old(self)@.phase is QueryingCapabilities,
        ensures
            final(self)@ == old(self)@.capabilities_read(event),
            notice == old(self)@.notice(event),
    {
        match event.failure_of(Command::QueryCapabilities) {
            Some(error) => {
                self.fail(error);
                None
            },
            None => match event.reply() {
                Reply::Capability(capability) => {
                    let missing = capability.missing();
                    if missing.any() {
                        match self.config.policy {
                            CapabilityPolicy::Strict => {
                                self.fail(SessionError::MissingCapabilities(missing));
                                None
                            },
                            CapabilityPolicy::Lenient => {
                                self.capability = Some(capability);
                                self.phase = Phase::SettingFormat;
                                Some(Notice::MissingCapabilities(missing))
                            },
                        }
                    } else {
                        self.capability = Some(capability);
                        self.phase = Phase::SettingFormat;
                        None
                    }
                },
                _ => {
                    self.fail(SessionError::UnexpectedEvent);
                    None
                },
            },
        }
    }

    /// Decides on the result of proposing the format.
    fn format_set(&mut self, event: Event)
        requires
            old(self).wf(),
        ensures
            final(self)@ == old(self)@.format_set(event),
    {
        match event.failure_of(Command::SetFormat) {
            Some(error) => self.fail(error),
            None => {
                self.phase = Phase::ReadingFormat;
            },
        }
    }

    /// Takes the format that the device reports as the one agreed on.
    fn format_read(&mut self, event: Event) -> (notice: Option<Notice>)
        requires
            old(self).wf(),
            old(self)@.phase is ReadingFormat,
        ensures
            final(self)@ == old(self)@.format_read(event),
            notice == old(self)@.notice(event),
    {
        match event.failure_of(Command::GetFormat) {
            Some(error) => {
                self.fail(error);
                None
            },
            None => match event.reply() {
                Reply::Format(format) => {
                    self.negotiated = Some(format);
                    self.phase = Phase::RequestingBuffers;
                    Some(Notice::FormatNegotiated(format))
                },
                _ => {
                    self.fail(SessionError::UnexpectedEvent);
                    None
                },
            },
        }
    }

    /// Takes the number of buffers that the device grants. A grant of none
    /// fails the session.
    fn buffers_granted(&mut self, event: Event) -> (notice: Option<Notice>)
        requires
            old(self).wf(),
            old(self)@.phase is RequestingBuffers,
        ensures
            final(self)@ == old(self)@.buffers_granted(event),
            notice == old(self)@.notice(event),
    {
        match event.failure_of(Command::RequestBuffers) {
            Some(error) => {
                self.fail(error);
                None
            },
            None => match event.reply() {
                Reply::Buffers(buffers) => {
                    if buffers.count == 0 {
                        self.fail(SessionError::NoBuffers);
                    } else {
                        self.pool = BufferPool::new(buffers.count);
                        self.phase = Phase::QueryingBuffer;
                        assert(self.pool@ =~= old(self).pool@);
                    }
                    Some(Notice::BuffersGranted(buffers.count))
                },
                _ => {
                    self.fail(SessionError::UnexpectedEvent);
                    None
                },
            },
        }
    }

    /// Takes length and offset of the buffer that is mapped next.
    fn buffer_queried(&mut self, event: Event)
        requires
            old(self).wf(),
        ensures
            final(self)@ == old(self)@.buffer_queried(event),
    {
        match event.failure_of(Command::QueryBuffer) {
            Some(error) => self.fail(error),
            None => match event.reply() {
                Reply::Buffer(info) => {
                    self.probe = info;
                    self.phase = Phase::MappingBuffer;
                },
                _ => self.fail(SessionError::UnexpectedEvent),
            },
        }
    }

    /// Takes the fresh mapping into the pool.
    fn buffer_mapped(&mut self, event: Event)
        requires
            old(self).wf(),
            old(self)@.phase is MappingBuffer,
        ensures
            final(self)@ == old(self)@.buffer_mapped(event),
    {
        match event {
            Event::Mapped { address, os_errno } => {
                if address == MAP_FAILED {
                    self.fail(SessionError::Mapping(MapError { os_errno }));
                } else {
                    let _ = self.pool.record(address, self.probe.length);
                    self.phase = Phase::QueueingBuffer;
                }
            },
            _ => self.fail(SessionError::UnexpectedEvent),
        }
    }

    /// Goes on to the next buffer, or to streaming once every granted buffer
    /// is mapped and queued.
    fn buffer_queued(&mut self, event: Event)
        requires
            old(self).wf(),
            old(self)@.phase is QueueingBuffer,
        ensures
            final(self)@ == old(self)@.buffer_queued(event),
    {
        match event.failure_of(Command::QueueBuffer) {
            Some(error) => self.fail(error),
            None => {
                if self.pool.is_complete() {
                    self.phase = Phase::StartingStream;
                } else {
                    self.phase = Phase::QueryingBuffer;
                }
            },
        }
    }

    /// Decides on the result of starting the stream.
    fn stream_started(&mut self, event: Event)
        requires
            old(self).wf(),
        ensures
            final(self)@ == old(self)@.stream_started(event),
    {
        match event.failure_of(Command::StreamOn) {
            Some(error) => self.fail(error),
            None => {
                self.stream = StreamState::Streaming;
                self.phase = Phase::Waiting;
            },
        }
    }

    /// Decides on the result of the wait: only a readable device is asked
    /// for a buffer.
    fn wait_returned(&mut self, event: Event)
        requires
            old(self).wf(),
        ensures
            final(self)@ == old(self)@.wait_returned(event),
    {
        match event {
            Event::WaitReturned { ret, os_errno } => {
                if ret < 0 {
                    self.fail(SessionError::Wait(WaitError::Io { os_errno }));
                } else if ret == 0 {
                    self.fail(SessionError::Wait(WaitError::Timeout));
                } else {
                    self.phase = Phase::Dequeuing;
                }
            },
            _ => self.fail(SessionError::UnexpectedEvent),
        }
    }

    /// Finds the mapping that holds the frame.
    fn buffer_dequeued(&mut self, event: Event)
        requires
            old(self).wf(),
            old(self)@.phase is Dequeuing,
        ensures
            final(self)@ == old(self)@.buffer_dequeued(event),
    {
        match event.failure_of(Command::DequeueBuffer) {
            Some(error) => self.fail(error),
            None => match event.reply() {
                Reply::Buffer(info) => match self.pool.get(info.index) {
                    Some(buffer) => {
                        self.frame = buffer;
                        self.phase = Phase::Delivering;
                    },
                    None => self.fail(SessionError::UnknownBuffer { index: info.index }),
                },
                _ => self.fail(SessionError::UnexpectedEvent),
            },
        }
    }

    /// Decides on what the caller did with the frame.
    fn frame_consumed(&mut self, event: Event)
        requires
            old(self).wf(),
        ensures
            final(self)@ == old(self)@.frame_consumed(event),
    {
        match event {
            Event::FrameConsumed { ret, os_errno } => {
                if ret < 0 {
                    self.fail(SessionError::Write(WriteError { os_errno }));
                } else {
                    self.phase = Phase::StoppingStream;
                }
            },
            _ => self.fail(SessionError::UnexpectedEvent),
        }
    }

    /// Decides on the result of stopping the stream.
    fn stream_stopped(&mut self, event: Event)
        requires
            old(self).wf(),
        ensures
            final(self)@ == old(self)@.stream_stopped(event),
    {
        match event.failure_of(Command::StreamOff) {
            Some(error) => self.fail(error),
            None => {
                self.stream = StreamState::Idle;
                self.release();
            },
        }
    }

    /// Lets go of the mapping that was unmapped.
    fn buffer_unmapped(&mut self)
        requires
            old(self).wf(),
            old(self)@.phase is Unmapping,
        ensures
            final(self)@ == old(self)@.buffer_unmapped(),
    {
        let _ = self.pool.release_last();
        self.release();
    }

    /// The ioctl that carries `request` on the session's descriptor.
    fn ioctl(&self, request: Request) -> (action: Action)
        ensures
            action == self@.ioctl(request),
    {
        Action::Ioctl { fd: self.fd, code: request.command().code(&self.config.abi), request }
    }

    /// The action that the session waits for.
    pub fn pending(&self) -> (action: Action)
        requires
            self.wf(),
        ensures
            action == self@.pending(),
    {
        match self.phase {
            Phase::Opening => Action::OpenDevice,
            Phase::QueryingCapabilities => self.ioctl(Request::QueryCapabilities),
            Phase::SettingFormat => self.ioctl(Request::SetFormat(self.config.desired)),
            Phase::ReadingFormat => self.ioctl(
                Request::GetFormat { buffer_type: BUF_TYPE_VIDEO_CAPTURE },
            ),
            Phase::RequestingBuffers => self.ioctl(
                Request::RequestBuffers(
                    RequestedBuffers {
                        count: self.config.buffer_count,
                        buffer_type: BUF_TYPE_VIDEO_CAPTURE,
                        memory_type: MEMORY_MMAP,
                    },
                ),
            ),
            Phase::QueryingBuffer => self.ioctl(
                Request::QueryBuffer {
                    index: self.pool.len(),
                    buffer_type: BUF_TYPE_VIDEO_CAPTURE,
                    memory_type: MEMORY_MMAP,
                },
            ),
            Phase::MappingBuffer => Action::MapBuffer {
                fd: self.fd,
                length: self.probe.length,
                offset: self.probe.offset,
            },
            Phase::QueueingBuffer => self.ioctl(
                Request::QueueBuffer {
                    index: self.pool.len() - 1,
                    buffer_type: BUF_TYPE_VIDEO_CAPTURE,
                    memory_type: MEMORY_MMAP,
                },
            ),
            Phase::StartingStream => self.ioctl(
                Request::StreamOn { buffer_type: BUF_TYPE_VIDEO_CAPTURE },
            ),
            Phase::Waiting => {
                let timeout_ms: i32 = if self.config.timeout_ms > 0x7fff_ffff {
                    0x7fff_ffff
                } else {
                    self.config.timeout_ms as i32
                };
                Action::WaitReadable { fd: self.fd, timeout_ms }
            },
            Phase::Dequeuing => self.ioctl(
                Request::DequeueBuffer {
                    buffer_type: BUF_TYPE_VIDEO_CAPTURE,
                    memory_type: MEMORY_MMAP,
                },
            ),
            Phase::Delivering => Action::DeliverFrame {
                index: self.frame.index,
                base_address: self.frame.base_address,
                length: self.frame.length,
            },
            Phase::StoppingStream => self.ioctl(
                Request::StreamOff { buffer_type: BUF_TYPE_VIDEO_CAPTURE },
            ),
            Phase::Unmapping => match self.pool.last() {
                Some(buffer) => Action::UnmapBuffer {
                    base_address: buffer.base_address,
                    length: buffer.length,
                },
                None => vstd::pervasive::unreached(),
            },
            Phase::Closing => Action::CloseDevice { fd: self.fd },
            Phase::Finished => match self.error {
                Some(error) => Action::Finish(Err(error)),
                None => Action::Finish(Ok(())),
            },
        }
    }

    /// Takes the result of the pending action and says what to do next.
    pub fn advance(&mut self, event: Event) -> (step: Step)
        requires
            old(self).wf(),
        ensures
            final(self).wf(),
            final(self)@ == old(self)@.next(event),
            step.action == final(self)@.pending(),
            step.notice == old(self)@.notice(event),
    {
        let mut notice: Option<Notice> = None;
        match self.phase {
            Phase::Opening => self.opened(event),
            Phase::QueryingCapabilities => {
                notice = self.capabilities_read(event);
            },
            Phase::SettingFormat => self.format_set(event),
            Phase::ReadingFormat => {
                notice = self.format_read(event);
            },
            Phase::RequestingBuffers => {
                notice = self.buffers_granted(event);
            },
            Phase::QueryingBuffer => self.buffer_queried(event),
            Phase::MappingBuffer => self.buffer_mapped(event),
            Phase::QueueingBuffer => self.buffer_queued(event),
            Phase::StartingStream => self.stream_started(event),
            Phase::Waiting => self.wait_returned(event),
            Phase::Dequeuing => self.buffer_dequeued(event),
            Phase::Delivering => self.frame_consumed(event),
            Phase::StoppingStream => self.stream_stopped(event),
            Phase::Unmapping => self.buffer_unmapped(),
            Phase::Closing => {
                self.phase = Phase::Finished;
            },
            Phase::Finished => {},
        }
        proof {
            lemma_next_wf(old(self)@, event);
        }
        Step { action: self.pending(), notice }
    }
}

} // verus!
