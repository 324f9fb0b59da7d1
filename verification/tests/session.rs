use std::collections::HashMap;

use v4l2_capture::action::{Action, Notice, Request, Step};
use v4l2_capture::capability::{Capability, MissingCapabilities};
use v4l2_capture::command::{Abi, Command};
use v4l2_capture::error::{
    IoctlError, MapError, OpenError, SessionError, WaitError, WriteError,
};
use v4l2_capture::event::{Event, Reply, MAP_FAILED};
use v4l2_capture::format::Format;
use v4l2_capture::fourcc::v4l2_fourcc;
use v4l2_capture::pool::{BufferInfo, MappedBuffer, RequestedBuffers};
use v4l2_capture::session::Session;
use v4l2_capture::state::{CapabilityPolicy, Config, Phase, StreamState};

const FD: i32 = 7;
const CAPTURE_AND_STREAMING: u32 = 0x0400_0001;

/// A device that answers the session's actions from a script and keeps
/// the books on descriptors and mappings.
struct MockDevice {
    open_errno: Option<i32>,
    capability_bits: u32,
    failing: Option<(Command, i32)>,
    failing_map: Option<(u32, i32)>,
    failing_query: Option<(u32, i32)>,
    failing_queue: Option<(u32, i32)>,
    failing_write: Option<i32>,
    grant: Option<u32>,
    substitute: Option<Format>,
    ready: Option<u32>,
    wait_errno: Option<i32>,
    dequeued_index: Option<u32>,
    buffer_length: u32,

    open: bool,
    opens: u32,
    closes: u32,
    format: Format,
    granted: u32,
    streaming: bool,
    map_calls: u32,
    live: HashMap<usize, u32>,
    memory: HashMap<usize, Vec<u8>>,
    queued: Vec<u32>,
    unmapped: Vec<(usize, u32)>,
    dequeues: u32,
    stream_ons: u32,
    stream_offs: u32,
    waits: Vec<i32>,
    delivered: Option<Vec<u8>>,
    actions: Vec<Action>,
}

impl MockDevice {
    fn new() -> Self {
        MockDevice {
            open_errno: None,
            capability_bits: CAPTURE_AND_STREAMING,
            failing: None,
            failing_map: None,
            failing_query: None,
            failing_queue: None,
            failing_write: None,
            grant: None,
            substitute: None,
            ready: Some(0),
            wait_errno: None,
            dequeued_index: None,
            buffer_length: 64,
            open: false,
            opens: 0,
            closes: 0,
            format: Format::capture(0, 0, 0, 0),
            granted: 0,
            streaming: false,
            map_calls: 0,
            live: HashMap::new(),
            memory: HashMap::new(),
            queued: Vec::new(),
            unmapped: Vec::new(),
            dequeues: 0,
            stream_ons: 0,
            stream_offs: 0,
            waits: Vec::new(),
            delivered: None,
            actions: Vec::new(),
        }
    }

    fn address_of(index: u32) -> usize {
        0x7f00_0000_0000 + (index as usize) * 0x10_0000
    }

    fn pattern(index: u32, length: u32) -> Vec<u8> {
        (0..length).map(|i| (i as u8).wrapping_mul(7).wrapping_add(index as u8)).collect()
    }

    fn ioctl(&mut self, fd: i32, code: u64, request: Request) -> Event {
        assert!(self.open, "ioctl on a closed device");
        assert_eq!(fd, FD);
        let command = request.command();
        assert_eq!(code, command.code(&Abi::lp64()));
        if let Some((failing, errno)) = self.failing {
            if failing == command {
                return Event::IoctlReturned { ret: -1, os_errno: errno, reply: Reply::Nothing };
            }
        }
        let reply = match request {
            Request::QueryCapabilities => Reply::Capability(Capability {
                driver: *b"mockdrv\0\0\0\0\0\0\0\0\0",
                card: [b'c'; 32],
                bus_info: [b'b'; 32],
                capability_bits: self.capability_bits,
            }),
            Request::SetFormat(proposed) => {
                self.format = self.substitute.unwrap_or(proposed);
                Reply::Format(self.format)
            }
            Request::GetFormat { buffer_type } => {
                assert_eq!(buffer_type, 1);
                Reply::Format(self.format)
            }
            Request::RequestBuffers(wanted) => {
                assert_eq!(wanted.buffer_type, 1);
                assert_eq!(wanted.memory_type, 1);
                self.granted = self.grant.unwrap_or(wanted.count);
                Reply::Buffers(RequestedBuffers { count: self.granted, ..wanted })
            }
            Request::QueryBuffer { index, buffer_type, memory_type } => {
                assert_eq!((buffer_type, memory_type), (1, 1));
                assert!(index < self.granted, "query of a buffer that was not granted");
                if let Some((at, errno)) = self.failing_query {
                    if at == index {
                        return Event::IoctlReturned {
                            ret: -1,
                            os_errno: errno,
                            reply: Reply::Nothing,
                        };
                    }
                }
                Reply::Buffer(BufferInfo {
                    index,
                    length: self.buffer_length + index,
                    offset: index * 0x1000,
                })
            }
            Request::QueueBuffer { index, buffer_type, memory_type } => {
                assert_eq!((buffer_type, memory_type), (1, 1));
                assert!(index < self.granted);
                assert!(!self.queued.contains(&index), "buffer queued twice");
                if let Some((at, errno)) = self.failing_queue {
                    if at == index {
                        return Event::IoctlReturned {
                            ret: -1,
                            os_errno: errno,
                            reply: Reply::Nothing,
                        };
                    }
                }
                self.queued.push(index);
                Reply::Nothing
            }
            Request::DequeueBuffer { buffer_type, memory_type } => {
                assert_eq!((buffer_type, memory_type), (1, 1));
                assert!(self.streaming, "dequeue before the stream was started");
                self.dequeues += 1;
                let index = self.dequeued_index.or(self.ready).unwrap_or(0);
                Reply::Buffer(BufferInfo { index, length: self.buffer_length, offset: 0 })
            }
            Request::StreamOn { buffer_type } => {
                assert_eq!(buffer_type, 1);
                assert!(!self.streaming, "stream started twice");
                assert!(self.granted > 0, "stream started without buffers");
                assert_eq!(self.queued.len() as u32, self.granted);
                self.streaming = true;
                self.stream_ons += 1;
                if let Some(index) = self.ready {
                    let address = Self::address_of(index);
                    if let Some(&length) = self.live.get(&address) {
                        self.memory.insert(address, Self::pattern(index, length));
                    }
                }
                Reply::Nothing
            }
            Request::StreamOff { buffer_type } => {
                assert_eq!(buffer_type, 1);
                assert!(self.streaming, "stream stopped while idle");
                self.streaming = false;
                self.stream_offs += 1;
                Reply::Nothing
            }
        };
        Event::IoctlReturned { ret: 0, os_errno: 0, reply }
    }

    fn perform(&mut self, action: Action) -> Event {
        self.actions.push(action);
        match action {
            Action::OpenDevice => {
                assert!(!self.open);
                match self.open_errno {
                    Some(errno) => Event::Opened { ret: -1, os_errno: errno },
                    None => {
                        self.open = true;
                        self.opens += 1;
                        Event::Opened { ret: FD, os_errno: 0 }
                    }
                }
            }
            Action::Ioctl { fd, code, request } => self.ioctl(fd, code, request),
            Action::MapBuffer { fd, length, offset } => {
                assert!(self.open, "map on a closed device");
                assert_eq!(fd, FD);
                let index = offset / 0x1000;
                assert_eq!(length, self.buffer_length + index);
                assert!(index < self.granted, "map of a buffer that was not granted");
                let call = self.map_calls;
                self.map_calls += 1;
                if let Some((at, errno)) = self.failing_map {
                    if at == call {
                        return Event::Mapped { address: MAP_FAILED, os_errno: errno };
                    }
                }
                let address = Self::address_of(index);
                assert!(self.live.insert(address, length).is_none(), "buffer mapped twice");
                self.memory.insert(address, vec![0; length as usize]);
                Event::Mapped { address, os_errno: 0 }
            }
            Action::UnmapBuffer { base_address, length } => {
                assert!(self.open, "unmap after the device was closed");
                let mapped = self.live.remove(&base_address);
                assert_eq!(mapped, Some(length), "unmap of what is not mapped, or of a wrong length");
                self.memory.remove(&base_address);
                self.unmapped.push((base_address, length));
                Event::Unmapped
            }
            Action::WaitReadable { fd, timeout_ms } => {
                assert_eq!(fd, FD);
                assert!(self.streaming);
                self.waits.push(timeout_ms);
                match (self.wait_errno, self.ready) {
                    (Some(errno), _) => Event::WaitReturned { ret: -1, os_errno: errno },
                    (None, Some(_)) => Event::WaitReturned { ret: 1, os_errno: 0 },
                    (None, None) => Event::WaitReturned { ret: 0, os_errno: 0 },
                }
            }
            Action::DeliverFrame { index: _, base_address, length } => {
                assert_eq!(self.live.get(&base_address), Some(&length), "frame in no live mapping");
                match self.failing_write {
                    Some(errno) => Event::FrameConsumed { ret: -1, os_errno: errno },
                    None => {
                        self.delivered = Some(self.memory[&base_address].clone());
                        Event::FrameConsumed { ret: 0, os_errno: 0 }
                    }
                }
            }
            Action::CloseDevice { fd } => {
                assert_eq!(fd, FD);
                assert!(self.open, "close of a closed device");
                assert!(self.live.is_empty(), "device closed while buffers are mapped");
                self.open = false;
                self.closes += 1;
                Event::Closed
            }
            Action::Finish(_) => panic!("the session has finished"),
        }
    }

    /// Everything that was acquired has been given back, once.
    fn assert_clean(&self) {
        assert!(!self.open);
        assert_eq!(self.closes, self.opens);
        assert!(self.live.is_empty());
        assert_eq!(self.unmapped.len() as u32, self.map_calls_succeeded());
    }

    fn map_calls_succeeded(&self) -> u32 {
        self.actions
            .iter()
            .filter(|a| matches!(a, Action::MapBuffer { .. }))
            .count() as u32
            - if self.failing_map.map_or(false, |(at, _)| at < self.map_calls) { 1 } else { 0 }
    }
}

fn config() -> Config {
    Config::standard(Abi::lp64())
}

fn small(count: u32) -> Config {
    Config { buffer_count: count, ..config() }
}

/// Drives a session against the device until it finishes.
fn drive(session: &mut Session, device: &mut MockDevice) -> (Result<(), SessionError>, Vec<Notice>) {
    let mut notices = Vec::new();
    let mut action = session.pending();
    for _ in 0..10_000 {
        if let Action::Finish(result) = action {
            assert!(session.is_finished());
            return (result, notices);
        }
        let event = device.perform(action);
        let Step { action: next, notice } = session.advance(event);
        assert_eq!(next, session.pending());
        notices.extend(notice);
        action = next;
    }
    panic!("the session does not finish");
}

fn run(config: Config, device: &mut MockDevice) -> Result<(), SessionError> {
    let mut session = Session::new(config);
    drive(&mut session, device).0
}

fn ok(reply: Reply) -> Event {
    Event::IoctlReturned { ret: 0, os_errno: 0, reply }
}

fn failed(errno: i32) -> Event {
    Event::IoctlReturned { ret: -1, os_errno: errno, reply: Reply::Nothing }
}

fn capability(bits: u32) -> Capability {
    Capability { driver: [0; 16], card: [0; 32], bus_info: [0; 32], capability_bits: bits }
}

/// Brings a fresh session to the point where it asks for buffers.
fn negotiated(config: Config) -> Session {
    let mut s = Session::new(config);
    s.advance(Event::Opened { ret: FD, os_errno: 0 });
    s.advance(ok(Reply::Capability(capability(CAPTURE_AND_STREAMING))));
    s.advance(ok(Reply::Format(config.desired)));
    s.advance(ok(Reply::Format(config.desired)));
    assert_eq!(s.phase(), Phase::RequestingBuffers);
    s
}

/// Brings a fresh session to the point where it waits for a frame, with
/// `count` buffers of 32 bytes mapped at 0x1000, 0x2000 and so on.
fn streaming(count: u32) -> Session {
    let mut s = negotiated(small(count));
    s.advance(ok(Reply::Buffers(RequestedBuffers { count, buffer_type: 1, memory_type: 1 })));
    for index in 0..count {
        s.advance(ok(Reply::Buffer(BufferInfo { index, length: 32, offset: index * 32 })));
        s.advance(Event::Mapped { address: 0x1000 * (index as usize + 1), os_errno: 0 });
        s.advance(ok(Reply::Nothing));
    }
    assert_eq!(s.phase(), Phase::StartingStream);
    s.advance(ok(Reply::Nothing));
    assert_eq!(s.phase(), Phase::Waiting);
    s
}

#[test]
fn frame_of_the_ready_buffer_is_delivered_unmodified() {
    let mut device = MockDevice::new();
    device.ready = Some(3);
    let mut session = Session::new(config());
    let (result, notices) = drive(&mut session, &mut device);
    assert_eq!(result, Ok(()));
    assert_eq!(device.granted, 60);
    assert_eq!(device.map_calls, 60);
    assert_eq!(device.delivered, Some(MockDevice::pattern(3, 64 + 3)));
    assert!(device.actions.contains(&Action::DeliverFrame {
        index: 3,
        base_address: MockDevice::address_of(3),
        length: 67,
    }));
    assert_eq!(device.dequeues, 1);
    assert_eq!(device.stream_ons, 1);
    assert_eq!(device.stream_offs, 1);
    assert_eq!(device.unmapped.len(), 60);
    device.assert_clean();
    assert_eq!(
        notices,
        vec![Notice::FormatNegotiated(Format::standard()), Notice::BuffersGranted(60)]
    );
    assert_eq!(session.format(), Some(Format::standard()));
    assert_eq!(session.format().unwrap().pixel_encoding, v4l2_fourcc(b'M', b'J', b'P', b'G'));
    assert_eq!(session.granted(), 60);
    assert_eq!(session.mapped(), 0);
    assert_eq!(session.error(), None);
    assert_eq!(session.stream_state(), StreamState::Idle);
}

#[test]
fn request_buffers_failure_is_reported_and_device_closed() {
    let mut device = MockDevice::new();
    device.failing = Some((Command::RequestBuffers, 16));
    let result = run(config(), &mut device);
    assert_eq!(
        result,
        Err(SessionError::Ioctl(IoctlError { command: Command::RequestBuffers, os_errno: 16 }))
    );
    assert_eq!(device.opens, 1);
    assert_eq!(device.closes, 1);
    assert_eq!(device.map_calls, 0);
    assert_eq!(device.stream_ons, 0);
    assert_eq!(device.actions.last(), Some(&Action::CloseDevice { fd: FD }));
    device.assert_clean();
}

#[test]
fn grant_of_no_buffers_fails_before_streaming() {
    let mut device = MockDevice::new();
    device.grant = Some(0);
    let mut session = Session::new(config());
    let (result, notices) = drive(&mut session, &mut device);
    assert_eq!(result, Err(SessionError::NoBuffers));
    assert_eq!(device.stream_ons, 0);
    assert_eq!(device.map_calls, 0);
    assert_eq!(device.waits.len(), 0);
    assert_eq!(device.closes, 1);
    assert!(notices.contains(&Notice::BuffersGranted(0)));
    device.assert_clean();
    // The same answers give the same failure.
    let mut again = MockDevice::new();
    again.grant = Some(0);
    assert_eq!(run(config(), &mut again), Err(SessionError::NoBuffers));
    assert_eq!(again.actions, device.actions);
}

#[test]
fn timeout_fails_the_capture_without_a_dequeue() {
    let mut device = MockDevice::new();
    device.ready = None;
    let result = run(small(4), &mut device);
    assert_eq!(result, Err(SessionError::Wait(WaitError::Timeout)));
    assert_eq!(device.waits, vec![1000]);
    assert_eq!(device.dequeues, 0);
    assert!(!device.actions.iter().any(|a| matches!(
        a,
        Action::Ioctl { request: Request::DequeueBuffer { .. }, .. }
    )));
    assert_eq!(device.delivered, None);
    assert_eq!(device.unmapped.len(), 4);
    device.assert_clean();
}

#[test]
fn timeout_leads_straight_to_release() {
    let mut s = streaming(2);
    assert_eq!(s.pending(), Action::WaitReadable { fd: FD, timeout_ms: 1000 });
    let step = s.advance(Event::WaitReturned { ret: 0, os_errno: 0 });
    assert_eq!(step.action, Action::UnmapBuffer { base_address: 0x2000, length: 32 });
    assert_eq!(s.error(), Some(SessionError::Wait(WaitError::Timeout)));
    assert_eq!(s.advance(Event::Unmapped).action, Action::UnmapBuffer {
        base_address: 0x1000,
        length: 32,
    });
    assert_eq!(s.advance(Event::Unmapped).action, Action::CloseDevice { fd: FD });
    assert_eq!(
        s.advance(Event::Closed).action,
        Action::Finish(Err(SessionError::Wait(WaitError::Timeout)))
    );
}

#[test]
fn wait_failure_carries_its_errno() {
    let mut device = MockDevice::new();
    device.wait_errno = Some(4);
    let result = run(small(2), &mut device);
    assert_eq!(result, Err(SessionError::Wait(WaitError::Io { os_errno: 4 })));
    assert_eq!(device.dequeues, 0);
    device.assert_clean();
}

#[test]
fn negotiated_format_equals_an_immediate_requery() {
    let mut device = MockDevice::new();
    let desired = Format::capture(1280, 720, v4l2_fourcc(b'M', b'J', b'P', b'G'), 0);
    let mut s = Session::new(Config { desired, ..config() });
    let mut action = s.pending();
    while s.phase() != Phase::RequestingBuffers {
        action = s.advance(device.perform(action)).action;
    }
    let negotiated = s.format().unwrap();
    let requery = device.ioctl(
        FD,
        Command::GetFormat.code(&Abi::lp64()),
        Request::GetFormat { buffer_type: 1 },
    );
    assert_eq!(requery, ok(Reply::Format(negotiated)));
    assert_eq!(negotiated, desired);
    assert!(matches!(action, Action::Ioctl { request: Request::RequestBuffers(_), .. }));
}

#[test]
fn device_substitute_replaces_the_desired_format() {
    let mut device = MockDevice::new();
    let smaller = Format::capture(640, 480, v4l2_fourcc(b'Y', b'U', b'Y', b'V'), 1);
    device.substitute = Some(smaller);
    let mut session = Session::new(small(2));
    let (result, notices) = drive(&mut session, &mut device);
    assert_eq!(result, Ok(()));
    assert_eq!(session.format(), Some(smaller));
    assert_eq!(notices[0], Notice::FormatNegotiated(smaller));
    assert!(device.actions.contains(&Action::Ioctl {
        fd: FD,
        code: 0xc0d0_5605,
        request: Request::SetFormat(Format::standard()),
    }));
}

#[test]
fn format_is_the_one_read_back_not_the_one_set() {
    let mut s = Session::new(config());
    s.advance(Event::Opened { ret: FD, os_errno: 0 });
    s.advance(ok(Reply::Capability(capability(CAPTURE_AND_STREAMING))));
    let set_answer = Format::capture(1, 2, 3, 4);
    let step = s.advance(ok(Reply::Format(set_answer)));
    assert_eq!(s.format(), None);
    assert_eq!(step.notice, None);
    assert_eq!(
        step.action,
        Action::Ioctl {
            fd: FD,
            code: 0xc0d0_5604,
            request: Request::GetFormat { buffer_type: 1 },
        }
    );
    let read_back = Format::capture(800, 600, 5, 6);
    let step = s.advance(ok(Reply::Format(read_back)));
    assert_eq!(s.format(), Some(read_back));
    assert_eq!(step.notice, Some(Notice::FormatNegotiated(read_back)));
}

#[test]
fn map_failure_at_any_call_leaves_no_mapping() {
    for granted in 1..6u32 {
        for k in 0..granted {
            let mut device = MockDevice::new();
            device.grant = Some(granted);
            device.failing_map = Some((k, 12));
            let result = run(config(), &mut device);
            assert_eq!(result, Err(SessionError::Mapping(MapError { os_errno: 12 })));
            assert_eq!(device.map_calls, k + 1);
            assert_eq!(device.unmapped.len() as u32, k);
            assert!(device.live.is_empty());
            assert_eq!(device.stream_ons, 0);
            assert_eq!(device.closes, 1);
            device.assert_clean();
        }
    }
}

#[test]
fn query_or_queue_failure_leaves_no_mapping() {
    for k in 0..4u32 {
        let mut device = MockDevice::new();
        device.grant = Some(4);
        device.failing_query = Some((k, 22));
        assert_eq!(
            run(config(), &mut device),
            Err(SessionError::Ioctl(IoctlError { command: Command::QueryBuffer, os_errno: 22 }))
        );
        assert_eq!(device.unmapped.len() as u32, k);
        device.assert_clean();

        let mut device = MockDevice::new();
        device.grant = Some(4);
        device.failing_queue = Some((k, 5));
        assert_eq!(
            run(config(), &mut device),
            Err(SessionError::Ioctl(IoctlError { command: Command::QueueBuffer, os_errno: 5 }))
        );
        assert_eq!(device.unmapped.len() as u32, k + 1);
        assert_eq!(device.stream_ons, 0);
        device.assert_clean();
    }
}

#[test]
fn pool_holds_exactly_the_granted_count() {
    for (requested, granted) in [(60u32, 60u32), (60, 4), (60, 1), (2, 8), (1, 1)] {
        let mut device = MockDevice::new();
        device.grant = Some(granted);
        let mut session = Session::new(small(requested));
        let mut action = session.pending();
        while session.phase() != Phase::Waiting {
            assert!(session.mapped() <= session.granted());
            action = session.advance(device.perform(action)).action;
        }
        assert!(matches!(action, Action::WaitReadable { .. }));
        assert_eq!(session.granted(), granted);
        assert_eq!(session.mapped(), granted);
        assert_eq!(device.map_calls, granted);
        assert_eq!(device.live.len() as u32, granted);
        for index in 0..granted {
            assert_eq!(
                session.buffer(index),
                Some(MappedBuffer {
                    index,
                    base_address: MockDevice::address_of(index),
                    length: 64 + index,
                })
            );
        }
        assert_eq!(session.buffer(granted), None);
    }
}

#[test]
fn teardown_unmaps_each_mapping_once_then_closes_once() {
    let mut device = MockDevice::new();
    device.grant = Some(5);
    device.ready = Some(2);
    assert_eq!(run(config(), &mut device), Ok(()));
    let expected: Vec<(usize, u32)> =
        (0..5u32).rev().map(|i| (MockDevice::address_of(i), 64 + i)).collect();
    assert_eq!(device.unmapped, expected);
    assert_eq!(device.closes, 1);
    let n = device.actions.len();
    assert_eq!(device.actions[n - 1], Action::CloseDevice { fd: FD });
    for action in &device.actions[n - 6..n - 1] {
        assert!(matches!(action, Action::UnmapBuffer { .. }));
    }
    let close_count =
        device.actions.iter().filter(|a| matches!(a, Action::CloseDevice { .. })).count();
    assert_eq!(close_count, 1);
}

#[test]
fn unmap_uses_the_length_recorded_for_each_buffer() {
    let mut s = negotiated(small(2));
    s.advance(ok(Reply::Buffers(RequestedBuffers { count: 2, buffer_type: 1, memory_type: 1 })));
    s.advance(ok(Reply::Buffer(BufferInfo { index: 0, length: 100, offset: 0 })));
    s.advance(Event::Mapped { address: 0xa000, os_errno: 0 });
    s.advance(ok(Reply::Nothing));
    s.advance(ok(Reply::Buffer(BufferInfo { index: 1, length: 300, offset: 4096 })));
    s.advance(Event::Mapped { address: 0xb000, os_errno: 0 });
    let step = s.advance(failed(5));
    assert_eq!(step.action, Action::UnmapBuffer { base_address: 0xb000, length: 300 });
    assert_eq!(s.advance(Event::Unmapped).action, Action::UnmapBuffer {
        base_address: 0xa000,
        length: 100,
    });
    assert_eq!(s.mapped(), 1);
    assert_eq!(s.advance(Event::Unmapped).action, Action::CloseDevice { fd: FD });
    assert_eq!(s.mapped(), 0);
}

#[test]
fn open_failure_finishes_without_a_close() {
    let mut device = MockDevice::new();
    device.open_errno = Some(2);
    let result = run(config(), &mut device);
    assert_eq!(result, Err(SessionError::Open(OpenError { os_errno: 2 })));
    assert_eq!(device.actions, vec![Action::OpenDevice]);
    assert_eq!(device.closes, 0);
}

#[test]
fn any_negative_open_result_is_a_failure() {
    let mut s = Session::new(config());
    assert_eq!(s.descriptor(), None);
    let step = s.advance(Event::Opened { ret: -3, os_errno: 13 });
    assert_eq!(step.action, Action::Finish(Err(SessionError::Open(OpenError { os_errno: 13 }))));
    assert_eq!(s.descriptor(), None);
    let mut s = Session::new(config());
    let step = s.advance(Event::Opened { ret: 0, os_errno: 13 });
    assert_eq!(step.action, Action::Ioctl {
        fd: 0,
        code: 0x8068_5600,
        request: Request::QueryCapabilities,
    });
    assert_eq!(s.descriptor(), Some(0));
}

#[test]
fn each_ioctl_failure_names_its_command() {
    let commands = [
        Command::QueryCapabilities,
        Command::SetFormat,
        Command::GetFormat,
        Command::RequestBuffers,
        Command::QueryBuffer,
        Command::QueueBuffer,
        Command::StreamOn,
        Command::DequeueBuffer,
        Command::StreamOff,
    ];
    for (i, command) in commands.iter().enumerate() {
        let mut device = MockDevice::new();
        device.grant = Some(3);
        device.failing = Some((*command, 100 + i as i32));
        let result = run(config(), &mut device);
        assert_eq!(
            result,
            Err(SessionError::Ioctl(IoctlError { command: *command, os_errno: 100 + i as i32 }))
        );
        assert_eq!(device.closes, 1);
        device.assert_clean();
    }
}

#[test]
fn failure_after_stream_on_does_not_stop_the_stream() {
    let mut device = MockDevice::new();
    device.grant = Some(2);
    device.failing = Some((Command::DequeueBuffer, 11));
    assert!(run(config(), &mut device).is_err());
    assert_eq!(device.stream_ons, 1);
    assert_eq!(device.stream_offs, 0);
    device.assert_clean();
}

#[test]
fn write_failure_is_reported_after_release() {
    let mut device = MockDevice::new();
    device.grant = Some(2);
    device.failing_write = Some(28);
    let result = run(config(), &mut device);
    assert_eq!(result, Err(SessionError::Write(WriteError { os_errno: 28 })));
    assert_eq!(device.stream_offs, 0);
    device.assert_clean();
}

#[test]
fn dequeued_index_outside_the_pool_is_a_failure() {
    let mut s = streaming(3);
    s.advance(Event::WaitReturned { ret: 1, os_errno: 0 });
    assert_eq!(s.phase(), Phase::Dequeuing);
    let step = s.advance(ok(Reply::Buffer(BufferInfo { index: 3, length: 32, offset: 0 })));
    assert_eq!(s.error(), Some(SessionError::UnknownBuffer { index: 3 }));
    assert_eq!(step.action, Action::UnmapBuffer { base_address: 0x3000, length: 32 });
    assert_eq!(s.frame(), None);
}

#[test]
fn frame_is_readable_only_while_it_is_delivered() {
    let mut s = streaming(3);
    assert_eq!(s.frame(), None);
    s.advance(Event::WaitReturned { ret: 1, os_errno: 0 });
    assert_eq!(s.frame(), None);
    let step = s.advance(ok(Reply::Buffer(BufferInfo { index: 1, length: 7, offset: 9 })));
    assert_eq!(step.action, Action::DeliverFrame { index: 1, base_address: 0x2000, length: 32 });
    assert_eq!(s.frame(), Some(MappedBuffer { index: 1, base_address: 0x2000, length: 32 }));
    assert_eq!(s.stream_state(), StreamState::Streaming);
    let step = s.advance(Event::FrameConsumed { ret: 0, os_errno: 0 });
    assert_eq!(s.frame(), None);
    assert_eq!(step.action, Action::Ioctl {
        fd: FD,
        code: 0x4004_5613,
        request: Request::StreamOff { buffer_type: 1 },
    });
    s.advance(ok(Reply::Nothing));
    assert_eq!(s.stream_state(), StreamState::Idle);
    assert_eq!(s.phase(), Phase::Unmapping);
}

#[test]
fn lenient_session_reports_missing_capabilities_and_goes_on() {
    let mut device = MockDevice::new();
    device.capability_bits = 0x1;
    device.grant = Some(2);
    let mut session = Session::new(config());
    let (result, notices) = drive(&mut session, &mut device);
    assert_eq!(result, Ok(()));
    assert_eq!(
        notices[0],
        Notice::MissingCapabilities(MissingCapabilities { video_capture: false, streaming: true })
    );
    assert_eq!(session.capability().unwrap().capability_bits, 0x1);
    assert_eq!(&session.capability().unwrap().driver[..7], b"mockdrv");
}

#[test]
fn strict_session_fails_on_missing_capabilities() {
    let mut device = MockDevice::new();
    device.capability_bits = 0x0400_0000;
    let mut session = Session::new(Config { policy: CapabilityPolicy::Strict, ..config() });
    let (result, notices) = drive(&mut session, &mut device);
    let missing = MissingCapabilities { video_capture: true, streaming: false };
    assert_eq!(result, Err(SessionError::MissingCapabilities(missing)));
    assert!(notices.is_empty());
    assert_eq!(device.actions.len(), 3);
    assert_eq!(device.closes, 1);
    assert_eq!(session.capability(), None);
}

#[test]
fn strict_session_accepts_a_capable_device() {
    let mut device = MockDevice::new();
    device.grant = Some(1);
    let mut session = Session::new(Config { policy: CapabilityPolicy::Strict, ..config() });
    let (result, notices) = drive(&mut session, &mut device);
    assert_eq!(result, Ok(()));
    assert_eq!(notices.len(), 2);
}

#[test]
fn actions_of_a_session_with_two_buffers() {
    let mut device = MockDevice::new();
    device.grant = Some(2);
    device.ready = Some(1);
    assert_eq!(run(config(), &mut device), Ok(()));
    let ioctl = |code: u64, request: Request| Action::Ioctl { fd: FD, code, request };
    let expected = vec![
        Action::OpenDevice,
        ioctl(0x8068_5600, Request::QueryCapabilities),
        ioctl(0xc0d0_5605, Request::SetFormat(Format::standard())),
        ioctl(0xc0d0_5604, Request::GetFormat { buffer_type: 1 }),
        ioctl(
            0xc014_5608,
            Request::RequestBuffers(RequestedBuffers {
                count: 60,
                buffer_type: 1,
                memory_type: 1,
            }),
        ),
        ioctl(0xc058_5609, Request::QueryBuffer { index: 0, buffer_type: 1, memory_type: 1 }),
        Action::MapBuffer { fd: FD, length: 64, offset: 0 },
        ioctl(0xc058_560f, Request::QueueBuffer { index: 0, buffer_type: 1, memory_type: 1 }),
        ioctl(0xc058_5609, Request::QueryBuffer { index: 1, buffer_type: 1, memory_type: 1 }),
        Action::MapBuffer { fd: FD, length: 65, offset: 0x1000 },
        ioctl(0xc058_560f, Request::QueueBuffer { index: 1, buffer_type: 1, memory_type: 1 }),
        ioctl(0x4004_5612, Request::StreamOn { buffer_type: 1 }),
        Action::WaitReadable { fd: FD, timeout_ms: 1000 },
        ioctl(0xc058_5611, Request::DequeueBuffer { buffer_type: 1, memory_type: 1 }),
        Action::DeliverFrame { index: 1, base_address: MockDevice::address_of(1), length: 65 },
        ioctl(0x4004_5613, Request::StreamOff { buffer_type: 1 }),
        Action::UnmapBuffer { base_address: MockDevice::address_of(1), length: 65 },
        Action::UnmapBuffer { base_address: MockDevice::address_of(0), length: 64 },
        Action::CloseDevice { fd: FD },
    ];
    assert_eq!(device.actions, expected);
}

#[test]
fn event_of_the_wrong_kind_fails_the_session() {
    let mut s = Session::new(config());
    let step = s.advance(Event::Closed);
    assert_eq!(step.action, Action::Finish(Err(SessionError::UnexpectedEvent)));

    let mut s = negotiated(config());
    let step = s.advance(ok(Reply::Format(Format::standard())));
    assert_eq!(s.error(), Some(SessionError::UnexpectedEvent));
    assert_eq!(step.action, Action::CloseDevice { fd: FD });

    let mut s = streaming(1);
    let step = s.advance(Event::Mapped { address: 0x9000, os_errno: 0 });
    assert_eq!(s.error(), Some(SessionError::UnexpectedEvent));
    assert_eq!(step.action, Action::UnmapBuffer { base_address: 0x1000, length: 32 });
    assert_eq!(s.mapped(), 1);
}

#[test]
fn failed_map_address_is_not_taken_for_a_mapping() {
    let mut s = negotiated(small(3));
    s.advance(ok(Reply::Buffers(RequestedBuffers { count: 3, buffer_type: 1, memory_type: 1 })));
    s.advance(ok(Reply::Buffer(BufferInfo { index: 0, length: 10, offset: 0 })));
    assert_eq!(s.pending(), Action::MapBuffer { fd: FD, length: 10, offset: 0 });
    let step = s.advance(Event::Mapped { address: usize::MAX, os_errno: 12 });
    assert_eq!(MAP_FAILED, usize::MAX);
    assert_eq!(s.mapped(), 0);
    assert_eq!(s.error(), Some(SessionError::Mapping(MapError { os_errno: 12 })));
    assert_eq!(step.action, Action::CloseDevice { fd: FD });
}

#[test]
fn release_takes_any_event_as_the_answer() {
    let mut s = streaming(2);
    s.advance(Event::WaitReturned { ret: -1, os_errno: 9 });
    assert_eq!(s.phase(), Phase::Unmapping);
    s.advance(failed(1));
    assert_eq!(s.mapped(), 1);
    s.advance(Event::Opened { ret: 3, os_errno: 0 });
    assert_eq!(s.mapped(), 0);
    assert_eq!(s.phase(), Phase::Closing);
    assert_eq!(s.descriptor(), Some(FD));
    s.advance(Event::Mapped { address: 1, os_errno: 0 });
    assert_eq!(s.phase(), Phase::Finished);
    assert_eq!(s.descriptor(), None);
    assert_eq!(s.error(), Some(SessionError::Wait(WaitError::Io { os_errno: 9 })));
}

#[test]
fn finished_session_stays_finished() {
    let mut device = MockDevice::new();
    device.grant = Some(1);
    let mut session = Session::new(config());
    let (result, _) = drive(&mut session, &mut device);
    assert_eq!(result, Ok(()));
    for event in [Event::Closed, Event::Unmapped, Event::Opened { ret: 4, os_errno: 0 }] {
        let step = session.advance(event);
        assert_eq!(step, Step { action: Action::Finish(Ok(())), notice: None });
        assert!(session.is_finished());
    }
}

#[test]
fn first_failure_is_the_one_reported() {
    let mut s = streaming(2);
    s.advance(Event::WaitReturned { ret: 0, os_errno: 0 });
    s.advance(failed(77));
    s.advance(Event::Mapped { address: MAP_FAILED, os_errno: 78 });
    let step = s.advance(Event::WaitReturned { ret: -1, os_errno: 79 });
    assert_eq!(step.action, Action::Finish(Err(SessionError::Wait(WaitError::Timeout))));
}

#[test]
fn wait_bound_follows_the_config() {
    let mut device = MockDevice::new();
    device.grant = Some(1);
    assert_eq!(run(Config { timeout_ms: 250, ..config() }, &mut device), Ok(()));
    assert_eq!(device.waits, vec![250]);

    let mut device = MockDevice::new();
    device.grant = Some(1);
    assert_eq!(run(Config { timeout_ms: u32::MAX, ..config() }, &mut device), Ok(()));
    assert_eq!(device.waits, vec![i32::MAX]);

    let mut device = MockDevice::new();
    device.grant = Some(1);
    assert_eq!(run(Config { timeout_ms: 0x7fff_ffff, ..config() }, &mut device), Ok(()));
    assert_eq!(device.waits, vec![i32::MAX]);
}

#[test]
fn standard_config() {
    let c = Config::standard(Abi::lp64());
    assert_eq!(c.desired, Format::standard());
    assert_eq!(c.buffer_count, 60);
    assert_eq!(c.timeout_ms, 1000);
    assert_eq!(c.policy, CapabilityPolicy::Lenient);
    assert_eq!(c.abi, Abi::lp64());
    let s = Session::new(c);
    assert_eq!(s.config(), c);
    assert_eq!(s.phase(), Phase::Opening);
    assert_eq!(s.pending(), Action::OpenDevice);
    assert_eq!(s.granted(), 0);
    assert_eq!(s.mapped(), 0);
    assert_eq!(s.format(), None);
    assert_eq!(s.capability(), None);
    assert_eq!(s.error(), None);
    assert_eq!(s.stream_state(), StreamState::Idle);
    assert!(!s.is_finished());
}

#[test]
fn requested_count_of_one_or_more_never_exceeds_the_grant() {
    for requested in [1u32, 2, 3, 17, 60] {
        for granted in [1u32, 2, 5] {
            let mut device = MockDevice::new();
            device.grant = Some(granted);
            assert_eq!(run(small(requested), &mut device), Ok(()));
            assert_eq!(device.map_calls, granted);
            assert_eq!(device.unmapped.len() as u32, granted);
        }
    }
}

#[test]
fn event_helpers() {
    assert_eq!(failed(5).failure_of(Command::QueueBuffer), Some(SessionError::Ioctl(IoctlError {
        command: Command::QueueBuffer,
        os_errno: 5,
    })));
    assert_eq!(ok(Reply::Nothing).failure_of(Command::QueueBuffer), None);
    assert_eq!(Event::Closed.failure_of(Command::StreamOn), Some(SessionError::UnexpectedEvent));
    assert_eq!(ok(Reply::Buffers(RequestedBuffers { count: 1, buffer_type: 1, memory_type: 1 }))
        .reply(), Reply::Buffers(RequestedBuffers { count: 1, buffer_type: 1, memory_type: 1 }));
    assert_eq!(Event::Unmapped.reply(), Reply::Nothing);
    assert_eq!(Request::StreamOff { buffer_type: 1 }.command(), Command::StreamOff);
    assert_eq!(Request::SetFormat(Format::standard()).command(), Command::SetFormat);
}
