//! The capture session: connection state, streaming schedule and frame-rate
//! statistics.
//!
//! The session decides; the host acts. The host opens the device when the
//! session asks for it, reads frames while the session streams, and reports
//! what happened. Every method is total: a call that makes no sense in the
//! current state changes nothing.

use crate::error::{CaptureError, ConnectError};
use crate::frame::{opt_frame, Frame, FrameSlot, FrameView};
use vstd::prelude::*;

verus! {

/// The length of the window over which frames are counted, in milliseconds.
pub const FPS_WINDOW_MS: u64 = 1000;

/// The pause between two captures while streaming, in milliseconds: about
/// thirty frames per second, as far as the host's loop keeps up.
pub const FRAME_INTERVAL_MS: u64 = 33;

/// Where a session stands.
#[derive(Debug, Clone, Copy, PartialEq, Eq, Structural)]
pub enum ConnectionState {
    Disconnected,
    Connected,
    Streaming,
}

/// What the host found when it tried to open the device.
#[derive(Debug, Clone, Copy, PartialEq, Eq, Structural)]
pub enum ConnectEvent {
    /// The device is open and took every setting.
    Opened,
    /// The device could not be opened.
    OpenFailed,
    /// The device was opened but refused a setting.
    SettingRejected,
}

/// A call on a session, for statements about sequences of calls.
#[derive(Debug, Clone, Copy, PartialEq, Eq, Structural)]
pub enum SessionCall {
    Connect(ConnectEvent),
    Disconnect,
    Start,
    Stop,
}

/// The state after one call.
pub open spec fn next_state(state: ConnectionState, call: SessionCall) -> ConnectionState {
    match call {
        SessionCall::Connect(event) => if state == ConnectionState::Disconnected && event
            == ConnectEvent::Opened {
            ConnectionState::Connected
        } else {
            state
        },
        SessionCall::Disconnect => ConnectionState::Disconnected,
        SessionCall::Start => if state == ConnectionState::Connected {
            ConnectionState::Streaming
        } else {
            state
        },
        SessionCall::Stop => if state == ConnectionState::Streaming {
            ConnectionState::Connected
        } else {
            state
        },
    }
}

/// The transition table: connecting, starting, stopping, and disconnecting
/// from either connected state. Staying in place is always allowed.
pub open spec fn allowed_transition(from: ConnectionState, to: ConnectionState) -> bool {
    ||| from == to
    ||| from == ConnectionState::Disconnected && to == ConnectionState::Connected
    ||| from == ConnectionState::Connected && to == ConnectionState::Streaming
    ||| from == ConnectionState::Streaming && to == ConnectionState::Connected
    ||| from == ConnectionState::Connected && to == ConnectionState::Disconnected
    ||| from == ConnectionState::Streaming && to == ConnectionState::Disconnected
}

/// The state after a sequence of calls.
pub open spec fn state_after(state: ConnectionState, calls: Seq<SessionCall>) -> ConnectionState
    decreases calls.len(),
{
    if calls.len() == 0 {
        state
    } else {
        next_state(state_after(state, calls.drop_last()), calls.last())
    }
}

/// Frame counting over one-second windows.
#[derive(Debug, Clone, Copy, PartialEq, Eq, Structural)]
pub struct StreamStats {
    /// Frames published since the window began.
    pub frame_count: u64,
    /// When the window began, in milliseconds.
    pub window_start_ms: u64,
    /// Frames counted in the last complete window.
    pub fps: u64,
}

impl StreamStats {
    /// Fresh statistics for a stream that starts at `now_ms`.
    pub open spec fn reset(now_ms: u64) -> StreamStats {
        StreamStats { frame_count: 0, window_start_ms: now_ms, fps: 0 }
    }

    /// The time since the window began; zero if the clock went backwards.
    pub open spec fn elapsed(self, now_ms: u64) -> int {
        if now_ms >= self.window_start_ms {
            now_ms - self.window_start_ms
        } else {
            0
        }
    }

    /// The count after one more frame; it stops at the largest number.
    pub open spec fn counted(self) -> u64 {
        if self.frame_count < u64::MAX {
            (self.frame_count + 1) as u64
        } else {
            u64::MAX
        }
    }

    /// The statistics after a frame published at `now_ms`: the frame is
    /// counted, and if a second has passed the count becomes the reported
    /// rate and a new window begins.
    pub open spec fn recorded(self, now_ms: u64) -> StreamStats {
        if self.elapsed(now_ms) >= FPS_WINDOW_MS {
            StreamStats { frame_count: 0, window_start_ms: now_ms, fps: self.counted() }
        } else {
            StreamStats { frame_count: self.counted(), ..self }
        }
    }

    /// The statistics after frames published at each of `times`, in order.
    pub open spec fn recorded_all(self, times: Seq<u64>) -> StreamStats
        decreases times.len(),
    {
        if times.len() == 0 {
            self
        } else {
            self.recorded_all(times.drop_last()).recorded(times.last())
        }
    }

    /// Fresh statistics for a stream that starts at `now_ms`.
    pub fn new(now_ms: u64) -> (r: StreamStats)
        ensures
            r == StreamStats::reset(now_ms),
    {
        StreamStats { frame_count: 0, window_start_ms: now_ms, fps: 0 }
    }

    /// Counts a frame published at `now_ms`.
    pub fn record(&mut self, now_ms: u64)
        ensures
            *final(self) == old(self).recorded(now_ms),
    {
        let count: u64 = if self.frame_count < u64::MAX {
            self.frame_count + 1
        } else {
            u64::MAX
        };
        if now_ms >= self.window_start_ms && now_ms - self.window_start_ms >= FPS_WINDOW_MS {
            self.fps = count;
            self.frame_count = 0;
            self.window_start_ms = now_ms;
        } else {
            self.frame_count = count;
        }
    }
}

/// What one scheduling step did.
#[derive(Debug, Clone, Copy, PartialEq, Eq, Structural)]
pub enum Tick {
    /// The session is not streaming; the reading, if any, was discarded.
    Idle,
    /// A frame was published and counted.
    Published,
    /// The read gave no data; streaming goes on.
    NoData,
}

/// The mathematical content of a `Session`.
pub struct SessionView {
    pub state: ConnectionState,
    pub stats: StreamStats,
    pub frame: Option<FrameView>,
}

impl SessionView {
    /// A session that has done nothing yet.
    pub open spec fn initial() -> SessionView {
        SessionView {
            state: ConnectionState::Disconnected,
            stats: StreamStats::reset(0),
            frame: None,
        }
    }

    /// After `connect` with what the host found.
    pub open spec fn connected(self, event: ConnectEvent) -> SessionView {
        SessionView { state: next_state(self.state, SessionCall::Connect(event)), ..self }
    }

    /// After `disconnect`.
    pub open spec fn disconnected(self) -> SessionView {
        SessionView { state: ConnectionState::Disconnected, ..self }
    }

    /// After `start` at `now_ms`: a connected session begins to stream with
    /// fresh statistics; any other session stays as it is.
    pub open spec fn started(self, now_ms: u64) -> SessionView {
        if self.state == ConnectionState::Connected {
            SessionView {
                state: ConnectionState::Streaming,
                stats: StreamStats::reset(now_ms),
                ..self
            }
        } else {
            self
        }
    }

    /// After `stop`.
    pub open spec fn stopped(self) -> SessionView {
        SessionView { state: next_state(self.state, SessionCall::Stop), ..self }
    }

    /// After a frame arrived at `now_ms`: a streaming session publishes and
    /// counts it; any other session discards it.
    pub open spec fn with_frame(self, frame: FrameView, now_ms: u64) -> SessionView {
        if self.state == ConnectionState::Streaming {
            SessionView {
                frame: FrameSlot::after_publish(self.frame, frame),
                stats: self.stats.recorded(now_ms),
                ..self
            }
        } else {
            self
        }
    }
}

/// What `connect` answers: a session that is already connected, or one whose
/// device was opened, succeeds; otherwise the event says why not.
pub open spec fn connect_outcome(state: ConnectionState, event: ConnectEvent) -> Result<
    (),
    ConnectError,
> {
    if state != ConnectionState::Disconnected {
        Ok(())
    } else {
        match event {
            ConnectEvent::Opened => Ok(()),
            ConnectEvent::OpenFailed => Err(ConnectError::DeviceUnavailable),
            ConnectEvent::SettingRejected => Err(ConnectError::ConfigRejected),
        }
    }
}

/// What `tick` answers for a reading, in a session in the given state.
pub open spec fn tick_outcome(state: ConnectionState, reading: Result<FrameView, CaptureError>) -> Result<
    Tick,
    CaptureError,
> {
    if state != ConnectionState::Streaming {
        Ok(Tick::Idle)
    } else {
        match reading {
            Ok(_) => Ok(Tick::Published),
            Err(CaptureError::NoData) => Ok(Tick::NoData),
            Err(e) => Err(e),
        }
    }
}

/// The view of a reading.
pub open spec fn reading_view(reading: Result<Frame, CaptureError>) -> Result<
    FrameView,
    CaptureError,
> {
    match reading {
        Ok(frame) => Ok(frame@),
        Err(e) => Err(e),
    }
}

/// One capture session with its frame slot.
#[derive(Debug)]
pub struct Session {
    state: ConnectionState,
    stats: StreamStats,
    slot: FrameSlot,
}

impl View for Session {
    type V = SessionView;

    closed spec fn view(&self) -> SessionView {
        SessionView { state: self.state, stats: self.stats, frame: self.slot@ }
    }
}

impl Session {
    /// A disconnected session with an empty slot.
    pub fn new() -> (r: Session)
        ensures
            r@ == SessionView::initial(),
    {
        Session {
            state: ConnectionState::Disconnected,
            stats: StreamStats::new(0),
            slot: FrameSlot::new(),
        }
    }

    /// Where the session stands.
    pub fn state(&self) -> (r: ConnectionState)
        ensures
            r == self@.state,
    {
        self.state
    }

    /// The frame-rate statistics.
    pub fn stats(&self) -> (r: StreamStats)
        ensures
            r == self@.stats,
    {
        self.stats
    }

    /// The rate measured over the last complete window.
    pub fn fps(&self) -> (r: u64)
        ensures
            r == self@.stats.fps,
    {
        self.stats.fps
    }

    /// Tells whether a device is held.
    pub fn is_connected(&self) -> (r: bool)
        ensures
            r == (self@.state != ConnectionState::Disconnected),
    {
        self.state != ConnectionState::Disconnected
    }

    /// Tells whether the host should go on reading frames.
    pub fn is_streaming(&self) -> (r: bool)
        ensures
            r == (self@.state == ConnectionState::Streaming),
    {
        self.state == ConnectionState::Streaming
    }

    /// How long the host should wait before the next read: the frame interval
    /// while streaming, nothing otherwise.
    pub fn next_read_delay_ms(&self) -> (r: Option<u64>)
        ensures
            r == if self@.state == ConnectionState::Streaming {
                Some(FRAME_INTERVAL_MS)
            } else {
                None
            },
    {
        if self.is_streaming() {
            Some(FRAME_INTERVAL_MS)
        } else {
            None
        }
    }

    /// Takes note of the host's attempt to open the device. A session that is
    /// already connected ignores the event and succeeds.
    pub fn connect(&mut self, event: ConnectEvent) -> (r: Result<(), ConnectError>)
        ensures
            final(self)@ == old(self)@.connected(event),
            r == connect_outcome(old(self)@.state, event),
    {
        if self.state != ConnectionState::Disconnected {
            return Ok(());
        }
        match event {
            ConnectEvent::Opened => {
                self.state = ConnectionState::Connected;
                Ok(())
            },
            ConnectEvent::OpenFailed => Err(ConnectError::DeviceUnavailable),
            ConnectEvent::SettingRejected => Err(ConnectError::ConfigRejected),
        }
    }

    /// Releases the device, stopping the stream first if one runs. Returns
    /// whether the session was connected.
    pub fn disconnect(&mut self) -> (r: bool)
        ensures
            final(self)@ == old(self)@.disconnected(),
            r == (old(self)@.state != ConnectionState::Disconnected),
    {
        let was_connected = self.state != ConnectionState::Disconnected;
        self.state = ConnectionState::Disconnected;
        was_connected
    }

    /// Begins to stream at `now_ms`. Returns whether the stream began: only a
    /// connected session that does not stream yet can begin.
    pub fn start(&mut self, now_ms: u64) -> (r: bool)
        ensures
            final(self)@ == old(self)@.started(now_ms),
            r == (old(self)@.state == ConnectionState::Connected),
    {
        if self.state == ConnectionState::Connected {
            self.state = ConnectionState::Streaming;
            self.stats = StreamStats::new(now_ms);
            true
        } else {
            false
        }
    }

    /// Ends the stream. Returns whether one was running.
    pub fn stop(&mut self) -> (r: bool)
        ensures
            final(self)@ == old(self)@.stopped(),
            r == (old(self)@.state == ConnectionState::Streaming),
    {
        if self.state == ConnectionState::Streaming {
            self.state = ConnectionState::Connected;
            true
        } else {
            false
        }
    }

    /// One scheduling step with the outcome of the host's read at `now_ms`.
    /// While streaming, a frame is published and counted, a read without data
    /// is passed over, and any other failure is handed to the caller; the
    /// session goes on streaming in every case. A session that does not
    /// stream discards the reading.
    pub fn tick(&mut self, reading: Result<Frame, CaptureError>, now_ms: u64) -> (r: Result<
        Tick,
        CaptureError,
    >)
        ensures
            final(self)@ == match reading {
                Ok(frame) => old(self)@.with_frame(frame@, now_ms),
                Err(_) => old(self)@,
            },
            r == tick_outcome(old(self)@.state, reading_view(reading)),
    {
        if self.state != ConnectionState::Streaming {
            return Ok(Tick::Idle);
        }
        match reading {
            Ok(frame) => {
                self.slot.publish(frame);
                self.stats.record(now_ms);
                Ok(Tick::Published)
            },
            Err(CaptureError::NoData) => Ok(Tick::NoData),
            Err(e) => Err(e),
        }
    }

    /// A copy of the most recent frame.
    pub fn snapshot(&self) -> (r: Option<Frame>)
        ensures
            opt_frame(r) == self@.frame,
    {
        self.slot.snapshot()
    }
}

/// No call ever takes a session along an edge that the transition table lacks.
pub proof fn lemma_call_follows_table(state: ConnectionState, call: SessionCall)
    ensures
        allowed_transition(state, next_state(state, call)),
{
}

/// Whatever sequence of calls is made, from whatever state, each call in it
/// takes the session along an edge of the transition table.
pub proof fn lemma_calls_follow_table(state: ConnectionState, calls: Seq<SessionCall>, k: int)
    requires
        0 <= k < calls.len(),
    ensures
        allowed_transition(state_after(state, calls.take(k)), state_after(state, calls.take(k + 1))),
{
    let upto = calls.take(k + 1);
    assert(upto.drop_last() =~= calls.take(k));
    lemma_call_follows_table(state_after(state, calls.take(k)), upto.last());
}

/// Starting a session that was never connected leaves it disconnected.
pub proof fn lemma_start_before_connect(now_ms: u64)
    ensures
        SessionView::initial().started(now_ms) == SessionView::initial(),
{
}

/// A second `stop` right after a first changes nothing.
pub proof fn lemma_stop_idempotent(session: SessionView)
    ensures
        session.stopped().stopped() == session.stopped(),
{
}

/// A second `disconnect` right after a first changes nothing.
pub proof fn lemma_disconnect_idempotent(session: SessionView)
    ensures
        session.disconnected().disconnected() == session.disconnected(),
{
}

/// Frames published within the window that began at the last reset are
/// counted and change nothing else: the reported rate stays as the reset left it.
pub proof fn lemma_count_within_window(start_ms: u64, times: Seq<u64>)
    requires
        times.len() <= u64::MAX,
        forall|i: int| 0 <= i < times.len() ==> StreamStats::reset(start_ms).elapsed(#[trigger] times[i]) < FPS_WINDOW_MS,
    ensures
        StreamStats::reset(start_ms).recorded_all(times) == (StreamStats {
            frame_count: times.len() as u64,
            window_start_ms: start_ms,
            fps: 0,
        }),
    decreases times.len(),
{
    if times.len() > 0 {
        let before = times.drop_last();
        assert forall|i: int| 0 <= i < before.len() implies StreamStats::reset(start_ms).elapsed(
            #[trigger] before[i],
        ) < FPS_WINDOW_MS by {
            assert(before[i] == times[i]);
        }
        lemma_count_within_window(start_ms, before);
    }
}

/// The frame rate is the number of frames: if a stream starts at `start_ms`
/// and N frames are published, the first N - 1 within one second of the start
/// and the N-th at the moment the second is over, then the rate reported from
/// that moment on is N, and a new window begins with no frames counted.
pub proof fn lemma_fps_counts_frames(start_ms: u64, times: Seq<u64>)
    requires
        0 < times.len() <= u64::MAX,
        forall|i: int| 0 <= i < times.len() - 1 ==> StreamStats::reset(start_ms).elapsed(#[trigger] times[i]) < FPS_WINDOW_MS,
        StreamStats::reset(start_ms).elapsed(times.last()) >= FPS_WINDOW_MS,
    ensures
        StreamStats::reset(start_ms).recorded_all(times) == (StreamStats {
            frame_count: 0,
            window_start_ms: times.last(),
            fps: times.len() as u64,
        }),
{
    let before = times.drop_last();
    assert forall|i: int| 0 <= i < before.len() implies StreamStats::reset(start_ms).elapsed(
        #[trigger] before[i],
    ) < FPS_WINDOW_MS by {
        assert(before[i] == times[i]);
    }
    lemma_count_within_window(start_ms, before);
}

/// While a session streams, a frame that arrives takes the place of the one
/// in the slot and is counted, and the session goes on streaming. What a
/// reader took from the slot before is a value of its own and stays what it was.
pub proof fn lemma_frame_while_streaming(session: SessionView, frame: FrameView, now_ms: u64)
    requires
        session.state == ConnectionState::Streaming,
    ensures
        FrameSlot::snapshot_of(session.frame) == session.frame,
        session.with_frame(frame, now_ms).frame == Some(frame),
        session.with_frame(frame, now_ms).stats == session.stats.recorded(now_ms),
        session.with_frame(frame, now_ms).state == ConnectionState::Streaming,
{
}

/// Counting one frame: before a full second has passed since the window
/// began, the count grows by one and the rate and the window stay; once the
/// second is over, the rate becomes the count with this frame in it, the
/// count starts again at zero, and the window begins at this frame.
pub proof fn lemma_record_one_frame(stats: StreamStats, now_ms: u64)
    requires
        stats.frame_count < u64::MAX,
    ensures
        stats.elapsed(now_ms) < FPS_WINDOW_MS ==> stats.recorded(now_ms) == (StreamStats {
            frame_count: (stats.frame_count + 1) as u64,
            window_start_ms: stats.window_start_ms,
            fps: stats.fps,
        }),
        stats.elapsed(now_ms) >= FPS_WINDOW_MS ==> stats.recorded(now_ms) == (StreamStats {
            frame_count: 0,
            window_start_ms: now_ms,
            fps: (stats.frame_count + 1) as u64,
        }),
{
}

/// Stopping a stream and starting it again reports a rate of zero until the
/// first window of the new stream is complete.
pub proof fn lemma_restart_resets_fps(session: SessionView, now_ms: u64)
    requires
        session.state == ConnectionState::Streaming,
    ensures
        session.stopped().started(now_ms).state == ConnectionState::Streaming,
        session.stopped().started(now_ms).stats == StreamStats::reset(now_ms),
        session.stopped().started(now_ms).stats.fps == 0,
{
}

} // verus!
