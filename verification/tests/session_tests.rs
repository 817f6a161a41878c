use microscope::error::{CaptureError, ConnectError};
use microscope::frame::{ColorLayout, Frame};
use microscope::session::{
    ConnectEvent, ConnectionState, Session, StreamStats, Tick, FPS_WINDOW_MS, FRAME_INTERVAL_MS,
};

fn frame(tag: u8, at: u64) -> Frame {
    Frame::new(vec![tag, tag, tag], 1, 1, ColorLayout::Bgr, at)
}

fn streaming_session(start_ms: u64) -> Session {
    let mut s = Session::new();
    assert_eq!(s.connect(ConnectEvent::Opened), Ok(()));
    assert!(s.start(start_ms));
    s
}

fn allowed(from: ConnectionState, to: ConnectionState) -> bool {
    from == to
        || matches!(
            (from, to),
            (ConnectionState::Disconnected, ConnectionState::Connected)
                | (ConnectionState::Connected, ConnectionState::Streaming)
                | (ConnectionState::Streaming, ConnectionState::Connected)
                | (ConnectionState::Connected, ConnectionState::Disconnected)
                | (ConnectionState::Streaming, ConnectionState::Disconnected)
        )
}

#[test]
fn new_session_is_disconnected_and_empty() {
    let s = Session::new();
    assert_eq!(s.state(), ConnectionState::Disconnected);
    assert!(!s.is_connected());
    assert!(!s.is_streaming());
    assert_eq!(s.fps(), 0);
    assert_eq!(s.stats(), StreamStats { frame_count: 0, window_start_ms: 0, fps: 0 });
    assert!(s.snapshot().is_none());
    assert_eq!(s.next_read_delay_ms(), None);
}

#[test]
fn start_before_connect_is_a_no_op() {
    let mut s = Session::new();
    assert!(!s.start(500));
    assert_eq!(s.state(), ConnectionState::Disconnected);
    assert_eq!(s.stats(), StreamStats { frame_count: 0, window_start_ms: 0, fps: 0 });
}

#[test]
fn stop_before_start_is_a_no_op() {
    let mut s = Session::new();
    assert!(!s.stop());
    assert_eq!(s.state(), ConnectionState::Disconnected);
    assert_eq!(s.connect(ConnectEvent::Opened), Ok(()));
    assert!(!s.stop());
    assert_eq!(s.state(), ConnectionState::Connected);
}

#[test]
fn connect_reports_why_it_failed() {
    let mut s = Session::new();
    assert_eq!(s.connect(ConnectEvent::OpenFailed), Err(ConnectError::DeviceUnavailable));
    assert_eq!(s.state(), ConnectionState::Disconnected);
    assert_eq!(s.connect(ConnectEvent::SettingRejected), Err(ConnectError::ConfigRejected));
    assert_eq!(s.state(), ConnectionState::Disconnected);
    assert_eq!(s.connect(ConnectEvent::Opened), Ok(()));
    assert_eq!(s.state(), ConnectionState::Connected);
}

#[test]
fn connect_while_connected_changes_nothing() {
    let mut s = streaming_session(10);
    assert_eq!(s.connect(ConnectEvent::OpenFailed), Ok(()));
    assert_eq!(s.state(), ConnectionState::Streaming);
    assert_eq!(s.connect(ConnectEvent::Opened), Ok(()));
    assert_eq!(s.state(), ConnectionState::Streaming);
}

#[test]
fn full_cycle_follows_the_table() {
    let mut s = Session::new();
    assert_eq!(s.connect(ConnectEvent::Opened), Ok(()));
    assert_eq!(s.state(), ConnectionState::Connected);
    assert!(s.start(0));
    assert_eq!(s.state(), ConnectionState::Streaming);
    assert_eq!(s.next_read_delay_ms(), Some(33));
    assert_eq!(FRAME_INTERVAL_MS, 33);
    assert!(!s.start(5));
    assert!(s.stop());
    assert_eq!(s.state(), ConnectionState::Connected);
    assert!(s.disconnect());
    assert_eq!(s.state(), ConnectionState::Disconnected);
}

#[test]
fn disconnect_while_streaming_stops_the_stream() {
    let mut s = streaming_session(0);
    assert!(s.disconnect());
    assert_eq!(s.state(), ConnectionState::Disconnected);
    assert!(!s.is_streaming());
}

#[test]
fn stop_twice_changes_nothing_the_second_time() {
    let mut s = streaming_session(0);
    assert_eq!(s.tick(Ok(frame(1, 5)), 5), Ok(Tick::Published));
    assert!(s.stop());
    let state = s.state();
    let stats = s.stats();
    assert!(!s.stop());
    assert_eq!(s.state(), state);
    assert_eq!(s.stats(), stats);
    assert_eq!(s.snapshot().unwrap().pixels(), &vec![1, 1, 1]);
}

#[test]
fn disconnect_twice_changes_nothing_the_second_time() {
    let mut s = streaming_session(0);
    assert_eq!(s.tick(Ok(frame(1, 5)), 5), Ok(Tick::Published));
    assert!(s.disconnect());
    let stats = s.stats();
    assert!(!s.disconnect());
    assert_eq!(s.state(), ConnectionState::Disconnected);
    assert_eq!(s.stats(), stats);
    assert_eq!(s.snapshot().unwrap().pixels(), &vec![1, 1, 1]);
}

#[test]
fn every_call_sequence_of_length_four_follows_the_table() {
    for code in 0..(6u32 * 6 * 6 * 6) {
        let mut s = Session::new();
        let mut c = code;
        for _ in 0..4 {
            let before = s.state();
            match c % 6 {
                0 => {
                    let _ = s.connect(ConnectEvent::Opened);
                }
                1 => {
                    let _ = s.connect(ConnectEvent::OpenFailed);
                }
                2 => {
                    let _ = s.connect(ConnectEvent::SettingRejected);
                }
                3 => {
                    s.disconnect();
                }
                4 => {
                    s.start(0);
                }
                _ => {
                    s.stop();
                }
            }
            c /= 6;
            assert!(allowed(before, s.state()), "{:?} -> {:?}", before, s.state());
        }
    }
}

#[test]
fn fps_is_the_number_of_frames_in_one_second() {
    let n: u64 = 30;
    let mut s = streaming_session(1000);
    for i in 1..n {
        assert_eq!(s.tick(Ok(frame(0, 0)), 1000 + i * 33), Ok(Tick::Published));
        assert_eq!(s.fps(), 0);
        assert_eq!(s.stats().frame_count, i);
    }
    assert_eq!(s.tick(Ok(frame(0, 0)), 2000), Ok(Tick::Published));
    assert_eq!(s.fps(), n);
    assert_eq!(s.stats(), StreamStats { frame_count: 0, window_start_ms: 2000, fps: n });
    assert_eq!(FPS_WINDOW_MS, 1000);
}

#[test]
fn fps_of_a_single_late_frame_is_one() {
    let mut s = streaming_session(0);
    assert_eq!(s.tick(Ok(frame(0, 0)), 5000), Ok(Tick::Published));
    assert_eq!(s.fps(), 1);
}

#[test]
fn fps_window_ends_at_exactly_one_second() {
    let mut s = streaming_session(0);
    assert_eq!(s.tick(Ok(frame(0, 0)), 999), Ok(Tick::Published));
    assert_eq!(s.fps(), 0);
    assert_eq!(s.tick(Ok(frame(0, 0)), 1000), Ok(Tick::Published));
    assert_eq!(s.fps(), 2);
}

#[test]
fn fps_is_zero_again_after_stop_and_start() {
    let mut s = streaming_session(0);
    for t in [100, 200, 1000] {
        assert_eq!(s.tick(Ok(frame(0, 0)), t), Ok(Tick::Published));
    }
    assert_eq!(s.fps(), 3);
    assert!(s.stop());
    assert_eq!(s.fps(), 3);
    assert!(s.start(7000));
    assert_eq!(s.fps(), 0);
    assert_eq!(s.stats(), StreamStats { frame_count: 0, window_start_ms: 7000, fps: 0 });
}

#[test]
fn a_clock_that_goes_backwards_counts_as_no_time() {
    let mut s = streaming_session(5000);
    assert_eq!(s.tick(Ok(frame(0, 0)), 10), Ok(Tick::Published));
    assert_eq!(s.stats(), StreamStats { frame_count: 1, window_start_ms: 5000, fps: 0 });
}

#[test]
fn frame_count_stops_at_the_largest_number() {
    let mut stats = StreamStats { frame_count: u64::MAX, window_start_ms: 0, fps: 0 };
    stats.record(1);
    assert_eq!(stats.frame_count, u64::MAX);
    stats.record(1000);
    assert_eq!(stats, StreamStats { frame_count: 0, window_start_ms: 1000, fps: u64::MAX });
}

#[test]
fn tick_publishes_the_newest_frame() {
    let mut s = streaming_session(0);
    assert_eq!(s.tick(Ok(frame(1, 10)), 10), Ok(Tick::Published));
    assert_eq!(s.tick(Ok(frame(2, 20)), 20), Ok(Tick::Published));
    let snap = s.snapshot().unwrap();
    assert_eq!(snap.pixels(), &vec![2, 2, 2]);
    assert_eq!(snap.timestamp_ms(), 20);
}

#[test]
fn tick_passes_over_a_read_without_data() {
    let mut s = streaming_session(0);
    assert_eq!(s.tick(Ok(frame(1, 10)), 10), Ok(Tick::Published));
    let stats = s.stats();
    assert_eq!(s.tick(Err(CaptureError::NoData), 20), Ok(Tick::NoData));
    assert_eq!(s.state(), ConnectionState::Streaming);
    assert_eq!(s.stats(), stats);
    assert_eq!(s.snapshot().unwrap().pixels(), &vec![1, 1, 1]);
}

#[test]
fn tick_surfaces_other_errors_and_keeps_streaming() {
    for e in [CaptureError::Unavailable, CaptureError::ProtocolError, CaptureError::Fatal] {
        let mut s = streaming_session(0);
        assert_eq!(s.tick(Err(e), 20), Err(e));
        assert_eq!(s.state(), ConnectionState::Streaming);
        assert!(s.snapshot().is_none());
    }
}

#[test]
fn tick_discards_readings_when_not_streaming() {
    let mut s = Session::new();
    assert_eq!(s.tick(Ok(frame(1, 10)), 10), Ok(Tick::Idle));
    assert!(s.snapshot().is_none());
    assert_eq!(s.connect(ConnectEvent::Opened), Ok(()));
    assert_eq!(s.tick(Ok(frame(1, 10)), 10), Ok(Tick::Idle));
    assert_eq!(s.tick(Err(CaptureError::Fatal), 10), Ok(Tick::Idle));
    assert!(s.snapshot().is_none());
    assert_eq!(s.stats().frame_count, 0);
}

#[test]
fn a_late_reading_after_stop_is_discarded() {
    let mut s = streaming_session(0);
    assert_eq!(s.tick(Ok(frame(1, 10)), 10), Ok(Tick::Published));
    assert!(s.stop());
    assert_eq!(s.tick(Ok(frame(2, 20)), 20), Ok(Tick::Idle));
    assert_eq!(s.snapshot().unwrap().pixels(), &vec![1, 1, 1]);
}
