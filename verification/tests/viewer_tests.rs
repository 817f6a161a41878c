use microscope::error::MicroscopeError;
use microscope::frame::{ColorLayout, Frame};
use microscope::log_panel::{LogPanel, LOG_LIMIT};
use microscope::session::ConnectionState;
use microscope::viewer::{ConnectAttempt, DeviceRequest, MicroscopeApp, Resolution};

fn frame(tag: u8, at: u64) -> Frame {
    Frame::new(vec![tag, tag + 1, tag + 2], 1, 1, ColorLayout::Bgr, at)
}

fn connected() -> MicroscopeApp {
    let mut app = MicroscopeApp::new("/home/user".to_string());
    assert!(app.connect_microscope().is_some());
    assert!(app.device_opened(ConnectAttempt::Opened).is_ok());
    app
}

fn messages(app: &MicroscopeApp) -> Vec<String> {
    let log = app.log();
    (0..log.len()).map(|i| log.entry(i).to_string()).collect()
}

fn is_clock_entry(entry: &str, message: &str) -> bool {
    let b = entry.as_bytes();
    entry.len() == 11 + message.len()
        && b[0] == b'['
        && b[1].is_ascii_digit()
        && b[2].is_ascii_digit()
        && b[3] == b':'
        && b[4].is_ascii_digit()
        && b[5].is_ascii_digit()
        && b[6] == b':'
        && b[7].is_ascii_digit()
        && b[8].is_ascii_digit()
        && &entry[9..11] == "] "
        && &entry[11..] == message
}

#[test]
fn log_record_formats_the_entry() {
    let mut log = LogPanel::new();
    assert_eq!(log.len(), 0);
    log.record("12:34:56", "hello");
    assert_eq!(log.len(), 1);
    assert_eq!(log.entry(0), "[12:34:56] hello");
}

#[test]
fn log_keeps_the_newest_hundred_entries() {
    let mut log = LogPanel::new();
    for i in 0..LOG_LIMIT {
        log.record("t", &format!("m{}", i));
    }
    assert_eq!(log.len(), 100);
    assert_eq!(log.entry(0), "[t] m0");
    log.record("t", "m100");
    assert_eq!(log.len(), 100);
    assert_eq!(log.entry(0), "[t] m1");
    assert_eq!(log.entry(99), "[t] m100");
    log.record("t", "m101");
    assert_eq!(log.len(), 100);
    assert_eq!(log.entry(0), "[t] m2");
    assert_eq!(log.entry(98), "[t] m100");
    assert_eq!(log.entry(99), "[t] m101");
}

#[test]
fn add_log_stamps_the_time_of_day() {
    let mut log = LogPanel::new();
    log.add_log("Video streaming started");
    assert_eq!(log.len(), 1);
    assert!(is_clock_entry(log.entry(0), "Video streaming started"), "{:?}", log.entry(0));
}

#[test]
fn resolutions_are_the_three_of_the_list() {
    assert_eq!(Resolution::from_index(0), Some(Resolution::Standard));
    assert_eq!(Resolution::from_index(1), Some(Resolution::Low));
    assert_eq!(Resolution::from_index(2), Some(Resolution::Hd));
    assert_eq!(Resolution::from_index(3), None);
    assert_eq!(Resolution::from_index(usize::MAX), None);
    assert_eq!(Resolution::Standard.dimensions(), (640, 480));
    assert_eq!(Resolution::Low.dimensions(), (320, 240));
    assert_eq!(Resolution::Hd.dimensions(), (1280, 720));
    for i in 0..3 {
        assert_eq!(Resolution::from_index(i).unwrap().index(), i);
    }
}

#[test]
fn new_viewer_is_idle() {
    let app = MicroscopeApp::new("/home/user".to_string());
    assert!(!app.is_connected());
    assert!(!app.is_streaming());
    assert_eq!(app.fps(), 0);
    assert_eq!(app.save_directory(), "/home/user");
    assert_eq!(app.resolution(), Resolution::Standard);
    assert_eq!(app.log().len(), 0);
    assert_eq!(app.session().state(), ConnectionState::Disconnected);
}

#[test]
fn connect_asks_for_the_device_and_logs() {
    let mut app = MicroscopeApp::new(".".to_string());
    assert_eq!(
        app.connect_microscope(),
        Some(DeviceRequest { device_index: 4, width: 640, height: 480, fps: 30 })
    );
    assert!(!app.is_connected());
    assert!(app.device_opened(ConnectAttempt::Opened).is_ok());
    assert!(app.is_connected());
    let log = messages(&app);
    assert_eq!(log.len(), 2);
    assert!(is_clock_entry(&log[0], "Attempting to connect microscope..."));
    assert!(is_clock_entry(&log[1], "Microscope connected successfully!"));
}

#[test]
fn connect_uses_the_chosen_resolution() {
    let mut app = MicroscopeApp::new(".".to_string());
    assert!(app.select_resolution(2));
    assert_eq!(app.resolution(), Resolution::Hd);
    assert!(!app.select_resolution(3));
    assert_eq!(app.resolution(), Resolution::Hd);
    assert_eq!(
        app.connect_microscope(),
        Some(DeviceRequest { device_index: 4, width: 1280, height: 720, fps: 30 })
    );
}

#[test]
fn connect_when_connected_does_nothing() {
    let mut app = connected();
    let before = messages(&app);
    assert_eq!(app.connect_microscope(), None);
    assert!(app.device_opened(ConnectAttempt::NotOpened).is_ok());
    assert!(app.is_connected());
    assert_eq!(messages(&app), before);
}

#[test]
fn failed_connection_attempts_are_reported() {
    let mut app = MicroscopeApp::new(".".to_string());
    assert!(app.connect_microscope().is_some());
    match app.device_opened(ConnectAttempt::NotOpened) {
        Err(e) => assert_eq!(e.message(), "Connection Error: Cannot open video device"),
        Ok(()) => panic!("must fail"),
    }
    match app.device_opened(ConnectAttempt::OpenFailed("no backend".to_string())) {
        Err(MicroscopeError::OpenCvError(m)) => assert_eq!(m, "no backend"),
        other => panic!("unexpected: {:?}", other),
    }
    match app.device_opened(ConnectAttempt::SettingFailed("bad width".to_string())) {
        Err(e) => assert_eq!(e.message(), "OpenCV Error: bad width"),
        Ok(()) => panic!("must fail"),
    }
    assert!(!app.is_connected());
    assert_eq!(messages(&app).len(), 1);
    app.connection_failed(&MicroscopeError::ConnectionError("Cannot open video device".to_string()));
    let log = messages(&app);
    assert!(is_clock_entry(&log[1], "Connection failed: Connection Error: Cannot open video device"));
}

#[test]
fn streaming_is_logged_once() {
    let mut app = connected();
    app.start_streaming(0);
    assert!(app.is_streaming());
    app.start_streaming(10);
    app.stop_streaming();
    assert!(!app.is_streaming());
    app.stop_streaming();
    let log = messages(&app);
    assert_eq!(log.len(), 4);
    assert!(is_clock_entry(&log[2], "Video streaming started"));
    assert!(is_clock_entry(&log[3], "Video streaming stopped"));
}

#[test]
fn start_before_connect_does_nothing() {
    let mut app = MicroscopeApp::new(".".to_string());
    app.start_streaming(0);
    assert!(!app.is_streaming());
    assert!(!app.is_connected());
    assert_eq!(app.log().len(), 0);
}

#[test]
fn disconnect_while_streaming_logs_both_steps() {
    let mut app = connected();
    app.start_streaming(0);
    app.disconnect_microscope();
    assert!(!app.is_connected());
    assert!(!app.is_streaming());
    let log = messages(&app);
    assert_eq!(log.len(), 5);
    assert!(is_clock_entry(&log[3], "Video streaming stopped"));
    assert!(is_clock_entry(&log[4], "Microscope disconnected"));
    app.disconnect_microscope();
    assert_eq!(messages(&app), log);
}

#[test]
fn disconnect_when_connected_logs_once() {
    let mut app = connected();
    app.disconnect_microscope();
    let log = messages(&app);
    assert_eq!(log.len(), 3);
    assert!(is_clock_entry(&log[2], "Microscope disconnected"));
}

#[test]
fn capture_frame_without_a_frame_fails() {
    let mut app = connected();
    app.start_streaming(0);
    match app.capture_frame(None, 5) {
        Err(e) => assert_eq!(e.message(), "Capture Error: Frame capture failed"),
        Ok(()) => panic!("must fail"),
    }
    assert!(app.is_streaming());
}

#[test]
fn capture_frame_counts_frames() {
    let mut app = connected();
    app.start_streaming(0);
    for t in [100u64, 200, 300] {
        assert!(app.capture_frame(Some(frame(1, t)), t).is_ok());
    }
    assert_eq!(app.fps(), 0);
    assert!(app.capture_frame(Some(frame(1, 1000)), 1000).is_ok());
    assert_eq!(app.fps(), 4);
}

#[test]
fn update_returns_the_frame_for_display() {
    let mut app = connected();
    assert!(app.update(Some(frame(1, 5)), 5).is_none());
    app.start_streaming(0);
    let shown = app.update(Some(frame(1, 5)), 5).unwrap();
    assert_eq!(shown.pixels(), &vec![3, 2, 1]);
    assert_eq!(shown.layout(), ColorLayout::Rgb);
    assert!(app.update(None, 6).is_none());
    let too_small = Frame::new(vec![1, 2, 3], 2, 2, ColorLayout::Bgr, 7);
    assert!(app.update(Some(too_small), 7).is_none());
    assert_eq!(app.session().stats().frame_count, 2);
}

#[test]
fn save_needs_a_frame() {
    let app = connected();
    match app.save_request("20240102_030405") {
        Err(e) => assert_eq!(e.message(), "Capture Error: No frame to save"),
        Ok(_) => panic!("must fail"),
    }
    match app.save_image() {
        Err(MicroscopeError::CaptureError(m)) => assert_eq!(m, "No frame to save"),
        other => panic!("unexpected: {:?}", other),
    }
}

#[test]
fn save_names_the_file_after_the_time() {
    let mut app = connected();
    app.start_streaming(0);
    assert!(app.capture_frame(Some(frame(5, 9)), 9).is_ok());
    let request = app.save_request("20240102_030405").unwrap();
    assert_eq!(request.filename, "/home/user/microscope_20240102_030405.jpg");
    assert_eq!(request.frame.pixels(), &vec![5, 6, 7]);
    assert_eq!(request.frame.layout(), ColorLayout::Bgr);

    let now = app.save_image().unwrap();
    let name = now.filename;
    assert!(name.starts_with("/home/user/microscope_"));
    assert!(name.ends_with(".jpg"));
    let stamp = &name["/home/user/microscope_".len()..name.len() - 4];
    assert_eq!(stamp.len(), 15);
    assert_eq!(stamp.as_bytes()[8], b'_');
    assert!(stamp.bytes().enumerate().all(|(i, b)| i == 8 || b.is_ascii_digit()));
    assert_eq!(now.frame.pixels(), &vec![5, 6, 7]);
}

#[test]
fn a_finished_save_is_logged_and_a_failed_one_returned() {
    let mut app = connected();
    assert!(app.image_saved("/x/a.jpg", None).is_ok());
    let log = messages(&app);
    assert!(is_clock_entry(&log[2], "Image saved: /x/a.jpg"));
    match app.image_saved("/x/a.jpg", Some("disk full".to_string())) {
        Err(e) => {
            assert_eq!(e.message(), "OpenCV Error: disk full");
            app.save_failed(&e);
        }
        Ok(()) => panic!("must fail"),
    }
    let log = messages(&app);
    assert_eq!(log.len(), 4);
    assert!(is_clock_entry(&log[3], "Save failed: OpenCV Error: disk full"));
}

#[test]
fn choosing_a_save_folder_is_logged() {
    let mut app = MicroscopeApp::new(".".to_string());
    app.set_save_directory("/data/shots".to_string());
    assert_eq!(app.save_directory(), "/data/shots");
    assert!(is_clock_entry(&messages(&app)[0], "Save folder: /data/shots"));
    app.add_log("note");
    assert!(is_clock_entry(&messages(&app)[1], "note"));
}
