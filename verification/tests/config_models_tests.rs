use microscope::config::{join, AppConfig};
use microscope::error::{CaptureError, EpiphanyError, MicroscopeError};
use microscope::models::{CaptureResult, DeviceConfig, MicroscopeStatus, StreamFrame};
use std::path::Path;

#[test]
fn default_device_is_the_supported_microscope() {
    let d = DeviceConfig::default();
    assert_eq!(d.vendor_id, 0x05e3);
    assert_eq!(d.product_id, 0xf12a);
    assert_eq!(d.video_device_index, 4);
    assert_eq!(d.default_width, 640);
    assert_eq!(d.default_height, 480);
    assert_eq!(d.default_fps, 30);
    assert_eq!(d.usb_id(), "05e3:f12a");
    assert_eq!(d.resolution(), "640x480");
}

#[test]
fn status_of_a_present_device() {
    let s = MicroscopeStatus::from_check(true, &DeviceConfig::default());
    assert!(s.connected);
    assert_eq!(s.device_id.as_deref(), Some("05e3:f12a"));
    assert_eq!(s.resolution, "640x480");
    assert_eq!(s.fps, 30);
}

#[test]
fn status_of_an_absent_device_is_the_default() {
    let s = MicroscopeStatus::from_check(false, &DeviceConfig::default());
    let d = MicroscopeStatus::default();
    for status in [s, d] {
        assert!(!status.connected);
        assert_eq!(status.device_id, None);
        assert_eq!(status.resolution, "");
        assert_eq!(status.fps, 0);
    }
}

#[test]
fn capture_result_constructors() {
    let ok = CaptureResult::success(Some("p".to_string()), Some("b".to_string()));
    assert!(ok.success);
    assert_eq!(ok.image_path.as_deref(), Some("p"));
    assert_eq!(ok.image_base64.as_deref(), Some("b"));
    assert_eq!(ok.error, None);
    let bare = CaptureResult::success(None, None);
    assert!(bare.success);
    assert_eq!(bare.image_path, None);
    assert_eq!(bare.image_base64, None);
    let bad = CaptureResult::error("why".to_string());
    assert!(!bad.success);
    assert_eq!(bad.image_path, None);
    assert_eq!(bad.image_base64, None);
    assert_eq!(bad.error.as_deref(), Some("why"));
}

#[test]
fn stream_frame_constructors() {
    let ok = StreamFrame::success("b".to_string(), 17);
    assert!(ok.success);
    assert_eq!(ok.image_base64.as_deref(), Some("b"));
    assert_eq!(ok.timestamp, 17);
    assert_eq!(ok.error, None);
    let bad = StreamFrame::error("why".to_string());
    assert!(!bad.success);
    assert_eq!(bad.image_base64, None);
    assert_eq!(bad.timestamp, 0);
    assert_eq!(bad.error.as_deref(), Some("why"));
}

#[test]
fn join_agrees_with_std_paths() {
    for (dir, name) in [
        ("/tmp", "a.jpg"),
        ("/tmp/", "a.jpg"),
        ("/tmp", "/abs/a.jpg"),
        ("", "a.jpg"),
        ("", ""),
        ("/tmp", ""),
        ("/", "a"),
        (".", "../../venv/bin/python3"),
        ("/home/user", "sub/dir/file.txt"),
        ("rel", "x"),
        ("/tmp//", "x"),
    ] {
        let expected = Path::new(dir).join(name).to_string_lossy().to_string();
        assert_eq!(join(dir, name), expected, "{:?} {:?}", dir, name);
    }
}

#[test]
fn app_config_new_uses_the_given_directories() {
    let c = AppConfig::new("/home/user", "/work/app", false);
    assert_eq!(c.device, DeviceConfig::default());
    assert_eq!(c.python_path, "python3");
    assert_eq!(c.temp_dir, "/tmp");
    assert_eq!(c.output_dir, "/home/user");
    let v = AppConfig::new(".", "/work/app", true);
    assert_eq!(v.python_path, "/work/app/../../venv/bin/python3");
    assert_eq!(v.output_dir, ".");
}

#[test]
fn python_path_prefers_the_local_interpreter() {
    assert_eq!(AppConfig::venv_python("/a/b"), "/a/b/../../venv/bin/python3");
    assert_eq!(AppConfig::get_python_path("/a/b", true), "/a/b/../../venv/bin/python3");
    assert_eq!(AppConfig::get_python_path("/a/b", false), "python3");
}

#[test]
fn temp_and_output_files() {
    let c = AppConfig::new("/home/user", "/work", false);
    assert_eq!(c.get_temp_file("microscope_live_frame.jpg"), "/tmp/microscope_live_frame.jpg");
    assert_eq!(c.get_output_file("shot.jpg"), "/home/user/shot.jpg");
    assert_eq!(c.get_output_file("/elsewhere/shot.jpg"), "/elsewhere/shot.jpg");
}

#[test]
fn epiphany_error_messages() {
    assert_eq!(EpiphanyError::PythonExecutionError("x".into()).message(), "Python execution failed: x");
    assert_eq!(EpiphanyError::DeviceNotFound.message(), "Microscope device not found");
    assert_eq!(EpiphanyError::CameraAccessError("x".into()).message(), "Camera access error: x");
    assert_eq!(EpiphanyError::FileOperationError("x".into()).message(), "File operation failed: x");
    assert_eq!(EpiphanyError::ConfigurationError("x".into()).message(), "Configuration error: x");
    assert_eq!(EpiphanyError::StreamingError("x".into()).message(), "Streaming error: x");
    assert_eq!(EpiphanyError::file_operation("disk full").message(), "File operation failed: disk full");
}

#[test]
fn microscope_error_messages() {
    assert_eq!(MicroscopeError::OpenCvError("x".into()).message(), "OpenCV Error: x");
    assert_eq!(MicroscopeError::ConnectionError("x".into()).message(), "Connection Error: x");
    assert_eq!(MicroscopeError::CaptureError("x".into()).message(), "Capture Error: x");
}

#[test]
fn only_fatal_capture_errors_are_not_transient() {
    assert!(CaptureError::NoData.transient());
    assert!(CaptureError::Unavailable.transient());
    assert!(CaptureError::ProtocolError.transient());
    assert!(!CaptureError::Fatal.transient());
}

#[test]
fn request_temp_file_names_the_request() {
    let c = AppConfig::new("/home/user", "/work", false);
    assert_eq!(c.request_temp_file("microscope_live_frame.jpg", 0), "/tmp/0_microscope_live_frame.jpg");
    assert_eq!(c.request_temp_file("microscope_live_frame.jpg", 17), "/tmp/17_microscope_live_frame.jpg");
    assert_eq!(
        c.request_temp_file("x.jpg", u64::MAX),
        "/tmp/18446744073709551615_x.jpg"
    );
    assert_eq!(c.request_temp_file("", 5), "/tmp/5_");
}

#[test]
fn different_requests_get_different_files() {
    let c = AppConfig::new("/home/user", "/work", false);
    let mut seen: Vec<String> = Vec::new();
    for request in [0u64, 1, 2, 9, 10, 11, 19, 100, 101, 110, 1000, u64::MAX - 1, u64::MAX] {
        let path = c.request_temp_file("a.jpg", request);
        assert!(!seen.contains(&path), "{}", path);
        seen.push(path);
    }
}
