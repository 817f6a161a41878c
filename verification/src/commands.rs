//! The command surface of the delegated variant, without its I/O.
//!
//! Each command of the host is a thin shell: it runs a script or writes a
//! file, and asks the function of the same name here what to answer.

use crate::bridge::{
    capture_answer_of, capture_output, device_connected, reports_connected, run_failure_text,
    script_output, script_output_of, ScriptRun,
};
use crate::config::{join_path, lemma_request_paths_differ, request_file_name, AppConfig};
use crate::error::{is_decode_failure_reason, CaptureError, EpiphanyError};
use crate::models::{
    CaptureResult, CaptureResultView, DeviceConfig, MicroscopeStatus, MicroscopeStatusView,
    StreamFrame, StreamFrameView,
};
use crate::outside::base64_decoding;
use crate::persist::{file_write_for, save_base64_file, FileWrite};
use crate::protocol::{
    classify_live_response, frame_of, live_failure, live_result, parse_live_response,
    parse_still_response, still_result,
};
use crate::text::{joined, trim, trimmed_text};
use vstd::prelude::*;
use vstd::string::StringSliceAdditionalSpecFns;

verus! {

/// The stem of the scratch files of live captures.
pub const LIVE_FRAME_FILE: &'static str = "microscope_live_frame.jpg";

/// The stem of the files of still captures.
pub const CAPTURE_FILE: &'static str = "microscope_capture.jpg";

/// The script that `test_camera` runs.
pub const TEST_SCRIPT: &'static str = "print('Hello from Python!')";

/// The frame that reports `error`.
pub open spec fn failed_frame(error: Seq<char>) -> StreamFrameView {
    StreamFrameView { success: false, image_base64: None, timestamp: 0, error: Some(error) }
}

/// The capture result that reports `error`.
pub open spec fn failed_capture(error: Seq<char>) -> CaptureResultView {
    CaptureResultView { success: false, image_path: None, image_base64: None, error: Some(error) }
}

/// The answer to a device check: whether the script saw the device, or the
/// text of the error if the script did not run to a successful end.
pub open spec fn check_answer(run: ScriptRun, device: DeviceConfig) -> Result<
    MicroscopeStatusView,
    Seq<char>,
> {
    match script_output_of(run) {
        Some(output) => Ok(
            if reports_connected(output) {
                MicroscopeStatus::present(device)
            } else {
                MicroscopeStatus::absent()
            },
        ),
        None => Err(execution_error_text(run)),
    }
}

/// The text of the execution error for a run that gave no usable output.
pub open spec fn execution_error_text(run: ScriptRun) -> Seq<char> {
    "Python execution failed: "@ + run_failure_text(run)
}

/// The answer to a live-frame request.
pub open spec fn live_frame_answer(run: ScriptRun) -> StreamFrameView {
    match capture_answer_of(run) {
        Some(output) => frame_of(live_result(output)),
        None => failed_frame(execution_error_text(run)),
    }
}

/// The answer to a still-capture request.
pub open spec fn capture_answer(run: ScriptRun, temp_file: Seq<char>) -> CaptureResultView {
    match capture_answer_of(run) {
        Some(output) => still_result(output, temp_file),
        None => failed_capture(execution_error_text(run)),
    }
}

/// How a live capture that gave no frame is classified. A helper that could
/// not be started, or that failed without a word, is fatal to streaming; one
/// that did not answer in time counts as an unavailable camera; an answer is
/// classified by the response grammar.
pub open spec fn live_run_failure(run: ScriptRun) -> Option<CaptureError> {
    match capture_answer_of(run) {
        Some(output) => live_failure(output),
        None => if run is TimedOut {
            Some(CaptureError::Unavailable)
        } else {
            Some(CaptureError::Fatal)
        },
    }
}

/// Answers a device check from the run of the check script.
pub fn check_microscope(run: ScriptRun, device: &DeviceConfig) -> (r: Result<
    MicroscopeStatus,
    String,
>)
    ensures
        match check_answer(run, *device) {
            Ok(status) => r matches Ok(s) && s@ == status,
            Err(text) => r matches Err(m) && m@ == text,
        },
{
    match script_output(run) {
        Ok(output) => Ok(MicroscopeStatus::from_check(device_connected(output.as_str()), device)),
        Err(e) => Err(e.message()),
    }
}

/// Answers a live-frame request from the run of the live script. The answer
/// is always a frame value: a failure is reported inside it.
pub fn get_live_frame(run: ScriptRun) -> (r: StreamFrame)
    ensures
        r@ == live_frame_answer(run),
{
    match capture_output(run) {
        Ok(output) => StreamFrame::from_bridge(parse_live_response(output.as_str())),
        Err(e) => StreamFrame::error(e.message()),
    }
}

/// Classifies the run of a live script: `None` for a frame, otherwise the
/// kind of failure, by which the scheduler decides whether to go on.
pub fn classify_live_run(run: &ScriptRun) -> (r: Option<CaptureError>)
    ensures
        r == live_run_failure(*run),
{
    match run {
        ScriptRun::Exited { success, code: _, stdout, stderr: _ } => if *success
            || !stdout.as_str().is_empty() {
            classify_live_response(stdout.as_str())
        } else {
            Some(CaptureError::Fatal)
        },
        ScriptRun::TimedOut { after_ms: _ } => Some(CaptureError::Unavailable),
        ScriptRun::LaunchFailed { reason: _ } => Some(CaptureError::Fatal),
    }
}

/// Answers a still-capture request from the run of the still script;
/// `temp_file` is where the script stored the image. A failure is reported
/// inside the answer.
pub fn capture_image(run: ScriptRun, temp_file: &str) -> (r: CaptureResult)
    ensures
        r@ == capture_answer(run, temp_file@),
{
    match capture_output(run) {
        Ok(output) => parse_still_response(output.as_str(), temp_file),
        Err(e) => CaptureResult::error(e.message()),
    }
}

/// Answers an interpreter test from the run of the test script:
/// `Test successful: ` and the output without the white space around it.
pub fn test_camera(run: ScriptRun) -> (r: Result<String, String>)
    ensures
        match script_output_of(run) {
            Some(output) => r matches Ok(m) && m@ == "Test successful: "@ + trimmed_text(output),
            None => r matches Err(m) && m@ == execution_error_text(run),
        },
{
    match script_output(run) {
        Ok(output) => Ok(joined("Test successful: ", trim(output.as_str()))),
        Err(e) => Err(e.message()),
    }
}

/// The text with which a payload that is not base64 is refused.
pub open spec fn is_decode_failure_message(m: Seq<char>) -> bool {
    exists|reason: Seq<char>| #[trigger]
        is_decode_failure_reason(reason) && m == "File operation failed: "@ + reason
}

/// Prepares saving an image: the bytes that `image_base64` encodes and the
/// file `filename` of the output directory. A payload that is not base64 is
/// refused with the text of a file operation error.
pub fn save_image(image_base64: &str, filename: &str, config: &AppConfig) -> (r: Result<
    FileWrite,
    String,
>)
    ensures
        match base64_decoding(image_base64@) {
            Some(bytes) => r matches Ok(write) && write.data@ == bytes && write.path@ == join_path(
                config.output_dir@,
                filename@,
            ),
            None => r matches Err(m) && is_decode_failure_message(m@),
        },
{
    match save_base64_file(image_base64, filename, config) {
        Ok(write) => Ok(write),
        Err(e) => {
            let m = e.message();
            assert(is_decode_failure_reason(e->FileOperationError_0@) && m@
                == "File operation failed: "@ + e->FileOperationError_0@);
            Err(m)
        },
    }
}

/// Prepares saving a log: the text as given, byte for byte in UTF-8, and the
/// file `filename` of the output directory. Every text is accepted.
pub fn save_log(log_content: &str, filename: &str, config: &AppConfig) -> (r: Result<
    FileWrite,
    String,
>)
    ensures
        r matches Ok(write) && write.data@ == log_content.spec_bytes() && write.path@ == join_path(
            config.output_dir@,
            filename@,
        ),
{
    Ok(file_write_for(log_content.as_bytes_vec(), filename, config))
}

/// What the commands share: whether the host is asked to stream, whether a
/// capture is under way, and the number the next capture request will get.
/// The host guards it with a lock.
#[derive(Debug, Clone, Copy, PartialEq, Eq, Structural)]
pub struct StreamingState {
    pub streaming: bool,
    pub capture_active: bool,
    pub next_request: u64,
}

/// The reason given to a capture request that arrives while another is under way.
pub const MSG_DEVICE_BUSY: &'static str = "device busy";

/// The request number that follows `request`; after the largest comes zero.
pub open spec fn request_after(request: u64) -> u64 {
    if request == u64::MAX {
        0
    } else {
        (request + 1) as u64
    }
}

impl StreamingState {
    /// A state in which nothing streams, nothing is captured, and the first
    /// request will get number zero.
    pub fn new() -> (r: StreamingState)
        ensures
            r == (StreamingState { streaming: false, capture_active: false, next_request: 0 }),
    {
        StreamingState { streaming: false, capture_active: false, next_request: 0 }
    }

    /// Claims the device for one capture and gives the request its number.
    /// A request that arrives while another capture is under way is refused
    /// and changes nothing.
    pub fn begin_capture(&mut self) -> (r: Result<u64, EpiphanyError>)
        ensures
            old(self).capture_active ==> (r matches Err(EpiphanyError::StreamingError(m)) && m@
                == MSG_DEVICE_BUSY@) && *final(self) == *old(self),
            !old(self).capture_active ==> r == Ok::<u64, EpiphanyError>(old(self).next_request)
                && *final(self) == (StreamingState {
                capture_active: true,
                next_request: request_after(old(self).next_request),
                ..*old(self)
            }),
    {
        if self.capture_active {
            Err(EpiphanyError::StreamingError(String::from_str(MSG_DEVICE_BUSY)))
        } else {
            let request: u64 = self.next_request;
            self.capture_active = true;
            self.next_request = if request == u64::MAX {
                0
            } else {
                request + 1
            };
            Ok(request)
        }
    }

    /// Gives the device back after a capture.
    pub fn end_capture(&mut self)
        ensures
            *final(self) == (StreamingState { capture_active: false, ..*old(self) }),
    {
        self.capture_active = false;
    }
}

/// The scratch file of the live capture with request number `request`.
pub fn live_frame_file(config: &AppConfig, request: u64) -> (r: String)
    ensures
        r@ == join_path(config.temp_dir@, request_file_name(LIVE_FRAME_FILE@, request)),
{
    config.request_temp_file(LIVE_FRAME_FILE, request)
}

/// The file of the still capture with request number `request`.
pub fn capture_file(config: &AppConfig, request: u64) -> (r: String)
    ensures
        r@ == join_path(config.temp_dir@, request_file_name(CAPTURE_FILE@, request)),
{
    config.request_temp_file(CAPTURE_FILE, request)
}

/// Each capture request gets a scratch file of its own: the request that
/// follows another has another number, and with it another path.
pub proof fn lemma_next_request_has_its_own_file(dir: Seq<char>, stem: Seq<char>, request: u64)
    ensures
        request_after(request) != request,
        join_path(dir, request_file_name(stem, request_after(request))) != join_path(
            dir,
            request_file_name(stem, request),
        ),
{
    lemma_request_paths_differ(dir, stem, request_after(request), request);
}

/// Asks for streaming. Always succeeds.
pub fn start_streaming(state: &mut StreamingState) -> (r: bool)
    ensures
        r,
        *final(state) == (StreamingState { streaming: true, ..*old(state) }),
{
    state.streaming = true;
    true
}

/// Asks for streaming to end. Always succeeds.
pub fn stop_streaming(state: &mut StreamingState) -> (r: bool)
    ensures
        r,
        *final(state) == (StreamingState { streaming: false, ..*old(state) }),
{
    state.streaming = false;
    true
}

/// Tells whether streaming is asked for.
pub fn is_streaming(state: &StreamingState) -> (r: bool)
    ensures
        r == state.streaming,
{
    state.streaming
}

} // verus!
