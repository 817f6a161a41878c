//! The helper-process bridge: the scripts sent to the interpreter and the
//! reading of how a run of the interpreter ended.
//!
//! One interpreter process serves one request. The host starts it with the
//! script as its `-c` argument and hands back what happened as a `ScriptRun`.

use crate::config::AppConfig;
use crate::error::EpiphanyError;
use crate::models::DeviceConfig;
use crate::text::{
    chars_of, decimal, decimal_string, joined, line_ranges, lines, matches_at, signed_decimal,
    signed_decimal_string,
};
use vstd::prelude::*;

verus! {

/// The device check, up to the first mention of the USB identifier.
pub const CHECK_SCRIPT_HEAD: &'static str = "
import subprocess
import sys
try:
    result = subprocess.run(['lsusb'], capture_output=True, text=True, timeout=5)
    if result.returncode == 0 and '";

/// The device check, between the two mentions of the USB identifier.
pub const CHECK_SCRIPT_MIDDLE: &'static str = "' in result.stdout:
        print('CONNECTED:";

/// The device check, after the second mention of the USB identifier.
pub const CHECK_SCRIPT_TAIL: &'static str = "')
    else:
        print('DISCONNECTED')
except subprocess.TimeoutExpired:
    print('ERROR:lsusb timeout')
except Exception as e:
    print(f'ERROR:{e}')
";

/// The live-frame script, up to the device index.
pub const LIVE_SCRIPT_OPEN: &'static str = "
import cv2
import base64
import sys
import time
import os

try:
    cap = cv2.VideoCapture(";

/// The live-frame script, from the device index to the width.
pub const LIVE_SCRIPT_WIDTH: &'static str = ")

    if not cap.isOpened():
        print('ERROR:Cannot open camera')
        sys.exit(1)

    cap.set(cv2.CAP_PROP_FRAME_WIDTH, ";

/// The live-frame script, from the width to the height.
pub const LIVE_SCRIPT_HEIGHT: &'static str = ")
    cap.set(cv2.CAP_PROP_FRAME_HEIGHT, ";

/// The live-frame script, from the height to the frame rate.
pub const LIVE_SCRIPT_RATE: &'static str = ")
    cap.set(cv2.CAP_PROP_FPS, ";

/// The live-frame script, from the frame rate to the scratch file it writes.
pub const LIVE_SCRIPT_WRITE: &'static str = ")
    cap.set(cv2.CAP_PROP_BUFFERSIZE, 1)

    for _ in range(1):
        cap.read()

    ret, frame = cap.read()
    cap.release()

    if not ret:
        print('ERROR:Cannot capture frame')
        sys.exit(1)

    cv2.imwrite('";

/// The live-frame script, from writing the scratch file to reading it back.
pub const LIVE_SCRIPT_READ: &'static str = "', frame, [cv2.IMWRITE_JPEG_QUALITY, 80])

    with open('";

/// The live-frame script, from reading the scratch file to removing it.
pub const LIVE_SCRIPT_REMOVE: &'static str = "', 'rb') as f:
        img_data = f.read()

    img_base64 = base64.b64encode(img_data).decode('utf-8')
    timestamp = int(time.time() * 1000)

    os.remove('";

/// The live-frame script, from removing the scratch file to the end.
pub const LIVE_SCRIPT_REPORT: &'static str = "')

    print('SUCCESS')
    print(img_base64)
    print(timestamp)

except Exception as e:
    print('ERROR:' + str(e))
";

/// The still-capture script, up to the device index.
pub const STILL_SCRIPT_OPEN: &'static str = "
import cv2
import base64
import sys

try:
    cap = cv2.VideoCapture(";

/// The still-capture script, from the device index to the width.
pub const STILL_SCRIPT_WIDTH: &'static str = ")

    if not cap.isOpened():
        print('ERROR:Cannot open camera')
        sys.exit(1)

    cap.set(cv2.CAP_PROP_FRAME_WIDTH, ";

/// The still-capture script, from the width to the height.
pub const STILL_SCRIPT_HEIGHT: &'static str = ")
    cap.set(cv2.CAP_PROP_FRAME_HEIGHT, ";

/// The still-capture script, from the height to the file it writes.
pub const STILL_SCRIPT_WRITE: &'static str = ")

    ret, frame = cap.read()
    cap.release()

    if not ret:
        print('ERROR:Cannot capture frame')
        sys.exit(1)

    cv2.imwrite('";

/// The still-capture script, from the file it writes to the end.
pub const STILL_SCRIPT_REPORT: &'static str = "', frame, [cv2.IMWRITE_JPEG_QUALITY, 95])

    _, buffer = cv2.imencode('.jpg', frame, [cv2.IMWRITE_JPEG_QUALITY, 95])
    img_base64 = base64.b64encode(buffer).decode('utf-8')

    print('SUCCESS:' + '{\"base64\":\"' + img_base64 + '\"}')

except Exception as e:
    print('ERROR:' + str(e))
";

/// How one run of the interpreter ended.
#[derive(Debug, Clone)]
pub enum ScriptRun {
    /// The process could not be started; `reason` is the system's explanation.
    LaunchFailed { reason: String },
    /// The process ran and exited. `code` is absent when a signal ended it.
    Exited { success: bool, code: Option<i32>, stdout: String, stderr: String },
    /// The process did not exit within the time allowed and was given up.
    TimedOut { after_ms: u64 },
}

/// How long the host waits for one run of the interpreter, in milliseconds.
/// A wedged device must not hang the caller.
pub const SCRIPT_TIMEOUT_MS: u64 = 5000;

/// The explanation given for a run that was given up after `after_ms` milliseconds.
pub open spec fn timeout_text(after_ms: u64) -> Seq<char> {
    "Python script timed out after "@ + decimal(after_ms as nat) + " ms"@
}

/// The explanation given for a run that exited unsuccessfully; an absent exit
/// code is written as `-1`.
pub open spec fn exit_failure_text(code: Option<i32>, stderr: Seq<char>) -> Seq<char> {
    "Python script failed with exit code: "@ + signed_decimal(
        match code {
            Some(c) => c as int,
            None => -1,
        },
    ) + ". Stderr: "@ + stderr
}

/// Why a run gave no usable output, in the words of an execution error.
pub open spec fn run_failure_text(run: ScriptRun) -> Seq<char> {
    match run {
        ScriptRun::LaunchFailed { reason } => "Failed to execute: "@ + reason@,
        ScriptRun::Exited { code, stderr, .. } => exit_failure_text(code, stderr@),
        ScriptRun::TimedOut { after_ms } => timeout_text(after_ms),
    }
}

/// The output of a run that exited successfully.
pub open spec fn script_output_of(run: ScriptRun) -> Option<Seq<char>> {
    match run {
        ScriptRun::Exited { success, stdout, .. } => if success {
            Some(stdout@)
        } else {
            None
        },
        _ => None,
    }
}

/// The answer of a capture run: whatever the script printed, also where it
/// exited unsuccessfully, since a script reports its own failures in its
/// output. A run that printed nothing and failed has no answer.
pub open spec fn capture_answer_of(run: ScriptRun) -> Option<Seq<char>> {
    match run {
        ScriptRun::Exited { success, stdout, .. } => if success || stdout@.len() > 0 {
            Some(stdout@)
        } else {
            None
        },
        _ => None,
    }
}

/// The execution error that explains why `run` gave no usable output.
pub fn run_failure(run: &ScriptRun) -> (r: EpiphanyError)
    ensures
        r matches EpiphanyError::PythonExecutionError(m) && m@ == run_failure_text(*run),
{
    match run {
        ScriptRun::LaunchFailed { reason } => EpiphanyError::PythonExecutionError(
            joined("Failed to execute: ", reason.as_str()),
        ),
        ScriptRun::Exited { success: _, code, stdout: _, stderr } => {
            let shown: i32 = match code {
                Some(c) => *c,
                None => -1,
            };
            let digits = signed_decimal_string(shown);
            let mut m = joined("Python script failed with exit code: ", digits.as_str());
            m.append(". Stderr: ");
            m.append(stderr.as_str());
            EpiphanyError::PythonExecutionError(m)
        },
        ScriptRun::TimedOut { after_ms } => {
            let digits = decimal_string(*after_ms);
            let mut m = joined("Python script timed out after ", digits.as_str());
            m.append(" ms");
            EpiphanyError::PythonExecutionError(m)
        },
    }
}

/// Reads how a run ended: its output if it exited successfully, otherwise
/// the execution error that says why. What a failed run printed is not looked at.
pub fn script_output(run: ScriptRun) -> (r: Result<String, EpiphanyError>)
    ensures
        match script_output_of(run) {
            Some(output) => r matches Ok(out) && out@ == output,
            None => r matches Err(EpiphanyError::PythonExecutionError(m)) && m@ == run_failure_text(
                run,
            ),
        },
{
    let failure = run_failure(&run);
    match run {
        ScriptRun::Exited { success, code, stdout, stderr } => if success {
            Ok(stdout)
        } else {
            Err(failure)
        },
        _ => Err(failure),
    }
}

/// Reads the answer of a capture run: what the script printed, also where it
/// exited unsuccessfully; an execution error only where it printed nothing
/// and failed, could not be started, or was given up.
pub fn capture_output(run: ScriptRun) -> (r: Result<String, EpiphanyError>)
    ensures
        match capture_answer_of(run) {
            Some(output) => r matches Ok(out) && out@ == output,
            None => r matches Err(EpiphanyError::PythonExecutionError(m)) && m@ == run_failure_text(
                run,
            ),
        },
{
    let failure = run_failure(&run);
    match run {
        ScriptRun::Exited { success, code, stdout, stderr } => if success || !stdout.as_str().is_empty() {
            Ok(stdout)
        } else {
            Err(failure)
        },
        _ => Err(failure),
    }
}

/// What a line of the device check's output begins with when the device was seen.
pub const CONNECTED_WORD: &'static str = "CONNECTED";

/// The device check found the device: a line of its output begins with
/// `CONNECTED`. A line that says `DISCONNECTED`, or reports an error, does not.
pub open spec fn reports_connected(output: Seq<char>) -> bool {
    exists|i: int|
        0 <= i < lines(output).len() && CONNECTED_WORD@.is_prefix_of(#[trigger] lines(output)[i])
}

/// Reads the output of the device check.
pub fn device_connected(output: &str) -> (r: bool)
    ensures
        r == reports_connected(output@),
{
    let text = chars_of(output);
    let ranges = line_ranges(&text);
    let word = chars_of(CONNECTED_WORD);
    let mut i: usize = 0;
    while i < ranges.len()
        invariant
            text@ == output@,
            word@ == CONNECTED_WORD@,
            i <= ranges@.len(),
            ranges@.len() == lines(text@).len(),
            forall|k: int|
                0 <= k < ranges@.len() ==> {
                    &&& (#[trigger] ranges@[k]).0 <= ranges@[k].1 <= text@.len()
                    &&& text@.subrange(ranges@[k].0 as int, ranges@[k].1 as int) == lines(text@)[k]
                },
            forall|k: int| 0 <= k < i ==> !CONNECTED_WORD@.is_prefix_of(#[trigger] lines(output@)[k]),
        decreases ranges.len() - i,
    {
        let range: (usize, usize) = ranges[i];
        let found = range.1 - range.0 >= word.len() && matches_at(&text, &word, range.0);
        proof {
            let line = lines(output@)[i as int];
            if word@.len() <= line.len() {
                assert(line.subrange(0, word@.len() as int) =~= text@.subrange(
                    range.0 as int,
                    range.0 + word@.len(),
                ));
            }
            assert(found == word@.is_prefix_of(line));
        }
        if found {
            return true;
        }
        i += 1;
    }
    false
}

/// Builds requests for the helper interpreter from a fixed configuration.
pub struct PythonBridge {
    config: AppConfig,
}

impl PythonBridge {
    /// The configuration this bridge was made with.
    pub closed spec fn config(&self) -> AppConfig {
        self.config
    }

    /// A bridge for the given configuration.
    pub fn new(config: AppConfig) -> (r: Self)
        ensures
            r.config() == config,
    {
        PythonBridge { config }
    }

    /// The interpreter that runs the scripts.
    pub fn python_path(&self) -> (r: &str)
        ensures
            r@ == self.config().python_path@,
    {
        self.config.python_path.as_str()
    }

    /// The device the scripts address.
    pub fn device(&self) -> (r: DeviceConfig)
        ensures
            r == self.config().device,
    {
        self.config.device
    }

    /// The script that looks for `device` on the USB bus.
    pub open spec fn check_script(device: DeviceConfig) -> Seq<char> {
        CHECK_SCRIPT_HEAD@ + device.usb_id_text() + CHECK_SCRIPT_MIDDLE@ + device.usb_id_text()
            + CHECK_SCRIPT_TAIL@
    }

    /// The script that captures one live frame from `device`, using
    /// `temp_file` as its scratch file.
    pub open spec fn live_script(device: DeviceConfig, temp_file: Seq<char>) -> Seq<char> {
        LIVE_SCRIPT_OPEN@ + decimal(device.video_device_index as nat) + LIVE_SCRIPT_WIDTH@
            + decimal(device.default_width as nat) + LIVE_SCRIPT_HEIGHT@ + decimal(
            device.default_height as nat,
        ) + LIVE_SCRIPT_RATE@ + decimal(device.default_fps as nat) + LIVE_SCRIPT_WRITE@ + temp_file
            + LIVE_SCRIPT_READ@ + temp_file + LIVE_SCRIPT_REMOVE@ + temp_file + LIVE_SCRIPT_REPORT@
    }

    /// The script that captures one still image from `device` and keeps it in
    /// `temp_file`.
    pub open spec fn still_script(device: DeviceConfig, temp_file: Seq<char>) -> Seq<char> {
        STILL_SCRIPT_OPEN@ + decimal(device.video_device_index as nat) + STILL_SCRIPT_WIDTH@
            + decimal(device.default_width as nat) + STILL_SCRIPT_HEIGHT@ + decimal(
            device.default_height as nat,
        ) + STILL_SCRIPT_WRITE@ + temp_file + STILL_SCRIPT_REPORT@
    }

    /// Reads how a run of the interpreter ended: its standard output if it
    /// exited successfully, otherwise an execution error that says why. What
    /// a failed run printed is not looked at.
    pub fn execute_script(&self, run: ScriptRun) -> (r: Result<String, EpiphanyError>)
        ensures
            match script_output_of(run) {
                Some(output) => r matches Ok(out) && out@ == output,
                None => r matches Err(EpiphanyError::PythonExecutionError(m)) && m@
                    == run_failure_text(run),
            },
    {
        script_output(run)
    }

    /// Writes the script that asks whether the configured device is on the USB bus.
    pub fn check_device_connection(&self) -> (r: String)
        ensures
            r@ == Self::check_script(self.config().device),
    {
        let id = self.config.device.usb_id();
        let mut r = String::from_str(CHECK_SCRIPT_HEAD);
        r.append(id.as_str());
        r.append(CHECK_SCRIPT_MIDDLE);
        r.append(id.as_str());
        r.append(CHECK_SCRIPT_TAIL);
        r
    }

    /// Writes the script for one live frame: it opens the configured device,
    /// applies width, height and rate, discards one warm-up frame, and prints
    /// `SUCCESS`, the frame as base64 and the capture time on three lines.
    pub fn capture_frame(&self, temp_file: &str) -> (r: String)
        ensures
            r@ == Self::live_script(self.config().device, temp_file@),
    {
        let index = decimal_string(self.config.device.video_device_index as u64);
        let width = decimal_string(self.config.device.default_width as u64);
        let height = decimal_string(self.config.device.default_height as u64);
        let rate = decimal_string(self.config.device.default_fps as u64);
        let mut r = String::from_str(LIVE_SCRIPT_OPEN);
        r.append(index.as_str());
        r.append(LIVE_SCRIPT_WIDTH);
        r.append(width.as_str());
        r.append(LIVE_SCRIPT_HEIGHT);
        r.append(height.as_str());
        r.append(LIVE_SCRIPT_RATE);
        r.append(rate.as_str());
        r.append(LIVE_SCRIPT_WRITE);
        r.append(temp_file);
        r.append(LIVE_SCRIPT_READ);
        r.append(temp_file);
        r.append(LIVE_SCRIPT_REMOVE);
        r.append(temp_file);
        r.append(LIVE_SCRIPT_REPORT);
        r
    }

    /// Writes the script for one still image: it opens the configured device,
    /// applies width and height, stores the frame in `temp_file` and prints
    /// `SUCCESS:` followed by an object whose `base64` member holds the image.
    pub fn capture_high_quality_image(&self, temp_file: &str) -> (r: String)
        ensures
            r@ == Self::still_script(self.config().device, temp_file@),
    {
        let index = decimal_string(self.config.device.video_device_index as u64);
        let width = decimal_string(self.config.device.default_width as u64);
        let height = decimal_string(self.config.device.default_height as u64);
        let mut r = String::from_str(STILL_SCRIPT_OPEN);
        r.append(index.as_str());
        r.append(STILL_SCRIPT_WIDTH);
        r.append(width.as_str());
        r.append(STILL_SCRIPT_HEIGHT);
        r.append(height.as_str());
        r.append(STILL_SCRIPT_WRITE);
        r.append(temp_file);
        r.append(STILL_SCRIPT_REPORT);
        r
    }
}

} // verus!
