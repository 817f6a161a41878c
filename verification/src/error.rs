//! Error types of the capture core and the text each one shows to a user.

use crate::outside::{decode_error_text, is_decode_error_text};
use crate::text::joined;
use vstd::prelude::*;

verus! {

/// The reason of a file operation error for a payload that is not base64:
/// `Base64 decode error: ` and then the decoder's own words.
pub open spec fn is_decode_failure_reason(reason: Seq<char>) -> bool {
    exists|words: Seq<char>| #[trigger]
        is_decode_error_text(words) && reason == "Base64 decode error: "@ + words
}

/// Failures of the delegated (script-driven) variant.
#[derive(Debug, Clone)]
pub enum EpiphanyError {
    PythonExecutionError(String),
    DeviceNotFound,
    CameraAccessError(String),
    FileOperationError(String),
    ConfigurationError(String),
    StreamingError(String),
}

impl EpiphanyError {
    /// The text shown for this error.
    pub open spec fn message_text(self) -> Seq<char> {
        match self {
            EpiphanyError::PythonExecutionError(m) => "Python execution failed: "@ + m@,
            EpiphanyError::DeviceNotFound => "Microscope device not found"@,
            EpiphanyError::CameraAccessError(m) => "Camera access error: "@ + m@,
            EpiphanyError::FileOperationError(m) => "File operation failed: "@ + m@,
            EpiphanyError::ConfigurationError(m) => "Configuration error: "@ + m@,
            EpiphanyError::StreamingError(m) => "Streaming error: "@ + m@,
        }
    }

    /// Renders the error for display.
    pub fn message(&self) -> (r: String)
        ensures
            r@ == self.message_text(),
    {
        match self {
            EpiphanyError::PythonExecutionError(m) => joined("Python execution failed: ", m.as_str()),
            EpiphanyError::DeviceNotFound => String::from_str("Microscope device not found"),
            EpiphanyError::CameraAccessError(m) => joined("Camera access error: ", m.as_str()),
            EpiphanyError::FileOperationError(m) => joined("File operation failed: ", m.as_str()),
            EpiphanyError::ConfigurationError(m) => joined("Configuration error: ", m.as_str()),
            EpiphanyError::StreamingError(m) => joined("Streaming error: ", m.as_str()),
        }
    }

    /// A file operation that failed for the given reason, as the operating
    /// system or a library reported it.
    pub fn file_operation(reason: &str) -> (r: EpiphanyError)
        ensures
            r matches EpiphanyError::FileOperationError(m) && m@ == reason@,
    {
        EpiphanyError::FileOperationError(String::from_str(reason))
    }

    /// A payload that is not valid base64: a file operation error whose reason
    /// is `Base64 decode error: ` followed by the decoder's words.
    pub fn from_decode_error(error: &base64::DecodeError) -> (r: EpiphanyError)
        ensures
            r matches EpiphanyError::FileOperationError(m) && is_decode_failure_reason(m@),
    {
        let detail = decode_error_text(error);
        let m = joined("Base64 decode error: ", detail.as_str());
        assert(is_decode_error_text(detail@) && m@ == "Base64 decode error: "@ + detail@);
        EpiphanyError::FileOperationError(m)
    }
}

impl From<base64::DecodeError> for EpiphanyError {
    /// A payload that is not valid base64, as a file operation error.
    fn from(error: base64::DecodeError) -> (r: EpiphanyError)
        ensures
            r matches EpiphanyError::FileOperationError(m) && is_decode_failure_reason(m@),
    {
        EpiphanyError::from_decode_error(&error)
    }
}

impl vstd::std_specs::convert::FromSpecImpl<base64::DecodeError> for EpiphanyError {
    /// The reason is written in the decoder's words, so no function of this
    /// library says what the conversion yields.
    open spec fn obeys_from_spec() -> bool {
        false
    }

    open spec fn from_spec(error: base64::DecodeError) -> EpiphanyError {
        arbitrary()
    }
}

/// Failures of the in-process variant.
#[derive(Debug, Clone)]
pub enum MicroscopeError {
    /// The capture backend reported an error; the field holds its text.
    OpenCvError(String),
    ConnectionError(String),
    CaptureError(String),
}

impl MicroscopeError {
    /// The text shown for this error.
    pub open spec fn message_text(self) -> Seq<char> {
        match self {
            MicroscopeError::OpenCvError(m) => "OpenCV Error: "@ + m@,
            MicroscopeError::ConnectionError(m) => "Connection Error: "@ + m@,
            MicroscopeError::CaptureError(m) => "Capture Error: "@ + m@,
        }
    }

    /// Renders the error for display.
    pub fn message(&self) -> (r: String)
        ensures
            r@ == self.message_text(),
    {
        match self {
            MicroscopeError::OpenCvError(m) => joined("OpenCV Error: ", m.as_str()),
            MicroscopeError::ConnectionError(m) => joined("Connection Error: ", m.as_str()),
            MicroscopeError::CaptureError(m) => joined("Capture Error: ", m.as_str()),
        }
    }
}

/// Why opening a capture session failed.
#[derive(Debug, Clone, Copy, PartialEq, Eq, Structural)]
pub enum ConnectError {
    /// The device or channel could not be opened.
    DeviceUnavailable,
    /// The device was opened but refused a width, height or rate setting.
    ConfigRejected,
}

/// Why one capture attempt delivered no frame.
#[derive(Debug, Clone, Copy, PartialEq, Eq, Structural)]
pub enum CaptureError {
    /// The read returned no frame; a later read may succeed.
    NoData,
    /// The camera is busy or gave no recognisable answer.
    Unavailable,
    /// The answer began like a frame but broke the response grammar.
    ProtocolError,
    /// The capture channel itself failed, for example the helper process
    /// could not be started.
    Fatal,
}

impl CaptureError {
    /// Transient failures leave streaming as it is; only `Fatal` asks the host to stop.
    pub open spec fn is_transient(self) -> bool {
        self != CaptureError::Fatal
    }

    /// Tells whether streaming may simply go on after this failure.
    pub fn transient(&self) -> (r: bool)
        ensures
            r == self.is_transient(),
    {
        match self {
            CaptureError::Fatal => false,
            _ => true,
        }
    }
}

/// Why saving a frame failed.
#[derive(Debug, Clone)]
pub enum PersistError {
    /// No frame has been published yet.
    NoFrame,
    /// The pixel buffer cannot be brought into the target color layout.
    EncodeFailed,
    /// The file system refused the write; the field holds its reason.
    WriteFailed(String),
}

} // verus!
