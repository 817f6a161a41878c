//! What is checked and prepared before anything is written to disk.
//!
//! The library decides what to write and where; the host writes and reports
//! how that went.

use crate::config::{join_path, AppConfig};
use crate::error::{is_decode_failure_reason, EpiphanyError, PersistError};
use crate::frame::{mat_to_rgb_image, rgb_frame, Frame, FrameSlot};
use crate::outside::{base64_decode, base64_decoding, rgb_buffer_fits};
use crate::text::joined;
use vstd::prelude::*;

verus! {

/// The quality at which saved frames are encoded.
pub const SAVE_QUALITY: u8 = 95;

/// A frame in RGB order, ready to be encoded and written.
#[derive(Debug)]
pub struct EncodeJob {
    pub frame: Frame,
    pub path: String,
    pub quality: u8,
}

/// Bytes to write and the file to write them to.
#[derive(Debug)]
pub struct FileWrite {
    pub path: String,
    pub data: Vec<u8>,
}

/// Prepares the most recent frame for saving at `destination`. There must be
/// a frame, and its buffer must be large enough for its dimensions so that it
/// can be brought into RGB order.
pub fn plan_save(slot: &FrameSlot, destination: &str) -> (r: Result<EncodeJob, PersistError>)
    ensures
        match slot@ {
            None => r matches Err(PersistError::NoFrame),
            Some(frame) => if rgb_buffer_fits(frame.width, frame.height, frame.pixels.len()) {
                r matches Ok(job) && job.frame@ == rgb_frame(frame) && job.path@ == destination@
                    && job.quality == SAVE_QUALITY
            } else {
                r matches Err(PersistError::EncodeFailed)
            },
        },
{
    match slot.snapshot() {
        None => Err(PersistError::NoFrame),
        Some(frame) => match mat_to_rgb_image(&frame) {
            Ok(rgb) => Ok(
                EncodeJob { frame: rgb, path: String::from_str(destination), quality: SAVE_QUALITY },
            ),
            Err(_) => Err(PersistError::EncodeFailed),
        },
    }
}

/// Ends a save with what the host reports: the path on success, otherwise a
/// write failure that carries the reason given.
pub fn finish_save(path: String, failure: Option<String>) -> (r: Result<String, PersistError>)
    ensures
        match failure {
            None => r matches Ok(p) && p@ == path@,
            Some(reason) => r matches Err(PersistError::WriteFailed(m)) && m@ == reason@,
        },
{
    match failure {
        None => Ok(path),
        Some(reason) => Err(PersistError::WriteFailed(reason)),
    }
}

/// Decodes a base64 payload. Text that is not base64 gives a file operation
/// error whose reason is `Base64 decode error: ` and the decoder's words.
pub fn decode_payload(content: &str) -> (r: Result<Vec<u8>, EpiphanyError>)
    ensures
        match base64_decoding(content@) {
            Some(bytes) => r matches Ok(data) && data@ == bytes,
            None => r matches Err(EpiphanyError::FileOperationError(m))
                && is_decode_failure_reason(m@),
        },
{
    match base64_decode(content) {
        Ok(data) => Ok(data),
        Err(error) => Err(EpiphanyError::from(error)),
    }
}

/// The write of `data` to the file `filename` of the output directory.
pub fn file_write_for(data: Vec<u8>, filename: &str, config: &AppConfig) -> (r: FileWrite)
    ensures
        r.data@ == data@,
        r.path@ == join_path(config.output_dir@, filename@),
{
    FileWrite { path: config.get_output_file(filename), data }
}

/// Prepares the file `filename` of the output directory from a base64
/// payload: the decoded bytes and the path to write them to.
pub fn save_base64_file(base64_content: &str, filename: &str, config: &AppConfig) -> (r: Result<
    FileWrite,
    EpiphanyError,
>)
    ensures
        match base64_decoding(base64_content@) {
            Some(bytes) => r matches Ok(write) && write.data@ == bytes && write.path@ == join_path(
                config.output_dir@,
                filename@,
            ),
            None => r matches Err(EpiphanyError::FileOperationError(m))
                && is_decode_failure_reason(m@),
        },
{
    match decode_payload(base64_content) {
        Ok(data) => Ok(file_write_for(data, filename, config)),
        Err(e) => Err(e),
    }
}

/// Where the host writes a file before it moves it into place, so that a
/// crash leaves no half-written file under the final name.
pub fn staging_path(path: &str) -> (r: String)
    ensures
        r@ == path@ + ".part"@,
{
    joined(path, ".part")
}

/// Ends a file write with what the host reports: the path on success,
/// otherwise a file operation error that carries the reason given.
pub fn file_written(path: String, failure: Option<String>) -> (r: Result<String, EpiphanyError>)
    ensures
        match failure {
            None => r matches Ok(p) && p@ == path@,
            Some(reason) => r matches Err(EpiphanyError::FileOperationError(m)) && m@ == reason@,
        },
{
    match failure {
        None => Ok(path),
        Some(reason) => Err(EpiphanyError::FileOperationError(reason)),
    }
}

} // verus!
