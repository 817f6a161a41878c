//! The response grammar of the helper process.
//!
//! A live capture answers with three lines: the word `SUCCESS`, the frame as
//! base64, and the capture time in milliseconds. A still capture answers with
//! `SUCCESS:` followed by a JSON object whose `base64` member holds the image.
//! A failure is reported as `ERROR:` followed by a message. Everything else is
//! unrecognised. The output is untrusted: nothing is used before it is checked.

use crate::error::CaptureError;
use crate::models::{CaptureResult, CaptureResultView, StreamFrame, StreamFrameView};
use crate::outside::{json_string_member, json_string_member_of};
use crate::text::{
    chars_of, first_newline, has_prefix, line_ranges, lines, matches_at, opt_text, parse_u64,
    parse_u64_spec, without_cr,
};
use vstd::prelude::*;

verus! {

/// The first line of a live-capture answer that carries a frame.
pub const SUCCESS_LINE: &'static str = "SUCCESS";

/// What a still-capture answer that carries an image begins with.
pub const SUCCESS_PREFIX: &'static str = "SUCCESS:";

/// What an answer that reports a failure begins with.
pub const ERROR_PREFIX: &'static str = "ERROR:";

/// The message given when the answer explains nothing itself.
pub const GENERIC_FAILURE: &'static str = "camera busy or unavailable";

/// The member of a still-capture answer that holds the image.
pub const PAYLOAD_MEMBER: &'static str = "base64";

/// A decoded live-capture answer: a frame or a failure, never both.
#[derive(Debug, Clone)]
pub enum BridgeResult {
    Success { payload: String, timestamp: u64 },
    Error { message: String },
}

/// The mathematical content of a `BridgeResult`.
pub enum BridgeResultView {
    Success { payload: Seq<char>, timestamp: u64 },
    Error { message: Seq<char> },
}

impl View for BridgeResult {
    type V = BridgeResultView;

    open spec fn view(&self) -> BridgeResultView {
        match self {
            BridgeResult::Success { payload, timestamp } => BridgeResultView::Success {
                payload: payload@,
                timestamp: *timestamp,
            },
            BridgeResult::Error { message } => BridgeResultView::Error { message: message@ },
        }
    }
}

/// The payload and capture time of an answer that follows the live grammar
/// exactly: three lines, the first being `SUCCESS`, the third an unsigned
/// decimal number.
pub open spec fn live_fields(output: Seq<char>) -> Option<(Seq<char>, u64)> {
    let ls = lines(output);
    if ls.len() == 3 && ls[0] == SUCCESS_LINE@ && parse_u64_spec(ls[2]) is Some {
        Some((ls[1], parse_u64_spec(ls[2])->0))
    } else {
        None
    }
}

/// The message of an answer that reports a failure: the rest of its first
/// line after `ERROR:`.
pub open spec fn reported_error(output: Seq<char>) -> Option<Seq<char>> {
    if ERROR_PREFIX@.is_prefix_of(output) {
        Some(lines(output)[0].skip(ERROR_PREFIX@.len() as int))
    } else {
        None
    }
}

/// The message for an answer that carries no frame: the reported one, or the
/// generic one where nothing was reported.
pub open spec fn failure_message(output: Seq<char>) -> Seq<char> {
    match reported_error(output) {
        Some(m) => m,
        None => GENERIC_FAILURE@,
    }
}

/// What a live-capture answer decodes to.
pub open spec fn live_result(output: Seq<char>) -> BridgeResultView {
    match live_fields(output) {
        Some((payload, timestamp)) => BridgeResultView::Success { payload, timestamp },
        None => BridgeResultView::Error { message: failure_message(output) },
    }
}

/// How a live-capture answer without a frame is classified: a reported
/// failure means the read gave no data; an answer that begins with the
/// `SUCCESS` line but breaks the grammar is a protocol error; anything else
/// means the camera is unavailable.
pub open spec fn live_failure(output: Seq<char>) -> Option<CaptureError> {
    if live_fields(output) is Some {
        None
    } else if reported_error(output) is Some {
        Some(CaptureError::NoData)
    } else if lines(output).len() > 0 && lines(output)[0] == SUCCESS_LINE@ {
        Some(CaptureError::ProtocolError)
    } else {
        Some(CaptureError::Unavailable)
    }
}

/// What follows `SUCCESS:` in a still-capture answer, if it begins so.
pub open spec fn still_document(output: Seq<char>) -> Option<Seq<char>> {
    if SUCCESS_PREFIX@.is_prefix_of(output) {
        Some(output.skip(SUCCESS_PREFIX@.len() as int))
    } else {
        None
    }
}

/// What a still-capture answer decodes to, given the string `member` that the
/// JSON reader found under `base64` in the answer's document.
pub open spec fn still_result_with(
    output: Seq<char>,
    temp_file: Seq<char>,
    member: Option<Seq<char>>,
) -> CaptureResultView {
    if still_document(output) is Some && member is Some {
        CaptureResultView {
            success: true,
            image_path: Some(temp_file),
            image_base64: member,
            error: None,
        }
    } else {
        CaptureResultView {
            success: false,
            image_path: None,
            image_base64: None,
            error: Some(failure_message(output)),
        }
    }
}

/// The `base64` member of a still-capture answer's document.
pub open spec fn still_member(output: Seq<char>) -> Option<Seq<char>> {
    match still_document(output) {
        Some(document) => json_string_member(document, PAYLOAD_MEMBER@),
        None => None,
    }
}

/// What a still-capture answer decodes to.
pub open spec fn still_result(output: Seq<char>, temp_file: Seq<char>) -> CaptureResultView {
    still_result_with(output, temp_file, still_member(output))
}

/// The stream frame that stands for a decoded answer.
pub open spec fn frame_of(result: BridgeResultView) -> StreamFrameView {
    match result {
        BridgeResultView::Success { payload, timestamp } => StreamFrameView {
            success: true,
            image_base64: Some(payload),
            timestamp,
            error: None,
        },
        BridgeResultView::Error { message } => StreamFrameView {
            success: false,
            image_base64: None,
            timestamp: 0,
            error: Some(message),
        },
    }
}

/// The first line feed of `s` lies inside `s` or at its end, and nothing
/// before it is a line feed.
pub proof fn lemma_first_newline_is_first(s: Seq<char>)
    ensures
        0 <= first_newline(s) <= s.len(),
        forall|j: int| 0 <= j < first_newline(s) ==> s[j] != '\n',
        first_newline(s) < s.len() ==> s[first_newline(s)] == '\n',
    decreases s.len(),
{
    if s.len() == 0 || s[0] == '\n' {
    } else {
        let rest = s.drop_first();
        lemma_first_newline_is_first(rest);
        assert forall|j: int| 0 <= j < first_newline(s) implies s[j] != '\n' by {
            if j > 0 {
                assert(rest[j - 1] == s[j]);
            }
        }
    }
}

/// A text that begins with a prefix free of line breaks has a first line, and
/// that line begins with the prefix too.
pub proof fn lemma_first_line_keeps_prefix(s: Seq<char>, p: Seq<char>)
    requires
        p.is_prefix_of(s),
        p.len() > 0,
        forall|i: int| 0 <= i < p.len() ==> p[i] != '\n' && p[i] != '\r',
    ensures
        lines(s).len() > 0,
        p.is_prefix_of(lines(s)[0]),
{
    lemma_first_newline_is_first(s);
    let end = first_newline(s);
    assert forall|i: int| 0 <= i < p.len() implies s[i] == p[i] by {
        assert(s.subrange(0, p.len() as int)[i] == p[i]);
    }
    if end < p.len() {
        assert(s[end] == p[end]);
    }
    if end >= s.len() {
        assert(lines(s)[0] == s);
    } else {
        let raw = s.subrange(0, end);
        let line = without_cr(raw);
        assert(lines(s)[0] == line);
        if raw.last() == '\r' {
            assert(raw.last() == s[end - 1]);
            if end == p.len() {
                assert(s[end - 1] == p[end - 1]);
            }
        }
        assert(line.subrange(0, p.len() as int) =~= p);
    }
}

/// Decodes a live-capture answer and classifies it in one pass.
fn read_live(output: &str) -> (r: (BridgeResult, Option<CaptureError>))
    ensures
        r.0@ == live_result(output@),
        r.1 == live_failure(output@),
{
    let chars = chars_of(output);
    let ranges = line_ranges(&chars);
    let word = chars_of(SUCCESS_LINE);
    let mut starts_like_frame = false;
    if ranges.len() > 0 {
        let first: (usize, usize) = ranges[0];
        if first.1 - first.0 == word.len() && matches_at(&chars, &word, first.0) {
            starts_like_frame = true;
        }
        proof {
            if lines(output@)[0] == SUCCESS_LINE@ {
                assert(chars@.subrange(first.0 as int, first.0 + word@.len()) == word@);
            }
        }
    }
    assert(starts_like_frame == (lines(output@).len() > 0 && lines(output@)[0] == SUCCESS_LINE@));
    if starts_like_frame && ranges.len() == 3 {
        let second: (usize, usize) = ranges[1];
        let third: (usize, usize) = ranges[2];
        match parse_u64(&chars, third.0, third.1) {
            Some(timestamp) => {
                let payload = String::from_str(output.substring_char(second.0, second.1));
                return (BridgeResult::Success { payload, timestamp }, None);
            },
            None => {},
        }
    }
    let prefix = chars_of(ERROR_PREFIX);
    if has_prefix(&chars, &prefix) {
        proof {
            reveal_strlit("ERROR:");
            lemma_first_line_keeps_prefix(output@, ERROR_PREFIX@);
        }
        let first: (usize, usize) = ranges[0];
        let message = String::from_str(output.substring_char(first.0 + prefix.len(), first.1));
        assert(message@ =~= lines(output@)[0].skip(ERROR_PREFIX@.len() as int));
        (BridgeResult::Error { message }, Some(CaptureError::NoData))
    } else {
        let message = String::from_str(GENERIC_FAILURE);
        let kind = if starts_like_frame {
            CaptureError::ProtocolError
        } else {
            CaptureError::Unavailable
        };
        (BridgeResult::Error { message }, Some(kind))
    }
}

/// Decodes the output of a live-capture script.
pub fn parse_live_response(output: &str) -> (r: BridgeResult)
    ensures
        r@ == live_result(output@),
{
    read_live(output).0
}

/// Classifies the output of a live-capture script: `None` for a frame,
/// otherwise the kind of failure.
pub fn classify_live_response(output: &str) -> (r: Option<CaptureError>)
    ensures
        r == live_failure(output@),
{
    read_live(output).1
}

/// The failure message for an answer that carries no payload.
pub fn failure_message_of(output: &str) -> (r: String)
    ensures
        r@ == failure_message(output@),
{
    let chars = chars_of(output);
    let prefix = chars_of(ERROR_PREFIX);
    if has_prefix(&chars, &prefix) {
        proof {
            reveal_strlit("ERROR:");
            lemma_first_line_keeps_prefix(output@, ERROR_PREFIX@);
        }
        let ranges = line_ranges(&chars);
        let first: (usize, usize) = ranges[0];
        let message = String::from_str(output.substring_char(first.0 + prefix.len(), first.1));
        assert(message@ =~= lines(output@)[0].skip(ERROR_PREFIX@.len() as int));
        message
    } else {
        String::from_str(GENERIC_FAILURE)
    }
}

/// Builds the result of a still capture from the script's output and from
/// what the JSON reader found under `base64` in the output's document.
/// `member` counts only where the output begins with `SUCCESS:`.
pub fn capture_result_from(output: &str, temp_file: &str, member: Option<String>) -> (r:
    CaptureResult)
    ensures
        r@ == still_result_with(output@, temp_file@, opt_text(member)),
{
    let chars = chars_of(output);
    let prefix = chars_of(SUCCESS_PREFIX);
    if has_prefix(&chars, &prefix) {
        match member {
            Some(payload) => {
                return CaptureResult::success(Some(String::from_str(temp_file)), Some(payload));
            },
            None => {},
        }
    }
    CaptureResult::error(failure_message_of(output))
}

/// Decodes the output of a still-capture script; `temp_file` is where the
/// script stored the image.
pub fn parse_still_response(output: &str, temp_file: &str) -> (r: CaptureResult)
    ensures
        r@ == still_result(output@, temp_file@),
{
    let chars = chars_of(output);
    let prefix = chars_of(SUCCESS_PREFIX);
    let member = if has_prefix(&chars, &prefix) {
        let document = output.substring_char(prefix.len(), chars.len());
        assert(document@ =~= output@.skip(SUCCESS_PREFIX@.len() as int));
        json_string_member_of(document, PAYLOAD_MEMBER)
    } else {
        None
    };
    capture_result_from(output, temp_file, member)
}

impl StreamFrame {
    /// The stream frame that stands for a decoded answer.
    pub fn from_bridge(result: BridgeResult) -> (r: StreamFrame)
        ensures
            r@ == frame_of(result@),
    {
        match result {
            BridgeResult::Success { payload, timestamp } => StreamFrame::success(payload, timestamp),
            BridgeResult::Error { message } => StreamFrame::error(message),
        }
    }
}

} // verus!
