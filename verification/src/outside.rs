//! The calls this library makes into other crates.
//!
//! Nothing in this file is proved: each contract records what the called
//! function's source or documentation says, and the rest of the library is
//! verified against these contracts.

use crate::text::{all_digits, decimal, is_digit};
use base64::Engine;
use vstd::prelude::*;

verus! {

/// `base64::DecodeError`, carried through as an opaque value.
#[verifier::external_type_specification]
#[verifier::external_body]
pub struct ExDecodeError(base64::DecodeError);

/// What `base64::engine::general_purpose::STANDARD.decode` yields for a text:
/// the decoded bytes, or `None` where it reports a `DecodeError`.
pub uninterp spec fn base64_decoding(text: Seq<char>) -> Option<Seq<u8>>;

/// Calls `Engine::decode` on the `STANDARD` engine (standard alphabet,
/// canonical padding). The contract claims only that the outcome is the one
/// named by `base64_decoding` for this text.
#[verifier::external_body]
pub(crate) fn base64_decode(text: &str) -> (r: Result<Vec<u8>, base64::DecodeError>)
    ensures
        match r {
            Ok(bytes) => base64_decoding(text@) == Some(bytes@),
            Err(_) => base64_decoding(text@) is None,
        },
{
    base64::engine::general_purpose::STANDARD.decode(text)
}

/// What `base64` says of a symbol outside the alphabet, or of padding in the
/// wrong place: the symbol as a number, and where it stands.
pub open spec fn invalid_symbol_text(symbol: u8, offset: usize) -> Seq<char> {
    "Invalid symbol "@ + decimal(symbol as nat) + ", offset "@ + decimal(offset as nat) + "."@
}

/// What `base64` says of an input of impossible length.
pub open spec fn invalid_length_text(length: usize) -> Seq<char> {
    "Invalid input length: "@ + decimal(length as nat)
}

/// What `base64` says of a last symbol with bits that would be thrown away.
pub open spec fn invalid_last_symbol_text(symbol: u8, offset: usize) -> Seq<char> {
    "Invalid last symbol "@ + decimal(symbol as nat) + ", offset "@ + decimal(offset as nat)
        + "."@
}

/// The texts that the `Display` impl of `base64::DecodeError` can give: one
/// form for each of its four variants.
pub open spec fn is_decode_error_text(s: Seq<char>) -> bool {
    ||| exists|symbol: u8, offset: usize| s == #[trigger] invalid_symbol_text(symbol, offset)
    ||| exists|length: usize| s == #[trigger] invalid_length_text(length)
    ||| exists|symbol: u8, offset: usize| s == #[trigger] invalid_last_symbol_text(symbol, offset)
    ||| s == "Invalid padding"@
}

/// Calls `to_string` on a `base64::DecodeError`, which renders it through its
/// `Display` impl. The error is opaque here, so the contract claims only that
/// the text has one of the four forms that impl writes.
#[verifier::external_body]
pub(crate) fn decode_error_text(error: &base64::DecodeError) -> (r: String)
    ensures
        is_decode_error_text(r@),
{
    error.to_string()
}

/// The string held under `key` by the JSON document `text`, as
/// `serde_json::from_str::<serde_json::Value>` parses it and indexing with
/// `key` followed by `Value::as_str` reads it: `None` where the text is not
/// JSON, is not an object, lacks the key, or holds another kind of value there.
pub uninterp spec fn json_string_member(text: Seq<char>, key: Seq<char>) -> Option<Seq<char>>;

/// Parses `text` with `serde_json::from_str` into a `serde_json::Value` and
/// reads member `key` as a string (`Value`'s `Index<&str>`, which gives `Null`
/// for anything missing, then `Value::as_str`). The contract claims only that
/// the outcome is the one named by `json_string_member`.
#[verifier::external_body]
pub(crate) fn json_string_member_of(text: &str, key: &str) -> (r: Option<String>)
    ensures
        match r {
            Some(s) => json_string_member(text@, key@) == Some(s@),
            None => json_string_member(text@, key@) is None,
        },
{
    match serde_json::from_str::<serde_json::Value>(text) {
        Ok(value) => value[key].as_str().map(|s| s.to_string()),
        Err(_) => None,
    }
}

/// The time of day, as shown in front of a log entry.
pub const CLOCK_PATTERN: &'static str = "%H:%M:%S";

/// Date and time, as used in the name of a saved image.
pub const FILE_STAMP_PATTERN: &'static str = "%Y%m%d_%H%M%S";

/// The shape of a time of day written with `CLOCK_PATTERN`: two digits each
/// for hour, minute and second, with colons between them.
pub open spec fn is_clock_text(s: Seq<char>) -> bool {
    &&& s.len() == 8
    &&& is_digit(s[0]) && is_digit(s[1])
    &&& s[2] == ':'
    &&& is_digit(s[3]) && is_digit(s[4])
    &&& s[5] == ':'
    &&& is_digit(s[6]) && is_digit(s[7])
}

/// The shape of a year as `chrono` writes it: four digits, or a sign and at
/// least four digits for a year outside 0 to 9999.
pub open spec fn is_year_text(s: Seq<char>) -> bool {
    ||| s.len() == 4 && all_digits(s)
    ||| s.len() >= 5 && (s[0] == '+' || s[0] == '-') && all_digits(s.skip(1))
}

/// The shape of a date and time written with `FILE_STAMP_PATTERN`: the year,
/// then two digits each for month and day, an underscore, and two digits each
/// for hour, minute and second.
pub open spec fn is_file_stamp(s: Seq<char>) -> bool {
    &&& s.len() >= 15
    &&& is_year_text(s.take(s.len() - 11))
    &&& all_digits(s.subrange(s.len() - 11, s.len() - 7))
    &&& s[s.len() - 7] == '_'
    &&& all_digits(s.skip(s.len() - 6))
}

/// Calls `chrono::Local::now().format(pattern)` and renders it. The result
/// depends on the clock and the time zone; the contract claims only its
/// shape, which `chrono` fixes for every moment: hour, minute, second, month
/// and day are written as two digits each, the year as four digits or with a
/// sign. The rendering fails on a malformed pattern, so only the two
/// patterns this library uses are admitted.
#[verifier::external_body]
pub(crate) fn local_time_text(pattern: &str) -> (r: String)
    requires
        pattern@ == CLOCK_PATTERN@ || pattern@ == FILE_STAMP_PATTERN@,
    ensures
        pattern@ == CLOCK_PATTERN@ ==> is_clock_text(r@),
        pattern@ == FILE_STAMP_PATTERN@ ==> is_file_stamp(r@),
{
    chrono::Local::now().format(pattern).to_string()
}

/// The condition under which `image::ImageBuffer::from_raw` accepts a buffer
/// of `len` bytes for an 8-bit RGB image: three bytes per pixel, the byte
/// count computed in `usize` without overflow, and no more than the buffer holds.
pub open spec fn rgb_buffer_fits(width: u32, height: u32, len: nat) -> bool {
    &&& 3 * width <= usize::MAX
    &&& 3 * width * height <= usize::MAX
    &&& 3 * width * height <= len
}

/// Calls `image::RgbImage::from_raw`, which wraps the buffer unchanged if it
/// is big enough for the dimensions and returns `None` otherwise, and hands
/// the buffer back with `into_raw`.
#[verifier::external_body]
pub(crate) fn rgb_image_buffer(width: u32, height: u32, data: Vec<u8>) -> (r: Option<Vec<u8>>)
    ensures
        r is Some <==> rgb_buffer_fits(width, height, data@.len()),
        r matches Some(kept) ==> kept@ == data@,
{
    image::RgbImage::from_raw(width, height, data).map(|img| img.into_raw())
}

} // verus!
