//! What is reported about messages: at which level, and how a payload is
//! shown.
use vstd::prelude::*;
use vstd::slice::slice_subrange;
use vstd::utf8::{decode_utf8, valid_utf8};

verus! {

/// How noteworthy a report is.
#[derive(Clone, Copy, Debug, PartialEq, Eq, Structural)]
pub enum Level {
    Trace,
    Debug,
}

/// A payload shorter than this is shown whole.
pub const PREVIEW_LIMIT: usize = 2048;

/// How many bytes of a longer payload are shown.
pub const PREVIEW_START: usize = 128;

/// The text that `String::from_utf8_lossy` makes of bytes.
pub uninterp spec fn utf8_lossy(bytes: Seq<u8>) -> Seq<char>;

/// Trusted: `String::from_utf8_lossy` of the standard library. What it returns
/// is a function of the bytes, here called [`utf8_lossy`]; of bytes that are
/// valid UTF-8 it is the text they encode. What stands for bytes that are not
/// valid is left open.
#[verifier::external_body]
fn lossy_text(bytes: &[u8]) -> (text: String)
    ensures
        text@ == utf8_lossy(bytes@),
        valid_utf8(bytes@) ==> text@ == decode_utf8(bytes@),
{
    String::from_utf8_lossy(bytes).into_owned()
}

/// The decimal digits of a number.
pub open spec fn digits(n: nat) -> Seq<char>
    decreases n,
{
    if n < 10 {
        seq![(48 + n) as char]
    } else {
        digits(n / 10).push((48 + n % 10) as char)
    }
}

/// The bytes of a payload that are shown: all of a short one, the first ones
/// of a longer one.
pub open spec fn shown(payload: Seq<u8>) -> Seq<u8> {
    if payload.len() < PREVIEW_LIMIT {
        payload
    } else {
        payload.take(PREVIEW_START as int)
    }
}

/// How a payload of a given size is shown, by the text of its shown bytes: as
/// that text where the payload is short, and with the size before it
/// otherwise.
pub open spec fn framed(size: nat, text: Seq<char>) -> Seq<char> {
    if size < PREVIEW_LIMIT {
        text
    } else {
        "size = "@ + digits(size) + ", start = "@ + text
    }
}

/// Writes a number in decimal digits.
fn decimal(n: usize) -> (text: String)
    ensures
        text@ == digits(n as nat),
    decreases n,
{
    let digit = (48u8 + (n % 10) as u8) as char;
    if n < 10 {
        let mut text = String::new();
        text.push(digit);
        assert(text@ =~= digits(n as nat));
        text
    } else {
        let mut text = decimal(n / 10);
        text.push(digit);
        text
    }
}

/// The bytes of a payload that are shown.
pub fn shown_bytes(payload: &[u8]) -> (part: &[u8])
    ensures
        part@ == shown(payload@),
{
    if payload.len() < PREVIEW_LIMIT {
        payload
    } else {
        let part = slice_subrange(payload, 0, PREVIEW_START);
        assert(part@ =~= payload@.take(PREVIEW_START as int));
        part
    }
}

/// Shows a payload of a given size, by the text of its shown bytes.
pub fn frame_preview(size: usize, text: String) -> (preview: String)
    ensures
        preview@ == framed(size as nat, text@),
{
    if size < PREVIEW_LIMIT {
        text
    } else {
        "size = ".to_owned().concat(decimal(size).as_str()).concat(", start = ").concat(
            text.as_str(),
        )
    }
}

/// Shows a payload in a report.
pub fn payload_preview(payload: &[u8]) -> (preview: String)
    ensures
        preview@ == framed(payload@.len(), utf8_lossy(shown(payload@))),
        valid_utf8(shown(payload@)) ==> preview@ == framed(
            payload@.len(),
            decode_utf8(shown(payload@)),
        ),
{
    frame_preview(payload.len(), lossy_text(shown_bytes(payload)))
}

} // verus!
