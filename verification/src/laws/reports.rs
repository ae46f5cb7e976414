//! How payloads are shown in reports.
use crate::report::{
    digits, frame_preview, framed, payload_preview, shown, shown_bytes, utf8_lossy,
};
use vstd::prelude::*;
use vstd::utf8::{decode_utf8, valid_utf8};

verus! {

/// A number below ten is written as its digit, and a longer one as what is left
/// of it without its last digit, followed by that digit.
pub proof fn lemma_digits(rest: nat, digit: nat)
    requires
        digit < 10,
    ensures
        digits(digit) == seq!["0123456789"@[digit as int]],
        rest > 0 ==> digits(10 * rest + digit) == digits(rest) + digits(digit),
{
    reveal_strlit("0123456789");
    assert(digits(digit)[0] == "0123456789"@[digit as int]);
    assert(digits(digit) =~= seq!["0123456789"@[digit as int]]);
    if rest > 0 {
        assert((10 * rest + digit) / 10 == rest && (10 * rest + digit) % 10 == digit);
        assert(digits(10 * rest + digit) =~= digits(rest) + digits(digit));
    }
}

/// Of a payload of fewer than 2048 bytes all bytes are shown, and of a longer
/// one its first 128.
pub proof fn lemma_shown_bytes(payload: &[u8], part: &[u8])
    requires
        call_ensures(shown_bytes, (payload,), part),
    ensures
        part@ == shown(payload@),
        payload@.len() < 2048 ==> part@ == payload@,
        payload@.len() >= 2048 ==> part@ == payload@.subrange(0, 128),
{
    if payload@.len() >= 2048 {
        assert(shown(payload@) =~= payload@.subrange(0, 128));
    }
}

/// Text of a payload of fewer than 2048 bytes is shown as it is; of a longer one
/// it is shown after the size of the payload.
pub proof fn lemma_frame_preview(size: usize, text: String, preview: String)
    requires
        call_ensures(frame_preview, (size, text), preview),
    ensures
        preview@ == framed(size as nat, text@),
        size < 2048 ==> preview@ == text@,
        size >= 2048 ==> preview@ == "size = "@ + digits(size as nat) + ", start = "@ + text@,
{
}

/// A payload of fewer than 2048 bytes is shown as the text it holds; of a longer
/// one its size is shown and the text that its first 128 bytes hold.
pub proof fn lemma_payload_preview(payload: &[u8], preview: String)
    requires
        call_ensures(payload_preview, (payload,), preview),
    ensures
        payload@.len() < 2048 ==> preview@ == utf8_lossy(payload@),
        payload@.len() < 2048 && valid_utf8(payload@) ==> preview@ == decode_utf8(payload@),
        payload@.len() >= 2048 ==> preview@ == "size = "@ + digits(payload@.len())
            + ", start = "@ + utf8_lossy(payload@.subrange(0, 128)),
        payload@.len() >= 2048 && valid_utf8(payload@.subrange(0, 128)) ==> preview@
            == "size = "@ + digits(payload@.len()) + ", start = "@ + decode_utf8(
            payload@.subrange(0, 128),
        ),
{
    if payload@.len() >= 2048 {
        assert(shown(payload@) =~= payload@.subrange(0, 128));
    }
}

} // verus!
