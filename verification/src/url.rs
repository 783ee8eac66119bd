//! How a local image path travels through the custom `peekdown` protocol:
//! percent-encoded into the query of a URL by the IPC handler, and decoded
//! back by the protocol handler.

use vstd::prelude::*;
use vstd::utf8::{decode_utf8, encode_utf8, is_ascii_chars, valid_utf8};
use crate::text::push_str;

verus! {

/// ASCII letters and digits: the bytes that percent-encoding leaves as they are.
pub open spec fn is_ascii_alphanumeric(b: u8) -> bool {
    (48 <= b <= 57) || (65 <= b <= 90) || (97 <= b <= 122)
}

/// The upper-case hexadecimal digit for `n < 16`.
pub open spec fn hex_digit_upper(n: u8) -> char {
    if n < 10 {
        (n + 48) as char
    } else {
        (n + 55) as char
    }
}

/// One byte, percent-encoded: itself if it is an ASCII letter or digit,
/// else `%` and its two upper-case hexadecimal digits.
pub open spec fn percent_encoded_byte(b: u8) -> Seq<char> {
    if is_ascii_alphanumeric(b) {
        seq![b as char]
    } else {
        seq!['%', hex_digit_upper(b / 16), hex_digit_upper(b % 16)]
    }
}

/// A byte sequence, percent-encoded byte by byte.
pub open spec fn percent_encoded(bytes: Seq<u8>) -> Seq<char>
    decreases bytes.len(),
{
    if bytes.len() == 0 {
        Seq::empty()
    } else {
        percent_encoded_byte(bytes[0]) + percent_encoded(bytes.skip(1))
    }
}

/// A hexadecimal digit, in either case.
pub open spec fn is_hex_digit(b: u8) -> bool {
    (48 <= b <= 57) || (65 <= b <= 70) || (97 <= b <= 102)
}

/// The value of a hexadecimal digit.
pub open spec fn hex_value(b: u8) -> u8 {
    if b <= 57 {
        (b - 48) as u8
    } else if b <= 70 {
        (b - 55) as u8
    } else {
        (b - 87) as u8
    }
}

/// Percent-decoding: every `%` followed by two hexadecimal digits stands
/// for the byte they spell; every other byte stands for itself.
pub open spec fn percent_decoded(bytes: Seq<u8>) -> Seq<u8>
    decreases bytes.len(),
{
    if bytes.len() == 0 {
        Seq::empty()
    } else if bytes[0] == 37 && bytes.len() >= 3 && is_hex_digit(bytes[1]) && is_hex_digit(
        bytes[2],
    ) {
        seq![(hex_value(bytes[1]) * 16 + hex_value(bytes[2])) as u8] + percent_decoded(
            bytes.skip(3),
        )
    } else {
        seq![bytes[0]] + percent_decoded(bytes.skip(1))
    }
}

/// Name for what `percent_decode_str(..).decode_utf8_lossy()` makes of a
/// query whose decoded bytes are not valid UTF-8.
pub uninterp spec fn lossy_percent_decoding(query: Seq<char>) -> Seq<char>;

/// `percent_encoding::utf8_percent_encode(s, NON_ALPHANUMERIC).to_string()`.
/// Trusted: the result is the UTF-8 bytes of `s`, each ASCII letter or
/// digit kept and every other byte written as `%XX` in upper-case hex, as
/// the crate documents for `NON_ALPHANUMERIC` and its `percent_encode_byte`
/// table shows.
#[verifier::external_body]
fn utf8_percent_encode_non_alphanumeric(s: &str) -> (r: String)
    ensures
        r@ == percent_encoded(encode_utf8(s@)),
{
    percent_encoding::utf8_percent_encode(s, percent_encoding::NON_ALPHANUMERIC).to_string()
}

/// `percent_encoding::percent_decode_str(q).decode_utf8_lossy()`, owned.
/// Trusted: when the percent-decoded bytes of `q` are valid UTF-8 the
/// result is the text they encode; otherwise it is only named (the crate
/// replaces invalid sequences by U+FFFD, which is not stated here).
#[verifier::external_body]
fn percent_decode_str_lossy(q: &str) -> (r: String)
    ensures
        r@ == lossy_percent_decoding(q@),
        valid_utf8(percent_decoded(encode_utf8(q@))) ==> r@ == decode_utf8(
            percent_decoded(encode_utf8(q@)),
        ),
{
    percent_encoding::percent_decode_str(q).decode_utf8_lossy().into_owned()
}

/// The query under which an image path is requested.
pub open spec fn image_query(path: Seq<char>) -> Seq<char> {
    percent_encoded(encode_utf8(path))
}

/// The URL under which the web view requests a local image.
pub open spec fn image_url(path: Seq<char>) -> Seq<char> {
    "http://peekdown.localhost/local-image?"@ + image_query(path)
}

/// The image path that a request's query names.
pub open spec fn image_path(query: Seq<char>) -> Seq<char> {
    let bytes = percent_decoded(encode_utf8(query));
    if valid_utf8(bytes) {
        decode_utf8(bytes)
    } else {
        lossy_percent_decoding(query)
    }
}

/// Percent-encodes a path (its UTF-8 bytes, everything but ASCII letters
/// and digits) for the query of a URL.
pub fn encode_image_query(path: &str) -> (r: String)
    ensures
        r@ == image_query(path@),
{
    utf8_percent_encode_non_alphanumeric(path)
}

/// The URL of the protocol handler that serves the image at `path`.
pub fn local_image_url(path: &str) -> (r: String)
    ensures
        r@ == image_url(path@),
{
    let q = encode_image_query(path);
    let mut url = String::new();
    push_str(&mut url, "http://peekdown.localhost/local-image?");
    push_str(&mut url, q.as_str());
    url
}

/// Decodes the query of a local image request into the image's path.
pub fn image_path_from_query(query: &str) -> (r: String)
    ensures
        r@ == image_path(query@),
{
    percent_decode_str_lossy(query)
}

/// The bytes of an ASCII text.
spec fn ascii_bytes(cs: Seq<char>) -> Seq<u8> {
    Seq::new(cs.len(), |i: int| cs[i] as u8)
}

proof fn lemma_percent_encoded_is_ascii(bytes: Seq<u8>)
    ensures
        is_ascii_chars(percent_encoded(bytes)),
    decreases bytes.len(),
{
    if bytes.len() > 0 {
        lemma_percent_encoded_is_ascii(bytes.skip(1));
        let h = percent_encoded_byte(bytes[0]);
        let t = percent_encoded(bytes.skip(1));
        assert(is_ascii_chars(h));
        assert forall|i: int| 0 <= i < (h + t).len() implies '\0' <= #[trigger] (h + t)[i]
            <= '\u{7f}' by {
            if i < h.len() {
                assert((h + t)[i] == h[i]);
            } else {
                assert((h + t)[i] == t[i - h.len()]);
            }
        }
    }
}

proof fn lemma_decode_encoded_bytes(bytes: Seq<u8>)
    ensures
        percent_decoded(ascii_bytes(percent_encoded(bytes))) == bytes,
    decreases bytes.len(),
{
    if bytes.len() == 0 {
        assert(ascii_bytes(percent_encoded(bytes)) =~= Seq::<u8>::empty());
    } else {
        let b = bytes[0];
        let h = percent_encoded_byte(b);
        let t = percent_encoded(bytes.skip(1));
        lemma_decode_encoded_bytes(bytes.skip(1));
        let all = ascii_bytes(h + t);
        assert(all =~= ascii_bytes(h) + ascii_bytes(t));
        if is_ascii_alphanumeric(b) {
            assert(ascii_bytes(h) =~= seq![b]);
            assert(all.skip(1) =~= ascii_bytes(t));
            assert(percent_decoded(all) =~= seq![b] + percent_decoded(ascii_bytes(t)));
        } else {
            let hi = b / 16;
            let lo = b % 16;
            assert(ascii_bytes(h)[1] == hex_digit_upper(hi) as u8);
            assert(ascii_bytes(h)[2] == hex_digit_upper(lo) as u8);
            assert(is_hex_digit(all[1]) && hex_value(all[1]) == hi);
            assert(is_hex_digit(all[2]) && hex_value(all[2]) == lo);
            assert(all[0] == 37);
            assert(all.skip(3) =~= ascii_bytes(t));
            assert((hex_value(all[1]) * 16 + hex_value(all[2])) as u8 == b);
            assert(percent_decoded(all) =~= seq![b] + percent_decoded(ascii_bytes(t)));
        }
        assert(seq![b] + bytes.skip(1) =~= bytes);
    }
}

/// A character that may stand in a URL's query as it is.
pub open spec fn is_query_safe(c: char) -> bool {
    ('0' <= c <= '9') || ('A' <= c <= 'Z') || ('a' <= c <= 'z') || c == '%'
}

/// An encoded image path holds nothing but ASCII letters, digits and `%`,
/// so it can stand in a URL's query as it is.
pub proof fn lemma_image_query_is_url_safe(path: Seq<char>)
    ensures
        forall|i: int|
            0 <= i < image_query(path).len() ==> is_query_safe(#[trigger] image_query(path)[i]),
{
    lemma_percent_encoded_is_query_safe(encode_utf8(path));
}

proof fn lemma_percent_encoded_is_query_safe(bytes: Seq<u8>)
    ensures
        forall|i: int|
            0 <= i < percent_encoded(bytes).len() ==> is_query_safe(
                #[trigger] percent_encoded(bytes)[i],
            ),
    decreases bytes.len(),
{
    if bytes.len() > 0 {
        lemma_percent_encoded_is_query_safe(bytes.skip(1));
        let h = percent_encoded_byte(bytes[0]);
        let t = percent_encoded(bytes.skip(1));
        assert forall|i: int| 0 <= i < (h + t).len() implies is_query_safe(#[trigger] (h + t)[i]) by {
            if i < h.len() {
                assert((h + t)[i] == h[i]);
            } else {
                assert((h + t)[i] == t[i - h.len()]);
            }
        }
    }
}

/// What the protocol handler decodes from an image URL's query is exactly
/// the path that the IPC handler encoded into it.
pub proof fn lemma_image_path_round_trip(path: Seq<char>)
    ensures
        image_path(image_query(path)) == path,
{
    broadcast use vstd::utf8::group_utf8_lib;

    let q = image_query(path);
    lemma_percent_encoded_is_ascii(encode_utf8(path));
    vstd::utf8::is_ascii_chars_encode_utf8(q);
    assert(encode_utf8(q) =~= ascii_bytes(q));
    lemma_decode_encoded_bytes(encode_utf8(path));
    vstd::utf8::encode_utf8_valid_utf8(path);
    vstd::utf8::encode_utf8_decode_utf8(path);
}

} // verus!
