//! Text encodings of bytes and of flat mappings.
//!
//! Base64 and the JSON of an object of strings are rustc-serialize's, base32 is
//! data-encoding's. What they write and read is named here and not spelled out.

use vstd::prelude::*;
use vstd::utf8::*;
use crate::database::command::{pairs_view, Pairs};
use rustc_serialize::base64::{FromBase64, ToBase64};

verus! {

/// The base64 text of `bytes`: in the URL-safe alphabet and without padding where
/// `url_safe` holds, else in the standard alphabet and padded.
pub uninterp spec fn base64_text(bytes: Seq<u8>, url_safe: bool) -> Seq<char>;

/// The bytes that a base64 text stands for, or nothing where the text is not base64.
pub uninterp spec fn base64_bytes(text: Seq<char>) -> Option<Seq<u8>>;

/// The base32 text of `bytes`.
pub uninterp spec fn base32_text(bytes: Seq<u8>) -> Seq<char>;

/// The JSON text of the object whose members are the given pairs. The members are
/// written by name; of two pairs of one name the later one counts.
pub uninterp spec fn json_object_text(fields: Pairs) -> Seq<char>;

/// The members of the JSON object that `text` writes, ordered by name, or nothing
/// where `text` is no JSON object whose members are all strings.
pub uninterp spec fn json_object_fields(text: Seq<char>) -> Option<Pairs>;

/// `ToBase64::to_base64` of rustc-serialize, under its `STANDARD` configuration: the
/// standard alphabet, padded, in one line. What it writes, `from_base64` reads back
/// as the same bytes.
#[verifier::external_body]
pub(crate) fn to_base64(bytes: &[u8]) -> (text: String)
    ensures
        text@ == base64_text(bytes@, false),
        base64_bytes(text@) == Some(bytes@),
{
    bytes.to_base64(rustc_serialize::base64::STANDARD)
}

/// `ToBase64::to_base64` of rustc-serialize, under its `URL_SAFE` configuration: the
/// alphabet that is safe in an address, without padding, in one line.
#[verifier::external_body]
pub(crate) fn to_base64_url(bytes: &[u8]) -> (text: String)
    ensures
        text@ == base64_text(bytes@, true),
{
    bytes.to_base64(rustc_serialize::base64::URL_SAFE)
}

/// `FromBase64::from_base64` of rustc-serialize: the bytes, or nothing where it reports
/// an invalid character or length.
#[verifier::external_body]
pub(crate) fn from_base64(text: &str) -> (bytes: Option<Vec<u8>>)
    ensures
        match bytes {
            Some(b) => base64_bytes(text@) == Some(b@),
            None => base64_bytes(text@) is None,
        },
{
    text.from_base64().ok()
}

/// `Encoding::encode` of data-encoding, for its `BASE32`.
#[verifier::external_body]
pub(crate) fn to_base32(bytes: &[u8]) -> (text: String)
    ensures
        text@ == base32_text(bytes@),
{
    data_encoding::BASE32.encode(bytes)
}

/// `json::encode` of rustc-serialize on a map from strings to strings. It cannot fail
/// on such a map. The text is flat: the braces, colons and commas of one object
/// around strings in which quotes and backslashes are escaped. `json::decode` reads
/// it back as the same members, each name once with the text that it was given last.
#[verifier::external_body]
pub(crate) fn encode_object(fields: &Vec<(String, String)>) -> (text: String)
    ensures
        text@ == json_object_text(pairs_view(fields@)),
        is_flat(encode_utf8(text@)),
        written_is_read(pairs_view(fields@), json_object_fields(text@)),
{
    let map: std::collections::BTreeMap<&str, &str> = fields.iter().map(
        |p| (p.0.as_str(), p.1.as_str()),
    ).collect();
    rustc_serialize::json::encode(&map).unwrap()
}

/// `json::decode` of rustc-serialize into a map from strings to strings: its members
/// by name, or nothing where it reports an error. On a number with a long exponent it
/// overflows, and on deep nesting it exhausts the stack; a flat text has neither.
#[verifier::external_body]
pub(crate) fn decode_object(text: &str) -> (fields: Option<Vec<(String, String)>>)
    requires
        is_flat(encode_utf8(text@)),
    ensures
        match fields {
            Some(f) => json_object_fields(text@) == Some(pairs_view(f@)),
            None => json_object_fields(text@) is None,
        },
{
    rustc_serialize::json::decode::<std::collections::BTreeMap<String, String>>(text).ok().map(
        |m| m.into_iter().collect(),
    )
}

/// `String::from_utf8` of std: the text of bytes that are valid UTF-8.
#[verifier::external_body]
pub(crate) fn text_from_utf8(bytes: Vec<u8>) -> (text: Option<String>)
    ensures
        match text {
            Some(t) => valid_utf8(bytes@) && t@ == decode_utf8(bytes@),
            None => !valid_utf8(bytes@),
        },
{
    String::from_utf8(bytes).ok()
}

/// `str::to_lowercase` of std.
#[verifier::external_body]
pub(crate) fn to_lowercase(text: &str) -> (lower: String)
    ensures
        lower@ == lowercase(text@),
{
    text.to_lowercase()
}

/// Whether what was read is what was written: the same names, each once, with the
/// text that was written last for it.
pub open spec fn written_is_read(written: Pairs, read: Option<Pairs>) -> bool {
    read matches Some(r) && crate::database::record::distinct_keys(r) && forall|k: Seq<char>|
        crate::database::record::last_value(r, k) == crate::database::record::last_value(
            written,
            k,
        )
}

/// Whether the text of the bytes is flat from the position `i` on, read in the state
/// given: inside a string or not, right after a backslash or not, and after the one
/// brace that may open an object or not.
pub open spec fn flat_from(bytes: Seq<u8>, i: int, in_string: bool, escaped: bool, opened: bool)
    -> bool
    decreases bytes.len() - i,
{
    if i < 0 || i >= bytes.len() {
        true
    } else if in_string {
        if escaped {
            flat_from(bytes, i + 1, true, false, opened)
        } else {
            flat_from(bytes, i + 1, bytes[i] != 34, bytes[i] == 92, opened)
        }
    } else if bytes[i] == 91 || (48 <= bytes[i] <= 57) || (bytes[i] == 123 && opened) {
        false
    } else {
        flat_from(bytes, i + 1, bytes[i] == 34, false, opened || bytes[i] == 123)
    }
}

/// Whether a JSON text is flat: outside its strings it holds no bracket that opens
/// an array, no digit, and one brace at most that opens an object. A JSON object of
/// strings is flat; a flat text nests no deeper than one object and writes no number.
pub open spec fn is_flat(bytes: Seq<u8>) -> bool {
    flat_from(bytes, 0, false, false, false)
}

/// Tells whether a JSON text is flat.
pub fn check_flat(bytes: &[u8]) -> (flat: bool)
    ensures
        flat == is_flat(bytes@),
{
    let mut in_string = false;
    let mut escaped = false;
    let mut opened = false;
    let mut i: usize = 0;
    while i < bytes.len()
        invariant
            0 <= i <= bytes.len(),
            is_flat(bytes@) == flat_from(bytes@, i as int, in_string, escaped, opened),
        decreases bytes.len() - i,
    {
        let b = bytes[i];
        if in_string {
            if escaped {
                escaped = false;
            } else {
                in_string = b != 34;
                escaped = b == 92;
            }
        } else if b == 91 || (48 <= b && b <= 57) || (b == 123 && opened) {
            return false;
        } else {
            in_string = b == 34;
            escaped = false;
            opened = opened || b == 123;
        }
        i += 1;
    }
    true
}

/// The lower-case form of a text.
pub uninterp spec fn lowercase(text: Seq<char>) -> Seq<char>;

} // verus!
