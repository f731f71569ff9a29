//! Random keys, password hashes and time-based codes.

use vstd::prelude::*;
use vstd::string::*;
use crate::encoding::{base64_bytes, base64_text, from_base64, to_base64_url};
use crate::text::{has_prefix, push_char, starts_with};

verus! {

/// How many times a password is hashed over.
pub const PASSWORD_ITERATIONS: u32 = 5;

/// How many seconds a time-based code is good for.
pub const TOTP_PERIOD: u64 = 30;

/// How many random bytes make the key that confirms an email address.
pub const EMAIL_KEY_BYTES: usize = 5;

/// How many random bytes make the key that resets a password.
pub const PASSWORD_KEY_BYTES: usize = 10;

/// How a password hash begins: with its format and the version of the format.
pub open spec fn hash_format() -> Seq<char> {
    "$rpbkdf2$0$"@
}

/// Where the part of `text` ends that begins at `from`: at the next dollar sign, or
/// at the end of the text where none follows.
pub open spec fn part_end(text: Seq<char>, from: int) -> int
    decreases text.len() - from,
{
    if from < 0 || from >= text.len() {
        text.len() as int
    } else if text[from] == '$' {
        from
    } else {
        part_end(text, from + 1)
    }
}

/// The part of a password hash that names its count of iterations: what stands
/// between the format and the dollar sign that follows.
pub open spec fn iterations_part(hash: Seq<char>) -> Option<Seq<char>> {
    if has_prefix(hash, hash_format()) && part_end(hash, 11) < hash.len() {
        Some(hash.subrange(11, part_end(hash, 11)))
    } else {
        None
    }
}

/// Whether a password hash names a count of iterations that is not zero: the part
/// that names it is the base64 of four bytes, not all of them zero. The check reads
/// the count from these bytes, and does not return on a count of zero.
pub open spec fn names_iterations(hash: Seq<char>) -> bool {
    iterations_part(hash) matches Some(part) && base64_bytes(part) matches Some(count)
        && count.len() == 4 && !(count[0] == 0 && count[1] == 0 && count[2] == 0 && count[3]
        == 0)
}

/// Whether `b` is an ASCII letter or digit.
pub open spec fn is_alphanumeric(b: u8) -> bool {
    (48 <= b <= 57) || (65 <= b <= 90) || (97 <= b <= 122)
}

/// Whether every character of `text` is an ASCII letter or digit.
pub open spec fn all_alphanumeric(text: Seq<char>) -> bool {
    forall|i: int| 0 <= i < text.len() ==> (#[trigger] text[i]) as u32 <= 255 && is_alphanumeric(text[i] as u8)
}

/// Whether a password hash names `iterations` as its count: the part that names the
/// count is the base64 of the four bytes of the number, the most significant first.
pub open spec fn counts(hash: Seq<char>, iterations: u32) -> bool {
    iterations_part(hash) matches Some(part) && base64_bytes(part) == Some(
        crate::utils::network_bytes(iterations),
    )
}

/// Whether `hash` is a hash of `password` as the library stores it: it names
/// `PASSWORD_ITERATIONS` as its count, and the check accepts it for the password.
pub open spec fn is_hash_of(hash: Seq<char>, password: Seq<char>) -> bool {
    counts(hash, PASSWORD_ITERATIONS) && password_verdict(password, hash) == Some(true)
}

/// A hash that names a count above zero names iterations.
pub proof fn lemma_counts(hash: Seq<char>, iterations: u32)
    requires
        counts(hash, iterations),
        iterations > 0,
    ensures
        names_iterations(hash),
{
    let count = crate::utils::network_bytes(iterations);
    assert(count.len() == 4);
    if count[0] == 0 && count[1] == 0 && count[2] == 0 && count[3] == 0 {
        assert(iterations / 0x100_0000 == 0);
        assert((iterations / 0x1_0000) % 0x100 == 0);
        assert((iterations / 0x100) % 0x100 == 0);
        assert(iterations % 0x100 == 0);
        assert(false);
    }
}

/// What the check of a password against a stored hash says: whether they match, or
/// nothing where the hash is not in the format of the check.
pub uninterp spec fn password_verdict(password: Seq<char>, hashed: Seq<char>) -> Option<bool>;

/// Whether the time-based code `code` is the one of `secret` at `timestamp`, for codes
/// that change every `period` seconds.
pub uninterp spec fn totp_accepts(secret: Seq<char>, code: u32, period: u64, timestamp: u64) -> bool;

/// `Rng::sample` of rand on `Alphanumeric`, from the thread's generator: one ASCII
/// letter or digit.
#[verifier::external_body]
pub(crate) fn random_alphanumeric() -> (b: u8)
    ensures
        is_alphanumeric(b),
{
    rand::Rng::sample(&mut rand::thread_rng(), rand::distributions::Alphanumeric)
}

/// `RngCore::fill_bytes` of rand, from the thread's generator: the buffer keeps its
/// length, and nothing is known of what it then holds.
#[verifier::external_body]
pub(crate) fn fill_random(buffer: &mut Vec<u8>)
    ensures
        final(buffer)@.len() == old(buffer)@.len(),
{
    rand::RngCore::fill_bytes(&mut rand::thread_rng(), buffer.as_mut_slice())
}

/// `pbkdf2_simple` of rust-crypto: a salted hash of the password, which the check
/// accepts for that password, or nothing where the system gave no randomness. The
/// hash begins with its format and the base64 of the four bytes of its count of
/// iterations.
#[verifier::external_body]
pub(crate) fn pbkdf2_hash(password: &str, iterations: u32) -> (hash: Option<String>)
    requires
        iterations > 0,
    ensures
        hash matches Some(h) ==> counts(h@, iterations) && password_verdict(password@, h@)
            == Some(true),
{
    crypto::pbkdf2::pbkdf2_simple(password, iterations).ok()
}

/// `pbkdf2_check` of rust-crypto. It panics on a hash that names a count of zero
/// iterations, which is left out.
#[verifier::external_body]
pub(crate) fn pbkdf2_verdict(password: &str, hashed: &str) -> (verdict: Option<bool>)
    requires
        names_iterations(hashed@),
    ensures
        verdict == password_verdict(password@, hashed@),
{
    crypto::pbkdf2::pbkdf2_check(password, hashed).ok()
}

/// `TOTP::new` and `TOTP::verify` of otpauth.
#[verifier::external_body]
pub(crate) fn totp_verify(secret: &str, code: u32, period: u64, timestamp: u64) -> (accepted: bool)
    requires
        period > 0,
    ensures
        accepted == totp_accepts(secret@, code, period, timestamp),
{
    otpauth::TOTP::new(secret).verify(code, period, timestamp)
}

/// A text of `len` random ASCII letters and digits.
pub fn random_text(len: usize) -> (text: String)
    ensures
        text@.len() == len,
        all_alphanumeric(text@),
{
    let mut text = String::new();
    let mut i: usize = 0;
    while i < len
        invariant
            0 <= i <= len,
            text@.len() == i,
            all_alphanumeric(text@),
        decreases len - i,
    {
        let b = random_alphanumeric();
        let c = b as char;
        push_char(&mut text, c);
        i += 1;
    }
    text
}

/// `len` random bytes.
pub fn random_bytes(len: usize) -> (bytes: Vec<u8>)
    ensures
        bytes@.len() == len,
{
    let mut bytes: Vec<u8> = Vec::new();
    let mut i: usize = 0;
    while i < len
        invariant
            0 <= i <= len,
            bytes@.len() == i,
        decreases len - i,
    {
        bytes.push(0u8);
        i += 1;
    }
    fill_random(&mut bytes);
    bytes
}

/// Whether `text` is the URL-safe base64 of some `len` bytes.
pub open spec fn is_one_time_key(text: Seq<char>, len: nat) -> bool {
    exists|bytes: Seq<u8>| bytes.len() == len && text == #[trigger] base64_text(bytes, true)
}

/// A fresh one-time key: the URL-safe base64 of `len` random bytes.
pub fn one_time_key(len: usize) -> (key: String)
    ensures
        is_one_time_key(key@, len as nat),
{
    let bytes = random_bytes(len);
    to_base64_url(bytes.as_slice())
}

/// A fresh key that confirms an email address: five random bytes.
pub fn email_confirmation_key() -> (key: String)
    ensures
        is_one_time_key(key@, EMAIL_KEY_BYTES as nat),
{
    one_time_key(EMAIL_KEY_BYTES)
}

/// A fresh key that resets a password: ten random bytes.
pub fn password_reset_key() -> (key: String)
    ensures
        is_one_time_key(key@, PASSWORD_KEY_BYTES as nat),
{
    one_time_key(PASSWORD_KEY_BYTES)
}

/// Tells whether a password hash names a count of iterations that is not zero.
pub fn check_iterations(hash: &str) -> (r: bool)
    ensures
        r == names_iterations(hash@),
{
    proof {
        reveal_strlit("$rpbkdf2$0$");
    }
    if !starts_with(hash, "$rpbkdf2$0$") {
        return false;
    }
    let n = hash.unicode_len();
    let mut i: usize = 11;
    while i < n && hash.get_char(i) != '$'
        invariant
            11 <= i <= n,
            n == hash@.len(),
            part_end(hash@, 11) == part_end(hash@, i as int),
        decreases n - i,
    {
        i += 1;
    }
    if i >= n {
        return false;
    }
    assert(part_end(hash@, 11) == i);
    let part = hash.substring_char(11, i);
    match from_base64(part) {
        Some(count) => count.len() == 4 && !(count[0] == 0 && count[1] == 0 && count[2] == 0
            && count[3] == 0),
        None => false,
    }
}

} // verus!
