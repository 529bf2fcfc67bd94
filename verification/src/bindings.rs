//! Trusted bindings to the third-party crates and to the few standard-library
//! functions that the verifier has no specification for.
//!
//! Nothing in this module is proved. Each function states, as its contract,
//! what the called function is documented to return; where that result is a
//! pure function of the arguments but too involved to write down, it is given
//! a name (an uninterpreted specification function) so that callers can speak
//! of it exactly.

use reqwest::Error as TransportError;
use serde_json::Error as JsonError;
use vstd::prelude::*;
use vstd::utf8::*;

verus! {

/// The JSON string literal (quotes and escapes included) that `serde_json`
/// writes for a string.
pub uninterp spec fn json_string(text: Seq<char>) -> Seq<char>;

/// The padded standard-alphabet base64 text of a byte sequence, as the
/// `base64` crate's `STANDARD` engine produces it.
pub uninterp spec fn base64_standard(input: Seq<u8>) -> Seq<char>;

/// The SHA3-512 digest of a byte sequence, as the `sha3` crate computes it.
pub uninterp spec fn sha3_512(input: Seq<u8>) -> Seq<u8>;

/// What the `regex` crate answers for a pattern and a haystack: `None` when
/// the pattern does not compile, otherwise whether it matches anywhere.
pub uninterp spec fn regex_match(pattern: Seq<char>, text: Seq<char>) -> Option<bool>;

/// The number of tokens into which `gpt_tokenizer`'s default encoder splits a
/// text.
pub uninterp spec fn token_count(text: Seq<char>) -> nat;

/// The text that `String::from_utf8_lossy` yields for a byte sequence.
pub uninterp spec fn utf8_lossy(bytes: Seq<u8>) -> Seq<char>;

/// The lower-case hexadecimal digit of a value below sixteen.
pub open spec fn hex_digit(nibble: int) -> char {
    if nibble < 10 {
        (('0' as u8) + nibble) as u8 as char
    } else {
        (('a' as u8) + (nibble - 10)) as u8 as char
    }
}

/// Lower-case hexadecimal text of a byte sequence: two digits per byte, the
/// high half first.
pub open spec fn hex_lower(bytes: Seq<u8>) -> Seq<char> {
    Seq::new(
        2 * bytes.len(),
        |i: int|
            if i % 2 == 0 {
                hex_digit(bytes[i / 2] as int / 16)
            } else {
                hex_digit(bytes[i / 2] as int % 16)
            },
    )
}

/// Whether a character is an ASCII letter or digit.
pub open spec fn is_alphanumeric(c: char) -> bool {
    ('0' <= c && c <= '9') || ('a' <= c && c <= 'z') || ('A' <= c && c <= 'Z')
}

/// The largest input length for which the encoded length of padded base64
/// still fits the address space.
pub open spec fn base64_fits(len: nat) -> bool {
    (len / 3) * 4 + 4 <= usize::MAX
}

#[verifier::external_type_specification]
#[verifier::external_body]
pub struct ExTokenizer(gpt_tokenizer::Default);

#[verifier::external_type_specification]
#[verifier::external_body]
pub struct ExIoError(std::io::Error);

#[verifier::external_type_specification]
#[verifier::external_body]
pub struct ExTransportError(TransportError);

#[verifier::external_type_specification]
#[verifier::external_body]
pub struct ExJsonError(JsonError);

#[verifier::external_type_specification]
#[verifier::external_body]
pub struct ExReadlineError(rustyline::error::ReadlineError);

/// `String::push`: appends one character.
#[verifier::external_body]
pub(crate) fn string_push(out: &mut String, c: char)
    ensures
        final(out)@ == old(out)@.push(c),
{
    out.push(c)
}

/// `String::from_utf8_lossy`: decodes bytes as UTF-8. Valid input decodes to
/// exactly the text it encodes; for other input the result is only named.
#[verifier::external_body]
pub(crate) fn string_from_utf8_lossy(bytes: &[u8]) -> (text: String)
    ensures
        text@ == utf8_lossy(bytes@),
        valid_utf8(bytes@) ==> text@ == decode_utf8(bytes@),
{
    String::from_utf8_lossy(bytes).into_owned()
}

/// `serde_json`'s rendering of a JSON string value: the result is the named
/// literal for the given text.
#[verifier::external_body]
pub(crate) fn json_quote(text: &str) -> (literal: String)
    ensures
        literal@ == json_string(text@),
{
    serde_json::Value::String(text.to_owned()).to_string()
}

/// `base64::Engine::encode` on the `STANDARD` engine. The call panics when the
/// encoded length overflows, so such inputs are excluded.
#[verifier::external_body]
pub(crate) fn base64_encode(input: &[u8]) -> (text: String)
    requires
        base64_fits(input@.len()),
    ensures
        text@ == base64_standard(input@),
{
    base64::Engine::encode(&base64::engine::general_purpose::STANDARD, input)
}

/// `sha3::Sha3_512::digest`: the named digest, which is 64 bytes long.
#[verifier::external_body]
pub(crate) fn sha3_512_digest(input: &[u8]) -> (digest: Vec<u8>)
    ensures
        digest@ == sha3_512(input@),
        digest@.len() == 64,
{
    <sha3::Sha3_512 as sha3::Digest>::digest(input).to_vec()
}

/// `hex::encode`: two lower-case hexadecimal digits per input byte.
#[verifier::external_body]
pub(crate) fn hex_encode(bytes: &[u8]) -> (text: String)
    ensures
        text@ == hex_lower(bytes@),
{
    hex::encode(bytes)
}

/// `regex::Regex::new` followed by `Regex::is_match`: the named answer for
/// the pattern and the text.
#[verifier::external_body]
pub(crate) fn regex_is_match(pattern: &str, text: &str) -> (answer: Option<bool>)
    ensures
        answer == regex_match(pattern@, text@),
{
    match regex::Regex::new(pattern) {
        Ok(re) => Some(re.is_match(text)),
        Err(_) => None,
    }
}

/// `gpt_tokenizer::Default::new`: builds the encoder from its embedded
/// vocabulary.
#[verifier::external_body]
pub(crate) fn tokenizer_new() -> (tokenizer: gpt_tokenizer::Default) {
    gpt_tokenizer::Default::new()
}

/// `gpt_tokenizer::Default::encode`, of which only the number of tokens is
/// kept. An empty text has no tokens: the encoder emits tokens only for
/// non-empty matches of its splitting pattern.
#[verifier::external_body]
pub(crate) fn tokenizer_count(tokenizer: &gpt_tokenizer::Default, text: &str) -> (count: usize)
    ensures
        count == token_count(text@),
        text@.len() == 0 ==> count == 0,
{
    tokenizer.encode(text).len()
}

/// `rand::seq::SliceRandom::choose` on the thread-local generator: some
/// element of the slice, or nothing when the slice is empty.
#[verifier::external_body]
pub(crate) fn random_choice(items: &[i32]) -> (picked: Option<i32>)
    ensures
        match picked {
            Some(v) => items@.contains(v),
            None => items@.len() == 0,
        },
{
    rand::seq::SliceRandom::choose(items, &mut rand::thread_rng()).copied()
}

/// `rand::Rng::gen_range` over `0..upper` on the thread-local generator. The
/// call panics on an empty range, so `upper` must be positive.
#[verifier::external_body]
pub(crate) fn random_below(upper: i32) -> (value: i32)
    requires
        upper > 0,
    ensures
        0 <= value < upper,
{
    rand::Rng::gen_range(&mut rand::thread_rng(), 0..upper)
}

/// One sample of `rand::distributions::Alphanumeric` from the thread-local
/// generator: an ASCII letter or digit.
#[verifier::external_body]
pub(crate) fn random_alphanumeric() -> (c: char)
    ensures
        is_alphanumeric(c),
{
    char::from(rand::Rng::sample(&mut rand::thread_rng(), rand::distributions::Alphanumeric))
}

/// `uuid::Uuid::new_v4`, rendered in its hyphenated form. The value is random;
/// nothing is claimed of it.
#[verifier::external_body]
pub(crate) fn random_uuid() -> (id: String) {
    uuid::Uuid::new_v4().to_string()
}

/// The pattern in which a browser writes a date: weekday, month, day of the
/// month without padding, year, time of day, offset from GMT and the name of
/// the time zone.
pub open spec fn browser_time_format() -> Seq<char> {
    "%a %b %-d %Y %T GMT%z (%Z)"@
}

/// `chrono::Local::now().format(..).to_string()`: the local time as text.
/// The text depends on the clock and the time zone, so nothing is claimed of
/// it. Rendering panics when `chrono` rejects the pattern or cannot write
/// one of its specifiers; only the browser pattern is admitted, whose
/// specifiers `chrono` writes for every date, time and offset.
#[verifier::external_body]
pub(crate) fn local_time_text(format: &str) -> (text: String)
    requires
        format@ == browser_time_format(),
{
    chrono::Local::now().format(format).to_string()
}

/// `chrono::Local::now().offset().local_minus_utc()`: the local offset from
/// UTC in seconds, which `chrono` keeps strictly within one day.
#[verifier::external_body]
pub(crate) fn local_utc_offset_seconds() -> (seconds: i32)
    ensures
        -86_400 < seconds < 86_400,
{
    chrono::Offset::fix(chrono::Local::now().offset()).local_minus_utc()
}

/// `ToString::to_string` of a `std::io::Error`: its display text.
#[verifier::external_body]
pub(crate) fn io_error_text(e: &std::io::Error) -> (text: String) {
    e.to_string()
}

/// `ToString::to_string` of a `reqwest::Error`: its display text.
#[verifier::external_body]
pub(crate) fn reqwest_error_text(e: &TransportError) -> (text: String) {
    e.to_string()
}

/// `ToString::to_string` of a `serde_json::Error`: its display text.
#[verifier::external_body]
pub(crate) fn json_error_text(e: &JsonError) -> (text: String) {
    e.to_string()
}

/// `format!` with the `Debug` rendering of an optional string, as std writes
/// it.
#[verifier::external_body]
pub(crate) fn option_debug_text(value: &Option<String>) -> (text: String) {
    format!("{:?}", value)
}

/// Tells `rustyline`'s end-of-input error apart from its other errors:
/// nothing for `ReadlineError::Eof`, else the display text of the error.
#[verifier::external_body]
pub(crate) fn readline_error_text(e: &rustyline::error::ReadlineError) -> (text: Option<String>) {
    match e {
        rustyline::error::ReadlineError::Eof => None,
        other => Some(other.to_string()),
    }
}

} // verus!
