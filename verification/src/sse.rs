//! Framing of the upstream event stream: events end at a blank line, their
//! payload may carry a `data: ` prefix, and a payload is the end marker, a
//! heartbeat, or something to decode.

use crate::bindings::{regex_is_match, regex_match, string_from_utf8_lossy, utf8_lossy};
use crate::text::{has_prefix, str_eq, strip_prefix};
use vstd::prelude::*;
use vstd::string::*;

verus! {

/// Whether a blank line (two line feeds) starts at `p`.
pub open spec fn boundary_at(buf: Seq<u8>, p: int) -> bool {
    0 <= p && p + 1 < buf.len() && buf[p] == 10 && buf[p + 1] == 10
}

/// The first blank line at or after `from`, if any.
pub open spec fn find_boundary(buf: Seq<u8>, from: int) -> Option<int>
    decreases buf.len() - from,
{
    if from < 0 || from + 1 >= buf.len() {
        None
    } else if boundary_at(buf, from) {
        Some(from)
    } else {
        find_boundary(buf, from + 1)
    }
}

/// The first blank line of the buffer, if any.
pub open spec fn first_boundary(buf: Seq<u8>) -> Option<int> {
    find_boundary(buf, 0)
}

/// What the search from `from` finds is a blank line with none between
/// `from` and it; when it finds nothing there is none at or after `from`.
pub proof fn lemma_find_boundary(buf: Seq<u8>, from: int)
    requires
        0 <= from,
    ensures
        match find_boundary(buf, from) {
            Some(p) => from <= p && boundary_at(buf, p) && forall|q: int|
                from <= q < p ==> !boundary_at(buf, q),
            None => forall|q: int| from <= q ==> !boundary_at(buf, q),
        },
    decreases buf.len() - from,
{
    if from + 1 >= buf.len() {
    } else if boundary_at(buf, from) {
    } else {
        lemma_find_boundary(buf, from + 1);
    }
}

/// The first blank line is a blank line and the least one: the buffer is cut
/// at the earliest event boundary, and only where there is one.
pub proof fn lemma_first_boundary_is_least(buf: Seq<u8>)
    ensures
        match first_boundary(buf) {
            Some(p) => boundary_at(buf, p) && forall|q: int| 0 <= q < p ==> !boundary_at(buf, q),
            None => forall|q: int| !boundary_at(buf, q),
        },
{
    lemma_find_boundary(buf, 0);
}

/// Finds the first blank line.
pub fn find_frame_end(buf: &[u8]) -> (pos: Option<usize>)
    ensures
        match pos {
            Some(p) => first_boundary(buf@) == Some(p as int),
            None => first_boundary(buf@) is None,
        },
{
    let n = buf.len();
    let mut i: usize = 0;
    while i < n && i + 1 < n
        invariant
            i <= n,
            n == buf@.len(),
            first_boundary(buf@) == find_boundary(buf@, i as int),
        decreases n - i,
    {
        if buf[i] == 10 && buf[i + 1] == 10 {
            return Some(i);
        }
        i += 1;
    }
    None
}

/// Cuts the first complete event off the buffer: the bytes before the first
/// blank line are handed out, the blank line is dropped, and the bytes after
/// it stay. Without a blank line nothing changes.
pub fn split_frame(buffer: &mut Vec<u8>) -> (frame: Option<Vec<u8>>)
    ensures
        match first_boundary(old(buffer)@) {
            Some(p) => frame matches Some(f) && f@ == old(buffer)@.take(p) && final(buffer)@ == old(
                buffer,
            )@.skip(p + 2),
            None => frame is None && final(buffer)@ == old(buffer)@,
        },
{
    match find_frame_end(buffer.as_slice()) {
        None => None,
        Some(pos) => {
            let len = buffer.len();
            proof {
                lemma_first_boundary_is_least(buffer@);
                assert(boundary_at(buffer@, pos as int));
                assert(pos + 2 <= len);
            }
            let mut rest = buffer.split_off(pos + 2);
            buffer.truncate(pos);
            std::mem::swap(buffer, &mut rest);
            assert(rest@ =~= old(buffer)@.take(pos as int));
            assert(buffer@ =~= old(buffer)@.skip(pos + 2));
            Some(rest)
        },
    }
}

/// The payload without its `data: ` prefix, if it has one.
pub open spec fn strip_data_prefix(text: Seq<char>) -> Seq<char> {
    if has_prefix(text, "data: "@) {
        text.skip("data: "@.len() as int)
    } else {
        text
    }
}

/// The payload text of an event: its bytes read as UTF-8 (invalid sequences
/// replaced), without the `data: ` prefix.
pub open spec fn payload_text(frame: Seq<u8>) -> Seq<char> {
    strip_data_prefix(utf8_lossy(frame))
}

/// Reads the payload text of an event.
pub fn frame_text(frame: &[u8]) -> (line: String)
    ensures
        line@ == payload_text(frame@),
{
    let text = string_from_utf8_lossy(frame);
    match strip_prefix(text.as_str(), "data: ") {
        Some(rest) => String::from_str(rest),
        None => text,
    }
}

/// The three kinds of payload.
#[derive(Debug, Clone, Copy, PartialEq, Eq)]
pub enum LineKind {
    /// The end marker `[DONE]`.
    Done,
    /// A timestamp that only keeps the connection alive.
    Heartbeat,
    /// Anything else: a candidate for decoding.
    Payload,
}

/// The pattern of a heartbeat: a date and a time of day with microseconds,
/// and nothing else.
pub open spec fn heartbeat_pattern() -> Seq<char> {
    "^\\d{4}-\\d{2}-\\d{2} \\d{2}:\\d{2}:\\d{2}\\.\\d{6}$"@
}

/// The kind of a payload, given what the pattern matcher answered for it.
/// The end marker wins; a payload is a heartbeat only when the matcher says
/// it matches.
pub open spec fn line_kind_given(line: Seq<char>, heartbeat: Option<bool>) -> LineKind {
    if line == "[DONE]"@ {
        LineKind::Done
    } else if heartbeat == Some(true) {
        LineKind::Heartbeat
    } else {
        LineKind::Payload
    }
}

/// The kind of a payload.
pub open spec fn line_kind(line: Seq<char>) -> LineKind {
    line_kind_given(line, regex_match(heartbeat_pattern(), line))
}

/// Decides the kind of a payload from the matcher's answer.
pub fn classify_given(line: &str, heartbeat: Option<bool>) -> (kind: LineKind)
    ensures
        kind == line_kind_given(line@, heartbeat),
{
    if str_eq(line, "[DONE]") {
        LineKind::Done
    } else {
        match heartbeat {
            Some(true) => LineKind::Heartbeat,
            _ => LineKind::Payload,
        }
    }
}

/// Decides the kind of a payload.
pub fn classify_line(line: &str) -> (kind: LineKind)
    ensures
        kind == line_kind(line@),
{
    let heartbeat = regex_is_match("^\\d{4}-\\d{2}-\\d{2} \\d{2}:\\d{2}:\\d{2}\\.\\d{6}$", line);
    classify_given(line, heartbeat)
}

} // verus!
