//! The completion stream: the state kept while the upstream sends cumulative
//! snapshots of a reply, and the reduction of each snapshot to what it added.

use crate::bindings::{
    is_alphanumeric, random_alphanumeric, string_push, token_count, tokenizer_count,
    tokenizer_new,
};
use crate::error::Error;
use crate::request::{CompletionRequest, Message};
use crate::response::{derive_finish_reason, finish_reason_of, CompletionMessage, CompletionResponse};
use crate::sse::{
    classify_line, first_boundary, frame_text, line_kind, payload_text, split_frame, LineKind,
};
use crate::text::{
    has_prefix, join_lines, join_with_newline, lemma_utf8_concat, opt_view, str_eq, views,
};
use crate::transport::{is_success, status_is_success};
use vstd::prelude::*;
use vstd::string::*;
use vstd::utf8::*;

verus! {

/// A point in time: whole seconds since the Unix epoch and the nanoseconds
/// past them, which are fewer than a billion in a well-formed timestamp.
#[derive(Debug, Clone, Copy, PartialEq, Eq)]
pub struct Timestamp {
    pub secs: u64,
    pub nanos: u32,
}

impl Timestamp {
    /// Whether the nanoseconds stay below one second.
    pub open spec fn wf(self) -> bool {
        self.nanos < 1_000_000_000
    }
}

/// What one event of the stream turns out to be.
#[derive(Debug)]
pub enum CompletionEvent {
    /// A decoded snapshot.
    Data(CompletionResponse),
    /// The end marker.
    Done,
    /// A keep-alive timestamp.
    Heartbeat,
    /// A payload that could not be decoded, kept for observation only.
    Text(String),
    /// A failure reported by the upstream.
    Error(String),
}

/// What the caller of [`CompletionStream::advance`] has to do next.
#[derive(Debug)]
pub enum StreamStep {
    /// An event is ready without decoding.
    Emit(CompletionEvent),
    /// A payload was cut off the buffer: decode it and hand line and result
    /// to [`CompletionStream::get_next_event`].
    Decode(String),
    /// Nothing complete is buffered: feed more bytes, or close the stream.
    NeedInput,
    /// The stream is closed and drained.
    Finished,
}

/// A token count as the stream keeps it: saturated at the largest `i32`.
pub open spec fn clamp_tokens(n: nat) -> int {
    if n > i32::MAX {
        i32::MAX as int
    } else {
        n as int
    }
}

/// The tokens of all message contents together.
pub open spec fn prompt_token_total(messages: Seq<Message>) -> nat
    decreases messages.len(),
{
    if messages.len() == 0 {
        0
    } else {
        prompt_token_total(messages.drop_last()) + token_count(messages.last().content@)
    }
}

/// The shape of a request identifier: `chatcmpl-` and 28 letters or digits.
pub open spec fn is_request_id(id: Seq<char>) -> bool {
    &&& id.len() == 37
    &&& id.subrange(0, 9) == "chatcmpl-"@
    &&& forall|i: int| 9 <= i < 37 ==> is_alphanumeric(#[trigger] id[i])
}

/// The reply so far that a message carries: its parts, joined by line feeds.
pub open spec fn snapshot_text(message: CompletionMessage) -> Seq<char> {
    join_lines(views(message.content.parts@))
}

/// Whether a snapshot is shorter, in bytes, than the text already held: such
/// a snapshot is late or out of order.
pub open spec fn is_stale(textbuf: Seq<char>, text: Seq<char>) -> bool {
    encode_utf8(text).len() < encode_utf8(textbuf).len()
}

/// What a snapshot adds: its bytes past the length of the text already held.
pub open spec fn delta_of(textbuf: Seq<char>, text: Seq<char>) -> Seq<char> {
    decode_utf8(encode_utf8(text).skip(encode_utf8(textbuf).len() as int))
}

/// Whether the text already held ends, measured in bytes, between two
/// characters of the snapshot, so that the rest of the snapshot is text.
pub open spec fn splits_cleanly(textbuf: Seq<char>, text: Seq<char>) -> bool {
    is_char_boundary(encode_utf8(text), encode_utf8(textbuf).len() as int)
}

/// The event that a payload line stands for, given its kind and what
/// decoding it gave.
pub open spec fn event_of(kind: LineKind, line: String, decoded: Option<CompletionResponse>)
    -> CompletionEvent {
    match kind {
        LineKind::Done => CompletionEvent::Done,
        LineKind::Heartbeat => CompletionEvent::Heartbeat,
        LineKind::Payload => match decoded {
            Some(snapshot) => CompletionEvent::Data(snapshot),
            None => CompletionEvent::Text(line),
        },
    }
}

impl CompletionEvent {
    /// The event of a payload line whose kind is known: the end marker, a
    /// heartbeat, a snapshot if the line decoded, and otherwise plain text.
    pub fn from_kind(kind: LineKind, line: String, decoded: Option<CompletionResponse>) -> (event:
        CompletionEvent)
        ensures
            event == event_of(kind, line, decoded),
    {
        match kind {
            LineKind::Done => CompletionEvent::Done,
            LineKind::Heartbeat => CompletionEvent::Heartbeat,
            LineKind::Payload => match decoded {
                Some(snapshot) => CompletionEvent::Data(snapshot),
                None => CompletionEvent::Text(line),
            },
        }
    }

    /// Classifies a payload line and gives its event.
    pub fn from_line(line: String, decoded: Option<CompletionResponse>) -> (event: CompletionEvent)
        ensures
            event == event_of(line_kind(line@), line, decoded),
    {
        let kind = classify_line(line.as_str());
        CompletionEvent::from_kind(kind, line, decoded)
    }
}

/// The state of a completion stream as specifications see it.
pub struct StreamView {
    pub buffer: Seq<u8>,
    pub closed: bool,
    pub textbuf: Seq<char>,
    pub conversation_id: Option<Seq<char>>,
    pub last_message_id: Option<Seq<char>>,
    pub finish_reason: Option<Seq<char>>,
    pub prompt_tokens: int,
    pub completion_tokens: int,
    pub request_id: Seq<char>,
    pub start_at: Timestamp,
}

impl StreamView {
    /// The invariant of the stream: the completion tokens are those of the
    /// text held, the prompt tokens are a count, the request identifier has
    /// its shape, and the finish reason is absent, `stop` or `length`.
    pub open spec fn wf(self) -> bool {
        &&& 0 <= self.prompt_tokens <= i32::MAX
        &&& self.completion_tokens == clamp_tokens(token_count(self.textbuf))
        &&& is_request_id(self.request_id)
        &&& (self.finish_reason is None || self.finish_reason == Some("stop"@)
            || self.finish_reason == Some("length"@))
    }

    /// Whether the stream takes a snapshot over: it has a message, the
    /// message is the assistant's, and its text is not stale.
    pub open spec fn accepts(self, snapshot: CompletionResponse) -> bool {
        &&& snapshot.message matches Some(m)
        &&& m.author.role@ == "assistant"@
        &&& !is_stale(self.textbuf, snapshot_text(m))
    }

    /// The state after taking a snapshot over.
    pub open spec fn after_snapshot(self, snapshot: CompletionResponse) -> StreamView {
        let m = snapshot.message->0;
        StreamView {
            textbuf: snapshot_text(m),
            conversation_id: Some(snapshot.conversation_id@),
            last_message_id: Some(m.id@),
            finish_reason: finish_reason_of(m.metadata.finish_details),
            completion_tokens: clamp_tokens(token_count(snapshot_text(m))),
            ..self
        }
    }

    /// The state after an event: only an accepted snapshot changes it.
    pub open spec fn step(self, event: CompletionEvent) -> StreamView {
        match event {
            CompletionEvent::Data(snapshot) => if self.accepts(snapshot) {
                self.after_snapshot(snapshot)
            } else {
                self
            },
            _ => self,
        }
    }

    /// What an event adds to the reply: the delta of an accepted snapshot,
    /// nothing otherwise.
    pub open spec fn added(self, event: CompletionEvent) -> Seq<char> {
        match event {
            CompletionEvent::Data(snapshot) => if self.accepts(snapshot) {
                delta_of(self.textbuf, snapshot_text(snapshot.message->0))
            } else {
                Seq::empty()
            },
            _ => Seq::empty(),
        }
    }

    /// Whether `out` is what the stream hands upward for an event: an
    /// accepted snapshot with its delta attached; the reported error of a
    /// snapshot without a message; the end marker, heartbeats and errors as
    /// they are; and nothing for ignored snapshots and undecodable text.
    pub open spec fn emits(self, event: CompletionEvent, out: Option<CompletionEvent>) -> bool {
        match event {
            CompletionEvent::Data(snapshot) => if self.accepts(snapshot) {
                &&& out matches Some(CompletionEvent::Data(data))
                &&& data.message == snapshot.message
                &&& data.conversation_id == snapshot.conversation_id
                &&& data.error == snapshot.error
                &&& opt_view(data.delta_chars) == Some(self.added(event))
            } else {
                match (snapshot.message, snapshot.error) {
                    (None, Some(reason)) => out == Some(CompletionEvent::Error(reason)),
                    _ => out is None,
                }
            },
            CompletionEvent::Done => out == Some(CompletionEvent::Done),
            CompletionEvent::Heartbeat => out == Some(CompletionEvent::Heartbeat),
            CompletionEvent::Text(_) => out is None,
            CompletionEvent::Error(reason) => out == Some(CompletionEvent::Error(reason)),
        }
    }

    /// Whether a snapshot can be taken in: if it is accepted, what it adds
    /// must begin between two characters, or the addition would not be text.
    pub open spec fn can_take(self, snapshot: CompletionResponse) -> bool {
        self.accepts(snapshot) ==> splits_cleanly(
            self.textbuf,
            snapshot_text(snapshot.message->0),
        )
    }

    /// Whether an event can be taken in: only snapshots are ever refused.
    pub open spec fn can_observe(self, event: CompletionEvent) -> bool {
        event matches CompletionEvent::Data(snapshot) ==> self.can_take(snapshot)
    }

    /// The next event of the buffer with what stays behind it: the bytes up
    /// to the first blank line, or, once the stream is closed, whatever is
    /// left.
    pub open spec fn pending_frame(self) -> Option<(Seq<u8>, Seq<u8>)> {
        match first_boundary(self.buffer) {
            Some(p) => Some((self.buffer.take(p), self.buffer.skip(p + 2))),
            None => if self.closed && self.buffer.len() > 0 {
                Some((self.buffer, Seq::empty()))
            } else {
                None
            },
        }
    }

    /// The state after a whole run of events.
    pub open spec fn run(self, events: Seq<CompletionEvent>) -> StreamView
        decreases events.len(),
    {
        if events.len() == 0 {
            self
        } else {
            self.step(events[0]).run(events.drop_first())
        }
    }

    /// Everything a run of events adds to the reply, in order.
    pub open spec fn run_added(self, events: Seq<CompletionEvent>) -> Seq<char>
        decreases events.len(),
    {
        if events.len() == 0 {
            Seq::empty()
        } else {
            self.added(events[0]) + self.step(events[0]).run_added(events.drop_first())
        }
    }

    /// Whether an event keeps the upstream's promise: a snapshot that the
    /// stream accepts begins with the text held when it arrives.
    pub open spec fn extends(self, event: CompletionEvent) -> bool {
        event matches CompletionEvent::Data(snapshot) ==> (self.accepts(snapshot) ==> has_prefix(
            snapshot_text(snapshot.message->0),
            self.textbuf,
        ))
    }

    /// Whether the upstream keeps its promise over a whole run.
    pub open spec fn cumulative(self, events: Seq<CompletionEvent>) -> bool
        decreases events.len(),
    {
        if events.len() == 0 {
            true
        } else {
            self.extends(events[0]) && self.step(events[0]).cumulative(events.drop_first())
        }
    }
}

/// A snapshot that begins with the text held adds exactly its remainder, is
/// never stale, and splits cleanly.
pub proof fn lemma_extension(textbuf: Seq<char>, text: Seq<char>)
    requires
        has_prefix(text, textbuf),
    ensures
        !is_stale(textbuf, text),
        splits_cleanly(textbuf, text),
        delta_of(textbuf, text) == text.skip(textbuf.len() as int),
        text == textbuf + delta_of(textbuf, text),
{
    let rest = text.skip(textbuf.len() as int);
    assert(text =~= textbuf + rest);
    lemma_utf8_concat(textbuf, rest);
    let head = encode_utf8(textbuf);
    let tail = encode_utf8(rest);
    assert((head + tail).skip(head.len() as int) =~= tail);
    encode_utf8_decode_utf8(rest);
    encode_utf8_valid_utf8(textbuf);
    encode_utf8_valid_utf8(rest);
    encode_utf8_valid_utf8(text);
    lemma_boundary_after_prefix(head, tail);
}

/// The end of a valid UTF-8 prefix is a character boundary of the whole.
pub proof fn lemma_boundary_after_prefix(head: Seq<u8>, tail: Seq<u8>)
    requires
        valid_utf8(head),
        valid_utf8(tail),
    ensures
        is_char_boundary(head + tail, head.len() as int),
    decreases head.len(),
{
    valid_utf8_concat(head, tail);
    if head.len() == 0 {
    } else {
        let whole = head + tail;
        let first = length_of_first_scalar(head);
        assert(valid_first_scalar(head));
        assert(length_of_first_scalar(whole) == first && valid_first_scalar(whole)) by {
            assert(whole[0] == head[0]);
            assert(first <= head.len());
            if first >= 2 {
                assert(whole[1] == head[1]);
            }
            if first >= 3 {
                assert(whole[2] == head[2]);
            }
            if first >= 4 {
                assert(whole[3] == head[3]);
            }
        }
        assert(pop_first_scalar(whole) =~= pop_first_scalar(head) + tail);
        lemma_boundary_after_prefix(pop_first_scalar(head), tail);
    }
}

/// What an accepted snapshot adds is, byte for byte, the new text past the
/// length of the old one.
pub proof fn lemma_added_is_byte_suffix(state: StreamView, event: CompletionEvent)
    requires
        state.can_observe(event),
    ensures
        encode_utf8(state.step(event).textbuf).len() >= encode_utf8(state.textbuf).len(),
        encode_utf8(state.added(event)) == encode_utf8(state.step(event).textbuf).skip(
            encode_utf8(state.textbuf).len() as int,
        ),
{
    let held = encode_utf8(state.textbuf);
    match event {
        CompletionEvent::Data(snapshot) => {
            if state.accepts(snapshot) {
                let text = snapshot_text(snapshot.message->0);
                let bytes = encode_utf8(text);
                encode_utf8_valid_utf8(text);
                valid_utf8_split(bytes, held.len() as int);
                assert(bytes.subrange(held.len() as int, bytes.len() as int) =~= bytes.skip(
                    held.len() as int,
                ));
                decode_utf8_encode_utf8(bytes.skip(held.len() as int));
            } else {
                assert(held.skip(held.len() as int) =~= Seq::<u8>::empty());
            }
        },
        _ => {
            assert(held.skip(held.len() as int) =~= Seq::<u8>::empty());
        },
    }
}

/// The identifiers of the stream change only with an accepted snapshot of
/// the assistant, and then they are the snapshot's.
pub proof fn lemma_identifiers_follow_assistant(state: StreamView, event: CompletionEvent)
    ensures
        (state.step(event).conversation_id != state.conversation_id || state.step(
            event,
        ).last_message_id != state.last_message_id) ==> {
            &&& event matches CompletionEvent::Data(snapshot)
            &&& snapshot.message matches Some(m)
            &&& m.author.role@ == "assistant"@
            &&& state.step(event).conversation_id == Some(snapshot.conversation_id@)
            &&& state.step(event).last_message_id == Some(m.id@)
        },
{
}

/// Monotone snapshots, one event at a time: when an accepted snapshot begins
/// with the text held, the text held before is a prefix of the text held
/// after, and what the event adds is the rest of the new text.
pub proof fn lemma_monotone_step(state: StreamView, event: CompletionEvent)
    requires
        state.extends(event),
    ensures
        has_prefix(state.step(event).textbuf, state.textbuf),
        state.added(event) == state.step(event).textbuf.skip(state.textbuf.len() as int),
        state.step(event).textbuf == state.textbuf + state.added(event),
{
    match event {
        CompletionEvent::Data(snapshot) => {
            if state.accepts(snapshot) {
                lemma_extension(state.textbuf, snapshot_text(snapshot.message->0));
            }
        },
        _ => {},
    }
    assert(state.textbuf.subrange(0, state.textbuf.len() as int) =~= state.textbuf);
    assert(state.textbuf.skip(state.textbuf.len() as int) =~= Seq::<char>::empty());
    assert(state.textbuf + Seq::<char>::empty() =~= state.textbuf);
}

/// A run can be cut anywhere: the state after the whole run is the state
/// after its second part, started from the state after its first part; what
/// it adds is what the parts add; and it is cumulative when the parts are.
pub proof fn lemma_run_split(state: StreamView, events: Seq<CompletionEvent>, at: int)
    requires
        0 <= at <= events.len(),
    ensures
        state.run(events) == state.run(events.take(at)).run(events.skip(at)),
        state.run_added(events) == state.run_added(events.take(at)) + state.run(
            events.take(at),
        ).run_added(events.skip(at)),
        state.cumulative(events) == (state.cumulative(events.take(at)) && state.run(
            events.take(at),
        ).cumulative(events.skip(at))),
    decreases at,
{
    if at == 0 {
        assert(events.take(0) =~= Seq::<CompletionEvent>::empty());
        assert(events.skip(0) =~= events);
        assert(Seq::<char>::empty() + state.run_added(events) =~= state.run_added(events));
    } else {
        let next = state.step(events[0]);
        let rest = events.drop_first();
        lemma_run_split(next, rest, at - 1);
        assert(events.take(at).drop_first() =~= rest.take(at - 1));
        assert(events.take(at)[0] == events[0]);
        assert(events.skip(at) =~= rest.skip(at - 1));
        assert(state.run_added(events) =~= state.run_added(events.take(at)) + state.run(
            events.take(at),
        ).run_added(events.skip(at)));
    }
}

/// The concatenation law: over a run in which every accepted snapshot
/// begins with the text held when it arrives, the text held at the end is
/// the text held at the start followed by everything the events added. For
/// a stream that starts empty, the deltas concatenate to the final text.
pub proof fn lemma_concatenation(state: StreamView, events: Seq<CompletionEvent>)
    requires
        state.cumulative(events),
    ensures
        state.run(events).textbuf == state.textbuf + state.run_added(events),
        state.textbuf.len() == 0 ==> state.run(events).textbuf == state.run_added(events),
    decreases events.len(),
{
    if events.len() == 0 {
        assert(state.textbuf + Seq::<char>::empty() =~= state.textbuf);
    } else {
        let event = events[0];
        lemma_monotone_step(state, event);
        lemma_concatenation(state.step(event), events.drop_first());
        assert(state.run(events).textbuf =~= state.textbuf + state.run_added(events));
    }
    if state.textbuf.len() == 0 {
        assert(state.textbuf + state.run_added(events) =~= state.run_added(events));
    }
}

/// Monotone snapshots over a run: the text held after any number of events
/// is a prefix of the text held after any larger number of them, provided
/// every accepted snapshot begins with the text held when it arrives.
pub proof fn lemma_monotone_run(state: StreamView, events: Seq<CompletionEvent>, i: int, j: int)
    requires
        state.cumulative(events),
        0 <= i <= j <= events.len(),
    ensures
        has_prefix(state.run(events.take(j)).textbuf, state.run(events.take(i)).textbuf),
{
    lemma_run_split(state, events, j);
    let upto = events.take(j);
    lemma_run_split(state, upto, i);
    assert(upto.take(i) =~= events.take(i));
    let mid = state.run(events.take(i));
    lemma_concatenation(mid, upto.skip(i));
    let grown = mid.run(upto.skip(i)).textbuf;
    assert(grown.subrange(0, mid.textbuf.len() as int) =~= mid.textbuf);
}

/// The state kept for one completion call.
pub struct CompletionStream {
    buffer: Vec<u8>,
    closed: bool,
    tokenizer: gpt_tokenizer::Default,
    prompt_tokens: i32,
    completion_tokens: i32,
    textbuf: String,
    conversation_id: Option<String>,
    last_message_id: Option<String>,
    finish_reason: Option<String>,
    request_id: String,
    start_at: Timestamp,
}

impl View for CompletionStream {
    type V = StreamView;

    closed spec fn view(&self) -> StreamView {
        StreamView {
            buffer: self.buffer@,
            closed: self.closed,
            textbuf: self.textbuf@,
            conversation_id: opt_view(self.conversation_id),
            last_message_id: opt_view(self.last_message_id),
            finish_reason: opt_view(self.finish_reason),
            prompt_tokens: self.prompt_tokens as int,
            completion_tokens: self.completion_tokens as int,
            request_id: self.request_id@,
            start_at: self.start_at,
        }
    }
}

/// Brings a token count into the range the stream keeps: counts beyond the
/// largest `i32` are held at it.
pub fn saturate_tokens(count: usize) -> (tokens: i32)
    ensures
        tokens == clamp_tokens(count as nat),
{
    if count > 0x7fff_ffff {
        0x7fff_ffff
    } else {
        count as i32
    }
}

fn count_prompt_tokens(tokenizer: &gpt_tokenizer::Default, messages: &Vec<Message>) -> (tokens: i32)
    ensures
        tokens == clamp_tokens(prompt_token_total(messages@)),
{
    let mut total: i32 = 0;
    let mut i: usize = 0;
    while i < messages.len()
        invariant
            i <= messages.len(),
            total == clamp_tokens(prompt_token_total(messages@.take(i as int))),
        decreases messages.len() - i,
    {
        proof {
            assert(messages@.take(i + 1).drop_last() =~= messages@.take(i as int));
            assert(messages@.take(i + 1).last() == messages@[i as int]);
        }
        let count = saturate_tokens(tokenizer_count(tokenizer, messages[i].content.as_str()));
        if count >= 0x7fff_ffff - total {
            total = 0x7fff_ffff;
        } else {
            total = total + count;
        }
        i += 1;
    }
    assert(messages@.take(messages.len() as int) =~= messages@);
    total
}

fn fresh_request_id() -> (id: String)
    ensures
        is_request_id(id@),
{
    let mut id = String::from_str("chatcmpl-");
    proof {
        reveal_strlit("chatcmpl-");
    }
    let mut i: usize = 0;
    while i < 28
        invariant
            i <= 28,
            id@.len() == 9 + i,
            id@.subrange(0, 9) == "chatcmpl-"@,
            forall|j: int| 9 <= j < 9 + i ==> is_alphanumeric(#[trigger] id@[j]),
        decreases 28 - i,
    {
        let ghost before = id@;
        string_push(&mut id, random_alphanumeric());
        assert(id@.subrange(0, 9) =~= before.subrange(0, 9));
        i += 1;
    }
    id
}

impl CompletionRequest {
    /// Opens the stream state for the response to this request. A status
    /// outside the 2xx class is a transport error that carries the response
    /// body verbatim. Otherwise the stream starts empty and open, with the
    /// prompt tokens counted over the contents of the messages and a fresh
    /// request identifier.
    pub fn stream(&self, status: u16, body: String, start_at: Timestamp) -> (opened: Result<
        CompletionStream,
        Error,
    >)
        ensures
            match opened {
                Ok(stream) => {
                    &&& is_success(status)
                    &&& stream.wf()
                    &&& stream@.buffer == Seq::<u8>::empty()
                    &&& !stream@.closed
                    &&& stream@.textbuf == Seq::<char>::empty()
                    &&& stream@.conversation_id is None
                    &&& stream@.last_message_id is None
                    &&& stream@.finish_reason is None
                    &&& stream@.prompt_tokens == clamp_tokens(prompt_token_total(self.messages@))
                    &&& stream@.completion_tokens == 0
                    &&& stream@.start_at == start_at
                },
                Err(e) => !is_success(status) && e == Error::Reqwest(body),
            },
    {
        if !status_is_success(status) {
            return Err(Error::Reqwest(body));
        }
        let tokenizer = tokenizer_new();
        let prompt_tokens = count_prompt_tokens(&tokenizer, &self.messages);
        let textbuf = String::new();
        let completion_tokens = saturate_tokens(tokenizer_count(&tokenizer, textbuf.as_str()));
        Ok(
            CompletionStream {
                buffer: Vec::new(),
                closed: false,
                tokenizer,
                prompt_tokens,
                completion_tokens,
                textbuf,
                conversation_id: None,
                last_message_id: None,
                finish_reason: None,
                request_id: fresh_request_id(),
                start_at,
            },
        )
    }
}

impl CompletionStream {
    /// The invariant of the stream, see [`StreamView::wf`].
    pub open spec fn wf(&self) -> bool {
        self@.wf()
    }

    /// The tokens of the prompt.
    pub fn prompt_tokens(&self) -> (tokens: i32)
        ensures
            tokens == self@.prompt_tokens,
    {
        self.prompt_tokens
    }

    /// The tokens of the reply so far.
    pub fn completion_tokens(&self) -> (tokens: i32)
        ensures
            tokens == self@.completion_tokens,
    {
        self.completion_tokens
    }

    /// Prompt and completion tokens together. On a well-formed stream the
    /// completion tokens are the (saturated) token count of the text held.
    pub fn total_tokens(&self) -> (total: i64)
        ensures
            total == self@.prompt_tokens + self@.completion_tokens,
            self.wf() ==> total == self@.prompt_tokens + clamp_tokens(token_count(self@.textbuf)),
    {
        (self.prompt_tokens as i64) + (self.completion_tokens as i64)
    }

    /// The reply so far.
    pub fn textbuf(&self) -> (text: &String)
        ensures
            text@ == self@.textbuf,
    {
        &self.textbuf
    }

    /// The conversation that the last accepted snapshot belongs to.
    pub fn conversation_id(&self) -> (id: &Option<String>)
        ensures
            opt_view(*id) == self@.conversation_id,
    {
        &self.conversation_id
    }

    /// The message identifier of the last accepted snapshot.
    pub fn last_message_id(&self) -> (id: &Option<String>)
        ensures
            opt_view(*id) == self@.last_message_id,
    {
        &self.last_message_id
    }

    /// The finish reason of the last accepted snapshot.
    pub fn finish_reason(&self) -> (reason: &Option<String>)
        ensures
            opt_view(*reason) == self@.finish_reason,
    {
        &self.finish_reason
    }

    /// The identifier under which the reply is exported.
    pub fn request_id(&self) -> (id: &String)
        ensures
            id@ == self@.request_id,
    {
        &self.request_id
    }

    /// When the stream was opened.
    pub fn start_at(&self) -> (at: Timestamp)
        ensures
            at == self@.start_at,
    {
        self.start_at
    }

    /// Appends bytes received from the upstream to the buffer.
    pub fn feed(&mut self, data: &[u8])
        ensures
            final(self)@ == (StreamView { buffer: old(self)@.buffer + data@, ..old(self)@ }),
    {
        let mut i: usize = 0;
        while i < data.len()
            invariant
                i <= data.len(),
                self@ == (StreamView {
                    buffer: old(self)@.buffer + data@.take(i as int),
                    ..old(self)@
                }),
            decreases data.len() - i,
        {
            self.buffer.push(data[i]);
            assert(old(self)@.buffer + data@.take(i + 1) =~= (old(self)@.buffer + data@.take(
                i as int,
            )).push(data@[i as int]));
            i += 1;
        }
        assert(data@.take(data.len() as int) =~= data@);
    }

    /// Marks the end of the upstream: what is left in the buffer becomes the
    /// last event.
    pub fn close(&mut self)
        ensures
            final(self)@ == (StreamView { closed: true, ..old(self)@ }),
    {
        self.closed = true;
    }

    /// Takes the next event off the buffer and says what to do with it: the
    /// end marker and heartbeats are ready as they are, any other payload is
    /// to be decoded. Without a complete event the stream asks for input,
    /// or reports that it is finished once it is closed.
    pub fn advance(&mut self) -> (step: StreamStep)
        ensures
            match old(self)@.pending_frame() {
                Some((frame, rest)) => {
                    &&& final(self)@ == (StreamView { buffer: rest, ..old(self)@ })
                    &&& match line_kind(payload_text(frame)) {
                        LineKind::Done => step matches StreamStep::Emit(CompletionEvent::Done),
                        LineKind::Heartbeat => step matches StreamStep::Emit(
                            CompletionEvent::Heartbeat,
                        ),
                        LineKind::Payload => step matches StreamStep::Decode(line) && line@
                            == payload_text(frame),
                    }
                },
                None => {
                    &&& final(self)@ == old(self)@
                    &&& if old(self)@.closed {
                        step is Finished
                    } else {
                        step is NeedInput
                    }
                },
            },
    {
        let frame = match split_frame(&mut self.buffer) {
            Some(frame) => frame,
            None => {
                if !self.closed {
                    return StreamStep::NeedInput;
                }
                if self.buffer.len() == 0 {
                    return StreamStep::Finished;
                }
                let mut rest: Vec<u8> = Vec::new();
                std::mem::swap(&mut self.buffer, &mut rest);
                rest
            },
        };
        let line = frame_text(frame.as_slice());
        match classify_line(line.as_str()) {
            LineKind::Done => StreamStep::Emit(CompletionEvent::Done),
            LineKind::Heartbeat => StreamStep::Emit(CompletionEvent::Heartbeat),
            LineKind::Payload => StreamStep::Decode(line),
        }
    }

    /// Whether the snapshot can be handed to [`CompletionStream::observe`]
    /// and [`CompletionStream::get_next_event`].
    pub fn can_take(&self, snapshot: &CompletionResponse) -> (ok: bool)
        ensures
            ok == self@.can_take(*snapshot),
    {
        match &snapshot.message {
            Some(m) => {
                if !str_eq(m.author.role.as_str(), "assistant") {
                    return true;
                }
                let text = join_with_newline(&m.content.parts);
                let held = self.textbuf.as_str().as_bytes().len();
                if text.as_str().as_bytes().len() < held {
                    return true;
                }
                text.as_str().is_char_boundary(held)
            },
            None => true,
        }
    }

    /// Whether the event can be handed to [`CompletionStream::observe`].
    pub fn can_observe(&self, event: &CompletionEvent) -> (ok: bool)
        ensures
            ok == self@.can_observe(*event),
    {
        match event {
            CompletionEvent::Data(snapshot) => self.can_take(snapshot),
            _ => true,
        }
    }

    /// Takes an event in. An accepted snapshot replaces the text held, the
    /// identifiers, the finish reason and the completion tokens, and goes
    /// upward with what it added; every other event leaves the state as it
    /// is.
    pub fn observe(&mut self, event: CompletionEvent) -> (out: Option<CompletionEvent>)
        requires
            old(self)@.can_observe(event),
        ensures
            final(self)@ == old(self)@.step(event),
            old(self)@.emits(event, out),
            old(self).wf() ==> final(self).wf(),
    {
        match event {
            CompletionEvent::Data(snapshot) => {
                let CompletionResponse { message, conversation_id, error, delta_chars } = snapshot;
                match message {
                    None => match error {
                        Some(reason) => Some(CompletionEvent::Error(reason)),
                        None => None,
                    },
                    Some(m) => {
                        if !str_eq(m.author.role.as_str(), "assistant") {
                            return None;
                        }
                        let text = join_with_newline(&m.content.parts);
                        let held = self.textbuf.as_str().as_bytes().len();
                        if text.as_str().as_bytes().len() < held {
                            return None;
                        }
                        let (_, tail) = text.as_str().split_at(held);
                        let delta = String::from_str(tail);
                        proof {
                            let bytes = encode_utf8(text@);
                            assert(bytes.subrange(held as int, bytes.len() as int) =~= bytes.skip(
                                held as int,
                            ));
                            encode_utf8_decode_utf8(tail@);
                        }
                        let count = tokenizer_count(&self.tokenizer, text.as_str());
                        self.conversation_id = Some(conversation_id.clone());
                        self.last_message_id = Some(m.id.clone());
                        self.finish_reason = derive_finish_reason(&m.metadata.finish_details);
                        self.textbuf = text;
                        self.completion_tokens = saturate_tokens(count);
                        Some(
                            CompletionEvent::Data(
                                CompletionResponse {
                                    message: Some(m),
                                    conversation_id,
                                    error,
                                    delta_chars: Some(delta),
                                },
                            ),
                        )
                    },
                }
            },
            CompletionEvent::Done => Some(CompletionEvent::Done),
            CompletionEvent::Heartbeat => Some(CompletionEvent::Heartbeat),
            CompletionEvent::Text(_) => None,
            CompletionEvent::Error(reason) => Some(CompletionEvent::Error(reason)),
        }
    }

    /// Classifies a payload line and takes the resulting event in.
    pub fn get_next_event(&mut self, line: String, decoded: Option<CompletionResponse>) -> (out:
        Option<CompletionEvent>)
        requires
            decoded matches Some(snapshot) ==> old(self)@.can_take(snapshot),
        ensures
            final(self)@ == old(self)@.step(event_of(line_kind(line@), line, decoded)),
            old(self)@.emits(event_of(line_kind(line@), line, decoded), out),
            old(self).wf() ==> final(self).wf(),
    {
        let event = CompletionEvent::from_line(line, decoded);
        self.observe(event)
    }
}

} // verus!
