//! The OpenAI-compatible face of a completion: the bodies of the
//! chat-completions wire format and what the endpoint does with each event.

use crate::bindings::{json_quote, json_string};
use crate::error::Error;
use crate::stream::{CompletionEvent, CompletionStream, StreamView, Timestamp};
use crate::text::{
    decimal, lemma_padded_decimal_width, opt_view, padded_decimal, pow10, push_decimal,
    push_padded_decimal, push_signed_decimal, signed_decimal,
};
use vstd::prelude::*;
use vstd::string::*;

verus! {

/// A point in time as a JSON number of seconds since the epoch, with the
/// nanoseconds as nine decimal places.
pub open spec fn created_json(at: Timestamp) -> Seq<char> {
    decimal(at.secs as nat) + "."@ + padded_decimal(at.nanos as nat, 9)
}

/// The creation time of a well-formed timestamp is written with exactly
/// nine decimal places, so that it reads as the seconds plus the
/// nanoseconds.
pub proof fn lemma_created_has_nine_places(at: Timestamp)
    requires
        at.wf(),
    ensures
        created_json(at).len() == decimal(at.secs as nat).len() + 1 + 9,
        created_json(at).subrange(0, decimal(at.secs as nat).len() as int) == decimal(
            at.secs as nat,
        ),
        created_json(at)[decimal(at.secs as nat).len() as int] == '.',
{
    reveal_with_fuel(pow10, 10);
    lemma_padded_decimal_width(at.nanos as nat, 9);
    reveal_strlit(".");
    let whole = decimal(at.secs as nat);
    assert(created_json(at).subrange(0, whole.len() as int) =~= whole);
}

/// An optional text as JSON: a string, or `null`.
pub open spec fn nullable_json(value: Option<Seq<char>>) -> Seq<char> {
    match value {
        Some(v) => json_string(v),
        None => "null"@,
    }
}

/// The members that every exported body begins with, around the JSON value
/// of the identifier: identifier, creation time and model.
pub open spec fn head_layout(id: Seq<char>, at: Timestamp) -> Seq<char> {
    "{\"id\":"@ + id + ",\"created\":"@ + created_json(at) + ",\"model\":\"gpt-3.5-turbo\""@
}

/// The body of a complete reply, laid out around the JSON values of the
/// identifier, the finish reason and the reply: the reply is the assistant's
/// message, and the usage gives the prompt tokens, the completion tokens and
/// their sum.
pub open spec fn completion_layout(
    id: Seq<char>,
    at: Timestamp,
    finish_reason: Seq<char>,
    content: Seq<char>,
    prompt_tokens: int,
    completion_tokens: int,
) -> Seq<char> {
    head_layout(id, at) + ",\"object\":\"chat.completion\",\"choices\":[{\"finish_reason\":"@
        + finish_reason + ",\"index\":0,\"message\":{\"content\":"@ + content
        + ",\"role\":\"assistant\"}}],\"usage\":{\"prompt_tokens\":"@ + signed_decimal(
        prompt_tokens,
    ) + ",\"completion_tokens\":"@ + signed_decimal(completion_tokens) + ",\"total_tokens\":"@
        + signed_decimal(prompt_tokens + completion_tokens) + "}}"@
}

/// The body of one chunk of a streamed reply, laid out around the JSON
/// values of the identifier, the finish reason and the delta.
pub open spec fn chunk_layout(
    id: Seq<char>,
    at: Timestamp,
    finish_reason: Seq<char>,
    delta: Seq<char>,
) -> Seq<char> {
    head_layout(id, at)
        + ",\"object\":\"chat.completion.chunk\",\"choices\":[{\"index\":0,\"finish_reason\":"@
        + finish_reason + ",\"delta\":{\"content\":"@ + delta + ",\"role\":\"assistant\"}}]}"@
}

/// The body of the chunk that reports a failure, laid out around the JSON
/// values of the identifier and the reason: the finish reason is `error`.
pub open spec fn error_chunk_layout(id: Seq<char>, at: Timestamp, reason: Seq<char>) -> Seq<char> {
    head_layout(id, at)
        + ",\"object\":\"chat.completion.chunk\",\"choices\":[{\"index\":0,\"finish_reason\":\"error\",\"delta\":{\"content\":"@
        + reason + "}}]}"@
}

/// The body of a complete reply: the text held as the assistant's message,
/// the finish reason, and the token usage with its total.
pub open spec fn completion_json(state: StreamView) -> Seq<char> {
    completion_layout(
        json_string(state.request_id),
        state.start_at,
        nullable_json(state.finish_reason),
        json_string(state.textbuf),
        state.prompt_tokens,
        state.completion_tokens,
    )
}

/// The body of one chunk of a streamed reply: what a snapshot added, as the
/// assistant's delta.
pub open spec fn chunk_json(state: StreamView, delta: Option<Seq<char>>) -> Seq<char> {
    chunk_layout(
        json_string(state.request_id),
        state.start_at,
        nullable_json(state.finish_reason),
        nullable_json(delta),
    )
}

/// The body of the last chunk of a reply that failed: the finish reason is
/// `error` and the delta carries what the upstream reported.
pub open spec fn error_chunk_json(state: StreamView, reason: Seq<char>) -> Seq<char> {
    error_chunk_layout(json_string(state.request_id), state.start_at, json_string(reason))
}

fn render_nullable(value: &Option<String>) -> (out: String)
    ensures
        out@ == nullable_json(opt_view(*value)),
{
    match value {
        Some(v) => json_quote(v.as_str()),
        None => String::from_str("null"),
    }
}

fn push_head(out: &mut String, id: &str, at: Timestamp)
    ensures
        final(out)@ == old(out)@ + head_layout(id@, at),
{
    out.append("{\"id\":");
    out.append(id);
    out.append(",\"created\":");
    push_decimal(out, at.secs);
    out.append(".");
    push_padded_decimal(out, at.nanos as u64, 9);
    out.append(",\"model\":\"gpt-3.5-turbo\"");
    assert(out@ =~= old(out)@ + head_layout(id@, at));
}

/// Lays out the body of a complete reply around JSON values that are
/// already rendered.
pub fn layout_completion(
    id: &str,
    at: Timestamp,
    finish_reason: &str,
    content: &str,
    prompt_tokens: i32,
    completion_tokens: i32,
) -> (body: String)
    ensures
        body@ == completion_layout(
            id@,
            at,
            finish_reason@,
            content@,
            prompt_tokens as int,
            completion_tokens as int,
        ),
{
    let mut out = String::new();
    push_head(&mut out, id, at);
    out.append(",\"object\":\"chat.completion\",\"choices\":[{\"finish_reason\":");
    out.append(finish_reason);
    out.append(",\"index\":0,\"message\":{\"content\":");
    out.append(content);
    out.append(",\"role\":\"assistant\"}}],\"usage\":{\"prompt_tokens\":");
    push_signed_decimal(&mut out, prompt_tokens as i64);
    out.append(",\"completion_tokens\":");
    push_signed_decimal(&mut out, completion_tokens as i64);
    out.append(",\"total_tokens\":");
    push_signed_decimal(&mut out, (prompt_tokens as i64) + (completion_tokens as i64));
    out.append("}}");
    assert(out@ =~= completion_layout(
        id@,
        at,
        finish_reason@,
        content@,
        prompt_tokens as int,
        completion_tokens as int,
    ));
    out
}

/// Lays out the body of a chunk around JSON values that are already
/// rendered.
pub fn layout_chunk(id: &str, at: Timestamp, finish_reason: &str, delta: &str) -> (body: String)
    ensures
        body@ == chunk_layout(id@, at, finish_reason@, delta@),
{
    let mut out = String::new();
    push_head(&mut out, id, at);
    out.append(",\"object\":\"chat.completion.chunk\",\"choices\":[{\"index\":0,\"finish_reason\":");
    out.append(finish_reason);
    out.append(",\"delta\":{\"content\":");
    out.append(delta);
    out.append(",\"role\":\"assistant\"}}]}");
    assert(out@ =~= chunk_layout(id@, at, finish_reason@, delta@));
    out
}

/// Lays out the body of the chunk that reports a failure around JSON values
/// that are already rendered.
pub fn layout_error_chunk(id: &str, at: Timestamp, reason: &str) -> (body: String)
    ensures
        body@ == error_chunk_layout(id@, at, reason@),
{
    let mut out = String::new();
    push_head(&mut out, id, at);
    out.append(
        ",\"object\":\"chat.completion.chunk\",\"choices\":[{\"index\":0,\"finish_reason\":\"error\",\"delta\":{\"content\":",
    );
    out.append(reason);
    out.append("}}]}");
    assert(out@ =~= error_chunk_layout(id@, at, reason@));
    out
}

/// Writes the body of the complete reply held by the stream.
pub fn completion_body(stream: &CompletionStream) -> (body: String)
    ensures
        body@ == completion_json(stream@),
{
    let id = json_quote(stream.request_id().as_str());
    let finish_reason = render_nullable(stream.finish_reason());
    let content = json_quote(stream.textbuf().as_str());
    layout_completion(
        id.as_str(),
        stream.start_at(),
        finish_reason.as_str(),
        content.as_str(),
        stream.prompt_tokens(),
        stream.completion_tokens(),
    )
}

/// Writes the body of the chunk for what a snapshot added.
pub fn chunk_body(stream: &CompletionStream, delta: &Option<String>) -> (body: String)
    ensures
        body@ == chunk_json(stream@, opt_view(*delta)),
{
    let id = json_quote(stream.request_id().as_str());
    let finish_reason = render_nullable(stream.finish_reason());
    let added = render_nullable(delta);
    layout_chunk(id.as_str(), stream.start_at(), finish_reason.as_str(), added.as_str())
}

/// Writes the body of the chunk that reports a failure.
pub fn error_chunk_body(stream: &CompletionStream, reason: &str) -> (body: String)
    ensures
        body@ == error_chunk_json(stream@, reason@),
{
    let id = json_quote(stream.request_id().as_str());
    let told = json_quote(reason);
    layout_error_chunk(id.as_str(), stream.start_at(), told.as_str())
}

/// Whether a request asks for a streamed reply: only when it says so.
pub fn stream_mode(flag: Option<bool>) -> (streamed: bool)
    ensures
        streamed == (flag == Some(true)),
{
    match flag {
        Some(b) => b,
        None => false,
    }
}

/// What the streaming endpoint does with one event.
#[derive(Debug)]
pub enum SseAction {
    /// Send an event with this data.
    Send(String),
    /// Send an event with this data, then end the response.
    SendLast(String),
    /// End the response.
    End,
    /// Send nothing for this event.
    Skip,
}

/// What the streaming endpoint does with an event, given the state of the
/// stream after it: a snapshot goes out as a chunk with its delta, a
/// reported error as the error chunk that closes the response, the end
/// marker ends the response, and nothing is sent for heartbeats and
/// undecodable text.
pub open spec fn sse_action_for(state: StreamView, event: CompletionEvent, action: SseAction)
    -> bool {
    match event {
        CompletionEvent::Data(snapshot) => action matches SseAction::Send(data) && data@
            == chunk_json(state, opt_view(snapshot.delta_chars)),
        CompletionEvent::Done => action is End,
        CompletionEvent::Error(reason) => action matches SseAction::SendLast(data) && data@
            == error_chunk_json(state, reason@),
        CompletionEvent::Heartbeat => action is Skip,
        CompletionEvent::Text(_) => action is Skip,
    }
}

/// Decides what the streaming endpoint does with an event.
pub fn sse_step(stream: &CompletionStream, event: &CompletionEvent) -> (action: SseAction)
    ensures
        sse_action_for(stream@, *event, action),
{
    match event {
        CompletionEvent::Data(snapshot) => SseAction::Send(
            chunk_body(stream, &snapshot.delta_chars),
        ),
        CompletionEvent::Done => SseAction::End,
        CompletionEvent::Error(reason) => SseAction::SendLast(
            error_chunk_body(stream, reason.as_str()),
        ),
        CompletionEvent::Heartbeat => SseAction::Skip,
        CompletionEvent::Text(_) => SseAction::Skip,
    }
}

/// What the non-streaming endpoint does with one event.
#[derive(Debug)]
pub enum SyncAction {
    /// Keep reading events.
    Continue,
    /// The reply is complete: answer with the body of the completion.
    Finish,
    /// Give up with this error.
    Fail(Error),
}

/// What the non-streaming endpoint does with an event: the end marker
/// completes the reply, a reported error fails the request with that
/// reason, and every other event is read past.
pub open spec fn sync_action_for(event: CompletionEvent, action: SyncAction) -> bool {
    match event {
        CompletionEvent::Done => action is Finish,
        CompletionEvent::Error(reason) => action == SyncAction::Fail(Error::Io(reason)),
        _ => action is Continue,
    }
}

/// Decides what the non-streaming endpoint does with an event.
pub fn sync_step(event: CompletionEvent) -> (action: SyncAction)
    ensures
        sync_action_for(event, action),
{
    match event {
        CompletionEvent::Done => SyncAction::Finish,
        CompletionEvent::Error(reason) => SyncAction::Fail(Error::Io(reason)),
        _ => SyncAction::Continue,
    }
}

/// A response of the endpoint up to its transport: status, content type
/// (left to the server's default when absent) and body.
#[derive(Debug)]
pub struct FacadeResponse {
    pub status: u16,
    pub content_type: Option<String>,
    pub body: String,
}

/// The response that carries a complete reply: status 200 and a JSON body.
pub fn sync_response(stream: &CompletionStream) -> (response: FacadeResponse)
    ensures
        response.status == 200,
        opt_view(response.content_type) == Some("application/json"@),
        response.body@ == completion_json(stream@),
{
    FacadeResponse {
        status: 200,
        content_type: Some(String::from_str("application/json")),
        body: completion_body(stream),
    }
}

/// The response to a request that failed: status 500 with the message of
/// the error as its body.
pub fn error_response(error: &Error) -> (response: FacadeResponse)
    ensures
        response.status == 500,
        response.content_type is None,
        response.body@ == error.message(),
{
    FacadeResponse { status: 500, content_type: None, body: error.to_string() }
}

/// The path of the completions endpoint under a prefix.
pub fn completions_path(prefix: &str) -> (path: String)
    ensures
        path@ == prefix@ + "/chat/completions"@,
{
    String::from_str(prefix).concat("/chat/completions")
}

} // verus!
