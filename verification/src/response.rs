//! The decoded shape of one upstream snapshot and the classification of its
//! finish details.

use crate::text::{opt_view, str_eq};
use vstd::prelude::*;
use vstd::string::*;

verus! {

/// Who wrote a message.
#[derive(Debug, Clone)]
pub struct CompletionMessageAuthor {
    pub role: String,
    pub name: Option<String>,
}

/// The body of a message: its parts are the lines of the reply so far.
#[derive(Debug, Clone)]
pub struct CompletionMessageContent {
    pub content_type: String,
    pub parts: Vec<String>,
}

/// Why the reply ended, as the upstream reports it.
#[derive(Debug, Clone)]
pub struct CompletionMessageFinishDetails {
    pub kind: Option<String>,
}

/// Bookkeeping that accompanies a message.
#[derive(Debug, Clone)]
pub struct CompletionMessageMeta {
    pub citations: Option<Vec<String>>,
    pub gizmo_id: Option<String>,
    pub message_type: Option<String>,
    pub model_slug: Option<String>,
    pub default_model_slug: Option<String>,
    pub pad: Option<String>,
    pub parent_id: Option<String>,
    pub model_switcher_deny: Option<Vec<String>>,
    pub is_visually_hidden_from_conversation: Option<bool>,
    pub finish_details: Option<CompletionMessageFinishDetails>,
}

/// One message of the conversation as the upstream sends it.
#[derive(Debug, Clone)]
pub struct CompletionMessage {
    pub id: String,
    pub author: CompletionMessageAuthor,
    pub content: CompletionMessageContent,
    pub status: String,
    pub end_turn: Option<bool>,
    pub metadata: CompletionMessageMeta,
    pub recipient: String,
}

/// One snapshot of the stream: either a message carrying the whole reply so
/// far, or an error reported by the upstream. `delta_chars` is never part of
/// the wire form; the stream fills it in with what the snapshot added.
#[derive(Debug, Clone)]
pub struct CompletionResponse {
    pub message: Option<CompletionMessage>,
    pub conversation_id: String,
    pub error: Option<String>,
    pub delta_chars: Option<String>,
}

/// The finish reason that finish details stand for: none when they are
/// absent, `length` when their type is `max_tokens`, `stop` for any other
/// type and for a missing one.
pub open spec fn finish_reason_of(details: Option<CompletionMessageFinishDetails>) -> Option<
    Seq<char>,
> {
    match details {
        None => None,
        Some(d) => match d.kind {
            Some(t) => if t@ == "max_tokens"@ {
                Some("length"@)
            } else {
                Some("stop"@)
            },
            None => Some("stop"@),
        },
    }
}

/// Classifies finish details.
pub fn derive_finish_reason(details: &Option<CompletionMessageFinishDetails>) -> (reason: Option<
    String,
>)
    ensures
        opt_view(reason) == finish_reason_of(*details),
{
    match details {
        None => None,
        Some(d) => match &d.kind {
            Some(t) => {
                if str_eq(t.as_str(), "max_tokens") {
                    Some(String::from_str("length"))
                } else {
                    Some(String::from_str("stop"))
                }
            },
            None => Some(String::from_str("stop")),
        },
    }
}

impl CompletionResponse {
    /// The finish reason of the snapshot: none without a message, else what
    /// the message's finish details stand for.
    pub open spec fn finish_reason(&self) -> Option<Seq<char>> {
        match self.message {
            None => None,
            Some(m) => finish_reason_of(m.metadata.finish_details),
        }
    }

    /// The exported finish reason of this snapshot.
    pub fn get_finish_reason(&self) -> (reason: Option<String>)
        ensures
            opt_view(reason) == self.finish_reason(),
    {
        match &self.message {
            None => None,
            Some(m) => derive_finish_reason(&m.metadata.finish_details),
        }
    }
}

} // verus!
