//! The conversational turn, the completion request built from turns, and
//! their wire form.

use crate::bindings::{json_quote, json_string, local_utc_offset_seconds, random_uuid};
use crate::config::AppStateRef;
use crate::text::{push_signed_decimal, signed_decimal};
use vstd::prelude::*;
use vstd::string::*;

verus! {

/// One turn of the conversation. The role is `user`, `system` or
/// `assistant`; the content type is `text` unless stated.
#[derive(Debug, Clone)]
pub struct Message {
    pub role: String,
    pub content: String,
    pub content_type: Option<String>,
}

/// The mode of the conversation, which the wire form carries as an object
/// with the single key `kind`.
#[derive(Debug, Clone, Default)]
pub struct ConversationMode {
    pub kind: String,
}

/// The body of one completion call.
#[derive(Debug, Clone, Default)]
pub struct CompletionRequest {
    pub action: String,
    pub model: String,
    pub messages: Vec<Message>,
    pub conversation_mode: ConversationMode,
    pub websocket_request_id: String,
    pub conversation_id: Option<String>,
    pub parent_message_id: String,
    pub timezone_offset_min: i32,
    pub history_and_training_disabled: bool,
}

/// Whole minutes in a number of seconds, rounded towards zero.
pub open spec fn whole_minutes(seconds: int) -> int {
    if seconds >= 0 {
        seconds / 60
    } else {
        -((-seconds) / 60)
    }
}

/// JSON text of a truth value.
pub open spec fn bool_json(b: bool) -> Seq<char> {
    if b {
        "true"@
    } else {
        "false"@
    }
}

/// The object of a turn, laid out around the JSON values of its role, its
/// content type and its content.
pub open spec fn turn_layout(role: Seq<char>, content_type: Seq<char>, content: Seq<char>) -> Seq<
    char,
> {
    "{\"author\":{\"role\":"@ + role + "},\"content\":{\"content_type\":"@ + content_type
        + ",\"parts\":["@ + content + "]}}"@
}

/// Lays out the object of a turn around JSON values that are already
/// rendered.
pub fn layout_turn(role: &str, content_type: &str, content: &str) -> (out: String)
    ensures
        out@ == turn_layout(role@, content_type@, content@),
{
    let mut out = String::from_str("{\"author\":{\"role\":");
    out.append(role);
    out.append("},\"content\":{\"content_type\":");
    out.append(content_type);
    out.append(",\"parts\":[");
    out.append(content);
    out.append("]}}");
    out
}

/// The object of a request, laid out around the JSON values of its text
/// fields and the rendered list of its turns. The members stand in the
/// order of the fields; the conversation identifier is left out when there
/// is none.
pub open spec fn request_layout(
    action: Seq<char>,
    model: Seq<char>,
    messages: Seq<char>,
    mode_kind: Seq<char>,
    websocket_request_id: Seq<char>,
    conversation_id: Option<Seq<char>>,
    parent_message_id: Seq<char>,
    timezone_offset_min: int,
    history_and_training_disabled: bool,
) -> Seq<char> {
    let conversation = match conversation_id {
        Some(id) => "\"conversation_id\":"@ + id + ","@,
        None => Seq::empty(),
    };
    "{\"action\":"@ + action + ",\"model\":"@ + model + ",\"messages\":["@ + messages
        + "],\"conversation_mode\":{\"kind\":"@ + mode_kind + "},\"websocket_request_id\":"@
        + websocket_request_id + ","@ + conversation + "\"parent_message_id\":"@
        + parent_message_id + ",\"timezone_offset_min\":"@ + signed_decimal(timezone_offset_min)
        + ",\"history_and_training_disabled\":"@ + bool_json(history_and_training_disabled)
        + "}"@
}

/// Lays out the object of a request around JSON values that are already
/// rendered.
pub fn layout_request(
    action: &str,
    model: &str,
    messages: &str,
    mode_kind: &str,
    websocket_request_id: &str,
    conversation_id: Option<&str>,
    parent_message_id: &str,
    timezone_offset_min: i32,
    history_and_training_disabled: bool,
) -> (out: String)
    ensures
        out@ == request_layout(
            action@,
            model@,
            messages@,
            mode_kind@,
            websocket_request_id@,
            match conversation_id {
                Some(id) => Some(id@),
                None => None,
            },
            parent_message_id@,
            timezone_offset_min as int,
            history_and_training_disabled,
        ),
{
    let mut out = String::from_str("{\"action\":");
    out.append(action);
    out.append(",\"model\":");
    out.append(model);
    out.append(",\"messages\":[");
    out.append(messages);
    out.append("],\"conversation_mode\":{\"kind\":");
    out.append(mode_kind);
    out.append("},\"websocket_request_id\":");
    out.append(websocket_request_id);
    out.append(",");
    match conversation_id {
        Some(id) => {
            out.append("\"conversation_id\":");
            out.append(id);
            out.append(",");
        },
        None => {},
    }
    out.append("\"parent_message_id\":");
    out.append(parent_message_id);
    out.append(",\"timezone_offset_min\":");
    push_signed_decimal(&mut out, timezone_offset_min as i64);
    out.append(",\"history_and_training_disabled\":");
    if history_and_training_disabled {
        out.append("true");
    } else {
        out.append("false");
    }
    out.append("}");
    assert(out@ =~= request_layout(
        action@,
        model@,
        messages@,
        mode_kind@,
        websocket_request_id@,
        match conversation_id {
            Some(id) => Some(id@),
            None => None,
        },
        parent_message_id@,
        timezone_offset_min as int,
        history_and_training_disabled,
    ));
    out
}

impl Message {
    /// The content type that goes on the wire.
    pub open spec fn wire_content_type(&self) -> Seq<char> {
        match self.content_type {
            Some(t) => t@,
            None => "text"@,
        }
    }

    /// The wire form of a turn: the role nested under `author`, the content
    /// as the single part of `content`.
    pub open spec fn json(&self) -> Seq<char> {
        turn_layout(
            json_string(self.role@),
            json_string(self.wire_content_type()),
            json_string(self.content@),
        )
    }

    /// Renders the turn in its wire form.
    pub fn to_json(&self) -> (out: String)
        ensures
            out@ == self.json(),
    {
        let role = json_quote(self.role.as_str());
        let content_type = match &self.content_type {
            Some(t) => json_quote(t.as_str()),
            None => json_quote("text"),
        };
        let content = json_quote(self.content.as_str());
        layout_turn(role.as_str(), content_type.as_str(), content.as_str())
    }
}

/// The wire forms of the turns, separated by commas.
pub open spec fn messages_json(messages: Seq<Message>) -> Seq<char>
    decreases messages.len(),
{
    if messages.len() == 0 {
        Seq::empty()
    } else if messages.len() == 1 {
        messages[0].json()
    } else {
        messages_json(messages.drop_last()) + ","@ + messages.last().json()
    }
}

/// Renders the turns, separated by commas.
pub fn messages_to_json(messages: &Vec<Message>) -> (out: String)
    ensures
        out@ == messages_json(messages@),
{
    let mut out = String::new();
    let mut i: usize = 0;
    while i < messages.len()
        invariant
            i <= messages.len(),
            out@ == messages_json(messages@.take(i as int)),
        decreases messages.len() - i,
    {
        let ghost before = messages@.take(i as int);
        let ghost after = messages@.take(i + 1);
        proof {
            assert(after.drop_last() =~= before);
            assert(after.last() == messages@[i as int]);
        }
        if i > 0 {
            out.append(",");
        }
        out.append(messages[i].to_json().as_str());
        proof {
            if i == 0 {
                assert(out@ =~= messages@[0].json());
            }
            assert(out@ =~= messages_json(after));
        }
        i += 1;
    }
    assert(messages@.take(messages.len() as int) =~= messages@);
    out
}

impl CompletionRequest {
    /// The wire form of the request: one JSON object whose members stand in
    /// the order of the fields, without the conversation identifier when
    /// there is none.
    pub open spec fn json(&self) -> Seq<char> {
        request_layout(
            json_string(self.action@),
            json_string(self.model@),
            messages_json(self.messages@),
            json_string(self.conversation_mode.kind@),
            json_string(self.websocket_request_id@),
            match self.conversation_id {
                Some(id) => Some(json_string(id@)),
                None => None,
            },
            json_string(self.parent_message_id@),
            self.timezone_offset_min as int,
            self.history_and_training_disabled,
        )
    }

    /// Whether `self` is the request for the given ingredients: the fixed
    /// action and mode, the timezone offset in whole minutes, and training
    /// on history left enabled.
    pub open spec fn is_assembled_from(
        &self,
        model: Seq<char>,
        messages: Vec<Message>,
        conversation_id: Option<String>,
        parent_message_id: Seq<char>,
        websocket_request_id: Seq<char>,
        offset_seconds: int,
    ) -> bool {
        &&& self.action@ == "next"@
        &&& self.model@ == model
        &&& self.messages == messages
        &&& self.conversation_mode.kind@ == "primary_assistant"@
        &&& self.websocket_request_id@ == websocket_request_id
        &&& self.conversation_id == conversation_id
        &&& self.parent_message_id@ == parent_message_id
        &&& self.timezone_offset_min == whole_minutes(offset_seconds)
        &&& self.history_and_training_disabled == false
    }

    /// Builds the request from its ingredients.
    pub fn assemble(
        model: String,
        messages: Vec<Message>,
        conversation_id: Option<String>,
        parent_message_id: String,
        websocket_request_id: String,
        offset_seconds: i32,
    ) -> (request: CompletionRequest)
        ensures
            request.is_assembled_from(
                model@,
                messages,
                conversation_id,
                parent_message_id@,
                websocket_request_id@,
                offset_seconds as int,
            ),
    {
        let seconds: i64 = offset_seconds as i64;
        let minutes: i64 = if seconds >= 0 {
            seconds / 60
        } else {
            -((-seconds) / 60)
        };
        CompletionRequest {
            action: String::from_str("next"),
            model,
            messages,
            conversation_mode: ConversationMode { kind: String::from_str("primary_assistant") },
            websocket_request_id,
            conversation_id,
            parent_message_id,
            timezone_offset_min: minutes as i32,
            history_and_training_disabled: false,
        }
    }

    /// Builds the request for the configured model. The request identifier
    /// is a fresh UUID, and so is the parent message identifier when none is
    /// given; the timezone offset is that of the machine. Everything else is
    /// determined by the arguments.
    pub fn new(
        state: AppStateRef,
        messages: Vec<Message>,
        conversation_id: Option<String>,
        parent_message_id: Option<String>,
    ) -> (request: CompletionRequest)
        ensures
            request.action@ == "next"@,
            request.model@ == state.model@,
            request.messages == messages,
            request.conversation_mode.kind@ == "primary_assistant"@,
            request.conversation_id == conversation_id,
            parent_message_id matches Some(p) ==> request.parent_message_id@ == p@,
            -1_440 < request.timezone_offset_min < 1_440,
            request.history_and_training_disabled == false,
    {
        let offset_seconds = local_utc_offset_seconds();
        let websocket_request_id = random_uuid();
        let parent = match parent_message_id {
            Some(p) => p,
            None => random_uuid(),
        };
        CompletionRequest::assemble(
            state.model.clone(),
            messages,
            conversation_id,
            parent,
            websocket_request_id,
            offset_seconds,
        )
    }

    /// Renders the request body.
    pub fn to_json(&self) -> (out: String)
        ensures
            out@ == self.json(),
    {
        let action = json_quote(self.action.as_str());
        let model = json_quote(self.model.as_str());
        let messages = messages_to_json(&self.messages);
        let mode_kind = json_quote(self.conversation_mode.kind.as_str());
        let websocket_request_id = json_quote(self.websocket_request_id.as_str());
        let parent_message_id = json_quote(self.parent_message_id.as_str());
        match &self.conversation_id {
            Some(id) => {
                let conversation_id = json_quote(id.as_str());
                layout_request(
                    action.as_str(),
                    model.as_str(),
                    messages.as_str(),
                    mode_kind.as_str(),
                    websocket_request_id.as_str(),
                    Some(conversation_id.as_str()),
                    parent_message_id.as_str(),
                    self.timezone_offset_min,
                    self.history_and_training_disabled,
                )
            },
            None => layout_request(
                action.as_str(),
                model.as_str(),
                messages.as_str(),
                mode_kind.as_str(),
                websocket_request_id.as_str(),
                None,
                parent_message_id.as_str(),
                self.timezone_offset_min,
                self.history_and_training_disabled,
            ),
        }
    }
}

} // verus!
