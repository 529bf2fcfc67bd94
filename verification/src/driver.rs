//! The chat driver: what to do with each event of a completion, how the
//! turns of a one-shot question are put together, and the command grammar of
//! the interactive prompt.

use crate::bindings::{random_uuid, string_push};
use crate::request::Message;
use crate::stream::{CompletionEvent, CompletionStream};
use crate::text::{opt_view, str_eq};
use vstd::prelude::*;
use vstd::string::*;

verus! {

/// The totals of a finished completion.
#[derive(Debug, Clone)]
pub struct CompletionResult {
    pub textbuf: String,
    pub conversation_id: Option<String>,
    pub last_message_id: Option<String>,
    pub finish_reason: Option<String>,
}

/// What the driver does with one event of the stream.
#[derive(Debug)]
pub enum DriverAction {
    /// Hand this text to the sink.
    Emit(String),
    /// Nothing to show; wait for the next event.
    Continue,
    /// The reply is complete.
    Finish,
    /// The upstream reported a failure; stop.
    Fail(String),
}

/// What the driver does with an event: a snapshot that added something is
/// emitted, the end marker finishes the run, a reported error fails it, and
/// everything else (empty additions, heartbeats, undecodable text) is
/// passed over.
pub open spec fn action_for(event: CompletionEvent, action: DriverAction) -> bool {
    match event {
        CompletionEvent::Data(snapshot) => match snapshot.delta_chars {
            Some(delta) => if delta@.len() > 0 {
                action == DriverAction::Emit(delta)
            } else {
                action is Continue
            },
            None => action is Continue,
        },
        CompletionEvent::Done => action is Finish,
        CompletionEvent::Error(reason) => action == DriverAction::Fail(reason),
        CompletionEvent::Heartbeat => action is Continue,
        CompletionEvent::Text(_) => action is Continue,
    }
}

/// Decides what to do with an event that the stream handed upward.
pub fn drive(event: CompletionEvent) -> (action: DriverAction)
    ensures
        action_for(event, action),
{
    match event {
        CompletionEvent::Data(snapshot) => match snapshot.delta_chars {
            Some(delta) => {
                if delta.as_str().is_empty() {
                    DriverAction::Continue
                } else {
                    DriverAction::Emit(delta)
                }
            },
            None => DriverAction::Continue,
        },
        CompletionEvent::Done => DriverAction::Finish,
        CompletionEvent::Error(reason) => DriverAction::Fail(reason),
        CompletionEvent::Heartbeat => DriverAction::Continue,
        CompletionEvent::Text(_) => DriverAction::Continue,
    }
}

impl CompletionStream {
    /// The totals of the completion as the stream holds them now.
    pub fn result(&self) -> (totals: CompletionResult)
        ensures
            totals.textbuf@ == self@.textbuf,
            opt_view(totals.conversation_id) == self@.conversation_id,
            opt_view(totals.last_message_id) == self@.last_message_id,
            opt_view(totals.finish_reason) == self@.finish_reason,
    {
        CompletionResult {
            textbuf: self.textbuf().clone(),
            conversation_id: copy_opt(self.conversation_id()),
            last_message_id: copy_opt(self.last_message_id()),
            finish_reason: copy_opt(self.finish_reason()),
        }
    }
}

fn copy_opt(value: &Option<String>) -> (copy: Option<String>)
    ensures
        copy == *value,
{
    match value {
        Some(s) => Some(s.clone()),
        None => None,
    }
}

/// Where the next question of an interactive conversation attaches: the
/// conversation so far, if any, and the message it follows.
#[derive(Debug, Clone)]
pub struct Conversation {
    pub conversation_id: Option<String>,
    pub parent_message_id: Option<String>,
}

impl Conversation {
    /// A conversation that has not begun, attached below the given message.
    pub fn starting_at(parent_message_id: String) -> (start: Conversation)
        ensures
            start.conversation_id is None,
            start.parent_message_id == Some(parent_message_id),
    {
        Conversation { conversation_id: None, parent_message_id: Some(parent_message_id) }
    }

    /// A conversation that has not begun, attached below a fresh random
    /// message identifier.
    pub fn fresh() -> (start: Conversation)
        ensures
            start.conversation_id is None,
            start.parent_message_id is Some,
    {
        Conversation::starting_at(random_uuid())
    }

    /// Continues after a finished completion: the next question belongs to
    /// the conversation of the reply and follows its last message.
    pub fn follow(&mut self, totals: CompletionResult)
        ensures
            final(self).conversation_id == totals.conversation_id,
            final(self).parent_message_id == totals.last_message_id,
    {
        self.conversation_id = totals.conversation_id;
        self.parent_message_id = totals.last_message_id;
    }
}

/// Role, content and content type of a turn.
pub open spec fn turn_view(message: Message) -> (Seq<char>, Seq<char>, Option<Seq<char>>) {
    (message.role@, message.content@, opt_view(message.content_type))
}

/// Role, content and content type of each turn.
pub open spec fn turn_views(messages: Seq<Message>) -> Seq<
    (Seq<char>, Seq<char>, Option<Seq<char>>),
> {
    Seq::new(messages.len(), |i: int| turn_view(messages[i]))
}

/// A turn of plain text.
pub open spec fn text_turn(role: Seq<char>, content: Seq<char>) -> (
    Seq<char>,
    Seq<char>,
    Option<Seq<char>>,
) {
    (role, content, Some("text"@))
}

/// The turns of a one-shot question, in order: the coding prompt as a system
/// turn when coding is asked for, then the question, the contents of the
/// input file and what was piped in, each as a user turn when present.
pub open spec fn question_turns(
    code_prompt: Option<Seq<char>>,
    question: Option<Seq<char>>,
    file_content: Option<Seq<char>>,
    piped: Option<Seq<char>>,
) -> Seq<(Seq<char>, Seq<char>, Option<Seq<char>>)> {
    let system = match code_prompt {
        Some(p) => seq![text_turn("system"@, p)],
        None => Seq::empty(),
    };
    let asked = match question {
        Some(q) => seq![text_turn("user"@, q)],
        None => Seq::empty(),
    };
    let from_file = match file_content {
        Some(c) => seq![text_turn("user"@, c)],
        None => Seq::empty(),
    };
    let from_pipe = match piped {
        Some(c) => seq![text_turn("user"@, c)],
        None => Seq::empty(),
    };
    system + asked + from_file + from_pipe
}

fn push_turn(messages: &mut Vec<Message>, role: &str, content: String)
    ensures
        turn_views(final(messages)@) == turn_views(old(messages)@).push(
            text_turn(role@, content@),
        ),
{
    messages.push(
        Message {
            role: String::from_str(role),
            content,
            content_type: Some(String::from_str("text")),
        },
    );
    assert(turn_views(messages@) =~= turn_views(old(messages)@).push(text_turn(role@, content@)));
}

/// Puts the turns of a one-shot question together.
pub fn build_messages(
    code_prompt: Option<String>,
    question: Option<String>,
    file_content: Option<String>,
    piped: Option<String>,
) -> (messages: Vec<Message>)
    ensures
        turn_views(messages@) == question_turns(
            opt_view(code_prompt),
            opt_view(question),
            opt_view(file_content),
            opt_view(piped),
        ),
{
    let mut messages: Vec<Message> = Vec::new();
    assert(turn_views(messages@) =~= Seq::empty());
    match code_prompt {
        Some(p) => push_turn(&mut messages, "system", p),
        None => {},
    }
    match question {
        Some(q) => push_turn(&mut messages, "user", q),
        None => {},
    }
    match file_content {
        Some(c) => push_turn(&mut messages, "user", c),
        None => {},
    }
    match piped {
        Some(c) => push_turn(&mut messages, "user", c),
        None => {},
    }
    assert(turn_views(messages@) =~= question_turns(
        opt_view(code_prompt),
        opt_view(question),
        opt_view(file_content),
        opt_view(piped),
    ));
    messages
}

/// What a line typed at the interactive prompt asks for.
#[derive(Debug)]
pub enum ReplCommand {
    /// Leave the program (`/exit`, `/bye`).
    Exit,
    /// Show the help text (`/help`).
    Help,
    /// Forget the conversation (`/reset`).
    Reset,
    /// An empty line: nothing to do.
    Empty,
    /// A line ending in a backslash: the question goes on. Carries the line
    /// without the backslash.
    More(String),
    /// A question to send. Carries the line.
    Ask(String),
}

/// The meaning of a trimmed line at the interactive prompt.
pub open spec fn repl_meaning(line: Seq<char>, command: ReplCommand) -> bool {
    if line == "/exit"@ || line == "/bye"@ {
        command is Exit
    } else if line == "/help"@ {
        command is Help
    } else if line == "/reset"@ {
        command is Reset
    } else if line.len() == 0 {
        command is Empty
    } else if line.last() == '\\' {
        command matches ReplCommand::More(head) && head@ == line.drop_last()
    } else {
        command matches ReplCommand::Ask(question) && question@ == line
    }
}

/// Reads a trimmed line of the interactive prompt.
pub fn parse_repl_line(line: &str) -> (command: ReplCommand)
    ensures
        repl_meaning(line@, command),
{
    if str_eq(line, "/exit") || str_eq(line, "/bye") {
        return ReplCommand::Exit;
    }
    if str_eq(line, "/help") {
        return ReplCommand::Help;
    }
    if str_eq(line, "/reset") {
        return ReplCommand::Reset;
    }
    let n = line.unicode_len();
    if n == 0 {
        return ReplCommand::Empty;
    }
    if line.get_char(n - 1) == '\\' {
        ReplCommand::More(String::from_str(line.substring_char(0, n - 1)))
    } else {
        ReplCommand::Ask(String::from_str(line))
    }
}

/// The question typed so far, after a line that goes on: the line without
/// its backslash is appended, followed by a line feed.
pub fn extend_question(pending: &mut String, head: &str)
    ensures
        final(pending)@ == old(pending)@ + head@ + seq!['\n'],
{
    pending.append(head);
    string_push(pending, '\n');
    assert(pending@ =~= old(pending)@ + head@ + seq!['\n']);
}

} // verus!
