//! `agentoven session`: what the command takes, and what it makes of it.

use crate::json::{text_or, Json};
use crate::text::{opt_text, trim, trimmed};
use crate::wire::Wire;
use vstd::prelude::*;

verus! {

/// What can be done with sessions: dialogues of several turns.
#[derive(Debug, Clone, PartialEq)]
pub enum SessionCommands {
    /// Lists the sessions of an agent.
    List(ListArgs),
    /// Starts a session.
    Create(CreateArgs),
    /// Shows one session.
    Get(GetArgs),
    /// Deletes a session.
    Delete(DeleteArgs),
    /// Sends one message within a session.
    Send(SendArgs),
    /// Opens a dialogue.
    Chat(ChatArgs),
}

/// What `session list` takes.
#[derive(Debug, Clone, PartialEq)]
pub struct ListArgs {
    /// The name of the agent.
    pub agent: String,
}

/// The model of [`ListArgs`].
pub struct ListArgsView {
    pub agent: Seq<char>,
}

impl View for ListArgs {
    type V = ListArgsView;

    open spec fn view(&self) -> ListArgsView {
        ListArgsView {
            agent: self.agent@,
        }
    }
}

/// What `session create` takes.
#[derive(Debug, Clone, PartialEq)]
pub struct CreateArgs {
    /// The name of the agent.
    pub agent: String,
}

/// The model of [`CreateArgs`].
pub struct CreateArgsView {
    pub agent: Seq<char>,
}

impl View for CreateArgs {
    type V = CreateArgsView;

    open spec fn view(&self) -> CreateArgsView {
        CreateArgsView {
            agent: self.agent@,
        }
    }
}

/// What `session get` takes.
#[derive(Debug, Clone, PartialEq)]
pub struct GetArgs {
    /// The name of the agent.
    pub agent: String,
    /// The identifier of the session.
    pub session_id: String,
}

/// The model of [`GetArgs`].
pub struct GetArgsView {
    pub agent: Seq<char>,
    pub session_id: Seq<char>,
}

impl View for GetArgs {
    type V = GetArgsView;

    open spec fn view(&self) -> GetArgsView {
        GetArgsView {
            agent: self.agent@,
            session_id: self.session_id@,
        }
    }
}

/// What `session delete` takes.
#[derive(Debug, Clone, PartialEq)]
pub struct DeleteArgs {
    /// The name of the agent.
    pub agent: String,
    /// The identifier of the session.
    pub session_id: String,
    /// Whether to go ahead without asking.
    pub force: bool,
}

/// The model of [`DeleteArgs`].
pub struct DeleteArgsView {
    pub agent: Seq<char>,
    pub session_id: Seq<char>,
    pub force: bool,
}

impl View for DeleteArgs {
    type V = DeleteArgsView;

    open spec fn view(&self) -> DeleteArgsView {
        DeleteArgsView {
            agent: self.agent@,
            session_id: self.session_id@,
            force: self.force,
        }
    }
}

/// What `session send` takes.
#[derive(Debug, Clone, PartialEq)]
pub struct SendArgs {
    /// The name of the agent.
    pub agent: String,
    /// The identifier of the session.
    pub session_id: String,
    /// The message.
    pub message: String,
    /// Whether the agent is to show its thinking.
    pub thinking: bool,
}

/// The model of [`SendArgs`].
pub struct SendArgsView {
    pub agent: Seq<char>,
    pub session_id: Seq<char>,
    pub message: Seq<char>,
    pub thinking: bool,
}

impl View for SendArgs {
    type V = SendArgsView;

    open spec fn view(&self) -> SendArgsView {
        SendArgsView {
            agent: self.agent@,
            session_id: self.session_id@,
            message: self.message@,
            thinking: self.thinking,
        }
    }
}

/// What `session chat` takes.
#[derive(Debug, Clone, PartialEq)]
pub struct ChatArgs {
    /// The name of the agent.
    pub agent: String,
    /// The session to go on with; a new one is started where none is named.
    pub session_id: Option<String>,
    /// Whether the agent is to show its thinking.
    pub thinking: bool,
}

/// The model of [`ChatArgs`].
pub struct ChatArgsView {
    pub agent: Seq<char>,
    pub session_id: Option<Seq<char>>,
    pub thinking: bool,
}

impl View for ChatArgs {
    type V = ChatArgsView;

    open spec fn view(&self) -> ChatArgsView {
        ChatArgsView {
            agent: self.agent@,
            session_id: opt_text(self.session_id),
            thinking: self.thinking,
        }
    }
}

/// The letters of a text in lower case, as far as they are ASCII letters.
pub open spec fn ascii_lower(s: Seq<char>) -> Seq<char> {
    Seq::new(
        s.len(),
        |i: int|
            if 'A' <= s[i] <= 'Z' {
                ((s[i] as u8 + 32) as u8) as char
            } else {
                s[i]
            },
    )
}

/// `str::eq_ignore_ascii_case` of std: whether two texts are the same once
/// their ASCII letters are in lower case.
#[verifier::external_body]
fn same_ignoring_case(a: &str, b: &str) -> (r: bool)
    ensures
        r == (ascii_lower(a@) == ascii_lower(b@)),
{
    a.eq_ignore_ascii_case(b)
}

/// Whether a line of a dialogue asks to end it: `quit` or `exit`, in
/// letters of either case, with white space around it or without.
pub open spec fn ends_dialogue(line: Seq<char>) -> bool {
    ascii_lower(trimmed(line)) == ascii_lower("quit"@) || ascii_lower(trimmed(line))
        == ascii_lower("exit"@)
}

/// Whether a line of a dialogue asks to end it.
pub fn is_quit(line: &str) -> (r: bool)
    ensures
        r == ends_dialogue(line@),
{
    let t = trim(line);
    same_ignoring_case(t, "quit") || same_ignoring_case(t, "exit")
}

/// The identifier of a session that was started: what the reply holds
/// under `id`, or `unknown`.
pub fn started_session_id(reply: &Json) -> (r: &str)
    ensures
        r@ == text_or(reply@, "id"@, "unknown"@),
{
    reply.str_or("id", "unknown")
}

} // verus!
