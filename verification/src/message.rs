//! The lines that the server sends to a bot, and what each of them means.

use crate::command::{command_of, Command, CommandView};
use crate::text::{
    contains, find, first_occurrence, has, is_name, is_trimmed,
    lemma_first_occurrence, lemma_run_end, lemma_run_end_unique, lemma_trim_of_trimmed,
    matches_at, occurs_at, run_end, scan, to_chars, trim, trimmed, CharClass,
};
use vstd::prelude::*;
use vstd::string::StrSliceExecFns;

verus! {

/// The text by which the server asks a bot to register.
pub const REGISTER_PROMPT: &'static str = "/register <password>";

/// The text by which the server asks a bot to log in.
pub const LOGIN_PROMPT: &'static str = "/login <password>";

/// The text by which the server confirms a login.
pub const LOGIN_SUCCESS: &'static str = "Successful login!";

/// The text that follows the name of a player who asks for a teleport.
pub const TELEPORT_REQUEST: &'static str = " has requested to teleport to you";

/// A message from one player to another: `[<from> -> <to>] <text>`.
#[derive(Clone, Copy, Debug, PartialEq)]
pub struct DirectMessage<'a> {
    /// Who sent the message.
    pub from: &'a str,
    /// Whom the message is for.
    pub to: &'a str,
    /// What the text of the message asks for.
    pub command: Command<'a>,
}

/// A direct message as a mathematical value.
pub struct DirectMessageView {
    pub from: Seq<char>,
    pub to: Seq<char>,
    pub command: CommandView,
}

impl<'a> View for DirectMessage<'a> {
    type V = DirectMessageView;

    open spec fn view(&self) -> DirectMessageView {
        DirectMessageView { from: self.from@, to: self.to@, command: self.command@ }
    }
}

/// One line from the server, classified.
#[derive(Clone, Copy, Debug, PartialEq)]
pub enum ServerMessage<'a> {
    /// The server asks the bot to register.
    RegisterPrompt,
    /// The server asks the bot to log in.
    LoginPrompt,
    /// The server confirms the login.
    LoginSuccess,
    /// The named player asks to teleport to the bot.
    TeleportRequest(&'a str),
    /// A direct message.
    Dm(DirectMessage<'a>),
    /// Any other line, whole.
    Unknown(&'a str),
}

/// A classified line as a mathematical value.
pub enum ServerMessageView {
    RegisterPrompt,
    LoginPrompt,
    LoginSuccess,
    TeleportRequest(Seq<char>),
    Dm(DirectMessageView),
    Unknown(Seq<char>),
}

impl<'a> View for ServerMessage<'a> {
    type V = ServerMessageView;

    open spec fn view(&self) -> ServerMessageView {
        match *self {
            ServerMessage::RegisterPrompt => ServerMessageView::RegisterPrompt,
            ServerMessage::LoginPrompt => ServerMessageView::LoginPrompt,
            ServerMessage::LoginSuccess => ServerMessageView::LoginSuccess,
            ServerMessage::TeleportRequest(username) => ServerMessageView::TeleportRequest(
                username@,
            ),
            ServerMessage::Dm(dm) => ServerMessageView::Dm(dm@),
            ServerMessage::Unknown(line) => ServerMessageView::Unknown(line@),
        }
    }
}

/// The line that carries a direct message with the given text.
pub open spec fn direct_message_line(from: Seq<char>, to: Seq<char>, text: Seq<char>) -> Seq<
    char,
> {
    "["@ + from + " -> "@ + to + "] "@ + text
}

/// The direct message that `line` carries, if it carries one: an opening
/// bracket, the sender's name, an arrow between two spaces, the receiver's
/// name, a closing bracket, a space, and a text that is not empty. The
/// command is read from the trimmed text.
pub open spec fn direct_message_of(line: Seq<char>) -> Option<DirectMessageView> {
    let a = run_end(line, 1, CharClass::Name);
    let b = run_end(line, a + 4, CharClass::Name);
    if occurs_at(line, "["@, 0) && is_name(line.subrange(1, a)) && occurs_at(line, " -> "@, a)
        && is_name(line.subrange(a + 4, b)) && occurs_at(line, "] "@, b) && b + 2 < line.len() {
        Some(
            DirectMessageView {
                from: line.subrange(1, a),
                to: line.subrange(a + 4, b),
                command: command_of(trim(line.subrange(b + 2, line.len() as int))),
            },
        )
    } else {
        None
    }
}

/// What `line` means. The rules are tried in this order, and the first that
/// applies decides.
pub open spec fn server_message_of(line: Seq<char>) -> ServerMessageView {
    if contains(line, REGISTER_PROMPT@) {
        ServerMessageView::RegisterPrompt
    } else if contains(line, LOGIN_PROMPT@) {
        ServerMessageView::LoginPrompt
    } else if contains(line, LOGIN_SUCCESS@) {
        ServerMessageView::LoginSuccess
    } else if contains(line, TELEPORT_REQUEST@) {
        ServerMessageView::TeleportRequest(
            line.subrange(0, first_occurrence(line, TELEPORT_REQUEST@)),
        )
    } else {
        match direct_message_of(line) {
            Some(dm) => ServerMessageView::Dm(dm),
            None => ServerMessageView::Unknown(line),
        }
    }
}

/// `line` is built as a direct message is: from two user names and a text
/// that is not empty.
pub open spec fn is_direct_message_line(line: Seq<char>) -> bool {
    exists|from: Seq<char>, to: Seq<char>, text: Seq<char>|
        is_name(from) && is_name(to) && text.len() > 0 && #[trigger] direct_message_line(
            from,
            to,
            text,
        ) == line
}

/// None of the rules that come before the direct message applies to
/// `line`.
pub open spec fn no_earlier_rule(line: Seq<char>) -> bool {
    &&& !contains(line, REGISTER_PROMPT@)
    &&& !contains(line, LOGIN_PROMPT@)
    &&& !contains(line, LOGIN_SUCCESS@)
    &&& !contains(line, TELEPORT_REQUEST@)
}

/// The line built from two user names and a text that is not empty is read
/// back as the direct message between those two, with the command of the
/// trimmed text.
pub proof fn lemma_direct_message_round_trip(from: Seq<char>, to: Seq<char>, text: Seq<char>)
    requires
        is_name(from),
        is_name(to),
        text.len() > 0,
    ensures
        direct_message_of(direct_message_line(from, to, text)) == Some(
            DirectMessageView { from, to, command: command_of(trim(text)) },
        ),
{
    reveal_strlit("[");
    reveal_strlit(" -> ");
    reveal_strlit("] ");
    let line = direct_message_line(from, to, text);
    let a = 1 + from.len() as int;
    let b = a + 4 + to.len() as int;
    assert(line.len() == b + 2 + text.len());
    assert forall|k: int| 1 <= k < a implies CharClass::Name.holds(#[trigger] line[k]) by {
        assert(line[k] == from[k - 1]);
    }
    assert(line[a] == ' ');
    lemma_run_end_unique(line, 1, CharClass::Name, a);
    assert forall|k: int| a + 4 <= k < b implies CharClass::Name.holds(#[trigger] line[k]) by {
        assert(line[k] == to[k - (a + 4)]);
    }
    assert(line[b] == ']');
    lemma_run_end_unique(line, a + 4, CharClass::Name, b);
    assert(line.subrange(0, 1) =~= "["@);
    assert(line.subrange(a, a + 4) =~= " -> "@);
    assert(line.subrange(b, b + 2) =~= "] "@);
    assert(line.subrange(1, a) =~= from);
    assert(line.subrange(a + 4, b) =~= to);
    assert(line.subrange(b + 2, line.len() as int) =~= text);
}

/// A line carries a direct message exactly if it is built as one is.
pub proof fn lemma_direct_message_grammar(line: Seq<char>)
    ensures
        direct_message_of(line) is Some <==> is_direct_message_line(line),
{
    if direct_message_of(line) is Some {
        reveal_strlit("[");
        reveal_strlit(" -> ");
        reveal_strlit("] ");
        let a = run_end(line, 1, CharClass::Name);
        let b = run_end(line, a + 4, CharClass::Name);
        lemma_run_end(line, 1, CharClass::Name);
        lemma_run_end(line, a + 4, CharClass::Name);
        let from = line.subrange(1, a);
        let to = line.subrange(a + 4, b);
        let text = line.subrange(b + 2, line.len() as int);
        assert(direct_message_line(from, to, text) =~= line) by {
            let built = direct_message_line(from, to, text);
            assert(built.len() == line.len());
            assert forall|k: int| 0 <= k < line.len() implies built[k] == line[k] by {
                if k < 1 {
                    assert(line.subrange(0, 1)[k] == line[k]);
                } else if k < a {
                    assert(from[k - 1] == line[k]);
                } else if k < a + 4 {
                    assert(line.subrange(a, a + 4)[k - a] == line[k]);
                } else if k < b {
                    assert(to[k - (a + 4)] == line[k]);
                } else if k < b + 2 {
                    assert(line.subrange(b, b + 2)[k - b] == line[k]);
                } else {
                    assert(text[k - (b + 2)] == line[k]);
                }
            }
        }
    }
    if is_direct_message_line(line) {
        let (from, to, text) = choose|from: Seq<char>, to: Seq<char>, text: Seq<char>|
            is_name(from) && is_name(to) && text.len() > 0 && #[trigger] direct_message_line(
                from,
                to,
                text,
            ) == line;
        lemma_direct_message_round_trip(from, to, text);
    }
}

/// A line to which no rule applies is unknown, and is handed on whole.
pub proof fn lemma_unmatched_line_is_unknown(line: Seq<char>)
    requires
        no_earlier_rule(line),
        !is_direct_message_line(line),
    ensures
        server_message_of(line) == ServerMessageView::Unknown(line),
{
    lemma_direct_message_grammar(line);
}

/// A line is unknown only if no rule applies to it.
pub proof fn lemma_unknown_line_is_unmatched(line: Seq<char>)
    requires
        server_message_of(line) is Unknown,
    ensures
        server_message_of(line) == ServerMessageView::Unknown(line),
        no_earlier_rule(line),
        !is_direct_message_line(line),
{
    lemma_direct_message_grammar(line);
}

/// The line of a direct message to which no earlier rule applies is
/// classified as that direct message, with the command of the trimmed
/// text; where the text has no white space at its ends, that is the command
/// of the text itself.
pub proof fn lemma_direct_message_line_is_classified(
    from: Seq<char>,
    to: Seq<char>,
    text: Seq<char>,
)
    requires
        is_name(from),
        is_name(to),
        text.len() > 0,
        no_earlier_rule(direct_message_line(from, to, text)),
    ensures
        server_message_of(direct_message_line(from, to, text)) == ServerMessageView::Dm(
            DirectMessageView { from, to, command: command_of(trim(text)) },
        ),
        command_of(trim(text)) == command_of(text) ==> server_message_of(
            direct_message_line(from, to, text),
        ) == ServerMessageView::Dm(DirectMessageView { from, to, command: command_of(text) }),
        is_trimmed(text) ==> command_of(trim(text)) == command_of(text),
{
    lemma_direct_message_round_trip(from, to, text);
    if is_trimmed(text) {
        lemma_trim_of_trimmed(text);
    }
}

impl DirectMessage<'_> {
    /// Reads `input` as a direct message.
    pub fn parse(input: &str) -> (r: Option<DirectMessage<'_>>)
        ensures
            match r {
                Some(dm) => direct_message_of(input@) == Some(dm@),
                None => direct_message_of(input@) is None,
            },
    {
        let chars = to_chars(input);
        let line = chars.as_slice();
        let n: usize = line.len();
        let open = to_chars("[");
        let arrow = to_chars(" -> ");
        let close = to_chars("] ");
        proof {
            reveal_strlit("[");
            reveal_strlit(" -> ");
            reveal_strlit("] ");
        }
        if !matches_at(line, open.as_slice(), 0) {
            return None;
        }
        let a: usize = scan(line, 1, CharClass::Name);
        proof {
            lemma_run_end(line@, 1, CharClass::Name);
        }
        if a - 1 < 2 || a - 1 > 16 || !matches_at(line, arrow.as_slice(), a) {
            return None;
        }
        let b: usize = scan(line, a + 4, CharClass::Name);
        proof {
            lemma_run_end(line@, a + 4, CharClass::Name);
        }
        if b - (a + 4) < 2 || b - (a + 4) > 16 || !matches_at(line, close.as_slice(), b) {
            return None;
        }
        if b + 2 >= n {
            return None;
        }
        let from = input.substring_char(1, a);
        let to = input.substring_char(a + 4, b);
        let text = trimmed(input.substring_char(b + 2, n));
        Some(DirectMessage { from, to, command: Command::parse(text) })
    }
}

impl ServerMessage<'_> {
    /// Classifies one line from the server.
    pub fn parse(message: &str) -> (r: ServerMessage<'_>)
        ensures
            r@ == server_message_of(message@),
    {
        let chars = to_chars(message);
        let line = chars.as_slice();
        if has(line, to_chars(REGISTER_PROMPT).as_slice()) {
            return ServerMessage::RegisterPrompt;
        }
        if has(line, to_chars(LOGIN_PROMPT).as_slice()) {
            return ServerMessage::LoginPrompt;
        }
        if has(line, to_chars(LOGIN_SUCCESS).as_slice()) {
            return ServerMessage::LoginSuccess;
        }
        if let Some(i) = find(line, to_chars(TELEPORT_REQUEST).as_slice()) {
            proof {
                lemma_first_occurrence(line@, TELEPORT_REQUEST@, i as int);
            }
            return ServerMessage::TeleportRequest(message.substring_char(0, i));
        }
        if let Some(dm) = DirectMessage::parse(message) {
            return ServerMessage::Dm(dm);
        }
        ServerMessage::Unknown(message)
    }
}

} // verus!
