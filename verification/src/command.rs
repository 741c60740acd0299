//! The commands that a trusted user sends to a bot in a direct message.

use crate::text::{is_name, name, run_end, same, scan, to_chars, trim, trimmed, CharClass};
use vstd::prelude::*;
use vstd::string::StrSliceExecFns;

verus! {

/// What a direct message asks a bot to do.
#[derive(Clone, Copy, Debug, PartialEq)]
pub enum Command<'a> {
    /// `spawn <name>`: start a new bot under the given name.
    Spawn(&'a str),
    /// `tpask <username>`: ask the given player for a teleport.
    TeleportAsk(&'a str),
    /// `disconnect`: leave the server.
    Disconnect,
    /// `echo <message>`: say the message in the public chat.
    EchoGlobal(&'a str),
    /// `help [command]`: explain the commands, or one of them.
    Help(Option<&'a str>),
    /// Anything else, with the whole text.
    Unrecognized(&'a str),
}

/// A command as a mathematical value.
pub enum CommandView {
    Spawn(Seq<char>),
    TeleportAsk(Seq<char>),
    Disconnect,
    EchoGlobal(Seq<char>),
    Help(Option<Seq<char>>),
    Unrecognized(Seq<char>),
}

impl<'a> View for Command<'a> {
    type V = CommandView;

    open spec fn view(&self) -> CommandView {
        match *self {
            Command::Spawn(name) => CommandView::Spawn(name@),
            Command::TeleportAsk(username) => CommandView::TeleportAsk(username@),
            Command::Disconnect => CommandView::Disconnect,
            Command::EchoGlobal(text) => CommandView::EchoGlobal(text@),
            Command::Help(Some(topic)) => CommandView::Help(Some(topic@)),
            Command::Help(None) => CommandView::Help(None),
            Command::Unrecognized(text) => CommandView::Unrecognized(text@),
        }
    }
}

/// The command word and the parameters of `body`: the word is the run of
/// characters up to the first white space, the parameters are what follows
/// it, trimmed. A body that is empty or begins with white space has no
/// command word.
pub open spec fn command_parts(body: Seq<char>) -> Option<(Seq<char>, Seq<char>)> {
    let k = run_end(body, 0, CharClass::Word);
    if k == 0 {
        None
    } else {
        Some((body.subrange(0, k), trim(body.subrange(k, body.len() as int))))
    }
}

/// The command that the parameters of `spawn` give: a `Spawn` where they
/// are a user name.
pub open spec fn spawn_of(params: Seq<char>) -> Option<CommandView> {
    if is_name(params) {
        Some(CommandView::Spawn(params))
    } else {
        None
    }
}

/// The command that `body` stands for.
pub open spec fn command_of(body: Seq<char>) -> CommandView {
    match command_parts(body) {
        None => CommandView::Unrecognized(body),
        Some((word, params)) => {
            if word == "spawn"@ {
                match spawn_of(params) {
                    Some(c) => c,
                    None => CommandView::Unrecognized(body),
                }
            } else if word == "echo"@ {
                CommandView::EchoGlobal(params)
            } else if word == "help"@ {
                CommandView::Help(
                    if params.len() == 0 {
                        None
                    } else {
                        Some(params)
                    },
                )
            } else if word == "tpask"@ {
                CommandView::TeleportAsk(params)
            } else if word == "disconnect"@ {
                CommandView::Disconnect
            } else {
                CommandView::Unrecognized(body)
            }
        },
    }
}

/// Splits `input` into its command word and its parameters.
pub fn parse_command_parts(input: &str) -> (r: Option<(&str, &str)>)
    ensures
        match r {
            Some((word, params)) => command_parts(input@) == Some((word@, params@)),
            None => command_parts(input@) is None,
        },
{
    let chars = to_chars(input);
    let k: usize = scan(chars.as_slice(), 0, CharClass::Word);
    if k == 0 {
        return None;
    }
    let word = input.substring_char(0, k);
    let rest = input.substring_char(k, chars.len());
    Some((word, trimmed(rest)))
}

/// Reads the parameters of `spawn`: the name of the bot to start.
pub fn parse_spawn_command_params(params: &str) -> (r: Option<Command<'_>>)
    ensures
        match r {
            Some(c) => spawn_of(params@) == Some(c@),
            None => spawn_of(params@) is None,
        },
{
    let chars = to_chars(params);
    if name(chars.as_slice()) {
        Some(Command::Spawn(params))
    } else {
        None
    }
}

impl Command<'_> {
    /// Reads the text of a direct message as a command.
    pub fn parse(input: &str) -> (r: Command<'_>)
        ensures
            r@ == command_of(input@),
    {
        let (command, params) = match parse_command_parts(input) {
            Some(parts) => parts,
            None => {
                return Command::Unrecognized(input);
            },
        };
        if same(command, "spawn") {
            match parse_spawn_command_params(params) {
                Some(c) => c,
                None => Command::Unrecognized(input),
            }
        } else if same(command, "echo") {
            Command::EchoGlobal(params)
        } else if same(command, "help") {
            if params.unicode_len() == 0 {
                Command::Help(None)
            } else {
                Command::Help(Some(params))
            }
        } else if same(command, "tpask") {
            Command::TeleportAsk(params)
        } else if same(command, "disconnect") {
            Command::Disconnect
        } else {
            Command::Unrecognized(input)
        }
    }
}

} // verus!
