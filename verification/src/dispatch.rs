//! What a bot does with one line of chat: the handshake first, then the
//! gate of trusted users, then the command.

use crate::auth::{
    after_handshake, handshake_line, login, login_line, register_line, State, StateView,
};
use crate::command::{Command, CommandView};
use crate::message::{
    server_message_of, DirectMessage, DirectMessageView, ServerMessage, ServerMessageView,
};
use crate::text::{run_end, same, scan, texts, to_chars, CharClass};
use vstd::prelude::*;
use vstd::string::{StrSliceExecFns, StringExecFns};

verus! {

/// The name by which the server calls the bot that reads the line.
pub const ME: &'static str = "me";

/// What a player who is not trusted is told when they ask for a teleport.
pub const TELEPORT_DENIED: &'static str = "ain't no way lil bro";

/// What a player who is not trusted is told when they send a command.
pub const NOT_ALLOWED: &'static str = "You are not allowed to send commands";

/// What the sender of an unknown command is told.
pub const UNRECOGNIZED: &'static str =
    "Unrecognized command. See `/whisper bot help` for a list of commands";

/// What begins the confirmation of a `spawn`.
pub const SPAWNED: &'static str = "Spawned slave bot: ";

/// The answer to `help` without a topic: the commands there are.
pub const HELP_ALL: &'static str = "Commands: spawn, echo, tpask, disconnect, help";

/// The answer to `help spawn`.
pub const HELP_SPAWN: &'static str =
    "Usage: /spawn <username> - Spawn/connect a new slave bot with the given username";

/// The answer to `help echo`.
pub const HELP_ECHO: &'static str =
    "Usage: /echo <message> - Echo a message to the server in the global chat";

/// The answer to `help tpask`.
pub const HELP_TPASK: &'static str =
    "Usage: /tpask <username> - The bot will /tpask the player with the given username";

/// The answer to `help disconnect`.
pub const HELP_DISCONNECT: &'static str =
    "Usage: /disconnect - Disconnect the bot from the server";

/// The answer to `help help`.
pub const HELP_HELP: &'static str = "Usage: /help [command] - Show help for the given command";

/// The answer to `help` with a topic that is no command.
pub const HELP_UNKNOWN: &'static str = "Unrecognized command";

/// What is the same for every bot of the fleet.
#[derive(Clone, Debug)]
pub struct Config {
    /// The name of the one bot that may start others.
    pub master_username: String,
    /// The players whose commands and teleport requests are accepted.
    pub whitelist: Vec<String>,
}

/// The configuration as a mathematical value.
pub struct ConfigView {
    pub master: Seq<char>,
    pub allowed: Set<Seq<char>>,
}

/// The names that `list` holds.
pub open spec fn names_of(list: Seq<String>) -> Set<Seq<char>> {
    Set::new(|name: Seq<char>| exists|i: int| 0 <= i < list.len() && #[trigger] list[i]@ == name)
}

impl View for Config {
    type V = ConfigView;

    open spec fn view(&self) -> ConfigView {
        ConfigView { master: self.master_username@, allowed: names_of(self.whitelist@) }
    }
}

/// The entries of the list `raw` from index `i` on: the pieces between its
/// commas, empty ones too.
pub open spec fn entries_from(raw: Seq<char>, i: int) -> Seq<Seq<char>>
    decreases raw.len() - i,
{
    let e = run_end(raw, i, CharClass::Entry);
    if i <= e < raw.len() {
        seq![raw.subrange(i, e)] + entries_from(raw, e + 1)
    } else {
        seq![raw.subrange(i, e)]
    }
}

/// The entries of the list `raw`, which separates them by commas. A list
/// with no comma has one entry, the whole of it.
pub open spec fn entries(raw: Seq<char>) -> Seq<Seq<char>> {
    entries_from(raw, 0)
}

/// Reads the list of trusted players from its one-line form.
pub fn parse_whitelist(raw: &str) -> (r: Vec<String>)
    ensures
        texts(r@) == entries(raw@),
{
    let chars = to_chars(raw);
    let n: usize = chars.len();
    let mut list: Vec<String> = Vec::new();
    let mut i: usize = 0;
    proof {
        assert(texts(list@) + entries_from(raw@, 0) =~= entries(raw@));
    }
    loop
        invariant_except_break
            texts(list@) + entries_from(raw@, i as int) == entries(raw@),
        invariant
            i <= n,
            n == raw@.len(),
            chars@ == raw@,
        ensures
            texts(list@) == entries(raw@),
        decreases n - i,
    {
        let e: usize = scan(chars.as_slice(), i, CharClass::Entry);
        let ghost before = texts(list@);
        list.push(String::from_str(raw.substring_char(i, e)));
        proof {
            assert(texts(list@) =~= before.push(raw@.subrange(i as int, e as int)));
        }
        if e >= n {
            proof {
                assert(texts(list@) =~= before + entries_from(raw@, i as int));
            }
            break ;
        }
        proof {
            assert(texts(list@) + entries_from(raw@, e + 1) =~= before + entries_from(
                raw@,
                i as int,
            ));
        }
        i = e + 1;
    }
    list
}

/// One thing for the bot's surroundings to do, in the order given.
#[derive(Clone, Debug, PartialEq)]
pub enum Action {
    /// Send the line to the server as a command.
    SendCommand(String),
    /// Say the line in the public chat.
    SendChat(String),
    /// Close the bot's connection.
    Disconnect,
    /// Remember the name in the durable registry of bots.
    RegisterSlave(String),
    /// Make sure that a bot of this name is running.
    StartSlave(String),
}

/// An action as a mathematical value.
pub enum ActionView {
    SendCommand(Seq<char>),
    SendChat(Seq<char>),
    Disconnect,
    RegisterSlave(Seq<char>),
    StartSlave(Seq<char>),
}

impl View for Action {
    type V = ActionView;

    open spec fn view(&self) -> ActionView {
        match *self {
            Action::SendCommand(line) => ActionView::SendCommand(line@),
            Action::SendChat(line) => ActionView::SendChat(line@),
            Action::Disconnect => ActionView::Disconnect,
            Action::RegisterSlave(name) => ActionView::RegisterSlave(name@),
            Action::StartSlave(name) => ActionView::StartSlave(name@),
        }
    }
}

/// The actions of `list`, each as a mathematical value.
pub open spec fn views(list: Seq<Action>) -> Seq<ActionView> {
    list.map_values(|a: Action| a@)
}

/// The command line that whispers `text` to `to`.
pub open spec fn whisper_line(to: Seq<char>, text: Seq<char>) -> Seq<char> {
    "whisper "@ + to + " "@ + text
}

/// The explanation of `topic`, or of all commands where there is none.
pub open spec fn help_text(topic: Option<Seq<char>>) -> Seq<char> {
    match topic {
        None => HELP_ALL@,
        Some(t) => {
            if t == "spawn"@ {
                HELP_SPAWN@
            } else if t == "echo"@ {
                HELP_ECHO@
            } else if t == "tpask"@ {
                HELP_TPASK@
            } else if t == "disconnect"@ {
                HELP_DISCONNECT@
            } else if t == "help"@ {
                HELP_HELP@
            } else {
                HELP_UNKNOWN@
            }
        },
    }
}

/// The answer to a teleport request: accepted for a trusted player, denied
/// with a word of explanation for any other.
pub open spec fn teleport_actions(allowed: Set<Seq<char>>, username: Seq<char>) -> Seq<
    ActionView,
> {
    if allowed.contains(username) {
        seq![ActionView::SendCommand("tpaccept "@ + username)]
    } else {
        seq![
            ActionView::SendCommand("tpdeny "@ + username),
            ActionView::SendCommand(whisper_line(username, TELEPORT_DENIED@)),
        ]
    }
}

/// What a command from the trusted player `from` has the bot do. Only the
/// master starts other bots: it has the name remembered first, then the bot
/// started, then the sender told.
pub open spec fn command_actions(is_master: bool, from: Seq<char>, command: CommandView) -> Seq<
    ActionView,
> {
    match command {
        CommandView::Spawn(name) => {
            if is_master {
                seq![
                    ActionView::RegisterSlave(name),
                    ActionView::StartSlave(name),
                    ActionView::SendCommand(whisper_line(from, SPAWNED@ + name)),
                ]
            } else {
                seq![]
            }
        },
        CommandView::EchoGlobal(text) => seq![ActionView::SendChat(text)],
        CommandView::TeleportAsk(username) => seq![ActionView::SendCommand("tpask "@ + username)],
        CommandView::Disconnect => seq![ActionView::Disconnect],
        CommandView::Help(topic) => seq![
            ActionView::SendCommand(whisper_line(from, help_text(topic))),
        ],
        CommandView::Unrecognized(_) => seq![
            ActionView::SendCommand(whisper_line(from, UNRECOGNIZED@)),
        ],
    }
}

/// What a direct message has the bot `me` do. The bot's own messages and
/// those for somebody else are passed over, a sender who is not trusted is
/// told so, and the command of a trusted sender is carried out.
pub open spec fn direct_message_actions(
    config: ConfigView,
    me: Seq<char>,
    dm: DirectMessageView,
) -> Seq<ActionView> {
    if dm.from == ME@ || dm.from == me {
        seq![]
    } else if dm.to != ME@ {
        seq![]
    } else if !config.allowed.contains(dm.from) {
        seq![ActionView::SendCommand(whisper_line(dm.from, NOT_ALLOWED@))]
    } else {
        command_actions(me == config.master, dm.from, dm.command)
    }
}

/// What a message has the bot `me` do once it has logged in.
pub open spec fn message_actions(config: ConfigView, me: Seq<char>, message: ServerMessageView) -> Seq<
    ActionView,
> {
    match message {
        ServerMessageView::TeleportRequest(username) => teleport_actions(config.allowed, username),
        ServerMessageView::Dm(dm) => direct_message_actions(config, me, dm),
        _ => seq![],
    }
}

/// What the line `line` has the bot `me` do in the login state `state`:
/// before the login is confirmed only the handshake answers, afterwards
/// only the dispatch.
pub open spec fn chat_actions(
    state: StateView,
    config: ConfigView,
    me: Seq<char>,
    line: Seq<char>,
) -> Seq<ActionView> {
    let message = server_message_of(line);
    if state.logged_in {
        message_actions(config, me, message)
    } else {
        match handshake_line(state, message) {
            Some(answer) => seq![ActionView::SendCommand(answer)],
            None => seq![],
        }
    }
}

/// What a chat event has the bot `me` do: nothing where a player sent the
/// message, else what the line asks for.
pub open spec fn event_actions(
    state: StateView,
    config: ConfigView,
    me: Seq<char>,
    from_player: bool,
    message: Seq<char>,
) -> Seq<ActionView> {
    if from_player {
        Seq::empty()
    } else {
        chat_actions(state, config, me, message)
    }
}

/// The login state after a chat event: a message of a player leaves it as
/// it is.
pub open spec fn state_after_event(
    state: StateView,
    from_player: bool,
    message: Seq<char>,
) -> StateView {
    if from_player {
        state
    } else {
        after_handshake(state, server_message_of(message))
    }
}

/// A bot that is logged in answers the teleport request of a trusted
/// player with one `tpaccept` and nothing else, and that of any other
/// player with one `tpdeny` and one whisper, in this order.
pub proof fn lemma_teleport_gate(
    state: StateView,
    config: ConfigView,
    me: Seq<char>,
    line: Seq<char>,
    username: Seq<char>,
)
    requires
        state.logged_in,
        server_message_of(line) == ServerMessageView::TeleportRequest(username),
    ensures
        config.allowed.contains(username) ==> chat_actions(state, config, me, line) == seq![
            ActionView::SendCommand("tpaccept "@ + username),
        ],
        !config.allowed.contains(username) ==> chat_actions(state, config, me, line) == seq![
            ActionView::SendCommand("tpdeny "@ + username),
            ActionView::SendCommand(whisper_line(username, TELEPORT_DENIED@)),
        ],
{
}

/// A bot that is not logged in does nothing but answer the two prompts:
/// no command of a player reaches it.
pub proof fn lemma_nothing_before_login(
    state: StateView,
    config: ConfigView,
    me: Seq<char>,
    line: Seq<char>,
)
    requires
        !state.logged_in,
    ensures
        chat_actions(state, config, me, line) == match server_message_of(line) {
            ServerMessageView::RegisterPrompt => seq![
                ActionView::SendCommand(register_line(state.password)),
            ],
            ServerMessageView::LoginPrompt => seq![
                ActionView::SendCommand(login_line(state.password)),
            ],
            _ => Seq::<ActionView>::empty(),
        },
{
}

/// The master carries out the `spawn` of a trusted player in this order:
/// the name is remembered, the bot is started, the player is told.
pub proof fn lemma_spawn_order(config: ConfigView, me: Seq<char>, dm: DirectMessageView)
    requires
        dm.from != ME@,
        dm.from != me,
        dm.to == ME@,
        config.allowed.contains(dm.from),
        dm.command is Spawn,
    ensures
        me == config.master ==> direct_message_actions(config, me, dm) == seq![
            ActionView::RegisterSlave(dm.command->Spawn_0),
            ActionView::StartSlave(dm.command->Spawn_0),
            ActionView::SendCommand(whisper_line(dm.from, SPAWNED@ + dm.command->Spawn_0)),
        ],
        me != config.master ==> direct_message_actions(config, me, dm) == Seq::<
            ActionView,
        >::empty(),
{
}

/// Tells whether `list` holds `name`.
pub fn listed(list: &Vec<String>, name: &str) -> (r: bool)
    ensures
        r == names_of(list@).contains(name@),
{
    let mut i: usize = 0;
    while i < list.len()
        invariant
            i <= list@.len(),
            forall|j: int| 0 <= j < i ==> list@[j]@ != name@,
        decreases list@.len() - i,
    {
        if same(list[i].as_str(), name) {
            return true;
        }
        i = i + 1;
    }
    false
}

/// `head` followed by `tail`.
pub fn join(head: &str, tail: &str) -> (r: String)
    ensures
        r@ == head@ + tail@,
{
    let mut line = String::from_str(head);
    line.append(tail);
    line
}

/// The command line that whispers `text` to `to`.
pub fn whisper(to: &str, text: &str) -> (r: String)
    ensures
        r@ == whisper_line(to@, text@),
{
    let mut line = String::from_str("whisper ");
    line.append(to);
    line.append(" ");
    line.append(text);
    line
}

/// The explanation of `topic`, or of all commands where there is none.
pub fn help_answer(topic: Option<&str>) -> (r: &'static str)
    ensures
        r@ == help_text(
            match topic {
                Some(t) => Some(t@),
                None => None,
            },
        ),
{
    match topic {
        None => HELP_ALL,
        Some(t) => {
            if same(t, "spawn") {
                HELP_SPAWN
            } else if same(t, "echo") {
                HELP_ECHO
            } else if same(t, "tpask") {
                HELP_TPASK
            } else if same(t, "disconnect") {
                HELP_DISCONNECT
            } else if same(t, "help") {
                HELP_HELP
            } else {
                HELP_UNKNOWN
            }
        },
    }
}

/// Answers a teleport request.
pub fn answer_teleport(whitelist: &Vec<String>, username: &str) -> (r: Vec<Action>)
    ensures
        views(r@) == teleport_actions(names_of(whitelist@), username@),
{
    let mut actions: Vec<Action> = Vec::new();
    if listed(whitelist, username) {
        actions.push(Action::SendCommand(join("tpaccept ", username)));
        proof {
            assert(views(actions@) =~= teleport_actions(names_of(whitelist@), username@));
        }
    } else {
        actions.push(Action::SendCommand(join("tpdeny ", username)));
        actions.push(Action::SendCommand(whisper(username, TELEPORT_DENIED)));
        proof {
            assert(views(actions@) =~= teleport_actions(names_of(whitelist@), username@));
        }
    }
    actions
}

/// Carries out a command of the trusted player `from`.
pub fn run_command(is_master: bool, from: &str, command: &Command<'_>) -> (r: Vec<Action>)
    ensures
        views(r@) == command_actions(is_master, from@, command@),
{
    let mut actions: Vec<Action> = Vec::new();
    match *command {
        Command::Spawn(name) => {
            if is_master {
                actions.push(Action::RegisterSlave(String::from_str(name)));
                actions.push(Action::StartSlave(String::from_str(name)));
                let told = join(SPAWNED, name);
                actions.push(Action::SendCommand(whisper(from, told.as_str())));
            }
        },
        Command::EchoGlobal(text) => {
            actions.push(Action::SendChat(String::from_str(text)));
        },
        Command::TeleportAsk(username) => {
            actions.push(Action::SendCommand(join("tpask ", username)));
        },
        Command::Disconnect => {
            actions.push(Action::Disconnect);
        },
        Command::Help(topic) => {
            actions.push(Action::SendCommand(whisper(from, help_answer(topic))));
        },
        Command::Unrecognized(_) => {
            actions.push(Action::SendCommand(whisper(from, UNRECOGNIZED)));
        },
    }
    proof {
        assert(views(actions@) =~= command_actions(is_master, from@, command@));
    }
    actions
}

/// Handles a direct message.
pub fn handle_direct_message(config: &Config, username: &str, dm: &DirectMessage<'_>) -> (r: Vec<
    Action,
>)
    ensures
        views(r@) == direct_message_actions(config@, username@, dm@),
{
    if same(dm.from, ME) || same(dm.from, username) || !same(dm.to, ME) {
        let actions: Vec<Action> = Vec::new();
        proof {
            assert(views(actions@) =~= direct_message_actions(config@, username@, dm@));
        }
        return actions;
    }
    if !listed(&config.whitelist, dm.from) {
        let mut actions: Vec<Action> = Vec::new();
        actions.push(Action::SendCommand(whisper(dm.from, NOT_ALLOWED)));
        proof {
            assert(views(actions@) =~= direct_message_actions(config@, username@, dm@));
        }
        return actions;
    }
    let is_master = same(username, config.master_username.as_str());
    run_command(is_master, dm.from, &dm.command)
}

/// Handles one line from the server for the bot `username`: the handshake
/// while the login is not confirmed, the dispatch afterwards. Returns what
/// is to be done, in order.
pub fn handle_line(state: &mut State, config: &Config, username: &str, line: &str) -> (r: Vec<
    Action,
>)
    ensures
        final(state)@ == after_handshake(old(state)@, server_message_of(line@)),
        views(r@) == chat_actions(old(state)@, config@, username@, line@),
{
    let was_logged_in = state.has_logged_in();
    let parsed = ServerMessage::parse(line);
    let step = login(state, &parsed);
    if !was_logged_in {
        let mut actions: Vec<Action> = Vec::new();
        match step.send {
            Some(answer) => {
                actions.push(Action::SendCommand(answer));
            },
            None => {},
        }
        proof {
            assert(views(actions@) =~= chat_actions(old(state)@, config@, username@, line@));
        }
        return actions;
    }
    match parsed {
        ServerMessage::TeleportRequest(requester) => answer_teleport(&config.whitelist, requester),
        ServerMessage::Dm(dm) => handle_direct_message(config, username, &dm),
        _ => {
            let actions: Vec<Action> = Vec::new();
            proof {
                assert(views(actions@) =~= chat_actions(old(state)@, config@, username@, line@));
            }
            actions
        },
    }
}

/// Handles one chat event for the bot `username`. `sender` is the player
/// whom the client found to have sent the message, if it found one: what a
/// player says in the chat is passed over, and only what the server itself
/// says is handled as a line.
pub fn handle_chat_event(
    state: &mut State,
    config: &Config,
    username: &str,
    sender: Option<&str>,
    message: &str,
) -> (r: Vec<Action>)
    ensures
        final(state)@ == state_after_event(old(state)@, sender is Some, message@),
        views(r@) == event_actions(old(state)@, config@, username@, sender is Some, message@),
{
    match sender {
        Some(_) => {
            let actions: Vec<Action> = Vec::new();
            proof {
                assert(views(actions@) =~= Seq::<ActionView>::empty());
            }
            actions
        },
        None => handle_line(state, config, username, message),
    }
}

} // verus!
