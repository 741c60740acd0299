use bot_fleet::auth::State;
use bot_fleet::command::Command;
use bot_fleet::dispatch::{
    answer_teleport, handle_chat_event, handle_direct_message, help_answer, join, listed,
    handle_line, parse_whitelist, run_command, whisper, Action, Config,
};
use bot_fleet::message::DirectMessage;
use bot_fleet::supervisor::{RunningSet, StartOutcome};

fn config() -> Config {
    Config {
        master_username: String::from("master"),
        whitelist: vec![String::from("alice"), String::from("trustedUser")],
    }
}

fn logged_in() -> State {
    let mut state = State::new(String::from("pw"));
    on_line(&mut state, "master", "Successful login!");
    assert!(state.has_logged_in());
    state
}

fn on_line(state: &mut State, me: &str, line: &str) -> Vec<Action> {
    handle_chat_event(state, &config(), me, None, line)
}

fn command(line: &str) -> Action {
    Action::SendCommand(String::from(line))
}

#[test]
fn trusted_teleport_is_accepted() {
    let mut state = logged_in();
    let actions = on_line(&mut state, "master",
        "trustedUser has requested to teleport to you",
    );
    assert_eq!(actions, vec![command("tpaccept trustedUser")]);
}

#[test]
fn other_teleport_is_denied_with_a_whisper() {
    let mut state = logged_in();
    let actions =
        on_line(&mut state, "master", "mallory has requested to teleport to you");
    assert_eq!(
        actions,
        vec![command("tpdeny mallory"), command("whisper mallory ain't no way lil bro")]
    );
}

#[test]
fn teleport_gate_compares_names_exactly() {
    let list = config().whitelist;
    assert_eq!(answer_teleport(&list, "alice"), vec![command("tpaccept alice")]);
    assert_eq!(answer_teleport(&list, "Alice").len(), 2);
    assert_eq!(answer_teleport(&list, "alic").len(), 2);
    assert_eq!(answer_teleport(&Vec::new(), "alice").len(), 2);
}

#[test]
fn spawn_end_to_end() {
    let mut state = logged_in();
    let mut registry: Vec<String> = Vec::new();
    let mut running = RunningSet::new();
    assert!(!registry.contains(&String::from("bob")));
    let actions = on_line(&mut state, "master", "[alice -> me] spawn bob");
    assert_eq!(
        actions,
        vec![
            Action::RegisterSlave(String::from("bob")),
            Action::StartSlave(String::from("bob")),
            command("whisper alice Spawned slave bot: bob"),
        ]
    );
    let mut sent: Vec<String> = Vec::new();
    for action in actions {
        match action {
            Action::RegisterSlave(name) => {
                if !registry.contains(&name) {
                    registry.push(name);
                }
            }
            Action::StartSlave(name) => {
                assert_eq!(running.ensure_running(&name), StartOutcome::Started);
            }
            Action::SendCommand(line) => sent.push(line),
            other => panic!("unexpected action {:?}", other),
        }
    }
    assert_eq!(registry, vec![String::from("bob")]);
    assert!(running.contains("bob"));
    assert_eq!(sent, vec![String::from("whisper alice Spawned slave bot: bob")]);
}

#[test]
fn only_the_master_spawns() {
    let mut state = logged_in();
    let actions = on_line(&mut state, "slave1", "[alice -> me] spawn bob");
    assert_eq!(actions, Vec::<Action>::new());
}

#[test]
fn nothing_is_dispatched_before_login() {
    let mut state = State::new(String::from("pw"));
    for line in [
        "[alice -> me] spawn bob",
        "[alice -> me] disconnect",
        "alice has requested to teleport to you",
        "hello",
    ] {
        assert_eq!(on_line(&mut state, "master", line), Vec::<Action>::new());
        assert!(!state.has_logged_in());
    }
}

#[test]
fn handshake_runs_through_the_handler() {
    let mut state = State::new(String::from("pw"));
    assert_eq!(
        on_line(&mut state, "master", "Use /register <password> <password>"),
        vec![command("register pw pw")]
    );
    assert_eq!(
        on_line(&mut state, "master", "Use /login <password>"),
        vec![command("login pw")]
    );
    assert!(!state.has_logged_in());
    assert_eq!(
        on_line(&mut state, "master", "Successful login!"),
        Vec::<Action>::new()
    );
    assert!(state.has_logged_in());
    assert_eq!(
        on_line(&mut state, "master", "Use /login <password>"),
        Vec::<Action>::new()
    );
    assert_eq!(
        on_line(&mut state, "master", "Use /register <password>"),
        Vec::<Action>::new()
    );
    assert!(state.has_logged_in());
}

#[test]
fn own_messages_are_passed_over() {
    let mut state = logged_in();
    assert_eq!(
        on_line(&mut state, "master", "[me -> alice] echo hi"),
        Vec::<Action>::new()
    );
    assert_eq!(
        on_line(&mut state, "master", "[me -> me] echo hi"),
        Vec::<Action>::new()
    );
    assert_eq!(
        on_line(&mut state, "alice", "[alice -> me] echo hi"),
        Vec::<Action>::new()
    );
}

#[test]
fn messages_for_others_are_dropped() {
    let mut state = logged_in();
    assert_eq!(
        on_line(&mut state, "master", "[alice -> carol] echo hi"),
        Vec::<Action>::new()
    );
    assert_eq!(
        on_line(&mut state, "master", "[mallory -> carol] echo hi"),
        Vec::<Action>::new()
    );
}

#[test]
fn untrusted_sender_is_refused() {
    let mut state = logged_in();
    assert_eq!(
        on_line(&mut state, "master", "[mallory -> me] spawn bob"),
        vec![command("whisper mallory You are not allowed to send commands")]
    );
}

#[test]
fn echo_goes_to_the_public_chat() {
    let mut state = logged_in();
    assert_eq!(
        on_line(&mut state, "slave1", "[alice -> me] echo hello  all"),
        vec![Action::SendChat(String::from("hello  all"))]
    );
    assert_eq!(
        on_line(&mut state, "slave1", "[alice -> me] echo"),
        vec![Action::SendChat(String::new())]
    );
}

#[test]
fn tpask_is_sent_as_a_command() {
    let mut state = logged_in();
    assert_eq!(
        on_line(&mut state, "slave1", "[alice -> me] tpask carol"),
        vec![command("tpask carol")]
    );
}

#[test]
fn disconnect_closes_the_connection() {
    let mut state = logged_in();
    assert_eq!(
        on_line(&mut state, "slave1", "[alice -> me] disconnect"),
        vec![Action::Disconnect]
    );
}

#[test]
fn unrecognized_command_is_answered() {
    let mut state = logged_in();
    let expected = vec![command(
        "whisper alice Unrecognized command. See `/whisper bot help` for a list of commands",
    )];
    assert_eq!(
        on_line(&mut state, "master", "[alice -> me] dance"),
        expected
    );
    assert_eq!(
        on_line(&mut state, "master", "[alice -> me] spawn x"),
        expected
    );
    assert_eq!(on_line(&mut state, "master", "[alice -> me]   "), expected);
}

#[test]
fn help_texts() {
    assert_eq!(help_answer(None), "Commands: spawn, echo, tpask, disconnect, help");
    assert_eq!(
        help_answer(Some("spawn")),
        "Usage: /spawn <username> - Spawn/connect a new slave bot with the given username"
    );
    assert_eq!(
        help_answer(Some("echo")),
        "Usage: /echo <message> - Echo a message to the server in the global chat"
    );
    assert_eq!(
        help_answer(Some("tpask")),
        "Usage: /tpask <username> - The bot will /tpask the player with the given username"
    );
    assert_eq!(
        help_answer(Some("disconnect")),
        "Usage: /disconnect - Disconnect the bot from the server"
    );
    assert_eq!(
        help_answer(Some("help")),
        "Usage: /help [command] - Show help for the given command"
    );
    assert_eq!(help_answer(Some("dance")), "Unrecognized command");
    assert_eq!(help_answer(Some("")), "Unrecognized command");
}

#[test]
fn help_is_whispered_back() {
    let mut state = logged_in();
    assert_eq!(
        on_line(&mut state, "slave1", "[alice -> me] help"),
        vec![command("whisper alice Commands: spawn, echo, tpask, disconnect, help")]
    );
    assert_eq!(
        on_line(&mut state, "slave1", "[alice -> me] help disconnect"),
        vec![command("whisper alice Usage: /disconnect - Disconnect the bot from the server")]
    );
}

#[test]
fn unknown_lines_do_nothing() {
    let mut state = logged_in();
    assert_eq!(
        on_line(&mut state, "master", "Welcome!"),
        Vec::<Action>::new()
    );
}

#[test]
fn run_command_for_each_command() {
    assert_eq!(
        run_command(true, "alice", &Command::Spawn("bob")),
        vec![
            Action::RegisterSlave(String::from("bob")),
            Action::StartSlave(String::from("bob")),
            command("whisper alice Spawned slave bot: bob"),
        ]
    );
    assert_eq!(run_command(false, "alice", &Command::Spawn("bob")), Vec::<Action>::new());
    assert_eq!(run_command(false, "alice", &Command::Disconnect), vec![Action::Disconnect]);
    assert_eq!(
        run_command(false, "alice", &Command::TeleportAsk("")),
        vec![command("tpask ")]
    );
}

#[test]
fn direct_message_handler_checks_in_order() {
    let dm = DirectMessage { from: "me", to: "me", command: Command::Disconnect };
    assert_eq!(handle_direct_message(&config(), "master", &dm), Vec::<Action>::new());
    let dm = DirectMessage { from: "mallory", to: "carol", command: Command::Disconnect };
    assert_eq!(handle_direct_message(&config(), "master", &dm), Vec::<Action>::new());
    let dm = DirectMessage { from: "alice", to: "me", command: Command::Disconnect };
    assert_eq!(handle_direct_message(&config(), "master", &dm), vec![Action::Disconnect]);
}

#[test]
fn lines_are_joined_exactly() {
    assert_eq!(join("tpaccept ", "bob"), "tpaccept bob");
    assert_eq!(join("", ""), "");
    assert_eq!(whisper("bob", "hello there"), "whisper bob hello there");
    assert_eq!(whisper("", ""), "whisper  ");
}

#[test]
fn listed_finds_exact_names() {
    let list = vec![String::from("alice"), String::from("bob")];
    assert!(listed(&list, "alice"));
    assert!(listed(&list, "bob"));
    assert!(!listed(&list, "carol"));
    assert!(!listed(&list, ""));
    assert!(!listed(&Vec::new(), "alice"));
}

#[test]
fn whitelist_is_split_at_commas() {
    assert_eq!(parse_whitelist("alice,bob"), vec![String::from("alice"), String::from("bob")]);
    assert_eq!(parse_whitelist("alice"), vec![String::from("alice")]);
    assert_eq!(parse_whitelist(""), vec![String::new()]);
    assert_eq!(
        parse_whitelist("a,,b,"),
        vec![String::from("a"), String::new(), String::from("b"), String::new()]
    );
    assert_eq!(parse_whitelist(" a , b"), vec![String::from(" a "), String::from(" b")]);
    for raw in ["", ",", "x,y,z", ",,", "no commas here", "\u{e9},\u{1f600}"] {
        let expected: Vec<String> = raw.split(',').map(String::from).collect();
        assert_eq!(parse_whitelist(raw), expected);
    }
}

#[test]
fn what_players_say_is_passed_over() {
    let mut state = State::new(String::from("pw"));
    for line in ["Successful login!", "/login <password>", "[alice -> me] disconnect"] {
        assert_eq!(
            handle_chat_event(&mut state, &config(), "master", Some("mallory"), line),
            Vec::<Action>::new()
        );
        assert!(!state.has_logged_in());
    }
    let mut state = logged_in();
    assert_eq!(
        handle_chat_event(
            &mut state,
            &config(),
            "master",
            Some("alice"),
            "alice has requested to teleport to you"
        ),
        Vec::<Action>::new()
    );
    assert!(state.has_logged_in());
}

#[test]
fn handle_line_is_the_handler_for_server_lines() {
    let mut a = logged_in();
    let mut b = logged_in();
    for line in ["[alice -> me] help", "bob has requested to teleport to you", "hi"] {
        assert_eq!(
            handle_line(&mut a, &config(), "master", line),
            handle_chat_event(&mut b, &config(), "master", None, line)
        );
    }
}
