//! The login handshake of one bot: its credential, the two lines it answers
//! the server's prompts with, and the flag that says whether the server has
//! confirmed the login.

use crate::message::{ServerMessage, ServerMessageView};
use vstd::prelude::*;
use vstd::string::{StrSliceExecFns, StringExecFns};

verus! {

/// How many characters of the digest make a credential.
pub const CREDENTIAL_LEN: usize = 20;

/// The SHA-256 digest of the UTF-8 encoding of `input`, in hexadecimal.
pub uninterp spec fn sha256_hex(input: Seq<char>) -> Seq<char>;

/// Calls `sha256::digest` on a string slice. Assumed, not proved: the
/// result is a function of the characters of `input` alone, the one named
/// `sha256_hex`.
#[verifier::external_body]
fn digest(input: &str) -> (r: String)
    ensures
        r@ == sha256_hex(input@),
{
    sha256::digest(input)
}

/// The credential that a digest gives: its first `CREDENTIAL_LEN`
/// characters, or all of it where it has no more.
pub open spec fn credential_of(digest: Seq<char>) -> Seq<char> {
    if digest.len() <= CREDENTIAL_LEN {
        digest
    } else {
        digest.subrange(0, CREDENTIAL_LEN as int)
    }
}

/// The text that is hashed for the bot `username`: its name between two
/// copies of the secret.
pub open spec fn salted(username: Seq<char>, secret: Seq<char>) -> Seq<char> {
    secret + username + secret
}

/// The credential of the bot `username` under the shared secret `secret`.
pub open spec fn derived_credential(username: Seq<char>, secret: Seq<char>) -> Seq<char> {
    credential_of(sha256_hex(salted(username, secret)))
}

/// The line that answers the server's prompt to register.
pub open spec fn register_line(password: Seq<char>) -> Seq<char> {
    "register "@ + password + " "@ + password
}

/// The line that answers the server's prompt to log in.
pub open spec fn login_line(password: Seq<char>) -> Seq<char> {
    "login "@ + password
}

/// Cuts a digest down to a credential.
pub fn credential_from_digest(digest: &str) -> (r: String)
    ensures
        r@ == credential_of(digest@),
{
    if digest.unicode_len() <= CREDENTIAL_LEN {
        String::from_str(digest)
    } else {
        String::from_str(digest.substring_char(0, CREDENTIAL_LEN))
    }
}

/// What a bot knows about its login.
#[derive(Clone, Debug)]
pub struct State {
    password: String,
    has_logged_in: bool,
}

/// The login state as a mathematical value.
pub struct StateView {
    pub password: Seq<char>,
    pub logged_in: bool,
}

impl View for State {
    type V = StateView;

    closed spec fn view(&self) -> StateView {
        StateView { password: self.password@, logged_in: self.has_logged_in }
    }
}

/// The line that the handshake sends in answer to `message`, if any: an
/// answer to a prompt, and only before the login is confirmed.
pub open spec fn handshake_line(state: StateView, message: ServerMessageView) -> Option<
    Seq<char>,
> {
    if state.logged_in {
        None
    } else {
        match message {
            ServerMessageView::RegisterPrompt => Some(register_line(state.password)),
            ServerMessageView::LoginPrompt => Some(login_line(state.password)),
            _ => None,
        }
    }
}

/// The login state after `message`: the confirmation sets the flag, and
/// nothing clears it.
pub open spec fn after_handshake(state: StateView, message: ServerMessageView) -> StateView {
    StateView {
        password: state.password,
        logged_in: state.logged_in || message is LoginSuccess,
    }
}

/// The login state after the messages of `messages`, taken in order.
pub open spec fn after_messages(state: StateView, messages: Seq<ServerMessageView>) -> StateView
    decreases messages.len(),
{
    if messages.len() == 0 {
        state
    } else {
        after_handshake(after_messages(state, messages.drop_last()), messages.last())
    }
}

/// The lines that the handshake sends in answer to the messages of
/// `messages`, taken in order.
pub open spec fn handshake_lines(state: StateView, messages: Seq<ServerMessageView>) -> Seq<
    Seq<char>,
>
    decreases messages.len(),
{
    if messages.len() == 0 {
        Seq::empty()
    } else {
        let sent = handshake_lines(state, messages.drop_last());
        match handshake_line(after_messages(state, messages.drop_last()), messages.last()) {
            Some(line) => sent.push(line),
            None => sent,
        }
    }
}

/// After any messages the bot is logged in exactly if it was before or one
/// of them confirmed the login, and its credential is what it was. So a
/// bot that waits stays waiting until the confirmation comes, and one that
/// is logged in stays so.
pub proof fn lemma_logged_in_after(state: StateView, messages: Seq<ServerMessageView>)
    ensures
        after_messages(state, messages).password == state.password,
        after_messages(state, messages).logged_in <==> state.logged_in || exists|i: int|
            0 <= i < messages.len() && #[trigger] messages[i] is LoginSuccess,
    decreases messages.len(),
{
    if messages.len() > 0 {
        let before = messages.drop_last();
        lemma_logged_in_after(state, before);
        if exists|i: int| 0 <= i < before.len() && #[trigger] before[i] is LoginSuccess {
            let i = choose|i: int| 0 <= i < before.len() && #[trigger] before[i] is LoginSuccess;
            assert(messages[i] is LoginSuccess);
        }
        if messages.last() is LoginSuccess {
            assert(messages[messages.len() - 1] is LoginSuccess);
        }
        if exists|i: int| 0 <= i < messages.len() && #[trigger] messages[i] is LoginSuccess {
            let i = choose|i: int|
                0 <= i < messages.len() && #[trigger] messages[i] is LoginSuccess;
            if i < before.len() {
                assert(before[i] is LoginSuccess);
            }
        }
    }
}

/// A bot that is logged in sends no line of the handshake, whatever
/// messages come.
pub proof fn lemma_logged_in_sends_nothing(state: StateView, messages: Seq<ServerMessageView>)
    requires
        state.logged_in,
    ensures
        handshake_lines(state, messages) == Seq::<Seq<char>>::empty(),
    decreases messages.len(),
{
    if messages.len() > 0 {
        lemma_logged_in_sends_nothing(state, messages.drop_last());
        lemma_logged_in_after(state, messages.drop_last());
    }
}

/// What one step of the handshake asks for.
#[derive(Debug)]
pub struct LoginStep {
    /// Whether the login is confirmed, so that the message may go on to the
    /// dispatch of commands.
    pub logged_in: bool,
    /// The line to send to the server as a command, if any.
    pub send: Option<String>,
}

impl LoginStep {
    /// The line to send, as a sequence of characters.
    pub open spec fn line(&self) -> Option<Seq<char>> {
        match self.send {
            Some(s) => Some(s@),
            None => None,
        }
    }
}

impl State {
    /// The state of a bot that has not logged in yet, with the credential
    /// derived from its name and the shared secret.
    pub fn for_user(username: &str, secret: &str) -> (r: State)
        ensures
            r@ == (StateView {
                password: derived_credential(username@, secret@),
                logged_in: false,
            }),
    {
        let mut plain = String::from_str(secret);
        plain.append(username);
        plain.append(secret);
        let hash = digest(plain.as_str());
        State::new(credential_from_digest(hash.as_str()))
    }

    /// The state of a bot that has not logged in yet, with the given
    /// credential.
    pub fn new(password: String) -> (r: State)
        ensures
            r@ == (StateView { password: password@, logged_in: false }),
    {
        State { password, has_logged_in: false }
    }

    /// The line that registers the bot: the credential, twice.
    pub fn register(&self) -> (r: String)
        ensures
            r@ == register_line(self@.password),
    {
        let mut line = String::from_str("register ");
        line.append(self.password.as_str());
        line.append(" ");
        line.append(self.password.as_str());
        line
    }

    /// The line that logs the bot in.
    pub fn login(&self) -> (r: String)
        ensures
            r@ == login_line(self@.password),
    {
        let mut line = String::from_str("login ");
        line.append(self.password.as_str());
        line
    }

    /// Tells whether the server has confirmed the login.
    pub fn has_logged_in(&self) -> (r: bool)
        ensures
            r == self@.logged_in,
    {
        self.has_logged_in
    }
}

impl Default for State {
    /// The state of a bot with an empty credential that has not logged in.
    fn default() -> (r: State)
        ensures
            r@ == (StateView { password: Seq::<char>::empty(), logged_in: false }),
    {
        State { password: String::new(), has_logged_in: false }
    }
}

/// One step of the handshake. Before the login is confirmed, a prompt is
/// answered with the matching line, the confirmation sets the flag, and
/// every other message is passed over. Once the login is confirmed, nothing
/// is sent and nothing changes.
pub fn login(state: &mut State, message: &ServerMessage<'_>) -> (r: LoginStep)
    ensures
        final(state)@ == after_handshake(old(state)@, message@),
        r.logged_in == final(state)@.logged_in,
        r.line() == handshake_line(old(state)@, message@),
{
    if state.has_logged_in {
        return LoginStep { logged_in: true, send: None };
    }
    match message {
        ServerMessage::RegisterPrompt => LoginStep {
            logged_in: false,
            send: Some(state.register()),
        },
        ServerMessage::LoginPrompt => LoginStep { logged_in: false, send: Some(state.login()) },
        ServerMessage::LoginSuccess => {
            state.has_logged_in = true;
            LoginStep { logged_in: true, send: None }
        },
        _ => LoginStep { logged_in: false, send: None },
    }
}

} // verus!
