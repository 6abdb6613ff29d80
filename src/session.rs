//! The per-conversation session engine: transcript history, confirmation gating
//! of proposed commands, and feeding command results back to the assistant.
//!
//! The engine never waits on a provider or an executor itself. Each operation
//! that needs one returns what to send, and a later operation takes the result,
//! so that a caller can release its lock on the engine while the call runs.
use crate::directive::{
    affirmative, confirmation_title, confirmation_title_str, directive_of, is_affirmative,
    parse_directive,
};
use crate::callback::{callback_of, lemma_confirmation_payload, CallbackView};
use crate::text::{concat2, same_text};
use crate::token::{
    base64_of, base64_text, command_from_token, command_token, command_token_of, EncodingError,
};
use std::collections::HashMap;
use vstd::prelude::*;
use vstd::string::*;

verus! {

broadcast use vstd::std_specs::hash::group_hash_axioms;

/// Who a turn is from.
#[derive(PartialEq, Eq, Structural, Debug, Clone, Copy)]
pub enum Role {
    System,
    User,
    Assistant,
}

/// One role-tagged message of a transcript.
#[derive(Debug)]
pub struct Turn {
    pub role: Role,
    pub content: String,
    pub ordinal: usize,
}

pub struct TurnView {
    pub role: Role,
    pub content: Seq<char>,
    pub ordinal: nat,
}

impl View for Turn {
    type V = TurnView;

    open spec fn view(&self) -> TurnView {
        TurnView { role: self.role, content: self.content@, ordinal: self.ordinal as nat }
    }
}

/// The views of a sequence of turns.
pub open spec fn turns_view(v: Seq<Turn>) -> Seq<TurnView> {
    v.map_values(|t: Turn| t@)
}

/// A turn with the given role and text at position `ordinal`.
pub open spec fn turn(role: Role, content: Seq<char>, ordinal: nat) -> TurnView {
    TurnView { role, content, ordinal }
}

impl Turn {
    /// An exact copy of this turn.
    pub fn copy(&self) -> (r: Turn)
        ensures
            r@ == self@,
    {
        Turn { role: self.role, content: String::from_str(self.content.as_str()), ordinal: self.ordinal }
    }
}

/// A proposed command waiting for the operator's decision.
#[derive(Debug)]
pub struct PendingToolCall {
    pub session_id: i64,
    pub raw_command: String,
    pub token: String,
}

pub struct PendingView {
    pub session_id: i64,
    pub raw_command: Seq<char>,
    pub token: Seq<char>,
}

impl View for PendingToolCall {
    type V = PendingView;

    open spec fn view(&self) -> PendingView {
        PendingView {
            session_id: self.session_id,
            raw_command: self.raw_command@,
            token: self.token@,
        }
    }
}

/// Whether a session takes new input or waits for a confirmation.
#[derive(Debug)]
pub enum SessionState {
    Active,
    AwaitingConfirmation(PendingToolCall),
}

/// The conversation with one target host.
#[derive(Debug)]
pub struct Session {
    pub server_alias: String,
    pub history: Vec<Turn>,
    pub state: SessionState,
}

pub struct SessionView {
    pub alias: Seq<char>,
    pub history: Seq<TurnView>,
    pub pending: Option<PendingView>,
}

impl View for Session {
    type V = SessionView;

    open spec fn view(&self) -> SessionView {
        SessionView {
            alias: self.server_alias@,
            history: turns_view(self.history@),
            pending: match self.state {
                SessionState::Active => None,
                SessionState::AwaitingConfirmation(p) => Some(p@),
            },
        }
    }
}

impl SessionView {
    /// Ordinals follow append order, and a pending call belongs to conversation `id`
    /// and carries the token of its command.
    pub open spec fn wf(self, id: i64) -> bool {
        &&& forall|i: int| 0 <= i < self.history.len() ==> #[trigger] self.history[i].ordinal == i
        &&& self.pending matches Some(p) ==> p.session_id == id && p.token == command_token_of(
            p.raw_command,
        ) && base64_text(p.token)
    }

    /// The session after appending a turn with the given role and text.
    pub open spec fn appended(self, role: Role, content: Seq<char>) -> SessionView {
        SessionView {
            history: self.history.push(turn(role, content, self.history.len())),
            ..self
        }
    }
}

/// Ordinals of a well-formed session's transcript strictly increase along it.
pub proof fn lemma_ordinals_increasing(s: SessionView, id: i64)
    requires
        s.wf(id),
    ensures
        forall|i: int, j: int|
            0 <= i < j < s.history.len() ==> s.history[i].ordinal < s.history[j].ordinal,
{
    assert forall|i: int, j: int| 0 <= i < j < s.history.len() implies s.history[i].ordinal
        < s.history[j].ordinal by {
        assert(s.history[i].ordinal == i);
        assert(s.history[j].ordinal == j);
    }
}

/// Appending a turn keeps a session well formed and gives the new turn the next ordinal.
pub proof fn lemma_append_keeps_order(s: SessionView, id: i64, role: Role, content: Seq<char>)
    requires
        s.wf(id),
    ensures
        s.appended(role, content).wf(id),
        s.appended(role, content).history.last().ordinal == s.history.len(),
{
    let t = s.appended(role, content);
    assert forall|i: int| 0 <= i < t.history.len() implies #[trigger] t.history[i].ordinal == i by {
        if i < s.history.len() {
            assert(t.history[i] == s.history[i]);
        }
    }
}

/// An operation invoked in a state that does not allow it.
#[derive(PartialEq, Eq, Structural, Debug, Clone, Copy)]
pub enum SessionError {
    /// The conversation has no session.
    NoActiveSession,
    /// The session has no command waiting for confirmation.
    NothingPending,
    /// The session waits for a confirmation and takes no new input.
    AwaitingConfirmation,
    /// The confirmation names another command than the pending one.
    TokenMismatch,
    /// The provider name is not one of the known kinds.
    UnknownProvider,
}

/// Why a confirmation did not go ahead.
#[derive(PartialEq, Eq, Structural, Debug, Clone, Copy)]
pub enum ConfirmError {
    Session(SessionError),
    Encoding(EncodingError),
}

/// What the engine hands back to the chat transport.
#[derive(Debug)]
pub enum CommandResponse {
    Text(String),
    Html(String),
    InteractiveList { title: String, options: Vec<String>, callback_prefix: String },
}

/// The command that a confirmed session asks to run, and where.
#[derive(Debug)]
pub struct ExecRequest {
    pub alias: String,
    pub command: String,
}

/// The text of the turn that records a command's output or failure.
pub open spec fn output_turn_text(output: Result<Seq<char>, Seq<char>>) -> Seq<char> {
    match output {
        Ok(out) => "Command Output:\n"@ + out,
        Err(e) => "Command Output:\nError: "@ + e,
    }
}

/// The turn that records a declined command.
pub open spec fn skip_text() -> Seq<char> {
    "I skipped the command execution."@
}

/// The prompt that asks the assistant to go on after a command ran.
pub open spec fn continuation_text() -> Seq<char> {
    "Command executed. Analyze results."@
}

/// The last turn with `suffix` added to its text; the other turns as they are.
pub open spec fn with_suffix(h: Seq<TurnView>, suffix: Seq<char>) -> Seq<TurnView> {
    if h.len() == 0 {
        h
    } else {
        h.drop_last().push(TurnView { content: h.last().content + suffix, ..h.last() })
    }
}

/// Copies a transcript, adding `suffix` to the text of its last turn.
fn transcript_with_suffix(h: &Vec<Turn>, suffix: &str) -> (r: Vec<Turn>)
    ensures
        turns_view(r@) == with_suffix(turns_view(h@), suffix@),
{
    let n = h.len();
    let mut out: Vec<Turn> = Vec::new();
    if n == 0 {
        assert(turns_view(out@) =~= turns_view(h@));
        return out;
    }
    let mut i: usize = 0;
    while i < n - 1
        invariant
            n == h.len(),
            n > 0,
            i <= n - 1,
            turns_view(out@) =~= turns_view(h@).take(i as int),
        decreases n - i,
    {
        out.push(h[i].copy());
        assert(turns_view(h@).take(i + 1) =~= turns_view(h@).take(i as int).push(h@[i as int]@));
        i = i + 1;
    }
    let t = &h[n - 1];
    out.push(Turn { role: t.role, content: concat2(t.content.as_str(), suffix), ordinal: t.ordinal });
    assert(turns_view(h@).drop_last() =~= turns_view(h@).take(n - 1));
    assert(turns_view(out@) =~= with_suffix(turns_view(h@), suffix@));
    out
}

/// Copies a transcript and adds one more turn after it, not kept in any session.
fn transcript_with_extra(h: &Vec<Turn>, role: Role, content: &str) -> (r: Vec<Turn>)
    ensures
        turns_view(r@) == turns_view(h@).push(turn(role, content@, h@.len() as nat)),
{
    let n = h.len();
    let mut out: Vec<Turn> = Vec::new();
    let mut i: usize = 0;
    while i < n
        invariant
            n == h.len(),
            i <= n,
            turns_view(out@) =~= turns_view(h@).take(i as int),
        decreases n - i,
    {
        out.push(h[i].copy());
        assert(turns_view(h@).take(i + 1) =~= turns_view(h@).take(i as int).push(h@[i as int]@));
        i = i + 1;
    }
    out.push(Turn { role, content: String::from_str(content), ordinal: n });
    assert(turns_view(h@).take(n as int) =~= turns_view(h@));
    assert(turns_view(out@) =~= turns_view(h@).push(turn(role, content@, h@.len() as nat)));
    out
}

pub enum ResponseView {
    Text(Seq<char>),
    Html(Seq<char>),
    InteractiveList { title: Seq<char>, options: Seq<Seq<char>>, callback_prefix: Seq<char> },
}

impl View for CommandResponse {
    type V = ResponseView;

    open spec fn view(&self) -> ResponseView {
        match self {
            CommandResponse::Text(t) => ResponseView::Text(t@),
            CommandResponse::Html(h) => ResponseView::Html(h@),
            CommandResponse::InteractiveList { title, options, callback_prefix } => {
                ResponseView::InteractiveList {
                    title: title@,
                    options: options@.map_values(|o: String| o@),
                    callback_prefix: callback_prefix@,
                }
            },
        }
    }
}

/// The choices offered for a pending command.
pub open spec fn confirmation_options() -> Seq<Seq<char>> {
    seq!["Run"@, "Skip"@]
}

/// The callback prefix that carries a pending command's token.
pub open spec fn confirmation_prefix(token: Seq<char>) -> Seq<char> {
    "tool_run:"@ + token + ":"@
}

/// Conversation `id` has a pending call whose token is `token`.
pub open spec fn confirmable(m: Map<i64, SessionView>, id: i64, token: Seq<char>) -> bool {
    &&& m.contains_key(id)
    &&& m[id].pending is Some
    &&& m[id].pending->Some_0.token == token
}

/// What confirming the call of conversation `id` with `token` gives: the
/// session errors where there is no session or nothing pending; otherwise the
/// command to run exactly when `token` is the pending call's token, and the
/// encoding error for a token that is no Base64 text of any bytes.
pub open spec fn confirm_outcome(
    m: Map<i64, SessionView>,
    id: i64,
    token: Seq<char>,
    r: Result<ExecRequest, ConfirmError>,
) -> bool {
    &&& !m.contains_key(id) ==> r == Err::<ExecRequest, ConfirmError>(
        ConfirmError::Session(SessionError::NoActiveSession),
    )
    &&& m.contains_key(id) && m[id].pending is None ==> r == Err::<ExecRequest, ConfirmError>(
        ConfirmError::Session(SessionError::NothingPending),
    )
    &&& m.contains_key(id) && m[id].pending is Some ==> {
        &&& r is Ok <==> confirmable(m, id, token)
        &&& r matches Ok(q) ==> q.alias@ == m[id].alias && q.command@
            == m[id].pending->Some_0.raw_command
        &&& (forall|b: Seq<u8>| base64_of(b) != token) ==> r == Err::<ExecRequest, ConfirmError>(
            ConfirmError::Encoding(EncodingError::NotBase64),
        )
    }
}

/// The reply to an input that finds no session to act on.
pub open spec fn no_session_text() -> Seq<char> {
    "No active session."@
}

/// What the session becomes, and what the operator is shown, once the
/// assistant's reply `reply` has been appended to session `s` of conversation `id`.
pub open spec fn after_reply(s: SessionView, id: i64, reply: Seq<char>) -> (SessionView, ResponseView) {
    let t = s.appended(Role::Assistant, reply);
    match directive_of(reply).1 {
        None => (t, ResponseView::Html(reply)),
        Some(c) => (
            SessionView {
                pending: Some(
                    PendingView { session_id: id, raw_command: c, token: command_token_of(c) },
                ),
                ..t
            },
            ResponseView::InteractiveList {
                title: confirmation_title(directive_of(reply).0, c),
                options: confirmation_options(),
                callback_prefix: confirmation_prefix(command_token_of(c)),
            },
        ),
    }
}

impl Session {
    /// Appends a turn with the next ordinal.
    fn append(&mut self, role: Role, content: String)
        ensures
            final(self)@ == old(self)@.appended(role, content@),
    {
        let n = self.history.len();
        self.history.push(Turn { role, content, ordinal: n });
        assert(turns_view(self.history@) =~= turns_view(old(self).history@).push(
            turn(role, content@, n as nat),
        ));
    }
}

/// All sessions, one per conversation identity.
pub struct SessionManager {
    sessions: HashMap<i64, Session>,
}

impl View for SessionManager {
    type V = Map<i64, SessionView>;

    closed spec fn view(&self) -> Map<i64, SessionView> {
        self.sessions@.map_values(|s: Session| s@)
    }
}

impl SessionManager {
    /// Every session is well formed for its own conversation identity.
    pub open spec fn wf(&self) -> bool {
        forall|k: i64| #[trigger] self@.contains_key(k) ==> self@[k].wf(k)
    }

    /// A manager with no sessions.
    pub fn new() -> (r: Self)
        ensures
            r@ == Map::<i64, SessionView>::empty(),
            r.wf(),
    {
        let r = SessionManager { sessions: HashMap::new() };
        assert(r@ =~= Map::<i64, SessionView>::empty());
        r
    }

    fn lookup(&self, id: i64) -> (r: Option<&Session>)
        ensures
            match r {
                Some(s) => self@.contains_key(id) && s@ == self@[id],
                None => !self@.contains_key(id),
            },
    {
        self.sessions.get(&id)
    }

    fn take(&mut self, id: i64) -> (r: Option<Session>)
        ensures
            final(self)@ == old(self)@.remove(id),
            match r {
                Some(s) => old(self)@.contains_key(id) && s@ == old(self)@[id],
                None => !old(self)@.contains_key(id),
            },
    {
        let r = self.sessions.remove(&id);
        assert(self@ =~= old(self)@.remove(id));
        r
    }

    fn put(&mut self, id: i64, s: Session)
        ensures
            final(self)@ == old(self)@.insert(id, s@),
    {
        let ghost v = s@;
        self.sessions.insert(id, s);
        assert(self@ =~= old(self)@.insert(id, v));
    }

    /// Opens a session for a conversation, seeded with the system prompt for its
    /// target. A session that the conversation had is replaced.
    pub fn start_session(&mut self, chat_id: i64, alias: String, system_prompt: String)
        requires
            old(self).wf(),
        ensures
            final(self).wf(),
            final(self)@ == old(self)@.insert(
                chat_id,
                SessionView {
                    alias: alias@,
                    history: seq![turn(Role::System, system_prompt@, 0)],
                    pending: None,
                },
            ),
    {
        let ghost p = system_prompt@;
        let mut history: Vec<Turn> = Vec::new();
        history.push(Turn { role: Role::System, content: system_prompt, ordinal: 0 });
        let s = Session { server_alias: alias, history, state: SessionState::Active };
        assert(turns_view(s.history@) =~= seq![turn(Role::System, p, 0)]);
        self.put(chat_id, s);
    }

    /// Discards the session of a conversation, returning it if there was one.
    pub fn end_session(&mut self, chat_id: i64) -> (r: Option<Session>)
        requires
            old(self).wf(),
        ensures
            final(self).wf(),
            final(self)@ == old(self)@.remove(chat_id),
            r is Some <==> old(self)@.contains_key(chat_id),
            r matches Some(s) ==> s@ == old(self)@[chat_id],
    {
        self.take(chat_id)
    }

    /// Whether a conversation has a session.
    pub fn has_session(&self, chat_id: i64) -> (r: bool)
        ensures
            r == self@.contains_key(chat_id),
    {
        self.lookup(chat_id).is_some()
    }

    /// The target bound to a conversation's session.
    pub fn get_alias(&self, chat_id: i64) -> (r: Option<String>)
        ensures
            r is Some <==> self@.contains_key(chat_id),
            r matches Some(a) ==> a@ == self@[chat_id].alias,
    {
        match self.lookup(chat_id) {
            Some(s) => Some(String::from_str(s.server_alias.as_str())),
            None => None,
        }
    }

    /// A copy of a conversation's transcript.
    pub fn transcript(&self, chat_id: i64) -> (r: Option<Vec<Turn>>)
        ensures
            r is Some <==> self@.contains_key(chat_id),
            r matches Some(t) ==> turns_view(t@) == self@[chat_id].history,
    {
        match self.lookup(chat_id) {
            Some(s) => {
                let t = transcript_with_suffix(&s.history, "");
                assert(with_suffix(turns_view(s.history@), ""@) =~= turns_view(s.history@)) by {
                    reveal_strlit("");
                    let h = turns_view(s.history@);
                    if h.len() > 0 {
                        assert(h.last().content + ""@ =~= h.last().content);
                        assert(TurnView { content: h.last().content + ""@, ..h.last() } == h.last());
                    }
                };
                Some(t)
            },
            None => None,
        }
    }

    /// Appends a turn with the given role and text to a conversation's session,
    /// whatever its state; without a session nothing changes.
    pub fn add_message(&mut self, chat_id: i64, role: Role, content: &str) -> (r: bool)
        requires
            old(self).wf(),
        ensures
            final(self).wf(),
            r == old(self)@.contains_key(chat_id),
            !r ==> final(self)@ == old(self)@,
            r ==> final(self)@ == old(self)@.insert(
                chat_id,
                old(self)@[chat_id].appended(role, content@),
            ),
    {
        match self.take(chat_id) {
            None => {
                assert(self@ =~= old(self)@);
                false
            },
            Some(mut s) => {
                proof {
                    lemma_append_keeps_order(s@, chat_id, role, content@);
                }
                s.append(role, String::from_str(content));
                self.put(chat_id, s);
                true
            },
        }
    }

    /// Appends the operator's input to an active session and returns the
    /// transcript to send to the provider, with `reminder` added to the new turn's
    /// text only in what is sent.
    pub fn process_user_input(&mut self, chat_id: i64, input: &str, reminder: &str) -> (r: Result<
        Vec<Turn>,
        SessionError,
    >)
        requires
            old(self).wf(),
        ensures
            final(self).wf(),
            !old(self)@.contains_key(chat_id) ==> r == Err::<Vec<Turn>, SessionError>(
                SessionError::NoActiveSession,
            ) && final(self)@ == old(self)@,
            old(self)@.contains_key(chat_id) && old(self)@[chat_id].pending is Some ==> r == Err::<
                Vec<Turn>,
                SessionError,
            >(SessionError::AwaitingConfirmation) && final(self)@ == old(self)@,
            old(self)@.contains_key(chat_id) && old(self)@[chat_id].pending is None ==> {
                let s = old(self)@[chat_id].appended(Role::User, input@);
                &&& final(self)@ == old(self)@.insert(chat_id, s)
                &&& r matches Ok(t) && turns_view(t@) == with_suffix(s.history, reminder@)
            },
    {
        match self.take(chat_id) {
            None => {
                assert(self@ =~= old(self)@);
                Err(SessionError::NoActiveSession)
            },
            Some(mut s) => {
                if let SessionState::AwaitingConfirmation(_) = s.state {
                    self.put(chat_id, s);
                    assert(self@ =~= old(self)@);
                    return Err(SessionError::AwaitingConfirmation);
                }
                proof {
                    lemma_append_keeps_order(s@, chat_id, Role::User, input@);
                }
                s.append(Role::User, String::from_str(input));
                let t = transcript_with_suffix(&s.history, reminder);
                self.put(chat_id, s);
                assert(self@ =~= old(self)@.insert(chat_id, self@[chat_id]));
                Ok(t)
            },
        }
    }

    /// Takes the provider's answer to the transcript of an active session. A
    /// failure is shown and changes nothing; a reply is appended, and one that
    /// carries a command leaves the session waiting for confirmation. When the
    /// session has ended or waits for a confirmation meanwhile, the answer is
    /// discarded.
    pub fn finish_reply(&mut self, chat_id: i64, reply: Result<String, String>) -> (r:
        CommandResponse)
        requires
            old(self).wf(),
        ensures
            final(self).wf(),
            !(old(self)@.contains_key(chat_id) && old(self)@[chat_id].pending is None) ==> r@
                == ResponseView::Text(no_session_text()) && final(self)@ == old(self)@,
            old(self)@.contains_key(chat_id) && old(self)@[chat_id].pending is None ==> match reply {
                Err(e) => r@ == ResponseView::Text("AI Error: "@ + e@) && final(self)@ == old(
                    self,
                )@,
                Ok(text) => {
                    let (s, shown) = after_reply(old(self)@[chat_id], chat_id, text@);
                    &&& final(self)@ == old(self)@.insert(chat_id, s)
                    &&& r@ == shown
                },
            },
    {
        let mut s = match self.take(chat_id) {
            None => {
                assert(self@ =~= old(self)@);
                return CommandResponse::Text(String::from_str("No active session."));
            },
            Some(s) => s,
        };
        if let SessionState::AwaitingConfirmation(_) = s.state {
            self.put(chat_id, s);
            assert(self@ =~= old(self)@);
            return CommandResponse::Text(String::from_str("No active session."));
        }
        match reply {
            Err(e) => {
                self.put(chat_id, s);
                assert(self@ =~= old(self)@);
                CommandResponse::Text(concat2("AI Error: ", e.as_str()))
            },
            Ok(text) => {
                let d = parse_directive(text.as_str());
                proof {
                    lemma_append_keeps_order(s@, chat_id, Role::Assistant, text@);
                }
                let ghost tv = text@;
                s.append(Role::Assistant, text);
                match d.command {
                    None => {
                        let h = String::from_str(s.history[s.history.len() - 1].content.as_str());
                        self.put(chat_id, s);
                        CommandResponse::Html(h)
                    },
                    Some(cmd) => {
                        let token = command_token(cmd.as_str());
                        let title = confirmation_title_str(d.preamble.as_str(), cmd.as_str());
                        let mut prefix = concat2("tool_run:", token.as_str());
                        prefix.append(":");
                        let mut options: Vec<String> = Vec::new();
                        options.push(String::from_str("Run"));
                        options.push(String::from_str("Skip"));
                        s.state = SessionState::AwaitingConfirmation(
                            PendingToolCall { session_id: chat_id, raw_command: cmd, token },
                        );
                        self.put(chat_id, s);
                        let r = CommandResponse::InteractiveList { title, options, callback_prefix: prefix };
                        assert(r@ == after_reply(old(self)@[chat_id], chat_id, tv).1) by {
                            if let ResponseView::InteractiveList { options: o, .. } = r@ {
                                assert(o =~= confirmation_options());
                            }
                        }
                        r
                    },
                }
            },
        }
    }

    /// Checks a confirmation of the pending command carried by `token`, and
    /// returns the command to run on the session's target. Nothing changes: the
    /// session keeps waiting until the result is recorded. It goes ahead exactly
    /// when the token is the pending call's token.
    pub fn confirm(&self, chat_id: i64, token: &str) -> (r: Result<ExecRequest, ConfirmError>)
        requires
            self.wf(),
        ensures
            confirm_outcome(self@, chat_id, token@, r),
    {
        let s = match self.lookup(chat_id) {
            None => return Err(ConfirmError::Session(SessionError::NoActiveSession)),
            Some(s) => s,
        };
        let p = match &s.state {
            SessionState::Active => return Err(ConfirmError::Session(SessionError::NothingPending)),
            SessionState::AwaitingConfirmation(p) => p,
        };
        match command_from_token(token) {
            Err(e) => Err(ConfirmError::Encoding(e)),
            Ok(cmd) => {
                if same_text(cmd.as_str(), p.raw_command.as_str()) {
                    Ok(
                        ExecRequest {
                            alias: String::from_str(s.server_alias.as_str()),
                            command: cmd,
                        },
                    )
                } else {
                    Err(ConfirmError::Session(SessionError::TokenMismatch))
                }
            },
        }
    }

    /// Records the output of the confirmed command (or its failure) as a user
    /// turn, returns the session to `Active`, and returns the transcript that asks
    /// the provider to go on from there. A result for a session that has ended or
    /// no longer waits is discarded.
    pub fn add_tool_output(&mut self, chat_id: i64, output: Result<String, String>) -> (r: Result<
        Vec<Turn>,
        SessionError,
    >)
        requires
            old(self).wf(),
        ensures
            final(self).wf(),
            !old(self)@.contains_key(chat_id) ==> r == Err::<Vec<Turn>, SessionError>(
                SessionError::NoActiveSession,
            ) && final(self)@ == old(self)@,
            old(self)@.contains_key(chat_id) && old(self)@[chat_id].pending is None ==> r == Err::<
                Vec<Turn>,
                SessionError,
            >(SessionError::NothingPending) && final(self)@ == old(self)@,
            old(self)@.contains_key(chat_id) && old(self)@[chat_id].pending is Some ==> {
                let text = match output {
                    Ok(o) => output_turn_text(Ok(o@)),
                    Err(e) => output_turn_text(Err(e@)),
                };
                let s = SessionView {
                    pending: None,
                    ..old(self)@[chat_id].appended(Role::User, text)
                };
                &&& final(self)@ == old(self)@.insert(chat_id, s)
                &&& r matches Ok(t) && turns_view(t@) == s.history.push(
                    turn(Role::User, continuation_text(), s.history.len()),
                )
            },
    {
        let mut s = match self.take(chat_id) {
            None => {
                assert(self@ =~= old(self)@);
                return Err(SessionError::NoActiveSession);
            },
            Some(s) => s,
        };
        if let SessionState::Active = s.state {
            self.put(chat_id, s);
            assert(self@ =~= old(self)@);
            return Err(SessionError::NothingPending);
        }
        let text = match output {
            Ok(o) => concat2("Command Output:\n", o.as_str()),
            Err(e) => concat2("Command Output:\nError: ", e.as_str()),
        };
        proof {
            lemma_append_keeps_order(s@, chat_id, Role::User, text@);
        }
        s.append(Role::User, text);
        s.state = SessionState::Active;
        let t = transcript_with_extra(&s.history, Role::User, "Command executed. Analyze results.");
        self.put(chat_id, s);
        Ok(t)
    }

    /// Declines the pending command: the session returns to `Active` with one
    /// more user turn that notes the skip. No provider or executor is involved.
    pub fn reject(&mut self, chat_id: i64) -> (r: Result<(), SessionError>)
        requires
            old(self).wf(),
        ensures
            final(self).wf(),
            !old(self)@.contains_key(chat_id) ==> r == Err::<(), SessionError>(
                SessionError::NoActiveSession,
            ) && final(self)@ == old(self)@,
            old(self)@.contains_key(chat_id) && old(self)@[chat_id].pending is None ==> r == Err::<
                (),
                SessionError,
            >(SessionError::NothingPending) && final(self)@ == old(self)@,
            old(self)@.contains_key(chat_id) && old(self)@[chat_id].pending is Some ==> r is Ok
                && final(self)@ == old(self)@.insert(
                chat_id,
                SessionView { pending: None, ..old(self)@[chat_id].appended(Role::User, skip_text()) },
            ),
    {
        let mut s = match self.take(chat_id) {
            None => {
                assert(self@ =~= old(self)@);
                return Err(SessionError::NoActiveSession);
            },
            Some(s) => s,
        };
        if let SessionState::Active = s.state {
            self.put(chat_id, s);
            assert(self@ =~= old(self)@);
            return Err(SessionError::NothingPending);
        }
        proof {
            lemma_append_keeps_order(s@, chat_id, Role::User, skip_text());
        }
        s.append(Role::User, String::from_str("I skipped the command execution."));
        s.state = SessionState::Active;
        self.put(chat_id, s);
        Ok(())
    }

    /// Resolves a confirmation choice: an affirmative label confirms as `confirm`
    /// does and returns the command to run; any other label rejects as `reject`
    /// does and returns `None`.
    pub fn resolve(&mut self, chat_id: i64, label: &str, token: &str) -> (r: Result<
        Option<ExecRequest>,
        ConfirmError,
    >)
        requires
            old(self).wf(),
        ensures
            final(self).wf(),
            is_affirmative(label@) ==> final(self)@ == old(self)@ && match r {
                Ok(Some(q)) => confirm_outcome(old(self)@, chat_id, token@, Ok(q)),
                Ok(None) => false,
                Err(e) => confirm_outcome(old(self)@, chat_id, token@, Err(e)),
            },
            !is_affirmative(label@) ==> match r {
                Ok(Some(_)) => false,
                Ok(None) => old(self)@.contains_key(chat_id) && old(self)@[chat_id].pending is Some
                    && final(self)@ == old(self)@.insert(
                    chat_id,
                    SessionView {
                        pending: None,
                        ..old(self)@[chat_id].appended(Role::User, skip_text())
                    },
                ),
                Err(e) => final(self)@ == old(self)@ && !(old(self)@.contains_key(chat_id)
                    && old(self)@[chat_id].pending is Some) && e is Session,
            },
    {
        if affirmative(label) {
            match self.confirm(chat_id, token) {
                Ok(q) => Ok(Some(q)),
                Err(e) => Err(e),
            }
        } else {
            match self.reject(chat_id) {
                Ok(()) => Ok(None),
                Err(e) => Err(ConfirmError::Session(e)),
            }
        }
    }
}

/// The button offered for a pending call carries its token back: whatever the
/// label, the payload reads as that token and label, and confirming with that
/// token goes ahead and runs exactly the pending command.
pub proof fn lemma_pending_button(m: Map<i64, SessionView>, id: i64, label: Seq<char>)
    requires
        m.contains_key(id),
        m[id].wf(id),
        m[id].pending is Some,
    ensures
        callback_of(confirmation_prefix(m[id].pending->Some_0.token) + label) == (
        CallbackView::ToolRun { token: m[id].pending->Some_0.token, label }),
        confirmable(m, id, m[id].pending->Some_0.token),
        forall|r: Result<ExecRequest, ConfirmError>|
            confirm_outcome(m, id, m[id].pending->Some_0.token, r) ==> (r matches Ok(q) && q.command@
                == m[id].pending->Some_0.raw_command),
{
    let t = m[id].pending->Some_0.token;
    assert(confirmation_prefix(t) + label =~= "tool_run:"@ + t + ":"@ + label);
    lemma_confirmation_payload(t, label);
}

/// Every operation of the engine on one conversation replaces that
/// conversation's session only: any other conversation's session, transcript
/// included, is left exactly as it was.
pub proof fn lemma_conversations_isolated(
    m: Map<i64, SessionView>,
    id: i64,
    s: SessionView,
    other: i64,
)
    requires
        other != id,
    ensures
        m.insert(id, s).contains_key(other) == m.contains_key(other),
        m.contains_key(other) ==> m.insert(id, s)[other] == m[other],
        m.remove(id).contains_key(other) == m.contains_key(other),
        m.contains_key(other) ==> m.remove(id)[other] == m[other],
{
}

} // verus!
