//! Sessions: how a session is found or created for a user, and how its
//! random token is drawn.

use vstd::prelude::*;
use crate::model::Session;
use rand::Rng;

verus! {

/// The random-number generator of the current thread.
#[verifier::external_type_specification]
#[verifier::external_body]
pub struct ExThreadRng(rand::rngs::ThreadRng);

/// The number of characters in a session token.
pub const TOKEN_LEN: usize = 64;

/// How long a new session lasts, in microseconds: seven days.
pub const SESSION_LIFETIME_MICROS: i64 = 604_800_000_000;

/// An ASCII letter or digit.
pub open spec fn is_alphanumeric(c: char) -> bool {
    ||| ('A' <= c && c <= 'Z')
    ||| ('a' <= c && c <= 'z')
    ||| ('0' <= c && c <= '9')
}

/// A text of `len` ASCII letters and digits.
pub open spec fn is_token_of_len(t: Seq<char>, len: nat) -> bool {
    &&& t.len() == len
    &&& forall|i: int| 0 <= i < t.len() ==> is_alphanumeric(#[trigger] t[i])
}

/// A session token: `TOKEN_LEN` ASCII letters and digits.
pub open spec fn is_session_token(t: Seq<char>) -> bool {
    is_token_of_len(t, TOKEN_LEN as nat)
}

/// Calls `rand::thread_rng`, which hands out the thread's generator. Nothing
/// is stated of it: every draw from it is random.
#[verifier::external_body]
fn thread_rng() -> rand::rngs::ThreadRng {
    rand::thread_rng()
}

/// Draws one character with `Rng::sample` from
/// `rand::distributions::Alphanumeric`, which draws a byte from the 62 ASCII
/// letters and digits, and turns it into a `char`. States only that the
/// character is an ASCII letter or digit; which one is left to chance.
#[verifier::external_body]
fn sample_alphanumeric(rng: &mut rand::rngs::ThreadRng) -> (c: char)
    ensures
        is_alphanumeric(c),
{
    char::from(rng.sample(rand::distributions::Alphanumeric))
}

/// Calls `String::push`, which appends one character.
#[verifier::external_body]
fn push_char(s: &mut String, c: char)
    ensures
        final(s)@ == old(s)@.push(c),
{
    s.push(c)
}

/// A random text of `len` ASCII letters and digits.
pub fn random_token(len: usize) -> (res: String)
    ensures
        is_token_of_len(res@, len as nat),
{
    let mut rng = thread_rng();
    let mut token = String::new();
    let mut i: usize = 0;
    while i < len
        invariant
            i <= len,
            is_token_of_len(token@, i as nat),
        decreases len - i,
    {
        let c = sample_alphanumeric(&mut rng);
        push_char(&mut token, c);
        i = i + 1;
    }
    token
}

/// What the service must do next to give a user a session.
pub enum SessionAction {
    /// Look up the unexpired session of this user.
    FindActive(i32),
    /// Look up an unexpired session that holds this token.
    FindByToken(String),
    /// Store a new session for this user with this token, expiring the given
    /// number of microseconds from now, and report the stored row.
    Insert(i32, String, i64),
    /// Hand out this session; nothing is left to do.
    Done(Session),
}

/// What the last action found.
pub enum SessionEvent {
    /// The user's unexpired session, if there is one.
    Active(Option<Session>),
    /// The unexpired session holding the token that was looked up, if any.
    ByToken(Option<Session>),
    /// The row that was stored.
    Inserted(Session),
}

/// Where the creation of a session stands.
pub enum SessionPhase {
    /// Waiting for the user's unexpired session.
    FindingActive,
    /// Waiting to learn whether this token is taken.
    CheckingToken(String),
    /// Waiting for the row stored with this token.
    Inserting(String),
    /// The session was handed out.
    Finished,
}

/// One step of giving `user` a session: from `phase`, what the last action
/// found (`event`) leads to the next action and the next phase.
/// - an unexpired session of the user is handed out as it is;
/// - when the user has none, or when the token just looked up is taken, a
///   fresh session token is drawn and looked up;
/// - a token that no unexpired session holds is stored for the user;
/// - the stored row is handed out.
pub open spec fn moves(
    phase: SessionPhase,
    user: i32,
    event: SessionEvent,
    action: SessionAction,
    next: SessionPhase,
) -> bool {
    match (phase, event) {
        (SessionPhase::FindingActive, SessionEvent::Active(Some(s))) => {
            &&& action == SessionAction::Done(s)
            &&& next is Finished
        },
        (SessionPhase::FindingActive, SessionEvent::Active(None))
        | (SessionPhase::CheckingToken(_), SessionEvent::ByToken(Some(_))) => {
            &&& action matches SessionAction::FindByToken(t)
            &&& is_session_token(t@)
            &&& next matches SessionPhase::CheckingToken(u)
            &&& u@ == t@
        },
        (SessionPhase::CheckingToken(t), SessionEvent::ByToken(None)) => {
            &&& action matches SessionAction::Insert(uid, u, life)
            &&& uid == user
            &&& life == SESSION_LIFETIME_MICROS
            &&& u@ == t@
            &&& is_session_token(u@)
            &&& next matches SessionPhase::Inserting(v)
            &&& v@ == t@
        },
        (SessionPhase::Inserting(_), SessionEvent::Inserted(s)) => {
            &&& action == SessionAction::Done(s)
            &&& next is Finished
        },
        _ => false,
    }
}

/// Gives a user a session, one step at a time: a user who has an unexpired
/// session keeps it, so that one user holds one session; otherwise a fresh
/// random token is drawn until one is found that no unexpired session holds,
/// and a session with that token is stored.
pub struct SessionCreation {
    user_id: i32,
    phase: SessionPhase,
}

/// Starts giving `user_id` a session: the first action looks up the user's
/// unexpired session.
pub fn create_session(user_id: i32) -> (res: (SessionCreation, SessionAction))
    ensures
        res.0.user() == user_id,
        res.0.phase() is FindingActive,
        res.1 == SessionAction::FindActive(user_id),
{
    (SessionCreation { user_id, phase: SessionPhase::FindingActive }, SessionAction::FindActive(user_id))
}

impl SessionCreation {
    #[verifier::type_invariant]
    spec fn tokens_are_well_formed(&self) -> bool {
        match self.phase {
            SessionPhase::CheckingToken(t) => is_session_token(t@),
            SessionPhase::Inserting(t) => is_session_token(t@),
            _ => true,
        }
    }

    /// The user the session is made for.
    pub closed spec fn user(&self) -> i32 {
        self.user_id
    }

    /// Where the creation stands.
    pub closed spec fn phase(&self) -> SessionPhase {
        self.phase
    }

    /// Whether `event` answers the action that this creation asked for last.
    pub open spec fn expects(&self, event: SessionEvent) -> bool {
        match (self.phase(), event) {
            (SessionPhase::FindingActive, SessionEvent::Active(_)) => true,
            (SessionPhase::CheckingToken(_), SessionEvent::ByToken(_)) => true,
            (SessionPhase::Inserting(_), SessionEvent::Inserted(_)) => true,
            _ => false,
        }
    }

    /// Whether `event` answers the action that this creation asked for last.
    pub fn accepts(&self, event: &SessionEvent) -> (res: bool)
        ensures
            res == self.expects(*event),
    {
        match (&self.phase, event) {
            (SessionPhase::FindingActive, SessionEvent::Active(_)) => true,
            (SessionPhase::CheckingToken(_), SessionEvent::ByToken(_)) => true,
            (SessionPhase::Inserting(_), SessionEvent::Inserted(_)) => true,
            _ => false,
        }
    }

    /// Takes what the last action found and tells what to do next, as
    /// `moves` says; the fresh tokens it draws are random.
    pub fn step(&mut self, event: SessionEvent) -> (action: SessionAction)
        requires
            old(self).expects(event),
        ensures
            final(self).user() == old(self).user(),
            moves(old(self).phase(), old(self).user(), event, action, final(self).phase()),
    {
        proof {
            use_type_invariant(&*self);
        }
        let mut phase = SessionPhase::Finished;
        std::mem::swap(&mut phase, &mut self.phase);
        match (phase, event) {
            (SessionPhase::FindingActive, SessionEvent::Active(Some(s))) => SessionAction::Done(s),
            (SessionPhase::FindingActive, SessionEvent::Active(None))
            | (SessionPhase::CheckingToken(_), SessionEvent::ByToken(Some(_))) => {
                let token = random_token(TOKEN_LEN);
                let looked_up = token.clone();
                self.phase = SessionPhase::CheckingToken(token);
                SessionAction::FindByToken(looked_up)
            },
            (SessionPhase::CheckingToken(token), SessionEvent::ByToken(None)) => {
                let stored = token.clone();
                self.phase = SessionPhase::Inserting(token);
                SessionAction::Insert(self.user_id, stored, SESSION_LIFETIME_MICROS)
            },
            (SessionPhase::Inserting(_), SessionEvent::Inserted(s)) => SessionAction::Done(s),
            (other, _) => {
                self.phase = other;
                SessionAction::FindActive(self.user_id)
            },
        }
    }
}

/// The sessions table, seen as its unexpired rows, holds every token at most
/// once.
pub open spec fn tokens_distinct(table: Seq<Session>) -> bool {
    forall|i: int, j: int|
        0 <= i < table.len() && 0 <= j < table.len() && i != j ==> #[trigger] table[i].token@
            != #[trigger] table[j].token@
}

/// Every user holds at most one unexpired session.
pub open spec fn one_per_user(table: Seq<Session>) -> bool {
    forall|i: int, j: int|
        0 <= i < table.len() && 0 <= j < table.len() && i != j ==> #[trigger] table[i].user_id
            != #[trigger] table[j].user_id
}

/// Every row expires after `now`.
pub open spec fn unexpired(table: Seq<Session>, now: i64) -> bool {
    forall|i: int| 0 <= i < table.len() ==> #[trigger] table[i].expires_at > now
}

/// `user` holds an unexpired session.
pub open spec fn has_session(table: Seq<Session>, user: i32) -> bool {
    exists|i: int| 0 <= i < table.len() && #[trigger] table[i].user_id == user
}

/// An unexpired session holds `token`.
pub open spec fn holds_token(table: Seq<Session>, token: Seq<char>) -> bool {
    exists|i: int| 0 <= i < table.len() && #[trigger] table[i].token@ == token
}

/// A row of the table has this id.
pub open spec fn holds_id(table: Seq<Session>, id: i32) -> bool {
    exists|i: int| 0 <= i < table.len() && #[trigger] table[i].id == id
}

/// `event` is what a sessions table whose unexpired rows at the instant `now`
/// are `table` answers to `action`, and `after` is the table afterwards,
/// when nothing else writes to it: a look-up changes nothing and finds an
/// unexpired matching row or reports that there is none; a store adds the
/// row it reports, under a new id, expiring the asked lifetime after `now`.
pub open spec fn answers(
    table: Seq<Session>,
    now: i64,
    action: SessionAction,
    event: SessionEvent,
    after: Seq<Session>,
) -> bool {
    match action {
        SessionAction::FindActive(u) => after == table && match event {
            SessionEvent::Active(None) => !has_session(table, u),
            SessionEvent::Active(Some(s)) => s.user_id == u && s.expires_at > now && table.contains(s),
            _ => false,
        },
        SessionAction::FindByToken(t) => after == table && match event {
            SessionEvent::ByToken(None) => !holds_token(table, t@),
            SessionEvent::ByToken(Some(s)) => s.token@ == t@ && s.expires_at > now && table.contains(s),
            _ => false,
        },
        SessionAction::Insert(u, t, life) => match event {
            SessionEvent::Inserted(s) => {
                &&& s.user_id == u
                &&& s.token@ == t@
                &&& s.expires_at == now + life
                &&& !holds_id(table, s.id)
                &&& after == table.push(s)
            },
            _ => false,
        },
        SessionAction::Done(_) => false,
    }
}

/// A run of giving `user` a session against the sessions table, at the
/// instant `now`: the phases the creation passes through, the actions it
/// asks for, the events the table answers with, and the table before each
/// action. It starts as `create_session` does and moves as
/// `SessionCreation::step` does.
pub open spec fn is_run(
    user: i32,
    now: i64,
    phases: Seq<SessionPhase>,
    actions: Seq<SessionAction>,
    events: Seq<SessionEvent>,
    tables: Seq<Seq<Session>>,
) -> bool {
    &&& phases.len() == events.len() + 1
    &&& actions.len() == events.len() + 1
    &&& tables.len() == events.len() + 1
    &&& phases[0] is FindingActive
    &&& actions[0] == SessionAction::FindActive(user)
    &&& forall|k: int|
        0 <= k < events.len() ==> answers(tables[k], now, actions[k], #[trigger] events[k], tables[k + 1])
    &&& forall|k: int|
        0 <= k < events.len() ==> moves(phases[k], user, #[trigger] events[k], actions[k + 1], phases[k + 1])
}

/// The session a run hands out, against the table `start` it began with:
/// the user's, and either the unexpired one the user already held, with
/// nothing written, or, when the user held none, a new row holding a
/// session token that no unexpired session held, under a new id, expiring
/// `SESSION_LIFETIME_MICROS` after `now`, added as the one change.
pub open spec fn hands_out(user: i32, now: i64, start: Seq<Session>, s: Session, end: Seq<Session>) -> bool {
    &&& s.user_id == user
    &&& s.expires_at > now
    &&& {
        ||| end == start && start.contains(s)
        ||| {
            &&& end == start.push(s)
            &&& !has_session(start, user)
            &&& !holds_token(start, s.token@)
            &&& is_session_token(s.token@)
            &&& !holds_id(start, s.id)
            &&& s.expires_at == now + SESSION_LIFETIME_MICROS
        }
    }
}

/// Where a run stands, against the table `start` it began with.
spec fn run_stage(
    user: i32,
    now: i64,
    start: Seq<Session>,
    phase: SessionPhase,
    action: SessionAction,
    table: Seq<Session>,
) -> bool {
    match phase {
        SessionPhase::FindingActive => action == SessionAction::FindActive(user) && table == start,
        SessionPhase::CheckingToken(t) => {
            &&& action matches SessionAction::FindByToken(a)
            &&& a@ == t@
            &&& is_session_token(t@)
            &&& table == start
            &&& !has_session(start, user)
        },
        SessionPhase::Inserting(t) => {
            &&& action matches SessionAction::Insert(u, a, life)
            &&& u == user
            &&& a@ == t@
            &&& life == SESSION_LIFETIME_MICROS
            &&& is_session_token(t@)
            &&& table == start
            &&& !has_session(start, user)
            &&& !holds_token(start, t@)
        },
        SessionPhase::Finished => action matches SessionAction::Done(s) && hands_out(
            user,
            now,
            start,
            s,
            table,
        ),
    }
}

proof fn lemma_run_stage(
    user: i32,
    now: i64,
    phases: Seq<SessionPhase>,
    actions: Seq<SessionAction>,
    events: Seq<SessionEvent>,
    tables: Seq<Seq<Session>>,
    k: int,
)
    requires
        is_run(user, now, phases, actions, events, tables),
        0 <= k <= events.len(),
    ensures
        run_stage(user, now, tables[0], phases[k], actions[k], tables[k]),
    decreases k,
{
    if k > 0 {
        lemma_run_stage(user, now, phases, actions, events, tables, k - 1);
        let e = events[k - 1];
        assert(answers(tables[k - 1], now, actions[k - 1], e, tables[k]));
        assert(moves(phases[k - 1], user, e, actions[k], phases[k]));
    }
}

/// What `create_session` hands out: over a whole run against the sessions
/// table that ends by handing out a session `s`, `s` is as `hands_out` says.
pub proof fn lemma_create_session_hands_out(
    user: i32,
    now: i64,
    phases: Seq<SessionPhase>,
    actions: Seq<SessionAction>,
    events: Seq<SessionEvent>,
    tables: Seq<Seq<Session>>,
)
    requires
        is_run(user, now, phases, actions, events, tables),
        actions.last() is Done,
    ensures
        actions.last() matches SessionAction::Done(s) && hands_out(user, now, tables[0], s, tables.last()),
{
    lemma_run_stage(user, now, phases, actions, events, tables, events.len() as int);
}

/// `create_session` keeps the tokens of unexpired sessions distinct: a token
/// it adds is held by no unexpired session.
pub proof fn lemma_create_session_keeps_tokens_distinct(
    user: i32,
    now: i64,
    phases: Seq<SessionPhase>,
    actions: Seq<SessionAction>,
    events: Seq<SessionEvent>,
    tables: Seq<Seq<Session>>,
)
    requires
        is_run(user, now, phases, actions, events, tables),
        actions.last() is Done,
        tokens_distinct(tables[0]),
    ensures
        tokens_distinct(tables.last()),
{
    lemma_create_session_hands_out(user, now, phases, actions, events, tables);
    let start = tables[0];
    let end = tables.last();
    if let SessionAction::Done(s) = actions.last() {
        if end != start {
            assert forall|i: int, j: int|
                0 <= i < end.len() && 0 <= j < end.len() && i != j implies #[trigger] end[i].token@
                    != #[trigger] end[j].token@ by {
                if i < start.len() && j < start.len() {
                    assert(end[i] == start[i] && end[j] == start[j]);
                } else if i < start.len() {
                    assert(end[i] == start[i]);
                } else {
                    assert(end[j] == start[j]);
                }
            }
        }
    }
}

/// `create_session` keeps one unexpired session per user: it adds a session
/// only for a user who held none.
pub proof fn lemma_create_session_keeps_one_session_per_user(
    user: i32,
    now: i64,
    phases: Seq<SessionPhase>,
    actions: Seq<SessionAction>,
    events: Seq<SessionEvent>,
    tables: Seq<Seq<Session>>,
)
    requires
        is_run(user, now, phases, actions, events, tables),
        actions.last() is Done,
        one_per_user(tables[0]),
    ensures
        one_per_user(tables.last()),
{
    lemma_create_session_hands_out(user, now, phases, actions, events, tables);
    let start = tables[0];
    let end = tables.last();
    if let SessionAction::Done(s) = actions.last() {
        if end != start {
            assert forall|i: int, j: int|
                0 <= i < end.len() && 0 <= j < end.len() && i != j implies #[trigger] end[i].user_id
                    != #[trigger] end[j].user_id by {
                if i < start.len() && j < start.len() {
                    assert(end[i] == start[i] && end[j] == start[j]);
                } else if i < start.len() {
                    assert(end[i] == start[i]);
                } else {
                    assert(end[j] == start[j]);
                }
            }
        }
    }
}

/// `create_session` adds no expired row: every session it adds expires
/// seven days after `now`.
pub proof fn lemma_create_session_keeps_sessions_unexpired(
    user: i32,
    now: i64,
    phases: Seq<SessionPhase>,
    actions: Seq<SessionAction>,
    events: Seq<SessionEvent>,
    tables: Seq<Seq<Session>>,
)
    requires
        is_run(user, now, phases, actions, events, tables),
        actions.last() is Done,
        unexpired(tables[0], now),
    ensures
        unexpired(tables.last(), now),
{
    lemma_create_session_hands_out(user, now, phases, actions, events, tables);
    let start = tables[0];
    let end = tables.last();
    assert forall|i: int| 0 <= i < end.len() implies #[trigger] end[i].expires_at > now by {
        if i < start.len() {
            assert(end[i] == start[i]);
        }
    }
}

/// A user who holds an unexpired session gets that same session again from
/// `create_session`, and nothing is written: when `held` is the one
/// unexpired session of the user, a run that hands out a session hands out
/// `held` and leaves the table as it was.
pub proof fn lemma_repeated_create_session_hands_back_same_session(
    user: i32,
    now: i64,
    held: Session,
    phases: Seq<SessionPhase>,
    actions: Seq<SessionAction>,
    events: Seq<SessionEvent>,
    tables: Seq<Seq<Session>>,
)
    requires
        is_run(user, now, phases, actions, events, tables),
        actions.last() is Done,
        tables[0].contains(held),
        held.user_id == user,
        forall|i: int| 0 <= i < tables[0].len() && #[trigger] tables[0][i].user_id == user ==> tables[0][i] == held,
    ensures
        actions.last() == SessionAction::Done(held),
        tables.last() == tables[0],
{
    lemma_create_session_hands_out(user, now, phases, actions, events, tables);
    let start = tables[0];
    let j = choose|j: int| 0 <= j < start.len() && start[j] == held;
    assert(has_session(start, user)) by {
        assert(start[j].user_id == user);
    }
    if let SessionAction::Done(s) = actions.last() {
        let i = choose|i: int| 0 <= i < start.len() && start[i] == s;
        assert(start[i].user_id == user);
    }
}

} // verus!
