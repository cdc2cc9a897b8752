//! The session registry: bookkeeping of live pseudo-terminal sessions.
//!
//! The registry owns one record per session, keyed by a unique id. Each record
//! carries a control port (`PtyPort`) through which input is written and the
//! terminal is resized; the port itself is supplied by the caller.
use vstd::prelude::*;

verus! {

broadcast use vstd::string::group_string_axioms;

/// Failures of the session registry.
#[derive(Debug, Clone, Copy, PartialEq, Eq)]
pub enum PtyError {
    /// The pseudo-terminal could not be opened or the child could not start.
    SpawnFailure,
    /// No session is registered under the given id.
    SessionNotFound,
    /// Writing to, or resizing, a live session failed.
    IoFailure,
}

/// The control side of a pseudo-terminal: input and geometry.
pub trait PtyPort {
    /// Sends raw bytes to the terminal's input stream.
    fn write_input(&self, data: &str) -> Result<(), String>;

    /// Updates the terminal's reported size.
    fn set_size(&self, cols: u16, rows: u16) -> Result<(), String>;
}

/// What the registry records of one session.
pub struct SessionView {
    pub id: Seq<char>,
    pub agent_id: Seq<char>,
    pub cols: u16,
    pub rows: u16,
    pub alive: bool,
}

pub open spec fn new_session_view(id: Seq<char>, agent_id: Seq<char>, cols: u16, rows: u16) -> SessionView {
    SessionView { id, agent_id, cols, rows, alive: true }
}

/// No two records share an id.
pub open spec fn ids_unique(s: Seq<SessionView>) -> bool {
    forall|i: int, j: int| 0 <= i < j < s.len() ==> s[i].id != s[j].id
}

pub open spec fn has_id(s: Seq<SessionView>, id: Seq<char>) -> bool {
    exists|i: int| 0 <= i < s.len() && s[i].id == id
}

pub open spec fn mark_not_alive(v: SessionView) -> SessionView {
    SessionView { id: v.id, agent_id: v.agent_id, cols: v.cols, rows: v.rows, alive: false }
}

/// Killing `id`: the record with that id is no longer alive; nothing else changes.
pub open spec fn kill_session(s: Seq<SessionView>, id: Seq<char>) -> Seq<SessionView> {
    s.map_values(|v: SessionView| if v.id == id { mark_not_alive(v) } else { v })
}

/// A record appears exactly once in `s`, and it is `r`.
pub open spec fn holds_exactly_once(s: Seq<SessionView>, r: SessionView) -> bool {
    exists|i: int|
        0 <= i < s.len() && s[i] == r && (forall|j: int| 0 <= j < s.len() && s[j].id == r.id ==> j == i)
}

/// Registering a session under an id that is not yet registered keeps ids
/// unique, and the registry then holds exactly one record under that id: the
/// one registered, alive and with the requested geometry.
pub proof fn lemma_register_then_list(s: Seq<SessionView>, r: SessionView)
    requires
        ids_unique(s),
        !has_id(s, r.id),
    ensures
        ids_unique(s.push(r)),
        holds_exactly_once(s.push(r), r),
{
    let t = s.push(r);
    assert(t[s.len() as int] == r);
    assert forall|j: int| 0 <= j < t.len() && t[j].id == r.id implies j == s.len() by {
        if j < s.len() {
            assert(s[j].id == r.id);
        }
    };
}

/// Killing a session keeps ids unique and leaves every id, agent and
/// geometry as it was; killing it a second time changes nothing.
pub proof fn lemma_kill_idempotent(s: Seq<SessionView>, id: Seq<char>)
    requires
        ids_unique(s),
    ensures
        ids_unique(kill_session(s, id)),
        kill_session(s, id).len() == s.len(),
        forall|i: int| 0 <= i < s.len() ==> (#[trigger] kill_session(s, id)[i]).id == s[i].id
            && kill_session(s, id)[i].agent_id == s[i].agent_id
            && kill_session(s, id)[i].cols == s[i].cols
            && kill_session(s, id)[i].rows == s[i].rows,
        kill_session(kill_session(s, id), id) == kill_session(s, id),
{
    assert(kill_session(kill_session(s, id), id) =~= kill_session(s, id));
}

/// Killing an id that is not registered changes nothing, and the id stays
/// absent.
pub proof fn lemma_kill_unknown(s: Seq<SessionView>, id: Seq<char>)
    requires
        !has_id(s, id),
    ensures
        kill_session(s, id) == s,
        !has_id(kill_session(s, id), id),
{
    assert(kill_session(s, id) =~= s);
}

/// A session that is not alive stays registered and not alive: killing any
/// id and registering a fresh session leave its record as it is.
pub proof fn lemma_dead_stays_dead(s: Seq<SessionView>, i: int, id: Seq<char>, r: SessionView)
    requires
        0 <= i < s.len(),
        !s[i].alive,
        !has_id(s, r.id),
    ensures
        kill_session(s, id)[i] == s[i],
        s.push(r)[i] == s[i],
        kill_session(s.push(r), id)[i] == s[i],
{
}

/// Registering fresh sessions and killing them, in any order, keeps ids
/// unique: the registry never holds a duplicate entry.
pub proof fn lemma_ids_stay_unique(s: Seq<SessionView>, r: SessionView, id: Seq<char>)
    requires
        ids_unique(s),
        !has_id(s, r.id),
    ensures
        ids_unique(s.push(r)),
        ids_unique(kill_session(s, id)),
        ids_unique(kill_session(s.push(r), id)),
        !has_id(kill_session(s, id), r.id) && ids_unique(kill_session(s, id).push(r)),
{
    lemma_register_then_list(s, r);
    lemma_kill_idempotent(s, id);
    lemma_kill_idempotent(s.push(r), id);
    assert(!has_id(kill_session(s, id), r.id)) by {
        if has_id(kill_session(s, id), r.id) {
            let k = choose|k: int| 0 <= k < s.len() && kill_session(s, id)[k].id == r.id;
            assert(s[k].id == r.id);
        }
    };
    lemma_register_then_list(kill_session(s, id), r);
}

/// The port's answer as the library reports it: success stays success, and
/// any failure of the port is `IoFailure`.
pub fn port_outcome(r: Result<(), String>) -> (o: Result<(), PtyError>)
    ensures
        r is Ok <==> o is Ok,
        o is Err ==> o == Err::<(), PtyError>(PtyError::IoFailure),
{
    match r {
        Ok(()) => Ok(()),
        Err(_) => Err(PtyError::IoFailure),
    }
}

/// The characters of a hyphenated UUID: lower-case hexadecimal digits,
/// with hyphens at positions 8, 13, 18 and 23.
pub open spec fn is_hyphenated_uuid(s: Seq<char>) -> bool {
    &&& s.len() == 36
    &&& forall|i: int| 0 <= i < 36 ==> if i == 8 || i == 13 || i == 18 || i == 23 {
        #[trigger] s[i] == '-'
    } else {
        ('0' <= s[i] <= '9') || ('a' <= s[i] <= 'f')
    }
}

/// How many ids `spawn` draws before it gives up on finding a fresh one.
pub const ID_DRAWS: usize = 4;

/// Relies on uuid's `Uuid::new_v4` and its `Display`, which writes the
/// hyphenated form in lower case: 36 characters.
#[verifier::external_body]
fn new_session_id() -> (r: String)
    ensures
        is_hyphenated_uuid(r@),
{
    uuid::Uuid::new_v4().to_string()
}

/// One live session: its record and its control port.
pub struct PtySession<H> {
    pub id: String,
    pub agent_id: String,
    pub cols: u16,
    pub rows: u16,
    pub alive: bool,
    pub port: H,
}

impl<H> View for PtySession<H> {
    type V = SessionView;

    open spec fn view(&self) -> SessionView {
        SessionView {
            id: self.id@,
            agent_id: self.agent_id@,
            cols: self.cols,
            rows: self.rows,
            alive: self.alive,
        }
    }
}

impl<H> PtySession<H> {
    /// Marks the session not alive. The underlying process is left running.
    pub fn kill(&mut self)
        ensures
            final(self)@ == mark_not_alive(old(self)@),
            final(self).port == old(self).port,
    {
        self.alive = false;
    }
}

impl<H: PtyPort> PtySession<H> {
    /// Sends `data` to the session's input.
    pub fn write(&self, data: &str) -> (r: Result<(), PtyError>)
        ensures
            r is Ok || r == Err::<(), PtyError>(PtyError::IoFailure),
    {
        port_outcome(self.port.write_input(data))
    }

    /// Updates the terminal size of the session.
    pub fn resize(&self, cols: u16, rows: u16) -> (r: Result<(), PtyError>)
        ensures
            r is Ok || r == Err::<(), PtyError>(PtyError::IoFailure),
    {
        port_outcome(self.port.set_size(cols, rows))
    }
}

/// A snapshot of one session, as `list` reports it.
#[derive(Debug, Clone, PartialEq, Eq)]
pub struct SessionSummary {
    pub session_id: String,
    pub agent_id: String,
    pub alive: bool,
    pub cols: u16,
    pub rows: u16,
}

impl View for SessionSummary {
    type V = SessionView;

    open spec fn view(&self) -> SessionView {
        SessionView {
            id: self.session_id@,
            agent_id: self.agent_id@,
            cols: self.cols,
            rows: self.rows,
            alive: self.alive,
        }
    }
}

/// The registry of sessions.
pub struct PtyManager<H> {
    sessions: Vec<PtySession<H>>,
}

impl<H> PtyManager<H> {
    /// The records of the registered sessions, in order of registration.
    pub closed spec fn view(&self) -> Seq<SessionView> {
        self.sessions@.map_values(|s: PtySession<H>| s@)
    }

    pub open spec fn well_formed(&self) -> bool {
        ids_unique(self.view())
    }

    /// An empty registry.
    pub fn new() -> (r: Self)
        ensures
            r.view() == Seq::<SessionView>::empty(),
            r.well_formed(),
    {
        let r = PtyManager { sessions: Vec::new() };
        assert(r.view() =~= Seq::<SessionView>::empty());
        r
    }

    /// The position of the session registered under `id`, if any.
    fn position(&self, id: &str) -> (r: Option<usize>)
        requires
            self.well_formed(),
        ensures
            match r {
                Some(i) => i < self.view().len() && self.view()[i as int].id == id@,
                None => !has_id(self.view(), id@),
            },
    {
        let ghost v = self.view();
        let key = id.to_string();
        let mut i: usize = 0;
        while i < self.sessions.len()
            invariant
                v == self.view(),
                key@ == id@,
                v.len() == self.sessions@.len(),
                i <= v.len(),
                forall|k: int| 0 <= k < i ==> v[k].id != id@,
            decreases self.sessions@.len() - i,
        {
            assert(v[i as int] == self.sessions@[i as int]@);
            let same = self.sessions[i].id == key;
            if same {
                return Some(i);
            }
            i = i + 1;
        }
        None
    }

    /// The session registered under `id`.
    pub fn get(&self, id: &str) -> (r: Result<&PtySession<H>, PtyError>)
        requires
            self.well_formed(),
        ensures
            match r {
                Ok(s) => s.id@ == id@ && exists|i: int| 0 <= i < self.view().len() && self.view()[i] == s@,
                Err(e) => e == PtyError::SessionNotFound && !has_id(self.view(), id@),
            },
    {
        match self.position(id) {
            Some(i) => {
                assert(self.view()[i as int] == self.sessions@[i as int]@);
                Ok(&self.sessions[i])
            },
            None => Err(PtyError::SessionNotFound),
        }
    }

    /// Records a new live session under `id`, which is not yet registered.
    fn register(&mut self, id: String, agent_id: String, cols: u16, rows: u16, port: H)
        requires
            old(self).well_formed(),
            !has_id(old(self).view(), id@),
        ensures
            final(self).well_formed(),
            final(self).view() == old(self).view().push(new_session_view(id@, agent_id@, cols, rows)),
    {
        let ghost s = self.view();
        let ghost rec = new_session_view(id@, agent_id@, cols, rows);
        let session = PtySession { id, agent_id, cols, rows, alive: true, port };
        assert(session@ == rec);
        self.sessions.push(session);
        assert(self.view() =~= s.push(rec));
        proof {
            lemma_register_then_list(s, rec);
        }
    }

    /// Registers a new live session under a freshly generated id, never one
    /// that is or was registered, and returns that id. Where every draw
    /// clashes with a registered id the registry is left as it was and the
    /// spawn fails.
    pub fn spawn(&mut self, agent_id: String, cols: u16, rows: u16, port: H) -> (r: Result<String, PtyError>)
        requires
            old(self).well_formed(),
        ensures
            final(self).well_formed(),
            match r {
                Ok(id) => is_hyphenated_uuid(id@) && !has_id(old(self).view(), id@)
                    && final(self).view() == old(self).view().push(new_session_view(id@, agent_id@, cols, rows)),
                Err(e) => e == PtyError::SpawnFailure && final(self).view() == old(self).view(),
            },
    {
        let mut draw: usize = 0;
        while draw < ID_DRAWS
            invariant
                self.well_formed(),
                self.view() == old(self).view(),
            decreases ID_DRAWS - draw,
        {
            let id = new_session_id();
            if self.position(id.as_str()).is_none() {
                self.register(id.clone(), agent_id, cols, rows, port);
                return Ok(id);
            }
            draw = draw + 1;
        }
        Err(PtyError::SpawnFailure)
    }

    /// Marks the session registered under `id` not alive. An unknown id is
    /// ignored.
    pub fn kill(&mut self, id: &str)
        requires
            old(self).well_formed(),
        ensures
            final(self).well_formed(),
            final(self).view() == kill_session(old(self).view(), id@),
    {
        let ghost s = self.view();
        match self.position(id) {
            Some(i) => {
                self.sessions[i].alive = false;
                assert forall|k: int| 0 <= k < s.len() && s[k].id == id@ implies k == i as int by {
                    if k != i as int {
                        if k < i { assert(s[k].id != s[i as int].id); } else { assert(s[i as int].id != s[k].id); }
                    }
                };
                assert(self.view() =~= kill_session(s, id@));
            },
            None => {
                assert(self.view() =~= kill_session(s, id@));
            },
        }
    }

    /// A snapshot of every registered session, in order of registration.
    pub fn list(&self) -> (r: Vec<SessionSummary>)
        ensures
            r@.map_values(|x: SessionSummary| x@) == self.view(),
    {
        let mut r: Vec<SessionSummary> = Vec::new();
        let mut i: usize = 0;
        while i < self.sessions.len()
            invariant
                i <= self.sessions@.len(),
                r@.len() == i,
                r@.map_values(|x: SessionSummary| x@) =~= self.view().subrange(0, i as int),
            decreases self.sessions@.len() - i,
        {
            let s = &self.sessions[i];
            assert(self.view()[i as int] == s@);
            let ghost before = r@;
            r.push(SessionSummary {
                session_id: s.id.clone(),
                agent_id: s.agent_id.clone(),
                alive: s.alive,
                cols: s.cols,
                rows: s.rows,
            });
            assert(r@[i as int]@ == self.view()[i as int]);
            assert(r@ == before.push(r@[i as int]));
            i = i + 1;
            assert(r@.map_values(|x: SessionSummary| x@) =~= self.view().subrange(0, i as int));
        }
        assert(self.view().subrange(0, i as int) =~= self.view());
        r
    }
}

impl<H: PtyPort> PtyManager<H> {
    /// Sends `data` to the input of the session registered under `id`.
    pub fn write(&self, id: &str, data: &str) -> (r: Result<(), PtyError>)
        requires
            self.well_formed(),
        ensures
            r == Err::<(), PtyError>(PtyError::SessionNotFound) <==> !has_id(self.view(), id@),
            r is Err ==> r == Err::<(), PtyError>(PtyError::SessionNotFound) || r == Err::<(), PtyError>(PtyError::IoFailure),
    {
        match self.get(id) {
            Ok(s) => s.write(data),
            Err(e) => Err(e),
        }
    }

    /// Resizes the terminal of the session registered under `id`. The
    /// recorded geometry is left as it was at registration.
    pub fn resize(&self, id: &str, cols: u16, rows: u16) -> (r: Result<(), PtyError>)
        requires
            self.well_formed(),
        ensures
            r == Err::<(), PtyError>(PtyError::SessionNotFound) <==> !has_id(self.view(), id@),
            r is Err ==> r == Err::<(), PtyError>(PtyError::SessionNotFound) || r == Err::<(), PtyError>(PtyError::IoFailure),
    {
        match self.get(id) {
            Ok(s) => s.resize(cols, rows),
            Err(e) => Err(e),
        }
    }
}

} // verus!
