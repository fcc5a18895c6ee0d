//! The decisions of the TCP sensor server: which connections it keeps, what
//! it does on each readiness event, and what it cleans up at the end of each
//! round of events. The sockets and the poller stay with the caller, which
//! performs the action each decision names and reports how it went.

use vstd::prelude::*;
use crate::connection::{Connection, Interest};
use crate::slab_calls::{
    slab_entries, slab_get, slab_insert, slab_keys, slab_len, slab_next_key, slab_set, slab_try_remove,
    slab_vacant_key, slab_with_capacity,
};

verus! {

/// The token of the listening socket, far above any connection's token.
pub const SERVER_TOKEN: usize = 10_000_000;

/// The most connections the server keeps at once.
pub const MAX_CONNECTIONS: usize = 512;

/// What the poller reported for a token.
#[derive(Clone, Copy, Debug, PartialEq, Eq, Structural)]
pub struct EventKind {
    /// Data can be read (or, on the server token, a client waits).
    pub readable: bool,
    /// Data can be written.
    pub writable: bool,
    /// The socket is in error.
    pub error: bool,
    /// The peer hung up.
    pub hup: bool,
}

/// How far the handling of one event has come: just begun, or back from the
/// write, the accept or the read that the last step asked for, with whether
/// the write or read succeeded.
#[derive(Clone, Copy, Debug, PartialEq, Eq, Structural)]
pub enum ReadyStage {
    Start,
    Written(bool),
    Accepted,
    Read(bool),
}

/// What the caller is to do next for the event.
#[derive(Clone, Copy, Debug, PartialEq, Eq, Structural)]
pub enum ReadyAction {
    /// The event is handled.
    Done,
    /// Accept new clients on the listening socket.
    Accept,
    /// Write to the connection.
    Write,
    /// Read from the connection.
    Read,
}

/// The connection under `t`, marked as reset.
pub open spec fn mark_reset_in(m: Map<usize, Connection>, t: usize) -> Map<usize, Connection> {
    m.insert(t, Connection { is_reset: true, ..m[t] })
}

/// The connection under `t`, marked as idle.
pub open spec fn mark_idle_in(m: Map<usize, Connection>, t: usize) -> Map<usize, Connection> {
    m.insert(t, Connection { is_idle: true, ..m[t] })
}

/// The end of an event: a connection is left idle, to be registered again.
pub open spec fn finish_ready(m: Map<usize, Connection>, server: usize, t: usize) -> (
    Map<usize, Connection>,
    ReadyAction,
) {
    if t != server {
        (mark_idle_in(m, t), ReadyAction::Done)
    } else {
        (m, ReadyAction::Done)
    }
}

/// The readable part of an event: accept on the server token, read on a
/// connection that is not reset; a reset connection ends the event at once.
pub open spec fn readable_phase(m: Map<usize, Connection>, server: usize, t: usize, ev: EventKind) -> (
    Map<usize, Connection>,
    ReadyAction,
) {
    if ev.readable {
        if t == server {
            (m, ReadyAction::Accept)
        } else if m[t].is_reset {
            (m, ReadyAction::Done)
        } else {
            (m, ReadyAction::Read)
        }
    } else {
        finish_ready(m, server, t)
    }
}

/// One step of handling an event for `t`: errors and hang-ups reset the
/// connection and end the event; a write comes before a read; a failed write
/// or read resets the connection.
pub open spec fn ready_step(
    m: Map<usize, Connection>,
    server: usize,
    t: usize,
    ev: EventKind,
    stage: ReadyStage,
) -> (Map<usize, Connection>, ReadyAction) {
    match stage {
        ReadyStage::Start => if ev.error || ev.hup {
            (mark_reset_in(m, t), ReadyAction::Done)
        } else if ev.writable {
            if m[t].is_reset {
                (m, ReadyAction::Done)
            } else {
                (m, ReadyAction::Write)
            }
        } else {
            readable_phase(m, server, t, ev)
        },
        ReadyStage::Written(ok) => readable_phase(
            if ok {
                m
            } else {
                mark_reset_in(m, t)
            },
            server,
            t,
            ev,
        ),
        ReadyStage::Accepted => finish_ready(m, server, t),
        ReadyStage::Read(ok) => finish_ready(
            if ok {
                m
            } else {
                mark_reset_in(m, t)
            },
            server,
            t,
        ),
    }
}

/// Keys in rising order, each once.
pub open spec fn strictly_rising(s: Seq<usize>) -> bool {
    forall|i: int, j: int| 0 <= i < j < s.len() ==> s[i] < s[j]
}

/// What the end of a round of events asks for: the reset connections to
/// drop, and the idle ones to register again, each in rising token order.
pub struct TickPlan {
    pub reset: Vec<usize>,
    pub reregister: Vec<usize>,
}

/// How registering `k` again went, in a round whose plan registers the
/// tokens `rereg` again with the outcomes `outcomes`: `None` when `k` was not
/// among them.
pub open spec fn outcome_of(rereg: Seq<usize>, outcomes: Seq<bool>, k: usize) -> Option<bool> {
    if exists|i: int| 0 <= i < rereg.len() && rereg[i] == k {
        Some(outcomes[choose|i: int| 0 <= i < rereg.len() && rereg[i] == k])
    } else {
        None
    }
}

/// The tokens under which nothing is found when `tokens` are removed one
/// after the other from a table with the keys `dom`.
pub open spec fn removal_misses(dom: Set<usize>, tokens: Seq<usize>) -> Seq<usize>
    decreases tokens.len(),
{
    if tokens.len() == 0 {
        Seq::empty()
    } else if dom.contains(tokens[0]) {
        removal_misses(dom.remove(tokens[0]), tokens.drop_first())
    } else {
        seq![tokens[0]] + removal_misses(dom, tokens.drop_first())
    }
}

/// A connection whose event has been handled is left either reset, to be
/// dropped at the end of the round, or idle, to be registered again; no
/// step adds or drops a connection.
pub proof fn lemma_handled_event_is_followed_up(
    m: Map<usize, Connection>,
    server: usize,
    t: usize,
    ev: EventKind,
    stage: ReadyStage,
)
    requires
        m.dom().contains(t),
        t != server,
    ensures
        ready_step(m, server, t, ev, stage).0.dom() == m.dom(),
        ready_step(m, server, t, ev, stage).1 == ReadyAction::Done ==> ready_step(
            m,
            server,
            t,
            ev,
            stage,
        ).0[t].is_reset || ready_step(m, server, t, ev, stage).0[t].is_idle,
{
    assert(mark_reset_in(m, t).dom() =~= m.dom());
    assert(mark_idle_in(m, t).dom() =~= m.dom());
    assert(mark_idle_in(mark_reset_in(m, t), t).dom() =~= m.dom());
}

/// An error or a hang-up on a connection, whatever else the event says,
/// ends the handling of the event at once and marks the connection reset, so
/// that the end of the round drops it; every other connection is left as it
/// was.
pub proof fn lemma_hangup_or_error_resets(
    m: Map<usize, Connection>,
    server: usize,
    t: usize,
    ev: EventKind,
)
    requires
        m.dom().contains(t),
        ev.error || ev.hup,
    ensures
        ready_step(m, server, t, ev, ReadyStage::Start).1 == ReadyAction::Done,
        ready_step(m, server, t, ev, ReadyStage::Start).0.dom() == m.dom(),
        ready_step(m, server, t, ev, ReadyStage::Start).0[t].is_reset,
        forall|k: usize| #![auto] k != t && m.dom().contains(k) ==> ready_step(
            m,
            server,
            t,
            ev,
            ReadyStage::Start,
        ).0[k] == m[k],
{
    assert(mark_reset_in(m, t).dom() =~= m.dom());
}

/// A connection is read from only on a readable event, only while it is not
/// reset, and, at the start of an event, only when the event carries neither
/// an error nor a hang-up; a write comes only at the start of a writable
/// event without error or hang-up; the listening socket accepts only on a
/// readable event.
pub proof fn lemma_read_and_accept_need_readable(
    m: Map<usize, Connection>,
    server: usize,
    t: usize,
    ev: EventKind,
    stage: ReadyStage,
)
    requires
        m.dom().contains(t),
    ensures
        ready_step(m, server, t, ev, stage).1 == ReadyAction::Read ==> t != server && ev.readable
            && !ready_step(m, server, t, ev, stage).0[t].is_reset,
        stage is Start && ready_step(m, server, t, ev, stage).1 == ReadyAction::Read ==> !ev.error
            && !ev.hup,
        ready_step(m, server, t, ev, stage).1 == ReadyAction::Accept ==> t == server && ev.readable,
        ready_step(m, server, t, ev, stage).1 == ReadyAction::Write ==> stage is Start && ev.writable
            && !ev.error && !ev.hup && !m[t].is_reset,
{
}

/// A newly accepted connection that the poller refuses leaves the table
/// as it was before the accept.
pub proof fn lemma_refused_registration_restores(m: Map<usize, Connection>, t: usize, c: Connection)
    requires
        !m.dom().contains(t),
    ensures
        m.insert(t, c).remove(t) == m,
{
    assert(m.insert(t, c).remove(t) =~= m);
}

/// Dropping every connection that is reset, and any others, leaves no
/// reset connection in the table.
pub proof fn lemma_dropping_resets_leaves_none(m: Map<usize, Connection>, tokens: Seq<usize>)
    requires
        forall|k: usize| #[trigger] m.dom().contains(k) && m[k].is_reset ==> tokens.contains(k),
    ensures
        forall|k: usize| #[trigger] m.remove_keys(tokens.to_set()).dom().contains(k) ==> !m.remove_keys(
            tokens.to_set(),
        )[k].is_reset,
{
    assert forall|k: usize| #[trigger] m.remove_keys(tokens.to_set()).dom().contains(k) implies !m.remove_keys(
        tokens.to_set(),
    )[k].is_reset by {
        assert(!tokens.to_set().contains(k));
        assert(!tokens.contains(k));
    }
}

/// What a sequence holds after a push: what it held, and the pushed value.
pub proof fn lemma_push_contains<A>(s: Seq<A>, a: A)
    ensures
        forall|x: A| #[trigger] s.push(a).contains(x) <==> s.contains(x) || x == a,
{
    assert forall|x: A| #[trigger] s.push(a).contains(x) <==> s.contains(x) || x == a by {
        if s.push(a).contains(x) {
            let j = choose|j: int| 0 <= j < s.push(a).len() && s.push(a)[j] == x;
            if j < s.len() {
                assert(s[j] == x);
            }
        }
        if s.contains(x) {
            let j = choose|j: int| 0 <= j < s.len() && s[j] == x;
            assert(s.push(a)[j] == x);
        }
        if x == a {
            assert(s.push(a)[s.len() as int] == x);
        }
    }
}

/// The server's table of accepted connections, keyed by their tokens.
pub struct BmosTcpServer {
    token: usize,
    conns: slab::Slab<Connection>,
}

impl View for BmosTcpServer {
    type V = Map<usize, Connection>;

    closed spec fn view(&self) -> Map<usize, Connection> {
        slab_entries(self.conns)
    }
}

impl BmosTcpServer {
    /// The token of the listening socket.
    pub closed spec fn server_token(&self) -> usize {
        self.token
    }

    /// The token that the next accepted connection gets.
    pub closed spec fn next_token(&self) -> usize {
        slab_next_key(self.conns)
    }

    /// The table is finite and holds at most `MAX_CONNECTIONS` connections,
    /// each kept under its own token and none under the server's token.
    pub open spec fn wf(&self) -> bool {
        &&& self@.dom().finite()
        &&& self@.len() <= MAX_CONNECTIONS
        &&& forall|k: usize| #[trigger] self@.dom().contains(k) ==> self@[k].token == k && k
            != self.server_token()
    }

    /// A server without connections.
    pub fn new() -> (r: BmosTcpServer)
        ensures
            r.wf(),
            r@ == Map::<usize, Connection>::empty(),
            r.server_token() == SERVER_TOKEN,
            r.next_token() == 0,
    {
        BmosTcpServer { token: SERVER_TOKEN, conns: slab_with_capacity(MAX_CONNECTIONS) }
    }

    /// The token of the listening socket.
    pub fn token(&self) -> (r: usize)
        ensures
            r == self.server_token(),
    {
        self.token
    }

    /// The number of connections kept.
    pub fn connection_count(&self) -> (r: usize)
        ensures
            r == self@.len(),
    {
        slab_len(&self.conns)
    }

    /// The connection under `token`, if there is one.
    pub fn connection(&self, token: usize) -> (r: Option<Connection>)
        ensures
            self@.dom().contains(token) ==> r == Some(self@[token]),
            !self@.dom().contains(token) ==> r is None,
    {
        slab_get(&self.conns, token)
    }

    /// The connection under `token`.
    pub fn find_connection_by_token(&self, token: usize) -> (r: Connection)
        requires
            self@.dom().contains(token),
        ensures
            r == self@[token],
    {
        slab_get(&self.conns, token).unwrap()
    }

    /// Makes room for a newly accepted client: a fresh connection under a
    /// free token, or `None` when the table is full.
    pub fn accept(&mut self) -> (r: Option<usize>)
        requires
            old(self).wf(),
        ensures
            final(self).wf(),
            final(self).server_token() == old(self).server_token(),
            r is None <==> old(self)@.len() >= MAX_CONNECTIONS || old(self).next_token()
                == old(self).server_token(),
            r is None ==> final(self)@ == old(self)@,
            r matches Some(t) ==> t == old(self).next_token() && !old(self)@.dom().contains(t)
                && final(self)@ == old(self)@.insert(
                t,
                Connection {
                    token: t,
                    interest: Interest { readable: false, hup: true },
                    is_idle: true,
                    is_reset: false,
                },
            ),
    {
        if slab_len(&self.conns) >= MAX_CONNECTIONS {
            return None;
        }
        let key = slab_vacant_key(&self.conns);
        if key == self.token {
            return None;
        }
        let c = Connection::new(key);
        let ghost before = self@;
        let t = slab_insert(&mut self.conns, c);
        assert(t == key);
        assert forall|k: usize| #[trigger] self@.dom().contains(k) implies self@[k].token == k && k
            != self.server_token() by {
            if k != t {
                assert(before.dom().contains(k));
            }
        }
        Some(t)
    }

    /// Records how the first registration of a newly accepted connection
    /// went; a connection the poller refused is dropped.
    pub fn connection_registered(&mut self, token: usize, registered: bool)
        requires
            old(self).wf(),
            old(self)@.dom().contains(token),
        ensures
            final(self).wf(),
            final(self).server_token() == old(self).server_token(),
            registered ==> final(self)@ == old(self)@.insert(
                token,
                Connection {
                    interest: Interest { readable: true, ..old(self)@[token].interest },
                    is_idle: false,
                    ..old(self)@[token]
                },
            ),
            !registered ==> final(self)@ == old(self)@.remove(token),
    {
        if registered {
            let mut c = self.find_connection_by_token(token);
            c.register(true);
            slab_set(&mut self.conns, token, c);
        } else {
            let _ = slab_try_remove(&mut self.conns, token);
        }
    }

    /// One step of handling the event `ev` reported for `token`, at `stage`:
    /// updates the connection and names what the caller is to do next.
    pub fn ready(&mut self, token: usize, ev: EventKind, stage: ReadyStage) -> (r: ReadyAction)
        requires
            old(self).wf(),
            token == old(self).server_token() || old(self)@.dom().contains(token),
            token == old(self).server_token() ==> !ev.error && !ev.hup && !ev.writable,
            token == old(self).server_token() ==> stage is Start || stage is Accepted,
        ensures
            final(self).wf(),
            final(self).server_token() == old(self).server_token(),
            (final(self)@, r) == ready_step(old(self)@, old(self).server_token(), token, ev, stage),
            final(self)@.dom() == old(self)@.dom(),
            forall|k: usize| #![auto] k != token && old(self)@.dom().contains(k) ==> final(self)@[k]
                == old(self)@[k],
            stage is Start && (ev.error || ev.hup) ==> r == ReadyAction::Done
                && final(self)@[token].is_reset,
            r == ReadyAction::Accept ==> token == old(self).server_token() && ev.readable,
            r == ReadyAction::Write ==> stage is Start && ev.writable && !ev.error && !ev.hup
                && !old(self)@[token].is_reset,
            r == ReadyAction::Read ==> token != old(self).server_token() && ev.readable
                && !final(self)@[token].is_reset,
            stage is Start && r == ReadyAction::Read ==> !ev.error && !ev.hup,
            stage == ReadyStage::Read(false) || stage == ReadyStage::Written(false)
                ==> final(self)@[token].is_reset,
    {
        match stage {
            ReadyStage::Start => {
                if ev.error || ev.hup {
                    self.mark_reset(token);
                    ReadyAction::Done
                } else if ev.writable {
                    if self.find_connection_by_token(token).is_reset() {
                        ReadyAction::Done
                    } else {
                        ReadyAction::Write
                    }
                } else {
                    self.readable_phase(token, ev)
                }
            },
            ReadyStage::Written(ok) => {
                if !ok {
                    self.mark_reset(token);
                }
                self.readable_phase(token, ev)
            },
            ReadyStage::Accepted => self.finish_ready(token),
            ReadyStage::Read(ok) => {
                if !ok {
                    self.mark_reset(token);
                }
                self.finish_ready(token)
            },
        }
    }

    fn readable_phase(&mut self, token: usize, ev: EventKind) -> (r: ReadyAction)
        requires
            old(self).wf(),
            token == old(self).server_token() || old(self)@.dom().contains(token),
        ensures
            final(self).wf(),
            final(self).server_token() == old(self).server_token(),
            (final(self)@, r) == readable_phase(old(self)@, old(self).server_token(), token, ev),
    {
        if ev.readable {
            if token == self.token {
                ReadyAction::Accept
            } else if self.find_connection_by_token(token).is_reset() {
                ReadyAction::Done
            } else {
                ReadyAction::Read
            }
        } else {
            self.finish_ready(token)
        }
    }

    fn finish_ready(&mut self, token: usize) -> (r: ReadyAction)
        requires
            old(self).wf(),
            token == old(self).server_token() || old(self)@.dom().contains(token),
        ensures
            final(self).wf(),
            final(self).server_token() == old(self).server_token(),
            (final(self)@, r) == finish_ready(old(self)@, old(self).server_token(), token),
    {
        if token != self.token {
            let mut c = self.find_connection_by_token(token);
            c.mark_idle();
            slab_set(&mut self.conns, token, c);
        }
        ReadyAction::Done
    }

    /// Marks the connection under `token` as reset.
    pub fn mark_reset(&mut self, token: usize)
        requires
            old(self).wf(),
            old(self)@.dom().contains(token),
        ensures
            final(self).wf(),
            final(self).server_token() == old(self).server_token(),
            final(self)@ == mark_reset_in(old(self)@, token),
    {
        let mut c = self.find_connection_by_token(token);
        c.mark_reset();
        slab_set(&mut self.conns, token, c);
    }

    /// What the end of a round of events is to do: which connections to
    /// drop and which to register again.
    pub fn tick(&self) -> (r: TickPlan)
        ensures
            strictly_rising(r.reset@),
            strictly_rising(r.reregister@),
            forall|k: usize|
                r.reset@.contains(k) <==> self@.dom().contains(k) && self@[k].is_reset,
            forall|k: usize|
                r.reregister@.contains(k) <==> self@.dom().contains(k) && !self@[k].is_reset
                    && self@[k].is_idle,
    {
        let keys = slab_keys(&self.conns);
        let n = keys.len();
        let mut reset: Vec<usize> = Vec::new();
        let mut rereg: Vec<usize> = Vec::new();
        let mut i: usize = 0;
        while i < n
            invariant
                i <= n,
                n == keys@.len(),
                forall|k: usize| keys@.contains(k) <==> self@.dom().contains(k),
                strictly_rising(keys@),
                forall|a: int, b: int|
                    0 <= a < reset@.len() && i <= b < n ==> #[trigger] reset@[a] < #[trigger] keys@[b],
                forall|a: int, b: int|
                    0 <= a < rereg@.len() && i <= b < n ==> #[trigger] rereg@[a] < #[trigger] keys@[b],
                strictly_rising(reset@),
                strictly_rising(rereg@),
                forall|k: usize|
                    reset@.contains(k) <==> keys@.take(i as int).contains(k) && self@.dom().contains(k)
                        && self@[k].is_reset,
                forall|k: usize|
                    rereg@.contains(k) <==> keys@.take(i as int).contains(k) && self@.dom().contains(k)
                        && !self@[k].is_reset && self@[k].is_idle,
            decreases n - i,
        {
            let k = keys[i];
            assert(keys@.contains(k));
            assert(keys@.take(i + 1) =~= keys@.take(i as int).push(k));
            let c = self.find_connection_by_token(k);
            let ghost old_reset = reset@;
            let ghost old_rereg = rereg@;
            if c.is_reset() {
                reset.push(k);
            } else if c.is_idle() {
                rereg.push(k);
            }
            proof {
                lemma_push_contains(keys@.take(i as int), k);
                lemma_push_contains(old_reset, k);
                lemma_push_contains(old_rereg, k);
            }
            i = i + 1;
        }
        assert(keys@.take(n as int) =~= keys@);
        TickPlan { reset, reregister: rereg }
    }

    /// Ends a round of events: records, for each connection the plan `plan`
    /// registers again, whether the poller accepted it (`outcomes`, in the
    /// plan's order), then drops every reset connection and every one the
    /// poller refused. Returns the dropped tokens in rising order.
    pub fn end_round(&mut self, plan: &TickPlan, outcomes: &Vec<bool>) -> (removed: Vec<usize>)
        requires
            old(self).wf(),
            strictly_rising(plan.reset@),
            strictly_rising(plan.reregister@),
            forall|k: usize|
                plan.reset@.contains(k) <==> old(self)@.dom().contains(k) && old(self)@[k].is_reset,
            forall|k: usize|
                plan.reregister@.contains(k) <==> old(self)@.dom().contains(k)
                    && !old(self)@[k].is_reset && old(self)@[k].is_idle,
            outcomes@.len() == plan.reregister@.len(),
        ensures
            final(self).wf(),
            final(self).server_token() == old(self).server_token(),
            forall|k: usize|
                final(self)@.dom().contains(k) <==> old(self)@.dom().contains(k) && !old(self)@[k].is_reset
                    && outcome_of(plan.reregister@, outcomes@, k) != Some(false),
            forall|k: usize| #[trigger]
                final(self)@.dom().contains(k) ==> final(self)@[k] == if outcome_of(
                    plan.reregister@,
                    outcomes@,
                    k,
                ) == Some(true) {
                    Connection { is_idle: false, ..old(self)@[k] }
                } else {
                    old(self)@[k]
                },
            forall|k: usize| #[trigger] final(self)@.dom().contains(k) ==> !final(self)@[k].is_reset,
            strictly_rising(removed@),
            forall|k: usize|
                removed@.contains(k) <==> old(self)@.dom().contains(k) && (old(self)@[k].is_reset
                    || outcome_of(plan.reregister@, outcomes@, k) == Some(false)),
    {
        let ghost start = self@;
        let ghost rereg = plan.reregister@;
        let n = plan.reregister.len();
        let mut i: usize = 0;
        while i < n
            invariant
                i <= n,
                n == rereg.len(),
                rereg == plan.reregister@,
                outcomes@.len() == n,
                self.wf(),
                self.server_token() == old(self).server_token(),
                start == old(self)@,
                strictly_rising(rereg),
                forall|k: usize|
                    rereg.contains(k) <==> start.dom().contains(k) && !start[k].is_reset
                        && start[k].is_idle,
                self@.dom() == start.dom(),
                forall|j: int|
                    0 <= j < i ==> #[trigger] self@[rereg[j]] == if outcomes@[j] {
                        Connection { is_idle: false, ..start[rereg[j]] }
                    } else {
                        Connection { is_reset: true, ..start[rereg[j]] }
                    },
                forall|k: usize|
                    #[trigger] self@.dom().contains(k) && !rereg.take(i as int).contains(k) ==> self@[k]
                        == start[k],
            decreases n - i,
        {
            let t = plan.reregister[i];
            let ok = outcomes[i];
            assert(rereg.contains(t));
            let ghost before = self@;
            self.reregistered(t, ok);
            proof {
                lemma_push_contains(rereg.take(i as int), t);
                assert(rereg.take(i + 1) =~= rereg.take(i as int).push(t));
                assert(self@.dom() =~= start.dom());
                assert forall|j: int| 0 <= j < i + 1 implies #[trigger] self@[rereg[j]] == if outcomes@[j] {
                    Connection { is_idle: false, ..start[rereg[j]] }
                } else {
                    Connection { is_reset: true, ..start[rereg[j]] }
                } by {
                    if j < i {
                        assert(rereg[j] < rereg[i as int]);
                    }
                }
                assert forall|k: usize|
                    #[trigger] self@.dom().contains(k) && !rereg.take(i + 1).contains(k) implies self@[k]
                    == start[k] by {
                    assert(rereg.take(i as int).push(t).contains(k) <==> rereg.take(i as int).contains(k)
                        || k == t);
                }
            }
            i = i + 1;
        }
        proof {
            assert(rereg.take(n as int) =~= rereg);
            assert forall|k: usize| #[trigger] self@.dom().contains(k) implies {
                &&& self@[k].is_reset <==> (start[k].is_reset || outcome_of(rereg, outcomes@, k) == Some(
                    false,
                ))
                &&& !self@[k].is_reset ==> self@[k] == if outcome_of(rereg, outcomes@, k) == Some(true) {
                    Connection { is_idle: false, ..start[k] }
                } else {
                    start[k]
                }
            } by {
                if exists|j: int| 0 <= j < rereg.len() && rereg[j] == k {
                    let j = choose|j: int| 0 <= j < rereg.len() && rereg[j] == k;
                    let c = choose|c: int| 0 <= c < rereg.len() && rereg[c] == k;
                    assert(c == j) by {
                        if c < j {
                            assert(rereg[c] < rereg[j]);
                        } else if j < c {
                            assert(rereg[j] < rereg[c]);
                        }
                    }
                } else {
                    assert(!rereg.contains(k));
                }
            }
        }
        let dropped = self.tick();
        let _ = self.remove_connections(&dropped.reset);
        proof {
            assert forall|k: usize| dropped.reset@.to_set().contains(k) <==> dropped.reset@.contains(k) by {}
        }
        dropped.reset
    }

    /// Records how registering the connection under `token` again went; one
    /// the poller refused is marked as reset.
    pub fn reregistered(&mut self, token: usize, registered: bool)
        requires
            old(self).wf(),
            old(self)@.dom().contains(token),
        ensures
            final(self).wf(),
            final(self).server_token() == old(self).server_token(),
            registered ==> final(self)@ == old(self)@.insert(
                token,
                Connection { is_idle: false, ..old(self)@[token] },
            ),
            !registered ==> final(self)@ == mark_reset_in(old(self)@, token),
    {
        let mut c = self.find_connection_by_token(token);
        c.reregister(registered);
        if !registered {
            c.mark_reset();
        }
        slab_set(&mut self.conns, token, c);
    }

    /// Drops the connections under `tokens`, one after the other, and
    /// returns the tokens under which it found nothing to drop.
    pub fn remove_connections(&mut self, tokens: &Vec<usize>) -> (missing: Vec<usize>)
        requires
            old(self).wf(),
        ensures
            final(self).wf(),
            final(self).server_token() == old(self).server_token(),
            final(self)@ == old(self)@.remove_keys(tokens@.to_set()),
            missing@ == removal_misses(old(self)@.dom(), tokens@),
    {
        let mut missing: Vec<usize> = Vec::new();
        let n = tokens.len();
        let mut i: usize = 0;
        let ghost start = self@;
        assert(tokens@.skip(0) =~= tokens@);
        assert(tokens@.take(0) =~= Seq::<usize>::empty());
        while i < n
            invariant
                i <= n,
                n == tokens@.len(),
                self.wf(),
                self.server_token() == old(self).server_token(),
                start == old(self)@,
                forall|k: usize|
                    self@.dom().contains(k) <==> start.dom().contains(k)
                        && !tokens@.take(i as int).contains(k),
                forall|k: usize| #[trigger] self@.dom().contains(k) ==> self@[k] == start[k],
                missing@ + removal_misses(self@.dom(), tokens@.skip(i as int)) == removal_misses(
                    start.dom(),
                    tokens@,
                ),
            decreases n - i,
        {
            let t = tokens[i];
            let ghost before = self@;
            assert(forall|k: usize|
                before.dom().contains(k) <==> start.dom().contains(k) && !tokens@.take(
                    i as int,
                ).contains(k));
            assert(tokens@.skip(i as int)[0] == t);
            assert(tokens@.skip(i as int).drop_first() =~= tokens@.skip(i + 1));
            assert(tokens@.take(i + 1) =~= tokens@.take(i as int).push(t));
            proof {
                lemma_push_contains(tokens@.take(i as int), t);
            }
            match slab_try_remove(&mut self.conns, t) {
                Some(_) => {
                    assert(self@.dom() =~= before.dom().remove(t));
                },
                None => {
                    missing.push(t);
                    assert(self@.dom() =~= before.dom());
                    assert(!before.dom().contains(t));
                    assert(missing@ + removal_misses(self@.dom(), tokens@.skip(i + 1)) =~= (missing@.drop_last()
                        + removal_misses(before.dom(), tokens@.skip(i as int))));
                },
            }
            assert forall|k: usize|
                self@.dom().contains(k) <==> start.dom().contains(k) && !tokens@.take(i + 1).contains(
                    k,
                ) by {
                assert(tokens@.take(i + 1) == tokens@.take(i as int).push(t));
                assert(tokens@.take(i as int).push(t).contains(k) <==> tokens@.take(i as int).contains(k)
                    || k == t);
                assert(before.dom().contains(k) <==> start.dom().contains(k) && !tokens@.take(
                    i as int,
                ).contains(k));
            }
            i = i + 1;
        }
        assert(tokens@.take(n as int) =~= tokens@);
        assert(tokens@.skip(n as int).len() == 0);
        assert(missing@ =~= removal_misses(start.dom(), tokens@));
        assert forall|k: usize| tokens@.to_set().contains(k) <==> tokens@.contains(k) by {}
        assert(self@.dom() =~= start.remove_keys(tokens@.to_set()).dom());
        assert(self@ =~= start.remove_keys(tokens@.to_set()));
        missing
    }
}

} // verus!
