//! The handle ownership model.
//!
//! Every long-lived resource the boundary hands out — a session, or a
//! dependent resource declared against one (publisher, subscriber,
//! queryable, querier, liveliness token or subscriber) — occupies one slot
//! here, and every in-flight query another. A slot is never reused, so a
//! handle stays meaningful after its resource is destroyed: destroying it
//! again, or destroying a handle that was never issued, changes nothing.
//!
//! A session's underlying connection is shared: the session's own foreign
//! handle holds one reference to it, and every live dependent holds
//! another. The connection counts as alive while any of them remains, so a
//! dependent that outlives its session handle keeps the connection valid
//! until the dependent itself is destroyed.
//!
//! Queries are one-shot: a query is resolved — replied to or dropped —
//! exactly once, and a second resolution attempt changes nothing, so
//! repeated register/resolve cycles leave no live queries behind.

use vstd::prelude::*;

verus! {

/// The kinds of dependent resources that can be declared against a session.
#[derive(Clone, Copy, PartialEq, Eq, Structural, Debug)]
pub enum ResourceKind {
    Publisher,
    Subscriber,
    Queryable,
    Querier,
    LivelinessToken,
    LivelinessSubscriber,
}

/// One session's slot: whether its foreign handle is still undestroyed.
#[derive(Clone, Copy, PartialEq, Eq, Structural, Debug)]
pub struct SessionSlot {
    pub handle_live: bool,
}

/// One dependent resource's slot: the session it was declared against, its
/// kind, and whether it is still undestroyed.
#[derive(Clone, Copy, PartialEq, Eq, Structural, Debug)]
pub struct DependentSlot {
    pub session: usize,
    pub kind: ResourceKind,
    pub live: bool,
}

/// The registry of all handles the boundary has issued.
pub struct Registry {
    pub sessions: Vec<SessionSlot>,
    pub dependents: Vec<DependentSlot>,
    pub queries: Vec<bool>,
}

/// Destroying a session handle: the slot goes dead if it was live, and
/// nothing changes otherwise.
pub open spec fn spec_close_session(sessions: Seq<SessionSlot>, sid: int) -> Seq<SessionSlot> {
    if 0 <= sid < sessions.len() && sessions[sid].handle_live {
        sessions.update(sid, SessionSlot { handle_live: false })
    } else {
        sessions
    }
}

/// Declaring a dependent resource: a fresh live slot at the end.
pub open spec fn spec_declare_resource(
    deps: Seq<DependentSlot>,
    sid: usize,
    kind: ResourceKind,
) -> Seq<DependentSlot> {
    deps.push(DependentSlot { session: sid, kind, live: true })
}

/// Destroying a dependent resource: the slot goes dead if it was live, and
/// nothing changes otherwise.
pub open spec fn spec_undeclare_resource(deps: Seq<DependentSlot>, d: int) -> Seq<DependentSlot> {
    if 0 <= d < deps.len() && deps[d].live {
        deps.update(d, DependentSlot { session: deps[d].session, kind: deps[d].kind, live: false })
    } else {
        deps
    }
}

/// Resolving a query — replying to it or dropping it: the slot goes dead if
/// it was live, and nothing changes otherwise.
pub open spec fn spec_resolve_query(queries: Seq<bool>, q: int) -> Seq<bool> {
    if 0 <= q < queries.len() && queries[q] {
        queries.update(q, false)
    } else {
        queries
    }
}

/// Whether a session's underlying connection is still alive: its own
/// foreign handle, or any live dependent declared against it, still holds a
/// reference.
pub open spec fn spec_connection_alive(
    sessions: Seq<SessionSlot>,
    deps: Seq<DependentSlot>,
    sid: int,
) -> bool {
    &&& 0 <= sid < sessions.len()
    &&& (sessions[sid].handle_live || exists|d: int|
        0 <= d < deps.len() && (#[trigger] deps[d]).live && deps[d].session == sid)
}

/// The number of live dependents.
pub open spec fn spec_live_dependents(deps: Seq<DependentSlot>) -> nat
    decreases deps.len(),
{
    if deps.len() == 0 {
        0
    } else {
        spec_live_dependents(deps.drop_last()) + if deps.last().live {
            1nat
        } else {
            0nat
        }
    }
}

/// The number of live queries.
pub open spec fn spec_live_queries(queries: Seq<bool>) -> nat
    decreases queries.len(),
{
    if queries.len() == 0 {
        0
    } else {
        spec_live_queries(queries.drop_last()) + if queries.last() {
            1nat
        } else {
            0nat
        }
    }
}

impl Registry {
    /// Every dependent's slot names a session slot that exists.
    pub open spec fn spec_wf(&self) -> bool {
        forall|d: int|
            0 <= d < self.dependents@.len() ==> (#[trigger] self.dependents@[d]).session
                < self.sessions@.len()
    }

    /// An empty registry: no handle has been issued.
    pub fn new() -> (r: Registry)
        ensures
            r.sessions@.len() == 0,
            r.dependents@.len() == 0,
            r.queries@.len() == 0,
            r.spec_wf(),
    {
        Registry { sessions: Vec::new(), dependents: Vec::new(), queries: Vec::new() }
    }

    /// Issues the handle of a newly opened session, whose connection starts
    /// out referenced by that handle alone.
    pub fn open_session(&mut self) -> (sid: usize)
        requires
            old(self).spec_wf(),
        ensures
            final(self).spec_wf(),
            sid == old(self).sessions@.len(),
            final(self).sessions@ == old(self).sessions@.push(SessionSlot { handle_live: true }),
            final(self).dependents@ == old(self).dependents@,
            final(self).queries@ == old(self).queries@,
            spec_connection_alive(final(self).sessions@, final(self).dependents@, sid as int),
    {
        let sid = self.sessions.len();
        self.sessions.push(SessionSlot { handle_live: true });
        sid
    }

    /// Whether a session handle exists and is still undestroyed.
    pub fn session_handle_live(&self, sid: usize) -> (r: bool)
        ensures
            r == (sid < self.sessions@.len() && self.sessions@[sid as int].handle_live),
    {
        sid < self.sessions.len() && self.sessions[sid].handle_live
    }

    /// Destroys a session handle. Destroying one that is already destroyed,
    /// or was never issued, changes nothing and returns normally.
    pub fn close_session(&mut self, sid: usize)
        requires
            old(self).spec_wf(),
        ensures
            final(self).spec_wf(),
            final(self).sessions@ == spec_close_session(old(self).sessions@, sid as int),
            final(self).dependents@ == old(self).dependents@,
            final(self).queries@ == old(self).queries@,
    {
        if sid < self.sessions.len() {
            if self.sessions[sid].handle_live {
                self.sessions.set(sid, SessionSlot { handle_live: false });
            }
        }
    }

    /// Declares a dependent resource against a session: a fresh handle
    /// holding its own reference to the session's connection, issued only
    /// while the session handle is live.
    pub fn declare_resource(&mut self, sid: usize, kind: ResourceKind) -> (r: Option<usize>)
        requires
            old(self).spec_wf(),
        ensures
            final(self).spec_wf(),
            final(self).sessions@ == old(self).sessions@,
            final(self).queries@ == old(self).queries@,
            r is Some <==> sid < old(self).sessions@.len() && old(self).sessions@[sid as int].handle_live,
            r matches Some(d) ==> d == old(self).dependents@.len() && final(self).dependents@
                == spec_declare_resource(old(self).dependents@, sid, kind),
            r is None ==> final(self).dependents@ == old(self).dependents@,
    {
        if sid < self.sessions.len() && self.sessions[sid].handle_live {
            let d = self.dependents.len();
            self.dependents.push(DependentSlot { session: sid, kind, live: true });
            Some(d)
        } else {
            None
        }
    }

    /// Whether a dependent resource's handle exists and is still
    /// undestroyed.
    pub fn resource_live(&self, d: usize) -> (r: bool)
        ensures
            r == (d < self.dependents@.len() && self.dependents@[d as int].live),
    {
        d < self.dependents.len() && self.dependents[d].live
    }

    /// Destroys a dependent resource's handle, releasing its reference to
    /// the session's connection. Destroying one that is already destroyed,
    /// or was never issued, changes nothing and returns normally.
    pub fn undeclare_resource(&mut self, d: usize)
        requires
            old(self).spec_wf(),
        ensures
            final(self).spec_wf(),
            final(self).dependents@ == spec_undeclare_resource(old(self).dependents@, d as int),
            final(self).sessions@ == old(self).sessions@,
            final(self).queries@ == old(self).queries@,
    {
        if d < self.dependents.len() {
            if self.dependents[d].live {
                let slot = self.dependents[d];
                self.dependents.set(
                    d,
                    DependentSlot { session: slot.session, kind: slot.kind, live: false },
                );
            }
        }
    }

    /// Whether a session's underlying connection is still alive: its own
    /// handle or any live dependent still references it.
    pub fn connection_alive(&self, sid: usize) -> (r: bool)
        ensures
            r == spec_connection_alive(self.sessions@, self.dependents@, sid as int),
    {
        if sid >= self.sessions.len() {
            return false;
        }
        if self.sessions[sid].handle_live {
            return true;
        }
        let n = self.dependents.len();
        let mut d: usize = 0;
        while d < n
            invariant
                0 <= d <= n,
                n == self.dependents@.len(),
                sid < self.sessions@.len(),
                forall|j: int|
                    0 <= j < d ==> !((#[trigger] self.dependents@[j]).live
                        && self.dependents@[j].session == sid),
            decreases n - d,
        {
            if self.dependents[d].live && self.dependents[d].session == sid {
                proof {
                    assert(spec_connection_alive(self.sessions@, self.dependents@, sid as int))
                        by {
                        assert((self.dependents@[d as int]).live && self.dependents@[
                            d as int].session == sid);
                    }
                }
                return true;
            }
            d = d + 1;
        }
        false
    }

    /// Issues the handle of a newly received in-flight query, owed exactly
    /// one resolution.
    pub fn register_query(&mut self) -> (q: usize)
        ensures
            final(self).spec_wf() == old(self).spec_wf(),
            q == old(self).queries@.len(),
            final(self).queries@ == old(self).queries@.push(true),
            final(self).sessions@ == old(self).sessions@,
            final(self).dependents@ == old(self).dependents@,
    {
        let q = self.queries.len();
        self.queries.push(true);
        q
    }

    /// Whether a query handle exists and is still unresolved.
    pub fn query_live(&self, q: usize) -> (r: bool)
        ensures
            r == (q < self.queries@.len() && self.queries@[q as int]),
    {
        q < self.queries.len() && self.queries[q]
    }

    /// Resolves a query — the reply or the drop consumes it — and reports
    /// whether it was still unresolved. A second resolution, or resolving a
    /// handle that was never issued, changes nothing and reports false.
    pub fn resolve_query(&mut self, q: usize) -> (was_live: bool)
        ensures
            was_live == (q < old(self).queries@.len() && old(self).queries@[q as int]),
            final(self).queries@ == spec_resolve_query(old(self).queries@, q as int),
            final(self).sessions@ == old(self).sessions@,
            final(self).dependents@ == old(self).dependents@,
            final(self).spec_wf() == old(self).spec_wf(),
    {
        if q < self.queries.len() && self.queries[q] {
            self.queries.set(q, false);
            true
        } else {
            false
        }
    }

    /// The number of queries received and not yet resolved.
    pub fn live_query_count(&self) -> (c: usize)
        ensures
            c == spec_live_queries(self.queries@),
    {
        let n = self.queries.len();
        let mut c: usize = 0;
        let mut i: usize = 0;
        while i < n
            invariant
                0 <= i <= n,
                n == self.queries@.len(),
                c == spec_live_queries(self.queries@.take(i as int)),
                c <= i,
            decreases n - i,
        {
            proof {
                assert(self.queries@.take(i + 1).drop_last() =~= self.queries@.take(i as int));
                assert(self.queries@.take(i + 1).last() == self.queries@[i as int]);
            }
            if self.queries[i] {
                c = c + 1;
            }
            i = i + 1;
        }
        proof {
            assert(self.queries@.take(n as int) =~= self.queries@);
        }
        c
    }
}

/// Destroying a session handle is idempotent: a second destroy operation on
/// the same handle finds the slot already dead and changes nothing.
pub proof fn lemma_close_session_idempotent(sessions: Seq<SessionSlot>, sid: int)
    ensures
        spec_close_session(spec_close_session(sessions, sid), sid) == spec_close_session(
            sessions,
            sid,
        ),
{
}

/// Destroying a dependent resource's handle is idempotent: a second destroy
/// operation on the same handle finds the slot already dead and changes
/// nothing.
pub proof fn lemma_undeclare_resource_idempotent(deps: Seq<DependentSlot>, d: int)
    ensures
        spec_undeclare_resource(spec_undeclare_resource(deps, d), d) == spec_undeclare_resource(
            deps,
            d,
        ),
{
}

/// Resolving a query is one-shot: a second resolution of the same query
/// changes nothing.
pub proof fn lemma_resolve_query_idempotent(queries: Seq<bool>, q: int)
    ensures
        spec_resolve_query(spec_resolve_query(queries, q), q) == spec_resolve_query(queries, q),
{
}

/// A live dependent keeps its session's connection alive, and still does
/// after any session handle — its own session's included — is destroyed:
/// the dependent's own reference is enough.
pub proof fn lemma_dependent_keeps_connection(
    sessions: Seq<SessionSlot>,
    deps: Seq<DependentSlot>,
    d: int,
    sid: int,
)
    requires
        0 <= d < deps.len(),
        deps[d].live,
        deps[d].session < sessions.len(),
    ensures
        spec_connection_alive(sessions, deps, deps[d].session as int),
        spec_connection_alive(spec_close_session(sessions, sid), deps, deps[d].session as int),
{
    assert(spec_close_session(sessions, sid).len() == sessions.len());
}

/// Once a session handle and every dependent declared against that session
/// are destroyed, the session's connection is no longer alive: nothing
/// references it.
pub proof fn lemma_connection_released(
    sessions: Seq<SessionSlot>,
    deps: Seq<DependentSlot>,
    sid: int,
)
    requires
        0 <= sid < sessions.len(),
        !sessions[sid].handle_live,
        forall|d: int|
            0 <= d < deps.len() ==> !((#[trigger] deps[d]).live && deps[d].session == sid),
    ensures
        !spec_connection_alive(sessions, deps, sid),
{
}

/// Declaring a dependent resource and then destroying it leaves no dangling
/// registration: every handle issued before is exactly as it was, the new
/// handle is dead, the live census is back to what it was, and every
/// session's connection-aliveness is unchanged.
pub proof fn lemma_declare_then_undeclare_clean(
    sessions: Seq<SessionSlot>,
    deps: Seq<DependentSlot>,
    sid: usize,
    kind: ResourceKind,
)
    ensures
        ({
            let after = spec_undeclare_resource(
                spec_declare_resource(deps, sid, kind),
                deps.len() as int,
            );
            &&& after.len() == deps.len() + 1
            &&& forall|j: int| 0 <= j < deps.len() ==> after[j] == deps[j]
            &&& !after[deps.len() as int].live
            &&& spec_live_dependents(after) == spec_live_dependents(deps)
            &&& forall|s: int|
                spec_connection_alive(sessions, after, s) == spec_connection_alive(
                    sessions,
                    deps,
                    s,
                )
        }),
{
    let declared = spec_declare_resource(deps, sid, kind);
    let after = spec_undeclare_resource(declared, deps.len() as int);
    let dead = DependentSlot { session: sid, kind, live: false };
    assert(after =~= deps.push(dead));
    assert(after.drop_last() =~= deps);
    assert(spec_live_dependents(after) == spec_live_dependents(deps));
    assert forall|s: int|
        spec_connection_alive(sessions, after, s) == spec_connection_alive(
            sessions,
            deps,
            s,
        ) by {
        if spec_connection_alive(sessions, after, s) && !sessions[s].handle_live {
            let w = choose|d: int|
                0 <= d < after.len() && (#[trigger] after[d]).live && after[d].session == s;
            assert(w < deps.len() && deps[w] == after[w]);
        }
        if spec_connection_alive(sessions, deps, s) && !sessions[s].handle_live {
            let w = choose|d: int|
                0 <= d < deps.len() && (#[trigger] deps[d]).live && deps[d].session == s;
            assert(after[w] == deps[w]);
        }
    }
}

/// Registering a query and then resolving it leaves the live-query census
/// exactly where it was, and resolving it a second time changes nothing:
/// repeated receive/drop cycles cannot accumulate live queries.
pub proof fn lemma_query_cycle_is_leak_free(queries: Seq<bool>)
    ensures
        ({
            let resolved = spec_resolve_query(queries.push(true), queries.len() as int);
            &&& spec_live_queries(resolved) == spec_live_queries(queries)
            &&& spec_resolve_query(resolved, queries.len() as int) == resolved
        }),
{
    let resolved = spec_resolve_query(queries.push(true), queries.len() as int);
    assert(resolved =~= queries.push(false));
    assert(resolved.drop_last() =~= queries);
    lemma_resolve_query_idempotent(queries.push(true), queries.len() as int);
}

} // verus!
