//! The state that one connection shares between its tasks and its callers:
//! whether the session has ended, the next correlation id, and the table of
//! commands that still wait for a reply.
//!
//! Every operation is one short critical section under the session's lock,
//! so any interleaving of concurrent callers is a sequence of these
//! operations; the laws below hold of every such sequence.

use std::collections::BTreeMap;
use vstd::prelude::*;

verus! {

broadcast use vstd::std_specs::btree::group_btree_axioms;

/// What a session state holds, as mathematics.
pub struct SessionModel<S> {
    pub closed: bool,
    pub next_id: nat,
    pub pending: Map<u64, S>,
}

/// One critical section on the session state.
pub enum SessionOp<S> {
    /// Allocate an id for a command and record its completion sink.
    Begin(S),
    /// Take a command's entry out of the table: its reply came, its write
    /// failed, its deadline passed or its caller stopped waiting.
    Finish(u64),
    /// End the session: no command is accepted after it and every entry
    /// is handed back to be failed.
    ShutDown,
}

impl<S> SessionModel<S> {
    /// The state of a freshly connected session.
    pub open spec fn initial() -> Self {
        SessionModel { closed: false, next_id: 1, pending: Map::empty() }
    }

    /// Ids start at 1, and every outstanding id is below the counter.
    pub open spec fn inv(self) -> bool {
        &&& self.next_id >= 1
        &&& forall|id: u64| #[trigger] self.pending.contains_key(id) ==> 1 <= id < self.next_id
    }

    /// A command can be given an id: the session is open and the counter
    /// has not run out of 64-bit ids.
    pub open spec fn can_begin(self) -> bool {
        !self.closed && self.next_id < u64::MAX
    }

    pub open spec fn apply(self, op: SessionOp<S>) -> Self {
        match op {
            SessionOp::Begin(sink) => if self.can_begin() {
                SessionModel {
                    closed: self.closed,
                    next_id: self.next_id + 1,
                    pending: self.pending.insert(self.next_id as u64, sink),
                }
            } else {
                self
            },
            SessionOp::Finish(id) => SessionModel {
                closed: self.closed,
                next_id: self.next_id,
                pending: self.pending.remove(id),
            },
            SessionOp::ShutDown => SessionModel {
                closed: true,
                next_id: self.next_id,
                pending: Map::empty(),
            },
        }
    }

    /// The id that an operation hands out, if any.
    pub open spec fn issued(self, op: SessionOp<S>) -> Option<u64> {
        match op {
            SessionOp::Begin(_) => if self.can_begin() {
                Some(self.next_id as u64)
            } else {
                None
            },
            _ => None,
        }
    }

    /// The state after a sequence of operations.
    pub open spec fn run(self, ops: Seq<SessionOp<S>>) -> Self
        decreases ops.len(),
    {
        if ops.len() == 0 {
            self
        } else {
            self.run(ops.drop_last()).apply(ops.last())
        }
    }

    /// The ids handed out by a sequence of operations, in order.
    pub open spec fn issued_ids(self, ops: Seq<SessionOp<S>>) -> Seq<u64>
        decreases ops.len(),
    {
        if ops.len() == 0 {
            Seq::empty()
        } else {
            let before = self.issued_ids(ops.drop_last());
            match self.run(ops.drop_last()).issued(ops.last()) {
                Some(id) => before.push(id),
                None => before,
            }
        }
    }
}

/// Each operation keeps the invariant and never lowers the counter.
pub proof fn lemma_apply_inv<S>(m: SessionModel<S>, op: SessionOp<S>)
    requires
        m.inv(),
    ensures
        m.apply(op).inv(),
        m.apply(op).next_id >= m.next_id,
        m.apply(op).closed == (m.closed || op is ShutDown),
        match m.issued(op) {
            Some(id) => !m.pending.contains_key(id) && m.next_id == id && m.apply(op).next_id
                == id + 1,
            None => m.apply(op).next_id == m.next_id,
        },
{
}

proof fn lemma_run_facts<S>(m: SessionModel<S>, ops: Seq<SessionOp<S>>)
    requires
        m.inv(),
    ensures
        m.run(ops).inv(),
        m.run(ops).next_id >= m.next_id,
        forall|i: int| 0 <= i < m.issued_ids(ops).len() ==> m.next_id <= #[trigger] m.issued_ids(
            ops,
        )[i] < m.run(ops).next_id,
        forall|i: int, j: int|
            0 <= i < j < m.issued_ids(ops).len() ==> #[trigger] m.issued_ids(ops)[i]
                < #[trigger] m.issued_ids(ops)[j],
    decreases ops.len(),
{
    if ops.len() > 0 {
        let pre = ops.drop_last();
        lemma_run_facts(m, pre);
        let mid = m.run(pre);
        lemma_apply_inv(mid, ops.last());
        let before = m.issued_ids(pre);
        let after = m.issued_ids(ops);
        assert(m.run(ops) == mid.apply(ops.last()));
        match mid.issued(ops.last()) {
            Some(id) => {
                assert(after == before.push(id));
                assert forall|i: int| 0 <= i < after.len() implies m.next_id <= #[trigger] after[i]
                    < m.run(ops).next_id by {
                    if i < before.len() {
                        assert(after[i] == before[i]);
                    }
                }
                assert forall|i: int, j: int| 0 <= i < j < after.len() implies #[trigger] after[i]
                    < #[trigger] after[j] by {
                    assert(after[i] == before[i]);
                    if j < before.len() {
                        assert(after[j] == before[j]);
                    }
                }
            },
            None => {
                assert(after == before);
            },
        }
    }
}

/// Ids are strictly increasing over any sequence of operations, and an id
/// is never handed out while a command with that id is outstanding.
pub proof fn lemma_ids_strictly_increase<S>(m: SessionModel<S>, ops: Seq<SessionOp<S>>)
    requires
        m.inv(),
    ensures
        forall|i: int, j: int|
            0 <= i < j < m.issued_ids(ops).len() ==> #[trigger] m.issued_ids(ops)[i]
                < #[trigger] m.issued_ids(ops)[j],
        forall|k: int|
            0 <= k < ops.len() ==> match #[trigger] m.run(ops.take(k)).issued(ops[k]) {
                Some(id) => !m.run(ops.take(k)).pending.contains_key(id),
                None => true,
            },
{
    lemma_run_facts(m, ops);
    assert forall|k: int| 0 <= k < ops.len() implies match #[trigger] m.run(ops.take(k)).issued(
        ops[k],
    ) {
        Some(id) => !m.run(ops.take(k)).pending.contains_key(id),
        None => true,
    } by {
        lemma_run_facts(m, ops.take(k));
        lemma_apply_inv(m.run(ops.take(k)), ops[k]);
    }
}

/// Two outstanding commands do not affect each other: any sequence of
/// operations that neither finishes command `b` nor ends the session leaves
/// `b`'s entry, and so the sink its reply will reach, as it was.
pub proof fn lemma_requests_independent<S>(m: SessionModel<S>, ops: Seq<SessionOp<S>>, b: u64)
    requires
        m.inv(),
        m.pending.contains_key(b),
        forall|k: int| 0 <= k < ops.len() ==> #[trigger] ops[k] != SessionOp::<S>::Finish(b),
        forall|k: int| 0 <= k < ops.len() ==> !(#[trigger] ops[k] is ShutDown),
    ensures
        m.run(ops).pending.contains_key(b),
        m.run(ops).pending[b] == m.pending[b],
    decreases ops.len(),
{
    if ops.len() > 0 {
        let pre = ops.drop_last();
        assert forall|k: int| 0 <= k < pre.len() implies #[trigger] pre[k] != SessionOp::<
            S,
        >::Finish(b) && !(pre[k] is ShutDown) by {
            assert(pre[k] == ops[k]);
        }
        lemma_requests_independent(m, pre, b);
        lemma_run_facts(m, pre);
        assert(ops.last() == ops[ops.len() - 1]);
    }
}

/// Once the session has ended it stays ended: no later operation hands out
/// an id, and the table only shrinks.
pub proof fn lemma_closed_refuses<S>(m: SessionModel<S>, ops: Seq<SessionOp<S>>)
    requires
        m.closed,
    ensures
        m.run(ops).closed,
        m.issued_ids(ops) == Seq::<u64>::empty(),
        m.run(ops).pending.dom().subset_of(m.pending.dom()),
    decreases ops.len(),
{
    if ops.len() > 0 {
        lemma_closed_refuses(m, ops.drop_last());
    }
}

/// The operations of `sinks.len()` commands that each time out: every one
/// is given the next id, and then its entry is taken out again.
pub open spec fn timed_out_commands<S>(first_id: nat, sinks: Seq<S>) -> Seq<SessionOp<S>>
    decreases sinks.len(),
{
    if sinks.len() == 0 {
        Seq::empty()
    } else {
        timed_out_commands(first_id, sinks.drop_last()).push(SessionOp::Begin(sinks.last())).push(
            SessionOp::Finish((first_id + sinks.len() - 1) as u64),
        )
    }
}

/// Commands that time out leave nothing behind: after any number of them
/// the table is what it was before.
pub proof fn lemma_timeouts_leave_no_entries<S>(m: SessionModel<S>, sinks: Seq<S>)
    requires
        m.inv(),
        !m.closed,
        m.next_id + sinks.len() < u64::MAX,
    ensures
        m.run(timed_out_commands(m.next_id, sinks)).pending == m.pending,
        m.run(timed_out_commands(m.next_id, sinks)).next_id == m.next_id + sinks.len(),
        !m.run(timed_out_commands(m.next_id, sinks)).closed,
    decreases sinks.len(),
{
    if sinks.len() > 0 {
        let pre = sinks.drop_last();
        lemma_timeouts_leave_no_entries(m, pre);
        let pre_ops = timed_out_commands(m.next_id, pre);
        let id = (m.next_id + pre.len()) as u64;
        let ops1 = pre_ops.push(SessionOp::Begin(sinks.last()));
        let ops = timed_out_commands(m.next_id, sinks);
        assert(ops =~= ops1.push(SessionOp::Finish(id)));
        assert(ops.drop_last() =~= ops1);
        assert(ops1.drop_last() =~= pre_ops);
        lemma_run_facts(m, pre_ops);
        let mid = m.run(pre_ops);
        assert(mid.next_id == id);
        assert(!mid.pending.contains_key(id));
        assert(mid.pending.insert(id, sinks.last()).remove(id) =~= mid.pending);
        assert(m.run(ops1) == mid.apply(SessionOp::Begin(sinks.last())));
        assert(m.run(ops) == m.run(ops1).apply(SessionOp::Finish(id)));
    }
}

/// The state that a connection's tasks and callers share.
pub struct SessionState<S> {
    closed: bool,
    next_id: u64,
    pending: BTreeMap<u64, S>,
}

impl<S> View for SessionState<S> {
    type V = SessionModel<S>;

    closed spec fn view(&self) -> SessionModel<S> {
        SessionModel { closed: self.closed, next_id: self.next_id as nat, pending: self.pending@ }
    }
}

impl<S> SessionState<S> {
    pub closed spec fn wf(&self) -> bool {
        self@.inv()
    }

    pub fn new() -> (r: Self)
        ensures
            r.wf(),
            r@ == SessionModel::<S>::initial(),
    {
        let r = SessionState { closed: false, next_id: 1, pending: BTreeMap::new() };
        assert(r@.pending =~= Map::<u64, S>::empty());
        r
    }

    pub fn is_closed(&self) -> (r: bool)
        ensures
            r == self@.closed,
    {
        self.closed
    }

    /// The id the next accepted command will get.
    pub fn next_id(&self) -> (r: u64)
        ensures
            r == self@.next_id,
    {
        self.next_id
    }

    /// How many commands wait for a reply.
    pub fn pending_count(&self) -> (r: usize)
        ensures
            r == self@.pending.len(),
    {
        proof {
            broadcast use vstd::laws_cmp::group_laws_cmp;
        }
        self.pending.len()
    }

    /// Whether a command with this id waits for a reply.
    pub fn is_pending(&self, id: u64) -> (r: bool)
        ensures
            r == self@.pending.contains_key(id),
    {
        proof {
            broadcast use vstd::laws_cmp::group_laws_cmp;
        }
        self.pending.contains_key(&id)
    }

    /// Gives a command its id and records where its outcome goes; refused,
    /// with the state unchanged, once the session has ended.
    pub fn begin(&mut self, sink: S) -> (r: Option<u64>)
        requires
            old(self).wf(),
        ensures
            final(self).wf(),
            r == old(self)@.issued(SessionOp::Begin(sink)),
            final(self)@ == old(self)@.apply(SessionOp::Begin(sink)),
            r is Some <==> !old(self)@.closed && old(self)@.next_id < u64::MAX,
    {
        proof {
            broadcast use vstd::laws_cmp::group_laws_cmp;
        }
        let ghost pre = self@;
        let ghost op = SessionOp::Begin(sink);
        proof {
            lemma_apply_inv(pre, op);
        }
        if self.closed || self.next_id == u64::MAX {
            return None;
        }
        let id = self.next_id;
        self.pending.insert(id, sink);
        self.next_id = id + 1;
        assert(self@ == pre.apply(op));
        Some(id)
    }

    /// Takes a command's entry out of the table, handing back its sink if
    /// the entry was there.
    pub fn finish(&mut self, id: u64) -> (r: Option<S>)
        requires
            old(self).wf(),
        ensures
            final(self).wf(),
            final(self)@ == old(self)@.apply(SessionOp::Finish(id)),
            r == (if old(self)@.pending.contains_key(id) {
                Some(old(self)@.pending[id])
            } else {
                None
            }),
    {
        proof {
            broadcast use vstd::laws_cmp::group_laws_cmp;
        }
        let ghost pre = self@;
        proof {
            lemma_apply_inv(pre, SessionOp::Finish(id));
        }
        let r = self.pending.remove(&id);
        assert(self@ == pre.apply(SessionOp::Finish(id)));
        r
    }

    /// Ends the session and hands back every outstanding entry, so that
    /// each waiting caller can be failed.
    pub fn shut_down(&mut self) -> (r: BTreeMap<u64, S>)
        requires
            old(self).wf(),
        ensures
            final(self).wf(),
            final(self)@ == old(self)@.apply(SessionOp::ShutDown),
            r@ == old(self)@.pending,
    {
        self.closed = true;
        let mut r = BTreeMap::new();
        core::mem::swap(&mut self.pending, &mut r);
        assert(self@.pending =~= Map::<u64, S>::empty());
        r
    }
}

} // verus!
