//! The decisions of the connection's tasks and of a waiting caller, each a
//! function from the shared state and what just happened to the next state
//! and what to do. The tasks themselves only read, write and wait.

use crate::error::ApiCode;
use crate::error::ClientError;
use crate::frame::Envelope;
use crate::frame::OutboundItem;
use crate::frame::WSRequest;
use crate::frame::WSResponse;
use crate::session::SessionModel;
use crate::session::SessionOp;
use crate::session::SessionState;
use std::collections::BTreeMap;
use vstd::prelude::*;

verus! {

/// What the inbound task saw: a frame, the end of the connection, or the
/// handle's close signal, whichever came first.
pub enum Inbound<E> {
    /// A text frame whose envelope decoded.
    Text(Envelope<E>),
    /// A text frame whose envelope did not decode.
    Malformed(serde_json::Error),
    /// A keepalive ping and its payload.
    Ping(Vec<u8>),
    /// A close frame from the endpoint.
    Close,
    /// The end of the connection's frames.
    Ended,
    /// A failure to read from the connection.
    ReadFailed(async_tungstenite::tungstenite::Error),
    /// The handle asked for the session to end.
    CloseRequested,
    /// Any other frame: binary data, an unsolicited pong.
    Other,
}

/// What the inbound task does next.
pub enum Routing<E, S, C: ApiCode> {
    /// Hand a push event to the consumer.
    Forward(E),
    /// Resolve a waiting command through its sink.
    Deliver(S, WSResponse),
    /// Queue the echo of a keepalive ping for the outbound task.
    Echo(Vec<u8>),
    /// Nothing to do for this frame.
    Skip,
    /// End the session, reporting the failure to the consumer if there is one.
    Stop(Option<ClientError<C>>),
}

impl<E> Inbound<E> {
    /// Whether the inbound task ends on this.
    pub open spec fn ends_session(&self) -> bool {
        match self {
            Inbound::Malformed(_) | Inbound::Close | Inbound::Ended | Inbound::ReadFailed(_)
            | Inbound::CloseRequested => true,
            _ => false,
        }
    }

    /// The routing of what the inbound task saw, given the session's state.
    pub open spec fn route<S, C: ApiCode>(self, m: SessionModel<S>) -> Routing<E, S, C> {
        match self {
            Inbound::Text(Envelope::Event(e)) => Routing::Forward(e),
            Inbound::Text(Envelope::Response(resp)) => if m.pending.contains_key(resp.id) {
                Routing::Deliver(m.pending[resp.id], resp)
            } else {
                Routing::Skip
            },
            Inbound::Text(_) => Routing::Skip,
            Inbound::Malformed(err) => Routing::Stop(Some(ClientError::ResponseDecoding(err))),
            Inbound::Ping(payload) => Routing::Echo(payload),
            Inbound::Close => Routing::Stop(None),
            Inbound::Ended => Routing::Stop(None),
            Inbound::ReadFailed(err) => Routing::Stop(Some(ClientError::Websocket(err))),
            Inbound::CloseRequested => Routing::Stop(None),
            Inbound::Other => Routing::Skip,
        }
    }

    /// The session's state after the inbound task has handled this.
    pub open spec fn next_state<S>(self, m: SessionModel<S>) -> SessionModel<S> {
        match self {
            Inbound::Text(Envelope::Response(resp)) => m.apply(SessionOp::Finish(resp.id)),
            _ => if self.ends_session() {
                m.apply(SessionOp::ShutDown)
            } else {
                m
            },
        }
    }
}

impl<E, S, C: ApiCode> Routing<E, S, C> {
    /// What reaches the consumer's event sequence.
    pub open spec fn events(self) -> Seq<core::result::Result<E, ClientError<C>>> {
        match self {
            Routing::Forward(e) => seq![Ok(e)],
            Routing::Stop(Some(err)) => seq![Err(err)],
            _ => Seq::empty(),
        }
    }

    /// What is queued for the outbound task.
    pub open spec fn queued(self) -> Seq<OutboundItem> {
        match self {
            Routing::Echo(payload) => seq![OutboundItem::Pong(payload)],
            _ => Seq::empty(),
        }
    }
}

/// Handles one thing the inbound task saw: a reply takes its command's
/// entry out of the table, and the end of the session marks the state
/// closed and hands back every entry that still waits, to be failed with
/// `orphan_error`.
pub fn route_inbound<E, S, C: ApiCode>(state: &mut SessionState<S>, seen: Inbound<E>) -> (r: (
    Routing<E, S, C>,
    BTreeMap<u64, S>,
))
    requires
        old(state).wf(),
    ensures
        final(state).wf(),
        r.0 == seen.route::<S, C>(old(state)@),
        final(state)@ == seen.next_state(old(state)@),
        r.1@ == (if seen.ends_session() {
            old(state)@.pending
        } else {
            Map::<u64, S>::empty()
        }),
{
    let ghost pre = state@;
    let ghost seen_spec = seen;
    let no_orphans: BTreeMap<u64, S> = BTreeMap::new();
    match seen {
        Inbound::Text(Envelope::Event(e)) => (Routing::Forward(e), no_orphans),
        Inbound::Text(Envelope::Response(resp)) => match state.finish(resp.id) {
            Some(sink) => (Routing::Deliver(sink, resp), no_orphans),
            None => (Routing::Skip, no_orphans),
        },
        Inbound::Text(_) => (Routing::Skip, no_orphans),
        Inbound::Malformed(err) => {
            let orphans = state.shut_down();
            (Routing::Stop(Some(ClientError::ResponseDecoding(err))), orphans)
        },
        Inbound::Ping(payload) => (Routing::Echo(payload), no_orphans),
        Inbound::Close => {
            let orphans = state.shut_down();
            (Routing::Stop(None), orphans)
        },
        Inbound::Ended => {
            let orphans = state.shut_down();
            (Routing::Stop(None), orphans)
        },
        Inbound::ReadFailed(err) => {
            let orphans = state.shut_down();
            (Routing::Stop(Some(ClientError::Websocket(err))), orphans)
        },
        Inbound::CloseRequested => {
            let orphans = state.shut_down();
            (Routing::Stop(None), orphans)
        },
        Inbound::Other => (Routing::Skip, no_orphans),
    }
}

/// The error with which every command still waiting when the session ends
/// is failed, and with which a command that could no longer be queued for
/// the outbound task is failed.
pub open spec fn spec_orphan_error<C: ApiCode>(e: ClientError<C>) -> bool {
    e is WebsocketClosed
}

/// The outcome for a command that the session can no longer serve.
pub fn orphan_error<C: ApiCode>() -> (r: ClientError<C>)
    ensures
        spec_orphan_error(r),
{
    ClientError::WebsocketClosed
}

/// A keepalive ping is answered by exactly one echo carrying its payload;
/// it reaches no consumer, leaves the session as it was, and the inbound
/// task goes on reading.
pub proof fn lemma_ping_is_echoed_once<E, S, C: ApiCode>(m: SessionModel<S>, payload: Vec<u8>)
    ensures
        Inbound::<E>::Ping(payload).route::<S, C>(m).queued() == seq![OutboundItem::Pong(payload)],
        Inbound::<E>::Ping(payload).route::<S, C>(m).events() == Seq::<
            core::result::Result<E, ClientError<C>>,
        >::empty(),
        Inbound::<E>::Ping(payload).next_state(m) == m,
        !(Inbound::<E>::Ping(payload).route::<S, C>(m) is Stop),
{
}

/// When the inbound task ends, for whatever reason, the session is closed,
/// no entry is left waiting, and no later command is given an id.
pub proof fn lemma_end_fails_everything<E, S, C: ApiCode>(m: SessionModel<S>, seen: Inbound<E>)
    requires
        seen.ends_session(),
    ensures
        seen.route::<S, C>(m) is Stop,
        seen.next_state(m).closed,
        seen.next_state(m).pending == Map::<u64, S>::empty(),
        !seen.next_state(m).can_begin(),
{
}

/// Only a failure of the connection or of a frame's envelope reaches the
/// consumer, and each ends the session; every other frame keeps it going.
pub proof fn lemma_failures_end_the_sequence<E, S, C: ApiCode>(m: SessionModel<S>, seen: Inbound<E>)
    ensures
        forall|e: ClientError<C>| #[trigger] seen.route::<S, C>(m).events().contains(Err(e))
            ==> (e.is_transport() || e.is_decode()) && seen.ends_session(),
        seen.route::<S, C>(m) is Stop <==> seen.ends_session(),
{
    let r = seen.route::<S, C>(m);
    assert forall|e: ClientError<C>| #[trigger] r.events().contains(Err(e)) implies (e.is_transport()
        || e.is_decode()) && seen.ends_session() by {
        let ev = r.events();
        let i = choose|i: int| 0 <= i < ev.len() && ev[i] == Err::<E, ClientError<C>>(e);
        assert(ev.len() == 1);
    }
}

/// A reply reaches the sink of the command with its id and no other, and
/// a reply for an id that no longer waits is dropped.
pub proof fn lemma_reply_reaches_its_command<E, S, C: ApiCode>(
    m: SessionModel<S>,
    resp: WSResponse,
)
    ensures
        match Inbound::<E>::Text(Envelope::Response(resp)).route::<S, C>(m) {
            Routing::Deliver(sink, r) => m.pending.contains_key(resp.id) && sink == m.pending[resp.id]
                && r == resp,
            Routing::Skip => !m.pending.contains_key(resp.id),
            _ => false,
        },
        Inbound::<E>::Text(Envelope::Response(resp)).next_state(m).pending == m.pending.remove(
            resp.id,
        ),
        Inbound::<E>::Text(Envelope::Response(resp)).route::<S, C>(m).events() == Seq::<
            core::result::Result<E, ClientError<C>>,
        >::empty(),
{
}

/// Accepts a command into the session: gives it the next id and records
/// its sink, or fails at once, without queuing anything, once the session
/// has ended.
pub fn begin_command<S, C: ApiCode>(state: &mut SessionState<S>, req: WSRequest, sink: S) -> (r:
    core::result::Result<WSRequest, ClientError<C>>)
    requires
        old(state).wf(),
    ensures
        final(state).wf(),
        final(state)@ == old(state)@.apply(SessionOp::Begin(sink)),
        match r {
            Ok(sent) => old(state)@.can_begin() && sent.id == Some(old(state)@.next_id as u64)
                && sent.method == req.method && sent.params == req.params && sent.timeout
                == req.timeout,
            Err(e) => !old(state)@.can_begin() && e is WebsocketClosed,
        },
{
    match state.begin(sink) {
        Some(id) => {
            let mut sent = req;
            sent.id = Some(id);
            Ok(sent)
        },
        None => Err(ClientError::WebsocketClosed),
    }
}

/// The outbound task could not write a command: its entry is taken out of
/// the table and its sink handed back, to be failed with the write error.
pub fn fail_command<S>(state: &mut SessionState<S>, req: &WSRequest) -> (r: Option<S>)
    requires
        old(state).wf(),
    ensures
        final(state).wf(),
        match req.id {
            Some(id) => final(state)@ == old(state)@.apply(SessionOp::Finish(id)) && r == (if old(
                state,
            )@.pending.contains_key(id) {
                Some(old(state)@.pending[id])
            } else {
                None
            }),
            None => final(state)@ == old(state)@ && r is None,
        },
{
    match req.id {
        Some(id) => state.finish(id),
        None => None,
    }
}

/// How a caller's wait for a reply ended.
pub enum WaitEnd<R> {
    /// The sink was resolved: by the reply, or by a failure to write.
    Resolved(R),
    /// The sink was dropped without being resolved.
    SinkDropped,
    /// The command's deadline passed first.
    DeadlineElapsed,
}

/// Settles a caller's wait. A resolved sink gives its outcome, its entry
/// having been taken out by whoever resolved it; otherwise the entry is
/// taken out here, so that no path leaves it behind.
pub fn settle_wait<S, C: ApiCode>(
    state: &mut SessionState<S>,
    id: u64,
    end: WaitEnd<core::result::Result<WSResponse, ClientError<C>>>,
) -> (r: core::result::Result<WSResponse, ClientError<C>>)
    requires
        old(state).wf(),
    ensures
        final(state).wf(),
        match end {
            WaitEnd::Resolved(outcome) => r == outcome && final(state)@ == old(state)@,
            WaitEnd::SinkDropped => r matches Err(e) && e is WebsocketRequestCancelled
                && final(state)@ == old(state)@.apply(SessionOp::Finish(id)),
            WaitEnd::DeadlineElapsed => r matches Err(e) && e is WebsocketRequestTimeout
                && final(state)@ == old(state)@.apply(SessionOp::Finish(id)),
        },
        !final(state)@.pending.contains_key(id) || end is Resolved,
        !(end is Resolved) ==> (r matches Err(e) && e.is_request_level()),
{
    match end {
        WaitEnd::Resolved(outcome) => outcome,
        WaitEnd::SinkDropped => {
            let _ = state.finish(id);
            Err(ClientError::WebsocketRequestCancelled)
        },
        WaitEnd::DeadlineElapsed => {
            let _ = state.finish(id);
            Err(ClientError::WebsocketRequestTimeout)
        },
    }
}

} // verus!
