use vstd::prelude::*;

use crate::error::ClientError;
use crate::protocol::{
    action_msg, subscription_msg, ActionResponse, Error, Event, Init, SubscriptionRequest,
    ToClient, ToClientBody, ToServer, ToServerBody,
};

verus! {

/// What becomes of an outbound envelope handed to the session.
pub enum Outbound {
    /// A session is open: hand the envelope to the driver now.
    Send(ToServer),
    /// No session is open: the envelope waits in the outbound queue.
    Queued,
    /// No session is open and the envelope is ephemeral: it is discarded.
    Dropped,
}

/// What the caller must do with one inbound envelope.
pub enum Dispatch {
    /// The session opened: send these envelopes, in this order.
    Opened(Vec<ToServer>),
    /// Complete the waiter of action `id` with a success.
    Fulfil { id: u64, response: ActionResponse },
    /// Complete the waiter of action `id` with a failure.
    Fail { id: u64, error: Error },
    /// A reply for an action that has no waiter; it is ignored.
    Unmatched { id: u64 },
    /// Hand the event to the callbacks registered for its name.
    Event(Event),
    /// An error of the connection as a whole; no waiter is affected.
    ConnectionError(Error),
}

/// The next move of the reconnect loop.
#[derive(Debug, Clone, Copy, PartialEq, Eq, Structural)]
pub enum LoopStep {
    /// Try again with a fresh backoff.
    Restart,
    /// Wait on the current backoff, then try again.
    Wait,
    /// Leave the loop for good.
    Stop,
}

/// Which of the waits of the reconnect loop ended first.
#[derive(Debug, Clone, Copy, PartialEq, Eq, Structural)]
pub enum WaitOutcome {
    BackoffElapsed,
    Disconnected,
    Shutdown,
}

/// The abstract state of a session.
pub ghost struct SessionView {
    pub next_id: u64,
    pub in_flight: Set<u64>,
    pub queue: Seq<ToServer>,
    pub subscriptions: Seq<Seq<char>>,
    pub actor_id: Option<Seq<char>>,
    pub connection_id: Option<Seq<char>>,
    pub connection_token: Option<Seq<char>>,
    pub attached: bool,
    pub open: bool,
    pub disconnecting: bool,
}

pub open spec fn opt_view(o: Option<String>) -> Option<Seq<char>> {
    match o {
        Some(s) => Some(s@),
        None => None,
    }
}

/// `m` asks the server to send event `name`.
pub open spec fn is_subscribe_to(m: ToServer, name: Seq<char>) -> bool {
    match m.body {
        ToServerBody::SubscriptionRequest(r) => r.event_name@ == name && r.subscribe,
        _ => false,
    }
}

/// Subscription requests are ephemeral: they are never queued.
pub open spec fn ephemeral(m: ToServer) -> bool {
    m.body is SubscriptionRequest
}

/// How `send_msg` moves from `pre` to `post` on `msg`, returning `r`.
pub open spec fn routed(pre: SessionView, post: SessionView, msg: ToServer, r: Outbound) -> bool {
    if pre.open {
        r == Outbound::Send(msg) && post == pre
    } else if !ephemeral(msg) {
        r is Queued && post == (SessionView { queue: pre.queue.push(msg), ..pre })
    } else {
        r is Dropped && post == pre
    }
}

/// The envelopes sent when a session opens: one subscription request per
/// subscribed name, in registration order, then the queued envelopes in
/// insertion order.
pub open spec fn open_output(out: Seq<ToServer>, subs: Seq<Seq<char>>, queue: Seq<ToServer>) -> bool {
    &&& out.len() == subs.len() + queue.len()
    &&& forall|k: int| 0 <= k < subs.len() ==> is_subscribe_to(#[trigger] out[k], subs[k])
    &&& out.subrange(subs.len() as int, out.len() as int) == queue
}

/// How the session moves from `pre` to `post` on `Init` handing out `out`.
pub open spec fn opened(pre: SessionView, post: SessionView, init: Init, out: Seq<ToServer>) -> bool {
    &&& post == (SessionView {
        queue: Seq::empty(),
        actor_id: Some(init.actor_id@),
        connection_id: Some(init.connection_id@),
        connection_token: Some(init.connection_token@),
        attached: true,
        open: true,
        ..pre
    })
    &&& open_output(out, pre.subscriptions, pre.queue)
}

/// How a reply to action `id` moves the session: the waiter of `id`, if
/// there is one, is removed and completed; no other waiter is touched.
pub open spec fn replied(pre: SessionView, post: SessionView, id: u64, hit: Dispatch, r: Dispatch) -> bool {
    if pre.in_flight.contains(id) {
        r == hit && post == (SessionView { in_flight: pre.in_flight.remove(id), ..pre })
    } else {
        r == (Dispatch::Unmatched { id }) && post == pre
    }
}

/// How `on_message` moves the session from `pre` to `post` on `msg`, returning `r`.
pub open spec fn dispatched(pre: SessionView, post: SessionView, msg: ToClient, r: Dispatch) -> bool {
    match msg.body {
        ToClientBody::Init(init) => r is Opened && opened(pre, post, init, r->Opened_0@),
        ToClientBody::ActionResponse(a) => replied(
            pre,
            post,
            a.id,
            Dispatch::Fulfil { id: a.id, response: a },
            r,
        ),
        ToClientBody::Error(e) => match e.action_id {
            Some(id) => replied(pre, post, id, Dispatch::Fail { id, error: e }, r),
            None => r == Dispatch::ConnectionError(e) && post == pre,
        },
        ToClientBody::Event(ev) => r == Dispatch::Event(ev) && post == pre,
    }
}

/// The state of one connection from the caller's point of view: request ids,
/// actions awaiting a reply, the outbound queue, event subscriptions and the
/// resumption credentials of the last session.
pub struct Session {
    next_id: u64,
    in_flight: Vec<u64>,
    queue: Vec<ToServer>,
    subscriptions: Vec<String>,
    actor_id: Option<String>,
    connection_id: Option<String>,
    connection_token: Option<String>,
    attached: bool,
    open: bool,
    disconnecting: bool,
}

impl View for Session {
    type V = SessionView;

    closed spec fn view(&self) -> SessionView {
        SessionView {
            next_id: self.next_id,
            in_flight: self.in_flight@.to_set(),
            queue: self.queue@,
            subscriptions: self.subscriptions@.map_values(|s: String| s@),
            actor_id: opt_view(self.actor_id),
            connection_id: opt_view(self.connection_id),
            connection_token: opt_view(self.connection_token),
            attached: self.attached,
            open: self.open,
            disconnecting: self.disconnecting,
        }
    }
}

/// Whether `m` is an ephemeral envelope.
pub fn is_ephemeral(m: &ToServer) -> (r: bool)
    ensures
        r == ephemeral(*m),
{
    match m.body {
        ToServerBody::SubscriptionRequest(_) => true,
        _ => false,
    }
}

/// What an action returns once its waiter completed (`Some`) or was dropped
/// unanswered (`None`): the CBOR output, the server's error, or `SocketClosed`.
pub fn action_outcome(reply: Option<Result<ActionResponse, Error>>) -> (r: Result<Vec<u8>, ClientError>)
    ensures
        reply is None ==> r == Err::<Vec<u8>, ClientError>(ClientError::SocketClosed),
        forall|a: ActionResponse| reply == Some(Ok::<ActionResponse, Error>(a)) ==> r == Ok::<Vec<u8>, ClientError>(a.output),
        forall|e: Error| reply == Some(Err::<ActionResponse, Error>(e)) ==> r == Err::<Vec<u8>, ClientError>(
            ClientError::Rpc { group: e.group, code: e.code, message: e.message, metadata: e.metadata },
        ),
{
    match reply {
        None => Err(ClientError::SocketClosed),
        Some(Ok(a)) => Ok(a.output),
        Some(Err(e)) => Err(
            ClientError::Rpc { group: e.group, code: e.code, message: e.message, metadata: e.metadata },
        ),
    }
}

/// The move of the reconnect loop once one of its waits ended.
pub fn after_wait(w: WaitOutcome) -> (r: LoopStep)
    ensures
        r == (if w == WaitOutcome::BackoffElapsed { LoopStep::Wait } else { LoopStep::Stop }),
{
    match w {
        WaitOutcome::BackoffElapsed => LoopStep::Wait,
        _ => LoopStep::Stop,
    }
}

impl Session {
    /// Request ids are strictly increasing and below the next id; subscribed
    /// names are distinct; a session is open only on an attached driver.
    pub closed spec fn wf(&self) -> bool {
        &&& forall|i: int, j: int|
            0 <= i < j < self.in_flight@.len() ==> self.in_flight@[i] < self.in_flight@[j]
        &&& forall|i: int| 0 <= i < self.in_flight@.len() ==> self.in_flight@[i] < self.next_id
        &&& self.subscriptions@.map_values(|s: String| s@).no_duplicates()
        &&& self.open ==> self.attached
        &&& forall|i: int| 0 <= i < self.queue@.len() ==> !ephemeral(#[trigger] self.queue@[i])
    }

    /// What well-formedness tells of the view: subscribed names are distinct
    /// and the queue holds no ephemeral envelope.
    pub proof fn lemma_wf_view(&self)
        requires
            self.wf(),
        ensures
            self@.subscriptions.no_duplicates(),
            forall|i: int| 0 <= i < self@.queue.len() ==> !ephemeral(#[trigger] self@.queue[i]),
    {
    }

    pub fn new() -> (r: Session)
        ensures
            r.wf(),
            r@ == (SessionView {
                next_id: 0,
                in_flight: Set::empty(),
                queue: Seq::empty(),
                subscriptions: Seq::empty(),
                actor_id: None,
                connection_id: None,
                connection_token: None,
                attached: false,
                open: false,
                disconnecting: false,
            }),
    {
        let r = Session {
            next_id: 0,
            in_flight: Vec::new(),
            queue: Vec::new(),
            subscriptions: Vec::new(),
            actor_id: None,
            connection_id: None,
            connection_token: None,
            attached: false,
            open: false,
            disconnecting: false,
        };
        proof {
            assert(r.in_flight@.to_set() =~= Set::empty());
            assert(r.subscriptions@.map_values(|s: String| s@) =~= Seq::empty());
        }
        r
    }

    pub fn is_disconnecting(&self) -> (r: bool)
        ensures
            r == self@.disconnecting,
    {
        self.disconnecting
    }

    /// The connection id and token to resume with on the next attempt.
    pub fn credentials(&self) -> (r: (Option<String>, Option<String>))
        ensures
            opt_view(r.0) == self@.connection_id,
            opt_view(r.1) == self@.connection_token,
    {
        (self.connection_id.clone(), self.connection_token.clone())
    }

    /// The position of `id` among the actions awaiting a reply.
    fn find_in_flight(&self, id: u64) -> (r: Option<usize>)
        ensures
            r is Some ==> r->Some_0 < self.in_flight@.len() && self.in_flight@[r->Some_0 as int] == id,
            r is None ==> !self.in_flight@.contains(id),
    {
        let mut i: usize = 0;
        while i < self.in_flight.len()
            invariant
                i <= self.in_flight@.len(),
                forall|k: int| 0 <= k < i ==> self.in_flight@[k] != id,
            decreases self.in_flight@.len() - i,
        {
            if self.in_flight[i] == id {
                return Some(i);
            }
            i += 1;
        }
        None
    }

    /// Removes the waiter of `id`; returns whether there was one.
    fn take_in_flight(&mut self, id: u64) -> (r: bool)
        requires
            old(self).wf(),
        ensures
            final(self).wf(),
            r == old(self)@.in_flight.contains(id),
            final(self)@ == (SessionView { in_flight: old(self)@.in_flight.remove(id), ..old(self)@ }),
            !r ==> final(self)@ == old(self)@,
    {
        match self.find_in_flight(id) {
            None => {
                proof {
                    assert(self.in_flight@.to_set() =~= self.in_flight@.to_set().remove(id));
                }
                false
            },
            Some(i) => {
                let ghost s = self.in_flight@;
                self.in_flight.remove(i);
                proof {
                    let t = self.in_flight@;
                    assert(t =~= s.subrange(0, i as int) + s.subrange(i as int + 1, s.len() as int));
                    assert forall|k: int| 0 <= k < t.len() implies t[k] == (if k < i { s[k] } else { s[k + 1] }) by {}
                    assert forall|a: int, b: int| 0 <= a < b < t.len() implies t[a] < t[b] by {
                        assert(t[a] == (if a < i { s[a] } else { s[a + 1] }));
                        assert(t[b] == (if b < i { s[b] } else { s[b + 1] }));
                    }
                    assert forall|x: u64| t.to_set().contains(x) <==> s.to_set().remove(id).contains(x) by {
                        if t.contains(x) {
                            let k = choose|k: int| 0 <= k < t.len() && t[k] == x;
                            assert(t[k] == (if k < i { s[k] } else { s[k + 1] }));
                            assert(s.contains(x));
                        }
                        if s.contains(x) && x != id {
                            let k = choose|k: int| 0 <= k < s.len() && s[k] == x;
                            if k < i {
                                assert(t[k] == x);
                            } else {
                                assert(t[k - 1] == x);
                            }
                        }
                    }
                    assert(t.to_set() =~= s.to_set().remove(id));
                }
                true
            },
        }
    }

    /// Records the credentials of a newly opened session and hands out what
    /// must be sent on it: the subscriptions, then the queued envelopes.
    pub fn on_open(&mut self, init: Init) -> (r: Vec<ToServer>)
        requires
            old(self).wf(),
        ensures
            final(self).wf(),
            opened(old(self)@, final(self)@, init, r@),
    {
        let ghost subs = self.subscriptions@.map_values(|s: String| s@);
        let mut out: Vec<ToServer> = Vec::new();
        let mut i: usize = 0;
        while i < self.subscriptions.len()
            invariant
                i <= self.subscriptions@.len(),
                self == old(self),
                subs == self.subscriptions@.map_values(|s: String| s@),
                out@.len() == i,
                forall|k: int| 0 <= k < i ==> is_subscribe_to(#[trigger] out@[k], subs[k]),
            decreases self.subscriptions@.len() - i,
        {
            let name = self.subscriptions[i].clone();
            out.push(ToServer { body: ToServerBody::SubscriptionRequest(SubscriptionRequest { event_name: name, subscribe: true }) });
            i += 1;
        }
        let ghost q = self.queue@;
        let mut pending: Vec<ToServer> = Vec::new();
        std::mem::swap(&mut pending, &mut self.queue);
        let ghost before = out@;
        out.append(&mut pending);
        proof {
            assert(out@.subrange(subs.len() as int, out@.len() as int) =~= q);
            assert forall|k: int| 0 <= k < subs.len() implies is_subscribe_to(#[trigger] out@[k], subs[k]) by {
                assert(out@[k] == before[k]);
            }
        }
        self.actor_id = Some(init.actor_id);
        self.connection_id = Some(init.connection_id);
        self.connection_token = Some(init.connection_token);
        self.attached = true;
        self.open = true;
        out
    }

    /// Handles one inbound envelope, in arrival order.
    pub fn on_message(&mut self, msg: ToClient) -> (r: Dispatch)
        requires
            old(self).wf(),
        ensures
            final(self).wf(),
            dispatched(old(self)@, final(self)@, msg, r),
    {
        match msg.body {
            ToClientBody::Init(init) => {
                let out = self.on_open(init);
                Dispatch::Opened(out)
            },
            ToClientBody::ActionResponse(a) => {
                let id = a.id;
                if self.take_in_flight(id) {
                    Dispatch::Fulfil { id, response: a }
                } else {
                    Dispatch::Unmatched { id }
                }
            },
            ToClientBody::Error(e) => match e.action_id {
                Some(id) => {
                    if self.take_in_flight(id) {
                        Dispatch::Fail { id, error: e }
                    } else {
                        Dispatch::Unmatched { id }
                    }
                },
                None => Dispatch::ConnectionError(e),
            },
            ToClientBody::Event(ev) => Dispatch::Event(ev),
        }
    }

    /// Sends `msg` now if a session is open; otherwise queues it, unless it
    /// is ephemeral, in which case it is dropped.
    pub fn send_msg(&mut self, msg: ToServer) -> (r: Outbound)
        requires
            old(self).wf(),
        ensures
            final(self).wf(),
            routed(old(self)@, final(self)@, msg, r),
    {
        if self.open {
            Outbound::Send(msg)
        } else if !is_ephemeral(&msg) {
            self.queue.push(msg);
            Outbound::Queued
        } else {
            Outbound::Dropped
        }
    }

    /// The driver refused `msg`: a non-ephemeral envelope goes back to the
    /// queue, an ephemeral one is dropped.
    pub fn requeue(&mut self, msg: ToServer)
        requires
            old(self).wf(),
        ensures
            final(self).wf(),
            final(self)@ == (if ephemeral(msg) {
                old(self)@
            } else {
                SessionView { queue: old(self)@.queue.push(msg), ..old(self)@ }
            }),
    {
        if !is_ephemeral(&msg) {
            self.queue.push(msg);
        }
    }

    /// Starts an action: takes the next request id, records it as awaiting a
    /// reply, and routes the request like any non-ephemeral envelope.
    pub fn begin_action(&mut self, name: String, args: Vec<u8>) -> (r: Result<(u64, Outbound), ClientError>)
        requires
            old(self).wf(),
        ensures
            final(self).wf(),
            old(self)@.next_id == u64::MAX <==> r is Err,
            r is Err ==> r == Err::<(u64, Outbound), ClientError>(ClientError::IdsExhausted)
                && final(self)@ == old(self)@,
            r is Ok ==> {
                let (id, o) = r->Ok_0;
                let mid = SessionView {
                    next_id: (id + 1) as u64,
                    in_flight: old(self)@.in_flight.insert(id),
                    ..old(self)@
                };
                &&& id == old(self)@.next_id
                &&& !old(self)@.in_flight.contains(id)
                &&& routed(mid, final(self)@, action_msg(id, name, args), o)
            },
    {
        if self.next_id == u64::MAX {
            return Err(ClientError::IdsExhausted);
        }
        let id = self.next_id;
        let ghost pre = self.in_flight@;
        self.in_flight.push(id);
        self.next_id = id + 1;
        proof {
            pre.lemma_push_to_set_commute(id);
            assert(!pre.to_set().contains(id)) by {
                if pre.contains(id) {
                    let k = choose|k: int| 0 <= k < pre.len() && pre[k] == id;
                }
            }
        }
        let msg = ToServer { body: ToServerBody::ActionRequest(crate::protocol::ActionRequest { id, name, args }) };
        let o = self.send_msg(msg);
        Ok((id, o))
    }

    /// Registers interest in event `name`. Only the first registration of a
    /// name asks the server for it, and only while a session is open.
    pub fn add_subscription(&mut self, name: String) -> (r: Option<ToServer>)
        requires
            old(self).wf(),
        ensures
            final(self).wf(),
            old(self)@.subscriptions.contains(name@) ==> final(self)@ == old(self)@ && r is None,
            !old(self)@.subscriptions.contains(name@) ==> {
                &&& final(self)@ == (SessionView {
                    subscriptions: old(self)@.subscriptions.push(name@),
                    ..old(self)@
                })
                &&& r == (if old(self)@.open {
                    Some(subscription_msg(name, true))
                } else {
                    None
                })
            },
    {
        let ghost subs = self.subscriptions@.map_values(|s: String| s@);
        let mut i: usize = 0;
        while i < self.subscriptions.len()
            invariant
                i <= self.subscriptions@.len(),
                self.wf(),
                *self == *old(self),
                subs == self.subscriptions@.map_values(|s: String| s@),
                forall|k: int| 0 <= k < i ==> subs[k] != name@,
            decreases self.subscriptions@.len() - i,
        {
            if self.subscriptions[i] == name {
                assert(subs[i as int] == name@);
                return None;
            }
            i += 1;
        }
        assert(!subs.contains(name@));
        let n2 = name.clone();
        self.subscriptions.push(n2);
        proof {
            assert(self.subscriptions@.map_values(|s: String| s@) =~= subs.push(name@));
        }
        if self.open {
            Some(ToServer { body: ToServerBody::SubscriptionRequest(SubscriptionRequest { event_name: name, subscribe: true }) })
        } else {
            None
        }
    }

    /// A driver was stored; no session is open on it yet. Refused once
    /// disconnecting.
    pub fn attach(&mut self) -> (r: bool)
        requires
            old(self).wf(),
        ensures
            final(self).wf(),
            r == !old(self)@.disconnecting,
            final(self)@ == (if r {
                SessionView { attached: true, open: false, ..old(self)@ }
            } else {
                old(self)@
            }),
    {
        if self.disconnecting {
            false
        } else {
            self.attached = true;
            self.open = false;
            true
        }
    }

    /// The driver was taken out; returns whether one was there to stop.
    pub fn detach(&mut self) -> (r: bool)
        requires
            old(self).wf(),
        ensures
            final(self).wf(),
            r == old(self)@.attached,
            final(self)@ == (SessionView { attached: false, open: false, ..old(self)@ }),
    {
        let r = self.attached;
        self.attached = false;
        self.open = false;
        r
    }

    /// Stops the session for good: no further attempts, no waiter and no
    /// subscription kept. Returns whether this call was the first.
    pub fn disconnect(&mut self) -> (r: bool)
        requires
            old(self).wf(),
        ensures
            final(self).wf(),
            r == !old(self)@.disconnecting,
            final(self)@ == (SessionView {
                in_flight: Set::empty(),
                subscriptions: Seq::empty(),
                attached: false,
                open: false,
                disconnecting: true,
                ..old(self)@
            }),
    {
        let r = !self.disconnecting;
        self.disconnecting = true;
        self.attached = false;
        self.open = false;
        self.in_flight.clear();
        self.subscriptions.clear();
        proof {
            assert(self.in_flight@.to_set() =~= Set::empty());
            assert(self.subscriptions@.map_values(|s: String| s@) =~= Seq::empty());
        }
        r
    }

    /// The move of the reconnect loop after one connection attempt.
    pub fn after_attempt(&self, did_open: bool) -> (r: LoopStep)
        ensures
            r == (if self@.disconnecting {
                LoopStep::Stop
            } else if did_open {
                LoopStep::Restart
            } else {
                LoopStep::Wait
            }),
    {
        if self.disconnecting {
            LoopStep::Stop
        } else if did_open {
            LoopStep::Restart
        } else {
            LoopStep::Wait
        }
    }
}

proof fn lemma_ids_chain(ids: Seq<u64>, i: int, j: int)
    requires
        0 <= i < j < ids.len(),
        forall|k: int| 0 <= k < ids.len() - 1 ==> #[trigger] ids[k] < ids[k + 1],
    ensures
        ids[i] < ids[j],
    decreases j - i,
{
    if j > i + 1 {
        lemma_ids_chain(ids, i + 1, j);
    }
}

/// Every operation of a session keeps or raises the next request id, and
/// `begin_action` takes the id that was next and moves the next id past it.
/// So for any run of actions on one session, with any operations between
/// them, the ids taken are strictly increasing, and no id is taken twice.
pub proof fn lemma_action_ids_increase(before: Seq<SessionView>, after: Seq<SessionView>, ids: Seq<u64>)
    requires
        before.len() == ids.len(),
        after.len() == ids.len(),
        forall|i: int| 0 <= i < ids.len() ==> ids[i] == before[i].next_id && after[i].next_id == ids[i] + 1,
        forall|i: int| 0 <= i < ids.len() - 1 ==> after[i].next_id <= before[i + 1].next_id,
    ensures
        forall|i: int, j: int| 0 <= i < j < ids.len() ==> ids[i] < ids[j],
        forall|i: int, j: int| 0 <= i < ids.len() && 0 <= j < ids.len() && i != j ==> ids[i] != ids[j],
{
    assert forall|k: int| 0 <= k < ids.len() - 1 implies #[trigger] ids[k] < ids[k + 1] by {
        assert(ids[k] < after[k].next_id);
    }
    assert forall|i: int, j: int| 0 <= i < j < ids.len() implies ids[i] < ids[j] by {
        lemma_ids_chain(ids, i, j);
    }
    assert forall|i: int, j: int| 0 <= i < ids.len() && 0 <= j < ids.len() && i != j implies ids[i] != ids[j] by {
        if i < j {
            lemma_ids_chain(ids, i, j);
        } else {
            lemma_ids_chain(ids, j, i);
        }
    }
}

/// A reply to action `id` completes its waiter exactly once, whatever was
/// handled before it: the first time it removes `id` and no other id from
/// the actions awaiting a reply; a repeat of it matches nothing and changes
/// nothing.
pub proof fn lemma_reply_completes_once(
    pre: SessionView,
    mid: SessionView,
    post: SessionView,
    reply: ActionResponse,
    r1: Dispatch,
    r2: Dispatch,
)
    requires
        pre.in_flight.contains(reply.id),
        dispatched(pre, mid, ToClient { body: ToClientBody::ActionResponse(reply) }, r1),
        dispatched(mid, post, ToClient { body: ToClientBody::ActionResponse(reply) }, r2),
    ensures
        r1 == (Dispatch::Fulfil { id: reply.id, response: reply }),
        mid.in_flight == pre.in_flight.remove(reply.id),
        forall|other: u64| other != reply.id ==> (mid.in_flight.contains(other) <==> pre.in_flight.contains(other)),
        r2 == (Dispatch::Unmatched { id: reply.id }),
        post == mid,
{
}

proof fn lemma_detached_sends_queue(states: Seq<SessionView>, msgs: Seq<ToServer>, outs: Seq<Outbound>)
    requires
        states.len() == msgs.len() + 1,
        outs.len() == msgs.len(),
        !states[0].open,
        forall|i: int| 0 <= i < msgs.len() ==> !ephemeral(#[trigger] msgs[i]),
        forall|i: int| 0 <= i < msgs.len() ==> routed(states[i], states[i + 1], msgs[i], outs[i]),
    ensures
        states.last().queue == states[0].queue + msgs,
        !states.last().open,
        states.last().subscriptions == states[0].subscriptions,
        forall|i: int| 0 <= i < outs.len() ==> outs[i] is Queued,
    decreases msgs.len(),
{
    if msgs.len() > 0 {
        let n = msgs.len() - 1;
        lemma_detached_sends_queue(states.drop_last(), msgs.drop_last(), outs.drop_last());
        assert(states.drop_last().last() == states[n]);
        assert(!ephemeral(msgs[n]));
        assert(states[0].queue + msgs =~= (states[0].queue + msgs.drop_last()).push(msgs[n]));
        assert forall|i: int| 0 <= i < outs.len() implies outs[i] is Queued by {
            if i < n {
                assert(outs.drop_last()[i] == outs[i]);
            }
        }
    } else {
        assert(states[0].queue + msgs =~= states[0].queue);
    }
}

/// Envelopes that are not ephemeral and are sent while no session is open
/// are queued in insertion order; the next `Init` hands them out in that
/// order, after the subscription requests; and an envelope sent after that
/// `Init` goes to the driver at once, so after all of them.
pub proof fn lemma_queue_flushed_in_order(
    states: Seq<SessionView>,
    msgs: Seq<ToServer>,
    outs: Seq<Outbound>,
    init: Init,
    opened_state: SessionView,
    r: Dispatch,
    later: ToServer,
    later_state: SessionView,
    later_out: Outbound,
)
    requires
        states.len() == msgs.len() + 1,
        outs.len() == msgs.len(),
        !states[0].open,
        states[0].queue.len() == 0,
        forall|i: int| 0 <= i < msgs.len() ==> !ephemeral(#[trigger] msgs[i]),
        forall|i: int| 0 <= i < msgs.len() ==> routed(states[i], states[i + 1], msgs[i], outs[i]),
        dispatched(states.last(), opened_state, ToClient { body: ToClientBody::Init(init) }, r),
        routed(opened_state, later_state, later, later_out),
    ensures
        forall|i: int| 0 <= i < outs.len() ==> outs[i] is Queued,
        r is Opened,
        ({
            let out = r->Opened_0@;
            let k = states[0].subscriptions.len() as int;
            out.subrange(k, out.len() as int) == msgs
        }),
        opened_state.queue.len() == 0,
        later_out == Outbound::Send(later),
{
    lemma_detached_sends_queue(states, msgs, outs);
    assert(states[0].queue + msgs =~= msgs);
}

/// On every `Init`, the only ephemeral envelopes handed out are subscription
/// requests, each with `subscribe` set, for a subscribed name, in
/// registration order; a name that is not subscribed gets none.
pub proof fn lemma_opened_requests_only_subscribed(pre: SessionView, post: SessionView, init: Init, out: Seq<ToServer>)
    requires
        opened(pre, post, init, out),
        forall|i: int| 0 <= i < pre.queue.len() ==> !ephemeral(#[trigger] pre.queue[i]),
    ensures
        forall|k: int| 0 <= k < out.len() && ephemeral(#[trigger] out[k]) ==> k < pre.subscriptions.len() && is_subscribe_to(out[k], pre.subscriptions[k]),
        forall|k: int, name: Seq<char>| 0 <= k < out.len() && #[trigger] is_subscribe_to(out[k], name) ==> pre.subscriptions.contains(name),
{
    let subs = pre.subscriptions;
    assert forall|k: int| 0 <= k < out.len() && ephemeral(#[trigger] out[k]) implies k < subs.len() && is_subscribe_to(out[k], subs[k]) by {
        if k >= subs.len() {
            let j = k - subs.len();
            assert(out.subrange(subs.len() as int, out.len() as int)[j] == out[k]);
            assert(!ephemeral(pre.queue[j]));
        }
    }
    assert forall|k: int, name: Seq<char>| 0 <= k < out.len() && #[trigger] is_subscribe_to(out[k], name) implies subs.contains(name) by {
        assert(ephemeral(out[k]));
        assert(is_subscribe_to(out[k], subs[k]));
        assert(subs[k] == name);
    }
}

/// On every `Init`, each subscribed name gets exactly one subscription
/// request among the envelopes handed out.
pub proof fn lemma_subscriptions_replayed_once(
    pre: SessionView,
    post: SessionView,
    init: Init,
    out: Seq<ToServer>,
    name: Seq<char>,
)
    requires
        opened(pre, post, init, out),
        pre.subscriptions.no_duplicates(),
        forall|i: int| 0 <= i < pre.queue.len() ==> !ephemeral(#[trigger] pre.queue[i]),
        pre.subscriptions.contains(name),
    ensures
        exists|k: int|
            0 <= k < out.len() && is_subscribe_to(out[k], name) && forall|k2: int|
                0 <= k2 < out.len() && is_subscribe_to(#[trigger] out[k2], name) ==> k2 == k,
{
    let subs = pre.subscriptions;
    let k = choose|k: int| 0 <= k < subs.len() && subs[k] == name;
    assert(is_subscribe_to(out[k], name));
    assert forall|k2: int| 0 <= k2 < out.len() && is_subscribe_to(#[trigger] out[k2], name) implies k2 == k by {
        if k2 >= subs.len() {
            let j = k2 - subs.len();
            assert(out.subrange(subs.len() as int, out.len() as int)[j] == out[k2]);
            assert(!ephemeral(pre.queue[j]));
        } else {
            assert(is_subscribe_to(out[k2], subs[k2]));
        }
    }
}

} // verus!
