use crate::context::EventContext;
use crate::event::{
    same_identity, CallbackIdentity, Channel, Delivery, Message, OnEvent, Registered,
    MAX_MESSAGE_CODES,
};
use vstd::prelude::*;

verus! {

/// What the callback of `e` is handed when `code` fires.
pub open spec fn delivery_for<C>(
    e: Registered<C>,
    code: u16,
    sender: Option<u64>,
    context: EventContext,
) -> Delivery {
    Delivery { code, sender, listener: e.listener, context }
}

/// Dispatch from position `i` of `subs` on: each callback runs in registration
/// order, on the state and queue its predecessors left, until one handles the
/// event. Gives whether one did, the state and queue at the end, and the position
/// just past the last callback that ran.
pub open spec fn dispatch_from<S, C: OnEvent<S>>(
    subs: Seq<Registered<C>>,
    i: nat,
    code: u16,
    sender: Option<u64>,
    context: EventContext,
    state: S,
    queue: Seq<Message<C>>,
) -> (bool, S, Seq<Message<C>>, nat)
    decreases subs.len() - i,
{
    if i >= subs.len() {
        (false, state, queue, i)
    } else {
        let e = subs[i as int];
        let d = delivery_for(e, code, sender, context);
        let s2 = e.callback.next_state(d, state);
        let q2 = queue + e.callback.published(d, state);
        if e.callback.handles(d, state) {
            (true, s2, q2, i + 1)
        } else {
            dispatch_from(subs, i + 1, code, sender, context, s2, q2)
        }
    }
}

/// What firing `code` does on the subscriptions `subs` of that code: whether a
/// callback handled it, the state and the queue afterwards. A code outside the
/// table changes nothing.
pub open spec fn fire_result<S, C: OnEvent<S>>(
    subs: Seq<Registered<C>>,
    code: u16,
    sender: Option<u64>,
    context: EventContext,
    state: S,
    queue: Seq<Message<C>>,
) -> (bool, S, Seq<Message<C>>) {
    if code >= MAX_MESSAGE_CODES {
        (false, state, queue)
    } else {
        let d = dispatch_from(subs, 0, code, sender, context, state, queue);
        (d.0, d.1, d.2)
    }
}

/// What one pass of `EventSystem::listen_messages` did.
#[derive(Clone, Copy, Debug, PartialEq, Eq, Structural)]
pub enum Received {
    /// The channel was empty.
    Nothing,
    /// A published event was dispatched; `handled` tells whether a callback claimed it.
    Published { code: u16, handled: bool },
    /// A subscription was processed; `accepted` tells whether it was added.
    Subscribed { code: u16, accepted: bool },
    /// A shutdown request: the table and the queue were emptied.
    Shutdown,
}

/// How one pass of `listen_messages` relates the system and the state before it
/// (`pre`, `pre_state`) to what it reports (`r`) and leaves (`post`, `post_state`).
pub open spec fn listen_step<S, C: OnEvent<S>>(
    pre: EventSystem<C>,
    pre_state: S,
    r: Received,
    post: EventSystem<C>,
    post_state: S,
) -> bool {
    &&& post.wf()
    &&& (pre.channel@.len() == 0 ==> r == Received::Nothing && post.channel@ == pre.channel@
        && post.registered == pre.registered && post_state == pre_state)
    &&& (pre.channel@.len() > 0 ==> match pre.channel@[0] {
        Message::Pub { code, sender, context } => {
            let f = fire_result(
                pre.subscribers(code as int),
                code,
                sender,
                context,
                pre_state,
                pre.channel@.drop_first(),
            );
            &&& r == (Received::Published { code, handled: f.0 })
            &&& post_state == f.1
            &&& post.channel@ == f.2
            &&& post.registered == pre.registered
        },
        Message::Sub { code, listener, on_event } => {
            let accepted = code < MAX_MESSAGE_CODES && !has_subscription(
                pre.subscribers(code as int),
                listener,
                on_event,
            );
            &&& r == (Received::Subscribed { code, accepted })
            &&& post_state == pre_state
            &&& post.channel@ == pre.channel@.drop_first()
            &&& accepted ==> post.subscribers(code as int) == pre.subscribers(
                code as int,
            ).push((Registered { listener, callback: on_event }))
            &&& !accepted ==> post.same_table(&pre)
            &&& forall|c: int|
                0 <= c < MAX_MESSAGE_CODES && c != code ==> #[trigger] post.subscribers(c)
                    == pre.subscribers(c)
        },
        Message::Shutdown => {
            &&& r == Received::Shutdown
            &&& post_state == pre_state
            &&& post.channel@ == Seq::<Message<C>>::empty()
            &&& forall|c: int|
                0 <= c < MAX_MESSAGE_CODES ==> (#[trigger] post.subscribers(c)).len() == 0
        },
    })
}

/// Whether `subs` holds a subscription of `listener` with `callback`.
pub open spec fn has_subscription<C>(
    subs: Seq<Registered<C>>,
    listener: Option<u64>,
    callback: C,
) -> bool {
    exists|i: int| 0 <= i < subs.len() && subs[i].listener == listener && subs[i].callback == callback
}

/// The subscriber table and dispatcher. It owns the receiving end of the
/// channel and, for every event code below `MAX_MESSAGE_CODES`, the list of
/// subscriptions in the order they were made.
pub struct EventSystem<C> {
    pub channel: Channel<C>,
    pub registered: Vec<Vec<Registered<C>>>,
}

impl<C> EventSystem<C> {
    pub open spec fn wf(&self) -> bool {
        self.registered@.len() == MAX_MESSAGE_CODES as int
    }

    /// The subscriptions of `code`, in registration order.
    pub open spec fn subscribers(&self, code: int) -> Seq<Registered<C>> {
        self.registered@[code]@
    }

    /// Whether two systems hold the same subscriptions for every code.
    pub open spec fn same_table(&self, other: &Self) -> bool {
        forall|c: int| 0 <= c < MAX_MESSAGE_CODES ==> #[trigger] self.subscribers(c) == other.subscribers(c)
    }

    /// A system with an empty channel and no subscription.
    pub fn new() -> (r: EventSystem<C>)
        ensures
            r.wf(),
            r.channel@ == Seq::<Message<C>>::empty(),
            forall|c: int| 0 <= c < MAX_MESSAGE_CODES ==> (#[trigger] r.subscribers(c)).len() == 0,
    {
        let mut registered: Vec<Vec<Registered<C>>> = Vec::new();
        let mut i: usize = 0;
        while i < MAX_MESSAGE_CODES as usize
            invariant
                i <= MAX_MESSAGE_CODES,
                registered@.len() == i,
                forall|c: int| 0 <= c < i ==> (#[trigger] registered@[c])@.len() == 0,
            decreases MAX_MESSAGE_CODES - i,
        {
            registered.push(Vec::new());
            i += 1;
        }
        EventSystem { channel: Channel::new(), registered }
    }

    /// Subscribes `on_event`, on behalf of `listener`, to `code`. Refused (false)
    /// when `code` is outside the table or when the same listener and callback
    /// are already subscribed to it; otherwise appended after the earlier
    /// subscriptions (true).
    pub fn register(&mut self, code: u16, listener: Option<u64>, on_event: C) -> (r: bool)
        where C: CallbackIdentity,
        requires
            old(self).wf(),
        ensures
            final(self).wf(),
            final(self).channel@ == old(self).channel@,
            r == (code < MAX_MESSAGE_CODES && !has_subscription(
                old(self).subscribers(code as int),
                listener,
                on_event,
            )),
            r ==> final(self).subscribers(code as int) == old(self).subscribers(code as int).push(
                Registered { listener, callback: on_event },
            ),
            !r ==> final(self).same_table(old(self)),
            forall|c: int|
                0 <= c < MAX_MESSAGE_CODES && c != code ==> #[trigger] final(self).subscribers(c)
                    == old(self).subscribers(c),
    {
        if code >= MAX_MESSAGE_CODES {
            return false;
        }
        let idx = code as usize;
        let n = self.registered[idx].len();
        let mut i: usize = 0;
        while i < n
            invariant
                self.wf(),
                idx == code as int,
                idx < MAX_MESSAGE_CODES,
                n == self.registered@[idx as int]@.len(),
                i <= n,
                self.registered == old(self).registered,
                self.channel == old(self).channel,
                forall|j: int|
                    0 <= j < i ==> !(self.registered@[idx as int]@[j].listener == listener
                        && self.registered@[idx as int]@[j].callback == on_event),
            decreases n - i,
        {
            let e = &self.registered[idx][i];
            if same_identity(e.listener, listener) && e.callback.same_callback(&on_event) {
                return false;
            }
            i += 1;
        }
        self.registered[idx].push(Registered { listener, callback: on_event });
        true
    }

    /// Removes the first subscription of `listener` with `on_event` to `code`;
    /// true when there was one.
    pub fn unregister(&mut self, code: u16, listener: Option<u64>, on_event: &C) -> (r: bool)
        where C: CallbackIdentity,
        requires
            old(self).wf(),
        ensures
            final(self).wf(),
            final(self).channel@ == old(self).channel@,
            r == (code < MAX_MESSAGE_CODES && has_subscription(
                old(self).subscribers(code as int),
                listener,
                *on_event,
            )),
            r ==> exists|i: int|
                0 <= i < old(self).subscribers(code as int).len()
                    && old(self).subscribers(code as int)[i].listener == listener
                    && old(self).subscribers(code as int)[i].callback == *on_event
                    && (forall|j: int|
                    0 <= j < i ==> !(old(self).subscribers(code as int)[j].listener == listener
                        && old(self).subscribers(code as int)[j].callback == *on_event))
                    && final(self).subscribers(code as int) == old(self).subscribers(
                    code as int,
                ).remove(i),
            !r ==> final(self).same_table(old(self)),
            forall|c: int|
                0 <= c < MAX_MESSAGE_CODES && c != code ==> #[trigger] final(self).subscribers(c)
                    == old(self).subscribers(c),
    {
        if code >= MAX_MESSAGE_CODES {
            return false;
        }
        let idx = code as usize;
        let n = self.registered[idx].len();
        let mut i: usize = 0;
        while i < n
            invariant
                self.wf(),
                idx == code as int,
                idx < MAX_MESSAGE_CODES,
                n == self.registered@[idx as int]@.len(),
                i <= n,
                self.registered == old(self).registered,
                self.channel == old(self).channel,
                forall|j: int|
                    0 <= j < i ==> !(self.registered@[idx as int]@[j].listener == listener
                        && self.registered@[idx as int]@[j].callback == *on_event),
            decreases n - i,
        {
            let e = &self.registered[idx][i];
            if same_identity(e.listener, listener) && e.callback.same_callback(on_event) {
                self.registered[idx].remove(i);
                return true;
            }
            i += 1;
        }
        false
    }

    /// Runs the callbacks subscribed to `code`, in registration order, until one
    /// handles the event; true when one did. Each callback may change `state` and
    /// append to the channel; what it appends is only seen by a later dispatch.
    /// A code outside the table, or one without subscribers, changes nothing.
    pub fn fire<S>(
        &mut self,
        code: u16,
        sender: Option<u64>,
        context: EventContext,
        state: &mut S,
    ) -> (r: bool)
        where C: OnEvent<S>,
        requires
            old(self).wf(),
        ensures
            final(self).wf(),
            final(self).registered == old(self).registered,
            ({
                let f = fire_result(
                    old(self).subscribers(code as int),
                    code,
                    sender,
                    context,
                    *old(state),
                    old(self).channel@,
                );
                &&& r == f.0
                &&& *final(state) == f.1
                &&& final(self).channel@ == f.2
            }),
    {
        if code >= MAX_MESSAGE_CODES {
            return false;
        }
        let idx = code as usize;
        let n = self.registered[idx].len();
        let mut i: usize = 0;
        while i < n
            invariant
                self.wf(),
                idx == code as int,
                idx < MAX_MESSAGE_CODES,
                n == self.registered@[idx as int]@.len(),
                i <= n,
                self.registered == old(self).registered,
                dispatch_from(
                    old(self).subscribers(code as int),
                    0,
                    code,
                    sender,
                    context,
                    *old(state),
                    old(self).channel@,
                ) == dispatch_from(
                    old(self).subscribers(code as int),
                    i as nat,
                    code,
                    sender,
                    context,
                    *state,
                    self.channel@,
                ),
            decreases n - i,
        {
            let e = &self.registered[idx][i];
            let d = Delivery { code, sender, listener: e.listener, context };
            if e.callback.on_event(d, state, &mut self.channel) {
                return true;
            }
            i += 1;
        }
        false
    }

    /// Empties the subscription list of every code.
    pub fn shutdown(&mut self)
        requires
            old(self).wf(),
        ensures
            final(self).wf(),
            final(self).channel@ == old(self).channel@,
            forall|c: int| 0 <= c < MAX_MESSAGE_CODES ==> (#[trigger] final(self).subscribers(c)).len() == 0,
    {
        let mut i: usize = 0;
        while i < MAX_MESSAGE_CODES as usize
            invariant
                self.wf(),
                i <= MAX_MESSAGE_CODES,
                self.channel == old(self).channel,
                forall|c: int| 0 <= c < i ==> (#[trigger] self.subscribers(c)).len() == 0,
            decreases MAX_MESSAGE_CODES - i,
        {
            let empty: Vec<Registered<C>> = Vec::new();
            let ghost before = self.registered@;
            let ghost snapshot = *self;
            let ghost e = empty;
            self.registered[i] = empty;
            assert(self.registered@ == before.update(i as int, e));
            assert forall|c: int| 0 <= c < i + 1 implies (#[trigger] self.subscribers(c)).len() == 0 by {
                if c < i {
                    assert(snapshot.subscribers(c).len() == 0);
                    assert(self.registered@[c] == before[c]);
                }
            }
            i += 1;
        }
    }

    /// Takes at most one message from the channel, without waiting, and acts on
    /// it: a published event is fired, a subscription is registered, a shutdown
    /// request empties the table and drops whatever is still queued.
    pub fn listen_messages<S>(&mut self, state: &mut S) -> (r: Received)
        where C: OnEvent<S> + CallbackIdentity,
        requires
            old(self).wf(),
        ensures
            final(self).wf(),
            listen_step(*old(self), *old(state), r, *final(self), *final(state)),
    {
        match self.channel.try_recv() {
            None => Received::Nothing,
            Some(Message::Pub { code, sender, context }) => {
                let handled = self.fire(code, sender, context, state);
                Received::Published { code, handled }
            },
            Some(Message::Sub { code, listener, on_event }) => {
                let accepted = self.register(code, listener, on_event);
                Received::Subscribed { code, accepted }
            },
            Some(Message::Shutdown) => {
                self.shutdown();
                let ghost reg = self.registered;
                let ghost snapshot = *self;
                self.channel.clear();
                assert(self.registered == reg);
                assert forall|c: int| 0 <= c < MAX_MESSAGE_CODES implies (
                #[trigger] self.subscribers(c)).len() == 0 by {
                    assert(snapshot.subscribers(c).len() == 0);
                    assert(self.registered@[c] == reg@[c]);
                }
                Received::Shutdown
            },
        }
    }
}

/// State and queue after the first `k` callbacks of `subs` ran, in order, each
/// on what its predecessors left.
pub open spec fn run_prefix<S, C: OnEvent<S>>(
    subs: Seq<Registered<C>>,
    k: nat,
    code: u16,
    sender: Option<u64>,
    context: EventContext,
    state: S,
    queue: Seq<Message<C>>,
) -> (S, Seq<Message<C>>)
    decreases k,
{
    if k == 0 || k > subs.len() {
        (state, queue)
    } else {
        let p = run_prefix(subs, (k - 1) as nat, code, sender, context, state, queue);
        let e = subs[k - 1];
        let d = delivery_for(e, code, sender, context);
        (e.callback.next_state(d, p.0), p.1 + e.callback.published(d, p.0))
    }
}

/// Whether the callback at position `k` of `subs` claims the event when it runs
/// after the first `k` callbacks.
pub open spec fn claims_at<S, C: OnEvent<S>>(
    subs: Seq<Registered<C>>,
    k: nat,
    code: u16,
    sender: Option<u64>,
    context: EventContext,
    state: S,
    queue: Seq<Message<C>>,
) -> bool {
    let p = run_prefix(subs, k, code, sender, context, state, queue);
    subs[k as int].callback.handles(delivery_for(subs[k as int], code, sender, context), p.0)
}

proof fn lemma_dispatch_from_prefix<S, C: OnEvent<S>>(
    subs: Seq<Registered<C>>,
    i: nat,
    code: u16,
    sender: Option<u64>,
    context: EventContext,
    state: S,
    queue: Seq<Message<C>>,
)
    requires
        i <= subs.len(),
        forall|k: nat| k < i ==> !#[trigger] claims_at(subs, k, code, sender, context, state, queue),
    ensures
        ({
            let p = run_prefix(subs, i, code, sender, context, state, queue);
            let d = dispatch_from(subs, i, code, sender, context, p.0, p.1);
            &&& i <= d.3 <= subs.len()
            &&& d.0 ==> d.3 >= 1 && claims_at(subs, (d.3 - 1) as nat, code, sender, context, state, queue)
            &&& forall|k: nat|
                k < d.3 && !(d.0 && k == d.3 - 1) ==> !#[trigger] claims_at(
                    subs,
                    k,
                    code,
                    sender,
                    context,
                    state,
                    queue,
                )
            &&& !d.0 ==> d.3 == subs.len()
            &&& (d.1, d.2) == run_prefix(subs, d.3, code, sender, context, state, queue)
        }),
    decreases subs.len() - i,
{
    if i < subs.len() {
        let p = run_prefix(subs, i, code, sender, context, state, queue);
        let e = subs[i as int];
        let d = delivery_for(e, code, sender, context);
        assert(run_prefix(subs, i + 1, code, sender, context, state, queue) == (
        e.callback.next_state(d, p.0), p.1 + e.callback.published(d, p.0)));
        if !claims_at(subs, i, code, sender, context, state, queue) {
            assert forall|k: nat| k < i + 1 implies !#[trigger] claims_at(
                subs,
                k,
                code,
                sender,
                context,
                state,
                queue,
            ) by {
                if k < i {
                    assert(!claims_at(subs, k, code, sender, context, state, queue));
                }
            }
            lemma_dispatch_from_prefix(subs, i + 1, code, sender, context, state, queue);
        }
    }
}

/// Firing visits the subscriptions in registration order and stops at the first
/// callback that handles the event: every callback before it declined, none after
/// it ran, and the state and queue are exactly what the visited callbacks made of
/// them, in that order. When none handles the event, all of them ran.
pub proof fn lemma_fire_in_registration_order<S, C: OnEvent<S>>(
    subs: Seq<Registered<C>>,
    code: u16,
    sender: Option<u64>,
    context: EventContext,
    state: S,
    queue: Seq<Message<C>>,
)
    ensures
        ({
            let d = dispatch_from(subs, 0, code, sender, context, state, queue);
            &&& d.3 <= subs.len()
            &&& d.0 ==> d.3 >= 1 && claims_at(subs, (d.3 - 1) as nat, code, sender, context, state, queue)
            &&& forall|k: nat|
                k < d.3 && !(d.0 && k == d.3 - 1) ==> !#[trigger] claims_at(
                    subs,
                    k,
                    code,
                    sender,
                    context,
                    state,
                    queue,
                )
            &&& !d.0 ==> d.3 == subs.len()
            &&& (d.1, d.2) == run_prefix(subs, d.3, code, sender, context, state, queue)
        }),
{
    lemma_dispatch_from_prefix(subs, 0, code, sender, context, state, queue);
}

/// Firing a code that has no subscriber reports that nothing handled it and
/// leaves the state and the queue as they were.
pub proof fn lemma_fire_without_subscribers<S, C: OnEvent<S>>(
    sys: EventSystem<C>,
    code: u16,
    sender: Option<u64>,
    context: EventContext,
    state: S,
)
    requires
        sys.wf(),
        code < MAX_MESSAGE_CODES ==> sys.subscribers(code as int).len() == 0,
    ensures
        fire_result(sys.subscribers(code as int), code, sender, context, state, sys.channel@) == (
        false, state, sys.channel@),
{
}

/// Registering a pair that a code does not hold yet is accepted, and registering
/// the same pair again right after is refused: for a fresh pair, `register`
/// answers true the first time and false the second.
pub proof fn lemma_duplicate_registration_refused<C>(
    sys: EventSystem<C>,
    code: u16,
    listener: Option<u64>,
    callback: C,
)
    requires
        sys.wf(),
        code < MAX_MESSAGE_CODES,
        !has_subscription(sys.subscribers(code as int), listener, callback),
    ensures
        code < MAX_MESSAGE_CODES && !has_subscription(
            sys.subscribers(code as int),
            listener,
            callback,
        ),
        !(code < MAX_MESSAGE_CODES && !has_subscription(
            sys.subscribers(code as int).push((Registered { listener, callback })),
            listener,
            callback,
        )),
{
    let subs = sys.subscribers(code as int).push((Registered { listener, callback }));
    assert(subs[subs.len() - 1] == (Registered { listener, callback }));
}

/// A publication taken from the queue while its code has no subscriber is
/// reported unhandled and is gone: the state and the subscriptions stay, and the
/// queue keeps only the messages behind it, so a later subscriber never sees it.
pub proof fn lemma_unheard_publication_is_dropped<S, C: OnEvent<S>>(
    pre: EventSystem<C>,
    pre_state: S,
    r: Received,
    post: EventSystem<C>,
    post_state: S,
)
    requires
        pre.wf(),
        pre.channel@.len() > 0,
        pre.channel@[0] matches Message::Pub { code, .. } && (code < MAX_MESSAGE_CODES
            ==> pre.subscribers(code as int).len() == 0),
        listen_step(pre, pre_state, r, post, post_state),
    ensures
        pre.channel@[0] matches Message::Pub { code, .. } && r == (Received::Published {
            code,
            handled: false,
        }),
        post_state == pre_state,
        post.registered == pre.registered,
        post.channel@ == pre.channel@.drop_first(),
{
}

/// Dispatch only appends to the queue: what was queued stays, in place.
pub proof fn lemma_dispatch_keeps_queue<S, C: OnEvent<S>>(
    subs: Seq<Registered<C>>,
    i: nat,
    code: u16,
    sender: Option<u64>,
    context: EventContext,
    state: S,
    queue: Seq<Message<C>>,
)
    ensures
        ({
            let d = dispatch_from(subs, i, code, sender, context, state, queue);
            &&& d.2.len() >= queue.len()
            &&& d.2.subrange(0, queue.len() as int) == queue
        }),
    decreases subs.len() - i,
{
    let d = dispatch_from(subs, i, code, sender, context, state, queue);
    if i < subs.len() {
        let e = subs[i as int];
        let dl = delivery_for(e, code, sender, context);
        let s2 = e.callback.next_state(dl, state);
        let q2 = queue + e.callback.published(dl, state);
        assert(q2.subrange(0, queue.len() as int) =~= queue);
        if !e.callback.handles(dl, state) {
            lemma_dispatch_keeps_queue(subs, i + 1, code, sender, context, s2, q2);
            assert(d.2.subrange(0, queue.len() as int) =~= d.2.subrange(
                0,
                q2.len() as int,
            ).subrange(0, queue.len() as int));
        }
    } else {
        assert(d.2.subrange(0, queue.len() as int) =~= queue);
    }
}

/// One pass of `listen_messages` that is not a shutdown moves every message
/// behind the front one place forward, and keeps the first subscription of
/// every code that had one.
pub proof fn lemma_listen_advances_queue<S, C: OnEvent<S>>(
    pre: EventSystem<C>,
    pre_state: S,
    r: Received,
    post: EventSystem<C>,
    post_state: S,
    k: int,
)
    requires
        pre.wf(),
        listen_step(pre, pre_state, r, post, post_state),
        r != Received::Shutdown,
        0 < k < pre.channel@.len(),
    ensures
        k - 1 < post.channel@.len(),
        post.channel@[k - 1] == pre.channel@[k],
        forall|c: int|
            0 <= c < MAX_MESSAGE_CODES && pre.subscribers(c).len() > 0 ==> post.subscribers(c).len()
                > 0 && #[trigger] post.subscribers(c)[0] == pre.subscribers(c)[0],
{
    let rest = pre.channel@.drop_first();
    match pre.channel@[0] {
        Message::Pub { code, sender, context } => {
            if code < MAX_MESSAGE_CODES {
                lemma_dispatch_keeps_queue(
                    pre.subscribers(code as int),
                    0,
                    code,
                    sender,
                    context,
                    pre_state,
                    rest,
                );
                assert(post.channel@.subrange(0, rest.len() as int)[k - 1] == rest[k - 1]);
            }
        },
        Message::Sub { code, listener, on_event } => {
            assert forall|c: int|
                0 <= c < MAX_MESSAGE_CODES && pre.subscribers(c).len() > 0 implies post.subscribers(
                c,
            ).len() > 0 && #[trigger] post.subscribers(c)[0] == pre.subscribers(c)[0] by {
                if c != code {
                    assert(post.subscribers(c) == pre.subscribers(c));
                } else if post.subscribers(c) != pre.subscribers(c) {
                    assert(post.subscribers(c) == pre.subscribers(c).push(
                        (Registered { listener, callback: on_event }),
                    ));
                }
            }
        },
        Message::Shutdown => {},
    }
}

} // verus!
