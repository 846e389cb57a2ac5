//! The bookkeeping of a session: which requests wait for a reply, and which
//! continuation each reply is for.
//!
//! A context holds one collection for each kind of request that waits for a
//! reply, and two for listeners that stay: the events of a subscription and the
//! invocations of a registration. Each entry pairs what was sent, or what the
//! listener listens to, with a continuation of the caller's choosing. A context
//! owns no transport: the frames of the requests that it takes are kept in
//! `messages`, in the order of the requests, for the owner of the transport to
//! send.

use vstd::prelude::*;
use crate::error::Error;
use crate::messages::{
    frame, rejection, to_string, Call, CallView, Cancel, CancelView, Challenge, ChallengeView,
    Event, EventView, Interrupt, InterruptView, Invocation, InvocationView, Messages,
    MessagesView, Publish, PublishView, Published, Register, RegisterView, Registered, Subscribe,
    SubscribeView, Subscribed, Unregister, Unregistered, Unsubscribe, Unsubscribed, WampError,
    WampErrorEvent, WampErrorView, WampMessage, WampResult, WampResultView, Welcome, WelcomeView,
};

verus! {

/// What an entry of a context is found by.
pub trait Pending: View + Sized {
    /// The id by which a reply finds the entry.
    spec fn spec_key(entry: Self::V) -> u64;

    /// The id by which a reply finds the entry.
    fn key(&self) -> (id: u64)
        ensures
            id == Self::spec_key(self@),
    ;
}

/// A request is found by its request id.
impl Pending for Register {
    open spec fn spec_key(entry: RegisterView) -> u64 {
        entry.request_id
    }

    fn key(&self) -> (id: u64) {
        self.request_id
    }
}

/// A request is found by its request id.
impl Pending for Unregister {
    open spec fn spec_key(entry: Unregister) -> u64 {
        entry.request_id
    }

    fn key(&self) -> (id: u64) {
        self.request_id
    }
}

/// A request is found by its request id.
impl Pending for Subscribe {
    open spec fn spec_key(entry: SubscribeView) -> u64 {
        entry.request_id
    }

    fn key(&self) -> (id: u64) {
        self.request_id
    }
}

/// A request is found by its request id.
impl Pending for Unsubscribe {
    open spec fn spec_key(entry: Unsubscribe) -> u64 {
        entry.request_id
    }

    fn key(&self) -> (id: u64) {
        self.request_id
    }
}

/// A request is found by its request id.
impl Pending for Publish {
    open spec fn spec_key(entry: PublishView) -> u64 {
        entry.request_id
    }

    fn key(&self) -> (id: u64) {
        self.request_id
    }
}

/// A request is found by its request id.
impl Pending for Call {
    open spec fn spec_key(entry: CallView) -> u64 {
        entry.request_id
    }

    fn key(&self) -> (id: u64) {
        self.request_id
    }
}

/// A request is found by its request id.
impl Pending for Cancel {
    open spec fn spec_key(entry: CancelView) -> u64 {
        entry.request_id
    }

    fn key(&self) -> (id: u64) {
        self.request_id
    }
}

/// A listener for events is found by the subscription that it listens to.
impl Pending for Subscribed {
    open spec fn spec_key(entry: Subscribed) -> u64 {
        entry.subscription
    }

    fn key(&self) -> (id: u64) {
        self.subscription
    }
}

/// A listener for invocations is found by the request id under which its
/// registration was asked for.
impl Pending for Registered {
    open spec fn spec_key(entry: Registered) -> u64 {
        entry.request_id
    }

    fn key(&self) -> (id: u64) {
        self.request_id
    }
}

/// The model of a collection: each entry by the model of what it holds, and
/// its continuation.
pub open spec fn pending<R: View, K>(entries: Vec<(R, K)>) -> Seq<(R::V, K)> {
    Seq::new(entries.len() as nat, |i: int| (entries[i].0@, entries[i].1))
}

/// Entry `i` is the first of the collection that `id` finds.
pub open spec fn is_first_match<R: Pending, K>(
    entries: Seq<(R::V, K)>,
    id: u64,
    i: int,
) -> bool {
    &&& 0 <= i < entries.len()
    &&& R::spec_key(entries[i].0) == id
    &&& forall|j: int| 0 <= j < i ==> R::spec_key(#[trigger] entries[j].0) != id
}

/// The place of the first entry that `id` finds, if it finds one.
pub open spec fn first_match<R: Pending, K>(entries: Seq<(R::V, K)>, id: u64) -> Option<int> {
    if exists|i: int| is_first_match::<R, K>(entries, id, i) {
        Some(choose|i: int| is_first_match::<R, K>(entries, id, i))
    } else {
        None
    }
}

/// No two entries of the collection are found by the same id.
pub open spec fn distinct_keys<R: Pending, K>(entries: Seq<(R::V, K)>) -> bool {
    forall|i: int, j: int|
        0 <= i < j < entries.len() ==> R::spec_key(#[trigger] entries[i].0) != R::spec_key(
            #[trigger] entries[j].0,
        )
}

/// The first entry that `id` finds is the only first one.
pub proof fn lemma_first_match<R: Pending, K>(entries: Seq<(R::V, K)>, id: u64, i: int)
    requires
        is_first_match::<R, K>(entries, id, i),
    ensures
        first_match::<R, K>(entries, id) == Some(i),
{
    let chosen = choose|i: int| is_first_match::<R, K>(entries, id, i);
    if chosen < i {
        assert(R::spec_key(entries[chosen].0) != id);
    } else if i < chosen {
        assert(R::spec_key(entries[i].0) != id);
    }
}

/// Where some entry has the id, it finds one.
pub proof fn lemma_some_match<R: Pending, K>(entries: Seq<(R::V, K)>, id: u64, j: int)
    requires
        0 <= j < entries.len(),
        R::spec_key(entries[j].0) == id,
    ensures
        first_match::<R, K>(entries, id) is Some,
    decreases j,
{
    if forall|i: int| 0 <= i < j ==> R::spec_key(#[trigger] entries[i].0) != id {
        assert(is_first_match::<R, K>(entries, id, j));
    } else {
        let i = choose|i: int| 0 <= i < j && R::spec_key(#[trigger] entries[i].0) == id;
        lemma_some_match::<R, K>(entries, id, i);
    }
}

/// Where no entry has the id, it finds none.
pub proof fn lemma_no_match<R: Pending, K>(entries: Seq<(R::V, K)>, id: u64)
    requires
        forall|j: int| 0 <= j < entries.len() ==> R::spec_key(#[trigger] entries[j].0) != id,
    ensures
        first_match::<R, K>(entries, id) is None,
{
}

/// The place of the first entry that `id` finds.
pub fn position<R: Pending, K>(entries: &Vec<(R, K)>, id: u64) -> (r: Option<usize>)
    ensures
        match r {
            Some(i) => first_match::<R, K>(pending(*entries), id) == Some(i as int),
            None => first_match::<R, K>(pending(*entries), id) is None,
        },
{
    let mut i: usize = 0;
    while i < entries.len()
        invariant
            i <= entries.len(),
            forall|j: int| 0 <= j < i ==> R::spec_key(#[trigger] pending(*entries)[j].0) != id,
        decreases entries.len() - i,
    {
        if entries[i].0.key() == id {
            proof {
                lemma_first_match::<R, K>(pending(*entries), id, i as int);
            }
            return Some(i);
        }
        i += 1;
    }
    proof {
        lemma_no_match::<R, K>(pending(*entries), id);
    }
    None
}

/// Takes entry `i` out of a collection.
pub(crate) fn take_at<R: View, K>(entries: &mut Vec<(R, K)>, i: usize) -> (entry: (R, K))
    requires
        i < old(entries).len(),
    ensures
        pending(*final(entries)) == pending(*old(entries)).remove(i as int),
        entry.0@ == pending(*old(entries))[i as int].0,
        entry.1 == pending(*old(entries))[i as int].1,
{
    let entry = entries.remove(i);
    assert(pending(*entries) =~= pending(*old(entries)).remove(i as int));
    entry
}

/// The requests that wait for a reply and the listeners that stay, each with
/// its continuation, and the frames that wait to be sent.
#[derive(Debug, PartialEq, Eq)]
pub struct Context<K> {
    pub registrations: Vec<(Register, K)>,
    pub unregistrations: Vec<(Unregister, K)>,
    pub subscriptions: Vec<(Subscribe, K)>,
    pub unsubscriptions: Vec<(Unsubscribe, K)>,
    pub publications: Vec<(Publish, K)>,
    pub calls: Vec<(Call, K)>,
    pub events: Vec<(Subscribed, K)>,
    pub invocations: Vec<(Registered, K)>,
    pub cancelations: Vec<(Cancel, K)>,
    pub messages: Vec<String>,
}

/// The mathematical model of a [`Context`].
pub struct ContextView<K> {
    pub registrations: Seq<(RegisterView, K)>,
    pub unregistrations: Seq<(Unregister, K)>,
    pub subscriptions: Seq<(SubscribeView, K)>,
    pub unsubscriptions: Seq<(Unsubscribe, K)>,
    pub publications: Seq<(PublishView, K)>,
    pub calls: Seq<(CallView, K)>,
    pub events: Seq<(Subscribed, K)>,
    pub invocations: Seq<(Registered, K)>,
    pub cancelations: Seq<(CancelView, K)>,
    pub messages: Seq<Seq<char>>,
}

impl<K> View for Context<K> {
    type V = ContextView<K>;

    open spec fn view(&self) -> ContextView<K> {
        ContextView {
            registrations: pending(self.registrations),
            unregistrations: pending(self.unregistrations),
            subscriptions: pending(self.subscriptions),
            unsubscriptions: pending(self.unsubscriptions),
            publications: pending(self.publications),
            calls: pending(self.calls),
            events: pending(self.events),
            invocations: pending(self.invocations),
            cancelations: pending(self.cancelations),
            messages: self.messages.deep_view(),
        }
    }
}

impl<K> ContextView<K> {
    /// The context that holds nothing.
    pub open spec fn empty() -> ContextView<K> {
        ContextView {
            registrations: Seq::empty(),
            unregistrations: Seq::empty(),
            subscriptions: Seq::empty(),
            unsubscriptions: Seq::empty(),
            publications: Seq::empty(),
            calls: Seq::empty(),
            events: Seq::empty(),
            invocations: Seq::empty(),
            cancelations: Seq::empty(),
            messages: Seq::empty(),
        }
    }

    /// This context with the entries and the frames of `other` behind its
    /// own, each collection in its order.
    pub open spec fn extend(self, other: ContextView<K>) -> ContextView<K> {
        ContextView {
            registrations: self.registrations + other.registrations,
            unregistrations: self.unregistrations + other.unregistrations,
            subscriptions: self.subscriptions + other.subscriptions,
            unsubscriptions: self.unsubscriptions + other.unsubscriptions,
            publications: self.publications + other.publications,
            calls: self.calls + other.calls,
            events: self.events + other.events,
            invocations: self.invocations + other.invocations,
            cancelations: self.cancelations + other.cancelations,
            messages: self.messages + other.messages,
        }
    }

    /// At most one request of each kind waits under each id.
    pub open spec fn wf(self) -> bool {
        &&& distinct_keys::<Register, K>(self.registrations)
        &&& distinct_keys::<Unregister, K>(self.unregistrations)
        &&& distinct_keys::<Subscribe, K>(self.subscriptions)
        &&& distinct_keys::<Unsubscribe, K>(self.unsubscriptions)
        &&& distinct_keys::<Publish, K>(self.publications)
        &&& distinct_keys::<Call, K>(self.calls)
        &&& distinct_keys::<Cancel, K>(self.cancelations)
    }

    /// No id finds a request of one kind in both contexts.
    pub open spec fn disjoint(self, other: ContextView<K>) -> bool {
        &&& disjoint_keys::<Register, K>(self.registrations, other.registrations)
        &&& disjoint_keys::<Unregister, K>(self.unregistrations, other.unregistrations)
        &&& disjoint_keys::<Subscribe, K>(self.subscriptions, other.subscriptions)
        &&& disjoint_keys::<Unsubscribe, K>(self.unsubscriptions, other.unsubscriptions)
        &&& disjoint_keys::<Publish, K>(self.publications, other.publications)
        &&& disjoint_keys::<Call, K>(self.calls, other.calls)
        &&& disjoint_keys::<Cancel, K>(self.cancelations, other.cancelations)
    }

    /// Two contexts in which at most one request of each kind waits under each
    /// id, and which share no id, make such a context together.
    pub proof fn lemma_extend_wf(self, other: ContextView<K>)
        requires
            self.wf(),
            other.wf(),
            self.disjoint(other),
        ensures
            self.extend(other).wf(),
    {
        lemma_add_distinct::<Register, K>(self.registrations, other.registrations);
        lemma_add_distinct::<Unregister, K>(self.unregistrations, other.unregistrations);
        lemma_add_distinct::<Subscribe, K>(self.subscriptions, other.subscriptions);
        lemma_add_distinct::<Unsubscribe, K>(self.unsubscriptions, other.unsubscriptions);
        lemma_add_distinct::<Publish, K>(self.publications, other.publications);
        lemma_add_distinct::<Call, K>(self.calls, other.calls);
        lemma_add_distinct::<Cancel, K>(self.cancelations, other.cancelations);
    }

    /// This context once it has taken a registration whose frame is `text`.
    pub open spec fn with_register(
        self,
        register: RegisterView,
        callback: K,
        text: Seq<char>,
    ) -> ContextView<K> {
        ContextView {
            registrations: self.registrations.push((register, callback)),
            messages: self.messages.push(text),
            ..self
        }
    }

    /// This context once it has taken an unregistration whose frame is `text`.
    pub open spec fn with_unregister(
        self,
        unregister: Unregister,
        callback: K,
        text: Seq<char>,
    ) -> ContextView<K> {
        ContextView {
            unregistrations: self.unregistrations.push((unregister, callback)),
            messages: self.messages.push(text),
            ..self
        }
    }

    /// This context once it has taken a subscription whose frame is `text`.
    pub open spec fn with_subscribe(
        self,
        subscribe: SubscribeView,
        callback: K,
        text: Seq<char>,
    ) -> ContextView<K> {
        ContextView {
            subscriptions: self.subscriptions.push((subscribe, callback)),
            messages: self.messages.push(text),
            ..self
        }
    }

    /// This context once it has taken an unsubscription whose frame is `text`.
    pub open spec fn with_unsubscribe(
        self,
        unsubscribe: Unsubscribe,
        callback: K,
        text: Seq<char>,
    ) -> ContextView<K> {
        ContextView {
            unsubscriptions: self.unsubscriptions.push((unsubscribe, callback)),
            messages: self.messages.push(text),
            ..self
        }
    }

    /// This context once it has taken a publication whose frame is `text`.
    pub open spec fn with_publish(
        self,
        publish: PublishView,
        callback: K,
        text: Seq<char>,
    ) -> ContextView<K> {
        ContextView {
            publications: self.publications.push((publish, callback)),
            messages: self.messages.push(text),
            ..self
        }
    }

    /// This context once it has taken a call whose frame is `text`.
    pub open spec fn with_call(
        self,
        call: CallView,
        callback: K,
        text: Seq<char>,
    ) -> ContextView<K> {
        ContextView {
            calls: self.calls.push((call, callback)),
            messages: self.messages.push(text),
            ..self
        }
    }

    /// This context once it has taken a cancelation whose frame is `text`.
    pub open spec fn with_cancel(
        self,
        cancel: CancelView,
        callback: K,
        text: Seq<char>,
    ) -> ContextView<K> {
        ContextView {
            cancelations: self.cancelations.push((cancel, callback)),
            messages: self.messages.push(text),
            ..self
        }
    }

    /// This context once it has taken a listener for the events of a
    /// subscription.
    pub open spec fn with_event(self, subscribed: Subscribed, callback: K) -> ContextView<K> {
        ContextView { events: self.events.push((subscribed, callback)), ..self }
    }

    /// This context once it has taken a listener for the invocations of a
    /// registration whose frame is `text`.
    pub open spec fn with_invocation(
        self,
        invocation: Registered,
        callback: K,
        text: Seq<char>,
    ) -> ContextView<K> {
        ContextView {
            invocations: self.invocations.push((invocation, callback)),
            messages: self.messages.push(text),
            ..self
        }
    }
}

impl<K> Context<K> {
    /// A context that holds nothing.
    pub fn new() -> (r: Self)
        ensures
            r@ == ContextView::<K>::empty(),
            r@.wf(),
    {
        let r = Context {
            registrations: Vec::new(),
            unregistrations: Vec::new(),
            subscriptions: Vec::new(),
            unsubscriptions: Vec::new(),
            publications: Vec::new(),
            calls: Vec::new(),
            events: Vec::new(),
            invocations: Vec::new(),
            cancelations: Vec::new(),
            messages: Vec::new(),
        };
        assert(r@.messages =~= Seq::empty());
        assert(r@.registrations =~= Seq::empty());
        assert(r@.unregistrations =~= Seq::empty());
        assert(r@.subscriptions =~= Seq::empty());
        assert(r@.unsubscriptions =~= Seq::empty());
        assert(r@.publications =~= Seq::empty());
        assert(r@.calls =~= Seq::empty());
        assert(r@.events =~= Seq::empty());
        assert(r@.invocations =~= Seq::empty());
        assert(r@.cancelations =~= Seq::empty());
        r
    }

    /// A context that holds nothing, with room for `capacity` entries in each
    /// collection.
    pub fn new_with_capacity(capacity: usize) -> (r: Self)
        ensures
            r@ == ContextView::<K>::empty(),
            r@.wf(),
    {
        let r = Context {
            registrations: Vec::with_capacity(capacity),
            unregistrations: Vec::with_capacity(capacity),
            subscriptions: Vec::with_capacity(capacity),
            unsubscriptions: Vec::with_capacity(capacity),
            publications: Vec::with_capacity(capacity),
            calls: Vec::with_capacity(capacity),
            events: Vec::with_capacity(capacity),
            invocations: Vec::with_capacity(capacity),
            cancelations: Vec::with_capacity(capacity),
            messages: Vec::with_capacity(capacity),
        };
        assert(r@.messages =~= Seq::empty());
        assert(r@.registrations =~= Seq::empty());
        assert(r@.unregistrations =~= Seq::empty());
        assert(r@.subscriptions =~= Seq::empty());
        assert(r@.unsubscriptions =~= Seq::empty());
        assert(r@.publications =~= Seq::empty());
        assert(r@.calls =~= Seq::empty());
        assert(r@.events =~= Seq::empty());
        assert(r@.invocations =~= Seq::empty());
        assert(r@.cancelations =~= Seq::empty());
        r
    }

    /// Writes a message and keeps its frame for the transport. A message that
    /// cannot be written leaves the context as it was.
    pub fn send<M: WampMessage>(&mut self, message: &M) -> (r: Result<(), Error>)
        ensures
            match frame(M::spec_encode(message@)) {
                Some(text) => r is Ok && final(self)@ == (ContextView {
                    messages: old(self)@.messages.push(text),
                    ..old(self)@
                }),
                None => {
                    &&& final(self)@ == old(self)@
                    &&& r matches Err(error) && rejection(M::spec_encode(message@), error@)
                },
            },
            old(self)@.wf() ==> final(self)@.wf(),
    {
        let text = to_string(message)?;
        self.messages.push(text);
        assert(self@.messages =~= old(self)@.messages.push(text@));
        Ok(())
    }

    /// Hands over the frames that wait to be sent, in their order, and keeps
    /// none.
    pub fn take_messages(&mut self) -> (frames: Vec<String>)
        ensures
            frames.deep_view() == old(self)@.messages,
            final(self)@ == (ContextView { messages: Seq::empty(), ..old(self)@ }),
            old(self)@.wf() ==> final(self)@.wf(),
    {
        let mut frames: Vec<String> = Vec::new();
        frames.append(&mut self.messages);
        assert(frames.deep_view() =~= old(self)@.messages);
        assert(self@.messages =~= Seq::empty());
        frames
    }

    /// Takes a registration: keeps the frame of the request for the transport, and the
    /// request with its continuation until the reply comes. A request that
    /// cannot be written leaves the context as it was.
    pub fn register(&mut self, register: Register, callback: K) -> (r: Result<(), Error>)
        ensures
            match frame(Register::spec_encode(register@)) {
                Some(text) => r is Ok && final(self)@ == old(self)@.with_register(
                    register@,
                    callback,
                    text,
                ),
                None => {
                    &&& final(self)@ == old(self)@
                    &&& r matches Err(error) && rejection(
                        Register::spec_encode(register@),
                        error@,
                    )
                },
            },
            old(self)@.wf() && first_match::<Register, K>(
                old(self)@.registrations,
                register.request_id,
            ) is None ==> final(self)@.wf(),
    {
        proof {
            if old(self)@.wf() && first_match::<Register, K>(
                old(self)@.registrations,
                register.request_id,
            ) is None {
                lemma_push_distinct::<Register, K>(old(self)@.registrations, register@, callback);
            }
        }
        self.send(&register)?;
        self.registrations.push((register, callback));
        assert(self@.registrations =~= old(self)@.registrations.push((register@, callback)));
        Ok(())
    }

    /// Takes an unregistration: keeps the frame of the request for the transport, and the
    /// request with its continuation until the reply comes. A request that
    /// cannot be written leaves the context as it was.
    pub fn unregister(&mut self, unregister: Unregister, callback: K) -> (r: Result<(), Error>)
        ensures
            match frame(Unregister::spec_encode(unregister@)) {
                Some(text) => r is Ok && final(self)@ == old(self)@.with_unregister(
                    unregister@,
                    callback,
                    text,
                ),
                None => {
                    &&& final(self)@ == old(self)@
                    &&& r matches Err(error) && rejection(
                        Unregister::spec_encode(unregister@),
                        error@,
                    )
                },
            },
            old(self)@.wf() && first_match::<Unregister, K>(
                old(self)@.unregistrations,
                unregister.request_id,
            ) is None ==> final(self)@.wf(),
    {
        proof {
            if old(self)@.wf() && first_match::<Unregister, K>(
                old(self)@.unregistrations,
                unregister.request_id,
            ) is None {
                lemma_push_distinct::<Unregister, K>(old(self)@.unregistrations, unregister@, callback);
            }
        }
        self.send(&unregister)?;
        self.unregistrations.push((unregister, callback));
        assert(self@.unregistrations =~= old(self)@.unregistrations.push((unregister@, callback)));
        Ok(())
    }

    /// Takes a subscription: keeps the frame of the request for the transport, and the
    /// request with its continuation until the reply comes. A request that
    /// cannot be written leaves the context as it was.
    pub fn subscribe(&mut self, subscribe: Subscribe, callback: K) -> (r: Result<(), Error>)
        ensures
            match frame(Subscribe::spec_encode(subscribe@)) {
                Some(text) => r is Ok && final(self)@ == old(self)@.with_subscribe(
                    subscribe@,
                    callback,
                    text,
                ),
                None => {
                    &&& final(self)@ == old(self)@
                    &&& r matches Err(error) && rejection(
                        Subscribe::spec_encode(subscribe@),
                        error@,
                    )
                },
            },
            old(self)@.wf() && first_match::<Subscribe, K>(
                old(self)@.subscriptions,
                subscribe.request_id,
            ) is None ==> final(self)@.wf(),
    {
        proof {
            if old(self)@.wf() && first_match::<Subscribe, K>(
                old(self)@.subscriptions,
                subscribe.request_id,
            ) is None {
                lemma_push_distinct::<Subscribe, K>(old(self)@.subscriptions, subscribe@, callback);
            }
        }
        self.send(&subscribe)?;
        self.subscriptions.push((subscribe, callback));
        assert(self@.subscriptions =~= old(self)@.subscriptions.push((subscribe@, callback)));
        Ok(())
    }

    /// Takes an unsubscription: keeps the frame of the request for the transport, and the
    /// request with its continuation until the reply comes. A request that
    /// cannot be written leaves the context as it was.
    pub fn unsubscribe(&mut self, unsubscribe: Unsubscribe, callback: K) -> (r: Result<(), Error>)
        ensures
            match frame(Unsubscribe::spec_encode(unsubscribe@)) {
                Some(text) => r is Ok && final(self)@ == old(self)@.with_unsubscribe(
                    unsubscribe@,
                    callback,
                    text,
                ),
                None => {
                    &&& final(self)@ == old(self)@
                    &&& r matches Err(error) && rejection(
                        Unsubscribe::spec_encode(unsubscribe@),
                        error@,
                    )
                },
            },
            old(self)@.wf() && first_match::<Unsubscribe, K>(
                old(self)@.unsubscriptions,
                unsubscribe.request_id,
            ) is None ==> final(self)@.wf(),
    {
        proof {
            if old(self)@.wf() && first_match::<Unsubscribe, K>(
                old(self)@.unsubscriptions,
                unsubscribe.request_id,
            ) is None {
                lemma_push_distinct::<Unsubscribe, K>(old(self)@.unsubscriptions, unsubscribe@, callback);
            }
        }
        self.send(&unsubscribe)?;
        self.unsubscriptions.push((unsubscribe, callback));
        assert(self@.unsubscriptions =~= old(self)@.unsubscriptions.push((unsubscribe@, callback)));
        Ok(())
    }

    /// Takes a publication: keeps the frame of the request for the transport, and the
    /// request with its continuation until the reply comes. A request that
    /// cannot be written leaves the context as it was.
    pub fn publish(&mut self, publish: Publish, callback: K) -> (r: Result<(), Error>)
        ensures
            match frame(Publish::spec_encode(publish@)) {
                Some(text) => r is Ok && final(self)@ == old(self)@.with_publish(
                    publish@,
                    callback,
                    text,
                ),
                None => {
                    &&& final(self)@ == old(self)@
                    &&& r matches Err(error) && rejection(
                        Publish::spec_encode(publish@),
                        error@,
                    )
                },
            },
            old(self)@.wf() && first_match::<Publish, K>(
                old(self)@.publications,
                publish.request_id,
            ) is None ==> final(self)@.wf(),
    {
        proof {
            if old(self)@.wf() && first_match::<Publish, K>(
                old(self)@.publications,
                publish.request_id,
            ) is None {
                lemma_push_distinct::<Publish, K>(old(self)@.publications, publish@, callback);
            }
        }
        self.send(&publish)?;
        self.publications.push((publish, callback));
        assert(self@.publications =~= old(self)@.publications.push((publish@, callback)));
        Ok(())
    }

    /// Takes a call: keeps the frame of the request for the transport, and the
    /// request with its continuation until the reply comes. A request that
    /// cannot be written leaves the context as it was.
    pub fn call(&mut self, call: Call, callback: K) -> (r: Result<(), Error>)
        ensures
            match frame(Call::spec_encode(call@)) {
                Some(text) => r is Ok && final(self)@ == old(self)@.with_call(
                    call@,
                    callback,
                    text,
                ),
                None => {
                    &&& final(self)@ == old(self)@
                    &&& r matches Err(error) && rejection(
                        Call::spec_encode(call@),
                        error@,
                    )
                },
            },
            old(self)@.wf() && first_match::<Call, K>(
                old(self)@.calls,
                call.request_id,
            ) is None ==> final(self)@.wf(),
    {
        proof {
            if old(self)@.wf() && first_match::<Call, K>(
                old(self)@.calls,
                call.request_id,
            ) is None {
                lemma_push_distinct::<Call, K>(old(self)@.calls, call@, callback);
            }
        }
        self.send(&call)?;
        self.calls.push((call, callback));
        assert(self@.calls =~= old(self)@.calls.push((call@, callback)));
        Ok(())
    }

    /// Takes a cancelation: keeps the frame of the request for the transport, and the
    /// request with its continuation until the reply comes. A request that
    /// cannot be written leaves the context as it was.
    pub fn cancel(&mut self, cancel: Cancel, callback: K) -> (r: Result<(), Error>)
        ensures
            match frame(Cancel::spec_encode(cancel@)) {
                Some(text) => r is Ok && final(self)@ == old(self)@.with_cancel(
                    cancel@,
                    callback,
                    text,
                ),
                None => {
                    &&& final(self)@ == old(self)@
                    &&& r matches Err(error) && rejection(
                        Cancel::spec_encode(cancel@),
                        error@,
                    )
                },
            },
            old(self)@.wf() && first_match::<Cancel, K>(
                old(self)@.cancelations,
                cancel.request_id,
            ) is None ==> final(self)@.wf(),
    {
        proof {
            if old(self)@.wf() && first_match::<Cancel, K>(
                old(self)@.cancelations,
                cancel.request_id,
            ) is None {
                lemma_push_distinct::<Cancel, K>(old(self)@.cancelations, cancel@, callback);
            }
        }
        self.send(&cancel)?;
        self.cancelations.push((cancel, callback));
        assert(self@.cancelations =~= old(self)@.cancelations.push((cancel@, callback)));
        Ok(())
    }

    /// Takes a listener for the events of a subscription. Nothing is sent.
    pub fn event(&mut self, subscribed: Subscribed, callback: K) -> (r: Result<(), Error>)
        ensures
            r is Ok,
            final(self)@ == old(self)@.with_event(subscribed@, callback),
            old(self)@.wf() ==> final(self)@.wf(),
    {
        self.events.push((subscribed, callback));
        assert(self@.events =~= old(self)@.events.push((subscribed@, callback)));
        Ok(())
    }

    /// Takes a listener for the invocations of a registration: keeps the frame
    /// of the registration for the transport and the listener with its
    /// continuation. A registration that cannot be written leaves the context
    /// as it was.
    pub fn invocation(&mut self, invocation: Registered, callback: K) -> (r: Result<(), Error>)
        ensures
            match frame(Registered::spec_encode(invocation@)) {
                Some(text) => r is Ok && final(self)@ == old(self)@.with_invocation(
                    invocation@,
                    callback,
                    text,
                ),
                None => {
                    &&& final(self)@ == old(self)@
                    &&& r matches Err(error) && rejection(
                        Registered::spec_encode(invocation@),
                        error@,
                    )
                },
            },
            old(self)@.wf() ==> final(self)@.wf(),
    {
        self.send(&invocation)?;
        self.invocations.push((invocation, callback));
        assert(self@.invocations =~= old(self)@.invocations.push((invocation@, callback)));
        Ok(())
    }

    /// The place of the first registration that a reply answers.
    pub fn find_register(&self, registered: &Registered) -> (r: Option<usize>)
        ensures
            match r {
                Some(i) => first_match::<Register, K>(
                    self@.registrations,
                    registered.request_id,
                ) == Some(i as int),
                None => first_match::<Register, K>(
                    self@.registrations,
                    registered.request_id,
                ) is None,
            },
    {
        position(&self.registrations, registered.request_id)
    }

    /// The place of the first unregistration that a reply answers.
    pub fn find_unregister(&self, unregistered: &Unregistered) -> (r: Option<usize>)
        ensures
            match r {
                Some(i) => first_match::<Unregister, K>(
                    self@.unregistrations,
                    unregistered.request_id,
                ) == Some(i as int),
                None => first_match::<Unregister, K>(
                    self@.unregistrations,
                    unregistered.request_id,
                ) is None,
            },
    {
        position(&self.unregistrations, unregistered.request_id)
    }

    /// The place of the first listener for the subscription of an event.
    pub fn find_event(&self, event: &Event) -> (r: Option<usize>)
        ensures
            match r {
                Some(i) => first_match::<Subscribed, K>(
                    self@.events,
                    event.subscription,
                ) == Some(i as int),
                None => first_match::<Subscribed, K>(
                    self@.events,
                    event.subscription,
                ) is None,
            },
    {
        position(&self.events, event.subscription)
    }

    /// The place of the first unsubscription that a reply answers.
    pub fn find_unsubscribe(&self, unsubscribed: &Unsubscribed) -> (r: Option<usize>)
        ensures
            match r {
                Some(i) => first_match::<Unsubscribe, K>(
                    self@.unsubscriptions,
                    unsubscribed.request_id,
                ) == Some(i as int),
                None => first_match::<Unsubscribe, K>(
                    self@.unsubscriptions,
                    unsubscribed.request_id,
                ) is None,
            },
    {
        position(&self.unsubscriptions, unsubscribed.request_id)
    }

    /// The place of the first subscription that a reply answers.
    pub fn find_subscribe(&self, subscribed: &Subscribed) -> (r: Option<usize>)
        ensures
            match r {
                Some(i) => first_match::<Subscribe, K>(
                    self@.subscriptions,
                    subscribed.request_id,
                ) == Some(i as int),
                None => first_match::<Subscribe, K>(
                    self@.subscriptions,
                    subscribed.request_id,
                ) is None,
            },
    {
        position(&self.subscriptions, subscribed.request_id)
    }

    /// The place of the first publication that a reply answers.
    pub fn find_publish(&self, published: &Published) -> (r: Option<usize>)
        ensures
            match r {
                Some(i) => first_match::<Publish, K>(
                    self@.publications,
                    published.request_id,
                ) == Some(i as int),
                None => first_match::<Publish, K>(
                    self@.publications,
                    published.request_id,
                ) is None,
            },
    {
        position(&self.publications, published.request_id)
    }

    /// The place of the first call that a reply answers.
    pub fn find_call(&self, result: &WampResult) -> (r: Option<usize>)
        ensures
            match r {
                Some(i) => first_match::<Call, K>(
                    self@.calls,
                    result.request_id,
                ) == Some(i as int),
                None => first_match::<Call, K>(
                    self@.calls,
                    result.request_id,
                ) is None,
            },
    {
        position(&self.calls, result.request_id)
    }

    /// The place of the first listener whose registration was asked for under
    /// the request id of an invocation.
    pub fn find_invocation(&self, invocation: &Invocation) -> (r: Option<usize>)
        ensures
            match r {
                Some(i) => first_match::<Registered, K>(
                    self@.invocations,
                    invocation.request_id,
                ) == Some(i as int),
                None => first_match::<Registered, K>(
                    self@.invocations,
                    invocation.request_id,
                ) is None,
            },
    {
        position(&self.invocations, invocation.request_id)
    }

    /// The place of the first cancelation that a reply answers.
    pub fn find_cancel(&self, interrupt: &Interrupt) -> (r: Option<usize>)
        ensures
            match r {
                Some(i) => first_match::<Cancel, K>(
                    self@.cancelations,
                    interrupt.request_id,
                ) == Some(i as int),
                None => first_match::<Cancel, K>(
                    self@.cancelations,
                    interrupt.request_id,
                ) is None,
            },
    {
        position(&self.cancelations, interrupt.request_id)
    }

    /// The place of the first unsubscription that an error answers.
    pub fn find_by_error_unsubscribe(&self, error: &WampError) -> (r: Option<usize>)
        ensures
            match r {
                Some(i) => first_match::<Unsubscribe, K>(
                    self@.unsubscriptions,
                    error.request_id,
                ) == Some(i as int),
                None => first_match::<Unsubscribe, K>(
                    self@.unsubscriptions,
                    error.request_id,
                ) is None,
            },
    {
        position(&self.unsubscriptions, error.request_id)
    }

    /// The place of the first subscription that an error answers.
    pub fn find_by_error_subscribe(&self, error: &WampError) -> (r: Option<usize>)
        ensures
            match r {
                Some(i) => first_match::<Subscribe, K>(
                    self@.subscriptions,
                    error.request_id,
                ) == Some(i as int),
                None => first_match::<Subscribe, K>(
                    self@.subscriptions,
                    error.request_id,
                ) is None,
            },
    {
        position(&self.subscriptions, error.request_id)
    }

    /// The place of the first publication that an error answers.
    pub fn find_by_error_publish(&self, error: &WampError) -> (r: Option<usize>)
        ensures
            match r {
                Some(i) => first_match::<Publish, K>(
                    self@.publications,
                    error.request_id,
                ) == Some(i as int),
                None => first_match::<Publish, K>(
                    self@.publications,
                    error.request_id,
                ) is None,
            },
    {
        position(&self.publications, error.request_id)
    }

    /// The place of the first registration that an error answers.
    pub fn find_by_error_register(&self, error: &WampError) -> (r: Option<usize>)
        ensures
            match r {
                Some(i) => first_match::<Register, K>(
                    self@.registrations,
                    error.request_id,
                ) == Some(i as int),
                None => first_match::<Register, K>(
                    self@.registrations,
                    error.request_id,
                ) is None,
            },
    {
        position(&self.registrations, error.request_id)
    }

    /// The place of the first unregistration that an error answers.
    pub fn find_by_error_unregister(&self, error: &WampError) -> (r: Option<usize>)
        ensures
            match r {
                Some(i) => first_match::<Unregister, K>(
                    self@.unregistrations,
                    error.request_id,
                ) == Some(i as int),
                None => first_match::<Unregister, K>(
                    self@.unregistrations,
                    error.request_id,
                ) is None,
            },
    {
        position(&self.unregistrations, error.request_id)
    }

    /// The place of the first cancelation that an error answers.
    pub fn find_by_error_cancel(&self, error: &WampError) -> (r: Option<usize>)
        ensures
            match r {
                Some(i) => first_match::<Cancel, K>(
                    self@.cancelations,
                    error.request_id,
                ) == Some(i as int),
                None => first_match::<Cancel, K>(
                    self@.cancelations,
                    error.request_id,
                ) is None,
            },
    {
        position(&self.cancelations, error.request_id)
    }

    /// The place of the first call that an error answers.
    pub fn find_by_error_call(&self, error: &WampError) -> (r: Option<usize>)
        ensures
            match r {
                Some(i) => first_match::<Call, K>(
                    self@.calls,
                    error.request_id,
                ) == Some(i as int),
                None => first_match::<Call, K>(
                    self@.calls,
                    error.request_id,
                ) is None,
            },
    {
        position(&self.calls, error.request_id)
    }

    /// Puts the entries and the frames of another context behind those of this
    /// one, each collection in its order.
    pub fn extend(&mut self, ctx: Context<K>)
        ensures
            final(self)@ == old(self)@.extend(ctx@),
            old(self)@.wf() && ctx@.wf() && old(self)@.disjoint(ctx@) ==> final(self)@.wf(),
    {
        proof {
            if old(self)@.wf() && ctx@.wf() && old(self)@.disjoint(ctx@) {
                old(self)@.lemma_extend_wf(ctx@);
            }
        }
        let mut other = ctx;
        self.registrations.append(&mut other.registrations);
        self.unregistrations.append(&mut other.unregistrations);
        self.subscriptions.append(&mut other.subscriptions);
        self.unsubscriptions.append(&mut other.unsubscriptions);
        self.publications.append(&mut other.publications);
        self.calls.append(&mut other.calls);
        self.events.append(&mut other.events);
        self.invocations.append(&mut other.invocations);
        self.cancelations.append(&mut other.cancelations);
        self.messages.append(&mut other.messages);
        assert(self@.registrations =~= old(self)@.registrations + ctx@.registrations);
        assert(self@.unregistrations =~= old(self)@.unregistrations + ctx@.unregistrations);
        assert(self@.subscriptions =~= old(self)@.subscriptions + ctx@.subscriptions);
        assert(self@.unsubscriptions =~= old(self)@.unsubscriptions + ctx@.unsubscriptions);
        assert(self@.publications =~= old(self)@.publications + ctx@.publications);
        assert(self@.calls =~= old(self)@.calls + ctx@.calls);
        assert(self@.events =~= old(self)@.events + ctx@.events);
        assert(self@.invocations =~= old(self)@.invocations + ctx@.invocations);
        assert(self@.cancelations =~= old(self)@.cancelations + ctx@.cancelations);
        assert(self@.messages =~= old(self)@.messages + ctx@.messages);
    }
}

/// What a continuation of a request is called with: the reply to the request,
/// or the error that answers it.
#[derive(Debug, PartialEq, Eq)]
pub enum Response {
    Registered(Result<Registered, WampError>),
    Unregistered(Result<Unregistered, WampError>),
    Subscribed(Result<Subscribed, WampError>),
    Unsubscribed(Result<Unsubscribed, WampError>),
    Published(Result<Published, WampError>),
    Result(Result<WampResult, WampError>),
    Interrupt(Result<Interrupt, WampError>),
}

/// The mathematical model of a [`Response`].
pub enum ResponseView {
    Registered(Result<Registered, WampErrorView>),
    Unregistered(Result<Unregistered, WampErrorView>),
    Subscribed(Result<Subscribed, WampErrorView>),
    Unsubscribed(Result<Unsubscribed, WampErrorView>),
    Published(Result<Published, WampErrorView>),
    Result(Result<WampResultView, WampErrorView>),
    Interrupt(Result<InterruptView, WampErrorView>),
}

/// The model of a reply or of the error in its place.
pub open spec fn outcome<T: View>(r: Result<T, WampError>) -> Result<T::V, WampErrorView> {
    match r {
        Ok(reply) => Ok(reply@),
        Err(error) => Err(error@),
    }
}

impl View for Response {
    type V = ResponseView;

    open spec fn view(&self) -> ResponseView {
        match self {
            Response::Registered(r) => ResponseView::Registered(outcome(*r)),
            Response::Unregistered(r) => ResponseView::Unregistered(outcome(*r)),
            Response::Subscribed(r) => ResponseView::Subscribed(outcome(*r)),
            Response::Unsubscribed(r) => ResponseView::Unsubscribed(outcome(*r)),
            Response::Published(r) => ResponseView::Published(outcome(*r)),
            Response::Result(r) => ResponseView::Result(outcome(*r)),
            Response::Interrupt(r) => ResponseView::Interrupt(outcome(*r)),
        }
    }
}

/// A continuation that is to run, and what it is to be called with.
#[derive(Debug, PartialEq, Eq)]
pub enum Delivery<K> {
    /// The continuation of a request, which has left the context with its
    /// request, and the reply or the error that it waited for.
    Once { continuation: K, response: Response },
    /// The listener at `slot` of the events, which stays there, and the event.
    Event { slot: usize, event: Event },
    /// The listener at `slot` of the invocations, which stays there, and the
    /// invocation.
    Invocation { slot: usize, invocation: Invocation },
    /// The continuation for the welcome of the session.
    Welcome(Welcome),
    /// The continuation for the challenge of the session.
    Challenge(Challenge),
}

/// The mathematical model of a [`Delivery`].
pub enum DeliveryView<K> {
    Once { continuation: K, response: ResponseView },
    Event { slot: int, event: EventView },
    Invocation { slot: int, invocation: InvocationView },
    Welcome(WelcomeView),
    Challenge(ChallengeView),
}

impl<K> View for Delivery<K> {
    type V = DeliveryView<K>;

    open spec fn view(&self) -> DeliveryView<K> {
        match self {
            Delivery::Once { continuation, response } => DeliveryView::Once {
                continuation: *continuation,
                response: response@,
            },
            Delivery::Event { slot, event } => DeliveryView::Event {
                slot: *slot as int,
                event: event@,
            },
            Delivery::Invocation { slot, invocation } => DeliveryView::Invocation {
                slot: *slot as int,
                invocation: invocation@,
            },
            Delivery::Welcome(welcome) => DeliveryView::Welcome(welcome@),
            Delivery::Challenge(challenge) => DeliveryView::Challenge(challenge@),
        }
    }
}

/// The model of a delivery that may be none.
pub open spec fn delivered<K>(delivery: Option<Delivery<K>>) -> Option<DeliveryView<K>> {
    match delivery {
        Some(d) => Some(d@),
        None => None,
    }
}

/// The continuation of the first entry that `id` finds.
pub open spec fn found<R: Pending, K>(entries: Seq<(R::V, K)>, id: u64) -> Option<K> {
    match first_match::<R, K>(entries, id) {
        Some(i) => Some(entries[i].1),
        None => None,
    }
}

/// The collection without the first entry that `id` finds.
pub open spec fn taken<R: Pending, K>(entries: Seq<(R::V, K)>, id: u64) -> Seq<(R::V, K)> {
    match first_match::<R, K>(entries, id) {
        Some(i) => entries.remove(i),
        None => entries,
    }
}

/// The delivery of a response to the continuation of a request, where one
/// waited for it.
pub open spec fn once<K>(continuation: Option<K>, response: ResponseView) -> Option<
    DeliveryView<K>,
> {
    match continuation {
        Some(k) => Some(DeliveryView::Once { continuation: k, response }),
        None => None,
    }
}

/// A collection without one of its entries still has no two entries under
/// the same id.
pub proof fn lemma_taken_distinct<R: Pending, K>(entries: Seq<(R::V, K)>, id: u64)
    requires
        distinct_keys::<R, K>(entries),
    ensures
        distinct_keys::<R, K>(taken::<R, K>(entries, id)),
{
    match first_match::<R, K>(entries, id) {
        Some(at) => {
            let rest = entries.remove(at);
            assert forall|i: int, j: int| 0 <= i < j < rest.len() implies R::spec_key(
                #[trigger] rest[i].0,
            ) != R::spec_key(#[trigger] rest[j].0) by {
                let before_i = if i < at { i } else { i + 1 };
                let before_j = if j < at { j } else { j + 1 };
                assert(rest[i] == entries[before_i]);
                assert(rest[j] == entries[before_j]);
            }
        },
        None => {},
    }
}

/// Once the request under an id has left a collection in which no two
/// requests wait under the same id, the id finds nothing there.
pub proof fn lemma_taken_forgets<R: Pending, K>(entries: Seq<(R::V, K)>, id: u64)
    requires
        distinct_keys::<R, K>(entries),
    ensures
        first_match::<R, K>(taken::<R, K>(entries, id), id) is None,
{
    match first_match::<R, K>(entries, id) {
        Some(at) => {
            let rest = entries.remove(at);
            assert forall|j: int| 0 <= j < rest.len() implies R::spec_key(#[trigger] rest[j].0)
                != id by {
                let before = if j < at { j } else { j + 1 };
                assert(rest[j] == entries[before]);
                assert(R::spec_key(entries[at].0) == id);
            }
            lemma_no_match::<R, K>(rest, id);
        },
        None => {},
    }
}

/// A request under an id that finds nothing can join a collection without
/// two requests coming to wait under the same id.
pub proof fn lemma_push_distinct<R: Pending, K>(
    entries: Seq<(R::V, K)>,
    entry: R::V,
    callback: K,
)
    requires
        distinct_keys::<R, K>(entries),
        first_match::<R, K>(entries, R::spec_key(entry)) is None,
    ensures
        distinct_keys::<R, K>(entries.push((entry, callback))),
{
    let longer = entries.push((entry, callback));
    assert forall|i: int, j: int| 0 <= i < j < longer.len() implies R::spec_key(
        #[trigger] longer[i].0,
    ) != R::spec_key(#[trigger] longer[j].0) by {
        assert(longer[i] == entries[i]);
        if j == entries.len() {
            if R::spec_key(entries[i].0) == R::spec_key(entry) {
                lemma_some_match::<R, K>(entries, R::spec_key(entry), i);
            }
        } else {
            assert(longer[j] == entries[j]);
        }
    }
}

/// No id finds an entry in both collections.
pub open spec fn disjoint_keys<R: Pending, K>(
    entries: Seq<(R::V, K)>,
    others: Seq<(R::V, K)>,
) -> bool {
    forall|i: int, j: int|
        0 <= i < entries.len() && 0 <= j < others.len() ==> R::spec_key(#[trigger] entries[i].0)
            != R::spec_key(#[trigger] others[j].0)
}

/// Two collections that share no id can be put one behind the other without
/// two requests coming to wait under the same id.
pub proof fn lemma_add_distinct<R: Pending, K>(entries: Seq<(R::V, K)>, others: Seq<(R::V, K)>)
    requires
        distinct_keys::<R, K>(entries),
        distinct_keys::<R, K>(others),
        disjoint_keys::<R, K>(entries, others),
    ensures
        distinct_keys::<R, K>(entries + others),
{
    let both = entries + others;
    assert forall|i: int, j: int| 0 <= i < j < both.len() implies R::spec_key(
        #[trigger] both[i].0,
    ) != R::spec_key(#[trigger] both[j].0) by {
        if j < entries.len() {
            assert(both[i] == entries[i] && both[j] == entries[j]);
        } else if i < entries.len() {
            assert(both[i] == entries[i] && both[j] == others[j - entries.len()]);
        } else {
            assert(both[i] == others[i - entries.len()]);
            assert(both[j] == others[j - entries.len()]);
        }
    }
}

/// A request that has joined a collection in which no two requests wait under
/// the same id is the one that its id finds, and without it the collection is
/// what it was before.
pub proof fn lemma_last_is_found<R: Pending, K>(
    entries: Seq<(R::V, K)>,
    entry: R::V,
    callback: K,
)
    requires
        distinct_keys::<R, K>(entries.push((entry, callback))),
    ensures
        first_match::<R, K>(entries.push((entry, callback)), R::spec_key(entry)) == Some(
            entries.len() as int,
        ),
        found::<R, K>(entries.push((entry, callback)), R::spec_key(entry)) == Some(callback),
        taken::<R, K>(entries.push((entry, callback)), R::spec_key(entry)) == entries,
        first_match::<R, K>(entries, R::spec_key(entry)) is None,
{
    let longer = entries.push((entry, callback));
    let last = entries.len() as int;
    assert(longer[last].0 == entry);
    assert forall|j: int| 0 <= j < last implies R::spec_key(#[trigger] longer[j].0)
        != R::spec_key(entry) by {
        assert(R::spec_key(longer[j].0) != R::spec_key(longer[last].0));
    }
    assert(is_first_match::<R, K>(longer, R::spec_key(entry), last));
    lemma_first_match::<R, K>(longer, R::spec_key(entry), last);
    assert(longer.remove(last) =~= entries);
    assert forall|j: int| 0 <= j < entries.len() implies R::spec_key(#[trigger] entries[j].0)
        != R::spec_key(entry) by {
        assert(entries[j] == longer[j]);
    }
    lemma_no_match::<R, K>(entries, R::spec_key(entry));
}

/// Takes the entry at `place` out of a collection, and gives its continuation.
pub(crate) fn take_place<R: View, K>(entries: &mut Vec<(R, K)>, place: Option<usize>) -> (r: Option<
    K,
>)
    requires
        place matches Some(i) ==> i < old(entries).len(),
    ensures
        match place {
            Some(i) => r == Some(pending(*old(entries))[i as int].1) && pending(*final(entries))
                == pending(*old(entries)).remove(i as int),
            None => r is None && pending(*final(entries)) == pending(*old(entries)),
        },
{
    match place {
        Some(i) => {
            let entry = take_at(entries, i);
            Some(entry.1)
        },
        None => None,
    }
}

/// Pairs a continuation with the response that it waited for.
pub(crate) fn deliver_once<K>(continuation: Option<K>, response: Response) -> (r: Option<Delivery<K>>)
    ensures
        delivered(r) == once(continuation, response@),
{
    match continuation {
        Some(k) => Some(Delivery::Once { continuation: k, response }),
        None => None,
    }
}

impl<K> ContextView<K> {
    /// The continuation that waits for a message, and what it is to be called
    /// with. A reply finds the first request of its kind with its request id;
    /// an error finds the first request with its request id among those of the
    /// kind that it names; an event finds the first listener for its
    /// subscription, and an invocation the first listener with its request id.
    /// An error that names an invocation finds nothing, and neither does any
    /// other message.
    pub open spec fn awaited(self, message: MessagesView) -> Option<DeliveryView<K>> {
        match message {
            MessagesView::Published(m) => once(
                found::<Publish, K>(self.publications, m.request_id),
                ResponseView::Published(Ok(m)),
            ),
            MessagesView::Registered(m) => once(
                found::<Register, K>(self.registrations, m.request_id),
                ResponseView::Registered(Ok(m)),
            ),
            MessagesView::Subscribed(m) => once(
                found::<Subscribe, K>(self.subscriptions, m.request_id),
                ResponseView::Subscribed(Ok(m)),
            ),
            MessagesView::Result(m) => once(
                found::<Call, K>(self.calls, m.request_id),
                ResponseView::Result(Ok(m)),
            ),
            MessagesView::Unregistered(m) => once(
                found::<Unregister, K>(self.unregistrations, m.request_id),
                ResponseView::Unregistered(Ok(m)),
            ),
            MessagesView::Unsubscribed(m) => once(
                found::<Unsubscribe, K>(self.unsubscriptions, m.request_id),
                ResponseView::Unsubscribed(Ok(m)),
            ),
            MessagesView::Interrupt(m) => once(
                found::<Cancel, K>(self.cancelations, m.request_id),
                ResponseView::Interrupt(Ok(m)),
            ),
            MessagesView::Event(m) => match first_match::<Subscribed, K>(
                self.events,
                m.subscription,
            ) {
                Some(slot) => Some(DeliveryView::Event { slot, event: m }),
                None => None,
            },
            MessagesView::Invocation(m) => match first_match::<Registered, K>(
                self.invocations,
                m.request_id,
            ) {
                Some(slot) => Some(DeliveryView::Invocation { slot, invocation: m }),
                None => None,
            },
            MessagesView::Error(e) => match e.event {
                WampErrorEvent::Call => once(
                    found::<Call, K>(self.calls, e.request_id),
                    ResponseView::Result(Err(e)),
                ),
                WampErrorEvent::Unsubscribe => once(
                    found::<Unsubscribe, K>(self.unsubscriptions, e.request_id),
                    ResponseView::Unsubscribed(Err(e)),
                ),
                WampErrorEvent::Subscribe => once(
                    found::<Subscribe, K>(self.subscriptions, e.request_id),
                    ResponseView::Subscribed(Err(e)),
                ),
                WampErrorEvent::Publish => once(
                    found::<Publish, K>(self.publications, e.request_id),
                    ResponseView::Published(Err(e)),
                ),
                WampErrorEvent::Register => once(
                    found::<Register, K>(self.registrations, e.request_id),
                    ResponseView::Registered(Err(e)),
                ),
                WampErrorEvent::Unregister => once(
                    found::<Unregister, K>(self.unregistrations, e.request_id),
                    ResponseView::Unregistered(Err(e)),
                ),
                WampErrorEvent::Cancel => once(
                    found::<Cancel, K>(self.cancelations, e.request_id),
                    ResponseView::Interrupt(Err(e)),
                ),
                WampErrorEvent::Invocation => None,
            },
            _ => None,
        }
    }

    /// The context once a message has been delivered: the request that a
    /// reply or an error answers has left it, and everything else stays.
    /// Listeners stay.
    pub open spec fn settled(self, message: MessagesView) -> ContextView<K> {
        match message {
            MessagesView::Published(m) => ContextView {
                publications: taken::<Publish, K>(self.publications, m.request_id),
                ..self
            },
            MessagesView::Registered(m) => ContextView {
                registrations: taken::<Register, K>(self.registrations, m.request_id),
                ..self
            },
            MessagesView::Subscribed(m) => ContextView {
                subscriptions: taken::<Subscribe, K>(self.subscriptions, m.request_id),
                ..self
            },
            MessagesView::Result(m) => ContextView {
                calls: taken::<Call, K>(self.calls, m.request_id),
                ..self
            },
            MessagesView::Unregistered(m) => ContextView {
                unregistrations: taken::<Unregister, K>(self.unregistrations, m.request_id),
                ..self
            },
            MessagesView::Unsubscribed(m) => ContextView {
                unsubscriptions: taken::<Unsubscribe, K>(self.unsubscriptions, m.request_id),
                ..self
            },
            MessagesView::Interrupt(m) => ContextView {
                cancelations: taken::<Cancel, K>(self.cancelations, m.request_id),
                ..self
            },
            MessagesView::Error(e) => match e.event {
                WampErrorEvent::Call => ContextView {
                    calls: taken::<Call, K>(self.calls, e.request_id),
                    ..self
                },
                WampErrorEvent::Unsubscribe => ContextView {
                    unsubscriptions: taken::<Unsubscribe, K>(self.unsubscriptions, e.request_id),
                    ..self
                },
                WampErrorEvent::Subscribe => ContextView {
                    subscriptions: taken::<Subscribe, K>(self.subscriptions, e.request_id),
                    ..self
                },
                WampErrorEvent::Publish => ContextView {
                    publications: taken::<Publish, K>(self.publications, e.request_id),
                    ..self
                },
                WampErrorEvent::Register => ContextView {
                    registrations: taken::<Register, K>(self.registrations, e.request_id),
                    ..self
                },
                WampErrorEvent::Unregister => ContextView {
                    unregistrations: taken::<Unregister, K>(self.unregistrations, e.request_id),
                    ..self
                },
                WampErrorEvent::Cancel => ContextView {
                    cancelations: taken::<Cancel, K>(self.cancelations, e.request_id),
                    ..self
                },
                WampErrorEvent::Invocation => self,
            },
            _ => self,
        }
    }
}

impl<K> ContextView<K> {
    /// The delivery of a message keeps a context in which at most one request
    /// of each kind waits under each id so.
    pub proof fn lemma_settled_wf(self, message: MessagesView)
        requires
            self.wf(),
        ensures
            self.settled(message).wf(),
    {
        match message {
            MessagesView::Published(m) => lemma_taken_distinct::<Publish, K>(
                self.publications,
                m.request_id,
            ),
            MessagesView::Registered(m) => lemma_taken_distinct::<Register, K>(
                self.registrations,
                m.request_id,
            ),
            MessagesView::Subscribed(m) => lemma_taken_distinct::<Subscribe, K>(
                self.subscriptions,
                m.request_id,
            ),
            MessagesView::Result(m) => lemma_taken_distinct::<Call, K>(
                self.calls,
                m.request_id,
            ),
            MessagesView::Unregistered(m) => lemma_taken_distinct::<Unregister, K>(
                self.unregistrations,
                m.request_id,
            ),
            MessagesView::Unsubscribed(m) => lemma_taken_distinct::<Unsubscribe, K>(
                self.unsubscriptions,
                m.request_id,
            ),
            MessagesView::Interrupt(m) => lemma_taken_distinct::<Cancel, K>(
                self.cancelations,
                m.request_id,
            ),
            MessagesView::Error(e) => match e.event {
                WampErrorEvent::Call => lemma_taken_distinct::<Call, K>(
                    self.calls,
                    e.request_id,
                ),
                WampErrorEvent::Unsubscribe => lemma_taken_distinct::<Unsubscribe, K>(
                    self.unsubscriptions,
                    e.request_id,
                ),
                WampErrorEvent::Subscribe => lemma_taken_distinct::<Subscribe, K>(
                    self.subscriptions,
                    e.request_id,
                ),
                WampErrorEvent::Publish => lemma_taken_distinct::<Publish, K>(
                    self.publications,
                    e.request_id,
                ),
                WampErrorEvent::Register => lemma_taken_distinct::<Register, K>(
                    self.registrations,
                    e.request_id,
                ),
                WampErrorEvent::Unregister => lemma_taken_distinct::<Unregister, K>(
                    self.unregistrations,
                    e.request_id,
                ),
                WampErrorEvent::Cancel => lemma_taken_distinct::<Cancel, K>(
                    self.cancelations,
                    e.request_id,
                ),
                WampErrorEvent::Invocation => {},
            },
            _ => {},
        }
    }
}

impl<K> Context<K> {
    /// Finds the continuation that waits for a message, and takes out the
    /// request that the message answers.
    pub fn settle(&mut self, message: &Messages) -> (r: Option<Delivery<K>>)
        ensures
            delivered(r) == old(self)@.awaited(message@),
            final(self)@ == old(self)@.settled(message@),
            old(self)@.wf() ==> final(self)@.wf(),
    {
        proof {
            if old(self)@.wf() {
                old(self)@.lemma_settled_wf(message@);
            }
        }
        match message {
            Messages::Published(m) => {
                let place = self.find_publish(m);
                let continuation = take_place(&mut self.publications, place);
                deliver_once(continuation, Response::Published(Ok(*m)))
            },
            Messages::Registered(m) => {
                let place = self.find_register(m);
                let continuation = take_place(&mut self.registrations, place);
                deliver_once(continuation, Response::Registered(Ok(*m)))
            },
            Messages::Subscribed(m) => {
                let place = self.find_subscribe(m);
                let continuation = take_place(&mut self.subscriptions, place);
                deliver_once(continuation, Response::Subscribed(Ok(*m)))
            },
            Messages::Result(m) => {
                let place = self.find_call(m);
                let continuation = take_place(&mut self.calls, place);
                deliver_once(continuation, Response::Result(Ok(m.clone())))
            },
            Messages::Unregistered(m) => {
                let place = self.find_unregister(m);
                let continuation = take_place(&mut self.unregistrations, place);
                deliver_once(continuation, Response::Unregistered(Ok(*m)))
            },
            Messages::Unsubscribed(m) => {
                let place = self.find_unsubscribe(m);
                let continuation = take_place(&mut self.unsubscriptions, place);
                deliver_once(continuation, Response::Unsubscribed(Ok(*m)))
            },
            Messages::Interrupt(m) => {
                let place = self.find_cancel(m);
                let continuation = take_place(&mut self.cancelations, place);
                deliver_once(continuation, Response::Interrupt(Ok(m.clone())))
            },
            Messages::Event(m) => match self.find_event(m) {
                Some(slot) => Some(Delivery::Event { slot, event: m.clone() }),
                None => None,
            },
            Messages::Invocation(m) => match self.find_invocation(m) {
                Some(slot) => Some(Delivery::Invocation { slot, invocation: m.clone() }),
                None => None,
            },
            Messages::Error(e) => match e.event {
                WampErrorEvent::Call => {
                    let place = self.find_by_error_call(e);
                    let continuation = take_place(&mut self.calls, place);
                    deliver_once(continuation, Response::Result(Err(e.clone())))
                },
                WampErrorEvent::Unsubscribe => {
                    let place = self.find_by_error_unsubscribe(e);
                    let continuation = take_place(&mut self.unsubscriptions, place);
                    deliver_once(continuation, Response::Unsubscribed(Err(e.clone())))
                },
                WampErrorEvent::Subscribe => {
                    let place = self.find_by_error_subscribe(e);
                    let continuation = take_place(&mut self.subscriptions, place);
                    deliver_once(continuation, Response::Subscribed(Err(e.clone())))
                },
                WampErrorEvent::Publish => {
                    let place = self.find_by_error_publish(e);
                    let continuation = take_place(&mut self.publications, place);
                    deliver_once(continuation, Response::Published(Err(e.clone())))
                },
                WampErrorEvent::Register => {
                    let place = self.find_by_error_register(e);
                    let continuation = take_place(&mut self.registrations, place);
                    deliver_once(continuation, Response::Registered(Err(e.clone())))
                },
                WampErrorEvent::Unregister => {
                    let place = self.find_by_error_unregister(e);
                    let continuation = take_place(&mut self.unregistrations, place);
                    deliver_once(continuation, Response::Unregistered(Err(e.clone())))
                },
                WampErrorEvent::Cancel => {
                    let place = self.find_by_error_cancel(e);
                    let continuation = take_place(&mut self.cancelations, place);
                    deliver_once(continuation, Response::Interrupt(Err(e.clone())))
                },
                WampErrorEvent::Invocation => None,
            },
            _ => None,
        }
    }
}

} // verus!
