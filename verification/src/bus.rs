//! The reload broadcast bus: one publisher, any number of subscribers.
//!
//! Every subscriber has a queue of its own, bounded by [`BUS_CAPACITY`]. A
//! subscriber receives each signal published after it subscribed, in publish
//! order. One that falls behind by more than the capacity loses its oldest
//! unconsumed signals; its next receive reports how many were lost, and it
//! stays subscribed. After the bus is closed, a subscriber that has drained
//! its queue is told so.

use vstd::prelude::*;

verus! {

/// How many unconsumed signals the bus keeps for each subscriber.
pub const BUS_CAPACITY: usize = 16;

/// The message pushed to browsers after a successful rebuild.
#[derive(Debug)]
pub struct ReloadSignal {
    pub message: String,
}

impl View for ReloadSignal {
    type V = Seq<char>;

    open spec fn view(&self) -> Seq<char> {
        self.message@
    }
}

impl ReloadSignal {
    /// The signal whose text is `reload`.
    pub fn reload() -> (signal: Self)
        ensures
            signal@ == "reload"@,
    {
        ReloadSignal { message: "reload".to_owned() }
    }

    /// A copy of this signal for one more subscriber.
    pub fn duplicate(&self) -> (copy: Self)
        ensures
            copy@ == self@,
    {
        ReloadSignal { message: self.message.clone() }
    }
}

/// The handle of one subscription.
pub type SubscriberId = u64;

/// What one subscriber has not consumed yet.
pub struct SubscriberView {
    /// The unconsumed signals, oldest first.
    pub pending: Seq<Seq<char>>,
    /// How many signals were dropped for it since its last lag report.
    pub missed: u64,
}

/// The bus as a mathematical value.
pub struct BusView {
    pub subscribers: Map<SubscriberId, SubscriberView>,
    pub closed: bool,
}

/// What a receive finds.
#[derive(Debug)]
pub enum Received {
    /// The oldest unconsumed signal.
    Signal(ReloadSignal),
    /// This many signals were dropped for the subscriber; it stays subscribed.
    Lagged(u64),
    /// Nothing is waiting.
    Empty,
    /// The bus is closed and drained, or the handle is not subscribed.
    Closed,
}

/// [`Received`] over character sequences.
pub enum ReceivedView {
    Signal(Seq<char>),
    Lagged(u64),
    Empty,
    Closed,
}

impl View for Received {
    type V = ReceivedView;

    open spec fn view(&self) -> ReceivedView {
        match self {
            Received::Signal(signal) => ReceivedView::Signal(signal@),
            Received::Lagged(n) => ReceivedView::Lagged(*n),
            Received::Empty => ReceivedView::Empty,
            Received::Closed => ReceivedView::Closed,
        }
    }
}

/// A subscriber that has nothing waiting and has missed nothing.
pub open spec fn fresh_subscriber() -> SubscriberView {
    SubscriberView { pending: Seq::empty(), missed: 0 }
}

/// `missed + 1`, held at the largest count.
pub open spec fn one_more_missed(missed: u64) -> u64 {
    if missed < u64::MAX {
        (missed + 1) as u64
    } else {
        missed
    }
}

/// One subscriber's queue after `message` was published: the message goes to
/// the back; a full queue first drops its oldest signal and counts it missed.
pub open spec fn deliver(subscriber: SubscriberView, message: Seq<char>) -> SubscriberView {
    if subscriber.pending.len() < BUS_CAPACITY {
        SubscriberView { pending: subscriber.pending.push(message), missed: subscriber.missed }
    } else {
        SubscriberView {
            pending: subscriber.pending.drop_first().push(message),
            missed: one_more_missed(subscriber.missed),
        }
    }
}

/// The bus after `message` was published: delivered to every subscriber of an
/// open bus; a closed bus is unchanged.
pub open spec fn published(bus: BusView, message: Seq<char>) -> BusView {
    if bus.closed {
        bus
    } else {
        BusView {
            subscribers: bus.subscribers.map_values(|s: SubscriberView| deliver(s, message)),
            closed: false,
        }
    }
}

/// What subscriber `id` finds when it receives.
pub open spec fn receive_outcome(bus: BusView, id: SubscriberId) -> ReceivedView {
    if !bus.subscribers.contains_key(id) {
        ReceivedView::Closed
    } else if bus.subscribers[id].missed > 0 {
        ReceivedView::Lagged(bus.subscribers[id].missed)
    } else if bus.subscribers[id].pending.len() > 0 {
        ReceivedView::Signal(bus.subscribers[id].pending[0])
    } else if bus.closed {
        ReceivedView::Closed
    } else {
        ReceivedView::Empty
    }
}

/// The bus after subscriber `id` received: a lag report clears the count, a
/// signal leaves the queue, anything else changes nothing.
pub open spec fn after_receive(bus: BusView, id: SubscriberId) -> BusView {
    if !bus.subscribers.contains_key(id) {
        bus
    } else if bus.subscribers[id].missed > 0 {
        BusView {
            subscribers: bus.subscribers.insert(
                id,
                SubscriberView { pending: bus.subscribers[id].pending, missed: 0 },
            ),
            closed: bus.closed,
        }
    } else if bus.subscribers[id].pending.len() > 0 {
        BusView {
            subscribers: bus.subscribers.insert(
                id,
                SubscriberView { pending: bus.subscribers[id].pending.drop_first(), missed: 0 },
            ),
            closed: bus.closed,
        }
    } else {
        bus
    }
}

/// The bus after a fresh subscriber joined under `id`.
pub open spec fn subscribed(bus: BusView, id: SubscriberId) -> BusView {
    BusView { subscribers: bus.subscribers.insert(id, fresh_subscriber()), closed: bus.closed }
}

/// The bus after subscriber `id` left.
pub open spec fn unsubscribed(bus: BusView, id: SubscriberId) -> BusView {
    BusView { subscribers: bus.subscribers.remove(id), closed: bus.closed }
}

/// One subscription: its handle, its queue and its count of lost signals.
struct Subscriber {
    id: SubscriberId,
    queue: Vec<ReloadSignal>,
    missed: u64,
}

impl View for Subscriber {
    type V = SubscriberView;

    closed spec fn view(&self) -> SubscriberView {
        SubscriberView { pending: self.queue@.map_values(|s: ReloadSignal| s@), missed: self.missed }
    }
}

/// The subscribers as a map from handle to what the subscriber holds.
spec fn subscribers_view(subscribers: Seq<Subscriber>) -> Map<SubscriberId, SubscriberView>
    decreases subscribers.len(),
{
    if subscribers.len() == 0 {
        Map::empty()
    } else {
        subscribers_view(subscribers.drop_last()).insert(
            subscribers.last().id,
            subscribers.last()@,
        )
    }
}

/// No two subscribers share a handle.
spec fn distinct_ids(subscribers: Seq<Subscriber>) -> bool {
    forall|i: int, j: int|
        0 <= i < j < subscribers.len() ==> (#[trigger] subscribers[i]).id != (
        #[trigger] subscribers[j]).id
}

/// With distinct handles, the map holds exactly the handles of the
/// subscribers, each with what its subscriber holds.
proof fn lemma_subscribers_view(subscribers: Seq<Subscriber>)
    requires
        distinct_ids(subscribers),
    ensures
        forall|id: SubscriberId|
            #[trigger] subscribers_view(subscribers).contains_key(id) <==> exists|i: int|
                0 <= i < subscribers.len() && (#[trigger] subscribers[i]).id == id,
        forall|i: int|
            0 <= i < subscribers.len() ==> subscribers_view(subscribers).contains_key(
                (#[trigger] subscribers[i]).id,
            ) && subscribers_view(subscribers)[subscribers[i].id] == subscribers[i]@,
    decreases subscribers.len(),
{
    if subscribers.len() > 0 {
        let front = subscribers.drop_last();
        let last = subscribers.last();
        assert forall|i: int, j: int| 0 <= i < j < front.len() implies (#[trigger] front[i]).id != (
        #[trigger] front[j]).id by {
            assert(front[i] == subscribers[i] && front[j] == subscribers[j]);
        }
        lemma_subscribers_view(front);
        assert(subscribers_view(subscribers) == subscribers_view(front).insert(last.id, last@));
        assert forall|id: SubscriberId| #[trigger]
            subscribers_view(subscribers).contains_key(id) <==> exists|i: int|
                0 <= i < subscribers.len() && (#[trigger] subscribers[i]).id == id by {
            if subscribers_view(subscribers).contains_key(id) {
                if id == last.id {
                    assert(subscribers[subscribers.len() - 1].id == id);
                } else {
                    assert(subscribers_view(front).contains_key(id));
                    let i = choose|i: int| 0 <= i < front.len() && (#[trigger] front[i]).id == id;
                    assert(front[i] == subscribers[i]);
                    assert(subscribers[i].id == id);
                }
            }
            if exists|i: int| 0 <= i < subscribers.len() && (#[trigger] subscribers[i]).id == id {
                let i = choose|i: int|
                    0 <= i < subscribers.len() && (#[trigger] subscribers[i]).id == id;
                if i < front.len() {
                    assert(front[i] == subscribers[i]);
                    assert(front[i].id == id);
                    assert(subscribers_view(front).contains_key(id));
                }
            }
        }
        assert forall|i: int| 0 <= i < subscribers.len() implies subscribers_view(
            subscribers,
        ).contains_key((#[trigger] subscribers[i]).id) && subscribers_view(
            subscribers,
        )[subscribers[i].id] == subscribers[i]@ by {
            if i < front.len() {
                assert(front[i] == subscribers[i]);
                assert(subscribers[i].id != subscribers[subscribers.len() - 1].id);
            }
        }
    }
}

/// Replacing the state of the subscriber at one position, under the same
/// handle, is an insertion under that handle.
proof fn lemma_view_update(before: Seq<Subscriber>, after: Seq<Subscriber>, at: int)
    requires
        distinct_ids(before),
        0 <= at < before.len(),
        after.len() == before.len(),
        after[at].id == before[at].id,
        forall|j: int| 0 <= j < before.len() && j != at ==> after[j] == before[j],
    ensures
        distinct_ids(after),
        subscribers_view(after) == subscribers_view(before).insert(before[at].id, after[at]@),
{
    assert forall|i: int, j: int| 0 <= i < j < after.len() implies (#[trigger] after[i]).id != (
    #[trigger] after[j]).id by {
        assert(after[i].id == before[i].id && after[j].id == before[j].id);
    }
    lemma_subscribers_view(before);
    lemma_subscribers_view(after);
    let expected = subscribers_view(before).insert(before[at].id, after[at]@);
    assert forall|k: SubscriberId| #[trigger]
        subscribers_view(after).contains_key(k) <==> expected.contains_key(k) by {
        if subscribers_view(after).contains_key(k) {
            let i = choose|i: int| 0 <= i < after.len() && (#[trigger] after[i]).id == k;
            assert(before[i].id == k);
        }
        if subscribers_view(before).contains_key(k) {
            let i = choose|i: int| 0 <= i < before.len() && (#[trigger] before[i]).id == k;
            assert(after[i].id == k);
        }
        if k == before[at].id {
            assert(after[at].id == k);
        }
    }
    assert forall|k: SubscriberId| #[trigger]
        subscribers_view(after).contains_key(k) implies subscribers_view(after)[k]
        == expected[k] by {
        let i = choose|i: int| 0 <= i < after.len() && (#[trigger] after[i]).id == k;
        if i != at {
            assert(after[i] == before[i]);
            assert(before[i].id != before[at].id);
        }
    }
    assert(subscribers_view(after) =~= expected);
}

/// Delivering to every subscriber in place is delivering to every entry of
/// the map.
proof fn lemma_view_deliver(before: Seq<Subscriber>, after: Seq<Subscriber>, message: Seq<char>)
    requires
        distinct_ids(before),
        after.len() == before.len(),
        forall|j: int|
            0 <= j < before.len() ==> (#[trigger] after[j]).id == before[j].id && after[j]@
                == deliver(before[j]@, message),
    ensures
        distinct_ids(after),
        subscribers_view(after) == subscribers_view(before).map_values(
            |s: SubscriberView| deliver(s, message),
        ),
{
    assert forall|i: int, j: int| 0 <= i < j < after.len() implies (#[trigger] after[i]).id != (
    #[trigger] after[j]).id by {
        assert(after[i].id == before[i].id && after[j].id == before[j].id);
    }
    lemma_subscribers_view(before);
    lemma_subscribers_view(after);
    let expected = subscribers_view(before).map_values(|s: SubscriberView| deliver(s, message));
    assert forall|k: SubscriberId| #[trigger]
        subscribers_view(after).contains_key(k) <==> expected.contains_key(k) by {
        if subscribers_view(after).contains_key(k) {
            let i = choose|i: int| 0 <= i < after.len() && (#[trigger] after[i]).id == k;
            assert(before[i].id == k);
        }
        if subscribers_view(before).contains_key(k) {
            let i = choose|i: int| 0 <= i < before.len() && (#[trigger] before[i]).id == k;
            assert(after[i].id == k);
        }
    }
    assert forall|k: SubscriberId| #[trigger]
        subscribers_view(after).contains_key(k) implies subscribers_view(after)[k]
        == expected[k] by {
        let i = choose|i: int| 0 <= i < after.len() && (#[trigger] after[i]).id == k;
        assert(before[i].id == k);
    }
    assert(subscribers_view(after) =~= expected);
}

/// A bus with distinct handles has as many entries as subscribers.
proof fn lemma_view_len(subscribers: Seq<Subscriber>)
    requires
        distinct_ids(subscribers),
    ensures
        subscribers_view(subscribers).dom().finite(),
        subscribers_view(subscribers).len() == subscribers.len(),
    decreases subscribers.len(),
{
    if subscribers.len() > 0 {
        let front = subscribers.drop_last();
        assert forall|i: int, j: int| 0 <= i < j < front.len() implies (#[trigger] front[i]).id != (
        #[trigger] front[j]).id by {
            assert(front[i] == subscribers[i] && front[j] == subscribers[j]);
        }
        lemma_view_len(front);
        lemma_subscribers_view(front);
        if subscribers_view(front).contains_key(subscribers.last().id) {
            let i = choose|i: int|
                0 <= i < front.len() && (#[trigger] front[i]).id == subscribers.last().id;
            assert(front[i] == subscribers[i]);
            assert(subscribers[i].id != subscribers[subscribers.len() - 1].id);
        }
    }
}

/// The bus itself.
pub struct ReloadBus {
    subscribers: Vec<Subscriber>,
    next_id: SubscriberId,
    closed: bool,
}

impl View for ReloadBus {
    type V = BusView;

    closed spec fn view(&self) -> BusView {
        BusView { subscribers: subscribers_view(self.subscribers@), closed: self.closed }
    }
}

/// Handles are distinct and were all given out already, and no queue holds
/// more than the bus keeps.
spec fn well_formed(subscribers: Seq<Subscriber>, next_id: SubscriberId) -> bool {
    &&& distinct_ids(subscribers)
    &&& forall|i: int| 0 <= i < subscribers.len() ==> (#[trigger] subscribers[i]).id < next_id
    &&& forall|i: int|
        0 <= i < subscribers.len() ==> (#[trigger] subscribers[i]).queue.len() <= BUS_CAPACITY
}

impl ReloadBus {
    /// What holds of every bus at all times.
    #[verifier::type_invariant]
    spec fn inv(self) -> bool {
        well_formed(self.subscribers@, self.next_id)
    }

    /// No further handle can be given out: the handles are used up.
    pub closed spec fn exhausted(&self) -> bool {
        self.next_id == u64::MAX
    }

    /// The handle that the next subscription gets.
    pub closed spec fn next_handle(&self) -> SubscriberId {
        self.next_id
    }

    /// An open bus without subscribers.
    pub fn new() -> (bus: Self)
        ensures
            bus@.subscribers == Map::<SubscriberId, SubscriberView>::empty(),
            bus@.subscribers.dom().finite(),
            !bus@.closed,
            !bus.exhausted(),
    {
        ReloadBus { subscribers: Vec::new(), next_id: 0, closed: false }
    }

    /// Whether the bus has been closed.
    pub fn is_closed(&self) -> (closed: bool)
        ensures
            closed == self@.closed,
    {
        self.closed
    }

    /// Where the subscriber with the handle `id` stands, if there is one.
    fn position(&self, id: SubscriberId) -> (at: Option<usize>)
        ensures
            match at {
                Some(i) => i < self.subscribers.len() && self.subscribers[i as int].id == id,
                None => !self@.subscribers.contains_key(id),
            },
            at is Some <==> self@.subscribers.contains_key(id),
    {
        let mut i: usize = 0;
        while i < self.subscribers.len()
            invariant
                i <= self.subscribers.len(),
                forall|j: int| 0 <= j < i ==> (#[trigger] self.subscribers[j]).id != id,
            decreases self.subscribers.len() - i,
        {
            if self.subscribers[i].id == id {
                proof {
                    use_type_invariant(self);
                    lemma_subscribers_view(self.subscribers@);
                }
                return Some(i);
            }
            i += 1;
        }
        proof {
            use_type_invariant(self);
            lemma_subscribers_view(self.subscribers@);
        }
        None
    }

    /// Whether `id` is the handle of a live subscription.
    pub fn is_subscribed(&self, id: SubscriberId) -> (subscribed: bool)
        ensures
            subscribed == self@.subscribers.contains_key(id),
    {
        self.position(id).is_some()
    }

    /// Starts a subscription with nothing waiting: signals published before
    /// this call are never delivered to it. Yields no handle only when the
    /// handles are used up.
    pub fn subscribe(&mut self) -> (handle: Option<SubscriberId>)
        ensures
            old(self).exhausted() ==> handle is None && final(self)@ == old(self)@,
            !old(self).exhausted() ==> handle == Some(old(self).next_handle())
                && !old(self)@.subscribers.contains_key(old(self).next_handle())
                && final(self)@ == subscribed(old(self)@, old(self).next_handle()),
            old(self)@.subscribers.dom().finite(),
            final(self)@.subscribers.dom().finite(),
            final(self)@.subscribers.len() == old(self)@.subscribers.len() + (if handle is Some {
                1nat
            } else {
                0nat
            }),
    {
        proof {
            use_type_invariant(&*self);
            lemma_subscribers_view(self.subscribers@);
            lemma_view_len(self.subscribers@);
        }
        if self.next_id == u64::MAX {
            return None;
        }
        let id = self.next_id;
        let mut subscribers: Vec<Subscriber> = Vec::new();
        std::mem::swap(&mut subscribers, &mut self.subscribers);
        let ghost before = subscribers@;
        subscribers.push(Subscriber { id, queue: Vec::new(), missed: 0 });
        proof {
            assert(subscribers@.drop_last() == before);
            assert(subscribers@.last()@.pending =~= Seq::<Seq<char>>::empty());
            assert(subscribers@.last()@ == fresh_subscriber());
        }
        self.next_id = id + 1;
        self.subscribers = subscribers;
        Some(id)
    }

    /// Ends the subscription `id`, if there is one, and says whether there
    /// was. Other subscribers are untouched.
    pub fn unsubscribe(&mut self, id: SubscriberId) -> (was_subscribed: bool)
        ensures
            was_subscribed == old(self)@.subscribers.contains_key(id),
            final(self)@ == unsubscribed(old(self)@, id),
            final(self).exhausted() == old(self).exhausted(),
            old(self)@.subscribers.dom().finite(),
            final(self)@.subscribers.dom().finite(),
            final(self)@.subscribers.len() + (if was_subscribed {
                1nat
            } else {
                0nat
            }) == old(self)@.subscribers.len(),
    {
        proof {
            use_type_invariant(&*self);
            lemma_subscribers_view(self.subscribers@);
            lemma_view_len(self.subscribers@);
        }
        match self.position(id) {
            None => {
                assert(self@.subscribers.remove(id) =~= self@.subscribers);
                false
            },
            Some(i) => {
                let mut subscribers: Vec<Subscriber> = Vec::new();
                std::mem::swap(&mut subscribers, &mut self.subscribers);
                let ghost before = subscribers@;
                subscribers.remove(i);
                proof {
                    let after = subscribers@;
                    assert forall|a: int, b: int| 0 <= a < b < after.len() implies (
                    #[trigger] after[a]).id != (#[trigger] after[b]).id by {
                        let a0 = if a < i { a } else { a + 1 };
                        let b0 = if b < i { b } else { b + 1 };
                        assert(after[a] == before[a0] && after[b] == before[b0]);
                    }
                    assert forall|a: int| 0 <= a < after.len() implies (#[trigger] after[a]).id
                        < self.next_id && after[a].queue.len() <= BUS_CAPACITY by {
                        let a0 = if a < i { a } else { a + 1 };
                        assert(after[a] == before[a0]);
                    }
                    lemma_subscribers_view(after);
                    assert forall|k: SubscriberId| #[trigger]
                        subscribers_view(after).contains_key(k) <==> subscribers_view(
                            before,
                        ).remove(id).contains_key(k) by {
                        if subscribers_view(after).contains_key(k) {
                            let a = choose|a: int|
                                0 <= a < after.len() && (#[trigger] after[a]).id == k;
                            let a0 = if a < i { a } else { a + 1 };
                            assert(after[a] == before[a0]);
                            assert(before[a0].id != before[i as int].id);
                        }
                        if subscribers_view(before).remove(id).contains_key(k) {
                            let b = choose|b: int|
                                0 <= b < before.len() && (#[trigger] before[b]).id == k;
                            let b1 = if b < i { b } else { b - 1 };
                            assert(after[b1] == before[b]);
                        }
                    }
                    assert forall|k: SubscriberId| #[trigger]
                        subscribers_view(after).contains_key(k) implies subscribers_view(
                        after,
                    )[k] == subscribers_view(before).remove(id)[k] by {
                        let a = choose|a: int|
                            0 <= a < after.len() && (#[trigger] after[a]).id == k;
                        let a0 = if a < i { a } else { a + 1 };
                        assert(after[a] == before[a0]);
                    }
                    assert(subscribers_view(after) =~= subscribers_view(before).remove(id));
                }
                self.subscribers = subscribers;
                true
            },
        }
    }

    /// Withdraws the publisher: nothing more is delivered, and a subscriber
    /// that has drained its queue is told that the bus is closed.
    pub fn close(&mut self)
        ensures
            final(self)@ == (BusView { subscribers: old(self)@.subscribers, closed: true }),
            final(self).exhausted() == old(self).exhausted(),
            final(self)@.subscribers.dom().finite(),
    {
        proof {
            use_type_invariant(&*self);
            lemma_view_len(self.subscribers@);
        }
        self.closed = true;
    }

    /// How many subscriptions are live.
    pub fn subscriber_count(&self) -> (count: usize)
        ensures
            count == self@.subscribers.len(),
            self@.subscribers.dom().finite(),
    {
        proof {
            use_type_invariant(self);
            lemma_view_len(self.subscribers@);
        }
        self.subscribers.len()
    }

    /// Publishes one signal: every subscriber of an open bus gets a copy at
    /// the back of its queue, and one whose queue is full loses its oldest
    /// signal. Returns how many subscribers the signal went to; a closed bus
    /// delivers to none.
    pub fn publish(&mut self, signal: &ReloadSignal) -> (delivered: usize)
        ensures
            final(self)@ == published(old(self)@, signal@),
            final(self).exhausted() == old(self).exhausted(),
            delivered == if old(self)@.closed {
                0
            } else {
                old(self)@.subscribers.len()
            },
            final(self)@.subscribers.dom().finite(),
            final(self)@.subscribers.len() == old(self)@.subscribers.len(),
    {
        proof {
            use_type_invariant(&*self);
            lemma_view_len(self.subscribers@);
        }
        if self.closed {
            return 0;
        }
        let mut subscribers: Vec<Subscriber> = Vec::new();
        std::mem::swap(&mut subscribers, &mut self.subscribers);
        let ghost before = subscribers@;
        let mut i: usize = 0;
        while i < subscribers.len()
            invariant
                i <= subscribers.len(),
                subscribers.len() == before.len(),
                forall|j: int|
                    0 <= j < before.len() ==> (#[trigger] before[j]).queue.len() <= BUS_CAPACITY,
                forall|j: int|
                    0 <= j < i ==> (#[trigger] subscribers[j]).id == before[j].id
                        && subscribers[j]@ == deliver(before[j]@, signal@)
                        && subscribers[j].queue.len() <= BUS_CAPACITY,
                forall|j: int| i <= j < before.len() ==> #[trigger] subscribers[j] == before[j],
            decreases subscribers.len() - i,
        {
            let ghost entry = subscribers[i as int];
            assert(entry == before[i as int]);
            let ghost pending = entry@.pending;
            if subscribers[i].queue.len() >= BUS_CAPACITY {
                subscribers[i].queue.remove(0);
                if subscribers[i].missed < u64::MAX {
                    subscribers[i].missed += 1;
                }
                assert(subscribers[i as int]@.pending =~= pending.drop_first());
            }
            let ghost shortened = subscribers[i as int]@.pending;
            subscribers[i].queue.push(signal.duplicate());
            assert(subscribers[i as int]@.pending =~= shortened.push(signal@));
            assert(subscribers[i as int]@ == deliver(entry@, signal@));
            i += 1;
        }
        proof {
            lemma_view_deliver(before, subscribers@, signal@);
            lemma_view_len(subscribers@);
        }
        let delivered = subscribers.len();
        self.subscribers = subscribers;
        delivered
    }

    /// Receives for subscriber `id`: first a report of what it missed, if
    /// anything; else its oldest unconsumed signal; else, whether the bus is
    /// closed or merely has nothing for it. A handle that is not subscribed
    /// finds the bus closed.
    pub fn receive(&mut self, id: SubscriberId) -> (received: Received)
        ensures
            received@ == receive_outcome(old(self)@, id),
            final(self)@ == after_receive(old(self)@, id),
            final(self).exhausted() == old(self).exhausted(),
            final(self)@.subscribers.dom().finite(),
            final(self)@.subscribers.len() == old(self)@.subscribers.len(),
    {
        proof {
            use_type_invariant(&*self);
            lemma_subscribers_view(self.subscribers@);
            lemma_view_len(self.subscribers@);
        }
        let at = match self.position(id) {
            None => {
                return Received::Closed;
            },
            Some(at) => at,
        };
        let closed = self.closed;
        let mut subscribers: Vec<Subscriber> = Vec::new();
        std::mem::swap(&mut subscribers, &mut self.subscribers);
        let ghost before = subscribers@;
        let received = if subscribers[at].missed > 0 {
            let missed = subscribers[at].missed;
            subscribers[at].missed = 0;
            Received::Lagged(missed)
        } else if subscribers[at].queue.len() > 0 {
            let signal = subscribers[at].queue.remove(0);
            assert(subscribers[at as int]@.pending =~= before[at as int]@.pending.drop_first());
            assert(signal@ == before[at as int]@.pending[0]);
            Received::Signal(signal)
        } else if closed {
            Received::Closed
        } else {
            Received::Empty
        };
        proof {
            lemma_view_update(before, subscribers@, at as int);
            assert(subscribers_view(before).insert(id, before[at as int]@) =~= subscribers_view(
                before,
            ));
            lemma_view_len(subscribers@);
        }
        self.subscribers = subscribers;
        received
    }
}

/// The bus after every message of `messages` was published, in order.
pub open spec fn published_all(bus: BusView, messages: Seq<Seq<char>>) -> BusView
    decreases messages.len(),
{
    if messages.len() == 0 {
        bus
    } else {
        published(published_all(bus, messages.drop_last()), messages.last())
    }
}

/// The bus after subscriber `id` received `times` times in a row.
pub open spec fn after_receives(bus: BusView, id: SubscriberId, times: nat) -> BusView
    decreases times,
{
    if times == 0 {
        bus
    } else {
        after_receives(after_receive(bus, id), id, (times - 1) as nat)
    }
}

/// How many of `count` signals a subscriber that consumes none of them loses.
pub open spec fn overflow_of(count: nat) -> u64 {
    if count <= BUS_CAPACITY {
        0
    } else if count - BUS_CAPACITY <= u64::MAX {
        (count - BUS_CAPACITY) as u64
    } else {
        u64::MAX
    }
}

/// What a subscriber that had nothing waiting holds after `messages` were
/// published and it consumed none: the newest of them, up to the capacity,
/// and the count of those that it lost.
proof fn lemma_unconsumed(bus: BusView, id: SubscriberId, messages: Seq<Seq<char>>)
    requires
        !bus.closed,
        bus.subscribers.contains_key(id),
        bus.subscribers[id] == fresh_subscriber(),
    ensures
        !published_all(bus, messages).closed,
        published_all(bus, messages).subscribers.contains_key(id),
        published_all(bus, messages).subscribers[id].missed == overflow_of(messages.len()),
        published_all(bus, messages).subscribers[id].pending == if messages.len()
            <= BUS_CAPACITY {
            messages
        } else {
            messages.subrange(messages.len() - BUS_CAPACITY, messages.len() as int)
        },
    decreases messages.len(),
{
    if messages.len() == 0 {
        assert(bus.subscribers[id].pending =~= messages);
    } else {
        let earlier = messages.drop_last();
        lemma_unconsumed(bus, id, earlier);
        let before = published_all(bus, earlier);
        let after = published(before, messages.last());
        assert(after.subscribers[id] == deliver(before.subscribers[id], messages.last()));
        if earlier.len() < BUS_CAPACITY {
            assert(after.subscribers[id].pending =~= messages);
        } else if earlier.len() == BUS_CAPACITY {
            assert(after.subscribers[id].pending =~= messages.subrange(
                messages.len() - BUS_CAPACITY,
                messages.len() as int,
            ));
        } else {
            assert(after.subscribers[id].pending =~= messages.subrange(
                messages.len() - BUS_CAPACITY,
                messages.len() as int,
            ));
        }
    }
}

/// A subscriber that has missed nothing takes its signals off its queue one
/// by one, oldest first, and nothing else changes for it.
proof fn lemma_receives(bus: BusView, id: SubscriberId, times: nat)
    requires
        bus.subscribers.contains_key(id),
        bus.subscribers[id].missed == 0,
        times <= bus.subscribers[id].pending.len(),
    ensures
        after_receives(bus, id, times).closed == bus.closed,
        after_receives(bus, id, times).subscribers.contains_key(id),
        after_receives(bus, id, times).subscribers[id] == (SubscriberView {
            pending: bus.subscribers[id].pending.skip(times as int),
            missed: 0,
        }),
    decreases times,
{
    let pending = bus.subscribers[id].pending;
    if times == 0 {
        assert(pending.skip(0) =~= pending);
    } else {
        let next = after_receive(bus, id);
        assert(next.subscribers[id].pending == pending.drop_first());
        lemma_receives(next, id, (times - 1) as nat);
        assert(pending.drop_first().skip(times - 1) =~= pending.skip(times as int));
    }
}

/// A subscriber that has missed nothing empties its queue by receiving once
/// for each signal in it.
proof fn lemma_drain(bus: BusView, id: SubscriberId)
    requires
        bus.subscribers.contains_key(id),
        bus.subscribers[id].missed == 0,
    ensures
        after_receives(bus, id, bus.subscribers[id].pending.len()).closed == bus.closed,
        after_receives(bus, id, bus.subscribers[id].pending.len()).subscribers.contains_key(id),
        after_receives(bus, id, bus.subscribers[id].pending.len()).subscribers[id]
            == fresh_subscriber(),
{
    let pending = bus.subscribers[id].pending;
    lemma_receives(bus, id, pending.len());
    assert(pending.skip(pending.len() as int) =~= Seq::<Seq<char>>::empty());
}

/// Signals reach a subscriber in the order in which they were published.
/// When no more signals than the bus keeps are published to a subscriber
/// that had nothing waiting, its receives give it every one of them, the
/// first published first, and then find nothing.
pub proof fn lemma_signals_arrive_in_publish_order(
    bus: BusView,
    id: SubscriberId,
    messages: Seq<Seq<char>>,
    k: int,
)
    requires
        !bus.closed,
        bus.subscribers.contains_key(id),
        bus.subscribers[id] == fresh_subscriber(),
        messages.len() <= BUS_CAPACITY,
        0 <= k < messages.len(),
    ensures
        receive_outcome(after_receives(published_all(bus, messages), id, k as nat), id)
            == ReceivedView::Signal(messages[k]),
        receive_outcome(after_receives(published_all(bus, messages), id, messages.len()), id)
            == ReceivedView::Empty,
{
    lemma_unconsumed(bus, id, messages);
    let full = published_all(bus, messages);
    lemma_receives(full, id, k as nat);
    lemma_receives(full, id, messages.len());
    assert(messages.skip(k)[0] == messages[k]);
}

/// Nothing that was published before a subscription began is delivered to
/// it: a subscriber that has just joined an open bus finds nothing, whatever
/// was published before, and finds the next signal published.
pub proof fn lemma_no_replay(bus: BusView, id: SubscriberId, next: Seq<char>)
    requires
        !bus.closed,
    ensures
        receive_outcome(subscribed(bus, id), id) == ReceivedView::Empty,
        receive_outcome(published(subscribed(bus, id), next), id) == ReceivedView::Signal(next),
{
    let joined = subscribed(bus, id);
    assert(published(joined, next).subscribers[id] == deliver(fresh_subscriber(), next));
    assert(deliver(fresh_subscriber(), next).pending[0] == next);
}

/// Subscribers do not touch each other: what one of them finds on the bus
/// is the same before and after another has received, and before and after
/// another has left.
pub proof fn lemma_subscribers_are_independent(bus: BusView, id: SubscriberId, other: SubscriberId)
    requires
        id != other,
    ensures
        receive_outcome(after_receive(bus, id), other) == receive_outcome(bus, other),
        receive_outcome(unsubscribed(bus, id), other) == receive_outcome(bus, other),
        receive_outcome(subscribed(bus, id), other) == receive_outcome(bus, other),
{
}

/// A subscriber that falls behind is told, and stays. When more signals than
/// the bus keeps are published to a subscriber that consumes none, it is
/// still subscribed; its next receive reports the lag, with the number of
/// signals that it lost; the receives after that give it the newest signals
/// that the bus kept, oldest first; and once it has caught up, the next
/// signal published reaches it like any other.
pub proof fn lemma_lagging_subscriber_stays(
    bus: BusView,
    id: SubscriberId,
    messages: Seq<Seq<char>>,
    next: Seq<char>,
)
    requires
        !bus.closed,
        bus.subscribers.contains_key(id),
        bus.subscribers[id] == fresh_subscriber(),
        messages.len() > BUS_CAPACITY,
    ensures
        ({
            let behind = published_all(bus, messages);
            let told = after_receive(behind, id);
            let caught_up = after_receives(told, id, BUS_CAPACITY as nat);
            &&& behind.subscribers.contains_key(id)
            &&& receive_outcome(behind, id) == ReceivedView::Lagged(overflow_of(messages.len()))
            &&& overflow_of(messages.len()) > 0
            &&& told.subscribers.contains_key(id)
            &&& told.subscribers[id].missed == 0
            &&& told.subscribers[id].pending == messages.subrange(
                messages.len() - BUS_CAPACITY,
                messages.len() as int,
            )
            &&& receive_outcome(told, id) == ReceivedView::Signal(
                messages[messages.len() - BUS_CAPACITY],
            )
            &&& caught_up.subscribers.contains_key(id)
            &&& receive_outcome(caught_up, id) == ReceivedView::Empty
            &&& receive_outcome(published(caught_up, next), id) == ReceivedView::Signal(next)
        }),
{
    lemma_unconsumed(bus, id, messages);
    let behind = published_all(bus, messages);
    let told = after_receive(behind, id);
    assert(told.subscribers[id].pending.len() == BUS_CAPACITY);
    lemma_drain(told, id);
    let caught_up = after_receives(told, id, BUS_CAPACITY as nat);
    assert(published(caught_up, next).subscribers[id] == deliver(fresh_subscriber(), next));
    assert(deliver(fresh_subscriber(), next).pending[0] == next);
}

/// A subscription that has ended gets nothing more. Once `id` has left, it
/// is not among the subscribers; a signal published afterwards goes to the
/// others exactly as it would have, and to `id` not at all; and a receive
/// under the old handle finds the bus closed.
pub proof fn lemma_ended_subscription_gets_nothing(
    bus: BusView,
    id: SubscriberId,
    message: Seq<char>,
)
    ensures
        !unsubscribed(bus, id).subscribers.contains_key(id),
        published(unsubscribed(bus, id), message) == unsubscribed(published(bus, message), id),
        !published(unsubscribed(bus, id), message).subscribers.contains_key(id),
        receive_outcome(published(unsubscribed(bus, id), message), id) == ReceivedView::Closed,
        bus.subscribers.dom().finite() && bus.subscribers.contains_key(id) ==> unsubscribed(
            bus,
            id,
        ).subscribers.len() == bus.subscribers.len() - 1,
{
    assert(published(unsubscribed(bus, id), message).subscribers =~= unsubscribed(
        published(bus, message),
        id,
    ).subscribers);
}

/// After the bus is closed nothing more is delivered, and a subscriber that
/// has missed nothing is told that the bus is closed as soon as it has
/// received what was waiting for it.
pub proof fn lemma_closed_bus_reports_closure(bus: BusView, id: SubscriberId, message: Seq<char>)
    requires
        bus.closed,
        bus.subscribers.contains_key(id),
        bus.subscribers[id].missed == 0,
    ensures
        published(bus, message) == bus,
        receive_outcome(after_receives(bus, id, bus.subscribers[id].pending.len()), id)
            == ReceivedView::Closed,
{
    lemma_drain(bus, id);
}

} // verus!
