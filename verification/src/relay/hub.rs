use vstd::prelude::*;
use std::collections::VecDeque;
use crate::relay::error::RelayError;
use crate::relay::message::{Message, MessageView};

verus! {

/// The number of messages a hub retains unless told otherwise.
pub const DEFAULT_CAPACITY: usize = 32;

/// The mathematical state of a hub.
pub struct HubView {
    /// How many of the latest messages are retained for slow subscribers.
    pub capacity: nat,
    /// Every message published so far, oldest first. The position of a
    /// message in this log is its sequence number.
    pub log: Seq<MessageView>,
    /// Whether the hub has been torn down.
    pub closed: bool,
}

/// The mathematical state of a subscription: a read cursor into the log of
/// the hub it was taken from.
pub struct SubscriptionView {
    /// The sequence number of the message that is delivered next.
    pub cursor: nat,
    /// Whether the subscription has been dropped for lagging.
    pub dropped: bool,
}

/// What one call of [`Hub::next`] hands to a subscriber.
#[derive(Debug, PartialEq, Eq)]
pub enum Delivery {
    /// The next message in publish order.
    Message(Message),
    /// Nothing has been published beyond the cursor yet: wait and ask again.
    Pending,
    /// The subscriber missed messages that were overwritten. It is dropped.
    Lagged,
    /// Nothing more will ever come: the hub was torn down, or the
    /// subscription was dropped earlier.
    Closed,
}

/// The mathematical content of a [`Delivery`].
pub enum DeliveryView {
    Message(MessageView),
    Pending,
    Lagged,
    Closed,
}

impl View for Delivery {
    type V = DeliveryView;

    open spec fn view(&self) -> DeliveryView {
        match self {
            Delivery::Message(m) => DeliveryView::Message(m@),
            Delivery::Pending => DeliveryView::Pending,
            Delivery::Lagged => DeliveryView::Lagged,
            Delivery::Closed => DeliveryView::Closed,
        }
    }
}

impl HubView {
    /// A hub on which nothing has been published yet.
    pub open spec fn empty(capacity: nat) -> HubView {
        HubView { capacity, log: Seq::empty(), closed: false }
    }

    /// The sequence number of the oldest message that is still retained.
    /// Everything before it has been overwritten.
    pub open spec fn head(self) -> nat {
        if self.log.len() > self.capacity {
            (self.log.len() - self.capacity) as nat
        } else {
            0
        }
    }

    /// The messages that are still retained, oldest first.
    pub open spec fn retained(self) -> Seq<MessageView> {
        self.log.subrange(self.head() as int, self.log.len() as int)
    }

    /// Whether a publish is accepted: the hub is up and has sequence numbers
    /// left.
    pub open spec fn accepting(self) -> bool {
        !self.closed && self.log.len() < u64::MAX
    }

    /// The hub after `message` is offered to it.
    pub open spec fn publish(self, message: MessageView) -> HubView {
        if self.accepting() {
            HubView { log: self.log.push(message), ..self }
        } else {
            self
        }
    }

    /// The hub after it is torn down.
    pub open spec fn close(self) -> HubView {
        HubView { closed: true, ..self }
    }

    /// A new subscription: its cursor stands at the tail, so it sees what is
    /// published from now on and nothing older.
    pub open spec fn subscribe(self) -> SubscriptionView {
        SubscriptionView { cursor: self.log.len(), dropped: false }
    }

    /// Whether `sub` has missed a message: its cursor points at an entry that
    /// has been overwritten, which is the case exactly when it is behind the
    /// tail by more than the capacity.
    pub open spec fn lagging(self, sub: SubscriptionView) -> bool {
        sub.cursor < self.head()
    }

    /// One step of a subscriber: the subscription afterwards and what is
    /// handed out.
    pub open spec fn next(self, sub: SubscriptionView) -> (SubscriptionView, DeliveryView) {
        if sub.dropped {
            (sub, DeliveryView::Closed)
        } else if self.lagging(sub) {
            (SubscriptionView { dropped: true, ..sub }, DeliveryView::Lagged)
        } else if sub.cursor < self.log.len() {
            (
                SubscriptionView { cursor: sub.cursor + 1, ..sub },
                DeliveryView::Message(self.log[sub.cursor as int]),
            )
        } else if self.closed {
            (sub, DeliveryView::Closed)
        } else {
            (sub, DeliveryView::Pending)
        }
    }
}

/// A read cursor into a hub. Each session holds exactly one, and nothing is
/// shared between two of them.
#[derive(Debug, PartialEq, Eq)]
pub struct Subscription {
    cursor: u64,
    dropped: bool,
}

impl View for Subscription {
    type V = SubscriptionView;

    closed spec fn view(&self) -> SubscriptionView {
        SubscriptionView { cursor: self.cursor as nat, dropped: self.dropped }
    }
}

impl Subscription {
    /// The sequence number of the message that is delivered next.
    pub fn position(&self) -> (p: u64)
        ensures
            p == self@.cursor,
    {
        self.cursor
    }

    /// Whether the subscription has been dropped for lagging.
    pub fn is_dropped(&self) -> (d: bool)
        ensures
            d == self@.dropped,
    {
        self.dropped
    }
}

/// The retained window with its bookkeeping.
struct Ring {
    retained: VecDeque<Message>,
    published: u64,
    log: Ghost<Seq<MessageView>>,
}

impl Ring {
    spec fn wf(self, capacity: nat) -> bool {
        &&& self.published == self.log@.len()
        &&& self.retained@.len() == if self.log@.len() > capacity {
            capacity
        } else {
            self.log@.len()
        }
        &&& forall|i: int|
            0 <= i < self.retained@.len() ==> (#[trigger] self.retained@[i])@ == self.log@[self.log@.len()
                - self.retained@.len() + i]
    }

    fn empty() -> (ring: Ring)
        ensures
            ring.log@ == Seq::<MessageView>::empty(),
            forall|capacity: nat| ring.wf(capacity),
    {
        Ring { retained: VecDeque::new(), published: 0, log: Ghost(Seq::empty()) }
    }

    fn push(&mut self, capacity: usize, message: Message)
        requires
            old(self).wf(capacity as nat),
            old(self).published < u64::MAX,
        ensures
            final(self).wf(capacity as nat),
            final(self).log@ == old(self).log@.push(message@),
    {
        let ghost appended = self.log@.push(message@);
        if capacity > 0 {
            if self.retained.len() == capacity {
                let _ = self.retained.pop_front();
            }
            self.retained.push_back(message);
        }
        self.published = self.published + 1;
        self.log = Ghost(appended);
    }
}

/// The broadcast hub: one bounded log that every session publishes into and
/// reads from through a cursor of its own.
///
/// A publish never waits for a reader. Once more than `capacity` messages
/// lie between a cursor and the tail, the oldest of them are gone, and the
/// subscriber is dropped instead of being fed a stream with a gap.
pub struct Hub {
    capacity: usize,
    closed: bool,
    ring: Ring,
}

impl View for Hub {
    type V = HubView;

    closed spec fn view(&self) -> HubView {
        HubView { capacity: self.capacity as nat, log: self.ring.log@, closed: self.closed }
    }
}

impl Hub {
    #[verifier::type_invariant]
    spec fn inv(self) -> bool {
        self.ring.wf(self.capacity as nat)
    }

    /// A hub that retains the latest `capacity` messages. With a capacity of
    /// zero nothing is retained, and every subscriber lags at the first
    /// publish after it has joined.
    pub fn new(capacity: usize) -> (hub: Hub)
        ensures
            hub@ == HubView::empty(capacity as nat),
    {
        Hub { capacity, closed: false, ring: Ring::empty() }
    }

    /// The fixed capacity.
    pub fn capacity(&self) -> (c: usize)
        ensures
            c == self@.capacity,
    {
        self.capacity
    }

    /// How many messages have been published so far.
    pub fn published(&self) -> (n: u64)
        ensures
            n == self@.log.len(),
    {
        proof {
            use_type_invariant(self);
        }
        self.ring.published
    }

    /// How many messages are retained at the moment.
    pub fn retained(&self) -> (n: usize)
        ensures
            n == self@.retained().len(),
            n <= self@.capacity,
    {
        proof {
            use_type_invariant(self);
        }
        self.ring.retained.len()
    }

    /// Whether the hub has been torn down.
    pub fn is_closed(&self) -> (c: bool)
        ensures
            c == self@.closed,
    {
        self.closed
    }

    /// Creates a read cursor at the current tail.
    pub fn subscribe(&self) -> (sub: Subscription)
        ensures
            sub@ == self@.subscribe(),
    {
        proof {
            use_type_invariant(self);
        }
        Subscription { cursor: self.ring.published, dropped: false }
    }

    /// Appends `message` to the log, overwriting the oldest retained entry
    /// when the hub is full. Fails, and changes nothing, exactly when the hub
    /// has been torn down or has used up its sequence numbers.
    pub fn publish(&mut self, message: Message) -> (r: Result<(), RelayError>)
        ensures
            final(self)@ == old(self)@.publish(message@),
            r is Ok <==> old(self)@.accepting(),
            r is Err ==> r == Err::<(), RelayError>(RelayError::HubUnavailable),
    {
        proof {
            use_type_invariant(&*self);
        }
        if self.closed || self.ring.published == u64::MAX {
            return Err(RelayError::HubUnavailable);
        }
        let mut ring = Ring::empty();
        std::mem::swap(&mut ring, &mut self.ring);
        ring.push(self.capacity, message);
        self.ring = ring;
        Ok(())
    }

    /// Tears the hub down. What is retained can still be read; nothing more
    /// is accepted.
    pub fn close(&mut self)
        ensures
            final(self)@ == old(self)@.close(),
    {
        proof {
            use_type_invariant(&*self);
        }
        self.closed = true;
    }

    /// Advances `sub` by one step and hands out what it finds there.
    pub fn next(&self, sub: &mut Subscription) -> (r: Delivery)
        ensures
            (final(sub)@, r@) == self@.next(old(sub)@),
    {
        proof {
            use_type_invariant(self);
        }
        if sub.dropped {
            return Delivery::Closed;
        }
        let kept: u64 = self.ring.retained.len() as u64;
        let head: u64 = self.ring.published - kept;
        if sub.cursor < head {
            sub.dropped = true;
            return Delivery::Lagged;
        }
        if sub.cursor < self.ring.published {
            let at: usize = (sub.cursor - head) as usize;
            let message = self.ring.retained[at].duplicate();
            sub.cursor = sub.cursor + 1;
            return Delivery::Message(message);
        }
        if self.closed {
            Delivery::Closed
        } else {
            Delivery::Pending
        }
    }
}

impl Default for Hub {
    /// A hub of the default capacity.
    fn default() -> (hub: Hub)
        ensures
            hub@ == HubView::empty(DEFAULT_CAPACITY as nat),
    {
        Hub::new(DEFAULT_CAPACITY)
    }
}

} // verus!
