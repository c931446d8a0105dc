//! What the subscribers of one hub observe over time, stated for every
//! number of subscribers and every interleaving of their steps.

use vstd::prelude::*;
use crate::relay::hub::{DeliveryView, HubView, SubscriptionView};
use crate::relay::message::MessageView;

verus! {

/// One thing that happens to a hub and its subscribers.
pub enum Step {
    /// A new subscriber joins. It is numbered after those that joined before.
    Subscribe,
    /// Somebody offers a message to the hub.
    Publish(MessageView),
    /// The subscriber with this number asks for its next delivery.
    Poll(nat),
    /// The hub is torn down.
    Close,
}

/// One subscriber: where it joined, where its cursor stands, and everything
/// it has been handed so far, oldest first.
pub struct Reader {
    /// How many messages had been published when it subscribed.
    pub origin: nat,
    pub sub: SubscriptionView,
    pub seen: Seq<DeliveryView>,
}

/// A hub and its subscribers.
pub struct System {
    pub hub: HubView,
    pub readers: Seq<Reader>,
}

/// A hub of the given capacity at the start of its life: nothing published,
/// nobody subscribed.
pub open spec fn start(capacity: nat) -> System {
    System { hub: HubView::empty(capacity), readers: Seq::empty() }
}

/// The effect of one step. A poll by a number that nobody has does nothing.
pub open spec fn step(s: System, e: Step) -> System {
    match e {
        Step::Subscribe => System {
            readers: s.readers.push(
                Reader { origin: s.hub.log.len(), sub: s.hub.subscribe(), seen: Seq::empty() },
            ),
            ..s
        },
        Step::Publish(m) => System { hub: s.hub.publish(m), ..s },
        Step::Close => System { hub: s.hub.close(), ..s },
        Step::Poll(i) => if i < s.readers.len() {
            let reader = s.readers[i as int];
            let (sub, delivery) = s.hub.next(reader.sub);
            System {
                readers: s.readers.update(
                    i as int,
                    Reader { sub, seen: reader.seen.push(delivery), ..reader },
                ),
                ..s
            }
        } else {
            s
        },
    }
}

/// The effect of `steps`, taken in order.
pub open spec fn run(s: System, steps: Seq<Step>) -> System
    decreases steps.len(),
{
    if steps.len() == 0 {
        s
    } else {
        step(run(s, steps.drop_last()), steps.last())
    }
}

/// The messages among `seen`, in the order in which they were handed out.
pub open spec fn messages(seen: Seq<DeliveryView>) -> Seq<MessageView>
    decreases seen.len(),
{
    if seen.len() == 0 {
        Seq::empty()
    } else {
        match seen.last() {
            DeliveryView::Message(m) => messages(seen.drop_last()).push(m),
            _ => messages(seen.drop_last()),
        }
    }
}

/// The messages that `steps` offers to the hub, in order.
pub open spec fn offered(steps: Seq<Step>) -> Seq<MessageView>
    decreases steps.len(),
{
    if steps.len() == 0 {
        Seq::empty()
    } else {
        match steps.last() {
            Step::Publish(m) => offered(steps.drop_last()).push(m),
            _ => offered(steps.drop_last()),
        }
    }
}

/// Whether `steps` tears the hub down at some point.
pub open spec fn closes(steps: Seq<Step>) -> bool {
    exists|i: int| 0 <= i < steps.len() && steps[i] is Close
}

/// Whether `seen` tells of a lag.
pub open spec fn told_of_lag(seen: Seq<DeliveryView>) -> bool {
    exists|i: int| 0 <= i < seen.len() && seen[i] is Lagged
}

/// Whether nothing but `Closed` follows a `Lagged` in `seen`.
pub open spec fn silent_after_lag(seen: Seq<DeliveryView>) -> bool {
    forall|i: int, j: int|
        0 <= i < j < seen.len() && seen[i] is Lagged ==> seen[j] == DeliveryView::Closed
}

/// What holds of a subscriber at every moment.
pub open spec fn coherent(hub: HubView, reader: Reader) -> bool {
    &&& reader.origin <= reader.sub.cursor <= hub.log.len()
    &&& messages(reader.seen) == hub.log.subrange(reader.origin as int, reader.sub.cursor as int)
    &&& reader.sub.dropped <==> told_of_lag(reader.seen)
    &&& silent_after_lag(reader.seen)
}

/// What holds of a hub and its subscribers at every moment.
pub open spec fn all_coherent(s: System) -> bool {
    forall|i: int| 0 <= i < s.readers.len() ==> coherent(s.hub, #[trigger] s.readers[i])
}

proof fn lemma_publish_keeps_coherent(hub: HubView, reader: Reader, m: MessageView)
    requires
        coherent(hub, reader),
    ensures
        coherent(hub.publish(m), reader),
{
    assert(hub.publish(m).log.subrange(reader.origin as int, reader.sub.cursor as int)
        == hub.log.subrange(reader.origin as int, reader.sub.cursor as int));
}

proof fn lemma_poll_keeps_coherent(hub: HubView, reader: Reader)
    requires
        coherent(hub, reader),
    ensures
        coherent(
            hub,
            Reader {
                sub: hub.next(reader.sub).0,
                seen: reader.seen.push(hub.next(reader.sub).1),
                ..reader
            },
        ),
{
    let (sub, delivery) = hub.next(reader.sub);
    let seen = reader.seen.push(delivery);
    assert(seen.drop_last() == reader.seen);
    if delivery is Message {
        assert(hub.log.subrange(reader.origin as int, sub.cursor as int) == hub.log.subrange(
            reader.origin as int,
            reader.sub.cursor as int,
        ).push(hub.log[reader.sub.cursor as int]));
    }
    assert(silent_after_lag(seen)) by {
        assert forall|i: int, j: int|
            0 <= i < j < seen.len() && seen[i] is Lagged implies seen[j]
                == DeliveryView::Closed by {
            assert(seen[i] == reader.seen[i]);
            if j < reader.seen.len() {
                assert(seen[j] == reader.seen[j]);
            } else {
                assert(told_of_lag(reader.seen));
            }
        }
    }
    if told_of_lag(reader.seen) {
        let i = choose|i: int| 0 <= i < reader.seen.len() && reader.seen[i] is Lagged;
        assert(seen[i] is Lagged);
    }
    if delivery is Lagged {
        assert(seen[seen.len() - 1] is Lagged);
    }
    if told_of_lag(seen) {
        let i = choose|i: int| 0 <= i < seen.len() && seen[i] is Lagged;
        if i < reader.seen.len() {
            assert(reader.seen[i] is Lagged);
        }
    }
}

proof fn lemma_step_keeps_coherent(s: System, e: Step)
    requires
        all_coherent(s),
    ensures
        all_coherent(step(s, e)),
{
    let after = step(s, e);
    assert forall|i: int| 0 <= i < after.readers.len() implies coherent(
        after.hub,
        #[trigger] after.readers[i],
    ) by {
        match e {
            Step::Subscribe => {
                if i < s.readers.len() {
                    assert(after.readers[i] == s.readers[i]);
                } else {
                    let fresh = after.readers[i];
                    assert(s.hub.log.subrange(fresh.origin as int, fresh.sub.cursor as int)
                        == Seq::<MessageView>::empty());
                }
            },
            Step::Publish(m) => {
                lemma_publish_keeps_coherent(s.hub, s.readers[i], m);
            },
            Step::Close => {
                assert(after.readers[i] == s.readers[i]);
            },
            Step::Poll(k) => {
                if k < s.readers.len() && k == i {
                    lemma_poll_keeps_coherent(s.hub, s.readers[i]);
                } else {
                    assert(after.readers[i] == s.readers[i]);
                }
            },
        }
    }
}

proof fn lemma_run_keeps_coherent(s: System, steps: Seq<Step>)
    requires
        all_coherent(s),
    ensures
        all_coherent(run(s, steps)),
    decreases steps.len(),
{
    if steps.len() > 0 {
        lemma_run_keeps_coherent(s, steps.drop_last());
        lemma_step_keeps_coherent(run(s, steps.drop_last()), steps.last());
    }
}

/// Fan-out keeps the publish order. However many subscribers there are and
/// however their steps interleave with the publishes, each subscriber is
/// handed exactly the messages that entered the log since it subscribed, in
/// log order, with no gap, no repetition and nothing foreign among them, up
/// to the position its cursor has reached.
pub proof fn lemma_deliveries_follow_publish_order(capacity: nat, steps: Seq<Step>, i: int)
    requires
        0 <= i < run(start(capacity), steps).readers.len(),
    ensures
        ({
            let end = run(start(capacity), steps);
            let reader = end.readers[i];
            &&& reader.origin <= reader.sub.cursor <= end.hub.log.len()
            &&& messages(reader.seen) == end.hub.log.subrange(
                reader.origin as int,
                reader.sub.cursor as int,
            )
        }),
{
    lemma_run_keeps_coherent(start(capacity), steps);
}

/// Any two subscribers agree on what they both saw: the message with a
/// given sequence number is the same for both and stands, for each, at the
/// place that the sequence number gives it. So no two subscribers ever see two
/// messages in different orders, and none sees a message twice.
pub proof fn lemma_subscribers_agree(capacity: nat, steps: Seq<Step>, i: int, j: int, at: int)
    requires
        0 <= i < run(start(capacity), steps).readers.len(),
        0 <= j < run(start(capacity), steps).readers.len(),
        run(start(capacity), steps).readers[i].origin <= at < run(
            start(capacity),
            steps,
        ).readers[i].sub.cursor,
        run(start(capacity), steps).readers[j].origin <= at < run(
            start(capacity),
            steps,
        ).readers[j].sub.cursor,
    ensures
        ({
            let end = run(start(capacity), steps);
            let a = end.readers[i];
            let b = end.readers[j];
            &&& messages(a.seen).len() == a.sub.cursor - a.origin
            &&& messages(b.seen).len() == b.sub.cursor - b.origin
            &&& messages(a.seen)[at - a.origin] == end.hub.log[at]
            &&& messages(b.seen)[at - b.origin] == end.hub.log[at]
        }),
{
    lemma_deliveries_follow_publish_order(capacity, steps, i);
    lemma_deliveries_follow_publish_order(capacity, steps, j);
}

/// While the hub is up and has sequence numbers left, its log is exactly
/// the sequence of messages offered to it, in the order in which they were
/// offered, whoever offered them.
pub proof fn lemma_log_collects_offers(capacity: nat, steps: Seq<Step>)
    requires
        !closes(steps),
        steps.len() <= u64::MAX,
    ensures
        run(start(capacity), steps).hub.log == offered(steps),
        run(start(capacity), steps).hub.capacity == capacity,
        !run(start(capacity), steps).hub.closed,
        offered(steps).len() <= steps.len(),
    decreases steps.len(),
{
    if steps.len() > 0 {
        let front = steps.drop_last();
        assert(!closes(front)) by {
            if closes(front) {
                let i = choose|i: int| 0 <= i < front.len() && front[i] is Close;
                assert(steps[i] is Close);
            }
        }
        lemma_log_collects_offers(capacity, front);
        assert(!(steps.last() is Close)) by {
            assert(steps[steps.len() - 1] == steps.last());
        }
        let mid = run(start(capacity), front);
        match steps.last() {
            Step::Publish(m) => {
                assert(mid.hub.accepting());
            },
            _ => {},
        }
    }
}

/// A subscriber that has kept up has seen every publish. While the hub is
/// up, a subscriber that has read up to the tail has been handed exactly the
/// messages that were published since it subscribed, each once and in
/// publish order.
pub proof fn lemma_caught_up_subscriber_saw_every_publish(capacity: nat, steps: Seq<Step>, i: int)
    requires
        !closes(steps),
        steps.len() <= u64::MAX,
        0 <= i < run(start(capacity), steps).readers.len(),
        run(start(capacity), steps).readers[i].sub.cursor == run(
            start(capacity),
            steps,
        ).hub.log.len(),
    ensures
        ({
            let reader = run(start(capacity), steps).readers[i];
            &&& reader.origin <= offered(steps).len()
            &&& messages(reader.seen) == offered(steps).skip(reader.origin as int)
        }),
{
    lemma_deliveries_follow_publish_order(capacity, steps, i);
    lemma_log_collects_offers(capacity, steps);
}

/// Lag is falling behind by more than the capacity: a read is answered with
/// `Lagged` exactly when the subscription is still live and more than
/// `capacity` messages lie between its cursor and the tail. The subscription
/// is dropped by that answer.
pub proof fn lemma_lagged_iff_behind_by_more_than_capacity(hub: HubView, sub: SubscriptionView)
    ensures
        hub.next(sub).1 is Lagged <==> !sub.dropped && hub.log.len() - sub.cursor > hub.capacity,
        hub.next(sub).1 is Lagged ==> hub.next(sub).0.dropped,
{
}

/// A live subscription that is not behind by more than the capacity, on a
/// hub that has something for it, is handed the message at its cursor.
pub proof fn lemma_in_window_is_delivered(hub: HubView, sub: SubscriptionView)
    requires
        !sub.dropped,
        sub.cursor < hub.log.len(),
        hub.log.len() - sub.cursor <= hub.capacity,
    ensures
        hub.next(sub).1 == DeliveryView::Message(hub.log[sub.cursor as int]),
        hub.next(sub).0 == (SubscriptionView { cursor: sub.cursor + 1, dropped: false }),
{
}

/// A publish never waits for a reader and never fails because of one:
/// whether it is accepted depends on the hub alone, and what it does to the
/// hub is the same whatever the subscribers have read.
pub proof fn lemma_publish_ignores_subscribers(s: System, m: MessageView)
    ensures
        step(s, Step::Publish(m)).hub == s.hub.publish(m),
        step(s, Step::Publish(m)).readers == s.readers,
        s.hub.accepting() ==> step(s, Step::Publish(m)).hub.log == s.hub.log.push(m),
{
}

/// The steps of one subscriber leave every other subscriber and the hub as
/// they are: a session that lags or fails takes nobody with it.
pub proof fn lemma_poll_touches_one_subscriber(s: System, i: nat, j: int)
    requires
        0 <= j < s.readers.len(),
        j != i,
    ensures
        step(s, Step::Poll(i)).hub == s.hub,
        step(s, Step::Poll(i)).readers.len() == s.readers.len(),
        step(s, Step::Poll(i)).readers[j] == s.readers[j],
{
}

/// A subscriber is told of its lag once and hears nothing afterwards. In
/// every run, whatever follows a `Lagged` among the things a subscriber was
/// handed is `Closed`: no message is delivered after it, and no second
/// `Lagged`. And a subscription is dropped exactly when a `Lagged` is among
/// what it was handed.
pub proof fn lemma_lagged_once_then_silence(capacity: nat, steps: Seq<Step>, i: int)
    requires
        0 <= i < run(start(capacity), steps).readers.len(),
    ensures
        silent_after_lag(run(start(capacity), steps).readers[i].seen),
        run(start(capacity), steps).readers[i].sub.dropped <==> told_of_lag(
            run(start(capacity), steps).readers[i].seen,
        ),
{
    lemma_run_keeps_coherent(start(capacity), steps);
}

} // verus!
