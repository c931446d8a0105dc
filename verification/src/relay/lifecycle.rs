//! What holds of a session over its whole life, stated for every order in
//! which its two loops, the other sessions and the hub may take their steps.

use vstd::prelude::*;
use crate::relay::hub::{HubView, SubscriptionView};
use crate::relay::message::MessageView;
use crate::relay::session::{Flow, Half, InboundView, OutboundView, SessionState, SessionView};

verus! {

/// One thing that happens to a session or to the hub it is bound to.
pub enum Event {
    /// The transport was upgraded.
    Upgraded,
    /// The inbound loop read something.
    Read(InboundView),
    /// The outbound loop asks what to do next.
    Poll,
    /// The outbound loop reports how a write went.
    Written(bool),
    /// A loop confirms that it has returned.
    Exited(Half),
    /// Another session publishes a message.
    Published(MessageView),
    /// The hub is torn down.
    HubClosed,
}

/// A session, the hub it is bound to, and a record of what the session has
/// done so far.
pub struct World {
    pub session: SessionView,
    pub hub: HubView,
    /// The messages handed to the outbound loop for writing, oldest first.
    pub writes: Seq<MessageView>,
    /// The messages this session has published, oldest first.
    pub sent: Seq<MessageView>,
    /// How many loop decisions have told the loop to go on.
    pub continued: nat,
}

/// The effect of one event.
pub open spec fn advance(w: World, e: Event) -> World {
    match e {
        Event::Upgraded => World { session: w.session.activate(w.hub), ..w },
        Event::Read(input) => {
            let (session, hub, flow) = w.session.on_inbound(w.hub, input);
            World {
                session,
                hub,
                sent: if hub.log.len() > w.hub.log.len() {
                    w.sent.push(hub.log.last())
                } else {
                    w.sent
                },
                continued: if flow == Flow::Continue {
                    w.continued + 1
                } else {
                    w.continued
                },
                ..w
            }
        },
        Event::Poll => {
            let (session, action) = w.session.poll(w.hub);
            World {
                session,
                writes: match action {
                    OutboundView::Write(m) => w.writes.push(m),
                    _ => w.writes,
                },
                continued: if action is Stop {
                    w.continued
                } else {
                    w.continued + 1
                },
                ..w
            }
        },
        Event::Written(delivered) => {
            let (session, flow) = w.session.on_write(delivered);
            World {
                session,
                continued: if flow == Flow::Continue {
                    w.continued + 1
                } else {
                    w.continued
                },
                ..w
            }
        },
        Event::Exited(half) => World { session: w.session.confirm_exit(half).0, ..w },
        Event::Published(m) => World { hub: w.hub.publish(m), ..w },
        Event::HubClosed => World { hub: w.hub.close(), ..w },
    }
}

/// The effect of `events`, taken in order.
pub open spec fn unfold(w: World, events: Seq<Event>) -> World
    decreases events.len(),
{
    if events.len() == 0 {
        w
    } else {
        advance(unfold(w, events.drop_last()), events.last())
    }
}

/// The operations of a session lead from well-formed states to well-formed
/// states, and a session that has just been admitted is well-formed.
pub proof fn lemma_operations_preserve_wf(
    s: SessionView,
    hub: HubView,
    input: InboundView,
    delivered: bool,
    half: Half,
    cause: Option<crate::relay::error::RelayError>,
)
    requires
        s.wf(),
    ensures
        SessionView::admitted().wf(),
        s.activate(hub).wf(),
        s.drain(cause).wf(),
        s.on_inbound(hub, input).0.wf(),
        s.poll(hub).0.wf(),
        s.on_write(delivered).0.wf(),
        s.confirm_exit(half).0.wf(),
{
}

/// Every state that events can reach from a well-formed one is well-formed.
pub proof fn lemma_reachable_is_wf(w: World, events: Seq<Event>)
    requires
        w.session.wf(),
    ensures
        unfold(w, events).session.wf(),
    decreases events.len(),
{
    if events.len() > 0 {
        lemma_reachable_is_wf(w, events.drop_last());
    }
}

/// Whether the transport is upgraded somewhere in `events`.
pub open spec fn upgrades(events: Seq<Event>) -> bool {
    exists|i: int| 0 <= i < events.len() && events[i] is Upgraded
}

/// Nothing happens before the upgrade. A session that has been admitted but
/// whose transport has not been upgraded holds no subscription, publishes
/// nothing, is handed nothing and tells no loop to go on, whatever is asked of
/// it. A subscription and the `Active` state are reached through the upgrade
/// of an admitted session and in no other way.
pub proof fn lemma_nothing_before_upgrade(w: World, events: Seq<Event>)
    requires
        w.session == SessionView::admitted(),
        !upgrades(events),
    ensures
        unfold(w, events).session == SessionView::admitted(),
        unfold(w, events).writes == w.writes,
        unfold(w, events).sent == w.sent,
        unfold(w, events).continued == w.continued,
    decreases events.len(),
{
    if events.len() > 0 {
        let front = events.drop_last();
        assert(!upgrades(front)) by {
            if upgrades(front) {
                let i = choose|i: int| 0 <= i < front.len() && front[i] is Upgraded;
                assert(events[i] is Upgraded);
            }
        }
        assert(!(events.last() is Upgraded)) by {
            assert(events[events.len() - 1] == events.last());
        }
        lemma_nothing_before_upgrade(w, front);
    }
}

/// A loop is told to stop exactly when the session is no longer active:
/// whichever loop finds the reason, the decision that ends its own work is
/// the one that raises the cancellation signal for the other.
pub proof fn lemma_stop_raises_cancellation(
    s: SessionView,
    hub: HubView,
    input: InboundView,
    delivered: bool,
)
    requires
        s.wf(),
        s.state is Active,
    ensures
        s.on_inbound(hub, input).2 == Flow::Stop <==> s.on_inbound(hub, input).0.cancelled(),
        s.poll(hub).1 is Stop <==> s.poll(hub).0.cancelled(),
        s.on_write(delivered).1 == Flow::Stop <==> s.on_write(delivered).0.cancelled(),
{
}

/// Under a raised cancellation signal every decision of either loop is
/// `Stop`, and the decision changes neither the session nor the hub: nothing
/// is published, nothing is handed out for writing, the cursor does not move.
pub proof fn lemma_cancelled_stops_both_loops(
    s: SessionView,
    hub: HubView,
    input: InboundView,
    delivered: bool,
)
    requires
        s.cancelled(),
    ensures
        s.on_inbound(hub, input) == (s, hub, Flow::Stop),
        s.poll(hub) == (s, OutboundView::Stop),
        s.on_write(delivered) == (s, Flow::Stop),
        s.activate(hub) == s,
{
}

/// Once both loops have confirmed their exit the session is closed, in
/// whichever order they confirm. The first confirmation leaves the session
/// draining; the second closes it, discards the subscription and is the one
/// that is answered with `true`.
pub proof fn lemma_both_exits_close(s: SessionView, first: Half)
    requires
        s.wf(),
        s.state is Active || s.state is Draining,
        s.inbound_running,
        s.outbound_running,
    ensures
        ({
            let second = if first == Half::Inbound {
                Half::Outbound
            } else {
                Half::Inbound
            };
            let (one, closed_at_first) = s.confirm_exit(first);
            let (two, closed_at_second) = one.confirm_exit(second);
            &&& !closed_at_first
            &&& one.state is Draining
            &&& closed_at_second
            &&& two.state is Closed
            &&& two.subscription is None
            &&& !two.inbound_running
            &&& !two.outbound_running
        }),
{
}

/// A cancelled session stays cancelled, and from then on it does nothing:
/// whatever happens, no loop is told to go on, no message is handed out for
/// writing and none is published by this session.
pub proof fn lemma_after_cancellation_nothing_runs(w: World, events: Seq<Event>)
    requires
        w.session.cancelled(),
    ensures
        unfold(w, events).session.cancelled(),
        unfold(w, events).continued == w.continued,
        unfold(w, events).writes == w.writes,
        unfold(w, events).sent == w.sent,
        unfold(w, events).session.cause == w.session.cause,
    decreases events.len(),
{
    if events.len() > 0 {
        let before = unfold(w, events.drop_last());
        lemma_after_cancellation_nothing_runs(w, events.drop_last());
        match events.last() {
            Event::Read(input) => {
                lemma_cancelled_stops_both_loops(before.session, before.hub, input, true);
            },
            _ => {},
        }
    }
}

/// Whether both loops confirm their exit somewhere in `events`.
pub open spec fn both_exit(events: Seq<Event>) -> bool {
    &&& exists|i: int| 0 <= i < events.len() && events[i] == Event::Exited(Half::Inbound)
    &&& exists|i: int| 0 <= i < events.len() && events[i] == Event::Exited(Half::Outbound)
}

proof fn lemma_exits_are_recorded(w: World, events: Seq<Event>)
    requires
        w.session.wf(),
        w.session.cancelled(),
    ensures
        (exists|i: int| 0 <= i < events.len() && events[i] == Event::Exited(Half::Inbound))
            ==> !unfold(w, events).session.inbound_running,
        (exists|i: int| 0 <= i < events.len() && events[i] == Event::Exited(Half::Outbound))
            ==> !unfold(w, events).session.outbound_running,
        !w.session.inbound_running ==> !unfold(w, events).session.inbound_running,
        !w.session.outbound_running ==> !unfold(w, events).session.outbound_running,
    decreases events.len(),
{
    if events.len() > 0 {
        let front = events.drop_last();
        let before = unfold(w, front);
        lemma_exits_are_recorded(w, front);
        lemma_after_cancellation_nothing_runs(w, front);
        lemma_reachable_is_wf(w, front);
        match events.last() {
            Event::Read(input) => {
                lemma_cancelled_stops_both_loops(before.session, before.hub, input, true);
            },
            _ => {},
        }
        if exists|i: int| 0 <= i < events.len() && events[i] == Event::Exited(Half::Inbound) {
            let i = choose|i: int| 0 <= i < events.len() && events[i] == Event::Exited(Half::Inbound);
            if i < front.len() {
                assert(front[i] == Event::Exited(Half::Inbound));
            }
        }
        if exists|i: int| 0 <= i < events.len() && events[i] == Event::Exited(Half::Outbound) {
            let i = choose|i: int|
                0 <= i < events.len() && events[i] == Event::Exited(Half::Outbound);
            if i < front.len() {
                assert(front[i] == Event::Exited(Half::Outbound));
            }
        }
    }
}

/// A close frame ends the session and leaves no loop behind.
///
/// When an active session reads a close frame, the inbound loop is told to
/// stop, nothing is published, and the cancellation signal is raised at
/// that very step. From then on, whatever the hub and the other sessions do,
/// the outbound loop is told to stop at the first decision it takes, so it
/// takes no step but that one; nothing more is written or published. As soon
/// as both loops have confirmed their exit the session is closed and holds no
/// subscription.
pub proof fn lemma_close_frame_ends_session(w: World, events: Seq<Event>)
    requires
        w.session.wf(),
        w.session.state is Active,
    ensures
        ({
            let closing = advance(w, Event::Read(InboundView::Frame(MessageView::Close)));
            let end = unfold(closing, events);
            &&& closing.session.state is Draining
            &&& closing.session.cancelled()
            &&& closing.session.cause is None
            &&& closing.hub == w.hub
            &&& closing.writes == w.writes
            &&& closing.sent == w.sent
            &&& closing.continued == w.continued
            &&& end.session.cancelled()
            &&& end.continued == w.continued
            &&& end.writes == w.writes
            &&& end.sent == w.sent
            &&& both_exit(events) ==> end.session.state is Closed && end.session.subscription
                is None
        }),
{
    let closing = advance(w, Event::Read(InboundView::Frame(MessageView::Close)));
    lemma_after_cancellation_nothing_runs(closing, events);
    lemma_exits_are_recorded(closing, events);
    lemma_reachable_is_wf(closing, events);
}

/// Any end of the session is as final as a close frame: a failed read, a
/// failed write, a lagging subscription and a hub that is gone each raise
/// the cancellation signal, record their cause, and leave no loop running
/// once both have confirmed their exit.
pub proof fn lemma_stop_ends_session(w: World, e: Event, events: Seq<Event>)
    requires
        w.session.wf(),
        w.session.state is Active,
        advance(w, e).session.cancelled(),
    ensures
        ({
            let stopping = advance(w, e);
            let end = unfold(stopping, events);
            &&& end.session.cancelled()
            &&& end.continued == stopping.continued
            &&& end.writes == stopping.writes
            &&& end.sent == stopping.sent
            &&& end.session.cause == stopping.session.cause
            &&& both_exit(events) ==> end.session.state is Closed && end.session.subscription
                is None
        }),
{
    let stopping = advance(w, e);
    lemma_reachable_is_wf(w, seq![e]);
    assert(seq![e].drop_last() == Seq::<Event>::empty());
    assert(unfold(w, seq![e]) == stopping) by {
        assert(unfold(w, Seq::<Event>::empty()) == w);
        assert(seq![e].last() == e);
    }
    lemma_after_cancellation_nothing_runs(stopping, events);
    lemma_exits_are_recorded(stopping, events);
    lemma_reachable_is_wf(stopping, events);
}

/// How the world `now` relates to the world `then` that it grew out of, as
/// far as the outbound half is concerned: the log has only grown, and what
/// was handed out for writing meanwhile is the stretch of the log that
/// starts where the cursor stood and is as long as the number of messages
/// handed out.
pub open spec fn writes_follow(then: World, now: World) -> bool {
    let origin = then.session.subscription->0.cursor as int;
    let handed = now.writes.len() - then.writes.len();
    &&& now.hub.capacity == then.hub.capacity
    &&& then.hub.log.len() <= now.hub.log.len()
    &&& now.hub.log.subrange(0, then.hub.log.len() as int) == then.hub.log
    &&& handed >= 0
    &&& origin + handed <= now.hub.log.len()
    &&& now.writes == then.writes + now.hub.log.subrange(origin, origin + handed)
    &&& now.session.subscription is Some ==> now.session.subscription->0.cursor == origin
        + handed
    &&& now.session.state is Active || now.session.cancelled()
}

proof fn lemma_advance_keeps_writes_follow(then: World, w: World, e: Event)
    requires
        w.session.wf(),
        writes_follow(then, w),
    ensures
        writes_follow(then, advance(w, e)),
{
    let now = advance(w, e);
    let origin = then.session.subscription->0.cursor as int;
    let handed = w.writes.len() - then.writes.len();
    assert(now.hub.log.subrange(0, then.hub.log.len() as int) == then.hub.log);
    match e {
        Event::Poll => {
            let (session, action) = w.session.poll(w.hub);
            if action is Write {
                assert(now.hub.log.subrange(origin, origin + handed + 1) == w.hub.log.subrange(
                    origin,
                    origin + handed,
                ).push(w.hub.log[origin + handed]));
            }
        },
        _ => {
            assert(now.hub.log.subrange(origin, origin + handed) == w.hub.log.subrange(
                origin,
                origin + handed,
            ));
        },
    }
}

/// What a session writes to its client is a stretch of the log, in log
/// order. Starting from any active session, whatever its two loops, the
/// other sessions and the hub do from then on, the messages handed to the
/// outbound loop are exactly the entries of the log from where the cursor
/// stood, one after the other: none is skipped, none comes twice, none is
/// altered, and the session's own messages are among them like everybody
/// else's.
pub proof fn lemma_writes_follow_the_log(w: World, events: Seq<Event>)
    requires
        w.session.wf(),
        w.session.state is Active,
        w.session.subscription->0.cursor <= w.hub.log.len(),
    ensures
        writes_follow(w, unfold(w, events)),
    decreases events.len(),
{
    if events.len() == 0 {
        let origin = w.session.subscription->0.cursor as int;
        assert(w.hub.log.subrange(0, w.hub.log.len() as int) == w.hub.log);
        assert(w.writes + w.hub.log.subrange(origin, origin) == w.writes);
    } else {
        lemma_writes_follow_the_log(w, events.drop_last());
        lemma_reachable_is_wf(w, events.drop_last());
        lemma_advance_keeps_writes_follow(w, unfold(w, events.drop_last()), events.last());
    }
}

/// What `n` decisions of the outbound loop in a row produce on a hub that
/// does not change meanwhile.
pub open spec fn polls(s: SessionView, hub: HubView, n: nat) -> (SessionView, Seq<OutboundView>)
    decreases n,
{
    if n == 0 {
        (s, Seq::empty())
    } else {
        let (before, actions) = polls(s, hub, (n - 1) as nat);
        let (after, action) = before.poll(hub);
        (after, actions.push(action))
    }
}

/// An active session that is not behind by more than the capacity is handed
/// the messages from its cursor on, one by one, in log order.
pub proof fn lemma_polls_walk_the_log(s: SessionView, hub: HubView, n: nat)
    requires
        s.wf(),
        s.state is Active,
        !s.subscription->0.dropped,
        s.subscription->0.cursor + n <= hub.log.len(),
        hub.log.len() - s.subscription->0.cursor <= hub.capacity,
    ensures
        polls(s, hub, n).0 == (SessionView {
            subscription: Some(
                SubscriptionView { cursor: s.subscription->0.cursor + n, dropped: false },
            ),
            ..s
        }),
        polls(s, hub, n).1.len() == n,
        forall|i: int|
            0 <= i < n ==> #[trigger] polls(s, hub, n).1[i] == OutboundView::Write(
                hub.log[s.subscription->0.cursor + i],
            ),
    decreases n,
{
    if n > 0 {
        lemma_polls_walk_the_log(s, hub, (n - 1) as nat);
    }
}

/// The relay echoes. A message that an active session publishes is delivered
/// back to that session's own outbound loop like to any other subscriber:
/// after the messages that were already waiting for it, in log order, and
/// provided the session is not behind by more than the capacity once its
/// message is in the log.
pub proof fn lemma_own_message_comes_back(s: SessionView, hub: HubView, m: MessageView)
    requires
        s.wf(),
        s.state is Active,
        !s.subscription->0.dropped,
        s.subscription->0.cursor <= hub.log.len(),
        hub.accepting(),
        m.relayed(),
        hub.log.len() + 1 - s.subscription->0.cursor <= hub.capacity,
    ensures
        ({
            let (sender, published, flow) = s.on_inbound(hub, InboundView::Frame(m));
            let waiting = (hub.log.len() - s.subscription->0.cursor) as nat;
            let (receiver, actions) = polls(sender, published, waiting + 1);
            &&& flow == Flow::Continue
            &&& sender == s
            &&& published.log == hub.log.push(m)
            &&& actions.len() == waiting + 1
            &&& actions.last() == OutboundView::Write(m)
            &&& receiver.state is Active
        }),
{
    let (sender, published, flow) = s.on_inbound(hub, InboundView::Frame(m));
    let waiting = (hub.log.len() - s.subscription->0.cursor) as nat;
    lemma_polls_walk_the_log(sender, published, waiting + 1);
    let (receiver, actions) = polls(sender, published, waiting + 1);
    assert(actions[waiting as int] == OutboundView::Write(
        published.log[(s.subscription->0.cursor + waiting) as int],
    ));
}

/// A session that has caught up gets its own message at once: the very next
/// decision of its outbound loop is to write it.
pub proof fn lemma_caught_up_sender_hears_itself(s: SessionView, hub: HubView, m: MessageView)
    requires
        s.wf(),
        s.state is Active,
        s.subscription == Some(hub.subscribe()),
        hub.accepting(),
        m.relayed(),
        hub.capacity >= 1,
    ensures
        ({
            let (sender, published, flow) = s.on_inbound(hub, InboundView::Frame(m));
            sender.poll(published).1 == OutboundView::Write(m)
        }),
{
}

/// A session that is behind by more than the capacity is told so once and
/// is disconnected: the decision of its outbound loop is `Stop`, the cause
/// is recorded, none of the messages that it missed or that wait for it is
/// handed out, and nothing is handed out ever after.
pub proof fn lemma_lagging_session_is_disconnected(w: World, events: Seq<Event>)
    requires
        w.session.wf(),
        w.session.state is Active,
        !w.session.subscription->0.dropped,
        w.hub.log.len() - w.session.subscription->0.cursor > w.hub.capacity,
    ensures
        ({
            let lagged = advance(w, Event::Poll);
            let end = unfold(lagged, events);
            &&& w.session.poll(w.hub).1 is Stop
            &&& lagged.session.state is Draining
            &&& lagged.session.cause == Some(crate::relay::error::RelayError::SubscriberLagged)
            &&& lagged.session.subscription->0.dropped
            &&& lagged.writes == w.writes
            &&& end.writes == w.writes
            &&& end.session.cancelled()
            &&& end.session.cause == Some(crate::relay::error::RelayError::SubscriberLagged)
        }),
{
    let lagged = advance(w, Event::Poll);
    lemma_after_cancellation_nothing_runs(lagged, events);
}

} // verus!
