//! Reply correlation for one connection.
//!
//! The reader of a connection keeps the reply slots of the requests still
//! waiting, oldest first. A slot is registered before its request is written.
//! A push notification is broadcast and touches no slot; any other message
//! goes to the oldest slot; a message that cannot be decoded fails the oldest
//! slot; a read failure fails every slot and ends the reader.

use vstd::prelude::*;

verus! {

/// What the reader made of one incoming frame.
#[derive(Debug, Clone, Copy, PartialEq, Eq, Structural)]
pub enum MessageKind {
    /// The designated push variant: broadcast to subscribers.
    Push,
    /// Any other variant: the reply to the oldest waiting request.
    Reply,
    /// The frame did not decode.
    Undecodable,
}

/// Where an incoming frame goes.
#[derive(Debug, Clone, Copy, PartialEq, Eq, Structural)]
pub enum Route {
    /// To every current subscriber; no slot is consumed.
    Broadcast,
    /// The decoded message goes to this slot.
    Deliver(u64),
    /// The decode error goes to this slot.
    Fail(u64),
    /// No slot waits: the frame is dropped.
    Unmatched,
}

/// Waiting slots and route after one frame of the given kind.
pub open spec fn route_spec(pending: Seq<u64>, kind: MessageKind) -> (Seq<u64>, Route) {
    match kind {
        MessageKind::Push => (pending, Route::Broadcast),
        MessageKind::Reply => if pending.len() > 0 {
            (pending.drop_first(), Route::Deliver(pending[0]))
        } else {
            (pending, Route::Unmatched)
        },
        MessageKind::Undecodable => if pending.len() > 0 {
            (pending.drop_first(), Route::Fail(pending[0]))
        } else {
            (pending, Route::Unmatched)
        },
    }
}

/// The slots that received a message, in order of delivery.
pub open spec fn delivered(routes: Seq<Route>) -> Seq<u64>
    decreases routes.len(),
{
    if routes.len() == 0 {
        Seq::empty()
    } else {
        let rest = delivered(routes.drop_first());
        match routes[0] {
            Route::Deliver(s) => seq![s] + rest,
            _ => rest,
        }
    }
}

/// The reader's reply slots for one connection, oldest first.
pub struct Demux {
    pending: Vec<u64>,
    dropped_pushes: u64,
}

impl View for Demux {
    type V = Seq<u64>;

    closed spec fn view(&self) -> Seq<u64> {
        self.pending@
    }
}

impl Demux {
    /// A reader with no waiting slot.
    pub fn new() -> (r: Demux)
        ensures
            r@ == Seq::<u64>::empty(),
            r.dropped() == 0,
    {
        Demux { pending: Vec::new(), dropped_pushes: 0 }
    }

    /// Push notifications that reached no subscriber, so far.
    pub closed spec fn dropped(&self) -> u64 {
        self.dropped_pushes
    }

    /// Counts a push notification that reached no subscriber. Such a drop is
    /// no failure; the count stops at its largest value.
    pub fn record_dropped_push(&mut self)
        ensures
            final(self)@ == old(self)@,
            final(self).dropped() == if old(self).dropped() < u64::MAX {
                (old(self).dropped() + 1) as u64
            } else {
                u64::MAX
            },
    {
        if self.dropped_pushes < u64::MAX {
            self.dropped_pushes = self.dropped_pushes + 1;
        }
    }

    /// Push notifications that reached no subscriber, so far.
    pub fn dropped_pushes(&self) -> (r: u64)
        ensures
            r == self.dropped(),
    {
        self.dropped_pushes
    }

    /// Registers the slot of a request about to be written.
    pub fn register(&mut self, slot: u64)
        ensures
            final(self)@ == old(self)@.push(slot),
            final(self).dropped() == old(self).dropped(),
    {
        self.pending.push(slot);
    }

    /// Number of requests waiting for a reply.
    pub fn pending_count(&self) -> (r: usize)
        ensures
            r == self@.len(),
    {
        self.pending.len()
    }

    /// Routes one incoming frame.
    pub fn on_message(&mut self, kind: MessageKind) -> (r: Route)
        ensures
            (final(self)@, r) == route_spec(old(self)@, kind),
            final(self).dropped() == old(self).dropped(),
    {
        match kind {
            MessageKind::Push => Route::Broadcast,
            MessageKind::Reply => {
                if self.pending.len() > 0 {
                    Route::Deliver(self.pending.remove(0))
                } else {
                    Route::Unmatched
                }
            },
            MessageKind::Undecodable => {
                if self.pending.len() > 0 {
                    Route::Fail(self.pending.remove(0))
                } else {
                    Route::Unmatched
                }
            },
        }
    }

    /// Ends the connection: every waiting slot, oldest first, is to receive
    /// the connection-lost error, and none is left.
    pub fn drain(&mut self) -> (r: Vec<u64>)
        ensures
            r@ == old(self)@,
            final(self)@ == Seq::<u64>::empty(),
            final(self).dropped() == old(self).dropped(),
    {
        let mut out: Vec<u64> = Vec::new();
        std::mem::swap(&mut out, &mut self.pending);
        out
    }
}

/// One step of a connection's reader: a request's slot is registered, or a
/// frame comes in.
#[derive(Debug, Clone, Copy, PartialEq, Eq, Structural)]
pub enum DemuxEvent {
    Register(u64),
    Frame(MessageKind),
}

/// Waiting slots and routes after a sequence of events.
pub open spec fn events_spec(pending: Seq<u64>, events: Seq<DemuxEvent>) -> (Seq<u64>, Seq<Route>)
    decreases events.len(),
{
    if events.len() == 0 {
        (pending, Seq::empty())
    } else {
        let rest = events.drop_first();
        match events[0] {
            DemuxEvent::Register(slot) => events_spec(pending.push(slot), rest),
            DemuxEvent::Frame(kind) => {
                let (p1, r) = route_spec(pending, kind);
                let (p2, rs) = events_spec(p1, rest);
                (p2, seq![r] + rs)
            },
        }
    }
}

/// The slots registered by a sequence of events, in order.
pub open spec fn registered(events: Seq<DemuxEvent>) -> Seq<u64>
    decreases events.len(),
{
    if events.len() == 0 {
        Seq::empty()
    } else {
        match events[0] {
            DemuxEvent::Register(slot) => seq![slot] + registered(events.drop_first()),
            _ => registered(events.drop_first()),
        }
    }
}

/// Number of replies among a sequence of events.
pub open spec fn replies(events: Seq<DemuxEvent>) -> nat
    decreases events.len(),
{
    if events.len() == 0 {
        0
    } else {
        replies(events.drop_first()) + if events[0] == DemuxEvent::Frame(MessageKind::Reply) {
            1nat
        } else {
            0nat
        }
    }
}

/// Every reply comes after the request it answers: no prefix of the events
/// holds more replies than slots waiting at the start plus slots registered.
pub open spec fn replies_follow_requests(waiting: nat, events: Seq<DemuxEvent>) -> bool {
    forall|i: int|
        0 <= i <= events.len() ==> replies(#[trigger] events.subrange(0, i)) <= waiting
            + registered(events.subrange(0, i)).len()
}

/// No frame fails to decode.
pub open spec fn all_decoded(events: Seq<DemuxEvent>) -> bool {
    forall|i: int|
        0 <= i < events.len() ==> events[i] != DemuxEvent::Frame(MessageKind::Undecodable)
}

/// Replies reach their requests first in, first out: when every reply comes
/// after its request, however registrations, replies and push notifications
/// interleave, the k-th reply goes to the k-th registered slot, and the slots
/// not yet answered are left waiting in order. Nothing of the reply's payload
/// (an id it may carry) takes part.
pub proof fn lemma_fifo_delivery(pending: Seq<u64>, events: Seq<DemuxEvent>)
    requires
        all_decoded(events),
        replies_follow_requests(pending.len(), events),
    ensures
        delivered(events_spec(pending, events).1) == (pending + registered(events)).subrange(
            0,
            replies(events) as int,
        ),
        events_spec(pending, events).0 == (pending + registered(events)).subrange(
            replies(events) as int,
            (pending + registered(events)).len() as int,
        ),
    decreases events.len(),
{
    let all = pending + registered(events);
    if events.len() == 0 {
        assert(all =~= pending);
        assert(all.subrange(0, 0) =~= Seq::<u64>::empty());
        assert(all.subrange(0, all.len() as int) =~= all);
    } else {
        let e0 = events[0];
        let rest = events.drop_first();
        assert forall|i: int| 0 <= i < rest.len() implies rest[i] != DemuxEvent::Frame(
            MessageKind::Undecodable,
        ) by {
            assert(rest[i] == events[i + 1]);
        }
        assert(events.subrange(0, 1).drop_first() =~= Seq::<DemuxEvent>::empty());
        assert(events.subrange(0, 1)[0] == e0);
        lemma_prefix_counts(events, 1);
        match e0 {
            DemuxEvent::Register(slot) => {
                let p1 = pending.push(slot);
                assert forall|i: int| 0 <= i <= rest.len() implies replies(
                    #[trigger] rest.subrange(0, i),
                ) <= p1.len() + registered(rest.subrange(0, i)).len() by {
                    lemma_prefix_counts(events, i + 1);
                    assert(events.subrange(0, i + 1).drop_first() =~= rest.subrange(0, i));
                    assert(events.subrange(0, i + 1)[0] == e0);
                }
                lemma_fifo_delivery(p1, rest);
                assert(registered(events) == seq![slot] + registered(rest));
                assert(p1 + registered(rest) =~= all);
            },
            DemuxEvent::Frame(kind) => {
                let (p1, r) = route_spec(pending, kind);
                let ev_reply = kind == MessageKind::Reply;
                assert(registered(events) == registered(rest));
                if ev_reply {
                    assert(pending.len() >= 1);
                }
                assert forall|i: int| 0 <= i <= rest.len() implies replies(
                    #[trigger] rest.subrange(0, i),
                ) <= p1.len() + registered(rest.subrange(0, i)).len() by {
                    lemma_prefix_counts(events, i + 1);
                    assert(events.subrange(0, i + 1).drop_first() =~= rest.subrange(0, i));
                    assert(events.subrange(0, i + 1)[0] == e0);
                }
                lemma_fifo_delivery(p1, rest);
                let (p2, rs) = events_spec(p1, rest);
                assert((seq![r] + rs).drop_first() =~= rs);
                let n = replies(events) as int;
                if ev_reply {
                    assert(replies(events) == replies(rest) + 1);
                    assert(rest.subrange(0, rest.len() as int) =~= rest);
                    assert(replies(rest) <= p1.len() + registered(rest).len());
                    assert(p1 + registered(rest) =~= all.subrange(1, all.len() as int));
                    assert(all.subrange(0, n) =~= seq![pending[0]] + (p1 + registered(
                        rest,
                    )).subrange(0, n - 1));
                    assert((p1 + registered(rest)).subrange(n - 1, (p1 + registered(rest)).len() as int)
                        =~= all.subrange(n, all.len() as int));
                } else {
                    assert(p1 + registered(rest) =~= all);
                }
            },
        }
    }
}

proof fn lemma_prefix_counts(events: Seq<DemuxEvent>, i: int)
    requires
        1 <= i <= events.len(),
    ensures
        replies(events.subrange(0, i)) == replies(events.subrange(0, i).drop_first()) + if events[0]
            == DemuxEvent::Frame(MessageKind::Reply) {
            1nat
        } else {
            0nat
        },
        registered(events.subrange(0, i)) == match events[0] {
            DemuxEvent::Register(slot) => seq![slot] + registered(events.subrange(0, i).drop_first()),
            _ => registered(events.subrange(0, i).drop_first()),
        },
{
    assert(events.subrange(0, i)[0] == events[0]);
}

} // verus!
