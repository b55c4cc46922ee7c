use vstd::prelude::*;

use crate::frame::{frame_text, FrameKind};
use crate::selection::{
    is_subsequence_at, kept, kept_positions, lemma_kept_all, lemma_kept_is_subsequence,
    lemma_kept_len, lemma_kept_positions, lemma_kept_positions_complete, lemma_kept_push,
};

verus! {

/// The number of pending frames that a subscriber's queue can hold.
pub const QUEUE_CAPACITY: usize = 100;

/// The frame that greets a new subscriber.
pub open spec fn greeting_text() -> Seq<char> {
    frame_text(FrameKind::Connected, "connected"@)
}

/// The frame that probes the subscribers when stale ones are reclaimed.
pub open spec fn ping_text() -> Seq<char> {
    frame_text(FrameKind::Ping, "ping"@)
}

/// The frames of a record of what was handed to a queue, in its order.
pub open spec fn frames_of(handed: Seq<(Seq<char>, bool)>) -> Seq<Seq<char>> {
    Seq::new(handed.len(), |i: int| handed[i].0)
}

/// Whether the queue took each frame of a record of what was handed to it.
pub open spec fn taken_of(handed: Seq<(Seq<char>, bool)>) -> Seq<bool> {
    Seq::new(handed.len(), |i: int| handed[i].1)
}

/// What the hub has done for one subscriber since it registered.
pub struct SubscriberLog {
    /// How many frames the hub had published when the subscriber registered.
    pub joined_at: nat,
    /// How many pending frames the subscriber's queue can hold.
    pub capacity: nat,
    /// Every frame that was handed to the subscriber's queue, in the order
    /// in which it was handed over, each with whether the queue took it.
    pub handed: Seq<(Seq<char>, bool)>,
}

impl SubscriberLog {
    /// The frames handed to the subscriber's queue, in their order.
    pub open spec fn offered(self) -> Seq<Seq<char>> {
        frames_of(self.handed)
    }

    /// Whether the queue took each frame handed to it.
    pub open spec fn taken(self) -> Seq<bool> {
        taken_of(self.handed)
    }

    /// The frames that the subscriber's queue took, in the order in which
    /// it took them. That the receiving half reads them in this order is
    /// the queue's own doing and is stated nowhere here.
    pub open spec fn received(self) -> Seq<Seq<char>> {
        kept(self.offered(), self.taken())
    }

    /// The queue holds up to `QUEUE_CAPACITY` pending frames. It was handed
    /// the greeting and then every frame published since the subscriber
    /// registered, each once and in the order of the publish calls, and
    /// nothing else.
    pub open spec fn wf(self, published: Seq<Seq<char>>) -> bool {
        &&& self.capacity == QUEUE_CAPACITY
        &&& self.joined_at <= published.len()
        &&& self.offered() == seq![greeting_text()] + published.skip(self.joined_at as int)
    }

    /// The log after one more frame was handed to the queue.
    pub open spec fn after_offer(self, frame: Seq<char>, took: bool) -> SubscriberLog {
        SubscriberLog {
            joined_at: self.joined_at,
            capacity: self.capacity,
            handed: self.handed.push((frame, took)),
        }
    }
}

/// The history of a hub: what it published and what became of it at each
/// registered subscriber.
pub struct HubState {
    /// Every frame published so far, in the order of the calls.
    pub published: Seq<Seq<char>>,
    /// One log for each registered subscriber, in the order of registration.
    pub subscribers: Seq<SubscriberLog>,
}

impl HubState {
    /// A hub that has published nothing and has no subscriber.
    pub open spec fn empty() -> HubState {
        HubState { published: Seq::empty(), subscribers: Seq::empty() }
    }

    /// Every subscriber's log is well-formed.
    pub open spec fn wf(self) -> bool {
        forall|i: int|
            0 <= i < self.subscribers.len() ==> (#[trigger] self.subscribers[i]).wf(
                self.published,
            )
    }

    /// The hub after a subscriber registered with a new queue of
    /// `QUEUE_CAPACITY` frames, and the queue was handed the greeting.
    pub open spec fn subscribe(self, took_greeting: bool) -> HubState {
        HubState {
            published: self.published,
            subscribers: self.subscribers.push(
                SubscriberLog {
                    joined_at: self.published.len(),
                    capacity: QUEUE_CAPACITY as nat,
                    handed: seq![(greeting_text(), took_greeting)],
                },
            ),
        }
    }

    /// The hub after `frame` was published and handed once to the queue of
    /// each subscriber, where `outcomes[i]` says whether the queue of
    /// subscriber `i` took it. No subscriber is added or removed.
    pub open spec fn publish(self, frame: Seq<char>, outcomes: Seq<bool>) -> HubState {
        HubState {
            published: self.published.push(frame),
            subscribers: Seq::new(
                self.subscribers.len(),
                |i: int| self.subscribers[i].after_offer(frame, outcomes[i]),
            ),
        }
    }

    /// The hub after the subscribers whose flag is not set were removed.
    pub open spec fn evict(self, keep: Seq<bool>) -> HubState {
        HubState { published: self.published, subscribers: kept(self.subscribers, keep) }
    }

    /// The hub after stale subscribers were reclaimed: a ping was published,
    /// and each subscriber whose queue did not take it was removed.
    pub open spec fn reclaim(self, outcomes: Seq<bool>) -> HubState {
        self.publish(ping_text(), outcomes).evict(outcomes)
    }
}

/// Handing one more frame to a queue adds the frame to the frames of its
/// record, and whether the queue took it to what it took.
pub proof fn lemma_after_offer(log: SubscriberLog, frame: Seq<char>, took: bool)
    ensures
        log.after_offer(frame, took).offered() == log.offered().push(frame),
        log.after_offer(frame, took).taken() == log.taken().push(took),
        log.after_offer(frame, took).received() == if took {
            log.received().push(frame)
        } else {
            log.received()
        },
{
    let next = log.after_offer(frame, took);
    assert(next.offered() =~= log.offered().push(frame));
    assert(next.taken() =~= log.taken().push(took));
    lemma_kept_push(log.offered(), log.taken(), frame, took);
}

/// Registering a subscriber keeps the history well-formed.
pub proof fn lemma_subscribe_wf(hub: HubState, took_greeting: bool)
    requires
        hub.wf(),
    ensures
        hub.subscribe(took_greeting).wf(),
{
    let next = hub.subscribe(took_greeting);
    assert forall|i: int| 0 <= i < next.subscribers.len() implies (
    #[trigger] next.subscribers[i]).wf(next.published) by {
        if i < hub.subscribers.len() {
            assert(next.subscribers[i] == hub.subscribers[i]);
        } else {
            assert(next.subscribers[i].offered() =~= seq![greeting_text()]
                + next.published.skip(next.published.len() as int));
        }
    }
}

/// Publishing is defined whatever the queues do with the frame, with any
/// number of subscribers: the history stays well-formed, the frame is the
/// last one published, and the subscribers are those that were there, each
/// with this one frame handed to it after all the others.
pub proof fn lemma_publish_wf(hub: HubState, frame: Seq<char>, outcomes: Seq<bool>)
    requires
        hub.wf(),
        outcomes.len() == hub.subscribers.len(),
    ensures
        hub.publish(frame, outcomes).wf(),
        hub.publish(frame, outcomes).published == hub.published.push(frame),
        hub.publish(frame, outcomes).subscribers.len() == hub.subscribers.len(),
        forall|i: int|
            0 <= i < hub.subscribers.len() ==> {
                &&& (#[trigger] hub.publish(frame, outcomes).subscribers[i]).joined_at
                    == hub.subscribers[i].joined_at
                &&& hub.publish(frame, outcomes).subscribers[i].offered()
                    == hub.subscribers[i].offered().push(frame)
            },
{
    let next = hub.publish(frame, outcomes);
    assert forall|i: int| 0 <= i < hub.subscribers.len() implies {
        &&& (#[trigger] next.subscribers[i]).wf(next.published)
        &&& next.subscribers[i].offered() == hub.subscribers[i].offered().push(frame)
    } by {
        let log = hub.subscribers[i];
        assert(log.wf(hub.published));
        lemma_after_offer(log, frame, outcomes[i]);
        assert(log.offered().push(frame) =~= seq![greeting_text()] + next.published.skip(
            log.joined_at as int,
        ));
    }
}

/// Removing subscribers keeps the history well-formed, and the subscribers
/// that stay are those whose flag is set, in their order.
pub proof fn lemma_evict_wf(hub: HubState, keep: Seq<bool>)
    requires
        hub.wf(),
        keep.len() == hub.subscribers.len(),
    ensures
        hub.evict(keep).wf(),
        is_subsequence_at(hub.evict(keep).subscribers, hub.subscribers, kept_positions(keep)),
{
    lemma_kept_is_subsequence(hub.subscribers, keep);
    let next = hub.evict(keep);
    let at = kept_positions(keep);
    assert forall|i: int| 0 <= i < next.subscribers.len() implies (
    #[trigger] next.subscribers[i]).wf(next.published) by {
        assert(next.subscribers[i] == hub.subscribers[at[i]]);
    }
}

/// Reclaiming stale subscribers keeps the history well-formed and adds no
/// subscriber. The subscribers that stay are those whose queue took the
/// ping, in their order, and each has received the ping after what it had
/// received before.
pub proof fn lemma_reclaim_wf(hub: HubState, outcomes: Seq<bool>)
    requires
        hub.wf(),
        outcomes.len() == hub.subscribers.len(),
    ensures
        hub.reclaim(outcomes).wf(),
        hub.reclaim(outcomes).subscribers.len() == kept_positions(outcomes).len(),
        hub.reclaim(outcomes).subscribers.len() <= hub.subscribers.len(),
        forall|k: int|
            0 <= k < hub.reclaim(outcomes).subscribers.len() ==> {
                &&& 0 <= kept_positions(outcomes)[k] < hub.subscribers.len()
                &&& outcomes[kept_positions(outcomes)[k]]
                &&& (#[trigger] hub.reclaim(outcomes).subscribers[k]).received()
                    == hub.subscribers[kept_positions(outcomes)[k]].received().push(ping_text())
            },
{
    let pinged = hub.publish(ping_text(), outcomes);
    let next = hub.reclaim(outcomes);
    let at = kept_positions(outcomes);
    lemma_publish_wf(hub, ping_text(), outcomes);
    lemma_evict_wf(pinged, outcomes);
    lemma_kept_len(pinged.subscribers, outcomes);
    lemma_kept_positions(outcomes);
    assert forall|k: int| 0 <= k < next.subscribers.len() implies {
        &&& 0 <= at[k] < hub.subscribers.len()
        &&& outcomes[at[k]]
        &&& (#[trigger] next.subscribers[k]).received() == hub.subscribers[at[k]].received().push(
            ping_text(),
        )
    } by {
        assert(next.subscribers[k] == pinged.subscribers[at[k]]);
        lemma_publish_received(hub, ping_text(), outcomes, at[k]);
    }
}

/// Per-subscriber order. The frames handed to a subscriber's queue are the
/// greeting and then the frames published while it was registered, in the
/// order of the publish calls. The frames that the queue took are among
/// them, at strictly increasing positions, so they too come in the order
/// of the publish calls, and every frame that the queue took is among
/// them. Where the queue took every frame, they are exactly those frames.
pub proof fn lemma_received_in_publish_order(hub: HubState, i: int)
    requires
        hub.wf(),
        0 <= i < hub.subscribers.len(),
    ensures
        hub.subscribers[i].offered() == seq![greeting_text()] + hub.published.skip(
            hub.subscribers[i].joined_at as int,
        ),
        is_subsequence_at(
            hub.subscribers[i].received(),
            hub.subscribers[i].offered(),
            kept_positions(hub.subscribers[i].taken()),
        ),
        forall|p: int|
            0 <= p < hub.subscribers[i].taken().len() && hub.subscribers[i].taken()[p] ==> exists|
                k: int,
            |
                0 <= k < kept_positions(hub.subscribers[i].taken()).len() && kept_positions(
                    hub.subscribers[i].taken(),
                )[k] == p,
        (forall|k: int|
            0 <= k < hub.subscribers[i].taken().len() ==> hub.subscribers[i].taken()[k])
            ==> hub.subscribers[i].received() == seq![greeting_text()] + hub.published.skip(
            hub.subscribers[i].joined_at as int,
        ),
{
    let log = hub.subscribers[i];
    assert(log.wf(hub.published));
    lemma_kept_is_subsequence(log.offered(), log.taken());
    assert forall|p: int| 0 <= p < log.taken().len() && log.taken()[p] implies exists|k: int|
        0 <= k < kept_positions(log.taken()).len() && kept_positions(log.taken())[k] == p by {
        lemma_kept_positions_complete(log.taken(), p);
    }
    if forall|k: int| 0 <= k < log.taken().len() ==> log.taken()[k] {
        lemma_kept_all(log.offered(), log.taken());
    }
}

/// A new subscriber has received the greeting, if its queue took it, and
/// nothing else; what the others have received is unchanged.
pub proof fn lemma_subscribe_received(hub: HubState, took_greeting: bool, i: int)
    requires
        0 <= i <= hub.subscribers.len(),
    ensures
        i < hub.subscribers.len() ==> hub.subscribe(took_greeting).subscribers[i].received()
            == hub.subscribers[i].received(),
        i == hub.subscribers.len() ==> hub.subscribe(took_greeting).subscribers[i].received()
            == if took_greeting {
            seq![greeting_text()]
        } else {
            Seq::<Seq<char>>::empty()
        },
{
    let next = hub.subscribe(took_greeting);
    if i == hub.subscribers.len() {
        let log = next.subscribers[i];
        let start = SubscriberLog {
            joined_at: log.joined_at,
            capacity: log.capacity,
            handed: Seq::empty(),
        };
        assert(log.handed =~= start.handed.push((greeting_text(), took_greeting)));
        assert(log == start.after_offer(greeting_text(), took_greeting));
        lemma_after_offer(start, greeting_text(), took_greeting);
        assert(start.offered() =~= Seq::<Seq<char>>::empty());
        assert(start.received() =~= Seq::<Seq<char>>::empty());
        assert(Seq::<Seq<char>>::empty().push(greeting_text()) =~= seq![greeting_text()]);
    } else {
        assert(next.subscribers[i] == hub.subscribers[i]);
    }
}

/// Publishing adds the frame at the end of what a subscriber has received
/// where its queue took the frame, and changes nothing there otherwise:
/// the hub never reorders the frames of one queue.
pub proof fn lemma_publish_received(hub: HubState, frame: Seq<char>, outcomes: Seq<bool>, i: int)
    requires
        0 <= i < hub.subscribers.len(),
    ensures
        hub.publish(frame, outcomes).subscribers[i].received() == if outcomes[i] {
            hub.subscribers[i].received().push(frame)
        } else {
            hub.subscribers[i].received()
        },
{
    lemma_after_offer(hub.subscribers[i], frame, outcomes[i]);
}

/// No subscriber affects another. What a publish does for subscriber `i`
/// depends on the outcome at its own queue only: whatever the queues of
/// the others did with the frame, full or closed, the log of `i` is the
/// same, and so is what it has received.
pub proof fn lemma_publish_isolates_subscribers(
    hub: HubState,
    frame: Seq<char>,
    first: Seq<bool>,
    second: Seq<bool>,
    i: int,
)
    requires
        0 <= i < hub.subscribers.len(),
        first[i] == second[i],
    ensures
        hub.publish(frame, first).subscribers[i] == hub.publish(frame, second).subscribers[i],
        hub.publish(frame, first).subscribers[i].received() == hub.publish(
            frame,
            second,
        ).subscribers[i].received(),
{
}

/// One call on a hub, with what the queues did with the frame that the
/// call handed to them.
pub enum HubCall {
    /// A subscriber registered; its queue took the greeting or not.
    Subscribe { took_greeting: bool },
    /// A frame was published; `outcomes[i]` says whether the queue of
    /// subscriber `i` took it.
    Publish { frame: Seq<char>, outcomes: Seq<bool> },
    /// Stale subscribers were reclaimed; `outcomes[i]` says whether the
    /// queue of subscriber `i` took the ping.
    Reclaim { outcomes: Seq<bool> },
}

impl HubState {
    /// The call reports an outcome for each subscriber of the hub.
    pub open spec fn admits(self, call: HubCall) -> bool {
        match call {
            HubCall::Subscribe { took_greeting } => true,
            HubCall::Publish { frame, outcomes } => outcomes.len() == self.subscribers.len(),
            HubCall::Reclaim { outcomes } => outcomes.len() == self.subscribers.len(),
        }
    }

    /// The hub after the call.
    pub open spec fn after(self, call: HubCall) -> HubState {
        match call {
            HubCall::Subscribe { took_greeting } => self.subscribe(took_greeting),
            HubCall::Publish { frame, outcomes } => self.publish(frame, outcomes),
            HubCall::Reclaim { outcomes } => self.reclaim(outcomes),
        }
    }

    /// Each of the calls, made in turn from this hub on, reports an outcome
    /// for each subscriber that the hub has when the call is made.
    pub open spec fn admits_all(self, calls: Seq<HubCall>) -> bool
        decreases calls.len(),
    {
        calls.len() == 0 || (self.admits(calls[0]) && self.after(calls[0]).admits_all(
            calls.drop_first(),
        ))
    }

    /// The hub after the calls, made in turn.
    pub open spec fn after_all(self, calls: Seq<HubCall>) -> HubState
        decreases calls.len(),
    {
        if calls.len() == 0 {
            self
        } else {
            self.after(calls[0]).after_all(calls.drop_first())
        }
    }
}

/// Whatever calls are made on a new hub, in whatever order, and whatever
/// the queues do with the frames: each subscriber that is registered at
/// the end was handed the greeting and then every frame published while it
/// was registered, in the order of the calls, and has received those that
/// its queue took, in that order.
pub proof fn lemma_every_history_is_in_order(calls: Seq<HubCall>, i: int)
    requires
        HubState::empty().admits_all(calls),
        0 <= i < HubState::empty().after_all(calls).subscribers.len(),
    ensures
        HubState::empty().after_all(calls).wf(),
        ({
            let hub = HubState::empty().after_all(calls);
            let log = hub.subscribers[i];
            &&& log.offered() == seq![greeting_text()] + hub.published.skip(log.joined_at as int)
            &&& is_subsequence_at(log.received(), log.offered(), kept_positions(log.taken()))
        }),
{
    lemma_calls_keep_wf(HubState::empty(), calls);
    lemma_received_in_publish_order(HubState::empty().after_all(calls), i);
}

/// Calls keep the history well-formed.
pub proof fn lemma_calls_keep_wf(hub: HubState, calls: Seq<HubCall>)
    requires
        hub.wf(),
        hub.admits_all(calls),
    ensures
        hub.after_all(calls).wf(),
    decreases calls.len(),
{
    if calls.len() > 0 {
        match calls[0] {
            HubCall::Subscribe { took_greeting } => lemma_subscribe_wf(hub, took_greeting),
            HubCall::Publish { frame, outcomes } => lemma_publish_wf(hub, frame, outcomes),
            HubCall::Reclaim { outcomes } => lemma_reclaim_wf(hub, outcomes),
        }
        lemma_calls_keep_wf(hub.after(calls[0]), calls.drop_first());
    }
}

} // verus!
