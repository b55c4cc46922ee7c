use actix_web::web::Bytes;
use serde_json::Value;
use tokio::sync::mpsc::error::TrySendError;
use tokio::sync::mpsc::{Receiver, Sender};
use vstd::prelude::*;
use vstd::string::*;

use crate::frame::{frame, frame_text, FrameKind};
use crate::hub::{
    greeting_text, lemma_publish_wf, lemma_reclaim_wf, lemma_subscribe_wf, ping_text, HubState,
    SubscriberLog, QUEUE_CAPACITY,
};
use crate::selection::{kept, kept_positions, lemma_kept_is_subsequence, lemma_kept_push};

verus! {

/// `bytes::Bytes`, as `actix_web::web` hands it on: the bytes of one frame
/// in a queue. Nothing of it is read here.
#[verifier::external_type_specification]
#[verifier::external_body]
pub struct ExBytes(Bytes);

/// `tokio::sync::mpsc::Sender`: the sending half of a bounded queue.
#[verifier::external_type_specification]
#[verifier::external_body]
#[verifier::reject_recursive_types(T)]
pub struct ExSender<T>(Sender<T>);

/// `tokio::sync::mpsc::Receiver`: the receiving half of a bounded queue.
#[verifier::external_type_specification]
#[verifier::external_body]
#[verifier::reject_recursive_types(T)]
pub struct ExReceiver<T>(Receiver<T>);

/// `serde_json::Value`: a JSON value. Nothing of it is read here but its
/// text.
#[verifier::external_type_specification]
#[verifier::external_body]
pub struct ExValue(Value);

/// What a subscriber's queue did with a frame handed to it.
#[derive(Clone, Copy, Debug, PartialEq, Eq, Structural)]
pub enum SendOutcome {
    /// The queue took the frame.
    Delivered,
    /// The queue was full: the frame is dropped for this subscriber.
    Full,
    /// The receiving half is gone: the subscriber is dead.
    Closed,
}

/// Every frame that was handed to the queue through this sending half, in
/// the order in which it was handed over, each with whether the queue took
/// it. This is a record of the calls, not what the queue holds: the
/// receiving half empties the queue at its own pace, so what the queue
/// holds at a given time is no property of the sending half, and nothing
/// is said of it.
pub uninterp spec fn handed(queue: Sender<Bytes>) -> Seq<(Seq<char>, bool)>;

/// The number of pending frames that the queue can hold: the bound that it
/// was made with, which `Sender::max_capacity` reports.
pub uninterp spec fn bound_of(queue: Sender<Bytes>) -> nat;

/// `tokio::sync::mpsc::channel`: makes a queue that holds up to `bound`
/// pending frames and returns its two halves. The call panics on a bound
/// of zero or one above an eighth of the largest `usize`, which `requires`
/// leaves out. Nothing has been handed to the new queue.
#[verifier::external_body]
fn open_queue(bound: usize) -> (halves: (Sender<Bytes>, Receiver<Bytes>))
    requires
        0 < bound <= usize::MAX / 8,
    ensures
        bound_of(halves.0) == bound,
        handed(halves.0) == Seq::<(Seq<char>, bool)>::empty(),
{
    tokio::sync::mpsc::channel(bound)
}

/// `tokio::sync::mpsc::Sender::try_send`: hands the frame to the queue
/// without waiting and reports what the queue did: it took the frame, it
/// was full, or its receiving half is gone. Which of these happens depends
/// on what the receiving half has done so far, so nothing is claimed of
/// it. The call is put on record: the frame counts as handed over, and as
/// taken where the outcome is `Delivered`. The queue's bound stays as it
/// is.
#[verifier::external_body]
fn try_send(client: &mut Sender<Bytes>, text: &str) -> (outcome: SendOutcome)
    ensures
        bound_of(*final(client)) == bound_of(*old(client)),
        handed(*final(client)) == handed(*old(client)).push(
            (text@, outcome == SendOutcome::Delivered),
        ),
{
    match client.try_send(Bytes::from(text.to_owned())) {
        Ok(()) => SendOutcome::Delivered,
        Err(TrySendError::Full(_)) => SendOutcome::Full,
        Err(TrySendError::Closed(_)) => SendOutcome::Closed,
    }
}

/// The JSON text of a value, as `serde_json` writes it in its compact form.
pub uninterp spec fn json_of(value: Value) -> Seq<char>;

/// `serde_json::Value`'s `to_string`: the JSON text of the value, which
/// depends on the value alone.
#[verifier::external_body]
fn json_text(value: &Value) -> (text: String)
    ensures
        text@ == json_of(*value),
{
    value.to_string()
}

/// The receiving half of one subscriber's queue.
pub struct Client(Receiver<Bytes>);

impl Client {
    /// The receiving half that the client holds.
    pub closed spec fn queue(&self) -> Receiver<Bytes> {
        self.0
    }

    /// Gives up the queue's receiving half, for a stream to be built on it.
    pub fn into_receiver(self) -> (queue: Receiver<Bytes>)
        ensures
            queue == self.queue(),
    {
        self.0
    }
}

/// The hub: the registry of the subscribers' sending halves, with what it
/// has published and when each subscriber registered.
pub struct Broadcaster {
    clients: Vec<Sender<Bytes>>,
    published: Ghost<Seq<Seq<char>>>,
    joined: Ghost<Seq<nat>>,
}

impl View for Broadcaster {
    type V = HubState;

    closed spec fn view(&self) -> HubState {
        HubState {
            published: self.published@,
            subscribers: Seq::new(
                self.clients@.len(),
                |i: int|
                    SubscriberLog {
                        joined_at: self.joined@[i],
                        capacity: bound_of(self.clients@[i]),
                        handed: handed(self.clients@[i]),
                    },
            ),
        }
    }
}

impl Broadcaster {
    /// The hub knows when each subscriber registered, and the history is
    /// well-formed: each queue was handed the greeting and then every
    /// frame published since its subscriber registered.
    pub closed spec fn wf(&self) -> bool {
        &&& self.joined@.len() == self.clients@.len()
        &&& self@.wf()
    }

    /// The history of a well-formed hub is well-formed: what holds of every
    /// well-formed history holds of what this hub has done.
    pub proof fn lemma_history_is_wf(&self)
        requires
            self.wf(),
        ensures
            self@.wf(),
    {
    }

    /// The number of registered subscribers.
    pub open spec fn subscribers(&self) -> nat {
        self@.subscribers.len()
    }

    /// A hub without subscribers that has published nothing.
    pub fn new() -> (hub: Broadcaster)
        ensures
            hub.wf(),
            hub@ == HubState::empty(),
    {
        let hub = Broadcaster {
            clients: Vec::new(),
            published: Ghost(Seq::empty()),
            joined: Ghost(Seq::empty()),
        };
        assert(hub@.subscribers =~= HubState::empty().subscribers);
        hub
    }

    /// The number of registered subscribers.
    pub fn subscriber_count(&self) -> (count: usize)
        requires
            self.wf(),
        ensures
            count == self.subscribers(),
    {
        self.clients.len()
    }

    /// Registers a new subscriber: makes its queue, hands the greeting to
    /// it, registers the sending half after those already there, and
    /// returns the receiving half.
    pub fn new_client(&mut self) -> (client: Client)
        requires
            old(self).wf(),
        ensures
            final(self).wf(),
            final(self)@ == old(self)@.subscribe(true) || final(self)@ == old(self)@.subscribe(
                false,
            ),
    {
        let (mut tx, rx) = open_queue(QUEUE_CAPACITY);
        let greeting = frame(FrameKind::Connected, "connected");
        let outcome = try_send(&mut tx, greeting.as_str());
        let ghost before = self@;
        self.clients.push(tx);
        self.joined = Ghost(self.joined@.push(self.published@.len()));
        proof {
            let took = outcome == SendOutcome::Delivered;
            lemma_subscribe_wf(before, took);
            assert(handed(tx) =~= seq![(greeting_text(), took)]);
            assert(self@.subscribers =~= before.subscribe(took).subscribers);
        }
        Client(rx)
    }

    /// Publishes a frame of the given kind around `body`: hands it once,
    /// without waiting, to the queue of each registered subscriber, in the
    /// order of registration. A queue that is full or closed is passed
    /// over; no subscriber is added or removed.
    pub fn publish(&mut self, kind: FrameKind, body: &str)
        requires
            old(self).wf(),
        ensures
            final(self).wf(),
            exists|outcomes: Seq<bool>|
                outcomes.len() == old(self).subscribers() && final(self)@ == old(self)@.publish(
                    frame_text(kind, body@),
                    outcomes,
                ),
    {
        let text = frame(kind, body);
        let ghost before = self@;
        let ghost mut outcomes: Seq<bool> = Seq::empty();
        let mut i: usize = 0;
        while i < self.clients.len()
            invariant
                i <= self.clients.len(),
                self.clients@.len() == old(self).clients@.len(),
                self.published == old(self).published,
                self.joined == old(self).joined,
                outcomes.len() == i,
                forall|k: int|
                    0 <= k < i ==> {
                        &&& handed(#[trigger] self.clients@[k]) == handed(
                            old(self).clients@[k],
                        ).push((text@, outcomes[k]))
                        &&& bound_of(self.clients@[k]) == bound_of(old(self).clients@[k])
                    },
                forall|k: int|
                    i <= k < self.clients@.len() ==> #[trigger] self.clients@[k] == old(
                        self,
                    ).clients@[k],
            decreases self.clients.len() - i,
        {
            let outcome = try_send(&mut self.clients[i], text.as_str());
            proof {
                outcomes = outcomes.push(outcome == SendOutcome::Delivered);
            }
            i += 1;
        }
        self.published = Ghost(self.published@.push(text@));
        proof {
            lemma_publish_wf(before, text@, outcomes);
            assert(self@.subscribers =~= before.publish(text@, outcomes).subscribers);
        }
    }

    /// Publishes `msg` as a frame of the generic kind.
    pub fn send(&mut self, msg: &str)
        requires
            old(self).wf(),
        ensures
            final(self).wf(),
            exists|outcomes: Seq<bool>|
                outcomes.len() == old(self).subscribers() && final(self)@ == old(self)@.publish(
                    frame_text(FrameKind::Generic, msg@),
                    outcomes,
                ),
    {
        self.publish(FrameKind::Generic, msg)
    }

    /// Publishes the JSON text of a poll as a frame of the kind
    /// `poll_updated`.
    pub fn send_updated_poll(&mut self, poll_json: &str)
        requires
            old(self).wf(),
        ensures
            final(self).wf(),
            exists|outcomes: Seq<bool>|
                outcomes.len() == old(self).subscribers() && final(self)@ == old(self)@.publish(
                    frame_text(FrameKind::PollUpdated, poll_json@),
                    outcomes,
                ),
    {
        self.publish(FrameKind::PollUpdated, poll_json)
    }

    /// Publishes the JSON text of a poll's results as a frame of the kind
    /// `poll_results`.
    pub fn send_poll_results(&mut self, response: &Value)
        requires
            old(self).wf(),
        ensures
            final(self).wf(),
            exists|outcomes: Seq<bool>|
                outcomes.len() == old(self).subscribers() && final(self)@ == old(self)@.publish(
                    frame_text(FrameKind::PollResults, json_of(*response)),
                    outcomes,
                ),
    {
        let json = json_text(response);
        self.publish(FrameKind::PollResults, json.as_str())
    }

    /// Announces a poll after a change: publishes the poll's JSON text as a
    /// frame of the kind `poll_updated`, and then the JSON text of its
    /// results as a frame of the kind `poll_results`. Each subscriber is
    /// handed the poll first and the results second.
    pub fn announce(&mut self, poll_json: &str, results: &Value)
        requires
            old(self).wf(),
        ensures
            final(self).wf(),
            exists|first: Seq<bool>, second: Seq<bool>|
                first.len() == old(self).subscribers() && second.len() == old(self).subscribers()
                    && final(self)@ == old(self)@.publish(
                    frame_text(FrameKind::PollUpdated, poll_json@),
                    first,
                ).publish(frame_text(FrameKind::PollResults, json_of(*results)), second),
    {
        let ghost before = self@;
        self.send_updated_poll(poll_json);
        let ghost between = self@;
        self.send_poll_results(results);
        proof {
            let first = choose|first: Seq<bool>|
                first.len() == before.subscribers.len() && between == before.publish(
                    frame_text(FrameKind::PollUpdated, poll_json@),
                    first,
                );
            let second = choose|second: Seq<bool>|
                second.len() == between.subscribers.len() && self@ == between.publish(
                    frame_text(FrameKind::PollResults, json_of(*results)),
                    second,
                );
            assert(second.len() == before.subscribers.len());
        }
    }

    /// Shuts the hub down: drops every sending half, so that each
    /// subscriber's stream ends once its queue is drained. What was
    /// published stays on record.
    pub fn shutdown(&mut self)
        requires
            old(self).wf(),
        ensures
            final(self).wf(),
            final(self)@ == (HubState {
                published: old(self)@.published,
                subscribers: Seq::empty(),
            }),
    {
        self.clients.clear();
        self.joined = Ghost(Seq::empty());
        assert(self@.subscribers =~= Seq::empty());
    }

    /// Reclaims stale subscribers: publishes a ping, and removes each
    /// subscriber whose queue did not take it. Those that stay keep their
    /// order.
    pub fn remove_stale_clients(&mut self)
        requires
            old(self).wf(),
        ensures
            final(self).wf(),
            exists|outcomes: Seq<bool>|
                outcomes.len() == old(self).subscribers() && final(self)@ == old(self)@.reclaim(
                    outcomes,
                ),
            final(self).subscribers() <= old(self).subscribers(),
    {
        let text = frame(FrameKind::Ping, "ping");
        let ghost before = self@;
        let ghost first = self.clients@;
        let ghost mut pinged: Seq<Sender<Bytes>> = Seq::empty();
        let ghost mut outcomes: Seq<bool> = Seq::empty();
        let mut i: usize = 0;
        while i < self.clients.len()
            invariant
                i <= self.clients.len(),
                self.published == old(self).published,
                self.joined == old(self).joined,
                first == old(self).clients@,
                pinged.len() == outcomes.len(),
                outcomes.len() == i + (first.len() - self.clients@.len()),
                outcomes.len() <= first.len(),
                i == kept(pinged, outcomes).len(),
                self.clients@ == kept(pinged, outcomes) + first.skip(outcomes.len() as int),
                forall|k: int|
                    0 <= k < pinged.len() ==> {
                        &&& handed(#[trigger] pinged[k]) == handed(first[k]).push(
                            (text@, outcomes[k]),
                        )
                        &&& bound_of(pinged[k]) == bound_of(first[k])
                    },
            decreases self.clients.len() - i,
        {
            let ghost seen = outcomes.len() as int;
            assert(self.clients@[i as int] == first[seen]);
            let outcome = try_send(&mut self.clients[i], text.as_str());
            let ghost sent = self.clients@[i as int];
            proof {
                lemma_kept_push(pinged, outcomes, sent, outcome == SendOutcome::Delivered);
                pinged = pinged.push(sent);
                outcomes = outcomes.push(outcome == SendOutcome::Delivered);
            }
            if outcome == SendOutcome::Delivered {
                assert(self.clients@ =~= kept(pinged, outcomes) + first.skip(seen + 1));
                i += 1;
            } else {
                self.clients.remove(i);
                assert(self.clients@ =~= kept(pinged, outcomes) + first.skip(seen + 1));
            }
        }
        let ghost joined = self.joined@;
        self.published = Ghost(self.published@.push(text@));
        self.joined = Ghost(kept(joined, outcomes));
        proof {
            assert(outcomes.len() == first.len());
            assert(self.clients@ =~= kept(pinged, outcomes));
            let after_ping = before.publish(text@, outcomes);
            lemma_reclaim_wf(before, outcomes);
            lemma_kept_lengths(pinged, joined, outcomes);
            lemma_kept_lengths(pinged, after_ping.subscribers, outcomes);
            lemma_kept_is_subsequence(pinged, outcomes);
            lemma_kept_is_subsequence(joined, outcomes);
            lemma_kept_is_subsequence(after_ping.subscribers, outcomes);
            let at = kept_positions(outcomes);
            assert forall|k: int| 0 <= k < self@.subscribers.len() implies (
            #[trigger] self@.subscribers[k]) == before.reclaim(outcomes).subscribers[k] by {
                assert(self.clients@[k] == pinged[at[k]]);
                assert(self.joined@[k] == joined[at[k]]);
                assert(before.reclaim(outcomes).subscribers[k] == after_ping.subscribers[at[k]]);
            }
            assert(self@.subscribers =~= before.reclaim(outcomes).subscribers);
            assert(text@ == ping_text());
        }
    }
}

/// Selecting by the same flags from two sequences of one length gives two
/// selections of one length.
pub proof fn lemma_kept_lengths<A, B>(first: Seq<A>, second: Seq<B>, flags: Seq<bool>)
    requires
        first.len() == flags.len(),
        second.len() == flags.len(),
    ensures
        kept(first, flags).len() == kept(second, flags).len(),
    decreases flags.len(),
{
    if flags.len() > 0 {
        lemma_kept_lengths(first.drop_last(), second.drop_last(), flags.drop_last());
    }
}

} // verus!
