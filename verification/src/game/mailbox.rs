//! The outgoing queue of one connection.
use tokio::sync::mpsc;
use vstd::prelude::*;

use crate::protocol::ServerMessage;

verus! {

/// A message queued for delivery to one watcher: one of the server's own typed
/// messages, or a JSON object forwarded verbatim from the game process, kept
/// as raw text so that it is never parsed and serialized again.
#[derive(Debug, PartialEq)]
pub enum OutgoingMessage {
    Typed(ServerMessage),
    Raw(String),
}

impl Clone for OutgoingMessage {
    fn clone(&self) -> (copy: Self)
        ensures
            copy == *self,
    {
        match self {
            OutgoingMessage::Typed(msg) => OutgoingMessage::Typed(*msg),
            OutgoingMessage::Raw(text) => OutgoingMessage::Raw(text.clone()),
        }
    }
}

impl From<ServerMessage> for OutgoingMessage {
    fn from(msg: ServerMessage) -> (out: Self)
        ensures
            out == OutgoingMessage::Typed(msg),
    {
        OutgoingMessage::Typed(msg)
    }
}

impl vstd::std_specs::convert::FromSpecImpl<ServerMessage> for OutgoingMessage {
    open spec fn obeys_from_spec() -> bool {
        true
    }

    open spec fn from_spec(msg: ServerMessage) -> Self {
        OutgoingMessage::Typed(msg)
    }
}

/// What became of a message that was offered to a mailbox.
#[derive(Debug, Clone, Copy, PartialEq, Eq, Structural)]
pub enum Delivery {
    /// It waits in the queue for the reading end.
    Queued,
    /// The queue was full: the connection is not keeping up.
    Full,
    /// The reading end is gone.
    Closed,
}

#[verifier::external_type_specification]
#[verifier::external_body]
#[verifier::reject_recursive_types(T)]
pub struct ExSender<T>(mpsc::Sender<T>);

#[verifier::external_type_specification]
#[verifier::external_body]
#[verifier::reject_recursive_types(T)]
pub struct ExReceiver<T>(mpsc::Receiver<T>);

/// One message that was offered to a queue.
pub struct Offer {
    pub message: OutgoingMessage,
    /// The number of messages that waited in the queue at that moment, taken in
    /// and not yet read.
    pub waiting: nat,
    /// What became of the message.
    pub outcome: Delivery,
}

/// The offers that were made through a sender, oldest first.
pub uninterp spec fn sender_offers(sender: mpsc::Sender<OutgoingMessage>) -> Seq<Offer>;

/// The number of messages that a sender's channel was made to hold at once.
pub uninterp spec fn sender_limit(sender: mpsc::Sender<OutgoingMessage>) -> nat;

/// A mark of the channel that a sender writes to. Both ends of one channel carry
/// the same mark.
pub uninterp spec fn sender_channel(sender: mpsc::Sender<OutgoingMessage>) -> int;

/// A mark of the channel that a receiver reads from. Both ends of one channel
/// carry the same mark.
pub uninterp spec fn receiver_channel(receiver: mpsc::Receiver<OutgoingMessage>) -> int;

/// How many of `offers` were taken into the queue.
pub open spec fn queued_count(offers: Seq<Offer>) -> nat {
    offers.filter(|offer: Offer| offer.outcome is Queued).len()
}

/// Whether one of `offers` found the reading end gone.
pub open spec fn found_closed(offers: Seq<Offer>) -> bool {
    exists|i: int| 0 <= i < offers.len() && (#[trigger] offers[i]).outcome is Closed
}

/// How many messages wait right after `offers`, before any more is read.
pub open spec fn waiting_after(offers: Seq<Offer>) -> nat {
    if offers.len() == 0 {
        0
    } else if offers.last().outcome is Queued {
        offers.last().waiting + 1
    } else {
        offers.last().waiting
    }
}

/// Whether `offer` can come behind `offers`, on a queue that holds `limit`
/// messages. Only reading changes what waits between two offers, and no more
/// waits than was taken in or fits. Unless the reading end is gone, a message is
/// taken in exactly where there is room for it; and once the reading end is gone
/// it stays gone.
pub open spec fn can_follow(offers: Seq<Offer>, limit: nat, offer: Offer) -> bool {
    &&& offer.waiting <= limit
    &&& offer.waiting <= waiting_after(offers)
    &&& offer.waiting <= queued_count(offers)
    &&& offer.outcome is Queued ==> offer.waiting < limit
    &&& offer.outcome is Full ==> offer.waiting == limit
    &&& found_closed(offers) ==> offer.outcome is Closed
}

/// The writing end of a bounded queue. It is its queue's only writing end.
pub struct Mailbox {
    sender: mpsc::Sender<OutgoingMessage>,
}

impl Mailbox {
    /// The offers made so far, oldest first.
    pub closed spec fn offers(self) -> Seq<Offer> {
        sender_offers(self.sender)
    }

    /// The number of messages that the queue holds at once.
    pub closed spec fn limit(self) -> nat {
        sender_limit(self.sender)
    }

    /// The mark of the channel that carries the queue.
    pub closed spec fn channel(self) -> int {
        sender_channel(self.sender)
    }

    /// Opens an empty queue for `capacity` messages and returns its two ends.
    pub(crate) fn open(capacity: usize) -> (ends: (Mailbox, mpsc::Receiver<OutgoingMessage>))
        requires
            0 < capacity <= usize::MAX / 8,
        ensures
            ends.0.offers() == Seq::<Offer>::empty(),
            ends.0.limit() == capacity,
            ends.0.channel() == receiver_channel(ends.1),
    {
        let (sender, receiver) = channel(capacity);
        (Mailbox { sender }, receiver)
    }

    /// Offers `message` to the queue, without waiting for room in it.
    pub(crate) fn offer(&mut self, message: OutgoingMessage) -> (outcome: Delivery)
        ensures
            final(self).offers() == old(self).offers().push(final(self).offers().last()),
            final(self).offers().last().message == message,
            final(self).offers().last().outcome == outcome,
            can_follow(old(self).offers(), old(self).limit(), final(self).offers().last()),
            final(self).limit() == old(self).limit(),
            final(self).channel() == old(self).channel(),
    {
        try_send(self, message)
    }
}

/// A mailbox shows of its sender what the sender's channel has: its offers, its
/// limit and its mark.
proof fn mailbox_shows_its_sender(mailbox: Mailbox)
    ensures
        mailbox.offers() == sender_offers(mailbox.sender),
        mailbox.limit() == sender_limit(mailbox.sender),
        mailbox.channel() == sender_channel(mailbox.sender),
{
}

/// Every message of the server goes out as itself.
pub proof fn typed_message_goes_out_as_itself(msg: ServerMessage)
    ensures
        <OutgoingMessage as vstd::std_specs::convert::FromSpec<ServerMessage>>::obeys_from_spec(),
        <OutgoingMessage as vstd::std_specs::convert::FromSpec<ServerMessage>>::from_spec(msg)
            == OutgoingMessage::Typed(msg),
{
}

/// No offer is queued before the first; each one adds to the count of the queued
/// ones exactly if it was queued.
pub proof fn queued_offers_are_counted(offers: Seq<Offer>, offer: Offer)
    ensures
        queued_count(Seq::empty()) == 0,
        offer.outcome is Queued ==> queued_count(offers.push(offer)) == queued_count(offers) + 1,
        offer.outcome is Full ==> queued_count(offers.push(offer)) == queued_count(offers),
        offer.outcome is Closed ==> queued_count(offers.push(offer)) == queued_count(offers),
{
    reveal(Seq::filter);
    assert(offers.push(offer).drop_last() == offers);
}

/// The reading end was found gone exactly if the latest offer found it gone or an
/// earlier one did.
pub proof fn closed_offers_are_remembered(offers: Seq<Offer>, offer: Offer)
    ensures
        !found_closed(Seq::empty()),
        found_closed(offers.push(offer)) <==> found_closed(offers) || offer.outcome is Closed,
{
    let longer = offers.push(offer);
    if found_closed(offers) {
        let i = choose|i: int| 0 <= i < offers.len() && (#[trigger] offers[i]).outcome is Closed;
        assert(longer[i] == offers[i]);
    }
    if offer.outcome is Closed {
        assert(longer[offers.len() as int] == offer);
    }
    if found_closed(longer) {
        let i = choose|i: int| 0 <= i < longer.len() && (#[trigger] longer[i]).outcome is Closed;
        if i < offers.len() {
            assert(offers[i] == longer[i]);
        }
    }
}

/// Nothing waits in a new queue; right behind an offer one message more waits if
/// it was queued, and as many as before otherwise.
pub proof fn queued_offers_wait(offers: Seq<Offer>, offer: Offer)
    ensures
        waiting_after(Seq::empty()) == 0,
        offer.outcome is Queued ==> waiting_after(offers.push(offer)) == offer.waiting + 1,
        !(offer.outcome is Queued) ==> waiting_after(offers.push(offer)) == offer.waiting,
{
}

/// No more messages wait at an offer than waited right behind the one before, than
/// were taken in so far and than fit. With that, a queue whose reading end was not
/// found gone takes a message in exactly where there is room, calls itself full
/// exactly where there is none, and may find its reading end gone at any offer;
/// behind such an offer every other one finds it gone.
pub proof fn room_decides(offers: Seq<Offer>, limit: nat, offer: Offer)
    ensures
        can_follow(offers, limit, offer) ==> offer.waiting <= waiting_after(offers)
            && offer.waiting <= queued_count(offers) && offer.waiting <= limit,
        offer.waiting <= waiting_after(offers) && offer.waiting <= queued_count(offers)
            && offer.waiting <= limit ==> {
            &&& offer.outcome is Queued ==> (can_follow(offers, limit, offer) <==> !found_closed(
                offers,
            ) && offer.waiting < limit)
            &&& offer.outcome is Full ==> (can_follow(offers, limit, offer) <==> !found_closed(
                offers,
            ) && offer.waiting == limit)
            &&& offer.outcome is Closed ==> can_follow(offers, limit, offer)
        },
{
}

/// Calls `tokio::sync::mpsc::channel`.
///
/// Trusted: the two ends are of one channel, nothing was offered yet through the
/// sender, and `capacity` is the number of messages that it holds at once. The
/// function panics on a capacity of zero and on one over
/// `Semaphore::MAX_PERMITS`, an eighth of `usize::MAX`; both are left out.
#[verifier::external_body]
fn channel(capacity: usize) -> (ends: (
    mpsc::Sender<OutgoingMessage>,
    mpsc::Receiver<OutgoingMessage>,
))
    requires
        0 < capacity <= usize::MAX / 8,
    ensures
        sender_offers(ends.0) == Seq::<Offer>::empty(),
        sender_limit(ends.0) == capacity,
        sender_channel(ends.0) == receiver_channel(ends.1),
{
    mpsc::channel(capacity)
}

/// Calls `tokio::sync::mpsc::Sender::try_send`, which returns at once.
///
/// Trusted: the message was offered, once and after all earlier ones, with the
/// outcome that is returned; channel and limit stay as they were. The channel
/// has as many places as its limit says. A message takes one from when it is
/// taken in until it is read, and a mailbox is the only writing end: so what
/// waits only shrinks between two offers, and was all taken in through it. The
/// outcome is `Full` where no place is free and `Queued` where one is. A channel
/// whose reading end is gone answers `Closed` from then on.
///
/// How many messages were read by now, and whether the reading end still exists,
/// is left unsaid: it is up to the task that owns it.
#[verifier::external_body]
fn try_send(mailbox: &mut Mailbox, message: OutgoingMessage) -> (outcome: Delivery)
    ensures
        sender_offers(final(mailbox).sender) == sender_offers(old(mailbox).sender).push(
            sender_offers(final(mailbox).sender).last(),
        ),
        sender_offers(final(mailbox).sender).last().message == message,
        sender_offers(final(mailbox).sender).last().outcome == outcome,
        can_follow(
            sender_offers(old(mailbox).sender),
            sender_limit(old(mailbox).sender),
            sender_offers(final(mailbox).sender).last(),
        ),
        sender_limit(final(mailbox).sender) == sender_limit(old(mailbox).sender),
        sender_channel(final(mailbox).sender) == sender_channel(old(mailbox).sender),
{
    match mailbox.sender.try_send(message) {
        Ok(()) => Delivery::Queued,
        Err(mpsc::error::TrySendError::Full(_)) => Delivery::Full,
        Err(mpsc::error::TrySendError::Closed(_)) => Delivery::Closed,
    }
}

} // verus!
