//! Single-slot, non-blocking mailboxes for signalling between two audio threads.
//!
//! A mailbox is split in two ends: the sender is owned by one thread, the
//! receiver by the other. Neither end ever blocks: a send into an occupied
//! slot hands the value back, and a receive from an empty slot reports that
//! nothing is there.
use vstd::prelude::*;

verus! {

#[verifier::external_type_specification]
#[verifier::external_body]
#[verifier::reject_recursive_types(T)]
pub struct ExProducer<T>(rtrb::Producer<T>);

#[verifier::external_type_specification]
#[verifier::external_body]
#[verifier::reject_recursive_types(T)]
pub struct ExConsumer<T>(rtrb::Consumer<T>);

/// Relies on rtrb::RingBuffer::new: allocates a wait-free queue of the given
/// capacity and returns its producer and consumer ends.
#[verifier::external_body]
fn ring_buffer<T>(capacity: usize) -> (rtrb::Producer<T>, rtrb::Consumer<T>)
    requires
        capacity == 1,
{
    rtrb::RingBuffer::new(capacity)
}

/// Relies on rtrb::Producer::push: without blocking, either moves the value
/// into the queue or, when the queue is full, hands the same value back
/// (`PushError::Full`).
#[verifier::external_body]
fn push_or_hand_back<T>(producer: &mut rtrb::Producer<T>, value: T) -> (r: Result<(), T>)
    ensures
        r matches Err(v) ==> v == value,
{
    match producer.push(value) {
        Ok(()) => Ok(()),
        Err(rtrb::PushError::Full(v)) => Err(v),
    }
}

/// Relies on rtrb::Consumer::pop: without blocking, takes the oldest value
/// out of the queue, or reports an empty queue (`PopError::Empty`).
#[verifier::external_body]
fn pop_if_any<T>(consumer: &mut rtrb::Consumer<T>) -> Option<T> {
    consumer.pop().ok()
}

/// The sending end of a single-slot mailbox.
#[verifier::reject_recursive_types(T)]
pub struct MailboxSender<T> {
    slot: rtrb::Producer<T>,
    sent: Ghost<Seq<T>>,
}

/// The receiving end of a single-slot mailbox.
#[verifier::reject_recursive_types(T)]
pub struct MailboxReceiver<T> {
    slot: rtrb::Consumer<T>,
    received: Ghost<Seq<T>>,
}

/// Creates an empty single-slot mailbox and returns its two ends.
pub fn mailbox<T>() -> (r: (MailboxSender<T>, MailboxReceiver<T>))
    ensures
        r.0.sent() == Seq::<T>::empty(),
        r.1.received() == Seq::<T>::empty(),
{
    let (producer, consumer) = ring_buffer(1);
    (
        MailboxSender { slot: producer, sent: Ghost(Seq::empty()) },
        MailboxReceiver { slot: consumer, received: Ghost(Seq::empty()) },
    )
}

impl<T> MailboxSender<T> {
    /// The values this end has placed in the slot, oldest first.
    pub closed spec fn sent(&self) -> Seq<T> {
        self.sent@
    }

    /// Offers a value to the other end without blocking.
    ///
    /// When the slot is still occupied the value is rejected and handed back
    /// unchanged; the occupant is left as it was.
    pub fn send(&mut self, value: T) -> (r: Result<(), T>)
        ensures
            r is Ok ==> final(self).sent() == old(self).sent().push(value),
            r matches Err(v) ==> v == value && final(self).sent() == old(self).sent(),
    {
        let ghost offered = value;
        let r = push_or_hand_back(&mut self.slot, value);
        if r.is_ok() {
            self.sent = Ghost(self.sent@.push(offered));
        }
        r
    }
}

impl<T> MailboxReceiver<T> {
    /// The values this end has taken out of the slot, oldest first.
    pub closed spec fn received(&self) -> Seq<T> {
        self.received@
    }

    /// Takes the value waiting in the slot, if any, without blocking.
    pub fn try_receive(&mut self) -> (r: Option<T>)
        ensures
            r matches Some(v) ==> final(self).received() == old(self).received().push(v),
            r is None ==> final(self).received() == old(self).received(),
    {
        let r = pop_if_any(&mut self.slot);
        match &r {
            Some(v) => {
                self.received = Ghost(self.received@.push(*v));
            },
            None => {},
        }
        r
    }
}

} // verus!
