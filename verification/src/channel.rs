//! A bounded, strictly FIFO, single-producer single-consumer byte-frame
//! channel: the in-process duplex pipe between a generation task and the HTTP
//! response body.
//!
//! The channel enforces backpressure by capacity in buffered bytes: the
//! buffered bytes never exceed the capacity. A send that would overfill the
//! buffer is refused with `Backpressure` and changes nothing, so a slow
//! consumer throttles the producer; a frame longer than the whole capacity
//! can never fit and is refused outright with `Oversized`. A send after the
//! receiver closed is refused with `Disconnected`, which is how a client's
//! disconnect reaches the producer. The ghost history of sent and delivered
//! frames witnesses that delivery order is exactly send order.

use vstd::prelude::*;

verus! {

/// The bytes buffered across a sequence of frames.
pub open spec fn total_len(q: Seq<Seq<u8>>) -> nat
    decreases q.len(),
{
    if q.len() == 0 {
        0
    } else {
        q[0].len() + total_len(q.drop_first())
    }
}

/// Appending one frame adds exactly its length to the buffered byte count.
pub proof fn lemma_total_len_push(q: Seq<Seq<u8>>, v: Seq<u8>)
    ensures
        total_len(q.push(v)) == total_len(q) + v.len(),
    decreases q.len(),
{
    if q.len() == 0 {
        assert(q.push(v)[0] == v);
        assert(q.push(v).drop_first() =~= Seq::<Seq<u8>>::empty());
        assert(total_len(Seq::<Seq<u8>>::empty()) == 0);
        assert(total_len(q) == 0);
    } else {
        assert(q.push(v)[0] == q[0]);
        assert(q.push(v).drop_first() =~= q.drop_first().push(v));
        lemma_total_len_push(q.drop_first(), v);
        assert(total_len(q.push(v)) == q[0].len() + total_len(q.drop_first().push(v)));
    }
}

/// The producer's view of one send attempt.
#[derive(Clone, Copy, PartialEq, Eq, Debug, Structural)]
pub enum SendOutcome {
    /// The frame was buffered.
    Accepted,
    /// The buffer is full; nothing was written, try again once the consumer
    /// has drained.
    Backpressure,
    /// The frame is longer than the channel's whole capacity; nothing was
    /// written and retrying cannot help.
    Oversized,
    /// The receiver is gone; nothing was written and nothing ever will be.
    Disconnected,
}

/// The consumer's view of one receive attempt.
#[derive(PartialEq, Eq, Debug)]
pub enum RecvOutcome {
    /// The oldest buffered frame.
    Frame(Vec<u8>),
    /// Nothing buffered yet, but the sender may still produce.
    Pending,
    /// Nothing buffered and the sender has closed: end of stream.
    Closed,
}

/// The bounded FIFO frame channel.
pub struct StreamChannel {
    queue: Vec<Vec<u8>>,
    buffered: usize,
    capacity: usize,
    sender_open: bool,
    receiver_open: bool,
    sent: Ghost<Seq<Seq<u8>>>,
    delivered: Ghost<Seq<Seq<u8>>>,
}

impl StreamChannel {
    /// The frames currently buffered, oldest first.
    pub closed spec fn pending(self) -> Seq<Seq<u8>> {
        self.queue@.map_values(|v: Vec<u8>| v@)
    }

    /// Every frame ever accepted from the producer, in order.
    pub closed spec fn sent(self) -> Seq<Seq<u8>> {
        self.sent@
    }

    /// Every frame ever handed to the consumer, in order.
    pub closed spec fn delivered(self) -> Seq<Seq<u8>> {
        self.delivered@
    }

    /// The buffer capacity, in bytes.
    pub closed spec fn capacity(self) -> usize {
        self.capacity
    }

    /// The bytes currently buffered.
    pub closed spec fn buffered(self) -> nat {
        self.buffered as nat
    }

    /// True until the producer closes its end.
    pub closed spec fn sender_open(self) -> bool {
        self.sender_open
    }

    /// True until the consumer disappears.
    pub closed spec fn receiver_open(self) -> bool {
        self.receiver_open
    }

    /// True when the buffer has room to accept a frame of `n` bytes without
    /// passing the capacity.
    pub open spec fn has_room_for(self, n: nat) -> bool {
        self.buffered() + n <= self.capacity()
    }

    /// Well-formedness: the byte count matches the buffered frames; what was
    /// sent is exactly what was delivered followed by what is still pending
    /// (so delivery order is send order); and the buffered bytes never exceed
    /// the capacity.
    pub open spec fn wf(self) -> bool {
        &&& self.buffered() == total_len(self.pending())
        &&& self.sent() == self.delivered() + self.pending()
        &&& self.buffered() <= self.capacity()
    }

    /// A fresh, empty, open channel with the given byte capacity.
    pub fn channel(capacity: usize) -> (c: Self)
        ensures
            c.wf(),
            c.capacity() == capacity,
            c.pending() == Seq::<Seq<u8>>::empty(),
            c.sent() == Seq::<Seq<u8>>::empty(),
            c.delivered() == Seq::<Seq<u8>>::empty(),
            c.sender_open(),
            c.receiver_open(),
    {
        let c = StreamChannel {
            queue: Vec::new(),
            buffered: 0,
            capacity,
            sender_open: true,
            receiver_open: true,
            sent: Ghost(Seq::empty()),
            delivered: Ghost(Seq::empty()),
        };
        proof {
            assert(c.pending() =~= Seq::<Seq<u8>>::empty());
        }
        c
    }

    /// Offer one frame to the channel. Refused with `Disconnected` once the
    /// receiver closed, with `Oversized` if the frame is longer than the
    /// whole capacity, and with `Backpressure` while the buffer lacks room;
    /// every refusal leaves the channel untouched. Otherwise the frame is
    /// appended, strictly after every earlier frame.
    pub fn send(&mut self, frame: Vec<u8>) -> (r: SendOutcome)
        requires
            old(self).wf(),
            old(self).sender_open(),
        ensures
            final(self).wf(),
            final(self).capacity() == old(self).capacity(),
            final(self).sender_open(),
            final(self).receiver_open() == old(self).receiver_open(),
            final(self).delivered() == old(self).delivered(),
            !old(self).receiver_open() ==> r == SendOutcome::Disconnected
                && *final(self) == *old(self),
            old(self).receiver_open() && frame@.len() > old(self).capacity()
                ==> r == SendOutcome::Oversized && *final(self) == *old(self),
            old(self).receiver_open() && old(self).has_room_for(frame@.len())
                ==> r == SendOutcome::Accepted
                && final(self).sent() == old(self).sent().push(frame@)
                && final(self).pending() == old(self).pending().push(frame@),
            old(self).receiver_open() && frame@.len() <= old(self).capacity()
                && !old(self).has_room_for(frame@.len()) ==> r == SendOutcome::Backpressure
                && *final(self) == *old(self),
            r != SendOutcome::Accepted ==> *final(self) == *old(self),
    {
        if !self.receiver_open {
            return SendOutcome::Disconnected;
        }
        if frame.len() > self.capacity {
            return SendOutcome::Oversized;
        }
        if frame.len() > self.capacity - self.buffered {
            return SendOutcome::Backpressure;
        }
        let ghost fv = frame@;
        proof {
            lemma_total_len_push(old(self).pending(), fv);
        }
        self.buffered = self.buffered + frame.len();
        self.queue.push(frame);
        proof {
            self.sent@ = self.sent@.push(fv);
            assert(self.pending() =~= old(self).pending().push(fv));
            assert(self.sent() =~= old(self).delivered() + self.pending());
        }
        SendOutcome::Accepted
    }

    /// Take the oldest buffered frame, if any. `Pending` means nothing is
    /// buffered yet but the sender is still open; `Closed` means the stream
    /// has ended.
    pub fn recv(&mut self) -> (r: RecvOutcome)
        requires
            old(self).wf(),
        ensures
            final(self).wf(),
            final(self).capacity() == old(self).capacity(),
            final(self).sender_open() == old(self).sender_open(),
            final(self).receiver_open() == old(self).receiver_open(),
            final(self).sent() == old(self).sent(),
            old(self).pending().len() > 0 ==> (r matches RecvOutcome::Frame(f)
                && f@ == old(self).pending()[0]
                && final(self).pending() == old(self).pending().drop_first()
                && final(self).delivered() == old(self).delivered().push(f@)),
            old(self).pending().len() == 0 && old(self).sender_open() ==> (r
                matches RecvOutcome::Pending && *final(self) == *old(self)),
            old(self).pending().len() == 0 && !old(self).sender_open() ==> (r
                matches RecvOutcome::Closed && *final(self) == *old(self)),
    {
        if self.queue.len() == 0 {
            if self.sender_open {
                RecvOutcome::Pending
            } else {
                RecvOutcome::Closed
            }
        } else {
            let f = self.queue.remove(0);
            self.buffered = self.buffered - f.len();
            proof {
                self.delivered@ = self.delivered@.push(f@);
                assert(self.pending() =~= old(self).pending().drop_first());
                assert(self.delivered() + self.pending() =~= old(self).delivered()
                    + old(self).pending());
            }
            RecvOutcome::Frame(f)
        }
    }

    /// The producer is done: no frame will follow. The consumer sees
    /// `Closed` once the buffer drains.
    pub fn close_sender(&mut self)
        requires
            old(self).wf(),
        ensures
            final(self).wf(),
            !final(self).sender_open(),
            final(self).receiver_open() == old(self).receiver_open(),
            final(self).capacity() == old(self).capacity(),
            final(self).pending() == old(self).pending(),
            final(self).sent() == old(self).sent(),
            final(self).delivered() == old(self).delivered(),
    {
        self.sender_open = false;
    }

    /// The consumer is gone (the client disconnected): every further send is
    /// refused with `Disconnected`.
    pub fn close_receiver(&mut self)
        requires
            old(self).wf(),
        ensures
            final(self).wf(),
            !final(self).receiver_open(),
            final(self).sender_open() == old(self).sender_open(),
            final(self).capacity() == old(self).capacity(),
            final(self).pending() == old(self).pending(),
            final(self).sent() == old(self).sent(),
            final(self).delivered() == old(self).delivered(),
    {
        self.receiver_open = false;
    }
}

/// Delivery order matches send order exactly: at every moment the frames
/// delivered to the consumer are a prefix of the frames the producer sent,
/// element for element.
pub proof fn lemma_delivery_in_send_order(c: StreamChannel)
    requires
        c.wf(),
    ensures
        c.delivered().len() <= c.sent().len(),
        forall|i: int| 0 <= i < c.delivered().len() ==> c.sent()[i] == c.delivered()[i],
{
}

} // verus!
