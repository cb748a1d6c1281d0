//! Streaming bridge: the per-request component that turns a blocking,
//! callback-driven generation call into an incrementally consumable event
//! stream.
//!
//! A bridge is created only for a valid request against a resident model, so
//! a completion issued with no model loaded fails before any generation task
//! exists. The generation task drives `on_token` once per produced token: the
//! token is framed as one wire event and offered to the bounded channel, and
//! the returned decision tells the task to go on, to wait for the consumer,
//! or to stop — because the token budget is exhausted, the client
//! disconnected, or the frame can never fit the buffer. The HTTP side drains
//! frames in order from the other end.

use vstd::prelude::*;

verus! {

use crate::ServerError;
use crate::channel::{lemma_total_len_push, total_len, RecvOutcome, SendOutcome, StreamChannel};
use crate::events::{frame_event, frame_of};
use crate::model::{ModelHandle, ModelHolder};
use crate::request::CompletionRequest;

/// All of a bridge's observable state, as one specification value; what one
/// token callback does to it is the `step` transition.
pub struct BridgeState {
    pub sent: Seq<Seq<u8>>,
    pub delivered: Seq<Seq<u8>>,
    pub pending: Seq<Seq<u8>>,
    pub capacity: nat,
    pub sender_open: bool,
    pub receiver_open: bool,
    pub emitted: nat,
    pub max_tokens: nat,
    pub halted: Option<StopReason>,
    pub tokens: Seq<Seq<u8>>,
}

impl BridgeState {
    /// True when the buffer can take a frame of `n` bytes now without
    /// passing the capacity.
    pub open spec fn has_room_for(self, n: nat) -> bool {
        total_len(self.pending) + n <= self.capacity
    }

    /// One token callback: a halted bridge stays halted; a spent budget, a
    /// disconnected client or a frame that can never fit halts the task
    /// before anything is written; otherwise the token's frame is either
    /// buffered, strictly after every earlier frame, or refused without
    /// effect while the buffer is full.
    pub open spec fn step(self, token: Seq<u8>) -> (BridgeState, TokenDecision) {
        match self.halted {
            Some(reason) => (self, TokenDecision::Halt(reason)),
            None => if self.emitted == self.max_tokens {
                (
                    BridgeState { halted: Some(StopReason::MaxTokens), ..self },
                    TokenDecision::Halt(StopReason::MaxTokens),
                )
            } else if !self.receiver_open {
                (
                    BridgeState { halted: Some(StopReason::Disconnected), ..self },
                    TokenDecision::Halt(StopReason::Disconnected),
                )
            } else if frame_of(token).len() > self.capacity {
                (
                    BridgeState { halted: Some(StopReason::Oversized), ..self },
                    TokenDecision::Halt(StopReason::Oversized),
                )
            } else if self.has_room_for(frame_of(token).len()) {
                (
                    BridgeState {
                        sent: self.sent.push(frame_of(token)),
                        pending: self.pending.push(frame_of(token)),
                        emitted: self.emitted + 1,
                        tokens: self.tokens.push(token),
                        ..self
                    },
                    TokenDecision::Sent,
                )
            } else {
                (self, TokenDecision::Retry)
            },
        }
    }
}

/// The state after a generation task offers a whole sequence of tokens, one
/// callback each.
pub open spec fn replay(s: BridgeState, tokens: Seq<Seq<u8>>) -> BridgeState
    decreases tokens.len(),
{
    if tokens.len() == 0 {
        s
    } else {
        replay(s.step(tokens[0]).0, tokens.drop_first())
    }
}

/// Cancellation propagates: once the client has disconnected, no sequence of
/// further token callbacks — however long — adds anything to the stream or
/// spends any more of the budget.
pub proof fn lemma_no_tokens_after_disconnect(s: BridgeState, tokens: Seq<Seq<u8>>)
    requires
        !s.receiver_open,
    ensures
        replay(s, tokens).sent == s.sent,
        replay(s, tokens).emitted == s.emitted,
        replay(s, tokens).tokens == s.tokens,
        !replay(s, tokens).receiver_open,
    decreases tokens.len(),
{
    if tokens.len() > 0 {
        lemma_no_tokens_after_disconnect(s.step(tokens[0]).0, tokens.drop_first());
    }
}

/// The bytes of all the frames of a token sequence together.
pub open spec fn frames_len(tokens: Seq<Seq<u8>>) -> nat
    decreases tokens.len(),
{
    if tokens.len() == 0 {
        0
    } else {
        frame_of(tokens[0]).len() + frames_len(tokens.drop_first())
    }
}

/// A run that meets no obstacle accepts every token: if the client stays
/// connected, the budget covers the whole sequence and the buffer has room
/// for all the frames together, then a replay of the sequence appends
/// exactly one frame per token, in generation order. With a stub capability
/// that emits exactly `max_tokens` tokens, the stream therefore holds
/// exactly `max_tokens` events.
pub proof fn lemma_unobstructed_run_accepts_every_token(s: BridgeState, tokens: Seq<Seq<u8>>)
    requires
        s.halted is None,
        s.receiver_open,
        s.emitted + tokens.len() <= s.max_tokens,
        total_len(s.pending) + frames_len(tokens) <= s.capacity,
    ensures
        replay(s, tokens).sent == s.sent + tokens.map_values(|t: Seq<u8>| frame_of(t)),
        replay(s, tokens).pending == s.pending + tokens.map_values(|t: Seq<u8>| frame_of(t)),
        replay(s, tokens).emitted == s.emitted + tokens.len(),
        replay(s, tokens).halted is None,
        replay(s, tokens).receiver_open,
    decreases tokens.len(),
{
    let framed = tokens.map_values(|t: Seq<u8>| frame_of(t));
    if tokens.len() == 0 {
        assert(s.sent + framed =~= s.sent);
        assert(s.pending + framed =~= s.pending);
    } else {
        let frame0 = frame_of(tokens[0]);
        let s1 = s.step(tokens[0]).0;
        lemma_total_len_push(s.pending, frame0);
        assert(total_len(s1.pending) == total_len(s.pending) + frame0.len());
        lemma_unobstructed_run_accepts_every_token(s1, tokens.drop_first());
        let framed_rest = tokens.drop_first().map_values(|t: Seq<u8>| frame_of(t));
        assert(s.sent + framed =~= s.sent.push(frame0) + framed_rest);
        assert(s.pending + framed =~= s.pending.push(frame0) + framed_rest);
    }
}

/// The token budget holds along any run: however many tokens the generation
/// capability offers, the number of accepted events — and so the number of
/// frames sent — never passes `max_tokens`.
pub proof fn lemma_budget_along_any_run(s: BridgeState, tokens: Seq<Seq<u8>>)
    requires
        s.emitted <= s.max_tokens,
        s.sent.len() == s.emitted,
    ensures
        replay(s, tokens).emitted <= s.max_tokens,
        replay(s, tokens).sent.len() == replay(s, tokens).emitted,
    decreases tokens.len(),
{
    if tokens.len() > 0 {
        lemma_budget_along_any_run(s.step(tokens[0]).0, tokens.drop_first());
    }
}

/// Why a generation task was told to stop.
#[derive(Clone, Copy, PartialEq, Eq, Debug, Structural)]
pub enum StopReason {
    /// The client went away; every further token would be wasted compute.
    Disconnected,
    /// The request's token budget is spent.
    MaxTokens,
    /// One token's frame is longer than the stream buffer's whole capacity,
    /// so it can never be written; the caller should surface this as a
    /// generation failure.
    Oversized,
}

/// The decision handed back to the generation task after one token.
#[derive(Clone, Copy, PartialEq, Eq, Debug, Structural)]
pub enum TokenDecision {
    /// The token's event was buffered; keep generating.
    Sent,
    /// The consumer is slow; nothing was written, offer the same token again
    /// once the stream has drained.
    Retry,
    /// Stop producing tokens.
    Halt(StopReason),
}

/// The per-request bridge between one generation task and one HTTP response
/// body.
pub struct StreamingBridge {
    model: ModelHandle,
    channel: StreamChannel,
    emitted: u32,
    max_tokens: u32,
    halted: Option<StopReason>,
    tokens: Ghost<Seq<Seq<u8>>>,
}

impl StreamingBridge {
    /// The handle of the model this stream was started against; it never
    /// changes for the life of the stream, whatever happens to the holder.
    pub closed spec fn model(self) -> ModelHandle {
        self.model
    }

    /// The underlying frame channel, as a specification value.
    pub closed spec fn chan(self) -> StreamChannel {
        self.channel
    }

    /// How many token events were accepted into the stream.
    pub closed spec fn emitted(self) -> u32 {
        self.emitted
    }

    /// The request's token budget.
    pub closed spec fn max_tokens(self) -> u32 {
        self.max_tokens
    }

    /// The stop decision already taken, if any.
    pub closed spec fn halted(self) -> Option<StopReason> {
        self.halted
    }

    /// The tokens accepted into the stream, in generation order.
    pub closed spec fn tokens(self) -> Seq<Seq<u8>> {
        self.tokens@
    }

    /// Every frame sent into the stream, in order.
    pub closed spec fn stream_sent(self) -> Seq<Seq<u8>> {
        self.channel.sent()
    }

    /// Every frame delivered to the consumer, in order.
    pub closed spec fn stream_delivered(self) -> Seq<Seq<u8>> {
        self.channel.delivered()
    }

    /// The frames buffered and not yet delivered, in order.
    pub closed spec fn stream_pending(self) -> Seq<Seq<u8>> {
        self.channel.pending()
    }

    /// True until the generation task finishes and closes its end.
    pub closed spec fn stream_open(self) -> bool {
        self.channel.sender_open()
    }

    /// True until the client disconnects.
    pub closed spec fn client_connected(self) -> bool {
        self.channel.receiver_open()
    }

    /// True when the channel can take a frame of `n` bytes now.
    pub closed spec fn has_room_for(self, n: nat) -> bool {
        self.channel.has_room_for(n)
    }

    /// The stream buffer's capacity, in bytes: no frame longer than this can
    /// ever be written.
    pub closed spec fn stream_capacity(self) -> usize {
        self.channel.capacity()
    }

    /// The bridge's observable state, the value the `step` transition acts
    /// on.
    pub open spec fn state(self) -> BridgeState {
        BridgeState {
            sent: self.stream_sent(),
            delivered: self.stream_delivered(),
            pending: self.stream_pending(),
            capacity: self.chan().capacity() as nat,
            sender_open: self.stream_open(),
            receiver_open: self.client_connected(),
            emitted: self.emitted() as nat,
            max_tokens: self.max_tokens() as nat,
            halted: self.halted(),
            tokens: self.tokens(),
        }
    }

    /// Well-formedness: the channel is well-formed; the stream holds exactly
    /// one frame per accepted token, in generation order, each the wire
    /// framing of its token; and no more tokens were accepted than the
    /// budget allows.
    pub open spec fn wf(self) -> bool {
        &&& self.chan().wf()
        &&& self.emitted() as nat == self.tokens().len()
        &&& self.stream_sent().len() == self.tokens().len()
        &&& forall|i: int|
            0 <= i < self.tokens().len() ==> self.stream_sent()[i] == frame_of(#[trigger] self.tokens()[i])
        &&& self.emitted() <= self.max_tokens()
    }

    /// Begin a completion: validate the request and borrow the resident
    /// model. Fails with `InvalidRequest` or `NoModelLoaded` — and then no
    /// bridge, hence no generation task, comes to exist. On success the
    /// bridge is bound to the borrowed handle with an empty, open stream.
    pub fn begin_completion(holder: &ModelHolder, request: &CompletionRequest, capacity: usize) -> (r:
        Result<StreamingBridge, ServerError>)
        ensures
            !request.valid() ==> r == Err::<StreamingBridge, ServerError>(
                ServerError::InvalidRequest,
            ),
            request.valid() && holder.resident() is None ==> r == Err::<
                StreamingBridge,
                ServerError,
            >(ServerError::NoModelLoaded),
            request.valid() ==> (holder.resident() matches Some(h) ==> (r matches Ok(b) && b.wf()
                && b.model() == h && b.emitted() == 0 && b.max_tokens() == request.max_tokens
                && b.halted() is None && b.tokens() == Seq::<Seq<u8>>::empty()
                && b.stream_sent() == Seq::<Seq<u8>>::empty()
                && b.stream_delivered() == Seq::<Seq<u8>>::empty()
                && b.stream_pending() == Seq::<Seq<u8>>::empty()
                && b.stream_capacity() == capacity && b.stream_open()
                && b.client_connected())),
            r is Ok <==> request.valid() && holder.resident() is Some,
    {
        if let Err(e) = request.validate() {
            return Err(e);
        }
        let model = match holder.borrow_for_inference() {
            Ok(h) => h,
            Err(e) => {
                return Err(e);
            },
        };
        Ok(
            StreamingBridge {
                model,
                channel: StreamChannel::channel(capacity),
                emitted: 0,
                max_tokens: request.max_tokens,
                halted: None,
                tokens: Ghost(Seq::empty()),
            },
        )
    }

    /// The per-token callback's decision. If the budget is spent, halt
    /// before writing anything. Otherwise frame the token and offer it to
    /// the channel: a refused write means backpressure (retry the same token
    /// later; nothing was written), a disconnected client (halt; nothing was
    /// written and generation must stop), or a frame longer than the whole
    /// buffer, which can never be written (halt, to be surfaced as a
    /// failure). The model observed and the budget never change.
    pub fn on_token(&mut self, token: &[u8]) -> (r: TokenDecision)
        requires
            old(self).wf(),
            old(self).halted() is None,
            old(self).stream_open(),
        ensures
            final(self).wf(),
            (final(self).state(), r) == old(self).state().step(token@),
            final(self).model() == old(self).model(),
            final(self).max_tokens() == old(self).max_tokens(),
            final(self).stream_open(),
            final(self).client_connected() == old(self).client_connected(),
            final(self).stream_delivered() == old(self).stream_delivered(),
            old(self).emitted() == old(self).max_tokens() ==> r == TokenDecision::Halt(
                StopReason::MaxTokens,
            ) && final(self).halted() == Some(StopReason::MaxTokens),
            old(self).emitted() < old(self).max_tokens() && !old(self).client_connected()
                ==> r == TokenDecision::Halt(StopReason::Disconnected)
                && final(self).halted() == Some(StopReason::Disconnected),
            old(self).emitted() < old(self).max_tokens() && old(self).client_connected()
                && frame_of(token@).len() > old(self).stream_capacity()
                ==> r == TokenDecision::Halt(StopReason::Oversized)
                && final(self).halted() == Some(StopReason::Oversized),
            old(self).emitted() < old(self).max_tokens() && old(self).client_connected()
                && old(self).has_room_for(frame_of(token@).len())
                ==> r == TokenDecision::Sent
                && final(self).emitted() == old(self).emitted() + 1
                && final(self).tokens() == old(self).tokens().push(token@)
                && final(self).stream_sent() == old(self).stream_sent().push(frame_of(token@))
                && final(self).halted() is None,
            old(self).emitted() < old(self).max_tokens() && old(self).client_connected()
                && frame_of(token@).len() <= old(self).stream_capacity()
                && !old(self).has_room_for(frame_of(token@).len())
                ==> r == TokenDecision::Retry && final(self).halted() is None,
            r != TokenDecision::Sent ==> final(self).stream_sent() == old(self).stream_sent()
                && final(self).tokens() == old(self).tokens()
                && final(self).emitted() == old(self).emitted(),
    {
        if self.emitted == self.max_tokens {
            self.halted = Some(StopReason::MaxTokens);
            return TokenDecision::Halt(StopReason::MaxTokens);
        }
        let frame = frame_event(token);
        match self.channel.send(frame) {
            SendOutcome::Accepted => {
                self.emitted = self.emitted + 1;
                proof {
                    self.tokens@ = self.tokens@.push(token@);
                }
                TokenDecision::Sent
            },
            SendOutcome::Backpressure => TokenDecision::Retry,
            SendOutcome::Oversized => {
                self.halted = Some(StopReason::Oversized);
                TokenDecision::Halt(StopReason::Oversized)
            },
            SendOutcome::Disconnected => {
                self.halted = Some(StopReason::Disconnected);
                TokenDecision::Halt(StopReason::Disconnected)
            },
        }
    }

    /// The HTTP side takes the oldest buffered frame: `Pending` while the
    /// generation task may still produce, `Closed` once the stream has ended
    /// and drained. Draining never touches what was sent.
    pub fn drain(&mut self) -> (r: RecvOutcome)
        requires
            old(self).wf(),
        ensures
            final(self).wf(),
            final(self).model() == old(self).model(),
            final(self).max_tokens() == old(self).max_tokens(),
            final(self).emitted() == old(self).emitted(),
            final(self).halted() == old(self).halted(),
            final(self).tokens() == old(self).tokens(),
            final(self).stream_sent() == old(self).stream_sent(),
            final(self).stream_capacity() == old(self).stream_capacity(),
            final(self).stream_open() == old(self).stream_open(),
            final(self).client_connected() == old(self).client_connected(),
            old(self).stream_pending().len() > 0 ==> (r matches RecvOutcome::Frame(f)
                && f@ == old(self).stream_pending()[0]
                && final(self).stream_pending() == old(self).stream_pending().drop_first()
                && final(self).stream_delivered() == old(self).stream_delivered().push(f@)),
            old(self).stream_pending().len() == 0 && old(self).stream_open() ==> (r
                matches RecvOutcome::Pending && *final(self) == *old(self)),
            old(self).stream_pending().len() == 0 && !old(self).stream_open() ==> (r
                matches RecvOutcome::Closed && *final(self) == *old(self)),
    {
        self.channel.recv()
    }

    /// The generation task is done — its primitive returned, whether by stop
    /// condition, exhausted budget, or failure. Close the producer end so
    /// the consumer sees end-of-stream once it drains; a failure is reported
    /// as `GenerationFailed` for the caller to surface, never a crash.
    pub fn finish(&mut self, outcome: Result<(), String>) -> (r: Option<ServerError>)
        requires
            old(self).wf(),
        ensures
            final(self).wf(),
            final(self).model() == old(self).model(),
            final(self).max_tokens() == old(self).max_tokens(),
            final(self).emitted() == old(self).emitted(),
            final(self).halted() == old(self).halted(),
            final(self).tokens() == old(self).tokens(),
            final(self).stream_sent() == old(self).stream_sent(),
            final(self).stream_delivered() == old(self).stream_delivered(),
            final(self).stream_pending() == old(self).stream_pending(),
            final(self).stream_capacity() == old(self).stream_capacity(),
            !final(self).stream_open(),
            final(self).client_connected() == old(self).client_connected(),
            outcome matches Err(reason) ==> r == Some(ServerError::GenerationFailed(reason)),
            outcome is Ok ==> r is None,
    {
        self.channel.close_sender();
        match outcome {
            Ok(_) => None,
            Err(reason) => Some(ServerError::GenerationFailed(reason)),
        }
    }

    /// The client disconnected: close the consumer end, so the next token
    /// write is refused and generation halts.
    pub fn client_disconnected(&mut self)
        requires
            old(self).wf(),
        ensures
            final(self).wf(),
            final(self).model() == old(self).model(),
            final(self).max_tokens() == old(self).max_tokens(),
            final(self).emitted() == old(self).emitted(),
            final(self).halted() == old(self).halted(),
            final(self).tokens() == old(self).tokens(),
            final(self).stream_sent() == old(self).stream_sent(),
            final(self).stream_delivered() == old(self).stream_delivered(),
            final(self).stream_pending() == old(self).stream_pending(),
            final(self).stream_capacity() == old(self).stream_capacity(),
            final(self).stream_open() == old(self).stream_open(),
            !final(self).client_connected(),
    {
        self.channel.close_receiver();
    }
}

/// No completion ever streams more than its budget: at every moment a
/// well-formed bridge has sent at most `max_tokens` token events.
pub proof fn lemma_token_budget(b: StreamingBridge)
    requires
        b.wf(),
    ensures
        b.stream_sent().len() <= b.max_tokens(),
{
}

/// What the consumer sees is exactly what was generated: at every moment the
/// delivered frames are a prefix of the sent frames, and every sent frame is
/// the wire framing of the corresponding generated token, in generation
/// order.
pub proof fn lemma_stream_is_framed_tokens(b: StreamingBridge)
    requires
        b.wf(),
    ensures
        b.stream_delivered().len() <= b.stream_sent().len(),
        forall|i: int|
            0 <= i < b.stream_delivered().len() ==> b.stream_delivered()[i] == b.stream_sent()[i],
        forall|i: int|
            0 <= i < b.stream_sent().len() ==> b.stream_sent()[i] == frame_of(
                #[trigger] b.tokens()[i],
            ),
{
}

} // verus!
