//! The streaming audio source: a pull-based sequence of samples fed by a
//! channel of chunks.
//!
//! The source keeps the samples it has received and not yet handed out. A pull
//! hands out the oldest of them. With none pending it asks the channel, first
//! without blocking and then with a bounded wait, and hands out a silent sample
//! when the wait brings nothing, so that an underrun never stalls the consumer.
//! A channel that has closed ends the sequence for good.

use std::collections::VecDeque;
use std::sync::mpsc::{Receiver, RecvTimeoutError, TryRecvError};
use std::time::Duration;
use vstd::prelude::*;

verus! {

/// The receiving end of a standard-library channel.
#[verifier::external_type_specification]
#[verifier::external_body]
#[verifier::reject_recursive_types(T)]
pub struct ExReceiver<T>(Receiver<T>);

/// How long a pull waits for the channel before it hands out silence.
pub const WAIT_MILLIS: u64 = 100;

/// The number of samples a new source makes room for.
pub const INITIAL_CAPACITY: usize = 8192;

/// How many times one pull asks the channel before it hands out silence. Only
/// a chunk without samples makes a pull ask again, so the bound is reached
/// only by a channel that delivers that many of them in a row.
pub const RETRY_LIMIT: u64 = u64::MAX;

/// What one attempt to receive from the channel brought.
#[derive(Debug)]
pub enum Delivery {
    /// A chunk of samples.
    Chunk(Vec<i16>),
    /// No chunk was ready, or none arrived within the wait.
    Nothing,
    /// The sending side is gone and the channel is drained.
    Closed,
}

/// What one pull hands out.
#[derive(Clone, Copy, Debug, PartialEq, Eq)]
pub enum Pulled {
    /// A sample that came through the channel.
    Sample(i16),
    /// A zero sample made up because the channel had nothing to give.
    Silence,
    /// The end of the sequence.
    Ended,
}

/// What absorbing a delivery settles.
#[derive(Clone, Copy, Debug, PartialEq, Eq)]
pub enum Step {
    /// The pull is settled with this result.
    Yield(Pulled),
    /// The pull must ask the channel again: with a bounded wait if `wait`
    /// holds, without blocking otherwise.
    Retry { wait: bool },
}

/// The state of a source: the samples received and not yet handed out, oldest
/// first, and whether the sequence has ended.
pub struct SourceState {
    pub pending: Seq<i16>,
    pub finished: bool,
}

/// The state of a source that has received nothing yet.
pub open spec fn fresh() -> SourceState {
    SourceState { pending: Seq::empty(), finished: false }
}

/// The samples that a delivery adds to the pending ones.
pub open spec fn brought(got: Delivery) -> Seq<i16> {
    match got {
        Delivery::Chunk(chunk) => chunk@,
        _ => Seq::empty(),
    }
}

/// What absorbing `got` settles, and the state it leaves. A source that has
/// ended stays ended. Otherwise the delivery's samples join the pending ones,
/// and the oldest pending sample is handed out if there is one. With no sample
/// to hand out, a chunk (an empty one) calls for another attempt without
/// blocking; nothing calls for a bounded wait, and for silence if this attempt
/// was that wait; a closed channel ends the sequence.
pub open spec fn absorbed(state: SourceState, waited: bool, got: Delivery) -> (Step, SourceState) {
    let pending = state.pending + brought(got);
    if state.finished {
        (Step::Yield(Pulled::Ended), state)
    } else if pending.len() > 0 {
        (
            Step::Yield(Pulled::Sample(pending[0])),
            SourceState { pending: pending.skip(1), finished: false },
        )
    } else {
        match got {
            Delivery::Chunk(_) => (Step::Retry { wait: false }, SourceState { pending, finished: false }),
            Delivery::Nothing => if waited {
                (Step::Yield(Pulled::Silence), SourceState { pending, finished: false })
            } else {
                (Step::Retry { wait: true }, SourceState { pending, finished: false })
            },
            Delivery::Closed => (Step::Yield(Pulled::Ended), SourceState { pending, finished: true }),
        }
    }
}

/// The sample that a pull's result stands for: silence is a zero sample, and
/// the end of the sequence is no sample.
pub open spec fn sample_of(pulled: Pulled) -> Option<i16> {
    match pulled {
        Pulled::Sample(sample) => Some(sample),
        Pulled::Silence => Some(0i16),
        Pulled::Ended => None,
    }
}

/// A source with `pending` samples that has not ended.
pub open spec fn holding(pending: Seq<i16>) -> SourceState {
    SourceState { pending, finished: false }
}

/// What one pull hands out and the state it leaves, when the channel's
/// answers to the pull's attempts are exactly `feed`. `wait` and `attempts`
/// describe the pull so far: whether its next attempt is the bounded wait, and
/// how many attempts it has made. A source that has ended, one with a sample
/// pending and a pull that has used up its attempts settle without asking the
/// channel; any other pull absorbs answer after answer until one settles it.
/// There is no outcome where `feed` is not what one pull consumes.
pub open spec fn pull_on(state: SourceState, feed: Seq<Delivery>, wait: bool, attempts: nat) -> Option<
    (Pulled, SourceState),
>
    decreases feed.len(),
{
    if state.finished {
        if feed.len() == 0 {
            Some((Pulled::Ended, state))
        } else {
            None
        }
    } else if state.pending.len() > 0 {
        if feed.len() == 0 {
            Some((Pulled::Sample(state.pending[0]), holding(state.pending.skip(1))))
        } else {
            None
        }
    } else if attempts >= RETRY_LIMIT {
        if feed.len() == 0 {
            Some((Pulled::Silence, state))
        } else {
            None
        }
    } else if feed.len() == 0 {
        None
    } else {
        let (step, next) = absorbed(state, wait, feed[0]);
        match step {
            Step::Yield(pulled) => if feed.len() == 1 {
                Some((pulled, next))
            } else {
                None
            },
            Step::Retry { wait: again } => pull_on(next, feed.skip(1), again, attempts + 1),
        }
    }
}

/// What a consumer gets from a source in `state` while the channel's answers
/// to its attempts are `feed`, in that order. `wait` and `attempts` describe
/// the pull under way: whether its next attempt is the bounded wait, and how
/// many attempts it has made. The sequence stops where the source has ended,
/// and where a pull would need an answer that `feed` no longer holds.
pub open spec fn play(state: SourceState, feed: Seq<Delivery>, wait: bool, attempts: nat) -> Seq<
    Pulled,
>
    decreases feed.len(), state.pending.len(), attempts,
{
    if state.finished {
        Seq::empty()
    } else if state.pending.len() > 0 {
        seq![Pulled::Sample(state.pending[0])] + play(
            SourceState { pending: state.pending.skip(1), finished: false },
            feed,
            false,
            0,
        )
    } else if attempts >= RETRY_LIMIT {
        seq![Pulled::Silence] + play(state, feed, false, 0)
    } else if feed.len() == 0 {
        Seq::empty()
    } else {
        let (step, next) = absorbed(state, wait, feed[0]);
        match step {
            Step::Yield(pulled) => seq![pulled] + play(next, feed.skip(1), false, 0),
            Step::Retry { wait: again } => play(next, feed.skip(1), again, attempts + 1),
        }
    }
}

/// What a consumer gets from a source in `state`, from its next pull on, while
/// the channel's answers are `feed`.
pub open spec fn played(state: SourceState, feed: Seq<Delivery>) -> Seq<Pulled> {
    play(state, feed, false, 0)
}

/// The feed of a channel that answers every attempt with the next of `chunks`.
pub open spec fn chunk_feed(chunks: Seq<Vec<i16>>) -> Seq<Delivery> {
    Seq::new(chunks.len(), |i: int| Delivery::Chunk(chunks[i]))
}

/// The samples of `chunks`, chunk after chunk and in each chunk's own order.
pub open spec fn flattened(chunks: Seq<Vec<i16>>) -> Seq<i16>
    decreases chunks.len(),
{
    if chunks.len() == 0 {
        Seq::empty()
    } else {
        chunks[0]@ + flattened(chunks.skip(1))
    }
}

/// `samples` as a consumer gets them when each comes through the channel.
pub open spec fn as_samples(samples: Seq<i16>) -> Seq<Pulled> {
    Seq::new(samples.len(), |i: int| Pulled::Sample(samples[i]))
}

/// Whether a pull that has made `attempts` attempts gets through `chunks`
/// within its bound: no run of empty chunks brings a pull to `RETRY_LIMIT`
/// attempts.
pub open spec fn steady(chunks: Seq<Vec<i16>>, attempts: nat) -> bool
    decreases chunks.len(),
{
    attempts < RETRY_LIMIT && (chunks.len() > 0 ==> if chunks[0]@.len() == 0 {
        steady(chunks.skip(1), attempts + 1)
    } else {
        steady(chunks.skip(1), 0)
    })
}

/// Whether no answer in `feed` reports the channel closed.
pub open spec fn connected(feed: Seq<Delivery>) -> bool {
    forall|i: int| 0 <= i < feed.len() ==> !(#[trigger] feed[i] is Closed)
}

/// The samples among what was handed out that came through the channel, in
/// the order in which they were handed out.
pub open spec fn samples_in(pulled: Seq<Pulled>) -> Seq<i16>
    decreases pulled.len(),
{
    if pulled.len() == 0 {
        Seq::empty()
    } else {
        match pulled[0] {
            Pulled::Sample(sample) => seq![sample] + samples_in(pulled.skip(1)),
            _ => samples_in(pulled.skip(1)),
        }
    }
}

/// The samples that the answers in `feed` bring, in the order of arrival.
pub open spec fn delivered(feed: Seq<Delivery>) -> Seq<i16>
    decreases feed.len(),
{
    if feed.len() == 0 {
        Seq::empty()
    } else {
        brought(feed[0]) + delivered(feed.skip(1))
    }
}

proof fn lemma_samples_in_after(first: Pulled, rest: Seq<Pulled>)
    ensures
        samples_in(seq![first] + rest) == match first {
            Pulled::Sample(sample) => seq![sample] + samples_in(rest),
            _ => samples_in(rest),
        },
{
    assert((seq![first] + rest).skip(1) =~= rest);
}

/// What is played is what the pulls hand out, one after another: when a pull
/// of a source that has not ended consumes `first` and settles, the consumer
/// gets that pull's result, and then whatever the source left by that pull
/// plays over the answers that follow.
pub proof fn lemma_play_follows_the_pulls(
    state: SourceState,
    first: Seq<Delivery>,
    rest: Seq<Delivery>,
    wait: bool,
    attempts: nat,
)
    requires
        !state.finished,
        pull_on(state, first, wait, attempts) is Some,
    ensures
        ({
            let settled = pull_on(state, first, wait, attempts)->0;
            play(state, first + rest, wait, attempts) == seq![settled.0] + play(
                settled.1,
                rest,
                false,
                0,
            )
        }),
    decreases first.len(),
{
    if state.pending.len() > 0 || attempts >= RETRY_LIMIT {
        assert(first + rest =~= rest);
    } else {
        assert((first + rest).skip(1) =~= first.skip(1) + rest);
        let (step, next) = absorbed(state, wait, first[0]);
        match step {
            Step::Yield(pulled) => {
                assert(first.skip(1) + rest =~= rest);
            },
            Step::Retry { wait: again } => {
                lemma_play_follows_the_pulls(next, first.skip(1), rest, again, attempts + 1);
            },
        }
    }
}

proof fn lemma_rest_stays_connected(feed: Seq<Delivery>)
    requires
        connected(feed),
        feed.len() > 0,
    ensures
        !(feed[0] is Closed),
        connected(feed.skip(1)),
{
    assert forall|i: int| 0 <= i < feed.skip(1).len() implies !(#[trigger] feed.skip(1)[i]
        is Closed) by {
        assert(feed.skip(1)[i] == feed[i + 1]);
    }
}

proof fn lemma_play_chunks(pending: Seq<i16>, chunks: Seq<Vec<i16>>, attempts: nat)
    requires
        steady(chunks, if pending.len() > 0 {
            0
        } else {
            attempts
        }),
    ensures
        play(holding(pending), chunk_feed(chunks), false, attempts) == as_samples(
            pending + flattened(chunks),
        ),
    decreases chunks.len(), pending.len(),
{
    let feed = chunk_feed(chunks);
    if pending.len() > 0 {
        lemma_play_chunks(pending.skip(1), chunks, 0);
    } else if chunks.len() > 0 {
        let chunk = chunks[0]@;
        let rest = chunks.skip(1);
        assert(feed.skip(1) =~= chunk_feed(rest));
        if chunk.len() > 0 {
            lemma_play_chunks(chunk.skip(1), rest, 0);
        } else {
            lemma_play_chunks(Seq::empty(), rest, attempts + 1);
            assert(absorbed(holding(pending), false, feed[0]).1.pending =~= Seq::<i16>::empty());
        }
    }
}

/// Every sample pushed through the channel comes out, in the order of arrival
/// and in each chunk's own order, and no silence comes before or between them:
/// a fresh source whose channel delivers `chunks` hands out exactly their
/// samples. This holds unless a run of empty chunks exhausts a pull's attempts.
pub proof fn lemma_chunks_play_in_order(chunks: Seq<Vec<i16>>)
    requires
        steady(chunks, 0),
    ensures
        played(fresh(), chunk_feed(chunks)) == as_samples(flattened(chunks)),
{
    lemma_play_chunks(Seq::empty(), chunks, 0);
}

/// No sample is lost, repeated or moved: while the channel stays connected,
/// the samples handed out are the pending ones followed by those that the
/// channel delivered, in the order of arrival, however much silence comes
/// between them.
pub proof fn lemma_samples_keep_their_order(
    state: SourceState,
    feed: Seq<Delivery>,
    wait: bool,
    attempts: nat,
)
    requires
        !state.finished,
        connected(feed),
    ensures
        samples_in(play(state, feed, wait, attempts)) == state.pending + delivered(feed),
    decreases feed.len(), state.pending.len(), attempts,
{
    if state.pending.len() > 0 {
        let popped = holding(state.pending.skip(1));
        lemma_samples_keep_their_order(popped, feed, false, 0);
        lemma_samples_in_after(Pulled::Sample(state.pending[0]), play(popped, feed, false, 0));
    } else if attempts >= RETRY_LIMIT {
        lemma_samples_keep_their_order(state, feed, false, 0);
        lemma_samples_in_after(Pulled::Silence, play(state, feed, false, 0));
    } else if feed.len() > 0 {
        let (step, next) = absorbed(state, wait, feed[0]);
        let rest = feed.skip(1);
        lemma_rest_stays_connected(feed);
        match step {
            Step::Yield(pulled) => {
                lemma_samples_keep_their_order(next, rest, false, 0);
                lemma_samples_in_after(pulled, play(next, rest, false, 0));
            },
            Step::Retry { wait: again } => {
                lemma_samples_keep_their_order(next, rest, again, attempts + 1);
            },
        }
    }
}

/// A timeout yields a zero sample exactly once and does not end the sequence:
/// when a source with nothing pending finds the channel empty and then waits in
/// vain, it hands out one silence, and what follows is what a source with
/// nothing pending makes of the rest of the feed.
pub proof fn lemma_timeout_yields_one_silence(rest: Seq<Delivery>)
    ensures
        played(fresh(), seq![Delivery::Nothing, Delivery::Nothing] + rest) == seq![
            Pulled::Silence,
        ] + played(fresh(), rest),
{
    let feed = seq![Delivery::Nothing, Delivery::Nothing] + rest;
    assert(feed.skip(1).skip(1) =~= rest);
    assert(play(fresh(), feed, false, 0) == play(fresh(), feed.skip(1), true, 1));
}

/// While the channel stays connected the sequence does not end: whatever the
/// channel delivers short of closing, nothing that is handed out is the end.
pub proof fn lemma_connected_never_ends(
    state: SourceState,
    feed: Seq<Delivery>,
    wait: bool,
    attempts: nat,
)
    requires
        !state.finished,
        connected(feed),
    ensures
        forall|k: int|
            0 <= k < play(state, feed, wait, attempts).len() ==> !(#[trigger] play(
                state,
                feed,
                wait,
                attempts,
            )[k] is Ended),
    decreases feed.len(), state.pending.len(), attempts,
{
    if state.pending.len() > 0 {
        lemma_connected_never_ends(holding(state.pending.skip(1)), feed, false, 0);
    } else if attempts >= RETRY_LIMIT {
        lemma_connected_never_ends(state, feed, false, 0);
    } else if feed.len() > 0 {
        let (step, next) = absorbed(state, wait, feed[0]);
        lemma_rest_stays_connected(feed);
        match step {
            Step::Yield(pulled) => {
                lemma_connected_never_ends(next, feed.skip(1), false, 0);
            },
            Step::Retry { wait: again } => {
                lemma_connected_never_ends(next, feed.skip(1), again, attempts + 1);
            },
        }
    }
}

/// A closed channel ends the sequence: the samples still pending come out,
/// then the end, and nothing after it, whatever the feed goes on to hold.
pub proof fn lemma_closed_channel_ends(pending: Seq<i16>, rest: Seq<Delivery>)
    ensures
        played(holding(pending), seq![Delivery::Closed] + rest) == as_samples(pending) + seq![
            Pulled::Ended,
        ],
    decreases pending.len(),
{
    let feed = seq![Delivery::Closed] + rest;
    if pending.len() > 0 {
        lemma_closed_channel_ends(pending.skip(1), rest);
    } else {
        let ended = absorbed(holding(pending), false, feed[0]).1;
        assert(play(ended, feed.skip(1), false, 0) =~= Seq::<Pulled>::empty());
    }
}

/// Nothing follows the end: the end of the sequence, if it is handed out at
/// all, is the last thing handed out.
pub proof fn lemma_nothing_follows_the_end(
    state: SourceState,
    feed: Seq<Delivery>,
    wait: bool,
    attempts: nat,
)
    ensures
        forall|k: int|
            0 <= k < play(state, feed, wait, attempts).len() && (#[trigger] play(
                state,
                feed,
                wait,
                attempts,
            )[k]) is Ended ==> k == play(state, feed, wait, attempts).len() - 1,
    decreases feed.len(), state.pending.len(), attempts,
{
    if state.finished {
        assert(play(state, feed, wait, attempts).len() == 0);
    } else if state.pending.len() > 0 {
        lemma_nothing_follows_the_end(holding(state.pending.skip(1)), feed, false, 0);
    } else if attempts >= RETRY_LIMIT {
        lemma_nothing_follows_the_end(state, feed, false, 0);
    } else if feed.len() > 0 {
        let (step, next) = absorbed(state, wait, feed[0]);
        match step {
            Step::Yield(pulled) => {
                lemma_nothing_follows_the_end(next, feed.skip(1), false, 0);
            },
            Step::Retry { wait: again } => {
                lemma_nothing_follows_the_end(next, feed.skip(1), again, attempts + 1);
            },
        }
    }
}

impl Pulled {
    /// The sample that this result stands for.
    pub fn sample(self) -> (sample: Option<i16>)
        ensures
            sample == sample_of(self),
    {
        match self {
            Pulled::Sample(sample) => Some(sample),
            Pulled::Silence => Some(0),
            Pulled::Ended => None,
        }
    }
}

/// Calls `Receiver::try_recv` and reports the chunk, or which of the two
/// errors came back. Nothing is claimed of the outcome: it depends on what the
/// sending thread has done so far.
#[verifier::external_body]
fn try_receive(rx: &Receiver<Vec<i16>>) -> Delivery {
    match rx.try_recv() {
        Ok(chunk) => Delivery::Chunk(chunk),
        Err(TryRecvError::Empty) => Delivery::Nothing,
        Err(TryRecvError::Disconnected) => Delivery::Closed,
    }
}

/// Calls `Receiver::recv_timeout` with a wait of `millis` milliseconds and
/// reports the chunk, or which of the two errors came back. Nothing is claimed
/// of the outcome: it depends on what the sending thread does meanwhile. The
/// wait is kept to a minute at most, far from where adding it to the current
/// instant could overflow.
#[verifier::external_body]
fn receive_within(rx: &Receiver<Vec<i16>>, millis: u64) -> Delivery
    requires
        millis <= 60_000,
{
    match rx.recv_timeout(Duration::from_millis(millis)) {
        Ok(chunk) => Delivery::Chunk(chunk),
        Err(RecvTimeoutError::Timeout) => Delivery::Nothing,
        Err(RecvTimeoutError::Disconnected) => Delivery::Closed,
    }
}

/// What a source holds: the samples still to hand out while the sequence goes
/// on, and nothing once it has ended. A source that has ended with samples
/// left cannot be written down.
enum Queue {
    Open(VecDeque<i16>),
    Ended,
}

/// A live stream of samples pulled one at a time.
pub struct FfmpegSource {
    rx: Receiver<Vec<i16>>,
    queue: Queue,
    channels: u16,
    sample_rate: u32,
}

impl View for FfmpegSource {
    type V = SourceState;

    closed spec fn view(&self) -> SourceState {
        match self.queue {
            Queue::Open(buffer) => SourceState { pending: buffer@, finished: false },
            Queue::Ended => SourceState { pending: Seq::empty(), finished: true },
        }
    }
}

/// A source that has ended holds no sample: the sequence ends only once every
/// sample received has been handed out.
pub proof fn lemma_ended_holds_nothing(source: FfmpegSource)
    ensures
        source@.finished ==> source@.pending.len() == 0,
{
}

/// Appends a chunk's samples to a queue, in the chunk's order.
fn extend(buffer: &mut VecDeque<i16>, chunk: Vec<i16>)
    ensures
        final(buffer)@ == old(buffer)@ + chunk@,
{
    let mut i: usize = 0;
    while i < chunk.len()
        invariant
            i <= chunk@.len(),
            buffer@ == old(buffer)@ + chunk@.take(i as int),
        decreases chunk@.len() - i,
    {
        buffer.push_back(chunk[i]);
        i += 1;
    }
    assert(chunk@.take(chunk@.len() as int) =~= chunk@);
}

impl FfmpegSource {
    /// The number of interleaved channels the source was made for.
    pub closed spec fn layout_channels(&self) -> u16 {
        self.channels
    }

    /// The sample rate the source was made for.
    pub closed spec fn layout_rate(&self) -> u32 {
        self.sample_rate
    }

    /// A source over the receiving end of a channel, with nothing pending.
    pub fn new(rx: Receiver<Vec<i16>>, channels: u16, sample_rate: u32) -> (source: FfmpegSource)
        ensures
            source@ == fresh(),
            source.layout_channels() == channels,
            source.layout_rate() == sample_rate,
    {
        FfmpegSource {
            rx,
            queue: Queue::Open(VecDeque::with_capacity(INITIAL_CAPACITY)),
            channels,
            sample_rate,
        }
    }

    /// Whether the sequence has ended. A source that has ended holds no
    /// sample.
    pub fn has_ended(&self) -> (ended: bool)
        ensures
            ended == self@.finished,
            ended ==> self@.pending.len() == 0,
    {
        match self.queue {
            Queue::Open(_) => false,
            Queue::Ended => true,
        }
    }

    /// Takes the oldest pending sample, if there is one.
    fn pop(&mut self) -> (sample: Option<i16>)
        ensures
            match sample {
                Some(oldest) => old(self)@.pending.len() > 0 && oldest == old(self)@.pending[0]
                    && final(self)@ == holding(old(self)@.pending.skip(1)),
                None => old(self)@.pending.len() == 0 && final(self)@ == old(self)@,
            },
            final(self).layout_channels() == old(self).layout_channels(),
            final(self).layout_rate() == old(self).layout_rate(),
    {
        match &mut self.queue {
            Queue::Open(buffer) => buffer.pop_front(),
            Queue::Ended => None,
        }
    }

    /// Appends a chunk's samples to the pending ones, in the chunk's order. A
    /// source that has ended takes nothing in.
    fn refill(&mut self, chunk: Vec<i16>)
        ensures
            final(self)@ == (if old(self)@.finished {
                old(self)@
            } else {
                holding(old(self)@.pending + chunk@)
            }),
            final(self).layout_channels() == old(self).layout_channels(),
            final(self).layout_rate() == old(self).layout_rate(),
    {
        match &mut self.queue {
            Queue::Open(buffer) => extend(buffer, chunk),
            Queue::Ended => {},
        }
    }

    /// Takes in what an attempt to receive brought (`waited` tells whether the
    /// attempt was the bounded wait) and says what that settles.
    pub fn absorb(&mut self, waited: bool, got: Delivery) -> (step: Step)
        ensures
            (step, final(self)@) == absorbed(old(self)@, waited, got),
            final(self).layout_channels() == old(self).layout_channels(),
            final(self).layout_rate() == old(self).layout_rate(),
    {
        if self.has_ended() {
            return Step::Yield(Pulled::Ended);
        }
        // What this delivery settles if no sample is left to hand out.
        let otherwise = match got {
            Delivery::Chunk(chunk) => {
                self.refill(chunk);
                Step::Retry { wait: false }
            },
            Delivery::Nothing => if waited {
                Step::Yield(Pulled::Silence)
            } else {
                Step::Retry { wait: true }
            },
            Delivery::Closed => Step::Yield(Pulled::Ended),
        };
        match self.pop() {
            Some(sample) => Step::Yield(Pulled::Sample(sample)),
            None => {
                if let Step::Yield(Pulled::Ended) = otherwise {
                    self.queue = Queue::Ended;
                }
                otherwise
            },
        }
    }

    /// Pulls the next element of the sequence. Pending samples go first, oldest
    /// first, and do not touch the channel. With none pending the channel is
    /// asked until an attempt settles the pull. What the channel answers is
    /// the channel's to decide, so the contract speaks of the answers as some
    /// feed: the result and the state left are what `pull_on` gives for the
    /// answers that came. A source that has ended stays ended.
    pub fn pull(&mut self) -> (pulled: Pulled)
        ensures
            exists|feed: Seq<Delivery>|
                pull_on(old(self)@, feed, false, 0) == Some((pulled, final(self)@)),
            old(self)@.finished ==> pulled is Ended && final(self)@ == old(self)@,
            old(self)@.pending.len() > 0 ==> pulled == Pulled::Sample(old(self)@.pending[0])
                && final(self)@ == holding(old(self)@.pending.skip(1)),
            pulled is Ended <==> final(self)@.finished,
            !(pulled is Sample) ==> final(self)@.pending.len() == 0,
            final(self).layout_channels() == old(self).layout_channels(),
            final(self).layout_rate() == old(self).layout_rate(),
    {
        if self.has_ended() {
            assert(pull_on(old(self)@, Seq::empty(), false, 0) == Some((Pulled::Ended, self@)));
            return Pulled::Ended;
        }
        if let Some(sample) = self.pop() {
            assert(pull_on(old(self)@, Seq::empty(), false, 0) == Some(
                (Pulled::Sample(sample), self@),
            ));
            return Pulled::Sample(sample);
        }
        let mut attempts: u64 = 0;
        let mut wait = false;
        // The answers that this pull has absorbed so far, all of them in vain.
        let ghost mut seen = Seq::<Delivery>::empty();
        assert forall|rest: Seq<Delivery>|
            #[trigger] pull_on(old(self)@, seen + rest, false, 0) == pull_on(
                self@,
                rest,
                wait,
                attempts as nat,
            ) by {
            assert(seen + rest =~= rest);
        }
        while attempts < RETRY_LIMIT
            invariant
                old(self)@.pending.len() == 0,
                !old(self)@.finished,
                self@.pending.len() == 0,
                !self@.finished,
                self.layout_channels() == old(self).layout_channels(),
                self.layout_rate() == old(self).layout_rate(),
                forall|rest: Seq<Delivery>|
                    #[trigger] pull_on(old(self)@, seen + rest, false, 0) == pull_on(
                        self@,
                        rest,
                        wait,
                        attempts as nat,
                    ),
            decreases RETRY_LIMIT - attempts,
        {
            let got = if wait {
                receive_within(&self.rx, WAIT_MILLIS)
            } else {
                try_receive(&self.rx)
            };
            let ghost before = self@;
            let ghost answer = got;
            match self.absorb(wait, got) {
                Step::Yield(pulled) => {
                    proof {
                        let last = seq![answer];
                        assert(pull_on(before, last, wait, attempts as nat) == Some(
                            (pulled, self@),
                        ));
                        assert(pull_on(old(self)@, seen + last, false, 0) == Some(
                            (pulled, self@),
                        ));
                    }
                    return pulled;
                },
                Step::Retry { wait: next } => {
                    proof {
                        assert forall|rest: Seq<Delivery>|
                            #[trigger] pull_on(
                                old(self)@,
                                seen.push(answer) + rest,
                                false,
                                0,
                            ) == pull_on(self@, rest, next, (attempts + 1) as nat) by {
                            let longer = seq![answer] + rest;
                            assert(seen.push(answer) + rest =~= seen + longer);
                            assert(longer.skip(1) =~= rest);
                            assert(pull_on(before, longer, wait, attempts as nat) == pull_on(
                                self@,
                                rest,
                                next,
                                (attempts + 1) as nat,
                            ));
                        }
                        seen = seen.push(answer);
                    }
                    wait = next;
                    attempts += 1;
                },
            }
        }
        proof {
            let rest = Seq::<Delivery>::empty();
            assert(seen + rest =~= seen);
            assert(pull_on(old(self)@, seen + rest, false, 0) == Some((Pulled::Silence, self@)));
        }
        Pulled::Silence
    }

    /// The next sample of the sequence, or nothing once it has ended. Silence
    /// comes out as a zero sample: the result is what `pull` hands out, read
    /// as a sample.
    pub fn next(&mut self) -> (sample: Option<i16>)
        ensures
            exists|feed: Seq<Delivery>, pulled: Pulled|
                pull_on(old(self)@, feed, false, 0) == Some((pulled, final(self)@)) && sample
                    == sample_of(pulled),
            old(self)@.finished ==> sample is None && final(self)@ == old(self)@,
            old(self)@.pending.len() > 0 ==> sample == Some(old(self)@.pending[0])
                && final(self)@ == holding(old(self)@.pending.skip(1)),
            sample is None <==> final(self)@.finished,
            final(self)@.finished ==> final(self)@.pending.len() == 0,
            final(self).layout_channels() == old(self).layout_channels(),
            final(self).layout_rate() == old(self).layout_rate(),
    {
        self.pull().sample()
    }

    /// The number of samples left in the current frame: unknown, the stream is
    /// live.
    pub fn current_frame_len(&self) -> (len: Option<usize>)
        ensures
            len is None,
    {
        None
    }

    /// The number of interleaved channels.
    pub fn channels(&self) -> (channels: u16)
        ensures
            channels == self.layout_channels(),
    {
        self.channels
    }

    /// The number of samples per second and channel.
    pub fn sample_rate(&self) -> (rate: u32)
        ensures
            rate == self.layout_rate(),
    {
        self.sample_rate
    }

    /// The total duration of the stream: unknown, the stream is live.
    pub fn total_duration(&self) -> (duration: Option<Duration>)
        ensures
            duration is None,
    {
        None
    }
}

} // verus!
