//! The publish bridge: standard input, cut into chunks, becomes messages.
//!
//! The caller owns the input stream and the session. It asks the bridge what
//! to do, performs it (a read of at most `chunk_size` bytes, or one publish),
//! and hands the outcome back. The bridge keeps the policy: a non-empty read
//! becomes exactly one message, messages go out one at a time in input order,
//! an empty read ends the run cleanly, and any failure ends it for good.
use vstd::prelude::*;

use crate::qos::QosParameters;
use crate::topic::TopicExpression;

verus! {

/// Chunk size used when none is given.
pub const DEFAULT_CHUNK_SIZE: usize = 32768;

/// Everything the publish bridge needs for one run.
#[derive(Clone, Debug)]
pub struct PublishParams {
    pub topic: TopicExpression,
    pub qos: QosParameters,
    pub chunk_size: usize,
}

impl PublishParams {
    pub open spec fn wf(&self) -> bool {
        self.topic.wf() && self.qos.wf() && self.chunk_size > 0
    }
}

/// Where the publish bridge stands.
#[derive(Clone, Copy, Debug, PartialEq, Eq, Structural)]
pub enum PublishPhase {
    /// Waiting for the next read of the input.
    Reading,
    /// A chunk was handed out and its publish has not been confirmed.
    Publishing,
    /// The input ended; every chunk was published.
    Finished,
    /// A read or a publish failed.
    Failed,
}

/// The result of one read of the input.
#[derive(Clone, Debug)]
pub enum ReadOutcome {
    /// The bytes actually read; empty means the input has ended.
    Data(Vec<u8>),
    EndOfInput,
    Failed(String),
}

/// Why a publish run stopped with an error.
#[derive(Clone, Debug, PartialEq, Eq)]
pub enum PublishFailure {
    Read(String),
    Publish(String),
}

/// What the caller has to do next.
#[derive(Clone, Debug)]
pub enum PublishAction {
    /// Read up to the bridge's chunk size from the input.
    ReadNext,
    /// Publish exactly these bytes, then report the outcome.
    Publish(Vec<u8>),
    /// Stop: the run ended cleanly.
    Finish,
    /// Stop: the run failed.
    Abort(PublishFailure),
}

/// The decision state of one publish run.
pub struct PublishBridge {
    chunk_size: usize,
    phase: PublishPhase,
    pending: Ghost<Seq<u8>>,
    published: Ghost<Seq<Seq<u8>>>,
}

impl PublishBridge {
    pub closed spec fn chunk_size_spec(&self) -> nat {
        self.chunk_size as nat
    }

    pub closed spec fn phase_spec(&self) -> PublishPhase {
        self.phase
    }

    /// The chunk handed out for publishing and not yet confirmed.
    pub closed spec fn pending(&self) -> Seq<u8> {
        self.pending@
    }

    /// The chunks whose publish was confirmed, in order.
    pub closed spec fn published(&self) -> Seq<Seq<u8>> {
        self.published@
    }

    pub closed spec fn wf(&self) -> bool {
        &&& self.chunk_size > 0
        &&& forall|i: int|
            0 <= i < self.published@.len() ==> #[trigger] self.published@[i].len() > 0
                && self.published@[i].len() <= self.chunk_size
        &&& self.phase == PublishPhase::Publishing ==> 0 < self.pending@.len() <= self.chunk_size
    }

    /// A bridge that has published nothing and waits for the first read.
    pub fn new(chunk_size: usize) -> (r: Self)
        requires
            chunk_size > 0,
        ensures
            r.wf(),
            r.chunk_size_spec() == chunk_size,
            r.phase_spec() == PublishPhase::Reading,
            r.published() == Seq::<Seq<u8>>::empty(),
    {
        PublishBridge {
            chunk_size,
            phase: PublishPhase::Reading,
            pending: Ghost(Seq::empty()),
            published: Ghost(Seq::empty()),
        }
    }

    /// The largest number of bytes one read may deliver.
    pub fn chunk_size(&self) -> (r: usize)
        ensures
            r == self.chunk_size_spec(),
    {
        self.chunk_size
    }

    pub fn phase(&self) -> (r: PublishPhase)
        ensures
            r == self.phase_spec(),
    {
        self.phase
    }

    /// Takes the outcome of a read of at most `chunk_size` bytes.
    ///
    /// Non-empty data is handed back to be published as one message; an
    /// empty read or the end of input finishes the run; a read error aborts it.
    pub fn on_read(&mut self, outcome: ReadOutcome) -> (r: PublishAction)
        requires
            old(self).wf(),
            old(self).phase_spec() == PublishPhase::Reading,
            outcome matches ReadOutcome::Data(d) ==> d@.len() <= old(self).chunk_size_spec(),
        ensures
            final(self).wf(),
            final(self).chunk_size_spec() == old(self).chunk_size_spec(),
            final(self).published() == old(self).published(),
            match outcome {
                ReadOutcome::Data(d) => if d@.len() > 0 {
                    &&& r == PublishAction::Publish(d)
                    &&& final(self).phase_spec() == PublishPhase::Publishing
                    &&& final(self).pending() == d@
                } else {
                    &&& r is Finish
                    &&& final(self).phase_spec() == PublishPhase::Finished
                },
                ReadOutcome::EndOfInput => {
                    &&& r is Finish
                    &&& final(self).phase_spec() == PublishPhase::Finished
                },
                ReadOutcome::Failed(e) => {
                    &&& r == PublishAction::Abort(PublishFailure::Read(e))
                    &&& final(self).phase_spec() == PublishPhase::Failed
                },
            },
    {
        match outcome {
            ReadOutcome::Data(d) => {
                if d.len() > 0 {
                    self.phase = PublishPhase::Publishing;
                    self.pending = Ghost(d@);
                    PublishAction::Publish(d)
                } else {
                    self.phase = PublishPhase::Finished;
                    PublishAction::Finish
                }
            },
            ReadOutcome::EndOfInput => {
                self.phase = PublishPhase::Finished;
                PublishAction::Finish
            },
            ReadOutcome::Failed(e) => {
                self.phase = PublishPhase::Failed;
                PublishAction::Abort(PublishFailure::Read(e))
            },
        }
    }

    /// Takes the outcome of publishing the pending chunk.
    ///
    /// A confirmed publish records the chunk and asks for the next read; a
    /// failed one aborts the run without retrying.
    pub fn on_publish_result(&mut self, result: Result<(), String>) -> (r: PublishAction)
        requires
            old(self).wf(),
            old(self).phase_spec() == PublishPhase::Publishing,
        ensures
            final(self).wf(),
            final(self).chunk_size_spec() == old(self).chunk_size_spec(),
            match result {
                Ok(_) => {
                    &&& r is ReadNext
                    &&& final(self).phase_spec() == PublishPhase::Reading
                    &&& final(self).published() == old(self).published().push(old(self).pending())
                },
                Err(e) => {
                    &&& r == PublishAction::Abort(PublishFailure::Publish(e))
                    &&& final(self).phase_spec() == PublishPhase::Failed
                    &&& final(self).published() == old(self).published()
                },
            },
    {
        match result {
            Ok(_) => {
                self.published = Ghost(self.published@.push(self.pending@));
                self.phase = PublishPhase::Reading;
                assert(forall|i: int|
                    0 <= i < self.published@.len() ==> #[trigger] self.published@[i].len() > 0
                        && self.published@[i].len() <= self.chunk_size);
                PublishAction::ReadNext
            },
            Err(e) => {
                self.phase = PublishPhase::Failed;
                PublishAction::Abort(PublishFailure::Publish(e))
            },
        }
    }
}

/// The messages a run publishes when its reads deliver `reads` in order and
/// every publish is confirmed: each read up to the first empty one.
pub open spec fn published_for_reads(reads: Seq<Seq<u8>>) -> Seq<Seq<u8>>
    decreases reads.len(),
{
    if reads.len() == 0 || reads[0].len() == 0 {
        Seq::empty()
    } else {
        seq![reads[0]].add(published_for_reads(reads.drop_first()))
    }
}

/// The contents of a list of byte buffers.
pub open spec fn byte_views(v: Seq<Vec<u8>>) -> Seq<Seq<u8>> {
    v.map_values(|b: Vec<u8>| b@)
}

/// Runs a fresh bridge with chunk size `chunk_size` over `reads`,
/// confirming every publish: the messages it hands out, in order, are
/// exactly `published_for_reads`.
pub fn replay_reads(chunk_size: usize, reads: Vec<Vec<u8>>) -> (r: Vec<Vec<u8>>)
    requires
        chunk_size > 0,
        forall|i: int| 0 <= i < reads@.len() ==> #[trigger] reads@[i]@.len() <= chunk_size,
    ensures
        byte_views(r@) == published_for_reads(byte_views(reads@)),
{
    let ghost all = byte_views(reads@);
    let mut rest = reads;
    let mut bridge = PublishBridge::new(chunk_size);
    let mut out: Vec<Vec<u8>> = Vec::new();
    assert(byte_views(out@) + published_for_reads(all) =~= published_for_reads(all));
    while rest.len() > 0
        invariant
            bridge.wf(),
            bridge.phase_spec() == PublishPhase::Reading,
            bridge.chunk_size_spec() == chunk_size,
            bridge.published() == byte_views(out@),
            all == byte_views(reads@),
            forall|i: int| 0 <= i < rest@.len() ==> #[trigger] rest@[i]@.len() <= chunk_size,
            published_for_reads(all) == byte_views(out@) + published_for_reads(byte_views(rest@)),
        decreases rest@.len(),
    {
        let ghost before = rest@;
        let ghost out_before = byte_views(out@);
        let read = rest.remove(0);
        assert(rest@ =~= before.drop_first());
        assert(byte_views(rest@) =~= byte_views(before).drop_first());
        assert(byte_views(before)[0] == read@);
        assert forall|i: int| 0 <= i < rest@.len() implies #[trigger] rest@[i]@.len()
            <= chunk_size by {
            assert(rest@[i] == before[i + 1]);
        }
        match bridge.on_read(ReadOutcome::Data(read)) {
            PublishAction::Publish(bytes) => {
                let ghost bv = bytes@;
                out.push(bytes);
                let _ = bridge.on_publish_result(Ok(()));
                assert(byte_views(out@) =~= out_before.push(bv));
                assert(byte_views(out@) + published_for_reads(byte_views(rest@)) =~= out_before + (
                seq![bv] + published_for_reads(byte_views(rest@))));
            },
            _ => {
                assert(published_for_reads(byte_views(before)) == Seq::<Seq<u8>>::empty());
                assert(byte_views(out@) + Seq::<Seq<u8>>::empty() =~= byte_views(out@));
                return out;
            },
        }
    }
    assert(byte_views(out@) + Seq::<Seq<u8>>::empty() =~= byte_views(out@));
    out
}

/// `input` cut into consecutive chunks of `c` bytes, the last one shorter
/// when `c` does not divide the length.
pub open spec fn chunks_of(input: Seq<u8>, c: nat) -> Seq<Seq<u8>>
    decreases input.len(),
{
    if c == 0 || input.len() == 0 {
        Seq::empty()
    } else if input.len() <= c {
        seq![input]
    } else {
        seq![input.take(c as int)].add(chunks_of(input.skip(c as int), c))
    }
}

proof fn lemma_chunks_nonempty(input: Seq<u8>, c: nat)
    requires
        c > 0,
    ensures
        forall|i: int|
            0 <= i < chunks_of(input, c).len() ==> #[trigger] chunks_of(input, c)[i].len() > 0
                && chunks_of(input, c)[i].len() <= c,
    decreases input.len(),
{
    if input.len() > c {
        lemma_chunks_nonempty(input.skip(c as int), c);
        let rest = chunks_of(input.skip(c as int), c);
        assert forall|i: int| 0 <= i < chunks_of(input, c).len() implies #[trigger] chunks_of(
            input,
            c,
        )[i].len() > 0 && chunks_of(input, c)[i].len() <= c by {
            if i > 0 {
                assert(chunks_of(input, c)[i] == rest[i - 1]);
            }
        }
    }
}

proof fn lemma_reads_of_chunks(chunks: Seq<Seq<u8>>)
    requires
        forall|i: int| 0 <= i < chunks.len() ==> #[trigger] chunks[i].len() > 0,
    ensures
        published_for_reads(chunks.push(Seq::empty())) == chunks,
    decreases chunks.len(),
{
    let reads = chunks.push(Seq::<u8>::empty());
    if chunks.len() == 0 {
        assert(reads[0].len() == 0);
    } else {
        assert(reads.drop_first() =~= chunks.drop_first().push(Seq::empty()));
        lemma_reads_of_chunks(chunks.drop_first());
        assert(seq![chunks[0]].add(chunks.drop_first()) =~= chunks);
    }
}

proof fn lemma_chunks_count_and_flatten(input: Seq<u8>, c: nat)
    requires
        c > 0,
    ensures
        chunks_of(input, c).len() == (input.len() + c - 1) / (c as int),
        chunks_of(input, c).flatten() == input,
    decreases input.len(),
{
    let n: int = input.len() as int;
    let ch = chunks_of(input, c);
    if n == 0 {
        assert((c - 1) / (c as int) == 0) by (nonlinear_arith)
            requires
                c > 0,
        ;
    } else if n <= c {
        assert((n + c - 1) / (c as int) == 1) by (nonlinear_arith)
            requires
                c > 0,
                0 < n <= c,
        ;
        assert(ch.drop_first() =~= Seq::<Seq<u8>>::empty());
        assert(ch.flatten() == ch[0] + ch.drop_first().flatten());
        assert(ch.flatten() =~= input);
    } else {
        let rest = input.skip(c as int);
        lemma_chunks_count_and_flatten(rest, c);
        vstd::arithmetic::div_mod::lemma_div_plus_one(rest.len() + c - 1, c as int);
        assert(c + (rest.len() + c - 1) == n + c - 1);
        assert(ch.drop_first() =~= chunks_of(rest, c));
        assert(ch.flatten() == ch[0] + chunks_of(rest, c).flatten());
        assert(ch.flatten() =~= input);
    }
}

/// Write mode on a non-empty input whose reads deliver it in chunks of `c`
/// bytes (then an empty read): the run publishes `ceil(len / c)` messages,
/// each of at most `c` bytes, whose concatenation in order is the input.
pub proof fn lemma_write_mode_publishes_input(input: Seq<u8>, c: nat)
    requires
        c > 0,
        input.len() > 0,
    ensures
        published_for_reads(chunks_of(input, c).push(Seq::empty())) == chunks_of(input, c),
        chunks_of(input, c).len() == (input.len() + c - 1) / (c as int),
        chunks_of(input, c).flatten() == input,
        forall|i: int|
            0 <= i < chunks_of(input, c).len() ==> #[trigger] chunks_of(input, c)[i].len() > 0
                && chunks_of(input, c)[i].len() <= c,
{
    lemma_chunks_nonempty(input, c);
    lemma_reads_of_chunks(chunks_of(input, c));
    lemma_chunks_count_and_flatten(input, c);
}

} // verus!
