//! The subscribe bridge: messages of a topic become standard output.
//!
//! The caller owns the subscription and the output stream. It hands each
//! event of the subscription to the bridge and performs the action that
//! comes back. Payloads are written verbatim, in arrival order, with nothing
//! between them; an end-of-stream signal either ends the run cleanly or is
//! treated as a lull, as the parameters say; an error ends the run.
use vstd::prelude::*;

use crate::topic::TopicExpression;

verus! {

/// Everything the subscribe bridge needs for one run.
#[derive(Clone, Debug)]
pub struct SubscribeParams {
    pub topic: TopicExpression,
    /// Keep listening after an end-of-stream signal.
    pub continue_on_end_of_stream: bool,
}

impl SubscribeParams {
    pub open spec fn wf(&self) -> bool {
        self.topic.wf()
    }
}

/// Where the subscribe bridge stands.
#[derive(Clone, Copy, Debug, PartialEq, Eq, Structural)]
pub enum SubscribePhase {
    /// Waiting for the next message or signal.
    Listening,
    /// A payload was handed out to be written and flushed.
    Draining,
    /// The run is over, cleanly or not.
    Terminated,
}

/// What the subscription delivered.
#[derive(Clone, Debug)]
pub enum SubscribeEvent {
    Message(Vec<u8>),
    EndOfStream,
    Failed(String),
}

/// Why a subscribe run stopped with an error.
#[derive(Clone, Debug, PartialEq, Eq)]
pub enum SubscribeFailure {
    Stream(String),
    Write(String),
}

/// What the caller has to do next.
#[derive(Clone, Debug)]
pub enum SubscribeAction {
    /// Write exactly these bytes to the output, flush, and report the outcome.
    Write(Vec<u8>),
    /// Wait for the next event.
    Listen,
    /// Stop: the run ended cleanly.
    Exit,
    /// Stop: the run failed.
    Abort(SubscribeFailure),
}

/// The decision state of one subscribe run.
pub struct SubscribeBridge {
    continue_on_end_of_stream: bool,
    phase: SubscribePhase,
    pending: Ghost<Seq<u8>>,
    written: Ghost<Seq<u8>>,
}

impl SubscribeBridge {
    pub closed spec fn continues_spec(&self) -> bool {
        self.continue_on_end_of_stream
    }

    pub closed spec fn phase_spec(&self) -> SubscribePhase {
        self.phase
    }

    /// The payload handed out to be written and not yet confirmed.
    pub closed spec fn pending(&self) -> Seq<u8> {
        self.pending@
    }

    /// The bytes whose writing was confirmed, in order.
    pub closed spec fn written(&self) -> Seq<u8> {
        self.written@
    }

    /// A bridge that has written nothing and listens.
    pub fn new(continue_on_end_of_stream: bool) -> (r: Self)
        ensures
            r.continues_spec() == continue_on_end_of_stream,
            r.phase_spec() == SubscribePhase::Listening,
            r.written() == Seq::<u8>::empty(),
    {
        SubscribeBridge {
            continue_on_end_of_stream,
            phase: SubscribePhase::Listening,
            pending: Ghost(Seq::empty()),
            written: Ghost(Seq::empty()),
        }
    }

    pub fn phase(&self) -> (r: SubscribePhase)
        ensures
            r == self.phase_spec(),
    {
        self.phase
    }

    /// Takes the next event of the subscription.
    ///
    /// A message's payload is handed back to be written; an end-of-stream
    /// signal keeps the bridge listening or ends the run cleanly, as the
    /// bridge was made; a stream error aborts the run.
    pub fn on_event(&mut self, event: SubscribeEvent) -> (r: SubscribeAction)
        requires
            old(self).phase_spec() == SubscribePhase::Listening,
        ensures
            final(self).continues_spec() == old(self).continues_spec(),
            final(self).written() == old(self).written(),
            match event {
                SubscribeEvent::Message(p) => {
                    &&& r == SubscribeAction::Write(p)
                    &&& final(self).phase_spec() == SubscribePhase::Draining
                    &&& final(self).pending() == p@
                },
                SubscribeEvent::EndOfStream => if old(self).continues_spec() {
                    &&& r is Listen
                    &&& final(self).phase_spec() == SubscribePhase::Listening
                } else {
                    &&& r is Exit
                    &&& final(self).phase_spec() == SubscribePhase::Terminated
                },
                SubscribeEvent::Failed(e) => {
                    &&& r == SubscribeAction::Abort(SubscribeFailure::Stream(e))
                    &&& final(self).phase_spec() == SubscribePhase::Terminated
                },
            },
    {
        match event {
            SubscribeEvent::Message(p) => {
                self.phase = SubscribePhase::Draining;
                self.pending = Ghost(p@);
                SubscribeAction::Write(p)
            },
            SubscribeEvent::EndOfStream => {
                if self.continue_on_end_of_stream {
                    SubscribeAction::Listen
                } else {
                    self.phase = SubscribePhase::Terminated;
                    SubscribeAction::Exit
                }
            },
            SubscribeEvent::Failed(e) => {
                self.phase = SubscribePhase::Terminated;
                SubscribeAction::Abort(SubscribeFailure::Stream(e))
            },
        }
    }

    /// Takes the outcome of writing and flushing the pending payload.
    pub fn on_write_result(&mut self, result: Result<(), String>) -> (r: SubscribeAction)
        requires
            old(self).phase_spec() == SubscribePhase::Draining,
        ensures
            final(self).continues_spec() == old(self).continues_spec(),
            match result {
                Ok(_) => {
                    &&& r is Listen
                    &&& final(self).phase_spec() == SubscribePhase::Listening
                    &&& final(self).written() == old(self).written() + old(self).pending()
                },
                Err(e) => {
                    &&& r == SubscribeAction::Abort(SubscribeFailure::Write(e))
                    &&& final(self).phase_spec() == SubscribePhase::Terminated
                    &&& final(self).written() == old(self).written()
                },
            },
    {
        match result {
            Ok(_) => {
                self.written = Ghost(self.written@ + self.pending@);
                self.phase = SubscribePhase::Listening;
                SubscribeAction::Listen
            },
            Err(e) => {
                self.phase = SubscribePhase::Terminated;
                SubscribeAction::Abort(SubscribeFailure::Write(e))
            },
        }
    }
}

/// How a run over a finite list of events ends.
#[derive(Clone, Copy, Debug, PartialEq, Eq, Structural)]
pub enum RunEnd {
    /// The events ran out while the bridge was still listening.
    Listening,
    /// The bridge ended the run cleanly.
    Exited,
    /// The bridge ended the run on an error.
    Aborted,
}

/// The bytes written and how the run ends when the subscription delivers
/// `events` in order and every write succeeds.
pub open spec fn run_events(continue_on_eos: bool, events: Seq<SubscribeEvent>) -> (Seq<u8>, RunEnd)
    decreases events.len(),
{
    if events.len() == 0 {
        (Seq::empty(), RunEnd::Listening)
    } else {
        match events[0] {
            SubscribeEvent::Message(p) => {
                let rest = run_events(continue_on_eos, events.drop_first());
                (p@ + rest.0, rest.1)
            },
            SubscribeEvent::EndOfStream => if continue_on_eos {
                run_events(continue_on_eos, events.drop_first())
            } else {
                (Seq::empty(), RunEnd::Exited)
            },
            SubscribeEvent::Failed(_) => (Seq::empty(), RunEnd::Aborted),
        }
    }
}

/// Runs a fresh bridge over `events`, writing every payload into a buffer
/// that always accepts it: what it writes and how it ends are exactly
/// `run_events`.
pub fn replay_events(continue_on_end_of_stream: bool, events: Vec<SubscribeEvent>) -> (r: (
    Vec<u8>,
    RunEnd,
))
    ensures
        (r.0@, r.1) == run_events(continue_on_end_of_stream, events@),
{
    let ghost all = events@;
    let ghost c = continue_on_end_of_stream;
    let mut rest = events;
    let mut bridge = SubscribeBridge::new(continue_on_end_of_stream);
    let mut out: Vec<u8> = Vec::new();
    assert(out@ + run_events(c, all).0 =~= run_events(c, all).0);
    while rest.len() > 0
        invariant
            bridge.phase_spec() == SubscribePhase::Listening,
            bridge.continues_spec() == c,
            bridge.written() == out@,
            c == continue_on_end_of_stream,
            all == events@,
            run_events(c, all) == (out@ + run_events(c, rest@).0, run_events(c, rest@).1),
        decreases rest@.len(),
    {
        let ghost before = rest@;
        let ghost out_before = out@;
        let ev = rest.remove(0);
        assert(rest@ =~= before.drop_first());
        let ghost evg = ev;
        assert(before[0] == evg);
        match bridge.on_event(ev) {
            SubscribeAction::Write(p) => {
                let mut p = p;
                let ghost pv = p@;
                out.append(&mut p);
                let _ = bridge.on_write_result(Ok(()));
                assert(out_before + (pv + run_events(c, rest@).0) =~= out@ + run_events(
                    c,
                    rest@,
                ).0);
            },
            SubscribeAction::Listen => {},
            SubscribeAction::Exit => {
                assert(evg is EndOfStream && !c);
                assert(run_events(c, before) == (Seq::<u8>::empty(), RunEnd::Exited));
                assert(out@ + Seq::<u8>::empty() =~= out@);
                return (out, RunEnd::Exited);
            },
            SubscribeAction::Abort(_) => {
                assert(evg is Failed);
                assert(run_events(c, before) == (Seq::<u8>::empty(), RunEnd::Aborted));
                assert(out@ + Seq::<u8>::empty() =~= out@);
                return (out, RunEnd::Aborted);
            },
        }
    }
    assert(out@ + Seq::<u8>::empty() =~= out@);
    (out, RunEnd::Listening)
}

/// The payloads of the messages among `events`, in order.
pub open spec fn payloads(events: Seq<SubscribeEvent>) -> Seq<Seq<u8>>
    decreases events.len(),
{
    if events.len() == 0 {
        Seq::empty()
    } else {
        match events[0] {
            SubscribeEvent::Message(p) => seq![p@].add(payloads(events.drop_first())),
            _ => payloads(events.drop_first()),
        }
    }
}

/// Read mode that stops at the end of stream: when the subscription signals
/// end-of-stream before any message, the run exits cleanly having written
/// nothing, whatever would have come after.
pub proof fn lemma_stop_on_first_end_of_stream(events: Seq<SubscribeEvent>)
    requires
        events.len() > 0,
        events[0] is EndOfStream,
    ensures
        run_events(false, events) == (Seq::<u8>::empty(), RunEnd::Exited),
{
}

/// Read mode that continues after end of stream: as long as the
/// subscription reports no error, the run never ends, and it writes every
/// payload, in arrival order, with nothing between them; a message that
/// follows an end-of-stream signal is written too.
pub proof fn lemma_continue_writes_every_payload(events: Seq<SubscribeEvent>)
    requires
        forall|i: int| 0 <= i < events.len() ==> !(#[trigger] events[i] is Failed),
    ensures
        run_events(true, events) == (payloads(events).flatten(), RunEnd::Listening),
    decreases events.len(),
{
    if events.len() > 0 {
        let rest = events.drop_first();
        assert forall|i: int| 0 <= i < rest.len() implies !(#[trigger] rest[i] is Failed) by {
            assert(rest[i] == events[i + 1]);
        }
        lemma_continue_writes_every_payload(rest);
        if let SubscribeEvent::Message(p) = events[0] {
            let ps = payloads(events);
            assert(ps.drop_first() =~= payloads(rest));
        }
    }
}

/// Messages that arrive before any end-of-stream signal or error are written
/// in arrival order with nothing inserted, whichever way end of stream is
/// handled.
pub proof fn lemma_messages_written_in_order(continue_on_eos: bool, events: Seq<SubscribeEvent>)
    requires
        forall|i: int| 0 <= i < events.len() ==> #[trigger] events[i] is Message,
    ensures
        run_events(continue_on_eos, events) == (payloads(events).flatten(), RunEnd::Listening),
    decreases events.len(),
{
    if events.len() > 0 {
        let rest = events.drop_first();
        assert forall|i: int| 0 <= i < rest.len() implies #[trigger] rest[i] is Message by {
            assert(rest[i] == events[i + 1]);
        }
        lemma_messages_written_in_order(continue_on_eos, rest);
        let ps = payloads(events);
        assert(ps.drop_first() =~= payloads(rest));
    }
}

} // verus!
