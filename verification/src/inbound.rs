//! The path from the device to the console: one decision per read attempt.

use vstd::prelude::*;
use vstd::slice::{slice_subrange, slice_to_vec};

verus! {

/// Size in bytes of the buffer that one read from the device may fill.
pub const READ_CAPACITY: usize = 512;

/// How long the inbound path rests between two read attempts, in
/// milliseconds.
pub const POLL_INTERVAL_MILLIS: u64 = 10;

/// How a read from the device ended.
#[derive(Clone, Copy, Debug, PartialEq, Eq, Structural)]
pub enum ReadOutcome {
    /// The read put this many bytes at the start of the buffer. Zero means
    /// that the device has nothing to say right now.
    Received(usize),
    /// The read failed.
    Failed,
}

/// How the inbound path goes on after a read attempt.
#[derive(Clone, Copy, Debug, PartialEq, Eq, Structural)]
pub enum InboundNext {
    /// Rest for `millis` milliseconds, then read again.
    Pause { millis: u64 },
    /// Stop in good order: the session asked for it.
    Finish,
    /// Stop for good: a fatal error.
    Abort,
}

/// What to do after one read attempt on the device.
#[derive(Debug, PartialEq, Eq)]
pub struct InboundStep {
    /// Bytes to write to the console at once, in this order. Empty when
    /// there is nothing to show.
    pub output: Vec<u8>,
    /// How to go on once `output` is written.
    pub next: InboundNext,
}

/// The model of an [`InboundStep`].
pub struct InboundStepView {
    pub output: Seq<u8>,
    pub next: InboundNext,
}

impl View for InboundStep {
    type V = InboundStepView;

    open spec fn view(&self) -> InboundStepView {
        InboundStepView { output: self.output@, next: self.next }
    }
}

/// The bytes that a read handed over: the start of `buffer`, as long as the
/// read says. A failed read hands over nothing, and so does one that claims
/// more bytes than the buffer holds.
pub open spec fn received_bytes(buffer: Seq<u8>, outcome: ReadOutcome) -> Seq<u8> {
    match outcome {
        ReadOutcome::Received(count) if count <= buffer.len() => buffer.subrange(0, count as int),
        _ => Seq::empty(),
    }
}

/// Whether a read is a fatal error: it failed, or it claims more bytes than
/// the buffer holds.
pub open spec fn read_is_fatal(buffer: Seq<u8>, outcome: ReadOutcome) -> bool {
    match outcome {
        ReadOutcome::Received(count) => count > buffer.len(),
        ReadOutcome::Failed => true,
    }
}

/// The decision after a read into `buffer` that ended in `outcome`, while the
/// session has or has not asked the inbound path to stop.
///
/// What was received goes to the console unchanged. A read of zero bytes
/// shows nothing and is no reason to stop. A fatal read shows nothing and
/// stops the path. A request to stop is honoured after the bytes at hand are
/// shown; without one the path rests and reads again.
pub open spec fn spec_inbound_step(
    buffer: Seq<u8>,
    outcome: ReadOutcome,
    stop_requested: bool,
) -> InboundStepView {
    InboundStepView {
        output: received_bytes(buffer, outcome),
        next: if read_is_fatal(buffer, outcome) {
            InboundNext::Abort
        } else if stop_requested {
            InboundNext::Finish
        } else {
            InboundNext::Pause { millis: POLL_INTERVAL_MILLIS }
        },
    }
}

/// Decides what to do after one read attempt on the device.
pub fn inbound_step(buffer: &[u8], outcome: ReadOutcome, stop_requested: bool) -> (step:
    InboundStep)
    ensures
        step@ == spec_inbound_step(buffer@, outcome, stop_requested),
{
    match outcome {
        ReadOutcome::Received(count) if count <= buffer.len() => {
            let output = slice_to_vec(slice_subrange(buffer, 0, count));
            let next = if stop_requested {
                InboundNext::Finish
            } else {
                InboundNext::Pause { millis: POLL_INTERVAL_MILLIS }
            };
            InboundStep { output, next }
        },
        _ => InboundStep { output: Vec::new(), next: InboundNext::Abort },
    }
}

/// One read attempt as the inbound path sees it.
pub struct ReadEvent {
    pub buffer: Seq<u8>,
    pub outcome: ReadOutcome,
    pub stop_requested: bool,
}

/// Where the inbound path stands after a run of read attempts.
pub struct InboundTrace {
    /// Everything written to the console so far, in order.
    pub console: Seq<u8>,
    /// Whether the path will read again.
    pub running: bool,
}

/// The inbound path run over `events`, first to last. Once a step does not
/// end in a pause the path has stopped, and later events change nothing.
pub open spec fn spec_run(events: Seq<ReadEvent>) -> InboundTrace
    decreases events.len(),
{
    if events.len() == 0 {
        InboundTrace { console: Seq::empty(), running: true }
    } else {
        let before = spec_run(events.drop_last());
        let event = events.last();
        let step = spec_inbound_step(event.buffer, event.outcome, event.stop_requested);
        if before.running {
            InboundTrace { console: before.console + step.output, running: step.next is Pause }
        } else {
            before
        }
    }
}

/// The bytes that the device handed over in `events`, first to last.
pub open spec fn device_stream(events: Seq<ReadEvent>) -> Seq<u8>
    decreases events.len(),
{
    if events.len() == 0 {
        Seq::empty()
    } else {
        device_stream(events.drop_last()) + received_bytes(
            events.last().buffer,
            events.last().outcome,
        )
    }
}

/// Whether `event` is a read that succeeded within its buffer while nobody
/// asked the path to stop.
pub open spec fn is_plain_read(event: ReadEvent) -> bool {
    !read_is_fatal(event.buffer, event.outcome) && !event.stop_requested
}

/// As long as reads succeed and nobody asks the path to stop, the console
/// holds exactly what the device handed over, byte for byte and in order, and
/// the path is still running, however the bytes were cut into reads and
/// however many reads brought nothing.
pub proof fn lemma_console_mirrors_device(events: Seq<ReadEvent>)
    requires
        forall|i: int| 0 <= i < events.len() ==> is_plain_read(#[trigger] events[i]),
    ensures
        spec_run(events).running,
        spec_run(events).console == device_stream(events),
    decreases events.len(),
{
    if events.len() > 0 {
        let earlier = events.drop_last();
        assert forall|i: int| 0 <= i < earlier.len() implies is_plain_read(
            #[trigger] earlier[i],
        ) by {
            assert(earlier[i] == events[i]);
        }
        lemma_console_mirrors_device(earlier);
        assert(is_plain_read(events[events.len() - 1]));
    }
}

/// A read of zero bytes shows nothing on the console and does not stop the
/// inbound path.
pub proof fn lemma_empty_read_is_idle(buffer: Seq<u8>)
    ensures
        spec_inbound_step(buffer, ReadOutcome::Received(0), false).output == Seq::<u8>::empty(),
        spec_inbound_step(buffer, ReadOutcome::Received(0), false).next == (InboundNext::Pause {
            millis: POLL_INTERVAL_MILLIS,
        }),
{
    assert(buffer.subrange(0, 0) =~= Seq::<u8>::empty());
}

/// Once the inbound path has stopped, no later read shows anything on the
/// console.
pub proof fn lemma_stopped_path_stays_stopped(events: Seq<ReadEvent>, later: Seq<ReadEvent>)
    requires
        !spec_run(events).running,
    ensures
        spec_run(events + later) == spec_run(events),
    decreases later.len(),
{
    if later.len() == 0 {
        assert(events + later =~= events);
    } else {
        assert((events + later).drop_last() =~= events + later.drop_last());
        lemma_stopped_path_stays_stopped(events, later.drop_last());
    }
}

} // verus!
