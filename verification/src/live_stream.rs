//! The loop that feeds a HID LCD from a live encoder.
//!
//! The loop sets the frame rate, and then reads, cuts what it has into access units, sends each one by
//! itself, and paces itself. What is left at the end of the stream is sent too, but never after a stop
//! or an error, where it may be a partial access unit.

use vstd::prelude::*;
use crate::access_unit;
use crate::unit_buffer;
use crate::unit_buffer::{
    StreamAction, StreamEnd, StreamEvent, StreamInput, StreamOutput, UnitBuffer,
};

verus! {

/// No sane access unit comes close. A malformed stream without a second boundary would otherwise
/// grow the buffer without limit.
pub const MAX_AU_BYTES: usize = 4194304;

/// What a [`LiveStream`] waits for.
#[derive(Clone, Copy, Debug, PartialEq, Eq, Structural)]
pub enum LivePhase {
    /// For the frame rate to be set.
    Starting,
    /// At the top of the loop: whether to stop.
    Top,
    /// For bytes of the stream.
    Reading,
    /// For a unit to be sent.
    Sending,
    /// For the next frame's time.
    Pacing,
    /// Between two units: whether to stop.
    Draining,
    /// At the end of the stream: whether to stop.
    Ended,
    /// For the time of the last frame.
    FlushPacing,
    /// For the last frame to be sent.
    Flushing,
    /// For nothing: the loop is over.
    Over,
}

/// State of the loop.
pub struct LiveState {
    pub buffer: Seq<u8>,
    pub phase: LivePhase,
}

/// Sends the first complete unit of the buffer, or goes back to the top of the loop.
pub open spec fn live_drain(buffer: Seq<u8>) -> (LiveState, StreamOutput) {
    match access_unit::au_split(buffer) {
        Some(at) => (
            LiveState { buffer: buffer.skip(at), phase: LivePhase::Sending },
            StreamOutput::Send(buffer.take(at)),
        ),
        None => (LiveState { buffer, phase: LivePhase::Top }, StreamOutput::PollHalt),
    }
}

/// Leaves the loop.
pub open spec fn live_exit(buffer: Seq<u8>, end: StreamEnd) -> (LiveState, StreamOutput) {
    (LiveState { buffer, phase: LivePhase::Over }, StreamOutput::Exit(end))
}

/// The inputs that a phase waits for.
pub open spec fn live_expects(phase: LivePhase, input: StreamInput) -> bool {
    match phase {
        LivePhase::Starting => input is FpsSet,
        LivePhase::Top | LivePhase::Draining | LivePhase::Ended => input is Halted,
        LivePhase::Reading => input is Chunk || input is ReadFailed,
        LivePhase::Sending | LivePhase::Flushing => input is Sent,
        LivePhase::Pacing | LivePhase::FlushPacing => input is Paced,
        LivePhase::Over => false,
    }
}

/// One turn of the loop: what it does on an input, and the state it is in then.
pub open spec fn live_turn(s: LiveState, input: StreamInput) -> (LiveState, StreamOutput) {
    match (s.phase, input) {
        (LivePhase::Starting, StreamInput::FpsSet) => (
            LiveState { phase: LivePhase::Top, ..s },
            StreamOutput::PollHalt,
        ),
        (LivePhase::Top, StreamInput::Halted(false)) => (
            LiveState { phase: LivePhase::Reading, ..s },
            StreamOutput::Read,
        ),
        (LivePhase::Reading, StreamInput::ReadFailed) => live_exit(s.buffer, StreamEnd::ReadFailed),
        (LivePhase::Reading, StreamInput::Chunk(chunk)) => if chunk.len() == 0 {
            (LiveState { phase: LivePhase::Ended, ..s }, StreamOutput::PollHalt)
        } else if s.buffer.len() + chunk.len() > MAX_AU_BYTES {
            live_exit(s.buffer + chunk, StreamEnd::NoBoundary)
        } else {
            live_drain(s.buffer + chunk)
        },
        (LivePhase::Sending, StreamInput::Sent(true)) => (
            LiveState { phase: LivePhase::Pacing, ..s },
            StreamOutput::Pace,
        ),
        (LivePhase::Sending, StreamInput::Sent(false)) => live_exit(
            s.buffer,
            StreamEnd::SendFailed,
        ),
        (LivePhase::Pacing, StreamInput::Paced) => (
            LiveState { phase: LivePhase::Draining, ..s },
            StreamOutput::PollHalt,
        ),
        (LivePhase::Draining, StreamInput::Halted(false)) => live_drain(s.buffer),
        (LivePhase::Ended, StreamInput::Halted(false)) => if s.buffer.len() == 0 {
            live_exit(s.buffer, StreamEnd::Finished)
        } else {
            (LiveState { phase: LivePhase::FlushPacing, ..s }, StreamOutput::Pace)
        },
        (LivePhase::FlushPacing, StreamInput::Paced) => (
            LiveState { buffer: Seq::empty(), phase: LivePhase::Flushing },
            StreamOutput::Send(s.buffer),
        ),
        (LivePhase::Flushing, StreamInput::Sent(_)) => live_exit(s.buffer, StreamEnd::Finished),
        _ => live_exit(s.buffer, StreamEnd::Stopped),
    }
}

/// The loop that feeds a HID LCD from a live encoder.
///
/// It starts by setting the frame rate. Each action is performed by the caller, whose answer is
/// handed to [`LiveStream::resume`].
pub struct LiveStream {
    buffer: UnitBuffer,
    phase: LivePhase,
}

impl View for LiveStream {
    type V = LiveState;

    closed spec fn view(&self) -> LiveState {
        LiveState { buffer: self.buffer@, phase: self.phase }
    }
}

impl LiveStream {
    /// A loop that has read nothing, with its first action: to set the frame rate, given as the bits of
    /// a 32-bit float.
    pub fn start(fps_bits: u32) -> (started: (Self, StreamAction))
        ensures
            started.0@ == live_start(fps_bits).state,
            started.1@ == (StreamOutput::SetFps { fps_bits }),
    {
        (
            LiveStream { buffer: UnitBuffer::new(), phase: LivePhase::Starting },
            StreamAction::SetFps { fps_bits },
        )
    }

    /// Whether an event can be handed to [`LiveStream::resume`].
    pub fn can_take(&self, event: &StreamEvent) -> (can: bool)
        ensures
            can == live_expects(self@.phase, event@),
    {
        match (self.phase, event) {
            (LivePhase::Starting, StreamEvent::FpsSet)
            | (LivePhase::Top, StreamEvent::Halted(_))
            | (LivePhase::Draining, StreamEvent::Halted(_))
            | (LivePhase::Ended, StreamEvent::Halted(_))
            | (LivePhase::Reading, StreamEvent::Read(_))
            | (LivePhase::Sending, StreamEvent::Sent(_))
            | (LivePhase::Flushing, StreamEvent::Sent(_))
            | (LivePhase::Pacing, StreamEvent::Paced)
            | (LivePhase::FlushPacing, StreamEvent::Paced) => true,
            _ => false,
        }
    }

    fn drain(&mut self) -> (action: StreamAction)
        ensures
            (final(self)@, action@) == live_drain(old(self)@.buffer),
    {
        match self.buffer.next_unit() {
            Some(unit) => {
                self.phase = LivePhase::Sending;
                StreamAction::Send(unit)
            },
            None => {
                self.phase = LivePhase::Top;
                StreamAction::PollHalt
            },
        }
    }

    fn exit(&mut self, end: StreamEnd) -> (action: StreamAction)
        ensures
            (final(self)@, action@) == live_exit(old(self)@.buffer, end),
    {
        self.phase = LivePhase::Over;
        StreamAction::Exit(end)
    }

    /// Takes the answer to the last action and gives the next action.
    pub fn resume(&mut self, event: StreamEvent) -> (action: StreamAction)
        requires
            live_expects(old(self)@.phase, event@),
        ensures
            (final(self)@, action@) == live_turn(old(self)@, event@),
    {
        match (self.phase, event) {
            (LivePhase::Starting, StreamEvent::FpsSet) => {
                self.phase = LivePhase::Top;
                StreamAction::PollHalt
            },
            (LivePhase::Top, StreamEvent::Halted(false)) => {
                self.phase = LivePhase::Reading;
                StreamAction::Read
            },
            (LivePhase::Reading, StreamEvent::Read(None)) => self.exit(StreamEnd::ReadFailed),
            (LivePhase::Reading, StreamEvent::Read(Some(chunk))) => {
                if chunk.len() == 0 {
                    self.phase = LivePhase::Ended;
                    return StreamAction::PollHalt;
                }
                self.buffer.append(chunk);
                if self.buffer.len() > MAX_AU_BYTES {
                    return self.exit(StreamEnd::NoBoundary);
                }
                self.drain()
            },
            (LivePhase::Sending, StreamEvent::Sent(true)) => {
                self.phase = LivePhase::Pacing;
                StreamAction::Pace
            },
            (LivePhase::Sending, StreamEvent::Sent(false)) => self.exit(StreamEnd::SendFailed),
            (LivePhase::Pacing, StreamEvent::Paced) => {
                self.phase = LivePhase::Draining;
                StreamAction::PollHalt
            },
            (LivePhase::Draining, StreamEvent::Halted(false)) => self.drain(),
            (LivePhase::Ended, StreamEvent::Halted(false)) => {
                if self.buffer.len() == 0 {
                    return self.exit(StreamEnd::Finished);
                }
                self.phase = LivePhase::FlushPacing;
                StreamAction::Pace
            },
            (LivePhase::FlushPacing, StreamEvent::Paced) => {
                self.phase = LivePhase::Flushing;
                StreamAction::Send(self.buffer.take_all())
            },
            (LivePhase::Flushing, StreamEvent::Sent(_)) => self.exit(StreamEnd::Finished),
            _ => self.exit(StreamEnd::Stopped),
        }
    }
}

/// A loop together with what it has read and sent so far.
pub struct LiveRun {
    pub state: LiveState,
    pub read: Seq<u8>,
    pub sent: Seq<Seq<u8>>,
    /// All that it has done.
    pub outputs: Seq<StreamOutput>,
}

/// A loop that has read and sent nothing.
pub open spec fn live_start(fps_bits: u32) -> LiveRun {
    LiveRun {
        state: LiveState { buffer: Seq::empty(), phase: LivePhase::Starting },
        read: Seq::empty(),
        sent: Seq::empty(),
        outputs: seq![StreamOutput::SetFps { fps_bits }],
    }
}

/// The loop after the given inputs.
pub open spec fn live_run(fps_bits: u32, inputs: Seq<StreamInput>) -> LiveRun
    decreases inputs.len(),
{
    if inputs.len() == 0 {
        live_start(fps_bits)
    } else {
        let before = live_run(fps_bits, inputs.drop_last());
        let (state, output) = live_turn(before.state, inputs.last());
        LiveRun {
            state,
            read: before.read + unit_buffer::received(inputs.last()),
            sent: before.sent + unit_buffer::frames_of(output),
            outputs: before.outputs.push(output),
        }
    }
}

/// Each input is one that the loop waited for.
pub open spec fn live_inputs(fps_bits: u32, inputs: Seq<StreamInput>) -> bool
    decreases inputs.len(),
{
    inputs.len() > 0 ==> {
        &&& live_inputs(fps_bits, inputs.drop_last())
        &&& live_expects(live_run(fps_bits, inputs.drop_last()).state.phase, inputs.last())
    }
}

/// How the frames sent so far stand to what was read.
pub open spec fn live_in_step(run: LiveRun) -> bool {
    let units = access_unit::units(run.read);
    let rest = access_unit::remainder(run.read);
    match run.state.phase {
        LivePhase::Starting | LivePhase::Top | LivePhase::Reading | LivePhase::Ended => {
            &&& run.sent == units
            &&& run.state.buffer == rest
        },
        LivePhase::FlushPacing => {
            &&& run.sent == units
            &&& run.state.buffer == rest
            &&& rest.len() > 0
        },
        LivePhase::Sending | LivePhase::Pacing | LivePhase::Draining => {
            &&& run.sent + access_unit::units(run.state.buffer) == units
            &&& access_unit::remainder(run.state.buffer) == rest
        },
        LivePhase::Flushing => run.sent == unit_buffer::whole_frames(run.read),
        LivePhase::Over => {
            &&& run.sent.len() <= unit_buffer::whole_frames(run.read).len()
            &&& run.sent == unit_buffer::whole_frames(run.read).take(run.sent.len() as int)
        },
    }
}

proof fn lemma_drain_in_step(
    read: Seq<u8>,
    sent: Seq<Seq<u8>>,
    buffer: Seq<u8>,
    outputs: Seq<StreamOutput>,
)
    requires
        sent + access_unit::units(buffer) == access_unit::units(read),
        access_unit::remainder(buffer) == access_unit::remainder(read),
    ensures
        live_in_step(
            LiveRun {
                state: live_drain(buffer).0,
                read,
                sent: sent + unit_buffer::frames_of(live_drain(buffer).1),
                outputs,
            },
        ),
{
    match access_unit::au_split(buffer) {
        Some(at) => {
            access_unit::split_is_inside(buffer);
            assert((sent + seq![buffer.take(at)]) + access_unit::units(buffer.skip(at))
                =~= sent + access_unit::units(buffer));
        },
        None => {
            assert(sent + Seq::<Seq<u8>>::empty() =~= sent);
            assert(sent + access_unit::units(buffer) =~= sent);
        },
    }
}

/// The loop sends the complete access units of the stream in order, each once, however the stream
/// is cut into reads; at the end of the stream it sends the rest; and whenever it leaves, what it
/// has sent is a prefix of that.
pub proof fn live_stream_sends_units_in_order(fps_bits: u32, inputs: Seq<StreamInput>)
    requires
        live_inputs(fps_bits, inputs),
    ensures
        live_in_step(live_run(fps_bits, inputs)),
    decreases inputs.len(),
{
    let run = live_run(fps_bits, inputs);
    if inputs.len() > 0 {
        let before = live_run(fps_bits, inputs.drop_last());
        let input = inputs.last();
        live_stream_sends_units_in_order(fps_bits, inputs.drop_last());
        let output = live_turn(before.state, input).1;
        access_unit::units_ignore_read_sizes(
            before.read,
            unit_buffer::received(input),
        );
        assert(before.read + Seq::<u8>::empty() =~= before.read);
        assert(before.sent + Seq::<Seq<u8>>::empty() =~= before.sent);
        let units = access_unit::units(run.read);
        let all = unit_buffer::whole_frames(run.read);
        assert(all.take(units.len() as int) =~= units);
        assert(all.take(all.len() as int) =~= all);
        match before.state.phase {
            LivePhase::Reading => {
                if let StreamInput::Chunk(chunk) = input {
                    if chunk.len() > 0 {
                        lemma_drain_in_step(
                            run.read,
                            before.sent,
                            before.state.buffer + chunk,
                            run.outputs,
                        );
                        let had = access_unit::units(before.read).len() as int;
                        assert(all.take(had) =~= before.sent);
                    }
                }
            },
            LivePhase::Draining => {
                lemma_drain_in_step(run.read, before.sent, before.state.buffer, run.outputs);
                assert(all.take(before.sent.len() as int) =~= before.sent);
            },
            LivePhase::Sending | LivePhase::Pacing => {
                assert(all.take(before.sent.len() as int) =~= before.sent);
            },
            LivePhase::FlushPacing => {
                assert(run.sent =~= all);
            },
            _ => {},
        }
    } else {
        assert(access_unit::nals_from(Seq::empty(), 0) =~= Seq::empty());
    }
}

/// The buffer never holds more than [`MAX_AU_BYTES`] while the loop runs.
pub proof fn live_buffer_is_bounded(fps_bits: u32, inputs: Seq<StreamInput>)
    requires
        live_inputs(fps_bits, inputs),
        live_run(fps_bits, inputs).state.phase != LivePhase::Over,
    ensures
        live_run(fps_bits, inputs).state.buffer.len() <= MAX_AU_BYTES,
    decreases inputs.len(),
{
    if inputs.len() > 0 {
        let before = live_run(fps_bits, inputs.drop_last());
        live_buffer_is_bounded(fps_bits, inputs.drop_last());
        if access_unit::au_split(before.state.buffer) is Some {
            access_unit::split_is_inside(before.state.buffer);
        }
        if let StreamInput::Chunk(chunk) = inputs.last() {
            if access_unit::au_split(before.state.buffer + chunk) is Some {
                access_unit::split_is_inside(before.state.buffer + chunk);
            }
        }
    }
}

/// The rest of the stream, which may be a partial access unit, is sent only at the end of the
/// stream and only when the loop was not asked to stop there.
pub proof fn live_rest_needs_clean_end(fps_bits: u32, inputs: Seq<StreamInput>)
    requires
        live_inputs(fps_bits, inputs),
        live_run(fps_bits, inputs).state.phase == LivePhase::Flushing,
    ensures
        inputs.len() >= 3,
        inputs[inputs.len() - 3] == StreamInput::Chunk(Seq::empty()),
        inputs[inputs.len() - 2] == StreamInput::Halted(false),
{
    let one = inputs.drop_last();
    let two = one.drop_last();
    let three = two.drop_last();
    assert(live_run(fps_bits, one).state.phase == LivePhase::FlushPacing);
    assert(live_run(fps_bits, two).state.phase == LivePhase::Ended);
    assert(live_run(fps_bits, three).state.phase == LivePhase::Reading);
    assert(two.last()->Chunk_0 =~= Seq::empty());
}

/// A loop that has come to its end without a stop or an error has sent all that it has read: the
/// complete access units, and then the rest, if there is any.
pub proof fn live_finish_sends_everything(fps_bits: u32, inputs: Seq<StreamInput>)
    requires
        live_inputs(fps_bits, inputs),
        live_run(fps_bits, inputs).outputs.last() == StreamOutput::Exit(StreamEnd::Finished),
    ensures
        live_run(fps_bits, inputs).sent == unit_buffer::whole_frames(
            live_run(fps_bits, inputs).read,
        ),
{
    let front = inputs.drop_last();
    let before = live_run(fps_bits, front);
    live_stream_sends_units_in_order(fps_bits, front);
    assert(before.read + Seq::<u8>::empty() =~= before.read);
    assert(before.sent + Seq::<Seq<u8>>::empty() =~= before.sent);
}

/// The frame rate is set once, before anything else is done; so no frame is sent without it.
pub proof fn live_frame_rate_comes_first(fps_bits: u32, inputs: Seq<StreamInput>)
    requires
        live_inputs(fps_bits, inputs),
    ensures
        ({
            let outputs = live_run(fps_bits, inputs).outputs;
            &&& outputs.len() == inputs.len() + 1
            &&& outputs[0] == (StreamOutput::SetFps { fps_bits })
            &&& forall|i: int| 1 <= i < outputs.len() ==> !(#[trigger] outputs[i] is SetFps)
        }),
    decreases inputs.len(),
{
    if inputs.len() > 0 {
        live_frame_rate_comes_first(fps_bits, inputs.drop_last());
        let before = live_run(fps_bits, inputs.drop_last()).outputs;
        let outputs = live_run(fps_bits, inputs).outputs;
        assert(forall|i: int| 0 <= i < before.len() ==> outputs[i] == before[i]);
    }
}

/// What was read and has not been sent: the part of the stream behind the frames that were sent.
pub open spec fn live_waiting(run: LiveRun) -> Seq<u8> {
    run.read.skip(access_unit::joined(run.sent).len() as int)
}

/// The phase shows in the last action and in the input before it, and the buffer is what waits.
proof fn lemma_live_shows(fps_bits: u32, inputs: Seq<StreamInput>)
    requires
        live_inputs(fps_bits, inputs),
    ensures
        ({
            let run = live_run(fps_bits, inputs);
            let last = run.outputs.last();
            &&& run.outputs.len() == inputs.len() + 1
            &&& run.read == access_unit::joined(run.sent) + run.state.buffer
            &&& run.state.buffer == live_waiting(run)
            &&& match run.state.phase {
                LivePhase::Starting => last is SetFps,
                LivePhase::Top => last is PollHalt && inputs.len() > 0 && match inputs.last() {
                    StreamInput::FpsSet | StreamInput::Halted(false) => true,
                    StreamInput::Chunk(chunk) => chunk.len() > 0,
                    _ => false,
                },
                LivePhase::Reading => last is Read,
                LivePhase::Sending => last is Send && inputs.len() > 0 && !(inputs.last() is Paced),
                LivePhase::Pacing => last is Pace && inputs.len() > 0 && inputs.last() is Sent,
                LivePhase::Draining => last is PollHalt && inputs.len() > 0 && inputs.last() is Paced,
                LivePhase::Ended => last is PollHalt && inputs.len() > 0 && inputs.last()
                    == StreamInput::Chunk(Seq::empty()),
                LivePhase::FlushPacing => last is Pace && inputs.len() > 0 && inputs.last()
                    == StreamInput::Halted(false),
                LivePhase::Flushing => last is Send && inputs.len() > 0 && inputs.last() is Paced,
                LivePhase::Over => last is Exit,
            }
        }),
    decreases inputs.len(),
{
    let run = live_run(fps_bits, inputs);
    if inputs.len() > 0 {
        let front = inputs.drop_last();
        let before = live_run(fps_bits, front);
        lemma_live_shows(fps_bits, front);
        let input = inputs.last();
        let output = live_turn(before.state, input).1;
        if let StreamInput::Chunk(chunk) = input {
            if chunk.len() == 0 {
                assert(chunk =~= Seq::empty());
            }
        }
        let buffer = before.state.buffer + unit_buffer::received(input);
        assert(before.read + unit_buffer::received(input) =~= access_unit::joined(before.sent)
            + buffer);
        assert(before.state.buffer + Seq::<u8>::empty() =~= before.state.buffer);
        if access_unit::au_split(buffer) is Some {
            access_unit::split_is_inside(buffer);
        }
        match output {
            StreamOutput::Send(frame) => {
                access_unit::joined_push(before.sent, frame);
                assert(before.sent + seq![frame] =~= before.sent.push(frame));
                assert(buffer =~= frame + run.state.buffer);
                assert(run.read =~= access_unit::joined(run.sent) + run.state.buffer);
            },
            _ => {
                assert(before.sent + Seq::<Seq<u8>>::empty() =~= before.sent);
            },
        }
    } else {
        assert(access_unit::joined(run.sent) =~= Seq::empty());
        assert(run.read =~= access_unit::joined(run.sent) + run.state.buffer);
    }
    assert(run.state.buffer =~= live_waiting(run));
}

/// The loop leaves only for a cause, and for each cause: asked to stop; a read that failed; a unit that
/// the LCD did not take; more than four mebibytes in which no unit is complete; or the end of the
/// stream, once nothing waits or the rest has been handed to the LCD.
pub proof fn live_leaves_for_a_cause(fps_bits: u32, inputs: Seq<StreamInput>)
    requires
        live_inputs(fps_bits, inputs),
        inputs.len() > 0,
    ensures
        ({
            let before = live_run(fps_bits, inputs.drop_last());
            let waiting = live_waiting(before);
            let input = inputs.last();
            let output = live_run(fps_bits, inputs).outputs.last();
            let at_rest = inputs.len() >= 2 && inputs[inputs.len() - 2] is Paced;
            let at_end = inputs.len() >= 2 && inputs[inputs.len() - 2] == StreamInput::Chunk(
                Seq::empty(),
            );
            &&& output == StreamOutput::Exit(StreamEnd::Stopped) <==> input == StreamInput::Halted(
                true,
            )
            &&& output == StreamOutput::Exit(StreamEnd::ReadFailed) <==> input is ReadFailed
            &&& output == StreamOutput::Exit(StreamEnd::SendFailed) <==> input == StreamInput::Sent(
                false,
            ) && !at_rest
            &&& output == StreamOutput::Exit(StreamEnd::NoBoundary) <==> input is Chunk
                && input->Chunk_0.len() > 0 && waiting.len() + input->Chunk_0.len() > 4194304
            &&& output == StreamOutput::Exit(StreamEnd::Finished) <==> (input is Sent && at_rest)
                || (input == StreamInput::Halted(false) && at_end && waiting.len() == 0)
            &&& output != StreamOutput::Exit(StreamEnd::NoUnits)
            &&& output != StreamOutput::Exit(StreamEnd::RewindFailed)
        }),
{
    lemma_live_shows(fps_bits, inputs.drop_last());
    lemma_live_shows(fps_bits, inputs);
}

/// While the loop is not asked to stop and nothing fails, it does not leave before the end of the
/// stream: each complete unit that waits is sent as soon as the one before it has been paced, and only
/// when none waits is more read.
pub proof fn live_goes_on_unless_there_is_a_cause(fps_bits: u32, inputs: Seq<StreamInput>)
    requires
        live_inputs(fps_bits, inputs),
        inputs.len() > 0,
    ensures
        ({
            let before = live_run(fps_bits, inputs.drop_last());
            let input = inputs.last();
            let output = live_run(fps_bits, inputs).outputs.last();
            let waiting = live_waiting(before) + unit_buffer::received(input);
            let last = inputs[inputs.len() - 2];
            let behind_pacing = inputs.len() >= 2 && last is Paced;
            let at_end = inputs.len() >= 2 && last == StreamInput::Chunk(Seq::empty());
            let next = match access_unit::au_split(waiting) {
                Some(at) => StreamOutput::Send(waiting.take(at)),
                None => StreamOutput::PollHalt,
            };
            &&& input is FpsSet ==> output == StreamOutput::PollHalt
            &&& input is Chunk && 0 < input->Chunk_0.len() && waiting.len() <= 4194304 ==> output
                == next
            &&& input is Chunk && input->Chunk_0.len() == 0 ==> output == StreamOutput::PollHalt
            &&& input == StreamInput::Sent(true) && !behind_pacing ==> output == StreamOutput::Pace
            &&& input is Paced ==> output == if last is Sent {
                StreamOutput::PollHalt
            } else {
                StreamOutput::Send(waiting)
            }
            &&& input == StreamInput::Halted(false) && behind_pacing ==> output == next
            &&& input == StreamInput::Halted(false) && at_end && waiting.len() > 0 ==> output
                == StreamOutput::Pace
            &&& input == StreamInput::Halted(false) && !behind_pacing && !at_end ==> output
                == StreamOutput::Read
        }),
{
    let before = live_run(fps_bits, inputs.drop_last());
    lemma_live_shows(fps_bits, inputs.drop_last());
    assert(before.state.buffer + Seq::<u8>::empty() =~= before.state.buffer);
    if let StreamInput::Chunk(chunk) = inputs.last() {
        if chunk.len() == 0 {
            assert(chunk =~= Seq::empty());
        }
    }
    if inputs.len() >= 2 {
        let last = inputs[inputs.len() - 2];
        assert(inputs.drop_last().last() == last);
        if let StreamInput::Chunk(chunk) = last {
            if chunk.len() == 0 {
                assert(chunk =~= Seq::empty());
            }
        }
    }
}

/// A loop that was never asked to stop, whose reads and sends all succeeded, and that never had more than
/// four mebibytes waiting, leaves only when all of the stream has been sent: put together, the frames
/// are what was read.
pub proof fn live_stream_is_sent_whole(fps_bits: u32, inputs: Seq<StreamInput>)
    requires
        live_inputs(fps_bits, inputs),
        forall|i: int| 0 <= i < inputs.len() ==> #[trigger] inputs[i] != StreamInput::Halted(true),
        forall|i: int| 0 <= i < inputs.len() ==> !(#[trigger] inputs[i] is ReadFailed),
        forall|i: int| 0 <= i < inputs.len() ==> #[trigger] inputs[i] != StreamInput::Sent(false),
        live_waiting(live_run(fps_bits, inputs.drop_last())).len() + unit_buffer::received(
            inputs.last(),
        ).len() <= 4194304,
        live_run(fps_bits, inputs).outputs.last() is Exit,
    ensures
        live_run(fps_bits, inputs).outputs.last() == StreamOutput::Exit(StreamEnd::Finished),
        access_unit::joined(live_run(fps_bits, inputs).sent) == live_run(fps_bits, inputs).read,
{
    assert(inputs.len() > 0);
    assert(inputs.last() == inputs[inputs.len() - 1]);
    live_leaves_for_a_cause(fps_bits, inputs);
    live_finish_sends_everything(fps_bits, inputs);
    unit_buffer::whole_frames_make_up_the_data(live_run(fps_bits, inputs).read);
}

/// The loop takes any answer to its last action, and nothing else; once it has left, it takes nothing.
pub proof fn live_takes_the_answer(fps_bits: u32, inputs: Seq<StreamInput>, input: StreamInput)
    requires
        live_inputs(fps_bits, inputs),
    ensures
        live_expects(live_run(fps_bits, inputs).state.phase, input) == match live_run(
            fps_bits,
            inputs,
        ).outputs.last() {
            StreamOutput::SetFps { .. } => input is FpsSet,
            StreamOutput::PollHalt => input is Halted,
            StreamOutput::Read => input is Chunk || input is ReadFailed,
            StreamOutput::Send(_) => input is Sent,
            StreamOutput::Pace => input is Paced,
            StreamOutput::Rewind | StreamOutput::Exit(_) => false,
        },
{
    lemma_live_shows(fps_bits, inputs);
}

} // verus!
