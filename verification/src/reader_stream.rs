//! The loop that feeds an AIO LCD from any reader, on the caller's own thread.
//!
//! Unlike the loops on worker threads, it sends what is left in the buffer also when it is asked
//! to stop, and reports errors to its caller.

use vstd::prelude::*;
use crate::access_unit;
use crate::unit_buffer;
use crate::unit_buffer::{
    StreamAction, StreamEnd, StreamEvent, StreamInput, StreamOutput, UnitBuffer,
};

verus! {

/// What a [`ReaderStream`] waits for.
#[derive(Clone, Copy, Debug, PartialEq, Eq, Structural)]
pub enum ReaderPhase {
    /// At the top of the loop: whether to stop.
    Top,
    /// For bytes of the stream.
    Reading,
    /// For a unit to be sent.
    Sending,
    /// For the next frame's time.
    Pacing,
    /// For the last frame to be sent.
    Flushing,
    /// For nothing: the loop is over.
    Over,
}

/// State of the loop.
pub struct ReaderState {
    pub buffer: Seq<u8>,
    pub phase: ReaderPhase,
}

impl ReaderState {
    /// Leaves the loop.
    pub open spec fn exit(self, end: StreamEnd) -> (ReaderState, StreamOutput) {
        (ReaderState { phase: ReaderPhase::Over, ..self }, StreamOutput::Exit(end))
    }

    /// Sends the first complete unit of the buffer, or goes back to the top of the loop.
    pub open spec fn drain(self) -> (ReaderState, StreamOutput) {
        match access_unit::au_split(self.buffer) {
            Some(at) => (
                ReaderState { buffer: self.buffer.skip(at), phase: ReaderPhase::Sending },
                StreamOutput::Send(self.buffer.take(at)),
            ),
            None => (ReaderState { phase: ReaderPhase::Top, ..self }, StreamOutput::PollHalt),
        }
    }

    /// Sends what is left, if anything is.
    pub open spec fn flush(self) -> (ReaderState, StreamOutput) {
        if self.buffer.len() == 0 {
            self.exit(StreamEnd::Finished)
        } else {
            (
                ReaderState { buffer: Seq::empty(), phase: ReaderPhase::Flushing },
                StreamOutput::Send(self.buffer),
            )
        }
    }
}

/// The inputs that a phase waits for.
pub open spec fn reader_expects(phase: ReaderPhase, input: StreamInput) -> bool {
    match phase {
        ReaderPhase::Top => input is Halted,
        ReaderPhase::Reading => input is Chunk || input is ReadFailed,
        ReaderPhase::Sending | ReaderPhase::Flushing => input is Sent,
        ReaderPhase::Pacing => input is Paced,
        ReaderPhase::Over => false,
    }
}

/// One turn of the loop: what it does on an input, and the state it is in then.
pub open spec fn reader_turn(s: ReaderState, input: StreamInput) -> (ReaderState, StreamOutput) {
    match (s.phase, input) {
        (ReaderPhase::Top, StreamInput::Halted(false)) => (
            ReaderState { phase: ReaderPhase::Reading, ..s },
            StreamOutput::Read,
        ),
        (ReaderPhase::Reading, StreamInput::ReadFailed) => s.exit(StreamEnd::ReadFailed),
        (ReaderPhase::Reading, StreamInput::Chunk(chunk)) => if chunk.len() == 0 {
            s.flush()
        } else {
            ReaderState { buffer: s.buffer + chunk, ..s }.drain()
        },
        (ReaderPhase::Sending, StreamInput::Sent(true)) => (
            ReaderState { phase: ReaderPhase::Pacing, ..s },
            StreamOutput::Pace,
        ),
        (ReaderPhase::Pacing, StreamInput::Paced) => s.drain(),
        (ReaderPhase::Flushing, StreamInput::Sent(true)) => s.exit(StreamEnd::Finished),
        (_, StreamInput::Sent(false)) => s.exit(StreamEnd::SendFailed),
        _ => s.flush(),
    }
}

/// The loop that feeds an AIO LCD from a reader.
///
/// It starts by asking whether to stop. Each action is performed by the caller, whose answer is
/// handed to [`ReaderStream::resume`].
pub struct ReaderStream {
    buffer: UnitBuffer,
    phase: ReaderPhase,
}

impl View for ReaderStream {
    type V = ReaderState;

    closed spec fn view(&self) -> ReaderState {
        ReaderState { buffer: self.buffer@, phase: self.phase }
    }
}

impl ReaderStream {
    /// A loop that has read nothing, with its first action.
    pub fn start() -> (started: (Self, StreamAction))
        ensures
            started.0@ == reader_start().state,
            started.1@ == StreamOutput::PollHalt,
    {
        (ReaderStream { buffer: UnitBuffer::new(), phase: ReaderPhase::Top }, StreamAction::PollHalt)
    }

    fn exit(&mut self, end: StreamEnd) -> (action: StreamAction)
        ensures
            (final(self)@, action@) == old(self)@.exit(end),
    {
        self.phase = ReaderPhase::Over;
        StreamAction::Exit(end)
    }

    fn drain(&mut self) -> (action: StreamAction)
        ensures
            (final(self)@, action@) == old(self)@.drain(),
    {
        match self.buffer.next_unit() {
            Some(unit) => {
                self.phase = ReaderPhase::Sending;
                StreamAction::Send(unit)
            },
            None => {
                self.phase = ReaderPhase::Top;
                StreamAction::PollHalt
            },
        }
    }

    fn flush(&mut self) -> (action: StreamAction)
        ensures
            (final(self)@, action@) == old(self)@.flush(),
    {
        if self.buffer.len() == 0 {
            return self.exit(StreamEnd::Finished);
        }
        self.phase = ReaderPhase::Flushing;
        StreamAction::Send(self.buffer.take_all())
    }

    /// Whether an event can be handed to [`ReaderStream::resume`].
    pub fn can_take(&self, event: &StreamEvent) -> (can: bool)
        ensures
            can == reader_expects(self@.phase, event@),
    {
        match (self.phase, event) {
            (ReaderPhase::Top, StreamEvent::Halted(_))
            | (ReaderPhase::Reading, StreamEvent::Read(_))
            | (ReaderPhase::Sending, StreamEvent::Sent(_))
            | (ReaderPhase::Flushing, StreamEvent::Sent(_))
            | (ReaderPhase::Pacing, StreamEvent::Paced) => true,
            _ => false,
        }
    }

    /// Takes the answer to the last action and gives the next action.
    pub fn resume(&mut self, event: StreamEvent) -> (action: StreamAction)
        requires
            reader_expects(old(self)@.phase, event@),
        ensures
            (final(self)@, action@) == reader_turn(old(self)@, event@),
    {
        match (self.phase, event) {
            (ReaderPhase::Top, StreamEvent::Halted(false)) => {
                self.phase = ReaderPhase::Reading;
                StreamAction::Read
            },
            (ReaderPhase::Reading, StreamEvent::Read(None)) => self.exit(StreamEnd::ReadFailed),
            (ReaderPhase::Reading, StreamEvent::Read(Some(chunk))) => {
                if chunk.len() == 0 {
                    return self.flush();
                }
                self.buffer.append(chunk);
                self.drain()
            },
            (ReaderPhase::Sending, StreamEvent::Sent(true)) => {
                self.phase = ReaderPhase::Pacing;
                StreamAction::Pace
            },
            (ReaderPhase::Pacing, StreamEvent::Paced) => self.drain(),
            (ReaderPhase::Flushing, StreamEvent::Sent(true)) => self.exit(StreamEnd::Finished),
            (_, StreamEvent::Sent(false)) => self.exit(StreamEnd::SendFailed),
            _ => self.flush(),
        }
    }
}

/// A loop together with what it has read and sent so far.
pub struct ReaderRun {
    pub state: ReaderState,
    pub read: Seq<u8>,
    pub sent: Seq<Seq<u8>>,
    pub last: StreamOutput,
}

/// A loop that has read and sent nothing.
pub open spec fn reader_start() -> ReaderRun {
    ReaderRun {
        state: ReaderState { buffer: Seq::empty(), phase: ReaderPhase::Top },
        read: Seq::empty(),
        sent: Seq::empty(),
        last: StreamOutput::PollHalt,
    }
}

/// The loop after the given inputs.
pub open spec fn reader_run(inputs: Seq<StreamInput>) -> ReaderRun
    decreases inputs.len(),
{
    if inputs.len() == 0 {
        reader_start()
    } else {
        let before = reader_run(inputs.drop_last());
        let (state, output) = reader_turn(before.state, inputs.last());
        ReaderRun {
            state,
            read: before.read + unit_buffer::received(inputs.last()),
            sent: before.sent + unit_buffer::frames_of(output),
            last: output,
        }
    }
}

/// Each input is one that the loop waited for.
pub open spec fn reader_inputs(inputs: Seq<StreamInput>) -> bool
    decreases inputs.len(),
{
    inputs.len() > 0 ==> {
        &&& reader_inputs(inputs.drop_last())
        &&& reader_expects(reader_run(inputs.drop_last()).state.phase, inputs.last())
    }
}

/// How the frames sent so far stand to what was read.
pub open spec fn reader_in_step(run: ReaderRun) -> bool {
    let units = access_unit::units(run.read);
    let rest = access_unit::remainder(run.read);
    match run.state.phase {
        ReaderPhase::Top | ReaderPhase::Reading => run.sent == units && run.state.buffer == rest,
        ReaderPhase::Sending | ReaderPhase::Pacing => {
            &&& run.sent + access_unit::units(run.state.buffer) == units
            &&& access_unit::remainder(run.state.buffer) == rest
        },
        ReaderPhase::Flushing => run.sent == unit_buffer::whole_frames(run.read),
        ReaderPhase::Over => {
            &&& run.sent.len() <= unit_buffer::whole_frames(run.read).len()
            &&& run.sent == unit_buffer::whole_frames(run.read).take(run.sent.len() as int)
            &&& run.last == StreamOutput::Exit(StreamEnd::Finished) ==> run.sent == unit_buffer::whole_frames(
                run.read,
            )
        },
    }
}

/// The loop sends the complete access units of what it read in order, each once. If it ends
/// without an error, at the end of the stream or asked to stop, it has sent everything it read;
/// otherwise what it has sent is a prefix of that.
pub proof fn reader_stream_sends_everything(inputs: Seq<StreamInput>)
    requires
        reader_inputs(inputs),
    ensures
        reader_in_step(reader_run(inputs)),
    decreases inputs.len(),
{
    let run = reader_run(inputs);
    assert(access_unit::nals_from(Seq::empty(), 0) =~= Seq::empty());
    let all = unit_buffer::whole_frames(run.read);
    assert(all.take(all.len() as int) =~= all);
    if inputs.len() > 0 {
        let before = reader_run(inputs.drop_last());
        let input = inputs.last();
        reader_stream_sends_everything(inputs.drop_last());
        access_unit::units_ignore_read_sizes(before.read, unit_buffer::received(input));
        assert(before.read + Seq::<u8>::empty() =~= before.read);
        assert(before.sent + Seq::<Seq<u8>>::empty() =~= before.sent);
        let buffer = before.state.buffer + unit_buffer::received(input);
        match before.state.phase {
            ReaderPhase::Top | ReaderPhase::Reading | ReaderPhase::Sending | ReaderPhase::Pacing => {
                assert(before.state.buffer + Seq::<u8>::empty() =~= before.state.buffer);
                assert(all.take(before.sent.len() as int) =~= before.sent);
                match access_unit::au_split(buffer) {
                    Some(at) => {
                        access_unit::split_is_inside(buffer);
                        assert((before.sent + seq![buffer.take(at)]) + access_unit::units(
                            buffer.skip(at),
                        ) =~= before.sent + access_unit::units(buffer));
                    },
                    None => {
                        assert(before.sent + access_unit::units(buffer) =~= before.sent);
                    },
                }
                assert(before.sent + seq![before.state.buffer] =~= before.sent.push(
                    before.state.buffer,
                ));
            },
            _ => {},
        }
    }
}

/// What was read and has not been sent.
pub open spec fn reader_waiting(run: ReaderRun) -> Seq<u8> {
    run.read.skip(access_unit::joined(run.sent).len() as int)
}

/// The input asks for the rest: a stop, or the end of the stream.
spec fn asks_for_the_rest(input: StreamInput) -> bool {
    input == StreamInput::Halted(true) || input == StreamInput::Chunk(Seq::empty())
}

/// The phase shows in the last action and in the input before it, and the buffer is what waits.
proof fn lemma_reader_shows(inputs: Seq<StreamInput>)
    requires
        reader_inputs(inputs),
    ensures
        ({
            let run = reader_run(inputs);
            &&& run.read == access_unit::joined(run.sent) + run.state.buffer
            &&& run.state.buffer == reader_waiting(run)
            &&& match run.state.phase {
                ReaderPhase::Top => run.last is PollHalt,
                ReaderPhase::Reading => run.last is Read,
                ReaderPhase::Sending => run.last is Send && inputs.len() > 0 && match inputs.last() {
                    StreamInput::Paced => true,
                    StreamInput::Chunk(chunk) => chunk.len() > 0,
                    _ => false,
                },
                ReaderPhase::Pacing => run.last is Pace,
                ReaderPhase::Flushing => run.last is Send && inputs.len() > 0 && asks_for_the_rest(
                    inputs.last(),
                ),
                ReaderPhase::Over => run.last is Exit,
            }
        }),
    decreases inputs.len(),
{
    let run = reader_run(inputs);
    if inputs.len() > 0 {
        let front = inputs.drop_last();
        let before = reader_run(front);
        lemma_reader_shows(front);
        let input = inputs.last();
        if let StreamInput::Chunk(chunk) = input {
            if chunk.len() == 0 {
                assert(chunk =~= Seq::empty());
            }
        }
        let buffer = before.state.buffer + unit_buffer::received(input);
        assert(before.read + unit_buffer::received(input) =~= access_unit::joined(before.sent)
            + buffer);
        assert(before.state.buffer + Seq::<u8>::empty() =~= before.state.buffer);
        if access_unit::au_split(buffer) is Some {
            access_unit::split_is_inside(buffer);
        }
        match run.last {
            StreamOutput::Send(frame) => {
                access_unit::joined_push(before.sent, frame);
                assert(before.sent + seq![frame] =~= before.sent.push(frame));
                assert(buffer =~= frame + run.state.buffer);
                assert(run.read =~= access_unit::joined(run.sent) + run.state.buffer);
            },
            _ => {
                assert(before.sent + Seq::<Seq<u8>>::empty() =~= before.sent);
            },
        }
    } else {
        assert(access_unit::joined(run.sent) =~= Seq::empty());
        assert(run.read =~= access_unit::joined(run.sent) + run.state.buffer);
    }
    assert(run.state.buffer =~= reader_waiting(run));
}

/// Each complete unit that waits is sent as soon as the one before it has been paced; when none waits,
/// the loop asks whether to stop, and reads on if it is not to. A stop and the end of the stream have
/// the rest sent, and then the loop has finished. It ends early only where a read or a send failed, and
/// says which.
pub proof fn reader_goes_on_unless_there_is_a_cause(inputs: Seq<StreamInput>)
    requires
        reader_inputs(inputs),
        inputs.len() > 0,
    ensures
        ({
            let input = inputs.last();
            let output = reader_run(inputs).last;
            let waiting = reader_waiting(reader_run(inputs.drop_last())) + unit_buffer::received(
                input,
            );
            let last = inputs[inputs.len() - 2];
            let was_rest = inputs.len() >= 2 && (last == StreamInput::Halted(true) || (
            last is Chunk && last->Chunk_0.len() == 0));
            match input {
                StreamInput::Halted(true) => output == if waiting.len() == 0 {
                    StreamOutput::Exit(StreamEnd::Finished)
                } else {
                    StreamOutput::Send(waiting)
                },
                StreamInput::Halted(false) => output == StreamOutput::Read,
                StreamInput::ReadFailed => output == StreamOutput::Exit(StreamEnd::ReadFailed),
                StreamInput::Sent(false) => output == StreamOutput::Exit(StreamEnd::SendFailed),
                StreamInput::Sent(true) => output == if was_rest {
                    StreamOutput::Exit(StreamEnd::Finished)
                } else {
                    StreamOutput::Pace
                },
                StreamInput::Chunk(chunk) if chunk.len() == 0 => output == if waiting.len() == 0 {
                    StreamOutput::Exit(StreamEnd::Finished)
                } else {
                    StreamOutput::Send(waiting)
                },
                StreamInput::Chunk(_) | StreamInput::Paced => output == match access_unit::au_split(
                    waiting,
                ) {
                    Some(at) => StreamOutput::Send(waiting.take(at)),
                    None => StreamOutput::PollHalt,
                },
                _ => false,
            }
        }),
{
    let before = reader_run(inputs.drop_last());
    lemma_reader_shows(inputs.drop_last());
    assert(before.state.buffer + Seq::<u8>::empty() =~= before.state.buffer);
    if let StreamInput::Chunk(chunk) = inputs.last() {
        if chunk.len() == 0 {
            assert(chunk =~= Seq::empty());
        }
    }
    if inputs.len() >= 2 {
        let last = inputs[inputs.len() - 2];
        assert(inputs.drop_last().last() == last);
        if let StreamInput::Chunk(chunk) = last {
            if chunk.len() == 0 {
                assert(chunk =~= Seq::empty());
            }
        }
    }
}

/// A loop that has finished has sent all that it read: put together, the frames are what was read.
pub proof fn reader_stream_is_sent_whole(inputs: Seq<StreamInput>)
    requires
        reader_inputs(inputs),
        reader_run(inputs).last == StreamOutput::Exit(StreamEnd::Finished),
    ensures
        access_unit::joined(reader_run(inputs).sent) == reader_run(inputs).read,
{
    reader_stream_sends_everything(inputs);
    lemma_reader_shows(inputs);
    unit_buffer::whole_frames_make_up_the_data(reader_run(inputs).read);
}

/// The loop takes any answer to its last action, and nothing else; once it has left, it takes nothing.
pub proof fn reader_takes_the_answer(inputs: Seq<StreamInput>, input: StreamInput)
    requires
        reader_inputs(inputs),
    ensures
        reader_expects(reader_run(inputs).state.phase, input) == match reader_run(inputs).last {
            StreamOutput::PollHalt => input is Halted,
            StreamOutput::Read => input is Chunk || input is ReadFailed,
            StreamOutput::Send(_) => input is Sent,
            StreamOutput::Pace => input is Paced,
            _ => false,
        },
{
    lemma_reader_shows(inputs);
}

} // verus!
