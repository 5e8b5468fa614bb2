//! The loop that feeds a HID LCD from an H.264 file, once or over and over.

use vstd::prelude::*;
use crate::access_unit;
use crate::live_stream::MAX_AU_BYTES;
use crate::unit_buffer;
use crate::unit_buffer::{
    StreamAction, StreamEnd, StreamEvent, StreamInput, StreamOutput, UnitBuffer,
};

verus! {

/// What a [`FileStream`] waits for.
#[derive(Clone, Copy, Debug, PartialEq, Eq, Structural)]
pub enum FilePhase {
    /// For the frame rate to be set.
    Starting,
    /// Before a pass over the file: whether to stop.
    PassTop,
    /// Before a read: whether to stop.
    ReadTop,
    /// For bytes of the file.
    Reading,
    /// Before a unit is sent: whether to stop.
    Draining,
    /// For a unit to be sent.
    Sending,
    /// For the next frame's time.
    Pacing,
    /// At the end of the file: whether to stop.
    Ended,
    /// For the time of the last frame of the pass.
    FlushPacing,
    /// For the last frame of the pass to be sent.
    Flushing,
    /// After a pass of a looping file: whether to stop.
    PassEnd,
    /// For the file to be rewound.
    Rewinding,
    /// For nothing: the loop is over.
    Over,
}

/// State of the loop.
pub struct FileState {
    /// Whether the file is played over and over.
    pub looping: bool,
    pub buffer: Seq<u8>,
    pub phase: FilePhase,
    /// No pass has been completed yet.
    pub first_pass: bool,
    /// A complete access unit has been sent, in any pass.
    pub saw_boundary: bool,
    /// Something has been sent in this pass.
    pub sent_any: bool,
}

impl FileState {
    /// Leaves the loop.
    pub open spec fn exit(self, end: StreamEnd) -> (FileState, StreamOutput) {
        (FileState { phase: FilePhase::Over, ..self }, StreamOutput::Exit(end))
    }

    /// Goes on to `phase`, asking whether to stop.
    pub open spec fn poll(self, phase: FilePhase) -> (FileState, StreamOutput) {
        (FileState { phase, ..self }, StreamOutput::PollHalt)
    }

    /// With a complete unit in the buffer, asks whether to stop before sending it; otherwise goes
    /// on to read.
    pub open spec fn drain(self) -> (FileState, StreamOutput) {
        if access_unit::au_split(self.buffer) is Some {
            self.poll(FilePhase::Draining)
        } else {
            self.poll(FilePhase::ReadTop)
        }
    }

    /// Ends a pass: a file that does not loop is done.
    pub open spec fn end_pass(self) -> (FileState, StreamOutput) {
        if self.looping {
            self.poll(FilePhase::PassEnd)
        } else {
            self.exit(StreamEnd::Finished)
        }
    }

    /// A further pass would only send the same data again or nothing at all.
    pub open spec fn is_fruitless(self) -> bool {
        !self.sent_any || (self.first_pass && !self.saw_boundary)
    }
}

/// The inputs that a phase waits for.
pub open spec fn file_expects(phase: FilePhase, input: StreamInput) -> bool {
    match phase {
        FilePhase::Starting => input is FpsSet,
        FilePhase::PassTop | FilePhase::ReadTop | FilePhase::Draining | FilePhase::Ended
        | FilePhase::PassEnd => input is Halted,
        FilePhase::Reading => input is Chunk || input is ReadFailed,
        FilePhase::Sending | FilePhase::Flushing => input is Sent,
        FilePhase::Pacing | FilePhase::FlushPacing => input is Paced,
        FilePhase::Rewinding => input is Rewound,
        FilePhase::Over => false,
    }
}

/// One turn of the loop: what it does on an input, and the state it is in then.
pub open spec fn file_turn(s: FileState, input: StreamInput) -> (FileState, StreamOutput) {
    match (s.phase, input) {
        (FilePhase::Starting, StreamInput::FpsSet) => s.poll(FilePhase::PassTop),
        (FilePhase::PassTop, StreamInput::Halted(false)) => FileState {
            buffer: Seq::empty(),
            sent_any: false,
            ..s
        }.poll(FilePhase::ReadTop),
        (FilePhase::ReadTop, StreamInput::Halted(false)) => (
            FileState { phase: FilePhase::Reading, ..s },
            StreamOutput::Read,
        ),
        (FilePhase::Reading, StreamInput::ReadFailed) => s.exit(StreamEnd::ReadFailed),
        (FilePhase::Reading, StreamInput::Chunk(chunk)) => {
            let grown = FileState { buffer: s.buffer + chunk, ..s };
            if chunk.len() == 0 {
                s.poll(FilePhase::Ended)
            } else if grown.buffer.len() > MAX_AU_BYTES {
                grown.exit(StreamEnd::NoBoundary)
            } else {
                grown.drain()
            }
        },
        (FilePhase::Draining, StreamInput::Halted(false)) => {
            let at = access_unit::au_split(s.buffer)->0;
            (
                FileState { buffer: s.buffer.skip(at), phase: FilePhase::Sending, ..s },
                StreamOutput::Send(s.buffer.take(at)),
            )
        },
        (FilePhase::Sending, StreamInput::Sent(true)) => (
            FileState { phase: FilePhase::Pacing, saw_boundary: true, sent_any: true, ..s },
            StreamOutput::Pace,
        ),
        (FilePhase::Sending, StreamInput::Sent(false)) => s.exit(StreamEnd::SendFailed),
        (FilePhase::Pacing, StreamInput::Paced) => s.drain(),
        (FilePhase::Ended, StreamInput::Halted(halted)) => if !halted && s.buffer.len() > 0 {
            (FileState { phase: FilePhase::FlushPacing, ..s }, StreamOutput::Pace)
        } else {
            s.end_pass()
        },
        (FilePhase::FlushPacing, StreamInput::Paced) => (
            FileState { buffer: Seq::empty(), phase: FilePhase::Flushing, ..s },
            StreamOutput::Send(s.buffer),
        ),
        (FilePhase::Flushing, StreamInput::Sent(ok)) => FileState {
            sent_any: s.sent_any || ok,
            ..s
        }.end_pass(),
        (FilePhase::PassEnd, StreamInput::Halted(false)) => if s.is_fruitless() {
            s.exit(StreamEnd::NoUnits)
        } else {
            (
                FileState { phase: FilePhase::Rewinding, first_pass: false, ..s },
                StreamOutput::Rewind,
            )
        },
        (FilePhase::Rewinding, StreamInput::Rewound(true)) => s.poll(FilePhase::PassTop),
        (FilePhase::Rewinding, StreamInput::Rewound(false)) => s.exit(StreamEnd::RewindFailed),
        _ => s.exit(StreamEnd::Stopped),
    }
}

/// The loop that feeds a HID LCD from an H.264 file.
///
/// It starts by setting the frame rate. Each action is performed by the caller, whose answer is
/// handed to [`FileStream::resume`].
pub struct FileStream {
    looping: bool,
    buffer: UnitBuffer,
    phase: FilePhase,
    first_pass: bool,
    saw_boundary: bool,
    sent_any: bool,
}

impl View for FileStream {
    type V = FileState;

    closed spec fn view(&self) -> FileState {
        FileState {
            looping: self.looping,
            buffer: self.buffer@,
            phase: self.phase,
            first_pass: self.first_pass,
            saw_boundary: self.saw_boundary,
            sent_any: self.sent_any,
        }
    }
}

impl FileStream {
    /// In the phase where a unit is about to be sent, the buffer holds one.
    pub open spec fn wf(self) -> bool {
        self@.phase == FilePhase::Draining ==> access_unit::au_split(self@.buffer) is Some
    }

    /// A loop that has read nothing, with its first action: to set the frame rate, given as the bits of
    /// a 32-bit float.
    pub fn start(looping: bool, fps_bits: u32) -> (started: (Self, StreamAction))
        ensures
            started.0.wf(),
            started.0@ == file_start(looping, fps_bits).state,
            started.1@ == (StreamOutput::SetFps { fps_bits }),
    {
        let stream = FileStream {
            looping,
            buffer: UnitBuffer::new(),
            phase: FilePhase::Starting,
            first_pass: true,
            saw_boundary: false,
            sent_any: false,
        };
        (stream, StreamAction::SetFps { fps_bits })
    }

    fn exit(&mut self, end: StreamEnd) -> (action: StreamAction)
        ensures
            final(self).wf(),
            (final(self)@, action@) == old(self)@.exit(end),
    {
        self.phase = FilePhase::Over;
        StreamAction::Exit(end)
    }

    fn poll(&mut self, phase: FilePhase) -> (action: StreamAction)
        ensures
            (final(self)@, action@) == old(self)@.poll(phase),
    {
        self.phase = phase;
        StreamAction::PollHalt
    }

    fn drain(&mut self) -> (action: StreamAction)
        ensures
            final(self).wf(),
            (final(self)@, action@) == old(self)@.drain(),
    {
        if self.buffer.has_unit() {
            self.poll(FilePhase::Draining)
        } else {
            self.poll(FilePhase::ReadTop)
        }
    }

    fn end_pass(&mut self) -> (action: StreamAction)
        ensures
            final(self).wf(),
            (final(self)@, action@) == old(self)@.end_pass(),
    {
        if self.looping {
            self.poll(FilePhase::PassEnd)
        } else {
            self.exit(StreamEnd::Finished)
        }
    }

    /// Whether an event can be handed to [`FileStream::resume`].
    pub fn can_take(&self, event: &StreamEvent) -> (can: bool)
        ensures
            can == file_expects(self@.phase, event@),
    {
        match (self.phase, event) {
            (FilePhase::Starting, StreamEvent::FpsSet)
            | (FilePhase::PassTop, StreamEvent::Halted(_))
            | (FilePhase::ReadTop, StreamEvent::Halted(_))
            | (FilePhase::Draining, StreamEvent::Halted(_))
            | (FilePhase::Ended, StreamEvent::Halted(_))
            | (FilePhase::PassEnd, StreamEvent::Halted(_))
            | (FilePhase::Reading, StreamEvent::Read(_))
            | (FilePhase::Sending, StreamEvent::Sent(_))
            | (FilePhase::Flushing, StreamEvent::Sent(_))
            | (FilePhase::Pacing, StreamEvent::Paced)
            | (FilePhase::FlushPacing, StreamEvent::Paced)
            | (FilePhase::Rewinding, StreamEvent::Rewound(_)) => true,
            _ => false,
        }
    }

    /// Takes the answer to the last action and gives the next action.
    pub fn resume(&mut self, event: StreamEvent) -> (action: StreamAction)
        requires
            old(self).wf(),
            file_expects(old(self)@.phase, event@),
        ensures
            final(self).wf(),
            (final(self)@, action@) == file_turn(old(self)@, event@),
    {
        match (self.phase, event) {
            (FilePhase::Starting, StreamEvent::FpsSet) => self.poll(FilePhase::PassTop),
            (FilePhase::PassTop, StreamEvent::Halted(false)) => {
                self.buffer = UnitBuffer::new();
                self.sent_any = false;
                self.poll(FilePhase::ReadTop)
            },
            (FilePhase::ReadTop, StreamEvent::Halted(false)) => {
                self.phase = FilePhase::Reading;
                StreamAction::Read
            },
            (FilePhase::Reading, StreamEvent::Read(None)) => self.exit(StreamEnd::ReadFailed),
            (FilePhase::Reading, StreamEvent::Read(Some(chunk))) => {
                if chunk.len() == 0 {
                    return self.poll(FilePhase::Ended);
                }
                self.buffer.append(chunk);
                if self.buffer.len() > MAX_AU_BYTES {
                    return self.exit(StreamEnd::NoBoundary);
                }
                self.drain()
            },
            (FilePhase::Draining, StreamEvent::Halted(false)) => {
                self.phase = FilePhase::Sending;
                StreamAction::Send(self.buffer.next_unit().unwrap())
            },
            (FilePhase::Sending, StreamEvent::Sent(true)) => {
                self.saw_boundary = true;
                self.sent_any = true;
                self.phase = FilePhase::Pacing;
                StreamAction::Pace
            },
            (FilePhase::Sending, StreamEvent::Sent(false)) => self.exit(StreamEnd::SendFailed),
            (FilePhase::Pacing, StreamEvent::Paced) => self.drain(),
            (FilePhase::Ended, StreamEvent::Halted(halted)) => {
                if !halted && self.buffer.len() > 0 {
                    self.phase = FilePhase::FlushPacing;
                    return StreamAction::Pace;
                }
                self.end_pass()
            },
            (FilePhase::FlushPacing, StreamEvent::Paced) => {
                self.phase = FilePhase::Flushing;
                StreamAction::Send(self.buffer.take_all())
            },
            (FilePhase::Flushing, StreamEvent::Sent(ok)) => {
                self.sent_any = self.sent_any || ok;
                self.end_pass()
            },
            (FilePhase::PassEnd, StreamEvent::Halted(false)) => {
                if !self.sent_any || (self.first_pass && !self.saw_boundary) {
                    return self.exit(StreamEnd::NoUnits);
                }
                self.first_pass = false;
                self.phase = FilePhase::Rewinding;
                StreamAction::Rewind
            },
            (FilePhase::Rewinding, StreamEvent::Rewound(true)) => self.poll(FilePhase::PassTop),
            (FilePhase::Rewinding, StreamEvent::Rewound(false)) => {
                self.exit(StreamEnd::RewindFailed)
            },
            _ => self.exit(StreamEnd::Stopped),
        }
    }
}

/// A loop together with what it has read and sent in the current pass.
pub struct FileRun {
    pub state: FileState,
    pub read: Seq<u8>,
    pub sent: Seq<Seq<u8>>,
    /// A stop was asked for at the end of the file in the current pass.
    pub cut: bool,
    /// All that it has done, in all passes.
    pub outputs: Seq<StreamOutput>,
}

/// A loop that has read and sent nothing.
pub open spec fn file_start(looping: bool, fps_bits: u32) -> FileRun {
    FileRun {
        state: FileState {
            looping,
            buffer: Seq::empty(),
            phase: FilePhase::Starting,
            first_pass: true,
            saw_boundary: false,
            sent_any: false,
        },
        read: Seq::empty(),
        sent: Seq::empty(),
        cut: false,
        outputs: seq![StreamOutput::SetFps { fps_bits }],
    }
}

/// The loop after one more input. A new pass starts its books anew.
pub open spec fn file_step(before: FileRun, input: StreamInput) -> FileRun {
    let (state, output) = file_turn(before.state, input);
    let outputs = before.outputs.push(output);
    if before.state.phase == FilePhase::PassTop {
        FileRun { state, read: Seq::empty(), sent: Seq::empty(), cut: false, outputs }
    } else {
        FileRun {
            state,
            read: before.read + unit_buffer::received(input),
            sent: before.sent + unit_buffer::frames_of(output),
            cut: before.cut || (before.state.phase == FilePhase::Ended && input
                == StreamInput::Halted(true)),
            outputs,
        }
    }
}

/// The loop after the given inputs.
pub open spec fn file_run(looping: bool, fps_bits: u32, inputs: Seq<StreamInput>) -> FileRun
    decreases inputs.len(),
{
    if inputs.len() == 0 {
        file_start(looping, fps_bits)
    } else {
        file_step(file_run(looping, fps_bits, inputs.drop_last()), inputs.last())
    }
}

/// Each input is one that the loop waited for.
pub open spec fn file_inputs(looping: bool, fps_bits: u32, inputs: Seq<StreamInput>) -> bool
    decreases inputs.len(),
{
    inputs.len() > 0 ==> {
        &&& file_inputs(looping, fps_bits, inputs.drop_last())
        &&& file_expects(file_run(looping, fps_bits, inputs.drop_last()).state.phase, inputs.last())
    }
}

/// What a pass that has come to the end of the file has sent: the complete access units, and then the
/// rest, if there is any and no stop was asked for there.
pub open spec fn pass_frames(run: FileRun) -> Seq<Seq<u8>> {
    if run.cut {
        access_unit::units(run.read)
    } else {
        unit_buffer::whole_frames(run.read)
    }
}

/// How the frames sent in a pass stand to what was read in it.
pub open spec fn file_in_step(run: FileRun) -> bool {
    let units = access_unit::units(run.read);
    let rest = access_unit::remainder(run.read);
    match run.state.phase {
        FilePhase::ReadTop | FilePhase::Reading | FilePhase::Ended => {
            &&& run.sent == units
            &&& run.state.buffer == rest
            &&& !run.cut
        },
        FilePhase::FlushPacing => {
            &&& run.sent == units
            &&& run.state.buffer == rest
            &&& rest.len() > 0
            &&& !run.cut
        },
        FilePhase::Draining | FilePhase::Sending | FilePhase::Pacing => {
            &&& run.sent + access_unit::units(run.state.buffer) == units
            &&& access_unit::remainder(run.state.buffer) == rest
            &&& !run.cut
        },
        FilePhase::Flushing => run.sent == unit_buffer::whole_frames(run.read) && !run.cut,
        FilePhase::Starting
        | FilePhase::PassTop
        | FilePhase::PassEnd
        | FilePhase::Rewinding => run.sent == pass_frames(run),
        FilePhase::Over => {
            &&& run.sent.len() <= unit_buffer::whole_frames(run.read).len()
            &&& run.sent == unit_buffer::whole_frames(run.read).take(run.sent.len() as int)
            &&& run.outputs.last() == StreamOutput::Exit(StreamEnd::Finished) ==> run.sent
                == pass_frames(run)
        },
    }
}

/// A unit is about to be sent only if there is one.
spec fn has_unit_when_draining(state: FileState) -> bool {
    state.phase == FilePhase::Draining ==> access_unit::au_split(state.buffer) is Some
}

proof fn lemma_frames_prefix(read: Seq<u8>)
    ensures
        ({
            let all = unit_buffer::whole_frames(read);
            let units = access_unit::units(read);
            &&& units.len() <= all.len()
            &&& all.take(units.len() as int) == units
            &&& all.take(all.len() as int) == all
            &&& forall|n: int|
                0 <= n <= units.len() ==> #[trigger] all.take(n) == units.take(n)
        }),
{
    let all = unit_buffer::whole_frames(read);
    let units = access_unit::units(read);
    assert(all.take(units.len() as int) =~= units);
    assert(all.take(all.len() as int) =~= all);
    assert forall|n: int| 0 <= n <= units.len() implies #[trigger] all.take(n) == units.take(n) by {
        assert(all.take(n) =~= units.take(n));
    }
}

/// A step that reads keeps step.
proof fn lemma_reading_step(before: FileRun, input: StreamInput)
    requires
        before.state.phase == FilePhase::Reading,
        file_in_step(before),
        file_expects(before.state.phase, input),
    ensures
        file_in_step(file_step(before, input)),
        has_unit_when_draining(file_step(before, input).state),
{
    let run = file_step(before, input);
    access_unit::units_ignore_read_sizes(before.read, unit_buffer::received(input));
    assert(before.read + Seq::<u8>::empty() =~= before.read);
    assert(before.sent + Seq::<Seq<u8>>::empty() =~= before.sent);
    lemma_frames_prefix(run.read);
    let units = access_unit::units(run.read);
    if let StreamInput::Chunk(chunk) = input {
        if chunk.len() > 0 {
            let grown = before.state.buffer + chunk;
            assert(units.take(before.sent.len() as int) =~= before.sent);
            if access_unit::au_split(grown) is None {
                assert(before.sent + access_unit::units(grown) =~= before.sent);
            }
        }
    } else {
        assert(units.take(before.sent.len() as int) =~= before.sent);
    }
}

/// A step between two reads keeps step.
proof fn lemma_draining_step(before: FileRun, input: StreamInput)
    requires
        before.state.phase == FilePhase::Draining || before.state.phase == FilePhase::Sending
            || before.state.phase == FilePhase::Pacing,
        file_in_step(before),
        has_unit_when_draining(before.state),
        file_expects(before.state.phase, input),
    ensures
        file_in_step(file_step(before, input)),
        has_unit_when_draining(file_step(before, input).state),
{
    let run = file_step(before, input);
    let buffer = before.state.buffer;
    assert(before.read + Seq::<u8>::empty() =~= before.read);
    assert(before.sent + Seq::<Seq<u8>>::empty() =~= before.sent);
    lemma_frames_prefix(run.read);
    let units = access_unit::units(run.read);
    assert(units.take(before.sent.len() as int) =~= before.sent);
    match access_unit::au_split(buffer) {
        Some(at) => {
            access_unit::split_is_inside(buffer);
            assert((before.sent + seq![buffer.take(at)]) + access_unit::units(buffer.skip(at))
                =~= before.sent + access_unit::units(buffer));
        },
        None => {
            assert(before.sent + access_unit::units(buffer) =~= before.sent);
        },
    }
}

/// Any other step keeps step.
proof fn lemma_other_step(before: FileRun, input: StreamInput)
    requires
        before.state.phase != FilePhase::Reading,
        before.state.phase != FilePhase::Draining,
        before.state.phase != FilePhase::Sending,
        before.state.phase != FilePhase::Pacing,
        file_in_step(before),
        file_expects(before.state.phase, input),
    ensures
        file_in_step(file_step(before, input)),
        has_unit_when_draining(file_step(before, input).state),
{
    let run = file_step(before, input);
    assert(access_unit::nals_from(Seq::empty(), 0) =~= Seq::empty());
    assert(before.read + Seq::<u8>::empty() =~= before.read);
    assert(before.sent + Seq::<Seq<u8>>::empty() =~= before.sent);
    lemma_frames_prefix(run.read);
    let units = access_unit::units(run.read);
    assert(units.take(0) =~= Seq::empty());
    assert(units.take(units.len() as int) =~= units);
    if before.state.phase == FilePhase::FlushPacing {
        assert(run.sent =~= unit_buffer::whole_frames(run.read));
    }
}

/// In every pass over the file, the loop sends the complete access units in order, each once, and
/// then the rest; and whenever it leaves, what it has sent in that pass is a prefix of that.
pub proof fn file_stream_sends_units_in_order(
    looping: bool,
    fps_bits: u32,
    inputs: Seq<StreamInput>,
)
    requires
        file_inputs(looping, fps_bits, inputs),
    ensures
        file_in_step(file_run(looping, fps_bits, inputs)),
        file_run(looping, fps_bits, inputs).state.phase == FilePhase::Draining
            ==> access_unit::au_split(file_run(looping, fps_bits, inputs).state.buffer) is Some,
    decreases inputs.len(),
{
    if inputs.len() > 0 {
        let before = file_run(looping, fps_bits, inputs.drop_last());
        file_stream_sends_units_in_order(looping, fps_bits, inputs.drop_last());
        match before.state.phase {
            FilePhase::Reading => lemma_reading_step(before, inputs.last()),
            FilePhase::Draining | FilePhase::Sending | FilePhase::Pacing => lemma_draining_step(
                before,
                inputs.last(),
            ),
            _ => lemma_other_step(before, inputs.last()),
        }
    } else {
        assert(access_unit::nals_from(Seq::empty(), 0) =~= Seq::empty());
    }
}

/// A file is played again only if it loops and a complete access unit of it has been sent: a file
/// without a boundary would otherwise have the same data sent forever.
pub proof fn file_rewinds_only_with_units(looping: bool, fps_bits: u32, inputs: Seq<StreamInput>)
    requires
        file_inputs(looping, fps_bits, inputs),
    ensures
        file_run(looping, fps_bits, inputs).state.looping == looping,
        file_run(looping, fps_bits, inputs).state.phase == FilePhase::Rewinding ==> looping && file_run(looping, fps_bits, inputs).state.saw_boundary,
        !file_run(looping, fps_bits, inputs).state.first_pass ==> file_run(looping, fps_bits, inputs).state.saw_boundary,
        file_run(looping, fps_bits, inputs).state.phase == FilePhase::PassEnd ==> looping,
    decreases inputs.len(),
{
    if inputs.len() > 0 {
        file_rewinds_only_with_units(looping, fps_bits, inputs.drop_last());
    }
}

/// A pass that has come to the end of the file, without a stop there, has sent all of the file: the
/// complete access units, and then the rest, if there is any. That holds at the end of every pass of a
/// looping file, and of a loop that has finished. With a stop at the end of the file it has sent the
/// complete access units.
pub proof fn file_pass_sends_everything(looping: bool, fps_bits: u32, inputs: Seq<StreamInput>)
    requires
        file_inputs(looping, fps_bits, inputs),
        ({
            let run = file_run(looping, fps_bits, inputs);
            run.state.phase == FilePhase::PassEnd || run.outputs.last() == StreamOutput::Exit(
                StreamEnd::Finished,
            )
        }),
    ensures
        ({
            let run = file_run(looping, fps_bits, inputs);
            run.sent == if run.cut {
                access_unit::units(run.read)
            } else {
                unit_buffer::whole_frames(run.read)
            }
        }),
{
    file_stream_sends_units_in_order(looping, fps_bits, inputs);
    assert(inputs.len() > 0);
}

/// The frame rate is set once, before anything else is done; so no frame of any pass is sent without
/// it.
pub proof fn file_frame_rate_comes_first(looping: bool, fps_bits: u32, inputs: Seq<StreamInput>)
    requires
        file_inputs(looping, fps_bits, inputs),
    ensures
        ({
            let outputs = file_run(looping, fps_bits, inputs).outputs;
            &&& outputs.len() == inputs.len() + 1
            &&& outputs[0] == (StreamOutput::SetFps { fps_bits })
            &&& forall|i: int| 1 <= i < outputs.len() ==> !(#[trigger] outputs[i] is SetFps)
        }),
    decreases inputs.len(),
{
    if inputs.len() > 0 {
        file_frame_rate_comes_first(looping, fps_bits, inputs.drop_last());
        let before = file_run(looping, fps_bits, inputs.drop_last()).outputs;
        let outputs = file_run(looping, fps_bits, inputs).outputs;
        assert(forall|i: int| 0 <= i < before.len() ==> outputs[i] == before[i]);
    }
}

/// What was read in the current pass and has not been sent.
pub open spec fn file_waiting(run: FileRun) -> Seq<u8> {
    run.read.skip(access_unit::joined(run.sent).len() as int)
}

/// The LCD has taken a frame since the file was last rewound.
pub open spec fn taken_in_pass(inputs: Seq<StreamInput>) -> bool
    decreases inputs.len(),
{
    inputs.len() > 0 && match inputs.last() {
        StreamInput::Sent(true) => true,
        StreamInput::Rewound(_) => false,
        _ => taken_in_pass(inputs.drop_last()),
    }
}

/// The LCD has taken a complete access unit: one that was sent when a stop was asked about, and not
/// paced first like the rest of a pass.
pub open spec fn unit_taken(inputs: Seq<StreamInput>) -> bool {
    exists|i: int|
        1 <= i < inputs.len() && #[trigger] inputs[i] == StreamInput::Sent(true) && inputs[i
            - 1] is Halted
}

/// The file has not been rewound.
pub open spec fn never_rewound(inputs: Seq<StreamInput>) -> bool {
    forall|i: int| 0 <= i < inputs.len() ==> !(#[trigger] inputs[i] is Rewound)
}

/// The last read came to the end of the file.
spec fn came_to_the_end(inputs: Seq<StreamInput>) -> bool {
    inputs.len() > 0 && inputs.last() == StreamInput::Chunk(Seq::empty())
}

proof fn lemma_histories(inputs: Seq<StreamInput>)
    requires
        inputs.len() > 0,
    ensures
        unit_taken(inputs) == (unit_taken(inputs.drop_last()) || (inputs.len() >= 2
            && inputs.last() == StreamInput::Sent(true) && inputs[inputs.len() - 2] is Halted)),
        never_rewound(inputs) == (never_rewound(inputs.drop_last()) && !(inputs.last() is Rewound)),
{
    let front = inputs.drop_last();
    assert(forall|i: int| 0 <= i < front.len() ==> front[i] == inputs[i]);
    if unit_taken(front) {
        let i = choose|i: int|
            1 <= i < front.len() && #[trigger] front[i] == StreamInput::Sent(true) && front[i
                - 1] is Halted;
        assert(inputs[i] == StreamInput::Sent(true) && inputs[i - 1] is Halted);
    }
    if inputs.len() >= 2 && inputs.last() == StreamInput::Sent(true) && inputs[inputs.len()
        - 2] is Halted {
        let i = inputs.len() - 1;
        assert(inputs[i] == StreamInput::Sent(true) && inputs[i - 1] is Halted);
    }
    if unit_taken(inputs) {
        let i = choose|i: int|
            1 <= i < inputs.len() && #[trigger] inputs[i] == StreamInput::Sent(true) && inputs[i
                - 1] is Halted;
        if i < front.len() {
            assert(front[i] == StreamInput::Sent(true) && front[i - 1] is Halted);
        }
    }
    if never_rewound(front) && !(inputs.last() is Rewound) {
        assert forall|i: int| 0 <= i < inputs.len() implies !(#[trigger] inputs[i] is Rewound) by {
            if i < front.len() {
                assert(!(front[i] is Rewound));
            }
        }
    }
    if never_rewound(inputs) {
        assert(!(inputs[inputs.len() - 1] is Rewound));
        assert forall|i: int| 0 <= i < front.len() implies !(#[trigger] front[i] is Rewound) by {
            assert(!(inputs[i] is Rewound));
        }
    }
}

/// A step keeps the buffer what waits.
proof fn lemma_waiting_step(before: FileRun, input: StreamInput)
    requires
        before.state.phase != FilePhase::Over,
        before.read == access_unit::joined(before.sent) + before.state.buffer,
        has_unit_when_draining(before.state),
        file_expects(before.state.phase, input),
        file_step(before, input).state.phase != FilePhase::Over,
    ensures
        file_step(before, input).read == access_unit::joined(file_step(before, input).sent)
            + file_step(before, input).state.buffer,
{
    let run = file_step(before, input);
    let buffer = before.state.buffer + unit_buffer::received(input);
    let sent = access_unit::joined(before.sent);
    assert(before.state.buffer + Seq::<u8>::empty() =~= before.state.buffer);
    assert(before.read + unit_buffer::received(input) =~= sent + buffer);
    assert(before.sent + Seq::<Seq<u8>>::empty() =~= before.sent);
    if before.state.phase == FilePhase::PassTop {
        assert(access_unit::joined(Seq::<Seq<u8>>::empty()) =~= Seq::empty());
        assert(run.read =~= access_unit::joined(run.sent) + run.state.buffer);
    } else if before.state.phase == FilePhase::Draining || before.state.phase
        == FilePhase::FlushPacing {
        let frame = file_turn(before.state, input).1->Send_0;
        if before.state.phase == FilePhase::Draining {
            access_unit::split_is_inside(before.state.buffer);
        }
        access_unit::joined_push(before.sent, frame);
        assert(before.sent + seq![frame] =~= before.sent.push(frame));
        assert(buffer =~= frame + run.state.buffer);
        assert(run.read =~= (sent + frame) + run.state.buffer);
    } else {
        if let StreamInput::Chunk(chunk) = input {
            if chunk.len() == 0 {
                assert(chunk =~= Seq::empty());
            }
        }
        assert(run.state.buffer == buffer);
    }
}

/// The buffer is what waits.
proof fn lemma_file_waiting(looping: bool, fps_bits: u32, inputs: Seq<StreamInput>)
    requires
        file_inputs(looping, fps_bits, inputs),
        file_run(looping, fps_bits, inputs).state.phase != FilePhase::Over,
    ensures
        file_run(looping, fps_bits, inputs).read == access_unit::joined(
            file_run(looping, fps_bits, inputs).sent,
        ) + file_run(looping, fps_bits, inputs).state.buffer,
        file_run(looping, fps_bits, inputs).state.buffer == file_waiting(
            file_run(looping, fps_bits, inputs),
        ),
    decreases inputs.len(),
{
    let run = file_run(looping, fps_bits, inputs);
    if inputs.len() > 0 {
        let front = inputs.drop_last();
        let before = file_run(looping, fps_bits, front);
        assert(before.state.phase != FilePhase::Over);
        lemma_file_waiting(looping, fps_bits, front);
        file_stream_sends_units_in_order(looping, fps_bits, front);
        lemma_waiting_step(before, inputs.last());
    } else {
        assert(access_unit::joined(run.sent) =~= Seq::empty());
        assert(run.read =~= access_unit::joined(run.sent) + run.state.buffer);
    }
    assert(run.state.buffer =~= run.read.skip(access_unit::joined(run.sent).len() as int));
}

/// The phase shows in the last action and in the inputs before it.
spec fn file_shows(run: FileRun, looping: bool, inputs: Seq<StreamInput>) -> bool {
    let last = run.outputs.last();
    let input = inputs.last();
    let unit = access_unit::au_split(run.state.buffer) is Some;
    &&& run.outputs.len() == inputs.len() + 1
    &&& run.state.looping == looping
    &&& run.state.phase != FilePhase::Starting ==> inputs.len() > 0
    &&& match run.state.phase {
        FilePhase::Starting => last is SetFps && inputs.len() == 0,
        FilePhase::PassTop => last is PollHalt && (input is FpsSet || input is Rewound),
        FilePhase::ReadTop => last is PollHalt && match input {
            StreamInput::Halted(false) => inputs.len() >= 2 && !came_to_the_end(inputs.drop_last()),
            StreamInput::Paced => !unit,
            StreamInput::Chunk(chunk) => chunk.len() > 0 && !unit,
            _ => false,
        },
        FilePhase::Draining => last is PollHalt && unit && match input {
            StreamInput::Paced => true,
            StreamInput::Chunk(chunk) => chunk.len() > 0,
            _ => false,
        },
        FilePhase::Reading => last is Read,
        FilePhase::Sending => last is Send && input == StreamInput::Halted(false),
        FilePhase::Pacing => last is Pace && input == StreamInput::Sent(true),
        FilePhase::Ended => last is PollHalt && came_to_the_end(inputs),
        FilePhase::FlushPacing => last is Pace && input == StreamInput::Halted(false),
        FilePhase::Flushing => last is Send && input is Paced,
        FilePhase::PassEnd => last is PollHalt && looping && (input is Sent || (input is Halted
            && came_to_the_end(inputs.drop_last()))),
        FilePhase::Rewinding => last is Rewind,
        FilePhase::Over => last is Exit,
    }
}

#[verifier::rlimit(40)]
proof fn lemma_shows_step(before: FileRun, looping: bool, inputs: Seq<StreamInput>)
    requires
        inputs.len() > 0,
        file_shows(before, looping, inputs.drop_last()),
        file_expects(before.state.phase, inputs.last()),
    ensures
        file_shows(file_step(before, inputs.last()), looping, inputs),
{
    let input = inputs.last();
    let run = file_step(before, input);
    if let StreamInput::Chunk(chunk) = input {
        if chunk.len() == 0 {
            assert(chunk =~= Seq::empty());
        }
    }
    match before.state.phase {
        FilePhase::Starting => {},
        FilePhase::PassTop => {},
        FilePhase::ReadTop => {},
        FilePhase::Reading => {},
        FilePhase::Draining => {},
        FilePhase::Sending => {},
        FilePhase::Pacing => {},
        FilePhase::Ended => {},
        FilePhase::FlushPacing => {},
        FilePhase::Flushing => {},
        FilePhase::PassEnd => {},
        FilePhase::Rewinding => {},
        FilePhase::Over => {},
    }
}

proof fn lemma_file_shows(looping: bool, fps_bits: u32, inputs: Seq<StreamInput>)
    requires
        file_inputs(looping, fps_bits, inputs),
    ensures
        file_shows(file_run(looping, fps_bits, inputs), looping, inputs),
    decreases inputs.len(),
{
    if inputs.len() > 0 {
        let front = inputs.drop_last();
        lemma_file_shows(looping, fps_bits, front);
        lemma_shows_step(file_run(looping, fps_bits, front), looping, inputs);
    }
}

/// What was taken in the pass, whether a unit was taken, and whether it is the first pass.
proof fn lemma_file_books(looping: bool, fps_bits: u32, inputs: Seq<StreamInput>)
    requires
        file_inputs(looping, fps_bits, inputs),
    ensures
        ({
            let state = file_run(looping, fps_bits, inputs).state;
            &&& state.saw_boundary == unit_taken(inputs)
            &&& state.phase == FilePhase::Over || state.phase == FilePhase::Rewinding
                || state.first_pass == never_rewound(inputs)
            &&& state.phase == FilePhase::Rewinding ==> !state.first_pass
            &&& match state.phase {
                FilePhase::Over | FilePhase::Rewinding => true,
                FilePhase::PassTop => !taken_in_pass(inputs),
                _ => state.sent_any == taken_in_pass(inputs),
            }
        }),
    decreases inputs.len(),
{
    if inputs.len() > 0 {
        let front = inputs.drop_last();
        lemma_file_books(looping, fps_bits, front);
        lemma_file_shows(looping, fps_bits, front);
        lemma_histories(inputs);
        if front.len() > 0 {
            assert(front.last() == inputs[inputs.len() - 2]);
        }
    }
}

/// The loop leaves only for a cause, and for each cause: asked to stop anywhere but at the end of the
/// file; a read that failed; a unit that the LCD did not take; more than four mebibytes in which no unit
/// is complete; a file that cannot be rewound; the end of a file that does not loop; and the end of a
/// pass that makes another one pointless, because the LCD has taken nothing in it, or because it was the
/// first one and the LCD has taken no complete unit.
#[verifier::rlimit(40)]
pub proof fn file_leaves_for_a_cause(looping: bool, fps_bits: u32, inputs: Seq<StreamInput>)
    requires
        file_inputs(looping, fps_bits, inputs),
        inputs.len() > 0,
    ensures
        ({
            let front = inputs.drop_last();
            let waiting = file_waiting(file_run(looping, fps_bits, front));
            let input = inputs.last();
            let output = file_run(looping, fps_bits, inputs).outputs.last();
            let n = inputs.len();
            let at_rest = n >= 2 && inputs[n - 2] is Paced;
            let at_end = n >= 2 && inputs[n - 2] == StreamInput::Chunk(Seq::empty());
            let behind_pass = n >= 2 && (inputs[n - 2] is Sent || (n >= 3 && inputs[n
                - 2] is Halted && inputs[n - 3] == StreamInput::Chunk(Seq::empty())));
            let pointless = !taken_in_pass(front) || (never_rewound(front) && !unit_taken(front));
            &&& output == StreamOutput::Exit(StreamEnd::Stopped) <==> input == StreamInput::Halted(
                true,
            ) && !at_end
            &&& output == StreamOutput::Exit(StreamEnd::ReadFailed) <==> input is ReadFailed
            &&& output == StreamOutput::Exit(StreamEnd::SendFailed) <==> input == StreamInput::Sent(
                false,
            ) && !at_rest
            &&& output == StreamOutput::Exit(StreamEnd::NoBoundary) <==> input is Chunk
                && input->Chunk_0.len() > 0 && waiting.len() + input->Chunk_0.len() > 4194304
            &&& output == StreamOutput::Exit(StreamEnd::RewindFailed) <==> input
                == StreamInput::Rewound(false)
            &&& output == StreamOutput::Exit(StreamEnd::Finished) <==> !looping && ((input is Sent
                && at_rest) || (input is Halted && at_end && (input->Halted_0 || waiting.len()
                == 0)))
            &&& output == StreamOutput::Exit(StreamEnd::NoUnits) <==> input == StreamInput::Halted(
                false,
            ) && behind_pass && pointless
        }),
{
    let front = inputs.drop_last();
    lemma_file_shows(looping, fps_bits, front);
    lemma_file_books(looping, fps_bits, front);
    lemma_file_waiting(looping, fps_bits, front);
    lemma_last_inputs(inputs);
}

proof fn lemma_last_inputs(inputs: Seq<StreamInput>)
    requires
        inputs.len() > 0,
    ensures
        inputs.len() >= 2 ==> inputs.drop_last().last() == inputs[inputs.len() - 2],
        inputs.len() >= 3 ==> inputs.drop_last().drop_last().last() == inputs[inputs.len() - 3],
        forall|i: int|
            0 <= i < inputs.len() && inputs[i] is Chunk && inputs[i]->Chunk_0.len() == 0
                ==> #[trigger] inputs[i] == StreamInput::Chunk(Seq::empty()),
{
    assert forall|i: int|
        0 <= i < inputs.len() && inputs[i] is Chunk && inputs[i]->Chunk_0.len()
            == 0 implies #[trigger] inputs[i] == StreamInput::Chunk(Seq::empty()) by {
        assert(inputs[i]->Chunk_0 =~= Seq::empty());
    }
}

/// While there is no cause to leave, the loop goes on: a complete unit that waits is sent after one
/// question, and only when none waits is more read; each unit taken is paced; at the end of the file the
/// rest is paced and sent; and behind a pass of a looping file comes the next one from its start.
#[verifier::rlimit(40)]
pub proof fn file_goes_on_unless_there_is_a_cause(
    looping: bool,
    fps_bits: u32,
    inputs: Seq<StreamInput>,
)
    requires
        file_inputs(looping, fps_bits, inputs),
        inputs.len() > 0,
    ensures
        ({
            let front = inputs.drop_last();
            let waiting = file_waiting(file_run(looping, fps_bits, front));
            let input = inputs.last();
            let output = file_run(looping, fps_bits, inputs).outputs.last();
            let n = inputs.len();
            let last = inputs[n - 2];
            let at_rest = n >= 2 && last is Paced;
            let at_end = n >= 2 && last == StreamInput::Chunk(Seq::empty());
            let in_pass = n >= 2 && (last is Paced || (last is Chunk && last->Chunk_0.len() > 0));
            let before_pass = n >= 2 && (last is FpsSet || last is Rewound);
            let behind_pass = n >= 2 && (last is Sent || (n >= 3 && last is Halted && inputs[n - 3]
                == StreamInput::Chunk(Seq::empty())));
            let pointless = !taken_in_pass(front) || (never_rewound(front) && !unit_taken(front));
            &&& input is FpsSet || input == StreamInput::Rewound(true) ==> output
                == StreamOutput::PollHalt
            &&& input is Chunk && (input->Chunk_0.len() == 0 || waiting.len()
                + input->Chunk_0.len() <= 4194304) ==> output == StreamOutput::PollHalt
            &&& input == StreamInput::Sent(true) && !at_rest ==> output == StreamOutput::Pace
            &&& input is Sent && at_rest && looping ==> output == StreamOutput::PollHalt
            &&& input is Paced ==> output == if last is Sent {
                StreamOutput::PollHalt
            } else {
                StreamOutput::Send(waiting)
            }
            &&& input == StreamInput::Halted(true) && at_end && looping ==> output
                == StreamOutput::PollHalt
            &&& input == StreamInput::Halted(false) && before_pass ==> output
                == StreamOutput::PollHalt
            &&& input == StreamInput::Halted(false) && in_pass ==> output
                == match access_unit::au_split(waiting) {
                Some(at) => StreamOutput::Send(waiting.take(at)),
                None => StreamOutput::Read,
            }
            &&& input == StreamInput::Halted(false) && at_end && waiting.len() > 0 ==> output
                == StreamOutput::Pace
            &&& input == StreamInput::Halted(false) && at_end && waiting.len() == 0 && looping
                ==> output == StreamOutput::PollHalt
            &&& input == StreamInput::Halted(false) && behind_pass && !pointless ==> output
                == StreamOutput::Rewind
            &&& input == StreamInput::Halted(false) && n >= 2 && last is Halted && !behind_pass
                ==> output == StreamOutput::Read
        }),
{
    let front = inputs.drop_last();
    lemma_file_shows(looping, fps_bits, front);
    lemma_file_books(looping, fps_bits, front);
    lemma_file_waiting(looping, fps_bits, front);
    lemma_last_inputs(inputs);
}

/// The loop takes any answer to its last action, and nothing else; once it has left, it takes nothing.
pub proof fn file_takes_the_answer(
    looping: bool,
    fps_bits: u32,
    inputs: Seq<StreamInput>,
    input: StreamInput,
)
    requires
        file_inputs(looping, fps_bits, inputs),
    ensures
        file_expects(file_run(looping, fps_bits, inputs).state.phase, input) == match file_run(
            looping,
            fps_bits,
            inputs,
        ).outputs.last() {
            StreamOutput::SetFps { .. } => input is FpsSet,
            StreamOutput::PollHalt => input is Halted,
            StreamOutput::Read => input is Chunk || input is ReadFailed,
            StreamOutput::Send(_) => input is Sent,
            StreamOutput::Pace => input is Paced,
            StreamOutput::Rewind => input is Rewound,
            StreamOutput::Exit(_) => false,
        },
{
    lemma_file_shows(looping, fps_bits, inputs);
}

/// A pass that has come to the end of the file, without a stop there, has sent the file whole: put
/// together, its frames are what was read. With a stop there, they are the front of it.
pub proof fn file_is_sent_whole(looping: bool, fps_bits: u32, inputs: Seq<StreamInput>)
    requires
        file_inputs(looping, fps_bits, inputs),
        ({
            let run = file_run(looping, fps_bits, inputs);
            run.state.phase == FilePhase::PassEnd || run.outputs.last() == StreamOutput::Exit(
                StreamEnd::Finished,
            )
        }),
    ensures
        ({
            let run = file_run(looping, fps_bits, inputs);
            &&& !run.cut ==> access_unit::joined(run.sent) == run.read
            &&& access_unit::joined(run.sent) == run.read.take(
                access_unit::joined(run.sent).len() as int,
            )
        }),
{
    let run = file_run(looping, fps_bits, inputs);
    file_pass_sends_everything(looping, fps_bits, inputs);
    unit_buffer::whole_frames_make_up_the_data(run.read);
    access_unit::units_make_up_the_data(run.read);
    let sent = access_unit::joined(run.sent);
    assert(sent =~= run.read.take(sent.len() as int));
}

} // verus!
