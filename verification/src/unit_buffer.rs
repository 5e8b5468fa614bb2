//! Bytes of an H.264 stream that wait for their access unit to be complete, and the events and
//! actions of the loops that feed an LCD from such a stream.

use vstd::prelude::*;
use vstd::slice::slice_to_vec;
use crate::access_unit;
use crate::access_unit::find_au_split;

verus! {

/// Bytes that have been read and not been sent yet.
pub struct UnitBuffer {
    bytes: Vec<u8>,
}

impl View for UnitBuffer {
    type V = Seq<u8>;

    closed spec fn view(&self) -> Seq<u8> {
        self.bytes@
    }
}

impl UnitBuffer {
    /// An empty buffer.
    pub fn new() -> (buffer: Self)
        ensures
            buffer@ == Seq::<u8>::empty(),
    {
        UnitBuffer { bytes: Vec::new() }
    }

    /// Number of bytes that wait.
    pub fn len(&self) -> (len: usize)
        ensures
            len == self@.len(),
    {
        self.bytes.len()
    }

    /// Adds what was read.
    pub fn append(&mut self, chunk: &[u8])
        ensures
            final(self)@ == old(self)@ + chunk@,
    {
        let mut more = slice_to_vec(chunk);
        self.bytes.append(&mut more);
    }

    /// Whether a complete access unit waits.
    pub fn has_unit(&self) -> (complete: bool)
        ensures
            complete == (access_unit::au_split(self@) is Some),
    {
        find_au_split(self.bytes.as_slice()).is_some()
    }

    /// Takes the first complete access unit off, if there is one.
    pub fn next_unit(&mut self) -> (unit: Option<Vec<u8>>)
        ensures
            match access_unit::au_split(old(self)@) {
                Some(at) => {
                    &&& unit matches Some(bytes) && bytes@ == old(self)@.take(at)
                    &&& final(self)@ == old(self)@.skip(at)
                },
                None => unit is None && final(self)@ == old(self)@,
            },
    {
        match find_au_split(self.bytes.as_slice()) {
            Some(at) => {
                let mut unit = self.bytes.split_off(at);
                core::mem::swap(&mut self.bytes, &mut unit);
                Some(unit)
            },
            None => None,
        }
    }

    /// Takes everything, complete or not.
    pub fn take_all(&mut self) -> (bytes: Vec<u8>)
        ensures
            bytes@ == old(self)@,
            final(self)@ == Seq::<u8>::empty(),
    {
        let mut bytes = Vec::new();
        core::mem::swap(&mut self.bytes, &mut bytes);
        bytes
    }
}

/// What a streaming loop learns.
pub enum StreamEvent<'a> {
    /// Answer to `SetFps`.
    FpsSet,
    /// Answer to `PollHalt`: whether the loop was asked to stop.
    Halted(bool),
    /// Answer to `Read`: the bytes that were read (none at the end of the stream), or `None` for
    /// an error.
    Read(Option<&'a [u8]>),
    /// Answer to `Send`: whether the LCD took the frame.
    Sent(bool),
    /// Answer to `Pace`.
    Paced,
    /// Answer to `Rewind`: whether the stream stands at its start again.
    Rewound(bool),
}

/// A [`StreamEvent`] with the bytes that it carries.
pub enum StreamInput {
    FpsSet,
    Halted(bool),
    ReadFailed,
    /// Bytes that were read; none at the end of the stream.
    Chunk(Seq<u8>),
    Sent(bool),
    Paced,
    Rewound(bool),
}

impl<'a> View for StreamEvent<'a> {
    type V = StreamInput;

    open spec fn view(&self) -> StreamInput {
        match self {
            StreamEvent::FpsSet => StreamInput::FpsSet,
            StreamEvent::Halted(halted) => StreamInput::Halted(*halted),
            StreamEvent::Read(Some(chunk)) => StreamInput::Chunk(chunk@),
            StreamEvent::Read(None) => StreamInput::ReadFailed,
            StreamEvent::Sent(ok) => StreamInput::Sent(*ok),
            StreamEvent::Paced => StreamInput::Paced,
            StreamEvent::Rewound(ok) => StreamInput::Rewound(*ok),
        }
    }
}

/// Why a streaming loop ended.
#[derive(Clone, Copy, Debug, PartialEq, Eq, Structural)]
pub enum StreamEnd {
    /// The stream ended.
    Finished,
    /// The loop was asked to stop.
    Stopped,
    /// The stream could not be read.
    ReadFailed,
    /// The LCD did not take a frame.
    SendFailed,
    /// Too many bytes came without an access unit boundary.
    NoBoundary,
    /// A looping file held no complete access unit, or nothing of it could be sent.
    NoUnits,
    /// A looping file could not be rewound.
    RewindFailed,
}

/// What a streaming loop does next.
pub enum StreamAction {
    /// Set the frame rate of the LCD, given as the bits of a 32-bit float. Pacing goes by the frame rate
    /// that the LCD shows.
    SetFps { fps_bits: u32 },
    /// Ask whether to stop.
    PollHalt,
    /// Read from the stream.
    Read,
    /// Send one frame to the LCD.
    Send(Vec<u8>),
    /// Wait for the next frame's time.
    Pace,
    /// Go back to the start of the stream.
    Rewind,
    /// Leave the loop.
    Exit(StreamEnd),
}

/// A [`StreamAction`] with the bytes that it carries.
pub enum StreamOutput {
    SetFps { fps_bits: u32 },
    PollHalt,
    Read,
    Send(Seq<u8>),
    Pace,
    Rewind,
    Exit(StreamEnd),
}

impl View for StreamAction {
    type V = StreamOutput;

    open spec fn view(&self) -> StreamOutput {
        match self {
            StreamAction::SetFps { fps_bits } => StreamOutput::SetFps { fps_bits: *fps_bits },
            StreamAction::PollHalt => StreamOutput::PollHalt,
            StreamAction::Read => StreamOutput::Read,
            StreamAction::Send(frame) => StreamOutput::Send(frame@),
            StreamAction::Pace => StreamOutput::Pace,
            StreamAction::Rewind => StreamOutput::Rewind,
            StreamAction::Exit(end) => StreamOutput::Exit(*end),
        }
    }
}

/// The complete access units of `read` in order, and then the rest, if there is any.
pub open spec fn whole_frames(read: Seq<u8>) -> Seq<Seq<u8>> {
    let rest = access_unit::remainder(read);
    if rest.len() == 0 {
        access_unit::units(read)
    } else {
        access_unit::units(read).push(rest)
    }
}

/// The bytes that an input brings.
pub open spec fn received(input: StreamInput) -> Seq<u8> {
    match input {
        StreamInput::Chunk(chunk) => chunk,
        _ => Seq::empty(),
    }
}

/// The frames that an output sends: one or none.
pub open spec fn frames_of(output: StreamOutput) -> Seq<Seq<u8>> {
    match output {
        StreamOutput::Send(frame) => seq![frame],
        _ => Seq::empty(),
    }
}

/// All frames of a stream put together are the stream.
pub proof fn whole_frames_make_up_the_data(read: Seq<u8>)
    ensures
        access_unit::joined(whole_frames(read)) == read,
        forall|k: int| 0 <= k < whole_frames(read).len() ==> (#[trigger] whole_frames(read)[k]).len() > 0,
{
    access_unit::units_make_up_the_data(read);
    access_unit::units_are_single(read);
    let rest = access_unit::remainder(read);
    if rest.len() == 0 {
        assert(access_unit::joined(access_unit::units(read)) + rest =~= access_unit::joined(
            access_unit::units(read),
        ));
    } else {
        access_unit::joined_push(access_unit::units(read), rest);
    }
}

/// An event brings the bytes that were read, all of them and no others, and an answer as it was given.
pub proof fn events_bring_what_was_read(event: StreamEvent<'_>)
    ensures
        match event {
            StreamEvent::FpsSet => event@ is FpsSet,
            StreamEvent::Halted(halted) => event@ == StreamInput::Halted(halted),
            StreamEvent::Read(None) => event@ is ReadFailed,
            StreamEvent::Read(Some(chunk)) => {
                &&& event@ == StreamInput::Chunk(chunk@)
                &&& received(event@) == chunk@
            },
            StreamEvent::Sent(ok) => event@ == StreamInput::Sent(ok),
            StreamEvent::Paced => event@ is Paced,
            StreamEvent::Rewound(ok) => event@ == StreamInput::Rewound(ok),
        },
{
}

/// An action sends the bytes of its frame, all of them and no others.
pub proof fn actions_send_their_frame(action: StreamAction)
    ensures
        match action {
            StreamAction::SetFps { fps_bits } => action@ == (StreamOutput::SetFps { fps_bits }),
            StreamAction::PollHalt => action@ is PollHalt,
            StreamAction::Read => action@ is Read,
            StreamAction::Send(frame) => {
                &&& action@ == StreamOutput::Send(frame@)
                &&& frames_of(action@) == seq![frame@]
            },
            StreamAction::Pace => action@ is Pace,
            StreamAction::Rewind => action@ is Rewind,
            StreamAction::Exit(end) => action@ == StreamOutput::Exit(end),
        },
        !(action is Send) ==> frames_of(action@).len() == 0,
{
}

} // verus!
