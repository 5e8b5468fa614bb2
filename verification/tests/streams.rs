use lianli_lcd::file_stream::FileStream;
use lianli_lcd::live_stream::{LiveStream, MAX_AU_BYTES};
use lianli_lcd::reader_stream::ReaderStream;
use lianli_lcd::unit_buffer::{StreamAction, StreamEnd, StreamEvent};

fn slice_nal(payload: u8) -> Vec<u8> {
    vec![0, 0, 0, 1, 0x41, payload]
}

/// What is played, and how the world reacts.
struct World {
    data: Vec<u8>,
    at: usize,
    read_size: usize,
    fail_read_at: Option<usize>,
    fail_send: Option<usize>,
    halt_at_poll: Option<usize>,
    fail_rewind: bool,
    polls: usize,
    sent: Vec<Vec<u8>>,
    paces: usize,
    rewinds: usize,
    /// Frame rates that were set, each with the number of polls and frames before it.
    fps: Vec<(u32, usize)>,
}

impl World {
    fn new(data: Vec<u8>, read_size: usize) -> World {
        World {
            data,
            at: 0,
            read_size,
            fail_read_at: None,
            fail_send: None,
            halt_at_poll: None,
            fail_rewind: false,
            polls: 0,
            sent: Vec::new(),
            paces: 0,
            rewinds: 0,
            fps: Vec::new(),
        }
    }

    /// Performs actions until the loop ends.
    fn play(&mut self, first: StreamAction, mut resume: impl FnMut(StreamEvent) -> StreamAction) -> StreamEnd {
        let mut action = first;
        loop {
            action = match action {
                StreamAction::SetFps { fps_bits } => {
                    self.fps.push((fps_bits, self.sent.len() + self.polls));
                    resume(StreamEvent::FpsSet)
                }
                StreamAction::PollHalt => {
                    let halted = self.halt_at_poll.is_some_and(|n| self.polls >= n);
                    self.polls += 1;
                    resume(StreamEvent::Halted(halted))
                }
                StreamAction::Read => {
                    if self.fail_read_at.is_some_and(|at| self.at >= at) {
                        resume(StreamEvent::Read(None))
                    } else {
                        let to = (self.at + self.read_size).min(self.data.len());
                        let from = self.at;
                        self.at = to;
                        resume(StreamEvent::Read(Some(&self.data[from..to])))
                    }
                }
                StreamAction::Send(frame) => {
                    let ok = self.fail_send != Some(self.sent.len());
                    self.sent.push(frame);
                    resume(StreamEvent::Sent(ok))
                }
                StreamAction::Pace => {
                    self.paces += 1;
                    resume(StreamEvent::Paced)
                }
                StreamAction::Rewind => {
                    self.rewinds += 1;
                    self.at = 0;
                    resume(StreamEvent::Rewound(!self.fail_rewind))
                }
                StreamAction::Exit(end) => return end,
            };
        }
    }

    fn play_live(&mut self) -> StreamEnd {
        let (mut stream, first) = LiveStream::start(24f32.to_bits());
        self.play(first, |event| {
            assert!(stream.can_take(&event));
            stream.resume(event)
        })
    }

    fn play_file(&mut self, looping: bool) -> StreamEnd {
        let (mut stream, first) = FileStream::start(looping, 25f32.to_bits());
        self.play(first, |event| {
            assert!(stream.can_take(&event));
            stream.resume(event)
        })
    }

    fn play_reader(&mut self) -> StreamEnd {
        let (mut stream, first) = ReaderStream::start();
        self.play(first, |event| {
            assert!(stream.can_take(&event));
            stream.resume(event)
        })
    }
}

fn three_frames() -> Vec<u8> {
    [slice_nal(1), slice_nal(2), slice_nal(3)].concat()
}

#[test]
fn live_stream_sends_every_unit_and_the_rest() {
    for size in 1..20 {
        let mut world = World::new(three_frames(), size);
        assert_eq!(world.play_live(), StreamEnd::Finished);
        assert_eq!(world.sent, vec![slice_nal(1), slice_nal(2), slice_nal(3)]);
        assert_eq!(world.paces, 3);
    }
}

#[test]
fn live_stream_of_nothing_sends_nothing() {
    let mut world = World::new(Vec::new(), 10);
    assert_eq!(world.play_live(), StreamEnd::Finished);
    assert!(world.sent.is_empty());
    assert_eq!(world.paces, 0);
}

#[test]
fn live_stream_keeps_the_rest_after_a_read_error() {
    let mut world = World::new(three_frames(), 6);
    world.fail_read_at = Some(12);
    assert_eq!(world.play_live(), StreamEnd::ReadFailed);
    assert_eq!(world.sent, vec![slice_nal(1)]);
}

#[test]
fn live_stream_keeps_the_rest_after_a_stop() {
    let mut world = World::new(three_frames(), 100);
    // The first question comes before the read, the second behind the first frame.
    world.halt_at_poll = Some(1);
    assert_eq!(world.play_live(), StreamEnd::Stopped);
    assert_eq!(world.sent, vec![slice_nal(1)]);
}

#[test]
fn live_stream_ends_when_a_frame_is_not_taken() {
    let mut world = World::new(three_frames(), 100);
    world.fail_send = Some(1);
    assert_eq!(world.play_live(), StreamEnd::SendFailed);
    assert_eq!(world.sent.len(), 2);
    assert_eq!(world.paces, 1);
}

#[test]
fn live_stream_does_not_mind_a_rest_that_is_not_taken() {
    let mut world = World::new(three_frames(), 100);
    world.fail_send = Some(2);
    assert_eq!(world.play_live(), StreamEnd::Finished);
    assert_eq!(world.sent.len(), 3);
}

#[test]
fn live_stream_gives_up_without_a_boundary() {
    let mut world = World::new(vec![0xFF; MAX_AU_BYTES + 1], 1 << 20);
    assert_eq!(world.play_live(), StreamEnd::NoBoundary);
    assert!(world.sent.is_empty());
    let mut just_fits = World::new(vec![0xFF; MAX_AU_BYTES], 1 << 20);
    assert_eq!(just_fits.play_live(), StreamEnd::Finished);
    assert_eq!(just_fits.sent.len(), 1);
}

#[test]
fn file_is_played_once() {
    for size in 1..20 {
        let mut world = World::new(three_frames(), size);
        assert_eq!(world.play_file(false), StreamEnd::Finished);
        assert_eq!(world.sent, vec![slice_nal(1), slice_nal(2), slice_nal(3)]);
        assert_eq!(world.rewinds, 0);
    }
}

#[test]
fn looping_file_is_played_again() {
    let mut world = World::new(three_frames(), 100);
    world.fail_send = Some(4);
    assert_eq!(world.play_file(true), StreamEnd::SendFailed);
    assert_eq!(world.rewinds, 1);
    assert_eq!(
        world.sent,
        vec![slice_nal(1), slice_nal(2), slice_nal(3), slice_nal(1), slice_nal(2)]
    );
}

#[test]
fn looping_file_with_a_single_unit_is_not_played_again() {
    let mut world = World::new(slice_nal(1), 100);
    assert_eq!(world.play_file(true), StreamEnd::NoUnits);
    assert_eq!(world.sent, vec![slice_nal(1)]);
    assert_eq!(world.rewinds, 0);
}

#[test]
fn empty_looping_file_is_not_played_again() {
    let mut world = World::new(Vec::new(), 100);
    assert_eq!(world.play_file(true), StreamEnd::NoUnits);
    assert!(world.sent.is_empty());
}

#[test]
fn file_that_cannot_be_rewound_ends() {
    let mut world = World::new(three_frames(), 100);
    world.fail_rewind = true;
    assert_eq!(world.play_file(true), StreamEnd::RewindFailed);
    assert_eq!(world.sent.len(), 3);
}

#[test]
fn file_ends_on_errors_and_stops() {
    let mut unreadable = World::new(three_frames(), 6);
    unreadable.fail_read_at = Some(6);
    assert_eq!(unreadable.play_file(false), StreamEnd::ReadFailed);

    let mut malformed = World::new(vec![7; MAX_AU_BYTES + 1], 1 << 20);
    assert_eq!(malformed.play_file(true), StreamEnd::NoBoundary);

    let mut stopped = World::new(three_frames(), 100);
    // Before the pass, before the read, and before the first unit.
    stopped.halt_at_poll = Some(2);
    assert_eq!(stopped.play_file(true), StreamEnd::Stopped);
    assert!(stopped.sent.is_empty());
}

#[test]
fn reader_sends_everything() {
    for size in 1..20 {
        let mut world = World::new(three_frames(), size);
        assert_eq!(world.play_reader(), StreamEnd::Finished);
        assert_eq!(world.sent, vec![slice_nal(1), slice_nal(2), slice_nal(3)]);
        // The rest is not paced.
        assert_eq!(world.paces, 2);
    }
}

#[test]
fn reader_sends_the_rest_when_asked_to_stop() {
    let mut world = World::new(three_frames(), 6);
    world.halt_at_poll = Some(2);
    assert_eq!(world.play_reader(), StreamEnd::Finished);
    assert_eq!(world.sent, vec![slice_nal(1), slice_nal(2)]);
}

#[test]
fn reader_reports_errors() {
    let mut unreadable = World::new(three_frames(), 6);
    unreadable.fail_read_at = Some(6);
    assert_eq!(unreadable.play_reader(), StreamEnd::ReadFailed);
    assert!(unreadable.sent.is_empty());

    let mut refused = World::new(three_frames(), 100);
    refused.fail_send = Some(2);
    assert_eq!(refused.play_reader(), StreamEnd::SendFailed);
    assert_eq!(refused.sent.len(), 3);
}

#[test]
fn frame_rate_is_set_once_before_anything_else() {
    let mut live = World::new(three_frames(), 6);
    live.play_live();
    assert_eq!(live.fps, vec![(24f32.to_bits(), 0)]);

    let mut file = World::new(three_frames(), 6);
    file.fail_send = Some(4);
    file.play_file(true);
    assert_eq!(file.rewinds, 1);
    assert_eq!(file.fps, vec![(25f32.to_bits(), 0)]);

    let mut stopped = World::new(three_frames(), 6);
    stopped.halt_at_poll = Some(0);
    assert_eq!(stopped.play_file(false), StreamEnd::Stopped);
    assert_eq!(stopped.fps.len(), 1);
}

#[test]
fn each_pass_of_a_file_sends_all_of_it() {
    let mut world = World::new(three_frames(), 4);
    world.fail_send = Some(6);
    assert_eq!(world.play_file(true), StreamEnd::SendFailed);
    assert_eq!(world.rewinds, 2);
    assert_eq!(world.sent[..6].concat(), [three_frames(), three_frames()].concat());
}

#[test]
fn live_stream_that_is_stopped_at_its_end_keeps_the_rest() {
    let mut world = World::new(three_frames(), 100);
    // Before the first read, behind two frames, before the second read, and before the rest.
    world.halt_at_poll = Some(4);
    assert_eq!(world.play_live(), StreamEnd::Stopped);
    assert_eq!(world.sent, vec![slice_nal(1), slice_nal(2)]);
}

#[test]
fn streams_take_only_the_answer_to_their_action() {
    let (mut live, _) = LiveStream::start(0);
    assert!(live.can_take(&StreamEvent::FpsSet));
    assert!(!live.can_take(&StreamEvent::Halted(false)));
    live.resume(StreamEvent::FpsSet);
    assert!(live.can_take(&StreamEvent::Halted(false)));
    assert!(!live.can_take(&StreamEvent::FpsSet));
    live.resume(StreamEvent::Halted(true));
    assert!(!live.can_take(&StreamEvent::Halted(false)));

    let (mut file, _) = FileStream::start(true, 0);
    assert!(!file.can_take(&StreamEvent::Halted(false)));
    file.resume(StreamEvent::FpsSet);
    assert!(!file.can_take(&StreamEvent::Rewound(true)));

    let (reader, _) = ReaderStream::start();
    assert!(reader.can_take(&StreamEvent::Halted(false)));
    assert!(!reader.can_take(&StreamEvent::Paced));
}
