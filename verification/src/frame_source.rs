//! Where the frames of an LCD come from.

use vstd::prelude::*;
use crate::backend::LcdBackend;

verus! {

/// What an LCD shows. Frame rates are the bits of a 32-bit float.
pub enum MediaAsset {
    Static { frame: Vec<u8> },
    Video { frames: Vec<Vec<u8>> },
    Sensor,
    H264Stream { path: Vec<u8>, looping: bool, fps_bits: u32 },
    Custom,
}

/// Playing an H.264 file on an LCD.
#[derive(Clone, Copy, Debug, PartialEq, Eq, Structural)]
pub struct H264FileSource {
    pub started: bool,
    /// After the file could not be opened: when to try again, in nanoseconds.
    pub retry_after: Option<u64>,
}

/// How long to wait after a file could not be opened, in nanoseconds.
pub const FILE_OPEN_RETRY: u64 = 5000000000;

/// What starting to play a file takes.
#[derive(Clone, Copy, Debug, PartialEq, Eq, Structural)]
pub enum FileStart {
    /// Nothing.
    Nothing,
    /// Post the file to the thread that owns the panel, and answer with
    /// [`H264FileSource::posted`].
    Post,
    /// Open the file, and answer with [`H264FileSource::opened`].
    OpenFile,
}

impl H264FileSource {
    /// A file that is not playing yet.
    pub fn new() -> (source: Self)
        ensures
            source == (H264FileSource { started: false, retry_after: None }),
    {
        H264FileSource { started: false, retry_after: None }
    }

    /// Starts to play, unless it plays already or the wait after a failure is not over. On an SLV3
    /// LCD, which cannot play files, it counts as started.
    pub fn start(&mut self, backend: LcdBackend, now: u64) -> (start: FileStart)
        ensures
            start == old(self).start_at(backend, now),
            *final(self) == old(self).behind_start(backend, now),
    {
        if self.started {
            return FileStart::Nothing;
        }
        if let Some(retry_after) = self.retry_after {
            if now < retry_after {
                return FileStart::Nothing;
            }
        }
        match backend {
            LcdBackend::WinUsb => FileStart::Post,
            LcdBackend::HidLcd => FileStart::OpenFile,
            LcdBackend::Slv3 => {
                self.started = true;
                FileStart::Nothing
            },
        }
    }

    /// There is nothing to start at `now`.
    pub open spec fn waits(self, now: u64) -> bool {
        self.started || (self.retry_after matches Some(retry_after) && now < retry_after)
    }

    /// What starting to play takes.
    pub open spec fn start_at(self, backend: LcdBackend, now: u64) -> FileStart {
        if self.waits(now) || backend == LcdBackend::Slv3 {
            FileStart::Nothing
        } else if backend == LcdBackend::WinUsb {
            FileStart::Post
        } else {
            FileStart::OpenFile
        }
    }

    /// The source behind the start.
    pub open spec fn behind_start(self, backend: LcdBackend, now: u64) -> H264FileSource {
        H264FileSource {
            started: self.started || (!self.waits(now) && backend == LcdBackend::Slv3),
            ..self
        }
    }

    /// Whether the file was posted. If it was not, the next frame tries again.
    pub fn posted(&mut self, ok: bool)
        ensures
            *final(self) == (H264FileSource { started: old(self).started || ok, ..*old(self) }),
    {
        if ok {
            self.started = true;
        }
    }

    /// The source behind an attempt to open the file at `now`.
    pub open spec fn behind_open(self, ok: bool, now: u64) -> H264FileSource {
        if ok {
            H264FileSource { started: true, retry_after: None }
        } else {
            H264FileSource { retry_after: Some((now + FILE_OPEN_RETRY) as u64), ..self }
        }
    }

    /// Whether the file could be opened at `now`. The result says whether to start the loop that
    /// plays it.
    pub fn opened(&mut self, ok: bool, now: u64) -> (play: bool)
        requires
            !ok ==> now + FILE_OPEN_RETRY <= u64::MAX,
        ensures
            play == ok,
            *final(self) == old(self).behind_open(ok, now),
    {
        if ok {
            self.retry_after = None;
            self.started = true;
        } else {
            self.retry_after = Some(now + FILE_OPEN_RETRY);
        }
        ok
    }
}

/// A source of pictures for an LCD, or a pipeline that streams to the LCD by itself. The frames of a
/// still picture or a video are in the [`MediaAsset`]; a renderer's are with the renderer.
#[derive(Clone, Copy, Debug, PartialEq, Eq, Structural)]
pub enum FrameSource {
    /// Gives nothing.
    Noop,
    /// A still picture, with whether it was sent.
    Static { sent: bool },
    /// A video, with the number of the frame that was sent last.
    Video { sent_index: usize },
    /// A renderer of sensor values, with the number of the frame that was sent last.
    Sensor { sent_index: usize },
    /// A renderer of a custom layout, with the number of the frame that was sent last.
    Custom { sent_index: usize },
    H264File(H264FileSource),
    SensorH264,
    CustomH264,
}

impl FrameSource {
    /// The number of the frame that was sent last, where frames have numbers.
    pub open spec fn sent_index(self) -> Option<usize> {
        match self {
            FrameSource::Video { sent_index } => Some(sent_index),
            FrameSource::Sensor { sent_index } => Some(sent_index),
            FrameSource::Custom { sent_index } => Some(sent_index),
            _ => None,
        }
    }

    /// The source behind frame number `index`.
    pub open spec fn behind(self, index: usize) -> FrameSource {
        match self {
            FrameSource::Video { .. } => FrameSource::Video { sent_index: index },
            FrameSource::Sensor { .. } => FrameSource::Sensor { sent_index: index },
            FrameSource::Custom { .. } => FrameSource::Custom { sent_index: index },
            FrameSource::Static { .. } => FrameSource::Static { sent: true },
            _ => self,
        }
    }

    /// The source behind a frame that failed: a still picture is due again, a player or renderer goes
    /// on to its next frame.
    pub open spec fn behind_failure(self) -> FrameSource {
        match self {
            FrameSource::Static { .. } => FrameSource::Static { sent: false },
            _ => self,
        }
    }

    /// The source behind the question for a picture when the player or renderer is at frame number
    /// `index`.
    pub open spec fn asked(self, asset: MediaAsset, index: usize, rendered: Seq<u8>) -> FrameSource {
        if self.frame(asset, index, rendered) is Some {
            self.behind(index)
        } else {
            self
        }
    }

    /// The picture to send when the player or renderer is at frame number `index`: `rendered` is
    /// what the renderer shows then.
    pub open spec fn frame(self, asset: MediaAsset, index: usize, rendered: Seq<u8>) -> Option<
        Seq<u8>,
    > {
        match (self, asset) {
            (FrameSource::Static { sent }, MediaAsset::Static { frame }) => if !sent {
                Some(frame@)
            } else {
                None
            },
            (FrameSource::Video { sent_index }, MediaAsset::Video { frames }) => if index
                > sent_index && frames@.len() > 0 {
                Some(frames@[index as int % frames@.len() as int]@)
            } else {
                None
            },
            (FrameSource::Sensor { sent_index }, _) => if index > sent_index {
                Some(rendered)
            } else {
                None
            },
            (FrameSource::Custom { sent_index }, _) => if index > sent_index {
                Some(rendered)
            } else {
                None
            },
            _ => None,
        }
    }

    /// The source was made for this asset.
    pub open spec fn fits(self, asset: MediaAsset) -> bool {
        match self {
            FrameSource::Noop => true,
            FrameSource::Static { .. } => asset is Static,
            FrameSource::Video { .. } => asset is Video,
            FrameSource::Sensor { .. } | FrameSource::SensorH264 => asset is Sensor,
            FrameSource::Custom { .. } | FrameSource::CustomH264 => asset is Custom,
            FrameSource::H264File(_) => asset is H264Stream,
        }
    }

    /// Whether a renderer has a frame that has not been sent, so that [`FrameSource::next_frame`]
    /// wants it.
    pub fn wants_rendered(&self, index: usize) -> (wants: bool)
        ensures
            wants == ((self is Sensor || self is Custom) && index > self.sent_index()->0),
    {
        match *self {
            FrameSource::Sensor { sent_index } | FrameSource::Custom { sent_index } => index
                > sent_index,
            _ => false,
        }
    }

    /// Starts a source that streams by itself. A pipeline was started when it came up.
    pub fn start(&mut self, backend: LcdBackend, now: u64) -> (start: FileStart)
        ensures
            match *old(self) {
                FrameSource::H264File(file) => {
                    &&& start == file.start_at(backend, now)
                    &&& *final(self) == FrameSource::H264File(file.behind_start(backend, now))
                },
                _ => start == FileStart::Nothing && *final(self) == *old(self),
            },
    {
        match self {
            FrameSource::H264File(file) => file.start(backend, now),
            _ => FileStart::Nothing,
        }
    }

    /// Gives the next picture, if there is one that has not been sent.
    pub fn next_frame<'a>(
        &mut self,
        asset: &'a MediaAsset,
        index: usize,
        rendered: &'a [u8],
    ) -> (frame: Option<&'a [u8]>)
        ensures
            match (frame, old(self).frame(*asset, index, rendered@)) {
                (Some(bytes), Some(due)) => bytes@ == due,
                (None, None) => true,
                _ => false,
            },
            *final(self) == old(self).asked(*asset, index, rendered@),
    {
        match (*self, asset) {
            (FrameSource::Static { sent }, MediaAsset::Static { frame }) => {
                if sent {
                    return None;
                }
                *self = FrameSource::Static { sent: true };
                Some(frame.as_slice())
            },
            (FrameSource::Video { sent_index }, MediaAsset::Video { frames }) => {
                if index <= sent_index || frames.len() == 0 {
                    return None;
                }
                *self = FrameSource::Video { sent_index: index };
                Some(frames[index % frames.len()].as_slice())
            },
            (FrameSource::Sensor { sent_index }, _) => {
                if index <= sent_index {
                    return None;
                }
                *self = FrameSource::Sensor { sent_index: index };
                Some(rendered)
            },
            (FrameSource::Custom { sent_index }, _) => {
                if index <= sent_index {
                    return None;
                }
                *self = FrameSource::Custom { sent_index: index };
                Some(rendered)
            },
            _ => None,
        }
    }

    /// Has a frame that failed offered again, where there is no later one to come: a still picture.
    pub fn frame_failed(&mut self)
        ensures
            *final(self) == old(self).behind_failure(),
    {
        if let FrameSource::Static { .. } = *self {
            *self = FrameSource::Static { sent: false };
        }
    }

    /// Whether the source gives one picture that does not change.
    pub fn is_static(&self) -> (is: bool)
        ensures
            is == (*self is Static),
    {
        match self {
            FrameSource::Static { .. } => true,
            _ => false,
        }
    }

    /// The source streams by itself.
    pub open spec fn streams_itself(self) -> bool {
        self is H264File || self is SensorH264 || self is CustomH264
    }

    /// Whether the source streams by itself.
    pub fn is_autonomous(&self) -> (is: bool)
        ensures
            is == self.streams_itself(),
    {
        match self {
            FrameSource::H264File(_) | FrameSource::SensorH264 | FrameSource::CustomH264 => true,
            _ => false,
        }
    }
}

/// The choice of a source.
#[derive(Clone, Copy, Debug, PartialEq, Eq, Structural)]
pub enum SourcePlan {
    Ready(FrameSource),
    /// Try to bring up an H.264 pipeline for this source; if that fails, take the other one.
    TryPipeline { pipeline: FrameSource, fallback: FrameSource },
}

/// The source for an asset. Sensor values use an H.264 pipeline on every screen that shows H.264;
/// custom layouts do where they are asked to.
pub open spec fn source_plan(asset: MediaAsset, screen_h264: bool, custom_h264: bool) -> SourcePlan {
    match asset {
        MediaAsset::Static { .. } => SourcePlan::Ready(FrameSource::Static { sent: false }),
        MediaAsset::Video { .. } => SourcePlan::Ready(FrameSource::Video { sent_index: 0 }),
        MediaAsset::Sensor => if screen_h264 {
            SourcePlan::TryPipeline {
                pipeline: FrameSource::SensorH264,
                fallback: FrameSource::Sensor { sent_index: 0 },
            }
        } else {
            SourcePlan::Ready(FrameSource::Sensor { sent_index: 0 })
        },
        MediaAsset::H264Stream { .. } => SourcePlan::Ready(
            FrameSource::H264File(H264FileSource { started: false, retry_after: None }),
        ),
        MediaAsset::Custom => if custom_h264 && screen_h264 {
            SourcePlan::TryPipeline {
                pipeline: FrameSource::CustomH264,
                fallback: FrameSource::Custom { sent_index: 0 },
            }
        } else {
            SourcePlan::Ready(FrameSource::Custom { sent_index: 0 })
        },
    }
}

/// Chooses the source for an asset.
pub fn make_frame_source(asset: &MediaAsset, screen_h264: bool, custom_h264: bool) -> (plan:
    SourcePlan)
    ensures
        plan == source_plan(*asset, screen_h264, custom_h264),
{
    match asset {
        MediaAsset::Static { .. } => SourcePlan::Ready(FrameSource::Static { sent: false }),
        MediaAsset::Video { .. } => SourcePlan::Ready(FrameSource::Video { sent_index: 0 }),
        MediaAsset::Sensor => {
            let fallback = FrameSource::Sensor { sent_index: 0 };
            if screen_h264 {
                SourcePlan::TryPipeline { pipeline: FrameSource::SensorH264, fallback }
            } else {
                SourcePlan::Ready(fallback)
            }
        },
        MediaAsset::H264Stream { .. } => SourcePlan::Ready(
            FrameSource::H264File(H264FileSource::new()),
        ),
        MediaAsset::Custom => {
            let fallback = FrameSource::Custom { sent_index: 0 };
            if custom_h264 && screen_h264 {
                SourcePlan::TryPipeline { pipeline: FrameSource::CustomH264, fallback }
            } else {
                SourcePlan::Ready(fallback)
            }
        },
    }
}

impl SourcePlan {
    /// The source, given whether the pipeline came up where one is tried.
    pub open spec fn source(self, pipeline_up: bool) -> FrameSource {
        match self {
            SourcePlan::Ready(source) => source,
            SourcePlan::TryPipeline { pipeline, fallback } => if pipeline_up {
                pipeline
            } else {
                fallback
            },
        }
    }

    /// Settles on the source, given whether the pipeline came up where one is tried.
    pub fn resolve(&self, pipeline_up: bool) -> (source: FrameSource)
        ensures
            source == self.source(pipeline_up),
    {
        match *self {
            SourcePlan::Ready(source) => source,
            SourcePlan::TryPipeline { pipeline, fallback } => if pipeline_up {
                pipeline
            } else {
                fallback
            },
        }
    }
}

/// A call of [`H264FileSource::start`] on a HID LCD, and what becomes of the file if it is opened then.
pub struct FileTick {
    /// When the call is made.
    pub now: u64,
    /// When the outcome of opening the file is known.
    pub opened_at: u64,
    /// The file can be opened.
    pub ok: bool,
}

/// A source that is started over and over, with its attempts to open the file: when, and whether the
/// file could be opened, so that a thread plays it.
pub struct FileRun {
    pub source: H264FileSource,
    pub opens: Seq<FileTick>,
}

/// The source behind these calls.
pub open spec fn file_run(ticks: Seq<FileTick>) -> FileRun
    decreases ticks.len(),
{
    if ticks.len() == 0 {
        FileRun {
            source: H264FileSource { started: false, retry_after: None },
            opens: Seq::empty(),
        }
    } else {
        let before = file_run(ticks.drop_last());
        let tick = ticks.last();
        let source = before.source.behind_start(LcdBackend::HidLcd, tick.now);
        if before.source.start_at(LcdBackend::HidLcd, tick.now) == FileStart::OpenFile {
            FileRun {
                source: source.behind_open(tick.ok, tick.opened_at),
                opens: before.opens.push(tick),
            }
        } else {
            FileRun { source, ..before }
        }
    }
}

/// The clock does not run backwards, nor to its end.
pub open spec fn in_time(ticks: Seq<FileTick>) -> bool {
    &&& forall|i: int|
        0 <= i < ticks.len() ==> (#[trigger] ticks[i]).now <= ticks[i].opened_at && (!ticks[i].ok
            ==> ticks[i].opened_at + FILE_OPEN_RETRY <= u64::MAX)
    &&& forall|i: int, j: int|
        0 <= i < j < ticks.len() ==> (#[trigger] ticks[i]).opened_at <= (#[trigger] ticks[j]).now
}

/// The next call opens the file: it does not play yet, and [`FILE_OPEN_RETRY`] has passed since it
/// could not be opened.
pub open spec fn open_is_due(opens: Seq<FileTick>, now: u64) -> bool {
    opens.len() == 0 || (!opens.last().ok && now >= opens.last().opened_at + FILE_OPEN_RETRY)
}

/// However often a file is started on a HID LCD: a call opens the file exactly where the file does not
/// play and the wait behind the last failure is over. So a file that could not be opened is tried
/// again at the first call behind the wait and not earlier, and one that could be opened is played by
/// one thread: nothing is opened behind it.
pub proof fn files_are_opened_at_intervals(ticks: Seq<FileTick>, next: FileTick)
    requires
        in_time(ticks.push(next)),
    ensures
        ({
            let opens = file_run(ticks).opens;
            &&& file_run(ticks.push(next)).opens == (if open_is_due(opens, next.now) {
                opens.push(next)
            } else {
                opens
            })
            &&& file_run(ticks).source.start_at(LcdBackend::HidLcd, next.now) == (if open_is_due(
                opens,
                next.now,
            ) {
                FileStart::OpenFile
            } else {
                FileStart::Nothing
            })
            &&& forall|i: int| 0 <= i < opens.len() - 1 ==> !(#[trigger] opens[i]).ok
            &&& forall|i: int, j: int|
                0 <= i < j < opens.len() ==> (#[trigger] opens[j]).now >= (
                #[trigger] opens[i]).opened_at + FILE_OPEN_RETRY
        }),
{
    assert(ticks.push(next).drop_last() =~= ticks);
    opens_are_apart(ticks.push(next));
    opens_are_apart(ticks);
}

proof fn opens_are_apart(ticks: Seq<FileTick>)
    requires
        in_time(ticks),
    ensures
        ({
            let run = file_run(ticks);
            &&& run.source.started == (run.opens.len() > 0 && run.opens.last().ok)
            &&& run.source.retry_after == (if run.opens.len() > 0 && !run.opens.last().ok {
                Some((run.opens.last().opened_at + FILE_OPEN_RETRY) as u64)
            } else {
                None
            })
            &&& forall|i: int|
                0 <= i < run.opens.len() ==> (#[trigger] run.opens[i]).now
                    <= run.opens[i].opened_at && (!run.opens[i].ok ==> run.opens[i].opened_at
                    + FILE_OPEN_RETRY <= u64::MAX)
            &&& forall|i: int| 0 <= i < run.opens.len() - 1 ==> !(#[trigger] run.opens[i]).ok
            &&& forall|i: int, j: int|
                0 <= i < j < run.opens.len() ==> (#[trigger] run.opens[j]).now >= (
                #[trigger] run.opens[i]).opened_at + FILE_OPEN_RETRY
        }),
    decreases ticks.len(),
{
    if ticks.len() > 0 {
        let front = ticks.drop_last();
        assert(in_time(front)) by {
            assert(forall|i: int| 0 <= i < front.len() ==> front[i] == ticks[i]);
        }
        opens_are_apart(front);
        let tick = ticks.last();
        assert(tick == ticks[ticks.len() - 1]);
        let before = file_run(front);
        if before.source.start_at(LcdBackend::HidLcd, tick.now) == FileStart::OpenFile {
            let run = file_run(ticks);
            let last = before.opens.len() as int;
            assert(run.opens[last] == tick);
            assert(forall|i: int| 0 <= i < last ==> run.opens[i] == before.opens[i]);
            assert forall|i: int, j: int| 0 <= i < j < run.opens.len() implies (
            #[trigger] run.opens[j]).now >= (#[trigger] run.opens[i]).opened_at
                + FILE_OPEN_RETRY by {
                if j == last && i < last - 1 {
                    assert(before.opens[last - 1].now >= before.opens[i].opened_at
                        + FILE_OPEN_RETRY);
                }
            }
        }
    }
}

/// Every asset gets a source that fits it, pipeline or not; and a source without a pipeline where
/// the screen shows no H.264.
pub proof fn every_asset_has_a_source(
    asset: MediaAsset,
    screen_h264: bool,
    custom_h264: bool,
    pipeline_up: bool,
)
    ensures
        source_plan(asset, screen_h264, custom_h264).source(pipeline_up).fits(asset),
        !(source_plan(asset, screen_h264, custom_h264).source(pipeline_up) is Noop),
        !screen_h264 && !(asset is H264Stream) ==> !source_plan(
            asset,
            screen_h264,
            custom_h264,
        ).source(pipeline_up).streams_itself(),
{
}

/// No source gives a frame again. Once a source has been asked, it gives nothing as long as no new
/// frame has come, that is, as long as the number of the current frame does not rise. A still picture
/// is never followed by a new frame, and a source that streams by itself gives none at all.
pub proof fn frames_are_sent_once(
    source: FrameSource,
    asset: MediaAsset,
    index: usize,
    later: usize,
    rendered: Seq<u8>,
    again: Seq<u8>,
)
    ensures
        later <= index ==> source.asked(asset, index, rendered).frame(asset, later, again) is None,
        source is Static ==> source.asked(asset, index, rendered).frame(asset, later, again) is None,
        source.streams_itself() ==> source.frame(asset, index, rendered) is None,
        source.sent_index() is Some && source.frame(asset, index, rendered) is Some
            ==> source.sent_index()->0 < source.asked(asset, index, rendered).sent_index()->0,
{
}

/// A file is started once: as soon as it is asked for, unless it plays or waits behind a failure. On a
/// panel it is posted, on a HID LCD it is opened, and on an SLV3 LCD nothing is done and it counts as
/// started. Asking changes nothing else.
pub proof fn files_start_where_they_can_play(source: H264FileSource, backend: LcdBackend, now: u64)
    ensures
        ({
            let idle = !source.started && (source.retry_after is None || source.retry_after->0
                <= now);
            let start = source.start_at(backend, now);
            let after = source.behind_start(backend, now);
            &&& !idle ==> start == FileStart::Nothing && after == source
            &&& idle && backend == LcdBackend::WinUsb ==> start == FileStart::Post && after
                == source
            &&& idle && backend == LcdBackend::HidLcd ==> start == FileStart::OpenFile && after
                == source
            &&& idle && backend == LcdBackend::Slv3 ==> start == FileStart::Nothing
                && after.started && after.retry_after == source.retry_after
        }),
{
}

/// A file that was opened plays, and no wait is left. One that could not be opened does not play for
/// that, and waits for five seconds.
pub proof fn missing_files_wait_five_seconds(source: H264FileSource, now: u64)
    requires
        now + 5_000_000_000 <= u64::MAX,
    ensures
        source.behind_open(true, now).started,
        source.behind_open(true, now).retry_after is None,
        source.behind_open(false, now).started == source.started,
        source.behind_open(false, now).retry_after == Some((now + 5_000_000_000) as u64),
{
}

/// A source gives what is due: a still picture until it has been sent; of a video the frame with the
/// current number, counted round and round, once its number is higher than that of the last one; of a
/// renderer what it shows, likewise. Nothing else gives a frame, and a source gives none for an asset of
/// another kind.
pub proof fn sources_give_what_is_due(
    source: FrameSource,
    asset: MediaAsset,
    index: usize,
    rendered: Seq<u8>,
)
    ensures
        match source {
            FrameSource::Static { sent } => match asset {
                MediaAsset::Static { frame } => if sent {
                    source.frame(asset, index, rendered) is None
                } else {
                    source.frame(asset, index, rendered) == Some(frame@)
                },
                _ => source.frame(asset, index, rendered) is None,
            },
            FrameSource::Video { sent_index } => match asset {
                MediaAsset::Video { frames } => if sent_index < index && frames@.len() > 0 {
                    exists|turn: int, at: int|
                        index == #[trigger] (turn * frames@.len()) + at && 0 <= at < frames@.len()
                            && source.frame(asset, index, rendered) == Some(
                            (#[trigger] frames@[at])@,
                        )
                } else {
                    source.frame(asset, index, rendered) is None
                },
                _ => source.frame(asset, index, rendered) is None,
            },
            FrameSource::Sensor { sent_index } | FrameSource::Custom { sent_index } => if sent_index
                < index {
                source.frame(asset, index, rendered) == Some(rendered)
            } else {
                source.frame(asset, index, rendered) is None
            },
            FrameSource::Noop
            | FrameSource::H264File(_)
            | FrameSource::SensorH264
            | FrameSource::CustomH264 => source.frame(asset, index, rendered) is None,
        },
{
    if let (FrameSource::Video { sent_index }, MediaAsset::Video { frames }) = (source, asset) {
        if sent_index < index && frames@.len() > 0 {
            let len = frames@.len() as int;
            let at = index as int % len;
            let turn = index as int / len;
            vstd::arithmetic::div_mod::lemma_fundamental_div_mod(index as int, len);
            assert(turn * len == len * turn) by (nonlinear_arith);
            assert(index == turn * frames@.len() + at);
            assert(source.frame(asset, index, rendered) == Some(frames@[at]@));
        }
    }
}

/// A source that has given a frame remembers its number, or that the picture was sent, and one that has
/// given none stays as it is. A failure has a still picture given again, and changes no other source.
pub proof fn sources_remember_what_they_gave(
    source: FrameSource,
    asset: MediaAsset,
    index: usize,
    rendered: Seq<u8>,
)
    ensures
        source.frame(asset, index, rendered) is None ==> source.asked(asset, index, rendered)
            == source,
        source.frame(asset, index, rendered) is Some ==> source.asked(asset, index, rendered)
            == source.behind(index),
        match source {
            FrameSource::Static { .. } => {
                &&& source.behind(index) == (FrameSource::Static { sent: true })
                &&& source.behind_failure() == (FrameSource::Static { sent: false })
            },
            FrameSource::Video { .. } => {
                &&& source.behind(index) == (FrameSource::Video { sent_index: index })
                &&& source.behind_failure() == source
            },
            FrameSource::Sensor { .. } => {
                &&& source.behind(index) == (FrameSource::Sensor { sent_index: index })
                &&& source.behind_failure() == source
            },
            FrameSource::Custom { .. } => {
                &&& source.behind(index) == (FrameSource::Custom { sent_index: index })
                &&& source.behind_failure() == source
            },
            _ => source.behind(index) == source && source.behind_failure() == source,
        },
        source.streams_itself() <==> source is H264File || source is SensorH264
            || source is CustomH264,
{
}

/// The source of an asset: sensor values go through a pipeline where the screen shows H.264 and the
/// pipeline comes up; custom layouts do so too, if they are asked to; and every source starts with
/// nothing sent.
pub proof fn pipelines_are_used_where_they_come_up(
    asset: MediaAsset,
    screen_h264: bool,
    custom_h264: bool,
    up: bool,
)
    ensures
        ({
            let plan = source_plan(asset, screen_h264, custom_h264);
            let source = plan.source(up);
            &&& match asset {
                MediaAsset::Static { .. } => source == (FrameSource::Static { sent: false }),
                MediaAsset::Video { .. } => source == (FrameSource::Video { sent_index: 0 }),
                MediaAsset::Sensor => source == if screen_h264 && up {
                    FrameSource::SensorH264
                } else {
                    FrameSource::Sensor { sent_index: 0 }
                },
                MediaAsset::H264Stream { .. } => source == FrameSource::H264File(
                    H264FileSource { started: false, retry_after: None },
                ),
                MediaAsset::Custom => source == if screen_h264 && custom_h264 && up {
                    FrameSource::CustomH264
                } else {
                    FrameSource::Custom { sent_index: 0 }
                },
            }
            &&& plan is TryPipeline <==> screen_h264 && (asset is Sensor || (asset is Custom
                && custom_h264))
        }),
{
}

} // verus!
