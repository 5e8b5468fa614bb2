//! A target: one LCD with what it shows.

use vstd::prelude::*;
use crate::backend::LcdBackend;
use crate::frame_source;
use crate::frame_source::{make_frame_source, FileStart, FrameSource, MediaAsset};

verus! {

/// One LCD with what it shows.
pub struct ActiveTarget {
    pub index: usize,
    /// The configuration entry that the target was made for.
    pub key: String,
    pub device_identity: String,
    pub backend: LcdBackend,
    pub media: FrameSource,
    /// While a frame is on its way: the source before it.
    pub on_its_way: Option<FrameSource>,
    pub asset: MediaAsset,
    /// The screen shows H.264.
    pub screen_h264: bool,
    /// Custom layouts are to use an H.264 pipeline.
    pub custom_h264: bool,
    /// How many frames have been sent of this asset.
    pub frame_counter: u64,
    pub consecutive_errors: u32,
    /// The recovery thread has been asked to stop.
    pub recovery_stop: bool,
    /// There is a recovery thread.
    pub recovery_running: bool,
    /// The device has been initialized: before that, not taking C packets only means that the
    /// firmware is not known yet.
    pub init_complete: bool,
    /// The device has said that it does not support recovery.
    pub recovery_unsupported: bool,
    /// A brightness that could not be set because the device was being initialized.
    pub pending_brightness: Option<u8>,
}

/// What a HID LCD answers when its lock can be had.
#[derive(Clone, Copy, Debug, PartialEq, Eq, Structural)]
pub struct RecoveryAnswer {
    pub supports_c_command: bool,
    pub firmware_known: bool,
}

/// What sending a frame takes.
pub enum SendPlan<'a> {
    /// Start the source, which streams by itself; report with [`ActiveTarget::source_started`].
    StartSource(FileStart),
    /// There is no frame to send.
    Idle,
    /// Send a frame, over the verified way if `verified`; answer with
    /// [`ActiveTarget::frame_sent`].
    Send { verified: bool, frame: &'a [u8] },
}

/// What became of a frame.
pub enum SendOutcome<U, E> {
    Sent,
    /// The LCD is being initialized.
    Busy,
    /// The transport failed.
    Usb(U),
    Other(E),
}

/// A [`SendOutcome`] without its error.
#[derive(Clone, Copy, Debug, PartialEq, Eq, Structural)]
pub enum FrameFate {
    Sent,
    Busy,
    Failed,
}

impl<U, E> SendOutcome<U, E> {
    /// The outcome without its error.
    pub open spec fn fate(self) -> FrameFate {
        match self {
            SendOutcome::Sent => FrameFate::Sent,
            SendOutcome::Busy => FrameFate::Busy,
            SendOutcome::Usb(_) | SendOutcome::Other(_) => FrameFate::Failed,
        }
    }
}

/// Why a frame could not be sent.
pub enum SendError<U, E> {
    Usb(U),
    Other(E),
}

impl ActiveTarget {
    /// `then` drives the same device in the same state: only what it shows may differ.
    pub open spec fn same_device(self, then: ActiveTarget) -> bool {
        &&& then.index == self.index
        &&& then.key == self.key
        &&& then.device_identity == self.device_identity
        &&& then.backend == self.backend
        &&& then.screen_h264 == self.screen_h264
        &&& then.consecutive_errors == self.consecutive_errors
        &&& then.recovery_stop == self.recovery_stop
        &&& then.recovery_running == self.recovery_running
        &&& then.init_complete == self.init_complete
        &&& then.recovery_unsupported == self.recovery_unsupported
        &&& then.pending_brightness == self.pending_brightness
    }

    /// A target for an LCD, with the source for its asset. `pipeline_up` says whether the H.264
    /// pipeline came up, where the source is tried with one; `supports_recovery` is what a HID LCD
    /// says, if its lock can be had within [`LcdBackend::recovery_lock_wait`]. A recovery thread is to be started where `recovery_running` is
    /// set.
    pub fn new(
        index: usize,
        key: String,
        device_identity: String,
        backend: LcdBackend,
        asset: MediaAsset,
        screen_h264: bool,
        custom_h264: bool,
        pipeline_up: bool,
        supports_recovery: Option<bool>,
    ) -> (target: Self)
        ensures
            target == (ActiveTarget {
                index,
                key,
                device_identity,
                backend,
                media: frame_source::source_plan(asset, screen_h264, custom_h264).source(
                    pipeline_up,
                ),
                on_its_way: None,
                asset,
                screen_h264,
                custom_h264,
                frame_counter: 0,
                consecutive_errors: 0,
                recovery_stop: false,
                recovery_running: backend == LcdBackend::HidLcd && supports_recovery == Some(true),
                init_complete: false,
                recovery_unsupported: false,
                pending_brightness: None,
            }),
    {
        let media = make_frame_source(&asset, screen_h264, custom_h264).resolve(pipeline_up);
        let recovery_running = match (backend, supports_recovery) {
            (LcdBackend::HidLcd, Some(supports)) => supports,
            _ => false,
        };
        ActiveTarget {
            index,
            key,
            device_identity,
            backend,
            media,
            on_its_way: None,
            asset,
            screen_h264,
            custom_h264,
            frame_counter: 0,
            consecutive_errors: 0,
            recovery_stop: false,
            recovery_running,
            init_complete: false,
            recovery_unsupported: false,
            pending_brightness: None,
        }
    }

    /// A recovery thread is missing, and the device may support one.
    pub open spec fn lacks_recovery(self) -> bool {
        !self.recovery_running && !self.recovery_unsupported && self.backend == LcdBackend::HidLcd
    }

    /// The recovery thread is started on this answer.
    pub open spec fn starts_recovery(self, answer: Option<RecoveryAnswer>) -> bool {
        self.lacks_recovery() && (answer matches Some(given) && given.supports_c_command)
    }

    /// The answer is a final no.
    pub open spec fn rules_out_recovery(self, answer: Option<RecoveryAnswer>) -> bool {
        self.lacks_recovery() && self.init_complete && (answer matches Some(given)
            && !given.supports_c_command && given.firmware_known)
    }

    /// The target behind an answer.
    pub open spec fn behind_answer(self, answer: Option<RecoveryAnswer>) -> ActiveTarget {
        ActiveTarget {
            recovery_running: self.recovery_running || self.starts_recovery(answer),
            recovery_unsupported: self.recovery_unsupported || self.rules_out_recovery(answer),
            ..self
        }
    }

    /// Whether to ask the LCD about recovery.
    pub fn wants_recovery(&self) -> (wants: bool)
        ensures
            wants == self.lacks_recovery(),
    {
        if self.recovery_running || self.recovery_unsupported {
            return false;
        }
        match self.backend {
            LcdBackend::HidLcd => true,
            _ => false,
        }
    }

    /// Starts the recovery thread if it is missing and the device takes C packets now. `answer` is
    /// what the LCD says, if its lock can be had: an LCD that is busy is asked again later. Only an
    /// initialized device whose firmware is known gives a final no; then it is not asked again. The
    /// result says whether to start the thread.
    pub fn maybe_start_recovery(&mut self, answer: Option<RecoveryAnswer>) -> (start: bool)
        ensures
            start == old(self).starts_recovery(answer),
            *final(self) == old(self).behind_answer(answer),
    {
        if !self.wants_recovery() {
            return false;
        }
        match answer {
            None => false,
            Some(answer) => {
                if !answer.supports_c_command {
                    if self.init_complete && answer.firmware_known {
                        self.recovery_unsupported = true;
                    }
                    return false;
                }
                self.recovery_running = true;
                true
            },
        }
    }

    /// The device has been initialized.
    pub fn mark_init_complete(&mut self)
        ensures
            *final(self) == (ActiveTarget { init_complete: true, ..*old(self) }),
    {
        self.init_complete = true;
    }

    /// What a wanted brightness sets now.
    pub open spec fn sets_now(self, brightness: u8, lock_free: bool) -> Option<u8> {
        if self.backend == LcdBackend::HidLcd && !lock_free {
            None
        } else {
            Some(brightness)
        }
    }

    /// The target behind a wanted brightness.
    pub open spec fn behind_brightness(self, brightness: u8, lock_free: bool) -> ActiveTarget {
        ActiveTarget {
            pending_brightness: if self.sets_now(brightness, lock_free) is None {
                Some(brightness)
            } else {
                self.pending_brightness
            },
            ..self
        }
    }

    /// The target with no brightness put off.
    pub open spec fn flushed(self) -> ActiveTarget {
        ActiveTarget { pending_brightness: None, ..self }
    }

    /// Sets the brightness now if the LCD is free, and otherwise remembers it. `lock_free` says
    /// whether the lock of a HID LCD can be had within [`LcdBackend::brightness_lock_wait`]; other LCDs
    /// are always free. The result is the value to set now.
    pub fn apply_brightness(&mut self, brightness: u8, lock_free: bool) -> (now: Option<u8>)
        ensures
            now == old(self).sets_now(brightness, lock_free),
            *final(self) == old(self).behind_brightness(brightness, lock_free),
    {
        match self.backend {
            LcdBackend::HidLcd => {
                if !lock_free {
                    self.pending_brightness = Some(brightness);
                    return None;
                }
                Some(brightness)
            },
            _ => Some(brightness),
        }
    }

    /// Gives a brightness that was put off, to be set now that the device has been initialized.
    pub fn flush_pending_brightness(&mut self) -> (now: Option<u8>)
        ensures
            now == old(self).pending_brightness,
            *final(self) == old(self).flushed(),
    {
        self.pending_brightness.take()
    }

    /// Whether the target is that of a device and a configuration entry.
    pub fn matches(&self, identity: &String, key: &String) -> (is: bool)
        ensures
            is == (self.device_identity@ == identity@ && self.key@ == key@),
    {
        self.device_identity == *identity && self.key == *key
    }

    /// Shows another asset, over the same transport. `pipeline_up` says whether the H.264 pipeline
    /// came up, where the new source is tried with one.
    pub fn swap_media(&mut self, asset: MediaAsset, custom_h264: bool, pipeline_up: bool)
        ensures
            final(self).asset == asset,
            final(self).custom_h264 == custom_h264,
            final(self).media == frame_source::source_plan(
                asset,
                old(self).screen_h264,
                custom_h264,
            ).source(pipeline_up),
            final(self).on_its_way is None,
            final(self).frame_counter == 0,
            old(self).same_device(*final(self)),
    {
        self.on_its_way = None;
        self.media = make_frame_source(&asset, self.screen_h264, custom_h264).resolve(pipeline_up);
        self.asset = asset;
        self.custom_h264 = custom_h264;
        self.frame_counter = 0;
    }

    /// Changes whether custom layouts use an H.264 pipeline. If that is a change, the source is made
    /// anew for the same asset; otherwise nothing happens. The result says which.
    pub fn update_custom_h264(&mut self, custom_h264: bool, pipeline_up: bool) -> (changed: bool)
        ensures
            changed == (old(self).custom_h264 != custom_h264),
            !changed ==> *final(self) == *old(self),
            changed ==> {
                &&& final(self).asset == old(self).asset
                &&& final(self).custom_h264 == custom_h264
                &&& final(self).media == frame_source::source_plan(
                    old(self).asset,
                    old(self).screen_h264,
                    custom_h264,
                ).source(pipeline_up)
                &&& final(self).on_its_way is None
                &&& final(self).frame_counter == 0
                &&& old(self).same_device(*final(self))
            },
    {
        if self.custom_h264 == custom_h264 {
            return false;
        }
        self.on_its_way = None;
        self.media = make_frame_source(&self.asset, self.screen_h264, custom_h264).resolve(
            pipeline_up,
        );
        self.custom_h264 = custom_h264;
        self.frame_counter = 0;
        true
    }

    /// The target with frame number `index` of its source on the way.
    pub open spec fn offering(self, index: usize) -> ActiveTarget {
        ActiveTarget { media: self.media.behind(index), on_its_way: Some(self.media), ..self }
    }

    /// The target with no frame on the way.
    pub open spec fn at_rest(self) -> ActiveTarget {
        ActiveTarget { on_its_way: None, ..self }
    }

    /// Starts to send the next frame, at `now`. `frame_index` is the number of the current frame of
    /// the player or renderer, and `rendered` what the renderer shows, if the source wants it.
    pub fn send_frame<'a>(&'a mut self, now: u64, frame_index: usize, rendered: &'a [u8]) -> (plan:
        SendPlan<'a>)
        ensures
            ({
                let media = old(self).media;
                match plan {
                    SendPlan::StartSource(start) => {
                        &&& media.streams_itself()
                        &&& match media {
                            FrameSource::H264File(file) => {
                                &&& start == file.start_at(old(self).backend, now)
                                &&& *final(self) == (ActiveTarget {
                                    media: FrameSource::H264File(
                                        file.behind_start(old(self).backend, now),
                                    ),
                                    ..old(self).at_rest()
                                })
                            },
                            _ => start == FileStart::Nothing && *final(self) == old(
                                self,
                            ).at_rest(),
                        }
                    },
                    SendPlan::Idle => {
                        &&& !media.streams_itself()
                        &&& media.frame(old(self).asset, frame_index, rendered@) is None
                        &&& *final(self) == old(self).at_rest()
                    },
                    SendPlan::Send { verified, frame } => {
                        &&& !media.streams_itself()
                        &&& media.frame(old(self).asset, frame_index, rendered@) == Some(frame@)
                        &&& verified == (media is Static)
                        &&& *final(self) == old(self).offering(frame_index)
                    },
                }
            }),
    {
        self.on_its_way = None;
        if self.media.is_autonomous() {
            return SendPlan::StartSource(self.media.start(self.backend, now));
        }
        let verified = self.media.is_static();
        let before = self.media;
        match self.media.next_frame(&self.asset, frame_index, rendered) {
            Some(frame) => {
                self.on_its_way = Some(before);
                SendPlan::Send { verified, frame }
            },
            None => SendPlan::Idle,
        }
    }

    /// What is reported behind the start of a source that streams by itself.
    pub fn source_started<U, E>(&self, started: Result<(), E>) -> (result: Result<
        bool,
        SendError<U, E>,
    >)
        ensures
            result == (match started {
                Ok(_) => Ok::<bool, SendError<U, E>>(true),
                Err(error) => Err(SendError::Other(error)),
            }),
    {
        match started {
            Ok(_) => Ok(true),
            Err(error) => Err(SendError::Other(error)),
        }
    }

    /// The target behind a frame. One that was sent is counted. One that a busy LCD put off is taken
    /// back: the source stands where it stood before. One that failed is passed over, unless it is a
    /// still picture.
    pub open spec fn behind_frame(self, fate: FrameFate) -> ActiveTarget {
        match fate {
            FrameFate::Sent => ActiveTarget {
                frame_counter: (self.frame_counter + 1) as u64,
                ..self.at_rest()
            },
            FrameFate::Busy => ActiveTarget {
                media: match self.on_its_way {
                    Some(before) => before,
                    None => self.media,
                },
                ..self.at_rest()
            },
            FrameFate::Failed => ActiveTarget {
                media: self.media.behind_failure(),
                ..self.at_rest()
            },
        }
    }

    /// What is reported behind a frame. One that was sent is counted. A busy LCD is no error: nothing
    /// was sent, and the same frame is offered again.
    pub fn frame_sent<U, E>(&mut self, outcome: SendOutcome<U, E>) -> (result: Result<
        bool,
        SendError<U, E>,
    >)
        requires
            outcome is Sent ==> old(self).frame_counter < u64::MAX,
        ensures
            result == (match outcome {
                SendOutcome::Sent => Ok::<bool, SendError<U, E>>(true),
                SendOutcome::Busy => Ok(false),
                SendOutcome::Usb(error) => Err(SendError::Usb(error)),
                SendOutcome::Other(error) => Err(SendError::Other(error)),
            }),
            *final(self) == old(self).behind_frame(outcome.fate()),
    {
        let before = self.on_its_way.take();
        match outcome {
            SendOutcome::Sent => {
                self.frame_counter = self.frame_counter + 1;
                Ok(true)
            },
            SendOutcome::Busy => {
                if let Some(before) = before {
                    self.media = before;
                }
                Ok(false)
            },
            SendOutcome::Usb(error) => {
                self.media.frame_failed();
                Err(SendError::Usb(error))
            },
            SendOutcome::Other(error) => {
                self.media.frame_failed();
                Err(SendError::Other(error))
            },
        }
    }

    /// The target at its end.
    pub open spec fn stopped(self) -> ActiveTarget {
        ActiveTarget {
            recovery_stop: true,
            media: FrameSource::Noop,
            on_its_way: None,
            recovery_running: false,
            ..self
        }
    }

    /// Ends the target: its source is dropped and the recovery thread is asked to stop. The result
    /// says whether there is one to wait for.
    pub fn stop(&mut self) -> (join: bool)
        ensures
            join == old(self).recovery_running,
            *final(self) == old(self).stopped(),
    {
        self.recovery_stop = true;
        self.media = FrameSource::Noop;
        self.on_its_way = None;
        let join = self.recovery_running;
        self.recovery_running = false;
        join
    }
}

/// The target behind brightness values that were wanted one after the other, each with whether the
/// lock was free.
pub open spec fn brightness_run(target: ActiveTarget, wanted: Seq<(u8, bool)>) -> ActiveTarget
    decreases wanted.len(),
{
    if wanted.len() == 0 {
        target
    } else {
        let (brightness, lock_free) = wanted.last();
        brightness_run(target, wanted.drop_last()).behind_brightness(brightness, lock_free)
    }
}

/// Of the brightness values that are wanted while a HID LCD is busy, the last one is set when the
/// device has been initialized, and it is set once.
pub proof fn last_deferred_brightness_is_set_once(target: ActiveTarget, wanted: Seq<(u8, bool)>)
    requires
        target.backend == LcdBackend::HidLcd,
        wanted.len() > 0,
        !wanted.last().1,
    ensures
        brightness_run(target, wanted).pending_brightness == Some(wanted.last().0),
        brightness_run(target, wanted).flushed().pending_brightness is None,
{
    brightness_keeps_the_backend(target, wanted.drop_last());
}

proof fn brightness_keeps_the_backend(target: ActiveTarget, wanted: Seq<(u8, bool)>)
    ensures
        brightness_run(target, wanted).backend == target.backend,
    decreases wanted.len(),
{
    if wanted.len() > 0 {
        brightness_keeps_the_backend(target, wanted.drop_last());
    }
}

/// A brightness is put off on no other LCD than a busy HID LCD: elsewhere each value is set at once.
/// The target stays as it is: a value that was put off before is still set later.
pub proof fn free_lcds_are_set_at_once(target: ActiveTarget, brightness: u8, lock_free: bool)
    requires
        target.backend != LcdBackend::HidLcd || lock_free,
    ensures
        target.sets_now(brightness, lock_free) == Some(brightness),
        target.behind_brightness(brightness, lock_free) == target,
{
}

/// The target behind answers about recovery that came one after the other.
pub open spec fn answers_run(
    target: ActiveTarget,
    answers: Seq<Option<RecoveryAnswer>>,
) -> ActiveTarget
    decreases answers.len(),
{
    if answers.len() == 0 {
        target
    } else {
        answers_run(target, answers.drop_last()).behind_answer(answers.last())
    }
}

/// How many of these answers start a recovery thread.
pub open spec fn recovery_starts(target: ActiveTarget, answers: Seq<Option<RecoveryAnswer>>) -> int
    decreases answers.len(),
{
    if answers.len() == 0 {
        0
    } else {
        recovery_starts(target, answers.drop_last()) + if answers_run(
            target,
            answers.drop_last(),
        ).starts_recovery(answers.last()) {
            1int
        } else {
            0int
        }
    }
}

/// However often the LCD is asked, at most one recovery thread is started, and none where one is
/// running already.
pub proof fn recovery_is_started_once(target: ActiveTarget, answers: Seq<Option<RecoveryAnswer>>)
    ensures
        0 <= recovery_starts(target, answers) <= 1,
        target.recovery_running ==> recovery_starts(target, answers) == 0,
        answers_run(target, answers).recovery_running == (target.recovery_running
            || recovery_starts(target, answers) == 1),
    decreases answers.len(),
{
    if answers.len() > 0 {
        recovery_is_started_once(target, answers.drop_last());
    }
}

/// A HID LCD that was busy, or whose firmware was not known, whenever it was asked is still asked:
/// such answers never rule recovery out, so the first answer that the device takes C packets starts
/// the thread.
pub proof fn unknown_firmware_keeps_recovery_open(
    target: ActiveTarget,
    answers: Seq<Option<RecoveryAnswer>>,
    yes: RecoveryAnswer,
)
    requires
        target.lacks_recovery(),
        forall|i: int|
            0 <= i < answers.len() ==> (#[trigger] answers[i] matches Some(given)
                ==> !given.supports_c_command && !given.firmware_known),
        yes.supports_c_command,
    ensures
        answers_run(target, answers) == target,
        answers_run(target, answers).starts_recovery(Some(yes)),
    decreases answers.len(),
{
    if answers.len() > 0 {
        let last = answers.last();
        assert(last == answers[answers.len() - 1]);
        assert forall|i: int| 0 <= i < answers.drop_last().len() implies (
        #[trigger] answers.drop_last()[i] matches Some(given) ==> !given.supports_c_command
            && !given.firmware_known) by {
            assert(answers.drop_last()[i] == answers[i]);
        }
        unknown_firmware_keeps_recovery_open(target, answers.drop_last(), yes);
    }
}

/// A frame that a busy LCD put off is offered again: the target stands as it stood before the frame,
/// so that the same frame, of the same number, is the next one to send.
pub proof fn busy_frame_is_offered_again(target: ActiveTarget, index: usize, rendered: Seq<u8>)
    requires
        target.media.frame(target.asset, index, rendered) is Some,
    ensures
        target.offering(index).behind_frame(FrameFate::Busy) == target.at_rest(),
        target.offering(index).behind_frame(FrameFate::Busy).media.frame(
            target.asset,
            index,
            rendered,
        ) == target.media.frame(target.asset, index, rendered),
{
}

/// A still picture is offered until it has been sent, and not after that.
pub proof fn still_picture_is_sent_once(target: ActiveTarget, index: usize, later: usize)
    requires
        target.media == (FrameSource::Static { sent: false }),
        target.asset is Static,
    ensures
        forall|fate: FrameFate|
            (#[trigger] target.offering(index).behind_frame(fate)).media.frame(
                target.asset,
                later,
                Seq::empty(),
            ) is Some <==> fate != FrameFate::Sent,
{
}

/// A frame on its way to the LCD: its number, and what becomes of it.
pub struct FrameTry {
    pub index: usize,
    pub fate: FrameFate,
}

/// The target behind frames that went on their way one after the other.
pub open spec fn frames_run(target: ActiveTarget, tries: Seq<FrameTry>) -> ActiveTarget
    decreases tries.len(),
{
    if tries.len() == 0 {
        target
    } else {
        frames_run(target, tries.drop_last()).offering(tries.last().index).behind_frame(
            tries.last().fate,
        )
    }
}

/// How many of some frames were sent.
pub open spec fn count_sent(tries: Seq<FrameTry>) -> int
    decreases tries.len(),
{
    if tries.len() == 0 {
        0
    } else {
        count_sent(tries.drop_last()) + if tries.last().fate == FrameFate::Sent {
            1int
        } else {
            0int
        }
    }
}

/// The counter counts the frames that were sent, and those only. Whatever becomes of frames, the
/// target never counts an error for them, and drives the same device with the same asset.
pub proof fn counter_counts_sent_frames(target: ActiveTarget, tries: Seq<FrameTry>)
    requires
        target.frame_counter + tries.len() <= u64::MAX,
    ensures
        0 <= count_sent(tries) <= tries.len(),
        frames_run(target, tries).frame_counter == target.frame_counter + count_sent(tries),
        frames_run(target, tries).consecutive_errors == target.consecutive_errors,
        frames_run(target, tries).asset == target.asset,
        target.same_device(frames_run(target, tries)),
    decreases tries.len(),
{
    if tries.len() > 0 {
        counter_counts_sent_frames(target, tries.drop_last());
    }
}

/// Ending a target twice is ending it once: the second time there is no thread to wait for.
pub proof fn stop_is_idempotent(target: ActiveTarget)
    ensures
        target.stopped().stopped() == target.stopped(),
        !target.stopped().recovery_running,
{
}

/// The recovery thread is started exactly when a HID LCD without one, which has not ruled it out, says
/// that it takes C packets. It is ruled out exactly when such an LCD, initialized and with its firmware
/// known, says that it does not. An answer changes nothing else.
pub proof fn answers_decide_about_recovery(target: ActiveTarget, answer: Option<RecoveryAnswer>)
    ensures
        ({
            let open = target.backend == LcdBackend::HidLcd && !target.recovery_running
                && !target.recovery_unsupported;
            let after = target.behind_answer(answer);
            &&& target.lacks_recovery() <==> open
            &&& target.starts_recovery(answer) <==> open && answer is Some
                && answer->0.supports_c_command
            &&& after.recovery_running <==> target.recovery_running || target.starts_recovery(
                answer,
            )
            &&& after.recovery_unsupported <==> target.recovery_unsupported || (open
                && target.init_complete && answer is Some && !answer->0.supports_c_command
                && answer->0.firmware_known)
            &&& after == ActiveTarget {
                recovery_running: after.recovery_running,
                recovery_unsupported: after.recovery_unsupported,
                ..target
            }
        }),
{
}

/// A brightness is set at once, as it was wanted, unless a HID LCD is busy; then it is put off, in place
/// of one that was put off before. Nothing else changes, neither then nor when it is set later.
pub proof fn brightness_is_set_or_put_off(target: ActiveTarget, brightness: u8, lock_free: bool)
    ensures
        ({
            let busy = target.backend == LcdBackend::HidLcd && !lock_free;
            let after = target.behind_brightness(brightness, lock_free);
            &&& !busy ==> target.sets_now(brightness, lock_free) == Some(brightness)
            &&& !busy ==> after == target
            &&& busy ==> target.sets_now(brightness, lock_free) is None
            &&& busy ==> after.pending_brightness == Some(brightness)
            &&& after == ActiveTarget { pending_brightness: after.pending_brightness, ..target }
            &&& target.flushed() == ActiveTarget { pending_brightness: None, ..target }
        }),
{
}

/// A frame on its way leaves the source behind it, and remembers where it stood. What was sent counts
/// one; what a busy LCD put off is taken back; what failed is due again only if it is a still picture.
/// Nothing else about the target changes.
pub proof fn frames_count_go_back_or_are_passed_over(
    target: ActiveTarget,
    index: usize,
    fate: FrameFate,
)
    requires
        target.frame_counter < u64::MAX,
    ensures
        ({
            let offering = target.offering(index);
            let after = offering.behind_frame(fate);
            &&& offering == ActiveTarget {
                media: target.media.behind(index),
                on_its_way: Some(target.media),
                ..target
            }
            &&& after.on_its_way is None
            &&& fate == FrameFate::Sent ==> after.frame_counter == target.frame_counter + 1
                && after.media == target.media.behind(index)
            &&& fate == FrameFate::Busy ==> after.frame_counter == target.frame_counter
                && after.media == target.media
            &&& fate == FrameFate::Failed ==> after.frame_counter == target.frame_counter
                && after.media == if target.media is Static {
                FrameSource::Static { sent: false }
            } else {
                target.media.behind(index)
            }
            &&& after == ActiveTarget {
                media: after.media,
                on_its_way: None,
                frame_counter: after.frame_counter,
                ..target
            }
            &&& target.at_rest() == ActiveTarget { on_its_way: None, ..target }
        }),
{
    frame_source::sources_remember_what_they_gave(
        target.media,
        target.asset,
        index,
        Seq::empty(),
    );
}

/// Only what was sent counts as sent; a busy LCD is no failure; every error is one.
pub proof fn outcomes_keep_their_fate<U, E>(outcome: SendOutcome<U, E>)
    ensures
        outcome is Sent <==> outcome.fate() == FrameFate::Sent,
        outcome is Busy <==> outcome.fate() == FrameFate::Busy,
        outcome is Usb || outcome is Other <==> outcome.fate() == FrameFate::Failed,
{
}

/// A target that has ended shows nothing, has its recovery thread asked to stop, and has none running.
/// The rest of it stays.
pub proof fn ended_targets_show_nothing(target: ActiveTarget)
    ensures
        target.stopped() == (ActiveTarget {
            recovery_stop: true,
            media: FrameSource::Noop,
            on_its_way: None,
            recovery_running: false,
            ..target
        }),
{
}

/// Targets of the same device in the same state differ in nothing but the media, the asset and the
/// count of its frames.
pub proof fn same_device_means_all_but_the_media(target: ActiveTarget, then: ActiveTarget)
    requires
        target.same_device(then),
    ensures
        then == (ActiveTarget {
            media: then.media,
            on_its_way: then.on_its_way,
            asset: then.asset,
            custom_h264: then.custom_h264,
            frame_counter: then.frame_counter,
            ..target
        }),
{
}

} // verus!
