use lianli_lcd::backend::{
    BrightnessRoute, FrameRoute, LcdBackend, StreamStart, BRIGHTNESS_LOCK_WAIT_MS, RECOVERY_LOCK_WAIT_MS,
};
use lianli_lcd::frame_source::{
    make_frame_source, FileStart, FrameSource, H264FileSource, MediaAsset, SourcePlan, FILE_OPEN_RETRY,
};
use lianli_lcd::recovery::RecoveryAction;
use lianli_lcd::recovery_watch::{RecoveryWatch, WatchAction, WatchEvent};
use lianli_lcd::sender::{LcdThreadMsg, StreamRestarter};
use lianli_lcd::target::{ActiveTarget, RecoveryAnswer, SendError, SendOutcome, SendPlan};

const BACKENDS: [LcdBackend; 3] = [LcdBackend::Slv3, LcdBackend::WinUsb, LcdBackend::HidLcd];

fn file_asset() -> MediaAsset {
    MediaAsset::H264Stream { path: b"/a".to_vec(), looping: true, fps_bits: 0 }
}

fn video_asset() -> MediaAsset {
    MediaAsset::Video { frames: vec![vec![10], vec![11], vec![12]] }
}

fn target(backend: LcdBackend, asset: MediaAsset) -> ActiveTarget {
    ActiveTarget::new(
        3,
        "key".to_string(),
        "device".to_string(),
        backend,
        asset,
        true,
        false,
        true,
        None,
    )
}

#[test]
fn frames_take_the_way_of_their_lcd() {
    assert_eq!(LcdBackend::Slv3.send_frame(true), FrameRoute::Slv3 { ensure_video_mode: true });
    assert_eq!(LcdBackend::Slv3.send_frame_verified(false), FrameRoute::Slv3 { ensure_video_mode: false });
    assert_eq!(LcdBackend::WinUsb.send_frame(true), FrameRoute::WinUsb { verified: false });
    assert_eq!(LcdBackend::WinUsb.send_frame_verified(true), FrameRoute::WinUsb { verified: true });
    assert_eq!(
        LcdBackend::HidLcd.send_frame(false),
        FrameRoute::HidLcd { lock_wait_ms: 100, still_picture: false }
    );
    assert_eq!(
        LcdBackend::HidLcd.send_frame_verified(false),
        FrameRoute::HidLcd { lock_wait_ms: 100, still_picture: true }
    );
}

#[test]
fn brightness_takes_the_way_of_its_lcd() {
    assert_eq!(LcdBackend::Slv3.set_brightness(true), BrightnessRoute::Slv3 { ensure_video_mode: true });
    assert_eq!(LcdBackend::WinUsb.set_brightness(true), BrightnessRoute::WinUsb);
    assert_eq!(LcdBackend::HidLcd.set_brightness(true), BrightnessRoute::HidLcd);
}

#[test]
fn streams_start_where_there_are_any() {
    assert!(matches!(LcdBackend::HidLcd.start_h264_stream(5), StreamStart::Worker));
    assert!(matches!(LcdBackend::Slv3.start_h264_stream(5), StreamStart::Unsupported));
    match LcdBackend::WinUsb.start_h264_stream(5) {
        StreamStart::Post(request) => {
            assert!(request.raise_stop && request.blocking);
            assert!(matches!(request.message, LcdThreadMsg::StreamH264Reader { fps_bits: 5 }));
        }
        _ => panic!("a panel has a thread of its own"),
    }
    assert_eq!(LcdBackend::Slv3.stream_restarter(true), None);
    assert_eq!(LcdBackend::WinUsb.stream_restarter(true), Some(StreamRestarter::WinUsb));
    assert_eq!(
        LcdBackend::HidLcd.stream_restarter(true),
        Some(StreamRestarter::HidLcd { has_worker: true })
    );
}

#[test]
fn assets_get_their_sources() {
    let still = MediaAsset::Static { frame: vec![1] };
    assert_eq!(make_frame_source(&still, true, true), SourcePlan::Ready(FrameSource::Static { sent: false }));
    assert_eq!(
        make_frame_source(&video_asset(), true, true),
        SourcePlan::Ready(FrameSource::Video { sent_index: 0 })
    );
    assert_eq!(
        make_frame_source(&file_asset(), false, false),
        SourcePlan::Ready(FrameSource::H264File(H264FileSource::new()))
    );
    let sensor = make_frame_source(&MediaAsset::Sensor, true, false);
    assert_eq!(sensor.resolve(true), FrameSource::SensorH264);
    assert_eq!(sensor.resolve(false), FrameSource::Sensor { sent_index: 0 });
    for screen_h264 in [false, true] {
        for custom_h264 in [false, true] {
            let custom = make_frame_source(&MediaAsset::Custom, screen_h264, custom_h264);
            assert_eq!(custom.resolve(false), FrameSource::Custom { sent_index: 0 });
            let piped = custom.resolve(true) == FrameSource::CustomH264;
            assert_eq!(piped, screen_h264 && custom_h264);
        }
    }
    assert!(!make_frame_source(&MediaAsset::Sensor, false, true).resolve(true).is_autonomous());
}

#[test]
fn video_frames_are_sent_once() {
    let asset = video_asset();
    let mut source = FrameSource::Video { sent_index: 0 };
    assert_eq!(source.next_frame(&asset, 0, &[]), None);
    assert_eq!(source.next_frame(&asset, 1, &[]), Some(&[11u8][..]));
    assert_eq!(source.next_frame(&asset, 1, &[]), None);
    assert_eq!(source.next_frame(&asset, 3, &[]), Some(&[10u8][..]));
    assert_eq!(source.next_frame(&asset, 2, &[]), None);
    let mut nothing = FrameSource::Video { sent_index: 0 };
    assert_eq!(nothing.next_frame(&MediaAsset::Video { frames: vec![] }, 9, &[]), None);
}

#[test]
fn rendered_frames_are_sent_once() {
    for start in [FrameSource::Sensor { sent_index: 0 }, FrameSource::Custom { sent_index: 0 }] {
        let mut source = start;
        assert!(!source.wants_rendered(0));
        assert!(source.wants_rendered(1));
        assert_eq!(source.next_frame(&MediaAsset::Sensor, 1, &[9]), Some(&[9u8][..]));
        assert!(!source.wants_rendered(1));
        assert_eq!(source.next_frame(&MediaAsset::Sensor, 1, &[9]), None);
    }
}

#[test]
fn still_picture_is_given_once() {
    let asset = MediaAsset::Static { frame: vec![5, 6] };
    let mut source = FrameSource::Static { sent: false };
    assert!(source.is_static());
    assert_eq!(source.next_frame(&asset, 0, &[]), Some(&[5u8, 6][..]));
    assert_eq!(source.next_frame(&asset, 0, &[]), None);
    assert_eq!(source.next_frame(&asset, 7, &[]), None);
    source.frame_failed();
    assert_eq!(source.next_frame(&asset, 0, &[]), Some(&[5u8, 6][..]));
    assert_eq!(FrameSource::Noop.next_frame(&asset, 1, &[]), None);
}

#[test]
fn streaming_sources_give_no_frames() {
    for mut source in
        [FrameSource::SensorH264, FrameSource::CustomH264, FrameSource::H264File(H264FileSource::new())]
    {
        assert!(source.is_autonomous());
        assert_eq!(source.next_frame(&MediaAsset::Sensor, 9, &[1]), None);
    }
}

#[test]
fn file_starts_once() {
    let mut winusb = H264FileSource::new();
    assert_eq!(winusb.start(LcdBackend::WinUsb, 0), FileStart::Post);
    winusb.posted(false);
    assert_eq!(winusb.start(LcdBackend::WinUsb, 0), FileStart::Post);
    winusb.posted(true);
    assert_eq!(winusb.start(LcdBackend::WinUsb, 0), FileStart::Nothing);

    let mut slv3 = FrameSource::H264File(H264FileSource::new());
    assert_eq!(slv3.start(LcdBackend::Slv3, 0), FileStart::Nothing);
    assert_eq!(slv3, FrameSource::H264File(H264FileSource { started: true, retry_after: None }));
    assert_eq!(FrameSource::SensorH264.start(LcdBackend::WinUsb, 0), FileStart::Nothing);
}

#[test]
fn missing_file_is_tried_again_later() {
    let mut file = H264FileSource::new();
    assert_eq!(file.start(LcdBackend::HidLcd, 100), FileStart::OpenFile);
    assert!(!file.opened(false, 100));
    assert_eq!(file.start(LcdBackend::HidLcd, 100 + FILE_OPEN_RETRY - 1), FileStart::Nothing);
    assert_eq!(file.start(LcdBackend::HidLcd, 100 + FILE_OPEN_RETRY), FileStart::OpenFile);
    assert!(file.opened(true, 100 + FILE_OPEN_RETRY));
    assert_eq!(file, H264FileSource { started: true, retry_after: None });
    assert_eq!(FILE_OPEN_RETRY, 5_000_000_000);
}

#[test]
fn file_is_played_by_one_thread() {
    let mut file = H264FileSource::new();
    let mut opens = Vec::new();
    // Ticks a second apart; the file appears after twelve seconds.
    for second in 0..30u64 {
        let now = second * 1_000_000_000;
        if file.start(LcdBackend::HidLcd, now) == FileStart::OpenFile {
            opens.push((second, file.opened(second >= 12, now)));
        }
    }
    assert_eq!(opens, vec![(0, false), (5, false), (10, false), (15, true)]);
}

fn outcome_of(target: &mut ActiveTarget, outcome: SendOutcome<u8, u8>) -> Result<bool, SendError<u8, u8>> {
    target.frame_sent(outcome)
}

#[test]
fn sent_frames_are_counted() {
    let mut lcd = target(LcdBackend::HidLcd, video_asset());
    assert!(matches!(lcd.send_frame(0, 0, &[]), SendPlan::Idle));
    assert!(matches!(lcd.send_frame(0, 1, &[]), SendPlan::Send { verified: false, frame: &[11] }));
    assert!(matches!(outcome_of(&mut lcd, SendOutcome::Sent), Ok(true)));
    assert_eq!(lcd.frame_counter, 1);
    assert!(matches!(outcome_of(&mut lcd, SendOutcome::Busy), Ok(false)));
    assert!(matches!(outcome_of(&mut lcd, SendOutcome::Usb(4)), Err(SendError::Usb(4))));
    assert!(matches!(outcome_of(&mut lcd, SendOutcome::Other(5)), Err(SendError::Other(5))));
    assert_eq!((lcd.frame_counter, lcd.consecutive_errors), (1, 0));
}

#[test]
fn busy_frame_is_offered_again() {
    let mut lcd = target(LcdBackend::HidLcd, video_asset());
    for _ in 0..3 {
        assert!(matches!(lcd.send_frame(0, 1, &[]), SendPlan::Send { verified: false, frame: &[11] }));
        assert!(matches!(outcome_of(&mut lcd, SendOutcome::Busy), Ok(false)));
    }
    assert!(matches!(lcd.send_frame(0, 1, &[]), SendPlan::Send { .. }));
    assert!(matches!(outcome_of(&mut lcd, SendOutcome::Sent), Ok(true)));
    assert!(matches!(lcd.send_frame(0, 1, &[]), SendPlan::Idle));
    assert_eq!(lcd.frame_counter, 1);

    let mut sensor = target(LcdBackend::HidLcd, MediaAsset::Custom);
    assert!(matches!(sensor.send_frame(0, 4, &[8]), SendPlan::Send { frame: &[8], .. }));
    assert!(matches!(outcome_of(&mut sensor, SendOutcome::Busy), Ok(false)));
    assert!(matches!(sensor.send_frame(0, 4, &[8]), SendPlan::Send { frame: &[8], .. }));
}

#[test]
fn failed_frame_of_a_video_is_passed_over() {
    let mut lcd = target(LcdBackend::HidLcd, video_asset());
    assert!(matches!(lcd.send_frame(0, 1, &[]), SendPlan::Send { .. }));
    assert!(matches!(outcome_of(&mut lcd, SendOutcome::Usb(4)), Err(SendError::Usb(4))));
    assert!(matches!(lcd.send_frame(0, 1, &[]), SendPlan::Idle));
    assert!(matches!(lcd.send_frame(0, 2, &[]), SendPlan::Send { .. }));
}

#[test]
fn still_picture_is_offered_until_it_is_sent() {
    let mut lcd = target(LcdBackend::HidLcd, MediaAsset::Static { frame: vec![7] });
    let is_offered = |lcd: &mut ActiveTarget| matches!(lcd.send_frame(0, 0, &[]), SendPlan::Send { .. });
    assert!(is_offered(&mut lcd));
    assert!(matches!(outcome_of(&mut lcd, SendOutcome::Busy), Ok(false)));
    assert!(is_offered(&mut lcd));
    assert!(matches!(outcome_of(&mut lcd, SendOutcome::Other(1)), Err(SendError::Other(1))));
    assert!(is_offered(&mut lcd));
    assert!(matches!(outcome_of(&mut lcd, SendOutcome::Sent), Ok(true)));
    assert!(!is_offered(&mut lcd));
}

#[test]
fn still_pictures_are_verified() {
    let mut lcd = target(LcdBackend::WinUsb, MediaAsset::Static { frame: vec![7] });
    assert!(matches!(lcd.send_frame(0, 0, &[]), SendPlan::Send { verified: true, frame: &[7] }));
}

#[test]
fn streaming_sources_are_started() {
    let mut lcd = target(LcdBackend::HidLcd, file_asset());
    assert!(matches!(lcd.send_frame(0, 0, &[]), SendPlan::StartSource(FileStart::OpenFile)));
    assert!(matches!(lcd.source_started::<u8, u8>(Ok(())), Ok(true)));
    assert!(matches!(lcd.source_started::<u8, u8>(Err(2)), Err(SendError::Other(2))));
    let mut piped = target(LcdBackend::HidLcd, MediaAsset::Sensor);
    assert_eq!(piped.media, FrameSource::SensorH264);
    assert!(matches!(piped.send_frame(0, 9, &[1]), SendPlan::StartSource(FileStart::Nothing)));
}

#[test]
fn media_can_be_swapped() {
    let mut lcd = target(LcdBackend::HidLcd, video_asset());
    lcd.frame_counter = 5;
    lcd.swap_media(MediaAsset::Custom, true, true);
    assert_eq!(lcd.media, FrameSource::CustomH264);
    assert_eq!((lcd.frame_counter, lcd.custom_h264), (0, true));
    lcd.frame_counter = 6;
    assert!(!lcd.update_custom_h264(true, true));
    assert_eq!(lcd.frame_counter, 6);
    assert!(lcd.update_custom_h264(false, true));
    assert_eq!(lcd.media, FrameSource::Custom { sent_index: 0 });
    assert_eq!(lcd.frame_counter, 0);
}

#[test]
fn target_is_found_by_device_and_entry() {
    let lcd = target(LcdBackend::HidLcd, video_asset());
    let (device, key, other) = ("device".to_string(), "key".to_string(), "x".to_string());
    assert!(lcd.matches(&device, &key));
    assert!(!lcd.matches(&device, &other));
    assert!(!lcd.matches(&other, &key));
}

#[test]
fn last_deferred_brightness_is_set_once() {
    let mut lcd = target(LcdBackend::HidLcd, video_asset());
    assert_eq!(lcd.apply_brightness(10, false), None);
    assert_eq!(lcd.apply_brightness(20, false), None);
    assert_eq!(lcd.flush_pending_brightness(), Some(20));
    assert_eq!(lcd.flush_pending_brightness(), None);
    assert_eq!(lcd.apply_brightness(30, true), Some(30));
    assert_eq!(lcd.flush_pending_brightness(), None);
}

#[test]
fn other_lcds_are_never_busy() {
    for backend in [LcdBackend::Slv3, LcdBackend::WinUsb] {
        let mut lcd = target(backend, video_asset());
        assert_eq!(lcd.apply_brightness(10, false), Some(10));
        assert_eq!(lcd.pending_brightness, None);
    }
}

fn answer(supports_c_command: bool, firmware_known: bool) -> Option<RecoveryAnswer> {
    Some(RecoveryAnswer { supports_c_command, firmware_known })
}

#[test]
fn recovery_starts_with_the_target_if_it_can() {
    for backend in BACKENDS {
        for supports in [None, Some(false), Some(true)] {
            let lcd = ActiveTarget::new(
                0,
                String::new(),
                String::new(),
                backend,
                video_asset(),
                false,
                false,
                false,
                supports,
            );
            assert_eq!(lcd.recovery_running, backend == LcdBackend::HidLcd && supports == Some(true));
        }
    }
}

#[test]
fn recovery_is_started_once() {
    let mut lcd = target(LcdBackend::HidLcd, video_asset());
    assert!(lcd.wants_recovery());
    assert!(!lcd.maybe_start_recovery(None));
    assert!(!lcd.maybe_start_recovery(answer(false, true)));
    assert!(lcd.maybe_start_recovery(answer(true, true)));
    assert!(!lcd.wants_recovery());
    assert!(!lcd.maybe_start_recovery(answer(true, true)));
}

#[test]
fn final_no_ends_the_questions() {
    let mut lcd = target(LcdBackend::HidLcd, video_asset());
    lcd.mark_init_complete();
    assert!(!lcd.maybe_start_recovery(answer(false, false)));
    assert!(lcd.wants_recovery());
    assert!(!lcd.maybe_start_recovery(answer(false, true)));
    assert!(lcd.recovery_unsupported);
    assert!(!lcd.maybe_start_recovery(answer(true, true)));
    let mut other = target(LcdBackend::WinUsb, video_asset());
    assert!(!other.maybe_start_recovery(answer(true, true)));
}

#[test]
fn target_ends_once() {
    let mut lcd = target(LcdBackend::HidLcd, video_asset());
    lcd.maybe_start_recovery(answer(true, true));
    assert!(lcd.stop());
    assert!(lcd.recovery_stop);
    assert_eq!(lcd.media, FrameSource::Noop);
    assert!(!lcd.stop());
}

fn watch(notifies: bool, events: &[WatchEvent]) -> Vec<WatchAction> {
    let (mut watch, first) = RecoveryWatch::start(notifies);
    let mut actions = vec![first];
    for event in events {
        assert!(watch.can_take(event));
        actions.push(watch.resume(*event));
    }
    actions
}

const ROUND: [WatchEvent; 4] =
    [WatchEvent::Stop(false), WatchEvent::Slept, WatchEvent::Stop(false), WatchEvent::Locked(true)];

#[test]
fn recovered_lcd_is_reported() {
    let mut events = ROUND.to_vec();
    events.push(WatchEvent::Checked(Some(RecoveryAction::Recovered)));
    events.push(WatchEvent::Stop(false));
    events.push(WatchEvent::Notified);
    events.push(WatchEvent::Stop(true));
    assert_eq!(
        watch(true, &events),
        vec![
            WatchAction::PollStop,
            WatchAction::Sleep { ms: 2000 },
            WatchAction::PollStop,
            WatchAction::TryLock { wait_ms: 2000 },
            WatchAction::Check,
            WatchAction::PollStop,
            WatchAction::Notify,
            WatchAction::PollStop,
            WatchAction::Exit,
        ]
    );
}

#[test]
fn nothing_is_reported_without_a_recovery() {
    for checked in [None, Some(RecoveryAction::NoChange)] {
        let mut events = ROUND.to_vec();
        events.push(WatchEvent::Checked(checked));
        events.push(WatchEvent::Stop(false));
        assert_eq!(watch(true, &events)[6], WatchAction::Sleep { ms: 2000 });
    }
    let mut unheard = ROUND.to_vec();
    unheard.push(WatchEvent::Checked(Some(RecoveryAction::Recovered)));
    unheard.push(WatchEvent::Stop(false));
    assert_eq!(watch(false, &unheard)[6], WatchAction::Sleep { ms: 2000 });
}

#[test]
fn nothing_is_reported_once_the_thread_is_to_stop() {
    let mut events = ROUND.to_vec();
    events.push(WatchEvent::Checked(Some(RecoveryAction::Recovered)));
    events.push(WatchEvent::Stop(true));
    events.push(WatchEvent::Stop(true));
    let actions = watch(true, &events);
    assert_eq!(&actions[6..], &[WatchAction::PollStop, WatchAction::Exit]);
}

#[test]
fn busy_lcd_is_left_for_the_next_round() {
    let mut events = ROUND.to_vec();
    events[3] = WatchEvent::Locked(false);
    events.push(WatchEvent::Stop(false));
    assert_eq!(&watch(true, &events)[4..], &[WatchAction::PollStop, WatchAction::Sleep { ms: 2000 }]);
    assert_eq!(
        watch(true, &[WatchEvent::Stop(false), WatchEvent::Slept, WatchEvent::Stop(true)])[3],
        WatchAction::Exit
    );
}

#[test]
fn only_hid_lcds_are_waited_for() {
    assert_eq!((RECOVERY_LOCK_WAIT_MS, BRIGHTNESS_LOCK_WAIT_MS), (200, 500));
    assert_eq!(LcdBackend::HidLcd.recovery_lock_wait(), Some(200));
    assert_eq!(LcdBackend::HidLcd.brightness_lock_wait(), Some(500));
    for other in [LcdBackend::Slv3, LcdBackend::WinUsb] {
        assert_eq!(other.recovery_lock_wait(), None);
        assert_eq!(other.brightness_lock_wait(), None);
    }
}

#[test]
fn watch_takes_only_the_answer_to_its_action() {
    let (mut watch, _) = RecoveryWatch::start(true);
    assert!(watch.can_take(&WatchEvent::Stop(false)));
    assert!(!watch.can_take(&WatchEvent::Slept));
    watch.resume(WatchEvent::Stop(true));
    assert!(!watch.can_take(&WatchEvent::Stop(true)));
}

#[test]
fn file_can_be_opened_at_any_time() {
    let mut file = H264FileSource::new();
    assert!(file.opened(true, u64::MAX));
    assert_eq!(file, H264FileSource { started: true, retry_after: None });
    let mut missing = H264FileSource::new();
    assert!(!missing.opened(false, u64::MAX - FILE_OPEN_RETRY));
    assert_eq!(missing.retry_after, Some(u64::MAX));
}

#[test]
fn full_counter_takes_frames_that_are_not_sent() {
    let mut lcd = target(LcdBackend::HidLcd, video_asset());
    lcd.frame_counter = u64::MAX;
    assert!(matches!(outcome_of(&mut lcd, SendOutcome::Busy), Ok(false)));
    assert!(matches!(outcome_of(&mut lcd, SendOutcome::Usb(4)), Err(SendError::Usb(4))));
    assert!(matches!(outcome_of(&mut lcd, SendOutcome::Other(5)), Err(SendError::Other(5))));
    assert_eq!(lcd.frame_counter, u64::MAX);
}
