use lianli_lcd::sender::{
    panel_thread_turn, BoundedJoin, Delivery, JoinStep, LcdThreadMsg, PanelAction, PanelCall, PanelEvent,
    PanelThread, RestartPlan, SenderError, SenderRequest, StreamRestarter, ThreadTurn, ThreadedWinUsbSender,
    QUEUE_LEN, RECOVERY_JOIN_TIMEOUT_MS, REPLY_TIMEOUT_MS, STREAM_JOIN_TIMEOUT_MS,
};

fn flags(request: &SenderRequest) -> (bool, bool) {
    (request.raise_stop, request.blocking)
}

fn marks(turn: &ThreadTurn) -> (bool, bool, bool) {
    (turn.clear_stop, turn.reply, turn.leave)
}

#[test]
fn thread_does_what_a_message_asks_for() {
    let frame = panel_thread_turn(LcdThreadMsg::Frame(vec![1]));
    assert!(matches!(&frame.call, PanelCall::SendFrame(bytes) if *bytes == [1]));
    assert_eq!(marks(&frame), (false, false, false));
    let verified = panel_thread_turn(LcdThreadMsg::FrameVerified(vec![2]));
    assert!(matches!(&verified.call, PanelCall::SendFrameVerified(bytes) if *bytes == [2]));
    assert_eq!(marks(&verified), (false, true, false));
    let file = panel_thread_turn(LcdThreadMsg::StreamH264 { path: vec![3], looping: true, fps_bits: 9 });
    assert!(matches!(&file.call, PanelCall::StreamFile { path, looping: true, fps_bits: 9 } if *path == [3]));
    assert_eq!(marks(&file), (true, false, false));
    let reader = panel_thread_turn(LcdThreadMsg::StreamH264Reader { fps_bits: 9 });
    assert!(matches!(reader.call, PanelCall::StreamReader { fps_bits: 9 }));
    assert_eq!(marks(&reader), (true, false, false));
    let switch = panel_thread_turn(LcdThreadMsg::SwitchDesktop);
    assert!(matches!(switch.call, PanelCall::SwitchToDesktopMode));
    assert_eq!(marks(&switch), (false, true, true));
    let brightness = panel_thread_turn(LcdThreadMsg::SetBrightness(4));
    assert!(matches!(brightness.call, PanelCall::SetBrightness(4)));
    assert_eq!(marks(&brightness), (false, false, false));
    let stop = panel_thread_turn(LcdThreadMsg::Stop);
    assert!(matches!(stop.call, PanelCall::Nothing));
    assert_eq!(marks(&stop), (false, false, true));
}

/// Runs the thread on messages; tells what was done, and how many messages were left.
fn run_thread(messages: Vec<LcdThreadMsg>) -> (Vec<&'static str>, usize) {
    let mut messages = messages.into_iter();
    let mut done = Vec::new();
    let (mut thread, first) = PanelThread::start();
    let mut action = first;
    loop {
        let event = match action {
            PanelAction::Receive => match messages.next() {
                Some(message) => PanelEvent::Message(message),
                None => PanelEvent::Closed,
            },
            PanelAction::Perform(turn) => {
                done.push(match turn.call {
                    PanelCall::SwitchToDesktopMode => "switch",
                    PanelCall::Nothing => "nothing",
                    _ => "call",
                });
                PanelEvent::Performed
            }
            PanelAction::Release => {
                done.push("release");
                PanelEvent::Released
            }
            PanelAction::Exit => return (done, messages.len()),
        };
        assert!(thread.can_take(&event));
        action = thread.resume(event);
    }
}

#[test]
fn transport_is_released_once_at_the_end() {
    let frame = || LcdThreadMsg::Frame(vec![1]);
    assert_eq!(run_thread(vec![]), (vec!["release"], 0));
    assert_eq!(run_thread(vec![frame(), frame()]), (vec!["call", "call", "release"], 0));
    assert_eq!(run_thread(vec![frame(), LcdThreadMsg::Stop]), (vec!["call", "release"], 0));
    assert_eq!(run_thread(vec![LcdThreadMsg::SwitchDesktop]), (vec!["switch", "release"], 0));
}

#[test]
fn thread_sees_nothing_behind_its_end() {
    let frame = || LcdThreadMsg::Frame(vec![1]);
    let switch = vec![frame(), LcdThreadMsg::SetBrightness(4), LcdThreadMsg::SwitchDesktop, frame()];
    assert_eq!(run_thread(switch), (vec!["call", "call", "switch", "release"], 1));
    let stop = vec![LcdThreadMsg::Stop, frame(), LcdThreadMsg::Stop];
    assert_eq!(run_thread(stop), (vec!["release"], 2));
}

#[test]
fn requests_say_how_they_are_posted() {
    let sender = ThreadedWinUsbSender::new();
    let file = sender.stream_h264(vec![1], false, 2);
    assert_eq!(flags(&file), (true, true));
    assert!(matches!(file.message, LcdThreadMsg::StreamH264 { looping: false, fps_bits: 2, .. }));
    let reader = sender.stream_h264_reader(2);
    assert_eq!(flags(&reader), (true, true));
    assert!(matches!(reader.message, LcdThreadMsg::StreamH264Reader { fps_bits: 2 }));
    let brightness = sender.set_brightness(5);
    assert_eq!(flags(&brightness), (false, false));
    assert!(matches!(brightness.message, LcdThreadMsg::SetBrightness(5)));
    let frame = sender.send_frame(&[1, 2]);
    assert_eq!(flags(&frame), (true, false));
    assert!(matches!(&frame.message, LcdThreadMsg::Frame(bytes) if *bytes == [1, 2]));
    let verified = sender.send_frame_verified(&[1, 2]);
    assert_eq!(flags(&verified), (true, true));
    assert!(matches!(&verified.message, LcdThreadMsg::FrameVerified(bytes) if *bytes == [1, 2]));
    let switch = sender.switch_to_desktop_mode();
    assert_eq!(flags(&switch), (true, true));
    assert!(matches!(switch.message, LcdThreadMsg::SwitchDesktop));
    assert_eq!((QUEUE_LEN, REPLY_TIMEOUT_MS), (2, 10_000));
}

#[test]
fn full_queue_is_no_error() {
    let sender = ThreadedWinUsbSender::new();
    assert_eq!(sender.posted::<u8>(Delivery::Accepted), Ok(()));
    assert_eq!(sender.posted::<u8>(Delivery::Full), Ok(()));
    assert_eq!(sender.posted::<u8>(Delivery::Disconnected), Err(SenderError::ThreadExited));
}

#[test]
fn replies_are_passed_on() {
    let sender = ThreadedWinUsbSender::new();
    assert_eq!(sender.replied(true, Some(Ok::<(), u8>(()))), Ok(()));
    assert_eq!(sender.replied(true, Some(Err(3u8))), Err(SenderError::Panel(3)));
    assert_eq!(sender.replied::<u8>(true, None), Err(SenderError::ReplyTimeout));
    assert_eq!(sender.replied::<u8>(false, None), Err(SenderError::ThreadExited));
}

#[test]
fn thread_is_joined_once() {
    let mut sender = ThreadedWinUsbSender::new();
    assert_eq!(sender.switched::<u8>(true, None), (Err(SenderError::ReplyTimeout), false));
    assert!(sender.running);
    assert_eq!(sender.switched(true, Some(Err(1u8))), (Err(SenderError::Panel(1)), true));
    assert!(!sender.running);
    let (request, join) = sender.stop();
    assert!(!join);
    assert!(matches!(request.message, LcdThreadMsg::Stop));
    let mut other = ThreadedWinUsbSender::new();
    assert!(other.stop().1);
    assert!(!other.stop().1);
}

#[test]
fn stuck_threads_are_detached() {
    let join = BoundedJoin::start(1_000_000, STREAM_JOIN_TIMEOUT_MS, 25);
    assert_eq!(join.deadline, 1_001_000_000);
    assert_eq!(join.poll(true, 0), JoinStep::Finished);
    assert_eq!(join.poll(false, 1_000_999_999), JoinStep::SleepMs(25));
    assert_eq!(join.poll(false, 1_001_000_000), JoinStep::Detach);
    assert_eq!(join.poll(true, 2_000_000_000), JoinStep::Finished);
    assert_eq!(RECOVERY_JOIN_TIMEOUT_MS, 5_000);
}

#[test]
fn restarts_end_the_old_stream() {
    let mut hid = StreamRestarter::HidLcd { has_worker: false };
    assert!(matches!(hid.start_stream(1), RestartPlan::Worker { stop_old: false, timeout_ms: 1000 }));
    assert!(matches!(hid.start_stream(1), RestartPlan::Worker { stop_old: true, timeout_ms: 1000 }));
    let mut winusb = StreamRestarter::WinUsb;
    match winusb.start_stream(6) {
        RestartPlan::Post(request) => {
            assert_eq!(flags(&request), (true, true));
            assert!(matches!(request.message, LcdThreadMsg::StreamH264Reader { fps_bits: 6 }));
        }
        RestartPlan::Worker { .. } => panic!("a panel has a thread of its own"),
    }
}

#[test]
fn thread_takes_only_the_answer_to_its_action() {
    let (mut thread, _) = PanelThread::start();
    assert!(thread.can_take(&PanelEvent::Closed));
    assert!(thread.can_take(&PanelEvent::Message(LcdThreadMsg::Stop)));
    assert!(!thread.can_take(&PanelEvent::Performed));
    thread.resume(PanelEvent::Closed);
    assert!(thread.can_take(&PanelEvent::Released));
    assert!(!thread.can_take(&PanelEvent::Closed));
}
