//! The thread that owns a WinUSB panel, what it is asked to do, and waiting for threads to end.

use vstd::prelude::*;

verus! {

/// A message to the thread that owns a WinUSB panel. Frame rates are the bits of a 32-bit float.
pub enum LcdThreadMsg {
    Frame(Vec<u8>),
    /// A frame whose outcome is reported back.
    FrameVerified(Vec<u8>),
    StreamH264 { path: Vec<u8>, looping: bool, fps_bits: u32 },
    /// Plays what the reader that comes along gives.
    StreamH264Reader { fps_bits: u32 },
    /// A switch whose outcome is reported back.
    SwitchDesktop,
    SetBrightness(u8),
    Stop,
}

/// A [`LcdThreadMsg`] with the bytes that it carries.
pub enum LcdMessage {
    Frame(Seq<u8>),
    FrameVerified(Seq<u8>),
    StreamH264 { path: Seq<u8>, looping: bool, fps_bits: u32 },
    StreamH264Reader { fps_bits: u32 },
    SwitchDesktop,
    SetBrightness(u8),
    Stop,
}

impl View for LcdThreadMsg {
    type V = LcdMessage;

    open spec fn view(&self) -> LcdMessage {
        match self {
            LcdThreadMsg::Frame(frame) => LcdMessage::Frame(frame@),
            LcdThreadMsg::FrameVerified(frame) => LcdMessage::FrameVerified(frame@),
            LcdThreadMsg::StreamH264 { path, looping, fps_bits } => LcdMessage::StreamH264 {
                path: path@,
                looping: *looping,
                fps_bits: *fps_bits,
            },
            LcdThreadMsg::StreamH264Reader { fps_bits } => LcdMessage::StreamH264Reader {
                fps_bits: *fps_bits,
            },
            LcdThreadMsg::SwitchDesktop => LcdMessage::SwitchDesktop,
            LcdThreadMsg::SetBrightness(value) => LcdMessage::SetBrightness(*value),
            LcdThreadMsg::Stop => LcdMessage::Stop,
        }
    }
}

/// What the thread does with its panel.
pub enum PanelCall {
    SendFrame(Vec<u8>),
    SendFrameVerified(Vec<u8>),
    StreamFile { path: Vec<u8>, looping: bool, fps_bits: u32 },
    StreamReader { fps_bits: u32 },
    SwitchToDesktopMode,
    SetBrightness(u8),
    Nothing,
}

impl View for PanelCall {
    type V = LcdMessage;

    /// The message that asks for the call.
    open spec fn view(&self) -> LcdMessage {
        match self {
            PanelCall::SendFrame(frame) => LcdMessage::Frame(frame@),
            PanelCall::SendFrameVerified(frame) => LcdMessage::FrameVerified(frame@),
            PanelCall::StreamFile { path, looping, fps_bits } => LcdMessage::StreamH264 {
                path: path@,
                looping: *looping,
                fps_bits: *fps_bits,
            },
            PanelCall::StreamReader { fps_bits } => LcdMessage::StreamH264Reader {
                fps_bits: *fps_bits,
            },
            PanelCall::SwitchToDesktopMode => LcdMessage::SwitchDesktop,
            PanelCall::SetBrightness(value) => LcdMessage::SetBrightness(*value),
            PanelCall::Nothing => LcdMessage::Stop,
        }
    }
}

/// What the thread does about a message.
pub struct ThreadTurn {
    /// Take back the request to end the stream that is playing.
    pub clear_stop: bool,
    pub call: PanelCall,
    /// Report the outcome back to the sender of the message.
    pub reply: bool,
    /// Leave the loop, and give the transport back.
    pub leave: bool,
}

/// A [`ThreadTurn`] with the message that asks for its call.
pub struct TurnOutput {
    pub clear_stop: bool,
    pub call: LcdMessage,
    pub reply: bool,
    pub leave: bool,
}

impl View for ThreadTurn {
    type V = TurnOutput;

    open spec fn view(&self) -> TurnOutput {
        TurnOutput {
            clear_stop: self.clear_stop,
            call: self.call@,
            reply: self.reply,
            leave: self.leave,
        }
    }
}

/// A message on which the thread leaves its loop.
pub open spec fn ends_thread(message: LcdMessage) -> bool {
    message is SwitchDesktop || message is Stop
}

/// What the thread does about a message: the call that it asks for. A stream starts with the request to
/// end the last one taken back.
pub open spec fn turn_of(message: LcdMessage) -> TurnOutput {
    TurnOutput {
        clear_stop: message is StreamH264 || message is StreamH264Reader,
        call: message,
        reply: message is FrameVerified || message is SwitchDesktop,
        leave: ends_thread(message),
    }
}

/// What the thread that owns a WinUSB panel does about a message. It leaves its loop on `Stop`, and
/// behind a switch to desktop mode whatever became of that.
pub fn panel_thread_turn(message: LcdThreadMsg) -> (turn: ThreadTurn)
    ensures
        turn@ == turn_of(message@),
{
    match message {
        LcdThreadMsg::Frame(frame) => ThreadTurn {
            clear_stop: false,
            call: PanelCall::SendFrame(frame),
            reply: false,
            leave: false,
        },
        LcdThreadMsg::FrameVerified(frame) => ThreadTurn {
            clear_stop: false,
            call: PanelCall::SendFrameVerified(frame),
            reply: true,
            leave: false,
        },
        LcdThreadMsg::StreamH264 { path, looping, fps_bits } => ThreadTurn {
            clear_stop: true,
            call: PanelCall::StreamFile { path, looping, fps_bits },
            reply: false,
            leave: false,
        },
        LcdThreadMsg::StreamH264Reader { fps_bits } => ThreadTurn {
            clear_stop: true,
            call: PanelCall::StreamReader { fps_bits },
            reply: false,
            leave: false,
        },
        LcdThreadMsg::SwitchDesktop => ThreadTurn {
            clear_stop: false,
            call: PanelCall::SwitchToDesktopMode,
            reply: true,
            leave: true,
        },
        LcdThreadMsg::SetBrightness(value) => ThreadTurn {
            clear_stop: false,
            call: PanelCall::SetBrightness(value),
            reply: false,
            leave: false,
        },
        LcdThreadMsg::Stop => ThreadTurn {
            clear_stop: false,
            call: PanelCall::Nothing,
            reply: false,
            leave: true,
        },
    }
}

/// What the thread waits for.
#[derive(Clone, Copy, Debug, PartialEq, Eq, Structural)]
pub enum PanelPhase {
    /// For a message.
    Receiving,
    /// For a call of the panel to be made, and its outcome to be reported; the last one if `leave`.
    Performing { leave: bool },
    /// For the transport to be given back.
    Releasing,
    /// For nothing: it is over.
    Over,
}

/// What the thread learns.
pub enum PanelEvent {
    Message(LcdThreadMsg),
    /// There is nobody left to send messages.
    Closed,
    Performed,
    Released,
}

/// A [`PanelEvent`] with the bytes that it carries.
pub enum PanelInput {
    Message(LcdMessage),
    Closed,
    Performed,
    Released,
}

impl View for PanelEvent {
    type V = PanelInput;

    open spec fn view(&self) -> PanelInput {
        match self {
            PanelEvent::Message(message) => PanelInput::Message(message@),
            PanelEvent::Closed => PanelInput::Closed,
            PanelEvent::Performed => PanelInput::Performed,
            PanelEvent::Released => PanelInput::Released,
        }
    }
}

/// What the thread does next.
pub enum PanelAction {
    /// Wait for a message.
    Receive,
    /// Call the panel.
    Perform(ThreadTurn),
    /// Give the transport back.
    Release,
    Exit,
}

/// A [`PanelAction`] with the bytes that it carries.
pub enum PanelOutput {
    Receive,
    Perform(TurnOutput),
    Release,
    Exit,
}

impl View for PanelAction {
    type V = PanelOutput;

    open spec fn view(&self) -> PanelOutput {
        match self {
            PanelAction::Receive => PanelOutput::Receive,
            PanelAction::Perform(turn) => PanelOutput::Perform(turn@),
            PanelAction::Release => PanelOutput::Release,
            PanelAction::Exit => PanelOutput::Exit,
        }
    }
}

/// The thread that owns a WinUSB panel.
#[derive(Clone, Copy, Debug, PartialEq, Eq, Structural)]
pub struct PanelThread {
    pub phase: PanelPhase,
}

impl PanelThread {
    /// The input that the thread waits for.
    pub open spec fn expects(self, input: PanelInput) -> bool {
        match self.phase {
            PanelPhase::Receiving => input is Message || input is Closed,
            PanelPhase::Performing { .. } => input is Performed,
            PanelPhase::Releasing => input is Released,
            PanelPhase::Over => false,
        }
    }

    /// One turn of the thread. It gives the transport back on `Stop`, behind a switch to desktop mode,
    /// and when there is nobody left to send messages.
    pub open spec fn turn(self, input: PanelInput) -> (PanelThread, PanelOutput) {
        let release = (PanelThread { phase: PanelPhase::Releasing }, PanelOutput::Release);
        match (self.phase, input) {
            (PanelPhase::Receiving, PanelInput::Message(message)) => if message is Stop {
                release
            } else {
                (
                    PanelThread { phase: PanelPhase::Performing { leave: ends_thread(message) } },
                    PanelOutput::Perform(turn_of(message)),
                )
            },
            (PanelPhase::Receiving, _) => release,
            (PanelPhase::Performing { leave: true }, _) => release,
            (PanelPhase::Performing { leave: false }, _) => (
                PanelThread { phase: PanelPhase::Receiving },
                PanelOutput::Receive,
            ),
            _ => (PanelThread { phase: PanelPhase::Over }, PanelOutput::Exit),
        }
    }

    /// The thread at its start, with its first action.
    pub fn start() -> (started: (PanelThread, PanelAction))
        ensures
            started.0 == (PanelThread { phase: PanelPhase::Receiving }),
            started.1@ == PanelOutput::Receive,
    {
        (PanelThread { phase: PanelPhase::Receiving }, PanelAction::Receive)
    }

    /// Whether an event can be handed to [`PanelThread::resume`].
    pub fn can_take(&self, event: &PanelEvent) -> (can: bool)
        ensures
            can == self.expects(event@),
    {
        match (self.phase, event) {
            (PanelPhase::Receiving, PanelEvent::Message(_))
            | (PanelPhase::Receiving, PanelEvent::Closed)
            | (PanelPhase::Performing { .. }, PanelEvent::Performed)
            | (PanelPhase::Releasing, PanelEvent::Released) => true,
            _ => false,
        }
    }

    /// Takes what came of the last action, and gives the next one.
    pub fn resume(&mut self, event: PanelEvent) -> (action: PanelAction)
        requires
            old(self).expects(event@),
        ensures
            (*final(self), action@) == old(self).turn(event@),
    {
        match (self.phase, event) {
            (PanelPhase::Receiving, PanelEvent::Message(message)) => {
                if let LcdThreadMsg::Stop = message {
                    self.phase = PanelPhase::Releasing;
                    return PanelAction::Release;
                }
                let turn = panel_thread_turn(message);
                self.phase = PanelPhase::Performing { leave: turn.leave };
                PanelAction::Perform(turn)
            },
            (PanelPhase::Receiving, _) | (PanelPhase::Performing { leave: true }, _) => {
                self.phase = PanelPhase::Releasing;
                PanelAction::Release
            },
            (PanelPhase::Performing { leave: false }, _) => {
                self.phase = PanelPhase::Receiving;
                PanelAction::Receive
            },
            _ => {
                self.phase = PanelPhase::Over;
                PanelAction::Exit
            },
        }
    }
}

/// The thread with all that it has done.
pub struct PanelRun {
    pub thread: PanelThread,
    pub outputs: Seq<PanelOutput>,
}

/// The thread behind these inputs.
pub open spec fn panel_run(inputs: Seq<PanelInput>) -> PanelRun
    decreases inputs.len(),
{
    if inputs.len() == 0 {
        PanelRun {
            thread: PanelThread { phase: PanelPhase::Receiving },
            outputs: seq![PanelOutput::Receive],
        }
    } else {
        let before = panel_run(inputs.drop_last());
        let (thread, output) = before.thread.turn(inputs.last());
        PanelRun { thread, outputs: before.outputs.push(output) }
    }
}

/// Each of these inputs answers the action before it.
pub open spec fn panel_inputs(inputs: Seq<PanelInput>) -> bool
    decreases inputs.len(),
{
    inputs.len() > 0 ==> {
        &&& panel_inputs(inputs.drop_last())
        &&& panel_run(inputs.drop_last()).thread.expects(inputs.last())
    }
}

/// The transport is given back exactly once in every run that ends, and that is the last thing done
/// before the thread exits; a run that has not ended has given it back at most as its last action.
pub proof fn transport_is_released_once_at_the_end(inputs: Seq<PanelInput>)
    requires
        panel_inputs(inputs),
    ensures
        ({
            let run = panel_run(inputs);
            let outputs = run.outputs;
            let last = outputs.len() - 1;
            &&& run.thread.phase == PanelPhase::Over <==> outputs[last] is Exit
            &&& run.thread.phase == PanelPhase::Over ==> {
                &&& last >= 1
                &&& outputs[last - 1] is Release
                &&& forall|i: int|
                    0 <= i < last - 1 ==> !(#[trigger] outputs[i] is Release) && !(outputs[i]
                        is Exit)
            }
            &&& run.thread.phase != PanelPhase::Over ==> forall|i: int|
                0 <= i < last ==> !(#[trigger] outputs[i] is Release) && !(outputs[i] is Exit)
            &&& run.thread.phase == PanelPhase::Releasing <==> outputs[last] is Release
        }),
    decreases inputs.len(),
{
    if inputs.len() > 0 {
        let front = inputs.drop_last();
        transport_is_released_once_at_the_end(front);
        let before = panel_run(front).outputs;
        let outputs = panel_run(inputs).outputs;
        assert(forall|i: int| 0 <= i < before.len() ==> outputs[i] == before[i]);
    }
}

/// A message to post to the thread.
pub struct SenderRequest {
    /// First ask the stream that is playing to end.
    pub raise_stop: bool,
    /// Wait for room in the queue.
    pub blocking: bool,
    pub message: LcdThreadMsg,
}

/// So many messages wait for the thread at most.
pub const QUEUE_LEN: usize = 2;

/// How long a reply of the thread is waited for.
pub const REPLY_TIMEOUT_MS: u64 = 10000;

/// What became of a message.
#[derive(Clone, Copy, Debug, PartialEq, Eq, Structural)]
pub enum Delivery {
    Accepted,
    /// There was no room in the queue.
    Full,
    /// The thread has ended.
    Disconnected,
}

/// Why a request to the thread failed.
#[derive(Debug, PartialEq, Eq)]
pub enum SenderError<E> {
    ThreadExited,
    ReplyTimeout,
    /// The panel reported this.
    Panel(E),
}

/// Handle to the thread that owns a WinUSB panel.
pub struct ThreadedWinUsbSender {
    /// The thread has not been joined yet.
    pub running: bool,
}

impl ThreadedWinUsbSender {
    /// A handle to a thread that has been started.
    pub fn new() -> (sender: Self)
        ensures
            sender.running,
    {
        ThreadedWinUsbSender { running: true }
    }

    /// Plays a file; the stream that is playing ends for it.
    pub fn stream_h264(&self, path: Vec<u8>, looping: bool, fps_bits: u32) -> (request:
        SenderRequest)
        ensures
            request.raise_stop && request.blocking,
            request.message@ == (LcdMessage::StreamH264 { path: path@, looping, fps_bits }),
    {
        SenderRequest {
            raise_stop: true,
            blocking: true,
            message: LcdThreadMsg::StreamH264 { path, looping, fps_bits },
        }
    }

    /// Plays what a reader gives; the stream that is playing ends for it.
    pub fn stream_h264_reader(&self, fps_bits: u32) -> (request: SenderRequest)
        ensures
            request.raise_stop && request.blocking,
            request.message@ == (LcdMessage::StreamH264Reader { fps_bits }),
    {
        SenderRequest {
            raise_stop: true,
            blocking: true,
            message: LcdThreadMsg::StreamH264Reader { fps_bits },
        }
    }

    /// Sets the brightness, without ending a stream, unless the thread is busy.
    pub fn set_brightness(&self, brightness: u8) -> (request: SenderRequest)
        ensures
            !request.raise_stop && !request.blocking,
            request.message@ == LcdMessage::SetBrightness(brightness),
    {
        SenderRequest {
            raise_stop: false,
            blocking: false,
            message: LcdThreadMsg::SetBrightness(brightness),
        }
    }

    /// Shows a frame, unless the thread is busy; the stream that is playing ends for it.
    pub fn send_frame(&self, frame: &[u8]) -> (request: SenderRequest)
        ensures
            request.raise_stop && !request.blocking,
            request.message@ == LcdMessage::Frame(frame@),
    {
        SenderRequest {
            raise_stop: true,
            blocking: false,
            message: LcdThreadMsg::Frame(vstd::slice::slice_to_vec(frame)),
        }
    }

    /// Shows a frame and reports back; the stream that is playing ends for it.
    pub fn send_frame_verified(&self, frame: &[u8]) -> (request: SenderRequest)
        ensures
            request.raise_stop && request.blocking,
            request.message@ == LcdMessage::FrameVerified(frame@),
    {
        SenderRequest {
            raise_stop: true,
            blocking: true,
            message: LcdThreadMsg::FrameVerified(vstd::slice::slice_to_vec(frame)),
        }
    }

    /// Hands the panel back to its desktop mode; the stream that is playing ends for it.
    pub fn switch_to_desktop_mode(&self) -> (request: SenderRequest)
        ensures
            request.raise_stop && request.blocking,
            request.message@ == LcdMessage::SwitchDesktop,
    {
        SenderRequest { raise_stop: true, blocking: true, message: LcdThreadMsg::SwitchDesktop }
    }

    /// Ends the thread. The result says whether it is still to be joined; whether the message
    /// arrives does not matter.
    pub fn stop(&mut self) -> (request: (SenderRequest, bool))
        ensures
            request.0.raise_stop && request.0.blocking,
            request.0.message@ == LcdMessage::Stop,
            request.1 == old(self).running,
            !final(self).running,
    {
        let join = self.running;
        self.running = false;
        (
            SenderRequest { raise_stop: true, blocking: true, message: LcdThreadMsg::Stop },
            join,
        )
    }

    /// What the sender of a message that needs no reply is told. A full queue is no error: the
    /// message is dropped.
    pub fn posted<E>(&self, delivery: Delivery) -> (result: Result<(), SenderError<E>>)
        ensures
            result == (if delivery == Delivery::Disconnected {
                Err::<(), SenderError<E>>(SenderError::ThreadExited)
            } else {
                Ok(())
            }),
    {
        match delivery {
            Delivery::Accepted | Delivery::Full => Ok(()),
            Delivery::Disconnected => Err(SenderError::ThreadExited),
        }
    }

    /// What the sender of a message that is replied to is told: `sent` says whether the message
    /// arrived, and `reply` is what came back in time.
    pub fn replied<E>(&self, sent: bool, reply: Option<Result<(), E>>) -> (result: Result<
        (),
        SenderError<E>,
    >)
        ensures
            result == reply_result(sent, reply),
    {
        if !sent {
            return Err(SenderError::ThreadExited);
        }
        match reply {
            None => Err(SenderError::ReplyTimeout),
            Some(Ok(_)) => Ok(()),
            Some(Err(error)) => Err(SenderError::Panel(error)),
        }
    }

    /// What is told behind a switch to desktop mode, and whether the thread is to be joined now: it
    /// is once it has replied.
    pub fn switched<E>(&mut self, sent: bool, reply: Option<Result<(), E>>) -> (result: (
        Result<(), SenderError<E>>,
        bool,
    ))
        ensures
            result.0 == reply_result(sent, reply),
            result.1 == (old(self).running && sent && reply is Some),
            final(self).running == (old(self).running && !(sent && reply is Some)),
    {
        let replied = sent && reply.is_some();
        let join = self.running && replied;
        if replied {
            self.running = false;
        }
        (self.replied(sent, reply), join)
    }
}

/// What a reply amounts to.
pub open spec fn reply_result<E>(sent: bool, reply: Option<Result<(), E>>) -> Result<
    (),
    SenderError<E>,
> {
    if !sent {
        Err(SenderError::ThreadExited)
    } else {
        match reply {
            None => Err(SenderError::ReplyTimeout),
            Some(Ok(_)) => Ok(()),
            Some(Err(error)) => Err(SenderError::Panel(error)),
        }
    }
}

/// What to do while a thread is waited for.
#[derive(Clone, Copy, Debug, PartialEq, Eq, Structural)]
pub enum JoinStep {
    Finished,
    /// Sleep so many milliseconds and look again.
    SleepMs(u64),
    /// Let the thread go.
    Detach,
}

/// Waiting for a thread that may be stuck, up to a point in time, in nanoseconds.
#[derive(Clone, Copy, Debug, PartialEq, Eq, Structural)]
pub struct BoundedJoin {
    pub deadline: u64,
    pub sleep_ms: u64,
}

/// How long the worker of a HID stream is waited for.
pub const STREAM_JOIN_TIMEOUT_MS: u64 = 1000;

/// How long the recovery thread of a target is waited for.
pub const RECOVERY_JOIN_TIMEOUT_MS: u64 = 5000;

impl BoundedJoin {
    /// A wait from `now` on.
    pub fn start(now: u64, timeout_ms: u64, sleep_ms: u64) -> (join: Self)
        requires
            now + timeout_ms * 1000000 <= u64::MAX,
        ensures
            join == (BoundedJoin { deadline: (now + timeout_ms * 1000000) as u64, sleep_ms }),
    {
        BoundedJoin { deadline: now + timeout_ms * 1000000, sleep_ms }
    }

    /// What to do when the thread has or has not finished at `now`.
    pub fn poll(&self, finished: bool, now: u64) -> (step: JoinStep)
        ensures
            step == (if finished {
                JoinStep::Finished
            } else if now < self.deadline {
                JoinStep::SleepMs(self.sleep_ms)
            } else {
                JoinStep::Detach
            }),
    {
        if finished {
            JoinStep::Finished
        } else if now < self.deadline {
            JoinStep::SleepMs(self.sleep_ms)
        } else {
            JoinStep::Detach
        }
    }
}

/// What restarting a stream takes.
pub enum RestartPlan {
    /// Halt the worker that is running, if so, and wait for it so many milliseconds; then start
    /// another.
    Worker { stop_old: bool, timeout_ms: u64 },
    /// Post a message to the thread that owns the panel.
    Post(SenderRequest),
}

/// Handle for restarting an H.264 stream from inside a render thread.
#[derive(Clone, Copy, Debug, PartialEq, Eq, Structural)]
pub enum StreamRestarter {
    HidLcd {
        /// A worker is known that may still be running.
        has_worker: bool,
    },
    WinUsb,
}

impl StreamRestarter {
    /// Starts a new stream. The old one ends first.
    pub fn start_stream(&mut self, fps_bits: u32) -> (plan: RestartPlan)
        ensures
            match (*old(self), plan) {
                (
                    StreamRestarter::HidLcd { has_worker },
                    RestartPlan::Worker { stop_old, timeout_ms },
                ) => {
                    &&& stop_old == has_worker
                    &&& timeout_ms == STREAM_JOIN_TIMEOUT_MS
                    &&& *final(self) == (StreamRestarter::HidLcd { has_worker: true })
                },
                (StreamRestarter::WinUsb, RestartPlan::Post(request)) => {
                    &&& request.raise_stop && request.blocking
                    &&& request.message@ == (LcdMessage::StreamH264Reader { fps_bits })
                    &&& *final(self) == StreamRestarter::WinUsb
                },
                _ => false,
            },
    {
        match *self {
            StreamRestarter::HidLcd { has_worker } => {
                *self = StreamRestarter::HidLcd { has_worker: true };
                RestartPlan::Worker { stop_old: has_worker, timeout_ms: STREAM_JOIN_TIMEOUT_MS }
            },
            StreamRestarter::WinUsb => RestartPlan::Post(
                SenderRequest {
                    raise_stop: true,
                    blocking: true,
                    message: LcdThreadMsg::StreamH264Reader { fps_bits },
                },
            ),
        }
    }
}

/// The thread takes no message behind one that ends it: not a frame that was queued behind a stop, nor
/// one behind a switch to desktop mode.
pub proof fn nothing_is_seen_behind_the_end(inputs: Seq<PanelInput>, end: int, later: int)
    requires
        panel_inputs(inputs),
        0 <= end < later < inputs.len(),
        inputs[end] matches PanelInput::Message(message) && ends_thread(message),
    ensures
        !(inputs[later] is Message),
{
    let upto = inputs.take(later + 1);
    inputs_up_to(inputs, later + 1);
    assert(upto.drop_last() =~= inputs.take(later));
    inputs_up_to(inputs, later);
    end_is_lasting(inputs.take(later), end);
    assert(upto.last() == inputs[later]);
}

proof fn inputs_up_to(inputs: Seq<PanelInput>, count: int)
    requires
        panel_inputs(inputs),
        0 <= count <= inputs.len(),
    ensures
        panel_inputs(inputs.take(count)),
    decreases inputs.len(),
{
    if count < inputs.len() {
        inputs_up_to(inputs.drop_last(), count);
        assert(inputs.drop_last().take(count) =~= inputs.take(count));
    } else {
        assert(inputs.take(count) =~= inputs);
    }
}

proof fn end_is_lasting(inputs: Seq<PanelInput>, end: int)
    requires
        panel_inputs(inputs),
        0 <= end < inputs.len(),
        inputs[end] matches PanelInput::Message(message) && ends_thread(message),
    ensures
        panel_run(inputs).thread.phase != PanelPhase::Receiving,
        panel_run(inputs).thread.phase != (PanelPhase::Performing { leave: false }),
    decreases inputs.len(),
{
    if end < inputs.len() - 1 {
        assert(inputs.drop_last()[end] == inputs[end]);
        end_is_lasting(inputs.drop_last(), end);
    }
}

/// The thread makes the call that a message asks for, with the bytes that it carries. Only a stream has
/// the request to end the last one taken back; only the outcome of a verified frame and of a switch is
/// reported back; and only a switch and a stop end the thread.
pub proof fn messages_get_their_call(message: LcdMessage)
    ensures
        turn_of(message).call == message,
        turn_of(message).clear_stop <==> message is StreamH264 || message is StreamH264Reader,
        turn_of(message).reply <==> message is FrameVerified || message is SwitchDesktop,
        turn_of(message).leave <==> message is SwitchDesktop || message is Stop,
        ends_thread(message) <==> message is SwitchDesktop || message is Stop,
{
}

/// A call is known by the message that asks for it, and carries the same bytes.
pub proof fn calls_are_known_by_their_message(call: PanelCall)
    ensures
        match call {
            PanelCall::SendFrame(frame) => call@ == LcdMessage::Frame(frame@),
            PanelCall::SendFrameVerified(frame) => call@ == LcdMessage::FrameVerified(frame@),
            PanelCall::StreamFile { path, looping, fps_bits } => call@ == (LcdMessage::StreamH264 {
                path: path@,
                looping,
                fps_bits,
            }),
            PanelCall::StreamReader { fps_bits } => call@ == (LcdMessage::StreamH264Reader {
                fps_bits,
            }),
            PanelCall::SwitchToDesktopMode => call@ is SwitchDesktop,
            PanelCall::SetBrightness(value) => call@ == LcdMessage::SetBrightness(value),
            PanelCall::Nothing => call@ is Stop,
        },
{
}

proof fn lemma_panel_shows(inputs: Seq<PanelInput>)
    requires
        panel_inputs(inputs),
    ensures
        ({
            let run = panel_run(inputs);
            let last = run.outputs.last();
            &&& run.outputs.len() == inputs.len() + 1
            &&& match run.thread.phase {
                PanelPhase::Receiving => last is Receive,
                PanelPhase::Performing { leave } => last is Perform && inputs.len() > 0
                    && inputs.last() is Message && leave == (
                inputs.last()->Message_0 is SwitchDesktop),
                PanelPhase::Releasing => last is Release,
                PanelPhase::Over => last is Exit,
            }
        }),
    decreases inputs.len(),
{
    if inputs.len() > 0 {
        lemma_panel_shows(inputs.drop_last());
    }
}

/// Every message that reaches the thread has its call made at once, in the order in which the messages
/// come, but for a stop. Behind a call the next message is awaited, unless it was a switch to desktop
/// mode. The thread gives the transport back behind that, on a stop, and when nobody is left to send
/// messages, and for no other reason; then it exits.
pub proof fn messages_are_served_one_by_one(inputs: Seq<PanelInput>)
    requires
        panel_inputs(inputs),
        inputs.len() > 0,
    ensures
        ({
            let output = panel_run(inputs).outputs.last();
            match inputs.last() {
                PanelInput::Message(message) => if message is Stop {
                    output is Release
                } else {
                    output is Perform && output->Perform_0.call == message
                },
                PanelInput::Closed => output is Release,
                PanelInput::Performed => {
                    &&& inputs.len() >= 2 && inputs[inputs.len() - 2] is Message
                    &&& if inputs[inputs.len() - 2]->Message_0 is SwitchDesktop {
                        output is Release
                    } else {
                        output is Receive
                    }
                },
                PanelInput::Released => output is Exit,
            }
        }),
{
    let front = inputs.drop_last();
    lemma_panel_shows(front);
    if front.len() > 0 {
        assert(front.last() == inputs[inputs.len() - 2]);
    }
}

/// The thread takes the answer to its last action: a message, or that none will come; that a call was
/// made; that the transport was given back.
pub proof fn thread_takes_the_answer(inputs: Seq<PanelInput>, input: PanelInput)
    requires
        panel_inputs(inputs),
    ensures
        panel_run(inputs).thread.expects(input) == match panel_run(inputs).outputs.last() {
            PanelOutput::Receive => input is Message || input is Closed,
            PanelOutput::Perform(_) => input is Performed,
            PanelOutput::Release => input is Released,
            PanelOutput::Exit => false,
        },
{
    lemma_panel_shows(inputs);
}

/// What the panel reported is passed on, as it came. Without a report there is an error: that the thread
/// has ended, if the message did not arrive, and a timeout otherwise.
pub proof fn reports_are_passed_on<E>(sent: bool, reply: Option<Result<(), E>>)
    ensures
        !sent ==> reply_result(sent, reply) == Err::<(), SenderError<E>>(SenderError::ThreadExited),
        sent && reply is None ==> reply_result(sent, reply) == Err::<(), SenderError<E>>(
            SenderError::ReplyTimeout,
        ),
        sent && reply is Some && reply->0 is Ok ==> reply_result(sent, reply) is Ok,
        sent && reply is Some && reply->0 is Err ==> reply_result(sent, reply) == Err::<
            (),
            SenderError<E>,
        >(SenderError::Panel(reply->0->Err_0)),
{
}

/// A message carries all its bytes.
pub proof fn messages_carry_their_bytes(message: LcdThreadMsg)
    ensures
        match message {
            LcdThreadMsg::Frame(frame) => message@ == LcdMessage::Frame(frame@),
            LcdThreadMsg::FrameVerified(frame) => message@ == LcdMessage::FrameVerified(frame@),
            LcdThreadMsg::StreamH264 { path, looping, fps_bits } => message@ == (
            LcdMessage::StreamH264 { path: path@, looping, fps_bits }),
            LcdThreadMsg::StreamH264Reader { fps_bits } => message@ == (
            LcdMessage::StreamH264Reader { fps_bits }),
            LcdThreadMsg::SwitchDesktop => message@ is SwitchDesktop,
            LcdThreadMsg::SetBrightness(value) => message@ == LcdMessage::SetBrightness(value),
            LcdThreadMsg::Stop => message@ is Stop,
        },
{
}

/// What the thread learns and does is what its event and its action say.
pub proof fn thread_learns_and_does_what_is_said(
    event: PanelEvent,
    action: PanelAction,
    turn: ThreadTurn,
)
    ensures
        match event {
            PanelEvent::Message(message) => event@ == PanelInput::Message(message@),
            PanelEvent::Closed => event@ is Closed,
            PanelEvent::Performed => event@ is Performed,
            PanelEvent::Released => event@ is Released,
        },
        match action {
            PanelAction::Receive => action@ is Receive,
            PanelAction::Perform(turn) => action@ == PanelOutput::Perform(turn@),
            PanelAction::Release => action@ is Release,
            PanelAction::Exit => action@ is Exit,
        },
        turn@.call == turn.call@,
        turn@.clear_stop == turn.clear_stop,
        turn@.reply == turn.reply,
        turn@.leave == turn.leave,
{
}

} // verus!
