//! Bringing a cooler up, and keeping its handshake fresh afterwards.

use vstd::prelude::*;
use vstd::slice::slice_subrange;
use crate::aio_controller::{AioState, HydroShiftLcdController};
use crate::aio_protocol;
use crate::aio_protocol::{
    is_handshake_readable, try_parse_handshake, write_a_command_raw, AioProtocol,
};
use crate::dialogue;
use crate::dialogue::{
    DeviceAction, DeviceEvent, DeviceInput, DeviceOutput, HandshakeDialogue, Step, StepOutput,
};
use crate::firmware;
use crate::firmware::{FirmwareQuery, FirmwareState};

verus! {

/// How long a cooler settles after power-up.
pub const SETTLE_MS: u64 = 10000;

/// How often the firmware is asked for.
pub const FIRMWARE_ATTEMPTS: u32 = 30;

/// How long to wait between two such attempts.
pub const FIRMWARE_RETRY_MS: u64 = 2000;

/// How long the handshake reader runs before the LCD is set up.
pub const READER_WARMUP_MS: u64 = 2000;

/// What an [`InitTask`] is doing.
#[derive(Clone, Copy, Debug, PartialEq, Eq, Structural)]
pub enum InitPhase {
    /// Letting the device settle.
    Settling,
    /// Asking for the firmware.
    Firmware,
    /// Waiting before it asks again.
    Retrying,
    /// Shaking hands.
    Handshake,
    /// Starting the handshake reader.
    StartingReader,
    /// Letting the handshake reader run.
    WarmingUp,
    /// Setting the LCD up.
    Applying,
    /// Reading the clock.
    Noting,
    /// Nothing: the device is up.
    Over,
}

/// State of an [`InitTask`].
pub struct InitState {
    pub phase: InitPhase,
    /// Number of the attempt to read the firmware.
    pub attempt: u32,
    pub firmware: FirmwareState,
    pub handshake: HandshakeDialogue,
}

impl InitState {
    /// The dialogues inside are in order.
    pub open spec fn wf(self, state: AioState) -> bool {
        &&& self.firmware.protocol == state.protocol
        &&& self.handshake.exchange.protocol == state.protocol
        &&& self.handshake.wf()
        &&& self.attempt <= FIRMWARE_ATTEMPTS
    }

    /// The input that the task waits for.
    pub open spec fn expects(self, input: DeviceInput) -> bool {
        match self.phase {
            InitPhase::Settling | InitPhase::Retrying | InitPhase::WarmingUp => input is Slept,
            InitPhase::Firmware => self.firmware.expects(input),
            InitPhase::Handshake => self.handshake.exchange.expects(input)
                && self.handshake.answers_well(input),
            InitPhase::StartingReader => input is ReaderStarted,
            InitPhase::Applying => input is Transferred,
            InitPhase::Noting => input is Clock,
            InitPhase::Over => false,
        }
    }

    /// Asks for the firmware.
    pub open spec fn ask_firmware(self, attempt: u32, state: AioState) -> (
        InitState,
        AioState,
        StepOutput<()>,
    ) {
        let (firmware, action) = firmware::firmware_start(state.protocol);
        (
            InitState { phase: InitPhase::Firmware, attempt, firmware, ..self },
            state,
            StepOutput::Do(action),
        )
    }

    /// Shakes hands.
    pub open spec fn shake_hands(self, state: AioState) -> (InitState, AioState, StepOutput<()>) {
        let (handshake, action) = dialogue::handshake_start(state);
        (
            InitState { phase: InitPhase::Handshake, handshake, ..self },
            state,
            StepOutput::Do(action),
        )
    }

    /// Goes on to `phase` with an action.
    pub open spec fn on(self, phase: InitPhase, state: AioState, action: DeviceOutput) -> (
        InitState,
        AioState,
        StepOutput<()>,
    ) {
        (InitState { phase, ..self }, state, StepOutput::Do(action))
    }

    /// One turn of the task: the task, the cooler's state and the step behind an input. Neither a
    /// firmware that cannot be read nor a handshake or settings that fail keep the cooler from
    /// coming up.
    pub open spec fn turn(self, state: AioState, input: DeviceInput) -> (
        InitState,
        AioState,
        StepOutput<()>,
    ) {
        match self.phase {
            InitPhase::Settling => if state.firmware_version is Some {
                self.shake_hands(state)
            } else {
                self.ask_firmware(1, state)
            },
            InitPhase::Firmware => {
                let recorded = self.firmware.recorded(state, input);
                let (firmware, step) = self.firmware.turn(input);
                let next = InitState { firmware, ..self };
                match step {
                    StepOutput::Do(action) => (next, recorded, StepOutput::Do(action)),
                    StepOutput::Done(Ok(_)) => next.shake_hands(recorded),
                    StepOutput::Done(Err(_)) => next.on(
                        InitPhase::Retrying,
                        recorded,
                        DeviceOutput::SleepMs(FIRMWARE_RETRY_MS),
                    ),
                }
            },
            InitPhase::Retrying => if self.attempt < FIRMWARE_ATTEMPTS {
                self.ask_firmware((self.attempt + 1) as u32, state)
            } else {
                self.shake_hands(state)
            },
            InitPhase::Handshake => {
                let (handshake, step) = self.handshake.turn(input);
                let recorded = HandshakeDialogue::recorded(state, step);
                let next = InitState { handshake, ..self };
                match step {
                    StepOutput::Do(action) => (next, recorded, StepOutput::Do(action)),
                    StepOutput::Done(_) => next.on(
                        InitPhase::StartingReader,
                        recorded,
                        DeviceOutput::StartReader,
                    ),
                }
            },
            InitPhase::StartingReader => self.on(
                InitPhase::WarmingUp,
                state,
                DeviceOutput::SleepMs(READER_WARMUP_MS),
            ),
            InitPhase::WarmingUp => self.on(
                InitPhase::Applying,
                state,
                DeviceOutput::Transfer {
                    cmd: state.protocol.cmd_lcd_control,
                    payload: state.control_payload(state.protocol.mode_application),
                },
            ),
            InitPhase::Applying => self.on(InitPhase::Noting, state, DeviceOutput::ReadClock),
            InitPhase::Noting | InitPhase::Over => (
                InitState { phase: InitPhase::Over, ..self },
                AioState {
                    last_recovery_attempt: Some(input->Clock_0),
                    control_ready: true,
                    ..state
                },
                StepOutput::Done(()),
            ),
        }
    }
}

/// Brings a cooler up.
pub struct InitTask {
    phase: InitPhase,
    attempt: u32,
    firmware: FirmwareQuery,
    handshake: HandshakeDialogue,
}

impl View for InitTask {
    type V = InitState;

    closed spec fn view(&self) -> InitState {
        InitState {
            phase: self.phase,
            attempt: self.attempt,
            firmware: self.firmware@,
            handshake: self.handshake,
        }
    }
}

impl InitTask {
    fn ask_firmware(&mut self, attempt: u32, controller: &HydroShiftLcdController) -> (step: Step<
        (),
    >)
        requires
            controller@.wf(),
        ensures
            (final(self)@, controller@, step@) == old(self)@.ask_firmware(attempt, controller@),
    {
        let (firmware, action) = FirmwareQuery::start(controller.protocol());
        self.firmware = firmware;
        self.attempt = attempt;
        self.phase = InitPhase::Firmware;
        Step::Do(action)
    }

    fn shake_hands(&mut self, controller: &HydroShiftLcdController) -> (step: Step<()>)
        requires
            controller@.wf(),
        ensures
            (final(self)@, controller@, step@) == old(self)@.shake_hands(controller@),
    {
        let (handshake, action) = controller.handshake();
        self.handshake = handshake;
        self.phase = InitPhase::Handshake;
        Step::Do(action)
    }

    /// Whether an event can be handed to [`InitTask::resume`].
    pub fn can_take(&self, event: &DeviceEvent) -> (can: bool)
        requires
            self@.handshake.wf(),
        ensures
            can == self@.expects(event@),
    {
        match (self.phase, event) {
            (InitPhase::Settling, DeviceEvent::Slept)
            | (InitPhase::Retrying, DeviceEvent::Slept)
            | (InitPhase::WarmingUp, DeviceEvent::Slept)
            | (InitPhase::StartingReader, DeviceEvent::ReaderStarted)
            | (InitPhase::Applying, DeviceEvent::Transferred(_))
            | (InitPhase::Noting, DeviceEvent::Clock(_)) => true,
            (InitPhase::Firmware, _) => self.firmware.can_take(event),
            (InitPhase::Handshake, _) => self.handshake.can_take(event),
            _ => false,
        }
    }

    /// Takes the answer to the last action and gives the next step.
    pub fn resume(&mut self, controller: &mut HydroShiftLcdController, event: DeviceEvent) -> (step:
        Step<()>)
        requires
            old(controller)@.wf(),
            old(self)@.wf(old(controller)@),
            old(self)@.expects(event@),
        ensures
            (final(self)@, final(controller)@, step@) == old(self)@.turn(old(controller)@, event@),
            final(controller)@.wf(),
            final(self)@.wf(final(controller)@),
    {
        match self.phase {
            InitPhase::Settling => {
                if controller.firmware_version().is_some() {
                    self.shake_hands(controller)
                } else {
                    self.ask_firmware(1, controller)
                }
            },
            InitPhase::Firmware => match self.firmware.resume(controller, event) {
                Step::Do(action) => Step::Do(action),
                Step::Done(Ok(_)) => self.shake_hands(controller),
                Step::Done(Err(_)) => {
                    self.phase = InitPhase::Retrying;
                    Step::Do(DeviceAction::SleepMs(FIRMWARE_RETRY_MS))
                },
            },
            InitPhase::Retrying => {
                if self.attempt < FIRMWARE_ATTEMPTS {
                    self.ask_firmware(self.attempt + 1, controller)
                } else {
                    self.shake_hands(controller)
                }
            },
            InitPhase::Handshake => match self.handshake.resume(controller, event) {
                Step::Do(action) => Step::Do(action),
                Step::Done(_) => {
                    self.phase = InitPhase::StartingReader;
                    Step::Do(DeviceAction::StartReader)
                },
            },
            InitPhase::StartingReader => {
                self.phase = InitPhase::WarmingUp;
                Step::Do(DeviceAction::SleepMs(READER_WARMUP_MS))
            },
            InitPhase::WarmingUp => {
                self.phase = InitPhase::Applying;
                Step::Do(DeviceAction::Transfer(controller.apply_lcd_settings()))
            },
            InitPhase::Applying => {
                self.phase = InitPhase::Noting;
                Step::Do(DeviceAction::ReadClock)
            },
            InitPhase::Noting | InitPhase::Over => {
                self.phase = InitPhase::Over;
                if let DeviceEvent::Clock(now) = event {
                    controller.record_recovery_attempt(now);
                }
                controller.mark_control_ready();
                Step::Done(())
            },
        }
    }
}

impl HydroShiftLcdController {
    /// Starts to bring the cooler up, unless that has begun before.
    pub fn init(&mut self) -> (started: Option<(InitTask, DeviceAction)>)
        requires
            old(self)@.wf(),
        ensures
            started is None <==> old(self)@.initialized,
            final(self)@ == (AioState { initialized: true, ..old(self)@ }),
            final(self)@.wf(),
            started matches Some(task) ==> {
                &&& task.0@ == init_start(final(self)@)
                &&& task.0@.wf(final(self)@)
                &&& task.1@ == DeviceOutput::SleepMs(SETTLE_MS)
            },
    {
        if self.is_initialized() {
            return None;
        }
        self.mark_initialized();
        let (firmware, _) = FirmwareQuery::start(self.protocol());
        let (handshake, _) = self.handshake();
        let task = InitTask { phase: InitPhase::Settling, attempt: 0, firmware, handshake };
        Some((task, DeviceAction::SleepMs(SETTLE_MS)))
    }
}

/// A task that is about to begin.
pub open spec fn init_start(state: AioState) -> InitState {
    InitState {
        phase: InitPhase::Settling,
        attempt: 0,
        firmware: firmware::firmware_start(state.protocol).0,
        handshake: dialogue::handshake_start(state).0,
    }
}

/// A task together with the cooler's state, and whether it has ended.
pub struct InitRun {
    pub task: InitState,
    pub state: AioState,
    pub done: bool,
}

/// The task after the given inputs.
pub open spec fn init_run(state: AioState, inputs: Seq<DeviceInput>) -> InitRun
    decreases inputs.len(),
{
    if inputs.len() == 0 {
        InitRun { task: init_start(state), state, done: false }
    } else {
        let before = init_run(state, inputs.drop_last());
        let (task, after, step) = before.task.turn(before.state, inputs.last());
        InitRun { task, state: after, done: step is Done }
    }
}

/// Each input is one that the task waited for.
pub open spec fn init_inputs(state: AioState, inputs: Seq<DeviceInput>) -> bool
    decreases inputs.len(),
{
    inputs.len() > 0 ==> {
        &&& init_inputs(state, inputs.drop_last())
        &&& init_run(state, inputs.drop_last()).task.expects(inputs.last())
    }
}

/// Whatever fails on the way, a cooler takes PWM commands exactly once it has been brought up: the
/// task ends with the cooler ready, not earlier, and the firmware is asked for a bounded number of
/// times.
pub proof fn init_makes_ready_at_its_end(state: AioState, inputs: Seq<DeviceInput>)
    requires
        state.protocol.wf(),
        !state.control_ready,
        init_inputs(state, inputs),
    ensures
        init_run(state, inputs).state.control_ready == init_run(state, inputs).done,
        init_run(state, inputs).done == (init_run(state, inputs).task.phase == InitPhase::Over),
        init_run(state, inputs).task.attempt <= FIRMWARE_ATTEMPTS,
    decreases inputs.len(),
{
    if inputs.len() > 0 {
        init_makes_ready_at_its_end(state, inputs.drop_last());
    }
}

/// How often the reader asks for a handshake, in nanoseconds.
pub const QUERY_INTERVAL: u64 = 1000000000;

/// How long one read of the reader waits.
pub const QUERY_READ_TIMEOUT_MS: i32 = 20;

/// How long the reader sleeps between two reads.
pub const QUERY_SLEEP_MS: u64 = 100;

/// What a [`BackgroundReader`] waits for.
#[derive(Clone, Copy, Debug, PartialEq, Eq, Structural)]
pub enum ReaderPhase {
    /// Whether to stop.
    Top,
    /// For the clock.
    Clock,
    /// For the handshake command to be written.
    Querying,
    /// For a report.
    Reading,
    /// For the sleep to end.
    Sleeping,
    /// For nothing: the reader is over.
    Over,
}

/// Keeps asking for handshakes and reading them.
#[derive(Clone, Copy, Debug, PartialEq, Eq, Structural)]
pub struct BackgroundReader {
    pub protocol: AioProtocol,
    /// When a handshake was last asked for.
    pub last_query: u64,
    pub phase: ReaderPhase,
    /// No read has been made yet.
    pub fresh: bool,
}

impl BackgroundReader {
    /// A reader that starts at `now`. Its first action is to ask whether to stop.
    pub fn start(protocol: AioProtocol, now: u64) -> (reader: Self)
        ensures
            reader == (BackgroundReader {
                protocol,
                last_query: now,
                phase: ReaderPhase::Top,
                fresh: true,
            }),
    {
        BackgroundReader { protocol, last_query: now, phase: ReaderPhase::Top, fresh: true }
    }

    /// The input that the reader waits for. A handshake holds what it announces.
    pub open spec fn expects(self, input: DeviceInput) -> bool {
        match self.phase {
            ReaderPhase::Top => input is Stop,
            ReaderPhase::Clock => input is Clock,
            ReaderPhase::Querying => input is Written,
            ReaderPhase::Reading => {
                &&& input.is_read_into(self.protocol.a_packet_size)
                &&& input.report() matches Some(report) ==> input.command()
                    == self.protocol.cmd_handshake ==> aio_protocol::handshake_readable(
                    self.protocol,
                    report,
                )
            },
            ReaderPhase::Sleeping => input is Slept,
            ReaderPhase::Over => false,
        }
    }

    /// The step that waits for a report.
    pub open spec fn read(self) -> (BackgroundReader, StepOutput<()>) {
        (
            BackgroundReader { phase: ReaderPhase::Reading, fresh: false, ..self },
            StepOutput::Do(
                DeviceOutput::Read {
                    len: self.protocol.a_packet_size,
                    timeout_ms: QUERY_READ_TIMEOUT_MS,
                    fresh: self.fresh,
                },
            ),
        )
    }

    /// One turn of the reader. Errors are ignored.
    pub open spec fn turn(self, input: DeviceInput) -> (BackgroundReader, StepOutput<()>) {
        let p = self.protocol;
        match (self.phase, input) {
            (ReaderPhase::Top, DeviceInput::Stop(false)) => (
                BackgroundReader { phase: ReaderPhase::Clock, ..self },
                StepOutput::Do(DeviceOutput::ReadClock),
            ),
            (ReaderPhase::Clock, DeviceInput::Clock(now)) => if now - self.last_query
                >= QUERY_INTERVAL {
                (
                    BackgroundReader { phase: ReaderPhase::Querying, last_query: now, ..self },
                    StepOutput::Do(
                        DeviceOutput::Write(
                            aio_protocol::a_packet(p, p.cmd_handshake, Seq::empty()),
                        ),
                    ),
                )
            } else {
                self.read()
            },
            (ReaderPhase::Querying, _) => self.read(),
            (ReaderPhase::Reading, _) => (
                BackgroundReader { phase: ReaderPhase::Sleeping, ..self },
                StepOutput::Do(DeviceOutput::SleepMs(QUERY_SLEEP_MS)),
            ),
            (ReaderPhase::Sleeping, _) => (
                BackgroundReader { phase: ReaderPhase::Top, ..self },
                StepOutput::Do(DeviceOutput::PollStop),
            ),
            _ => (
                BackgroundReader { phase: ReaderPhase::Over, ..self },
                StepOutput::Done(()),
            ),
        }
    }

    /// The handshake that an input brings.
    pub open spec fn heard(self, input: DeviceInput) -> Option<aio_protocol::AioHandshake> {
        match input.report() {
            Some(report) => if self.phase == ReaderPhase::Reading && input.command()
                == self.protocol.cmd_handshake {
                aio_protocol::parsed_handshake(self.protocol, report)
            } else {
                None
            },
            None => None,
        }
    }

    /// Whether an event can be handed to [`BackgroundReader::resume`].
    pub fn can_take(&self, event: &DeviceEvent) -> (can: bool)
        requires
            self.protocol.wf(),
        ensures
            can == self.expects(event@),
    {
        match (self.phase, event) {
            (ReaderPhase::Top, DeviceEvent::Stop(_))
            | (ReaderPhase::Clock, DeviceEvent::Clock(_))
            | (ReaderPhase::Querying, DeviceEvent::Written(_))
            | (ReaderPhase::Sleeping, DeviceEvent::Slept) => true,
            (ReaderPhase::Reading, DeviceEvent::Read { count, buf }) => {
                if !event.is_read_into(self.protocol.a_packet_size) {
                    return false;
                }
                match *count {
                    Some(n) => {
                        if n == 0 || buf[1] != self.protocol.cmd_handshake {
                            return true;
                        }
                        let report = slice_subrange(*buf, 0, n);
                        assert(report@ =~= buf@.take(n as int));
                        is_handshake_readable(&self.protocol, report)
                    },
                    None => true,
                }
            },
            _ => false,
        }
    }

    /// Takes the answer to the last action and gives the next step. A handshake is recorded.
    pub fn resume(&mut self, controller: &mut HydroShiftLcdController, event: DeviceEvent) -> (step:
        Step<()>)
        requires
            old(controller)@.wf(),
            old(self).protocol.wf(),
            old(self).expects(event@),
        ensures
            (*final(self), step@) == old(self).turn(event@),
            final(controller)@ == (match old(self).heard(event@) {
                Some(handshake) => AioState {
                    last_handshake: Some(handshake),
                    ..old(controller)@
                },
                None => old(controller)@,
            }),
            final(controller)@.wf(),
    {
        let p = self.protocol;
        match (self.phase, event) {
            (ReaderPhase::Top, DeviceEvent::Stop(false)) => {
                self.phase = ReaderPhase::Clock;
                Step::Do(DeviceAction::ReadClock)
            },
            (ReaderPhase::Clock, DeviceEvent::Clock(now)) => {
                if now >= self.last_query && now - self.last_query >= QUERY_INTERVAL {
                    self.phase = ReaderPhase::Querying;
                    self.last_query = now;
                    let none: [u8; 0] = [];
                    assert(none@ =~= Seq::<u8>::empty());
                    let packet = write_a_command_raw(&p, p.cmd_handshake, none.as_slice()).unwrap();
                    return Step::Do(DeviceAction::Write(packet));
                }
                self.read_report()
            },
            (ReaderPhase::Querying, _) => self.read_report(),
            (ReaderPhase::Reading, event) => {
                self.phase = ReaderPhase::Sleeping;
                if let DeviceEvent::Read { count: Some(n), buf } = event {
                    if n > 0 && buf[1] == p.cmd_handshake {
                        let report = slice_subrange(buf, 0, n);
                        assert(report@ =~= buf@.take(n as int));
                        if let Some(handshake) = try_parse_handshake(&p, report) {
                            controller.record_handshake(handshake);
                        }
                    }
                }
                Step::Do(DeviceAction::SleepMs(QUERY_SLEEP_MS))
            },
            (ReaderPhase::Sleeping, _) => {
                self.phase = ReaderPhase::Top;
                Step::Do(DeviceAction::PollStop)
            },
            _ => {
                self.phase = ReaderPhase::Over;
                Step::Done(())
            },
        }
    }

    fn read_report(&mut self) -> (step: Step<()>)
        ensures
            (*final(self), step@) == old(self).read(),
    {
        let fresh = self.fresh;
        self.phase = ReaderPhase::Reading;
        self.fresh = false;
        Step::Do(
            DeviceAction::Read {
                len: self.protocol.a_packet_size,
                timeout_ms: QUERY_READ_TIMEOUT_MS,
                fresh,
            },
        )
    }
}

/// The reader asks for a handshake at most once a second: it writes only when a second has passed
/// since it last asked, or since its start, and it notes the time of every question.
pub proof fn questions_are_a_second_apart(reader: BackgroundReader, input: DeviceInput)
    requires
        reader.expects(input),
    ensures
        ({
            let (after, step) = reader.turn(input);
            if step is Do && step->Do_0 is Write {
                &&& input is Clock
                &&& after.last_query == input->Clock_0
                &&& after.last_query >= reader.last_query + QUERY_INTERVAL
            } else {
                after.last_query == reader.last_query
            }
        }),
{
}

/// Bringing a cooler up changes neither the format of its frames nor what is shown on it.
pub proof fn init_keeps_the_settings(task: InitState, state: AioState, input: DeviceInput)
    ensures
        task.turn(state, input).1.video_format() == state.video_format(),
        task.turn(state, input).1.control_payload(state.protocol.mode_application)
            == state.control_payload(state.protocol.mode_application),
{
}

/// A cooler settles for ten seconds at first: that is asked for at the start. Then the firmware is asked
/// for, unless its version is known; and then, or at once, hands are shaken.
pub proof fn firmware_comes_before_the_handshake(state: AioState)
    ensures
        SETTLE_MS == 10_000,
        ({
            let (next, after, step) = init_start(state).turn(state, DeviceInput::Slept);
            &&& init_start(state).phase == InitPhase::Settling
            &&& init_start(state).attempt == 0
            &&& after == state
            &&& state.firmware_version is None ==> {
                &&& next.phase == InitPhase::Firmware
                &&& next.attempt == 1
                &&& next.firmware == firmware::firmware_start(state.protocol).0
                &&& step == StepOutput::<()>::Do(firmware::firmware_start(state.protocol).1)
            }
            &&& state.firmware_version is Some ==> {
                &&& next.phase == InitPhase::Handshake
                &&& next.handshake == dialogue::handshake_start(state).0
                &&& step == StepOutput::<()>::Do(dialogue::handshake_start(state).1)
            }
        }),
{
}

/// The firmware is asked for thirty times at most, with two seconds behind each attempt that fails. The
/// first attempt that succeeds, or the last one, is followed by the handshake.
pub proof fn firmware_is_asked_for_thirty_times(
    task: InitState,
    state: AioState,
    input: DeviceInput,
)
    ensures
        ({
            let asking = InitState { phase: InitPhase::Firmware, ..task };
            let retrying = InitState { phase: InitPhase::Retrying, ..task };
            let (next, after, step) = asking.turn(state, input);
            let (again, kept, retried) = retrying.turn(state, DeviceInput::Slept);
            let (query, queried) = task.firmware.turn(input);
            &&& after == task.firmware.recorded(state, input)
            &&& queried matches StepOutput::Do(action) ==> next.phase == InitPhase::Firmware
                && next.firmware == query && next.attempt == task.attempt && step == StepOutput::<
                (),
            >::Do(action)
            &&& queried is Done && queried->Done_0 is Ok ==> next.phase == InitPhase::Handshake
                && next.handshake == dialogue::handshake_start(after).0 && step == StepOutput::<
                (),
            >::Do(dialogue::handshake_start(after).1)
            &&& queried is Done && queried->Done_0 is Err ==> next.phase == InitPhase::Retrying
                && next.attempt == task.attempt && step == StepOutput::<()>::Do(
                DeviceOutput::SleepMs(2_000),
            )
            &&& kept == state
            &&& task.attempt < 30 ==> again.phase == InitPhase::Firmware && again.attempt
                == task.attempt + 1 && again.firmware == firmware::firmware_start(
                state.protocol,
            ).0 && retried == StepOutput::<()>::Do(firmware::firmware_start(state.protocol).1)
            &&& task.attempt >= 30 ==> again.phase == InitPhase::Handshake && again.handshake
                == dialogue::handshake_start(state).0 && retried == StepOutput::<()>::Do(
                dialogue::handshake_start(state).1,
            )
        }),
{
}

/// However the handshake ends, the reader is started behind it and runs for two seconds; then the
/// settings are applied; and whether that succeeds or not, the time is noted as that of a recovery, and
/// the cooler takes commands from then on.
pub proof fn cooler_comes_up_whatever_fails(
    task: InitState,
    state: AioState,
    input: DeviceInput,
    ok: bool,
    now: u64,
)
    ensures
        ({
            let shaking = InitState { phase: InitPhase::Handshake, ..task };
            let (shaken, after, step) = shaking.turn(state, input);
            let (dialogue, answered) = task.handshake.turn(input);
            let starting = InitState { phase: InitPhase::StartingReader, ..task };
            let warming = starting.turn(state, DeviceInput::ReaderStarted);
            let applying = warming.0.turn(warming.1, DeviceInput::Slept);
            let noting = applying.0.turn(applying.1, DeviceInput::Transferred(ok));
            let over = noting.0.turn(noting.1, DeviceInput::Clock(now));
            &&& answered is Do ==> shaken.phase == InitPhase::Handshake && shaken.handshake
                == dialogue && after == state && step == StepOutput::<()>::Do(answered->Do_0)
            &&& answered is Done ==> shaken.phase == InitPhase::StartingReader && step
                == StepOutput::<()>::Do(DeviceOutput::StartReader)
            &&& answered matches StepOutput::Done(Ok(handshake)) ==> after == AioState {
                last_handshake: Some(handshake),
                ..state
            }
            &&& answered is Done && answered->Done_0 is Err ==> after == state
            &&& warming.2 == StepOutput::<()>::Do(DeviceOutput::SleepMs(2_000))
            &&& applying.2 == StepOutput::<()>::Do(
                DeviceOutput::Transfer {
                    cmd: state.protocol.cmd_lcd_control,
                    payload: seq![
                        state.protocol.mode_application,
                        state.brightness,
                        state.rotation,
                        0u8,
                        0u8,
                        0u8,
                        0u8,
                        state.video_fps,
                    ],
                },
            )
            &&& noting.2 == StepOutput::<()>::Do(DeviceOutput::ReadClock)
            &&& noting.1 == state
            &&& over.2 == StepOutput::<()>::Done(())
            &&& over.1 == AioState {
                last_recovery_attempt: Some(now),
                control_ready: true,
                ..state
            }
        }),
{
}

/// A task takes the answer to what it asked for last.
pub proof fn tasks_take_their_answers(task: InitState, input: DeviceInput)
    ensures
        task.expects(input) == match task.phase {
            InitPhase::Settling => input is Slept,
            InitPhase::Firmware => task.firmware.expects(input),
            InitPhase::Retrying => input is Slept,
            InitPhase::Handshake => task.handshake.exchange.expects(input)
                && task.handshake.answers_well(input),
            InitPhase::StartingReader => input is ReaderStarted,
            InitPhase::WarmingUp => input is Slept,
            InitPhase::Applying => input is Transferred,
            InitPhase::Noting => input is Clock,
            InitPhase::Over => false,
        },
{
}

/// The reader goes round until it is asked to stop: it asks for a handshake once a second has passed
/// since it last did, reads for twenty milliseconds whether it asked or not, and sleeps for a tenth of a
/// second, whatever the read brings.
pub proof fn reader_goes_round_until_it_is_stopped(
    reader: BackgroundReader,
    now: u64,
    ok: bool,
    input: DeviceInput,
)
    ensures
        ({
            let p = reader.protocol;
            let top = BackgroundReader { phase: ReaderPhase::Top, ..reader };
            let at_clock = BackgroundReader { phase: ReaderPhase::Clock, ..reader };
            let querying = BackgroundReader { phase: ReaderPhase::Querying, ..reader };
            let reading = BackgroundReader { phase: ReaderPhase::Reading, ..reader };
            let sleeping = BackgroundReader { phase: ReaderPhase::Sleeping, ..reader };
            let read = StepOutput::<()>::Do(
                DeviceOutput::Read {
                    len: p.a_packet_size,
                    timeout_ms: 20,
                    fresh: reader.fresh,
                },
            );
            let read_on = BackgroundReader {
                phase: ReaderPhase::Reading,
                fresh: false,
                ..reader
            };
            &&& top.turn(DeviceInput::Stop(true)).1 == StepOutput::<()>::Done(())
            &&& top.turn(DeviceInput::Stop(false)) == (
                at_clock,
                StepOutput::<()>::Do(DeviceOutput::ReadClock),
            )
            &&& now - reader.last_query >= 1_000_000_000 ==> at_clock.turn(
                DeviceInput::Clock(now),
            ) == (
                BackgroundReader { last_query: now, ..querying },
                StepOutput::<()>::Do(
                    DeviceOutput::Write(aio_protocol::a_packet(p, p.cmd_handshake, Seq::empty())),
                ),
            )
            &&& now - reader.last_query < 1_000_000_000 ==> at_clock.turn(DeviceInput::Clock(now))
                == (read_on, read)
            &&& querying.turn(DeviceInput::Written(ok)) == (read_on, read)
            &&& input is Read ==> reading.turn(input) == (
                sleeping,
                StepOutput::<()>::Do(DeviceOutput::SleepMs(100)),
            )
            &&& sleeping.turn(DeviceInput::Slept) == (
                top,
                StepOutput::<()>::Do(DeviceOutput::PollStop),
            )
        }),
{
}

/// Every handshake that the reader reads is taken from the bytes that were read, if there are enough of
/// them; reports on other commands are not taken for one.
pub proof fn reader_hears_every_handshake(
    reader: BackgroundReader,
    count: Option<usize>,
    buf: Seq<u8>,
)
    requires
        reader.phase == ReaderPhase::Reading,
    ensures
        ({
            let p = reader.protocol;
            let heard = reader.heard(DeviceInput::Read { count, buf });
            let is_handshake = count is Some && count->0 > 0 && buf[1] == p.cmd_handshake;
            &&& is_handshake ==> heard == aio_protocol::parsed_handshake(
                p,
                buf.take(count->0 as int),
            )
            &&& !is_handshake ==> heard is None
        }),
{
}

/// A reader takes the answer to what it asked for last, as long as a handshake in it holds what it
/// announces.
pub proof fn readers_take_their_answers(reader: BackgroundReader, input: DeviceInput)
    ensures
        reader.expects(input) == match reader.phase {
            ReaderPhase::Top => input is Stop,
            ReaderPhase::Clock => input is Clock,
            ReaderPhase::Querying => input is Written,
            ReaderPhase::Reading => {
                &&& input is Read && input->buf.len() == reader.protocol.a_packet_size
                &&& input->Read_count matches Some(n) ==> n <= reader.protocol.a_packet_size
                &&& input->Read_count is Some && input->Read_count->0 > 0 && input->buf[1]
                    == reader.protocol.cmd_handshake ==> aio_protocol::handshake_readable(
                    reader.protocol,
                    input->buf.take(input->Read_count->0 as int),
                )
            },
            ReaderPhase::Sleeping => input is Slept,
            ReaderPhase::Over => false,
        },
{
}

} // verus!
