//! Finding out whether the LCD of a cooler is available, and resetting a cooler whose LCD is not.

use vstd::prelude::*;
use crate::aio_controller::{
    AioChange, AioState, HydroShiftLcdController, UNAVAILABLE_THRESHOLD,
};
use crate::aio_protocol;
use crate::aio_protocol::{write_a_command_raw, AioError, AioProtocol};
use crate::dialogue::{DeviceAction, DeviceEvent, DeviceInput, DeviceOutput, Step, StepOutput};

verus! {

/// A reset is waited for during so many reads.
pub const RESET_ATTEMPTS: u32 = 20;

/// How long one read waits for the answer to a reset.
pub const RESET_READ_TIMEOUT_MS: i32 = 1000;

/// No recovery is tried so many nanoseconds after the last one.
pub const RECOVERY_COOLDOWN: u64 = 2000000000;

/// How long a cooler settles after a reset.
pub const RESET_SETTLE_MS: u64 = 500;

/// What a check or a reset waits for.
#[derive(Clone, Copy, Debug, PartialEq, Eq, Structural)]
pub enum CheckPhase {
    /// Before the write: whether to stop. A write to a wedged device can take the whole transfer
    /// timeout.
    BeforeWrite,
    /// For the command to be written.
    Writing,
    /// Before a read: whether to stop.
    BeforeRead,
    /// For the answer.
    Reading,
    /// For nothing: it is over.
    Over,
}

/// The question whether the LCD is available.
#[derive(Clone, Copy, Debug, PartialEq, Eq, Structural)]
pub struct AvailabilityCheck {
    pub protocol: AioProtocol,
    pub phase: CheckPhase,
    /// No read has been made yet.
    pub fresh: bool,
}

/// The B packet that asks whether the LCD is available.
pub open spec fn availability_packet(p: AioProtocol) -> Seq<u8> {
    Seq::new(
        p.b_packet_size as nat,
        |i: int|
            if i == 0 {
                p.report_id_b
            } else if i == 1 {
                p.cmd_lcd_available
            } else {
                0u8
            },
    )
}

/// An answer says that the LCD is available: one byte of data, and it is zero.
pub open spec fn says_available(p: AioProtocol, report: Seq<u8>) -> bool {
    report[9] * 256 + report[10] == 1 && report[p.b_header_len as int] == 0
}

impl AvailabilityCheck {
    /// The input that the check waits for.
    pub open spec fn expects(self, input: DeviceInput) -> bool {
        match self.phase {
            CheckPhase::BeforeWrite | CheckPhase::BeforeRead => input is Stop,
            CheckPhase::Writing => input is Written,
            CheckPhase::Reading => input.is_read_into(self.protocol.b_packet_size),
            CheckPhase::Over => false,
        }
    }

    /// The check ends.
    pub open spec fn over(self, result: Result<bool, AioError>) -> (AvailabilityCheck, StepOutput<
        Result<bool, AioError>,
    >) {
        (AvailabilityCheck { phase: CheckPhase::Over, ..self }, StepOutput::Done(result))
    }

    /// One turn of the check. A device that does not answer counts as available; reports on other
    /// commands are skipped; a request to stop ends the check before the write and before each
    /// read.
    pub open spec fn turn(self, input: DeviceInput) -> (AvailabilityCheck, StepOutput<
        Result<bool, AioError>,
    >) {
        match (self.phase, input) {
            (CheckPhase::BeforeWrite, DeviceInput::Stop(false)) => (
                AvailabilityCheck { phase: CheckPhase::Writing, ..self },
                StepOutput::Do(DeviceOutput::Write(availability_packet(self.protocol))),
            ),
            (CheckPhase::Writing, DeviceInput::Written(true)) => (
                AvailabilityCheck { phase: CheckPhase::BeforeRead, ..self },
                StepOutput::Do(DeviceOutput::PollStop),
            ),
            (CheckPhase::Writing, _) => self.over(Err(AioError::WriteFailed)),
            (CheckPhase::BeforeRead, DeviceInput::Stop(false)) => (
                AvailabilityCheck { phase: CheckPhase::Reading, fresh: false, ..self },
                StepOutput::Do(
                    DeviceOutput::Read {
                        len: self.protocol.b_packet_size,
                        timeout_ms: self.protocol.read_timeout_ms,
                        fresh: self.fresh,
                    },
                ),
            ),
            (CheckPhase::Reading, DeviceInput::Read { count, buf }) => match count {
                None => self.over(Err(AioError::ReadFailed)),
                Some(n) => if n == 0 {
                    self.over(Ok(true))
                } else if buf[1] == self.protocol.cmd_lcd_available {
                    self.over(Ok(says_available(self.protocol, buf)))
                } else {
                    (
                        AvailabilityCheck { phase: CheckPhase::BeforeRead, ..self },
                        StepOutput::Do(DeviceOutput::PollStop),
                    )
                },
            },
            _ => self.over(Err(AioError::StopRequested)),
        }
    }

    /// Whether an event can be handed to [`AvailabilityCheck::resume`].
    pub fn can_take(&self, event: &DeviceEvent) -> (can: bool)
        ensures
            can == self.expects(event@),
    {
        match (self.phase, event) {
            (CheckPhase::BeforeWrite, DeviceEvent::Stop(_))
            | (CheckPhase::BeforeRead, DeviceEvent::Stop(_))
            | (CheckPhase::Writing, DeviceEvent::Written(_)) => true,
            (CheckPhase::Reading, _) => event.is_read_into(self.protocol.b_packet_size),
            _ => false,
        }
    }

    /// Takes the answer to the last action and gives the next step.
    pub fn resume(&mut self, event: DeviceEvent) -> (step: Step<Result<bool, AioError>>)
        requires
            old(self).protocol.wf(),
            old(self).expects(event@),
        ensures
            (*final(self), step@) == old(self).turn(event@),
    {
        let p = self.protocol;
        match (self.phase, event) {
            (CheckPhase::BeforeWrite, DeviceEvent::Stop(false)) => {
                self.phase = CheckPhase::Writing;
                let mut packet: Vec<u8> = vec![0u8; p.b_packet_size];
                packet[0] = p.report_id_b;
                packet[1] = p.cmd_lcd_available;
                assert(packet@ =~= availability_packet(p));
                Step::Do(DeviceAction::Write(packet))
            },
            (CheckPhase::Writing, DeviceEvent::Written(true)) => {
                self.phase = CheckPhase::BeforeRead;
                Step::Do(DeviceAction::PollStop)
            },
            (CheckPhase::Writing, _) => {
                self.phase = CheckPhase::Over;
                Step::Done(Err(AioError::WriteFailed))
            },
            (CheckPhase::BeforeRead, DeviceEvent::Stop(false)) => {
                let fresh = self.fresh;
                self.phase = CheckPhase::Reading;
                self.fresh = false;
                Step::Do(
                    DeviceAction::Read {
                        len: p.b_packet_size,
                        timeout_ms: p.read_timeout_ms,
                        fresh,
                    },
                )
            },
            (CheckPhase::Reading, DeviceEvent::Read { count: None, .. }) => {
                self.phase = CheckPhase::Over;
                Step::Done(Err(AioError::ReadFailed))
            },
            (CheckPhase::Reading, DeviceEvent::Read { count: Some(n), buf }) => {
                if n == 0 {
                    self.phase = CheckPhase::Over;
                    return Step::Done(Ok(true));
                }
                if buf[1] == p.cmd_lcd_available {
                    self.phase = CheckPhase::Over;
                    let data_len = buf[9] as usize * 256 + buf[10] as usize;
                    return Step::Done(Ok(data_len == 1 && buf[p.b_header_len] == 0));
                }
                self.phase = CheckPhase::BeforeRead;
                Step::Do(DeviceAction::PollStop)
            },
            _ => {
                self.phase = CheckPhase::Over;
                Step::Done(Err(AioError::StopRequested))
            },
        }
    }
}

/// A reset of the device.
#[derive(Clone, Copy, Debug, PartialEq, Eq, Structural)]
pub struct DeviceReset {
    pub protocol: AioProtocol,
    pub phase: CheckPhase,
    /// Reads that may still be made.
    pub reads_left: u32,
}

impl DeviceReset {
    /// While the answer to a read is awaited, that read is still counted.
    pub open spec fn wf(self) -> bool {
        &&& self.protocol.wf()
        &&& self.reads_left <= RESET_ATTEMPTS
        &&& self.phase == CheckPhase::Reading || self.phase == CheckPhase::BeforeRead
            ==> self.reads_left > 0
    }

    /// The input that the reset waits for.
    pub open spec fn expects(self, input: DeviceInput) -> bool {
        match self.phase {
            CheckPhase::BeforeWrite | CheckPhase::BeforeRead => input is Stop,
            CheckPhase::Writing => input is Written,
            CheckPhase::Reading => input.is_read_into(self.protocol.a_packet_size),
            CheckPhase::Over => false,
        }
    }

    /// The reset ends.
    pub open spec fn over(self, done: bool) -> (DeviceReset, StepOutput<bool>) {
        (DeviceReset { phase: CheckPhase::Over, ..self }, StepOutput::Done(done))
    }

    /// One turn of the reset, whose result says whether the device confirmed it. Reports on other
    /// commands are skipped, but only so many; an error, a timeout or a request to stop ends the
    /// reset without success.
    pub open spec fn turn(self, input: DeviceInput) -> (DeviceReset, StepOutput<bool>) {
        let p = self.protocol;
        match (self.phase, input) {
            (CheckPhase::BeforeWrite, DeviceInput::Stop(false)) => (
                DeviceReset { phase: CheckPhase::Writing, ..self },
                StepOutput::Do(
                    DeviceOutput::Write(
                        aio_protocol::a_packet(p, p.cmd_reset_device, Seq::empty()),
                    ),
                ),
            ),
            (CheckPhase::Writing, DeviceInput::Written(true)) => (
                DeviceReset { phase: CheckPhase::BeforeRead, reads_left: RESET_ATTEMPTS, ..self },
                StepOutput::Do(DeviceOutput::PollStop),
            ),
            (CheckPhase::BeforeRead, DeviceInput::Stop(false)) => (
                DeviceReset { phase: CheckPhase::Reading, ..self },
                StepOutput::Do(
                    DeviceOutput::Read {
                        len: p.a_packet_size,
                        timeout_ms: RESET_READ_TIMEOUT_MS,
                        fresh: self.reads_left == RESET_ATTEMPTS,
                    },
                ),
            ),
            (CheckPhase::Reading, DeviceInput::Read { count: Some(n), buf }) => {
                let left = DeviceReset { reads_left: (self.reads_left - 1) as u32, ..self };
                if n == 0 {
                    left.over(false)
                } else if n > p.a_header_len && buf[1] == p.cmd_reset_device {
                    left.over(buf[p.a_header_len as int] == 1)
                } else if left.reads_left == 0 {
                    left.over(false)
                } else {
                    (
                        DeviceReset { phase: CheckPhase::BeforeRead, ..left },
                        StepOutput::Do(DeviceOutput::PollStop),
                    )
                }
            },
            _ => self.over(false),
        }
    }

    /// Whether an event can be handed to [`DeviceReset::resume`].
    pub fn can_take(&self, event: &DeviceEvent) -> (can: bool)
        ensures
            can == self.expects(event@),
    {
        match (self.phase, event) {
            (CheckPhase::BeforeWrite, DeviceEvent::Stop(_))
            | (CheckPhase::BeforeRead, DeviceEvent::Stop(_))
            | (CheckPhase::Writing, DeviceEvent::Written(_)) => true,
            (CheckPhase::Reading, _) => event.is_read_into(self.protocol.a_packet_size),
            _ => false,
        }
    }

    /// Takes the answer to the last action and gives the next step.
    pub fn resume(&mut self, event: DeviceEvent) -> (step: Step<bool>)
        requires
            old(self).wf(),
            old(self).expects(event@),
        ensures
            (*final(self), step@) == old(self).turn(event@),
            final(self).wf(),
    {
        let p = self.protocol;
        match (self.phase, event) {
            (CheckPhase::BeforeWrite, DeviceEvent::Stop(false)) => {
                self.phase = CheckPhase::Writing;
                let none: [u8; 0] = [];
                assert(none@ =~= Seq::<u8>::empty());
                let packet = write_a_command_raw(&p, p.cmd_reset_device, none.as_slice()).unwrap();
                Step::Do(DeviceAction::Write(packet))
            },
            (CheckPhase::Writing, DeviceEvent::Written(true)) => {
                self.phase = CheckPhase::BeforeRead;
                self.reads_left = RESET_ATTEMPTS;
                Step::Do(DeviceAction::PollStop)
            },
            (CheckPhase::BeforeRead, DeviceEvent::Stop(false)) => {
                self.phase = CheckPhase::Reading;
                Step::Do(
                    DeviceAction::Read {
                        len: p.a_packet_size,
                        timeout_ms: RESET_READ_TIMEOUT_MS,
                        fresh: self.reads_left == RESET_ATTEMPTS,
                    },
                )
            },
            (CheckPhase::Reading, DeviceEvent::Read { count: Some(n), buf }) => {
                self.reads_left = self.reads_left - 1;
                if n > p.a_header_len && buf[1] == p.cmd_reset_device {
                    self.phase = CheckPhase::Over;
                    return Step::Done(buf[p.a_header_len] == 1);
                }
                if n == 0 || self.reads_left == 0 {
                    self.phase = CheckPhase::Over;
                    return Step::Done(false);
                }
                self.phase = CheckPhase::BeforeRead;
                Step::Do(DeviceAction::PollStop)
            },
            _ => {
                self.phase = CheckPhase::Over;
                Step::Done(false)
            },
        }
    }
}

/// What a recovery changed.
#[derive(Clone, Copy, Debug, PartialEq, Eq, Structural)]
pub enum RecoveryAction {
    NoChange,
    /// The device was reset and the settings were applied again.
    Recovered,
}

/// What a [`Recovery`] is doing.
#[derive(Clone, Copy, Debug, PartialEq, Eq, Structural)]
pub enum RecoveryPhase {
    /// Reading the clock, to see whether the last recovery was just now.
    Cooldown,
    /// Asking whether the LCD is available.
    Checking(AvailabilityCheck),
    /// Reading the clock, to note when the recovery began.
    Noting,
    /// Resetting the device.
    Resetting(DeviceReset),
    /// Letting the device settle.
    Settling,
    /// Asking whether to stop before the LCD is set up again.
    BeforeSettings,
    /// Setting the LCD up again.
    Applying,
    /// Nothing: the recovery is over.
    Over,
}

/// A check of the LCD, with a reset of the device if the LCD has been unavailable often enough.
#[derive(Clone, Copy, Debug, PartialEq, Eq, Structural)]
pub struct Recovery {
    pub phase: RecoveryPhase,
}

/// A check that is about to begin.
pub open spec fn availability_start(protocol: AioProtocol) -> AvailabilityCheck {
    AvailabilityCheck { protocol, phase: CheckPhase::BeforeWrite, fresh: true }
}

/// A reset that is about to begin.
pub open spec fn reset_start(protocol: AioProtocol) -> DeviceReset {
    DeviceReset { protocol, phase: CheckPhase::BeforeWrite, reads_left: 0 }
}

/// The result of one finding: the count in the state, and whether a reset is due.
pub open spec fn availability_noted(state: AioState, available: bool) -> (AioState, bool) {
    let reset_due = !available && state.lcd_unavailable_count + 1 == UNAVAILABLE_THRESHOLD;
    (state.changed(AioChange::Availability(available)), reset_due)
}

/// The result of a step of a recovery.
pub type RecoveryResult = Result<RecoveryAction, AioError>;

impl Recovery {
    /// The dialogues inside are in order.
    pub open spec fn wf(self, state: AioState) -> bool {
        match self.phase {
            RecoveryPhase::Cooldown => state.last_recovery_attempt is Some,
            RecoveryPhase::Checking(check) => check.protocol == state.protocol,
            RecoveryPhase::Resetting(reset) => reset.protocol == state.protocol && reset.wf(),
            _ => true,
        }
    }

    /// The input that the recovery waits for.
    pub open spec fn expects(self, input: DeviceInput) -> bool {
        match self.phase {
            RecoveryPhase::Cooldown | RecoveryPhase::Noting => input is Clock,
            RecoveryPhase::Checking(check) => check.expects(input),
            RecoveryPhase::Resetting(reset) => reset.expects(input),
            RecoveryPhase::Settling => input is Slept,
            RecoveryPhase::BeforeSettings => input is Stop,
            RecoveryPhase::Applying => input is Transferred,
            RecoveryPhase::Over => false,
        }
    }

    /// The recovery ends.
    pub open spec fn over(state: AioState, result: RecoveryResult) -> (
        Recovery,
        AioState,
        StepOutput<RecoveryResult>,
    ) {
        (Recovery { phase: RecoveryPhase::Over }, state, StepOutput::Done(result))
    }

    /// The recovery goes on.
    pub open spec fn on(phase: RecoveryPhase, state: AioState, action: DeviceOutput) -> (
        Recovery,
        AioState,
        StepOutput<RecoveryResult>,
    ) {
        (Recovery { phase }, state, StepOutput::Do(action))
    }

    /// One turn of the recovery: the recovery, the cooler's state and the step behind an input.
    pub open spec fn turn(self, state: AioState, input: DeviceInput) -> (
        Recovery,
        AioState,
        StepOutput<RecoveryResult>,
    ) {
        match (self.phase, input) {
            (RecoveryPhase::Cooldown, DeviceInput::Clock(now)) => if now
                - state.last_recovery_attempt->0 < RECOVERY_COOLDOWN {
                Self::over(state, Ok(RecoveryAction::NoChange))
            } else {
                Self::on(
                    RecoveryPhase::Checking(availability_start(state.protocol)),
                    state,
                    DeviceOutput::PollStop,
                )
            },
            (RecoveryPhase::Checking(check), _) => match check.turn(input) {
                (check, StepOutput::Do(action)) => Self::on(
                    RecoveryPhase::Checking(check),
                    state,
                    action,
                ),
                (_, StepOutput::Done(Err(_))) => Self::over(state, Ok(RecoveryAction::NoChange)),
                (_, StepOutput::Done(Ok(available))) => {
                    let (noted, reset_due) = availability_noted(state, available);
                    if reset_due {
                        Self::on(RecoveryPhase::Noting, noted, DeviceOutput::ReadClock)
                    } else {
                        Self::over(noted, Ok(RecoveryAction::NoChange))
                    }
                },
            },
            (RecoveryPhase::Noting, DeviceInput::Clock(now)) => Self::on(
                RecoveryPhase::Resetting(reset_start(state.protocol)),
                AioState { last_recovery_attempt: Some(now), ..state },
                DeviceOutput::PollStop,
            ),
            (RecoveryPhase::Resetting(reset), _) => match reset.turn(input) {
                (reset, StepOutput::Do(action)) => Self::on(
                    RecoveryPhase::Resetting(reset),
                    state,
                    action,
                ),
                (_, StepOutput::Done(true)) => Self::on(
                    RecoveryPhase::Settling,
                    state,
                    DeviceOutput::SleepMs(RESET_SETTLE_MS),
                ),
                (_, StepOutput::Done(false)) => Self::over(state, Ok(RecoveryAction::NoChange)),
            },
            (RecoveryPhase::Settling, _) => Self::on(
                RecoveryPhase::BeforeSettings,
                state,
                DeviceOutput::PollStop,
            ),
            (RecoveryPhase::BeforeSettings, DeviceInput::Stop(false)) => Self::on(
                RecoveryPhase::Applying,
                state,
                DeviceOutput::Transfer {
                    cmd: state.protocol.cmd_lcd_control,
                    payload: state.control_payload(state.protocol.mode_application),
                },
            ),
            (RecoveryPhase::Applying, DeviceInput::Transferred(true)) => Self::over(
                state,
                Ok(RecoveryAction::Recovered),
            ),
            (RecoveryPhase::Applying, _) => Self::over(state, Err(AioError::TransferFailed)),
            _ => Self::over(state, Err(AioError::StopRequested)),
        }
    }

    /// Whether an event can be handed to [`Recovery::resume`].
    pub fn can_take(&self, event: &DeviceEvent) -> (can: bool)
        ensures
            can == self.expects(event@),
    {
        match (self.phase, event) {
            (RecoveryPhase::Cooldown, DeviceEvent::Clock(_))
            | (RecoveryPhase::Noting, DeviceEvent::Clock(_))
            | (RecoveryPhase::Settling, DeviceEvent::Slept)
            | (RecoveryPhase::BeforeSettings, DeviceEvent::Stop(_))
            | (RecoveryPhase::Applying, DeviceEvent::Transferred(_)) => true,
            (RecoveryPhase::Checking(check), _) => check.can_take(event),
            (RecoveryPhase::Resetting(reset), _) => reset.can_take(event),
            _ => false,
        }
    }

    /// Takes the answer to the last action and gives the next step.
    pub fn resume(&mut self, controller: &mut HydroShiftLcdController, event: DeviceEvent) -> (step:
        Step<RecoveryResult>)
        requires
            old(controller)@.wf(),
            old(self).wf(old(controller)@),
            old(self).expects(event@),
        ensures
            (*final(self), final(controller)@, step@) == old(self).turn(old(controller)@, event@),
            final(controller)@.wf(),
            final(self).wf(final(controller)@),
    {
        let protocol = controller.protocol();
        match (self.phase, event) {
            (RecoveryPhase::Cooldown, DeviceEvent::Clock(now)) => {
                let just_now = match controller.last_recovery_attempt() {
                    Some(last) => now < last || now - last < RECOVERY_COOLDOWN,
                    None => false,
                };
                if just_now {
                    self.phase = RecoveryPhase::Over;
                    return Step::Done(Ok(RecoveryAction::NoChange));
                }
                self.phase = RecoveryPhase::Checking(controller.is_lcd_available());
                Step::Do(DeviceAction::PollStop)
            },
            (RecoveryPhase::Checking(check), event) => {
                let mut check = check;
                match check.resume(event) {
                    Step::Do(action) => {
                        self.phase = RecoveryPhase::Checking(check);
                        Step::Do(action)
                    },
                    Step::Done(Err(_)) => {
                        self.phase = RecoveryPhase::Over;
                        Step::Done(Ok(RecoveryAction::NoChange))
                    },
                    Step::Done(Ok(available)) => {
                        if controller.record_availability(available) {
                            self.phase = RecoveryPhase::Noting;
                            return Step::Do(DeviceAction::ReadClock);
                        }
                        self.phase = RecoveryPhase::Over;
                        Step::Done(Ok(RecoveryAction::NoChange))
                    },
                }
            },
            (RecoveryPhase::Noting, DeviceEvent::Clock(now)) => {
                controller.record_recovery_attempt(now);
                self.phase = RecoveryPhase::Resetting(controller.reset_device());
                Step::Do(DeviceAction::PollStop)
            },
            (RecoveryPhase::Resetting(reset), event) => {
                let mut reset = reset;
                match reset.resume(event) {
                    Step::Do(action) => {
                        self.phase = RecoveryPhase::Resetting(reset);
                        Step::Do(action)
                    },
                    Step::Done(true) => {
                        self.phase = RecoveryPhase::Settling;
                        Step::Do(DeviceAction::SleepMs(RESET_SETTLE_MS))
                    },
                    Step::Done(false) => {
                        self.phase = RecoveryPhase::Over;
                        Step::Done(Ok(RecoveryAction::NoChange))
                    },
                }
            },
            (RecoveryPhase::Settling, _) => {
                self.phase = RecoveryPhase::BeforeSettings;
                Step::Do(DeviceAction::PollStop)
            },
            (RecoveryPhase::BeforeSettings, DeviceEvent::Stop(false)) => {
                self.phase = RecoveryPhase::Applying;
                Step::Do(DeviceAction::Transfer(controller.apply_lcd_settings()))
            },
            (RecoveryPhase::Applying, DeviceEvent::Transferred(true)) => {
                self.phase = RecoveryPhase::Over;
                Step::Done(Ok(RecoveryAction::Recovered))
            },
            (RecoveryPhase::Applying, _) => {
                self.phase = RecoveryPhase::Over;
                Step::Done(Err(AioError::TransferFailed))
            },
            _ => {
                self.phase = RecoveryPhase::Over;
                Step::Done(Err(AioError::StopRequested))
            },
        }
    }
}

impl HydroShiftLcdController {
    /// Starts the question whether the LCD is available. Its first action is to ask whether to
    /// stop.
    pub fn is_lcd_available(&self) -> (check: AvailabilityCheck)
        ensures
            check == availability_start(self@.protocol),
    {
        AvailabilityCheck {
            protocol: self.protocol(),
            phase: CheckPhase::BeforeWrite,
            fresh: true,
        }
    }

    /// Starts a reset of the device. Its first action is to ask whether to stop.
    pub fn reset_device(&self) -> (reset: DeviceReset)
        requires
            self@.wf(),
        ensures
            reset == reset_start(self@.protocol),
            reset.wf(),
    {
        DeviceReset { protocol: self.protocol(), phase: CheckPhase::BeforeWrite, reads_left: 0 }
    }

    /// Starts a check of the LCD, with recovery, and gives its first action.
    pub fn check_and_recover_lcd(&self) -> (started: (Recovery, DeviceAction))
        requires
            self@.wf(),
        ensures
            started.0 == recovery_start(self@).0,
            started.0.wf(self@),
            started.1@ == recovery_start(self@).1,
    {
        if self.last_recovery_attempt().is_some() {
            (Recovery { phase: RecoveryPhase::Cooldown }, DeviceAction::ReadClock)
        } else {
            let check = self.is_lcd_available();
            (Recovery { phase: RecoveryPhase::Checking(check) }, DeviceAction::PollStop)
        }
    }
}

/// A recovery that is about to begin, and its first action: where one was tried before, the clock
/// tells first whether that was just now.
pub open spec fn recovery_start(state: AioState) -> (Recovery, DeviceOutput) {
    if state.last_recovery_attempt is Some {
        (Recovery { phase: RecoveryPhase::Cooldown }, DeviceOutput::ReadClock)
    } else {
        (
            Recovery { phase: RecoveryPhase::Checking(availability_start(state.protocol)) },
            DeviceOutput::PollStop,
        )
    }
}

/// A request to stop before the write means that nothing is written: neither a check nor a reset
/// occupies the device any more.
pub proof fn stop_comes_before_the_write(protocol: AioProtocol)
    ensures
        availability_start(protocol).turn(DeviceInput::Stop(true)).1 == StepOutput::<
            Result<bool, AioError>,
        >::Done(Err(AioError::StopRequested)),
        reset_start(protocol).turn(DeviceInput::Stop(true)).1 == StepOutput::<bool>::Done(false),
{
}

/// How many answers a reset still waits for, at most.
pub open spec fn reset_measure(reset: DeviceReset) -> int {
    match reset.phase {
        CheckPhase::BeforeWrite => 2 * RESET_ATTEMPTS + 2,
        CheckPhase::Writing => 2 * RESET_ATTEMPTS + 1,
        CheckPhase::BeforeRead => 2 * reset.reads_left as int,
        CheckPhase::Reading => 2 * reset.reads_left as int - 1,
        CheckPhase::Over => 0,
    }
}

/// A reset ends, whatever the device answers: every answer brings it closer to its end.
pub proof fn reset_ends(reset: DeviceReset, input: DeviceInput)
    requires
        reset.wf(),
        reset.expects(input),
    ensures
        0 <= reset_measure(reset.turn(input).0) < reset_measure(reset),
        reset_measure(reset.turn(input).0) == 0 <==> reset.turn(input).1 is Done,
{
}

/// How often in a row the LCD has been found unavailable at the end of some findings.
pub open spec fn unavailable_in_a_row(findings: Seq<bool>) -> int
    decreases findings.len(),
{
    if findings.len() == 0 || findings.last() {
        0
    } else {
        1 + unavailable_in_a_row(findings.drop_last())
    }
}

/// The state after some findings.
pub open spec fn findings_noted(state: AioState, findings: Seq<bool>) -> AioState
    decreases findings.len(),
{
    if findings.len() == 0 {
        state
    } else {
        availability_noted(findings_noted(state, findings.drop_last()), findings.last()).0
    }
}

/// A reset is due at every third finding in a row of an unavailable LCD, and at no other.
pub proof fn reset_is_due_at_every_third_finding(
    state: AioState,
    findings: Seq<bool>,
    available: bool,
)
    requires
        state.lcd_unavailable_count == 0,
    ensures
        findings_noted(state, findings).lcd_unavailable_count == unavailable_in_a_row(findings)
            % UNAVAILABLE_THRESHOLD as int,
        availability_noted(findings_noted(state, findings), available).1 == (!available
            && unavailable_in_a_row(findings.push(available)) % UNAVAILABLE_THRESHOLD as int == 0),
        0 <= unavailable_in_a_row(findings),
    decreases findings.len(),
{
    let row = unavailable_in_a_row(findings);
    let next = findings.push(available);
    assert(next.drop_last() =~= findings);
    assert(next.last() == available);
    assert(unavailable_in_a_row(next) == if available {
        0
    } else {
        1 + row
    });
    if findings.len() > 0 {
        let front = findings.drop_last();
        reset_is_due_at_every_third_finding(state, front, findings.last());
        lemma_count_goes_round(unavailable_in_a_row(front));
    }
    lemma_count_goes_round(row);
}

/// Counting modulo three.
proof fn lemma_count_goes_round(count: int)
    requires
        0 <= count,
    ensures
        0 <= count % 3 < 3,
        (1 + count) % 3 == if count % 3 + 1 == 3 {
            0
        } else {
            count % 3 + 1
        },
{
}

/// Within the cooldown after a recovery, a check does nothing: it reads the clock and ends, and the
/// cooler's state stays.
pub proof fn recovery_cools_down(state: AioState, tried: u64, now: u64)
    requires
        state.last_recovery_attempt == Some(tried),
        now < tried + RECOVERY_COOLDOWN,
    ensures
        recovery_start(state).1 == DeviceOutput::ReadClock,
        recovery_start(state).0.turn(state, DeviceInput::Clock(now)) == Recovery::over(
            state,
            Ok(RecoveryAction::NoChange),
        ),
{
}

/// A cooler counts as recovered only once its settings have been applied again.
pub proof fn recovered_means_settings_applied(
    recovery: Recovery,
    state: AioState,
    input: DeviceInput,
)
    requires
        recovery.expects(input),
        recovery.turn(state, input).2 == StepOutput::<RecoveryResult>::Done(
            Ok(RecoveryAction::Recovered),
        ),
    ensures
        recovery.phase == RecoveryPhase::Applying,
        input == DeviceInput::Transferred(true),
{
}

/// A recovery changes neither the format of the frames nor what is shown.
pub proof fn recovery_keeps_the_settings(recovery: Recovery, state: AioState, input: DeviceInput)
    ensures
        recovery.turn(state, input).1.video_format() == state.video_format(),
        recovery.turn(state, input).1.control_payload(state.protocol.mode_application)
            == state.control_payload(state.protocol.mode_application),
{
}

/// The question whether the LCD is available goes out in a B packet with nothing but the report id and
/// the command in it.
pub proof fn availability_is_asked_for_with_a_bare_packet(p: AioProtocol, i: int)
    requires
        0 <= i < p.b_packet_size,
    ensures
        availability_packet(p).len() == p.b_packet_size,
        i == 0 ==> availability_packet(p)[i] == p.report_id_b,
        i == 1 ==> availability_packet(p)[i] == p.cmd_lcd_available,
        2 <= i ==> availability_packet(p)[i] == 0,
{
}

/// A check takes what the device says: with one byte of data, a zero, the LCD is available, and with
/// any other answer it is not. A device that says nothing in time has its LCD available; an error of the
/// device is passed on; and reports on other commands leave the check waiting, however many come.
pub proof fn check_takes_the_answer(
    check: AvailabilityCheck,
    count: Option<usize>,
    report: Seq<u8>,
)
    requires
        check.phase == CheckPhase::Reading,
    ensures
        ({
            let (next, step) = check.turn(DeviceInput::Read { count, buf: report });
            match count {
                None => step == StepOutput::<Result<bool, AioError>>::Done(
                    Err(AioError::ReadFailed),
                ),
                Some(n) => if n == 0 {
                    step == StepOutput::<Result<bool, AioError>>::Done(Ok(true))
                } else if report[1] != check.protocol.cmd_lcd_available {
                    &&& step == StepOutput::<Result<bool, AioError>>::Do(DeviceOutput::PollStop)
                    &&& next == AvailabilityCheck { phase: CheckPhase::BeforeRead, ..check }
                } else if report[9] == 0 && report[10] == 1 && report[check.protocol.b_header_len as int]
                    == 0 {
                    step == StepOutput::<Result<bool, AioError>>::Done(Ok(true))
                } else {
                    step == StepOutput::<Result<bool, AioError>>::Done(Ok(false))
                },
            }
        }),
{
    assert(report[9] * 256 + report[10] == 1 <==> report[9] == 0 && report[10] == 1);
}

/// A check asks whether to stop, writes its packet once, and asks again before each read, which waits
/// for the usual time. A request to stop ends it there; so does a write that fails.
pub proof fn check_asks_before_it_reads(protocol: AioProtocol, fresh: bool, stop: bool, ok: bool)
    ensures
        ({
            let start = availability_start(protocol);
            let waiting = AvailabilityCheck { protocol, phase: CheckPhase::BeforeRead, fresh };
            let asked = start.turn(DeviceInput::Stop(stop));
            let written = asked.0.turn(DeviceInput::Written(ok));
            let read = waiting.turn(DeviceInput::Stop(stop));
            &&& stop ==> asked.1 == StepOutput::<Result<bool, AioError>>::Done(
                Err(AioError::StopRequested),
            )
            &&& !stop ==> asked.1 == StepOutput::<Result<bool, AioError>>::Do(
                DeviceOutput::Write(availability_packet(protocol)),
            )
            &&& !stop && !ok ==> written.1 == StepOutput::<Result<bool, AioError>>::Done(
                Err(AioError::WriteFailed),
            )
            &&& !stop && ok ==> written.1 == StepOutput::<Result<bool, AioError>>::Do(
                DeviceOutput::PollStop,
            )
            &&& !stop && ok ==> written.0 == AvailabilityCheck {
                protocol,
                phase: CheckPhase::BeforeRead,
                fresh: true,
            }
            &&& stop ==> read.1 == StepOutput::<Result<bool, AioError>>::Done(
                Err(AioError::StopRequested),
            )
            &&& !stop ==> read.1 == StepOutput::<Result<bool, AioError>>::Do(
                DeviceOutput::Read {
                    len: protocol.b_packet_size,
                    timeout_ms: protocol.read_timeout_ms,
                    fresh,
                },
            )
            &&& !stop ==> read.0 == AvailabilityCheck {
                protocol,
                phase: CheckPhase::Reading,
                fresh: false,
            }
        }),
{
}

/// A reset succeeds exactly when the device confirms it: a report on the reset command that reaches
/// behind the header, with a one there. Any other byte there, an error, or nothing in time, ends it
/// without success. Other reports are skipped, unless it was the last of the reads.
pub proof fn reset_takes_the_confirmation(
    reset: DeviceReset,
    count: Option<usize>,
    report: Seq<u8>,
)
    requires
        reset.wf(),
        reset.phase == CheckPhase::Reading,
    ensures
        ({
            let p = reset.protocol;
            let (next, step) = reset.turn(DeviceInput::Read { count, buf: report });
            let on_reset = count matches Some(n) && n > p.a_header_len && report[1]
                == p.cmd_reset_device;
            let skips = count matches Some(n) && n > 0 && !on_reset && reset.reads_left > 1;
            &&& step == StepOutput::<bool>::Done(true) <==> on_reset
                && report[p.a_header_len as int] == 1
            &&& skips ==> step == StepOutput::<bool>::Do(DeviceOutput::PollStop) && next
                == DeviceReset {
                protocol: p,
                phase: CheckPhase::BeforeRead,
                reads_left: (reset.reads_left - 1) as u32,
            }
            &&& !skips ==> step is Done
        }),
{
}

/// A reset asks whether to stop, writes the bare reset command once, and then reads twenty times at
/// most, a second each, asking before each read. A request to stop, or a write that fails, ends it
/// without success.
pub proof fn reset_asks_before_it_reads(protocol: AioProtocol, left: u32, stop: bool, ok: bool)
    requires
        1 <= left <= 20,
    ensures
        ({
            let start = reset_start(protocol);
            let waiting = DeviceReset { protocol, phase: CheckPhase::BeforeRead, reads_left: left };
            let asked = start.turn(DeviceInput::Stop(stop));
            let written = asked.0.turn(DeviceInput::Written(ok));
            let read = waiting.turn(DeviceInput::Stop(stop));
            &&& stop ==> asked.1 == StepOutput::<bool>::Done(false)
            &&& !stop ==> asked.1 == StepOutput::<bool>::Do(
                DeviceOutput::Write(
                    aio_protocol::a_packet(protocol, protocol.cmd_reset_device, Seq::empty()),
                ),
            )
            &&& !stop && !ok ==> written.1 == StepOutput::<bool>::Done(false)
            &&& !stop && ok ==> written.1 == StepOutput::<bool>::Do(DeviceOutput::PollStop)
            &&& !stop && ok ==> written.0 == DeviceReset {
                protocol,
                phase: CheckPhase::BeforeRead,
                reads_left: 20,
            }
            &&& stop ==> read.1 == StepOutput::<bool>::Done(false)
            &&& !stop ==> read.1 == StepOutput::<bool>::Do(
                DeviceOutput::Read {
                    len: protocol.a_packet_size,
                    timeout_ms: 1000,
                    fresh: left == 20,
                },
            )
            &&& !stop ==> read.0 == DeviceReset {
                protocol,
                phase: CheckPhase::Reading,
                reads_left: left,
            }
        }),
{
}

/// A recovery with the steps that it has taken and the cooler's state.
pub struct RecoveryRun {
    pub recovery: Recovery,
    pub state: AioState,
    pub steps: Seq<StepOutput<RecoveryResult>>,
}

/// A recovery from its start on, after some inputs.
#[verifier::opaque]
pub open spec fn recovery_run(state: AioState, inputs: Seq<DeviceInput>) -> RecoveryRun
    decreases inputs.len(),
{
    if inputs.len() == 0 {
        RecoveryRun {
            recovery: recovery_start(state).0,
            state,
            steps: seq![StepOutput::Do(recovery_start(state).1)],
        }
    } else {
        let before = recovery_run(state, inputs.drop_last());
        let (recovery, after, step) = before.recovery.turn(before.state, inputs.last());
        RecoveryRun { recovery, state: after, steps: before.steps.push(step) }
    }
}

proof fn lemma_run_push(state: AioState, inputs: Seq<DeviceInput>, input: DeviceInput)
    ensures
        ({
            let before = recovery_run(state, inputs);
            let (recovery, after, step) = before.recovery.turn(before.state, input);
            recovery_run(state, inputs.push(input)) == RecoveryRun {
                recovery,
                state: after,
                steps: before.steps.push(step),
            }
        }),
{
    reveal(recovery_run);
    assert(inputs.push(input).drop_last() =~= inputs);
}

/// The part of a recovery that finds the LCD gone.
proof fn lemma_found_gone(
    state: AioState,
    inputs: Seq<DeviceInput>,
    now: u64,
    n: usize,
    gone: Seq<u8>,
) -> (after: Seq<DeviceInput>)
    requires
        state.wf(),
        state.lcd_unavailable_count == 2,
        recovery_run(state, inputs).recovery.phase == RecoveryPhase::Checking(
            availability_start(state.protocol),
        ),
        recovery_run(state, inputs).state == state,
        0 < n,
        gone[1] == state.protocol.cmd_lcd_available,
        gone[9] != 0 || gone[10] != 1 || gone[state.protocol.b_header_len as int] != 0,
    ensures
        after == inputs.push(DeviceInput::Stop(false)).push(DeviceInput::Written(true)).push(
            DeviceInput::Stop(false),
        ).push(DeviceInput::Read { count: Some(n), buf: gone }).push(DeviceInput::Clock(now)),
        recovery_run(state, after).recovery.phase == RecoveryPhase::Resetting(
            reset_start(state.protocol),
        ),
        recovery_run(state, after).state == (AioState {
            lcd_unavailable_count: 0,
            last_recovery_attempt: Some(now),
            ..state
        }),
{
    let p = state.protocol;
    let i1 = inputs.push(DeviceInput::Stop(false));
    let i2 = i1.push(DeviceInput::Written(true));
    let i3 = i2.push(DeviceInput::Stop(false));
    let i4 = i3.push(DeviceInput::Read { count: Some(n), buf: gone });
    check_asks_before_it_reads(p, true, false, true);
    lemma_run_push(state, inputs, DeviceInput::Stop(false));
    assert(recovery_run(state, i1).recovery.phase == RecoveryPhase::Checking(
        AvailabilityCheck { protocol: p, phase: CheckPhase::Writing, fresh: true },
    ));
    lemma_run_push(state, i1, DeviceInput::Written(true));
    assert(recovery_run(state, i2).recovery.phase == RecoveryPhase::Checking(
        AvailabilityCheck { protocol: p, phase: CheckPhase::BeforeRead, fresh: true },
    ));
    lemma_run_push(state, i2, DeviceInput::Stop(false));
    let check = AvailabilityCheck { protocol: p, phase: CheckPhase::Reading, fresh: false };
    assert(recovery_run(state, i3).recovery.phase == RecoveryPhase::Checking(check));
    assert(recovery_run(state, i3).state == state);
    check_takes_the_answer(check, Some(n), gone);
    lemma_run_push(state, i3, DeviceInput::Read { count: Some(n), buf: gone });
    assert(recovery_run(state, i4).recovery.phase == RecoveryPhase::Noting);
    lemma_run_push(state, i4, DeviceInput::Clock(now));
    i4.push(DeviceInput::Clock(now))
}

/// The part of a recovery that resets the device and sets it up again.
proof fn lemma_set_up_again(
    state: AioState,
    inputs: Seq<DeviceInput>,
    m: usize,
    confirmed: Seq<u8>,
) -> (after: Seq<DeviceInput>)
    requires
        recovery_run(state, inputs).state.protocol.wf(),
        recovery_run(state, inputs).recovery.phase == RecoveryPhase::Resetting(
            reset_start(recovery_run(state, inputs).state.protocol),
        ),
        recovery_run(state, inputs).state.protocol.a_header_len < m,
        confirmed[1] == recovery_run(state, inputs).state.protocol.cmd_reset_device,
        confirmed[recovery_run(state, inputs).state.protocol.a_header_len as int] == 1,
    ensures
        after == inputs.push(DeviceInput::Stop(false)).push(DeviceInput::Written(true)).push(
            DeviceInput::Stop(false),
        ).push(DeviceInput::Read { count: Some(m), buf: confirmed }).push(DeviceInput::Slept).push(
            DeviceInput::Stop(false),
        ).push(DeviceInput::Transferred(true)),
        recovery_run(state, after).steps.last() == StepOutput::<RecoveryResult>::Done(
            Ok(RecoveryAction::Recovered),
        ),
        recovery_run(state, after).steps.len() >= 2,
        recovery_run(state, after).steps[recovery_run(state, after).steps.len() - 2] is Do,
        recovery_run(state, after).steps[recovery_run(state, after).steps.len()
            - 2]->Do_0 is Transfer,
        recovery_run(state, after).state == recovery_run(state, inputs).state,
{
    let now = recovery_run(state, inputs).state;
    let p = now.protocol;
    let i1 = inputs.push(DeviceInput::Stop(false));
    let i2 = i1.push(DeviceInput::Written(true));
    let i3 = i2.push(DeviceInput::Stop(false));
    let i4 = i3.push(DeviceInput::Read { count: Some(m), buf: confirmed });
    let i5 = i4.push(DeviceInput::Slept);
    let i6 = i5.push(DeviceInput::Stop(false));
    reset_asks_before_it_reads(p, 20, false, true);
    lemma_run_push(state, inputs, DeviceInput::Stop(false));
    lemma_run_push(state, i1, DeviceInput::Written(true));
    assert(recovery_run(state, i2).recovery.phase == RecoveryPhase::Resetting(
        DeviceReset { protocol: p, phase: CheckPhase::BeforeRead, reads_left: 20 },
    ));
    lemma_run_push(state, i2, DeviceInput::Stop(false));
    let reset = DeviceReset { protocol: p, phase: CheckPhase::Reading, reads_left: 20 };
    assert(recovery_run(state, i3).recovery.phase == RecoveryPhase::Resetting(reset));
    assert(recovery_run(state, i3).state == now);
    reset_takes_the_confirmation(reset, Some(m), confirmed);
    lemma_run_push(state, i3, DeviceInput::Read { count: Some(m), buf: confirmed });
    assert(recovery_run(state, i4).recovery.phase == RecoveryPhase::Settling);
    lemma_run_push(state, i4, DeviceInput::Slept);
    assert(recovery_run(state, i5).recovery.phase == RecoveryPhase::BeforeSettings);
    lemma_run_push(state, i5, DeviceInput::Stop(false));
    assert(recovery_run(state, i6).recovery.phase == RecoveryPhase::Applying);
    lemma_run_push(state, i6, DeviceInput::Transferred(true));
    i6.push(DeviceInput::Transferred(true))
}

/// A recovery whose check finds the LCD gone for the third time in a row resets the device, whenever the
/// last recovery was tried: within the same turn it goes on to note the time, and then to the reset. A
/// first or second finding, and a check that fails, end it without a change; the findings are counted.
pub proof fn third_finding_in_a_row_resets(
    state: AioState,
    check: AvailabilityCheck,
    input: DeviceInput,
    now: u64,
)
    requires
        state.wf(),
        check.protocol == state.protocol,
        check.turn(input).1 is Done,
    ensures
        ({
            let found = check.turn(input).1->Done_0;
            let (next, after, step) = Recovery { phase: RecoveryPhase::Checking(check) }.turn(
                state,
                input,
            );
            let noted = next.turn(after, DeviceInput::Clock(now));
            &&& found == Ok::<bool, AioError>(false) && state.lcd_unavailable_count == 2 ==> {
                &&& step == StepOutput::<RecoveryResult>::Do(DeviceOutput::ReadClock)
                &&& next.phase == RecoveryPhase::Noting
                &&& after.lcd_unavailable_count == 0
                &&& noted.0.phase == RecoveryPhase::Resetting(reset_start(state.protocol))
                &&& noted.1.last_recovery_attempt == Some(now)
                &&& noted.2 == StepOutput::<RecoveryResult>::Do(DeviceOutput::PollStop)
            }
            &&& !(found == Ok::<bool, AioError>(false) && state.lcd_unavailable_count == 2) ==> step
                == StepOutput::<RecoveryResult>::Done(Ok(RecoveryAction::NoChange))
            &&& found == Ok::<bool, AioError>(false) && state.lcd_unavailable_count < 2
                ==> after.lcd_unavailable_count == state.lcd_unavailable_count + 1
            &&& found == Ok::<bool, AioError>(true) ==> after.lcd_unavailable_count == 0
            &&& found is Err ==> after == state
        }),
{
}

/// Behind a confirmed reset the device settles for half a second, and then the settings are applied,
/// unless a stop is asked for. Only when they have been sent is the LCD recovered. A reset that is not
/// confirmed changes nothing.
pub proof fn confirmed_reset_has_the_settings_applied(
    state: AioState,
    reset: DeviceReset,
    input: DeviceInput,
    stop: bool,
    ok: bool,
)
    requires
        reset.protocol == state.protocol,
        reset.turn(input).1 is Done,
    ensures
        ({
            let (settling, after, step) = Recovery { phase: RecoveryPhase::Resetting(reset) }.turn(
                state,
                input,
            );
            let slept = settling.turn(after, DeviceInput::Slept);
            let asked = slept.0.turn(slept.1, DeviceInput::Stop(stop));
            let sent = asked.0.turn(asked.1, DeviceInput::Transferred(ok));
            &&& reset.turn(input).1 == StepOutput::<bool>::Done(false) ==> step
                == StepOutput::<RecoveryResult>::Done(Ok(RecoveryAction::NoChange))
            &&& reset.turn(input).1 == StepOutput::<bool>::Done(true) ==> {
                &&& step == StepOutput::<RecoveryResult>::Do(DeviceOutput::SleepMs(500))
                &&& slept.2 == StepOutput::<RecoveryResult>::Do(DeviceOutput::PollStop)
                &&& stop ==> asked.2 == StepOutput::<RecoveryResult>::Done(
                    Err(AioError::StopRequested),
                )
                &&& !stop ==> asked.2 == StepOutput::<RecoveryResult>::Do(
                    DeviceOutput::Transfer {
                        cmd: state.protocol.cmd_lcd_control,
                        payload: seq![
                            state.protocol.mode_application,
                            state.brightness,
                            state.rotation,
                            0u8,
                            0u8,
                            0u8,
                            0u8,
                            state.video_fps,
                        ],
                    },
                )
                &&& !stop && ok ==> sent.2 == StepOutput::<RecoveryResult>::Done(
                    Ok(RecoveryAction::Recovered),
                )
                &&& !stop && !ok ==> sent.2 == StepOutput::<RecoveryResult>::Done(
                    Err(AioError::TransferFailed),
                )
                &&& sent.1 == state
            }
        }),
{
}

/// A recovery hands on what its check and its reset ask for, one after the other, and leaves the state
/// alone meanwhile.
pub proof fn recovery_hands_questions_on(
    state: AioState,
    check: AvailabilityCheck,
    reset: DeviceReset,
    input: DeviceInput,
)
    ensures
        ({
            let checking = Recovery { phase: RecoveryPhase::Checking(check) };
            let resetting = Recovery { phase: RecoveryPhase::Resetting(reset) };
            &&& check.turn(input).1 is Do ==> {
                &&& checking.turn(state, input).0.phase == RecoveryPhase::Checking(
                    check.turn(input).0,
                )
                &&& checking.turn(state, input).1 == state
                &&& checking.turn(state, input).2 == StepOutput::<RecoveryResult>::Do(
                    check.turn(input).1->Do_0,
                )
            }
            &&& reset.turn(input).1 is Do ==> {
                &&& resetting.turn(state, input).0.phase == RecoveryPhase::Resetting(
                    reset.turn(input).0,
                )
                &&& resetting.turn(state, input).1 == state
                &&& resetting.turn(state, input).2 == StepOutput::<RecoveryResult>::Do(
                    reset.turn(input).1->Do_0,
                )
            }
        }),
{
}

/// Two seconds after the last recovery, or later, the LCD is checked again; without an earlier one it is
/// checked at once. Sooner, nothing is done.
pub proof fn recovery_starts_with_a_check_behind_the_cooldown(state: AioState, now: u64)
    ensures
        state.last_recovery_attempt is None ==> recovery_start(state) == (
            Recovery { phase: RecoveryPhase::Checking(availability_start(state.protocol)) },
            DeviceOutput::PollStop,
        ),
        state.last_recovery_attempt matches Some(tried) ==> {
            let (next, after, step) = recovery_start(state).0.turn(state, DeviceInput::Clock(now));
            &&& recovery_start(state).1 == DeviceOutput::ReadClock
            &&& after == state
            &&& now - tried >= 2_000_000_000 ==> next.phase == RecoveryPhase::Checking(
                availability_start(state.protocol),
            ) && step == StepOutput::<RecoveryResult>::Do(DeviceOutput::PollStop)
            &&& now - tried < 2_000_000_000 ==> step == StepOutput::<RecoveryResult>::Done(
                Ok(RecoveryAction::NoChange),
            )
        },
        availability_start(state.protocol).phase == CheckPhase::BeforeWrite,
        availability_start(state.protocol).protocol == state.protocol,
        availability_start(state.protocol).fresh,
        reset_start(state.protocol).phase == CheckPhase::BeforeWrite,
        reset_start(state.protocol).protocol == state.protocol,
{
}

/// A cooler whose LCD has been found gone twice in a row, and that says so again, is recovered: whenever
/// the last recovery was tried, as long as it was two seconds ago. The device is reset, settles, and gets
/// the settings that stand, and the recovery ends with that result.
pub proof fn gone_lcd_is_recovered(
    state: AioState,
    now: u64,
    noted: u64,
    n: usize,
    gone: Seq<u8>,
    m: usize,
    confirmed: Seq<u8>,
)
    requires
        state.wf(),
        state.lcd_unavailable_count == 2,
        state.last_recovery_attempt matches Some(tried) ==> now - tried >= 2_000_000_000,
        0 < n,
        gone[1] == state.protocol.cmd_lcd_available,
        gone[9] != 0 || gone[10] != 1 || gone[state.protocol.b_header_len as int] != 0,
        state.protocol.a_header_len < m,
        confirmed[1] == state.protocol.cmd_reset_device,
        confirmed[state.protocol.a_header_len as int] == 1,
    ensures
        ({
            let first = if state.last_recovery_attempt is Some {
                seq![DeviceInput::Clock(now)]
            } else {
                Seq::empty()
            };
            let inputs = first + seq![
                DeviceInput::Stop(false),
                DeviceInput::Written(true),
                DeviceInput::Stop(false),
                DeviceInput::Read { count: Some(n), buf: gone },
                DeviceInput::Clock(noted),
                DeviceInput::Stop(false),
                DeviceInput::Written(true),
                DeviceInput::Stop(false),
                DeviceInput::Read { count: Some(m), buf: confirmed },
                DeviceInput::Slept,
                DeviceInput::Stop(false),
                DeviceInput::Transferred(true),
            ];
            let run = recovery_run(state, inputs);
            &&& run.steps.last() == StepOutput::<RecoveryResult>::Done(
                Ok(RecoveryAction::Recovered),
            )
            &&& run.steps[run.steps.len() - 2] is Do
            &&& run.steps[run.steps.len() - 2]->Do_0 is Transfer
            &&& run.state.last_recovery_attempt == Some(noted)
            &&& run.state.lcd_unavailable_count == 0
        }),
{
    let none = Seq::<DeviceInput>::empty();
    let first: Seq<DeviceInput> = if state.last_recovery_attempt is Some {
        seq![DeviceInput::Clock(now)]
    } else {
        none
    };
    assert(recovery_run(state, none).state == state && recovery_run(state, none).recovery
        == recovery_start(state).0) by {
        reveal(recovery_run);
    }
    recovery_starts_with_a_check_behind_the_cooldown(state, now);
    if state.last_recovery_attempt is Some {
        assert(first =~= none.push(DeviceInput::Clock(now)));
        lemma_run_push(state, none, DeviceInput::Clock(now));
    }
    let found = lemma_found_gone(state, first, noted, n, gone);
    let all = lemma_set_up_again(state, found, m, confirmed);
    assert(all =~= first + seq![
        DeviceInput::Stop(false),
        DeviceInput::Written(true),
        DeviceInput::Stop(false),
        DeviceInput::Read { count: Some(n), buf: gone },
        DeviceInput::Clock(noted),
        DeviceInput::Stop(false),
        DeviceInput::Written(true),
        DeviceInput::Stop(false),
        DeviceInput::Read { count: Some(m), buf: confirmed },
        DeviceInput::Slept,
        DeviceInput::Stop(false),
        DeviceInput::Transferred(true),
    ]);
}

/// A check, a reset and a recovery take any answer to what they asked for last, and nothing else.
pub proof fn questions_take_their_answers(
    protocol: AioProtocol,
    phase: CheckPhase,
    fresh: bool,
    left: u32,
    input: DeviceInput,
)
    ensures
        ({
            let read_into = |len: usize| input matches DeviceInput::Read { count, buf } && buf.len()
                == len && (count matches Some(n) ==> n <= len);
            let answers = |len: usize| match phase {
                CheckPhase::BeforeWrite | CheckPhase::BeforeRead => input is Stop,
                CheckPhase::Writing => input is Written,
                CheckPhase::Reading => read_into(len),
                CheckPhase::Over => false,
            };
            let check = AvailabilityCheck { protocol, phase, fresh };
            let reset = DeviceReset { protocol, phase, reads_left: left };
            &&& check.expects(input) == answers(protocol.b_packet_size)
            &&& reset.expects(input) == answers(protocol.a_packet_size)
            &&& Recovery { phase: RecoveryPhase::Checking(check) }.expects(input) == check.expects(
                input,
            )
            &&& Recovery { phase: RecoveryPhase::Resetting(reset) }.expects(input) == reset.expects(
                input,
            )
            &&& Recovery { phase: RecoveryPhase::Cooldown }.expects(input) == (input is Clock)
            &&& Recovery { phase: RecoveryPhase::Noting }.expects(input) == (input is Clock)
            &&& Recovery { phase: RecoveryPhase::Settling }.expects(input) == (input is Slept)
            &&& Recovery { phase: RecoveryPhase::BeforeSettings }.expects(input) == (input is Stop)
            &&& Recovery { phase: RecoveryPhase::Applying }.expects(input) == (
            input is Transferred)
            &&& !Recovery { phase: RecoveryPhase::Over }.expects(input)
        }),
{
}

} // verus!
