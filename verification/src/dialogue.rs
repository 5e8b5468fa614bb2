//! Dialogues with a cooler: what they ask of the caller and what the caller answers, and the two
//! exchanges that they are made of.

use vstd::prelude::*;
use vstd::slice::slice_subrange;
use crate::aio_controller::{AioState, HydroShiftLcdController, LcdCommand};
use crate::aio_protocol;
use crate::aio_protocol::{
    is_handshake_readable, read_handshake, try_parse_handshake, write_a_command_raw, AioError,
    AioHandshake, AioProtocol,
};

verus! {

/// What a dialogue asks of its caller.
pub enum DeviceAction {
    /// Say whether to stop.
    PollStop,
    /// Read the clock.
    ReadClock,
    /// Sleep so many milliseconds.
    SleepMs(u64),
    /// Write a report.
    Write(Vec<u8>),
    /// Read a report into the dialogue's buffer of `len` bytes, which is zeroed first if `fresh`.
    Read { len: usize, timeout_ms: i32, fresh: bool },
    /// Send a command to the LCD.
    Transfer(LcdCommand),
    /// Say which version a firmware text stands for.
    ParseVersion(String),
    /// Start the thread that keeps reading handshakes.
    StartReader,
}

/// A [`DeviceAction`] with the bytes and text that it carries.
pub enum DeviceOutput {
    PollStop,
    ReadClock,
    SleepMs(u64),
    Write(Seq<u8>),
    Read { len: usize, timeout_ms: i32, fresh: bool },
    Transfer { cmd: u8, payload: Seq<u8> },
    ParseVersion(Seq<char>),
    StartReader,
}

impl View for DeviceAction {
    type V = DeviceOutput;

    open spec fn view(&self) -> DeviceOutput {
        match self {
            DeviceAction::PollStop => DeviceOutput::PollStop,
            DeviceAction::ReadClock => DeviceOutput::ReadClock,
            DeviceAction::SleepMs(ms) => DeviceOutput::SleepMs(*ms),
            DeviceAction::Write(report) => DeviceOutput::Write(report@),
            DeviceAction::Read { len, timeout_ms, fresh } => DeviceOutput::Read {
                len: *len,
                timeout_ms: *timeout_ms,
                fresh: *fresh,
            },
            DeviceAction::Transfer(command) => DeviceOutput::Transfer {
                cmd: command.cmd,
                payload: command.payload@,
            },
            DeviceAction::ParseVersion(text) => DeviceOutput::ParseVersion(text@),
            DeviceAction::StartReader => DeviceOutput::StartReader,
        }
    }
}

/// What the caller answers.
pub enum DeviceEvent<'a> {
    /// Whether to stop.
    Stop(bool),
    /// The clock, in nanoseconds.
    Clock(u64),
    Slept,
    /// Whether the report was written.
    Written(bool),
    /// How many bytes were read (none if nothing came in time), or `None` for an error, and the
    /// whole buffer.
    Read { count: Option<usize>, buf: &'a [u8] },
    /// Whether the command was sent.
    Transferred(bool),
    Version(Option<(u32, u32)>),
    ReaderStarted,
}

/// A [`DeviceEvent`] with the bytes that it carries.
pub enum DeviceInput {
    Stop(bool),
    Clock(u64),
    Slept,
    Written(bool),
    Read { count: Option<usize>, buf: Seq<u8> },
    Transferred(bool),
    Version(Option<(u32, u32)>),
    ReaderStarted,
}

impl<'a> View for DeviceEvent<'a> {
    type V = DeviceInput;

    open spec fn view(&self) -> DeviceInput {
        match self {
            DeviceEvent::Stop(stop) => DeviceInput::Stop(*stop),
            DeviceEvent::Clock(now) => DeviceInput::Clock(*now),
            DeviceEvent::Slept => DeviceInput::Slept,
            DeviceEvent::Written(ok) => DeviceInput::Written(*ok),
            DeviceEvent::Read { count, buf } => DeviceInput::Read { count: *count, buf: buf@ },
            DeviceEvent::Transferred(ok) => DeviceInput::Transferred(*ok),
            DeviceEvent::Version(version) => DeviceInput::Version(*version),
            DeviceEvent::ReaderStarted => DeviceInput::ReaderStarted,
        }
    }
}

impl<'a> DeviceEvent<'a> {
    /// Whether it is a read into a buffer of `len` bytes.
    pub fn is_read_into(&self, len: usize) -> (is: bool)
        ensures
            is == self@.is_read_into(len),
    {
        match self {
            DeviceEvent::Read { count, buf } => buf.len() == len && match *count {
                Some(n) => n <= len,
                None => true,
            },
            _ => false,
        }
    }
}

impl DeviceInput {
    /// A read into a buffer of `len` bytes.
    pub open spec fn is_read_into(self, len: usize) -> bool {
        self matches DeviceInput::Read { count, buf } && buf.len() == len && (count matches Some(n)
            ==> n <= len)
    }

    /// The bytes that a read brought, if it brought any.
    pub open spec fn report(self) -> Option<Seq<u8>> {
        match self {
            DeviceInput::Read { count: Some(n), buf } => if n > 0 {
                Some(buf.take(n as int))
            } else {
                None
            },
            _ => None,
        }
    }

    /// The command byte of the buffer behind a read.
    pub open spec fn command(self) -> u8 {
        self->buf[1]
    }
}

/// A dialogue goes on with an action or ends with a result.
pub enum Step<T> {
    Do(DeviceAction),
    Done(T),
}

/// A [`Step`] with the bytes and text that it carries.
pub enum StepOutput<T> {
    Do(DeviceOutput),
    Done(T),
}

impl<T> View for Step<T> {
    type V = StepOutput<T>;

    open spec fn view(&self) -> StepOutput<T> {
        match self {
            Step::Do(action) => StepOutput::Do(action@),
            Step::Done(result) => StepOutput::Done(*result),
        }
    }
}

/// What an exchange waits for.
#[derive(Clone, Copy, Debug, PartialEq, Eq, Structural)]
pub enum ExchangePhase {
    /// For the command to be written.
    Writing,
    /// For the answer.
    Reading,
    /// For a second report, which belongs to the answer.
    Trailing,
    /// For nothing: the exchange is over.
    Over,
}

/// A command and the wait for its answer. Reports on other commands are skipped.
#[derive(Clone, Copy, Debug, PartialEq, Eq, Structural)]
pub struct CommandExchange {
    pub protocol: AioProtocol,
    pub cmd: u8,
    pub timeout_ms: i32,
    pub phase: ExchangePhase,
}

impl CommandExchange {
    /// The input that the exchange waits for.
    pub open spec fn expects(self, input: DeviceInput) -> bool {
        match self.phase {
            ExchangePhase::Writing => input is Written,
            ExchangePhase::Reading => input.is_read_into(self.protocol.a_packet_size),
            _ => false,
        }
    }

    /// The handshake that comes along while the exchange waits for the answer to another command.
    pub open spec fn overheard(self, input: DeviceInput) -> Option<AioHandshake> {
        match input.report() {
            Some(report) => if self.phase == ExchangePhase::Reading && self.cmd
                != self.protocol.cmd_handshake && input.command() == self.protocol.cmd_handshake {
                aio_protocol::parsed_handshake(self.protocol, report)
            } else {
                None
            },
            None => None,
        }
    }

    /// A handshake that comes along holds what it announces.
    pub open spec fn overhears_well(self, input: DeviceInput) -> bool {
        input.report() matches Some(report) ==> (input.command() == self.protocol.cmd_handshake
            && self.cmd != self.protocol.cmd_handshake) ==> aio_protocol::handshake_readable(
            self.protocol,
            report,
        )
    }

    /// Whether an event can be handed to [`CommandExchange::resume`].
    pub fn can_take(&self, event: &DeviceEvent) -> (can: bool)
        requires
            self.protocol.wf(),
        ensures
            can == (self.expects(event@) && self.overhears_well(event@)),
    {
        match (self.phase, event) {
            (ExchangePhase::Writing, DeviceEvent::Written(_)) => true,
            (ExchangePhase::Reading, DeviceEvent::Read { count, buf }) => {
                if !event.is_read_into(self.protocol.a_packet_size) {
                    return false;
                }
                match *count {
                    Some(n) => {
                        if n == 0 || self.cmd == self.protocol.cmd_handshake || buf[1]
                            != self.protocol.cmd_handshake {
                            return true;
                        }
                        let report = slice_subrange(*buf, 0, n);
                        assert(report@ =~= buf@.take(n as int));
                        is_handshake_readable(&self.protocol, report)
                    },
                    None => true,
                }
            },
            _ => false,
        }
    }

    /// The action that waits for a report.
    pub open spec fn read(self, fresh: bool) -> DeviceOutput {
        DeviceOutput::Read {
            len: self.protocol.a_packet_size,
            timeout_ms: self.timeout_ms,
            fresh,
        }
    }

    /// The exchange ends.
    pub open spec fn over(self, result: Result<usize, AioError>) -> (CommandExchange, StepOutput<
        Result<usize, AioError>,
    >) {
        (CommandExchange { phase: ExchangePhase::Over, ..self }, StepOutput::Done(result))
    }

    /// One turn of the exchange. Its result is the number of bytes of the answer.
    pub open spec fn turn(self, input: DeviceInput) -> (CommandExchange, StepOutput<
        Result<usize, AioError>,
    >) {
        match input {
            DeviceInput::Written(true) => (
                CommandExchange { phase: ExchangePhase::Reading, ..self },
                StepOutput::Do(self.read(true)),
            ),
            DeviceInput::Read { count: None, .. } => self.over(Err(AioError::ReadFailed)),
            DeviceInput::Read { count: Some(n), buf } => if n == 0 {
                self.over(Err(AioError::NoResponse))
            } else if buf[1] == self.cmd {
                self.over(Ok(n))
            } else {
                (self, StepOutput::Do(self.read(false)))
            },
            _ => self.over(Err(AioError::WriteFailed)),
        }
    }

    /// Takes the answer to the last action and gives the next step. A handshake that comes along is
    /// recorded.
    pub fn resume(&mut self, controller: &mut HydroShiftLcdController, event: DeviceEvent) -> (step:
        Step<Result<usize, AioError>>)
        requires
            old(controller)@.wf(),
            old(self).protocol.wf(),
            old(self).expects(event@),
            old(self).overhears_well(event@),
        ensures
            (*final(self), step@) == old(self).turn(event@),
            final(controller)@ == (match old(self).overheard(event@) {
                Some(handshake) => AioState {
                    last_handshake: Some(handshake),
                    ..old(controller)@
                },
                None => old(controller)@,
            }),
            final(controller)@.wf(),
    {
        let len = self.protocol.a_packet_size;
        let timeout_ms = self.timeout_ms;
        match event {
            DeviceEvent::Written(true) => {
                self.phase = ExchangePhase::Reading;
                Step::Do(DeviceAction::Read { len, timeout_ms, fresh: true })
            },
            DeviceEvent::Read { count: None, .. } => {
                self.phase = ExchangePhase::Over;
                Step::Done(Err(AioError::ReadFailed))
            },
            DeviceEvent::Read { count: Some(n), buf } => {
                if n == 0 {
                    self.phase = ExchangePhase::Over;
                    return Step::Done(Err(AioError::NoResponse));
                }
                if buf[1] == self.cmd {
                    self.phase = ExchangePhase::Over;
                    return Step::Done(Ok(n));
                }
                if self.cmd != self.protocol.cmd_handshake && buf[1]
                    == self.protocol.cmd_handshake {
                    let report = slice_subrange(buf, 0, n);
                    assert(report@ =~= buf@.take(n as int));
                    match try_parse_handshake(&self.protocol, report) {
                        Some(handshake) => {
                            controller.record_handshake(handshake);
                        },
                        None => {},
                    }
                }
                Step::Do(DeviceAction::Read { len, timeout_ms, fresh: false })
            },
            _ => {
                self.phase = ExchangePhase::Over;
                Step::Done(Err(AioError::WriteFailed))
            },
        }
    }
}

/// The exchange after some reads.
pub open spec fn exchange_run(
    exchange: CommandExchange,
    inputs: Seq<DeviceInput>,
) -> CommandExchange
    decreases inputs.len(),
{
    if inputs.len() == 0 {
        exchange
    } else {
        exchange_run(exchange, inputs.drop_last()).turn(inputs.last()).0
    }
}

/// The answer to a command is the first report on it: whatever reports on other commands come
/// before, they leave the exchange waiting as it was, and the first report on its command ends it.
pub proof fn answer_is_the_first_report(
    exchange: CommandExchange,
    others: Seq<DeviceInput>,
    answer: DeviceInput,
)
    requires
        exchange.phase == ExchangePhase::Reading,
        forall|i: int|
            0 <= i < others.len() ==> (#[trigger] others[i]).report() is Some && others[i].command()
                != exchange.cmd,
        answer.report() is Some,
        answer.command() == exchange.cmd,
    ensures
        exchange_run(exchange, others) == exchange,
        exchange_run(exchange, others).turn(answer).1 == StepOutput::<Result<usize, AioError>>::Done(
            Ok(answer->Read_count->0),
        ),
    decreases others.len(),
{
    if others.len() > 0 {
        let last = others.last();
        assert(last.report() is Some && last.command() != exchange.cmd);
        answer_is_the_first_report(exchange, others.drop_last(), answer);
    }
}

/// A handshake: a command whose answer says how the cooler is doing.
#[derive(Clone, Copy, Debug, PartialEq, Eq, Structural)]
pub struct HandshakeDialogue {
    pub exchange: CommandExchange,
}

impl HandshakeDialogue {
    /// The exchange is one for the handshake command.
    pub open spec fn wf(self) -> bool {
        &&& self.exchange.protocol.wf()
        &&& self.exchange.cmd == self.exchange.protocol.cmd_handshake
    }

    /// An answer holds its data length, and the data that it announces.
    pub open spec fn answers_well(self, input: DeviceInput) -> bool {
        input.report() matches Some(report) ==> input.command() == self.exchange.cmd ==> {
            &&& 6 <= report.len()
            &&& report[5] >= 4 ==> aio_protocol::handshake_fits(self.exchange.protocol, report)
        }
    }

    /// Whether an event can be handed to [`HandshakeDialogue::resume`].
    pub fn can_take(&self, event: &DeviceEvent) -> (can: bool)
        requires
            self.wf(),
        ensures
            can == (self.exchange.expects(event@) && self.answers_well(event@)),
    {
        if !self.exchange.can_take(event) {
            return false;
        }
        match event {
            DeviceEvent::Read { count, buf } => match *count {
                Some(n) => {
                    if n == 0 || buf[1] != self.exchange.cmd {
                        return true;
                    }
                    let report = slice_subrange(*buf, 0, n);
                    assert(report@ =~= buf@.take(n as int));
                    n >= 6 && (report[5] < 4 || (n >= self.exchange.protocol.a_header_len && n
                        - self.exchange.protocol.a_header_len >= 4 && is_handshake_readable(
                        &self.exchange.protocol,
                        report,
                    )))
                },
                None => true,
            },
            _ => true,
        }
    }

    /// One turn of the dialogue.
    pub open spec fn turn(self, input: DeviceInput) -> (HandshakeDialogue, StepOutput<
        Result<AioHandshake, AioError>,
    >) {
        let (exchange, step) = self.exchange.turn(input);
        (
            HandshakeDialogue { exchange },
            match step {
                StepOutput::Do(action) => StepOutput::Do(action),
                StepOutput::Done(Err(error)) => StepOutput::Done(Err(error)),
                StepOutput::Done(Ok(_)) => {
                    let report = input.report()->0;
                    if report[5] < 4 {
                        StepOutput::Done(Err(AioError::HandshakeTooShort(report[5])))
                    } else {
                        StepOutput::Done(
                            Ok(aio_protocol::handshake_of(self.exchange.protocol, report)),
                        )
                    }
                },
            },
        )
    }

    /// The cooler's state behind a step: a handshake is recorded.
    pub open spec fn recorded(
        state: AioState,
        step: StepOutput<Result<AioHandshake, AioError>>,
    ) -> AioState {
        match step {
            StepOutput::Done(Ok(handshake)) => AioState {
                last_handshake: Some(handshake),
                ..state
            },
            _ => state,
        }
    }

    /// Takes the answer to the last action and gives the next step.
    pub fn resume(&mut self, controller: &mut HydroShiftLcdController, event: DeviceEvent) -> (step:
        Step<Result<AioHandshake, AioError>>)
        requires
            old(controller)@.wf(),
            old(self).wf(),
            old(self).exchange.expects(event@),
            old(self).answers_well(event@),
        ensures
            (*final(self), step@) == old(self).turn(event@),
            final(controller)@ == Self::recorded(old(controller)@, step@),
            final(controller)@.wf(),
            final(self).wf(),
    {
        let report = match event {
            DeviceEvent::Read { count: Some(n), buf } => slice_subrange(buf, 0, n),
            _ => slice_subrange([0u8; 6].as_slice(), 0, 0),
        };
        assert(event@.report() matches Some(bytes) ==> bytes =~= report@);
        match self.exchange.resume(controller, event) {
            Step::Do(action) => Step::Do(action),
            Step::Done(Err(error)) => Step::Done(Err(error)),
            Step::Done(Ok(_)) => {
                let data_len = report[5];
                if data_len < 4 {
                    return Step::Done(Err(AioError::HandshakeTooShort(data_len)));
                }
                let handshake = read_handshake(&self.exchange.protocol, report);
                controller.record_handshake(handshake);
                Step::Done(Ok(handshake))
            },
        }
    }
}

impl HydroShiftLcdController {
    /// Starts a command and the wait for its answer.
    pub fn send_a_command(&self, cmd: u8, data: &[u8], timeout_ms: i32) -> (started: Result<
        (CommandExchange, DeviceAction),
        AioError,
    >)
        requires
            self@.wf(),
        ensures
            ({
                let p = self@.protocol;
                let max = p.a_packet_size - p.a_header_len;
                if data@.len() > max {
                    started == Err::<(CommandExchange, DeviceAction), AioError>(
                        AioError::PayloadTooLarge { cmd, len: data.len(), max: max as usize },
                    )
                } else {
                    &&& started is Ok
                    &&& started->Ok_0.0 == (CommandExchange {
                        protocol: p,
                        cmd,
                        timeout_ms,
                        phase: ExchangePhase::Writing,
                    })
                    &&& started->Ok_0.1@ == DeviceOutput::Write(
                        aio_protocol::a_packet(p, cmd, data@),
                    )
                }
            }),
    {
        let protocol = self.protocol();
        match write_a_command_raw(&protocol, cmd, data) {
            Ok(packet) => {
                let exchange = CommandExchange {
                    protocol,
                    cmd,
                    timeout_ms,
                    phase: ExchangePhase::Writing,
                };
                Ok((exchange, DeviceAction::Write(packet)))
            },
            Err(error) => Err(error),
        }
    }

    /// Starts a handshake. It waits longer for the answer before initialization.
    pub fn handshake(&self) -> (started: (HandshakeDialogue, DeviceAction))
        requires
            self@.wf(),
        ensures
            started.0 == handshake_start(self@).0,
            started.0.wf(),
            started.1@ == handshake_start(self@).1,
    {
        let protocol = self.protocol();
        let timeout_ms = if self.is_initialized() {
            protocol.read_timeout_ms
        } else {
            protocol.init_read_timeout_ms
        };
        let cmd = protocol.cmd_handshake;
        let none: [u8; 0] = [];
        assert(none@ =~= Seq::<u8>::empty());
        let packet = write_a_command_raw(&protocol, cmd, none.as_slice()).unwrap();
        let exchange = CommandExchange { protocol, cmd, timeout_ms, phase: ExchangePhase::Writing };
        (HandshakeDialogue { exchange }, DeviceAction::Write(packet))
    }
}

/// A handshake that is about to begin, and its first action.
pub open spec fn handshake_start(state: AioState) -> (HandshakeDialogue, DeviceOutput) {
    let p = state.protocol;
    (
        HandshakeDialogue {
            exchange: CommandExchange {
                protocol: p,
                cmd: p.cmd_handshake,
                timeout_ms: if state.initialized {
                    p.read_timeout_ms
                } else {
                    p.init_read_timeout_ms
                },
                phase: ExchangePhase::Writing,
            },
        },
        DeviceOutput::Write(aio_protocol::a_packet(p, p.cmd_handshake, Seq::empty())),
    )
}

/// What a read brought are the first bytes of the buffer, as many as were counted; a read that failed,
/// or in which nothing came in time, brought nothing.
pub proof fn reads_bring_what_was_counted(count: Option<usize>, buf: Seq<u8>)
    ensures
        ({
            let input = DeviceInput::Read { count, buf };
            &&& input.report() is Some <==> count is Some && count->0 > 0
            &&& input.report() matches Some(report) ==> report == buf.take(count->0 as int)
            &&& input.command() == buf[1]
        }),
{
}

/// An exchange reads as soon as its command has been written, into a fresh buffer, and goes on reading
/// until a report on its command comes, whose length is its result. A write that fails, a read that
/// fails, and a read in which nothing comes in time, each end it with the error of their own.
pub proof fn exchange_ends_with_an_answer_or_an_error(
    exchange: CommandExchange,
    count: Option<usize>,
    buf: Seq<u8>,
    ok: bool,
)
    ensures
        ({
            let written = exchange.turn(DeviceInput::Written(ok));
            let read = exchange.turn(DeviceInput::Read { count, buf });
            let waiting = |fresh: bool|
                DeviceOutput::Read {
                    len: exchange.protocol.a_packet_size,
                    timeout_ms: exchange.timeout_ms,
                    fresh,
                };
            &&& ok ==> written.1 == StepOutput::<Result<usize, AioError>>::Do(waiting(true))
            &&& ok ==> written.0 == CommandExchange { phase: ExchangePhase::Reading, ..exchange }
            &&& !ok ==> written.1 == StepOutput::<Result<usize, AioError>>::Done(
                Err(AioError::WriteFailed),
            )
            &&& count is None ==> read.1 == StepOutput::<Result<usize, AioError>>::Done(
                Err(AioError::ReadFailed),
            )
            &&& count == Some(0usize) ==> read.1 == StepOutput::<Result<usize, AioError>>::Done(
                Err(AioError::NoResponse),
            )
            &&& count is Some && count->0 > 0 && buf[1] == exchange.cmd ==> read.1
                == StepOutput::<Result<usize, AioError>>::Done(Ok(count->0))
            &&& count is Some && count->0 > 0 && buf[1] != exchange.cmd ==> read.1
                == StepOutput::<Result<usize, AioError>>::Do(waiting(false)) && read.0 == exchange
        }),
{
}

/// While the answer to another command is awaited, each handshake that comes along is taken from the
/// bytes that were read, if there are enough of them; nothing else that comes along is taken for one.
pub proof fn handshakes_on_the_way_are_heard(
    exchange: CommandExchange,
    count: Option<usize>,
    buf: Seq<u8>,
)
    ensures
        ({
            let p = exchange.protocol;
            let heard = exchange.overheard(DeviceInput::Read { count, buf });
            let comes_along = exchange.phase == ExchangePhase::Reading && count is Some && count->0
                > 0 && buf[1] == p.cmd_handshake && exchange.cmd != p.cmd_handshake;
            &&& comes_along ==> heard == aio_protocol::parsed_handshake(
                p,
                buf.take(count->0 as int),
            )
            &&& !comes_along ==> heard is None
        }),
{
}

/// An exchange takes the answer to what it asked for last: whether its command was written, or a read
/// into a buffer of one packet.
pub proof fn exchanges_take_their_answers(exchange: CommandExchange, input: DeviceInput)
    ensures
        exchange.expects(input) == match exchange.phase {
            ExchangePhase::Writing => input is Written,
            ExchangePhase::Reading => input is Read && input->buf.len()
                == exchange.protocol.a_packet_size && (input->Read_count matches Some(n) ==> n
                <= exchange.protocol.a_packet_size),
            _ => false,
        },
{
}

/// A handshake is asked for with the bare handshake command, and waited for during the usual timeout, or
/// during the longer one of a cooler that has not been brought up. Its answer is what the report says,
/// and is recorded; an answer that announces fewer than four bytes is an error that tells how many, and
/// leaves the record alone, as every other error does.
pub proof fn handshake_is_what_the_answer_says(
    state: AioState,
    dialogue: HandshakeDialogue,
    n: usize,
    buf: Seq<u8>,
)
    requires
        6 <= n <= buf.len(),
    ensures
        ({
            let p = dialogue.exchange.protocol;
            let (started, action) = handshake_start(state);
            let step = dialogue.turn(DeviceInput::Read { count: Some(n), buf }).1;
            let report = buf.take(n as int);
            &&& started.exchange.protocol == state.protocol
            &&& started.exchange.cmd == state.protocol.cmd_handshake
            &&& started.exchange.phase == ExchangePhase::Writing
            &&& state.initialized ==> started.exchange.timeout_ms == state.protocol.read_timeout_ms
            &&& !state.initialized ==> started.exchange.timeout_ms
                == state.protocol.init_read_timeout_ms
            &&& action == DeviceOutput::Write(
                aio_protocol::a_packet(state.protocol, state.protocol.cmd_handshake, Seq::empty()),
            )
            &&& buf[1] == dialogue.exchange.cmd && buf[5] < 4 ==> step == StepOutput::<
                Result<AioHandshake, AioError>,
            >::Done(Err(AioError::HandshakeTooShort(buf[5])))
            &&& buf[1] == dialogue.exchange.cmd && 4 <= buf[5] ==> step == StepOutput::<
                Result<AioHandshake, AioError>,
            >::Done(Ok(aio_protocol::handshake_of(p, report)))
            &&& buf[1] != dialogue.exchange.cmd ==> step is Do
        }),
{
}

/// What a handshake ends with is what is recorded, and only if it ends with one; nothing else changes.
pub proof fn handshakes_are_recorded(
    state: AioState,
    dialogue: HandshakeDialogue,
    input: DeviceInput,
)
    ensures
        ({
            let step = dialogue.turn(input).1;
            let after = HandshakeDialogue::recorded(state, step);
            &&& step matches StepOutput::Done(Ok(handshake)) ==> after.last_handshake == Some(
                handshake,
            )
            &&& !(step is Done && step->Done_0 is Ok) ==> after == state
            &&& after == AioState { last_handshake: after.last_handshake, ..state }
            &&& dialogue.turn(input).0.exchange == dialogue.exchange.turn(input).0
            &&& dialogue.exchange.turn(input).1 matches StepOutput::Do(action) ==> step
                == StepOutput::<Result<AioHandshake, AioError>>::Do(action)
            &&& dialogue.exchange.turn(input).1 matches StepOutput::Done(Err(error)) ==> step
                == StepOutput::<Result<AioHandshake, AioError>>::Done(Err(error))
        }),
{
}

/// Which reports an exchange and a handshake can take: one that is no handshake they look at, or one
/// that holds the bytes that it announces.
pub proof fn whole_reports_can_be_taken(
    exchange: CommandExchange,
    dialogue: HandshakeDialogue,
    n: usize,
    buf: Seq<u8>,
)
    requires
        n <= buf.len(),
    ensures
        ({
            let input = DeviceInput::Read { count: Some(n), buf };
            let p = exchange.protocol;
            let q = dialogue.exchange.protocol;
            &&& exchange.overhears_well(input) <==> (n == 0 || buf[1] != p.cmd_handshake
                || exchange.cmd == p.cmd_handshake || aio_protocol::handshake_readable(
                p,
                buf.take(n as int),
            ))
            &&& dialogue.answers_well(input) <==> (n == 0 || buf[1] != dialogue.exchange.cmd || (6
                <= n && (buf[5] < 4 || (q.a_header_len + 4 <= n && (buf[5] < 5 || q.a_header_len + 5
                <= n) && (buf[5] < 7 || q.a_header_len + 7 <= n)))))
        }),
{
}

/// An event brings what was answered, and all the bytes of the buffer.
pub proof fn events_bring_what_was_answered(event: DeviceEvent<'_>)
    ensures
        match event {
            DeviceEvent::Stop(stop) => event@ == DeviceInput::Stop(stop),
            DeviceEvent::Clock(now) => event@ == DeviceInput::Clock(now),
            DeviceEvent::Slept => event@ is Slept,
            DeviceEvent::Written(ok) => event@ == DeviceInput::Written(ok),
            DeviceEvent::Read { count, buf } => event@ == (DeviceInput::Read { count, buf: buf@ }),
            DeviceEvent::Transferred(ok) => event@ == DeviceInput::Transferred(ok),
            DeviceEvent::Version(version) => event@ == DeviceInput::Version(version),
            DeviceEvent::ReaderStarted => event@ is ReaderStarted,
        },
{
}

/// An action carries all its bytes and its text.
pub proof fn actions_carry_their_bytes(action: DeviceAction)
    ensures
        match action {
            DeviceAction::PollStop => action@ is PollStop,
            DeviceAction::ReadClock => action@ is ReadClock,
            DeviceAction::SleepMs(ms) => action@ == DeviceOutput::SleepMs(ms),
            DeviceAction::Write(report) => action@ == DeviceOutput::Write(report@),
            DeviceAction::Read { len, timeout_ms, fresh } => action@ == (DeviceOutput::Read {
                len,
                timeout_ms,
                fresh,
            }),
            DeviceAction::Transfer(command) => action@ == (DeviceOutput::Transfer {
                cmd: command.cmd,
                payload: command.payload@,
            }),
            DeviceAction::ParseVersion(text) => action@ == DeviceOutput::ParseVersion(text@),
            DeviceAction::StartReader => action@ is StartReader,
        },
{
}

/// A step that ends a dialogue carries its result, and one that goes on its action.
pub proof fn steps_carry_their_result<T>(step: Step<T>)
    ensures
        match step {
            Step::Do(action) => step@ == StepOutput::<T>::Do(action@),
            Step::Done(result) => step@ == StepOutput::<T>::Done(result),
        },
{
}

} // verus!
