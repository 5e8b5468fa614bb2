//! Reading a cooler's firmware version.

use vstd::prelude::*;
use crate::aio_controller::{AioState, HydroShiftLcdController};
use crate::aio_protocol;
use crate::aio_protocol::{firmware_text, write_a_command_raw, AioError, AioProtocol};
use crate::dialogue::{
    DeviceAction, DeviceEvent, DeviceInput, DeviceOutput, ExchangePhase, Step, StepOutput,
};
use crate::text;

verus! {

/// State of a [`FirmwareQuery`].
pub struct FirmwareState {
    pub protocol: AioProtocol,
    pub phase: FirmwarePhase,
    /// The text that was read.
    pub text: Seq<char>,
}

/// What a [`FirmwareQuery`] waits for.
#[derive(Clone, Copy, Debug, PartialEq, Eq, Structural)]
pub enum FirmwarePhase {
    /// For the exchange with the device.
    Exchange(ExchangePhase),
    /// For the version that the text stands for.
    Parsing,
    /// For nothing: the query is over.
    Over,
}

impl FirmwareState {
    /// The input that the query waits for.
    pub open spec fn expects(self, input: DeviceInput) -> bool {
        match self.phase {
            FirmwarePhase::Exchange(ExchangePhase::Writing) => input is Written,
            FirmwarePhase::Exchange(ExchangePhase::Over) => false,
            FirmwarePhase::Exchange(_) => input.is_read_into(self.protocol.a_packet_size),
            FirmwarePhase::Parsing => input is Version,
            FirmwarePhase::Over => false,
        }
    }

    /// The action that waits for a report.
    pub open spec fn read(self, fresh: bool) -> DeviceOutput {
        DeviceOutput::Read {
            len: self.protocol.a_packet_size,
            timeout_ms: self.protocol.init_read_timeout_ms,
            fresh,
        }
    }

    /// The query ends.
    pub open spec fn over(self, result: Result<(), AioError>) -> (FirmwareState, StepOutput<
        Result<(), AioError>,
    >) {
        (FirmwareState { phase: FirmwarePhase::Over, ..self }, StepOutput::Done(result))
    }

    /// One turn of the query. Reports left over from an earlier session are skipped. The firmware
    /// text is followed by a date, which has to be read as well, whatever it brings; then the
    /// version is asked for.
    pub open spec fn turn(self, input: DeviceInput) -> (FirmwareState, StepOutput<
        Result<(), AioError>,
    >) {
        match (self.phase, input) {
            (
                FirmwarePhase::Exchange(ExchangePhase::Writing),
                DeviceInput::Written(true),
            ) => (
                FirmwareState { phase: FirmwarePhase::Exchange(ExchangePhase::Reading), ..self },
                StepOutput::Do(self.read(true)),
            ),
            (
                FirmwarePhase::Exchange(ExchangePhase::Reading),
                DeviceInput::Read { count, buf },
            ) => match count {
                None => self.over(Err(AioError::ReadFailed)),
                Some(n) => if n == 0 {
                    self.over(Err(AioError::NoResponse))
                } else if buf[1] == self.protocol.cmd_get_firmware {
                    (
                        FirmwareState {
                            phase: FirmwarePhase::Exchange(ExchangePhase::Trailing),
                            text: text::without_trailing_nul(
                                text::utf8_lossy_text(
                                    aio_protocol::firmware_bytes(self.protocol, buf),
                                ),
                            ),
                            ..self
                        },
                        StepOutput::Do(self.read(false)),
                    )
                } else {
                    (self, StepOutput::Do(self.read(false)))
                },
            },
            (
                FirmwarePhase::Exchange(ExchangePhase::Trailing),
                DeviceInput::Read { .. },
            ) => (
                FirmwareState { phase: FirmwarePhase::Parsing, ..self },
                StepOutput::Do(DeviceOutput::ParseVersion(self.text)),
            ),
            (FirmwarePhase::Parsing, _) => self.over(Ok(())),
            _ => self.over(Err(AioError::WriteFailed)),
        }
    }

    /// The cooler's state behind a turn: text and version are recorded at the end.
    pub open spec fn recorded(self, state: AioState, input: DeviceInput) -> AioState {
        match (self.phase, input) {
            (FirmwarePhase::Parsing, DeviceInput::Version(version)) => state.with_firmware(
                self.text,
                version,
            ),
            _ => state,
        }
    }
}

/// A query for the firmware.
pub struct FirmwareQuery {
    protocol: AioProtocol,
    phase: FirmwarePhase,
    text: String,
}

impl View for FirmwareQuery {
    type V = FirmwareState;

    closed spec fn view(&self) -> FirmwareState {
        FirmwareState { protocol: self.protocol, phase: self.phase, text: self.text@ }
    }
}

impl FirmwareQuery {
    /// Starts a query, with its first action.
    pub fn start(protocol: AioProtocol) -> (started: (Self, DeviceAction))
        requires
            protocol.wf(),
        ensures
            started.0@ == firmware_start(protocol).0,
            started.1@ == firmware_start(protocol).1,
    {
        let none: [u8; 0] = [];
        assert(none@ =~= Seq::<u8>::empty());
        let packet = write_a_command_raw(
            &protocol,
            protocol.cmd_get_firmware,
            none.as_slice(),
        ).unwrap();
        let query = FirmwareQuery {
            protocol,
            phase: FirmwarePhase::Exchange(ExchangePhase::Writing),
            text: String::new(),
        };
        proof {
            assert(query.text@ =~= Seq::<char>::empty());
        }
        (query, DeviceAction::Write(packet))
    }

    /// Whether an event can be handed to [`FirmwareQuery::resume`].
    pub fn can_take(&self, event: &DeviceEvent) -> (can: bool)
        ensures
            can == self@.expects(event@),
    {
        match (self.phase, event) {
            (FirmwarePhase::Exchange(ExchangePhase::Writing), DeviceEvent::Written(_)) => true,
            (FirmwarePhase::Exchange(ExchangePhase::Reading), _)
            | (FirmwarePhase::Exchange(ExchangePhase::Trailing), _) => event.is_read_into(
                self.protocol.a_packet_size,
            ),
            (FirmwarePhase::Parsing, DeviceEvent::Version(_)) => true,
            _ => false,
        }
    }

    /// Takes the answer to the last action and gives the next step.
    pub fn resume(&mut self, controller: &mut HydroShiftLcdController, event: DeviceEvent) -> (step:
        Step<Result<(), AioError>>)
        requires
            old(controller)@.wf(),
            old(self)@.protocol.wf(),
            old(self)@.expects(event@),
        ensures
            (final(self)@, step@) == old(self)@.turn(event@),
            final(controller)@ == old(self)@.recorded(old(controller)@, event@),
            final(controller)@.wf(),
    {
        let len = self.protocol.a_packet_size;
        let timeout_ms = self.protocol.init_read_timeout_ms;
        match (self.phase, event) {
            (FirmwarePhase::Exchange(ExchangePhase::Writing), DeviceEvent::Written(true)) => {
                self.phase = FirmwarePhase::Exchange(ExchangePhase::Reading);
                Step::Do(DeviceAction::Read { len, timeout_ms, fresh: true })
            },
            (
                FirmwarePhase::Exchange(ExchangePhase::Reading),
                DeviceEvent::Read { count: None, .. },
            ) => {
                self.phase = FirmwarePhase::Over;
                Step::Done(Err(AioError::ReadFailed))
            },
            (
                FirmwarePhase::Exchange(ExchangePhase::Reading),
                DeviceEvent::Read { count: Some(n), buf },
            ) => {
                if n == 0 {
                    self.phase = FirmwarePhase::Over;
                    return Step::Done(Err(AioError::NoResponse));
                }
                if buf[1] == self.protocol.cmd_get_firmware {
                    self.text = firmware_text(&self.protocol, buf);
                    self.phase = FirmwarePhase::Exchange(ExchangePhase::Trailing);
                }
                Step::Do(DeviceAction::Read { len, timeout_ms, fresh: false })
            },
            (FirmwarePhase::Exchange(ExchangePhase::Trailing), DeviceEvent::Read { .. }) => {
                self.phase = FirmwarePhase::Parsing;
                Step::Do(DeviceAction::ParseVersion(self.text.clone()))
            },
            (FirmwarePhase::Parsing, DeviceEvent::Version(version)) => {
                self.phase = FirmwarePhase::Over;
                controller.record_firmware(self.text.clone(), version);
                Step::Done(Ok(()))
            },
            _ => {
                self.phase = FirmwarePhase::Over;
                Step::Done(Err(AioError::WriteFailed))
            },
        }
    }
}

/// A query that is about to begin, and its first action.
pub open spec fn firmware_start(protocol: AioProtocol) -> (FirmwareState, DeviceOutput) {
    (
        FirmwareState {
            protocol,
            phase: FirmwarePhase::Exchange(ExchangePhase::Writing),
            text: Seq::empty(),
        },
        DeviceOutput::Write(
            aio_protocol::a_packet(protocol, protocol.cmd_get_firmware, Seq::empty()),
        ),
    )
}

impl HydroShiftLcdController {
    /// Starts a query for the firmware, unless its version is known.
    pub fn try_read_firmware(&self) -> (started: Option<(FirmwareQuery, DeviceAction)>)
        requires
            self@.wf(),
        ensures
            started is None <==> self@.firmware_version is Some,
            started matches Some(query) ==> query.0@ == firmware_start(self@.protocol).0
                && query.1@ == firmware_start(self@.protocol).1,
    {
        if self.firmware_version().is_some() {
            None
        } else {
            Some(FirmwareQuery::start(self.protocol()))
        }
    }
}

/// The firmware is asked for with its bare command, and the first report on it is taken: its text, up to
/// the zeros that pad it. Reports left over from an earlier session are skipped. A write or a read that
/// fails, and a read in which nothing comes in time, end the query with the error of their own.
pub proof fn firmware_is_the_first_report_on_it(
    query: FirmwareState,
    count: Option<usize>,
    buf: Seq<u8>,
    ok: bool,
)
    ensures
        ({
            let p = query.protocol;
            let (started, action) = firmware_start(p);
            let written = started.turn(DeviceInput::Written(ok));
            let reading = FirmwareState {
                phase: FirmwarePhase::Exchange(ExchangePhase::Reading),
                ..query
            };
            let read = reading.turn(DeviceInput::Read { count, buf });
            let waiting = |fresh: bool|
                DeviceOutput::Read {
                    len: p.a_packet_size,
                    timeout_ms: p.init_read_timeout_ms,
                    fresh,
                };
            &&& action == DeviceOutput::Write(
                aio_protocol::a_packet(p, p.cmd_get_firmware, Seq::empty()),
            )
            &&& started.protocol == p
            &&& started.phase == FirmwarePhase::Exchange(ExchangePhase::Writing)
            &&& ok ==> written.1 == StepOutput::<Result<(), AioError>>::Do(waiting(true))
            &&& ok ==> written.0.phase == FirmwarePhase::Exchange(ExchangePhase::Reading)
            &&& ok ==> written.0.protocol == p
            &&& !ok ==> written.1 == StepOutput::<Result<(), AioError>>::Done(
                Err(AioError::WriteFailed),
            )
            &&& count is None ==> read.1 == StepOutput::<Result<(), AioError>>::Done(
                Err(AioError::ReadFailed),
            )
            &&& count == Some(0usize) ==> read.1 == StepOutput::<Result<(), AioError>>::Done(
                Err(AioError::NoResponse),
            )
            &&& count is Some && count->0 > 0 ==> read.1 == StepOutput::<
                Result<(), AioError>,
            >::Do(waiting(false))
            &&& count is Some && count->0 > 0 && buf[1] != p.cmd_get_firmware ==> read.0
                == reading
            &&& count is Some && count->0 > 0 && buf[1] == p.cmd_get_firmware ==> {
                &&& read.0.phase == FirmwarePhase::Exchange(ExchangePhase::Trailing)
                &&& read.0.protocol == p
                &&& read.0.text == text::without_trailing_nul(
                    text::utf8_lossy_text(aio_protocol::firmware_bytes(p, buf)),
                )
            }
        }),
{
}

/// Behind the text one more report is read, whatever it brings; then the version is asked for by the
/// text, and both are recorded where none is known yet. The query has succeeded then, also if the text
/// stands for no version.
pub proof fn text_and_version_are_recorded(
    query: FirmwareState,
    state: AioState,
    count: Option<usize>,
    buf: Seq<u8>,
    version: Option<(u32, u32)>,
)
    requires
        query.phase == FirmwarePhase::Exchange(ExchangePhase::Trailing),
    ensures
        ({
            let date = DeviceInput::Read { count, buf };
            let (parsing, asked) = query.turn(date);
            let (_, ended) = parsing.turn(DeviceInput::Version(version));
            let recorded = parsing.recorded(state, DeviceInput::Version(version));
            &&& asked == StepOutput::<Result<(), AioError>>::Do(
                DeviceOutput::ParseVersion(query.text),
            )
            &&& query.recorded(state, date) == state
            &&& ended == StepOutput::<Result<(), AioError>>::Done(Ok(()))
            &&& state.firmware_string is None ==> recorded.firmware_string == Some(query.text)
            &&& state.firmware_string is Some ==> recorded.firmware_string == state.firmware_string
            &&& state.firmware_version is None ==> recorded.firmware_version == version
            &&& state.firmware_version is Some ==> recorded.firmware_version
                == state.firmware_version
            &&& recorded == AioState {
                firmware_string: recorded.firmware_string,
                firmware_version: recorded.firmware_version,
                ..state
            }
        }),
{
}

/// Nothing is recorded before the version has been asked for, and a query takes the answer to what it
/// asked for last.
pub proof fn queries_take_their_answers(query: FirmwareState, state: AioState, input: DeviceInput)
    ensures
        query.phase != FirmwarePhase::Parsing ==> query.recorded(state, input) == state,
        query.expects(input) == match query.phase {
            FirmwarePhase::Exchange(ExchangePhase::Writing) => input is Written,
            FirmwarePhase::Exchange(ExchangePhase::Reading)
            | FirmwarePhase::Exchange(ExchangePhase::Trailing) => input is Read && input->buf.len()
                == query.protocol.a_packet_size && (input->Read_count matches Some(n) ==> n
                <= query.protocol.a_packet_size),
            FirmwarePhase::Parsing => input is Version,
            _ => false,
        },
{
}

} // verus!
