use lianli_lcd::aio_controller::HydroShiftLcdController;
use lianli_lcd::aio_protocol::{AioError, AioHandshake, AioLcdVariant, AioProtocol};
use lianli_lcd::dialogue::{DeviceAction, DeviceEvent, Step};
use lianli_lcd::firmware::FirmwareQuery;
use lianli_lcd::init::BackgroundReader;
use lianli_lcd::recovery::RecoveryAction;

fn protocol() -> AioProtocol {
    AioProtocol {
        report_id_a: 1,
        a_packet_size: 64,
        a_header_len: 6,
        report_id_b: 2,
        b_packet_size: 1024,
        b_header_len: 11,
        b_max_payload: 1013,
        report_id_c: 3,
        c_packet_size: 512,
        c_max_payload: 501,
        cmd_handshake: 0x81,
        cmd_get_firmware: 0x86,
        cmd_reset_device: 0x8E,
        cmd_set_fan_pwm: 0x8B,
        cmd_set_pump_pwm: 0x8A,
        cmd_lcd_control: 0x0C,
        cmd_lcd_available: 0x0F,
        cmd_send_jpeg: 0x0E,
        cmd_send_h264: 0x0D,
        read_timeout_ms: 1500,
        init_read_timeout_ms: 3000,
        ack_timeout_ms: 200,
        mode_application: 1,
        mode_lcd_setting: 2,
        rotate_0: 0,
        max_fps: 30,
    }
}

fn variant() -> AioLcdVariant {
    AioLcdVariant {
        is_hydroshift_lcd_rgb: false,
        has_fan_control: true,
        c_command_min_firmware: (1, 4),
        pump_min_pwm: 20,
    }
}

fn controller() -> HydroShiftLcdController {
    HydroShiftLcdController::new(protocol(), 0x7398, Some(variant())).unwrap()
}

const SECOND: u64 = 1_000_000_000;

/// A device that plays a script.
#[derive(Default)]
struct Device {
    /// Answers to reads: `None` for an error, an empty report for a timeout.
    reports: Vec<Option<Vec<u8>>>,
    /// Number of the write that fails.
    fail_write: Option<usize>,
    fail_transfer: bool,
    /// Number of the question whether to stop that is answered with yes.
    stop_at: Option<usize>,
    version: Option<(u32, u32)>,
    clock: u64,
    buf: Vec<u8>,
    stops: usize,
    writes: Vec<Vec<u8>>,
    reads: Vec<(usize, i32)>,
    sleeps: Vec<u64>,
    transfers: Vec<Vec<u8>>,
    parsed: Vec<String>,
    readers: usize,
}

impl Device {
    fn answering(reports: Vec<Option<Vec<u8>>>) -> Device {
        Device { reports, ..Device::default() }
    }

    fn perform(&mut self, action: DeviceAction) -> DeviceEvent<'_> {
        match action {
            DeviceAction::PollStop => {
                let stop = self.stop_at == Some(self.stops);
                self.stops += 1;
                DeviceEvent::Stop(stop)
            }
            DeviceAction::ReadClock => DeviceEvent::Clock(self.clock),
            DeviceAction::SleepMs(ms) => {
                self.sleeps.push(ms);
                self.clock += ms * 1_000_000;
                DeviceEvent::Slept
            }
            DeviceAction::Write(report) => {
                let ok = self.fail_write != Some(self.writes.len());
                self.writes.push(report);
                DeviceEvent::Written(ok)
            }
            DeviceAction::Read { len, timeout_ms, fresh } => {
                if fresh {
                    self.buf = vec![0; len];
                }
                self.reads.push((len, timeout_ms));
                let answer = if self.reports.is_empty() { Some(Vec::new()) } else { self.reports.remove(0) };
                let count = answer.map(|report| {
                    self.buf[..report.len()].copy_from_slice(&report);
                    report.len()
                });
                DeviceEvent::Read { count, buf: &self.buf }
            }
            DeviceAction::Transfer(command) => {
                assert_eq!(command.cmd, 0x0C);
                self.transfers.push(command.payload);
                DeviceEvent::Transferred(!self.fail_transfer)
            }
            DeviceAction::ParseVersion(text) => {
                self.parsed.push(text);
                DeviceEvent::Version(self.version)
            }
            DeviceAction::StartReader => {
                self.readers += 1;
                DeviceEvent::ReaderStarted
            }
        }
    }

    fn run<T>(&mut self, first: DeviceAction, mut resume: impl FnMut(DeviceEvent) -> Step<T>) -> T {
        let mut action = first;
        loop {
            match resume(self.perform(action)) {
                Step::Do(next) => action = next,
                Step::Done(result) => return result,
            }
        }
    }
}

fn report(cmd: u8, data: &[u8]) -> Option<Vec<u8>> {
    let mut bytes = vec![1, cmd, 0, 0, 0, data.len() as u8];
    bytes.extend_from_slice(data);
    bytes.resize(64, 0);
    Some(bytes)
}

fn handshake_report(fan: u8) -> Option<Vec<u8>> {
    report(0x81, &[0, fan, 0, 2, 1, 30, 4])
}

fn handshake(fan: u16) -> AioHandshake {
    AioHandshake { fan_rpm: fan, pump_rpm: 2, temp_valid: true, coolant_decidegrees: 304 }
}

fn send(device: &mut Device, aio: &mut HydroShiftLcdController, cmd: u8) -> Result<usize, AioError> {
    let (mut exchange, first) = aio.send_a_command(cmd, &[1, 2], 700)?;
    device.run(first, |event| {
        assert!(exchange.can_take(&event));
        exchange.resume(aio, event)
    })
}

#[test]
fn answer_is_the_first_report_on_the_command() {
    let mut aio = controller();
    let mut device = Device::answering(vec![report(0x33, &[]), handshake_report(9), report(0x8B, &[5])]);
    assert_eq!(send(&mut device, &mut aio, 0x8B), Ok(64));
    assert_eq!(device.reads, vec![(64, 700); 3]);
    assert_eq!(device.writes.len(), 1);
    assert_eq!(&device.writes[0][..8], &[1, 0x8B, 0, 0, 0, 2, 1, 2]);
    assert_eq!(&device.buf[..7], &[1, 0x8B, 0, 0, 0, 1, 5]);
    // A handshake that came along has been recorded.
    assert_eq!(aio.last_handshake(), Some(handshake(9)));
}

#[test]
fn exchange_reports_its_errors() {
    let mut aio = controller();
    let mut silent = Device::answering(vec![]);
    assert_eq!(send(&mut silent, &mut aio, 0x8B), Err(AioError::NoResponse));
    let mut broken = Device::answering(vec![report(0x33, &[]), None]);
    assert_eq!(send(&mut broken, &mut aio, 0x8B), Err(AioError::ReadFailed));
    let mut deaf = Device { fail_write: Some(0), ..Device::default() };
    assert_eq!(send(&mut deaf, &mut aio, 0x8B), Err(AioError::WriteFailed));
    assert!(deaf.reads.is_empty());
    assert!(matches!(
        aio.send_a_command(0x8B, &[0; 59], 1),
        Err(AioError::PayloadTooLarge { cmd: 0x8B, len: 59, max: 58 })
    ));
}

#[test]
fn exchange_does_not_take_what_it_did_not_ask_for() {
    let aio = controller();
    let (exchange, _) = aio.send_a_command(0x8B, &[], 1).unwrap();
    assert!(exchange.can_take(&DeviceEvent::Written(false)));
    assert!(!exchange.can_take(&DeviceEvent::Slept));
    assert!(!exchange.can_take(&DeviceEvent::Read { count: Some(1), buf: &[0; 64] }));
}

fn shake(device: &mut Device, aio: &mut HydroShiftLcdController) -> Result<AioHandshake, AioError> {
    let (mut dialogue, first) = aio.handshake();
    device.run(first, |event| {
        assert!(dialogue.can_take(&event));
        dialogue.resume(aio, event)
    })
}

#[test]
fn handshake_is_answered_and_recorded() {
    let mut aio = controller();
    let mut device = Device::answering(vec![handshake_report(3)]);
    assert_eq!(shake(&mut device, &mut aio), Ok(handshake(3)));
    assert_eq!(aio.last_handshake(), Some(handshake(3)));
    assert_eq!(device.reads, vec![(64, 3000)]);
    aio.mark_initialized();
    let mut later = Device::answering(vec![handshake_report(4)]);
    assert_eq!(shake(&mut later, &mut aio), Ok(handshake(4)));
    assert_eq!(later.reads, vec![(64, 1500)]);
}

#[test]
fn short_handshake_is_an_error() {
    let mut aio = controller();
    let mut device = Device::answering(vec![report(0x81, &[1, 2, 3])]);
    assert_eq!(shake(&mut device, &mut aio), Err(AioError::HandshakeTooShort(3)));
    assert_eq!(aio.last_handshake(), None);
}

#[test]
fn cut_off_handshake_is_not_taken() {
    let aio = controller();
    let (mut dialogue, _) = aio.handshake();
    let mut aio = aio;
    assert!(matches!(dialogue.resume(&mut aio, DeviceEvent::Written(true)), Step::Do(_)));
    let buf = handshake_report(1).unwrap();
    assert!(dialogue.can_take(&DeviceEvent::Read { count: Some(13), buf: &buf }));
    assert!(!dialogue.can_take(&DeviceEvent::Read { count: Some(12), buf: &buf }));
    assert!(!dialogue.can_take(&DeviceEvent::Read { count: Some(5), buf: &buf }));
    assert!(!dialogue.can_take(&DeviceEvent::Read { count: Some(65), buf: &buf }));
    assert!(dialogue.can_take(&DeviceEvent::Read { count: Some(0), buf: &buf }));
    assert!(dialogue.can_take(&DeviceEvent::Read { count: None, buf: &buf }));
}

fn ask_firmware(device: &mut Device, aio: &mut HydroShiftLcdController) -> Result<(), AioError> {
    let (mut query, first): (FirmwareQuery, DeviceAction) = aio.try_read_firmware().unwrap();
    device.run(first, |event| {
        assert!(query.can_take(&event));
        query.resume(aio, event)
    })
}

#[test]
fn firmware_is_read_with_its_date() {
    let mut aio = controller();
    let mut device = Device::answering(vec![report(0x81, &[]), report(0x86, b"V1.5\0\0"), report(0x86, b"Oct 20")]);
    device.version = Some((1, 5));
    assert_eq!(ask_firmware(&mut device, &mut aio), Ok(()));
    assert_eq!(device.parsed, vec!["V1.5".to_string()]);
    assert_eq!(device.reads, vec![(64, 3000); 3]);
    assert_eq!(aio.firmware_version_str(), Some("V1.5"));
    assert!(aio.supports_c_command());
    assert!(aio.try_read_firmware().is_none());
}

#[test]
fn firmware_that_is_not_understood_is_asked_for_again() {
    let mut aio = controller();
    // The date does not come; that is no error.
    let mut device = Device::answering(vec![report(0x86, b"odd"), None]);
    assert_eq!(ask_firmware(&mut device, &mut aio), Ok(()));
    assert_eq!(aio.firmware_version_str(), Some("odd"));
    assert_eq!(aio.firmware_version(), None);
    assert!(aio.try_read_firmware().is_some());
}

#[test]
fn firmware_query_reports_its_errors() {
    let mut aio = controller();
    assert_eq!(ask_firmware(&mut Device::answering(vec![]), &mut aio), Err(AioError::NoResponse));
    assert_eq!(ask_firmware(&mut Device::answering(vec![None]), &mut aio), Err(AioError::ReadFailed));
    let mut deaf = Device { fail_write: Some(0), ..Device::default() };
    assert_eq!(ask_firmware(&mut deaf, &mut aio), Err(AioError::WriteFailed));
    assert_eq!(aio.firmware_version_str(), None);
}

fn init(device: &mut Device, aio: &mut HydroShiftLcdController) {
    let (mut task, first) = aio.init().unwrap();
    device.run(first, |event| {
        assert!(!aio.is_ready_for_control());
        assert!(task.can_take(&event));
        task.resume(aio, event)
    });
}

#[test]
fn initialization_brings_a_cooler_up() {
    let mut aio = controller();
    let mut device = Device::answering(vec![report(0x86, b"V1.5"), report(0x86, b"date"), handshake_report(5)]);
    device.version = Some((1, 5));
    init(&mut device, &mut aio);
    assert!(aio.is_ready_for_control());
    assert_eq!(device.sleeps, vec![10_000, 2_000]);
    assert_eq!(device.writes.len(), 2);
    assert_eq!(device.readers, 1);
    assert_eq!(device.transfers, vec![vec![1, 50, 0, 0, 0, 0, 0, 30]]);
    assert_eq!(aio.last_handshake(), Some(handshake(5)));
    assert_eq!(aio.last_recovery_attempt(), Some(12 * SECOND));
    assert!(aio.init().is_none());
}

#[test]
fn initialization_ends_whatever_fails() {
    let mut aio = controller();
    let mut device = Device { fail_transfer: true, ..Device::default() };
    init(&mut device, &mut aio);
    assert!(aio.is_ready_for_control());
    // Thirty questions for the firmware, each followed by a wait.
    assert_eq!(device.writes.iter().filter(|w| w[1] == 0x86).count(), 30);
    assert_eq!(device.sleeps.len(), 32);
    assert_eq!(aio.firmware_version_str(), None);
    assert_eq!(aio.last_handshake(), None);
}

#[test]
fn known_firmware_is_not_asked_for() {
    let mut aio = controller();
    aio.record_firmware("V1.5".to_string(), Some((1, 5)));
    let mut device = Device::answering(vec![handshake_report(5)]);
    init(&mut device, &mut aio);
    assert_eq!(device.writes.len(), 1);
    assert_eq!(device.writes[0][1], 0x81);
}

#[test]
fn background_reader_asks_once_a_second() {
    let mut aio = controller();
    let mut device = Device::default();
    let mut reader = BackgroundReader::start(protocol(), 0);
    device.reports = vec![handshake_report(1), report(0x33, &[]), None, handshake_report(2)];
    // The reader sleeps a tenth of a second per round.
    device.stop_at = Some(25);
    device.run(DeviceAction::PollStop, |event| {
        assert!(reader.can_take(&event));
        reader.resume(&mut aio, event)
    });
    assert_eq!(device.reads.len(), 25);
    assert_eq!(device.reads[0], (64, 20));
    assert_eq!(device.writes.len(), 2);
    assert_eq!(device.writes[0][1], 0x81);
    assert_eq!(aio.last_handshake(), Some(handshake(2)));
}

fn available(device: &mut Device, aio: &HydroShiftLcdController) -> Result<bool, AioError> {
    let mut check = aio.is_lcd_available();
    device.run(DeviceAction::PollStop, |event| {
        assert!(check.can_take(&event));
        check.resume(event)
    })
}

fn availability_report(len: u8, byte: u8) -> Option<Vec<u8>> {
    let mut bytes = vec![0u8; 1024];
    bytes[0] = 2;
    bytes[1] = 0x0F;
    bytes[10] = len;
    bytes[11] = byte;
    Some(bytes)
}

#[test]
fn lcd_is_available_if_it_says_so_or_nothing() {
    let aio = controller();
    let mut yes = Device::answering(vec![report(0x81, &[]), availability_report(1, 0)]);
    assert_eq!(available(&mut yes, &aio), Ok(true));
    assert_eq!(yes.writes[0].len(), 1024);
    assert_eq!(&yes.writes[0][..3], &[2, 0x0F, 0]);
    assert_eq!(yes.reads, vec![(1024, 1500); 2]);
    assert_eq!(available(&mut Device::answering(vec![]), &aio), Ok(true));
    assert_eq!(available(&mut Device::answering(vec![availability_report(1, 1)]), &aio), Ok(false));
    assert_eq!(available(&mut Device::answering(vec![availability_report(2, 0)]), &aio), Ok(false));
}

#[test]
fn availability_check_reports_its_errors() {
    let aio = controller();
    assert_eq!(available(&mut Device::answering(vec![None]), &aio), Err(AioError::ReadFailed));
    let mut deaf = Device { fail_write: Some(0), ..Device::default() };
    assert_eq!(available(&mut deaf, &aio), Err(AioError::WriteFailed));
    let mut stopped = Device { stop_at: Some(0), ..Device::default() };
    assert_eq!(available(&mut stopped, &aio), Err(AioError::StopRequested));
    assert!(stopped.writes.is_empty());
    let mut stopped_later = Device { stop_at: Some(1), ..Device::default() };
    assert_eq!(available(&mut stopped_later, &aio), Err(AioError::StopRequested));
    assert_eq!(stopped_later.writes.len(), 1);
    assert!(stopped_later.reads.is_empty());
}

fn reset(device: &mut Device) -> bool {
    let mut reset = controller().reset_device();
    device.run(DeviceAction::PollStop, |event| {
        assert!(reset.can_take(&event));
        reset.resume(event)
    })
}

#[test]
fn reset_needs_a_confirmation() {
    let mut confirmed = Device::answering(vec![report(0x33, &[]), report(0x8E, &[1])]);
    assert!(reset(&mut confirmed));
    assert_eq!(confirmed.reads, vec![(64, 1000); 2]);
    assert_eq!(confirmed.writes[0][1], 0x8E);
    assert!(!reset(&mut Device::answering(vec![report(0x8E, &[0])])));
    assert!(!reset(&mut Device::answering(vec![])));
    assert!(!reset(&mut Device::answering(vec![None])));
    assert!(!reset(&mut Device { fail_write: Some(0), ..Device::default() }));
    let mut stopped = Device { stop_at: Some(0), ..Device::default() };
    assert!(!reset(&mut stopped));
    assert!(stopped.writes.is_empty());
}

#[test]
fn reset_reads_twenty_reports_at_most() {
    let mut chatty = Device::answering(vec![report(0x33, &[]); 100]);
    assert!(!reset(&mut chatty));
    assert_eq!(chatty.reads.len(), 20);
    let mut last = Device::answering(vec![report(0x33, &[]); 19]);
    last.reports.push(report(0x8E, &[1]));
    assert!(reset(&mut last));
}

fn recover(device: &mut Device, aio: &mut HydroShiftLcdController) -> Result<RecoveryAction, AioError> {
    let (mut recovery, first) = aio.check_and_recover_lcd();
    device.run(first, |event| {
        assert!(recovery.can_take(&event));
        recovery.resume(aio, event)
    })
}

#[test]
fn lcd_is_recovered_when_it_is_gone_for_the_third_time() {
    let mut aio = controller();
    let gone = || Device { clock: 60 * SECOND, ..Device::answering(vec![availability_report(1, 1)]) };
    assert_eq!(recover(&mut gone(), &mut aio), Ok(RecoveryAction::NoChange));
    assert_eq!(recover(&mut gone(), &mut aio), Ok(RecoveryAction::NoChange));
    let mut third = gone();
    third.reports.push(report(0x8E, &[1]));
    assert_eq!(recover(&mut third, &mut aio), Ok(RecoveryAction::Recovered));
    assert_eq!(third.sleeps, vec![500]);
    assert_eq!(third.transfers, vec![vec![1, 50, 0, 0, 0, 0, 0, 30]]);
    assert_eq!(aio.last_recovery_attempt(), Some(60 * SECOND));
}

#[test]
fn recovery_cools_down() {
    let mut aio = controller();
    aio.record_recovery_attempt(60 * SECOND);
    let mut early = Device { clock: 62 * SECOND - 1, ..Device::default() };
    assert_eq!(recover(&mut early, &mut aio), Ok(RecoveryAction::NoChange));
    assert!(early.writes.is_empty());
    let mut later = Device { clock: 62 * SECOND, ..Device::default() };
    assert_eq!(recover(&mut later, &mut aio), Ok(RecoveryAction::NoChange));
    assert_eq!(later.writes.len(), 1);
}

fn gone_twice() -> HydroShiftLcdController {
    let mut aio = controller();
    aio.record_availability(false);
    aio.record_availability(false);
    aio
}

#[test]
fn recovery_that_fails_says_so() {
    let gone = || Device::answering(vec![availability_report(1, 1), report(0x8E, &[1])]);

    let mut aio = gone_twice();
    let mut unconfirmed = Device::answering(vec![availability_report(1, 1), report(0x8E, &[0])]);
    assert_eq!(recover(&mut unconfirmed, &mut aio), Ok(RecoveryAction::NoChange));
    assert!(unconfirmed.transfers.is_empty());

    let mut aio = gone_twice();
    let mut refused = Device { fail_transfer: true, ..gone() };
    assert_eq!(recover(&mut refused, &mut aio), Err(AioError::TransferFailed));

    let mut aio = gone_twice();
    // The fifth question comes behind the settling.
    let mut stopped = Device { stop_at: Some(4), ..gone() };
    assert_eq!(recover(&mut stopped, &mut aio), Err(AioError::StopRequested));
    assert!(stopped.transfers.is_empty());

    // A check that fails changes nothing, not even the count.
    let mut aio = gone_twice();
    assert_eq!(recover(&mut Device::answering(vec![None]), &mut aio), Ok(RecoveryAction::NoChange));
    assert!(aio.record_availability(false));
}

#[test]
fn recovery_takes_only_the_answer_to_its_action() {
    let mut aio = controller();
    let mut check = aio.is_lcd_available();
    assert!(check.can_take(&DeviceEvent::Stop(false)));
    assert!(!check.can_take(&DeviceEvent::Written(true)));
    check.resume(DeviceEvent::Stop(false));
    assert!(check.can_take(&DeviceEvent::Written(true)));
    assert!(!check.can_take(&DeviceEvent::Slept));

    let reset = aio.reset_device();
    assert!(reset.can_take(&DeviceEvent::Stop(false)));
    assert!(!reset.can_take(&DeviceEvent::ReaderStarted));

    let (recovery, _) = aio.check_and_recover_lcd();
    assert!(!recovery.can_take(&DeviceEvent::ReaderStarted));
}
