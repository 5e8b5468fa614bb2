use lianli_lcd::aio_controller::{HydroShiftLcdController, LcdTransfer, UNAVAILABLE_THRESHOLD};
use lianli_lcd::aio_protocol::{
    firmware_text, is_handshake_readable, remap_fan_pwm_rgb, try_parse_handshake, write_a_command_raw, AioError,
    AioHandshake, AioLcdVariant, AioProtocol,
};
use lianli_lcd::transfer::{TransferAction, TransferEvent, Transferring};

fn protocol() -> AioProtocol {
    AioProtocol {
        report_id_a: 1,
        a_packet_size: 64,
        a_header_len: 6,
        report_id_b: 2,
        b_packet_size: 1024,
        b_header_len: 11,
        b_max_payload: 1013,
        report_id_c: 3,
        c_packet_size: 512,
        c_max_payload: 501,
        cmd_handshake: 0x81,
        cmd_get_firmware: 0x86,
        cmd_reset_device: 0x8E,
        cmd_set_fan_pwm: 0x8B,
        cmd_set_pump_pwm: 0x8A,
        cmd_lcd_control: 0x0C,
        cmd_lcd_available: 0x0F,
        cmd_send_jpeg: 0x0E,
        cmd_send_h264: 0x0D,
        read_timeout_ms: 1500,
        init_read_timeout_ms: 3000,
        ack_timeout_ms: 200,
        mode_application: 1,
        mode_lcd_setting: 2,
        rotate_0: 0,
        max_fps: 30,
    }
}

fn variant() -> AioLcdVariant {
    AioLcdVariant {
        is_hydroshift_lcd_rgb: false,
        has_fan_control: true,
        c_command_min_firmware: (1, 4),
        pump_min_pwm: 20,
    }
}

fn controller() -> HydroShiftLcdController {
    HydroShiftLcdController::new(protocol(), 0x7398, Some(variant())).unwrap()
}

fn rgb_controller() -> HydroShiftLcdController {
    let rgb = AioLcdVariant { is_hydroshift_lcd_rgb: true, has_fan_control: false, ..variant() };
    HydroShiftLcdController::new(protocol(), 0x7399, Some(rgb)).unwrap()
}

fn handshake(fan_rpm: u16, pump_rpm: u16, coolant_decidegrees: u16) -> AioHandshake {
    AioHandshake { fan_rpm, pump_rpm, temp_valid: true, coolant_decidegrees }
}

fn a_packet(cmd: u8, data: &[u8]) -> Vec<u8> {
    let mut packet = vec![0u8; 64];
    packet[0] = 1;
    packet[1] = cmd;
    packet[5] = data.len() as u8;
    packet[6..6 + data.len()].copy_from_slice(data);
    packet
}

#[test]
fn a_packet_holds_the_payload_behind_its_header() {
    let packet = write_a_command_raw(&protocol(), 0x8B, &[0, 55]).unwrap();
    assert_eq!(packet, a_packet(0x8B, &[0, 55]));
    assert_eq!(write_a_command_raw(&protocol(), 0x81, &[]).unwrap(), a_packet(0x81, &[]));
    let full = [9u8; 58];
    assert_eq!(write_a_command_raw(&protocol(), 0x81, &full).unwrap(), a_packet(0x81, &full));
}

#[test]
fn payload_that_does_not_fit_is_refused() {
    let refused = Err(AioError::PayloadTooLarge { cmd: 0x81, len: 59, max: 58 });
    assert_eq!(write_a_command_raw(&protocol(), 0x81, &[0; 59]), refused);
    assert_eq!(controller().write_a_command(0x81, &[0; 59]), refused);
    assert_eq!(controller().write_a_command(0x81, &[1]), Ok(a_packet(0x81, &[1])));
}

fn report(data: &[u8]) -> Vec<u8> {
    a_packet(0x81, data)
}

#[test]
fn handshake_is_read() {
    let parsed = try_parse_handshake(&protocol(), &report(&[0x04, 0xB0, 0x0A, 0x28, 1, 31, 17])).unwrap();
    assert_eq!(parsed.fan_rpm, 1200);
    assert_eq!(parsed.pump_rpm, 2600);
    assert!(parsed.temp_valid);
    // 31 whole degrees, and 7 tenths: only the last decimal digit counts.
    assert_eq!(parsed.coolant_decidegrees, 317);
}

#[test]
fn short_handshakes_have_no_temperature() {
    let four = try_parse_handshake(&protocol(), &report(&[0, 1, 0, 2])).unwrap();
    assert_eq!((four.fan_rpm, four.pump_rpm, four.temp_valid, four.coolant_decidegrees), (1, 2, false, 0));
    let six = try_parse_handshake(&protocol(), &report(&[0, 1, 0, 2, 1, 31])).unwrap();
    assert_eq!((six.temp_valid, six.coolant_decidegrees), (true, 0));
    let invalid = try_parse_handshake(&protocol(), &report(&[0, 1, 0, 2, 0, 31, 5])).unwrap();
    assert_eq!((invalid.temp_valid, invalid.coolant_decidegrees), (false, 315));
}

#[test]
fn reports_that_are_no_handshake_are_refused() {
    assert_eq!(try_parse_handshake(&protocol(), &report(&[1, 2, 3])), None);
    assert_eq!(try_parse_handshake(&protocol(), &report(&[1, 2, 3, 4])[..9]), None);
    assert_eq!(try_parse_handshake(&protocol(), &[]), None);
}

#[test]
fn cut_off_handshakes_are_not_readable() {
    let whole = report(&[0, 1, 0, 2, 1, 31, 5]);
    assert!(is_handshake_readable(&protocol(), &whole));
    assert!(is_handshake_readable(&protocol(), &whole[..13]));
    assert!(!is_handshake_readable(&protocol(), &whole[..12]));
    assert!(!is_handshake_readable(&protocol(), &whole[..10]));
    assert!(is_handshake_readable(&protocol(), &whole[..9]));
}

#[test]
fn firmware_text_is_cut_and_decoded() {
    let mut padded = a_packet(0x86, b"N9,01,HS,SQ,V1.0A.02A");
    padded[5] = 40;
    assert_eq!(firmware_text(&protocol(), &padded), "N9,01,HS,SQ,V1.0A.02A");
    let mut long = a_packet(0x86, &[b'x'; 58]);
    long[5] = 200;
    assert_eq!(firmware_text(&protocol(), &long), "x".repeat(58));
    // A byte that is no UTF-8 becomes the replacement character.
    assert_eq!(firmware_text(&protocol(), &a_packet(0x86, &[b'a', 0xFF, b'b'])), "a\u{FFFD}b");
}

#[test]
fn fan_percentages_are_remapped() {
    assert_eq!(remap_fan_pwm_rgb(0), 0);
    assert_eq!(remap_fan_pwm_rgb(9), 0);
    assert_eq!(remap_fan_pwm_rgb(10), 12);
    assert_eq!(remap_fan_pwm_rgb(55), 53);
    assert_eq!(remap_fan_pwm_rgb(100), 95);
    assert_eq!(remap_fan_pwm_rgb(255), 95);
    for pwm in 0..255u8 {
        assert!(remap_fan_pwm_rgb(pwm) <= remap_fan_pwm_rgb(pwm + 1));
    }
}

#[test]
fn unknown_product_id_is_refused() {
    assert!(matches!(
        HydroShiftLcdController::new(protocol(), 0x1234, None),
        Err(AioError::UnknownPid(0x1234))
    ));
}

#[test]
fn new_controller_knows_nothing() {
    let fresh = controller();
    assert_eq!(fresh.variant(), variant());
    assert_eq!(fresh.protocol(), protocol());
    assert_eq!(fresh.firmware_version_str(), None);
    assert_eq!(fresh.firmware_version(), None);
    assert_eq!(fresh.last_handshake(), None);
    assert!(!fresh.is_initialized());
    assert!(!fresh.is_ready_for_control());
    assert!(!fresh.supports_c_command());
    let settings = fresh.apply_lcd_settings();
    assert_eq!(settings.cmd, 0x0C);
    assert_eq!(settings.payload, vec![1, 50, 0, 0, 0, 0, 0, 30]);
}

#[test]
fn first_firmware_is_kept() {
    let mut aio = controller();
    aio.record_firmware("V1.4".to_string(), Some((1, 4)));
    aio.record_firmware("V0.1".to_string(), Some((0, 1)));
    assert_eq!(aio.firmware_version_str(), Some("V1.4"));
    assert_eq!(aio.firmware_version(), Some((1, 4)));

    let mut unparsed = controller();
    unparsed.record_firmware("?".to_string(), None);
    unparsed.record_firmware("V2.0".to_string(), Some((2, 0)));
    assert_eq!(unparsed.firmware_version_str(), Some("?"));
    assert_eq!(unparsed.firmware_version(), Some((2, 0)));
}

#[test]
fn c_packets_need_recent_firmware() {
    for (version, supported) in [((1, 3), false), ((1, 4), true), ((1, 5), true), ((2, 0), true), ((0, 9), false)] {
        let mut aio = controller();
        aio.record_firmware("x".to_string(), Some(version));
        assert_eq!(aio.supports_c_command(), supported);
        aio.set_use_c_command(true);
        let frame = [0u8; 600];
        let transfer = aio.send_h264_frame(&frame);
        assert_eq!(transfer.packets[0].report_id, if supported { 3 } else { 2 });
        assert_eq!(transfer.packets.len(), if supported { 2 } else { 1 });
        aio.set_use_c_command(false);
        assert_eq!(aio.send_h264_frame(&frame).packets[0].report_id, 2);
    }
}

#[test]
fn last_setting_decides_the_packets() {
    let frame = [0u8; 10];
    let mut aio = controller();
    assert_eq!(aio.send_h264_frame(&frame).packets[0].report_id, 2);
    // A setting before the firmware is known comes to nothing, also when the firmware is known later.
    aio.set_use_c_command(true);
    aio.record_firmware("V9.9".to_string(), Some((9, 9)));
    assert_eq!(aio.send_h264_frame(&frame).packets[0].report_id, 2);
    aio.set_use_c_command(true);
    aio.set_brightness(10);
    aio.set_stream_fps(20);
    aio.record_availability(false);
    assert_eq!(aio.send_h264_frame(&frame).packets[0].report_id, 3);
    assert_eq!(aio.send_h264_frame(&frame).packets[0].pkt_size, 512);
}

fn check_transfer(transfer: LcdTransfer, cmd: u8, timeout: i32) {
    assert_eq!(transfer.packets[0].cmd, cmd);
    assert_eq!(transfer.packets[0].report_id, 2);
    assert_eq!(transfer.packets[0].pkt_size, 1024);
    assert_eq!(transfer.ack_len, 1024);
    assert_eq!(transfer.ack_timeout_ms, timeout);
}

#[test]
fn pictures_and_commands_go_in_b_packets() {
    let mut aio = controller();
    aio.record_firmware("x".to_string(), Some((9, 9)));
    aio.set_use_c_command(true);
    check_transfer(aio.send_jpeg(&[1, 2, 3]), 0x0E, 200);
    check_transfer(aio.send_b_command(0x0C, &[1; 8]), 0x0C, 1500);
    assert_eq!(aio.send_jpeg(&[0; 2000]).packets.len(), 2);
}

#[test]
fn fans_are_set() {
    assert_eq!(controller().set_fan_speed(55), a_packet(0x8B, &[0, 55]));
    assert_eq!(rgb_controller().set_fan_speed(55), a_packet(0x8B, &[0, 53]));
    assert_eq!(controller().set_fan_speeds(&[30, 99]), Some(a_packet(0x8B, &[0, 30])));
    assert_eq!(controller().set_fan_speeds(&[]), None);
    assert_eq!(controller().fan_slot_count(), 1);
    assert_eq!(rgb_controller().fan_slot_count(), 0);
}

#[test]
fn pump_is_set_above_its_floor() {
    let aio = controller();
    assert!(aio.has_pump_control());
    assert_eq!(aio.set_pump_speed(10), a_packet(0x8A, &[0, 20]));
    assert_eq!(aio.set_pump_speed(70), a_packet(0x8A, &[0, 70]));
    assert_eq!(aio.set_pump_speed_source(0, 70), a_packet(0x8A, &[0, 70]));
    assert_eq!(aio.set_pump_speed_source(7, 5), a_packet(0x8A, &[1, 20]));
    // A point on the curve is not held to the floor.
    assert_eq!(aio.set_pump_curve_percent(3, 5), a_packet(0x8A, &[1, 5]));
    assert_eq!(aio.set_mb_rpm_sync(true), a_packet(0x8A, &[1, 20]));
    assert_eq!(aio.set_mb_rpm_sync(false), a_packet(0x8A, &[0, 20]));
}

#[test]
fn speeds_come_from_the_last_handshake() {
    let mut aio = controller();
    assert_eq!(aio.read_fan_rpm(), vec![0]);
    assert_eq!(aio.read_pump_rpm(), None);
    assert_eq!(aio.read_pump_rpm_or_zero(), 0);
    aio.record_handshake(handshake(1200, 2600, 305));
    assert_eq!(aio.last_handshake(), Some(handshake(1200, 2600, 305)));
    assert_eq!(aio.read_fan_rpm(), vec![1200]);
    assert_eq!(aio.read_pump_rpm(), Some(2600));
    assert_eq!(aio.read_pump_rpm_or_zero(), 2600);
}

#[test]
fn coolant_temperature_is_checked() {
    let mut aio = controller();
    assert_eq!(aio.poll_coolant_temp(), None);
    assert_eq!(aio.read_coolant_temp(), Err(AioError::NoHandshake));
    for unmeasured in [handshake(1200, 2600, 0), handshake(0, 0, 10)] {
        aio.record_handshake(unmeasured);
        assert_eq!(aio.poll_coolant_temp(), None);
        assert_eq!(aio.read_coolant_temp(), Err(AioError::TemperatureNotPopulated));
    }
    for measured in [handshake(1200, 0, 10), handshake(0, 1, 10), handshake(0, 0, 11)] {
        aio.record_handshake(measured);
        assert_eq!(aio.poll_coolant_temp(), Some(measured.coolant_decidegrees));
        assert_eq!(aio.read_coolant_temp(), Ok(measured.coolant_decidegrees));
    }
}

#[test]
fn settings_are_kept() {
    let mut aio = controller();
    assert_eq!(aio.set_brightness(200).payload, vec![2, 100, 0, 0, 0, 0, 0, 30]);
    assert_eq!(aio.set_brightness(40).payload, vec![2, 40, 0, 0, 0, 0, 0, 30]);
    assert_eq!(aio.set_rotation(3).payload, vec![2, 40, 3, 0, 0, 0, 0, 30]);
    assert_eq!(aio.set_stream_fps(24), 24);
    assert_eq!(aio.apply_lcd_settings().payload, vec![1, 40, 3, 0, 0, 0, 0, 24]);
    assert_eq!(aio.set_stream_fps(-5), 1);
    assert_eq!(aio.set_stream_fps(31), 30);
    let (_, _, fps) = aio.stream_h264_reader(0);
    assert_eq!(fps, 1);
    assert_eq!(aio.apply_lcd_settings().payload[7], 1);
}

#[test]
fn every_third_finding_in_a_row_asks_for_a_reset() {
    let mut aio = controller();
    let findings = [false, false, true, false, false, false, false, false, false];
    let due: Vec<bool> = findings.iter().map(|available| aio.record_availability(*available)).collect();
    assert_eq!(due, vec![false, false, false, false, false, true, false, false, true]);
    assert_eq!(UNAVAILABLE_THRESHOLD, 3);
}

#[test]
fn times_and_marks_are_recorded() {
    let mut aio = controller();
    assert_eq!(aio.last_recovery_attempt(), None);
    aio.record_recovery_attempt(77);
    assert_eq!(aio.last_recovery_attempt(), Some(77));
    aio.mark_initialized();
    assert!(aio.is_initialized());
    aio.mark_control_ready();
    assert!(aio.is_ready_for_control());
}

#[test]
fn settings_go_out_as_a_b_command() {
    let mut aio = controller();
    aio.record_firmware("x".to_string(), Some((9, 9)));
    aio.set_use_c_command(true);
    let command = aio.set_brightness(40);
    let transfer = aio.send_command(&command);
    let same = aio.send_b_command(command.cmd, &command.payload);
    assert_eq!((transfer.ack_len, transfer.ack_timeout_ms), (1024, 1500));
    assert_eq!((same.ack_len, same.ack_timeout_ms), (1024, 1500));
    assert_eq!((transfer.packets.len(), same.packets.len()), (1, 1));
    let (packet, other) = (&transfer.packets[0], &same.packets[0]);
    assert_eq!((packet.cmd, packet.total_size, packet.packet_num), (0x0C, 8, 0));
    assert_eq!((packet.report_id, packet.pkt_size), (2, 1024));
    assert_eq!(packet.payload, &command.payload[..]);
    assert_eq!((other.report_id, other.pkt_size, other.payload), (2, 1024, packet.payload));
}

/// Carries out a transfer in which one write may fail; gives what was done.
fn carry_out(count: usize, fail: Option<usize>) -> Vec<TransferAction> {
    let (mut transferring, first) = Transferring::start(count);
    let mut actions = vec![first];
    loop {
        let event = match actions[actions.len() - 1] {
            TransferAction::Write(at) => TransferEvent::Written(fail != Some(at)),
            TransferAction::ReadAck => TransferEvent::AckRead,
            TransferAction::Done(_) => return actions,
        };
        assert!(transferring.can_take(&event));
        actions.push(transferring.resume(event));
    }
}

#[test]
fn transfer_ends_with_the_first_failed_write() {
    let (write, ack, done) = (TransferAction::Write, TransferAction::ReadAck, TransferAction::Done);
    assert_eq!(carry_out(1, None), vec![write(0), ack, done(true)]);
    assert_eq!(carry_out(3, None), vec![write(0), write(1), write(2), ack, done(true)]);
    assert_eq!(carry_out(3, Some(0)), vec![write(0), done(false)]);
    assert_eq!(carry_out(3, Some(1)), vec![write(0), write(1), done(false)]);
    assert_eq!(carry_out(3, Some(2)), vec![write(0), write(1), write(2), done(false)]);
}

#[test]
fn transfer_takes_only_the_answer_to_its_action() {
    let aio = controller();
    let jpeg = [7u8; 2000];
    let (mut transferring, first) = aio.send_jpeg(&jpeg).start();
    assert_eq!((transferring.count, first), (2, TransferAction::Write(0)));
    assert!(transferring.can_take(&TransferEvent::Written(true)));
    assert!(!transferring.can_take(&TransferEvent::AckRead));
    transferring.resume(TransferEvent::Written(false));
    assert!(!transferring.can_take(&TransferEvent::Written(true)));
    assert!(!transferring.can_take(&TransferEvent::AckRead));
}
