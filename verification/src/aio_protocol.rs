//! The report protocol of HydroShift LCD and Galahad2 LCD all-in-one coolers.

use vstd::prelude::*;
use vstd::slice::slice_subrange;
use crate::lcd_packet::PacketFormat;
use crate::text::{lossy_utf8, trim_end_nul};
use crate::text;

verus! {

/// Most bytes of text in a firmware report.
pub const FIRMWARE_TEXT_MAX: usize = 58;

/// The numbers of the protocol: report ids, packet sizes, commands, timeouts and setting bytes.
#[derive(Clone, Copy, Debug, PartialEq, Eq, Structural)]
pub struct AioProtocol {
    pub report_id_a: u8,
    pub a_packet_size: usize,
    pub a_header_len: usize,
    pub report_id_b: u8,
    pub b_packet_size: usize,
    pub b_header_len: usize,
    pub b_max_payload: usize,
    pub report_id_c: u8,
    pub c_packet_size: usize,
    pub c_max_payload: usize,
    pub cmd_handshake: u8,
    pub cmd_get_firmware: u8,
    pub cmd_reset_device: u8,
    pub cmd_set_fan_pwm: u8,
    pub cmd_set_pump_pwm: u8,
    pub cmd_lcd_control: u8,
    pub cmd_lcd_available: u8,
    pub cmd_send_jpeg: u8,
    pub cmd_send_h264: u8,
    pub read_timeout_ms: i32,
    pub init_read_timeout_ms: i32,
    pub ack_timeout_ms: i32,
    /// The control mode in which the host draws.
    pub mode_application: u8,
    /// The control mode in which settings change.
    pub mode_lcd_setting: u8,
    /// The rotation byte of an upright picture.
    pub rotate_0: u8,
    /// Most frames per second that the screen shows.
    pub max_fps: u8,
}

impl AioProtocol {
    /// The headers hold the bytes that are read from them, packets carry something, and the screen
    /// shows something.
    pub open spec fn wf(self) -> bool {
        &&& 6 <= self.a_header_len
        &&& self.a_header_len + FIRMWARE_TEXT_MAX <= self.a_packet_size
        &&& 11 <= self.b_packet_size
        &&& self.b_header_len < self.b_packet_size
        &&& 0 < self.b_max_payload
        &&& 0 < self.c_max_payload
        &&& 1 <= self.max_fps
    }

    /// Whether the numbers can be worked with.
    pub fn is_usable(&self) -> (usable: bool)
        ensures
            usable == self.wf(),
            usable <==> {
                &&& 6 <= self.a_header_len
                &&& self.a_header_len + 58 <= self.a_packet_size
                &&& 11 <= self.b_packet_size
                &&& self.b_header_len < self.b_packet_size
                &&& 0 < self.b_max_payload
                &&& 0 < self.c_max_payload
                &&& 0 < self.max_fps
            },
    {
        6 <= self.a_header_len && self.a_header_len <= self.a_packet_size && FIRMWARE_TEXT_MAX
            <= self.a_packet_size - self.a_header_len && 11 <= self.b_packet_size
            && self.b_header_len < self.b_packet_size && 0 < self.b_max_payload && 0
            < self.c_max_payload && 1 <= self.max_fps
    }

    /// The B packet format.
    pub fn format_b(&self) -> (format: PacketFormat)
        ensures
            format == self.spec_format_b(),
            format.report_id == self.report_id_b,
            format.pkt_size == self.b_packet_size,
            format.max_payload == self.b_max_payload,
    {
        PacketFormat {
            report_id: self.report_id_b,
            pkt_size: self.b_packet_size,
            max_payload: self.b_max_payload,
        }
    }

    /// The B packet format.
    pub open spec fn spec_format_b(self) -> PacketFormat {
        PacketFormat {
            report_id: self.report_id_b,
            pkt_size: self.b_packet_size,
            max_payload: self.b_max_payload,
        }
    }

    /// The C packet format.
    pub fn format_c(&self) -> (format: PacketFormat)
        ensures
            format == self.spec_format_c(),
            format.report_id == self.report_id_c,
            format.pkt_size == self.c_packet_size,
            format.max_payload == self.c_max_payload,
    {
        PacketFormat {
            report_id: self.report_id_c,
            pkt_size: self.c_packet_size,
            max_payload: self.c_max_payload,
        }
    }

    /// The C packet format.
    pub open spec fn spec_format_c(self) -> PacketFormat {
        PacketFormat {
            report_id: self.report_id_c,
            pkt_size: self.c_packet_size,
            max_payload: self.c_max_payload,
        }
    }
}

/// What differs between the coolers of the family.
#[derive(Clone, Copy, Debug, PartialEq, Eq)]
pub struct AioLcdVariant {
    /// The HydroShift LCD RGB, whose fans take a narrower range.
    pub is_hydroshift_lcd_rgb: bool,
    pub has_fan_control: bool,
    /// First firmware, as major and minor number, that takes C packets.
    pub c_command_min_firmware: (u32, u32),
    /// Lowest pump PWM percentage.
    pub pump_min_pwm: u8,
}

/// Why talking to a cooler failed.
#[derive(Clone, Copy, Debug, PartialEq, Eq, Structural)]
pub enum AioError {
    /// No cooler of the family has this product id.
    UnknownPid(u16),
    /// A command's payload is longer than a packet takes.
    PayloadTooLarge { cmd: u8, len: usize, max: usize },
    WriteFailed,
    ReadFailed,
    /// The device did not answer in time.
    NoResponse,
    /// A handshake answer with this data length is too short.
    HandshakeTooShort(u8),
    /// The caller asked to stop.
    StopRequested,
    /// LCD packets could not be written.
    TransferFailed,
    /// The cooler has answered a handshake, but not with a coolant temperature.
    TemperatureNotPopulated,
    /// No handshake has been answered yet.
    NoHandshake,
}

/// The A packet for a command.
pub open spec fn a_packet(p: AioProtocol, cmd: u8, data: Seq<u8>) -> Seq<u8> {
    Seq::new(
        p.a_packet_size as nat,
        |i: int|
            if i == 0 {
                p.report_id_a
            } else if i == 1 {
                cmd
            } else if i == 5 {
                data.len() as u8
            } else if p.a_header_len <= i < p.a_header_len + data.len() {
                data[i - p.a_header_len]
            } else {
                0u8
            },
    )
}

/// An A packet carries its payload: behind the header stand the bytes that the packet was made of, and
/// their number stands at offset 5.
pub proof fn a_packet_carries_the_payload(p: AioProtocol, cmd: u8, data: Seq<u8>)
    requires
        p.wf(),
        data.len() <= p.a_packet_size - p.a_header_len,
        data.len() <= 255,
    ensures
        a_packet(p, cmd, data).len() == p.a_packet_size,
        a_packet(p, cmd, data)[1] == cmd,
        a_packet(p, cmd, data)[5] == data.len(),
        a_packet(p, cmd, data).subrange(p.a_header_len as int, p.a_header_len + data.len()) == data,
{
    assert(a_packet(p, cmd, data).subrange(p.a_header_len as int, p.a_header_len + data.len())
        =~= data);
}

/// Builds the A packet for a command: report id, command, payload length at offset 5, payload
/// behind the header, zeros elsewhere.
pub fn write_a_command_raw(p: &AioProtocol, cmd: u8, data: &[u8]) -> (packet: Result<
    Vec<u8>,
    AioError,
>)
    requires
        p.wf(),
    ensures
        data@.len() > p.a_packet_size - p.a_header_len ==> packet == Err::<Vec<u8>, AioError>(
            AioError::PayloadTooLarge {
                cmd,
                len: data.len(),
                max: (p.a_packet_size - p.a_header_len) as usize,
            },
        ),
        data@.len() <= p.a_packet_size - p.a_header_len ==> (packet matches Ok(bytes) && bytes@
            == a_packet(*p, cmd, data@)),
{
    let max = p.a_packet_size - p.a_header_len;
    if data.len() > max {
        return Err(AioError::PayloadTooLarge { cmd, len: data.len(), max });
    }
    let mut pkt: Vec<u8> = vec![0u8; p.a_packet_size];
    pkt[0] = p.report_id_a;
    pkt[1] = cmd;
    pkt[5] = data.len() as u8;
    let mut i: usize = 0;
    while i < data.len()
        invariant
            p.wf(),
            i <= data@.len() <= p.a_packet_size - p.a_header_len,
            pkt@.len() == p.a_packet_size,
            forall|j: int|
                0 <= j < pkt@.len() ==> #[trigger] pkt@[j] == (if j < p.a_header_len + i {
                    a_packet(*p, cmd, data@)[j]
                } else {
                    0u8
                }),
        decreases data@.len() - i,
    {
        pkt[p.a_header_len + i] = data[i];
        i = i + 1;
    }
    assert(pkt@ =~= a_packet(*p, cmd, data@));
    Ok(pkt)
}

/// What a cooler reports of itself.
#[derive(Clone, Copy, Debug, PartialEq, Eq, Structural)]
pub struct AioHandshake {
    pub fan_rpm: u16,
    pub pump_rpm: u16,
    pub temp_valid: bool,
    /// Coolant temperature in tenths of a degree Celsius.
    pub coolant_decidegrees: u16,
}

/// A report long enough for the data that it announces. (Data beyond the seventh byte is not
/// looked at.)
pub open spec fn handshake_fits(p: AioProtocol, report: Seq<u8>) -> bool {
    let data_len = report[5];
    &&& p.a_header_len + 4 <= report.len()
    &&& data_len >= 5 ==> p.a_header_len + 5 <= report.len()
    &&& data_len >= 7 ==> p.a_header_len + 7 <= report.len()
}

/// What a handshake report says. Speeds are big-endian; the temperature is a byte of whole degrees
/// and a byte whose last decimal digit counts tenths.
pub open spec fn handshake_of(p: AioProtocol, report: Seq<u8>) -> AioHandshake {
    let data_len = report[5];
    let data = report.skip(p.a_header_len as int);
    AioHandshake {
        fan_rpm: (data[0] * 256 + data[1]) as u16,
        pump_rpm: (data[2] * 256 + data[3]) as u16,
        temp_valid: data_len >= 5 && data[4] != 0,
        coolant_decidegrees: if data_len >= 7 {
            (data[5] * 10 + data[6] % 10) as u16
        } else {
            0
        },
    }
}

/// Reads a handshake report.
pub fn read_handshake(p: &AioProtocol, report: &[u8]) -> (handshake: AioHandshake)
    requires
        p.wf(),
        handshake_fits(*p, report@),
    ensures
        handshake == handshake_of(*p, report@),
{
    let data_len = report[5];
    let at = p.a_header_len;
    let temp_valid = data_len >= 5 && report[at + 4] != 0;
    let coolant_decidegrees: u16 = if data_len >= 7 {
        report[at + 5] as u16 * 10 + (report[at + 6] % 10) as u16
    } else {
        0
    };
    AioHandshake {
        fan_rpm: report[at] as u16 * 256 + report[at + 1] as u16,
        pump_rpm: report[at + 2] as u16 * 256 + report[at + 3] as u16,
        temp_valid,
        coolant_decidegrees,
    }
}

/// A report that announces fewer than four bytes of data, or is too short for four.
pub open spec fn handshake_too_short(p: AioProtocol, report: Seq<u8>) -> bool {
    report.len() < p.a_header_len + 4 || report[5] < 4
}

/// A report that can be looked at: it is too short for a handshake, or holds what it announces.
pub open spec fn handshake_readable(p: AioProtocol, report: Seq<u8>) -> bool {
    handshake_too_short(p, report) || handshake_fits(p, report)
}

/// Whether a report can be handed to [`try_parse_handshake`].
pub fn is_handshake_readable(p: &AioProtocol, report: &[u8]) -> (readable: bool)
    requires
        p.wf(),
    ensures
        readable == handshake_readable(*p, report@),
{
    if report.len() < p.a_header_len || report.len() - p.a_header_len < 4 || report[5] < 4 {
        return true;
    }
    let data = report.len() - p.a_header_len;
    (report[5] < 5 || data >= 5) && (report[5] < 7 || data >= 7)
}

/// Reads a report that may be too short for a handshake.
pub fn try_parse_handshake(p: &AioProtocol, report: &[u8]) -> (handshake: Option<AioHandshake>)
    requires
        p.wf(),
        handshake_readable(*p, report@),
    ensures
        handshake == parsed_handshake(*p, report@),
{
    if report.len() < p.a_header_len || report.len() - p.a_header_len < 4 || report[5] < 4 {
        return None;
    }
    Some(read_handshake(p, report))
}

/// The handshake in a report, unless it is too short.
pub open spec fn parsed_handshake(p: AioProtocol, report: Seq<u8>) -> Option<AioHandshake> {
    if handshake_too_short(p, report) {
        None
    } else {
        Some(handshake_of(p, report))
    }
}

/// The text bytes of a firmware report.
pub open spec fn firmware_bytes(p: AioProtocol, report: Seq<u8>) -> Seq<u8> {
    let len = if report[5] < FIRMWARE_TEXT_MAX {
        report[5] as int
    } else {
        FIRMWARE_TEXT_MAX as int
    };
    report.subrange(p.a_header_len as int, p.a_header_len + len)
}

/// Reads the text of a firmware report, without the zero bytes that pad it.
pub fn firmware_text(p: &AioProtocol, report: &[u8]) -> (text: String)
    requires
        p.wf(),
        report@.len() == p.a_packet_size,
    ensures
        text@ == text::without_trailing_nul(text::utf8_lossy_text(firmware_bytes(*p, report@))),
{
    let announced = report[5] as usize;
    let len = if announced < FIRMWARE_TEXT_MAX {
        announced
    } else {
        FIRMWARE_TEXT_MAX
    };
    let lossy = lossy_utf8(slice_subrange(report, p.a_header_len, p.a_header_len + len));
    trim_end_nul(lossy.as_str())
}

/// The fan PWM percentage of the HydroShift LCD RGB for a percentage: 10 to 100 goes to 12 to 95,
/// and less than 10 is off.
pub open spec fn remapped_fan_pwm(pwm: int) -> int {
    let scaled = 12 + (pwm - 10) * 83 / 90;
    if pwm < 10 {
        0
    } else if scaled < 95 {
        scaled
    } else {
        95
    }
}

/// Remaps a fan PWM percentage for the HydroShift LCD RGB.
pub fn remap_fan_pwm_rgb(pwm: u8) -> (remapped: u8)
    ensures
        remapped == remapped_fan_pwm(pwm as int),
{
    if pwm < 10 {
        return 0;
    }
    let scaled: u32 = ((pwm as u32 - 10) * 83) / 90;
    let shifted: u8 = 12 + scaled as u8;
    if shifted < 95 {
        shifted
    } else {
        95
    }
}

/// The remapping keeps order, starts at 12 and ends at 95.
pub proof fn remapping_keeps_order(low: int, high: int)
    requires
        0 <= low <= high,
    ensures
        remapped_fan_pwm(low) <= remapped_fan_pwm(high),
        low >= 10 ==> 12 <= remapped_fan_pwm(low) <= 95,
        remapped_fan_pwm(10) == 12,
        remapped_fan_pwm(100) == 95,
{
}

/// A handshake is read from a report that has four bytes behind its header and announces as many, and
/// from no other. What it says are the bytes behind the header: the high and the low byte of the fan
/// speed, and those of the pump speed; a byte that tells whether the temperature counts, if five bytes
/// are announced; and, if seven are, the whole degrees, and a byte whose last decimal digit is the
/// tenths.
pub proof fn handshake_says_what_its_bytes_say(p: AioProtocol, report: Seq<u8>)
    requires
        handshake_readable(p, report),
    ensures
        ({
            let at = p.a_header_len as int;
            match parsed_handshake(p, report) {
                None => report.len() < at + 4 || report[5] < 4,
                Some(handshake) => {
                    &&& at + 4 <= report.len() && 4 <= report[5]
                    &&& handshake == handshake_of(p, report)
                    &&& handshake.fan_rpm / 256 == report[at]
                    &&& handshake.fan_rpm % 256 == report[at + 1]
                    &&& handshake.pump_rpm / 256 == report[at + 2]
                    &&& handshake.pump_rpm % 256 == report[at + 3]
                    &&& handshake.temp_valid <==> 5 <= report[5] && report[at + 4] != 0
                    &&& report[5] < 7 ==> handshake.coolant_decidegrees == 0
                    &&& 7 <= report[5] ==> handshake.coolant_decidegrees / 10 == report[at + 5]
                    &&& 7 <= report[5] ==> handshake.coolant_decidegrees % 10 == report[at + 6] % 10
                },
            }
        }),
{
}

/// Of two handshakes that both have a temperature, the one with more whole degrees has the higher
/// temperature, whatever the tenths say.
pub proof fn more_degrees_are_warmer(p: AioProtocol, cold: Seq<u8>, warm: Seq<u8>)
    requires
        handshake_readable(p, cold),
        handshake_readable(p, warm),
        p.a_header_len + 7 <= cold.len(),
        p.a_header_len + 7 <= warm.len(),
        7 <= cold[5],
        7 <= warm[5],
        cold[p.a_header_len + 5] < warm[p.a_header_len + 5],
    ensures
        handshake_of(p, cold).coolant_decidegrees < handshake_of(p, warm).coolant_decidegrees,
{
    handshake_says_what_its_bytes_say(p, cold);
    handshake_says_what_its_bytes_say(p, warm);
}

/// A report can be looked at exactly when it is no handshake, or has the bytes that are read of it.
pub proof fn readable_reports_hold_their_bytes(p: AioProtocol, report: Seq<u8>)
    ensures
        handshake_readable(p, report) <==> {
            ||| report.len() < p.a_header_len + 4
            ||| report[5] < 4
            ||| report[5] == 4
            ||| 5 <= report[5] < 7 && p.a_header_len + 5 <= report.len()
            ||| 7 <= report[5] && p.a_header_len + 7 <= report.len()
        },
        handshake_fits(p, report) ==> p.a_header_len + 4 <= report.len(),
{
}

/// An A packet is the report id, the command, the length of the payload and the payload, each in its
/// place, and zeros elsewhere: so packets of different commands or payloads differ.
pub proof fn a_packet_holds_nothing_else(p: AioProtocol, cmd: u8, data: Seq<u8>, i: int)
    requires
        p.wf(),
        data.len() <= p.a_packet_size - p.a_header_len,
        0 <= i < p.a_packet_size,
    ensures
        a_packet(p, cmd, data).len() == p.a_packet_size,
        i == 0 ==> a_packet(p, cmd, data)[i] == p.report_id_a,
        i == 1 ==> a_packet(p, cmd, data)[i] == cmd,
        2 <= i < 5 ==> a_packet(p, cmd, data)[i] == 0,
        i == 5 ==> a_packet(p, cmd, data)[i] == data.len() as u8,
        5 < i < p.a_header_len ==> a_packet(p, cmd, data)[i] == 0,
        p.a_header_len <= i < p.a_header_len + data.len() ==> a_packet(p, cmd, data)[i] == data[i
            - p.a_header_len],
        p.a_header_len + data.len() <= i ==> a_packet(p, cmd, data)[i] == 0,
{
}

/// The text of a firmware report starts behind the header, and is as long as announced, but not longer
/// than 58 bytes.
pub proof fn firmware_text_is_what_is_announced(p: AioProtocol, report: Seq<u8>)
    requires
        p.wf(),
        report.len() == p.a_packet_size,
    ensures
        report[5] <= 58 ==> firmware_bytes(p, report).len() == report[5],
        58 <= report[5] ==> firmware_bytes(p, report).len() == 58,
        forall|i: int|
            0 <= i < firmware_bytes(p, report).len() ==> #[trigger] firmware_bytes(p, report)[i]
                == report[p.a_header_len + i],
{
}

/// The remapping is the straight line from 12 at 10 percent to 95 at 100 percent, rounded down; it stays
/// at 95 above and is off below.
pub proof fn remapping_is_a_line(pwm: int)
    requires
        0 <= pwm,
    ensures
        pwm < 10 ==> remapped_fan_pwm(pwm) == 0,
        10 <= pwm <= 100 ==> 90 * (remapped_fan_pwm(pwm) - 12) <= 83 * (pwm - 10) < 90 * (
        remapped_fan_pwm(pwm) - 11),
        100 <= pwm ==> remapped_fan_pwm(pwm) == 95,
{
}

} // verus!
