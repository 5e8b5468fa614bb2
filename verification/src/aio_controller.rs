//! State of a HydroShift LCD or Galahad2 LCD cooler: pump and fan control, coolant temperature, and
//! LCD settings and frames.

use vstd::prelude::*;
use crate::aio_protocol;
use crate::aio_protocol::{
    remap_fan_pwm_rgb, write_a_command_raw, AioError, AioHandshake, AioLcdVariant, AioProtocol,
};
use crate::lcd_packet;
use crate::lcd_packet::{lcd_packets, LcdPacket, PacketFormat};
use crate::reader_stream;
use crate::reader_stream::ReaderStream;
use crate::transfer::{TransferAction, Transferring};
use crate::unit_buffer::{StreamAction, StreamOutput};

verus! {

/// What is known of a cooler and set on it.
pub struct AioState {
    pub protocol: AioProtocol,
    pub variant: AioLcdVariant,
    pub last_handshake: Option<AioHandshake>,
    pub brightness: u8,
    pub rotation: u8,
    pub video_fps: u8,
    pub initialized: bool,
    pub control_ready: bool,
    pub use_c_command: bool,
    pub firmware_string: Option<Seq<char>>,
    pub firmware_version: Option<(u32, u32)>,
    /// When a recovery was last tried, in nanoseconds.
    pub last_recovery_attempt: Option<u64>,
    /// How often in a row the LCD was found unavailable.
    pub lcd_unavailable_count: u32,
}

/// So many findings in a row make the LCD count as unavailable.
pub const UNAVAILABLE_THRESHOLD: u32 = 3;

impl AioState {
    /// The protocol is usable, the settings are in range, and C packets are used only if the
    /// firmware takes them.
    pub open spec fn wf(self) -> bool {
        &&& self.protocol.wf()
        &&& self.brightness <= 100
        &&& 1 <= self.video_fps <= self.protocol.max_fps
        &&& self.lcd_unavailable_count < UNAVAILABLE_THRESHOLD
        &&& self.use_c_command ==> self.takes_c_commands()
    }

    /// The firmware is known and recent enough for C packets.
    pub open spec fn takes_c_commands(self) -> bool {
        match self.firmware_version {
            Some(version) => at_least(version, self.variant.c_command_min_firmware),
            None => false,
        }
    }

    /// The format of H.264 packets.
    pub open spec fn video_format(self) -> PacketFormat {
        if self.use_c_command {
            self.protocol.spec_format_c()
        } else {
            self.protocol.spec_format_b()
        }
    }

    /// The state behind a setting of C packets.
    pub open spec fn with_c_command(self, enable: bool) -> AioState {
        AioState { use_c_command: enable && self.takes_c_commands(), ..self }
    }

    /// The LCD control payload for a mode.
    pub open spec fn control_payload(self, mode: u8) -> Seq<u8> {
        seq![mode, self.brightness, self.rotation, 0u8, 0u8, 0u8, 0u8, self.video_fps]
    }

    /// The firmware text and version are kept as they were first read.
    pub open spec fn with_firmware(self, text: Seq<char>, version: Option<(u32, u32)>) -> AioState {
        AioState {
            firmware_string: match self.firmware_string {
                Some(first) => Some(first),
                None => Some(text),
            },
            firmware_version: match self.firmware_version {
                Some(first) => Some(first),
                None => version,
            },
            ..self
        }
    }

    /// The state behind a change.
    pub open spec fn changed(self, change: AioChange) -> AioState {
        match change {
            AioChange::CCommand(enable) => self.with_c_command(enable),
            AioChange::Firmware(text, version) => self.with_firmware(text, version),
            AioChange::Handshake(handshake) => AioState {
                last_handshake: Some(handshake),
                ..self
            },
            AioChange::Initialized => AioState { initialized: true, ..self },
            AioChange::ControlReady => AioState { control_ready: true, ..self },
            AioChange::RecoveryAttempt(now) => AioState {
                last_recovery_attempt: Some(now),
                ..self
            },
            AioChange::Availability(available) => AioState {
                lcd_unavailable_count: if available || self.lcd_unavailable_count + 1
                    == UNAVAILABLE_THRESHOLD {
                    0
                } else {
                    (self.lcd_unavailable_count + 1) as u32
                },
                ..self
            },
            AioChange::Brightness(brightness) => AioState {
                brightness: if brightness < 100 {
                    brightness
                } else {
                    100
                },
                ..self
            },
            AioChange::Rotation(rotation) => AioState { rotation, ..self },
            AioChange::StreamFps(fps) => AioState {
                video_fps: shown_fps(self.protocol, fps as int) as u8,
                ..self
            },
        }
    }

    /// The temperature that the cooler reports, unless it has not measured one: zero, or the
    /// placeholder of one degree with fan and pump at rest that it reports after power-up.
    pub open spec fn coolant_decidegrees(self) -> Option<u16> {
        match self.last_handshake {
            Some(hs) => if hs.coolant_decidegrees > 0 && !(hs.coolant_decidegrees == 10
                && hs.fan_rpm == 0 && hs.pump_rpm == 0) {
                Some(hs.coolant_decidegrees)
            } else {
                None
            },
            None => None,
        }
    }

    /// The fan PWM percentage sent for a requested one.
    pub open spec fn fan_pwm(self, percent: u8) -> u8 {
        if self.variant.is_hydroshift_lcd_rgb {
            aio_protocol::remapped_fan_pwm(percent as int) as u8
        } else {
            percent
        }
    }

    /// The pump PWM percentage sent for a requested one: never below the variant's floor.
    pub open spec fn pump_pwm(self, percent: u8) -> u8 {
        if percent < self.variant.pump_min_pwm {
            self.variant.pump_min_pwm
        } else {
            percent
        }
    }
}

/// A change of what is known of a cooler or set on it.
pub enum AioChange {
    /// C packets are wanted or not.
    CCommand(bool),
    /// The firmware text was read, and understood as a version or not.
    Firmware(Seq<char>, Option<(u32, u32)>),
    Handshake(AioHandshake),
    /// Initialization has begun.
    Initialized,
    /// Initialization is through.
    ControlReady,
    /// A recovery was tried at this time.
    RecoveryAttempt(u64),
    /// The LCD was found available or not.
    Availability(bool),
    Brightness(u8),
    Rotation(u8),
    /// A stream has this frame rate.
    StreamFps(i32),
}

/// `version` is `min` or later.
pub open spec fn at_least(version: (u32, u32), min: (u32, u32)) -> bool {
    version.0 > min.0 || (version.0 == min.0 && version.1 >= min.1)
}

/// The frame rate nearest to `fps` that the screen shows.
pub open spec fn shown_fps(protocol: AioProtocol, fps: int) -> int {
    if fps < 1 {
        1
    } else if fps > protocol.max_fps {
        protocol.max_fps as int
    } else {
        fps
    }
}

/// LCD packets to write in order, and how to wait for the acknowledgement behind them.
/// [`LcdTransfer::start`] carries it out.
pub struct LcdTransfer<'a> {
    pub packets: Vec<LcdPacket<'a>>,
    pub ack_len: usize,
    pub ack_timeout_ms: i32,
}

impl<'a> LcdTransfer<'a> {
    /// It is the transfer of a command in B packets, which the device answers at the usual speed.
    pub open spec fn is_b_command(self, protocol: AioProtocol, cmd: u8, data: Seq<u8>) -> bool {
        &&& lcd_packet::are_packets(self.packets@, protocol.spec_format_b(), cmd, data)
        &&& self.ack_len == protocol.b_packet_size
        &&& self.ack_timeout_ms == protocol.read_timeout_ms
    }

    /// Starts to carry the transfer out, with the first action.
    pub fn start(&self) -> (started: (Transferring, TransferAction))
        requires
            0 < self.packets@.len(),
        ensures
            started.0 == Transferring::begin(self.packets.len()),
            started.0.wf(),
            started.1 == TransferAction::Write(0),
    {
        Transferring::start(self.packets.len())
    }
}

/// A command for the LCD. [`HydroShiftLcdController::send_command`] gives its transfer.
pub struct LcdCommand {
    pub cmd: u8,
    pub payload: Vec<u8>,
}

impl LcdCommand {
    /// The packets of the command can be numbered.
    pub open spec fn fits(self, protocol: AioProtocol) -> bool {
        lcd_packet::packet_count(self.payload@.len() as int, protocol.b_max_payload as int)
            <= u32::MAX
    }
}

/// HydroShift LCD / Galahad2 LCD AIO controller.
pub struct HydroShiftLcdController {
    protocol: AioProtocol,
    variant: AioLcdVariant,
    last_handshake: Option<AioHandshake>,
    brightness: u8,
    rotation: u8,
    video_fps: u8,
    initialized: bool,
    control_ready: bool,
    use_c_command: bool,
    firmware_string: Option<String>,
    firmware_version: Option<(u32, u32)>,
    last_recovery_attempt: Option<u64>,
    lcd_unavailable_count: u32,
}

impl View for HydroShiftLcdController {
    type V = AioState;

    closed spec fn view(&self) -> AioState {
        AioState {
            protocol: self.protocol,
            variant: self.variant,
            last_handshake: self.last_handshake,
            brightness: self.brightness,
            rotation: self.rotation,
            video_fps: self.video_fps,
            initialized: self.initialized,
            control_ready: self.control_ready,
            use_c_command: self.use_c_command,
            firmware_string: match self.firmware_string {
                Some(text) => Some(text@),
                None => None,
            },
            firmware_version: self.firmware_version,
            last_recovery_attempt: self.last_recovery_attempt,
            lcd_unavailable_count: self.lcd_unavailable_count,
        }
    }
}

/// A cooler of which nothing is known yet.
pub open spec fn fresh_state(protocol: AioProtocol, variant: AioLcdVariant) -> AioState {
    AioState {
        protocol,
        variant,
        last_handshake: None,
        brightness: 50,
        rotation: protocol.rotate_0,
        video_fps: protocol.max_fps,
        initialized: false,
        control_ready: false,
        use_c_command: false,
        firmware_string: None,
        firmware_version: None,
        last_recovery_attempt: None,
        lcd_unavailable_count: 0,
    }
}

impl HydroShiftLcdController {
    /// A controller for the product id, with the variant that the id belongs to, if it belongs to
    /// one.
    pub fn new(protocol: AioProtocol, pid: u16, variant: Option<AioLcdVariant>) -> (controller:
        Result<Self, AioError>)
        requires
            protocol.wf(),
        ensures
            match (variant, controller) {
                (Some(variant), Ok(controller)) => {
                    &&& controller@ == fresh_state(protocol, variant)
                    &&& controller@.wf()
                },
                (None, Err(error)) => error == AioError::UnknownPid(pid),
                _ => false,
            },
    {
        match variant {
            Some(variant) => Ok(
                HydroShiftLcdController {
                    protocol,
                    variant,
                    last_handshake: None,
                    brightness: 50,
                    rotation: protocol.rotate_0,
                    video_fps: protocol.max_fps,
                    initialized: false,
                    control_ready: false,
                    use_c_command: false,
                    firmware_string: None,
                    firmware_version: None,
                    last_recovery_attempt: None,
                    lcd_unavailable_count: 0,
                },
            ),
            None => Err(AioError::UnknownPid(pid)),
        }
    }

    /// The protocol numbers.
    pub fn protocol(&self) -> (protocol: AioProtocol)
        ensures
            protocol == self@.protocol,
    {
        self.protocol
    }

    /// Which cooler it is.
    pub fn variant(&self) -> (variant: AioLcdVariant)
        ensures
            variant == self@.variant,
    {
        self.variant
    }

    /// Whether the firmware takes C packets; `false` also while the firmware is not known.
    pub fn supports_c_command(&self) -> (supported: bool)
        ensures
            supported == self@.takes_c_commands(),
    {
        match self.firmware_version {
            Some(version) => {
                let min = self.variant.c_command_min_firmware;
                version.0 > min.0 || (version.0 == min.0 && version.1 >= min.1)
            },
            None => false,
        }
    }

    /// Has H.264 frames sent in C packets, if the firmware takes them.
    pub fn set_use_c_command(&mut self, enable: bool)
        requires
            old(self)@.wf(),
        ensures
            final(self)@ == old(self)@.changed(AioChange::CCommand(enable)),
            final(self)@.wf(),
    {
        self.use_c_command = enable && self.supports_c_command();
    }

    /// The firmware text, once it has been read.
    pub fn firmware_version_str(&self) -> (text: Option<&str>)
        ensures
            match (text, self@.firmware_string) {
                (Some(text), Some(read)) => text@ == read,
                (None, None) => true,
                _ => false,
            },
    {
        match &self.firmware_string {
            Some(text) => Some(text.as_str()),
            None => None,
        }
    }

    /// The firmware version, once it has been read and understood.
    pub fn firmware_version(&self) -> (version: Option<(u32, u32)>)
        ensures
            version == self@.firmware_version,
    {
        self.firmware_version
    }

    /// Records the firmware text and the version that it was understood as. What was recorded
    /// first stays.
    pub fn record_firmware(&mut self, text: String, version: Option<(u32, u32)>)
        requires
            old(self)@.wf(),
        ensures
            final(self)@ == old(self)@.changed(AioChange::Firmware(text@, version)),
            final(self)@.wf(),
    {
        if self.firmware_string.is_none() {
            self.firmware_string = Some(text);
        }
        if self.firmware_version.is_none() {
            self.firmware_version = version;
        }
    }

    /// What the cooler last reported.
    pub fn last_handshake(&self) -> (handshake: Option<AioHandshake>)
        ensures
            handshake == self@.last_handshake,
    {
        self.last_handshake
    }

    /// Records what the cooler reported.
    pub fn record_handshake(&mut self, handshake: AioHandshake)
        requires
            old(self)@.wf(),
        ensures
            final(self)@ == old(self)@.changed(AioChange::Handshake(handshake)),
            final(self)@.wf(),
    {
        self.last_handshake = Some(handshake);
    }

    /// Whether initialization has begun.
    pub fn is_initialized(&self) -> (initialized: bool)
        ensures
            initialized == self@.initialized,
    {
        self.initialized
    }

    /// Records that initialization has begun.
    pub fn mark_initialized(&mut self)
        requires
            old(self)@.wf(),
        ensures
            final(self)@ == old(self)@.changed(AioChange::Initialized),
            final(self)@.wf(),
    {
        self.initialized = true;
    }

    /// Records that the cooler takes PWM commands from now on.
    pub fn mark_control_ready(&mut self)
        requires
            old(self)@.wf(),
        ensures
            final(self)@ == old(self)@.changed(AioChange::ControlReady),
            final(self)@.wf(),
    {
        self.control_ready = true;
    }

    /// When a recovery was last tried.
    pub fn last_recovery_attempt(&self) -> (at: Option<u64>)
        ensures
            at == self@.last_recovery_attempt,
    {
        self.last_recovery_attempt
    }

    /// Records when a recovery was tried.
    pub fn record_recovery_attempt(&mut self, now: u64)
        requires
            old(self)@.wf(),
        ensures
            final(self)@ == old(self)@.changed(AioChange::RecoveryAttempt(now)),
            final(self)@.wf(),
    {
        self.last_recovery_attempt = Some(now);
    }

    /// Records one finding of the LCD's availability. The result says that it has been found
    /// unavailable [`UNAVAILABLE_THRESHOLD`] times in a row; the count then starts again.
    pub fn record_availability(&mut self, available: bool) -> (reset_due: bool)
        requires
            old(self)@.wf(),
        ensures
            reset_due == (!available && old(self)@.lcd_unavailable_count + 1
                == UNAVAILABLE_THRESHOLD),
            final(self)@ == old(self)@.changed(AioChange::Availability(available)),
            final(self)@.wf(),
    {
        if available {
            self.lcd_unavailable_count = 0;
            return false;
        }
        let count = self.lcd_unavailable_count + 1;
        if count < UNAVAILABLE_THRESHOLD {
            self.lcd_unavailable_count = count;
            return false;
        }
        self.lcd_unavailable_count = 0;
        true
    }

    /// The A packet for a command.
    pub fn write_a_command(&self, cmd: u8, data: &[u8]) -> (packet: Result<Vec<u8>, AioError>)
        requires
            self@.wf(),
        ensures
            ({
                let p = self@.protocol;
                let max = p.a_packet_size - p.a_header_len;
                if data@.len() > max {
                    packet == Err::<Vec<u8>, AioError>(
                        AioError::PayloadTooLarge { cmd, len: data.len(), max: max as usize },
                    )
                } else {
                    packet matches Ok(bytes) && bytes@ == aio_protocol::a_packet(p, cmd, data@)
                }
            }),
    {
        write_a_command_raw(&self.protocol, cmd, data)
    }

    fn write_pwm(&self, cmd: u8, source: u8, pwm: u8) -> (packet: Vec<u8>)
        requires
            self@.wf(),
        ensures
            packet@ == aio_protocol::a_packet(self@.protocol, cmd, seq![source, pwm]),
    {
        let data: [u8; 2] = [source, pwm];
        assert(data@ =~= seq![source, pwm]);
        write_a_command_raw(&self.protocol, cmd, data.as_slice()).unwrap()
    }

    /// The packet that sets the fans, of whatever slot, to a percentage.
    pub fn set_fan_speed(&self, percent: u8) -> (packet: Vec<u8>)
        requires
            self@.wf(),
        ensures
            packet@ == aio_protocol::a_packet(
                self@.protocol,
                self@.protocol.cmd_set_fan_pwm,
                seq![0u8, self@.fan_pwm(percent)],
            ),
    {
        let pwm = if self.variant.is_hydroshift_lcd_rgb {
            remap_fan_pwm_rgb(percent)
        } else {
            percent
        };
        self.write_pwm(self.protocol.cmd_set_fan_pwm, 0, pwm)
    }

    /// The packet that sets the fans to the first of some percentages, if there is one.
    pub fn set_fan_speeds(&self, percents: &[u8]) -> (packet: Option<Vec<u8>>)
        requires
            self@.wf(),
        ensures
            packet is Some <==> percents@.len() > 0,
            packet matches Some(bytes) ==> bytes@ == aio_protocol::a_packet(
                self@.protocol,
                self@.protocol.cmd_set_fan_pwm,
                seq![0u8, self@.fan_pwm(percents@[0])],
            ),
    {
        if percents.len() == 0 {
            None
        } else {
            Some(self.set_fan_speed(percents[0]))
        }
    }

    /// The fan speed last reported, or zero.
    pub fn read_fan_rpm(&self) -> (rpms: Vec<u16>)
        ensures
            rpms@ == seq![
                match self@.last_handshake {
                    Some(hs) => hs.fan_rpm,
                    None => 0,
                },
            ],
    {
        let rpm: u16 = match self.last_handshake {
            Some(hs) => hs.fan_rpm,
            None => 0,
        };
        let mut rpms: Vec<u16> = Vec::new();
        rpms.push(rpm);
        rpms
    }

    /// How many fan slots the cooler has.
    pub fn fan_slot_count(&self) -> (count: u8)
        ensures
            count == (if self@.variant.has_fan_control {
                1u8
            } else {
                0u8
            }),
    {
        if self.variant.has_fan_control {
            1
        } else {
            0
        }
    }

    /// Every cooler of the family has a pump to control.
    pub fn has_pump_control(&self) -> (has: bool)
        ensures
            has,
    {
        true
    }

    /// The coolant temperature in tenths of a degree, if the cooler has measured one.
    pub fn poll_coolant_temp(&self) -> (decidegrees: Option<u16>)
        ensures
            decidegrees == self@.coolant_decidegrees(),
    {
        match self.last_handshake {
            Some(hs) => {
                if hs.coolant_decidegrees > 0 && !(hs.coolant_decidegrees == 10 && hs.fan_rpm == 0
                    && hs.pump_rpm == 0) {
                    Some(hs.coolant_decidegrees)
                } else {
                    None
                }
            },
            None => None,
        }
    }

    /// The coolant temperature in tenths of a degree, or why there is none.
    pub fn read_coolant_temp(&self) -> (decidegrees: Result<u16, AioError>)
        ensures
            decidegrees == (match (self@.coolant_decidegrees(), self@.last_handshake) {
                (Some(measured), _) => Ok::<u16, AioError>(measured),
                (None, Some(_)) => Err(AioError::TemperatureNotPopulated),
                (None, None) => Err(AioError::NoHandshake),
            }),
    {
        match self.poll_coolant_temp() {
            Some(measured) => Ok(measured),
            None => {
                if self.last_handshake.is_some() {
                    Err(AioError::TemperatureNotPopulated)
                } else {
                    Err(AioError::NoHandshake)
                }
            },
        }
    }

    fn set_pump_pwm_bytes(&self, source: u8, percent: u8) -> (packet: Vec<u8>)
        requires
            self@.wf(),
        ensures
            packet@ == aio_protocol::a_packet(
                self@.protocol,
                self@.protocol.cmd_set_pump_pwm,
                seq![source, self@.pump_pwm(percent)],
            ),
    {
        let floor = self.variant.pump_min_pwm;
        let pwm = if percent < floor {
            floor
        } else {
            percent
        };
        self.write_pwm(self.protocol.cmd_set_pump_pwm, source, pwm)
    }

    /// The packet that sets the pump to a percentage.
    pub fn set_pump_speed(&self, percent: u8) -> (packet: Vec<u8>)
        requires
            self@.wf(),
        ensures
            packet@ == aio_protocol::a_packet(
                self@.protocol,
                self@.protocol.cmd_set_pump_pwm,
                seq![0u8, self@.pump_pwm(percent)],
            ),
    {
        self.set_pump_pwm_bytes(0, percent)
    }

    /// The packet that sets the pump's source, 0 for the host and 1 for the motherboard, along with
    /// the percentage, which is sent in either case.
    pub fn set_pump_speed_source(&self, source: u8, percent: u8) -> (packet: Vec<u8>)
        requires
            self@.wf(),
        ensures
            packet@ == aio_protocol::a_packet(
                self@.protocol,
                self@.protocol.cmd_set_pump_pwm,
                seq![source_byte(source), self@.pump_pwm(percent)],
            ),
    {
        let source: u8 = if source < 1 {
            source
        } else {
            1
        };
        self.set_pump_pwm_bytes(source, percent)
    }

    /// The packet that sets the pump to the PWM byte of a point on its curve.
    pub fn set_pump_curve_percent(&self, source: u8, pwm: u8) -> (packet: Vec<u8>)
        requires
            self@.wf(),
        ensures
            packet@ == aio_protocol::a_packet(
                self@.protocol,
                self@.protocol.cmd_set_pump_pwm,
                seq![source_byte(source), pwm],
            ),
    {
        let source: u8 = if source < 1 {
            source
        } else {
            1
        };
        self.write_pwm(self.protocol.cmd_set_pump_pwm, source, pwm)
    }

    /// The packet that switches the pump between host and motherboard, at its lowest speed.
    pub fn set_mb_rpm_sync(&self, sync: bool) -> (packet: Vec<u8>)
        requires
            self@.wf(),
        ensures
            packet@ == aio_protocol::a_packet(
                self@.protocol,
                self@.protocol.cmd_set_pump_pwm,
                seq![
                    if sync {
                        1u8
                    } else {
                        0u8
                    },
                    self@.variant.pump_min_pwm,
                ],
            ),
    {
        let source: u8 = if sync {
            1
        } else {
            0
        };
        self.write_pwm(self.protocol.cmd_set_pump_pwm, source, self.variant.pump_min_pwm)
    }

    /// The pump speed last reported.
    pub fn read_pump_rpm(&self) -> (rpm: Option<u16>)
        ensures
            rpm == (match self@.last_handshake {
                Some(hs) => Some(hs.pump_rpm),
                None => None,
            }),
    {
        match self.last_handshake {
            Some(hs) => Some(hs.pump_rpm),
            None => None,
        }
    }

    /// The pump speed last reported, or zero.
    pub fn read_pump_rpm_or_zero(&self) -> (rpm: u16)
        ensures
            rpm == (match self@.last_handshake {
                Some(hs) => hs.pump_rpm,
                None => 0,
            }),
    {
        match self.read_pump_rpm() {
            Some(rpm) => rpm,
            None => 0,
        }
    }

    /// Whether initialization is through, so that the cooler takes PWM commands.
    pub fn is_ready_for_control(&self) -> (ready: bool)
        ensures
            ready == self@.control_ready,
    {
        self.control_ready
    }

    fn lcd_control(&self, mode: u8) -> (command: LcdCommand)
        requires
            self@.wf(),
        ensures
            command.cmd == self@.protocol.cmd_lcd_control,
            command.payload@ == self@.control_payload(mode),
            command.fits(self@.protocol),
    {
        let mut payload: Vec<u8> = vec![0u8; 8];
        payload[0] = mode;
        payload[1] = self.brightness;
        payload[2] = self.rotation;
        payload[7] = self.video_fps;
        assert(payload@ =~= self@.control_payload(mode));
        proof {
            lcd_packet::packet_count_is_bounded(
                payload@.len() as int,
                self.protocol.b_max_payload as int,
            );
        }
        LcdCommand { cmd: self.protocol.cmd_lcd_control, payload }
    }

    /// The command that puts the current settings on the LCD.
    pub fn apply_lcd_settings(&self) -> (command: LcdCommand)
        requires
            self@.wf(),
        ensures
            command.cmd == self@.protocol.cmd_lcd_control,
            command.payload@ == self@.control_payload(self@.protocol.mode_application),
            command.fits(self@.protocol),
    {
        self.lcd_control(self.protocol.mode_application)
    }

    /// Sets the brightness, at most 100, and gives the command for it.
    pub fn set_brightness(&mut self, brightness: u8) -> (command: LcdCommand)
        requires
            old(self)@.wf(),
        ensures
            final(self)@ == old(self)@.changed(AioChange::Brightness(brightness)),
            final(self)@.wf(),
            command.cmd == old(self)@.protocol.cmd_lcd_control,
            command.payload@ == final(self)@.control_payload(old(self)@.protocol.mode_lcd_setting),
            command.fits(old(self)@.protocol),
    {
        self.brightness = if brightness < 100 {
            brightness
        } else {
            100
        };
        self.lcd_control(self.protocol.mode_lcd_setting)
    }

    /// Sets the rotation byte and gives the command for it.
    pub fn set_rotation(&mut self, rotation: u8) -> (command: LcdCommand)
        requires
            old(self)@.wf(),
        ensures
            final(self)@ == old(self)@.changed(AioChange::Rotation(rotation)),
            final(self)@.wf(),
            command.cmd == old(self)@.protocol.cmd_lcd_control,
            command.payload@ == final(self)@.control_payload(old(self)@.protocol.mode_lcd_setting),
            command.fits(old(self)@.protocol),
    {
        self.rotation = rotation;
        self.lcd_control(self.protocol.mode_lcd_setting)
    }

    /// Sets the frame rate to the nearest one that the screen shows, and gives it.
    pub fn set_stream_fps(&mut self, rounded_fps: i32) -> (fps: u8)
        requires
            old(self)@.wf(),
        ensures
            fps == shown_fps(old(self)@.protocol, rounded_fps as int),
            final(self)@ == old(self)@.changed(AioChange::StreamFps(rounded_fps)),
            final(self)@.wf(),
    {
        let fps: u8 = if rounded_fps < 1 {
            1
        } else if rounded_fps > self.protocol.max_fps as i32 {
            self.protocol.max_fps
        } else {
            rounded_fps as u8
        };
        self.video_fps = fps;
        fps
    }

    /// Sets the frame rate and starts a loop that feeds the LCD from a reader, with the loop's first
    /// action and the frame rate.
    pub fn stream_h264_reader(&mut self, rounded_fps: i32) -> (started: (
        ReaderStream,
        StreamAction,
        u8,
    ))
        requires
            old(self)@.wf(),
        ensures
            started.0@ == reader_stream::reader_start().state,
            started.1@ == StreamOutput::PollHalt,
            started.2 == shown_fps(old(self)@.protocol, rounded_fps as int),
            final(self)@ == old(self)@.changed(AioChange::StreamFps(rounded_fps)),
            final(self)@.wf(),
    {
        let fps = self.set_stream_fps(rounded_fps);
        let (stream, action) = ReaderStream::start();
        (stream, action, fps)
    }

    /// The transfer of a command in B packets, which the device answers at the usual speed.
    pub fn send_b_command<'a>(&self, cmd: u8, data: &'a [u8]) -> (transfer: LcdTransfer<'a>)
        requires
            self@.wf(),
            lcd_packet::packet_count(data@.len() as int, self@.protocol.b_max_payload as int)
                <= u32::MAX,
        ensures
            transfer.is_b_command(self@.protocol, cmd, data@),
            0 < transfer.packets@.len(),
    {
        proof {
            lcd_packet::packet_count_is_bounded(
                data@.len() as int,
                self.protocol.b_max_payload as int,
            );
        }
        LcdTransfer {
            packets: lcd_packets(self.protocol.format_b(), cmd, data),
            ack_len: self.protocol.b_packet_size,
            ack_timeout_ms: self.protocol.read_timeout_ms,
        }
    }

    /// The transfer of a command: the one that [`HydroShiftLcdController::send_b_command`] gives for its
    /// bytes.
    pub fn send_command<'a>(&self, command: &'a LcdCommand) -> (transfer: LcdTransfer<'a>)
        requires
            self@.wf(),
            command.fits(self@.protocol),
        ensures
            transfer.is_b_command(self@.protocol, command.cmd, command.payload@),
            0 < transfer.packets@.len(),
    {
        self.send_b_command(command.cmd, command.payload.as_slice())
    }

    fn send_chunked_with<'a>(&self, cmd: u8, data: &'a [u8], format: PacketFormat) -> (transfer:
        LcdTransfer<'a>)
        requires
            self@.wf(),
            0 < format.max_payload,
            lcd_packet::packet_count(data@.len() as int, format.max_payload as int) <= u32::MAX,
        ensures
            lcd_packet::are_packets(transfer.packets@, format, cmd, data@),
            transfer.ack_len == self@.protocol.b_packet_size,
            transfer.ack_timeout_ms == self@.protocol.ack_timeout_ms,
            0 < transfer.packets@.len(),
    {
        proof {
            lcd_packet::packet_count_is_bounded(data@.len() as int, format.max_payload as int);
        }
        LcdTransfer {
            packets: lcd_packets(format, cmd, data),
            ack_len: self.protocol.b_packet_size,
            ack_timeout_ms: self.protocol.ack_timeout_ms,
        }
    }

    fn send_chunked<'a>(&self, cmd: u8, data: &'a [u8]) -> (transfer: LcdTransfer<'a>)
        requires
            self@.wf(),
            lcd_packet::packet_count(data@.len() as int, self@.video_format().max_payload as int)
                <= u32::MAX,
        ensures
            lcd_packet::are_packets(transfer.packets@, self@.video_format(), cmd, data@),
            transfer.ack_len == self@.protocol.b_packet_size,
            transfer.ack_timeout_ms == self@.protocol.ack_timeout_ms,
            0 < transfer.packets@.len(),
    {
        let format = if self.use_c_command {
            self.protocol.format_c()
        } else {
            self.protocol.format_b()
        };
        self.send_chunked_with(cmd, data, format)
    }

    /// The transfer of a JPEG picture, always in B packets.
    pub fn send_jpeg<'a>(&self, jpeg_data: &'a [u8]) -> (transfer: LcdTransfer<'a>)
        requires
            self@.wf(),
            lcd_packet::packet_count(jpeg_data@.len() as int, self@.protocol.b_max_payload as int)
                <= u32::MAX,
        ensures
            lcd_packet::are_packets(
                transfer.packets@,
                self@.protocol.spec_format_b(),
                self@.protocol.cmd_send_jpeg,
                jpeg_data@,
            ),
            transfer.ack_len == self@.protocol.b_packet_size,
            transfer.ack_timeout_ms == self@.protocol.ack_timeout_ms,
            0 < transfer.packets@.len(),
    {
        self.send_chunked_with(self.protocol.cmd_send_jpeg, jpeg_data, self.protocol.format_b())
    }

    /// The transfer of an H.264 access unit, in C packets where they are in use and in B packets
    /// elsewhere.
    pub fn send_h264_frame<'a>(&self, frame: &'a [u8]) -> (transfer: LcdTransfer<'a>)
        requires
            self@.wf(),
            lcd_packet::packet_count(frame@.len() as int, self@.video_format().max_payload as int)
                <= u32::MAX,
        ensures
            lcd_packet::are_packets(
                transfer.packets@,
                self@.video_format(),
                self@.protocol.cmd_send_h264,
                frame@,
            ),
            transfer.ack_len == self@.protocol.b_packet_size,
            transfer.ack_timeout_ms == self@.protocol.ack_timeout_ms,
            0 < transfer.packets@.len(),
    {
        self.send_chunked(self.protocol.cmd_send_h264, frame)
    }
}

/// A pump source as it goes to the device: 0 for the host, 1 for anything else.
pub open spec fn source_byte(source: u8) -> u8 {
    if source < 1 {
        source
    } else {
        1
    }
}

/// Once the firmware is known, a later reading changes nothing.
pub proof fn first_firmware_stays(
    state: AioState,
    first: Seq<char>,
    version: (u32, u32),
    later: Seq<char>,
    other: Option<(u32, u32)>,
)
    ensures
        state.with_firmware(first, Some(version)).with_firmware(later, other)
            == state.with_firmware(first, Some(version)),
{
}

/// Behind a setting of C packets, H.264 frames go in C packets if they are wanted and the firmware
/// takes them, and in B packets otherwise.
pub proof fn c_packets_follow_the_setting(state: AioState, enable: bool)
    ensures
        state.changed(AioChange::CCommand(enable)).video_format() == if enable
            && state.takes_c_commands() {
            state.protocol.spec_format_c()
        } else {
            state.protocol.spec_format_b()
        },
{
}

/// The state behind some changes.
pub open spec fn changes_run(state: AioState, changes: Seq<AioChange>) -> AioState
    decreases changes.len(),
{
    if changes.len() == 0 {
        state
    } else {
        changes_run(state, changes.drop_last()).changed(changes.last())
    }
}

/// What the last setting of C packets among some changes came to: whether they were wanted, and the
/// firmware took them by then. Without a setting they are not in use.
pub open spec fn last_c_setting(state: AioState, changes: Seq<AioChange>) -> bool
    decreases changes.len(),
{
    if changes.len() == 0 {
        false
    } else {
        match changes.last() {
            AioChange::CCommand(enable) => enable && changes_run(
                state,
                changes.drop_last(),
            ).takes_c_commands(),
            _ => last_c_setting(state, changes.drop_last()),
        }
    }
}

/// Whatever happens to a cooler, H.264 frames go in C packets if the last setting wanted them and the
/// firmware took them at that time, and in B packets otherwise: also before any setting, and whatever
/// became known since.
pub proof fn last_setting_decides_the_packets(
    protocol: AioProtocol,
    variant: AioLcdVariant,
    changes: Seq<AioChange>,
)
    ensures
        ({
            let fresh = fresh_state(protocol, variant);
            changes_run(fresh, changes).video_format() == if last_c_setting(fresh, changes) {
                protocol.spec_format_c()
            } else {
                protocol.spec_format_b()
            }
        }),
{
    setting_is_kept(fresh_state(protocol, variant), changes);
}

proof fn setting_is_kept(state: AioState, changes: Seq<AioChange>)
    requires
        !state.use_c_command,
    ensures
        changes_run(state, changes).protocol == state.protocol,
        changes_run(state, changes).use_c_command == last_c_setting(state, changes),
    decreases changes.len(),
{
    if changes.len() > 0 {
        setting_is_kept(state, changes.drop_last());
    }
}

/// A command that holds the settings of the LCD, in whichever mode, always fits a transfer.
pub proof fn settings_fit_a_transfer(state: AioState, mode: u8, command: LcdCommand)
    requires
        state.wf(),
        command.payload@ == state.control_payload(mode),
    ensures
        command.fits(state.protocol),
{
    lcd_packet::packet_count_is_bounded(
        command.payload@.len() as int,
        state.protocol.b_max_payload as int,
    );
}

/// A change sets what it is about.
pub proof fn changes_set_what_they_are_about(state: AioState, change: AioChange)
    requires
        state.wf(),
    ensures
        ({
            let new = state.changed(change);
            match change {
                AioChange::CCommand(enable) => new.use_c_command <==> enable && match (
                    state.firmware_version,
                    state.variant.c_command_min_firmware,
                ) {
                    (Some((major, minor)), (min_major, min_minor)) => major * 0x1_0000_0000 + minor
                        >= min_major * 0x1_0000_0000 + min_minor,
                    (None, _) => false,
                },
                AioChange::Firmware(text, version) => {
                    &&& new.firmware_string == if state.firmware_string is Some {
                        state.firmware_string
                    } else {
                        Some(text)
                    }
                    &&& new.firmware_version == if state.firmware_version is Some {
                        state.firmware_version
                    } else {
                        version
                    }
                },
                AioChange::Handshake(handshake) => new.last_handshake == Some(handshake),
                AioChange::Initialized => new.initialized,
                AioChange::ControlReady => new.control_ready,
                AioChange::RecoveryAttempt(now) => new.last_recovery_attempt == Some(now),
                AioChange::Availability(available) => new.lcd_unavailable_count == if available {
                    0
                } else {
                    (state.lcd_unavailable_count + 1) % 3
                },
                AioChange::Brightness(wanted) => {
                    &&& wanted <= 100 ==> new.brightness == wanted
                    &&& wanted > 100 ==> new.brightness == 100
                },
                AioChange::Rotation(rotation) => new.rotation == rotation,
                AioChange::StreamFps(fps) => {
                    &&& 1 <= fps <= state.protocol.max_fps ==> new.video_fps == fps
                    &&& fps < 1 ==> new.video_fps == 1
                    &&& fps > state.protocol.max_fps ==> new.video_fps == state.protocol.max_fps
                },
            }
        }),
{
    if let Some(version) = state.firmware_version {
        let min = state.variant.c_command_min_firmware;
        assert(at_least(version, min) <==> version.0 * 0x1_0000_0000 + version.1 >= min.0
            * 0x1_0000_0000 + min.1);
    }
}

/// A change touches nothing but what it is about.
pub proof fn changes_touch_nothing_else(state: AioState, change: AioChange)
    ensures
        ({
            let new = state.changed(change);
            &&& new.protocol == state.protocol
            &&& new.variant == state.variant
            &&& !(change is Handshake) ==> new.last_handshake == state.last_handshake
            &&& !(change is Brightness) ==> new.brightness == state.brightness
            &&& !(change is Rotation) ==> new.rotation == state.rotation
            &&& !(change is StreamFps) ==> new.video_fps == state.video_fps
            &&& !(change is Initialized) ==> new.initialized == state.initialized
            &&& !(change is ControlReady) ==> new.control_ready == state.control_ready
            &&& !(change is CCommand) ==> new.use_c_command == state.use_c_command
            &&& !(change is Firmware) ==> new.firmware_string == state.firmware_string
            &&& !(change is Firmware) ==> new.firmware_version == state.firmware_version
            &&& !(change is RecoveryAttempt) ==> new.last_recovery_attempt
                == state.last_recovery_attempt
            &&& !(change is Availability) ==> new.lcd_unavailable_count
                == state.lcd_unavailable_count
        }),
{
}

/// A cooler starts with half its brightness, upright, at its highest frame rate, in B packets, and with
/// nothing known of it.
pub proof fn fresh_coolers_are_unknown(protocol: AioProtocol, variant: AioLcdVariant)
    ensures
        ({
            let fresh = fresh_state(protocol, variant);
            &&& fresh.protocol == protocol && fresh.variant == variant
            &&& fresh.brightness == 50
            &&& fresh.rotation == protocol.rotate_0
            &&& fresh.video_fps == protocol.max_fps
            &&& !fresh.initialized && !fresh.control_ready && !fresh.use_c_command
            &&& fresh.last_handshake is None
            &&& fresh.firmware_string is None && fresh.firmware_version is None
            &&& fresh.last_recovery_attempt is None
            &&& fresh.lcd_unavailable_count == 0
        }),
{
}

/// C packets are taken from the firmware on that the variant names, and from every later one: versions
/// are ordered by their major and then by their minor number.
pub proof fn c_packets_are_taken_from_a_version_on(state: AioState)
    ensures
        state.takes_c_commands() <==> match state.firmware_version {
            Some(version) => version.0 * 0x1_0000_0000 + version.1
                >= state.variant.c_command_min_firmware.0 * 0x1_0000_0000
                + state.variant.c_command_min_firmware.1,
            None => false,
        },
        state.use_c_command ==> state.video_format().report_id == state.protocol.report_id_c
            && state.video_format().pkt_size == state.protocol.c_packet_size
            && state.video_format().max_payload == state.protocol.c_max_payload,
        !state.use_c_command ==> state.video_format().report_id == state.protocol.report_id_b
            && state.video_format().pkt_size == state.protocol.b_packet_size
            && state.video_format().max_payload == state.protocol.b_max_payload,
        state.protocol.spec_format_b().report_id == state.protocol.report_id_b,
        state.protocol.spec_format_b().pkt_size == state.protocol.b_packet_size,
        state.protocol.spec_format_b().max_payload == state.protocol.b_max_payload,
{
    if let Some(version) = state.firmware_version {
        let min = state.variant.c_command_min_firmware;
        assert(at_least(version, min) <==> version.0 * 0x1_0000_0000 + version.1 >= min.0
            * 0x1_0000_0000 + min.1);
    }
}

/// The settings of the LCD go out as eight bytes: the mode, the brightness, the rotation, and the frame
/// rate at the end, with zeros between.
pub proof fn settings_go_out_as_they_stand(state: AioState, mode: u8)
    ensures
        ({
            let payload = state.control_payload(mode);
            &&& payload.len() == 8
            &&& payload[0] == mode
            &&& payload[1] == state.brightness
            &&& payload[2] == state.rotation
            &&& payload[7] == state.video_fps
            &&& forall|i: int| 3 <= i < 7 ==> #[trigger] payload[i] == 0
        }),
{
}

/// The temperature is the one that was last reported, as it was reported. It counts as not measured when
/// it is zero, or when it is one degree with fan and pump both at rest, and in no other case.
pub proof fn temperatures_are_passed_on(state: AioState)
    ensures
        match state.last_handshake {
            None => state.coolant_decidegrees() is None,
            Some(hs) => {
                let placeholder = hs.coolant_decidegrees == 10 && hs.fan_rpm == 0 && hs.pump_rpm
                    == 0;
                if hs.coolant_decidegrees == 0 || placeholder {
                    state.coolant_decidegrees() is None
                } else {
                    state.coolant_decidegrees() == Some(hs.coolant_decidegrees)
                }
            },
        },
{
}

/// The pump is set to the percentage that was asked for, and never below the variant's floor; a higher
/// wish never gives a lower speed.
pub proof fn pump_keeps_its_floor(state: AioState, low: u8, high: u8)
    requires
        low <= high,
    ensures
        state.variant.pump_min_pwm <= state.pump_pwm(low) <= state.pump_pwm(high),
        state.variant.pump_min_pwm <= low ==> state.pump_pwm(low) == low,
        low <= state.variant.pump_min_pwm ==> state.pump_pwm(low) == state.variant.pump_min_pwm,
{
}

/// The fans are set to the percentage that was asked for; those of the HydroShift LCD RGB to its place
/// on their narrower range.
pub proof fn fans_take_the_percentage(state: AioState, percent: u8)
    ensures
        !state.variant.is_hydroshift_lcd_rgb ==> state.fan_pwm(percent) == percent,
        state.variant.is_hydroshift_lcd_rgb ==> state.fan_pwm(percent)
            == aio_protocol::remapped_fan_pwm(percent as int),
{
    aio_protocol::remapping_is_a_line(percent as int);
    aio_protocol::remapping_keeps_order(0, percent as int);
}

/// The pump follows the host at source 0, and the motherboard at any other.
pub proof fn sources_are_two(source: u8)
    ensures
        source == 0 <==> source_byte(source) == 0,
        source != 0 <==> source_byte(source) == 1,
{
}

/// The frame rate that is shown is the nearest to the wanted one between 1 and the highest.
pub proof fn shown_frame_rate_is_the_nearest(protocol: AioProtocol, fps: int, other: int)
    requires
        protocol.wf(),
        1 <= other <= protocol.max_fps,
    ensures
        1 <= shown_fps(protocol, fps) <= protocol.max_fps,
        fps <= shown_fps(protocol, fps) ==> shown_fps(protocol, fps) - fps <= if other < fps {
            fps - other
        } else {
            other - fps
        },
        shown_fps(protocol, fps) <= fps ==> fps - shown_fps(protocol, fps) <= if other < fps {
            fps - other
        } else {
            other - fps
        },
{
}

/// A command in B packets is cut into packets with the B report id and size, and waits for an
/// acknowledgement of one B packet during the usual read timeout.
pub proof fn b_commands_wait_as_usual(
    transfer: LcdTransfer<'_>,
    protocol: AioProtocol,
    cmd: u8,
    data: Seq<u8>,
    k: int,
)
    requires
        protocol.wf(),
        transfer.is_b_command(protocol, cmd, data),
        0 <= k < transfer.packets@.len(),
    ensures
        transfer.ack_len == protocol.b_packet_size,
        transfer.ack_timeout_ms == protocol.read_timeout_ms,
        transfer.packets@[k].report_id == protocol.report_id_b,
        transfer.packets@[k].pkt_size == protocol.b_packet_size,
        transfer.packets@[k].cmd == cmd,
        transfer.packets@[k].packet_num == k,
        transfer.packets@[k].payload@.len() <= protocol.b_max_payload,
{
    lcd_packet::packets_are_numbered(transfer.packets@, protocol.spec_format_b(), cmd, data);
    assert(lcd_packet::is_packet(
        transfer.packets@[k],
        protocol.spec_format_b(),
        cmd,
        data,
        k,
    ));
}

} // verus!
