//! WinUSB LCD panels: which panel a product id stands for, which driver it takes, and what the
//! HydroShift II driver asks of the transport.
//!
//! Device families differ in timeouts and in how they are set up, and share a transport core. A
//! driver's methods give the steps to perform on that core, in order.

use vstd::prelude::*;
use crate::device_id::{DeviceFamily, ScreenModel};

verus! {

/// Identifies an open transport. A copy stands for the same transport.
#[derive(Clone, Copy, Debug, PartialEq, Eq, Structural)]
pub struct SharedTransport {
    pub handle: u64,
}

/// Why a panel could not be opened.
#[derive(Clone, Copy, Debug, PartialEq, Eq, Structural)]
pub enum WinUsbError {
    /// No WinUSB LCD has this product id.
    UnknownPid(u16),
    /// No driver takes this product id.
    NoVariant(u16),
    /// The transport could not be opened.
    OpenFailed,
}

/// The drivers.
#[derive(Clone, Copy, Debug, PartialEq, Eq, Structural)]
pub enum WinUsbVariant {
    /// HydroShift II LCD Circle and Square.
    H2,
    Other(OtherVariant),
}

/// The drivers other than the HydroShift II one.
#[derive(Clone, Copy, Debug, PartialEq, Eq, Structural)]
pub enum OtherVariant {
    /// Lancool 207.
    Base,
    /// HydroShift II OLED Curve.
    Hs2Oled,
    /// Universal Screen, Vision and Flex.
    Slv3,
}

/// The panel that a product id stands for: its screen, family and name.
pub open spec fn panel_of(pid: u16) -> Option<(ScreenModel, DeviceFamily, Seq<char>)> {
    if pid == 0xA021 {
        Some((ScreenModel::HydroShift2, DeviceFamily::HydroShift2Lcd, "HydroShift II LCD Circle"@))
    } else if pid == 0xA034 {
        Some((ScreenModel::HydroShift2, DeviceFamily::HydroShift2Lcd, "HydroShift II LCD Square"@))
    } else if pid == 0xA065 {
        Some((ScreenModel::Lancool207, DeviceFamily::Lancool207, "Lancool 207 Digital"@))
    } else if pid == 0xA088 {
        Some(
            (
                ScreenModel::UniversalScreen,
                DeviceFamily::UniversalScreen,
                "Universal Screen 8.8\""@,
            ),
        )
    } else if pid == 0xA092 {
        Some((ScreenModel::Vision9p2, DeviceFamily::Vision9p2, "Vision 9.2\""@))
    } else if pid == 0xA018 {
        Some((ScreenModel::FlexLcd, DeviceFamily::TlFlexLcd, "TL Flex LCD"@))
    } else if pid == 0xA019 {
        Some((ScreenModel::FlexLcd, DeviceFamily::SlInfFlexLcd, "SL Infinity Flex LCD"@))
    } else if pid == 0xA068 {
        Some(
            (
                ScreenModel::HydroShift2OledCurve,
                DeviceFamily::HydroShift2OledCurveLcd,
                "HydroShift II OLED Curve"@,
            ),
        )
    } else {
        None
    }
}

/// Looks up the screen, family and name of the panel with a product id.
pub fn screen_for_pid(pid: u16) -> (panel: Option<(ScreenModel, DeviceFamily, &'static str)>)
    ensures
        match (panel, panel_of(pid)) {
            (Some((screen, family, name)), Some(known)) => (screen, family, name@) == known,
            (None, None) => true,
            _ => false,
        },
{
    match pid {
        0xA021 => Some(
            (ScreenModel::HydroShift2, DeviceFamily::HydroShift2Lcd, "HydroShift II LCD Circle"),
        ),
        0xA034 => Some(
            (ScreenModel::HydroShift2, DeviceFamily::HydroShift2Lcd, "HydroShift II LCD Square"),
        ),
        0xA065 => Some((ScreenModel::Lancool207, DeviceFamily::Lancool207, "Lancool 207 Digital")),
        0xA088 => Some(
            (
                ScreenModel::UniversalScreen,
                DeviceFamily::UniversalScreen,
                "Universal Screen 8.8\"",
            ),
        ),
        0xA092 => Some((ScreenModel::Vision9p2, DeviceFamily::Vision9p2, "Vision 9.2\"")),
        0xA018 => Some((ScreenModel::FlexLcd, DeviceFamily::TlFlexLcd, "TL Flex LCD")),
        0xA019 => Some((ScreenModel::FlexLcd, DeviceFamily::SlInfFlexLcd, "SL Infinity Flex LCD")),
        0xA068 => Some(
            (
                ScreenModel::HydroShift2OledCurve,
                DeviceFamily::HydroShift2OledCurveLcd,
                "HydroShift II OLED Curve",
            ),
        ),
        _ => None,
    }
}

/// A HydroShift II LCD, which carries fan, pump and light control besides the panel.
pub open spec fn is_h2(pid: u16) -> bool {
    pid == 0xA021 || pid == 0xA034
}

/// The driver for a product id that stands for a panel.
pub open spec fn variant_of(pid: u16) -> WinUsbVariant {
    if pid == 0xA068 {
        WinUsbVariant::Other(OtherVariant::Hs2Oled)
    } else if is_h2(pid) {
        WinUsbVariant::H2
    } else if pid == 0xA065 {
        WinUsbVariant::Other(OtherVariant::Base)
    } else {
        WinUsbVariant::Other(OtherVariant::Slv3)
    }
}

/// How long writes and reads may take, in milliseconds.
#[derive(Clone, Copy, Debug, PartialEq, Eq, Structural)]
pub struct Timeouts {
    pub write_ms: u64,
    pub read_ms: u64,
}

/// What a transport is opened with.
pub struct OpeningState {
    pub pid: u16,
    pub variant: WinUsbVariant,
    pub screen: ScreenModel,
    pub name: Seq<char>,
    /// The timeouts of the HydroShift II driver; other drivers see to theirs themselves.
    pub timeouts: Option<Timeouts>,
}

/// What the transport of a known panel is opened with.
pub open spec fn opening_of(pid: u16) -> OpeningState {
    let known = panel_of(pid)->0;
    OpeningState {
        pid,
        variant: variant_of(pid),
        screen: known.0,
        name: known.2,
        timeouts: if is_h2(pid) {
            Some(Timeouts { write_ms: H2_WRITE_TIMEOUT_MS, read_ms: H2_READ_TIMEOUT_MS })
        } else {
            None
        },
    }
}

impl OpeningState {
    /// It is that of a known panel.
    pub open spec fn wf(self) -> bool {
        panel_of(self.pid) is Some && self == opening_of(self.pid)
    }
}

/// A known panel whose transport is to be opened.
pub struct PanelOpening {
    pid: u16,
    variant: WinUsbVariant,
    screen: ScreenModel,
    name: &'static str,
    timeouts: Option<Timeouts>,
}

impl View for PanelOpening {
    type V = OpeningState;

    closed spec fn view(&self) -> OpeningState {
        OpeningState {
            pid: self.pid,
            variant: self.variant,
            screen: self.screen,
            name: self.name@,
            timeouts: self.timeouts,
        }
    }
}

impl PanelOpening {
    /// The product id.
    pub fn pid(&self) -> (pid: u16)
        ensures
            pid == self@.pid,
    {
        self.pid
    }

    /// The driver.
    pub fn variant(&self) -> (variant: WinUsbVariant)
        ensures
            variant == self@.variant,
    {
        self.variant
    }

    /// The screen.
    pub fn screen(&self) -> (screen: ScreenModel)
        ensures
            screen == self@.screen,
    {
        self.screen
    }

    /// The name.
    pub fn name(&self) -> (name: &'static str)
        ensures
            name@ == self@.name,
    {
        self.name
    }

    /// The timeouts, where the driver has them from here.
    pub fn timeouts(&self) -> (timeouts: Option<Timeouts>)
        ensures
            timeouts == self@.timeouts,
    {
        self.timeouts
    }
}

/// Chooses the driver for a product id, and says what its transport is to be opened with. A product id
/// that is not known is refused before anything is opened.
pub fn make_device(pid: u16) -> (opening: Result<PanelOpening, WinUsbError>)
    ensures
        match (panel_of(pid), opening) {
            (Some(_), Ok(opening)) => opening@ == opening_of(pid) && opening@.wf(),
            (None, Err(error)) => error == WinUsbError::UnknownPid(pid),
            _ => false,
        },
{
    let (screen, name) = match screen_for_pid(pid) {
        Some((screen, _, name)) => (screen, name),
        None => {
            return Err(WinUsbError::UnknownPid(pid));
        },
    };
    let variant = match pid {
        0xA068 => WinUsbVariant::Other(OtherVariant::Hs2Oled),
        0xA021 | 0xA034 => WinUsbVariant::H2,
        0xA065 => WinUsbVariant::Other(OtherVariant::Base),
        0xA088 | 0xA092 | 0xA018 | 0xA019 => WinUsbVariant::Other(OtherVariant::Slv3),
        _ => {
            return Err(WinUsbError::NoVariant(pid));
        },
    };
    let timeouts = match variant {
        WinUsbVariant::H2 => Some(
            Timeouts { write_ms: H2_WRITE_TIMEOUT_MS, read_ms: H2_READ_TIMEOUT_MS },
        ),
        WinUsbVariant::Other(_) => None,
    };
    Ok(PanelOpening { pid, variant, screen, name, timeouts })
}

/// A step on the transport core.
#[derive(Clone, Copy, Debug)]
pub enum LcdStep<'a> {
    InitLogging,
    ResetFailureState,
    ReadFirmware,
    /// Frames per second.
    SetFrameRate(u32),
    /// Send a clock synchronisation command with this argument.
    SyncClock(u8),
    StopClock,
    /// Announce the frame rate of a stream, as the bits of a 32-bit float.
    ApplyStreamFps { fps_bits: u32 },
    SendFrame(&'a [u8]),
    SendFrameVerified(&'a [u8]),
    SetBrightness(u8),
    SwitchToDesktopMode,
    /// Play the file at a path, with the play count of the screen and an option of the driver.
    StreamFile { path: &'a [u8], looping: bool, fps_bits: u32, screen: ScreenModel, option: u8 },
    /// Play what the caller's reader gives, with the play count of the screen and an option of the
    /// driver.
    StreamReader { screen: ScreenModel, option: u8 },
    /// Release a transport.
    Release(SharedTransport),
    /// Leave it to a driver other than the HydroShift II one.
    Variant(OtherVariant, VariantCall<'a>),
}

/// A call of a driver other than the HydroShift II one.
#[derive(Clone, Copy, Debug)]
pub enum VariantCall<'a> {
    Initialize,
    SendFrame(&'a [u8]),
    SendFrameVerified(&'a [u8]),
    SetBrightness(u8),
    SwitchToDesktopMode,
    StreamFile { path: &'a [u8], looping: bool, fps_bits: u32 },
    StreamReader { fps_bits: u32 },
}

/// A step whose failure ends the call with that failure. Any other step's failure is passed over.
pub open spec fn is_fatal(step: LcdStep<'_>) -> bool {
    match step {
        LcdStep::InitLogging
        | LcdStep::ResetFailureState
        | LcdStep::ReadFirmware
        | LcdStep::SetFrameRate(_)
        | LcdStep::SyncClock(_)
        | LcdStep::StopClock
        | LcdStep::Release(_) => false,
        _ => true,
    }
}

/// Whether a step's failure ends the call.
pub fn ends_call_on_failure(step: &LcdStep<'_>) -> (fatal: bool)
    ensures
        fatal == is_fatal(*step),
{
    match step {
        LcdStep::InitLogging
        | LcdStep::ResetFailureState
        | LcdStep::ReadFirmware
        | LcdStep::SetFrameRate(_)
        | LcdStep::SyncClock(_)
        | LcdStep::StopClock
        | LcdStep::Release(_) => false,
        _ => true,
    }
}

/// How long a HydroShift II panel may take for a write.
pub const H2_WRITE_TIMEOUT_MS: u64 = 200;

/// How long a HydroShift II panel may take for a read.
pub const H2_READ_TIMEOUT_MS: u64 = 2000;

/// The frame rate that a HydroShift II panel is set up with.
pub const H2_FRAME_RATE: u32 = 30;

/// The option with which a HydroShift II panel plays streams.
pub const H2_PLAY_OPTION: u8 = 0;

/// What is known of a panel.
pub struct PanelState {
    pub transport: SharedTransport,
    pub screen: ScreenModel,
    pub name: Seq<char>,
    pub initialized: bool,
    pub firmware: Option<Seq<char>>,
}

/// A panel that has just been opened.
pub open spec fn fresh_panel(
    transport: SharedTransport,
    screen: ScreenModel,
    name: Seq<char>,
) -> PanelState {
    PanelState { transport, screen, name, initialized: false, firmware: None }
}

/// The steps that set a HydroShift II panel up. Its layers are not cleared: that would paint the
/// panel black even if nothing is drawn afterwards.
pub open spec fn h2_setup<'a>() -> Seq<LcdStep<'a>> {
    seq![
        LcdStep::InitLogging,
        LcdStep::ResetFailureState,
        LcdStep::ReadFirmware,
        LcdStep::SetFrameRate(H2_FRAME_RATE),
        LcdStep::SyncClock(2),
        LcdStep::StopClock,
    ]
}

/// The steps that come before any other: the setup, unless it has been done.
pub open spec fn h2_setup_if_due<'a>(panel: PanelState) -> Seq<LcdStep<'a>> {
    if panel.initialized {
        Seq::empty()
    } else {
        h2_setup()
    }
}

/// A HydroShift II LCD panel.
pub struct H2WinUsbLcd {
    transport: SharedTransport,
    screen: ScreenModel,
    name: String,
    initialized: bool,
    firmware: Option<String>,
}

impl View for H2WinUsbLcd {
    type V = PanelState;

    closed spec fn view(&self) -> PanelState {
        PanelState {
            transport: self.transport,
            screen: self.screen,
            name: self.name@,
            initialized: self.initialized,
            firmware: match self.firmware {
                Some(text) => Some(text@),
                None => None,
            },
        }
    }
}

impl H2WinUsbLcd {
    /// A panel behind a transport that is open.
    pub fn from_shared(transport: SharedTransport, screen: ScreenModel, name: String) -> (lcd: Self)
        ensures
            lcd@ == fresh_panel(transport, screen, name@),
    {
        H2WinUsbLcd { transport, screen, name, initialized: false, firmware: None }
    }

    /// A panel whose transport was opened for it, if it could be.
    pub fn new(opened: Option<SharedTransport>, screen: ScreenModel, name: &str) -> (lcd: Result<
        Self,
        WinUsbError,
    >)
        ensures
            match (opened, lcd) {
                (Some(transport), Ok(lcd)) => lcd@ == fresh_panel(transport, screen, name@),
                (None, Err(error)) => error == WinUsbError::OpenFailed,
                _ => false,
            },
    {
        match opened {
            Some(transport) => Ok(H2WinUsbLcd::from_shared(transport, screen, name.to_owned())),
            None => Err(WinUsbError::OpenFailed),
        }
    }

    /// The steps that set the panel up. None of them can fail the setup, so the panel counts as set
    /// up once they are given out.
    fn do_init<'a>(&mut self) -> (steps: Vec<LcdStep<'a>>)
        ensures
            steps@ == h2_setup::<'a>(),
            final(self)@ == (PanelState { initialized: true, ..old(self)@ }),
    {
        let mut steps: Vec<LcdStep<'a>> = Vec::new();
        steps.push(LcdStep::InitLogging);
        steps.push(LcdStep::ResetFailureState);
        steps.push(LcdStep::ReadFirmware);
        steps.push(LcdStep::SetFrameRate(H2_FRAME_RATE));
        steps.push(LcdStep::SyncClock(2));
        steps.push(LcdStep::StopClock);
        self.initialized = true;
        assert(steps@ =~= h2_setup::<'a>());
        steps
    }

    /// Sets the panel up, unless that has been done.
    pub fn initialize<'a>(&mut self) -> (steps: Vec<LcdStep<'a>>)
        ensures
            steps@ == h2_setup_if_due::<'a>(old(self)@),
            final(self)@ == (PanelState { initialized: true, ..old(self)@ }),
    {
        if self.initialized {
            return Vec::new();
        }
        self.do_init()
    }

    /// The screen.
    pub fn screen_info(&self) -> (screen: ScreenModel)
        ensures
            screen == self@.screen,
    {
        self.screen
    }

    /// The name.
    pub fn name(&self) -> (name: &str)
        ensures
            name@ == self@.name,
    {
        self.name.as_str()
    }

    /// The firmware, once the panel has told it.
    pub fn firmware_str(&self) -> (text: Option<&str>)
        ensures
            match (text, self@.firmware) {
                (Some(text), Some(told)) => text@ == told,
                (None, None) => true,
                _ => false,
            },
    {
        match &self.firmware {
            Some(text) => Some(text.as_str()),
            None => None,
        }
    }

    /// Records what the step [`LcdStep::ReadFirmware`] brought.
    pub fn record_firmware(&mut self, firmware: Option<String>)
        ensures
            final(self)@ == (PanelState {
                firmware: match firmware {
                    Some(text) => Some(text@),
                    None => None,
                },
                ..old(self)@
            }),
    {
        self.firmware = firmware;
    }

    /// The transport, to be shared.
    pub fn shared_transport(&self) -> (transport: SharedTransport)
        ensures
            transport == self@.transport,
    {
        self.transport
    }

    /// Shows a picture.
    pub fn send_frame<'a>(&mut self, frame: &'a [u8]) -> (steps: Vec<LcdStep<'a>>)
        ensures
            steps@ == h2_setup_if_due::<'a>(old(self)@).push(LcdStep::SendFrame(frame)),
            final(self)@ == (PanelState { initialized: true, ..old(self)@ }),
    {
        let mut steps = self.initialize();
        steps.push(LcdStep::SendFrame(frame));
        steps
    }

    /// Shows a picture and makes sure that it arrived.
    pub fn send_frame_verified<'a>(&mut self, frame: &'a [u8]) -> (steps: Vec<LcdStep<'a>>)
        ensures
            steps@ == h2_setup_if_due::<'a>(old(self)@).push(LcdStep::SendFrameVerified(frame)),
            final(self)@ == (PanelState { initialized: true, ..old(self)@ }),
    {
        let mut steps = self.initialize();
        steps.push(LcdStep::SendFrameVerified(frame));
        steps
    }

    /// Sets the brightness; the panel need not have been set up.
    pub fn set_brightness_val<'a>(&self, brightness: u8) -> (steps: Vec<LcdStep<'a>>)
        ensures
            steps@ == seq![LcdStep::<'a>::SetBrightness(brightness)],
    {
        let mut steps: Vec<LcdStep<'a>> = Vec::new();
        steps.push(LcdStep::SetBrightness(brightness));
        steps
    }

    /// Hands the panel back to its desktop mode; it need not have been set up.
    pub fn switch_to_desktop_mode<'a>(&self) -> (steps: Vec<LcdStep<'a>>)
        ensures
            steps@ == seq![LcdStep::<'a>::SwitchToDesktopMode],
    {
        let mut steps: Vec<LcdStep<'a>> = Vec::new();
        steps.push(LcdStep::SwitchToDesktopMode);
        steps
    }

    /// Plays a file.
    pub fn stream_h264<'a>(&mut self, path: &'a [u8], looping: bool, fps_bits: u32) -> (steps: Vec<
        LcdStep<'a>,
    >)
        ensures
            steps@ == h2_setup_if_due::<'a>(old(self)@).push(
                LcdStep::ApplyStreamFps { fps_bits },
            ).push(
                LcdStep::StreamFile {
                    path,
                    looping,
                    fps_bits,
                    screen: old(self)@.screen,
                    option: H2_PLAY_OPTION,
                },
            ),
            final(self)@ == (PanelState { initialized: true, ..old(self)@ }),
    {
        let mut steps = self.initialize();
        steps.push(LcdStep::ApplyStreamFps { fps_bits });
        steps.push(
            LcdStep::StreamFile {
                path,
                looping,
                fps_bits,
                screen: self.screen,
                option: H2_PLAY_OPTION,
            },
        );
        steps
    }

    /// Plays what a reader gives.
    pub fn stream_h264_reader<'a>(&mut self, fps_bits: u32) -> (steps: Vec<LcdStep<'a>>)
        ensures
            steps@ == h2_setup_if_due::<'a>(old(self)@).push(
                LcdStep::ApplyStreamFps { fps_bits },
            ).push(LcdStep::StreamReader { screen: old(self)@.screen, option: H2_PLAY_OPTION }),
            final(self)@ == (PanelState { initialized: true, ..old(self)@ }),
    {
        let mut steps = self.initialize();
        steps.push(LcdStep::ApplyStreamFps { fps_bits });
        steps.push(LcdStep::StreamReader { screen: self.screen, option: H2_PLAY_OPTION });
        steps
    }
}

/// There are eight panels, each with its product id: two HydroShift II LCDs, and one of every other
/// family. The screen is that of the family, and the Flex panels share one.
pub proof fn families_have_their_product_ids(pid: u16)
    ensures
        panel_of(pid) is Some <==> pid == 0xA018 || pid == 0xA019 || pid == 0xA021 || pid == 0xA034
            || pid == 0xA065 || pid == 0xA068 || pid == 0xA088 || pid == 0xA092,
        panel_of(pid) matches Some((screen, family, name)) ==> {
            &&& family == DeviceFamily::HydroShift2Lcd <==> pid == 0xA021 || pid == 0xA034
            &&& family == DeviceFamily::HydroShift2OledCurveLcd <==> pid == 0xA068
            &&& family == DeviceFamily::Lancool207 <==> pid == 0xA065
            &&& family == DeviceFamily::UniversalScreen <==> pid == 0xA088
            &&& family == DeviceFamily::Vision9p2 <==> pid == 0xA092
            &&& family == DeviceFamily::TlFlexLcd <==> pid == 0xA018
            &&& family == DeviceFamily::SlInfFlexLcd <==> pid == 0xA019
            &&& screen == match family {
                DeviceFamily::HydroShift2Lcd => ScreenModel::HydroShift2,
                DeviceFamily::HydroShift2OledCurveLcd => ScreenModel::HydroShift2OledCurve,
                DeviceFamily::Lancool207 => ScreenModel::Lancool207,
                DeviceFamily::UniversalScreen => ScreenModel::UniversalScreen,
                DeviceFamily::Vision9p2 => ScreenModel::Vision9p2,
                _ => ScreenModel::FlexLcd,
            }
            &&& name == match family {
                DeviceFamily::HydroShift2Lcd => if pid == 0xA021 {
                    "HydroShift II LCD Circle"@
                } else {
                    "HydroShift II LCD Square"@
                },
                DeviceFamily::HydroShift2OledCurveLcd => "HydroShift II OLED Curve"@,
                DeviceFamily::Lancool207 => "Lancool 207 Digital"@,
                DeviceFamily::UniversalScreen => "Universal Screen 8.8\""@,
                DeviceFamily::Vision9p2 => "Vision 9.2\""@,
                DeviceFamily::TlFlexLcd => "TL Flex LCD"@,
                _ => "SL Infinity Flex LCD"@,
            }
        },
{
}

/// A panel takes the driver of its family: the HydroShift II LCDs, the OLED Curve and the Lancool 207
/// each have one, and all others share one. Only the first of them is opened with timeouts from here: a
/// fifth of a second for writes and two seconds for reads.
pub proof fn families_have_their_drivers(pid: u16)
    requires
        panel_of(pid) is Some,
    ensures
        ({
            let (screen, family, name) = panel_of(pid)->0;
            let opening = opening_of(pid);
            &&& variant_of(pid) == match family {
                DeviceFamily::HydroShift2Lcd => WinUsbVariant::H2,
                DeviceFamily::HydroShift2OledCurveLcd => WinUsbVariant::Other(
                    OtherVariant::Hs2Oled,
                ),
                DeviceFamily::Lancool207 => WinUsbVariant::Other(OtherVariant::Base),
                _ => WinUsbVariant::Other(OtherVariant::Slv3),
            }
            &&& is_h2(pid) <==> family == DeviceFamily::HydroShift2Lcd
            &&& opening.pid == pid
            &&& opening.variant == variant_of(pid)
            &&& opening.screen == screen
            &&& opening.name == name
            &&& opening.timeouts == if family == DeviceFamily::HydroShift2Lcd {
                Some(Timeouts { write_ms: 200, read_ms: 2000 })
            } else {
                None
            }
        }),
{
}

/// A call fails with the steps that it was made for: a picture, a stream and its frame rate, a
/// brightness, a switch, and what is left to another driver. The steps of the setup, and giving a
/// transport back, cannot fail it.
pub proof fn calls_fail_with_what_they_were_made_for(step: LcdStep<'_>)
    ensures
        is_fatal(step) <==> (step is ApplyStreamFps || step is SendFrame || step is SendFrameVerified
            || step is SetBrightness || step is SwitchToDesktopMode || step is StreamFile
            || step is StreamReader || step is Variant),
{
}

/// The setup of a HydroShift II panel comes first in whatever needs it, as long as it has not been
/// done: logging, the count of failures, the firmware, thirty frames a second, and the clock, which is
/// set and then stopped.
pub proof fn setup_comes_first_and_once<'a>(panel: PanelState)
    ensures
        panel.initialized ==> h2_setup_if_due::<'a>(panel).len() == 0,
        !panel.initialized ==> {
            let steps = h2_setup_if_due::<'a>(panel);
            &&& steps.len() == 6
            &&& steps[0] is InitLogging
            &&& steps[1] is ResetFailureState
            &&& steps[2] is ReadFirmware
            &&& steps[3] == LcdStep::<'a>::SetFrameRate(30)
            &&& steps[4] == LcdStep::<'a>::SyncClock(2)
            &&& steps[5] is StopClock
        },
        h2_setup::<'a>().len() == 6,
        H2_PLAY_OPTION == 0,
{
}

/// A panel that has just been opened is behind its transport, and has neither been set up nor told its
/// firmware.
pub proof fn fresh_panels_are_not_set_up(
    transport: SharedTransport,
    screen: ScreenModel,
    name: Seq<char>,
)
    ensures
        ({
            let panel = fresh_panel(transport, screen, name);
            &&& panel.transport == transport
            &&& panel.screen == screen
            &&& panel.name == name
            &&& !panel.initialized
            &&& panel.firmware is None
        }),
{
}

} // verus!
