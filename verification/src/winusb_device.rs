//! Any WinUSB LCD panel, whichever driver it takes, and the entry point that opens one.

use vstd::prelude::*;
use crate::device_id::{DeviceFamily, ScreenModel};
use crate::winusb_lcd;
use crate::winusb_lcd::{
    make_device, screen_for_pid, H2WinUsbLcd, LcdStep, OtherVariant, PanelOpening, PanelState,
    SharedTransport, VariantCall, WinUsbError, WinUsbVariant, H2_PLAY_OPTION,
};

verus! {

/// A panel that takes a driver other than the HydroShift II one. Its driver keeps track of the setup
/// itself.
struct OtherWinUsbLcd {
    variant: OtherVariant,
    transport: SharedTransport,
    screen: ScreenModel,
    name: String,
    firmware: Option<String>,
}

enum BoxedWinUsbLcd {
    H2(H2WinUsbLcd),
    Other(OtherWinUsbLcd),
}

/// A WinUSB LCD panel.
pub struct WinUsbLcdDevice {
    lcd: BoxedWinUsbLcd,
}

/// What is known of a panel, and which driver it takes.
pub struct DeviceState {
    pub variant: WinUsbVariant,
    pub panel: PanelState,
}

impl View for WinUsbLcdDevice {
    type V = DeviceState;

    closed spec fn view(&self) -> DeviceState {
        match self.lcd {
            BoxedWinUsbLcd::H2(lcd) => DeviceState { variant: WinUsbVariant::H2, panel: lcd@ },
            BoxedWinUsbLcd::Other(lcd) => DeviceState {
                variant: WinUsbVariant::Other(lcd.variant),
                panel: PanelState {
                    transport: lcd.transport,
                    screen: lcd.screen,
                    name: lcd.name@,
                    initialized: false,
                    firmware: match lcd.firmware {
                        Some(text) => Some(text@),
                        None => None,
                    },
                },
            },
        }
    }
}

/// A panel that has just been opened.
pub open spec fn opened_device(transport: SharedTransport, pid: u16) -> DeviceState {
    let known = winusb_lcd::panel_of(pid)->0;
    DeviceState {
        variant: winusb_lcd::variant_of(pid),
        panel: winusb_lcd::fresh_panel(transport, known.0, known.2),
    }
}

impl DeviceState {
    /// The HydroShift II driver has set its panel up; other drivers see to that themselves.
    pub open spec fn set_up(self) -> DeviceState {
        match self.variant {
            WinUsbVariant::H2 => DeviceState {
                panel: PanelState { initialized: true, ..self.panel },
                ..self
            },
            WinUsbVariant::Other(_) => self,
        }
    }

    /// The steps of a call: those of the HydroShift II driver behind its setup, or the call itself
    /// for another driver.
    pub open spec fn steps<'a>(self, own: Seq<LcdStep<'a>>, call: VariantCall<'a>) -> Seq<
        LcdStep<'a>,
    > {
        match self.variant {
            WinUsbVariant::H2 => winusb_lcd::h2_setup_if_due(self.panel) + own,
            WinUsbVariant::Other(variant) => seq![LcdStep::Variant(variant, call)],
        }
    }

    /// The steps of a call that needs no setup.
    pub open spec fn plain_steps<'a>(self, own: LcdStep<'a>, call: VariantCall<'a>) -> Seq<
        LcdStep<'a>,
    > {
        match self.variant {
            WinUsbVariant::H2 => seq![own],
            WinUsbVariant::Other(variant) => seq![LcdStep::Variant(variant, call)],
        }
    }
}

fn left_to<'a>(variant: OtherVariant, call: VariantCall<'a>) -> (steps: Vec<LcdStep<'a>>)
    ensures
        steps@ == seq![LcdStep::Variant(variant, call)],
{
    let mut steps: Vec<LcdStep<'a>> = Vec::new();
    steps.push(LcdStep::Variant(variant, call));
    steps
}

impl WinUsbLcdDevice {
    /// Starts to open the panel with a product id: says what its transport is to be opened with.
    /// [`PanelOpening::opened`] goes on from there.
    pub fn open(pid: u16) -> (opening: Result<PanelOpening, WinUsbError>)
        ensures
            match (winusb_lcd::panel_of(pid), opening) {
                (Some(_), Ok(opening)) => opening@ == winusb_lcd::opening_of(pid)
                    && opening@.wf(),
                (None, Err(error)) => error == WinUsbError::UnknownPid(pid),
                _ => false,
            },
    {
        make_device(pid)
    }

    /// The panel with a product id, behind a transport that is shared with others.
    pub fn from_shared_transport(transport: SharedTransport, pid: u16) -> (device: Result<
        Self,
        WinUsbError,
    >)
        ensures
            match (winusb_lcd::panel_of(pid), device) {
                (Some(_), Ok(device)) => device@ == opened_device(transport, pid),
                (None, Err(error)) => error == WinUsbError::UnknownPid(pid),
                _ => false,
            },
    {
        let (screen, name) = match screen_for_pid(pid) {
            Some((screen, _, name)) => (screen, name.to_owned()),
            None => {
                return Err(WinUsbError::UnknownPid(pid));
            },
        };
        let variant = match pid {
            0xA068 => WinUsbVariant::Other(OtherVariant::Hs2Oled),
            0xA021 | 0xA034 => WinUsbVariant::H2,
            0xA065 => WinUsbVariant::Other(OtherVariant::Base),
            _ => WinUsbVariant::Other(OtherVariant::Slv3),
        };
        let lcd = match variant {
            WinUsbVariant::H2 => BoxedWinUsbLcd::H2(
                H2WinUsbLcd::from_shared(transport, screen, name),
            ),
            WinUsbVariant::Other(variant) => BoxedWinUsbLcd::Other(
                OtherWinUsbLcd { variant, transport, screen, name, firmware: None },
            ),
        };
        Ok(WinUsbLcdDevice { lcd })
    }

    /// The driver.
    pub fn variant(&self) -> (variant: WinUsbVariant)
        ensures
            variant == self@.variant,
    {
        match &self.lcd {
            BoxedWinUsbLcd::H2(_) => WinUsbVariant::H2,
            BoxedWinUsbLcd::Other(lcd) => WinUsbVariant::Other(lcd.variant),
        }
    }

    /// The transport, to be shared.
    pub fn shared_transport(&self) -> (transport: SharedTransport)
        ensures
            transport == self@.panel.transport,
    {
        match &self.lcd {
            BoxedWinUsbLcd::H2(lcd) => lcd.shared_transport(),
            BoxedWinUsbLcd::Other(lcd) => lcd.transport,
        }
    }

    /// The firmware, once the panel has told it.
    pub fn firmware_str(&self) -> (text: Option<&str>)
        ensures
            match (text, self@.panel.firmware) {
                (Some(text), Some(told)) => text@ == told,
                (None, None) => true,
                _ => false,
            },
    {
        match &self.lcd {
            BoxedWinUsbLcd::H2(lcd) => lcd.firmware_str(),
            BoxedWinUsbLcd::Other(lcd) => match &lcd.firmware {
                Some(text) => Some(text.as_str()),
                None => None,
            },
        }
    }

    /// Records the firmware that the panel told.
    pub fn record_firmware(&mut self, firmware: Option<String>)
        ensures
            final(self)@ == (DeviceState {
                panel: PanelState {
                    firmware: match firmware {
                        Some(text) => Some(text@),
                        None => None,
                    },
                    ..old(self)@.panel
                },
                ..old(self)@
            }),
    {
        match &mut self.lcd {
            BoxedWinUsbLcd::H2(lcd) => lcd.record_firmware(firmware),
            BoxedWinUsbLcd::Other(lcd) => {
                lcd.firmware = firmware;
            },
        }
    }

    /// The screen.
    pub fn screen_info(&self) -> (screen: ScreenModel)
        ensures
            screen == self@.panel.screen,
    {
        match &self.lcd {
            BoxedWinUsbLcd::H2(lcd) => lcd.screen_info(),
            BoxedWinUsbLcd::Other(lcd) => lcd.screen,
        }
    }

    /// Gives the transport back.
    pub fn transport_release<'a>(&self) -> (step: LcdStep<'a>)
        ensures
            step == LcdStep::<'a>::Release(self@.panel.transport),
    {
        LcdStep::Release(self.shared_transport())
    }

    /// Sets the panel up, unless that has been done.
    pub fn initialize<'a>(&mut self) -> (steps: Vec<LcdStep<'a>>)
        ensures
            steps@ == old(self)@.steps(Seq::empty(), VariantCall::Initialize),
            final(self)@ == old(self)@.set_up(),
    {
        let steps = match &mut self.lcd {
            BoxedWinUsbLcd::H2(lcd) => lcd.initialize(),
            BoxedWinUsbLcd::Other(lcd) => left_to(lcd.variant, VariantCall::Initialize),
        };
        assert(steps@ =~= old(self)@.steps(Seq::empty(), VariantCall::Initialize));
        steps
    }

    /// Shows a picture.
    pub fn send_frame<'a>(&mut self, frame: &'a [u8]) -> (steps: Vec<LcdStep<'a>>)
        ensures
            steps@ == old(self)@.steps(
                seq![LcdStep::SendFrame(frame)],
                VariantCall::SendFrame(frame),
            ),
            final(self)@ == old(self)@.set_up(),
    {
        let steps = match &mut self.lcd {
            BoxedWinUsbLcd::H2(lcd) => lcd.send_frame(frame),
            BoxedWinUsbLcd::Other(lcd) => left_to(lcd.variant, VariantCall::SendFrame(frame)),
        };
        assert(steps@ =~= old(self)@.steps(
            seq![LcdStep::SendFrame(frame)],
            VariantCall::SendFrame(frame),
        ));
        steps
    }

    /// Shows a picture and makes sure that it arrived.
    pub fn send_frame_verified<'a>(&mut self, frame: &'a [u8]) -> (steps: Vec<LcdStep<'a>>)
        ensures
            steps@ == old(self)@.steps(
                seq![LcdStep::SendFrameVerified(frame)],
                VariantCall::SendFrameVerified(frame),
            ),
            final(self)@ == old(self)@.set_up(),
    {
        let steps = match &mut self.lcd {
            BoxedWinUsbLcd::H2(lcd) => lcd.send_frame_verified(frame),
            BoxedWinUsbLcd::Other(lcd) => left_to(
                lcd.variant,
                VariantCall::SendFrameVerified(frame),
            ),
        };
        assert(steps@ =~= old(self)@.steps(
            seq![LcdStep::SendFrameVerified(frame)],
            VariantCall::SendFrameVerified(frame),
        ));
        steps
    }

    /// Sets the brightness.
    pub fn set_brightness_val<'a>(&mut self, brightness: u8) -> (steps: Vec<LcdStep<'a>>)
        ensures
            steps@ == old(self)@.plain_steps(
                LcdStep::SetBrightness(brightness),
                VariantCall::SetBrightness(brightness),
            ),
            final(self)@ == old(self)@,
    {
        match &self.lcd {
            BoxedWinUsbLcd::H2(lcd) => lcd.set_brightness_val(brightness),
            BoxedWinUsbLcd::Other(lcd) => left_to(
                lcd.variant,
                VariantCall::SetBrightness(brightness),
            ),
        }
    }

    /// Hands the panel back to its desktop mode.
    pub fn switch_to_desktop_mode<'a>(&mut self) -> (steps: Vec<LcdStep<'a>>)
        ensures
            steps@ == old(self)@.plain_steps(
                LcdStep::SwitchToDesktopMode,
                VariantCall::SwitchToDesktopMode,
            ),
            final(self)@ == old(self)@,
    {
        match &self.lcd {
            BoxedWinUsbLcd::H2(lcd) => lcd.switch_to_desktop_mode(),
            BoxedWinUsbLcd::Other(lcd) => left_to(lcd.variant, VariantCall::SwitchToDesktopMode),
        }
    }

    /// Plays a file at a frame rate, given as the bits of a 32-bit float.
    pub fn stream_h264<'a>(&mut self, path: &'a [u8], looping: bool, fps_bits: u32) -> (steps: Vec<
        LcdStep<'a>,
    >)
        ensures
            steps@ == old(self)@.steps(
                seq![
                    LcdStep::ApplyStreamFps { fps_bits },
                    LcdStep::StreamFile {
                        path,
                        looping,
                        fps_bits,
                        screen: old(self)@.panel.screen,
                        option: H2_PLAY_OPTION,
                    },
                ],
                VariantCall::StreamFile { path, looping, fps_bits },
            ),
            final(self)@ == old(self)@.set_up(),
    {
        let steps = match &mut self.lcd {
            BoxedWinUsbLcd::H2(lcd) => lcd.stream_h264(path, looping, fps_bits),
            BoxedWinUsbLcd::Other(lcd) => left_to(
                lcd.variant,
                VariantCall::StreamFile { path, looping, fps_bits },
            ),
        };
        assert(steps@ =~= old(self)@.steps(
            seq![
                LcdStep::ApplyStreamFps { fps_bits },
                LcdStep::StreamFile {
                    path,
                    looping,
                    fps_bits,
                    screen: old(self)@.panel.screen,
                    option: H2_PLAY_OPTION,
                },
            ],
            VariantCall::StreamFile { path, looping, fps_bits },
        ));
        steps
    }

    /// Plays what a reader gives at a frame rate, given as the bits of a 32-bit float.
    pub fn stream_h264_reader<'a>(&mut self, fps_bits: u32) -> (steps: Vec<LcdStep<'a>>)
        ensures
            steps@ == old(self)@.steps(
                seq![
                    LcdStep::ApplyStreamFps { fps_bits },
                    LcdStep::StreamReader {
                        screen: old(self)@.panel.screen,
                        option: H2_PLAY_OPTION,
                    },
                ],
                VariantCall::StreamReader { fps_bits },
            ),
            final(self)@ == old(self)@.set_up(),
    {
        let steps = match &mut self.lcd {
            BoxedWinUsbLcd::H2(lcd) => lcd.stream_h264_reader(fps_bits),
            BoxedWinUsbLcd::Other(lcd) => left_to(
                lcd.variant,
                VariantCall::StreamReader { fps_bits },
            ),
        };
        assert(steps@ =~= old(self)@.steps(
            seq![
                LcdStep::ApplyStreamFps { fps_bits },
                LcdStep::StreamReader {
                        screen: old(self)@.panel.screen,
                        option: H2_PLAY_OPTION,
                    },
            ],
            VariantCall::StreamReader { fps_bits },
        ));
        steps
    }

    /// As an LCD among others, a panel shows a JPEG picture like any frame.
    pub fn send_jpeg_frame<'a>(&mut self, jpeg_data: &'a [u8]) -> (steps: Vec<LcdStep<'a>>)
        ensures
            steps@ == old(self)@.steps(
                seq![LcdStep::SendFrame(jpeg_data)],
                VariantCall::SendFrame(jpeg_data),
            ),
            final(self)@ == old(self)@.set_up(),
    {
        self.send_frame(jpeg_data)
    }

    /// As an LCD among others, a panel has no brightness to set.
    pub fn set_brightness<'a>(&self, brightness: u8) -> (steps: Vec<LcdStep<'a>>)
        ensures
            steps@ == Seq::<LcdStep<'a>>::empty(),
    {
        Vec::new()
    }

    /// As an LCD among others, a panel has no rotation to set.
    pub fn set_rotation<'a>(&self, degrees: u16) -> (steps: Vec<LcdStep<'a>>)
        ensures
            steps@ == Seq::<LcdStep<'a>>::empty(),
    {
        Vec::new()
    }
}

impl PanelOpening {
    /// The panel behind the transport that was opened for it, if it could be.
    pub fn opened(&self, transport: Option<SharedTransport>) -> (device: Result<
        WinUsbLcdDevice,
        WinUsbError,
    >)
        requires
            self@.wf(),
        ensures
            match (transport, device) {
                (Some(transport), Ok(device)) => device@ == opened_device(
                    transport,
                    self@.pid,
                ),
                (None, Err(error)) => error == WinUsbError::OpenFailed,
                _ => false,
            },
    {
        match transport {
            Some(transport) => WinUsbLcdDevice::from_shared_transport(transport, self.pid()),
            None => Err(WinUsbError::OpenFailed),
        }
    }
}

/// How a device is connected.
#[derive(Clone, Copy, Debug, PartialEq, Eq, Structural)]
pub enum TransportKind {
    UsbBulk,
}

/// An entry for the lights of a device.
pub struct RgbEntry {
    pub name: String,
    /// The transport behind which the light control lives.
    pub control: SharedTransport,
}

/// What opening a panel gives to the device registry.
pub struct OpenedDevice {
    pub id: String,
    pub family: DeviceFamily,
    pub transport_kind: TransportKind,
    pub model_name: String,
    pub firmware: Option<String>,
    pub lcd: WinUsbLcdDevice,
    /// The transport behind which the fan control of the same device lives, if the device has one.
    pub fan: Option<SharedTransport>,
    /// The transport behind which the pump control of the same device lives, if the device has one.
    pub aio: Option<SharedTransport>,
    pub rgb: Vec<RgbEntry>,
    /// A HID handle that is offered to others.
    pub shared_hid: Option<SharedTransport>,
    /// The transport that is offered to others.
    pub shared_usb: Option<SharedTransport>,
}

/// Driver entry point for the WinUSB LCD family.
pub struct WinUsbLcdDriver;

impl WinUsbLcdDriver {
    /// The family that the driver is registered for.
    pub fn family(&self) -> (family: DeviceFamily)
        ensures
            family == DeviceFamily::HydroShift2Lcd,
    {
        DeviceFamily::HydroShift2Lcd
    }

    /// Starts to open the panel with a product id: says what its transport is to be opened with. A
    /// product id that is not known is refused before anything is opened.
    pub fn open(&self, pid: u16) -> (opening: Result<PanelOpening, WinUsbError>)
        ensures
            match (winusb_lcd::panel_of(pid), opening) {
                (Some(_), Ok(opening)) => opening@ == winusb_lcd::opening_of(pid)
                    && opening@.wf(),
                (None, Err(error)) => error == WinUsbError::UnknownPid(pid),
                _ => false,
            },
    {
        WinUsbLcdDevice::open(pid)
    }

    /// Goes on behind the transport that was opened for the panel, if it could be. The steps set the
    /// panel up.
    pub fn set_up<'a>(&self, opening: &PanelOpening, transport: Option<SharedTransport>) -> (started:
        Result<(WinUsbLcdDevice, Vec<LcdStep<'a>>), WinUsbError>)
        requires
            opening@.wf(),
        ensures
            match (transport, started) {
                (Some(transport), Ok((device, steps))) => {
                    let fresh = opened_device(transport, opening@.pid);
                    &&& device@ == fresh.set_up()
                    &&& steps@ == fresh.steps(Seq::empty(), VariantCall::Initialize)
                },
                (None, Err(error)) => error == WinUsbError::OpenFailed,
                _ => false,
            },
    {
        match opening.opened(transport) {
            Ok(device) => {
                let mut device = device;
                let steps = device.initialize();
                Ok((device, steps))
            },
            Err(error) => Err(error),
        }
    }

    /// Finishes opening a panel that has been set up: what the registry is given for the device with
    /// this id. A HydroShift II LCD has its fan, pump and light control behind the transport of the
    /// panel, and one light entry, which has no name of its own.
    pub fn finish(&self, lcd: WinUsbLcdDevice, pid: u16, id: String) -> (device: Result<
        OpenedDevice,
        WinUsbError,
    >)
        ensures
            match (winusb_lcd::panel_of(pid), device) {
                (Some(known), Ok(device)) => {
                    let shared = if winusb_lcd::is_h2(pid) {
                        Some(lcd@.panel.transport)
                    } else {
                        None
                    };
                    &&& device.id@ == id@
                    &&& device.family == known.1
                    &&& device.transport_kind == TransportKind::UsbBulk
                    &&& device.model_name@ == known.2
                    &&& match (device.firmware, lcd@.panel.firmware) {
                        (Some(text), Some(told)) => text@ == told,
                        (None, None) => true,
                        _ => false,
                    }
                    &&& device.lcd == lcd
                    &&& device.fan == shared
                    &&& device.aio == shared
                    &&& device.rgb@.len() == if winusb_lcd::is_h2(pid) {
                        1int
                    } else {
                        0int
                    }
                    &&& winusb_lcd::is_h2(pid) ==> device.rgb@[0].name@ == Seq::<char>::empty()
                        && device.rgb@[0].control == lcd@.panel.transport
                    &&& device.shared_hid is None
                    &&& device.shared_usb == shared
                },
                (None, Err(error)) => error == WinUsbError::UnknownPid(pid),
                _ => false,
            },
    {
        let (family, model_name) = match screen_for_pid(pid) {
            Some((_, family, name)) => (family, name.to_owned()),
            None => {
                return Err(WinUsbError::UnknownPid(pid));
            },
        };
        let firmware = match lcd.firmware_str() {
            Some(text) => Some(text.to_owned()),
            None => None,
        };
        let shared = match pid {
            0xA021 | 0xA034 => Some(lcd.shared_transport()),
            _ => None,
        };
        let mut rgb: Vec<RgbEntry> = Vec::new();
        if let Some(control) = shared {
            let name = String::new();
            assert(name@ =~= Seq::<char>::empty());
            rgb.push(RgbEntry { name, control });
        }
        Ok(
            OpenedDevice {
                id,
                family,
                transport_kind: TransportKind::UsbBulk,
                model_name,
                firmware,
                lcd,
                fan: shared,
                aio: shared,
                rgb,
                shared_hid: None,
                shared_usb: shared,
            },
        )
    }
}

/// The setup of a HydroShift II panel cannot fail: whatever becomes of its steps, what the caller
/// wanted of the panel is still tried.
pub proof fn setup_cannot_fail(i: int)
    requires
        0 <= i < winusb_lcd::h2_setup().len(),
    ensures
        !winusb_lcd::is_fatal(winusb_lcd::h2_setup()[i]),
{
}

/// A HydroShift II panel is set up once: behind any call that needs the setup, no further call
/// brings the setup again.
pub proof fn setup_happens_once<'a>(
    device: DeviceState,
    own: Seq<LcdStep<'a>>,
    call: VariantCall<'a>,
)
    requires
        device.variant == WinUsbVariant::H2,
    ensures
        device.set_up().steps(own, call) == own,
        device.set_up().set_up() == device.set_up(),
{
    assert(device.set_up().steps(own, call) =~= own);
}

/// The HydroShift II driver serves exactly the panels of the HydroShift II LCD family.
pub proof fn h2_driver_serves_its_family(
    pid: u16,
    screen: ScreenModel,
    family: DeviceFamily,
    name: Seq<char>,
)
    requires
        winusb_lcd::panel_of(pid) == Some((screen, family, name)),
    ensures
        winusb_lcd::variant_of(pid) == WinUsbVariant::H2 <==> family
            == DeviceFamily::HydroShift2Lcd,
{
}

/// What a call comes to: the HydroShift II driver sets its panel up first, if that has not been done,
/// and then does its own steps, all of them and in order; any other driver is handed the call as it is.
/// A call that needs no setup brings none.
pub proof fn calls_go_to_the_driver<'a>(
    device: DeviceState,
    own: Seq<LcdStep<'a>>,
    one: LcdStep<'a>,
    call: VariantCall<'a>,
)
    ensures
        match device.variant {
            WinUsbVariant::H2 => {
                let due: int = if device.panel.initialized {
                    0
                } else {
                    6
                };
                &&& device.steps(own, call).len() == due + own.len()
                &&& forall|i: int|
                    0 <= i < own.len() ==> device.steps(own, call)[due + i] == #[trigger] own[i]
                &&& due == 6 ==> device.steps(own, call)[0] is InitLogging
                &&& due == 6 ==> device.steps(own, call)[5] is StopClock
                &&& device.plain_steps(one, call) == seq![one]
                &&& device.set_up().panel.initialized
            },
            WinUsbVariant::Other(variant) => {
                &&& device.steps(own, call) == seq![LcdStep::Variant(variant, call)]
                &&& device.plain_steps(one, call) == seq![LcdStep::Variant(variant, call)]
                &&& device.set_up() == device
            },
        },
        device.set_up().variant == device.variant,
        device.set_up().panel == (PanelState {
            initialized: device.set_up().panel.initialized,
            ..device.panel
        }),
{
    winusb_lcd::setup_comes_first_and_once(device.panel);
}

/// A panel that has just been opened takes the driver of its product id, shows the screen and name of
/// its family, and is behind the transport that was opened for it.
pub proof fn opened_panels_are_those_of_their_id(transport: SharedTransport, pid: u16)
    requires
        winusb_lcd::panel_of(pid) is Some,
    ensures
        ({
            let device = opened_device(transport, pid);
            let (screen, family, name) = winusb_lcd::panel_of(pid)->0;
            &&& device.variant == winusb_lcd::variant_of(pid)
            &&& device.panel.transport == transport
            &&& device.panel.screen == screen
            &&& device.panel.name == name
            &&& !device.panel.initialized
            &&& device.panel.firmware is None
        }),
{
}

} // verus!
