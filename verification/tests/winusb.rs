use lianli_lcd::device_id::{DeviceFamily, ScreenModel};
use lianli_lcd::winusb_device::{TransportKind, WinUsbLcdDevice, WinUsbLcdDriver};
use lianli_lcd::winusb_lcd::{
    ends_call_on_failure, make_device, screen_for_pid, H2WinUsbLcd, LcdStep, OtherVariant, PanelOpening,
    SharedTransport, Timeouts, VariantCall, WinUsbError, WinUsbVariant,
};

const TRANSPORT: SharedTransport = SharedTransport { handle: 7 };
const PIDS: [u16; 8] = [0xA021, 0xA034, 0xA065, 0xA088, 0xA092, 0xA018, 0xA019, 0xA068];

fn h2() -> WinUsbLcdDevice {
    WinUsbLcdDevice::from_shared_transport(TRANSPORT, 0xA021).ok().unwrap()
}

fn slv3() -> WinUsbLcdDevice {
    WinUsbLcdDevice::from_shared_transport(TRANSPORT, 0xA088).ok().unwrap()
}

fn opening(pid: u16) -> PanelOpening {
    make_device(pid).ok().unwrap()
}

fn is_setup(steps: &[LcdStep]) -> bool {
    matches!(
        steps,
        [
            LcdStep::InitLogging,
            LcdStep::ResetFailureState,
            LcdStep::ReadFirmware,
            LcdStep::SetFrameRate(30),
            LcdStep::SyncClock(2),
            LcdStep::StopClock
        ]
    )
}

#[test]
fn panels_are_looked_up() {
    let names: Vec<&str> = PIDS.iter().map(|pid| screen_for_pid(*pid).unwrap().2).collect();
    assert_eq!(
        names,
        vec![
            "HydroShift II LCD Circle",
            "HydroShift II LCD Square",
            "Lancool 207 Digital",
            "Universal Screen 8.8\"",
            "Vision 9.2\"",
            "TL Flex LCD",
            "SL Infinity Flex LCD",
            "HydroShift II OLED Curve",
        ]
    );
    assert_eq!(
        screen_for_pid(0xA019),
        Some((ScreenModel::FlexLcd, DeviceFamily::SlInfFlexLcd, "SL Infinity Flex LCD"))
    );
    assert_eq!(screen_for_pid(0xA020), None);
}

#[test]
fn drivers_are_chosen() {
    let drivers: Vec<WinUsbVariant> = PIDS.iter().map(|pid| opening(*pid).variant()).collect();
    let slv3 = WinUsbVariant::Other(OtherVariant::Slv3);
    assert_eq!(
        drivers,
        vec![
            WinUsbVariant::H2,
            WinUsbVariant::H2,
            WinUsbVariant::Other(OtherVariant::Base),
            slv3,
            slv3,
            slv3,
            slv3,
            WinUsbVariant::Other(OtherVariant::Hs2Oled),
        ]
    );
    assert!(matches!(make_device(0x0001), Err(WinUsbError::UnknownPid(1))));
}

#[test]
fn only_the_h2_driver_serves_the_h2_family() {
    for pid in PIDS {
        let is_h2 = opening(pid).variant() == WinUsbVariant::H2;
        assert_eq!(is_h2, screen_for_pid(pid).unwrap().1 == DeviceFamily::HydroShift2Lcd);
    }
}

#[test]
fn opening_needs_a_known_panel_and_a_transport() {
    assert!(matches!(WinUsbLcdDevice::open(1), Err(WinUsbError::UnknownPid(1))));
    assert!(matches!(opening(0xA021).opened(None), Err(WinUsbError::OpenFailed)));
    assert!(matches!(
        WinUsbLcdDevice::from_shared_transport(TRANSPORT, 1),
        Err(WinUsbError::UnknownPid(1))
    ));
    let device = WinUsbLcdDevice::open(0xA068).ok().unwrap().opened(Some(TRANSPORT)).ok().unwrap();
    assert_eq!(device.variant(), WinUsbVariant::Other(OtherVariant::Hs2Oled));
    assert_eq!(device.screen_info(), ScreenModel::HydroShift2OledCurve);
    assert_eq!(device.shared_transport(), TRANSPORT);
    assert_eq!(device.firmware_str(), None);
    assert!(matches!(device.transport_release(), LcdStep::Release(TRANSPORT)));
}

#[test]
fn transports_are_opened_with_what_the_panel_needs() {
    let h2 = opening(0xA034);
    assert_eq!((h2.pid(), h2.screen()), (0xA034, ScreenModel::HydroShift2));
    assert_eq!(h2.name(), "HydroShift II LCD Square");
    assert_eq!(h2.timeouts(), Some(Timeouts { write_ms: 200, read_ms: 2000 }));
    assert_eq!(opening(0xA092).timeouts(), None);
}

#[test]
fn h2_panel_is_set_up_once() {
    let mut device = h2();
    let first = device.send_frame(&[1, 2]);
    assert_eq!(first.len(), 7);
    assert!(is_setup(&first[..6]));
    assert!(matches!(first[6], LcdStep::SendFrame(&[1, 2])));
    let second = device.send_frame_verified(&[3]);
    assert!(matches!(second[..], [LcdStep::SendFrameVerified(&[3])]));
    assert!(device.initialize().is_empty());
    assert!(matches!(device.send_jpeg_frame(&[4])[..], [LcdStep::SendFrame(&[4])]));
}

#[test]
fn setup_steps_may_fail() {
    let mut device = h2();
    for step in device.initialize() {
        assert!(!ends_call_on_failure(&step));
    }
    for step in device.send_frame(&[1]) {
        assert!(ends_call_on_failure(&step));
    }
    assert!(ends_call_on_failure(&LcdStep::ApplyStreamFps { fps_bits: 0 }));
    assert!(!ends_call_on_failure(&LcdStep::Release(TRANSPORT)));
}

#[test]
fn brightness_and_desktop_mode_need_no_setup() {
    let mut device = h2();
    assert!(matches!(device.set_brightness_val(40)[..], [LcdStep::SetBrightness(40)]));
    assert!(matches!(device.switch_to_desktop_mode()[..], [LcdStep::SwitchToDesktopMode]));
    assert!(is_setup(&device.initialize()));
    assert!(device.set_brightness(40).is_empty());
    assert!(device.set_rotation(90).is_empty());
}

#[test]
fn streams_announce_their_frame_rate() {
    let mut device = h2();
    let fps_bits = 30f32.to_bits();
    let file = device.stream_h264(b"/a.h264", true, fps_bits);
    assert!(is_setup(&file[..6]));
    assert!(matches!(file[6], LcdStep::ApplyStreamFps { fps_bits: bits } if bits == fps_bits));
    assert!(matches!(
        file[7],
        LcdStep::StreamFile { path: b"/a.h264", looping: true, screen: ScreenModel::HydroShift2, option: 0, .. }
    ));
    let reader = device.stream_h264_reader(fps_bits);
    assert!(matches!(
        reader[..],
        [LcdStep::ApplyStreamFps { .. }, LcdStep::StreamReader { screen: ScreenModel::HydroShift2, option: 0 }]
    ));
}

#[test]
fn other_drivers_get_the_call() {
    let mut device = slv3();
    assert!(matches!(
        device.send_frame(&[1])[..],
        [LcdStep::Variant(OtherVariant::Slv3, VariantCall::SendFrame(&[1]))]
    ));
    assert!(matches!(
        device.initialize()[..],
        [LcdStep::Variant(OtherVariant::Slv3, VariantCall::Initialize)]
    ));
    assert!(matches!(
        device.send_frame_verified(&[1])[..],
        [LcdStep::Variant(OtherVariant::Slv3, VariantCall::SendFrameVerified(&[1]))]
    ));
    assert!(matches!(
        device.set_brightness_val(3)[..],
        [LcdStep::Variant(OtherVariant::Slv3, VariantCall::SetBrightness(3))]
    ));
    assert!(matches!(
        device.switch_to_desktop_mode()[..],
        [LcdStep::Variant(OtherVariant::Slv3, VariantCall::SwitchToDesktopMode)]
    ));
    assert!(matches!(
        device.stream_h264(b"/x", false, 5)[..],
        [LcdStep::Variant(
            OtherVariant::Slv3,
            VariantCall::StreamFile { path: b"/x", looping: false, fps_bits: 5 }
        )]
    ));
    assert!(matches!(
        device.stream_h264_reader(5)[..],
        [LcdStep::Variant(OtherVariant::Slv3, VariantCall::StreamReader { fps_bits: 5 })]
    ));
}

#[test]
fn h2_driver_can_be_used_alone() {
    assert!(matches!(
        H2WinUsbLcd::new(None, ScreenModel::HydroShift2, "x"),
        Err(WinUsbError::OpenFailed)
    ));
    let mut lcd = H2WinUsbLcd::new(Some(TRANSPORT), ScreenModel::HydroShift2, "x").ok().unwrap();
    assert_eq!(lcd.name(), "x");
    assert_eq!(lcd.screen_info(), ScreenModel::HydroShift2);
    lcd.record_firmware(Some("1.2".to_string()));
    assert_eq!(lcd.firmware_str(), Some("1.2"));
    assert!(is_setup(&lcd.initialize()));
}

#[test]
fn driver_opens_an_h2_panel_with_its_control() {
    let driver = WinUsbLcdDriver;
    assert_eq!(driver.family(), DeviceFamily::HydroShift2Lcd);
    let (mut lcd, steps) = driver.set_up(&driver.open(0xA034).ok().unwrap(), Some(TRANSPORT)).ok().unwrap();
    assert!(is_setup(&steps));
    lcd.record_firmware(Some("1.2".to_string()));
    let device = driver.finish(lcd, 0xA034, "usb:1".to_string()).ok().unwrap();
    assert_eq!(device.family, DeviceFamily::HydroShift2Lcd);
    assert_eq!(device.transport_kind, TransportKind::UsbBulk);
    assert_eq!(device.model_name, "HydroShift II LCD Square");
    assert_eq!(device.firmware, Some("1.2".to_string()));
    assert_eq!(device.id, "usb:1");
    assert_eq!((device.fan, device.aio), (Some(TRANSPORT), Some(TRANSPORT)));
    assert_eq!(device.rgb.len(), 1);
    assert_eq!(device.rgb[0].name, "");
    assert_eq!(device.rgb[0].control, TRANSPORT);
    assert_eq!(device.shared_hid, None);
    assert_eq!(device.shared_usb, Some(TRANSPORT));
}

#[test]
fn driver_opens_other_panels_without_control() {
    let driver = WinUsbLcdDriver;
    let (lcd, steps) = driver.set_up(&driver.open(0xA065).ok().unwrap(), Some(TRANSPORT)).ok().unwrap();
    assert!(matches!(steps[..], [LcdStep::Variant(OtherVariant::Base, VariantCall::Initialize)]));
    let device = driver.finish(lcd, 0xA065, "usb:2".to_string()).ok().unwrap();
    assert_eq!(device.family, DeviceFamily::Lancool207);
    assert_eq!(device.firmware, None);
    assert_eq!(device.id, "usb:2");
    assert_eq!((device.fan, device.aio), (None, None));
    assert!(device.rgb.is_empty());
    assert_eq!(device.shared_hid, None);
    assert_eq!(device.shared_usb, None);
    assert!(matches!(driver.set_up(&opening(0xA065), None), Err(WinUsbError::OpenFailed)));
    assert!(matches!(driver.open(3), Err(WinUsbError::UnknownPid(3))));
    assert!(matches!(driver.finish(h2(), 3, String::new()), Err(WinUsbError::UnknownPid(3))));
}
