use lianli_lcd::device_id::{DeviceFamily, UsbId};
use lianli_lcd::enumerate::{
    enumerate_devices, find_usb_device, probe_tl_lcd_port_indices, DetectedDevice, Enumeration, KnownDevice,
    PortIndex, PortIndices,
};
use lianli_lcd::serial::{sysfs_serial, SerialFailures, SerialKey, SysfsEntry};
use lianli_lcd::shutdown::{ServiceManager, ShutdownStep};

const H2: UsbId = UsbId { vid: 0x1CBE, pid: 0xA021 };
const TL: UsbId = UsbId { vid: 0x04FC, pid: 0x7393 };

fn known() -> Vec<KnownDevice> {
    vec![
        KnownDevice { id: H2, family: DeviceFamily::HydroShift2Lcd, name: "H2", hid_usage_page: None },
        KnownDevice { id: TL, family: DeviceFamily::TlLcd, name: "TL", hid_usage_page: Some(0xFF1B) },
        KnownDevice { id: H2, family: DeviceFamily::Other(9), name: "second", hid_usage_page: None },
    ]
}

fn text(text: &str) -> Option<String> {
    Some(text.to_string())
}

fn entry(busnum: Option<&str>, devnum: Option<&str>, serial: Option<&str>) -> SysfsEntry {
    SysfsEntry {
        busnum: busnum.map(str::to_string),
        devnum: devnum.map(str::to_string),
        serial: serial.map(str::to_string),
    }
}

#[test]
fn kernel_serial_is_found_by_place() {
    let entries = [
        entry(None, Some("4\n"), Some("no bus")),
        entry(Some("1\n"), None, Some("no device")),
        entry(Some("1\n"), Some("5\n"), Some("other")),
        entry(Some("x"), Some("4\n"), Some("no number")),
        entry(Some(" 1\n"), Some("004\n"), Some("  A B\n")),
    ];
    assert_eq!(sysfs_serial(&entries, 1, 4), text("A B"));
    assert_eq!(sysfs_serial(&entries, 1, 5), text("other"));
    assert_eq!(sysfs_serial(&entries, 2, 4), None);
    assert_eq!(sysfs_serial(&[], 1, 4), None);
}

#[test]
fn empty_kernel_serial_is_passed_over() {
    let entries = [entry(Some("1"), Some("4"), Some(" \n")), entry(Some("1"), Some("4"), Some("later"))];
    assert_eq!(sysfs_serial(&entries, 1, 4), text("later"));
}

#[test]
fn missing_kernel_serial_ends_the_search() {
    let entries = [entry(Some("1"), Some("4"), None), entry(Some("1"), Some("4"), Some("later"))];
    assert_eq!(sysfs_serial(&entries, 1, 4), None);
}

#[test]
fn failures_are_told_apart() {
    let mut failures = SerialFailures::new();
    let key = SerialKey { vid: 1, pid: 2, bus: 3, address: 4 };
    assert!(!failures.contains(key));
    failures.insert(key);
    assert!(failures.contains(key));
    for other in [
        SerialKey { vid: 2, ..key },
        SerialKey { pid: 1, ..key },
        SerialKey { bus: 4, ..key },
        SerialKey { address: 3, ..key },
        SerialKey { vid: 0, pid: 0, bus: 0, address: 0 },
    ] {
        assert!(!failures.contains(other));
    }
}

struct Usb {
    bus: u8,
    address: u8,
    id: Option<UsbId>,
    kernel: Option<&'static str>,
    answer: Option<&'static str>,
}

/// Enumerates the list, and tells which devices were asked for their serial number.
fn enumerate(list: &[Usb], failures: &mut SerialFailures) -> (Vec<DetectedDevice>, Vec<usize>) {
    let mut enumeration: Enumeration = enumerate_devices();
    let mut asked = Vec::new();
    for (number, usb) in list.iter().enumerate() {
        if !enumeration.sight(&known(), number, usb.bus, usb.address, usb.id) {
            continue;
        }
        if enumeration.kernel_serial(failures, usb.kernel.map(str::to_string)) {
            asked.push(number);
            enumeration.device_serial(failures, usb.answer.map(str::to_string));
        }
    }
    (enumeration.finish(), asked)
}

#[test]
fn known_devices_are_found_in_order() {
    let list = [
        Usb { bus: 2, address: 1, id: Some(H2), kernel: Some("b"), answer: None },
        Usb { bus: 1, address: 9, id: Some(UsbId { vid: 1, pid: 1 }), kernel: Some("x"), answer: None },
        Usb { bus: 1, address: 7, id: None, kernel: Some("x"), answer: None },
        Usb { bus: 1, address: 8, id: Some(TL), kernel: None, answer: Some("c") },
        Usb { bus: 1, address: 2, id: Some(H2), kernel: Some("a"), answer: Some("not asked") },
    ];
    let (found, asked) = enumerate(&list, &mut SerialFailures::new());
    let numbers: Vec<usize> = found.iter().map(|device| device.device).collect();
    assert_eq!(numbers, vec![4, 3, 0]);
    assert_eq!(asked, vec![3]);
    assert_eq!(
        found[1],
        DetectedDevice {
            device: 3,
            family: DeviceFamily::TlLcd,
            name: "TL",
            vid: 0x04FC,
            pid: 0x7393,
            bus: 1,
            address: 8,
            serial: text("c"),
            hid_usage_page: Some(0xFF1B),
        }
    );
    assert_eq!(found[0].serial, text("a"));
    assert_eq!(found[0].family, DeviceFamily::HydroShift2Lcd);
}

#[test]
fn devices_at_one_place_keep_their_order() {
    let usb = |bus, address| Usb { bus, address, id: Some(H2), kernel: Some("s"), answer: None };
    let list = [usb(2, 1), usb(1, 1), usb(2, 1), usb(1, 1), usb(1, 0)];
    let (found, _) = enumerate(&list, &mut SerialFailures::new());
    let numbers: Vec<usize> = found.iter().map(|device| device.device).collect();
    assert_eq!(numbers, vec![4, 1, 3, 0, 2]);
}

#[test]
fn silent_device_is_asked_once() {
    let mut failures = SerialFailures::new();
    let silent = || [Usb { bus: 1, address: 2, id: Some(H2), kernel: None, answer: None }];
    let (found, asked) = enumerate(&silent(), &mut failures);
    assert_eq!((found.len(), found[0].serial.clone(), asked), (1, None, vec![0]));
    for _ in 0..3 {
        let (found, asked) = enumerate(&silent(), &mut failures);
        assert_eq!((found.len(), found[0].serial.clone(), asked), (1, None, vec![]));
    }
    // The kernel's word counts whatever came of asking before.
    let replugged = [Usb { bus: 1, address: 2, id: Some(H2), kernel: Some("k"), answer: None }];
    assert_eq!(enumerate(&replugged, &mut failures).0[0].serial, text("k"));
}

#[test]
fn answering_device_is_asked_every_time() {
    let mut failures = SerialFailures::new();
    let list = [Usb { bus: 1, address: 2, id: Some(H2), kernel: None, answer: Some("s") }];
    for _ in 0..2 {
        let (found, asked) = enumerate(&list, &mut failures);
        assert_eq!((found[0].serial.clone(), asked), (text("s"), vec![0]));
    }
}

#[test]
fn tl_lcds_are_probed() {
    let list = [
        Usb { bus: 1, address: 1, id: Some(TL), kernel: Some("s"), answer: None },
        Usb { bus: 1, address: 2, id: Some(H2), kernel: Some("s"), answer: None },
        Usb { bus: 1, address: 3, id: Some(TL), kernel: Some("s"), answer: None },
    ];
    let (found, _) = enumerate(&list, &mut SerialFailures::new());
    assert_eq!(probe_tl_lcd_port_indices(&found), vec![0, 2]);
    assert_eq!(probe_tl_lcd_port_indices(&[]), Vec::<usize>::new());
}

#[test]
fn last_identity_that_was_read_counts() {
    let mut indices = PortIndices::new();
    let (a, b) = ("a".to_string(), "b".to_string());
    assert_eq!(indices.get(&a), None);
    indices.record(a.clone(), Some(PortIndex { port: 1, index: 2 }));
    indices.record(b.clone(), None);
    indices.record(a.clone(), Some(PortIndex { port: 3, index: 4 }));
    indices.record(a.clone(), None);
    assert_eq!(indices.get(&a), Some(PortIndex { port: 3, index: 4 }));
    assert_eq!(indices.get(&b), None);
}

#[test]
fn first_device_with_an_id_is_found() {
    let ids = [None, Some(TL), Some(H2), Some(H2)];
    assert_eq!(find_usb_device(&ids, 0x1CBE, 0xA021), Some(2));
    assert_eq!(find_usb_device(&ids, 0x1CBE, 0x7393), None);
    assert_eq!(find_usb_device(&[], 0x1CBE, 0xA021), None);
}

#[test]
fn everything_is_shut_down_in_order() {
    let mut manager = ServiceManager { targets: 2 };
    let steps = manager.shutdown();
    assert_eq!(
        steps,
        vec![
            ShutdownStep::DesktopDisplays,
            ShutdownStep::StopTarget(0),
            ShutdownStep::StopTarget(1),
            ShutdownStep::ClearTargets,
            ShutdownStep::Controllers,
            ShutdownStep::DropRgbReference,
            ShutdownStep::ClearRegistry,
            ShutdownStep::Wireless,
            ShutdownStep::OpenRgb,
            ShutdownStep::Ipc,
        ]
    );
    let markers: Vec<&str> = steps.iter().filter_map(|step| step.marker()).collect();
    assert_eq!(
        markers,
        vec!["desktop_displays", "targets", "controllers", "registry", "wireless", "openrgb", "ipc"]
    );
    assert_eq!(manager.targets, 0);
    assert_eq!(manager.shutdown().len(), 8);
}
