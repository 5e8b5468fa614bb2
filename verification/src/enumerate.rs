//! Finding the known devices on the USB.

use vstd::prelude::*;
use crate::device_id::{DeviceFamily, UsbId};
use crate::serial::{SerialFailures, SerialKey};

verus! {

/// An entry in the table of known devices.
#[derive(Clone, Copy, Debug, PartialEq, Eq)]
pub struct KnownDevice {
    pub id: UsbId,
    pub family: DeviceFamily,
    pub name: &'static str,
    pub hid_usage_page: Option<u16>,
}

/// A known device that was found on the USB.
#[derive(Debug, PartialEq, Eq)]
pub struct DetectedDevice {
    /// Its number in the list of USB devices.
    pub device: usize,
    pub family: DeviceFamily,
    pub name: &'static str,
    pub vid: u16,
    pub pid: u16,
    pub bus: u8,
    pub address: u8,
    pub serial: Option<String>,
    pub hid_usage_page: Option<u16>,
}

/// The entry of a device: the first one with its id.
pub open spec fn known_entry(known: Seq<KnownDevice>, id: UsbId) -> Option<KnownDevice>
    decreases known.len(),
{
    if known.len() == 0 {
        None
    } else if known[0].id == id {
        Some(known[0])
    } else {
        known_entry(known.skip(1), id)
    }
}

fn find_entry(known: &[KnownDevice], id: UsbId) -> (entry: Option<KnownDevice>)
    ensures
        entry == known_entry(known@, id),
{
    let mut at: usize = 0;
    assert(known@.skip(0) =~= known@);
    while at < known.len()
        invariant
            at <= known@.len(),
            known_entry(known@, id) == known_entry(known@.skip(at as int), id),
        decreases known.len() - at,
    {
        assert(known@.skip(at as int).skip(1) =~= known@.skip(at + 1));
        if known[at].id == id {
            return Some(known[at]);
        }
        at = at + 1;
    }
    None
}

/// A known device whose serial number is being found out.
#[derive(Clone, Copy, Debug, PartialEq, Eq)]
pub struct Sighted {
    pub entry: KnownDevice,
    pub device: usize,
    pub bus: u8,
    pub address: u8,
}

impl Sighted {
    /// What the device is told apart by.
    pub open spec fn key(self) -> SerialKey {
        SerialKey {
            vid: self.entry.id.vid,
            pid: self.entry.id.pid,
            bus: self.bus,
            address: self.address,
        }
    }

    /// The device with its serial number.
    pub open spec fn detected(self, serial: Option<String>) -> DetectedDevice {
        DetectedDevice {
            device: self.device,
            family: self.entry.family,
            name: self.entry.name,
            vid: self.entry.id.vid,
            pid: self.entry.id.pid,
            bus: self.bus,
            address: self.address,
            serial,
            hid_usage_page: self.entry.hid_usage_page,
        }
    }

    fn serial_key(&self) -> (key: SerialKey)
        ensures
            key == self.key(),
    {
        SerialKey {
            vid: self.entry.id.vid,
            pid: self.entry.id.pid,
            bus: self.bus,
            address: self.address,
        }
    }

    fn with_serial(&self, serial: Option<String>) -> (detected: DetectedDevice)
        ensures
            detected == self.detected(serial),
    {
        DetectedDevice {
            device: self.device,
            family: self.entry.family,
            name: self.entry.name,
            vid: self.entry.id.vid,
            pid: self.entry.id.pid,
            bus: self.bus,
            address: self.address,
            serial,
            hid_usage_page: self.entry.hid_usage_page,
        }
    }
}

/// The state of an enumeration.
pub struct EnumerationState {
    /// The known devices so far, in the order of the list of USB devices.
    pub found: Seq<DetectedDevice>,
    /// The known device whose serial number is being found out.
    pub sighted: Option<Sighted>,
}

/// The known device that is seen at a place, if it is one. `id` is missing if the descriptor of the
/// device cannot be read.
pub open spec fn sighting(
    known: Seq<KnownDevice>,
    device: usize,
    bus: u8,
    address: u8,
    id: Option<UsbId>,
) -> Option<Sighted> {
    match id {
        None => None,
        Some(id) => match known_entry(known, id) {
            None => None,
            Some(entry) => Some(Sighted { entry, device, bus, address }),
        },
    }
}

impl EnumerationState {
    /// The enumeration at its start.
    pub open spec fn begin() -> EnumerationState {
        EnumerationState { found: Seq::empty(), sighted: None }
    }

    /// With this answer from the kernel, the device itself has to be asked.
    pub open spec fn must_ask(self, failures: Set<SerialKey>, kernel: Option<String>) -> bool {
        kernel is None && !failures.contains(self.sighted->0.key())
    }

    /// The sighted device has been found, with this serial number.
    pub open spec fn settled(self, serial: Option<String>) -> EnumerationState {
        EnumerationState {
            found: self.found.push(self.sighted->0.detected(serial)),
            sighted: None,
        }
    }
}

/// A walk over the list of USB devices.
pub struct Enumeration {
    found: Vec<DetectedDevice>,
    sighted: Option<Sighted>,
}

impl View for Enumeration {
    type V = EnumerationState;

    closed spec fn view(&self) -> EnumerationState {
        EnumerationState { found: self.found@, sighted: self.sighted }
    }
}

/// `a` comes before `b` on the USB, or is at the same place.
pub open spec fn not_behind(a: DetectedDevice, b: DetectedDevice) -> bool {
    a.bus < b.bus || (a.bus == b.bus && a.address <= b.address)
}

/// The devices stand in the order of their places.
pub open spec fn in_order(devices: Seq<DetectedDevice>) -> bool {
    forall|i: int, j: int|
        0 <= i <= j < devices.len() ==> #[trigger] not_behind(devices[i], devices[j])
}

/// Tells whether a device is at a place.
pub open spec fn is_at(bus: u8, address: u8) -> spec_fn(DetectedDevice) -> bool {
    |device: DetectedDevice| device.bus == bus && device.address == address
}

/// At every place, the two lists have the same devices, in the same order.
pub open spec fn same_at_every_place(a: Seq<DetectedDevice>, b: Seq<DetectedDevice>) -> bool {
    forall|bus: u8, address: u8|
        a.filter(#[trigger] is_at(bus, address)) == b.filter(is_at(bus, address))
}

/// Starts to look for the known devices on the USB.
pub fn enumerate_devices() -> (enumeration: Enumeration)
    ensures
        enumeration@ == EnumerationState::begin(),
{
    Enumeration { found: Vec::new(), sighted: None }
}

impl Enumeration {
    /// Looks at the next device of the list. `id` is missing if the descriptor of the device cannot be
    /// read; such a device is passed over. The result says whether the device is known: then the
    /// kernel is to be asked for its serial number, and [`Enumeration::kernel_serial`] to be told.
    pub fn sight(
        &mut self,
        known: &[KnownDevice],
        device: usize,
        bus: u8,
        address: u8,
        id: Option<UsbId>,
    ) -> (is_known: bool)
        ensures
            final(self)@ == (EnumerationState {
                sighted: sighting(known@, device, bus, address, id),
                ..old(self)@
            }),
            is_known == (final(self)@.sighted is Some),
    {
        let entry = match id {
            Some(id) => find_entry(known, id),
            None => None,
        };
        self.sighted = match entry {
            Some(entry) => Some(Sighted { entry, device, bus, address }),
            None => None,
        };
        self.sighted.is_some()
    }

    /// Takes the serial number that the kernel has for the device, if it has one. The result says
    /// whether the device itself is to be asked, and [`Enumeration::device_serial`] to be told.
    pub fn kernel_serial(&mut self, failures: &SerialFailures, serial: Option<String>) -> (ask: bool)
        requires
            old(self)@.sighted is Some,
        ensures
            ask == old(self)@.must_ask(failures@, serial),
            final(self)@ == (if ask {
                old(self)@
            } else {
                old(self)@.settled(serial)
            }),
    {
        if let Some(sighted) = self.sighted {
            if serial.is_none() && !failures.contains(sighted.serial_key()) {
                return true;
            }
            self.found.push(sighted.with_serial(serial));
            self.sighted = None;
        }
        false
    }

    /// Takes the serial number that the device itself gave, if it gave one. If it did not, it is not
    /// asked again.
    pub fn device_serial(&mut self, failures: &mut SerialFailures, serial: Option<String>)
        requires
            old(self)@.sighted is Some,
        ensures
            final(self)@ == old(self)@.settled(serial),
            final(failures)@ == (if serial is None {
                old(failures)@.insert(old(self)@.sighted->0.key())
            } else {
                old(failures)@
            }),
    {
        if let Some(sighted) = self.sighted {
            if serial.is_none() {
                failures.insert(sighted.serial_key());
            }
            self.found.push(sighted.with_serial(serial));
            self.sighted = None;
        }
    }

    /// Ends the walk: gives the known devices in the order of their places. Devices at the same place
    /// keep their order.
    pub fn finish(self) -> (devices: Vec<DetectedDevice>)
        ensures
            in_order(devices@),
            same_at_every_place(devices@, self@.found),
    {
        let mut rest = self.found;
        let ghost found = rest@;
        let mut devices: Vec<DetectedDevice> = Vec::new();
        assert(found.skip(found.len() as int) =~= Seq::empty());
        while rest.len() > 0
            invariant
                rest@ == found.take(rest@.len() as int),
                rest@.len() <= found.len(),
                in_order(devices@),
                same_at_every_place(devices@, found.skip(rest@.len() as int)),
            decreases rest.len(),
        {
            match rest.pop() {
                None => {},
                Some(device) => {
                    let ghost before = devices@;
                    let ghost behind = found.skip(rest@.len() as int + 1);
                    let at = place_for(&devices, &device);
                    devices.insert(at, device);
                    proof {
                        assert(found.skip(rest@.len() as int) =~= seq![device] + behind);
                        inserted_keeps_order(before, at as int, device);
                        inserted_keeps_places(before, behind, at as int, device);
                    }
                },
            }
        }
        assert(found.skip(0) =~= found);
        devices
    }
}

fn place_for(devices: &Vec<DetectedDevice>, device: &DetectedDevice) -> (at: usize)
    requires
        in_order(devices@),
    ensures
        at <= devices@.len(),
        forall|i: int| 0 <= i < at ==> !not_behind(*device, #[trigger] devices@[i]),
        forall|i: int| at <= i < devices@.len() ==> not_behind(*device, #[trigger] devices@[i]),
{
    let mut at: usize = 0;
    while at < devices.len() && (devices[at].bus < device.bus || (devices[at].bus == device.bus
        && devices[at].address < device.address))
        invariant
            at <= devices@.len(),
            forall|i: int| 0 <= i < at ==> !not_behind(*device, #[trigger] devices@[i]),
        decreases devices.len() - at,
    {
        at = at + 1;
    }
    proof {
        assert forall|i: int| at <= i < devices@.len() implies not_behind(
            *device,
            #[trigger] devices@[i],
        ) by {
            assert(not_behind(devices@[at as int], devices@[i]));
        }
    }
    at
}

proof fn inserted_keeps_order(devices: Seq<DetectedDevice>, at: int, device: DetectedDevice)
    requires
        in_order(devices),
        0 <= at <= devices.len(),
        forall|i: int| 0 <= i < at ==> !not_behind(device, #[trigger] devices[i]),
        forall|i: int| at <= i < devices.len() ==> not_behind(device, #[trigger] devices[i]),
    ensures
        in_order(devices.insert(at, device)),
{
    let inserted = devices.insert(at, device);
    assert forall|i: int, j: int| 0 <= i <= j < inserted.len() implies #[trigger] not_behind(
        inserted[i],
        inserted[j],
    ) by {
        let from = if i < at {
            i
        } else {
            i - 1
        };
        let to = if j < at {
            j
        } else {
            j - 1
        };
        if i != at && j != at {
            assert(not_behind(devices[from], devices[to]));
        } else if i == at && j != at {
            assert(inserted[j] == devices[to]);
        } else if i != at {
            assert(inserted[i] == devices[from]);
        }
    }
}

proof fn inserted_keeps_places(
    devices: Seq<DetectedDevice>,
    rest: Seq<DetectedDevice>,
    at: int,
    device: DetectedDevice,
)
    requires
        same_at_every_place(devices, rest),
        0 <= at <= devices.len(),
        forall|i: int| 0 <= i < at ==> !not_behind(device, #[trigger] devices[i]),
    ensures
        same_at_every_place(devices.insert(at, device), seq![device] + rest),
{
    let front = devices.take(at);
    let back = devices.skip(at);
    assert(devices =~= front + back);
    assert(devices.insert(at, device) =~= front + (seq![device] + back));
    assert forall|bus: u8, address: u8|
        devices.insert(at, device).filter(#[trigger] is_at(bus, address)) == (seq![device]
            + rest).filter(is_at(bus, address)) by {
        let here = is_at(bus, address);
        Seq::filter_distributes_over_add(front, back, here);
        Seq::filter_distributes_over_add(front, seq![device] + back, here);
        Seq::filter_distributes_over_add(seq![device], back, here);
        Seq::filter_distributes_over_add(seq![device], rest, here);
        assert(devices.filter(here) == rest.filter(here));
        let one = seq![device].filter(here);
        if here(device) {
            assert(front.filter(here) =~= Seq::empty()) by {
                nothing_passes(front, here);
            }
            assert(front.filter(here) + (one + back.filter(here)) =~= one + (front.filter(here)
                + back.filter(here)));
        } else {
            assert(one =~= Seq::empty()) by {
                nothing_passes(seq![device], here);
            }
            assert(front.filter(here) + (one + back.filter(here)) =~= one + (front.filter(here)
                + back.filter(here)));
        }
    }
}

proof fn nothing_passes(devices: Seq<DetectedDevice>, test: spec_fn(DetectedDevice) -> bool)
    requires
        forall|i: int| 0 <= i < devices.len() ==> !test(#[trigger] devices[i]),
    ensures
        devices.filter(test) == Seq::<DetectedDevice>::empty(),
    decreases devices.len(),
{
    reveal(Seq::filter);
    if devices.len() > 0 {
        nothing_passes(devices.drop_last(), test);
    }
}

/// Two lists with the same devices at every place have the same devices.
pub proof fn same_places_same_devices(a: Seq<DetectedDevice>, b: Seq<DetectedDevice>)
    requires
        same_at_every_place(a, b),
    ensures
        a.to_multiset() == b.to_multiset(),
{
    assert forall|device: DetectedDevice| #[trigger]
        a.to_multiset().count(device) == b.to_multiset().count(device) by {
        let here = is_at(device.bus, device.address);
        filter_keeps_count(a, here, device);
        filter_keeps_count(b, here, device);
    }
    assert(a.to_multiset() =~= b.to_multiset());
}

proof fn filter_keeps_count(
    devices: Seq<DetectedDevice>,
    test: spec_fn(DetectedDevice) -> bool,
    device: DetectedDevice,
)
    requires
        test(device),
    ensures
        devices.to_multiset().count(device) == devices.filter(test).to_multiset().count(device),
    decreases devices.len(),
{
    reveal(Seq::filter);
    broadcast use vstd::seq_lib::group_to_multiset_ensures;

    if devices.len() > 0 {
        let front = devices.drop_last();
        filter_keeps_count(front, test, device);
        assert(devices =~= front.push(devices.last()));
    }
}

/// All that there is to learn of a device in the list of USB devices.
pub struct UsbDevice {
    pub device: usize,
    pub bus: u8,
    pub address: u8,
    /// Its id, if its descriptor can be read.
    pub id: Option<UsbId>,
    /// The serial number that the kernel has.
    pub kernel: Option<String>,
    /// The serial number that the device gives when it is asked.
    pub answer: Option<String>,
}

impl UsbDevice {
    /// The known device that it is.
    pub open spec fn sighted(self, known: Seq<KnownDevice>) -> Option<Sighted> {
        sighting(known, self.device, self.bus, self.address, self.id)
    }
}

/// Where walks over lists of USB devices have led.
pub struct Walk {
    pub state: EnumerationState,
    pub failures: Set<SerialKey>,
    /// The devices that have been asked for their serial number, with whether they gave one.
    pub asked: Seq<(SerialKey, bool)>,
}

/// The walk over one more device.
pub open spec fn step(known: Seq<KnownDevice>, walk: Walk, usb: UsbDevice) -> Walk {
    let state = EnumerationState { sighted: usb.sighted(known), ..walk.state };
    match usb.sighted(known) {
        None => Walk { state, ..walk },
        Some(sighted) => if state.must_ask(walk.failures, usb.kernel) {
            Walk {
                state: state.settled(usb.answer),
                failures: if usb.answer is None {
                    walk.failures.insert(sighted.key())
                } else {
                    walk.failures
                },
                asked: walk.asked.push((sighted.key(), usb.answer is Some)),
            }
        } else {
            Walk { state: state.settled(usb.kernel), ..walk }
        },
    }
}

/// The walk over these devices. They may be those of any number of enumerations.
pub open spec fn walk(
    known: Seq<KnownDevice>,
    failures: Set<SerialKey>,
    list: Seq<UsbDevice>,
) -> Walk
    decreases list.len(),
{
    if list.len() == 0 {
        Walk { state: EnumerationState::begin(), failures, asked: Seq::empty() }
    } else {
        step(known, walk(known, failures, list.drop_last()), list.last())
    }
}

/// A device that has been asked for its serial number in vain is never asked again, however often the
/// USB is enumerated.
pub proof fn nothing_is_asked_twice_in_vain(
    known: Seq<KnownDevice>,
    failures: Set<SerialKey>,
    list: Seq<UsbDevice>,
)
    ensures
        ({
            let asked = walk(known, failures, list).asked;
            &&& forall|i: int| 0 <= i < asked.len() ==> !failures.contains((#[trigger] asked[i]).0)
            &&& forall|i: int, j: int|
                0 <= i < j < asked.len() && (#[trigger] asked[i]).0 == (#[trigger] asked[j]).0
                    ==> asked[i].1
        }),
{
    asked_in_vain_is_remembered(known, failures, list);
}

proof fn asked_in_vain_is_remembered(
    known: Seq<KnownDevice>,
    failures: Set<SerialKey>,
    list: Seq<UsbDevice>,
)
    ensures
        ({
            let walked = walk(known, failures, list);
            let asked = walked.asked;
            &&& failures.subset_of(walked.failures)
            &&& forall|i: int|
                0 <= i < asked.len() && !(#[trigger] asked[i]).1 ==> walked.failures.contains(
                    asked[i].0,
                )
            &&& forall|i: int| 0 <= i < asked.len() ==> !failures.contains((#[trigger] asked[i]).0)
            &&& forall|i: int, j: int|
                0 <= i < j < asked.len() && (#[trigger] asked[i]).0 == (#[trigger] asked[j]).0
                    ==> asked[i].1
        }),
    decreases list.len(),
{
    if list.len() > 0 {
        asked_in_vain_is_remembered(known, failures, list.drop_last());
    }
}

/// A device whose serial number the kernel has is not asked, and is found with that number, whatever
/// came of asking it before.
pub proof fn kernel_serial_spares_the_device(known: Seq<KnownDevice>, before: Walk, usb: UsbDevice)
    requires
        usb.sighted(known) is Some,
        usb.kernel is Some,
    ensures
        step(known, before, usb).asked == before.asked,
        step(known, before, usb).failures == before.failures,
        step(known, before, usb).state.found == before.state.found.push(
            usb.sighted(known)->0.detected(usb.kernel),
        ),
{
}

/// The numbers of the known devices in a list.
pub open spec fn known_numbers(known: Seq<KnownDevice>, list: Seq<UsbDevice>) -> Seq<usize>
    decreases list.len(),
{
    if list.len() == 0 {
        Seq::empty()
    } else {
        let front = known_numbers(known, list.drop_last());
        if list.last().sighted(known) is Some {
            front.push(list.last().device)
        } else {
            front
        }
    }
}

/// Every known device is found, with or without a serial number, and no other device is.
pub proof fn known_devices_are_found(
    known: Seq<KnownDevice>,
    failures: Set<SerialKey>,
    list: Seq<UsbDevice>,
)
    ensures
        walk(known, failures, list).state.found.map_values(|found: DetectedDevice| found.device)
            == known_numbers(known, list),
    decreases list.len(),
{
    let found = walk(known, failures, list).state.found;
    let number = |found: DetectedDevice| found.device;
    if list.len() > 0 {
        known_devices_are_found(known, failures, list.drop_last());
        let front = walk(known, failures, list.drop_last()).state.found;
        if list.last().sighted(known) is Some {
            assert(found.map_values(number) =~= front.map_values(number).push(list.last().device));
        }
    }
    assert(found.map_values(number) =~= known_numbers(known, list));
}

/// Says which of the devices are TL LCDs, whose identity has to be read: daisy-chained TL LCDs all
/// give the same serial number.
pub fn probe_tl_lcd_port_indices(devices: &[DetectedDevice]) -> (probes: Vec<usize>)
    ensures
        forall|i: int|
            0 <= i < probes@.len() ==> (#[trigger] probes@[i]) < devices@.len()
                && devices@[probes@[i] as int].family == DeviceFamily::TlLcd,
        forall|i: int, j: int| 0 <= i < j < probes@.len() ==> probes@[i] < probes@[j],
        forall|k: usize|
            k < devices@.len() && devices@[k as int].family == DeviceFamily::TlLcd
                ==> #[trigger] probes@.contains(k),
{
    let mut probes: Vec<usize> = Vec::new();
    let mut at: usize = 0;
    while at < devices.len()
        invariant
            at <= devices@.len(),
            forall|i: int|
                0 <= i < probes@.len() ==> (#[trigger] probes@[i]) < at
                    && devices@[probes@[i] as int].family == DeviceFamily::TlLcd,
            forall|i: int, j: int| 0 <= i < j < probes@.len() ==> probes@[i] < probes@[j],
            forall|k: usize|
                k < at && devices@[k as int].family == DeviceFamily::TlLcd
                    ==> #[trigger] probes@.contains(k),
        decreases devices.len() - at,
    {
        if devices[at].family == DeviceFamily::TlLcd {
            let ghost before = probes@;
            probes.push(at);
            proof {
                assert forall|k: usize|
                    k < at + 1 && devices@[k as int].family
                        == DeviceFamily::TlLcd implies #[trigger] probes@.contains(k) by {
                    if k < at {
                        assert(before.contains(k));
                        let i = choose|i: int| 0 <= i < before.len() && before[i] == k;
                        assert(probes@[i] == k);
                    } else {
                        assert(probes@[before.len() as int] == k);
                    }
                }
            }
        }
        at = at + 1;
    }
    probes
}

/// The identity of a TL LCD: the port that it hangs on, and its number there.
#[derive(Clone, Copy, Debug, PartialEq, Eq, Structural)]
pub struct PortIndex {
    pub port: u8,
    pub index: u8,
}

/// The identities of TL LCDs by their device ids.
pub struct PortIndices {
    entries: Vec<(String, PortIndex)>,
}

spec fn entries_map(entries: Seq<(String, PortIndex)>) -> Map<Seq<char>, PortIndex>
    decreases entries.len(),
{
    if entries.len() == 0 {
        Map::empty()
    } else {
        entries_map(entries.drop_last()).insert(entries.last().0@, entries.last().1)
    }
}

impl View for PortIndices {
    type V = Map<Seq<char>, PortIndex>;

    closed spec fn view(&self) -> Map<Seq<char>, PortIndex> {
        entries_map(self.entries@)
    }
}

impl PortIndices {
    /// No identity has been read yet.
    pub fn new() -> (indices: Self)
        ensures
            indices@ == Map::<Seq<char>, PortIndex>::empty(),
    {
        PortIndices { entries: Vec::new() }
    }

    /// Takes the identity of a TL LCD, if it could be read. A later one with the same device id
    /// replaces an earlier one.
    pub fn record(&mut self, device_id: String, identity: Option<PortIndex>)
        ensures
            final(self)@ == (match identity {
                Some(identity) => old(self)@.insert(device_id@, identity),
                None => old(self)@,
            }),
    {
        if let Some(identity) = identity {
            let ghost before = self.entries@;
            self.entries.push((device_id, identity));
            assert(self.entries@.drop_last() =~= before);
        }
    }

    /// The identity of a TL LCD.
    pub fn get(&self, device_id: &String) -> (identity: Option<PortIndex>)
        ensures
            identity == self@.get(device_id@),
    {
        let mut at = self.entries.len();
        assert(self.entries@.take(at as int) =~= self.entries@);
        while at > 0
            invariant
                at <= self.entries@.len(),
                self@.get(device_id@) == entries_map(self.entries@.take(at as int)).get(
                    device_id@,
                ),
            decreases at,
        {
            at = at - 1;
            assert(self.entries@.take(at + 1).drop_last() =~= self.entries@.take(at as int));
            if self.entries[at].0 == *device_id {
                return Some(self.entries[at].1);
            }
        }
        assert(self.entries@.take(0) =~= Seq::empty());
        None
    }
}

/// The device with this id, if its descriptor can be read.
pub open spec fn has_id(device: Option<UsbId>, vid: u16, pid: u16) -> bool {
    device matches Some(id) && id.vid == vid && id.pid == pid
}

/// Finds the first device with a vendor and product id. An id is missing where the descriptor of the
/// device cannot be read.
pub fn find_usb_device(ids: &[Option<UsbId>], vid: u16, pid: u16) -> (device: Option<usize>)
    ensures
        match device {
            Some(at) => {
                &&& at < ids@.len()
                &&& has_id(ids@[at as int], vid, pid)
                &&& forall|i: int| 0 <= i < at ==> !has_id(#[trigger] ids@[i], vid, pid)
            },
            None => forall|i: int| 0 <= i < ids@.len() ==> !has_id(#[trigger] ids@[i], vid, pid),
        },
{
    let mut at: usize = 0;
    while at < ids.len()
        invariant
            at <= ids@.len(),
            forall|i: int| 0 <= i < at ==> !has_id(#[trigger] ids@[i], vid, pid),
        decreases ids.len() - at,
    {
        if let Some(id) = ids[at] {
            if id.vid == vid && id.pid == pid {
                return Some(at);
            }
        }
        at = at + 1;
    }
    None
}

/// The entry of a device is the first one in the table with both its vendor and its product id; a
/// device of which the table has none is not known.
pub proof fn first_entry_with_the_id_counts(known: Seq<KnownDevice>, id: UsbId, k: int)
    requires
        0 <= k <= known.len(),
        forall|i: int|
            0 <= i < k ==> (#[trigger] known[i]).id.vid != id.vid || known[i].id.pid != id.pid,
        k < known.len() ==> known[k].id.vid == id.vid && known[k].id.pid == id.pid,
    ensures
        k < known.len() ==> known_entry(known, id) == Some(known[k]),
        k == known.len() ==> known_entry(known, id) is None,
    decreases k,
{
    if k > 0 {
        let rest = known.skip(1);
        assert(known[0].id != id);
        assert forall|i: int| 0 <= i < k - 1 implies (#[trigger] rest[i]).id.vid != id.vid
            || rest[i].id.pid != id.pid by {
            assert(rest[i] == known[i + 1]);
        }
        if k < known.len() {
            assert(rest[k - 1] == known[k]);
        }
        first_entry_with_the_id_counts(rest, id, k - 1);
    }
}

/// A device is known exactly when its descriptor can be read and its id is in the table; it is then
/// found at its place, with what the table says of it and the serial number, and is told apart by its
/// id and its place.
pub proof fn devices_are_found_as_they_are(
    known: Seq<KnownDevice>,
    device: usize,
    bus: u8,
    address: u8,
    id: Option<UsbId>,
    serial: Option<String>,
)
    ensures
        sighting(known, device, bus, address, id) is Some <==> id is Some && known_entry(
            known,
            id->0,
        ) is Some,
        sighting(known, device, bus, address, id) matches Some(sighted) ==> {
            let entry = known_entry(known, id->0)->0;
            let found = sighted.detected(serial);
            &&& sighted.entry == entry
            &&& found.device == device
            &&& found.family == entry.family
            &&& found.name == entry.name
            &&& found.vid == entry.id.vid && found.pid == entry.id.pid
            &&& found.bus == bus && found.address == address
            &&& found.serial == serial
            &&& found.hid_usage_page == entry.hid_usage_page
            &&& sighted.key().vid == entry.id.vid && sighted.key().pid == entry.id.pid
            &&& sighted.key().bus == bus && sighted.key().address == address
        },
{
}

/// A device is asked for its serial number only if the kernel has none for it and it has not been asked
/// in vain. What is found is added at the end of what was found before.
pub proof fn devices_are_asked_only_if_they_must(
    state: EnumerationState,
    failures: Set<SerialKey>,
    kernel: Option<String>,
    serial: Option<String>,
)
    requires
        state.sighted is Some,
    ensures
        state.must_ask(failures, kernel) <==> kernel is None && !failures.contains(
            state.sighted->0.key(),
        ),
        state.settled(serial).sighted is None,
        state.settled(serial).found.len() == state.found.len() + 1,
        state.settled(serial).found.drop_last() == state.found,
        state.settled(serial).found.last() == state.sighted->0.detected(serial),
        EnumerationState::begin().found.len() == 0,
        EnumerationState::begin().sighted is None,
{
    assert(state.settled(serial).found.drop_last() =~= state.found);
}

/// Devices in the order of their places have rising numbers, where a place is numbered by its bus and
/// then by its address. A device is at its own place and at no other.
pub proof fn order_is_that_of_the_places(devices: Seq<DetectedDevice>, i: int, j: int)
    requires
        in_order(devices),
        0 <= i < j < devices.len(),
    ensures
        devices[i].bus * 256 + devices[i].address <= devices[j].bus * 256 + devices[j].address,
        forall|bus: u8, address: u8| #[trigger]
            is_at(bus, address)(devices[i]) <==> devices[i].bus == bus && devices[i].address
                == address,
{
    assert(not_behind(devices[i], devices[j]));
}

/// A device has an id only if its descriptor can be read, and then it has one.
pub proof fn devices_have_one_id(device: Option<UsbId>, vid: u16, pid: u16)
    ensures
        has_id(device, vid, pid) <==> device == Some(UsbId { vid, pid }),
{
}

} // verus!
