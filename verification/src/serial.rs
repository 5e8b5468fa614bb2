//! The serial numbers of USB devices.

use vstd::prelude::*;
use std::collections::HashSet;
use crate::text;
use crate::text::{parse_byte, trim};

verus! {

broadcast use vstd::std_specs::hash::group_hash_axioms;

/// What the kernel says of a USB device: the contents of three of its files, as far as they can be
/// read.
#[derive(Debug, PartialEq, Eq)]
pub struct SysfsEntry {
    pub busnum: Option<String>,
    pub devnum: Option<String>,
    pub serial: Option<String>,
}

impl SysfsEntry {
    /// The entry is that of the device at this place.
    pub open spec fn is_at(self, bus: u8, address: u8) -> bool {
        &&& self.busnum matches Some(number) && text::byte_of(text::trimmed(number@)) == Some(bus)
        &&& self.devnum matches Some(number) && text::byte_of(text::trimmed(number@)) == Some(
            address,
        )
    }
}

/// The serial number that the kernel read when the device at this place was plugged in. An entry of
/// the device with no serial number ends the search.
pub open spec fn kernel_serial(entries: Seq<SysfsEntry>, bus: u8, address: u8) -> Option<Seq<char>>
    decreases entries.len(),
{
    if entries.len() == 0 {
        None
    } else if !entries[0].is_at(bus, address) {
        kernel_serial(entries.skip(1), bus, address)
    } else {
        match entries[0].serial {
            None => None,
            Some(serial) => if text::trimmed(serial@).len() == 0 {
                kernel_serial(entries.skip(1), bus, address)
            } else {
                Some(text::trimmed(serial@))
            },
        }
    }
}

fn number_is(file: &Option<String>, number: u8) -> (is: bool)
    ensures
        is == (file matches Some(content) && text::byte_of(text::trimmed(content@)) == Some(number)),
{
    match file {
        None => false,
        Some(content) => match parse_byte(trim(content.as_str()).as_str()) {
            Some(byte) => byte == number,
            None => false,
        },
    }
}

/// Looks up the serial number that the kernel read when the device at this place was plugged in.
/// Unlike a request to the device this cannot upset a device that has no string descriptors.
pub fn sysfs_serial(entries: &[SysfsEntry], bus: u8, address: u8) -> (serial: Option<String>)
    ensures
        match (serial, kernel_serial(entries@, bus, address)) {
            (Some(found), Some(there)) => found@ == there,
            (None, None) => true,
            _ => false,
        },
{
    let mut at: usize = 0;
    assert(entries@.skip(0) =~= entries@);
    while at < entries.len()
        invariant
            at <= entries@.len(),
            kernel_serial(entries@, bus, address) == kernel_serial(
                entries@.skip(at as int),
                bus,
                address,
            ),
        decreases entries.len() - at,
    {
        let entry = &entries[at];
        assert(entries@.skip(at as int).skip(1) =~= entries@.skip(at + 1));
        if number_is(&entry.busnum, bus) && number_is(&entry.devnum, address) {
            match &entry.serial {
                None => {
                    return None;
                },
                Some(content) => {
                    let serial = trim(content.as_str());
                    if !serial.as_str().is_empty() {
                        return Some(serial);
                    }
                },
            }
        }
        at = at + 1;
    }
    None
}

/// What a device is told apart by when it has been asked for its serial number.
#[derive(Clone, Copy, Debug, PartialEq, Eq, Structural)]
pub struct SerialKey {
    pub vid: u16,
    pub pid: u16,
    pub bus: u8,
    pub address: u8,
}

/// The devices that have been asked for their serial number in vain. They are not asked again: some
/// controllers that do not answer stop working when they are asked once a second. A device that is
/// plugged in anew in good order gets its serial number from the kernel, and is not looked up here.
pub struct SerialFailures {
    keys: HashSet<u64>,
}

spec fn packed(key: SerialKey) -> u64 {
    (key.vid * 0x1_0000_0000 + key.pid * 0x1_0000 + key.bus * 0x100 + key.address) as u64
}

fn pack(key: SerialKey) -> (number: u64)
    ensures
        number == packed(key),
{
    key.vid as u64 * 0x1_0000_0000 + key.pid as u64 * 0x1_0000 + key.bus as u64 * 0x100
        + key.address as u64
}

proof fn packed_keys_differ(a: SerialKey, b: SerialKey)
    ensures
        packed(a) == packed(b) ==> a == b,
{
}

impl View for SerialFailures {
    type V = Set<SerialKey>;

    closed spec fn view(&self) -> Set<SerialKey> {
        Set::new(|key: SerialKey| self.keys@.contains(packed(key)))
    }
}

impl SerialFailures {
    /// No device has been asked yet.
    pub fn new() -> (failures: Self)
        ensures
            failures@ == Set::<SerialKey>::empty(),
    {
        SerialFailures { keys: HashSet::new() }
    }

    /// Whether a device has been asked in vain.
    pub fn contains(&self, key: SerialKey) -> (is: bool)
        ensures
            is == self@.contains(key),
    {
        self.keys.contains(&pack(key))
    }

    /// Notes that a device has been asked in vain.
    pub fn insert(&mut self, key: SerialKey)
        ensures
            final(self)@ == old(self)@.insert(key),
    {
        self.keys.insert(pack(key));
        proof {
            assert forall|other: SerialKey| #[trigger]
                self@.contains(other) == old(self)@.insert(key).contains(other) by {
                packed_keys_differ(key, other);
            }
        }
    }
}

/// The serial number is that of the first entry of the device that has a serial number with something
/// besides white space in it. Entries of other devices do not matter, nor does what comes behind. If an
/// entry of the device without a serial number comes first, or none comes at all, there is none.
pub proof fn first_entry_of_the_device_decides(
    entries: Seq<SysfsEntry>,
    bus: u8,
    address: u8,
    k: int,
)
    requires
        0 <= k <= entries.len(),
        forall|i: int|
            0 <= i < k ==> !(#[trigger] entries[i]).is_at(bus, address) || (
            entries[i].serial matches Some(serial) && text::trimmed(serial@).len() == 0),
        k < entries.len() ==> entries[k].is_at(bus, address) && (
        entries[k].serial matches Some(serial) ==> text::trimmed(serial@).len() > 0),
    ensures
        k == entries.len() ==> kernel_serial(entries, bus, address) is None,
        k < entries.len() ==> kernel_serial(entries, bus, address) == match entries[k].serial {
            Some(serial) => Some(text::trimmed(serial@)),
            None => None,
        },
    decreases k,
{
    if k > 0 {
        let rest = entries.skip(1);
        assert(entries[0] == entries[0]);
        assert forall|i: int| 0 <= i < k - 1 implies !(#[trigger] rest[i]).is_at(bus, address) || (
        rest[i].serial matches Some(serial) && text::trimmed(serial@).len() == 0) by {
            assert(rest[i] == entries[i + 1]);
        }
        if k < entries.len() {
            assert(rest[k - 1] == entries[k]);
        }
        first_entry_of_the_device_decides(rest, bus, address, k - 1);
    }
}

/// An entry is that of a device if its bus number and its device number, each without the white space
/// around it, are those of the device. An entry that lacks one of them is nobody's.
pub proof fn entries_belong_to_one_place(entry: SysfsEntry, bus: u8, address: u8)
    ensures
        entry.is_at(bus, address) ==> entry.busnum is Some && entry.devnum is Some,
        entry.is_at(bus, address) <==> {
            &&& entry.busnum is Some && text::byte_of(text::trimmed(entry.busnum->0@)) == Some(bus)
            &&& entry.devnum is Some && text::byte_of(text::trimmed(entry.devnum->0@)) == Some(
                address,
            )
        },
        forall|other_bus: u8, other_address: u8| #[trigger]
            entry.is_at(other_bus, other_address) && entry.is_at(bus, address) ==> other_bus == bus
                && other_address == address,
{
}

} // verus!
