//! The discovery engine: what one inquiry reports of each device is merged
//! into one record per address, and the list is handed over when the inquiry
//! stops.

use crate::address::BdAddr;
use vstd::prelude::*;

verus! {

/// The bits of a class of device that tell a keyboard: the five bits of the
/// major class and the keyboard bit of the minor class.
pub const KEYBOARD_CLASS_MASK: u32 = 0x1F40;

/// What those bits hold for a keyboard: major class peripheral, keyboard bit set.
pub const KEYBOARD_CLASS: u32 = 0x0540;

/// Major device class: five bits above the six bits of the minor class and
/// the two format bits.
pub open spec fn major_class(cod: u32) -> u32 {
    (cod >> 8) & 0x1f
}

/// Minor device class: six bits above the two format bits.
pub open spec fn minor_class(cod: u32) -> u32 {
    (cod >> 2) & 0x3f
}

/// The class is that of a keyboard: the major class is peripheral and the
/// keyboard bit of the minor class is set.
pub open spec fn keyboard_class(cod: u32) -> bool {
    major_class(cod) == 0b00101 && minor_class(cod) & 0b010000 != 0
}

/// Tells whether a class of device is that of a keyboard.
pub fn is_keyboard_cod(cod: u32) -> (r: bool)
    ensures
        r == keyboard_class(cod),
{
    assert(((cod & 0x1F40) == 0x0540) == (((cod >> 8) & 0x1f) == 0b00101 && ((cod >> 2) & 0x3f)
        & 0b010000 != 0)) by (bit_vector);
    (cod & KEYBOARD_CLASS_MASK) == KEYBOARD_CLASS
}

/// Length of an inquiry in units of 1.28 seconds, rounded down, and at most 255.
pub open spec fn inquiry_length(seconds: u64) -> int {
    if seconds * 100 / 128 > 255 {
        255
    } else {
        seconds * 100 / 128
    }
}

/// Converts the length of an inquiry from seconds to units of 1.28 seconds.
pub fn inquiry_ticks(seconds: u64) -> (ticks: u8)
    ensures
        ticks == inquiry_length(seconds),
{
    if seconds >= 327 {
        255
    } else {
        (seconds * 100 / 128) as u8
    }
}

/// One property that an inquiry result reports of a device.
#[derive(Debug)]
pub enum DeviceProperty {
    /// The name of the device.
    Name(String),
    /// The class of device.
    ClassOfDevice(u32),
    /// The received signal strength.
    Rssi(i8),
    /// An extended inquiry response, which is not looked into.
    Eir,
    /// Any other property.
    Other,
}

/// What is known of a device that an inquiry found.
#[derive(Debug)]
pub struct DiscoveredDevice {
    pub bda: BdAddr,
    pub name: Option<String>,
    pub rssi: Option<i8>,
    pub cod: Option<u32>,
}

/// The stronger of two signal strengths, where both are known.
pub open spec fn stronger(a: Option<i8>, b: Option<i8>) -> Option<i8> {
    match (a, b) {
        (Some(x), Some(y)) => Some(
            if x >= y {
                x
            } else {
                y
            },
        ),
        (None, Some(y)) => Some(y),
        (_, None) => a,
    }
}

/// A record after a later report of the same device has been merged into it:
/// a name and a class in the later report replace the earlier ones, and the
/// signal strength is the strongest seen.
pub open spec fn merged(earlier: DiscoveredDevice, later: DiscoveredDevice) -> DiscoveredDevice {
    DiscoveredDevice {
        bda: earlier.bda,
        name: if later.name is Some {
            later.name
        } else {
            earlier.name
        },
        rssi: stronger(earlier.rssi, later.rssi),
        cod: if later.cod is Some {
            later.cod
        } else {
            earlier.cod
        },
    }
}

/// A record after one property has been written into it.
pub open spec fn with_property(device: DiscoveredDevice, property: DeviceProperty) -> DiscoveredDevice {
    match property {
        DeviceProperty::Name(name) => DiscoveredDevice { name: Some(name), ..device },
        DeviceProperty::ClassOfDevice(cod) => DiscoveredDevice { cod: Some(cod), ..device },
        DeviceProperty::Rssi(rssi) => DiscoveredDevice { rssi: Some(rssi), ..device },
        DeviceProperty::Eir => device,
        DeviceProperty::Other => device,
    }
}

/// A record after a list of properties has been written into it, in order.
pub open spec fn with_properties(device: DiscoveredDevice, properties: Seq<DeviceProperty>) -> DiscoveredDevice
    decreases properties.len(),
{
    if properties.len() == 0 {
        device
    } else {
        with_property(with_properties(device, properties.drop_last()), properties.last())
    }
}

impl DiscoveredDevice {
    /// A record with the given fields.
    pub fn new(bda: BdAddr, name: Option<String>, rssi: Option<i8>, cod: Option<u32>) -> (device:
        DiscoveredDevice)
        ensures
            device == (DiscoveredDevice { bda, name, rssi, cod }),
    {
        DiscoveredDevice { bda, name, rssi, cod }
    }

    /// Merges a later report of the same device into this record.
    pub fn merge(&mut self, other: DiscoveredDevice)
        ensures
            *final(self) == merged(*old(self), other),
    {
        if let Some(name) = other.name {
            self.name = Some(name);
        }
        if let Some(rssi) = other.rssi {
            if let Some(self_rssi) = self.rssi {
                self.rssi = Some(
                    if self_rssi >= rssi {
                        self_rssi
                    } else {
                        rssi
                    },
                );
            } else {
                self.rssi = Some(rssi);
            }
        }
        if let Some(cod) = other.cod {
            self.cod = Some(cod);
        }
    }

    /// The device is known to be a keyboard: its class is known and is that
    /// of a keyboard.
    pub open spec fn keyboard(&self) -> bool {
        self.cod matches Some(cod) && keyboard_class(cod)
    }

    /// Tells whether the device is known to be a keyboard.
    pub fn is_keyboard(&self) -> (r: bool)
        ensures
            r == self.keyboard(),
    {
        if let Some(cod) = self.cod {
            is_keyboard_cod(cod)
        } else {
            false
        }
    }

    /// The record of one inquiry result: the address and what the properties
    /// of the result tell, a later property replacing an earlier one of its kind.
    pub fn from_properties(bda: BdAddr, properties: &Vec<DeviceProperty>) -> (device:
        DiscoveredDevice)
        ensures
            device == with_properties(
                DiscoveredDevice { bda, name: None, rssi: None, cod: None },
                properties@,
            ),
    {
        let mut device = DiscoveredDevice::new(bda, None, None, None);
        let mut i: usize = 0;
        while i < properties.len()
            invariant
                i <= properties@.len(),
                device == with_properties(
                    DiscoveredDevice { bda, name: None, rssi: None, cod: None },
                    properties@.take(i as int),
                ),
            decreases properties@.len() - i,
        {
            assert(properties@.take(i + 1).drop_last() =~= properties@.take(i as int));
            match &properties[i] {
                DeviceProperty::Name(name) => {
                    device.name = Some(name.clone());
                },
                DeviceProperty::ClassOfDevice(cod) => {
                    device.cod = Some(*cod);
                },
                DeviceProperty::Rssi(rssi) => {
                    device.rssi = Some(*rssi);
                },
                DeviceProperty::Eir => {},
                DeviceProperty::Other => {},
            }
            i = i + 1;
        }
        assert(properties@.take(properties@.len() as int) =~= properties@);
        device
    }
}

/// No two records of the list have the same address.
pub open spec fn distinct_addresses(devices: Seq<DiscoveredDevice>) -> bool {
    forall|i: int, j: int|
        0 <= i < j < devices.len() ==> (#[trigger] devices[i]).bda != (#[trigger] devices[j]).bda
}

/// The list holds a record with the given address.
pub open spec fn knows(devices: Seq<DiscoveredDevice>, bda: BdAddr) -> bool {
    exists|i: int| 0 <= i < devices.len() && (#[trigger] devices[i]).bda == bda
}

/// What a discovery manager holds.
pub ghost struct DiscoveryState<C> {
    /// The records gathered so far, in the order in which the devices were
    /// first reported.
    pub devices: Seq<DiscoveredDevice>,
    /// Where the list goes when the inquiry stops, while a cycle is pending.
    pub callback: Option<C>,
}

/// Gathers the results of one inquiry at a time. `C` is what takes the
/// finished list.
pub struct DiscoveryManager<C> {
    devices: Vec<DiscoveredDevice>,
    callback: Option<C>,
}

impl<C> View for DiscoveryManager<C> {
    type V = DiscoveryState<C>;

    closed spec fn view(&self) -> DiscoveryState<C> {
        DiscoveryState { devices: self.devices@, callback: self.callback }
    }
}

impl<C> DiscoveryManager<C> {
    /// The list holds at most one record for each address.
    pub open spec fn wf(&self) -> bool {
        distinct_addresses(self@.devices)
    }

    /// A manager with no cycle pending and nothing gathered.
    pub fn new() -> (manager: DiscoveryManager<C>)
        ensures
            manager.wf(),
            manager@.devices == Seq::<DiscoveredDevice>::empty(),
            manager@.callback is None,
    {
        DiscoveryManager { devices: Vec::new(), callback: None }
    }

    /// Begins a cycle: forgets what was gathered before and keeps `callback`
    /// for the end of the inquiry. No cycle may be pending.
    pub fn start_discovery(&mut self, callback: C)
        requires
            old(self)@.callback is None,
        ensures
            final(self).wf(),
            final(self)@.devices == Seq::<DiscoveredDevice>::empty(),
            final(self)@.callback == Some(callback),
    {
        self.devices.clear();
        self.callback = Some(callback);
    }

    /// Tells whether a cycle is pending.
    pub fn is_pending(&self) -> (r: bool)
        ensures
            r == (self@.callback is Some),
    {
        self.callback.is_some()
    }

    /// Takes one inquiry result: merges it into the record of its address, or
    /// adds it behind the others where the address is new.
    pub fn add_result(&mut self, device: DiscoveredDevice)
        requires
            old(self).wf(),
        ensures
            final(self).wf(),
            final(self)@.callback == old(self)@.callback,
            forall|i: int|
                0 <= i < old(self)@.devices.len() && (#[trigger] old(self)@.devices[i]).bda
                    == device.bda ==> final(self)@.devices == old(self)@.devices.update(
                    i,
                    merged(old(self)@.devices[i], device),
                ),
            !knows(old(self)@.devices, device.bda) ==> final(self)@.devices == old(
                self,
            )@.devices.push(device),
    {
        let mut i: usize = 0;
        while i < self.devices.len()
            invariant
                i <= self.devices@.len(),
                self.devices@ == old(self).devices@,
                self.callback == old(self).callback,
                distinct_addresses(old(self).devices@),
                forall|k: int| 0 <= k < i ==> (#[trigger] self.devices@[k]).bda != device.bda,
            decreases self.devices@.len() - i,
        {
            if self.devices[i].bda == device.bda {
                proof {
                    BdAddr::lemma_same_bytes(self.devices@[i as int].bda, device.bda);
                }
                self.devices[i].merge(device);
                assert(self.devices@ =~= old(self).devices@.update(
                    i as int,
                    merged(old(self).devices@[i as int], device),
                ));
                assert forall|a: int, b: int| 0 <= a < b < self.devices@.len() implies (
                #[trigger] self.devices@[a]).bda != (#[trigger] self.devices@[b]).bda by {
                    assert(self.devices@[a].bda == old(self).devices@[a].bda);
                    assert(self.devices@[b].bda == old(self).devices@[b].bda);
                }
                return ;
            }
            proof {
                BdAddr::lemma_same_bytes(self.devices@[i as int].bda, device.bda);
            }
            i = i + 1;
        }
        self.devices.push(device);
    }

    /// Ends the cycle: hands back what takes the list together with the list,
    /// and holds nothing afterwards. Where no cycle is pending nothing happens.
    pub fn finish_discovery(&mut self) -> (finished: Option<(C, Vec<DiscoveredDevice>)>)
        requires
            old(self).wf(),
        ensures
            final(self).wf(),
            match old(self)@.callback {
                Some(callback) => {
                    &&& finished matches Some((taker, devices))
                    &&& taker == callback
                    &&& devices@ == old(self)@.devices
                    &&& final(self)@.devices == Seq::<DiscoveredDevice>::empty()
                    &&& final(self)@.callback is None
                },
                None => finished is None && final(self)@ == old(self)@,
            },
    {
        match self.callback.take() {
            Some(callback) => {
                let mut devices: Vec<DiscoveredDevice> = Vec::new();
                std::mem::swap(&mut devices, &mut self.devices);
                Some((callback, devices))
            },
            None => None,
        }
    }
}

} // verus!
