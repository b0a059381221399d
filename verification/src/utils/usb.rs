//! The USB probe.

use crate::snapshot::Snapshot;
use crate::types::{CoreError, CoreErrorKind, CoreErrorModel};
use vstd::prelude::*;

verus! {

/// The speed at which a USB device is connected.
#[derive(Clone, Copy, Debug, PartialEq, Eq, Structural)]
pub enum Speed {
    Low,
    Full,
    High,
    Super,
    SuperPlus,
    /// A speed that has no name here.
    Other,
}

impl Speed {
    /// The name under which the speed is shown.
    pub open spec fn label(self) -> Seq<char> {
        match self {
            Speed::Low => "Low speed (1.5 Mbit)"@,
            Speed::Full => "Full speed (12 Mbit)"@,
            Speed::High => "High speed (480 Mbit)"@,
            Speed::Super => "Super speed (5,000 Mbit)"@,
            Speed::SuperPlus => "Super speed (10,000 Mbit)"@,
            Speed::Other => "Unknown"@,
        }
    }

    /// The label as a string.
    pub fn to_string(&self) -> (s: String)
        ensures
            s@ == self.label(),
    {
        match self {
            Speed::Low => String::from_str("Low speed (1.5 Mbit)"),
            Speed::Full => String::from_str("Full speed (12 Mbit)"),
            Speed::High => String::from_str("High speed (480 Mbit)"),
            Speed::Super => String::from_str("Super speed (5,000 Mbit)"),
            Speed::SuperPlus => String::from_str("Super speed (10,000 Mbit)"),
            Speed::Other => String::from_str("Unknown"),
        }
    }
}

/// The label of a speed that may be unknown to the system: nothing where
/// the system told none.
pub fn speed_label(speed: &Option<Speed>) -> (r: Option<String>)
    ensures
        match speed {
            Some(s) => r matches Some(text) && text@ == s.label(),
            None => r is None,
        },
{
    match speed {
        Some(s) => Some(s.to_string()),
        None => None,
    }
}

/// One interface of a USB device.
#[derive(Debug, PartialEq, Eq)]
pub struct USBInterface {
    pub interface_number: u8,
    pub class: u8,
    pub subclass: u8,
    pub protocol: u8,
    pub interface_string: Option<String>,
}

/// One USB device of the machine.
#[derive(Debug, PartialEq, Eq)]
pub struct USBDevice {
    /// The position of the device in the enumeration.
    pub index: usize,
    pub bus_number: u8,
    pub device_address: u8,
    pub vendor_id: u16,
    pub product_id: u16,
    pub device_version: u16,
    pub class: u8,
    pub subclass: u8,
    pub protocol: u8,
    pub speed: Option<Speed>,
    pub manufacturer_string: Option<String>,
    pub product_string: Option<String>,
    pub serial_number: Option<String>,
    pub interfaces: Vec<USBInterface>,
}

/// The USB devices of the machine.
#[derive(Debug, PartialEq, Eq)]
pub struct USBInfo {
    /// The number of devices.
    pub total_devices: usize,
    /// The devices, in enumeration order.
    pub devices: Vec<USBDevice>,
}

/// What a `USBInterface` says: its fields, with texts and lists as sequences.
pub ghost struct USBInterfaceModel {
    pub interface_number: u8,
    pub class: u8,
    pub subclass: u8,
    pub protocol: u8,
    pub interface_string: Option<Seq<char>>,
}

/// What a `USBDevice` says: its fields, with texts and lists as sequences.
pub ghost struct USBDeviceModel {
    pub index: usize,
    pub bus_number: u8,
    pub device_address: u8,
    pub vendor_id: u16,
    pub product_id: u16,
    pub device_version: u16,
    pub class: u8,
    pub subclass: u8,
    pub protocol: u8,
    pub speed: Option<Speed>,
    pub manufacturer_string: Option<Seq<char>>,
    pub product_string: Option<Seq<char>>,
    pub serial_number: Option<Seq<char>>,
    pub interfaces: Seq<USBInterfaceModel>,
}

/// What a `USBInfo` says: its fields, with texts and lists as sequences.
pub ghost struct USBInfoModel {
    pub total_devices: usize,
    pub devices: Seq<USBDeviceModel>,
}

impl DeepView for USBInterface {
    type V = USBInterfaceModel;

    open spec fn deep_view(&self) -> USBInterfaceModel {
        USBInterfaceModel {
            interface_number: self.interface_number,
            class: self.class,
            subclass: self.subclass,
            protocol: self.protocol,
            interface_string: self.interface_string.deep_view(),
        }
    }
}

impl DeepView for USBDevice {
    type V = USBDeviceModel;

    open spec fn deep_view(&self) -> USBDeviceModel {
        USBDeviceModel {
            index: self.index,
            bus_number: self.bus_number,
            device_address: self.device_address,
            vendor_id: self.vendor_id,
            product_id: self.product_id,
            device_version: self.device_version,
            class: self.class,
            subclass: self.subclass,
            protocol: self.protocol,
            speed: self.speed,
            manufacturer_string: self.manufacturer_string.deep_view(),
            product_string: self.product_string.deep_view(),
            serial_number: self.serial_number.deep_view(),
            interfaces: self.interfaces.deep_view(),
        }
    }
}

impl DeepView for USBInfo {
    type V = USBInfoModel;

    open spec fn deep_view(&self) -> USBInfoModel {
        USBInfoModel { total_devices: self.total_devices, devices: self.devices.deep_view() }
    }
}

impl Snapshot for USBInterface {
    fn duplicate(&self) -> (copy: USBInterface) {
        USBInterface {
            interface_number: self.interface_number,
            class: self.class,
            subclass: self.subclass,
            protocol: self.protocol,
            interface_string: self.interface_string.duplicate(),
        }
    }
}

impl Snapshot for USBDevice {
    fn duplicate(&self) -> (copy: USBDevice) {
        USBDevice {
            index: self.index,
            bus_number: self.bus_number,
            device_address: self.device_address,
            vendor_id: self.vendor_id,
            product_id: self.product_id,
            device_version: self.device_version,
            class: self.class,
            subclass: self.subclass,
            protocol: self.protocol,
            speed: self.speed,
            manufacturer_string: self.manufacturer_string.duplicate(),
            product_string: self.product_string.duplicate(),
            serial_number: self.serial_number.duplicate(),
            interfaces: self.interfaces.duplicate(),
        }
    }
}

impl Snapshot for USBInfo {
    fn duplicate(&self) -> (copy: USBInfo) {
        USBInfo { total_devices: self.total_devices, devices: self.devices.duplicate() }
    }
}

/// A device as it was listed, at a position of the enumeration.
pub open spec fn device_at(listed: USBDevice, position: int) -> USBDevice {
    USBDevice { index: position as usize, ..listed }
}

impl USBInfo {
    /// Whether the count is the number of devices and each device knows
    /// its position.
    pub open spec fn wf(&self) -> bool {
        &&& self.total_devices == self.devices@.len()
        &&& forall|i: int| 0 <= i < self.devices@.len() ==> (#[trigger] self.devices@[i]).index == i
    }

    /// The outcome of the probe from the outcome of the listing. The devices
    /// are numbered in enumeration order; a listing that failed gives a
    /// `USBInfoError` with its message.
    pub fn get(listing: Result<Vec<USBDevice>, String>) -> (r: Result<USBInfo, CoreError>)
        ensures
            match listing {
                Ok(listed) => r matches Ok(info) && {
                    &&& info.wf()
                    &&& info.devices@.len() == listed@.len()
                    &&& forall|i: int|
                        0 <= i < listed@.len() ==> #[trigger] info.devices@[i] == device_at(
                            listed@[i],
                            i,
                        )
                },
                Err(message) => r matches Err(e) && e.deep_view() == (CoreErrorModel {
                    kind: CoreErrorKind::USBInfoError,
                    detail: message@,
                }),
            },
    {
        match listing {
            Err(message) => Err(CoreError::new(CoreErrorKind::USBInfoError, message)),
            Ok(listed) => {
                let mut devices = listed;
                let mut i: usize = 0;
                while i < devices.len()
                    invariant
                        0 <= i <= devices.len(),
                        devices@.len() == listed@.len(),
                        forall|j: int|
                            0 <= j < i ==> #[trigger] devices@[j] == device_at(listed@[j], j),
                        forall|j: int|
                            i <= j < devices@.len() ==> #[trigger] devices@[j] == listed@[j],
                    decreases devices.len() - i,
                {
                    devices[i].index = i;
                    i += 1;
                }
                Ok(USBInfo { total_devices: devices.len(), devices })
            },
        }
    }
}

} // verus!
