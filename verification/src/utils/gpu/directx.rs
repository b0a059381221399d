//! The DirectX probe (Windows).

use crate::snapshot::Snapshot;
use crate::text::{decode_utf16_lossy, utf16_lossy};
use crate::types::{CoreError, CoreErrorKind, CoreErrorModel};
use vstd::prelude::*;

verus! {

/// One adapter as DXGI describes it (`DXGI_ADAPTER_DESC`).
#[derive(Debug, PartialEq, Eq)]
pub struct AdapterDescription {
    /// The description, in UTF-16 code units.
    pub description: Vec<u16>,
    pub vendor_id: u32,
    pub device_id: u32,
    pub sub_sys_id: u32,
    pub revision: u32,
    pub dedicated_video_memory: usize,
    pub dedicated_system_memory: usize,
    pub shared_system_memory: usize,
}

/// One DirectX device.
#[derive(Debug, PartialEq, Eq)]
pub struct DirectXDevice {
    /// The position of the device in the enumeration; it is not bound to
    /// the device itself.
    pub index: usize,
    /// The name of the device.
    pub device_name: String,
    /// The device's vendor ID.
    pub vendor_id: u32,
    /// The device ID.
    pub device_id: u32,
    /// The subsystem ID.
    pub sub_sys_id: u32,
    /// The device revision.
    pub revision: u32,
    /// Dedicated video memory in bytes.
    pub dedicated_video_memory: usize,
    /// Dedicated system memory in bytes.
    pub dedicated_system_memory: usize,
    /// Shared system memory in bytes.
    pub shared_system_memory: usize,
}

/// The DirectX devices of the machine.
#[derive(Debug, PartialEq, Eq)]
pub struct DirectXInfo {
    /// The number of devices.
    pub total_devices: usize,
    /// The devices, in enumeration order.
    pub devices: Vec<DirectXDevice>,
}

/// What a `DirectXDevice` says: its fields, with texts and lists as sequences.
pub ghost struct DirectXDeviceModel {
    pub index: usize,
    pub device_name: Seq<char>,
    pub vendor_id: u32,
    pub device_id: u32,
    pub sub_sys_id: u32,
    pub revision: u32,
    pub dedicated_video_memory: usize,
    pub dedicated_system_memory: usize,
    pub shared_system_memory: usize,
}

/// What a `DirectXInfo` says: its fields, with texts and lists as sequences.
pub ghost struct DirectXInfoModel {
    pub total_devices: usize,
    pub devices: Seq<DirectXDeviceModel>,
}

impl DeepView for DirectXDevice {
    type V = DirectXDeviceModel;

    open spec fn deep_view(&self) -> DirectXDeviceModel {
        DirectXDeviceModel {
            index: self.index,
            device_name: self.device_name@,
            vendor_id: self.vendor_id,
            device_id: self.device_id,
            sub_sys_id: self.sub_sys_id,
            revision: self.revision,
            dedicated_video_memory: self.dedicated_video_memory,
            dedicated_system_memory: self.dedicated_system_memory,
            shared_system_memory: self.shared_system_memory,
        }
    }
}

impl DeepView for DirectXInfo {
    type V = DirectXInfoModel;

    open spec fn deep_view(&self) -> DirectXInfoModel {
        DirectXInfoModel { total_devices: self.total_devices, devices: self.devices.deep_view() }
    }
}

impl Snapshot for DirectXDevice {
    fn duplicate(&self) -> (copy: DirectXDevice) {
        DirectXDevice {
            index: self.index,
            device_name: self.device_name.clone(),
            vendor_id: self.vendor_id,
            device_id: self.device_id,
            sub_sys_id: self.sub_sys_id,
            revision: self.revision,
            dedicated_video_memory: self.dedicated_video_memory,
            dedicated_system_memory: self.dedicated_system_memory,
            shared_system_memory: self.shared_system_memory,
        }
    }
}

impl Snapshot for DirectXInfo {
    fn duplicate(&self) -> (copy: DirectXInfo) {
        DirectXInfo { total_devices: self.total_devices, devices: self.devices.duplicate() }
    }
}

/// The diagnostic where the DXGI factory could not be created.
pub open spec fn no_factory_detail() -> Seq<char> {
    "Failed to create DXGIFactory"@
}

/// What an adapter description says, at a position of the enumeration.
pub open spec fn adapter_model(adapter: AdapterDescription, position: int) -> DirectXDeviceModel {
    DirectXDeviceModel {
        index: position as usize,
        device_name: utf16_lossy(adapter.description@),
        vendor_id: adapter.vendor_id,
        device_id: adapter.device_id,
        sub_sys_id: adapter.sub_sys_id,
        revision: adapter.revision,
        dedicated_video_memory: adapter.dedicated_video_memory,
        dedicated_system_memory: adapter.dedicated_system_memory,
        shared_system_memory: adapter.shared_system_memory,
    }
}

impl DirectXDevice {
    /// A device from its decoded name, its position and its description.
    pub fn new(index: usize, device_name: String, adapter: &AdapterDescription) -> (device:
        DirectXDevice)
        ensures
            device.deep_view() == (DirectXDeviceModel {
                device_name: device_name@,
                ..adapter_model(*adapter, index as int)
            }),
    {
        DirectXDevice {
            index,
            device_name,
            vendor_id: adapter.vendor_id,
            device_id: adapter.device_id,
            sub_sys_id: adapter.sub_sys_id,
            revision: adapter.revision,
            dedicated_video_memory: adapter.dedicated_video_memory,
            dedicated_system_memory: adapter.dedicated_system_memory,
            shared_system_memory: adapter.shared_system_memory,
        }
    }
}

impl DirectXInfo {
    /// Whether the count is the number of devices.
    pub open spec fn wf(&self) -> bool {
        self.total_devices == self.devices@.len()
    }

    /// The outcome of the probe from the adapters that the factory
    /// enumerated, or from `None` where no factory could be created: then
    /// the probe fails with a `DirectXInfoError`. Each adapter becomes a
    /// device that carries its position and its description as text.
    pub fn get(adapters: Option<Vec<AdapterDescription>>) -> (r: Result<DirectXInfo, CoreError>)
        ensures
            match adapters {
                Some(found) => r matches Ok(info) && {
                    &&& info.wf()
                    &&& info.devices@.len() == found@.len()
                    &&& forall|i: int|
                        0 <= i < found@.len() ==> (#[trigger] info.devices@[i]).deep_view()
                            == adapter_model(found@[i], i)
                },
                None => r matches Err(e) && e.deep_view() == (CoreErrorModel {
                    kind: CoreErrorKind::DirectXInfoError,
                    detail: no_factory_detail(),
                }),
            },
    {
        let found = match adapters {
            Some(found) => found,
            None => {
                return Err(
                    CoreError::new(
                        CoreErrorKind::DirectXInfoError,
                        String::from_str("Failed to create DXGIFactory"),
                    ),
                );
            },
        };
        let mut devices: Vec<DirectXDevice> = Vec::new();
        let mut i: usize = 0;
        while i < found.len()
            invariant
                0 <= i <= found.len(),
                devices@.len() == i,
                forall|j: int|
                    0 <= j < i ==> (#[trigger] devices@[j]).deep_view() == adapter_model(
                        found@[j],
                        j,
                    ),
            decreases found.len() - i,
        {
            let adapter = &found[i];
            let name = decode_utf16_lossy(adapter.description.as_slice());
            devices.push(DirectXDevice::new(i, name, adapter));
            i += 1;
        }
        Ok(DirectXInfo { total_devices: devices.len(), devices })
    }
}

} // verus!
