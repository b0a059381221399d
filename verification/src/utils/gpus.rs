//! Graphics adapters as the portable graphics layer enumerates them.

pub mod vulkan;

use crate::snapshot::Snapshot;
use crate::utils::platform::Platform;
use vstd::prelude::*;

verus! {

/// The graphics API behind an adapter.
#[derive(Clone, Copy, Debug, PartialEq, Eq, Structural)]
pub enum Backend {
    Vulkan,
    Metal,
    Dx12,
    Gl,
}

impl Backend {
    /// The name under which the backend is shown.
    pub open spec fn label(self) -> Seq<char> {
        match self {
            Backend::Vulkan => "Vulkan"@,
            Backend::Metal => "Metal"@,
            Backend::Dx12 => "DirectX 12"@,
            Backend::Gl => "OpenGL"@,
        }
    }

    /// The label as a string.
    pub fn to_string(&self) -> (s: String)
        ensures
            s@ == self.label(),
    {
        match self {
            Backend::Vulkan => String::from_str("Vulkan"),
            Backend::Metal => String::from_str("Metal"),
            Backend::Dx12 => String::from_str("DirectX 12"),
            Backend::Gl => String::from_str("OpenGL"),
        }
    }
}

/// The kind of an adapter.
#[derive(Clone, Copy, Debug, PartialEq, Eq, Structural)]
pub enum DeviceType {
    Other,
    IntegratedGpu,
    DiscreteGpu,
    VirtualGpu,
    Cpu,
}

impl DeviceType {
    /// The name under which the kind is shown.
    pub open spec fn label(self) -> Seq<char> {
        match self {
            DeviceType::Cpu => "CPU"@,
            DeviceType::DiscreteGpu => "Discrete Graphics"@,
            DeviceType::IntegratedGpu => "Integrated Graphics"@,
            DeviceType::VirtualGpu => "Virtual Graphics"@,
            DeviceType::Other => "Other"@,
        }
    }

    /// The label as a string.
    pub fn to_string(&self) -> (s: String)
        ensures
            s@ == self.label(),
    {
        match self {
            DeviceType::Cpu => String::from_str("CPU"),
            DeviceType::DiscreteGpu => String::from_str("Discrete Graphics"),
            DeviceType::IntegratedGpu => String::from_str("Integrated Graphics"),
            DeviceType::VirtualGpu => String::from_str("Virtual Graphics"),
            DeviceType::Other => String::from_str("Other"),
        }
    }
}

/// The backends whose adapters are enumerated on an operating system.
pub open spec fn backends_of(platform: Platform) -> Seq<Backend> {
    match platform {
        Platform::Windows => seq![Backend::Dx12],
        Platform::MacOS => seq![Backend::Metal],
        Platform::Linux => seq![Backend::Vulkan, Backend::Gl],
        Platform::Unknown => Seq::empty(),
    }
}

/// Chooses the backends to enumerate on an operating system: DirectX 12 on
/// Windows, Metal on macOS, Vulkan and OpenGL on Linux.
pub fn backends_for(platform: Platform) -> (backends: Vec<Backend>)
    ensures
        backends@ == backends_of(platform),
{
    let mut backends: Vec<Backend> = Vec::new();
    match platform {
        Platform::Windows => {
            backends.push(Backend::Dx12);
        },
        Platform::MacOS => {
            backends.push(Backend::Metal);
        },
        Platform::Linux => {
            backends.push(Backend::Vulkan);
            backends.push(Backend::Gl);
        },
        Platform::Unknown => {},
    }
    backends
}

/// One graphics adapter.
#[derive(Debug, PartialEq, Eq)]
pub struct Gpu {
    /// The name of the adapter.
    pub name: String,
    /// The vendor ID of the adapter.
    pub vendor_id: u32,
    /// The device ID of the adapter.
    pub device_id: u32,
    /// The driver in use.
    pub driver: String,
    /// The backend that enumerated the adapter.
    pub backend: Backend,
    /// The kind of adapter.
    pub device_type: DeviceType,
}

/// The graphics adapters of the machine.
#[derive(Debug, PartialEq, Eq)]
pub struct GpusInfo {
    /// The number of adapters.
    pub count: u64,
    /// The adapters, in enumeration order.
    pub gpus: Vec<Gpu>,
}

/// What a `Gpu` says: its fields, with texts and lists as sequences.
pub ghost struct GpuModel {
    pub name: Seq<char>,
    pub vendor_id: u32,
    pub device_id: u32,
    pub driver: Seq<char>,
    pub backend: Backend,
    pub device_type: DeviceType,
}

/// What a `GpusInfo` says: its fields, with texts and lists as sequences.
pub ghost struct GpusInfoModel {
    pub count: u64,
    pub gpus: Seq<GpuModel>,
}

impl DeepView for Gpu {
    type V = GpuModel;

    open spec fn deep_view(&self) -> GpuModel {
        GpuModel {
            name: self.name@,
            vendor_id: self.vendor_id,
            device_id: self.device_id,
            driver: self.driver@,
            backend: self.backend,
            device_type: self.device_type,
        }
    }
}

impl DeepView for GpusInfo {
    type V = GpusInfoModel;

    open spec fn deep_view(&self) -> GpusInfoModel {
        GpusInfoModel { count: self.count, gpus: self.gpus.deep_view() }
    }
}

impl Snapshot for Gpu {
    fn duplicate(&self) -> (copy: Gpu) {
        Gpu {
            name: self.name.clone(),
            vendor_id: self.vendor_id,
            device_id: self.device_id,
            driver: self.driver.clone(),
            backend: self.backend,
            device_type: self.device_type,
        }
    }
}

impl Snapshot for GpusInfo {
    fn duplicate(&self) -> (copy: GpusInfo) {
        GpusInfo { count: self.count, gpus: self.gpus.duplicate() }
    }
}

impl GpusInfo {
    /// Whether the count is the number of adapters.
    pub open spec fn wf(&self) -> bool {
        self.count == self.gpus@.len()
    }

    /// The snapshot of the adapters that were enumerated: the same adapters
    /// in the same order, and their number.
    pub fn get(adapters: Vec<Gpu>) -> (info: GpusInfo)
        ensures
            info.gpus == adapters,
            info.count == adapters@.len(),
            info.wf(),
    {
        let count = adapters.len();
        GpusInfo { count: count as u64, gpus: adapters }
    }
}

} // verus!
