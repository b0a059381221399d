//! The Metal probe (macOS).

use crate::snapshot::Snapshot;
use crate::text::{decimal, grouped_decimal, grouped_string, push_decimal};
use crate::types::CoreError;
use vstd::prelude::*;

verus! {

/// Where a Metal device sits.
#[derive(Clone, Copy, Debug, PartialEq, Eq, Structural)]
pub enum MTLDeviceLocation {
    BuiltIn,
    Slot,
    External,
    Unspecified,
}

impl MTLDeviceLocation {
    /// The name under which the location is shown.
    pub open spec fn label(self) -> Seq<char> {
        match self {
            MTLDeviceLocation::BuiltIn => "Built-in"@,
            MTLDeviceLocation::Slot => "Slot"@,
            MTLDeviceLocation::External => "External"@,
            MTLDeviceLocation::Unspecified => "Unspecified"@,
        }
    }

    /// The label as a string.
    pub fn to_string(&self) -> (s: String)
        ensures
            s@ == self.label(),
    {
        match self {
            MTLDeviceLocation::BuiltIn => String::from_str("Built-in"),
            MTLDeviceLocation::Slot => String::from_str("Slot"),
            MTLDeviceLocation::External => String::from_str("External"),
            MTLDeviceLocation::Unspecified => String::from_str("Unspecified"),
        }
    }
}

/// The tier of argument buffers that a Metal device supports.
#[derive(Clone, Copy, Debug, PartialEq, Eq, Structural)]
pub enum MTLArgumentBuffersTier {
    Tier1,
    Tier2,
}

impl MTLArgumentBuffersTier {
    /// The name under which the tier is shown.
    pub open spec fn label(self) -> Seq<char> {
        match self {
            MTLArgumentBuffersTier::Tier1 => "Tier 1"@,
            MTLArgumentBuffersTier::Tier2 => "Tier 2"@,
        }
    }

    /// The label as a string.
    pub fn to_string(&self) -> (s: String)
        ensures
            s@ == self.label(),
    {
        match self {
            MTLArgumentBuffersTier::Tier1 => String::from_str("Tier 1"),
            MTLArgumentBuffersTier::Tier2 => String::from_str("Tier 2"),
        }
    }
}

/// The tier of read-write textures that a Metal device supports.
#[derive(Clone, Copy, Debug, PartialEq, Eq, Structural)]
pub enum MTLReadWriteTextureTier {
    TierNone,
    Tier1,
    Tier2,
}

impl MTLReadWriteTextureTier {
    /// The name under which the tier is shown.
    pub open spec fn label(self) -> Seq<char> {
        match self {
            MTLReadWriteTextureTier::TierNone => "Tier None"@,
            MTLReadWriteTextureTier::Tier1 => "Tier 1"@,
            MTLReadWriteTextureTier::Tier2 => "Tier 2"@,
        }
    }

    /// The label as a string.
    pub fn to_string(&self) -> (s: String)
        ensures
            s@ == self.label(),
    {
        match self {
            MTLReadWriteTextureTier::TierNone => String::from_str("Tier None"),
            MTLReadWriteTextureTier::Tier1 => String::from_str("Tier 1"),
            MTLReadWriteTextureTier::Tier2 => String::from_str("Tier 2"),
        }
    }
}

/// The extent of a grid of threads.
#[derive(Clone, Copy, Debug, PartialEq, Eq, Structural)]
pub struct MTLSize {
    pub width: u64,
    pub height: u64,
    pub depth: u64,
}

impl MTLSize {
    /// The number of threads in the grid.
    pub open spec fn volume(self) -> nat {
        (self.depth * self.width * self.height) as nat
    }

    /// The text shown for the extent: the number of threads with its
    /// digits grouped, then the three dimensions.
    pub open spec fn label(self) -> Seq<char> {
        grouped_decimal(self.volume()) + " (depth: "@ + decimal(self.depth as nat) + " width: "@
            + decimal(self.width as nat) + " height: "@ + decimal(self.height as nat) + seq![')']
    }

    /// The number of threads in the grid, where it can be counted in 64
    /// bits.
    pub fn checked_volume(&self) -> (r: Option<u64>)
        ensures
            match r {
                Some(v) => v == self.volume(),
                None => self.volume() > u64::MAX,
            },
    {
        if self.height == 0 {
            assert(self.depth * self.width * self.height == 0) by (nonlinear_arith)
                requires
                    self.height == 0,
            ;
            return Some(0);
        }
        let plane = match self.depth.checked_mul(self.width) {
            Some(p) => p,
            None => {
                assert(self.depth * self.width * self.height > u64::MAX) by (nonlinear_arith)
                    requires
                        self.depth * self.width > u64::MAX,
                        self.height >= 1,
                ;
                return None;
            },
        };
        plane.checked_mul(self.height)
    }

    /// The text for an extent and its number of threads.
    pub fn label_with(&self, grouped_volume: String) -> (s: String)
        ensures
            s@ == grouped_volume@ + " (depth: "@ + decimal(self.depth as nat) + " width: "@
                + decimal(self.width as nat) + " height: "@ + decimal(self.height as nat)
                + seq![')'],
    {
        let mut s = grouped_volume;
        s.append(" (depth: ");
        push_decimal(&mut s, self.depth);
        s.append(" width: ");
        push_decimal(&mut s, self.width);
        s.append(" height: ");
        push_decimal(&mut s, self.height);
        s.append(")");
        proof {
            reveal_strlit(")");
        }
        s
    }

    /// The label as a string, for a grid whose threads can be counted in
    /// 64 bits.
    pub fn to_string(&self) -> (s: String)
        requires
            self.volume() <= u64::MAX,
        ensures
            s@ == self.label(),
    {
        let volume = self.checked_volume();
        self.label_with(grouped_string(volume.unwrap()))
    }

    /// The label as a string; nothing for a grid with more threads than 64
    /// bits can count.
    pub fn checked_to_string(&self) -> (r: Option<String>)
        ensures
            match r {
                Some(s) => self.volume() <= u64::MAX && s@ == self.label(),
                None => self.volume() > u64::MAX,
            },
    {
        match self.checked_volume() {
            Some(volume) => Some(self.label_with(grouped_string(volume))),
            None => None,
        }
    }
}

/// A set of performance counters of a Metal device.
#[derive(Debug, PartialEq, Eq)]
pub struct MetalCounterSet {
    pub name: String,
}

/// One Metal device.
#[allow(non_snake_case)]
#[derive(Debug, PartialEq, Eq)]
pub struct MetalDevice {
    /// The position of the device in the enumeration.
    pub index: usize,
    pub device_name: String,
    pub registry_id: u64,
    pub location: MTLDeviceLocation,
    pub location_number: u64,
    pub max_threadgroup_memory_length: u64,
    pub max_threads_per_threadgroup: MTLSize,
    pub is_low_power: bool,
    pub is_headless: bool,
    pub is_removable: bool,
    pub supports_raytracing: bool,
    pub has_unified_memory: bool,
    pub recommended_max_working_set_size: u64,
    pub max_transfer_rate: u64,
    pub supports_barycentric_coordinates: bool,
    pub supports_function_pointers: bool,
    pub supports_dynamic_libraries: bool,
    pub argument_buffers_support: MTLArgumentBuffersTier,
    pub read_write_texture_support: MTLReadWriteTextureTier,
    pub supports_32bit_float_filtering: bool,
    pub supports_32bit_MSAA: bool,
    pub supports_query_texture_LOD: bool,
    pub supports_BC_texture_compression: bool,
    pub supports_pull_model_interpolation: bool,
    pub max_argument_buffer_sampler_count: u64,
    pub current_allocated_size: u64,
    pub max_buffer_length: u64,
    pub counter_sets: Vec<MetalCounterSet>,
}

/// The Metal devices of the machine.
#[derive(Debug, PartialEq, Eq)]
pub struct MetalInfo {
    /// The number of devices.
    pub total_devices: usize,
    /// The devices, in enumeration order.
    pub devices: Vec<MetalDevice>,
}

/// What a `MetalCounterSet` says: its fields, with texts and lists as sequences.
pub ghost struct MetalCounterSetModel {
    pub name: Seq<char>,
}

/// What a `MetalDevice` says: its fields, with texts and lists as sequences.
#[allow(non_snake_case)]
pub ghost struct MetalDeviceModel {
    pub index: usize,
    pub device_name: Seq<char>,
    pub registry_id: u64,
    pub location: MTLDeviceLocation,
    pub location_number: u64,
    pub max_threadgroup_memory_length: u64,
    pub max_threads_per_threadgroup: MTLSize,
    pub is_low_power: bool,
    pub is_headless: bool,
    pub is_removable: bool,
    pub supports_raytracing: bool,
    pub has_unified_memory: bool,
    pub recommended_max_working_set_size: u64,
    pub max_transfer_rate: u64,
    pub supports_barycentric_coordinates: bool,
    pub supports_function_pointers: bool,
    pub supports_dynamic_libraries: bool,
    pub argument_buffers_support: MTLArgumentBuffersTier,
    pub read_write_texture_support: MTLReadWriteTextureTier,
    pub supports_32bit_float_filtering: bool,
    pub supports_32bit_MSAA: bool,
    pub supports_query_texture_LOD: bool,
    pub supports_BC_texture_compression: bool,
    pub supports_pull_model_interpolation: bool,
    pub max_argument_buffer_sampler_count: u64,
    pub current_allocated_size: u64,
    pub max_buffer_length: u64,
    pub counter_sets: Seq<MetalCounterSetModel>,
}

/// What a `MetalInfo` says: its fields, with texts and lists as sequences.
pub ghost struct MetalInfoModel {
    pub total_devices: usize,
    pub devices: Seq<MetalDeviceModel>,
}

impl DeepView for MetalCounterSet {
    type V = MetalCounterSetModel;

    open spec fn deep_view(&self) -> MetalCounterSetModel {
        MetalCounterSetModel { name: self.name@ }
    }
}

impl DeepView for MetalDevice {
    type V = MetalDeviceModel;

    open spec fn deep_view(&self) -> MetalDeviceModel {
        MetalDeviceModel {
            index: self.index,
            device_name: self.device_name@,
            registry_id: self.registry_id,
            location: self.location,
            location_number: self.location_number,
            max_threadgroup_memory_length: self.max_threadgroup_memory_length,
            max_threads_per_threadgroup: self.max_threads_per_threadgroup,
            is_low_power: self.is_low_power,
            is_headless: self.is_headless,
            is_removable: self.is_removable,
            supports_raytracing: self.supports_raytracing,
            has_unified_memory: self.has_unified_memory,
            recommended_max_working_set_size: self.recommended_max_working_set_size,
            max_transfer_rate: self.max_transfer_rate,
            supports_barycentric_coordinates: self.supports_barycentric_coordinates,
            supports_function_pointers: self.supports_function_pointers,
            supports_dynamic_libraries: self.supports_dynamic_libraries,
            argument_buffers_support: self.argument_buffers_support,
            read_write_texture_support: self.read_write_texture_support,
            supports_32bit_float_filtering: self.supports_32bit_float_filtering,
            supports_32bit_MSAA: self.supports_32bit_MSAA,
            supports_query_texture_LOD: self.supports_query_texture_LOD,
            supports_BC_texture_compression: self.supports_BC_texture_compression,
            supports_pull_model_interpolation: self.supports_pull_model_interpolation,
            max_argument_buffer_sampler_count: self.max_argument_buffer_sampler_count,
            current_allocated_size: self.current_allocated_size,
            max_buffer_length: self.max_buffer_length,
            counter_sets: self.counter_sets.deep_view(),
        }
    }
}

impl DeepView for MetalInfo {
    type V = MetalInfoModel;

    open spec fn deep_view(&self) -> MetalInfoModel {
        MetalInfoModel { total_devices: self.total_devices, devices: self.devices.deep_view() }
    }
}

impl Snapshot for MetalCounterSet {
    fn duplicate(&self) -> (copy: MetalCounterSet) {
        MetalCounterSet { name: self.name.clone() }
    }
}

impl Snapshot for MetalDevice {
    fn duplicate(&self) -> (copy: MetalDevice) {
        MetalDevice {
            index: self.index,
            device_name: self.device_name.clone(),
            registry_id: self.registry_id,
            location: self.location,
            location_number: self.location_number,
            max_threadgroup_memory_length: self.max_threadgroup_memory_length,
            max_threads_per_threadgroup: self.max_threads_per_threadgroup,
            is_low_power: self.is_low_power,
            is_headless: self.is_headless,
            is_removable: self.is_removable,
            supports_raytracing: self.supports_raytracing,
            has_unified_memory: self.has_unified_memory,
            recommended_max_working_set_size: self.recommended_max_working_set_size,
            max_transfer_rate: self.max_transfer_rate,
            supports_barycentric_coordinates: self.supports_barycentric_coordinates,
            supports_function_pointers: self.supports_function_pointers,
            supports_dynamic_libraries: self.supports_dynamic_libraries,
            argument_buffers_support: self.argument_buffers_support,
            read_write_texture_support: self.read_write_texture_support,
            supports_32bit_float_filtering: self.supports_32bit_float_filtering,
            supports_32bit_MSAA: self.supports_32bit_MSAA,
            supports_query_texture_LOD: self.supports_query_texture_LOD,
            supports_BC_texture_compression: self.supports_BC_texture_compression,
            supports_pull_model_interpolation: self.supports_pull_model_interpolation,
            max_argument_buffer_sampler_count: self.max_argument_buffer_sampler_count,
            current_allocated_size: self.current_allocated_size,
            max_buffer_length: self.max_buffer_length,
            counter_sets: self.counter_sets.duplicate(),
        }
    }
}

impl Snapshot for MetalInfo {
    fn duplicate(&self) -> (copy: MetalInfo) {
        MetalInfo { total_devices: self.total_devices, devices: self.devices.duplicate() }
    }
}

/// A device as it was enumerated, at a position of the enumeration.
pub open spec fn device_at(enumerated: MetalDevice, position: int) -> MetalDevice {
    MetalDevice { index: position as usize, ..enumerated }
}

impl MetalInfo {
    /// Whether the count is the number of devices and each device knows
    /// its position.
    pub open spec fn wf(&self) -> bool {
        &&& self.total_devices == self.devices@.len()
        &&& forall|i: int| 0 <= i < self.devices@.len() ==> (#[trigger] self.devices@[i]).index == i
    }

    /// The snapshot of the devices that were enumerated: the same devices
    /// in the same order, each numbered by its position. The probe never
    /// fails.
    pub fn get(enumerated: Vec<MetalDevice>) -> (r: Result<MetalInfo, CoreError>)
        ensures
            r matches Ok(info) && {
                &&& info.wf()
                &&& info.devices@.len() == enumerated@.len()
                &&& forall|i: int|
                    0 <= i < enumerated@.len() ==> #[trigger] info.devices@[i] == device_at(
                        enumerated@[i],
                        i,
                    )
            },
    {
        let mut devices = enumerated;
        let mut i: usize = 0;
        while i < devices.len()
            invariant
                0 <= i <= devices.len(),
                devices@.len() == enumerated@.len(),
                forall|j: int| 0 <= j < i ==> #[trigger] devices@[j] == device_at(enumerated@[j], j),
                forall|j: int| i <= j < devices@.len() ==> #[trigger] devices@[j] == enumerated@[j],
            decreases devices.len() - i,
        {
            devices[i].index = i;
            i += 1;
        }
        Ok(MetalInfo { total_devices: devices.len(), devices })
    }
}

} // verus!
