use sysprobe::types::{CoreError, VulkanMemoryHeapFlags};
use sysprobe::utils::gpu::directx::{AdapterDescription, DirectXDevice, DirectXInfo};
use sysprobe::utils::gpu::metal::{
    MTLArgumentBuffersTier, MTLDeviceLocation, MTLReadWriteTextureTier, MTLSize,
    MetalCounterSet, MetalDevice, MetalInfo,
};
use sysprobe::utils::gpu::opengl::OpenGLInfo;
use sysprobe::utils::gpu::available_probes;
use sysprobe::utils::gpu::GpuProbe::{DirectX, Metal, OpenGL, Vulkan};
use sysprobe::utils::gpus::vulkan::LayerProperties;
use sysprobe::utils::gpus::{backends_for, Backend, DeviceType, Gpu, GpusInfo};
use sysprobe::utils::platform::Platform;
use sysprobe::utils::vulkan::{
    buffer_text, ExtensionProperties, InstanceReport, VulkanExt, VulkanInfo, VulkanLayer,
};

fn utf16(text: &str, size: usize) -> Vec<u16> {
    let mut units: Vec<u16> = text.encode_utf16().collect();
    units.resize(size, 0);
    units
}

fn adapter(name: Vec<u16>) -> AdapterDescription {
    AdapterDescription {
        description: name,
        vendor_id: 0x10de,
        device_id: 0x2684,
        sub_sys_id: 3,
        revision: 0xa1,
        dedicated_video_memory: 24 << 30,
        dedicated_system_memory: 0,
        shared_system_memory: 16 << 30,
    }
}

#[test]
fn probes_per_host() {
    assert_eq!(available_probes(Platform::Linux, true), vec![Vulkan, OpenGL]);
    assert_eq!(available_probes(Platform::Linux, false), vec![Vulkan]);
    assert_eq!(available_probes(Platform::MacOS, true), vec![Metal, OpenGL]);
    assert_eq!(available_probes(Platform::MacOS, false), vec![Metal]);
    assert_eq!(available_probes(Platform::Windows, true), vec![Vulkan, OpenGL, DirectX]);
    assert_eq!(available_probes(Platform::Windows, false), vec![Vulkan, DirectX]);
    assert_eq!(available_probes(Platform::Unknown, true), vec![Vulkan, OpenGL]);
    assert_eq!(available_probes(Platform::Unknown, false), vec![Vulkan]);
}

#[test]
fn backends_per_operating_system() {
    assert_eq!(backends_for(Platform::Windows), vec![Backend::Dx12]);
    assert_eq!(backends_for(Platform::MacOS), vec![Backend::Metal]);
    assert_eq!(backends_for(Platform::Linux), vec![Backend::Vulkan, Backend::Gl]);
    assert!(backends_for(Platform::Unknown).is_empty());
}

#[test]
fn backend_and_device_type_labels() {
    assert_eq!(Backend::Vulkan.to_string(), "Vulkan");
    assert_eq!(Backend::Metal.to_string(), "Metal");
    assert_eq!(Backend::Dx12.to_string(), "DirectX 12");
    assert_eq!(Backend::Gl.to_string(), "OpenGL");
    assert_eq!(DeviceType::Cpu.to_string(), "CPU");
    assert_eq!(DeviceType::DiscreteGpu.to_string(), "Discrete Graphics");
    assert_eq!(DeviceType::IntegratedGpu.to_string(), "Integrated Graphics");
    assert_eq!(DeviceType::VirtualGpu.to_string(), "Virtual Graphics");
    assert_eq!(DeviceType::Other.to_string(), "Other");
}

#[test]
fn adapters_are_counted_and_kept_in_order() {
    let gpu = |name: &str, backend| Gpu {
        name: name.to_string(),
        vendor_id: 1,
        device_id: 2,
        driver: "radv".to_string(),
        backend,
        device_type: DeviceType::DiscreteGpu,
    };
    let info = GpusInfo::get(vec![gpu("a", Backend::Vulkan), gpu("b", Backend::Gl)]);
    assert_eq!(info.count, 2);
    assert_eq!(info.gpus[0], gpu("a", Backend::Vulkan));
    assert_eq!(info.gpus[1], gpu("b", Backend::Gl));
    assert_eq!(GpusInfo::get(Vec::new()).count, 0);
}

#[test]
fn memory_heap_flags() {
    assert_eq!(VulkanMemoryHeapFlags::from_raw(0), Some(VulkanMemoryHeapFlags::DeviceLocal));
    assert_eq!(VulkanMemoryHeapFlags::from_raw(1), Some(VulkanMemoryHeapFlags::MultiInstance));
    assert_eq!(VulkanMemoryHeapFlags::from_raw(2), None);
    assert_eq!(VulkanMemoryHeapFlags::from_raw(u32::MAX), None);
    assert_eq!(VulkanMemoryHeapFlags::DeviceLocal.to_string(), "VK_MEMORY_HEAP_DEVICE_LOCAL_BIT");
    assert_eq!(
        VulkanMemoryHeapFlags::MultiInstance.to_string(),
        "VK_MEMORY_HEAP_MULTI_INSTANCE_BIT"
    );
}

#[test]
fn opengl_answers_pass_through() {
    let info = OpenGLInfo {
        vendor: "Mesa".to_string(),
        renderer: "llvmpipe".to_string(),
        version: "4.5 (Core Profile)".to_string(),
        free_video_mem: None,
    };
    let expected = OpenGLInfo {
        vendor: "Mesa".to_string(),
        renderer: "llvmpipe".to_string(),
        version: "4.5 (Core Profile)".to_string(),
        free_video_mem: None,
    };
    assert_eq!(OpenGLInfo::get(Ok(info)), Ok(expected));
}

#[test]
fn opengl_failure_becomes_an_opengl_error() {
    let err = OpenGLInfo::get(Err("failed to create event loop: no display".to_string()))
        .unwrap_err();
    assert_eq!(
        err,
        CoreError::OpenGLInfoError("failed to create event loop: no display".to_string())
    );
    assert_eq!(err.report().0, "openGLInfoError");
    assert_eq!(
        err.to_string(),
        "An error occurred while retrieving OpenGL information: failed to create event loop: no display"
    );
}

#[test]
fn directx_devices_are_numbered_and_named() {
    let info = DirectXInfo::get(Some(vec![
        adapter(utf16("NVIDIA GeForce RTX 4090", 23)),
        adapter(utf16("Microsoft Basic Render Driver", 29)),
    ]))
    .unwrap();
    assert_eq!(info.total_devices, 2);
    assert_eq!(info.devices[0].index, 0);
    assert_eq!(info.devices[0].device_name, "NVIDIA GeForce RTX 4090");
    assert_eq!(info.devices[1].index, 1);
    assert_eq!(info.devices[1].device_name, "Microsoft Basic Render Driver");
    assert_eq!(info.devices[1].vendor_id, 0x10de);
    assert_eq!(info.devices[1].device_id, 0x2684);
    assert_eq!(info.devices[1].sub_sys_id, 3);
    assert_eq!(info.devices[1].revision, 0xa1);
    assert_eq!(info.devices[1].dedicated_video_memory, 24 << 30);
    assert_eq!(info.devices[1].dedicated_system_memory, 0);
    assert_eq!(info.devices[1].shared_system_memory, 16 << 30);
}

#[test]
fn directx_name_keeps_the_whole_buffer_and_replaces_lone_surrogates() {
    let info = DirectXInfo::get(Some(vec![adapter(vec![0x47, 0xd800, 0x50, 0, 0])])).unwrap();
    assert_eq!(info.devices[0].device_name, "G\u{fffd}P\0\0");
    let paired = DirectXInfo::get(Some(vec![adapter(vec![0xd83d, 0xde00])])).unwrap();
    assert_eq!(paired.devices[0].device_name, "\u{1f600}");
}

#[test]
fn directx_without_factory_fails() {
    let err = DirectXInfo::get(None).unwrap_err();
    assert_eq!(err, CoreError::DirectXInfoError("Failed to create DXGIFactory".to_string()));
    assert_eq!(err.report().0, "directXInfoError");
    assert_eq!(
        err.to_string(),
        "An error occurred while retrieving DirectX information: Failed to create DXGIFactory"
    );
}

#[test]
fn directx_without_adapters_is_an_empty_answer() {
    let info = DirectXInfo::get(Some(Vec::new())).unwrap();
    assert_eq!(info.total_devices, 0);
    assert!(info.devices.is_empty());
}

#[test]
fn directx_device_from_parts() {
    let device = DirectXDevice::new(4, "name".to_string(), &adapter(Vec::new()));
    assert_eq!(device.index, 4);
    assert_eq!(device.device_name, "name");
    assert_eq!(device.vendor_id, 0x10de);
}

fn metal_device(name: &str, index: usize) -> MetalDevice {
    MetalDevice {
        index,
        device_name: name.to_string(),
        registry_id: 4294969473,
        location: MTLDeviceLocation::BuiltIn,
        location_number: 0,
        max_threadgroup_memory_length: 32768,
        max_threads_per_threadgroup: MTLSize { width: 1024, height: 1024, depth: 1024 },
        is_low_power: false,
        is_headless: false,
        is_removable: false,
        supports_raytracing: true,
        has_unified_memory: true,
        recommended_max_working_set_size: 11453246122,
        max_transfer_rate: 0,
        supports_barycentric_coordinates: true,
        supports_function_pointers: true,
        supports_dynamic_libraries: true,
        argument_buffers_support: MTLArgumentBuffersTier::Tier2,
        read_write_texture_support: MTLReadWriteTextureTier::Tier2,
        supports_32bit_float_filtering: true,
        supports_32bit_MSAA: true,
        supports_query_texture_LOD: true,
        supports_BC_texture_compression: true,
        supports_pull_model_interpolation: true,
        max_argument_buffer_sampler_count: 1024,
        current_allocated_size: 0,
        max_buffer_length: 8589934592,
        counter_sets: vec![MetalCounterSet { name: "timestamp".to_string() }],
    }
}

#[test]
fn metal_devices_are_numbered_by_position() {
    let info =
        MetalInfo::get(vec![metal_device("Apple M2", 9), metal_device("AMD Radeon Pro", 9)])
            .unwrap();
    assert_eq!(info.total_devices, 2);
    assert_eq!(info.devices[0], metal_device("Apple M2", 0));
    assert_eq!(info.devices[1], metal_device("AMD Radeon Pro", 1));
    let none = MetalInfo::get(Vec::new()).unwrap();
    assert_eq!(none.total_devices, 0);
    assert!(none.devices.is_empty());
}

#[test]
fn metal_labels() {
    assert_eq!(MTLDeviceLocation::BuiltIn.to_string(), "Built-in");
    assert_eq!(MTLDeviceLocation::Slot.to_string(), "Slot");
    assert_eq!(MTLDeviceLocation::External.to_string(), "External");
    assert_eq!(MTLDeviceLocation::Unspecified.to_string(), "Unspecified");
    assert_eq!(MTLArgumentBuffersTier::Tier1.to_string(), "Tier 1");
    assert_eq!(MTLArgumentBuffersTier::Tier2.to_string(), "Tier 2");
    assert_eq!(MTLReadWriteTextureTier::TierNone.to_string(), "Tier None");
    assert_eq!(MTLReadWriteTextureTier::Tier1.to_string(), "Tier 1");
    assert_eq!(MTLReadWriteTextureTier::Tier2.to_string(), "Tier 2");
}

#[test]
fn thread_grid_label_groups_the_digits_of_the_volume() {
    let size = MTLSize { width: 1024, height: 1024, depth: 64 };
    assert_eq!(size.checked_volume(), Some(67108864));
    assert_eq!(size.to_string(), "67,108,864 (depth: 64 width: 1024 height: 1024)");
    assert_eq!(
        size.checked_to_string().unwrap(),
        "67,108,864 (depth: 64 width: 1024 height: 1024)"
    );
    assert_eq!(
        MTLSize { width: 1, height: 999, depth: 1 }.to_string(),
        "999 (depth: 1 width: 1 height: 999)"
    );
    assert_eq!(
        MTLSize { width: 10, height: 100, depth: 1 }.to_string(),
        "1,000 (depth: 1 width: 10 height: 100)"
    );
    assert_eq!(
        MTLSize { width: 0, height: 5, depth: 7 }.to_string(),
        "0 (depth: 7 width: 0 height: 5)"
    );
    assert_eq!(
        MTLSize { width: 1001, height: 1000, depth: 1 }.to_string(),
        "1,001,000 (depth: 1 width: 1001 height: 1000)"
    );
    assert_eq!(
        MTLSize { width: u64::MAX, height: 1, depth: 1 }.to_string(),
        "18,446,744,073,709,551,615 (depth: 1 width: 18446744073709551615 height: 1)"
    );
}

#[test]
fn thread_grid_too_large_to_count_has_no_label() {
    let size = MTLSize { width: u64::MAX, height: 2, depth: 1 };
    assert_eq!(size.checked_volume(), None);
    assert_eq!(size.checked_to_string(), None);
    let wide = MTLSize { width: 1 << 40, height: 1, depth: 1 << 40 };
    assert_eq!(wide.checked_volume(), None);
    let flat = MTLSize { width: 1 << 40, height: 0, depth: 1 << 40 };
    assert_eq!(flat.checked_volume(), Some(0));
    assert_eq!(
        flat.checked_to_string().unwrap(),
        "0 (depth: 1099511627776 width: 1099511627776 height: 0)"
    );
    assert_eq!(
        MTLSize { width: 3, height: 4, depth: 5 }.label_with("sixty".to_string()),
        "sixty (depth: 5 width: 3 height: 4)"
    );
}

#[test]
fn instance_report_is_decoded() {
    let report = InstanceReport {
        extensions: vec![
            ExtensionProperties { extension_name: b"VK_KHR_surface\0\0\0".to_vec(), spec_version: 25 },
            ExtensionProperties { extension_name: b"VK_EXT_debug_utils".to_vec(), spec_version: 2 },
        ],
        layers: vec![LayerProperties {
            layer_name: b"VK_LAYER_KHRONOS_validation\0".to_vec(),
            spec_version: 0x00403119,
            implementation_version: 1,
            description: b"Khronos Validation Layer\0junk".to_vec(),
        }],
        instance_version: Some(0x00403119),
    };
    let info = VulkanInfo::get(Ok(report)).unwrap();
    assert_eq!(info.instance_version.as_deref(), Some("1.3.281"));
    assert_eq!(info.total_extensions, 2);
    assert_eq!(info.extensions[0], VulkanExt { name: "VK_KHR_surface".to_string(), version: 25 });
    assert_eq!(
        info.extensions[1],
        VulkanExt { name: "VK_EXT_debug_utils".to_string(), version: 2 }
    );
    assert_eq!(info.total_layers, 1);
    assert_eq!(
        info.layers[0],
        VulkanLayer {
            name: "VK_LAYER_KHRONOS_validation".to_string(),
            spec_version: 0x00403119,
            implementation_version: 1,
            description: "Khronos Validation Layer".to_string(),
        }
    );
}

#[test]
fn instance_without_version_or_entries() {
    let report =
        InstanceReport { extensions: Vec::new(), layers: Vec::new(), instance_version: None };
    let info = VulkanInfo::get(Ok(report)).unwrap();
    assert_eq!(info.instance_version, None);
    assert_eq!(info.total_extensions, 0);
    assert_eq!(info.total_layers, 0);
    assert!(info.extensions.is_empty());
    assert!(info.layers.is_empty());
}

#[test]
fn instance_failure_becomes_a_vulkan_error() {
    let err = VulkanInfo::get(Err("ERROR_INITIALIZATION_FAILED".to_string())).unwrap_err();
    assert_eq!(err, CoreError::VulkanInfoError("ERROR_INITIALIZATION_FAILED".to_string()));
}

#[test]
fn buffer_text_is_lossy_and_stops_at_nul() {
    assert_eq!(buffer_text(&b"abc\0def".to_vec()), "abc");
    assert_eq!(buffer_text(&b"abc".to_vec()), "abc");
    assert_eq!(buffer_text(&vec![b'a', 0xc3, 0x28, b'b']), "a\u{fffd}(b");
    assert_eq!(buffer_text(&Vec::new()), "");
    assert_eq!(VulkanExt::new("e".to_string(), 3).version, 3);
    assert_eq!(VulkanLayer::new("l".to_string(), 1, 2, "d".to_string()).description, "d");
}
