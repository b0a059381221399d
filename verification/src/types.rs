//! Vocabulary shared by every probe: Vulkan enumerations and the probe error.

use vstd::prelude::*;

verus! {

// ---------------------------------------------------------------------------
// Vulkan device types
// ---------------------------------------------------------------------------

/// The kind of a Vulkan physical device (`VkPhysicalDeviceType`).
#[derive(Clone, Copy, Debug, PartialEq, Eq, Structural)]
pub enum VulkanDeviceType {
    Other,
    IntegratedGpu,
    DiscreteGpu,
    VirtualGpu,
    Cpu,
}

impl VulkanDeviceType {
    /// The device type that a raw code stands for; codes 0 to 4 are defined.
    pub open spec fn of_raw(raw: i32) -> Option<VulkanDeviceType> {
        if raw == 0 {
            Some(VulkanDeviceType::Other)
        } else if raw == 1 {
            Some(VulkanDeviceType::IntegratedGpu)
        } else if raw == 2 {
            Some(VulkanDeviceType::DiscreteGpu)
        } else if raw == 3 {
            Some(VulkanDeviceType::VirtualGpu)
        } else if raw == 4 {
            Some(VulkanDeviceType::Cpu)
        } else {
            None
        }
    }

    /// The name of the constant in the Vulkan headers.
    pub open spec fn label(self) -> Seq<char> {
        match self {
            VulkanDeviceType::Other => "VK_PHYSICAL_DEVICE_TYPE_OTHER"@,
            VulkanDeviceType::IntegratedGpu => "VK_PHYSICAL_DEVICE_TYPE_INTEGRATED_GPU"@,
            VulkanDeviceType::DiscreteGpu => "VK_PHYSICAL_DEVICE_TYPE_DISCRETE_GPU"@,
            VulkanDeviceType::VirtualGpu => "VK_PHYSICAL_DEVICE_TYPE_VIRTUAL_GPU"@,
            VulkanDeviceType::Cpu => "VK_PHYSICAL_DEVICE_TYPE_CPU"@,
        }
    }

    /// Looks a raw device-type code up; an undefined code has no device type.
    pub fn from_raw(raw: i32) -> (r: Option<VulkanDeviceType>)
        ensures
            r == Self::of_raw(raw),
    {
        match raw {
            0 => Some(VulkanDeviceType::Other),
            1 => Some(VulkanDeviceType::IntegratedGpu),
            2 => Some(VulkanDeviceType::DiscreteGpu),
            3 => Some(VulkanDeviceType::VirtualGpu),
            4 => Some(VulkanDeviceType::Cpu),
            _ => None,
        }
    }

    /// The label as a string.
    pub fn to_string(&self) -> (s: String)
        ensures
            s@ == self.label(),
    {
        match self {
            VulkanDeviceType::Other => String::from_str("VK_PHYSICAL_DEVICE_TYPE_OTHER"),
            VulkanDeviceType::IntegratedGpu => String::from_str(
                "VK_PHYSICAL_DEVICE_TYPE_INTEGRATED_GPU",
            ),
            VulkanDeviceType::DiscreteGpu => String::from_str(
                "VK_PHYSICAL_DEVICE_TYPE_DISCRETE_GPU",
            ),
            VulkanDeviceType::VirtualGpu => String::from_str("VK_PHYSICAL_DEVICE_TYPE_VIRTUAL_GPU"),
            VulkanDeviceType::Cpu => String::from_str("VK_PHYSICAL_DEVICE_TYPE_CPU"),
        }
    }
}

/// Every code from 0 to 4 has a device type of its own, in the order Other,
/// IntegratedGpu, DiscreteGpu, VirtualGpu, Cpu, and no other code has one.
pub proof fn lemma_device_type_mapping(raw: i32)
    ensures
        raw == 0 <==> VulkanDeviceType::of_raw(raw) == Some(VulkanDeviceType::Other),
        raw == 1 <==> VulkanDeviceType::of_raw(raw) == Some(VulkanDeviceType::IntegratedGpu),
        raw == 2 <==> VulkanDeviceType::of_raw(raw) == Some(VulkanDeviceType::DiscreteGpu),
        raw == 3 <==> VulkanDeviceType::of_raw(raw) == Some(VulkanDeviceType::VirtualGpu),
        raw == 4 <==> VulkanDeviceType::of_raw(raw) == Some(VulkanDeviceType::Cpu),
        !(0 <= raw <= 4) <==> VulkanDeviceType::of_raw(raw) is None,
{
}

// ---------------------------------------------------------------------------
// Vulkan memory heap flags
// ---------------------------------------------------------------------------

/// A flag of a Vulkan memory heap (`VkMemoryHeapFlagBits`).
#[derive(Clone, Copy, Debug, PartialEq, Eq, Structural)]
pub enum VulkanMemoryHeapFlags {
    DeviceLocal,
    MultiInstance,
}

impl VulkanMemoryHeapFlags {
    /// The flag that a raw key stands for; keys 0 and 1 are defined.
    pub open spec fn of_raw(raw: u32) -> Option<VulkanMemoryHeapFlags> {
        if raw == 0 {
            Some(VulkanMemoryHeapFlags::DeviceLocal)
        } else if raw == 1 {
            Some(VulkanMemoryHeapFlags::MultiInstance)
        } else {
            None
        }
    }

    /// The name of the constant in the Vulkan headers.
    pub open spec fn label(self) -> Seq<char> {
        match self {
            VulkanMemoryHeapFlags::DeviceLocal => "VK_MEMORY_HEAP_DEVICE_LOCAL_BIT"@,
            VulkanMemoryHeapFlags::MultiInstance => "VK_MEMORY_HEAP_MULTI_INSTANCE_BIT"@,
        }
    }

    /// Looks a raw key up; an undefined key has no flag.
    pub fn from_raw(raw: u32) -> (r: Option<VulkanMemoryHeapFlags>)
        ensures
            r == Self::of_raw(raw),
    {
        match raw {
            0 => Some(VulkanMemoryHeapFlags::DeviceLocal),
            1 => Some(VulkanMemoryHeapFlags::MultiInstance),
            _ => None,
        }
    }

    /// The label as a string.
    pub fn to_string(&self) -> (s: String)
        ensures
            s@ == self.label(),
    {
        match self {
            VulkanMemoryHeapFlags::DeviceLocal => String::from_str(
                "VK_MEMORY_HEAP_DEVICE_LOCAL_BIT",
            ),
            VulkanMemoryHeapFlags::MultiInstance => String::from_str(
                "VK_MEMORY_HEAP_MULTI_INSTANCE_BIT",
            ),
        }
    }
}

// ---------------------------------------------------------------------------
// Probe errors
// ---------------------------------------------------------------------------

/// Which probe failed.
#[derive(Clone, Copy, Debug, PartialEq, Eq, Structural)]
pub enum CoreErrorKind {
    CPUInfoError,
    DirectXInfoError,
    MetalInfoError,
    VulkanInfoError,
    OpenGLInfoError,
    USBInfoError,
    Error,
}

impl CoreErrorKind {
    /// The tag under which the kind is reported to the shell.
    pub open spec fn tag(self) -> Seq<char> {
        match self {
            CoreErrorKind::CPUInfoError => "cPUInfoError"@,
            CoreErrorKind::DirectXInfoError => "directXInfoError"@,
            CoreErrorKind::MetalInfoError => "metalInfoError"@,
            CoreErrorKind::VulkanInfoError => "vulkanInfoError"@,
            CoreErrorKind::OpenGLInfoError => "openGLInfoError"@,
            CoreErrorKind::USBInfoError => "uSBInfoError"@,
            CoreErrorKind::Error => "error"@,
        }
    }

    /// The text in front of the native diagnostic in a rendered error.
    pub open spec fn preamble(self) -> Seq<char> {
        match self {
            CoreErrorKind::CPUInfoError => "An error occurred while retrieving CPU information: "@,
            CoreErrorKind::DirectXInfoError => "An error occurred while retrieving DirectX information: "@,
            CoreErrorKind::MetalInfoError => "An error occurred while retrieving Metal information: "@,
            CoreErrorKind::VulkanInfoError => "An error occurred while retrieving Vulkan information: "@,
            CoreErrorKind::OpenGLInfoError => "An error occurred while retrieving OpenGL information: "@,
            CoreErrorKind::USBInfoError => "An error occurred while retrieving USB information: "@,
            CoreErrorKind::Error => "An error occurred: "@,
        }
    }

    /// The tag as a string.
    pub fn tag_string(&self) -> (s: String)
        ensures
            s@ == self.tag(),
    {
        match self {
            CoreErrorKind::CPUInfoError => String::from_str("cPUInfoError"),
            CoreErrorKind::DirectXInfoError => String::from_str("directXInfoError"),
            CoreErrorKind::MetalInfoError => String::from_str("metalInfoError"),
            CoreErrorKind::VulkanInfoError => String::from_str("vulkanInfoError"),
            CoreErrorKind::OpenGLInfoError => String::from_str("openGLInfoError"),
            CoreErrorKind::USBInfoError => String::from_str("uSBInfoError"),
            CoreErrorKind::Error => String::from_str("error"),
        }
    }

    /// The preamble as a string.
    pub fn preamble_string(&self) -> (s: String)
        ensures
            s@ == self.preamble(),
    {
        match self {
            CoreErrorKind::CPUInfoError => String::from_str(
                "An error occurred while retrieving CPU information: ",
            ),
            CoreErrorKind::DirectXInfoError => String::from_str(
                "An error occurred while retrieving DirectX information: ",
            ),
            CoreErrorKind::MetalInfoError => String::from_str(
                "An error occurred while retrieving Metal information: ",
            ),
            CoreErrorKind::VulkanInfoError => String::from_str(
                "An error occurred while retrieving Vulkan information: ",
            ),
            CoreErrorKind::OpenGLInfoError => String::from_str(
                "An error occurred while retrieving OpenGL information: ",
            ),
            CoreErrorKind::USBInfoError => String::from_str(
                "An error occurred while retrieving USB information: ",
            ),
            CoreErrorKind::Error => String::from_str("An error occurred: "),
        }
    }
}

/// A failed probe: which one failed, and the native diagnostic.
#[non_exhaustive]
#[derive(Debug, PartialEq, Eq)]
pub enum CoreError {
    /// The CPU probe failed.
    CPUInfoError(String),
    /// The DirectX probe failed (Windows).
    DirectXInfoError(String),
    /// The Metal probe failed (macOS).
    MetalInfoError(String),
    /// The Vulkan probe failed.
    VulkanInfoError(String),
    /// The OpenGL probe failed.
    OpenGLInfoError(String),
    /// The USB probe failed.
    USBInfoError(String),
    /// Anything else: I/O, a missing environment variable, the windowing system.
    Error(String),
}

/// What a probe error says: its kind and the diagnostic text.
pub ghost struct CoreErrorModel {
    pub kind: CoreErrorKind,
    pub detail: Seq<char>,
}

impl CoreErrorModel {
    /// The sentence shown for the error: the preamble of its kind, then the
    /// diagnostic.
    pub open spec fn rendered(self) -> Seq<char> {
        self.kind.preamble() + self.detail
    }
}

impl DeepView for CoreError {
    type V = CoreErrorModel;

    open spec fn deep_view(&self) -> CoreErrorModel {
        match self {
            CoreError::CPUInfoError(d) => CoreErrorModel {
                kind: CoreErrorKind::CPUInfoError,
                detail: d@,
            },
            CoreError::DirectXInfoError(d) => CoreErrorModel {
                kind: CoreErrorKind::DirectXInfoError,
                detail: d@,
            },
            CoreError::MetalInfoError(d) => CoreErrorModel {
                kind: CoreErrorKind::MetalInfoError,
                detail: d@,
            },
            CoreError::VulkanInfoError(d) => CoreErrorModel {
                kind: CoreErrorKind::VulkanInfoError,
                detail: d@,
            },
            CoreError::OpenGLInfoError(d) => CoreErrorModel {
                kind: CoreErrorKind::OpenGLInfoError,
                detail: d@,
            },
            CoreError::USBInfoError(d) => CoreErrorModel {
                kind: CoreErrorKind::USBInfoError,
                detail: d@,
            },
            CoreError::Error(d) => CoreErrorModel { kind: CoreErrorKind::Error, detail: d@ },
        }
    }
}

impl CoreError {
    /// An error of the given kind with the given diagnostic.
    pub fn new(kind: CoreErrorKind, detail: String) -> (e: CoreError)
        ensures
            e.deep_view() == (CoreErrorModel { kind, detail: detail@ }),
    {
        match kind {
            CoreErrorKind::CPUInfoError => CoreError::CPUInfoError(detail),
            CoreErrorKind::DirectXInfoError => CoreError::DirectXInfoError(detail),
            CoreErrorKind::MetalInfoError => CoreError::MetalInfoError(detail),
            CoreErrorKind::VulkanInfoError => CoreError::VulkanInfoError(detail),
            CoreErrorKind::OpenGLInfoError => CoreError::OpenGLInfoError(detail),
            CoreErrorKind::USBInfoError => CoreError::USBInfoError(detail),
            CoreErrorKind::Error => CoreError::Error(detail),
        }
    }

    /// Which probe failed.
    pub fn kind(&self) -> (k: CoreErrorKind)
        ensures
            k == self.deep_view().kind,
    {
        match self {
            CoreError::CPUInfoError(_) => CoreErrorKind::CPUInfoError,
            CoreError::DirectXInfoError(_) => CoreErrorKind::DirectXInfoError,
            CoreError::MetalInfoError(_) => CoreErrorKind::MetalInfoError,
            CoreError::VulkanInfoError(_) => CoreErrorKind::VulkanInfoError,
            CoreError::OpenGLInfoError(_) => CoreErrorKind::OpenGLInfoError,
            CoreError::USBInfoError(_) => CoreErrorKind::USBInfoError,
            CoreError::Error(_) => CoreErrorKind::Error,
        }
    }

    /// The native diagnostic that the error wraps.
    pub fn detail(&self) -> (d: &String)
        ensures
            d@ == self.deep_view().detail,
    {
        match self {
            CoreError::CPUInfoError(d) => d,
            CoreError::DirectXInfoError(d) => d,
            CoreError::MetalInfoError(d) => d,
            CoreError::VulkanInfoError(d) => d,
            CoreError::OpenGLInfoError(d) => d,
            CoreError::USBInfoError(d) => d,
            CoreError::Error(d) => d,
        }
    }

    /// The sentence shown for the error.
    pub fn to_string(&self) -> (s: String)
        ensures
            s@ == self.deep_view().rendered(),
    {
        let mut s = self.kind().preamble_string();
        s.append(self.detail().as_str());
        s
    }

    /// The `kind` and `message` under which the shell receives the error.
    pub fn report(&self) -> (r: (String, String))
        ensures
            r.0@ == self.deep_view().kind.tag(),
            r.1@ == self.deep_view().rendered(),
    {
        (self.kind().tag_string(), self.to_string())
    }
}

} // verus!
