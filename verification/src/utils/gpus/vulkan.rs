//! The Vulkan device probe: what each physical device reports, decoded.
//!
//! The loader hands over fixed-size records. Decoding unpacks the version
//! numbers, names the device type, renders the pipeline-cache UUID and cuts
//! the NUL-terminated names. A record that cannot be decoded fails the
//! whole probe: no partial list is ever returned.

use crate::snapshot::Snapshot;
use crate::text::{
    c_str_bytes, decimal, decode_utf8_lossy, has_nul, hex_lower, hex_string, push_char,
    push_decimal, push_signed_decimal, signed_decimal, until_nul, utf8_lossy,
};
use crate::types::{CoreError, CoreErrorKind, CoreErrorModel, VulkanDeviceType};
use vstd::prelude::*;

verus! {

// ---------------------------------------------------------------------------
// Packed versions
// ---------------------------------------------------------------------------

/// A version number as Vulkan packs it into 32 bits: ten bits of major, ten
/// of minor, twelve of patch.
#[derive(Clone, Copy, Debug, PartialEq, Eq, Structural)]
pub struct Version {
    pub major: u32,
    pub minor: u32,
    pub patch: u32,
}

impl Version {
    /// The parts of a packed version.
    pub open spec fn of_packed(v: u32) -> Version {
        Version { major: v >> 22, minor: (v >> 12) & 0x3ff, patch: v & 0xfff }
    }

    /// The packed form of a version.
    pub open spec fn packed(self) -> u32 {
        (self.major << 22) | (self.minor << 12) | self.patch
    }

    /// Whether each part fits the bits that the packed form has for it.
    pub open spec fn fits(self) -> bool {
        self.major < 0x400 && self.minor < 0x400 && self.patch < 0x1000
    }

    /// `major.minor.patch`, each part in decimal.
    pub open spec fn rendered(self) -> Seq<char> {
        decimal(self.major as nat) + seq!['.'] + decimal(self.minor as nat) + seq!['.'] + decimal(
            self.patch as nat,
        )
    }

    /// Unpacks a version.
    pub fn decode(v: u32) -> (r: Version)
        ensures
            r == Version::of_packed(v),
            r.fits(),
    {
        proof {
            lemma_unpacked_fits(v);
        }
        Version { major: v >> 22, minor: (v >> 12) & 0x3ff, patch: v & 0xfff }
    }

    /// Packs a version; bits of a part that does not fit are lost or overlap.
    pub fn encode(&self) -> (v: u32)
        ensures
            v == self.packed(),
    {
        (self.major << 22) | (self.minor << 12) | self.patch
    }

    /// The version as text.
    pub fn to_string(&self) -> (s: String)
        ensures
            s@ == self.rendered(),
    {
        let mut s = String::new();
        push_decimal(&mut s, self.major as u64);
        push_char(&mut s, '.');
        push_decimal(&mut s, self.minor as u64);
        push_char(&mut s, '.');
        push_decimal(&mut s, self.patch as u64);
        s
    }
}

/// The parts of an unpacked version fit their bits.
pub proof fn lemma_unpacked_fits(v: u32)
    ensures
        Version::of_packed(v).fits(),
{
    assert(v >> 22 < 0x400) by (bit_vector);
    assert((v >> 12) & 0x3ff < 0x400) by (bit_vector);
    assert(v & 0xfff < 0x1000) by (bit_vector);
}

/// Packing the parts of a packed version gives the packed version back.
pub proof fn lemma_version_round_trip(v: u32)
    ensures
        Version::of_packed(v).packed() == v,
{
    assert(((v >> 22) << 22) | (((v >> 12) & 0x3ff) << 12) | (v & 0xfff) == v) by (bit_vector);
}

/// Unpacking a packed version gives the parts back, where they fit.
pub proof fn lemma_version_unpack(version: Version)
    requires
        version.fits(),
    ensures
        Version::of_packed(version.packed()) == version,
{
    let major = version.major;
    let minor = version.minor;
    let patch = version.patch;
    assert(((major << 22) | (minor << 12) | patch) >> 22 == major) by (bit_vector)
        requires
            major < 0x400 && minor < 0x400 && patch < 0x1000,
    ;
    assert((((major << 22) | (minor << 12) | patch) >> 12) & 0x3ff == minor) by (bit_vector)
        requires
            major < 0x400 && minor < 0x400 && patch < 0x1000,
    ;
    assert(((major << 22) | (minor << 12) | patch) & 0xfff == patch) by (bit_vector)
        requires
            major < 0x400 && minor < 0x400 && patch < 0x1000,
    ;
}

// ---------------------------------------------------------------------------
// What the loader reports
// ---------------------------------------------------------------------------

/// One device layer as the loader reports it (`VkLayerProperties`); names are
/// NUL-terminated buffers.
#[derive(Debug, PartialEq, Eq)]
pub struct LayerProperties {
    pub layer_name: Vec<u8>,
    pub spec_version: u32,
    pub implementation_version: u32,
    pub description: Vec<u8>,
}

/// One physical device as the loader reports it
/// (`VkPhysicalDeviceProperties`), with its device layers.
#[derive(Debug, PartialEq, Eq)]
pub struct PhysicalDeviceProperties {
    pub device_name: Vec<u8>,
    pub vendor_id: u32,
    pub device_id: u32,
    pub device_type: i32,
    pub api_version: u32,
    pub driver_version: u32,
    pub pipeline_cache_uuid: [u8; 16],
    pub layers: Vec<LayerProperties>,
}

// ---------------------------------------------------------------------------
// What the probe returns
// ---------------------------------------------------------------------------

/// A decoded device layer.
#[derive(Debug, PartialEq, Eq)]
pub struct VulkanDeviceLayer {
    /// The layer's name.
    pub layer_name: String,
    /// The Vulkan version the layer was written against.
    pub vulkan_version: String,
    /// The layer's own version.
    pub layer_version: u32,
    /// The layer's description.
    pub description: String,
}

/// A decoded physical device.
#[derive(Debug, PartialEq, Eq)]
pub struct VulkanDevice {
    /// The name of the device.
    pub device_name: String,
    /// The device's vendor ID.
    pub vendor_id: u32,
    /// The device ID.
    pub device_id: u32,
    /// The label of the device type.
    pub device_type: String,
    /// The Vulkan API version the device supports.
    pub api_version: String,
    /// The device's driver version.
    pub driver_version: String,
    /// The pipeline cache UUID in hexadecimal.
    pub pipeline_cache_uuid: String,
    /// The device's layers, in enumeration order.
    pub layers: Vec<VulkanDeviceLayer>,
}

/// The Vulkan devices of the machine, in enumeration order.
#[derive(Debug, PartialEq, Eq)]
pub struct VulkanInfo {
    /// The number of devices.
    pub total_devices: usize,
    /// The devices.
    pub devices: Vec<VulkanDevice>,
}

/// What a `VulkanDeviceLayer` says: its fields, with texts and lists as sequences.
pub ghost struct VulkanDeviceLayerModel {
    pub layer_name: Seq<char>,
    pub vulkan_version: Seq<char>,
    pub layer_version: u32,
    pub description: Seq<char>,
}

/// What a `VulkanDevice` says: its fields, with texts and lists as sequences.
pub ghost struct VulkanDeviceModel {
    pub device_name: Seq<char>,
    pub vendor_id: u32,
    pub device_id: u32,
    pub device_type: Seq<char>,
    pub api_version: Seq<char>,
    pub driver_version: Seq<char>,
    pub pipeline_cache_uuid: Seq<char>,
    pub layers: Seq<VulkanDeviceLayerModel>,
}

/// What a `VulkanInfo` says: its fields, with texts and lists as sequences.
pub ghost struct VulkanInfoModel {
    pub total_devices: usize,
    pub devices: Seq<VulkanDeviceModel>,
}

impl DeepView for VulkanDeviceLayer {
    type V = VulkanDeviceLayerModel;

    open spec fn deep_view(&self) -> VulkanDeviceLayerModel {
        VulkanDeviceLayerModel {
            layer_name: self.layer_name@,
            vulkan_version: self.vulkan_version@,
            layer_version: self.layer_version,
            description: self.description@,
        }
    }
}

impl DeepView for VulkanDevice {
    type V = VulkanDeviceModel;

    open spec fn deep_view(&self) -> VulkanDeviceModel {
        VulkanDeviceModel {
            device_name: self.device_name@,
            vendor_id: self.vendor_id,
            device_id: self.device_id,
            device_type: self.device_type@,
            api_version: self.api_version@,
            driver_version: self.driver_version@,
            pipeline_cache_uuid: self.pipeline_cache_uuid@,
            layers: self.layers.deep_view(),
        }
    }
}

impl DeepView for VulkanInfo {
    type V = VulkanInfoModel;

    open spec fn deep_view(&self) -> VulkanInfoModel {
        VulkanInfoModel { total_devices: self.total_devices, devices: self.devices.deep_view() }
    }
}

impl Snapshot for VulkanDeviceLayer {
    fn duplicate(&self) -> (copy: VulkanDeviceLayer) {
        VulkanDeviceLayer {
            layer_name: self.layer_name.clone(),
            vulkan_version: self.vulkan_version.clone(),
            layer_version: self.layer_version,
            description: self.description.clone(),
        }
    }
}

impl Snapshot for VulkanDevice {
    fn duplicate(&self) -> (copy: VulkanDevice) {
        VulkanDevice {
            device_name: self.device_name.clone(),
            vendor_id: self.vendor_id,
            device_id: self.device_id,
            device_type: self.device_type.clone(),
            api_version: self.api_version.clone(),
            driver_version: self.driver_version.clone(),
            pipeline_cache_uuid: self.pipeline_cache_uuid.clone(),
            layers: self.layers.duplicate(),
        }
    }
}

impl Snapshot for VulkanInfo {
    fn duplicate(&self) -> (copy: VulkanInfo) {
        VulkanInfo { total_devices: self.total_devices, devices: self.devices.duplicate() }
    }
}

// ---------------------------------------------------------------------------
// Decoding: the model
// ---------------------------------------------------------------------------

/// The diagnostic for a name buffer without a terminating NUL byte.
pub open spec fn missing_nul_detail() -> Seq<char> {
    "data provided does not contain a nul"@
}

/// The diagnostic for a device-type code that Vulkan does not define.
pub open spec fn unknown_type_detail(raw: i32) -> Seq<char> {
    "unknown physical device type: "@ + signed_decimal(raw as int)
}

/// Why a layer record cannot be decoded, if it cannot.
pub open spec fn layer_failure(raw: LayerProperties) -> Option<CoreErrorModel> {
    if !has_nul(raw.layer_name@) || !has_nul(raw.description@) {
        Some(CoreErrorModel { kind: CoreErrorKind::Error, detail: missing_nul_detail() })
    } else {
        None
    }
}

/// Why a device record cannot be decoded, if it cannot: its name comes
/// first, then its layers, then its type.
pub open spec fn device_failure(raw: PhysicalDeviceProperties) -> Option<CoreErrorModel> {
    if !has_nul(raw.device_name@) {
        Some(CoreErrorModel { kind: CoreErrorKind::VulkanInfoError, detail: missing_nul_detail() })
    } else if exists|i: int| 0 <= i < raw.layers@.len() && layer_failure(#[trigger] raw.layers@[i]) is Some {
        Some(CoreErrorModel { kind: CoreErrorKind::Error, detail: missing_nul_detail() })
    } else if VulkanDeviceType::of_raw(raw.device_type) is None {
        Some(
            CoreErrorModel {
                kind: CoreErrorKind::VulkanInfoError,
                detail: unknown_type_detail(raw.device_type),
            },
        )
    } else {
        None
    }
}

/// The text of a NUL-terminated buffer.
pub open spec fn c_str_text(buf: Seq<u8>) -> Seq<char> {
    utf8_lossy(c_str_bytes(buf))
}

/// What a layer record says.
pub open spec fn layer_model(raw: LayerProperties) -> VulkanDeviceLayerModel {
    VulkanDeviceLayerModel {
        layer_name: c_str_text(raw.layer_name@),
        vulkan_version: Version::of_packed(raw.spec_version).rendered(),
        layer_version: raw.implementation_version,
        description: c_str_text(raw.description@),
    }
}

/// What a device record says.
pub open spec fn device_model(raw: PhysicalDeviceProperties) -> VulkanDeviceModel {
    VulkanDeviceModel {
        device_name: c_str_text(raw.device_name@),
        vendor_id: raw.vendor_id,
        device_id: raw.device_id,
        device_type: VulkanDeviceType::of_raw(raw.device_type).unwrap().label(),
        api_version: Version::of_packed(raw.api_version).rendered(),
        driver_version: Version::of_packed(raw.driver_version).rendered(),
        pipeline_cache_uuid: hex_lower(raw.pipeline_cache_uuid@),
        layers: Seq::new(raw.layers@.len(), |i: int| layer_model(raw.layers@[i])),
    }
}

/// What a list of device records says.
pub open spec fn info_model(devices: Seq<PhysicalDeviceProperties>) -> VulkanInfoModel {
    VulkanInfoModel {
        total_devices: devices.len() as usize,
        devices: Seq::new(devices.len(), |i: int| device_model(devices[i])),
    }
}

// ---------------------------------------------------------------------------
// Decoding: the code
// ---------------------------------------------------------------------------

fn missing_nul(kind: CoreErrorKind) -> (e: CoreError)
    ensures
        e.deep_view() == (CoreErrorModel { kind, detail: missing_nul_detail() }),
{
    CoreError::new(kind, String::from_str("data provided does not contain a nul"))
}

fn unknown_type(raw: i32) -> (e: CoreError)
    ensures
        e.deep_view() == (CoreErrorModel {
            kind: CoreErrorKind::VulkanInfoError,
            detail: unknown_type_detail(raw),
        }),
{
    let mut detail = String::from_str("unknown physical device type: ");
    push_signed_decimal(&mut detail, raw as i64);
    CoreError::new(CoreErrorKind::VulkanInfoError, detail)
}

/// The text of a NUL-terminated buffer; `None` where no NUL byte ends it.
pub fn c_str_to_string(buf: &Vec<u8>) -> (r: Option<String>)
    ensures
        r is Some <==> has_nul(buf@),
        r matches Some(s) ==> s@ == c_str_text(buf@),
{
    match until_nul(buf) {
        Some(bytes) => Some(decode_utf8_lossy(bytes.as_slice())),
        None => None,
    }
}

impl VulkanDeviceLayer {
    /// A layer from its decoded names and its raw versions.
    pub fn new(
        layer_name: String,
        spec_version: u32,
        implementation_version: u32,
        description: String,
    ) -> (layer: VulkanDeviceLayer)
        ensures
            layer.deep_view() == (VulkanDeviceLayerModel {
                layer_name: layer_name@,
                vulkan_version: Version::of_packed(spec_version).rendered(),
                layer_version: implementation_version,
                description: description@,
            }),
    {
        VulkanDeviceLayer {
            layer_name,
            vulkan_version: VulkanInfo::get_version_string(spec_version),
            layer_version: implementation_version,
            description,
        }
    }

    /// Decodes a layer record. It fails exactly where a name buffer holds no
    /// NUL byte.
    pub fn decode(raw: &LayerProperties) -> (r: Result<VulkanDeviceLayer, CoreError>)
        ensures
            match r {
                Ok(layer) => layer_failure(*raw) is None && layer.deep_view() == layer_model(*raw),
                Err(e) => layer_failure(*raw) == Some(e.deep_view()),
            },
    {
        let layer_name = match c_str_to_string(&raw.layer_name) {
            Some(s) => s,
            None => {
                return Err(missing_nul(CoreErrorKind::Error));
            },
        };
        let description = match c_str_to_string(&raw.description) {
            Some(s) => s,
            None => {
                return Err(missing_nul(CoreErrorKind::Error));
            },
        };
        Ok(
            VulkanDeviceLayer::new(
                layer_name,
                raw.spec_version,
                raw.implementation_version,
                description,
            ),
        )
    }
}

impl VulkanDevice {
    /// A device from its decoded name and layers and its raw properties. It
    /// fails exactly where the device-type code is not one that Vulkan defines.
    pub fn new(
        device_name: String,
        vendor_id: u32,
        device_id: u32,
        device_type: i32,
        api_version: u32,
        driver_version: u32,
        pipeline_cache_uuid: &[u8; 16],
        layers: Vec<VulkanDeviceLayer>,
    ) -> (r: Result<VulkanDevice, CoreError>)
        ensures
            match r {
                Ok(device) => VulkanDeviceType::of_raw(device_type) is Some && device.deep_view()
                    == (VulkanDeviceModel {
                    device_name: device_name@,
                    vendor_id,
                    device_id,
                    device_type: VulkanDeviceType::of_raw(device_type).unwrap().label(),
                    api_version: Version::of_packed(api_version).rendered(),
                    driver_version: Version::of_packed(driver_version).rendered(),
                    pipeline_cache_uuid: hex_lower(pipeline_cache_uuid@),
                    layers: layers.deep_view(),
                }),
                Err(e) => VulkanDeviceType::of_raw(device_type) is None && e.deep_view()
                    == (CoreErrorModel {
                    kind: CoreErrorKind::VulkanInfoError,
                    detail: unknown_type_detail(device_type),
                }),
            },
    {
        let kind = match VulkanDeviceType::from_raw(device_type) {
            Some(kind) => kind,
            None => {
                return Err(unknown_type(device_type));
            },
        };
        Ok(
            VulkanDevice {
                device_name,
                vendor_id,
                device_id,
                device_type: kind.to_string(),
                api_version: VulkanInfo::get_version_string(api_version),
                driver_version: VulkanInfo::get_version_string(driver_version),
                pipeline_cache_uuid: hex_string(pipeline_cache_uuid.as_slice()),
                layers,
            },
        )
    }

    /// Decodes a device record with its layers.
    pub fn decode(raw: &PhysicalDeviceProperties) -> (r: Result<VulkanDevice, CoreError>)
        ensures
            match r {
                Ok(device) => device_failure(*raw) is None && device.deep_view() == device_model(
                    *raw,
                ),
                Err(e) => device_failure(*raw) == Some(e.deep_view()),
            },
    {
        let device_name = match c_str_to_string(&raw.device_name) {
            Some(s) => s,
            None => {
                return Err(missing_nul(CoreErrorKind::VulkanInfoError));
            },
        };
        let mut layers: Vec<VulkanDeviceLayer> = Vec::new();
        let mut i: usize = 0;
        while i < raw.layers.len()
            invariant
                0 <= i <= raw.layers.len(),
                has_nul(raw.device_name@),
                layers@.len() == i,
                forall|j: int| 0 <= j < i ==> layer_failure(#[trigger] raw.layers@[j]) is None,
                forall|j: int|
                    0 <= j < i ==> (#[trigger] layers@[j]).deep_view() == layer_model(
                        raw.layers@[j],
                    ),
            decreases raw.layers.len() - i,
        {
            match VulkanDeviceLayer::decode(&raw.layers[i]) {
                Ok(layer) => layers.push(layer),
                Err(e) => {
                    return Err(e);
                },
            }
            i += 1;
        }
        assert(layers.deep_view() =~= device_model(*raw).layers);
        VulkanDevice::new(
            device_name,
            raw.vendor_id,
            raw.device_id,
            raw.device_type,
            raw.api_version,
            raw.driver_version,
            &raw.pipeline_cache_uuid,
            layers,
        )
    }
}

impl VulkanInfo {
    /// Whether the count is the number of devices.
    pub open spec fn wf(&self) -> bool {
        self.total_devices == self.devices@.len()
    }

    /// The text of a packed version: `major.minor.patch`.
    pub fn get_version_string(version: u32) -> (s: String)
        ensures
            s@ == Version::of_packed(version).rendered(),
    {
        Version::decode(version).to_string()
    }

    /// The outcome of the probe from the outcome of the enumeration. Where a
    /// native call failed, the probe fails with a `VulkanInfoError` that
    /// carries the native message; else the records are decoded.
    pub fn get(enumerated: Result<Vec<PhysicalDeviceProperties>, String>) -> (r: Result<
        VulkanInfo,
        CoreError,
    >)
        ensures
            match enumerated {
                Ok(devices) => Self::decoded(devices@, r),
                Err(native) => r matches Err(e) && e.deep_view() == (CoreErrorModel {
                    kind: CoreErrorKind::VulkanInfoError,
                    detail: native@,
                }),
            },
    {
        match enumerated {
            Ok(devices) => Self::decode(devices),
            Err(native) => Err(CoreError::new(CoreErrorKind::VulkanInfoError, native)),
        }
    }

    /// What decoding a list of records gives: the snapshot where every
    /// record can be decoded, else the error of the first one that cannot.
    pub open spec fn decoded(
        devices: Seq<PhysicalDeviceProperties>,
        r: Result<VulkanInfo, CoreError>,
    ) -> bool {
        match r {
            Ok(info) => {
                &&& forall|i: int|
                    0 <= i < devices.len() ==> device_failure(#[trigger] devices[i]) is None
                &&& info.deep_view() == info_model(devices)
                &&& info.wf()
            },
            Err(e) => exists|k: int|
                {
                    &&& 0 <= k < devices.len()
                    &&& forall|j: int| 0 <= j < k ==> device_failure(#[trigger] devices[j]) is None
                    &&& device_failure(#[trigger] devices[k]) == Some(e.deep_view())
                },
        }
    }

    /// Decodes what the loader reported of every physical device, in
    /// enumeration order. No device at all is a valid, empty answer.
    pub fn decode(devices: Vec<PhysicalDeviceProperties>) -> (r: Result<VulkanInfo, CoreError>)
        ensures
            Self::decoded(devices@, r),
    {
        let mut decoded: Vec<VulkanDevice> = Vec::new();
        let mut i: usize = 0;
        while i < devices.len()
            invariant
                0 <= i <= devices.len(),
                decoded@.len() == i,
                forall|j: int| 0 <= j < i ==> device_failure(#[trigger] devices@[j]) is None,
                forall|j: int|
                    0 <= j < i ==> (#[trigger] decoded@[j]).deep_view() == device_model(
                        devices@[j],
                    ),
            decreases devices.len() - i,
        {
            match VulkanDevice::decode(&devices[i]) {
                Ok(device) => decoded.push(device),
                Err(e) => {
                    return Err(e);
                },
            }
            i += 1;
        }
        let info = VulkanInfo { total_devices: devices.len(), devices: decoded };
        assert(info.devices.deep_view() =~= info_model(devices@).devices);
        Ok(info)
    }
}

} // verus!
