//! The Vulkan instance probe: the extensions and layers of the loader.

use crate::snapshot::Snapshot;
use crate::text::{c_str_prefix, decode_utf8_lossy};
use crate::types::{CoreError, CoreErrorKind, CoreErrorModel};
use crate::utils::gpus::vulkan::{c_str_text, LayerProperties, Version};
use vstd::prelude::*;

verus! {

/// One instance extension as the loader reports it
/// (`VkExtensionProperties`); the name is a NUL-terminated buffer.
#[derive(Debug, PartialEq, Eq)]
pub struct ExtensionProperties {
    pub extension_name: Vec<u8>,
    pub spec_version: u32,
}

/// What the loader reports of the instance.
#[derive(Debug, PartialEq, Eq)]
pub struct InstanceReport {
    pub extensions: Vec<ExtensionProperties>,
    pub layers: Vec<LayerProperties>,
    /// The packed instance version, where the loader can tell it.
    pub instance_version: Option<u32>,
}

/// A Vulkan instance extension.
#[derive(Debug, PartialEq, Eq)]
pub struct VulkanExt {
    /// The name of the extension.
    pub name: String,
    /// The revision of the extension.
    pub version: u32,
}

/// A Vulkan instance layer.
#[derive(Debug, PartialEq, Eq)]
pub struct VulkanLayer {
    /// The name of the layer.
    pub name: String,
    /// The packed version of Vulkan that the layer was written against.
    pub spec_version: u32,
    /// The version of the layer itself.
    pub implementation_version: u32,
    /// The layer's description.
    pub description: String,
}

/// The Vulkan instance of the machine.
#[derive(Debug, PartialEq, Eq)]
pub struct VulkanInfo {
    /// The instance version as text.
    pub instance_version: Option<String>,
    /// The instance extensions, in enumeration order.
    pub extensions: Vec<VulkanExt>,
    /// The number of instance extensions.
    pub total_extensions: u64,
    /// The instance layers, in enumeration order.
    pub layers: Vec<VulkanLayer>,
    /// The number of instance layers.
    pub total_layers: u64,
}

/// What a `VulkanExt` says: its fields, with texts and lists as sequences.
pub ghost struct VulkanExtModel {
    pub name: Seq<char>,
    pub version: u32,
}

/// What a `VulkanLayer` says: its fields, with texts and lists as sequences.
pub ghost struct VulkanLayerModel {
    pub name: Seq<char>,
    pub spec_version: u32,
    pub implementation_version: u32,
    pub description: Seq<char>,
}

/// What a `VulkanInfo` says: its fields, with texts and lists as sequences.
pub ghost struct VulkanInfoModel {
    pub instance_version: Option<Seq<char>>,
    pub extensions: Seq<VulkanExtModel>,
    pub total_extensions: u64,
    pub layers: Seq<VulkanLayerModel>,
    pub total_layers: u64,
}

impl DeepView for VulkanExt {
    type V = VulkanExtModel;

    open spec fn deep_view(&self) -> VulkanExtModel {
        VulkanExtModel { name: self.name@, version: self.version }
    }
}

impl DeepView for VulkanLayer {
    type V = VulkanLayerModel;

    open spec fn deep_view(&self) -> VulkanLayerModel {
        VulkanLayerModel {
            name: self.name@,
            spec_version: self.spec_version,
            implementation_version: self.implementation_version,
            description: self.description@,
        }
    }
}

impl DeepView for VulkanInfo {
    type V = VulkanInfoModel;

    open spec fn deep_view(&self) -> VulkanInfoModel {
        VulkanInfoModel {
            instance_version: self.instance_version.deep_view(),
            extensions: self.extensions.deep_view(),
            total_extensions: self.total_extensions,
            layers: self.layers.deep_view(),
            total_layers: self.total_layers,
        }
    }
}

impl Snapshot for VulkanExt {
    fn duplicate(&self) -> (copy: VulkanExt) {
        VulkanExt { name: self.name.clone(), version: self.version }
    }
}

impl Snapshot for VulkanLayer {
    fn duplicate(&self) -> (copy: VulkanLayer) {
        VulkanLayer {
            name: self.name.clone(),
            spec_version: self.spec_version,
            implementation_version: self.implementation_version,
            description: self.description.clone(),
        }
    }
}

impl Snapshot for VulkanInfo {
    fn duplicate(&self) -> (copy: VulkanInfo) {
        VulkanInfo {
            instance_version: self.instance_version.duplicate(),
            extensions: self.extensions.duplicate(),
            total_extensions: self.total_extensions,
            layers: self.layers.duplicate(),
            total_layers: self.total_layers,
        }
    }
}

/// What an extension record says.
pub open spec fn ext_model(raw: ExtensionProperties) -> VulkanExtModel {
    VulkanExtModel { name: c_str_text(raw.extension_name@), version: raw.spec_version }
}

/// What a layer record says.
pub open spec fn layer_model(raw: LayerProperties) -> VulkanLayerModel {
    VulkanLayerModel {
        name: c_str_text(raw.layer_name@),
        spec_version: raw.spec_version,
        implementation_version: raw.implementation_version,
        description: c_str_text(raw.description@),
    }
}

/// The instance version as text, where the loader told one.
pub open spec fn instance_version_of(packed: Option<u32>) -> Option<Seq<char>> {
    match packed {
        Some(v) => Some(Version::of_packed(v).rendered()),
        None => None,
    }
}

/// What the loader's report says.
pub open spec fn report_model(report: InstanceReport) -> VulkanInfoModel {
    VulkanInfoModel {
        instance_version: instance_version_of(report.instance_version),
        extensions: Seq::new(report.extensions@.len(), |i: int| ext_model(report.extensions@[i])),
        total_extensions: report.extensions@.len() as u64,
        layers: Seq::new(report.layers@.len(), |i: int| layer_model(report.layers@[i])),
        total_layers: report.layers@.len() as u64,
    }
}

/// The text of a name buffer: what stands in front of its first NUL byte,
/// or all of it where it holds none.
pub fn buffer_text(buf: &Vec<u8>) -> (s: String)
    ensures
        s@ == c_str_text(buf@),
{
    let prefix = c_str_prefix(buf);
    decode_utf8_lossy(prefix.as_slice())
}

impl VulkanExt {
    /// An extension from its decoded name and its revision.
    pub fn new(name: String, version: u32) -> (ext: VulkanExt)
        ensures
            ext.deep_view() == (VulkanExtModel { name: name@, version }),
    {
        VulkanExt { name, version }
    }

    /// Decodes an extension record.
    pub fn decode(raw: &ExtensionProperties) -> (ext: VulkanExt)
        ensures
            ext.deep_view() == ext_model(*raw),
    {
        VulkanExt::new(buffer_text(&raw.extension_name), raw.spec_version)
    }
}

impl VulkanLayer {
    /// A layer from its decoded texts and its versions.
    pub fn new(
        name: String,
        spec_version: u32,
        implementation_version: u32,
        description: String,
    ) -> (layer: VulkanLayer)
        ensures
            layer.deep_view() == (VulkanLayerModel {
                name: name@,
                spec_version,
                implementation_version,
                description: description@,
            }),
    {
        VulkanLayer { name, spec_version, implementation_version, description }
    }

    /// Decodes a layer record.
    pub fn decode(raw: &LayerProperties) -> (layer: VulkanLayer)
        ensures
            layer.deep_view() == layer_model(*raw),
    {
        VulkanLayer::new(
            buffer_text(&raw.layer_name),
            raw.spec_version,
            raw.implementation_version,
            buffer_text(&raw.description),
        )
    }
}

impl VulkanInfo {
    /// Whether the counts are the numbers of extensions and layers.
    pub open spec fn wf(&self) -> bool {
        self.total_extensions == self.extensions@.len() && self.total_layers == self.layers@.len()
    }

    /// The outcome of the probe from the outcome of the enumeration. Where
    /// a native call failed, the probe fails with a `VulkanInfoError` that
    /// carries the native message; else every record is decoded, in
    /// enumeration order.
    pub fn get(enumerated: Result<InstanceReport, String>) -> (r: Result<VulkanInfo, CoreError>)
        ensures
            match enumerated {
                Ok(report) => r matches Ok(info) && info.deep_view() == report_model(report)
                    && info.wf(),
                Err(native) => r matches Err(e) && e.deep_view() == (CoreErrorModel {
                    kind: CoreErrorKind::VulkanInfoError,
                    detail: native@,
                }),
            },
    {
        let report = match enumerated {
            Ok(report) => report,
            Err(native) => {
                return Err(CoreError::new(CoreErrorKind::VulkanInfoError, native));
            },
        };
        let mut extensions: Vec<VulkanExt> = Vec::new();
        let mut i: usize = 0;
        while i < report.extensions.len()
            invariant
                0 <= i <= report.extensions.len(),
                extensions@.len() == i,
                forall|j: int|
                    0 <= j < i ==> (#[trigger] extensions@[j]).deep_view() == ext_model(
                        report.extensions@[j],
                    ),
            decreases report.extensions.len() - i,
        {
            extensions.push(VulkanExt::decode(&report.extensions[i]));
            i += 1;
        }
        let mut layers: Vec<VulkanLayer> = Vec::new();
        let mut k: usize = 0;
        while k < report.layers.len()
            invariant
                0 <= k <= report.layers.len(),
                layers@.len() == k,
                forall|j: int|
                    0 <= j < k ==> (#[trigger] layers@[j]).deep_view() == layer_model(
                        report.layers@[j],
                    ),
            decreases report.layers.len() - k,
        {
            layers.push(VulkanLayer::decode(&report.layers[k]));
            k += 1;
        }
        let instance_version = match report.instance_version {
            Some(v) => Some(Version::decode(v).to_string()),
            None => None,
        };
        let info = VulkanInfo {
            instance_version,
            total_extensions: extensions.len() as u64,
            extensions,
            total_layers: layers.len() as u64,
            layers,
        };
        assert(info.extensions.deep_view() =~= report_model(report).extensions);
        assert(info.layers.deep_view() =~= report_model(report).layers);
        Ok(info)
    }
}

} // verus!
