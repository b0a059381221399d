//! The OpenGL probe.

use crate::snapshot::Snapshot;
use crate::types::{CoreError, CoreErrorKind, CoreErrorModel};
use vstd::prelude::*;

verus! {

/// What the OpenGL context says of itself.
#[derive(Debug, PartialEq, Eq)]
pub struct OpenGLInfo {
    /// The vendor of the OpenGL device.
    pub vendor: String,
    /// The OpenGL renderer.
    pub renderer: String,
    /// The OpenGL version.
    pub version: String,
    /// The video memory that is free on the device, where it tells.
    pub free_video_mem: Option<usize>,
}

/// What a `OpenGLInfo` says: its fields, with texts and lists as sequences.
pub ghost struct OpenGLInfoModel {
    pub vendor: Seq<char>,
    pub renderer: Seq<char>,
    pub version: Seq<char>,
    pub free_video_mem: Option<usize>,
}

impl DeepView for OpenGLInfo {
    type V = OpenGLInfoModel;

    open spec fn deep_view(&self) -> OpenGLInfoModel {
        OpenGLInfoModel {
            vendor: self.vendor@,
            renderer: self.renderer@,
            version: self.version@,
            free_video_mem: self.free_video_mem,
        }
    }
}

impl Snapshot for OpenGLInfo {
    fn duplicate(&self) -> (copy: OpenGLInfo) {
        OpenGLInfo {
            vendor: self.vendor.clone(),
            renderer: self.renderer.clone(),
            version: self.version.clone(),
            free_video_mem: self.free_video_mem,
        }
    }
}

impl OpenGLInfo {
    /// The outcome of the probe from what the short-lived context gave:
    /// its answers as they are, or an `OpenGLInfoError` with the message of
    /// the windowing system.
    pub fn get(context: Result<OpenGLInfo, String>) -> (r: Result<OpenGLInfo, CoreError>)
        ensures
            match context {
                Ok(info) => r == Ok::<OpenGLInfo, CoreError>(info),
                Err(message) => r matches Err(e) && e.deep_view() == (CoreErrorModel {
                    kind: CoreErrorKind::OpenGLInfoError,
                    detail: message@,
                }),
            },
    {
        match context {
            Ok(info) => Ok(info),
            Err(message) => Err(CoreError::new(CoreErrorKind::OpenGLInfoError, message)),
        }
    }
}

} // verus!
