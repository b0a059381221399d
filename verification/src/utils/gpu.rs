//! The graphics backends: which of them a host offers, and one probe each.

pub mod directx;
pub mod metal;
pub mod opengl;

use crate::utils::platform::Platform;
use vstd::prelude::*;

verus! {

/// A native graphics API that has a probe.
#[derive(Clone, Copy, Debug, PartialEq, Eq, Structural)]
pub enum GpuProbe {
    Vulkan,
    Metal,
    OpenGL,
    DirectX,
}

/// The probes that exist on a host. Metal is there on macOS and Vulkan on
/// every other system; OpenGL wherever a windowing layer can give a context;
/// DirectX on Windows alone.
pub open spec fn probes_of(platform: Platform, has_windowing: bool) -> Seq<GpuProbe> {
    let native = if platform == Platform::MacOS {
        seq![GpuProbe::Metal]
    } else {
        seq![GpuProbe::Vulkan]
    };
    let opengl = if has_windowing {
        seq![GpuProbe::OpenGL]
    } else {
        Seq::empty()
    };
    let directx = if platform == Platform::Windows {
        seq![GpuProbe::DirectX]
    } else {
        Seq::empty()
    };
    native + opengl + directx
}

/// Selects the probes to run on a host. Each of them runs by itself, and
/// their results are not merged.
pub fn available_probes(platform: Platform, has_windowing: bool) -> (probes: Vec<GpuProbe>)
    ensures
        probes@ == probes_of(platform, has_windowing),
{
    let mut probes: Vec<GpuProbe> = Vec::new();
    match platform {
        Platform::MacOS => {
            probes.push(GpuProbe::Metal);
        },
        _ => {
            probes.push(GpuProbe::Vulkan);
        },
    }
    if has_windowing {
        probes.push(GpuProbe::OpenGL);
    }
    match platform {
        Platform::Windows => {
            probes.push(GpuProbe::DirectX);
        },
        _ => {},
    }
    probes
}

/// On every host exactly one of Vulkan and Metal has a probe, OpenGL has
/// one exactly where there is a windowing layer, and DirectX exactly on
/// Windows.
pub proof fn lemma_probe_selection(platform: Platform, has_windowing: bool)
    ensures
        probes_of(platform, has_windowing).contains(GpuProbe::Vulkan) != probes_of(
            platform,
            has_windowing,
        ).contains(GpuProbe::Metal),
        probes_of(platform, has_windowing).contains(GpuProbe::Metal) <==> platform
            == Platform::MacOS,
        probes_of(platform, has_windowing).contains(GpuProbe::OpenGL) <==> has_windowing,
        probes_of(platform, has_windowing).contains(GpuProbe::DirectX) <==> platform
            == Platform::Windows,
        probes_of(platform, has_windowing).no_duplicates(),
{
    let probes = probes_of(platform, has_windowing);
    assert(probes[0] == GpuProbe::Metal || probes[0] == GpuProbe::Vulkan);
    if has_windowing {
        assert(probes[1] == GpuProbe::OpenGL);
    }
    if platform == Platform::Windows {
        assert(probes[probes.len() - 1] == GpuProbe::DirectX);
    }
}

} // verus!
