//! The snapshot cache: each category's probe runs until it first succeeds,
//! and every caller after that is served a copy of what it returned.
//!
//! A slot is owned by whoever serves the requests and is handed around behind
//! a lock; a call holds the slot for the whole of check, compute and store, so
//! that calls on one slot happen one after the other.

use crate::snapshot::Snapshot;
use crate::types::{CoreError, CoreErrorModel};
use crate::utils::cpu::CpuInfo;
use crate::utils::disks::DisksInfo;
use crate::utils::displays::DisplaysInfo;
use crate::utils::gpu::directx::DirectXInfo;
use crate::utils::gpu::metal::MetalInfo;
use crate::utils::gpu::opengl::OpenGLInfo;
use crate::utils::gpus::vulkan::VulkanInfo;
use crate::utils::gpus::GpusInfo;
use crate::utils::network::NetworksInfo;
use crate::utils::platform::PlatformInfo;
use crate::utils::usb::USBInfo;
use crate::utils::vulkan::VulkanInfo as VulkanInstanceInfo;
use vstd::prelude::*;

verus! {

// ---------------------------------------------------------------------------
// The model: requests on one slot
// ---------------------------------------------------------------------------

/// One request as the slot sees it: what it held before, what it holds
/// after, and what the caller was given.
pub ghost struct Request<M> {
    pub before: Option<M>,
    pub after: Option<M>,
    pub answer: Result<M, CoreErrorModel>,
}

impl<M> Request<M> {
    /// Whether the request ran the probe: it did where the slot was empty.
    pub open spec fn ran_probe(self) -> bool {
        self.before is None
    }

    /// What a request may do. A filled slot answers with its content and
    /// stays as it is. An empty slot takes the probe's outcome: a snapshot
    /// is stored and returned, a failure is returned and nothing is stored.
    pub open spec fn lawful(self) -> bool {
        match self.before {
            Some(held) => self.answer == Ok::<M, CoreErrorModel>(held) && self.after
                == self.before,
            None => match self.answer {
                Ok(fresh) => self.after == Some(fresh),
                Err(_) => self.after is None,
            },
        }
    }
}

/// Requests that follow one another on one slot.
pub open spec fn sequential<M>(requests: Seq<Request<M>>) -> bool {
    &&& forall|i: int| 0 <= i < requests.len() ==> (#[trigger] requests[i]).lawful()
    &&& forall|i: int|
        0 <= i < requests.len() - 1 ==> (#[trigger] requests[i + 1]).before == requests[i].after
}

/// Once a request has succeeded, the slot stays filled with its answer.
pub proof fn lemma_filled_for_good<M>(requests: Seq<Request<M>>, i: int, j: int)
    requires
        sequential(requests),
        0 <= i < j < requests.len(),
        requests[i].answer is Ok,
    ensures
        requests[j].before == Some(requests[i].answer->Ok_0),
    decreases j - i,
{
    if j > i + 1 {
        lemma_filled_for_good(requests, i, j - 1);
    }
    assert(requests[(j - 1) + 1].before == requests[j - 1].after);
}

/// Sequential requests agree: after one has been answered with a snapshot,
/// every later one is answered with the same snapshot.
pub proof fn lemma_answers_agree<M>(requests: Seq<Request<M>>, i: int, j: int)
    requires
        sequential(requests),
        0 <= i < j < requests.len(),
        requests[i].answer is Ok,
    ensures
        requests[j].answer == requests[i].answer,
{
    lemma_filled_for_good(requests, i, j);
}

/// The probe runs at most once with success: after a request that was
/// answered with a snapshot, no later request runs the probe.
pub proof fn lemma_probe_runs_once<M>(requests: Seq<Request<M>>, i: int, j: int)
    requires
        sequential(requests),
        0 <= i < j < requests.len(),
        requests[i].answer is Ok,
    ensures
        !requests[j].ran_probe(),
{
    lemma_filled_for_good(requests, i, j);
}

/// How many of the requests ran the probe.
pub open spec fn probe_runs<M>(requests: Seq<Request<M>>) -> nat
    decreases requests.len(),
{
    if requests.len() == 0 {
        0
    } else {
        probe_runs(requests.drop_last()) + if requests.last().ran_probe() {
            1nat
        } else {
            0nat
        }
    }
}

/// However many callers ask for a category that has not been computed, and
/// in whatever order the lock serves them: where the probe succeeds, it runs
/// exactly once, for the caller that is served first, and every caller is
/// answered with the same snapshot.
pub proof fn lemma_one_run_serves_all<M>(requests: Seq<Request<M>>)
    requires
        sequential(requests),
        requests.len() >= 1,
        requests[0].before is None,
        requests[0].answer is Ok,
    ensures
        probe_runs(requests) == 1,
        requests[0].ran_probe(),
        forall|i: int| 0 <= i < requests.len() ==> (#[trigger] requests[i]).answer
            == requests[0].answer,
    decreases requests.len(),
{
    let n = requests.len() as int;
    let front = requests.drop_last();
    if n == 1 {
        assert(probe_runs(front) == 0);
    } else {
        assert(sequential(front)) by {
            assert forall|i: int| 0 <= i < front.len() - 1 implies (#[trigger] front[i + 1]).before
                == front[i].after by {
                assert(requests[i + 1].before == requests[i].after);
            }
        }
        lemma_one_run_serves_all(front);
        lemma_filled_for_good(requests, 0, n - 1);
        lemma_answers_agree(requests, 0, n - 1);
        assert forall|i: int| 0 <= i < requests.len() implies (#[trigger] requests[i]).answer
            == requests[0].answer by {
            if i < n - 1 {
                assert(front[i] == requests[i]);
            }
        }
    }
}

/// A failure is not kept: the request that failed ran the probe, left the
/// slot empty, and the next request runs the probe again.
pub proof fn lemma_failure_is_retried<M>(requests: Seq<Request<M>>, i: int)
    requires
        sequential(requests),
        0 <= i < requests.len(),
        requests[i].answer is Err,
    ensures
        requests[i].ran_probe(),
        requests[i].after is None,
        i + 1 < requests.len() ==> requests[i + 1].ran_probe(),
{
    assert(requests[i].lawful());
    if i + 1 < requests.len() {
        assert(requests[i + 1].before == requests[i].after);
    }
}

// ---------------------------------------------------------------------------
// The slot
// ---------------------------------------------------------------------------

/// What the outcome of a probe says.
pub open spec fn outcome_model<T: DeepView>(outcome: Result<T, CoreError>) -> Result<
    T::V,
    CoreErrorModel,
> {
    match outcome {
        Ok(snapshot) => Ok(snapshot.deep_view()),
        Err(e) => Err(e.deep_view()),
    }
}

/// The cache of one category: empty until its probe first succeeds.
pub struct CacheSlot<T> {
    value: Option<T>,
}

impl<T: Snapshot> CacheSlot<T> {
    /// What the slot holds.
    pub closed spec fn stored(&self) -> Option<T::V> {
        self.value.deep_view()
    }

    /// An empty slot.
    pub fn new() -> (slot: Self)
        ensures
            slot.stored() is None,
    {
        CacheSlot { value: None }
    }

    /// Whether a snapshot is stored.
    pub fn is_filled(&self) -> (filled: bool)
        ensures
            filled == self.stored() is Some,
    {
        self.value.is_some()
    }

    /// A copy of what the slot holds, without running anything.
    pub fn peek(&self) -> (held: Option<T>)
        ensures
            held.deep_view() == self.stored(),
    {
        self.value.duplicate()
    }

    /// The snapshot of this category, computed by `probe` on the first call
    /// and served from the slot on every later one. The probe needs to be
    /// callable only where the slot is empty: a filled slot never runs it.
    pub fn get_or_compute<F: FnOnce() -> T>(&mut self, probe: F) -> (snapshot: T)
        requires
            old(self).stored() is None ==> probe.requires(()),
        ensures
            (Request {
                before: old(self).stored(),
                after: final(self).stored(),
                answer: Ok(snapshot.deep_view()),
            }).lawful(),
            old(self).stored() is None ==> probe.ensures((), snapshot),
    {
        match &self.value {
            Some(held) => held.duplicate(),
            None => {
                let fresh = probe();
                self.value = Some(fresh.duplicate());
                fresh
            },
        }
    }

    /// As `get_or_compute`, for a probe that can fail. A failure is handed to
    /// the caller and not stored, so that the next call runs the probe again.
    pub fn get_or_compute_checked<F: FnOnce() -> Result<T, CoreError>>(&mut self, probe: F) -> (outcome:
        Result<T, CoreError>)
        requires
            old(self).stored() is None ==> probe.requires(()),
        ensures
            (Request {
                before: old(self).stored(),
                after: final(self).stored(),
                answer: outcome_model(outcome),
            }).lawful(),
            old(self).stored() is None ==> probe.ensures((), outcome),
    {
        match &self.value {
            Some(held) => Ok(held.duplicate()),
            None => {
                let outcome = probe();
                match &outcome {
                    Ok(fresh) => {
                        self.value = Some(fresh.duplicate());
                    },
                    Err(_) => {},
                }
                outcome
            },
        }
    }
}

// ---------------------------------------------------------------------------
// The cache
// ---------------------------------------------------------------------------

/// The snapshot cache of a process: one slot for each category. It is made
/// when the process starts and handed to whatever serves the requests; the
/// categories are independent of one another.
pub struct SnapshotCache {
    pub cpu: CacheSlot<CpuInfo>,
    pub disks: CacheSlot<DisksInfo>,
    pub networks: CacheSlot<NetworksInfo>,
    pub platform: CacheSlot<PlatformInfo>,
    pub displays: CacheSlot<DisplaysInfo>,
    pub usb: CacheSlot<USBInfo>,
    pub gpus: CacheSlot<GpusInfo>,
    pub vulkan: CacheSlot<VulkanInfo>,
    pub vulkan_instance: CacheSlot<VulkanInstanceInfo>,
    pub metal: CacheSlot<MetalInfo>,
    pub directx: CacheSlot<DirectXInfo>,
    pub opengl: CacheSlot<OpenGLInfo>,
}

impl SnapshotCache {
    /// Whether no category has been computed yet.
    pub open spec fn is_fresh(&self) -> bool {
        &&& self.cpu.stored() is None
        &&& self.disks.stored() is None
        &&& self.networks.stored() is None
        &&& self.platform.stored() is None
        &&& self.displays.stored() is None
        &&& self.usb.stored() is None
        &&& self.gpus.stored() is None
        &&& self.vulkan.stored() is None
        &&& self.vulkan_instance.stored() is None
        &&& self.metal.stored() is None
        &&& self.directx.stored() is None
        &&& self.opengl.stored() is None
    }

    /// A cache in which every slot is empty.
    pub fn new() -> (cache: SnapshotCache)
        ensures
            cache.is_fresh(),
    {
        SnapshotCache {
            cpu: CacheSlot::new(),
            disks: CacheSlot::new(),
            networks: CacheSlot::new(),
            platform: CacheSlot::new(),
            displays: CacheSlot::new(),
            usb: CacheSlot::new(),
            gpus: CacheSlot::new(),
            vulkan: CacheSlot::new(),
            vulkan_instance: CacheSlot::new(),
            metal: CacheSlot::new(),
            directx: CacheSlot::new(),
            opengl: CacheSlot::new(),
        }
    }
}

} // verus!
