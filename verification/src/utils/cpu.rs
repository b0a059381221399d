//! The CPU probe: brand, vendor, caches and the topology of cores and
//! logical processors.

use crate::snapshot::Snapshot;
use crate::text::{decimal, push_decimal};
use crate::types::{CoreError, CoreErrorKind, CoreErrorModel};
use vstd::prelude::*;

verus! {

// ---------------------------------------------------------------------------
// What the detection reports
// ---------------------------------------------------------------------------

/// One cache level.
#[derive(Clone, Copy, Debug, PartialEq, Eq, Structural)]
pub struct Cache {
    pub size: u32,
    pub associativity: u32,
    pub sets: u32,
    pub partitions: u32,
    pub line_size: u32,
    pub flags: u32,
    pub processor_start: u32,
    pub processor_count: u32,
}

/// The caches that a logical processor sees, level by level.
#[derive(Clone, Copy, Debug, PartialEq, Eq, Structural)]
pub struct CacheInfo {
    pub l1i: Option<Cache>,
    pub l1d: Option<Cache>,
    pub l2: Option<Cache>,
    pub l3: Option<Cache>,
    pub l4: Option<Cache>,
}

/// One logical processor as the detection reports it, with the package it
/// sits in.
#[derive(Debug, PartialEq, Eq)]
pub struct ProcessorRecord {
    /// The name under which the system lists the processor, where it does.
    pub name: Option<String>,
    /// The frequency that the system lists for the processor, where it does.
    pub frequency: Option<u64>,
    /// The frequency of the core that the processor belongs to.
    pub core_frequency: u64,
    pub smt_id: u32,
    pub apic_id: u32,
    pub core_id: u32,
    pub windows_group_id: Option<u16>,
    pub windows_processor_id: Option<u16>,
    pub package_name: String,
    pub package_processor_count: u32,
    pub package_core_count: u32,
    pub cache: CacheInfo,
}

/// One physical core as the detection reports it.
#[derive(Debug, PartialEq, Eq)]
pub struct CoreRecord {
    pub core_id: u32,
    pub processor_count: u32,
    pub cpuid: u32,
    pub frequency: u64,
    pub vendor_name: String,
}

/// Everything the CPU probe reads from the machine.
#[derive(Debug, PartialEq, Eq)]
pub struct CpuReport {
    /// The logical processors, in enumeration order.
    pub processors: Vec<ProcessorRecord>,
    /// The physical cores, in enumeration order.
    pub cores: Vec<CoreRecord>,
    /// The architecture the program was built for.
    pub arch: String,
    /// The machine type that the kernel names, where it could be asked.
    pub machine: Option<String>,
}

// ---------------------------------------------------------------------------
// What the probe returns
// ---------------------------------------------------------------------------

/// A logical processor within its core.
#[derive(Clone, Copy, Debug, PartialEq, Eq, Structural)]
pub struct Processor {
    pub smt_id: u32,
    pub windows_group_id: Option<u16>,
    pub windows_processor_id: Option<u16>,
    pub apic_id: u32,
}

/// A physical core with its logical processors.
#[derive(Debug, PartialEq, Eq)]
pub struct Core {
    pub id: u32,
    pub processors_count: u32,
    pub cpu_id: u32,
    pub frequency: u64,
    pub processors: Vec<Processor>,
}

/// A logical processor by name and frequency.
#[derive(Debug, PartialEq, Eq)]
pub struct Cpu {
    pub name: String,
    pub frequency: u64,
}

/// The CPU of the machine.
#[derive(Debug, PartialEq, Eq)]
pub struct CpuInfo {
    pub brand: String,
    pub arch: String,
    pub op_modes: String,
    pub vendor_id: String,
    pub cache_info: CacheInfo,
    pub processors_count: usize,
    pub core_count: usize,
    pub threads_per_core: usize,
    pub cores: Vec<Core>,
    pub physical_core_count: Option<usize>,
    pub cpus: Vec<Cpu>,
}

/// What a `Core` says: its fields, with texts and lists as sequences.
pub ghost struct CoreModel {
    pub id: u32,
    pub processors_count: u32,
    pub cpu_id: u32,
    pub frequency: u64,
    pub processors: Seq<Processor>,
}

/// What a `Cpu` says: its fields, with texts and lists as sequences.
pub ghost struct CpuModel {
    pub name: Seq<char>,
    pub frequency: u64,
}

/// What a `CpuInfo` says: its fields, with texts and lists as sequences.
pub ghost struct CpuInfoModel {
    pub brand: Seq<char>,
    pub arch: Seq<char>,
    pub op_modes: Seq<char>,
    pub vendor_id: Seq<char>,
    pub cache_info: CacheInfo,
    pub processors_count: usize,
    pub core_count: usize,
    pub threads_per_core: usize,
    pub cores: Seq<CoreModel>,
    pub physical_core_count: Option<usize>,
    pub cpus: Seq<CpuModel>,
}

impl DeepView for Processor {
    type V = Processor;

    open spec fn deep_view(&self) -> Processor {
        *self
    }
}

impl DeepView for Core {
    type V = CoreModel;

    open spec fn deep_view(&self) -> CoreModel {
        CoreModel {
            id: self.id,
            processors_count: self.processors_count,
            cpu_id: self.cpu_id,
            frequency: self.frequency,
            processors: self.processors@,
        }
    }
}

impl DeepView for Cpu {
    type V = CpuModel;

    open spec fn deep_view(&self) -> CpuModel {
        CpuModel { name: self.name@, frequency: self.frequency }
    }
}

impl DeepView for CpuInfo {
    type V = CpuInfoModel;

    open spec fn deep_view(&self) -> CpuInfoModel {
        CpuInfoModel {
            brand: self.brand@,
            arch: self.arch@,
            op_modes: self.op_modes@,
            vendor_id: self.vendor_id@,
            cache_info: self.cache_info,
            processors_count: self.processors_count,
            core_count: self.core_count,
            threads_per_core: self.threads_per_core,
            cores: self.cores.deep_view(),
            physical_core_count: self.physical_core_count,
            cpus: self.cpus.deep_view(),
        }
    }
}

impl Snapshot for Processor {
    fn duplicate(&self) -> (copy: Processor) {
        *self
    }
}

impl Snapshot for Core {
    fn duplicate(&self) -> (copy: Core) {
        let processors = self.processors.duplicate();
        assert(processors@ =~= self.processors@) by {
            assert(self.processors.deep_view().len() == self.processors@.len());
            assert forall|i: int| 0 <= i < processors@.len() implies processors@[i]
                == self.processors@[i] by {
                assert(self.processors.deep_view()[i] == self.processors@[i].deep_view());
            }
        }
        Core {
            id: self.id,
            processors_count: self.processors_count,
            cpu_id: self.cpu_id,
            frequency: self.frequency,
            processors,
        }
    }
}

impl Snapshot for Cpu {
    fn duplicate(&self) -> (copy: Cpu) {
        Cpu { name: self.name.clone(), frequency: self.frequency }
    }
}

impl Snapshot for CpuInfo {
    fn duplicate(&self) -> (copy: CpuInfo) {
        CpuInfo {
            brand: self.brand.clone(),
            arch: self.arch.clone(),
            op_modes: self.op_modes.clone(),
            vendor_id: self.vendor_id.clone(),
            cache_info: self.cache_info,
            processors_count: self.processors_count,
            core_count: self.core_count,
            threads_per_core: self.threads_per_core,
            cores: self.cores.duplicate(),
            physical_core_count: self.physical_core_count,
            cpus: self.cpus.duplicate(),
        }
    }
}

// ---------------------------------------------------------------------------
// The model
// ---------------------------------------------------------------------------

/// The operating modes of a machine type.
pub open spec fn op_modes_of(machine: Seq<char>) -> Seq<char> {
    if machine == "x86_64"@ {
        "64-bit, 32-bit"@
    } else if machine == "aarch64"@ {
        "64-bit"@
    } else if machine == "i386"@ || machine == "i686"@ {
        "32-bit"@
    } else {
        "Unknown"@
    }
}

/// The diagnostic where the kernel could not be asked for the machine type.
pub open spec fn no_machine_detail() -> Seq<char> {
    "Failed to retrieve CPU op-modes"@
}

/// The diagnostic where no logical processor was reported.
pub open spec fn no_processor_detail() -> Seq<char> {
    "No logical processor was detected"@
}

/// The diagnostic where no physical core was reported.
pub open spec fn no_core_detail() -> Seq<char> {
    "No physical core was detected"@
}

/// The diagnostic where the package counts no core.
pub open spec fn zero_cores_detail() -> Seq<char> {
    "The CPU package reports zero cores"@
}

/// A logical processor as it stands within its core.
pub open spec fn processor_of(record: ProcessorRecord) -> Processor {
    Processor {
        smt_id: record.smt_id,
        windows_group_id: record.windows_group_id,
        windows_processor_id: record.windows_processor_id,
        apic_id: record.apic_id,
    }
}

/// The test that a logical processor belongs to a core.
pub open spec fn in_core(core_id: u32) -> spec_fn(ProcessorRecord) -> bool {
    |p: ProcessorRecord| p.core_id == core_id
}

/// The logical processors of one core, in enumeration order.
pub open spec fn members(processors: Seq<ProcessorRecord>, core_id: u32) -> Seq<Processor> {
    processors.filter(in_core(core_id)).map_values(|p: ProcessorRecord| processor_of(p))
}

/// What a core record says, given all logical processors.
pub open spec fn core_model(core: CoreRecord, processors: Seq<ProcessorRecord>) -> CoreModel {
    CoreModel {
        id: core.core_id,
        processors_count: core.processor_count,
        cpu_id: core.cpuid,
        frequency: core.frequency,
        processors: members(processors, core.core_id),
    }
}

/// Why a report cannot be turned into a snapshot, if it cannot: the
/// diagnostic of the first thing that is missing.
pub open spec fn cpu_failure(report: CpuReport) -> Option<Seq<char>> {
    if report.processors@.len() == 0 {
        Some(no_processor_detail())
    } else if report.machine is None {
        Some(no_machine_detail())
    } else if report.cores@.len() == 0 {
        Some(no_core_detail())
    } else if report.processors@[0].package_core_count == 0 {
        Some(zero_cores_detail())
    } else {
        None
    }
}

/// The name of a logical processor that the system lists none for: `cpu`
/// and its position.
pub open spec fn default_cpu_name(position: int) -> Seq<char> {
    "cpu"@ + decimal(position as nat)
}

/// The name of a logical processor at a position: the listed one, else the
/// default for the position.
pub open spec fn cpu_name(position: int, listed: Option<String>) -> Seq<char> {
    match listed {
        Some(name) => name@,
        None => default_cpu_name(position),
    }
}

/// The frequency of a logical processor: the listed one, else that of its
/// core.
pub open spec fn cpu_frequency(listed: Option<u64>, core_frequency: u64) -> u64 {
    match listed {
        Some(frequency) => frequency,
        None => core_frequency,
    }
}

/// What a processor record says of name and frequency, at a position.
pub open spec fn cpu_entry(record: ProcessorRecord, position: int) -> CpuModel {
    CpuModel {
        name: cpu_name(position, record.name),
        frequency: cpu_frequency(record.frequency, record.core_frequency),
    }
}

/// What a report says. Brand, caches and counts are those of the first
/// logical processor's package, the vendor that of the first core.
pub open spec fn cpu_model(report: CpuReport) -> CpuInfoModel {
    let first = report.processors@[0];
    CpuInfoModel {
        brand: first.package_name@,
        arch: report.arch@,
        op_modes: op_modes_of(report.machine.unwrap()@),
        vendor_id: report.cores@[0].vendor_name@,
        cache_info: first.cache,
        processors_count: first.package_processor_count as usize,
        core_count: first.package_core_count as usize,
        threads_per_core: (first.package_processor_count / first.package_core_count) as usize,
        cores: Seq::new(
            report.cores@.len(),
            |i: int| core_model(report.cores@[i], report.processors@),
        ),
        physical_core_count: Some(first.package_core_count as usize),
        cpus: Seq::new(
            report.processors@.len(),
            |i: int| cpu_entry(report.processors@[i], i),
        ),
    }
}

// ---------------------------------------------------------------------------
// The code
// ---------------------------------------------------------------------------

fn cpu_error(detail: &str) -> (e: CoreError)
    ensures
        e.deep_view() == (CoreErrorModel { kind: CoreErrorKind::CPUInfoError, detail: detail@ }),
{
    CoreError::new(CoreErrorKind::CPUInfoError, String::from_str(detail))
}

/// The logical processors that belong to a core, in enumeration order.
pub fn collect_members(processors: &Vec<ProcessorRecord>, core_id: u32) -> (out: Vec<Processor>)
    ensures
        out@ == members(processors@, core_id),
{
    let mut out: Vec<Processor> = Vec::new();
    let mut i: usize = 0;
    proof {
        reveal(Seq::filter);
    }
    while i < processors.len()
        invariant
            0 <= i <= processors.len(),
            out@ =~= members(processors@.take(i as int), core_id),
        decreases processors.len() - i,
    {
        let p = &processors[i];
        proof {
            let before = processors@.take(i as int);
            let now = processors@.take(i + 1);
            assert(now.drop_last() =~= before);
            reveal(Seq::filter);
            assert(now.filter(in_core(core_id)) == if in_core(core_id)(now.last()) {
                before.filter(in_core(core_id)).push(now.last())
            } else {
                before.filter(in_core(core_id))
            });
        }
        if p.core_id == core_id {
            out.push(
                Processor {
                    smt_id: p.smt_id,
                    windows_group_id: p.windows_group_id,
                    windows_processor_id: p.windows_processor_id,
                    apic_id: p.apic_id,
                },
            );
        }
        i += 1;
    }
    assert(processors@.take(processors@.len() as int) =~= processors@);
    out
}

impl Cpu {
    /// The entry of the logical processor at a position, from what the
    /// system lists for it. A processor without a listed name is called
    /// `cpu` and its position; one without a listed frequency runs at the
    /// frequency of its core.
    pub fn from_reading(
        position: usize,
        name: &Option<String>,
        frequency: Option<u64>,
        core_frequency: u64,
    ) -> (cpu: Cpu)
        ensures
            cpu.deep_view() == (CpuModel {
                name: cpu_name(position as int, *name),
                frequency: cpu_frequency(frequency, core_frequency),
            }),
    {
        let name = match name {
            Some(listed) => listed.clone(),
            None => {
                let mut default = String::from_str("cpu");
                push_decimal(&mut default, position as u64);
                default
            },
        };
        let frequency = match frequency {
            Some(listed) => listed,
            None => core_frequency,
        };
        Cpu { name, frequency }
    }
}

impl CpuInfo {
    /// The operating modes that the CPU supports, told from the machine
    /// type that the kernel names; it fails where the kernel named none.
    pub fn get_cpu_op_modes(machine: &Option<String>) -> (r: Result<String, String>)
        ensures
            match r {
                Ok(modes) => machine matches Some(m) && modes@ == op_modes_of(m@),
                Err(detail) => machine is None && detail@ == no_machine_detail(),
            },
    {
        match machine {
            None => Err(String::from_str("Failed to retrieve CPU op-modes")),
            Some(m) => {
                if *m == String::from_str("x86_64") {
                    Ok(String::from_str("64-bit, 32-bit"))
                } else if *m == String::from_str("aarch64") {
                    Ok(String::from_str("64-bit"))
                } else if *m == String::from_str("i386") || *m == String::from_str("i686") {
                    Ok(String::from_str("32-bit"))
                } else {
                    Ok(String::from_str("Unknown"))
                }
            },
        }
    }

    /// Assembles the CPU snapshot from what the detection reported. Each
    /// core gets the logical processors that name it. The probe fails, with
    /// a `CPUInfoError`, where no logical processor or no core was reported,
    /// where the machine type is unknown or where the package counts no core.
    pub fn get(report: CpuReport) -> (r: Result<CpuInfo, CoreError>)
        ensures
            match r {
                Ok(info) => cpu_failure(report) is None && info.deep_view() == cpu_model(report),
                Err(e) => cpu_failure(report) matches Some(detail) && e.deep_view() == (
                CoreErrorModel { kind: CoreErrorKind::CPUInfoError, detail }),
            },
    {
        if report.processors.len() == 0 {
            return Err(cpu_error("No logical processor was detected"));
        }
        let op_modes = match Self::get_cpu_op_modes(&report.machine) {
            Ok(modes) => modes,
            Err(detail) => {
                return Err(CoreError::new(CoreErrorKind::CPUInfoError, detail));
            },
        };
        if report.cores.len() == 0 {
            return Err(cpu_error("No physical core was detected"));
        }
        let first = &report.processors[0];
        if first.package_core_count == 0 {
            return Err(cpu_error("The CPU package reports zero cores"));
        }
        let proc_count = first.package_processor_count as usize;
        let core_count = first.package_core_count as usize;

        let mut cores: Vec<Core> = Vec::new();
        let mut i: usize = 0;
        while i < report.cores.len()
            invariant
                0 <= i <= report.cores.len(),
                cores@.len() == i,
                forall|j: int|
                    0 <= j < i ==> (#[trigger] cores@[j]).deep_view() == core_model(
                        report.cores@[j],
                        report.processors@,
                    ),
            decreases report.cores.len() - i,
        {
            let core = &report.cores[i];
            cores.push(
                Core {
                    id: core.core_id,
                    processors_count: core.processor_count,
                    cpu_id: core.cpuid,
                    frequency: core.frequency,
                    processors: collect_members(&report.processors, core.core_id),
                },
            );
            i += 1;
        }

        let mut cpus: Vec<Cpu> = Vec::new();
        let mut k: usize = 0;
        while k < report.processors.len()
            invariant
                0 <= k <= report.processors.len(),
                cpus@.len() == k,
                forall|j: int|
                    0 <= j < k ==> (#[trigger] cpus@[j]).deep_view() == cpu_entry(
                        report.processors@[j],
                        j,
                    ),
            decreases report.processors.len() - k,
        {
            let p = &report.processors[k];
            cpus.push(Cpu::from_reading(k, &p.name, p.frequency, p.core_frequency));
            k += 1;
        }

        let info = CpuInfo {
            brand: first.package_name.clone(),
            arch: report.arch.clone(),
            op_modes,
            vendor_id: report.cores[0].vendor_name.clone(),
            cache_info: first.cache,
            processors_count: proc_count,
            core_count,
            threads_per_core: proc_count / core_count,
            cores,
            physical_core_count: Some(core_count),
            cpus,
        };
        assert(info.cores.deep_view() =~= cpu_model(report).cores);
        assert(info.cpus.deep_view() =~= cpu_model(report).cpus);
        Ok(info)
    }
}

} // verus!
