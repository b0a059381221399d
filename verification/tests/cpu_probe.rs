use sysprobe::types::{CoreError, CoreErrorKind};
use sysprobe::utils::cpu::{
    collect_members, Cache, CacheInfo, CoreRecord, Cpu, CpuInfo, CpuReport, Processor,
    ProcessorRecord,
};

fn cache() -> CacheInfo {
    CacheInfo {
        l1i: Some(Cache {
            size: 32768,
            associativity: 8,
            sets: 64,
            partitions: 1,
            line_size: 64,
            flags: 0,
            processor_start: 0,
            processor_count: 2,
        }),
        l1d: None,
        l2: None,
        l3: None,
        l4: None,
    }
}

fn processor(index: u32, core_id: u32, processors: u32, cores: u32) -> ProcessorRecord {
    ProcessorRecord {
        name: Some(format!("cpu{}", index)),
        frequency: Some(3_600_000_000),
        core_frequency: 3_400_000_000,
        smt_id: index % 2,
        apic_id: index,
        core_id,
        windows_group_id: None,
        windows_processor_id: None,
        package_name: "AMD Ryzen 9".to_string(),
        package_processor_count: processors,
        package_core_count: cores,
        cache: cache(),
    }
}

fn physical_core(core_id: u32, processor_count: u32) -> CoreRecord {
    CoreRecord {
        core_id,
        processor_count,
        cpuid: 0x00a20f12,
        frequency: 3_600_000_000,
        vendor_name: "AMD".to_string(),
    }
}

fn report(processors: Vec<ProcessorRecord>, cores: Vec<CoreRecord>) -> CpuReport {
    CpuReport {
        processors,
        cores,
        arch: "x86_64".to_string(),
        machine: Some("x86_64".to_string()),
    }
}

#[test]
fn one_core_with_two_logical_processors() {
    let info = CpuInfo::get(report(
        vec![processor(0, 0, 2, 1), processor(1, 0, 2, 1)],
        vec![physical_core(0, 2)],
    ))
    .unwrap();
    assert_eq!(info.cpus.len(), 2);
    assert_eq!(info.physical_core_count, Some(1));
    assert_eq!(info.cpus[0].name, "cpu0");
    assert_eq!(info.cpus[1].name, "cpu1");
    assert_eq!(info.cpus[1].frequency, 3_600_000_000);
    assert_eq!(info.processors_count, 2);
    assert_eq!(info.core_count, 1);
    assert_eq!(info.threads_per_core, 2);
    assert_eq!(info.cores.len(), 1);
    assert_eq!(info.cores[0].processors.len(), 2);
    assert_eq!(info.brand, "AMD Ryzen 9");
    assert_eq!(info.vendor_id, "AMD");
    assert_eq!(info.arch, "x86_64");
    assert_eq!(info.op_modes, "64-bit, 32-bit");
    assert_eq!(info.cache_info, cache());
}

#[test]
fn processors_are_grouped_by_core_in_order() {
    let info = CpuInfo::get(report(
        vec![
            processor(0, 0, 4, 2),
            processor(1, 1, 4, 2),
            processor(2, 0, 4, 2),
            processor(3, 1, 4, 2),
            processor(4, 7, 4, 2),
        ],
        vec![physical_core(0, 2), physical_core(1, 2), physical_core(5, 0)],
    ))
    .unwrap();
    assert_eq!(info.cores.len(), 3);
    assert_eq!(info.cores[0].id, 0);
    assert_eq!(info.cores[0].processors_count, 2);
    assert_eq!(info.cores[0].cpu_id, 0x00a20f12);
    let apic = |p: &Processor| p.apic_id;
    assert_eq!(info.cores[0].processors.iter().map(apic).collect::<Vec<_>>(), vec![0, 2]);
    assert_eq!(info.cores[1].processors.iter().map(apic).collect::<Vec<_>>(), vec![1, 3]);
    assert!(info.cores[2].processors.is_empty());
    assert_eq!(info.threads_per_core, 2);
    assert_eq!(info.cpus.len(), 5);
}

#[test]
fn members_carry_the_processor_fields() {
    let mut p = processor(3, 9, 4, 2);
    p.windows_group_id = Some(1);
    p.windows_processor_id = Some(7);
    let members = collect_members(&vec![processor(0, 1, 4, 2), p], 9);
    assert_eq!(
        members,
        vec![Processor {
            smt_id: 1,
            windows_group_id: Some(1),
            windows_processor_id: Some(7),
            apic_id: 3,
        }]
    );
    assert!(collect_members(&Vec::new(), 0).is_empty());
}

#[test]
fn threads_per_core_is_the_whole_quotient() {
    let info = CpuInfo::get(report(vec![processor(0, 0, 7, 2)], vec![physical_core(0, 1)])).unwrap();
    assert_eq!(info.threads_per_core, 3);
}

#[test]
fn op_modes_follow_the_machine_type() {
    let modes = |m: &str| CpuInfo::get_cpu_op_modes(&Some(m.to_string())).unwrap();
    assert_eq!(modes("x86_64"), "64-bit, 32-bit");
    assert_eq!(modes("aarch64"), "64-bit");
    assert_eq!(modes("i386"), "32-bit");
    assert_eq!(modes("i686"), "32-bit");
    assert_eq!(modes("riscv64"), "Unknown");
    assert_eq!(modes(""), "Unknown");
    assert_eq!(
        CpuInfo::get_cpu_op_modes(&None),
        Err("Failed to retrieve CPU op-modes".to_string())
    );
}

#[test]
fn no_processor_fails_the_probe() {
    let err = CpuInfo::get(report(Vec::new(), vec![physical_core(0, 2)])).unwrap_err();
    assert_eq!(err, CoreError::CPUInfoError("No logical processor was detected".to_string()));
    assert_eq!(err.report().0, "cPUInfoError");
    assert_eq!(
        err.to_string(),
        "An error occurred while retrieving CPU information: No logical processor was detected"
    );
}

#[test]
fn unknown_machine_fails_the_probe() {
    let mut r = report(vec![processor(0, 0, 2, 1)], vec![physical_core(0, 2)]);
    r.machine = None;
    let err = CpuInfo::get(r).unwrap_err();
    assert_eq!(err, CoreError::CPUInfoError("Failed to retrieve CPU op-modes".to_string()));
}

#[test]
fn no_core_fails_the_probe() {
    let err = CpuInfo::get(report(vec![processor(0, 0, 2, 1)], Vec::new())).unwrap_err();
    assert_eq!(err.kind(), CoreErrorKind::CPUInfoError);
    assert_eq!(err.detail().as_str(), "No physical core was detected");
}

#[test]
fn zero_core_count_fails_the_probe() {
    let err = CpuInfo::get(report(vec![processor(0, 0, 2, 0)], vec![physical_core(0, 2)])).unwrap_err();
    assert_eq!(err, CoreError::CPUInfoError("The CPU package reports zero cores".to_string()));
}

#[test]
fn missing_processors_come_before_a_missing_machine() {
    let mut r = report(Vec::new(), Vec::new());
    r.machine = None;
    let err = CpuInfo::get(r).unwrap_err();
    assert_eq!(err.detail().as_str(), "No logical processor was detected");
}

#[test]
fn unlisted_processor_gets_default_name_and_core_frequency() {
    let mut unnamed = processor(1, 0, 2, 1);
    unnamed.name = None;
    unnamed.frequency = None;
    let mut half = processor(2, 0, 2, 1);
    half.name = Some("efficiency".to_string());
    half.frequency = None;
    let info =
        CpuInfo::get(report(vec![processor(0, 0, 2, 1), unnamed, half], vec![physical_core(0, 2)]))
            .unwrap();
    assert_eq!(info.cpus[0].name, "cpu0");
    assert_eq!(info.cpus[0].frequency, 3_600_000_000);
    assert_eq!(info.cpus[1].name, "cpu1");
    assert_eq!(info.cpus[1].frequency, 3_400_000_000);
    assert_eq!(info.cpus[2].name, "efficiency");
    assert_eq!(info.cpus[2].frequency, 3_400_000_000);
}

#[test]
fn cpu_entry_from_reading() {
    assert_eq!(
        Cpu::from_reading(12, &None, None, 800),
        Cpu { name: "cpu12".to_string(), frequency: 800 }
    );
    assert_eq!(
        Cpu::from_reading(0, &None, Some(5), 800),
        Cpu { name: "cpu0".to_string(), frequency: 5 }
    );
    assert_eq!(
        Cpu::from_reading(3, &Some("core".to_string()), Some(0), 800),
        Cpu { name: "core".to_string(), frequency: 0 }
    );
}
