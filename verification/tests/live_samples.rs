use sysprobe::utils::platform::Platform;
use sysprobe::utils::sysinfo::{
    get_cpu_usage, get_memory, get_processes, get_sys_info, owner_for, CpuUsage, LoadAvg,
    Memory, Process, ProcessRecord, UserRecord,
};

fn users() -> Vec<UserRecord> {
    vec![
        UserRecord { id: "0".to_string(), name: "root".to_string() },
        UserRecord { id: "1000".to_string(), name: "ada".to_string() },
        UserRecord { id: "1000".to_string(), name: "shadow".to_string() },
    ]
}

fn record(name: &str, pid: u32, parent: Option<u32>, user_id: Option<&str>) -> ProcessRecord {
    ProcessRecord {
        name: name.to_string(),
        pid,
        parent,
        user_id: user_id.map(str::to_string),
        cpu_usage_bits: (pid as f32 * 0.5).to_bits(),
        memory: 4096 * pid as u64,
    }
}

#[test]
fn cpu_usage_is_indexed_by_position() {
    let bits = vec![12.5f32.to_bits(), 0f32.to_bits(), 100f32.to_bits()];
    let sample = get_cpu_usage(&bits);
    assert_eq!(
        sample,
        vec![
            CpuUsage { index: 0, usage_bits: 12.5f32.to_bits() },
            CpuUsage { index: 1, usage_bits: 0 },
            CpuUsage { index: 2, usage_bits: 100f32.to_bits() },
        ]
    );
    assert_eq!(f32::from_bits(sample[0].usage_bits), 12.5);
    assert!(get_cpu_usage(&Vec::new()).is_empty());
}

#[test]
fn memory_sample_keeps_each_reading() {
    assert_eq!(
        get_memory(1, 2, 3, 4, 5, 6, 7),
        Memory {
            total_memory: 1,
            free_memory: 2,
            available_memory: 3,
            used_memory: 4,
            total_swap: 5,
            free_swap: 6,
            used_swap: 7,
        }
    );
}

#[test]
fn load_average_is_absent_on_windows_only() {
    let load = LoadAvg {
        one: 0.5f64.to_bits(),
        five: 1.5f64.to_bits(),
        fifteen: 2.5f64.to_bits(),
    };
    let linux = get_sys_info(90, 1_700_000_000, load, Platform::Linux);
    assert_eq!(linux.uptime, 90);
    assert_eq!(linux.boot_time, 1_700_000_000);
    assert_eq!(linux.load_avg, Some(load));
    assert_eq!(get_sys_info(1, 2, load, Platform::MacOS).load_avg, Some(load));
    assert_eq!(get_sys_info(1, 2, load, Platform::Unknown).load_avg, Some(load));
    let windows = get_sys_info(1, 2, load, Platform::Windows);
    assert_eq!(windows.load_avg, None);
    assert_eq!(windows.uptime, 1);
    assert_eq!(windows.boot_time, 2);
}

#[test]
fn processes_are_joined_to_their_owners() {
    let sample = get_processes(
        &vec![
            record("init", 1, None, Some("0")),
            record("zsh", 4242, Some(1), Some("1000")),
            record("ghost", 5, Some(2), Some("77")),
            record("kthreadd", 2, None, None),
        ],
        &users(),
    );
    assert_eq!(sample.len(), 4);
    assert_eq!(
        sample[0],
        Process {
            name: "init".to_string(),
            pid: 1,
            parent: None,
            user: "root (0)".to_string(),
            cpu_usage_bits: 0.5f32.to_bits(),
            memory: 4096,
        }
    );
    assert_eq!(sample[1].user, "ada (1000)");
    assert_eq!(sample[1].parent, Some(1));
    assert_eq!(sample[2].user, "");
    assert_eq!(sample[2].name, "ghost");
    assert_eq!(sample[3].user, "");
    assert_eq!(f32::from_bits(sample[1].cpu_usage_bits), 2121.0);
    assert_eq!(sample[1].memory, 4096 * 4242);
    assert_eq!(f32::from_bits(sample[3].cpu_usage_bits), 1.0);
    assert_eq!(sample[3].memory, 8192);
}

#[test]
fn owner_is_the_first_matching_user() {
    assert_eq!(owner_for(&Some("1000".to_string()), &users()), "ada (1000)");
    assert_eq!(owner_for(&Some("1".to_string()), &users()), "");
    assert_eq!(owner_for(&Some("0".to_string()), &Vec::new()), "");
    assert_eq!(owner_for(&None, &users()), "");
}

#[test]
fn empty_process_table() {
    assert!(get_processes(&Vec::new(), &users()).is_empty());
}

#[test]
fn process_sample_carries_usage_and_memory_as_read() {
    let mut busy = record("ffmpeg", 77, Some(1), None);
    busy.cpu_usage_bits = 387.25f32.to_bits();
    busy.memory = 3 << 30;
    let mut idle = record("sleep", 78, Some(1), None);
    idle.cpu_usage_bits = 0f32.to_bits();
    idle.memory = 0;
    let sample = get_processes(&vec![busy, idle], &Vec::new());
    assert_eq!(f32::from_bits(sample[0].cpu_usage_bits), 387.25);
    assert_eq!(sample[0].memory, 3 << 30);
    assert_eq!(f32::from_bits(sample[1].cpu_usage_bits), 0.0);
    assert_eq!(sample[1].memory, 0);
}
