//! The live samples: per-core CPU usage, memory, uptime and load, and the
//! process table. A sample is made anew at every tick from what the shared
//! system state holds at that moment.

use crate::utils::platform::Platform;
use vstd::prelude::*;

verus! {

/// The usage of one logical processor.
#[derive(Clone, Copy, Debug, PartialEq, Eq, Structural)]
pub struct CpuUsage {
    /// The position of the processor.
    pub index: usize,
    /// The usage in percent, as the bits of a 32-bit float.
    pub usage_bits: u32,
}

/// The memory of the machine, in bytes.
#[derive(Clone, Copy, Debug, PartialEq, Eq, Structural)]
pub struct Memory {
    pub total_memory: u64,
    pub free_memory: u64,
    pub available_memory: u64,
    pub used_memory: u64,
    pub total_swap: u64,
    pub free_swap: u64,
    pub used_swap: u64,
}

/// The load averages over one, five and fifteen minutes, each as the bits
/// of a 64-bit float.
#[derive(Clone, Copy, Debug, PartialEq, Eq, Structural)]
pub struct LoadAvg {
    pub one: u64,
    pub five: u64,
    pub fifteen: u64,
}

/// Uptime, boot time and load of the machine.
#[derive(Clone, Copy, Debug, PartialEq, Eq, Structural)]
pub struct SysInfo {
    /// Seconds since boot.
    pub uptime: u64,
    /// The time of boot, in seconds since the epoch.
    pub boot_time: u64,
    /// The load averages; none on Windows.
    pub load_avg: Option<LoadAvg>,
}

/// One process as the system state holds it.
#[derive(Debug, PartialEq, Eq)]
pub struct ProcessRecord {
    pub name: String,
    pub pid: u32,
    pub parent: Option<u32>,
    /// The identifier of the owning user, as text, where the process has one.
    pub user_id: Option<String>,
    /// The CPU usage in percent, as the bits of a 32-bit float.
    pub cpu_usage_bits: u32,
    /// The memory in use, in bytes.
    pub memory: u64,
}

/// One user of the machine.
#[derive(Debug, PartialEq, Eq)]
pub struct UserRecord {
    /// The identifier of the user, as text.
    pub id: String,
    pub name: String,
}

/// One process of the machine.
#[derive(Debug, PartialEq, Eq)]
pub struct Process {
    pub name: String,
    pub pid: u32,
    pub parent: Option<u32>,
    /// The owner as `name (id)`; empty where the owner is not known.
    pub user: String,
    /// The CPU usage in percent, as the bits of a 32-bit float.
    pub cpu_usage_bits: u32,
    pub memory: u64,
}

/// What a `Process` says: its fields, with texts and lists as sequences.
pub ghost struct ProcessModel {
    pub name: Seq<char>,
    pub pid: u32,
    pub parent: Option<u32>,
    pub user: Seq<char>,
    pub cpu_usage_bits: u32,
    pub memory: u64,
}

impl DeepView for Process {
    type V = ProcessModel;

    open spec fn deep_view(&self) -> ProcessModel {
        ProcessModel {
            name: self.name@,
            pid: self.pid,
            parent: self.parent,
            user: self.user@,
            cpu_usage_bits: self.cpu_usage_bits,
            memory: self.memory,
        }
    }
}

// ---------------------------------------------------------------------------
// The model
// ---------------------------------------------------------------------------

/// The position of the first user with an identifier, or the number of
/// users where none has it.
pub open spec fn user_position(users: Seq<UserRecord>, id: Seq<char>) -> int
    decreases users.len(),
{
    if users.len() == 0 || users[0].id@ == id {
        0
    } else {
        1 + user_position(users.drop_first(), id)
    }
}

/// The text shown for an owner: the name, then the identifier in brackets.
pub open spec fn owner_label(user: UserRecord) -> Seq<char> {
    user.name@ + " ("@ + user.id@ + ")"@
}

/// The owner of a process: the label of the first user with the process's
/// user identifier; empty where the process has none or no user has it.
pub open spec fn owner_of(user_id: Option<String>, users: Seq<UserRecord>) -> Seq<char> {
    match user_id {
        Some(id) => {
            let position = user_position(users, id@);
            if position < users.len() {
                owner_label(users[position])
            } else {
                Seq::empty()
            }
        },
        None => Seq::empty(),
    }
}

/// What a process record says, given the users of the machine: the record
/// as it was read at this tick, joined to its owner.
pub open spec fn process_model(record: ProcessRecord, users: Seq<UserRecord>) -> ProcessModel {
    ProcessModel {
        name: record.name@,
        pid: record.pid,
        parent: record.parent,
        user: owner_of(record.user_id, users),
        cpu_usage_bits: record.cpu_usage_bits,
        memory: record.memory,
    }
}

/// `user_position` is the least position whose user has the identifier.
pub proof fn lemma_user_position(users: Seq<UserRecord>, id: Seq<char>, k: int)
    requires
        0 <= k <= users.len(),
        forall|j: int| 0 <= j < k ==> users[j].id@ != id,
        k < users.len() ==> users[k].id@ == id,
    ensures
        user_position(users, id) == k,
    decreases k,
{
    if k > 0 {
        lemma_user_position(users.drop_first(), id, k - 1);
    }
}

// ---------------------------------------------------------------------------
// The samples
// ---------------------------------------------------------------------------

/// The usage of every logical processor, each with its position.
pub fn get_cpu_usage(usages: &Vec<u32>) -> (sample: Vec<CpuUsage>)
    ensures
        sample@.len() == usages@.len(),
        forall|i: int|
            0 <= i < usages@.len() ==> #[trigger] sample@[i] == (CpuUsage {
                index: i as usize,
                usage_bits: usages@[i],
            }),
{
    let mut sample: Vec<CpuUsage> = Vec::new();
    let mut i: usize = 0;
    while i < usages.len()
        invariant
            0 <= i <= usages.len(),
            sample@.len() == i,
            forall|j: int|
                0 <= j < i ==> #[trigger] sample@[j] == (CpuUsage {
                    index: j as usize,
                    usage_bits: usages@[j],
                }),
        decreases usages.len() - i,
    {
        sample.push(CpuUsage { index: i, usage_bits: usages[i] });
        i += 1;
    }
    sample
}

/// The memory sample from the seven readings of the system state.
pub fn get_memory(
    total_memory: u64,
    free_memory: u64,
    available_memory: u64,
    used_memory: u64,
    total_swap: u64,
    free_swap: u64,
    used_swap: u64,
) -> (sample: Memory)
    ensures
        sample == (Memory {
            total_memory,
            free_memory,
            available_memory,
            used_memory,
            total_swap,
            free_swap,
            used_swap,
        }),
{
    Memory {
        total_memory,
        free_memory,
        available_memory,
        used_memory,
        total_swap,
        free_swap,
        used_swap,
    }
}

/// The system sample. Windows has no load average, so there the sample
/// carries none.
pub fn get_sys_info(uptime: u64, boot_time: u64, load: LoadAvg, platform: Platform) -> (sample:
    SysInfo)
    ensures
        sample.uptime == uptime,
        sample.boot_time == boot_time,
        sample.load_avg == if platform == Platform::Windows {
            None
        } else {
            Some(load)
        },
{
    let load_avg = match platform {
        Platform::Windows => None,
        _ => Some(load),
    };
    SysInfo { uptime, boot_time, load_avg }
}

/// The owner of a process among the users of the machine.
pub fn owner_for(user_id: &Option<String>, users: &Vec<UserRecord>) -> (owner: String)
    ensures
        owner@ == owner_of(*user_id, users@),
{
    let id = match user_id {
        Some(id) => id,
        None => {
            return String::new();
        },
    };
    let mut i: usize = 0;
    while i < users.len()
        invariant
            0 <= i <= users.len(),
            *user_id == Some(*id),
            forall|j: int| 0 <= j < i ==> users@[j].id@ != id@,
        decreases users.len() - i,
    {
        if users[i].id == *id {
            proof {
                lemma_user_position(users@, id@, i as int);
            }
            let mut owner = users[i].name.clone();
            owner.append(" (");
            owner.append(users[i].id.as_str());
            owner.append(")");
            return owner;
        }
        i += 1;
    }
    proof {
        lemma_user_position(users@, id@, users@.len() as int);
    }
    String::new()
}

/// The process table: one entry for each process, in the order given, with
/// the usage and memory that were read for it, each joined to its owner. A
/// process whose owner cannot be told has an empty owner; the sample never
/// fails for it.
pub fn get_processes(processes: &Vec<ProcessRecord>, users: &Vec<UserRecord>) -> (sample: Vec<
    Process,
>)
    ensures
        sample@.len() == processes@.len(),
        forall|i: int|
            0 <= i < processes@.len() ==> (#[trigger] sample@[i]).deep_view() == process_model(
                processes@[i],
                users@,
            ),
{
    let mut sample: Vec<Process> = Vec::new();
    let mut i: usize = 0;
    while i < processes.len()
        invariant
            0 <= i <= processes.len(),
            sample@.len() == i,
            forall|j: int|
                0 <= j < i ==> (#[trigger] sample@[j]).deep_view() == process_model(
                    processes@[j],
                    users@,
                ),
        decreases processes.len() - i,
    {
        let record = &processes[i];
        sample.push(
            Process {
                name: record.name.clone(),
                pid: record.pid,
                parent: record.parent,
                user: owner_for(&record.user_id, users),
                cpu_usage_bits: record.cpu_usage_bits,
                memory: record.memory,
            },
        );
        i += 1;
    }
    sample
}

} // verus!
