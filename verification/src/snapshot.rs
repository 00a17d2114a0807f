//! The snapshot model: the plain-value view of the system state that the
//! dispatcher reads, and the process resolver over it. The caller owns the
//! snapshot; the dispatcher only reads it and asks for refreshes.

use vstd::prelude::*;
use crate::text::str_eq;

verus! {

/// One process of the snapshot, as the formatter shows it.
pub struct ProcessRec {
    /// The process identifier: a non-negative integer assigned by the OS.
    pub pid: u64,
    /// The process name; names are not guaranteed unique.
    pub name: String,
    /// The status, already rendered as text.
    pub status: String,
    /// The full rendering of the record, shown by `show`.
    pub detail: String,
}

/// One network interface with its session and cumulative byte counters.
pub struct NetRec {
    /// The interface name.
    pub name: String,
    /// Bytes received since the last refresh.
    pub received: u64,
    /// Bytes received in total.
    pub total_received: u64,
    /// Bytes transmitted since the last refresh.
    pub transmitted: u64,
    /// Bytes transmitted in total.
    pub total_transmitted: u64,
}

/// The caller-owned aggregate of current system state. The dispatcher never
/// constructs one; it reads the fields and reports which refresh the caller
/// should perform.
pub struct Snapshot {
    /// Every known process.
    pub processes: Vec<ProcessRec>,
    /// The physical core count, when the platform reports one.
    pub physical_cores: Option<u64>,
    /// Aggregate CPU usage, already rendered (a percentage without suffix).
    pub global_cpu_usage: String,
    /// One rendered line per logical CPU.
    pub cpu_details: Vec<String>,
    /// Total memory in the provider's unit.
    pub total_memory: u64,
    /// Used memory in the provider's unit.
    pub used_memory: u64,
    /// Total swap in the provider's unit.
    pub total_swap: u64,
    /// Used swap in the provider's unit.
    pub used_swap: u64,
    /// Aggregate CPU frequency in MHz.
    pub frequency: u64,
    /// The first CPU's vendor identifier, empty when there is no CPU.
    pub vendor_id: String,
    /// The first CPU's brand string, empty when there is no CPU.
    pub brand: String,
    /// One-minute load average, already rendered.
    pub load_one: String,
    /// Five-minute load average, already rendered.
    pub load_five: String,
    /// Fifteen-minute load average, already rendered.
    pub load_fifteen: String,
    /// One rendered line per temperature sensor component.
    pub components: Vec<String>,
    /// One rendered line per disk.
    pub disks: Vec<String>,
    /// Every network interface.
    pub networks: Vec<NetRec>,
    /// One rendered line per user: the name between quotes.
    pub users: Vec<String>,
    /// Boot time in seconds since the epoch.
    pub boot_time: u64,
    /// Uptime in raw seconds.
    pub uptime: u64,
    /// This process's own PID, already rendered.
    pub self_pid: String,
    /// The system name, when known.
    pub sys_name: Option<String>,
    /// The kernel version, when known.
    pub kernel_version: Option<String>,
    /// The OS version, when known.
    pub os_version: Option<String>,
    /// The long OS version, when known.
    pub long_os_version: Option<String>,
    /// The host name, when known.
    pub host_name: Option<String>,
}

/// The first position holding `pid`, or `-1` when no process has it.
pub open spec fn spec_find_pid_idx(procs: Seq<ProcessRec>, pid: u64) -> int
    decreases procs.len(),
{
    if procs.len() == 0 {
        -1
    } else if procs[0].pid == pid {
        0
    } else {
        let r = spec_find_pid_idx(procs.drop_first(), pid);
        if r < 0 {
            -1
        } else {
            r + 1
        }
    }
}

/// Whether some process of `procs` has identifier `pid`.
pub open spec fn spec_has_pid(procs: Seq<ProcessRec>, pid: u64) -> bool {
    spec_find_pid_idx(procs, pid) >= 0
}

pub proof fn lemma_find_pid_idx(procs: Seq<ProcessRec>, pid: u64, i: int)
    requires
        0 <= i <= procs.len(),
        forall|k: int| 0 <= k < i ==> procs[k].pid != pid,
        i < procs.len() ==> procs[i].pid == pid,
    ensures
        spec_find_pid_idx(procs, pid) == if i == procs.len() {
            -1
        } else {
            i
        },
    decreases i,
{
    if i == 0 {
    } else {
        lemma_find_pid_idx(procs.drop_first(), pid, i - 1);
    }
}

/// The processes whose name equals `name`, in the snapshot's own order.
pub open spec fn spec_matches_by_name(procs: Seq<ProcessRec>, name: Seq<char>) -> Seq<ProcessRec>
    decreases procs.len(),
{
    if procs.len() == 0 {
        Seq::empty()
    } else {
        let rest = spec_matches_by_name(procs.drop_last(), name);
        if procs.last().name@ == name {
            rest.push(procs.last())
        } else {
            rest
        }
    }
}

/// Looks a PID up in the snapshot: at most one match, the first record that
/// carries the identifier, or nothing when no process has it.
pub fn resolve_by_pid<'a>(procs: &'a Vec<ProcessRec>, pid: u64) -> (r: Option<&'a ProcessRec>)
    ensures
        match r {
            Some(p) => spec_find_pid_idx(procs@, pid) >= 0 && *p == procs@[spec_find_pid_idx(
                procs@,
                pid,
            )],
            None => spec_find_pid_idx(procs@, pid) == -1,
        },
{
    let n = procs.len();
    let mut i: usize = 0;
    while i < n
        invariant
            0 <= i <= n,
            n == procs@.len(),
            forall|k: int| 0 <= k < i ==> procs@[k].pid != pid,
        decreases n - i,
    {
        if procs[i].pid == pid {
            proof {
                lemma_find_pid_idx(procs@, pid, i as int);
            }
            return Some(&procs[i]);
        }
        i = i + 1;
    }
    proof {
        lemma_find_pid_idx(procs@, pid, n as int);
    }
    None
}

/// Collects the processes whose name equals `name`, in the snapshot's own
/// order; the result may be empty or hold several records.
pub fn resolve_by_name<'a>(procs: &'a Vec<ProcessRec>, name: &str) -> (r: Vec<&'a ProcessRec>)
    ensures
        r@.map_values(|p: &ProcessRec| *p) == spec_matches_by_name(procs@, name@),
{
    let n = procs.len();
    let mut r: Vec<&'a ProcessRec> = Vec::new();
    let mut i: usize = 0;
    while i < n
        invariant
            0 <= i <= n,
            n == procs@.len(),
            r@.map_values(|p: &ProcessRec| *p) == spec_matches_by_name(
                procs@.take(i as int),
                name@,
            ),
        decreases n - i,
    {
        proof {
            assert(procs@.take(i + 1).drop_last() =~= procs@.take(i as int));
            assert(procs@.take(i + 1).last() == procs@[i as int]);
        }
        if str_eq(procs[i].name.as_str(), name) {
            r.push(&procs[i]);
            proof {
                assert(r@.map_values(|p: &ProcessRec| *p) =~= spec_matches_by_name(
                    procs@.take(i + 1),
                    name@,
                ));
            }
        }
        i = i + 1;
    }
    proof {
        assert(procs@.take(n as int) =~= procs@);
    }
    r
}

} // verus!
