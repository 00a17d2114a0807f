//! The output formatter: deterministic, line-oriented rendering of snapshot
//! fields. Each entry of the result stands for one write to the caller's
//! sink; an entry may hold embedded line breaks. Every builder is proved to
//! produce exactly the text its spec function states.

use vstd::prelude::*;
use vstd::string::StringExecFns;
use crate::signals::{SignalCode, signal_lookup, signal_name, spec_signal_name, spec_signal_of};
use crate::snapshot::{NetRec, ProcessRec, Snapshot};
use crate::text::{ord2_string, spec_nat_str, spec_ord2, u64_to_string};

verus! {

/// The views of a list of output entries.
pub open spec fn lines_view(v: Seq<String>) -> Seq<Seq<char>> {
    v.map_values(|s: String| s@)
}

pub proof fn lemma_lines_view_push(s: Seq<String>, l: String)
    ensures
        lines_view(s.push(l)) =~~= lines_view(s).push(l@),
{
}

pub proof fn lemma_lines_view_concat(a: Seq<String>, b: Seq<String>)
    ensures
        lines_view(a + b) =~~= lines_view(a) + lines_view(b),
{
}

/// Concatenates three pieces of text.
fn cat3(a: &str, b: &str, c: &str) -> (r: String)
    ensures
        r@ == a@ + b@ + c@,
{
    let mut s = String::from_str(a);
    s.append(b);
    s.append(c);
    s
}

/// The help menu, exactly as `help` prints it.
pub open spec fn spec_help_lines() -> Seq<Seq<char>> {
    seq![
        "== Help menu =="@,
        "help               : show this menu"@,
        "signals            : show the available signals"@,
        "refresh            : reloads all processes' information"@,
        "refresh [pid]      : reloads corresponding process' information"@,
        "refresh_disks      : reloads only disks' information"@,
        "refresh_users      : reloads only users' information"@,
        "show [pid | name]  : show information of the given process corresponding to [pid | name]"@,
        "kill [pid] [signal]: send [signal] to the process with this [pid]. 0 < [signal] < 32"@,
        "cpus               : Displays CPUs state"@,
        "memory             : Displays memory state"@,
        "temperature        : Displays components' temperature"@,
        "disks              : Displays disks' information"@,
        "network            : Displays network' information"@,
        "all                : Displays all process name and pid"@,
        "uptime             : Displays system uptime"@,
        "boot_time          : Displays system boot time"@,
        "vendor_id          : Displays CPU vendor id"@,
        "brand              : Displays CPU brand"@,
        "load_avg           : Displays system load average"@,
        "frequency          : Displays CPU frequency"@,
        "users              : Displays all users"@,
        "system             : Displays system information (such as name, version and hostname)"@,
        "pid                : Display this example's PID"@,
        "quit               : Exit the program"@,
    ]
}

/// The static help menu.
pub fn help_lines() -> (r: Vec<String>)
    ensures
        lines_view(r@) == spec_help_lines(),
{
    let mut out: Vec<String> = Vec::new();
    out.push(String::from_str("== Help menu =="));
    out.push(String::from_str("help               : show this menu"));
    out.push(String::from_str("signals            : show the available signals"));
    out.push(String::from_str("refresh            : reloads all processes' information"));
    out.push(String::from_str("refresh [pid]      : reloads corresponding process' information"));
    out.push(String::from_str("refresh_disks      : reloads only disks' information"));
    out.push(String::from_str("refresh_users      : reloads only users' information"));
    out.push(
        String::from_str(
            "show [pid | name]  : show information of the given process corresponding to [pid | name]",
        ),
    );
    out.push(
        String::from_str(
            "kill [pid] [signal]: send [signal] to the process with this [pid]. 0 < [signal] < 32",
        ),
    );
    out.push(String::from_str("cpus               : Displays CPUs state"));
    out.push(String::from_str("memory             : Displays memory state"));
    out.push(String::from_str("temperature        : Displays components' temperature"));
    out.push(String::from_str("disks              : Displays disks' information"));
    out.push(String::from_str("network            : Displays network' information"));
    out.push(String::from_str("all                : Displays all process name and pid"));
    out.push(String::from_str("uptime             : Displays system uptime"));
    out.push(String::from_str("boot_time          : Displays system boot time"));
    out.push(String::from_str("vendor_id          : Displays CPU vendor id"));
    out.push(String::from_str("brand              : Displays CPU brand"));
    out.push(String::from_str("load_avg           : Displays system load average"));
    out.push(String::from_str("frequency          : Displays CPU frequency"));
    out.push(String::from_str("users              : Displays all users"));
    out.push(
        String::from_str(
            "system             : Displays system information (such as name, version and hostname)",
        ),
    );
    out.push(String::from_str("pid                : Display this example's PID"));
    out.push(String::from_str("quit               : Exit the program"));
    proof {
        assert(lines_view(out@) =~~= spec_help_lines());
    }
    out
}

/// One row of the `signals` listing: the ordinal in a width-two column, a
/// colon, and the identity's name.
pub open spec fn spec_signal_line(n: int) -> Seq<char> {
    spec_ord2(n) + ":"@ + spec_signal_name(spec_signal_of(n))
}

/// The `signals` listing: 31 rows, ordinals 1 through 31 in order.
pub open spec fn spec_signals_lines() -> Seq<Seq<char>> {
    Seq::new(31, |i: int| spec_signal_line(i + 1))
}

/// Lists the whole signal table, one row per ordinal.
pub fn signals_lines() -> (r: Vec<String>)
    ensures
        lines_view(r@) == spec_signals_lines(),
{
    let mut out: Vec<String> = Vec::new();
    let mut n: u64 = 1;
    while n <= 31
        invariant
            1 <= n <= 32,
            lines_view(out@) == Seq::new((n - 1) as nat, |i: int| spec_signal_line(i + 1)),
        decreases 32 - n,
    {
        match signal_lookup(n) {
            Ok(code) => {
                let mut l = ord2_string(n);
                l.append(":");
                let nm = signal_name(&code);
                l.append(nm.as_str());
                let ghost prev = out@;
                out.push(l);
                proof {
                    lemma_lines_view_push(prev, l);
                    assert(Seq::new(n as nat, |i: int| spec_signal_line(i + 1)) =~~= Seq::new(
                        (n - 1) as nat,
                        |i: int| spec_signal_line(i + 1),
                    ).push(spec_signal_line(n as int)));
                    assert(lines_view(out@) =~~= Seq::new(n as nat, |i: int| spec_signal_line(i + 1)));
                }
            },
            Err(_) => {
                proof {
                    assert(false);
                }
            },
        }
        n = n + 1;
    }
    proof {
        assert(lines_view(out@) =~~= spec_signals_lines());
    }
    out
}

/// The first row of `cpus`: the physical core count, or `Unknown`.
pub open spec fn spec_cores_line(c: Option<u64>) -> Seq<char> {
    match c {
        Some(k) => "number of physical cores: "@ + spec_nat_str(k as nat),
        None => "number of physical cores: "@ + "Unknown"@,
    }
}

/// The `cpus` output: core count, aggregate usage, then per-core detail.
pub open spec fn spec_cpus_lines(snap: Snapshot) -> Seq<Seq<char>> {
    seq![
        spec_cores_line(snap.physical_cores),
        "total process usage: "@ + snap.global_cpu_usage@ + "%"@,
    ] + lines_view(snap.cpu_details@)
}

/// The `memory` output: total and used memory and swap, in kilobytes.
pub open spec fn spec_memory_lines(snap: Snapshot) -> Seq<Seq<char>> {
    seq![
        "total memory: "@ + spec_nat_str(snap.total_memory as nat) + " KB"@,
        "used memory : "@ + spec_nat_str(snap.used_memory as nat) + " KB"@,
        "total swap  : "@ + spec_nat_str(snap.total_swap as nat) + " KB"@,
        "used swap   : "@ + spec_nat_str(snap.used_swap as nat) + " KB"@,
    ]
}

/// One row of `all`: `pid:name status=<status>`.
pub open spec fn spec_all_line(p: ProcessRec) -> Seq<char> {
    spec_nat_str(p.pid as nat) + ":"@ + p.name@ + " status="@ + p.status@
}

/// The `all` output, one row per process in the snapshot's own order.
pub open spec fn spec_all_lines(procs: Seq<ProcessRec>) -> Seq<Seq<char>> {
    procs.map_values(|p: ProcessRec| spec_all_line(p))
}

/// The `load_avg` output: one, five and fifteen minutes.
pub open spec fn spec_load_lines(snap: Snapshot) -> Seq<Seq<char>> {
    seq![
        "one minute     : "@ + snap.load_one@ + "%"@,
        "five minutes   : "@ + snap.load_five@ + "%"@,
        "fifteen minutes: "@ + snap.load_fifteen@ + "%"@,
    ]
}

/// One entry of `network`: the interface name with its received and
/// transmitted counters, session and cumulative, in bytes.
pub open spec fn spec_net_line(n: NetRec) -> Seq<char> {
    n.name@ + ":\n  input data  (new / total): "@ + spec_nat_str(n.received as nat) + " / "@
        + spec_nat_str(n.total_received as nat) + " B\n  output data (new / total): "@
        + spec_nat_str(n.transmitted as nat) + " / "@ + spec_nat_str(n.total_transmitted as nat)
        + " B"@
}

/// The `network` output, one entry per interface.
pub open spec fn spec_network_lines(nets: Seq<NetRec>) -> Seq<Seq<char>> {
    nets.map_values(|n: NetRec| spec_net_line(n))
}

/// The `uptime` output: days, hours and minutes decomposed from the raw
/// seconds, with the raw value repeated unchanged.
pub open spec fn spec_uptime_line(u: u64) -> Seq<char> {
    spec_nat_str((u as nat) / 86400) + " days "@ + spec_nat_str(((u as nat) % 86400) / 3600)
        + " hours "@ + spec_nat_str(((u as nat) % 3600) / 60) + " minutes ("@ + spec_nat_str(
        u as nat,
    ) + " seconds in total)"@
}

/// The fallback for a system identity fact that the platform does not report.
pub open spec fn spec_unknown_or(o: Option<String>) -> Seq<char> {
    match o {
        Some(s) => s@,
        None => "<unknown>"@,
    }
}

/// The single `system` entry: five facts, each falling back to `<unknown>`.
pub open spec fn spec_system_line(snap: Snapshot) -> Seq<char> {
    "System name:              "@ + spec_unknown_or(snap.sys_name)
        + "\nSystem kernel version:    "@ + spec_unknown_or(snap.kernel_version)
        + "\nSystem OS version:        "@ + spec_unknown_or(snap.os_version)
        + "\nSystem OS (long) version: "@ + spec_unknown_or(snap.long_os_version)
        + "\nSystem host name:         "@ + spec_unknown_or(snap.host_name)
}

/// The `show <pid>` miss: the PID between quotes, reported as not found.
pub open spec fn spec_pid_not_found_line(pid: u64) -> Seq<char> {
    "pid \""@ + spec_nat_str(pid as nat) + "\" not found"@
}

/// The `show <name>` output: a header and the detail of every match.
pub open spec fn spec_show_name_lines(ms: Seq<ProcessRec>) -> Seq<Seq<char>>
    decreases ms.len(),
{
    if ms.len() == 0 {
        Seq::empty()
    } else {
        spec_show_name_lines(ms.drop_last()) + seq![
            "==== "@ + ms.last().name@ + " ===="@,
            ms.last().detail@,
        ]
    }
}

/// The line the unrecognized-command fallback writes, echoing the trimmed
/// input between quotes.
pub open spec fn spec_unknown_line(t: Seq<char>) -> Seq<char> {
    "\""@ + t + "\": Unknown command. Enter 'help' if you want to get the commands' list."@
}

/// What `kill` reports once delivery was attempted: the delivery result, an
/// unsupported-platform notice, or a miss when the process has gone away.
pub open spec fn spec_kill_outcome_line(r: Option<Option<bool>>) -> Seq<char> {
    match r {
        None => "pid not found"@,
        Some(None) => "kill: signal not supported on this platform"@,
        Some(Some(true)) => "kill: true"@,
        Some(Some(false)) => "kill: false"@,
    }
}

/// What `refresh <pid>` reports, consistent with the provider's result.
pub open spec fn spec_refresh_outcome_line(pid: u64, ok: bool) -> Seq<char> {
    if ok {
        "Process `"@ + spec_nat_str(pid as nat) + "` updated successfully"@
    } else {
        "Process `"@ + spec_nat_str(pid as nat) + "` couldn't be updated..."@
    }
}

/// Renders the `cpus` output.
pub fn cpus_lines(snap: &Snapshot) -> (r: Vec<String>)
    ensures
        lines_view(r@) == spec_cpus_lines(*snap),
{
    let mut out: Vec<String> = Vec::new();
    let mut first = String::from_str("number of physical cores: ");
    match &snap.physical_cores {
        Some(k) => {
            let ks = u64_to_string(*k);
            first.append(ks.as_str());
        },
        None => {
            first.append("Unknown");
        },
    }
    out.push(first);
    out.push(cat3("total process usage: ", snap.global_cpu_usage.as_str(), "%"));
    let n = snap.cpu_details.len();
    let mut i: usize = 0;
    while i < n
        invariant
            0 <= i <= n,
            n == snap.cpu_details@.len(),
            lines_view(out@) == seq![
                spec_cores_line(snap.physical_cores),
                "total process usage: "@ + snap.global_cpu_usage@ + "%"@,
            ] + lines_view(snap.cpu_details@.take(i as int)),
        decreases n - i,
    {
        let l = snap.cpu_details[i].clone();
        let ghost prev = out@;
        out.push(l);
        proof {
            lemma_lines_view_push(prev, l);
            lemma_lines_view_push(snap.cpu_details@.take(i as int), snap.cpu_details@[i as int]);
            assert(snap.cpu_details@.take(i + 1) =~= snap.cpu_details@.take(i as int).push(
                snap.cpu_details@[i as int],
            ));
            assert(lines_view(out@) =~~= seq![
                spec_cores_line(snap.physical_cores),
                "total process usage: "@ + snap.global_cpu_usage@ + "%"@,
            ] + lines_view(snap.cpu_details@.take(i + 1)));
        }
        i = i + 1;
    }
    proof {
        assert(snap.cpu_details@.take(n as int) =~= snap.cpu_details@);
        assert(lines_view(out@) =~~= spec_cpus_lines(*snap));
    }
    out
}

/// Renders the `memory` output.
pub fn memory_lines(snap: &Snapshot) -> (r: Vec<String>)
    ensures
        lines_view(r@) == spec_memory_lines(*snap),
{
    let mut out: Vec<String> = Vec::new();
    let tm = u64_to_string(snap.total_memory);
    out.push(cat3("total memory: ", tm.as_str(), " KB"));
    let um = u64_to_string(snap.used_memory);
    out.push(cat3("used memory : ", um.as_str(), " KB"));
    let ts = u64_to_string(snap.total_swap);
    out.push(cat3("total swap  : ", ts.as_str(), " KB"));
    let us = u64_to_string(snap.used_swap);
    out.push(cat3("used swap   : ", us.as_str(), " KB"));
    proof {
        assert(lines_view(out@) =~~= spec_memory_lines(*snap));
    }
    out
}

/// Renders the `all` output.
pub fn all_lines(procs: &Vec<ProcessRec>) -> (r: Vec<String>)
    ensures
        lines_view(r@) == spec_all_lines(procs@),
{
    let mut out: Vec<String> = Vec::new();
    let n = procs.len();
    let mut i: usize = 0;
    while i < n
        invariant
            0 <= i <= n,
            n == procs@.len(),
            lines_view(out@) == spec_all_lines(procs@.take(i as int)),
        decreases n - i,
    {
        let mut l = u64_to_string(procs[i].pid);
        l.append(":");
        l.append(procs[i].name.as_str());
        l.append(" status=");
        l.append(procs[i].status.as_str());
        let ghost prev = out@;
        out.push(l);
        proof {
            lemma_lines_view_push(prev, l);
            assert(spec_all_lines(procs@.take(i + 1)) =~~= spec_all_lines(
                procs@.take(i as int),
            ).push(spec_all_line(procs@[i as int])));
            assert(lines_view(out@) =~~= spec_all_lines(procs@.take(i + 1)));
        }
        i = i + 1;
    }
    proof {
        assert(procs@.take(n as int) =~= procs@);
    }
    out
}

/// Renders the `load_avg` output.
pub fn load_lines(snap: &Snapshot) -> (r: Vec<String>)
    ensures
        lines_view(r@) == spec_load_lines(*snap),
{
    let mut out: Vec<String> = Vec::new();
    out.push(cat3("one minute     : ", snap.load_one.as_str(), "%"));
    out.push(cat3("five minutes   : ", snap.load_five.as_str(), "%"));
    out.push(cat3("fifteen minutes: ", snap.load_fifteen.as_str(), "%"));
    proof {
        assert(lines_view(out@) =~~= spec_load_lines(*snap));
    }
    out
}

/// Renders the `network` output.
pub fn network_lines(nets: &Vec<NetRec>) -> (r: Vec<String>)
    ensures
        lines_view(r@) == spec_network_lines(nets@),
{
    let mut out: Vec<String> = Vec::new();
    let n = nets.len();
    let mut i: usize = 0;
    while i < n
        invariant
            0 <= i <= n,
            n == nets@.len(),
            lines_view(out@) == spec_network_lines(nets@.take(i as int)),
        decreases n - i,
    {
        let mut l = String::from_str("");
        l.append(nets[i].name.as_str());
        l.append(":\n  input data  (new / total): ");
        let a = u64_to_string(nets[i].received);
        l.append(a.as_str());
        l.append(" / ");
        let b = u64_to_string(nets[i].total_received);
        l.append(b.as_str());
        l.append(" B\n  output data (new / total): ");
        let c = u64_to_string(nets[i].transmitted);
        l.append(c.as_str());
        l.append(" / ");
        let d = u64_to_string(nets[i].total_transmitted);
        l.append(d.as_str());
        l.append(" B");
        proof {
            reveal_strlit("");
            assert(l@ =~= spec_net_line(nets@[i as int]));
        }
        let ghost prev = out@;
        out.push(l);
        proof {
            lemma_lines_view_push(prev, l);
            assert(spec_network_lines(nets@.take(i + 1)) =~~= spec_network_lines(
                nets@.take(i as int),
            ).push(spec_net_line(nets@[i as int])));
            assert(lines_view(out@) =~~= spec_network_lines(nets@.take(i + 1)));
        }
        i = i + 1;
    }
    proof {
        assert(nets@.take(n as int) =~= nets@);
    }
    out
}

/// Copies rendered entries out unchanged, as `disks`, `temperature`, `users`
/// and the per-core part of `cpus` echo what the snapshot holds.
pub fn echo_lines(v: &Vec<String>) -> (r: Vec<String>)
    ensures
        lines_view(r@) == lines_view(v@),
{
    let mut out: Vec<String> = Vec::new();
    let n = v.len();
    let mut i: usize = 0;
    while i < n
        invariant
            0 <= i <= n,
            n == v@.len(),
            lines_view(out@) == lines_view(v@.take(i as int)),
        decreases n - i,
    {
        let l = v[i].clone();
        let ghost prev = out@;
        out.push(l);
        proof {
            lemma_lines_view_push(prev, l);
            lemma_lines_view_push(v@.take(i as int), v@[i as int]);
            assert(v@.take(i + 1) =~= v@.take(i as int).push(v@[i as int]));
            assert(lines_view(out@) =~~= lines_view(v@.take(i + 1)));
        }
        i = i + 1;
    }
    proof {
        assert(v@.take(n as int) =~= v@);
    }
    out
}

/// Renders the single `uptime` entry.
pub fn uptime_line(u: u64) -> (r: String)
    ensures
        r@ == spec_uptime_line(u),
{
    let days = u / 86400;
    let hours = (u % 86400) / 3600;
    let minutes = (u % 3600) / 60;
    let mut l = u64_to_string(days);
    l.append(" days ");
    let hs = u64_to_string(hours);
    l.append(hs.as_str());
    l.append(" hours ");
    let ms = u64_to_string(minutes);
    l.append(ms.as_str());
    l.append(" minutes (");
    let us = u64_to_string(u);
    l.append(us.as_str());
    l.append(" seconds in total)");
    l
}

/// Renders the single `system` entry.
pub fn system_line(snap: &Snapshot) -> (r: String)
    ensures
        r@ == spec_system_line(*snap),
{
    let mut l = String::from_str("System name:              ");
    append_opt(&mut l, &snap.sys_name);
    l.append("\nSystem kernel version:    ");
    append_opt(&mut l, &snap.kernel_version);
    l.append("\nSystem OS version:        ");
    append_opt(&mut l, &snap.os_version);
    l.append("\nSystem OS (long) version: ");
    append_opt(&mut l, &snap.long_os_version);
    l.append("\nSystem host name:         ");
    append_opt(&mut l, &snap.host_name);
    l
}

/// Appends a fact or its `<unknown>` fallback.
fn append_opt(l: &mut String, o: &Option<String>)
    ensures
        final(l)@ == old(l)@ + spec_unknown_or(*o),
{
    match o {
        Some(s) => l.append(s.as_str()),
        None => l.append("<unknown>"),
    }
}

/// Renders the `show <pid>` miss.
pub fn pid_not_found_line(pid: u64) -> (r: String)
    ensures
        r@ == spec_pid_not_found_line(pid),
{
    let p = u64_to_string(pid);
    cat3("pid \"", p.as_str(), "\" not found")
}

/// Renders the `show <name>` output for the resolved matches.
pub fn show_name_lines(ms: &Vec<&ProcessRec>) -> (r: Vec<String>)
    ensures
        lines_view(r@) == spec_show_name_lines(ms@.map_values(|p: &ProcessRec| *p)),
{
    let ghost gms = ms@.map_values(|p: &ProcessRec| *p);
    let mut out: Vec<String> = Vec::new();
    let n = ms.len();
    let mut i: usize = 0;
    while i < n
        invariant
            0 <= i <= n,
            n == ms@.len(),
            gms == ms@.map_values(|p: &ProcessRec| *p),
            lines_view(out@) == spec_show_name_lines(gms.take(i as int)),
        decreases n - i,
    {
        out.push(cat3("==== ", ms[i].name.as_str(), " ===="));
        out.push(ms[i].detail.clone());
        proof {
            assert(gms.take(i + 1).drop_last() =~= gms.take(i as int));
            assert(gms.take(i + 1).last() == gms[i as int]);
            assert(lines_view(out@) =~~= spec_show_name_lines(gms.take(i + 1)));
        }
        i = i + 1;
    }
    proof {
        assert(gms.take(n as int) =~= gms);
    }
    out
}

/// Renders the unrecognized-command fallback for the trimmed input `t`.
pub fn unknown_line(t: &str) -> (r: String)
    ensures
        r@ == spec_unknown_line(t@),
{
    cat3("\"", t, "\": Unknown command. Enter 'help' if you want to get the commands' list.")
}

/// Renders what `kill` reports once delivery was attempted.
pub fn kill_outcome_line(r: &Option<Option<bool>>) -> (l: String)
    ensures
        l@ == spec_kill_outcome_line(*r),
{
    match r {
        None => String::from_str("pid not found"),
        Some(None) => String::from_str("kill: signal not supported on this platform"),
        Some(Some(true)) => String::from_str("kill: true"),
        Some(Some(false)) => String::from_str("kill: false"),
    }
}

/// Renders what `refresh <pid>` reports for the provider's result.
pub fn refresh_outcome_line(pid: u64, ok: bool) -> (l: String)
    ensures
        l@ == spec_refresh_outcome_line(pid, ok),
{
    let p = u64_to_string(pid);
    if ok {
        cat3("Process `", p.as_str(), "` updated successfully")
    } else {
        cat3("Process `", p.as_str(), "` couldn't be updated...")
    }
}

} // verus!
