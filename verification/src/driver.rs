//! The sysinfo-backed driver: reads the live system into the snapshot model,
//! runs the verified dispatcher, and performs the effect it decided. Every
//! call into sysinfo goes through a trusted wrapper; everything around the
//! calls is verified.

use vstd::prelude::*;
use sysinfo::{CpuExt, NetworkExt, NetworksExt, ProcessExt, SystemExt, UserExt};
use crate::command::spec_command;
use crate::dispatch::{
    Effect, dispatch_line, report_kill, report_refresh_process, spec_dispatch_lines, spec_effect,
    spec_exit,
};
use crate::render::{
    lemma_lines_view_concat, lemma_lines_view_push, lines_view, spec_kill_outcome_line,
    spec_refresh_outcome_line,
};
use crate::signals::{SignalCode, signal_lookup};
use crate::snapshot::{NetRec, ProcessRec, Snapshot};
use crate::text::PID_MAX;

verus! {

#[verifier::external_type_specification]
#[verifier::external_body]
pub struct ExSystem(sysinfo::System);

#[verifier::external_type_specification]
#[verifier::external_body]
pub struct ExSignal(sysinfo::Signal);

/// Relies on sysinfo's `SystemExt::refresh_all`: re-queries all system state.
#[verifier::external_body]
fn sys_refresh_all(sys: &mut sysinfo::System) {
    sys.refresh_all();
}

/// Relies on sysinfo's `SystemExt::refresh_disks_list`.
#[verifier::external_body]
fn sys_refresh_disks_list(sys: &mut sysinfo::System) {
    sys.refresh_disks_list();
}

/// Relies on sysinfo's `SystemExt::refresh_users_list`.
#[verifier::external_body]
fn sys_refresh_users_list(sys: &mut sysinfo::System) {
    sys.refresh_users_list();
}

/// Relies on sysinfo's `SystemExt::refresh_process`: true when the process
/// exists and was updated. The bound keeps the conversion into the
/// platform's signed PID type from wrapping.
#[verifier::external_body]
fn sys_refresh_process(sys: &mut sysinfo::System, pid: u64) -> bool
    requires
        pid <= PID_MAX,
{
    sys.refresh_process(sysinfo::Pid::from(pid as usize))
}

/// Relies on sysinfo's `SystemExt::process` and `ProcessExt::kill_with`:
/// the outer option is the process lookup, the inner one is delivery
/// support on this platform, the boolean is the delivery result. The bound
/// keeps the conversion into the platform's signed PID type from wrapping.
#[verifier::external_body]
fn sys_kill_with(sys: &sysinfo::System, pid: u64, sig: sysinfo::Signal) -> (r: Option<
    Option<bool>,
>)
    requires
        pid <= PID_MAX,
{
    sys.process(sysinfo::Pid::from(pid as usize)).map(|p| p.kill_with(sig))
}

/// Relies on sysinfo's `SystemExt::processes` and the `Process` accessors:
/// one record per process, fields rendered as the formatter shows them.
#[verifier::external_body]
fn sys_processes(sys: &sysinfo::System) -> Vec<ProcessRec> {
    sys.processes().iter().map(|(pid, p)| ProcessRec {
        pid: usize::from(*pid) as u64,
        name: p.name().to_owned(),
        status: format!("{:?}", p.status()),
        detail: format!("{:?}", p),
    }).collect()
}

/// Relies on sysinfo's `SystemExt::physical_core_count`.
#[verifier::external_body]
fn sys_physical_core_count(sys: &sysinfo::System) -> Option<u64> {
    sys.physical_core_count().map(|c| c as u64)
}

/// Relies on sysinfo's `SystemExt::global_cpu_info` and `CpuExt::cpu_usage`.
#[verifier::external_body]
fn sys_global_cpu_usage(sys: &sysinfo::System) -> String {
    format!("{}", sys.global_cpu_info().cpu_usage())
}

/// Relies on sysinfo's `SystemExt::cpus`: one rendered line per CPU.
#[verifier::external_body]
fn sys_cpu_details(sys: &sysinfo::System) -> Vec<String> {
    sys.cpus().iter().map(|c| format!("{:?}", c)).collect()
}

/// Relies on sysinfo's `SystemExt::total_memory`.
#[verifier::external_body]
fn sys_total_memory(sys: &sysinfo::System) -> u64 {
    sys.total_memory()
}

/// Relies on sysinfo's `SystemExt::used_memory`.
#[verifier::external_body]
fn sys_used_memory(sys: &sysinfo::System) -> u64 {
    sys.used_memory()
}

/// Relies on sysinfo's `SystemExt::total_swap`.
#[verifier::external_body]
fn sys_total_swap(sys: &sysinfo::System) -> u64 {
    sys.total_swap()
}

/// Relies on sysinfo's `SystemExt::used_swap`.
#[verifier::external_body]
fn sys_used_swap(sys: &sysinfo::System) -> u64 {
    sys.used_swap()
}

/// Relies on sysinfo's `SystemExt::global_cpu_info` and `CpuExt::frequency`.
#[verifier::external_body]
fn sys_frequency(sys: &sysinfo::System) -> u64 {
    sys.global_cpu_info().frequency()
}

/// Relies on sysinfo's `SystemExt::cpus` and `CpuExt::vendor_id`: the first
/// CPU's vendor identifier, if any CPU is listed.
#[verifier::external_body]
fn sys_vendor_id(sys: &sysinfo::System) -> Option<String> {
    sys.cpus().first().map(|c| c.vendor_id().to_owned())
}

/// Relies on sysinfo's `SystemExt::cpus` and `CpuExt::brand`: the first
/// CPU's brand string, if any CPU is listed.
#[verifier::external_body]
fn sys_brand(sys: &sysinfo::System) -> Option<String> {
    sys.cpus().first().map(|c| c.brand().to_owned())
}

/// Relies on sysinfo's `SystemExt::load_average`: the one, five and fifteen
/// minute averages, rendered.
#[verifier::external_body]
fn sys_load_average(sys: &sysinfo::System) -> (String, String, String) {
    let l = sys.load_average();
    (format!("{}", l.one), format!("{}", l.five), format!("{}", l.fifteen))
}

/// Relies on sysinfo's `SystemExt::components`: one rendered line each.
#[verifier::external_body]
fn sys_components(sys: &sysinfo::System) -> Vec<String> {
    sys.components().iter().map(|c| format!("{:?}", c)).collect()
}

/// Relies on sysinfo's `SystemExt::disks`: one rendered line each.
#[verifier::external_body]
fn sys_disks(sys: &sysinfo::System) -> Vec<String> {
    sys.disks().iter().map(|d| format!("{:?}", d)).collect()
}

/// Relies on sysinfo's `SystemExt::networks` and the `NetworkExt` counters.
#[verifier::external_body]
fn sys_networks(sys: &sysinfo::System) -> Vec<NetRec> {
    sys.networks().iter().map(|(name, data)| NetRec {
        name: name.clone(),
        received: data.received(),
        total_received: data.total_received(),
        transmitted: data.transmitted(),
        total_transmitted: data.total_transmitted(),
    }).collect()
}

/// Relies on sysinfo's `SystemExt::users` and `UserExt::name`: one line per
/// user, the name rendered between quotes with the standard escaping.
#[verifier::external_body]
fn sys_users(sys: &sysinfo::System) -> Vec<String> {
    sys.users().iter().map(|u| format!("{:?}", u.name())).collect()
}

/// Relies on sysinfo's `SystemExt::boot_time`: seconds since the epoch.
#[verifier::external_body]
fn sys_boot_time(sys: &sysinfo::System) -> u64 {
    sys.boot_time()
}

/// Relies on sysinfo's `SystemExt::uptime`: seconds since boot.
#[verifier::external_body]
fn sys_uptime(sys: &sysinfo::System) -> u64 {
    sys.uptime()
}

/// Relies on sysinfo's `get_current_pid`: this process's PID, or the
/// platform's error text.
#[verifier::external_body]
fn sys_self_pid() -> String {
    match sysinfo::get_current_pid() {
        Ok(p) => format!("{}", p),
        Err(e) => e.to_owned(),
    }
}

/// Relies on sysinfo's `SystemExt::name`.
#[verifier::external_body]
fn sys_name(sys: &sysinfo::System) -> Option<String> {
    sys.name()
}

/// Relies on sysinfo's `SystemExt::kernel_version`.
#[verifier::external_body]
fn sys_kernel_version(sys: &sysinfo::System) -> Option<String> {
    sys.kernel_version()
}

/// Relies on sysinfo's `SystemExt::os_version`.
#[verifier::external_body]
fn sys_os_version(sys: &sysinfo::System) -> Option<String> {
    sys.os_version()
}

/// Relies on sysinfo's `SystemExt::long_os_version`.
#[verifier::external_body]
fn sys_long_os_version(sys: &sysinfo::System) -> Option<String> {
    sys.long_os_version()
}

/// Relies on sysinfo's `SystemExt::host_name`.
#[verifier::external_body]
fn sys_host_name(sys: &sysinfo::System) -> Option<String> {
    sys.host_name()
}

/// Relies on sysinfo's `Signal::Hangup` value.
#[verifier::external_body]
fn raw_hangup() -> sysinfo::Signal {
    sysinfo::Signal::Hangup
}

/// Relies on sysinfo's `Signal::Interrupt` value.
#[verifier::external_body]
fn raw_interrupt() -> sysinfo::Signal {
    sysinfo::Signal::Interrupt
}

/// Relies on sysinfo's `Signal::Quit` value.
#[verifier::external_body]
fn raw_quit() -> sysinfo::Signal {
    sysinfo::Signal::Quit
}

/// Relies on sysinfo's `Signal::Illegal` value.
#[verifier::external_body]
fn raw_illegal() -> sysinfo::Signal {
    sysinfo::Signal::Illegal
}

/// Relies on sysinfo's `Signal::Trap` value.
#[verifier::external_body]
fn raw_trap() -> sysinfo::Signal {
    sysinfo::Signal::Trap
}

/// Relies on sysinfo's `Signal::Abort` value.
#[verifier::external_body]
fn raw_abort() -> sysinfo::Signal {
    sysinfo::Signal::Abort
}

/// Relies on sysinfo's `Signal::Bus` value.
#[verifier::external_body]
fn raw_bus() -> sysinfo::Signal {
    sysinfo::Signal::Bus
}

/// Relies on sysinfo's `Signal::FloatingPointException` value.
#[verifier::external_body]
fn raw_fpe() -> sysinfo::Signal {
    sysinfo::Signal::FloatingPointException
}

/// Relies on sysinfo's `Signal::Kill` value.
#[verifier::external_body]
fn raw_kill() -> sysinfo::Signal {
    sysinfo::Signal::Kill
}

/// Relies on sysinfo's `Signal::User1` value.
#[verifier::external_body]
fn raw_user1() -> sysinfo::Signal {
    sysinfo::Signal::User1
}

/// Relies on sysinfo's `Signal::Segv` value.
#[verifier::external_body]
fn raw_segv() -> sysinfo::Signal {
    sysinfo::Signal::Segv
}

/// Relies on sysinfo's `Signal::User2` value.
#[verifier::external_body]
fn raw_user2() -> sysinfo::Signal {
    sysinfo::Signal::User2
}

/// Relies on sysinfo's `Signal::Pipe` value.
#[verifier::external_body]
fn raw_pipe() -> sysinfo::Signal {
    sysinfo::Signal::Pipe
}

/// Relies on sysinfo's `Signal::Alarm` value.
#[verifier::external_body]
fn raw_alarm() -> sysinfo::Signal {
    sysinfo::Signal::Alarm
}

/// Relies on sysinfo's `Signal::Term` value.
#[verifier::external_body]
fn raw_term() -> sysinfo::Signal {
    sysinfo::Signal::Term
}

/// Relies on sysinfo's `Signal::Child` value.
#[verifier::external_body]
fn raw_child() -> sysinfo::Signal {
    sysinfo::Signal::Child
}

/// Relies on sysinfo's `Signal::Continue` value.
#[verifier::external_body]
fn raw_continue() -> sysinfo::Signal {
    sysinfo::Signal::Continue
}

/// Relies on sysinfo's `Signal::Stop` value.
#[verifier::external_body]
fn raw_stop() -> sysinfo::Signal {
    sysinfo::Signal::Stop
}

/// Relies on sysinfo's `Signal::TSTP` value.
#[verifier::external_body]
fn raw_tstp() -> sysinfo::Signal {
    sysinfo::Signal::TSTP
}

/// Relies on sysinfo's `Signal::TTIN` value.
#[verifier::external_body]
fn raw_ttin() -> sysinfo::Signal {
    sysinfo::Signal::TTIN
}

/// Relies on sysinfo's `Signal::TTOU` value.
#[verifier::external_body]
fn raw_ttou() -> sysinfo::Signal {
    sysinfo::Signal::TTOU
}

/// Relies on sysinfo's `Signal::Urgent` value.
#[verifier::external_body]
fn raw_urgent() -> sysinfo::Signal {
    sysinfo::Signal::Urgent
}

/// Relies on sysinfo's `Signal::XCPU` value.
#[verifier::external_body]
fn raw_xcpu() -> sysinfo::Signal {
    sysinfo::Signal::XCPU
}

/// Relies on sysinfo's `Signal::XFSZ` value.
#[verifier::external_body]
fn raw_xfsz() -> sysinfo::Signal {
    sysinfo::Signal::XFSZ
}

/// Relies on sysinfo's `Signal::VirtualAlarm` value.
#[verifier::external_body]
fn raw_virtual_alarm() -> sysinfo::Signal {
    sysinfo::Signal::VirtualAlarm
}

/// Relies on sysinfo's `Signal::Profiling` value.
#[verifier::external_body]
fn raw_profiling() -> sysinfo::Signal {
    sysinfo::Signal::Profiling
}

/// Relies on sysinfo's `Signal::Winch` value.
#[verifier::external_body]
fn raw_winch() -> sysinfo::Signal {
    sysinfo::Signal::Winch
}

/// Relies on sysinfo's `Signal::IO` value.
#[verifier::external_body]
fn raw_io() -> sysinfo::Signal {
    sysinfo::Signal::IO
}

/// Relies on sysinfo's `Signal::Poll` value.
#[verifier::external_body]
fn raw_poll() -> sysinfo::Signal {
    sysinfo::Signal::Poll
}

/// Relies on sysinfo's `Signal::Power` value.
#[verifier::external_body]
fn raw_power() -> sysinfo::Signal {
    sysinfo::Signal::Power
}

/// Relies on sysinfo's `Signal::Sys` value.
#[verifier::external_body]
fn raw_sys() -> sysinfo::Signal {
    sysinfo::Signal::Sys
}

/// The platform value of a table identity, one constant per variant.
fn platform_signal(code: &SignalCode) -> sysinfo::Signal {
    match code {
        SignalCode::Hangup => raw_hangup(),
        SignalCode::Interrupt => raw_interrupt(),
        SignalCode::Quit => raw_quit(),
        SignalCode::Illegal => raw_illegal(),
        SignalCode::Trap => raw_trap(),
        SignalCode::Abort => raw_abort(),
        SignalCode::Bus => raw_bus(),
        SignalCode::FloatingPointException => raw_fpe(),
        SignalCode::Kill => raw_kill(),
        SignalCode::User1 => raw_user1(),
        SignalCode::Segv => raw_segv(),
        SignalCode::User2 => raw_user2(),
        SignalCode::Pipe => raw_pipe(),
        SignalCode::Alarm => raw_alarm(),
        SignalCode::Term => raw_term(),
        SignalCode::Child => raw_child(),
        SignalCode::Continue => raw_continue(),
        SignalCode::Stop => raw_stop(),
        SignalCode::TSTP => raw_tstp(),
        SignalCode::TTIN => raw_ttin(),
        SignalCode::TTOU => raw_ttou(),
        SignalCode::Urgent => raw_urgent(),
        SignalCode::XCPU => raw_xcpu(),
        SignalCode::XFSZ => raw_xfsz(),
        SignalCode::VirtualAlarm => raw_virtual_alarm(),
        SignalCode::Profiling => raw_profiling(),
        SignalCode::Winch => raw_winch(),
        SignalCode::IO => raw_io(),
        SignalCode::Poll => raw_poll(),
        SignalCode::Power => raw_power(),
        SignalCode::Sys => raw_sys(),
    }
}

/// Reads the live system into the snapshot model the dispatcher works on.
pub fn build_snapshot(sys: &sysinfo::System) -> Snapshot {
    let (load_one, load_five, load_fifteen) = sys_load_average(sys);
    let vendor_id = match sys_vendor_id(sys) {
        Some(v) => v,
        None => String::new(),
    };
    let brand = match sys_brand(sys) {
        Some(v) => v,
        None => String::new(),
    };
    Snapshot {
        processes: sys_processes(sys),
        physical_cores: sys_physical_core_count(sys),
        global_cpu_usage: sys_global_cpu_usage(sys),
        cpu_details: sys_cpu_details(sys),
        total_memory: sys_total_memory(sys),
        used_memory: sys_used_memory(sys),
        total_swap: sys_total_swap(sys),
        used_swap: sys_used_swap(sys),
        frequency: sys_frequency(sys),
        vendor_id,
        brand,
        load_one,
        load_five,
        load_fifteen,
        components: sys_components(sys),
        disks: sys_disks(sys),
        networks: sys_networks(sys),
        users: sys_users(sys),
        boot_time: sys_boot_time(sys),
        uptime: sys_uptime(sys),
        self_pid: sys_self_pid(),
        sys_name: sys_name(sys),
        kernel_version: sys_kernel_version(sys),
        os_version: sys_os_version(sys),
        long_os_version: sys_long_os_version(sys),
        host_name: sys_host_name(sys),
    }
}

/// What one cycle owes the output: whatever snapshot the system yielded,
/// the appended entries are exactly what the dispatcher writes for the
/// command over that snapshot, followed by the one report line of a
/// process refresh or a delivery, and by nothing otherwise.
pub open spec fn spec_cycle_output(
    input: Seq<char>,
    snap: Snapshot,
    tail: Seq<Seq<char>>,
    before: Seq<String>,
    after: Seq<String>,
) -> bool {
    &&& lines_view(after) == lines_view(before) + spec_dispatch_lines(spec_command(input), snap)
        + tail
    &&& match spec_effect(spec_command(input), snap) {
        Effect::RefreshProcess(p) => exists|ok: bool|
            tail == seq![spec_refresh_outcome_line(p, ok)],
        Effect::Kill(p, s) => exists|r: Option<Option<bool>>|
            tail == seq![spec_kill_outcome_line(r)],
        _ => tail == Seq::<Seq<char>>::empty(),
    }
}

/// One classify-and-execute cycle over a single command string: reads the
/// live system, dispatches the command, performs the effect the dispatcher
/// validated, and appends every output entry to `out`. Returns whether the
/// caller's session should terminate, which holds exactly when the trimmed
/// input is `quit` or `exit`; and for some snapshot the appended output is
/// exactly what `spec_cycle_output` owes for it.
pub fn system_info(input: &str, sys: &mut sysinfo::System, out: &mut Vec<String>) -> (exit: bool)
    ensures
        exit == spec_exit(spec_command(input@)),
        exit == (crate::text::spec_trim(input@) == "quit"@ || crate::text::spec_trim(input@)
            == "exit"@),
        exists|snap: Snapshot, tail: Seq<Seq<char>>|
            spec_cycle_output(input@, snap, tail, old(out)@, final(out)@),
        final(out)@.len() >= old(out)@.len(),
        forall|k: int| 0 <= k < old(out)@.len() ==> final(out)@[k] == old(out)@[k],
        spec_exit(spec_command(input@)) ==> final(out)@ == old(out)@,
{
    let snap = build_snapshot(sys);
    let ghost gsnap = snap;
    let ghost cmd = spec_command(input@);
    let outcome = dispatch_line(input, &snap);
    proof {
        crate::dispatch::lemma_delivery_validated(input@, snap);
    }
    let n = outcome.lines.len();
    let mut i: usize = 0;
    while i < n
        invariant
            0 <= i <= n,
            n == outcome.lines@.len(),
            out@ == old(out)@ + outcome.lines@.take(i as int),
        decreases n - i,
    {
        out.push(outcome.lines[i].clone());
        proof {
            assert(out@ =~= old(out)@ + outcome.lines@.take(i + 1));
        }
        i = i + 1;
    }
    proof {
        assert(outcome.lines@.take(n as int) =~= outcome.lines@);
        lemma_lines_view_concat(old(out)@, outcome.lines@);
        assert(lines_view(out@) == lines_view(old(out)@) + spec_dispatch_lines(cmd, gsnap));
    }
    match outcome.effect {
        Effect::Idle => {
            proof {
                assert(lines_view(out@) =~~= lines_view(old(out)@) + spec_dispatch_lines(
                    cmd,
                    gsnap,
                ) + Seq::<Seq<char>>::empty());
                assert(spec_cycle_output(
                    input@,
                    gsnap,
                    Seq::<Seq<char>>::empty(),
                    old(out)@,
                    out@,
                ));
            }
        },
        Effect::RefreshAll => {
            sys_refresh_all(sys);
            proof {
                assert(lines_view(out@) =~~= lines_view(old(out)@) + spec_dispatch_lines(
                    cmd,
                    gsnap,
                ) + Seq::<Seq<char>>::empty());
                assert(spec_cycle_output(
                    input@,
                    gsnap,
                    Seq::<Seq<char>>::empty(),
                    old(out)@,
                    out@,
                ));
            }
        },
        Effect::RefreshDisks => {
            sys_refresh_disks_list(sys);
            proof {
                assert(lines_view(out@) =~~= lines_view(old(out)@) + spec_dispatch_lines(
                    cmd,
                    gsnap,
                ) + Seq::<Seq<char>>::empty());
                assert(spec_cycle_output(
                    input@,
                    gsnap,
                    Seq::<Seq<char>>::empty(),
                    old(out)@,
                    out@,
                ));
            }
        },
        Effect::RefreshUsers => {
            sys_refresh_users_list(sys);
            proof {
                assert(lines_view(out@) =~~= lines_view(old(out)@) + spec_dispatch_lines(
                    cmd,
                    gsnap,
                ) + Seq::<Seq<char>>::empty());
                assert(spec_cycle_output(
                    input@,
                    gsnap,
                    Seq::<Seq<char>>::empty(),
                    old(out)@,
                    out@,
                ));
            }
        },
        Effect::RefreshProcess(p) => {
            let ok = sys_refresh_process(sys, p);
            let l = report_refresh_process(p, ok);
            let ghost prev = out@;
            out.push(l);
            proof {
                lemma_lines_view_push(prev, l);
                assert(lines_view(out@) =~~= lines_view(old(out)@) + spec_dispatch_lines(
                    cmd,
                    gsnap,
                ) + seq![spec_refresh_outcome_line(p, ok)]);
                assert(spec_cycle_output(
                    input@,
                    gsnap,
                    seq![spec_refresh_outcome_line(p, ok)],
                    old(out)@,
                    out@,
                ));
            }
        },
        Effect::Kill(p, s) => {
            match signal_lookup(s as u64) {
                Ok(code) => {
                    let sig = platform_signal(&code);
                    let r = sys_kill_with(sys, p, sig);
                    let l = report_kill(&r);
                    let ghost prev = out@;
                    out.push(l);
                    proof {
                        lemma_lines_view_push(prev, l);
                        assert(lines_view(out@) =~~= lines_view(old(out)@) + spec_dispatch_lines(
                            cmd,
                            gsnap,
                        ) + seq![spec_kill_outcome_line(r)]);
                        assert(spec_cycle_output(
                            input@,
                            gsnap,
                            seq![spec_kill_outcome_line(r)],
                            old(out)@,
                            out@,
                        ));
                    }
                },
                Err(_) => {
                    proof {
                        assert(false);
                    }
                },
            }
        },
    }
    outcome.should_exit
}

} // verus!
