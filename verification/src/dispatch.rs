//! The command dispatcher: a pure, state-free interpreter of one parsed
//! command over the current snapshot. It never mutates the snapshot; where
//! a command refreshes state or delivers a signal, the dispatcher hands the
//! caller an `Effect` to perform, and a verified reporter turns the
//! caller's result into the line the session shows.

use vstd::prelude::*;
use vstd::string::StringExecFns;
use crate::command::{CmdSpec, Command, parse_command, spec_command};
use crate::render::{
    all_lines, cpus_lines, echo_lines, help_lines, kill_outcome_line, lines_view, load_lines,
    memory_lines, network_lines, pid_not_found_line, refresh_outcome_line, show_name_lines,
    signals_lines, spec_all_lines, spec_cpus_lines, spec_help_lines, spec_kill_outcome_line,
    spec_load_lines, spec_memory_lines, spec_network_lines, spec_pid_not_found_line,
    spec_refresh_outcome_line, spec_show_name_lines, spec_signals_lines, spec_system_line,
    spec_unknown_line, spec_uptime_line, system_line, unknown_line, uptime_line,
};
use crate::snapshot::{
    Snapshot, resolve_by_name, resolve_by_pid, spec_find_pid_idx, spec_has_pid,
    spec_matches_by_name,
};
use crate::text::{spec_nat_str, spec_trim, u64_to_string};

verus! {

/// The action the caller must perform after one dispatch: the dispatcher
/// itself never touches the system, it only decides.
#[derive(Clone, Copy, Debug, PartialEq, Eq, Structural)]
pub enum Effect {
    /// Nothing to do.
    Idle,
    /// Refresh the whole snapshot.
    RefreshAll,
    /// Refresh the disk list only.
    RefreshDisks,
    /// Refresh the user list only.
    RefreshUsers,
    /// Refresh the one process with this PID, then report with
    /// `report_refresh_process`.
    RefreshProcess(u64),
    /// Deliver the signal with this table ordinal to the process with this
    /// PID, then report with `report_kill`.
    Kill(u64, u8),
}

/// What one dispatch decided: the text written so far, whether the session
/// should end, and the action left to the caller.
pub struct DispatchOutcome {
    /// The output entries, in order.
    pub lines: Vec<String>,
    /// Whether the caller's session should terminate.
    pub should_exit: bool,
    /// The action the caller must perform.
    pub effect: Effect,
}

/// Whether a command ends the session: only `quit` and `exit` do.
pub open spec fn spec_exit(cmd: CmdSpec) -> bool {
    cmd is Quit
}

/// The action a command asks for. Delivery is requested only for a signal
/// ordinal already validated into `[1, 31]` and a PID present in the
/// snapshot; every other command, the unknown ones included, asks for
/// nothing.
pub open spec fn spec_effect(cmd: CmdSpec, snap: Snapshot) -> Effect {
    match cmd {
        CmdSpec::RefreshAll => Effect::RefreshAll,
        CmdSpec::RefreshDisks => Effect::RefreshDisks,
        CmdSpec::RefreshUsers => Effect::RefreshUsers,
        CmdSpec::RefreshPid(p) => Effect::RefreshProcess(p),
        CmdSpec::Kill(p, s) => if spec_has_pid(snap.processes@, p) {
            Effect::Kill(p, s)
        } else {
            Effect::Idle
        },
        _ => Effect::Idle,
    }
}

/// The text one command writes before its effect is performed.
pub open spec fn spec_dispatch_lines(cmd: CmdSpec, snap: Snapshot) -> Seq<Seq<char>> {
    match cmd {
        CmdSpec::Help => spec_help_lines(),
        CmdSpec::Signals => spec_signals_lines(),
        CmdSpec::RefreshAll => seq!["Getting processes' information..."@, "Done."@],
        CmdSpec::RefreshPid(p) => seq!["Getting process' information..."@],
        CmdSpec::RefreshInvalid => seq![
            "Getting process' information..."@,
            "Invalid [pid] received..."@,
        ],
        CmdSpec::RefreshDisks => seq!["Refreshing disk list..."@, "Done."@],
        CmdSpec::RefreshUsers => seq!["Refreshing user list..."@, "Done."@],
        CmdSpec::Cpus => spec_cpus_lines(snap),
        CmdSpec::Memory => spec_memory_lines(snap),
        CmdSpec::Frequency => seq![spec_nat_str(snap.frequency as nat) + " MHz"@],
        CmdSpec::VendorId => seq!["vendor ID: "@ + snap.vendor_id@],
        CmdSpec::Brand => seq!["brand: "@ + snap.brand@],
        CmdSpec::LoadAvg => spec_load_lines(snap),
        CmdSpec::All => spec_all_lines(snap.processes@),
        CmdSpec::ShowUsage => seq!["'show' command expects a pid number or a process name"@],
        CmdSpec::ShowArity => seq![
            "show command takes a pid or a name in parameter!"@,
            "example: show 1254"@,
        ],
        CmdSpec::ShowPid(p) => if spec_has_pid(snap.processes@, p) {
            seq![snap.processes@[spec_find_pid_idx(snap.processes@, p)].detail@]
        } else {
            seq![spec_pid_not_found_line(p)]
        },
        CmdSpec::ShowName(nm) => spec_show_name_lines(spec_matches_by_name(snap.processes@, nm)),
        CmdSpec::Temperature => lines_view(snap.components@),
        CmdSpec::Disks => lines_view(snap.disks@),
        CmdSpec::Network => spec_network_lines(snap.networks@),
        CmdSpec::Users => lines_view(snap.users@),
        CmdSpec::BootTime => seq![spec_nat_str(snap.boot_time as nat) + " seconds"@],
        CmdSpec::Uptime => seq![spec_uptime_line(snap.uptime)],
        CmdSpec::PidOfSelf => seq!["PID: "@ + snap.self_pid@],
        CmdSpec::System => seq![spec_system_line(snap)],
        CmdSpec::KillUsage => seq![
            "kill command takes the pid and a signal number in parameter!"@,
            "example: kill 1254 9"@,
        ],
        CmdSpec::KillRange => seq![
            "Signal must be between 0 and 32 ! See the signals list with the signals command"@,
        ],
        CmdSpec::Kill(p, s) => if spec_has_pid(snap.processes@, p) {
            Seq::empty()
        } else {
            seq!["pid not found"@]
        },
        CmdSpec::Quit => Seq::empty(),
        CmdSpec::Unknown(t) => seq![spec_unknown_line(t)],
    }
}

fn one_line(l: String) -> (r: Vec<String>)
    ensures
        lines_view(r@) =~~= seq![l@],
{
    let mut v: Vec<String> = Vec::new();
    v.push(l);
    v
}

fn two_lines(a: &str, b: &str) -> (r: Vec<String>)
    ensures
        lines_view(r@) =~~= seq![a@, b@],
{
    let mut v: Vec<String> = Vec::new();
    v.push(String::from_str(a));
    v.push(String::from_str(b));
    v
}

/// Interprets one parsed command against the snapshot: writes exactly the
/// text the command calls for, ends the session only on `quit`/`exit`, and
/// asks the caller for exactly the effect the command validated.
pub fn dispatch(cmd: &Command, snap: &Snapshot) -> (r: DispatchOutcome)
    ensures
        lines_view(r.lines@) == spec_dispatch_lines(cmd@, *snap),
        r.should_exit == spec_exit(cmd@),
        r.effect == spec_effect(cmd@, *snap),
{
    let mut exit = false;
    let mut effect = Effect::Idle;
    let lines: Vec<String> = match cmd {
        Command::Help => help_lines(),
        Command::Signals => signals_lines(),
        Command::RefreshAll => {
            effect = Effect::RefreshAll;
            two_lines("Getting processes' information...", "Done.")
        },
        Command::RefreshPid(p) => {
            effect = Effect::RefreshProcess(*p);
            one_line(String::from_str("Getting process' information..."))
        },
        Command::RefreshInvalid => two_lines(
            "Getting process' information...",
            "Invalid [pid] received...",
        ),
        Command::RefreshDisks => {
            effect = Effect::RefreshDisks;
            two_lines("Refreshing disk list...", "Done.")
        },
        Command::RefreshUsers => {
            effect = Effect::RefreshUsers;
            two_lines("Refreshing user list...", "Done.")
        },
        Command::Cpus => cpus_lines(snap),
        Command::Memory => memory_lines(snap),
        Command::Frequency => {
            let mut l = u64_to_string(snap.frequency);
            l.append(" MHz");
            one_line(l)
        },
        Command::VendorId => {
            let mut l = String::from_str("vendor ID: ");
            l.append(snap.vendor_id.as_str());
            one_line(l)
        },
        Command::Brand => {
            let mut l = String::from_str("brand: ");
            l.append(snap.brand.as_str());
            one_line(l)
        },
        Command::LoadAvg => load_lines(snap),
        Command::All => all_lines(&snap.processes),
        Command::ShowUsage => one_line(
            String::from_str("'show' command expects a pid number or a process name"),
        ),
        Command::ShowArity => two_lines(
            "show command takes a pid or a name in parameter!",
            "example: show 1254",
        ),
        Command::ShowPid(p) => {
            match resolve_by_pid(&snap.processes, *p) {
                Some(rec) => one_line(rec.detail.clone()),
                None => one_line(pid_not_found_line(*p)),
            }
        },
        Command::ShowName(nm) => {
            let ms = resolve_by_name(&snap.processes, nm.as_str());
            show_name_lines(&ms)
        },
        Command::Temperature => echo_lines(&snap.components),
        Command::Disks => echo_lines(&snap.disks),
        Command::Network => network_lines(&snap.networks),
        Command::Users => echo_lines(&snap.users),
        Command::BootTime => {
            let mut l = u64_to_string(snap.boot_time);
            l.append(" seconds");
            one_line(l)
        },
        Command::Uptime => one_line(uptime_line(snap.uptime)),
        Command::PidOfSelf => {
            let mut l = String::from_str("PID: ");
            l.append(snap.self_pid.as_str());
            one_line(l)
        },
        Command::System => one_line(system_line(snap)),
        Command::KillUsage => two_lines(
            "kill command takes the pid and a signal number in parameter!",
            "example: kill 1254 9",
        ),
        Command::KillRange => one_line(
            String::from_str(
                "Signal must be between 0 and 32 ! See the signals list with the signals command",
            ),
        ),
        Command::Kill(p, s) => {
            match resolve_by_pid(&snap.processes, *p) {
                Some(_) => {
                    effect = Effect::Kill(*p, *s);
                    Vec::new()
                },
                None => one_line(String::from_str("pid not found")),
            }
        },
        Command::Quit => {
            exit = true;
            Vec::new()
        },
        Command::Unknown(t) => one_line(unknown_line(t.as_str())),
    };
    proof {
        assert(lines_view(Seq::<String>::empty()) =~~= Seq::<Seq<char>>::empty());
    }
    DispatchOutcome { lines, should_exit: exit, effect }
}

/// Parses one raw input line and dispatches it: one complete
/// classify-and-execute cycle, minus the effect that the caller performs
/// afterwards.
pub fn dispatch_line(input: &str, snap: &Snapshot) -> (r: DispatchOutcome)
    ensures
        lines_view(r.lines@) == spec_dispatch_lines(spec_command(input@), *snap),
        r.should_exit == spec_exit(spec_command(input@)),
        r.should_exit == (spec_trim(input@) == "quit"@ || spec_trim(input@) == "exit"@),
        r.effect == spec_effect(spec_command(input@), *snap),
{
    proof {
        lemma_exit_iff(input@);
    }
    let cmd = parse_command(input);
    dispatch(&cmd, snap)
}

/// The text the caller appends once a requested process refresh came back:
/// success or failure, as the provider reported it, never a full refresh.
pub fn report_refresh_process(pid: u64, ok: bool) -> (l: String)
    ensures
        l@ == spec_refresh_outcome_line(pid, ok),
{
    refresh_outcome_line(pid, ok)
}

/// The text the caller appends once a requested delivery came back: the
/// provider's boolean outcome, the unsupported-platform notice, or a miss
/// when the process disappeared before delivery.
pub fn report_kill(r: &Option<Option<bool>>) -> (l: String)
    ensures
        l@ == spec_kill_outcome_line(*r),
{
    kill_outcome_line(r)
}

/// The session ends exactly on `quit` and `exit`: dispatching an input asks
/// to exit if and only if the trimmed line is one of those two words.
pub proof fn lemma_exit_iff(input: Seq<char>)
    ensures
        spec_exit(spec_command(input)) <==> (spec_trim(input) == "quit"@ || spec_trim(input)
            == "exit"@),
{
    let t = spec_trim(input);
    let toks = crate::text::spec_split(t);
    reveal_strlit("quit");
    reveal_strlit("exit");
    if t == "quit"@ || t == "exit"@ {
        reveal_strlit("help");
        reveal_strlit("signals");
        reveal_strlit("refresh");
        reveal_strlit("refresh_disks");
        reveal_strlit("refresh_users");
        reveal_strlit("cpus");
        reveal_strlit("memory");
        reveal_strlit("frequency");
        reveal_strlit("vendor_id");
        reveal_strlit("brand");
        reveal_strlit("load_avg");
        reveal_strlit("all");
        reveal_strlit("show");
        reveal_strlit("temperature");
        reveal_strlit("disks");
        reveal_strlit("network");
        reveal_strlit("users");
        reveal_strlit("boot_time");
        reveal_strlit("uptime");
        reveal_strlit("pid");
        reveal_strlit("system");
        assert forall|k: int| 0 <= k < t.len() implies t[k] != ' ' by {
            if t == "quit"@ {
                assert(t[k] == "quit"@[k]);
            } else {
                assert(t[k] == "exit"@[k]);
            }
        }
        crate::text::lemma_split_whole(t);
    }
    if spec_exit(spec_command(input)) {
        crate::text::lemma_split_one(t);
    }
}

/// A `kill` whose numeric signal lies outside `[1, 31]` never asks for
/// delivery and writes the range-error message alone.
pub proof fn lemma_kill_range_no_delivery(input: Seq<char>, snap: Snapshot)
    requires
        spec_command(input) is KillRange,
    ensures
        spec_effect(spec_command(input), snap) == Effect::Idle,
        spec_dispatch_lines(spec_command(input), snap) == seq![
            "Signal must be between 0 and 32 ! See the signals list with the signals command"@,
        ],
{
}

/// Whatever the input, a delivery is asked for only with a signal ordinal
/// already validated into `[1, 31]` and a PID present in the snapshot, and
/// every PID handed to the provider fits the platform's PID width.
pub proof fn lemma_delivery_validated(input: Seq<char>, snap: Snapshot)
    ensures
        spec_effect(spec_command(input), snap) matches Effect::Kill(p, s) ==> 1 <= s <= 31
            && spec_has_pid(snap.processes@, p) && p <= crate::text::PID_MAX,
        spec_effect(spec_command(input), snap) matches Effect::RefreshProcess(p) ==> p
            <= crate::text::PID_MAX,
{
    let cmd = spec_command(input);
    let t = spec_trim(input);
    let toks = crate::text::spec_split(t);
    match cmd {
        CmdSpec::Kill(p, s) => {
            if toks.len() > 1 && toks[0] == "kill"@ && toks.len() == 3 {
                let st = toks[2];
                if crate::text::spec_is_digits(st) {
                    crate::text::lemma_digits_val_nonneg(st);
                }
                if st.len() > 1 && (st[0] == '+' || st[0] == '-') && crate::text::spec_is_digits(
                    st.drop_first(),
                ) {
                    crate::text::lemma_digits_val_nonneg(st.drop_first());
                }
            }
        },
        CmdSpec::RefreshPid(p) => {
            crate::command::lemma_first_pid_bounded(toks);
        },
        _ => {},
    }
}

/// `show` with a PID absent from the snapshot writes the not-found message
/// alone and asks for nothing; the snapshot is only read.
pub proof fn lemma_show_missing_pid(p: u64, snap: Snapshot)
    requires
        !spec_has_pid(snap.processes@, p),
    ensures
        spec_dispatch_lines(CmdSpec::ShowPid(p), snap) == seq![spec_pid_not_found_line(p)],
        spec_effect(CmdSpec::ShowPid(p), snap) == Effect::Idle,
{
}

/// `refresh <pid>` asks for exactly the one-process refresh, never the full
/// one, and the reported line follows the provider's boolean result.
pub proof fn lemma_refresh_pid_selective(p: u64, snap: Snapshot, ok: bool)
    ensures
        spec_effect(CmdSpec::RefreshPid(p), snap) == Effect::RefreshProcess(p),
        spec_effect(CmdSpec::RefreshPid(p), snap) != Effect::RefreshAll,
        ok ==> spec_refresh_outcome_line(p, ok) == "Process `"@ + spec_nat_str(p as nat)
            + "` updated successfully"@,
        !ok ==> spec_refresh_outcome_line(p, ok) == "Process `"@ + spec_nat_str(p as nat)
            + "` couldn't be updated..."@,
{
}

/// An unrecognized verb always falls through to the unknown-command message
/// and asks for nothing: the snapshot is never touched.
pub proof fn lemma_unknown_harmless(t: Seq<char>, snap: Snapshot)
    ensures
        spec_dispatch_lines(CmdSpec::Unknown(t), snap) == seq![spec_unknown_line(t)],
        spec_effect(CmdSpec::Unknown(t), snap) == Effect::Idle,
{
}

} // verus!
