//! An interactive inspector of a running machine's state.
//!
//! The heart of the crate is a verified command dispatcher: it parses one
//! command line, consults the signal table and the process resolver, decides
//! which refresh or signal-delivery action the caller must perform, and
//! renders system data into deterministic line-oriented text. The sysinfo
//! provider stays behind trusted wrappers in the driver; everything the
//! dispatcher decides and writes is proved against the spec functions here.

mod command;
mod dispatch;
mod driver;
mod render;
mod signals;
mod snapshot;
mod text;

pub use command::{
    CmdSpec, Command, lemma_first_pid_bounded, parse_command, spec_command, spec_first_pid,
    spec_kill_args, spec_signal_token,
};
pub use dispatch::{
    DispatchOutcome, Effect, dispatch, dispatch_line, lemma_delivery_validated, lemma_exit_iff,
    lemma_kill_range_no_delivery, lemma_refresh_pid_selective, lemma_show_missing_pid,
    lemma_unknown_harmless, report_kill, report_refresh_process, spec_dispatch_lines, spec_effect,
    spec_exit,
};
pub use driver::{build_snapshot, spec_cycle_output, system_info};
pub use render::{
    all_lines, cpus_lines, echo_lines, help_lines, kill_outcome_line, lines_view, load_lines,
    memory_lines, network_lines, pid_not_found_line, refresh_outcome_line, show_name_lines,
    signals_lines, spec_all_line, spec_all_lines, spec_cores_line, spec_cpus_lines,
    spec_help_lines, spec_kill_outcome_line, spec_load_lines, spec_memory_lines, spec_net_line,
    spec_network_lines, spec_pid_not_found_line, spec_refresh_outcome_line, spec_show_name_lines,
    spec_signal_line, spec_signals_lines, spec_system_line, spec_unknown_line, spec_unknown_or,
    spec_uptime_line, system_line, unknown_line, uptime_line,
};
pub use signals::{SignalCode, SignalError, signal_lookup, signal_name};
pub use signals::{spec_signal_name, spec_signal_of, spec_signal_ordinal};
pub use signals::lemma_signal_table_bijective;
pub use snapshot::{
    NetRec, ProcessRec, Snapshot, resolve_by_name, resolve_by_pid, spec_find_pid_idx,
    spec_has_pid, spec_matches_by_name,
};
pub use text::{
    all_digits, digits_val, is_digits, ord2_string, parse_pid, parse_u64, spec_is_digits,
    spec_nat_str, spec_ord2, spec_parse_pid, spec_parse_u64, spec_split, spec_trim, spec_views,
    split_spaces, str_eq, trim_str, u64_to_string, PID_MAX,
};
