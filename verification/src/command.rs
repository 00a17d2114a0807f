//! The command language: one tokenizing parse step turns a raw input line
//! into a tagged command value, and the dispatcher is a pure function over
//! that value. Verbs are case-sensitive and matched exactly; argument lists
//! are split on single spaces after the line is trimmed once.

use vstd::prelude::*;
use vstd::string::{StrSliceExecFns, StringExecFns};
use crate::text::{
    digits_val, is_digits, parse_pid, parse_u64, spec_is_digits, spec_parse_pid, spec_parse_u64,
    spec_split, spec_trim, spec_views, split_spaces, str_eq, trim_str, PID_MAX,
};

verus! {

/// One parsed command, the ghost-level shape of `Command`.
pub enum CmdSpec {
    /// `help`.
    Help,
    /// `signals`.
    Signals,
    /// `refresh`: a full snapshot refresh.
    RefreshAll,
    /// `refresh <pid>` with a parseable PID.
    RefreshPid(u64),
    /// `refresh <..>` where no argument parses as a PID.
    RefreshInvalid,
    /// `refresh_disks`.
    RefreshDisks,
    /// `refresh_users`.
    RefreshUsers,
    /// `cpus`.
    Cpus,
    /// `memory`.
    Memory,
    /// `frequency`.
    Frequency,
    /// `vendor_id`.
    VendorId,
    /// `brand`.
    Brand,
    /// `load_avg`.
    LoadAvg,
    /// `all`.
    All,
    /// `show` without an argument: a usage hint.
    ShowUsage,
    /// `show` with the wrong number of arguments.
    ShowArity,
    /// `show <pid>`.
    ShowPid(u64),
    /// `show <name>`: the argument did not parse as a PID.
    ShowName(Seq<char>),
    /// `temperature`.
    Temperature,
    /// `disks`.
    Disks,
    /// `network`.
    Network,
    /// `users`.
    Users,
    /// `boot_time`.
    BootTime,
    /// `uptime`.
    Uptime,
    /// `pid`.
    PidOfSelf,
    /// `system`.
    System,
    /// `kill` with the wrong number of arguments, or an argument that is
    /// not numeric where a number is required.
    KillUsage,
    /// `kill <pid> <signal>` with a numeric signal outside `[1, 31]`.
    KillRange,
    /// `kill <pid> <signal>` with the signal ordinal in `[1, 31]`.
    Kill(u64, u8),
    /// `quit` or `exit`.
    Quit,
    /// Anything else, carrying the trimmed input.
    Unknown(Seq<char>),
}

/// One parsed command.
pub enum Command {
    /// `help`.
    Help,
    /// `signals`.
    Signals,
    /// `refresh`: a full snapshot refresh.
    RefreshAll,
    /// `refresh <pid>` with a parseable PID.
    RefreshPid(u64),
    /// `refresh <..>` where no argument parses as a PID.
    RefreshInvalid,
    /// `refresh_disks`.
    RefreshDisks,
    /// `refresh_users`.
    RefreshUsers,
    /// `cpus`.
    Cpus,
    /// `memory`.
    Memory,
    /// `frequency`.
    Frequency,
    /// `vendor_id`.
    VendorId,
    /// `brand`.
    Brand,
    /// `load_avg`.
    LoadAvg,
    /// `all`.
    All,
    /// `show` without an argument: a usage hint.
    ShowUsage,
    /// `show` with the wrong number of arguments.
    ShowArity,
    /// `show <pid>`.
    ShowPid(u64),
    /// `show <name>`: the argument did not parse as a PID.
    ShowName(String),
    /// `temperature`.
    Temperature,
    /// `disks`.
    Disks,
    /// `network`.
    Network,
    /// `users`.
    Users,
    /// `boot_time`.
    BootTime,
    /// `uptime`.
    Uptime,
    /// `pid`.
    PidOfSelf,
    /// `system`.
    System,
    /// `kill` with the wrong number of arguments, or an argument that is
    /// not numeric where a number is required.
    KillUsage,
    /// `kill <pid> <signal>` with a numeric signal outside `[1, 31]`.
    KillRange,
    /// `kill <pid> <signal>` with the signal ordinal in `[1, 31]`.
    Kill(u64, u8),
    /// `quit` or `exit`.
    Quit,
    /// Anything else, carrying the trimmed input.
    Unknown(String),
}

impl View for Command {
    type V = CmdSpec;

    open spec fn view(&self) -> CmdSpec {
        match self {
            Command::Help => CmdSpec::Help,
            Command::Signals => CmdSpec::Signals,
            Command::RefreshAll => CmdSpec::RefreshAll,
            Command::RefreshPid(p) => CmdSpec::RefreshPid(*p),
            Command::RefreshInvalid => CmdSpec::RefreshInvalid,
            Command::RefreshDisks => CmdSpec::RefreshDisks,
            Command::RefreshUsers => CmdSpec::RefreshUsers,
            Command::Cpus => CmdSpec::Cpus,
            Command::Memory => CmdSpec::Memory,
            Command::Frequency => CmdSpec::Frequency,
            Command::VendorId => CmdSpec::VendorId,
            Command::Brand => CmdSpec::Brand,
            Command::LoadAvg => CmdSpec::LoadAvg,
            Command::All => CmdSpec::All,
            Command::ShowUsage => CmdSpec::ShowUsage,
            Command::ShowArity => CmdSpec::ShowArity,
            Command::ShowPid(p) => CmdSpec::ShowPid(*p),
            Command::ShowName(s) => CmdSpec::ShowName(s@),
            Command::Temperature => CmdSpec::Temperature,
            Command::Disks => CmdSpec::Disks,
            Command::Network => CmdSpec::Network,
            Command::Users => CmdSpec::Users,
            Command::BootTime => CmdSpec::BootTime,
            Command::Uptime => CmdSpec::Uptime,
            Command::PidOfSelf => CmdSpec::PidOfSelf,
            Command::System => CmdSpec::System,
            Command::KillUsage => CmdSpec::KillUsage,
            Command::KillRange => CmdSpec::KillRange,
            Command::Kill(p, s) => CmdSpec::Kill(*p, *s),
            Command::Quit => CmdSpec::Quit,
            Command::Unknown(s) => CmdSpec::Unknown(s@),
        }
    }
}

/// What the `kill` signal token means on its own: a signal ordinal of the
/// table (carried in a `Kill` whose PID is a placeholder zero until the pid
/// token supplies it), a numeric value outside `[1, 31]` (a minus sign
/// included), or no number at all. The token may carry one leading sign
/// before its digits.
pub open spec fn spec_signal_token(st: Seq<char>) -> CmdSpec {
    if st.len() > 1 && (st[0] == '+' || st[0] == '-') {
        if spec_is_digits(st.drop_first()) {
            if st[0] == '+' && 1 <= digits_val(st.drop_first()) && digits_val(st.drop_first())
                <= 31 {
                CmdSpec::Kill(0, digits_val(st.drop_first()) as u8)
            } else {
                CmdSpec::KillRange
            }
        } else {
            CmdSpec::KillUsage
        }
    } else if spec_is_digits(st) {
        if 1 <= digits_val(st) && digits_val(st) <= 31 {
            CmdSpec::Kill(0, digits_val(st) as u8)
        } else {
            CmdSpec::KillRange
        }
    } else {
        CmdSpec::KillUsage
    }
}

/// What `kill <pid> <signal>` means for given argument tokens: a usage hint
/// when either number is missing, the range error when the signal is numeric
/// but not an ordinal of the table, and a delivery request otherwise.
pub open spec fn spec_kill_args(pt: Seq<char>, st: Seq<char>) -> CmdSpec {
    match spec_parse_pid(pt) {
        Some(pid) => match spec_signal_token(st) {
            CmdSpec::Kill(z, s) => CmdSpec::Kill(pid, s),
            other => other,
        },
        None => CmdSpec::KillUsage,
    }
}

/// The first token that parses as a PID, scanning the whole token list.
pub open spec fn spec_first_pid(toks: Seq<Seq<char>>) -> Option<u64>
    decreases toks.len(),
{
    if toks.len() == 0 {
        None
    } else {
        match spec_parse_pid(toks[0]) {
            Some(v) => Some(v),
            None => spec_first_pid(toks.drop_first()),
        }
    }
}

/// A scanned PID always fits the platform's PID width.
pub proof fn lemma_first_pid_bounded(toks: Seq<Seq<char>>)
    ensures
        spec_first_pid(toks) matches Some(v) ==> v <= PID_MAX,
    decreases toks.len(),
{
    if toks.len() > 0 {
        lemma_first_pid_bounded(toks.drop_first());
    }
}

/// The command a raw input line denotes: the line is trimmed once, split on
/// single spaces, and classified by its first token.
pub open spec fn spec_command(input: Seq<char>) -> CmdSpec {
    let t = spec_trim(input);
    let toks = spec_split(t);
    if toks.len() == 1 {
        let v = toks[0];
        if v == "help"@ {
            CmdSpec::Help
        } else if v == "signals"@ {
            CmdSpec::Signals
        } else if v == "refresh"@ {
            CmdSpec::RefreshAll
        } else if v == "refresh_disks"@ {
            CmdSpec::RefreshDisks
        } else if v == "refresh_users"@ {
            CmdSpec::RefreshUsers
        } else if v == "cpus"@ {
            CmdSpec::Cpus
        } else if v == "memory"@ {
            CmdSpec::Memory
        } else if v == "frequency"@ {
            CmdSpec::Frequency
        } else if v == "vendor_id"@ {
            CmdSpec::VendorId
        } else if v == "brand"@ {
            CmdSpec::Brand
        } else if v == "load_avg"@ {
            CmdSpec::LoadAvg
        } else if v == "all"@ {
            CmdSpec::All
        } else if v == "show"@ {
            CmdSpec::ShowUsage
        } else if v == "temperature"@ {
            CmdSpec::Temperature
        } else if v == "disks"@ {
            CmdSpec::Disks
        } else if v == "network"@ {
            CmdSpec::Network
        } else if v == "users"@ {
            CmdSpec::Users
        } else if v == "boot_time"@ {
            CmdSpec::BootTime
        } else if v == "uptime"@ {
            CmdSpec::Uptime
        } else if v == "pid"@ {
            CmdSpec::PidOfSelf
        } else if v == "system"@ {
            CmdSpec::System
        } else if v == "quit"@ || v == "exit"@ {
            CmdSpec::Quit
        } else {
            CmdSpec::Unknown(t)
        }
    } else {
        let v = toks[0];
        if v == "show"@ {
            if toks.len() != 2 {
                CmdSpec::ShowArity
            } else {
                match spec_parse_pid(toks[1]) {
                    Some(p) => CmdSpec::ShowPid(p),
                    None => CmdSpec::ShowName(toks[1]),
                }
            }
        } else if v == "kill"@ {
            if toks.len() != 3 {
                CmdSpec::KillUsage
            } else {
                spec_kill_args(toks[1], toks[2])
            }
        } else if v == "refresh"@ {
            match spec_first_pid(toks) {
                Some(p) => CmdSpec::RefreshPid(p),
                None => CmdSpec::RefreshInvalid,
            }
        } else {
            CmdSpec::Unknown(t)
        }
    }
}

proof fn lemma_first_pid_skip(toks: Seq<Seq<char>>, i: int)
    requires
        0 <= i <= toks.len(),
        forall|k: int| 0 <= k < i ==> spec_parse_pid(toks[k]) is None,
    ensures
        spec_first_pid(toks) == spec_first_pid(toks.skip(i)),
    decreases i,
{
    if i == 0 {
        assert(toks.skip(0) =~~= toks);
    } else {
        lemma_first_pid_skip(toks, i - 1);
        assert(toks.skip(i - 1).len() > 0);
        assert(toks.skip(i - 1)[0] == toks[i - 1]);
        assert(toks.skip(i - 1).drop_first() =~~= toks.skip(i));
    }
}

/// Scans the tokens for the first one that parses as a PID.
fn first_pid(toks: &Vec<&str>) -> (r: Option<u64>)
    ensures
        r == spec_first_pid(spec_views(toks@)),
{
    let ghost gt = spec_views(toks@);
    let n = toks.len();
    let mut i: usize = 0;
    while i < n
        invariant
            0 <= i <= n,
            n == toks@.len(),
            gt == spec_views(toks@),
            forall|k: int| 0 <= k < i ==> spec_parse_pid(gt[k]) is None,
        decreases n - i,
    {
        let p = parse_pid(toks[i]);
        if p.is_some() {
            proof {
                lemma_first_pid_skip(gt, i as int);
                assert(gt.skip(i as int)[0] == gt[i as int]);
            }
            return p;
        }
        i = i + 1;
    }
    proof {
        lemma_first_pid_skip(gt, n as int);
        assert(gt.skip(n as int).len() == 0);
    }
    None
}

/// Classifies a nonempty digit string against the ordinal range `[1, 31]`.
fn digits_in_range(d: &str) -> (c: Command)
    requires
        spec_is_digits(d@),
    ensures
        1 <= digits_val(d@) && digits_val(d@) <= 31 ==> c == Command::Kill(
            0,
            digits_val(d@) as u8,
        ),
        !(1 <= digits_val(d@) && digits_val(d@) <= 31) ==> c == Command::KillRange,
{
    proof {
        crate::text::lemma_digits_val_nonneg(d@);
    }
    match parse_u64(d) {
        Some(v) => {
            if 1 <= v && v <= 31 {
                Command::Kill(0, v as u8)
            } else {
                Command::KillRange
            }
        },
        None => {
            // all digits but the value exceeds `u64`: far above 31
            Command::KillRange
        },
    }
}

/// Classifies the `kill` signal token.
fn signal_token(st: &str) -> (c: Command)
    ensures
        c@ == spec_signal_token(st@),
{
    let n = st.unicode_len();
    if n > 1 && (st.get_char(0) == '+' || st.get_char(0) == '-') {
        let rest = st.substring_char(1, n);
        proof {
            assert(rest@ =~= st@.drop_first());
        }
        if is_digits(rest) {
            if st.get_char(0) == '+' {
                digits_in_range(rest)
            } else {
                Command::KillRange
            }
        } else {
            Command::KillUsage
        }
    } else if is_digits(st) {
        digits_in_range(st)
    } else {
        Command::KillUsage
    }
}

/// Classifies the two `kill` argument tokens.
fn kill_args(pt: &str, st: &str) -> (c: Command)
    ensures
        c@ == spec_kill_args(pt@, st@),
{
    match parse_pid(pt) {
        Some(pid) => {
            match signal_token(st) {
                Command::Kill(_, s) => Command::Kill(pid, s),
                other => other,
            }
        },
        None => Command::KillUsage,
    }
}

/// Parses one raw input line into its command.
pub fn parse_command(input: &str) -> (c: Command)
    ensures
        c@ == spec_command(input@),
{
    let t = trim_str(input);
    let toks = split_spaces(t);
    let ghost gtoks = spec_split(t@);
    proof {
        assert(gtoks == spec_views(toks@));
        assert(gtoks[0] == toks@[0]@);
    }
    let v: &str = toks[0];
    if toks.len() == 1 {
        if str_eq(v, "help") {
            Command::Help
        } else if str_eq(v, "signals") {
            Command::Signals
        } else if str_eq(v, "refresh") {
            Command::RefreshAll
        } else if str_eq(v, "refresh_disks") {
            Command::RefreshDisks
        } else if str_eq(v, "refresh_users") {
            Command::RefreshUsers
        } else if str_eq(v, "cpus") {
            Command::Cpus
        } else if str_eq(v, "memory") {
            Command::Memory
        } else if str_eq(v, "frequency") {
            Command::Frequency
        } else if str_eq(v, "vendor_id") {
            Command::VendorId
        } else if str_eq(v, "brand") {
            Command::Brand
        } else if str_eq(v, "load_avg") {
            Command::LoadAvg
        } else if str_eq(v, "all") {
            Command::All
        } else if str_eq(v, "show") {
            Command::ShowUsage
        } else if str_eq(v, "temperature") {
            Command::Temperature
        } else if str_eq(v, "disks") {
            Command::Disks
        } else if str_eq(v, "network") {
            Command::Network
        } else if str_eq(v, "users") {
            Command::Users
        } else if str_eq(v, "boot_time") {
            Command::BootTime
        } else if str_eq(v, "uptime") {
            Command::Uptime
        } else if str_eq(v, "pid") {
            Command::PidOfSelf
        } else if str_eq(v, "system") {
            Command::System
        } else if str_eq(v, "quit") || str_eq(v, "exit") {
            Command::Quit
        } else {
            Command::Unknown(String::from_str(t))
        }
    } else {
        proof {
            assert(gtoks[1] == toks@[1]@);
        }
        if str_eq(v, "show") {
            if toks.len() != 2 {
                Command::ShowArity
            } else {
                match parse_pid(toks[1]) {
                    Some(p) => Command::ShowPid(p),
                    None => Command::ShowName(String::from_str(toks[1])),
                }
            }
        } else if str_eq(v, "kill") {
            if toks.len() != 3 {
                Command::KillUsage
            } else {
                proof {
                    assert(gtoks[2] == toks@[2]@);
                }
                kill_args(toks[1], toks[2])
            }
        } else if str_eq(v, "refresh") {
            match first_pid(&toks) {
                Some(p) => Command::RefreshPid(p),
                None => Command::RefreshInvalid,
            }
        } else {
            Command::Unknown(String::from_str(t))
        }
    }
}

} // verus!
