//! The signal table: a fixed catalog mapping the ordinals 1 through 31 to
//! symbolic signal identities, built once and never mutated.

use vstd::prelude::*;
use vstd::string::StringExecFns;

verus! {

/// A symbolic signal identity, ordered as the table orders them:
/// ordinal 1 is `Hangup`, ordinal 31 is `Sys`.
#[derive(Clone, Copy, Debug, PartialEq, Eq, Structural)]
pub enum SignalCode {
    Hangup,
    Interrupt,
    Quit,
    Illegal,
    Trap,
    Abort,
    Bus,
    FloatingPointException,
    Kill,
    User1,
    Segv,
    User2,
    Pipe,
    Alarm,
    Term,
    Child,
    Continue,
    Stop,
    TSTP,
    TTIN,
    TTOU,
    Urgent,
    XCPU,
    XFSZ,
    VirtualAlarm,
    Profiling,
    Winch,
    IO,
    Poll,
    Power,
    Sys,
}

/// Why a signal lookup failed.
#[derive(Clone, Copy, Debug, PartialEq, Eq, Structural)]
pub enum SignalError {
    /// The ordinal lies outside the closed range `[1, 31]`.
    OutOfRange,
}

/// The identity at ordinal `n` of the table, for `1 <= n <= 31`.
pub open spec fn spec_signal_of(n: int) -> SignalCode {
    if n == 1 {
        SignalCode::Hangup
    } else if n == 2 {
        SignalCode::Interrupt
    } else if n == 3 {
        SignalCode::Quit
    } else if n == 4 {
        SignalCode::Illegal
    } else if n == 5 {
        SignalCode::Trap
    } else if n == 6 {
        SignalCode::Abort
    } else if n == 7 {
        SignalCode::Bus
    } else if n == 8 {
        SignalCode::FloatingPointException
    } else if n == 9 {
        SignalCode::Kill
    } else if n == 10 {
        SignalCode::User1
    } else if n == 11 {
        SignalCode::Segv
    } else if n == 12 {
        SignalCode::User2
    } else if n == 13 {
        SignalCode::Pipe
    } else if n == 14 {
        SignalCode::Alarm
    } else if n == 15 {
        SignalCode::Term
    } else if n == 16 {
        SignalCode::Child
    } else if n == 17 {
        SignalCode::Continue
    } else if n == 18 {
        SignalCode::Stop
    } else if n == 19 {
        SignalCode::TSTP
    } else if n == 20 {
        SignalCode::TTIN
    } else if n == 21 {
        SignalCode::TTOU
    } else if n == 22 {
        SignalCode::Urgent
    } else if n == 23 {
        SignalCode::XCPU
    } else if n == 24 {
        SignalCode::XFSZ
    } else if n == 25 {
        SignalCode::VirtualAlarm
    } else if n == 26 {
        SignalCode::Profiling
    } else if n == 27 {
        SignalCode::Winch
    } else if n == 28 {
        SignalCode::IO
    } else if n == 29 {
        SignalCode::Poll
    } else if n == 30 {
        SignalCode::Power
    } else {
        SignalCode::Sys
    }
}

/// The ordinal of an identity: the inverse of `spec_signal_of` on `[1, 31]`.
pub open spec fn spec_signal_ordinal(s: SignalCode) -> int {
    match s {
        SignalCode::Hangup => 1,
        SignalCode::Interrupt => 2,
        SignalCode::Quit => 3,
        SignalCode::Illegal => 4,
        SignalCode::Trap => 5,
        SignalCode::Abort => 6,
        SignalCode::Bus => 7,
        SignalCode::FloatingPointException => 8,
        SignalCode::Kill => 9,
        SignalCode::User1 => 10,
        SignalCode::Segv => 11,
        SignalCode::User2 => 12,
        SignalCode::Pipe => 13,
        SignalCode::Alarm => 14,
        SignalCode::Term => 15,
        SignalCode::Child => 16,
        SignalCode::Continue => 17,
        SignalCode::Stop => 18,
        SignalCode::TSTP => 19,
        SignalCode::TTIN => 20,
        SignalCode::TTOU => 21,
        SignalCode::Urgent => 22,
        SignalCode::XCPU => 23,
        SignalCode::XFSZ => 24,
        SignalCode::VirtualAlarm => 25,
        SignalCode::Profiling => 26,
        SignalCode::Winch => 27,
        SignalCode::IO => 28,
        SignalCode::Poll => 29,
        SignalCode::Power => 30,
        SignalCode::Sys => 31,
    }
}

/// The name under which an identity is listed, exactly as the `signals`
/// command prints it.
pub open spec fn spec_signal_name(s: SignalCode) -> Seq<char> {
    match s {
        SignalCode::Hangup => "Hangup"@,
        SignalCode::Interrupt => "Interrupt"@,
        SignalCode::Quit => "Quit"@,
        SignalCode::Illegal => "Illegal"@,
        SignalCode::Trap => "Trap"@,
        SignalCode::Abort => "Abort"@,
        SignalCode::Bus => "Bus"@,
        SignalCode::FloatingPointException => "FloatingPointException"@,
        SignalCode::Kill => "Kill"@,
        SignalCode::User1 => "User1"@,
        SignalCode::Segv => "Segv"@,
        SignalCode::User2 => "User2"@,
        SignalCode::Pipe => "Pipe"@,
        SignalCode::Alarm => "Alarm"@,
        SignalCode::Term => "Term"@,
        SignalCode::Child => "Child"@,
        SignalCode::Continue => "Continue"@,
        SignalCode::Stop => "Stop"@,
        SignalCode::TSTP => "TSTP"@,
        SignalCode::TTIN => "TTIN"@,
        SignalCode::TTOU => "TTOU"@,
        SignalCode::Urgent => "Urgent"@,
        SignalCode::XCPU => "XCPU"@,
        SignalCode::XFSZ => "XFSZ"@,
        SignalCode::VirtualAlarm => "VirtualAlarm"@,
        SignalCode::Profiling => "Profiling"@,
        SignalCode::Winch => "Winch"@,
        SignalCode::IO => "IO"@,
        SignalCode::Poll => "Poll"@,
        SignalCode::Power => "Power"@,
        SignalCode::Sys => "Sys"@,
    }
}

/// Looks an ordinal up in the table: the identity at position `n - 1` for
/// `n` in `[1, 31]`, and `OutOfRange` for every other ordinal.
pub fn signal_lookup(n: u64) -> (r: Result<SignalCode, SignalError>)
    ensures
        1 <= n <= 31 ==> r == Ok::<SignalCode, SignalError>(spec_signal_of(n as int)),
        !(1 <= n <= 31) ==> r == Err::<SignalCode, SignalError>(SignalError::OutOfRange),
{
    if n < 1 || n > 31 {
        return Err(SignalError::OutOfRange);
    }
    let code = if n == 1 {
        SignalCode::Hangup
    } else if n == 2 {
        SignalCode::Interrupt
    } else if n == 3 {
        SignalCode::Quit
    } else if n == 4 {
        SignalCode::Illegal
    } else if n == 5 {
        SignalCode::Trap
    } else if n == 6 {
        SignalCode::Abort
    } else if n == 7 {
        SignalCode::Bus
    } else if n == 8 {
        SignalCode::FloatingPointException
    } else if n == 9 {
        SignalCode::Kill
    } else if n == 10 {
        SignalCode::User1
    } else if n == 11 {
        SignalCode::Segv
    } else if n == 12 {
        SignalCode::User2
    } else if n == 13 {
        SignalCode::Pipe
    } else if n == 14 {
        SignalCode::Alarm
    } else if n == 15 {
        SignalCode::Term
    } else if n == 16 {
        SignalCode::Child
    } else if n == 17 {
        SignalCode::Continue
    } else if n == 18 {
        SignalCode::Stop
    } else if n == 19 {
        SignalCode::TSTP
    } else if n == 20 {
        SignalCode::TTIN
    } else if n == 21 {
        SignalCode::TTOU
    } else if n == 22 {
        SignalCode::Urgent
    } else if n == 23 {
        SignalCode::XCPU
    } else if n == 24 {
        SignalCode::XFSZ
    } else if n == 25 {
        SignalCode::VirtualAlarm
    } else if n == 26 {
        SignalCode::Profiling
    } else if n == 27 {
        SignalCode::Winch
    } else if n == 28 {
        SignalCode::IO
    } else if n == 29 {
        SignalCode::Poll
    } else if n == 30 {
        SignalCode::Power
    } else {
        SignalCode::Sys
    };
    Ok(code)
}

/// The name of an identity, exactly as the `signals` command prints it.
pub fn signal_name(s: &SignalCode) -> (r: String)
    ensures
        r@ == spec_signal_name(*s),
{
    let lit = match s {
        SignalCode::Hangup => "Hangup",
        SignalCode::Interrupt => "Interrupt",
        SignalCode::Quit => "Quit",
        SignalCode::Illegal => "Illegal",
        SignalCode::Trap => "Trap",
        SignalCode::Abort => "Abort",
        SignalCode::Bus => "Bus",
        SignalCode::FloatingPointException => "FloatingPointException",
        SignalCode::Kill => "Kill",
        SignalCode::User1 => "User1",
        SignalCode::Segv => "Segv",
        SignalCode::User2 => "User2",
        SignalCode::Pipe => "Pipe",
        SignalCode::Alarm => "Alarm",
        SignalCode::Term => "Term",
        SignalCode::Child => "Child",
        SignalCode::Continue => "Continue",
        SignalCode::Stop => "Stop",
        SignalCode::TSTP => "TSTP",
        SignalCode::TTIN => "TTIN",
        SignalCode::TTOU => "TTOU",
        SignalCode::Urgent => "Urgent",
        SignalCode::XCPU => "XCPU",
        SignalCode::XFSZ => "XFSZ",
        SignalCode::VirtualAlarm => "VirtualAlarm",
        SignalCode::Profiling => "Profiling",
        SignalCode::Winch => "Winch",
        SignalCode::IO => "IO",
        SignalCode::Poll => "Poll",
        SignalCode::Power => "Power",
        SignalCode::Sys => "Sys",
    };
    String::from_str(lit)
}

/// The table is a bijection between the ordinals `[1, 31]` and the 31
/// identities: each ordinal names one identity, distinct ordinals name
/// distinct identities, and the ordinal of an identity leads back to it.
pub proof fn lemma_signal_table_bijective(m: int, n: int)
    requires
        1 <= m <= 31,
        1 <= n <= 31,
    ensures
        spec_signal_ordinal(spec_signal_of(m)) == m,
        m != n ==> spec_signal_of(m) != spec_signal_of(n),
{
}

} // verus!
