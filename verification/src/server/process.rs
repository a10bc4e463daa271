//! App process supervision: command splitting and the restart policy.
use vstd::prelude::*;
use crate::text::{chars_of, split_whitespace, string_from_chars, words};

verus! {

/// Splits a run command into a program and its arguments at white space.
/// An empty or blank command gives an empty program and no arguments.
pub fn parse_shell_command(command: &str) -> (r: (String, Vec<String>))
    ensures
        words(command@).len() == 0 ==> r.0@ == Seq::<char>::empty() && r.1@.len() == 0,
        words(command@).len() > 0 ==> r.0@ == words(command@)[0] && r.1.deep_view()
            == words(command@).drop_first(),
{
    let v = chars_of(command);
    let mut parts = split_whitespace(v.as_slice());
    if parts.len() == 0 {
        let empty: Vec<char> = Vec::new();
        return (string_from_chars(empty.as_slice()), Vec::new());
    }
    let ghost all = parts.deep_view();
    let program = parts.remove(0);
    assert(parts.deep_view() =~= all.drop_first());
    (program, parts)
}

/// The most restarts a crashing service gets before it is marked crashed.
pub const MAX_RESTARTS: u32 = 5;

/// The longest wait between two restarts, in seconds.
pub const MAX_RESTART_DELAY_SECS: u64 = 60;

/// What the supervisor does when an app process exits.
#[derive(Debug, Clone, PartialEq, Eq, Structural)]
pub enum ExitAction {
    /// The process was already removed (stopped on purpose): do nothing.
    Ignore,
    /// A job finished: record this status (`"stopped"` or `"failed"`).
    MarkJob { succeeded: bool },
    /// A service exited cleanly: leave its status as it is.
    Leave,
    /// A service crashed too often: mark it `"crashed"`.
    GiveUp,
    /// Wait `delay_secs`, then start restart number `restart_count`.
    Restart { delay_secs: u64, restart_count: u32 },
}

/// The wait before restart number `n + 1`: `2^n` seconds (1 s, 2 s, 4 s,
/// ...), capped at `MAX_RESTART_DELAY_SECS`.
pub open spec fn backoff_secs(n: nat) -> nat {
    if n >= 6 {
        60
    } else {
        let p = vstd::arithmetic::power2::pow2(n);
        if p < 60 {
            p
        } else {
            60
        }
    }
}

/// The decision taken when a process exits: `still_tracked` is whether the
/// supervisor still held its handle (a stop removes it first), `is_service`
/// whether it should be kept running, `exit_ok` whether it exited
/// successfully, and `restart_count` how often it was restarted already.
pub open spec fn exit_action(
    still_tracked: bool,
    is_service: bool,
    exit_ok: bool,
    restart_count: nat,
) -> ExitAction {
    if !still_tracked {
        ExitAction::Ignore
    } else if is_service && !exit_ok {
        if restart_count + 1 > 5 {
            ExitAction::GiveUp
        } else {
            ExitAction::Restart {
                delay_secs: backoff_secs(restart_count) as u64,
                restart_count: (restart_count + 1) as u32,
            }
        }
    } else if !is_service {
        ExitAction::MarkJob { succeeded: exit_ok }
    } else {
        ExitAction::Leave
    }
}

fn backoff_exec(n: u32) -> (d: u64)
    requires
        n <= 5,
    ensures
        d == backoff_secs(n as nat),
{
    proof {
        vstd::arithmetic::power2::lemma2_to64();
    }
    let mut p: u64 = 1;
    let mut i: u32 = 0;
    while i < n
        invariant
            i <= n <= 5,
            p == vstd::arithmetic::power2::pow2(i as nat),
        decreases n - i,
    {
        proof {
            vstd::arithmetic::power2::lemma2_to64();
        }
        p = p * 2;
        i = i + 1;
    }
    if p < 60 {
        p
    } else {
        60
    }
}

/// Decides what to do when an app process exits.
pub fn on_exit(still_tracked: bool, is_service: bool, exit_ok: bool, restart_count: u32) -> (a:
    ExitAction)
    ensures
        a == exit_action(still_tracked, is_service, exit_ok, restart_count as nat),
{
    if !still_tracked {
        ExitAction::Ignore
    } else if is_service && !exit_ok {
        if restart_count >= MAX_RESTARTS {
            ExitAction::GiveUp
        } else {
            let rc = restart_count + 1;
            ExitAction::Restart { delay_secs: backoff_exec(restart_count), restart_count: rc }
        }
    } else if !is_service {
        ExitAction::MarkJob { succeeded: exit_ok }
    } else {
        ExitAction::Leave
    }
}

/// The status text recorded for a finished job.
pub fn job_status(succeeded: bool) -> (s: &'static str)
    ensures
        s@ == (if succeeded { "stopped"@ } else { "failed"@ }),
{
    if succeeded {
        "stopped"
    } else {
        "failed"
    }
}

/// Whether an app with this type text is supervised as a service.
pub fn is_service_type(app_type: &str) -> (b: bool)
    ensures
        b == (app_type@ == "service"@),
{
    let v = chars_of(app_type);
    crate::text::is_literal(v.as_slice(), "service")
}

/// A crashing service is restarted at most five times, each time after a
/// wait that doubles from 1 second and never exceeds a minute; the sixth
/// consecutive crash gives up. A service that exits cleanly is left alone,
/// a job's exit is recorded as it went, and a process stopped on purpose
/// is ignored.
pub proof fn law_restart_policy_is_bounded(restart_count: nat)
    ensures
        restart_count >= 5 ==> exit_action(true, true, false, restart_count)
            == ExitAction::GiveUp,
        restart_count < 5 ==> (exit_action(true, true, false, restart_count) matches
            ExitAction::Restart { delay_secs, restart_count: next } && next == restart_count + 1
            && delay_secs == backoff_secs(restart_count) && 1 <= delay_secs <= 60),
        exit_action(true, true, false, 0) == (ExitAction::Restart { delay_secs: 1, restart_count: 1 }),
        forall|n: nat| n < 5 ==> #[trigger] backoff_secs(n + 1) == if 2 * backoff_secs(n) < 60 {
            2 * backoff_secs(n)
        } else {
            60
        },
        exit_action(true, true, true, restart_count) == ExitAction::Leave,
        exit_action(false, true, false, restart_count) == ExitAction::Ignore,
        forall|svc: bool, ok: bool| #[trigger] exit_action(false, svc, ok, restart_count)
            == ExitAction::Ignore,
        forall|ok: bool| #[trigger] exit_action(true, false, ok, restart_count) == (ExitAction::MarkJob {
            succeeded: ok,
        }),
{
    vstd::arithmetic::power2::lemma2_to64();
}

} // verus!
