//! Single-instance coordination decisions.
//!
//! The daemon holds an exclusive advisory lock on a well-known file that
//! stores the holder's process id.  The file I/O and the signalling live
//! with the caller; the path derivation and the two-phase takeover
//! protocol (signal the old holder, poll for release with a deadline) are
//! decided here.

use vstd::prelude::*;

verus! {

/// How many times the lock is re-tried, half a second apart, after the
/// old holder was signalled.
pub const PREEMPT_POLL_ATTEMPTS: usize = 10;

/// The view of an optional directory string.
pub open spec fn spec_opt_chars(o: Option<String>) -> Option<Seq<char>> {
    match o {
        Some(s) => Some(s@),
        None => Option::None,
    }
}

/// The directory the lock file lives in: the runtime directory when the
/// environment names one, else the temp directory, else `/tmp`.
pub open spec fn spec_lock_dir(runtime_dir: Option<Seq<char>>, tmp_dir: Option<Seq<char>>) -> Seq<
    char,
> {
    if runtime_dir is Some {
        runtime_dir->0
    } else if tmp_dir is Some {
        tmp_dir->0
    } else {
        "/tmp"@
    }
}

/// The full lock file path: the chosen directory, a separator, and the
/// well-known file name.
pub fn lock_file_path(runtime_dir: Option<String>, tmp_dir: Option<String>) -> (r: String)
    ensures
        r@ == spec_lock_dir(spec_opt_chars(runtime_dir), spec_opt_chars(tmp_dir)) + "/"@
            + "logi-mx-daemon.lock"@,
{
    let mut path = match runtime_dir {
        Some(dir) => dir,
        None => match tmp_dir {
            Some(dir) => dir,
            None => String::from_str("/tmp"),
        },
    };
    path.append("/");
    path.append("logi-mx-daemon.lock");
    path
}

/// What startup does about the single-instance lock after the first
/// acquisition attempt.
#[derive(Debug, Clone, Copy, PartialEq, Eq, Structural)]
pub enum LockAction {
    /// The lock is free (or its holder left no readable process id):
    /// write our own process id and go on.
    Proceed,
    /// The lock is already held by this very process: reuse it.
    Reuse,
    /// Another process holds it: signal that process to terminate and
    /// poll for release.
    Preempt(i32),
}

/// The takeover decision: acquired means proceed; held with our own
/// process id stored means reuse; held by another process means preempt
/// it; held with no readable process id means proceed, as the caller's
/// lock layer allows.
pub fn lock_takeover_action(acquired: bool, stored_pid: Option<i32>, own_pid: i32) -> (r:
    LockAction)
    ensures
        acquired ==> r == LockAction::Proceed,
        !acquired && (stored_pid matches Some(pid) && pid == own_pid) ==> r == LockAction::Reuse,
        !acquired && (stored_pid matches Some(pid) && pid != own_pid) ==> r == LockAction::Preempt(
            stored_pid->0,
        ),
        !acquired && stored_pid is None ==> r == LockAction::Proceed,
{
    if acquired {
        LockAction::Proceed
    } else {
        match stored_pid {
            Some(pid) => {
                if pid == own_pid {
                    LockAction::Reuse
                } else {
                    LockAction::Preempt(pid)
                }
            },
            None => LockAction::Proceed,
        }
    }
}

/// Verdict of one poll iteration while waiting for the signalled holder
/// to exit.
#[derive(Debug, Clone, Copy, PartialEq, Eq, Structural)]
pub enum PollVerdict {
    /// The lock was acquired: takeover succeeded.
    Acquired,
    /// Still held; attempts remain: sleep and try again.
    Retry,
    /// Still held at the deadline: a distinct fatal startup failure.
    GiveUp,
}

/// The poll decision for the attempt numbered from zero: success ends the
/// wait; otherwise the deadline expires with the last allowed attempt.
pub fn preempt_poll_verdict(attempt: usize, acquired: bool) -> (r: PollVerdict)
    ensures
        acquired ==> r == PollVerdict::Acquired,
        !acquired && attempt < PREEMPT_POLL_ATTEMPTS - 1 ==> r == PollVerdict::Retry,
        !acquired && attempt >= PREEMPT_POLL_ATTEMPTS - 1 ==> r == PollVerdict::GiveUp,
{
    if acquired {
        PollVerdict::Acquired
    } else if attempt < PREEMPT_POLL_ATTEMPTS - 1 {
        PollVerdict::Retry
    } else {
        PollVerdict::GiveUp
    }
}

} // verus!
