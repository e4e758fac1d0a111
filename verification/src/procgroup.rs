//! Signalling the process group of a helper: whom to signal, and what the attempt meant.

use vstd::prelude::*;

verus! {

/// The target of the signal that ends the process group led by `pid`: the negated
/// pid. The pids 0 and 1 are refused, for a signal to them would reach the caller's
/// own group or every process; so is a pid that has no negation in 32 bits.
pub open spec fn group_target(pid: u32) -> Option<i32> {
    if 1 < pid <= i32::MAX {
        Some((-(pid as int)) as i32)
    } else {
        None
    }
}

/// Works out whom to signal in order to end the process group led by `pid`.
pub fn kill_target(pid: u32) -> (r: Option<i32>)
    ensures
        r == group_target(pid),
        r matches Some(t) ==> t < -1,
{
    if pid <= 1 || pid > 0x7FFF_FFFF {
        None
    } else {
        Some(-(pid as i32))
    }
}

/// What an attempt to signal a process group came to.
#[derive(Debug, Clone, Copy, PartialEq, Eq, Structural)]
pub enum KillOutcome {
    /// The signal was sent.
    Sent,
    /// The group had gone already. This is no error.
    AlreadyGone,
    /// The signal could not be sent for another reason.
    Failed,
}

pub open spec fn kill_outcome_of(ret: i32, no_such_process: bool) -> KillOutcome {
    if ret != -1 {
        KillOutcome::Sent
    } else if no_such_process {
        KillOutcome::AlreadyGone
    } else {
        KillOutcome::Failed
    }
}

/// Reads the result of the system call that sends the signal: `ret` is what the call
/// returned, `no_such_process` whether the system reported that the target is gone.
pub fn kill_outcome(ret: i32, no_such_process: bool) -> (r: KillOutcome)
    ensures
        r == kill_outcome_of(ret, no_such_process),
{
    if ret != -1 {
        KillOutcome::Sent
    } else if no_such_process {
        KillOutcome::AlreadyGone
    } else {
        KillOutcome::Failed
    }
}

impl KillOutcome {
    /// Whether the signal went out.
    pub fn delivered(&self) -> (r: bool)
        ensures
            r == (*self == KillOutcome::Sent),
    {
        match self {
            KillOutcome::Sent => true,
            _ => false,
        }
    }
}

} // verus!
