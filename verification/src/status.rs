//! The states of a supervised job and how a helper's exit becomes one of them.

use vstd::prelude::*;
use vstd::string::*;

verus! {

/// Where a job stands. `Running` is the only state that is not terminal.
#[derive(Debug, Clone, Copy, PartialEq, Eq, Structural)]
pub enum CrawlerStatus {
    Running,
    Completed,
    Failed,
    TimedOut,
    Cancelled,
}

impl CrawlerStatus {
    pub open spec fn is_terminal(self) -> bool {
        self != CrawlerStatus::Running
    }

    /// The tag under which the state is reported.
    pub open spec fn name(self) -> Seq<char> {
        match self {
            CrawlerStatus::Running => "running"@,
            CrawlerStatus::Completed => "completed"@,
            CrawlerStatus::Failed => "failed"@,
            CrawlerStatus::TimedOut => "timed_out"@,
            CrawlerStatus::Cancelled => "cancelled"@,
        }
    }

    pub fn is_running(&self) -> (r: bool)
        ensures
            r == !self.is_terminal(),
    {
        match self {
            CrawlerStatus::Running => true,
            _ => false,
        }
    }

    pub fn as_str(&self) -> (r: &'static str)
        ensures
            r@ == self.name(),
    {
        match self {
            CrawlerStatus::Running => "running",
            CrawlerStatus::Completed => "completed",
            CrawlerStatus::Failed => "failed",
            CrawlerStatus::TimedOut => "timed_out",
            CrawlerStatus::Cancelled => "cancelled",
        }
    }

    pub fn to_text(&self) -> (r: String)
        ensures
            r@ == self.name(),
    {
        self.as_str().to_owned()
    }

    /// The phase written into a job's progress record once the job is over.
    /// A job that is somehow still running is reported as failed.
    pub open spec fn final_phase_name(self) -> Seq<char> {
        match self {
            CrawlerStatus::Completed => "completed"@,
            CrawlerStatus::Cancelled => "cancelled"@,
            CrawlerStatus::TimedOut => "timed_out"@,
            _ => "failed"@,
        }
    }

    pub fn final_phase(&self) -> (r: &'static str)
        ensures
            r@ == self.final_phase_name(),
    {
        match self {
            CrawlerStatus::Completed => "completed",
            CrawlerStatus::Cancelled => "cancelled",
            CrawlerStatus::TimedOut => "timed_out",
            _ => "failed",
        }
    }
}

/// Who asked for a job.
#[derive(Debug, Clone, Copy, PartialEq, Eq, Structural)]
pub enum CrawlerTrigger {
    Admin,
    DailyFallback,
}

impl CrawlerTrigger {
    pub open spec fn name(self) -> Seq<char> {
        match self {
            CrawlerTrigger::Admin => "admin"@,
            CrawlerTrigger::DailyFallback => "daily_fallback"@,
        }
    }

    pub fn as_str(&self) -> (r: &'static str)
        ensures
            r@ == self.name(),
    {
        match self {
            CrawlerTrigger::Admin => "admin",
            CrawlerTrigger::DailyFallback => "daily_fallback",
        }
    }

    pub fn to_text(&self) -> (r: String)
        ensures
            r@ == self.name(),
    {
        self.as_str().to_owned()
    }
}

/// How the wait for a helper process ended.
pub enum WaitOutcome {
    /// The process exited; `success` says whether its exit code was zero.
    Exited { success: bool, stdout: Vec<u8>, stderr: Vec<u8> },
    /// Waiting for the process failed.
    WaitFailed,
    /// The time allowed for the job ran out first.
    TimedOut,
}

impl WaitOutcome {
    /// The terminal state that the outcome stands for.
    pub open spec fn status(self) -> CrawlerStatus {
        match self {
            WaitOutcome::Exited { success, .. } => if success {
                CrawlerStatus::Completed
            } else {
                CrawlerStatus::Failed
            },
            WaitOutcome::WaitFailed => CrawlerStatus::Failed,
            WaitOutcome::TimedOut => CrawlerStatus::TimedOut,
        }
    }

    pub fn terminal_status(&self) -> (r: CrawlerStatus)
        ensures
            r == self.status(),
            r.is_terminal(),
    {
        match self {
            WaitOutcome::Exited { success, .. } => if *success {
                CrawlerStatus::Completed
            } else {
                CrawlerStatus::Failed
            },
            WaitOutcome::WaitFailed => CrawlerStatus::Failed,
            WaitOutcome::TimedOut => CrawlerStatus::TimedOut,
        }
    }
}

} // verus!
