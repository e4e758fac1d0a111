//! The job slot: at most one running job, and a bounded record of the jobs that ended.
//!
//! A slot is a small state machine. Its states are [`SlotView`] values, its steps are the
//! functions of `SlotView`, and each operation of [`JobSlot`] performs exactly one step.

use vstd::prelude::*;
use vstd::string::*;
use std::collections::VecDeque;
use crate::job::{JobView, SupervisedJob};
use crate::status::{CrawlerStatus, WaitOutcome};
use crate::text::opt_text;

verus! {

/// How many ended jobs a slot remembers.
pub const HISTORY_CAPACITY: usize = 50;

/// The state of a slot.
pub struct SlotView {
    /// The job claimed last, running or ended.
    pub current: Option<JobView>,
    /// The archived jobs, oldest first.
    pub history: Seq<JobView>,
    /// The process of the running job, while the cancel path may still signal it.
    pub active_pid: Option<u32>,
}

/// What can happen to a slot.
pub enum SlotEvent {
    /// A new job asks for the slot.
    Claim { job: JobView },
    /// The helper of the claimed job could not be started.
    SpawnFailed { now: Seq<char> },
    /// The helper of the claimed job runs as the given process.
    Spawned { pid: u32 },
    /// The wait for the helper ended.
    Finished { outcome: WaitOutcome, now: Seq<char> },
    /// An operator asks to cancel the running job.
    Cancel { now: Seq<char> },
}

impl SlotView {
    pub open spec fn empty() -> SlotView {
        SlotView { current: None, history: Seq::empty(), active_pid: None }
    }

    /// The history is bounded and holds ended jobs only.
    pub open spec fn wf(self) -> bool {
        &&& self.history.len() <= HISTORY_CAPACITY
        &&& forall|i: int|
            0 <= i < self.history.len() ==> (#[trigger] self.history[i]).status.is_terminal()
    }

    pub open spec fn is_running(self) -> bool {
        self.current matches Some(j) && j.status == CrawlerStatus::Running
    }

    /// The jobs of the slot, current or archived, that are running.
    pub open spec fn running_jobs(self) -> Set<JobView> {
        Set::new(
            |j: JobView|
                (self.current == Some(j) || self.history.contains(j)) && j.status
                    == CrawlerStatus::Running,
        )
    }

    /// The history after one more job is archived: the oldest entry leaves when the
    /// history is full, and the new entry comes last.
    pub open spec fn archive(history: Seq<JobView>, job: JobView) -> Seq<JobView> {
        if history.len() >= HISTORY_CAPACITY {
            history.skip(1).push(job)
        } else {
            history.push(job)
        }
    }

    /// A claim installs the job unless a job is running.
    pub open spec fn claimed(self, job: JobView) -> SlotView {
        if self.is_running() {
            self
        } else {
            SlotView { current: Some(job), ..self }
        }
    }

    /// A failed start marks the claimed job as failed and archives it.
    pub open spec fn spawn_failed(self, now: Seq<char>) -> SlotView {
        match self.current {
            Some(j) => {
                let ended = j.closed(CrawlerStatus::Failed, now);
                SlotView {
                    current: Some(ended),
                    history: Self::archive(self.history, ended),
                    ..self
                }
            },
            None => self,
        }
    }

    pub open spec fn spawned(self, pid: u32) -> SlotView {
        SlotView { active_pid: Some(pid), ..self }
    }

    /// The job as the end of the wait leaves it: a running job takes the state of the
    /// outcome, the time, and the output if the helper exited; any other job stays as it is.
    pub open spec fn settled(job: JobView, outcome: WaitOutcome, now: Seq<char>) -> JobView {
        if job.status == CrawlerStatus::Running {
            let ended = job.closed(outcome.status(), now);
            match outcome {
                WaitOutcome::Exited { stdout, stderr, .. } => ended.with_output(stdout@, stderr@),
                _ => ended,
            }
        } else {
            job
        }
    }

    /// The end of the wait forgets the process, settles the current job and archives it.
    pub open spec fn finished(self, outcome: WaitOutcome, now: Seq<char>) -> SlotView {
        match self.current {
            Some(j) => {
                let ended = Self::settled(j, outcome, now);
                SlotView {
                    current: Some(ended),
                    history: Self::archive(self.history, ended),
                    active_pid: None,
                }
            },
            None => SlotView { active_pid: None, ..self },
        }
    }

    /// A cancel takes the process and marks the running job as cancelled. It does not
    /// archive. Nothing changes when no job is running.
    pub open spec fn cancelled(self, now: Seq<char>) -> SlotView {
        match self.current {
            Some(j) if j.status == CrawlerStatus::Running => SlotView {
                current: Some(j.closed(CrawlerStatus::Cancelled, now)),
                active_pid: None,
                ..self
            },
            _ => self,
        }
    }

    /// The state after an event.
    pub open spec fn step(self, ev: SlotEvent) -> SlotView {
        match ev {
            SlotEvent::Claim { job } => self.claimed(job),
            SlotEvent::SpawnFailed { now } => self.spawn_failed(now),
            SlotEvent::Spawned { pid } => self.spawned(pid),
            SlotEvent::Finished { outcome, now } => self.finished(outcome, now),
            SlotEvent::Cancel { now } => self.cancelled(now),
        }
    }

    /// What a status query shows of the history: newest first, without output.
    pub open spec fn history_report(self) -> Seq<JobView> {
        Seq::new(
            self.history.len(),
            |i: int| self.history[self.history.len() - 1 - i].elided(),
        )
    }

    /// The oldest archived job with the given id, if there is one.
    pub open spec fn find(self, job_id: Seq<char>) -> Option<JobView> {
        if exists|i: int| 0 <= i < self.history.len() && self.history[i].job_id == job_id {
            let i = choose|i: int|
                0 <= i < self.history.len() && self.history[i].job_id == job_id && forall|k: int|
                    0 <= k < i ==> self.history[k].job_id != job_id;
            Some(self.history[i])
        } else {
            None
        }
    }
}

/// What the caller has to do after the end of a wait was recorded.
pub struct WaitEffect {
    /// The job was still running, so the outcome became its state.
    pub applied: bool,
    /// The time ran out on a job that nobody cancelled: its process group has to be
    /// killed and reaped.
    pub kill_group: bool,
    /// The helper exited on a job that nobody cancelled: its output goes to the log files.
    pub write_logs: bool,
}

/// The answer to a cancel request.
#[derive(Debug, Clone, Copy, PartialEq, Eq, Structural)]
pub enum CancelOutcome {
    /// No job was running; nothing changed.
    NothingRunning,
    /// The running job is now cancelled; the process group of `kill`, if any, has to be killed.
    Cancelled { kill: Option<u32> },
}

/// What a status query shows.
pub struct StatusReport<J> {
    pub running: bool,
    /// The current job while one runs, else the job that ran last; without output.
    pub job: Option<J>,
    /// The archived jobs, newest first, without output.
    pub history: Vec<J>,
}

impl<J> StatusReport<J> {
    /// The name under which the job is reported: the current job while one runs, the
    /// last job else.
    pub fn job_key(&self) -> (r: &'static str)
        ensures
            r@ == if self.running {
                "current_job"@
            } else {
                "last_job"@
            },
    {
        if self.running {
            "current_job"
        } else {
            "last_job"
        }
    }
}

/// The slot of one kind of job.
pub struct JobSlot<J: SupervisedJob> {
    current: Option<J>,
    history: VecDeque<J>,
    active_pid: Option<u32>,
}

pub open spec fn job_views<J: SupervisedJob>(jobs: Seq<J>) -> Seq<JobView> {
    Seq::new(jobs.len(), |i: int| jobs[i]@)
}

pub open spec fn opt_job_view<J: SupervisedJob>(job: Option<J>) -> Option<JobView> {
    match job {
        Some(j) => Some(j@),
        None => None,
    }
}

impl<J: SupervisedJob> View for JobSlot<J> {
    type V = SlotView;

    closed spec fn view(&self) -> SlotView {
        SlotView {
            current: opt_job_view(self.current),
            history: job_views(self.history@),
            active_pid: self.active_pid,
        }
    }
}

impl<J: SupervisedJob> JobSlot<J> {
    /// A slot is well formed at all times.
    #[verifier::type_invariant]
    pub open spec fn inv(&self) -> bool {
        self@.wf()
    }

    /// A slot that has never held a job.
    pub fn new() -> (slot: JobSlot<J>)
        ensures
            slot@ == SlotView::empty(),
            slot@.wf(),
    {
        let slot = JobSlot { current: None, history: VecDeque::new(), active_pid: None };
        assert(slot@.history =~= Seq::empty());
        slot
    }

    pub fn is_running(&self) -> (r: bool)
        ensures
            r == self@.is_running(),
    {
        match &self.current {
            Some(j) => j.status().is_running(),
            None => false,
        }
    }

    /// A copy of the job claimed last, with its output.
    pub fn current(&self) -> (r: Option<J>)
        ensures
            opt_job_view(r) == self@.current,
    {
        match &self.current {
            Some(j) => Some(j.duplicate()),
            None => None,
        }
    }

    /// The process of the running job, while the cancel path may still signal it.
    pub fn active_pid(&self) -> (r: Option<u32>)
        ensures
            r == self@.active_pid,
    {
        self.active_pid
    }

    /// The number of archived jobs.
    pub fn history_len(&self) -> (r: usize)
        ensures
            r == self@.history.len(),
            r <= HISTORY_CAPACITY,
    {
        proof {
            use_type_invariant(self);
        }
        self.history.len()
    }

    fn archive(&mut self, job: J)
        requires
            job@.status.is_terminal(),
        ensures
            final(self)@ == (SlotView {
                history: SlotView::archive(old(self)@.history, job@),
                ..old(self)@
            }),
    {
        proof {
            use_type_invariant(&*self);
        }
        let ghost before = self@.history;
        let mut history: VecDeque<J> = VecDeque::new();
        core::mem::swap(&mut self.history, &mut history);
        if history.len() >= HISTORY_CAPACITY {
            let _ = history.pop_front();
        }
        history.push_back(job);
        assert(job_views(history@) =~= SlotView::archive(before, job@));
        self.history = history;
    }

    /// Claims the slot for `job` unless a job is running. Says whether the job was installed.
    pub fn claim(&mut self, job: J) -> (claimed: bool)
        ensures
            claimed == !old(self)@.is_running(),
            final(self)@ == old(self)@.claimed(job@),
            final(self)@.wf(),
    {
        proof {
            use_type_invariant(&*self);
        }
        if self.is_running() {
            false
        } else {
            self.current = Some(job);
            true
        }
    }

    /// Records that the helper of the claimed job could not be started.
    pub fn spawn_failed(&mut self, now: String)
        ensures
            final(self)@ == old(self)@.spawn_failed(now@),
            final(self)@.wf(),
    {
        proof {
            use_type_invariant(&*self);
        }
        let mut current: Option<J> = None;
        core::mem::swap(&mut self.current, &mut current);
        if let Some(mut j) = current {
            j.close(CrawlerStatus::Failed, now);
            let copy = j.duplicate();
            self.current = Some(j);
            self.archive(copy);
        }
    }

    /// Records the process that runs the claimed job.
    pub fn record_pid(&mut self, pid: u32)
        ensures
            final(self)@ == old(self)@.spawned(pid),
            final(self)@.wf(),
    {
        proof {
            use_type_invariant(&*self);
        }
        self.active_pid = Some(pid);
    }

    /// Records the end of the wait for the helper: forgets the process first, then
    /// gives a job that is still running its terminal state, and archives the job
    /// either way.
    pub fn finish(&mut self, outcome: &WaitOutcome, now: String) -> (effect: WaitEffect)
        ensures
            final(self)@ == old(self)@.finished(*outcome, now@),
            final(self)@.wf(),
            effect.applied == old(self)@.is_running(),
            effect.kill_group == (old(self)@.is_running() && *outcome is TimedOut),
            effect.write_logs == (old(self)@.is_running() && *outcome is Exited),
    {
        proof {
            use_type_invariant(&*self);
        }
        self.active_pid = None;
        let mut applied = false;
        let mut current: Option<J> = None;
        core::mem::swap(&mut self.current, &mut current);
        if let Some(mut j) = current {
            if j.status().is_running() {
                applied = true;
                j.close(outcome.terminal_status(), now);
                match outcome {
                    WaitOutcome::Exited { stdout, stderr, .. } => {
                        j.record_output(stdout, stderr);
                    },
                    _ => {},
                }
            }
            let copy = j.duplicate();
            self.current = Some(j);
            self.archive(copy);
        }
        let timed_out = match outcome {
            WaitOutcome::TimedOut => true,
            _ => false,
        };
        let exited = match outcome {
            WaitOutcome::Exited { .. } => true,
            _ => false,
        };
        WaitEffect { applied, kill_group: applied && timed_out, write_logs: applied && exited }
    }

    /// Cancels the running job: takes its process out of the slot, to be killed by
    /// the caller, and marks the job as cancelled at `now`.
    pub fn cancel(&mut self, now: String) -> (r: CancelOutcome)
        ensures
            final(self)@ == old(self)@.cancelled(now@),
            final(self)@.wf(),
            r == if old(self)@.is_running() {
                CancelOutcome::Cancelled { kill: old(self)@.active_pid }
            } else {
                CancelOutcome::NothingRunning
            },
    {
        proof {
            use_type_invariant(&*self);
        }
        if !self.is_running() {
            return CancelOutcome::NothingRunning;
        }
        let pid = self.active_pid;
        let mut current: Option<J> = None;
        core::mem::swap(&mut self.current, &mut current);
        if let Some(mut j) = current {
            j.close(CrawlerStatus::Cancelled, now);
            self.current = Some(j);
        }
        self.active_pid = None;
        CancelOutcome::Cancelled { kill: pid }
    }

    /// What a status query shows: whether a job runs, the current job, and the
    /// history newest first, all without output.
    pub fn status_report(&self) -> (r: StatusReport<J>)
        ensures
            r.running == self@.is_running(),
            opt_job_view(r.job) == match self@.current {
                Some(j) => Some(j.elided()),
                None => None,
            },
            job_views(r.history@) == self@.history_report(),
    {
        let running = self.is_running();
        let job = match &self.current {
            Some(j) => Some(j.without_output()),
            None => None,
        };
        let mut history: Vec<J> = Vec::new();
        let n = self.history.len();
        let mut i: usize = 0;
        while i < n
            invariant
                n == self.history@.len(),
                i <= n,
                history@.len() == i,
                forall|k: int|
                    0 <= k < i ==> (#[trigger] history@[k])@ == self.history@[n - 1 - k]@.elided(),
            decreases n - i,
        {
            history.push(self.history[n - 1 - i].without_output());
            i += 1;
        }
        StatusReport { running, job, history }
    }

    /// The output of the oldest archived job with the given id.
    pub fn find_output(&self, job_id: &str) -> (r: Option<(Option<String>, Option<String>)>)
        ensures
            match r {
                Some(out) => self@.find(job_id@) matches Some(j) && opt_text(out.0) == j.stdout
                    && opt_text(out.1) == j.stderr,
                None => self@.find(job_id@) is None,
            },
    {
        let n = self.history.len();
        let mut i: usize = 0;
        while i < n
            invariant
                n == self.history@.len(),
                i <= n,
                forall|k: int| 0 <= k < i ==> self@.history[k].job_id != job_id@,
            decreases n - i,
        {
            if self.history[i].has_id(job_id) {
                proof {
                    let h = self@.history;
                    assert(h[i as int].job_id == job_id@);
                    let c = choose|c: int|
                        0 <= c < h.len() && h[c].job_id == job_id@ && forall|k: int|
                            0 <= k < c ==> h[k].job_id != job_id@;
                }
                return Some(self.history[i].output());
            }
            i += 1;
        }
        None
    }
}

/// Every event keeps a slot well formed.
pub proof fn lemma_step_keeps_wf(pre: SlotView, ev: SlotEvent)
    requires
        pre.wf(),
    ensures
        pre.step(ev).wf(),
{
    match ev {
        SlotEvent::SpawnFailed { now } => {
            if let Some(j) = pre.current {
                let ended = j.closed(CrawlerStatus::Failed, now);
                lemma_archive(pre.history, ended);
            }
        },
        SlotEvent::Finished { outcome, now } => {
            if let Some(j) = pre.current {
                let ended = SlotView::settled(j, outcome, now);
                lemma_archive(pre.history, ended);
            }
        },
        _ => {},
    }
}

/// Archiving keeps the bound, keeps the entries that stay in their order, and puts
/// the new entry last.
pub proof fn lemma_archive(history: Seq<JobView>, job: JobView)
    requires
        history.len() <= HISTORY_CAPACITY,
    ensures
        SlotView::archive(history, job).len() <= HISTORY_CAPACITY,
        SlotView::archive(history, job).len() >= 1,
        SlotView::archive(history, job).last() == job,
        ({
            let after = SlotView::archive(history, job);
            let dropped = history.len() + 1 - after.len();
            &&& (dropped == 0 || dropped == 1)
            &&& forall|i: int|
                0 <= i < after.len() - 1 ==> #[trigger] after[i] == history[i + dropped]
        }),
{
}

/// At any moment at most one job of a slot is running, the current job and the
/// archived ones taken together.
pub proof fn law_at_most_one_running(s: SlotView)
    requires
        s.wf(),
    ensures
        s.running_jobs().finite(),
        s.running_jobs().len() <= 1,
{
    let r = s.running_jobs();
    if s.is_running() {
        let j = s.current->0;
        assert(r =~= set![j]);
    } else {
        assert(r =~= Set::<JobView>::empty());
    }
}

/// Once the current job has ended, no event but a failed start changes its record:
/// a claim puts a new job in its place, every other event leaves it as it is.
/// Archived records never change: each entry of the new history is an entry of the
/// old one or the job that the event archived.
pub proof fn law_ended_job_is_kept(pre: SlotView, ev: SlotEvent)
    requires
        pre.wf(),
        pre.current is Some,
        pre.current->0.status.is_terminal(),
        !(ev is SpawnFailed),
    ensures
        ev matches SlotEvent::Claim { job } ==> pre.step(ev).current == Some(job),
        !(ev is Claim) ==> pre.step(ev).current == pre.current,
        forall|i: int|
            0 <= i < pre.step(ev).history.len() ==> pre.history.contains(
                #[trigger] pre.step(ev).history[i],
            ) || Some(pre.step(ev).history[i]) == pre.current,
{
    if ev is Finished {
        lemma_archive(pre.history, pre.current->0);
    }
}

/// The history never holds more than `HISTORY_CAPACITY` jobs and is kept in the order
/// of archival: an event leaves it alone or appends one job at the end, and only the
/// oldest entry ever leaves, when the history is full.
pub proof fn law_history_is_bounded_and_ordered(pre: SlotView, ev: SlotEvent)
    requires
        pre.wf(),
    ensures
        pre.step(ev).history.len() <= HISTORY_CAPACITY,
        pre.step(ev).history == pre.history || (exists|job: JobView|
            pre.step(ev).history == pre.history.push(job) && pre.history.len()
                < HISTORY_CAPACITY) || (exists|job: JobView|
            pre.step(ev).history == pre.history.skip(1).push(job) && pre.history.len()
                == HISTORY_CAPACITY),
{
    lemma_step_keeps_wf(pre, ev);
}

/// A cancelled job ends at the time of the cancel, and the end of the wait that
/// follows archives it as cancelled without touching its state or its time.
pub proof fn law_cancel_is_final(
    pre: SlotView,
    cancel_time: Seq<char>,
    outcome: WaitOutcome,
    wait_end: Seq<char>,
)
    requires
        pre.wf(),
        pre.is_running(),
    ensures
        ({
            let cancelled = pre.cancelled(cancel_time);
            let after = cancelled.finished(outcome, wait_end);
            &&& cancelled.current->0.status == CrawlerStatus::Cancelled
            &&& cancelled.current->0.finished_at == Some(cancel_time)
            &&& cancelled.active_pid is None
            &&& after.current == cancelled.current
            &&& after.history.len() >= 1
            &&& Some(after.history.last()) == cancelled.current
        }),
{
    let cancelled = pre.cancelled(cancel_time);
    lemma_archive(cancelled.history, cancelled.current->0);
}

/// The end of a running job is timed once: the event that ends it gives the job its
/// terminal state and the time of the event, a cancel the state of a cancelled job
/// and the end of the wait the state of its outcome.
pub proof fn law_end_of_running_job_is_timed(pre: SlotView, ev: SlotEvent)
    requires
        pre.wf(),
        pre.is_running(),
    ensures
        ev matches SlotEvent::Cancel { now } ==> {
            let job = pre.step(ev).current->0;
            job.status == CrawlerStatus::Cancelled && job.finished_at == Some(now)
        },
        ev matches SlotEvent::Finished { outcome, now } ==> {
            let job = pre.step(ev).current->0;
            job.status == outcome.status() && job.status.is_terminal() && job.finished_at
                == Some(now)
        },
        ev matches SlotEvent::SpawnFailed { now } ==> {
            let job = pre.step(ev).current->0;
            job.status == CrawlerStatus::Failed && job.finished_at == Some(now)
        },
        (ev is Claim || ev is Spawned) ==> pre.step(ev).current == pre.current,
{
}

/// Once the wait has ended or the job is cancelled, the slot holds no process any
/// more: a later cancel cannot signal a process that is not the job's.
pub proof fn law_process_is_forgotten(pre: SlotView, ev: SlotEvent)
    requires
        pre.wf(),
        ev is Finished || (ev is Cancel && pre.is_running()),
    ensures
        pre.step(ev).active_pid is None,
{
}

} // verus!
