//! The requests that start, cancel and inspect supervised jobs.
//!
//! Each function decides and records; starting the helper, waiting for it, signalling it
//! and writing its logs is left to the caller, who reports back to the slot.

use vstd::prelude::*;
use vstd::string::*;
use crate::config::CrawlerConfig;
use crate::date::now_rfc3339;
use crate::job::{CrawlerJob, EmbeddingJob, JobView, SupervisedJob};
use crate::problem::{
    bad_request_problem,
    conflict_problem,
    not_found_problem,
    ProblemDetail,
    ProblemView,
};
use crate::slot::{CancelOutcome, JobSlot, SlotView, WaitEffect};
use crate::sources::CrawlerSource;
use crate::status::{CrawlerTrigger, WaitOutcome};
use crate::text::{
    decimal,
    decimal_string,
    join,
    lemma_texts_push,
    lowercased,
    opt_text,
    str_eq,
    texts,
    trimmed,
};
use crate::validate::{validate_args, validated};

verus! {

/// Whether `uuid::Uuid::parse_str` reads the text as a UUID.
pub uninterp spec fn uuid_parses(s: Seq<char>) -> bool;

/// Asks `uuid::Uuid::parse_str` whether the text is a UUID.
#[verifier::external_body]
fn is_uuid(s: &str) -> (r: bool)
    ensures
        r == uuid_parses(s@),
{
    uuid::Uuid::parse_str(s).is_ok()
}

/// Draws a random UUID with `uuid::Uuid::new_v4` and writes it in its hyphenated form.
#[verifier::external_body]
fn new_job_id() -> (r: String) {
    uuid::Uuid::new_v4().to_string()
}

/// The kinds of job that are supervised.
#[derive(Debug, Clone, Copy, PartialEq, Eq, Structural)]
pub enum JobKind {
    Crawler,
    Embedding,
    DailyFallback,
}

impl JobKind {
    /// What a trigger is told while a job of the kind runs.
    pub open spec fn busy_detail(self) -> Seq<char> {
        match self {
            JobKind::Embedding => "an embedding job is already running"@,
            _ => "a crawler is already running"@,
        }
    }

    /// What a cancel is told while no job of the kind runs.
    pub open spec fn idle_detail(self) -> Seq<char> {
        match self {
            JobKind::Embedding => "no running embedding job to cancel"@,
            _ => "no running crawler to cancel"@,
        }
    }

    pub fn busy(&self) -> (r: ProblemDetail)
        ensures
            r@ == conflict_problem(self.busy_detail()),
    {
        match self {
            JobKind::Embedding => ProblemDetail::conflict("an embedding job is already running"),
            _ => ProblemDetail::conflict("a crawler is already running"),
        }
    }

    pub fn idle(&self) -> (r: ProblemDetail)
        ensures
            r@ == conflict_problem(self.idle_detail()),
    {
        match self {
            JobKind::Embedding => ProblemDetail::conflict("no running embedding job to cancel"),
            _ => ProblemDetail::conflict("no running crawler to cancel"),
        }
    }
}

/// A helper that the caller has to start: the job it belongs to, the command line,
/// and the time it may take.
#[derive(Debug)]
pub struct Launch {
    pub job_id: String,
    pub started_at: String,
    pub program: String,
    pub argv: Vec<String>,
    pub timeout_secs: u64,
}

pub struct LaunchView {
    pub job_id: Seq<char>,
    pub started_at: Seq<char>,
    pub program: Seq<char>,
    pub argv: Seq<Seq<char>>,
    pub timeout_secs: u64,
}

impl View for Launch {
    type V = LaunchView;

    open spec fn view(&self) -> LaunchView {
        LaunchView {
            job_id: self.job_id@,
            started_at: self.started_at@,
            program: self.program@,
            argv: texts(self.argv@),
            timeout_secs: self.timeout_secs,
        }
    }
}

/// The command line of a helper script: the runner's own words, the script, then the
/// arguments of the job.
pub open spec fn helper_argv(script: Seq<char>, args: Seq<Seq<char>>) -> Seq<Seq<char>> {
    seq!["run"@, "python3"@, script] + args
}

/// The launch of a helper script for a job.
pub open spec fn helper_launch(
    job_id: Seq<char>,
    started_at: Seq<char>,
    script: Seq<char>,
    args: Seq<Seq<char>>,
    timeout_secs: u64,
) -> LaunchView {
    LaunchView {
        job_id,
        started_at,
        program: "uv"@,
        argv: helper_argv(script, args),
        timeout_secs,
    }
}

/// Builds the command line of a helper script.
pub fn helper_command(script: &str, args: &Vec<String>) -> (r: Vec<String>)
    ensures
        texts(r@) == helper_argv(script@, texts(args@)),
{
    let mut argv: Vec<String> = Vec::new();
    argv.push("run".to_owned());
    argv.push("python3".to_owned());
    argv.push(script.to_owned());
    let mut i: usize = 0;
    while i < args.len()
        invariant
            i <= args.len(),
            texts(argv@) == seq!["run"@, "python3"@, script@] + texts(args@).take(i as int),
        decreases args.len() - i,
    {
        let ghost before = argv@;
        argv.push(args[i].clone());
        proof {
            lemma_texts_push(before, args@[i as int]);
        }
        i += 1;
    }
    argv
}

fn make_launch(job_id: &str, started_at: &str, script: &str, args: &Vec<String>, timeout_secs: u64) -> (r:
    Launch)
    ensures
        r@ == helper_launch(job_id@, started_at@, script@, texts(args@), timeout_secs),
{
    Launch {
        job_id: job_id.to_owned(),
        started_at: started_at.to_owned(),
        program: "uv".to_owned(),
        argv: helper_command(script, args),
        timeout_secs,
    }
}

/// A request to run a crawler.
#[derive(Debug)]
pub struct TriggerCrawlerRequest {
    pub source: String,
    pub args: Vec<String>,
}

/// Why a request to run a crawler is refused before the slot is looked at: the
/// source is unknown, or the arguments are not those of the source.
pub open spec fn crawler_request_fault(
    source: Seq<char>,
    args: Seq<Seq<char>>,
    floats: Seq<Option<u64>>,
) -> Option<Seq<char>> {
    match CrawlerSource::named(source) {
        None => Some("invalid source: "@ + source),
        Some(known) => match validated(known, args, floats) {
            Err(reason) => Some(reason),
            Ok(_) => None,
        },
    }
}

/// What a request to run a crawler leads to, for the job id and the time that the
/// request is given: a refusal that leaves the slot alone, or the claim of the slot
/// and the launch of the helper.
pub open spec fn crawler_trigger(
    pre: SlotView,
    config: CrawlerConfig,
    source: Seq<char>,
    args: Seq<Seq<char>>,
    floats: Seq<Option<u64>>,
    job_id: Seq<char>,
    started_at: Seq<char>,
) -> Result<(SlotView, LaunchView), ProblemView> {
    match crawler_request_fault(source, args, floats) {
        Some(reason) => Err(bad_request_problem(reason)),
        None => if pre.is_running() {
            Err(conflict_problem(JobKind::Crawler.busy_detail()))
        } else {
            Ok(
                (
                    pre.claimed(
                        JobView::started(job_id, source, args, CrawlerTrigger::Admin, started_at),
                    ),
                    helper_launch(
                        job_id,
                        started_at,
                        CrawlerSource::named(source)->0.script(),
                        args,
                        config.timeout_of(source),
                    ),
                ),
            )
        },
    }
}

/// Judges a request to run a crawler before anything is claimed: gives the helper
/// and the arguments of a request that may go ahead, and the refusal of any other.
fn admit_crawler(
    slot: &JobSlot<CrawlerJob>,
    request: &TriggerCrawlerRequest,
    float_bits: &Vec<Option<u64>>,
) -> (r: Result<(CrawlerSource, Vec<String>), ProblemDetail>)
    ensures
        match r {
            Ok(admitted) => crawler_request_fault(
                request.source@,
                texts(request.args@),
                float_bits@,
            ) is None && !slot@.is_running() && CrawlerSource::named(request.source@) == Some(
                admitted.0,
            ) && texts(admitted.1@) == texts(request.args@),
            Err(e) => match crawler_request_fault(
                request.source@,
                texts(request.args@),
                float_bits@,
            ) {
                Some(reason) => e@ == bad_request_problem(reason),
                None => slot@.is_running() && e@ == conflict_problem(
                    JobKind::Crawler.busy_detail(),
                ),
            },
        },
{
    let source = match CrawlerSource::parse(request.source.as_str()) {
        Ok(s) => s,
        Err(reason) => {
            return Err(ProblemDetail::bad_request(reason.as_str()));
        },
    };
    let args = match validate_args(&source, &request.args, float_bits) {
        Ok(a) => a,
        Err(reason) => {
            return Err(ProblemDetail::bad_request(reason.as_str()));
        },
    };
    if slot.is_running() {
        return Err(JobKind::Crawler.busy());
    }
    Ok((source, args))
}

/// Claims the slot for the job of a request that may go ahead.
fn install_crawler(
    slot: &mut JobSlot<CrawlerJob>,
    config: &CrawlerConfig,
    request: &TriggerCrawlerRequest,
    source: CrawlerSource,
    args: Vec<String>,
    job_id: String,
    started_at: String,
) -> (launch: Launch)
    requires
        !old(slot)@.is_running(),
    ensures
        final(slot)@.wf(),
        final(slot)@ == old(slot)@.claimed(
            JobView::started(
                job_id@,
                request.source@,
                texts(args@),
                CrawlerTrigger::Admin,
                started_at@,
            ),
        ),
        launch@ == helper_launch(
            job_id@,
            started_at@,
            source.script(),
            texts(args@),
            config.timeout_of(request.source@),
        ),
{
    let launch = make_launch(
        job_id.as_str(),
        started_at.as_str(),
        source.script_name(),
        &args,
        config.timeout_for(request.source.as_str()),
    );
    let job = CrawlerJob::start(
        job_id,
        request.source.clone(),
        args,
        CrawlerTrigger::Admin,
        started_at,
    );
    let _ = slot.claim(job);
    launch
}

/// Handles a request to run a crawler, with the job id and the time that the new job
/// is to carry. `float_bits` holds, for each argument, the bit pattern of the binary64
/// number that the argument writes, or nothing where it writes none.
pub fn claim_crawler(
    slot: &mut JobSlot<CrawlerJob>,
    config: &CrawlerConfig,
    request: &TriggerCrawlerRequest,
    float_bits: &Vec<Option<u64>>,
    job_id: String,
    started_at: String,
) -> (r: Result<Launch, ProblemDetail>)
    ensures
        final(slot)@.wf(),
        match r {
            Ok(launch) => crawler_trigger(
                old(slot)@,
                *config,
                request.source@,
                texts(request.args@),
                float_bits@,
                job_id@,
                started_at@,
            ) == Ok::<(SlotView, LaunchView), ProblemView>((final(slot)@, launch@)),
            Err(e) => final(slot)@ == old(slot)@ && crawler_trigger(
                old(slot)@,
                *config,
                request.source@,
                texts(request.args@),
                float_bits@,
                job_id@,
                started_at@,
            ) == Err::<(SlotView, LaunchView), ProblemView>(e@),
        },
{
    proof {
        use_type_invariant(&*slot);
    }
    match admit_crawler(slot, request, float_bits) {
        Ok(admitted) => Ok(
            install_crawler(slot, config, request, admitted.0, admitted.1, job_id, started_at),
        ),
        Err(e) => Err(e),
    }
}

/// Handles a request to run a crawler. The new job gets a random id and the time of
/// the clock; whatever these are, the outcome is the one that [`crawler_trigger`]
/// gives for them.
pub fn trigger_crawler(
    slot: &mut JobSlot<CrawlerJob>,
    config: &CrawlerConfig,
    request: &TriggerCrawlerRequest,
    float_bits: &Vec<Option<u64>>,
) -> (r: Result<Launch, ProblemDetail>)
    ensures
        final(slot)@.wf(),
        match r {
            Ok(launch) => crawler_trigger(
                old(slot)@,
                *config,
                request.source@,
                texts(request.args@),
                float_bits@,
                launch@.job_id,
                launch@.started_at,
            ) == Ok::<(SlotView, LaunchView), ProblemView>((final(slot)@, launch@)),
            Err(e) => final(slot)@ == old(slot)@ && forall|id: Seq<char>, at: Seq<char>|
                #[trigger] crawler_trigger(
                    old(slot)@,
                    *config,
                    request.source@,
                    texts(request.args@),
                    float_bits@,
                    id,
                    at,
                ) == Err::<(SlotView, LaunchView), ProblemView>(e@),
        },
{
    proof {
        use_type_invariant(&*slot);
    }
    match admit_crawler(slot, request, float_bits) {
        Ok(admitted) => {
            let job_id = new_job_id();
            let started_at = now_rfc3339();
            Ok(install_crawler(slot, config, request, admitted.0, admitted.1, job_id, started_at))
        },
        Err(e) => Err(e),
    }
}

/// The sources for which embeddings can be built.
pub open spec fn is_embedding_source(s: Seq<char>) -> bool {
    s == "all"@ || s == "leetcode"@ || s == "atcoder"@ || s == "codeforces"@ || s == "luogu"@ || s
        == "uva"@ || s == "spoj"@
}

/// The least and the greatest batch size that a request may ask for.
pub const MIN_BATCH_SIZE: u16 = 1;

pub const MAX_BATCH_SIZE: u16 = 256;

/// A request to build embeddings.
#[derive(Debug)]
pub struct TriggerEmbeddingRequest {
    pub source: String,
    pub rebuild: bool,
    pub dry_run: bool,
    pub batch_size: Option<u16>,
    pub filter: Option<String>,
}

impl TriggerEmbeddingRequest {
    /// The source that the request means: its text without surrounding whitespace, in
    /// lower case.
    pub open spec fn normal_source(self) -> Seq<char> {
        lowercased(trimmed(self.source@))
    }

    /// Why the request is refused before the slot is looked at. The source is judged
    /// first, then the batch size, then the filter.
    pub open spec fn fault(self) -> Option<Seq<char>> {
        if !is_embedding_source(self.normal_source()) {
            Some("invalid source: "@ + self.normal_source())
        } else if self.batch_size matches Some(n) && !(MIN_BATCH_SIZE <= n <= MAX_BATCH_SIZE) {
            Some("batch_size must be between 1 and 256"@)
        } else if self.filter matches Some(f) && trimmed(f@).len() == 0 {
            Some("filter must not be empty"@)
        } else {
            None
        }
    }

    /// The word for what the builder is to do: a rebuild wins over a dry run.
    pub open spec fn mode_flag(self) -> Seq<char> {
        if self.rebuild {
            "--rebuild"@
        } else if self.dry_run {
            "--dry-run"@
        } else {
            "--build"@
        }
    }

    /// The arguments of the builder for the job with the given id.
    pub open spec fn builder_args(self, job_id: Seq<char>) -> Seq<Seq<char>> {
        seq!["--source"@, self.normal_source(), self.mode_flag()] + (match self.batch_size {
            Some(n) => seq!["--batch-size"@, decimal(n as nat)],
            None => Seq::empty(),
        }) + (match self.filter {
            Some(f) => seq!["--filter"@, f@],
            None => Seq::empty(),
        }) + seq!["--job-id"@, job_id]
    }

    fn normalized_source(&self) -> (r: String)
        ensures
            r@ == self.normal_source(),
    {
        self.source.as_str().trim().to_lowercase()
    }

    /// Checks the request, and gives the source that it means.
    pub fn check(&self) -> (r: Result<String, ProblemDetail>)
        ensures
            match r {
                Ok(source) => self.fault() is None && source@ == self.normal_source(),
                Err(e) => self.fault() matches Some(reason) && e@ == bad_request_problem(reason),
            },
    {
        let source = self.normalized_source();
        let s = source.as_str();
        let known = str_eq(s, "all") || str_eq(s, "leetcode") || str_eq(s, "atcoder") || str_eq(
            s,
            "codeforces",
        ) || str_eq(s, "luogu") || str_eq(s, "uva") || str_eq(s, "spoj");
        if !known {
            let reason = join("invalid source: ", s);
            return Err(ProblemDetail::bad_request(reason.as_str()));
        }
        if let Some(n) = self.batch_size {
            if !(MIN_BATCH_SIZE <= n && n <= MAX_BATCH_SIZE) {
                return Err(ProblemDetail::bad_request("batch_size must be between 1 and 256"));
            }
        }
        if let Some(f) = &self.filter {
            if f.as_str().trim().is_empty() {
                return Err(ProblemDetail::bad_request("filter must not be empty"));
            }
        }
        Ok(source)
    }

    /// Builds the arguments of the builder for the job with the given id.
    pub fn build_args(&self, job_id: &str) -> (r: Vec<String>)
        ensures
            texts(r@) == self.builder_args(job_id@),
    {
        let mut args: Vec<String> = Vec::new();
        args.push("--source".to_owned());
        args.push(self.normalized_source());
        if self.rebuild {
            args.push("--rebuild".to_owned());
        } else if self.dry_run {
            args.push("--dry-run".to_owned());
        } else {
            args.push("--build".to_owned());
        }
        if let Some(n) = self.batch_size {
            args.push("--batch-size".to_owned());
            args.push(decimal_string(n as u64));
        }
        if let Some(f) = &self.filter {
            args.push("--filter".to_owned());
            args.push(f.clone());
        }
        args.push("--job-id".to_owned());
        args.push(job_id.to_owned());
        args
    }
}

/// The script that builds embeddings.
pub const EMBEDDING_SCRIPT: &'static str = "embedding_cli.py";

/// What a request to build embeddings leads to, for the job id and the time that the
/// request is given.
pub open spec fn embedding_trigger(
    pre: SlotView,
    request: TriggerEmbeddingRequest,
    timeout_secs: u64,
    job_id: Seq<char>,
    started_at: Seq<char>,
) -> Result<(SlotView, LaunchView), ProblemView> {
    match request.fault() {
        Some(reason) => Err(bad_request_problem(reason)),
        None => if pre.is_running() {
            Err(conflict_problem(JobKind::Embedding.busy_detail()))
        } else {
            Ok(
                (
                    pre.claimed(
                        JobView::started(
                            job_id,
                            request.normal_source(),
                            request.builder_args(job_id),
                            CrawlerTrigger::Admin,
                            started_at,
                        ),
                    ),
                    helper_launch(
                        job_id,
                        started_at,
                        EMBEDDING_SCRIPT@,
                        request.builder_args(job_id),
                        timeout_secs,
                    ),
                ),
            )
        },
    }
}

/// Judges a request to build embeddings before anything is claimed: gives the source
/// that a request means which may go ahead, and the refusal of any other.
fn admit_embedding(slot: &JobSlot<EmbeddingJob>, request: &TriggerEmbeddingRequest) -> (r: Result<
    String,
    ProblemDetail,
>)
    ensures
        match r {
            Ok(source) => request.fault() is None && !slot@.is_running() && source@
                == request.normal_source(),
            Err(e) => match request.fault() {
                Some(reason) => e@ == bad_request_problem(reason),
                None => slot@.is_running() && e@ == conflict_problem(
                    JobKind::Embedding.busy_detail(),
                ),
            },
        },
{
    let source = match request.check() {
        Ok(s) => s,
        Err(e) => {
            return Err(e);
        },
    };
    if slot.is_running() {
        return Err(JobKind::Embedding.busy());
    }
    Ok(source)
}

/// Claims the slot for the job of a request that may go ahead.
fn install_embedding(
    slot: &mut JobSlot<EmbeddingJob>,
    request: &TriggerEmbeddingRequest,
    source: String,
    timeout_secs: u64,
    job_id: String,
    started_at: String,
) -> (launch: Launch)
    requires
        !old(slot)@.is_running(),
        source@ == request.normal_source(),
    ensures
        final(slot)@.wf(),
        final(slot)@ == old(slot)@.claimed(
            JobView::started(
                job_id@,
                request.normal_source(),
                request.builder_args(job_id@),
                CrawlerTrigger::Admin,
                started_at@,
            ),
        ),
        launch@ == helper_launch(
            job_id@,
            started_at@,
            EMBEDDING_SCRIPT@,
            request.builder_args(job_id@),
            timeout_secs,
        ),
{
    let args = request.build_args(job_id.as_str());
    let launch = make_launch(
        job_id.as_str(),
        started_at.as_str(),
        EMBEDDING_SCRIPT,
        &args,
        timeout_secs,
    );
    let job = EmbeddingJob::start(job_id, source, args, started_at);
    let _ = slot.claim(job);
    launch
}

/// Handles a request to build embeddings, with the job id and the time that the new
/// job is to carry and the time that the builder may take.
pub fn claim_embedding(
    slot: &mut JobSlot<EmbeddingJob>,
    request: &TriggerEmbeddingRequest,
    timeout_secs: u64,
    job_id: String,
    started_at: String,
) -> (r: Result<Launch, ProblemDetail>)
    ensures
        final(slot)@.wf(),
        match r {
            Ok(launch) => embedding_trigger(
                old(slot)@,
                *request,
                timeout_secs,
                job_id@,
                started_at@,
            ) == Ok::<(SlotView, LaunchView), ProblemView>((final(slot)@, launch@)),
            Err(e) => final(slot)@ == old(slot)@ && embedding_trigger(
                old(slot)@,
                *request,
                timeout_secs,
                job_id@,
                started_at@,
            ) == Err::<(SlotView, LaunchView), ProblemView>(e@),
        },
{
    proof {
        use_type_invariant(&*slot);
    }
    match admit_embedding(slot, request) {
        Ok(source) => Ok(install_embedding(slot, request, source, timeout_secs, job_id, started_at)),
        Err(e) => Err(e),
    }
}

/// Handles a request to build embeddings. The new job gets a random id and the time
/// of the clock; whatever these are, the outcome is the one that
/// [`embedding_trigger`] gives for them.
pub fn trigger_embedding(
    slot: &mut JobSlot<EmbeddingJob>,
    request: &TriggerEmbeddingRequest,
    timeout_secs: u64,
) -> (r: Result<Launch, ProblemDetail>)
    ensures
        final(slot)@.wf(),
        match r {
            Ok(launch) => embedding_trigger(
                old(slot)@,
                *request,
                timeout_secs,
                launch@.job_id,
                launch@.started_at,
            ) == Ok::<(SlotView, LaunchView), ProblemView>((final(slot)@, launch@)),
            Err(e) => final(slot)@ == old(slot)@ && forall|id: Seq<char>, at: Seq<char>|
                #[trigger] embedding_trigger(old(slot)@, *request, timeout_secs, id, at) == Err::<
                    (SlotView, LaunchView),
                    ProblemView,
                >(e@),
        },
{
    proof {
        use_type_invariant(&*slot);
    }
    match admit_embedding(slot, request) {
        Ok(source) => {
            let job_id = new_job_id();
            let started_at = now_rfc3339();
            Ok(install_embedding(slot, request, source, timeout_secs, job_id, started_at))
        },
        Err(e) => Err(e),
    }
}

/// Cancels the running job of a slot at the given time. The caller has to kill the
/// process group that is handed back.
pub fn cancel_job_at<J: SupervisedJob>(slot: &mut JobSlot<J>, kind: JobKind, now: String) -> (r:
    Result<Option<u32>, ProblemDetail>)
    ensures
        final(slot)@ == old(slot)@.cancelled(now@),
        final(slot)@.wf(),
        match r {
            Ok(kill) => old(slot)@.is_running() && kill == old(slot)@.active_pid,
            Err(e) => !old(slot)@.is_running() && e@ == conflict_problem(kind.idle_detail()),
        },
{
    match slot.cancel(now) {
        CancelOutcome::Cancelled { kill } => Ok(kill),
        CancelOutcome::NothingRunning => Err(kind.idle()),
    }
}

/// Cancels the running job of a slot at the time of the clock. Where a job was
/// running it is now cancelled, its process is taken out of the slot and handed back
/// to be killed; else nothing changes and the request is refused.
pub fn cancel_job<J: SupervisedJob>(slot: &mut JobSlot<J>, kind: JobKind) -> (r: Result<
    Option<u32>,
    ProblemDetail,
>)
    ensures
        final(slot)@.wf(),
        match r {
            Ok(kill) => old(slot)@.is_running() && kill == old(slot)@.active_pid && exists|
                now: Seq<char>,
            | final(slot)@ == old(slot)@.cancelled(now),
            Err(e) => !old(slot)@.is_running() && final(slot)@ == old(slot)@ && e@
                == conflict_problem(kind.idle_detail()),
        },
{
    proof {
        use_type_invariant(&*slot);
    }
    let now = now_rfc3339();
    cancel_job_at(slot, kind, now)
}

/// Records at the time of the clock that the helper of the claimed job could not be
/// started: the job has failed and is archived.
pub fn record_spawn_failure<J: SupervisedJob>(slot: &mut JobSlot<J>)
    ensures
        final(slot)@.wf(),
        exists|now: Seq<char>| final(slot)@ == old(slot)@.spawn_failed(now),
{
    let now = now_rfc3339();
    slot.spawn_failed(now);
}

/// Records at the time of the clock how the wait for the helper ended, and says what
/// is left for the caller to do.
pub fn record_wait_end<J: SupervisedJob>(slot: &mut JobSlot<J>, outcome: &WaitOutcome) -> (effect:
    WaitEffect)
    ensures
        final(slot)@.wf(),
        exists|now: Seq<char>| final(slot)@ == old(slot)@.finished(*outcome, now),
        effect.applied == old(slot)@.is_running(),
        effect.kill_group == (old(slot)@.is_running() && *outcome is TimedOut),
        effect.write_logs == (old(slot)@.is_running() && *outcome is Exited),
{
    let now = now_rfc3339();
    slot.finish(outcome, now)
}

/// The recorded output of a job.
#[derive(Debug)]
pub struct JobOutput {
    pub stdout: Option<String>,
    pub stderr: Option<String>,
}

/// Looks for the output of a job among the archived jobs of a slot. An id that is no
/// UUID is refused; for an id that no archived job has, the log files are next.
pub fn recorded_output<J: SupervisedJob>(slot: &JobSlot<J>, job_id: &str) -> (r: Result<
    Option<JobOutput>,
    ProblemDetail,
>)
    ensures
        match r {
            Err(e) => !uuid_parses(job_id@) && e@ == bad_request_problem("invalid job_id"@),
            Ok(None) => uuid_parses(job_id@) && slot@.find(job_id@) is None,
            Ok(Some(out)) => uuid_parses(job_id@) && (slot@.find(job_id@) matches Some(j)
                && opt_text(out.stdout) == j.stdout && opt_text(out.stderr) == j.stderr),
        },
{
    if !is_uuid(job_id) {
        return Err(ProblemDetail::bad_request("invalid job_id"));
    }
    match slot.find_output(job_id) {
        Some(out) => Ok(Some(JobOutput { stdout: out.0, stderr: out.1 })),
        None => Ok(None),
    }
}

/// The output of a job as its log files give it: what was read of either file, or a
/// refusal where neither could be read.
pub fn logged_output(stdout: Option<String>, stderr: Option<String>) -> (r: Result<
    JobOutput,
    ProblemDetail,
>)
    ensures
        match r {
            Ok(out) => (stdout is Some || stderr is Some) && out.stdout == stdout && out.stderr
                == stderr,
            Err(e) => stdout is None && stderr is None && e@ == not_found_problem(
                "job output not found"@,
            ),
        },
{
    if stdout.is_none() && stderr.is_none() {
        Err(ProblemDetail::not_found("job output not found"))
    } else {
        Ok(JobOutput { stdout, stderr })
    }
}

/// Checks the job id of a progress query.
pub fn check_job_id(job_id: &str) -> (r: Result<(), ProblemDetail>)
    ensures
        match r {
            Ok(()) => uuid_parses(job_id@),
            Err(e) => !uuid_parses(job_id@) && e@ == bad_request_problem("invalid job_id"@),
        },
{
    if is_uuid(job_id) {
        Ok(())
    } else {
        Err(ProblemDetail::bad_request("invalid job_id"))
    }
}

/// The files that a job leaves behind.
#[derive(Debug, Clone, Copy, PartialEq, Eq, Structural)]
pub enum LogFile {
    Stdout,
    Stderr,
    Progress,
}

impl LogFile {
    pub open spec fn suffix(self) -> Seq<char> {
        match self {
            LogFile::Stdout => ".stdout.log"@,
            LogFile::Stderr => ".stderr.log"@,
            LogFile::Progress => ".progress.json"@,
        }
    }

    /// The path of the file of a job, from the working directory of the service.
    pub open spec fn path_of(self, job_id: Seq<char>) -> Seq<char> {
        "scripts/logs/"@ + job_id + self.suffix()
    }

    pub fn path(&self, job_id: &str) -> (r: String)
        ensures
            r@ == self.path_of(job_id@),
    {
        let stem = join("scripts/logs/", job_id);
        match self {
            LogFile::Stdout => stem.concat(".stdout.log"),
            LogFile::Stderr => stem.concat(".stderr.log"),
            LogFile::Progress => stem.concat(".progress.json"),
        }
    }
}

} // verus!
