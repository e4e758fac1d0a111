//! The record of one supervised run of a helper process.

use vstd::prelude::*;
use vstd::string::*;
use vstd::slice::*;
use crate::status::{CrawlerStatus, CrawlerTrigger};
use crate::text::{clone_texts, opt_text, texts};

verus! {

/// How many bytes of each output stream a job record keeps: the last ones.
pub const MAX_OUTPUT_BYTES: usize = 65536;

/// What `String::from_utf8_lossy` makes of a byte string: its text, with each
/// malformed sequence replaced by U+FFFD.
pub uninterp spec fn utf8_lossy(bytes: Seq<u8>) -> Seq<char>;

/// Decodes bytes with `String::from_utf8_lossy`.
#[verifier::external_body]
fn decode_lossy(bytes: &[u8]) -> (r: String)
    ensures
        r@ == utf8_lossy(bytes@),
{
    String::from_utf8_lossy(bytes).into_owned()
}

/// The part of an output stream that is kept: all of it, or its last
/// `MAX_OUTPUT_BYTES` bytes.
pub open spec fn output_tail(bytes: Seq<u8>) -> Seq<u8> {
    if bytes.len() > MAX_OUTPUT_BYTES {
        bytes.subrange(bytes.len() - MAX_OUTPUT_BYTES, bytes.len() as int)
    } else {
        bytes
    }
}

/// The text recorded for an output stream: nothing for an empty stream, else the
/// lossy decoding of its kept part.
pub open spec fn captured_text(bytes: Seq<u8>) -> Option<Seq<char>> {
    if bytes.len() == 0 {
        None
    } else {
        Some(utf8_lossy(output_tail(bytes)))
    }
}

/// Turns a captured output stream into the text that a job record keeps.
pub fn capture_output(bytes: &Vec<u8>) -> (r: Option<String>)
    ensures
        opt_text(r) == captured_text(bytes@),
{
    let n = bytes.len();
    if n == 0 {
        None
    } else if n > MAX_OUTPUT_BYTES {
        let tail = slice_subrange(bytes.as_slice(), n - MAX_OUTPUT_BYTES, n);
        Some(decode_lossy(tail))
    } else {
        Some(decode_lossy(bytes.as_slice()))
    }
}

/// The content of a job record.
pub struct JobView {
    pub job_id: Seq<char>,
    pub source: Seq<char>,
    pub args: Seq<Seq<char>>,
    pub trigger: CrawlerTrigger,
    pub started_at: Seq<char>,
    pub finished_at: Option<Seq<char>>,
    pub status: CrawlerStatus,
    pub stdout: Option<Seq<char>>,
    pub stderr: Option<Seq<char>>,
}

impl JobView {
    /// A job as it is when it has just been claimed.
    pub open spec fn started(
        job_id: Seq<char>,
        source: Seq<char>,
        args: Seq<Seq<char>>,
        trigger: CrawlerTrigger,
        started_at: Seq<char>,
    ) -> JobView {
        JobView {
            job_id,
            source,
            args,
            trigger,
            started_at,
            finished_at: None,
            status: CrawlerStatus::Running,
            stdout: None,
            stderr: None,
        }
    }

    /// The job after its first terminal transition.
    pub open spec fn closed(self, status: CrawlerStatus, finished_at: Seq<char>) -> JobView {
        JobView { status, finished_at: Some(finished_at), ..self }
    }

    /// The job with the given captured streams recorded.
    pub open spec fn with_output(self, stdout: Seq<u8>, stderr: Seq<u8>) -> JobView {
        JobView { stdout: captured_text(stdout), stderr: captured_text(stderr), ..self }
    }

    /// The job as status queries show it: without its output.
    pub open spec fn elided(self) -> JobView {
        JobView { stdout: None, stderr: None, ..self }
    }
}

/// What a job slot needs of the records it holds.
pub trait SupervisedJob: View<V = JobView> + Sized {
    fn status(&self) -> (s: CrawlerStatus)
        ensures
            s == self@.status,
    ;

    fn has_id(&self, job_id: &str) -> (b: bool)
        ensures
            b == (self@.job_id == job_id@),
    ;

    /// Copies of the recorded output streams.
    fn output(&self) -> (r: (Option<String>, Option<String>))
        ensures
            opt_text(r.0) == self@.stdout,
            opt_text(r.1) == self@.stderr,
    ;

    /// Records the terminal state and the time it was reached.
    fn close(&mut self, status: CrawlerStatus, finished_at: String)
        ensures
            final(self)@ == old(self)@.closed(status, finished_at@),
    ;

    /// Records what the helper wrote.
    fn record_output(&mut self, stdout: &Vec<u8>, stderr: &Vec<u8>)
        ensures
            final(self)@ == old(self)@.with_output(stdout@, stderr@),
    ;

    fn duplicate(&self) -> (r: Self)
        ensures
            r@ == self@,
    ;

    fn without_output(&self) -> (r: Self)
        ensures
            r@ == self@.elided(),
    ;
}

fn clone_opt_text(o: &Option<String>) -> (r: Option<String>)
    ensures
        r == *o,
{
    match o {
        Some(s) => Some(s.clone()),
        None => None,
    }
}

/// A run of a crawler.
#[derive(Debug)]
pub struct CrawlerJob {
    pub job_id: String,
    pub source: String,
    pub args: Vec<String>,
    pub trigger: CrawlerTrigger,
    pub started_at: String,
    pub finished_at: Option<String>,
    pub status: CrawlerStatus,
    pub stdout: Option<String>,
    pub stderr: Option<String>,
}

impl View for CrawlerJob {
    type V = JobView;

    open spec fn view(&self) -> JobView {
        JobView {
            job_id: self.job_id@,
            source: self.source@,
            args: texts(self.args@),
            trigger: self.trigger,
            started_at: self.started_at@,
            finished_at: opt_text(self.finished_at),
            status: self.status,
            stdout: opt_text(self.stdout),
            stderr: opt_text(self.stderr),
        }
    }
}

impl CrawlerJob {
    /// The record of a job that starts running now.
    pub fn start(
        job_id: String,
        source: String,
        args: Vec<String>,
        trigger: CrawlerTrigger,
        started_at: String,
    ) -> (job: CrawlerJob)
        ensures
            job@ == JobView::started(job_id@, source@, texts(args@), trigger, started_at@),
    {
        CrawlerJob {
            job_id,
            source,
            args,
            trigger,
            started_at,
            finished_at: None,
            status: CrawlerStatus::Running,
            stdout: None,
            stderr: None,
        }
    }

    /// Records what the helper wrote to its two streams.
    pub fn set_output(&mut self, stdout: Vec<u8>, stderr: Vec<u8>)
        ensures
            final(self)@ == old(self)@.with_output(stdout@, stderr@),
    {
        self.record_output(&stdout, &stderr);
    }
}

impl SupervisedJob for CrawlerJob {
    fn status(&self) -> (s: CrawlerStatus) {
        self.status
    }

    fn has_id(&self, job_id: &str) -> (b: bool) {
        crate::text::str_eq(self.job_id.as_str(), job_id)
    }

    fn output(&self) -> (r: (Option<String>, Option<String>)) {
        (clone_opt_text(&self.stdout), clone_opt_text(&self.stderr))
    }

    fn close(&mut self, status: CrawlerStatus, finished_at: String) {
        self.status = status;
        self.finished_at = Some(finished_at);
    }

    fn record_output(&mut self, stdout: &Vec<u8>, stderr: &Vec<u8>) {
        self.stdout = capture_output(stdout);
        self.stderr = capture_output(stderr);
    }

    fn duplicate(&self) -> (r: Self) {
        CrawlerJob {
            job_id: self.job_id.clone(),
            source: self.source.clone(),
            args: clone_texts(&self.args),
            trigger: self.trigger,
            started_at: self.started_at.clone(),
            finished_at: clone_opt_text(&self.finished_at),
            status: self.status,
            stdout: clone_opt_text(&self.stdout),
            stderr: clone_opt_text(&self.stderr),
        }
    }

    fn without_output(&self) -> (r: Self) {
        CrawlerJob {
            job_id: self.job_id.clone(),
            source: self.source.clone(),
            args: clone_texts(&self.args),
            trigger: self.trigger,
            started_at: self.started_at.clone(),
            finished_at: clone_opt_text(&self.finished_at),
            status: self.status,
            stdout: None,
            stderr: None,
        }
    }
}

/// A run of the embedding builder. It is always asked for by an administrator.
#[derive(Debug)]
pub struct EmbeddingJob {
    pub job_id: String,
    pub source: String,
    pub args: Vec<String>,
    pub started_at: String,
    pub finished_at: Option<String>,
    pub status: CrawlerStatus,
    pub stdout: Option<String>,
    pub stderr: Option<String>,
}

impl View for EmbeddingJob {
    type V = JobView;

    open spec fn view(&self) -> JobView {
        JobView {
            job_id: self.job_id@,
            source: self.source@,
            args: texts(self.args@),
            trigger: CrawlerTrigger::Admin,
            started_at: self.started_at@,
            finished_at: opt_text(self.finished_at),
            status: self.status,
            stdout: opt_text(self.stdout),
            stderr: opt_text(self.stderr),
        }
    }
}

impl EmbeddingJob {
    /// The record of a job that starts running now.
    pub fn start(job_id: String, source: String, args: Vec<String>, started_at: String) -> (job:
        EmbeddingJob)
        ensures
            job@ == JobView::started(
                job_id@,
                source@,
                texts(args@),
                CrawlerTrigger::Admin,
                started_at@,
            ),
    {
        EmbeddingJob {
            job_id,
            source,
            args,
            started_at,
            finished_at: None,
            status: CrawlerStatus::Running,
            stdout: None,
            stderr: None,
        }
    }

    /// Records what the helper wrote to its two streams.
    pub fn set_output(&mut self, stdout: Vec<u8>, stderr: Vec<u8>)
        ensures
            final(self)@ == old(self)@.with_output(stdout@, stderr@),
    {
        self.record_output(&stdout, &stderr);
    }
}

impl SupervisedJob for EmbeddingJob {
    fn status(&self) -> (s: CrawlerStatus) {
        self.status
    }

    fn has_id(&self, job_id: &str) -> (b: bool) {
        crate::text::str_eq(self.job_id.as_str(), job_id)
    }

    fn output(&self) -> (r: (Option<String>, Option<String>)) {
        (clone_opt_text(&self.stdout), clone_opt_text(&self.stderr))
    }

    fn close(&mut self, status: CrawlerStatus, finished_at: String) {
        self.status = status;
        self.finished_at = Some(finished_at);
    }

    fn record_output(&mut self, stdout: &Vec<u8>, stderr: &Vec<u8>) {
        self.stdout = capture_output(stdout);
        self.stderr = capture_output(stderr);
    }

    fn duplicate(&self) -> (r: Self) {
        EmbeddingJob {
            job_id: self.job_id.clone(),
            source: self.source.clone(),
            args: clone_texts(&self.args),
            started_at: self.started_at.clone(),
            finished_at: clone_opt_text(&self.finished_at),
            status: self.status,
            stdout: clone_opt_text(&self.stdout),
            stderr: clone_opt_text(&self.stderr),
        }
    }

    fn without_output(&self) -> (r: Self) {
        EmbeddingJob {
            job_id: self.job_id.clone(),
            source: self.source.clone(),
            args: clone_texts(&self.args),
            started_at: self.started_at.clone(),
            finished_at: clone_opt_text(&self.finished_at),
            status: self.status,
            stdout: None,
            stderr: None,
        }
    }
}

} // verus!
