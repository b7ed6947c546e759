//! The job worker: its configuration, built step by step, the decisions of its
//! poller, and what it reports of a job that its handler processed.
use vstd::prelude::*;
use crate::job::activated_job::{ActivatedJob, ActivatedJobView};
use crate::job::complete::{self, CompleteJobRequest, CompleteJobRequestView};
use crate::job::fail::{self, wire_millis, FailJobRequest, FailJobRequestView};
use crate::protocol;
use crate::text::{clone_strings, json_null, strings_view};
use crate::throw_error::{self, ThrowErrorRequest, ThrowErrorRequestView};
use crate::time::Duration;

verus! {

/// How a job handler reports that it could not process a job.
///
/// `T` is the data that goes with the error as variables.
#[derive(Debug, Clone)]
pub enum WorkerError<T> {
    /// Fail the job with a message.
    FailJob(String),
    /// Fail the job with a message and variables.
    FailJobWithData { error_message: String, data: T },
    /// Throw a business error with a code and, optionally, a message.
    ThrowError { error_code: String, error_message: Option<String> },
    /// Throw a business error with a code, optionally a message, and variables.
    ThrowErrorWithData { error_code: String, error_message: Option<String>, data: T },
}

/// State that the concurrent runs of a worker's handler share.
#[derive(Debug)]
pub struct SharedState<T>(pub T);

impl<T> std::ops::Deref for SharedState<T> {
    type Target = T;

    fn deref(&self) -> (r: &T)
        ensures
            *r == self.0,
    {
        &self.0
    }
}

/// Seconds between two polls of the worker for jobs.
pub const DEFAULT_POLL_INTERVAL_SECS: u64 = 15;

/// The span between two polls of the worker for jobs.
pub fn default_poll_interval() -> (d: Duration)
    ensures
        d.total_nanos() == DEFAULT_POLL_INTERVAL_SECS * 1_000_000_000,
{
    Duration::from_secs(DEFAULT_POLL_INTERVAL_SECS)
}

/// The request that reports a processed job to the gateway.
pub enum JobReport {
    /// Complete the job.
    Complete(CompleteJobRequest<complete::WithKey>),
    /// Fail the job.
    Fail(FailJobRequest<fail::WithKey>),
    /// Throw a business error for the job.
    ThrowError(ThrowErrorRequest<throw_error::WithCode>),
}

/// What the report of a processed job holds.
pub enum JobReportView {
    Complete(CompleteJobRequestView),
    Fail(FailJobRequestView),
    ThrowError(ThrowErrorRequestView),
}

/// What an optional report holds.
pub open spec fn report_view(r: Option<JobReport>) -> Option<JobReportView> {
    match r {
        Some(JobReport::Complete(req)) => Some(JobReportView::Complete(req@)),
        Some(JobReport::Fail(req)) => Some(JobReportView::Fail(req@)),
        Some(JobReport::ThrowError(req)) => Some(JobReportView::ThrowError(req@)),
        None => None,
    }
}

/// The outcome of a handler whose output and error data were serialized: the JSON
/// text of each, or the error of serializing it.
pub type SerializedOutcome = Result<
    Result<String, serde_json::Error>,
    WorkerError<Result<String, serde_json::Error>>,
>;

/// Whether reporting the outcome fails the job, which costs it one retry.
pub open spec fn fails_job(outcome: SerializedOutcome) -> bool {
    outcome matches Err(WorkerError::FailJob(_)) || outcome matches Err(
        WorkerError::FailJobWithData { .. },
    )
}

/// The message of a thrown error: the given one, or none.
pub open spec fn message_or_empty(m: Option<String>) -> Seq<char> {
    match m {
        Some(m) => m@,
        None => Seq::empty(),
    }
}

/// The request that reports a job's outcome: a value completes the job with it as
/// variables; a failure fails the job with one retry less and the message; a thrown
/// error throws its code and message; data goes with it as variables. Where a value
/// or data could not be serialized, nothing is reported.
pub open spec fn report_of(job: ActivatedJobView, outcome: SerializedOutcome) -> Option<
    JobReportView,
> {
    let failed = |message: Seq<char>, variables: Seq<char>|
        FailJobRequestView {
            job_key: job.key,
            retries: (job.retries - 1) as i32,
            error_message: message,
            retry_back_off: 0,
            variables,
        };
    let thrown = |code: Seq<char>, message: Option<String>, variables: Seq<char>|
        ThrowErrorRequestView {
            job_key: job.key,
            error_code: code,
            error_message: message_or_empty(message),
            variables,
        };
    match outcome {
        Ok(Ok(value)) => Some(
            JobReportView::Complete(
                CompleteJobRequestView { job_key: job.key, variables: value@, result: None },
            ),
        ),
        Ok(Err(_)) => None,
        Err(WorkerError::FailJob(message)) => Some(
            JobReportView::Fail(failed(message@, json_null())),
        ),
        Err(WorkerError::FailJobWithData { error_message, data }) => match data {
            Ok(text) => Some(JobReportView::Fail(failed(error_message@, text@))),
            Err(_) => None,
        },
        Err(WorkerError::ThrowError { error_code, error_message }) => Some(
            JobReportView::ThrowError(thrown(error_code@, error_message, json_null())),
        ),
        Err(WorkerError::ThrowErrorWithData { error_code, error_message, data }) => match data {
            Ok(text) => Some(JobReportView::ThrowError(thrown(error_code@, error_message, text@))),
            Err(_) => None,
        },
    }
}

/// Whether the value or the data of an outcome could not be serialized.
pub open spec fn serialization_failed(outcome: SerializedOutcome) -> bool {
    match outcome {
        Ok(Err(_)) => true,
        Err(WorkerError::FailJobWithData { data: Err(_), .. }) => true,
        Err(WorkerError::ThrowErrorWithData { data: Err(_), .. }) => true,
        _ => false,
    }
}

/// Every outcome of a handler is reported unless its value or data could not be
/// serialized: a success completes the job, a failure fails it with one retry
/// less, a business error is thrown with its code; each report is for the job's key.
pub proof fn every_outcome_is_reported(job: ActivatedJobView, outcome: SerializedOutcome)
    ensures
        report_of(job, outcome) is None <==> serialization_failed(outcome),
        outcome matches Ok(Ok(_)) ==> (report_of(job, outcome) matches Some(
            JobReportView::Complete(r),
        ) && r.job_key == job.key),
        fails_job(outcome) && !serialization_failed(outcome) ==> (report_of(job, outcome) matches Some(
            JobReportView::Fail(r),
        ) && r.job_key == job.key && (job.retries > i32::MIN ==> r.retries == job.retries - 1)),
        (outcome matches Err(WorkerError::ThrowError { .. }) || outcome matches Err(
            WorkerError::ThrowErrorWithData { .. },
        )) && !serialization_failed(outcome) ==> (report_of(job, outcome) matches Some(
            JobReportView::ThrowError(r),
        ) && r.job_key == job.key),
{
}

/// What each report carries: a completion the output as variables and no result;
/// a failure the handler's message, one retry less, no back-off and the data as
/// variables (`null` without data); a thrown error the handler's code, its message
/// (empty when it gave none) and the data as variables (`null` without data). Each
/// is for the job's key.
pub proof fn reports_carry_the_outcome(job: ActivatedJobView, outcome: SerializedOutcome)
    ensures
        outcome matches Ok(Ok(v)) ==> (report_of(job, outcome) matches Some(
            JobReportView::Complete(r),
        ) && r.job_key == job.key && r.variables == v@ && r.result is None),
        outcome matches Err(WorkerError::FailJob(m)) ==> (report_of(job, outcome) matches Some(
            JobReportView::Fail(r),
        ) && r.job_key == job.key && r.error_message == m@ && r.retry_back_off == 0
            && r.variables == seq!['n', 'u', 'l', 'l'] && (job.retries > i32::MIN ==> r.retries
            == job.retries - 1)),
        outcome matches Err(WorkerError::FailJobWithData { error_message: m, data: Ok(t) }) ==> (
        report_of(job, outcome) matches Some(JobReportView::Fail(r)) && r.job_key == job.key
            && r.error_message == m@ && r.retry_back_off == 0 && r.variables == t@ && (job.retries
            > i32::MIN ==> r.retries == job.retries - 1)),
        outcome matches Err(WorkerError::ThrowError { error_code: c, error_message: Some(m) }) ==> (
        report_of(job, outcome) matches Some(JobReportView::ThrowError(r)) && r.job_key == job.key
            && r.error_code == c@ && r.error_message == m@ && r.variables == seq![
            'n',
            'u',
            'l',
            'l',
        ]),
        outcome matches Err(WorkerError::ThrowError { error_code: c, error_message: None }) ==> (
        report_of(job, outcome) matches Some(JobReportView::ThrowError(r)) && r.job_key == job.key
            && r.error_code == c@ && r.error_message.len() == 0 && r.variables == seq![
            'n',
            'u',
            'l',
            'l',
        ]),
        outcome matches Err(
            WorkerError::ThrowErrorWithData { error_code: c, error_message: Some(m), data: Ok(t) },
        ) ==> (report_of(job, outcome) matches Some(JobReportView::ThrowError(r)) && r.job_key
            == job.key && r.error_code == c@ && r.error_message == m@ && r.variables == t@),
        outcome matches Err(
            WorkerError::ThrowErrorWithData { error_code: c, error_message: None, data: Ok(t) },
        ) ==> (report_of(job, outcome) matches Some(JobReportView::ThrowError(r)) && r.job_key
            == job.key && r.error_code == c@ && r.error_message.len() == 0 && r.variables == t@),
{
}

/// The request that reports what the handler made of `job`; see [`report_of`].
pub fn handle_result(job: &ActivatedJob, result: SerializedOutcome) -> (r: Option<JobReport>)
    requires
        fails_job(result) ==> job@.retries > i32::MIN,
    ensures
        report_view(r) == report_of(job@, result),
{
    match result {
        Ok(value) => {
            match CompleteJobRequest::<complete::Initial>::new().with_job_key(
                job.key(),
            ).with_variables(value) {
                Ok(req) => Some(JobReport::Complete(req)),
                Err(_) => None,
            }
        },
        Err(error) => match error {
            WorkerError::FailJob(error_message) => {
                let req = FailJobRequest::<fail::Initial>::new().with_job_key(
                    job.key(),
                ).with_retries(job.retries() - 1).with_error_message(error_message);
                Some(JobReport::Fail(req))
            },
            WorkerError::FailJobWithData { error_message, data } => {
                match FailJobRequest::<fail::Initial>::new().with_job_key(job.key()).with_retries(
                    job.retries() - 1,
                ).with_error_message(error_message).with_variables(data) {
                    Ok(req) => Some(JobReport::Fail(req)),
                    Err(_) => None,
                }
            },
            WorkerError::ThrowError { error_code, error_message } => {
                let mut builder = ThrowErrorRequest::<throw_error::Initial>::new().with_job_key(
                    job.key(),
                ).with_error_code(error_code);
                if let Some(error_message) = error_message {
                    builder = builder.with_error_message(error_message);
                }
                Some(JobReport::ThrowError(builder))
            },
            WorkerError::ThrowErrorWithData { error_code, error_message, data } => {
                match ThrowErrorRequest::<throw_error::Initial>::new().with_job_key(
                    job.key(),
                ).with_error_code(error_code).with_variables(data) {
                    Ok(req) => {
                        let mut req = req;
                        if let Some(error_message) = error_message {
                            req = req.with_error_message(error_message);
                        }
                        Some(JobReport::ThrowError(req))
                    },
                    Err(_) => None,
                }
            },
        },
    }
}

/// A message to the poller of a worker.
#[derive(Debug, Clone, Copy, PartialEq, Eq)]
pub enum PollingMessage {
    /// Time to poll for jobs.
    FetchJobs,
    /// A fetch brought this many jobs.
    JobsFetched(u32),
    /// A fetch ended.
    FetchJobsComplete,
    /// The handler finished a job.
    JobFinished,
}

/// What the poller of a worker keeps: the jobs it holds, the most it may hold,
/// and whether a fetch is under way.
pub struct PollerView {
    pub queued_jobs_count: u32,
    pub max_jobs_to_activate: u32,
    pub fetching_jobs: bool,
}

/// The poller of a worker: it counts the jobs that were fetched and not yet
/// finished, and decides when to fetch more and how many.
#[derive(Debug, Clone)]
pub struct Poller {
    queued_jobs_count: u32,
    max_jobs_to_activate: u32,
    fetching_jobs: bool,
}

impl View for Poller {
    type V = PollerView;

    closed spec fn view(&self) -> PollerView {
        PollerView {
            queued_jobs_count: self.queued_jobs_count,
            max_jobs_to_activate: self.max_jobs_to_activate,
            fetching_jobs: self.fetching_jobs,
        }
    }
}

/// Whether a poll starts a fetch: no fetch is under way and the jobs held do not
/// exceed the most the worker may hold.
pub open spec fn starts_fetch(p: PollerView) -> bool {
    p.queued_jobs_count <= p.max_jobs_to_activate && !p.fetching_jobs
}

/// The poller after `message`: fetched jobs add to the count, finished ones take
/// from it (neither going past the bounds of a `u32`), a poll that starts a fetch
/// marks it under way, and the end of a fetch clears the mark.
pub open spec fn poller_after(p: PollerView, message: PollingMessage) -> PollerView {
    match message {
        PollingMessage::JobsFetched(n) => PollerView {
            queued_jobs_count: p.queued_jobs_count.saturating_add(n),
            ..p
        },
        PollingMessage::JobFinished => PollerView {
            queued_jobs_count: p.queued_jobs_count.saturating_sub(1),
            ..p
        },
        PollingMessage::FetchJobs => if starts_fetch(p) {
            PollerView { fetching_jobs: true, ..p }
        } else {
            p
        },
        PollingMessage::FetchJobsComplete => PollerView { fetching_jobs: false, ..p },
    }
}

/// The fetch that `message` starts: on a poll that starts one, as many jobs as the
/// worker may still hold.
pub open spec fn fetch_started(p: PollerView, message: PollingMessage) -> Option<i32> {
    if message == PollingMessage::FetchJobs && starts_fetch(p) {
        Some((p.max_jobs_to_activate - p.queued_jobs_count) as i32)
    } else {
        None
    }
}

impl Poller {
    /// A poller that holds no jobs and fetches none, of a worker that may hold
    /// `max_jobs_to_activate` jobs.
    pub fn new(max_jobs_to_activate: u32) -> (p: Poller)
        ensures
            p@ == (PollerView { queued_jobs_count: 0, max_jobs_to_activate, fetching_jobs: false }),
    {
        Poller { queued_jobs_count: 0, max_jobs_to_activate, fetching_jobs: false }
    }

    /// Takes in a message; gives the number of jobs to fetch when it starts a fetch.
    pub fn handle_message(&mut self, message: PollingMessage) -> (fetch: Option<i32>)
        ensures
            final(self)@ == poller_after(old(self)@, message),
            fetch == fetch_started(old(self)@, message),
    {
        match message {
            PollingMessage::JobsFetched(new_job_count) => {
                self.queued_jobs_count = self.queued_jobs_count.saturating_add(new_job_count);
                None
            },
            PollingMessage::JobFinished => {
                self.queued_jobs_count = self.queued_jobs_count.saturating_sub(1);
                None
            },
            PollingMessage::FetchJobs => {
                if self.queued_jobs_count <= self.max_jobs_to_activate && !self.fetching_jobs {
                    self.fetching_jobs = true;
                    Some((self.max_jobs_to_activate - self.queued_jobs_count) as i32)
                } else {
                    None
                }
            },
            PollingMessage::FetchJobsComplete => {
                self.fetching_jobs = false;
                None
            },
        }
    }
}

/// The poller after a run of messages, in order.
pub open spec fn poller_run(p: PollerView, messages: Seq<PollingMessage>) -> PollerView
    decreases messages.len(),
{
    if messages.len() == 0 {
        p
    } else {
        poller_after(poller_run(p, messages.drop_last()), messages.last())
    }
}

/// The fetches that a run of messages starts.
pub open spec fn fetches_started(p: PollerView, messages: Seq<PollingMessage>) -> nat
    decreases messages.len(),
{
    if messages.len() == 0 {
        0
    } else {
        fetches_started(p, messages.drop_last()) + if fetch_started(
            poller_run(p, messages.drop_last()),
            messages.last(),
        ) is Some {
            1nat
        } else {
            0nat
        }
    }
}

/// The ends of fetches that a run of messages reports.
pub open spec fn fetches_completed(messages: Seq<PollingMessage>) -> nat
    decreases messages.len(),
{
    if messages.len() == 0 {
        0
    } else {
        fetches_completed(messages.drop_last()) + if messages.last()
            == PollingMessage::FetchJobsComplete {
            1nat
        } else {
            0nat
        }
    }
}

/// One when no fetch is under way.
pub open spec fn idle(p: PollerView) -> nat {
    if p.fetching_jobs {
        0
    } else {
        1
    }
}

/// A worker never has two fetches under way: over any run of messages, each fetch
/// that the poller starts beyond the first waits for the end of one before it.
pub proof fn at_most_one_fetch(p: PollerView, messages: Seq<PollingMessage>)
    ensures
        fetches_started(p, messages) + idle(poller_run(p, messages)) <= fetches_completed(
            messages,
        ) + idle(p),
    decreases messages.len(),
{
    if messages.len() > 0 {
        at_most_one_fetch(p, messages.drop_last());
    }
}

/// A fetch asks for as many jobs as the worker may still hold, and so, where the
/// most it may hold fits an `i32`, never for more than that.
pub proof fn fetch_within_capacity(p: PollerView, message: PollingMessage)
    requires
        p.max_jobs_to_activate <= i32::MAX,
    ensures
        fetch_started(p, message) matches Some(n) ==> n == p.max_jobs_to_activate
            - p.queued_jobs_count && 0 <= n <= p.max_jobs_to_activate,
{
}

/// How each message changes the poller, whether or not a fetch is under way: a
/// finished job frees one slot (none below zero), fetched jobs take as many slots
/// (up to `u32::MAX`), a completed fetch ends the fetch, and a request to fetch
/// starts one only when none is under way and the held jobs leave room; the limit
/// never changes.
pub proof fn each_message_counts(p: PollerView, n: u32)
    ensures
        poller_after(p, PollingMessage::JobFinished).queued_jobs_count == if p.queued_jobs_count
            == 0 {
            0
        } else {
            p.queued_jobs_count - 1
        },
        poller_after(p, PollingMessage::JobFinished).fetching_jobs == p.fetching_jobs,
        poller_after(p, PollingMessage::JobsFetched(n)).queued_jobs_count == if p.queued_jobs_count
            + n > u32::MAX {
            u32::MAX as int
        } else {
            p.queued_jobs_count + n
        },
        poller_after(p, PollingMessage::JobsFetched(n)).fetching_jobs == p.fetching_jobs,
        poller_after(p, PollingMessage::FetchJobsComplete).queued_jobs_count == p.queued_jobs_count,
        !poller_after(p, PollingMessage::FetchJobsComplete).fetching_jobs,
        poller_after(p, PollingMessage::FetchJobs).queued_jobs_count == p.queued_jobs_count,
        poller_after(p, PollingMessage::FetchJobs).fetching_jobs == (p.fetching_jobs
            || p.queued_jobs_count <= p.max_jobs_to_activate),
        fetch_started(p, PollingMessage::FetchJobs) is Some <==> (!p.fetching_jobs
            && p.queued_jobs_count <= p.max_jobs_to_activate),
        fetch_started(p, PollingMessage::JobFinished) is None,
        fetch_started(p, PollingMessage::JobsFetched(n)) is None,
        fetch_started(p, PollingMessage::FetchJobsComplete) is None,
        poller_after(p, PollingMessage::JobFinished).max_jobs_to_activate == p.max_jobs_to_activate,
        poller_after(p, PollingMessage::JobsFetched(n)).max_jobs_to_activate
            == p.max_jobs_to_activate,
        poller_after(p, PollingMessage::FetchJobs).max_jobs_to_activate == p.max_jobs_to_activate,
        poller_after(p, PollingMessage::FetchJobsComplete).max_jobs_to_activate
            == p.max_jobs_to_activate,
{
}

/// A job that finishes while a fetch is under way frees its slot: once the fetch
/// completes, the next fetch asks for one job more than the held jobs left room for.
pub proof fn job_finished_during_fetch_frees_its_slot(p: PollerView)
    requires
        p.fetching_jobs,
        0 < p.queued_jobs_count <= p.max_jobs_to_activate,
        p.max_jobs_to_activate <= i32::MAX,
    ensures
        fetch_started(
            poller_after(
                poller_after(p, PollingMessage::JobFinished),
                PollingMessage::FetchJobsComplete,
            ),
            PollingMessage::FetchJobs,
        ) == Some((p.max_jobs_to_activate - p.queued_jobs_count + 1) as i32),
{
}

/// The jobs counted as fetched once another batch of a fetch arrived.
pub fn count_fetched(jobs_fetched: u32, batch_len: usize) -> (n: u32)
    requires
        jobs_fetched + (batch_len as u32) <= u32::MAX,
    ensures
        n == jobs_fetched + (batch_len as u32),
{
    jobs_fetched + batch_len as u32
}

/// What an activation request holds, strings by their characters.
pub struct ActivateJobsView {
    pub job_type: Seq<char>,
    pub worker: Seq<char>,
    pub timeout: i64,
    pub max_jobs_to_activate: i32,
    pub fetch_variable: Seq<Seq<char>>,
    pub request_timeout: i64,
    pub tenant_ids: Seq<Seq<char>>,
}

/// What an activation request holds.
pub open spec fn activate_view(r: protocol::ActivateJobsRequest) -> ActivateJobsView {
    ActivateJobsView {
        job_type: r.job_type@,
        worker: r.worker@,
        timeout: r.timeout,
        max_jobs_to_activate: r.max_jobs_to_activate,
        fetch_variable: strings_view(r.fetch_variable@),
        request_timeout: r.request_timeout,
        tenant_ids: strings_view(r.tenant_ids@),
    }
}

/// The request of a fetch: that of the worker, asking for `max_jobs_to_activate`.
pub fn fetch_request(base: &protocol::ActivateJobsRequest, max_jobs_to_activate: i32) -> (r:
    protocol::ActivateJobsRequest)
    ensures
        activate_view(r) == (ActivateJobsView { max_jobs_to_activate, ..activate_view(*base) }),
{
    protocol::ActivateJobsRequest {
        job_type: base.job_type.clone(),
        worker: base.worker.clone(),
        timeout: base.timeout,
        max_jobs_to_activate,
        fetch_variable: clone_strings(&base.fetch_variable),
        request_timeout: base.request_timeout,
        tenant_ids: clone_strings(&base.tenant_ids),
    }
}

/// What a worker holds.
pub struct WorkerView<H> {
    pub request: ActivateJobsView,
    pub request_timeout: Duration,
    pub concurrency_limit: u32,
    pub handler: H,
    pub poller: PollerView,
}

/// A worker: it fetches jobs of one type and processes them with its handler, at
/// most `concurrency_limit` at a time.
pub struct Worker<H> {
    request: protocol::ActivateJobsRequest,
    request_timeout: Duration,
    concurrency_limit: u32,
    handler: H,
    poller: Poller,
}

impl<H> View for Worker<H> {
    type V = WorkerView<H>;

    closed spec fn view(&self) -> WorkerView<H> {
        WorkerView {
            request: activate_view(self.request),
            request_timeout: self.request_timeout,
            concurrency_limit: self.concurrency_limit,
            handler: self.handler,
            poller: self.poller@,
        }
    }
}

impl<H> Worker<H> {
    /// A worker of the activation request, the timeout of a fetch, the concurrency
    /// limit and the handler; its poller may hold as many jobs as the request asks
    /// for, read as a `u32`.
    pub fn new(
        request: protocol::ActivateJobsRequest,
        request_timeout: Duration,
        concurrency_limit: u32,
        handler: H,
    ) -> (w: Worker<H>)
        ensures
            w@ == (WorkerView {
                request: activate_view(request),
                request_timeout,
                concurrency_limit,
                handler,
                poller: PollerView {
                    queued_jobs_count: 0,
                    max_jobs_to_activate: request.max_jobs_to_activate as u32,
                    fetching_jobs: false,
                },
            }),
    {
        let max_jobs_to_activate = request.max_jobs_to_activate as u32;
        Worker {
            request,
            request_timeout,
            concurrency_limit,
            handler,
            poller: Poller::new(max_jobs_to_activate),
        }
    }

    /// The parts that run the worker: the activation request, the timeout of a
    /// fetch, the concurrency limit, the handler and the poller.
    pub fn into_parts(self) -> (parts: (protocol::ActivateJobsRequest, Duration, u32, H, Poller))
        ensures
            activate_view(parts.0) == self@.request,
            parts.1 == self@.request_timeout,
            parts.2 == self@.concurrency_limit,
            parts.3 == self@.handler,
            parts.4@ == self@.poller,
    {
        (self.request, self.request_timeout, self.concurrency_limit, self.handler, self.poller)
    }
}

/// A builder before the request timeout is set.
#[derive(Clone)]
pub struct Initial {}

/// A builder with its job type.
#[derive(Clone)]
pub struct WithJobType {}

/// A builder with its job timeout.
#[derive(Clone)]
pub struct WithTimeout {}

/// A builder with its request timeout.
#[derive(Clone)]
pub struct WithRequestTimeout {}

/// A builder with the most jobs to activate.
#[derive(Clone)]
pub struct WithMaxJobs {}

/// A builder with its concurrency limit.
#[derive(Clone)]
pub struct WithConcurrency {}

/// A builder with its handler.
#[derive(Clone)]
pub struct WithHandler {}

/// The states of a worker builder.
pub trait WorkerBuilderState {}

impl WorkerBuilderState for Initial {}

impl WorkerBuilderState for WithJobType {}

impl WorkerBuilderState for WithTimeout {}

impl WorkerBuilderState for WithRequestTimeout {}

impl WorkerBuilderState for WithMaxJobs {}

impl WorkerBuilderState for WithConcurrency {}

impl WorkerBuilderState for WithHandler {}

/// What a worker builder holds.
pub struct WorkerBuilderView<H> {
    pub job_type: Seq<char>,
    pub worker_name: Seq<char>,
    pub timeout: Duration,
    pub max_jobs_to_activate: i32,
    pub concurrency_limit: u32,
    pub handler: H,
    pub fetch_variable: Seq<Seq<char>>,
    pub request_timeout: Duration,
    pub tenant_ids: Seq<Seq<char>>,
}

/// A builder of a worker; its states make sure that the request timeout, the job
/// timeout, the most jobs to activate, the concurrency limit, the job type and the
/// handler are set, in this order, before the worker is built.
///
/// `H` is the handler, `()` before it is set.
pub struct WorkerBuilder<S: WorkerBuilderState, H> {
    job_type: String,
    worker_name: String,
    timeout: Duration,
    max_jobs_to_activate: i32,
    concurrency_limit: u32,
    handler: H,
    fetch_variable: Vec<String>,
    request_timeout: Duration,
    tenant_ids: Vec<String>,
    _state: std::marker::PhantomData<S>,
}

impl<S: WorkerBuilderState, H> View for WorkerBuilder<S, H> {
    type V = WorkerBuilderView<H>;

    closed spec fn view(&self) -> WorkerBuilderView<H> {
        WorkerBuilderView {
            job_type: self.job_type@,
            worker_name: self.worker_name@,
            timeout: self.timeout,
            max_jobs_to_activate: self.max_jobs_to_activate,
            concurrency_limit: self.concurrency_limit,
            handler: self.handler,
            fetch_variable: strings_view(self.fetch_variable@),
            request_timeout: self.request_timeout,
            tenant_ids: strings_view(self.tenant_ids@),
        }
    }
}

impl<S: WorkerBuilderState, H: Clone> Clone for WorkerBuilder<S, H> {
    /// A builder of the same configuration, so that a shared configuration can be
    /// finished in several ways; the handler is cloned.
    fn clone(&self) -> (b: Self)
        ensures
            b@ == (WorkerBuilderView { handler: b@.handler, ..self@ }),
            vstd::pervasive::cloned(self@.handler, b@.handler),
    {
        WorkerBuilder {
            job_type: self.job_type.clone(),
            worker_name: self.worker_name.clone(),
            timeout: self.timeout,
            max_jobs_to_activate: self.max_jobs_to_activate,
            concurrency_limit: self.concurrency_limit,
            handler: self.handler.clone(),
            fetch_variable: clone_strings(&self.fetch_variable),
            request_timeout: self.request_timeout,
            tenant_ids: clone_strings(&self.tenant_ids),
            _state: std::marker::PhantomData,
        }
    }
}

impl<S: WorkerBuilderState, H> WorkerBuilder<S, H> {
    /// A builder with nothing set: empty names, zero timeouts and limits, no
    /// variables to fetch and no tenants.
    pub fn new() -> (b: WorkerBuilder<Initial, ()>)
        ensures
            b@.job_type == Seq::<char>::empty(),
            b@.worker_name == Seq::<char>::empty(),
            b@.timeout.total_nanos() == 0,
            b@.max_jobs_to_activate == 0,
            b@.concurrency_limit == 0,
            b@.fetch_variable == Seq::<Seq<char>>::empty(),
            b@.request_timeout.total_nanos() == 0,
            b@.tenant_ids == Seq::<Seq<char>>::empty(),
    {
        let b = WorkerBuilder {
            job_type: String::new(),
            worker_name: String::new(),
            timeout: Duration::zero(),
            max_jobs_to_activate: 0,
            concurrency_limit: 0,
            handler: (),
            fetch_variable: Vec::new(),
            request_timeout: Duration::zero(),
            tenant_ids: Vec::new(),
            _state: std::marker::PhantomData,
        };
        assert(b@.fetch_variable =~= Seq::<Seq<char>>::empty());
        assert(b@.tenant_ids =~= Seq::<Seq<char>>::empty());
        b
    }

    fn transition<N: WorkerBuilderState>(self) -> (b: WorkerBuilder<N, H>)
        ensures
            b@ == self@,
    {
        WorkerBuilder {
            job_type: self.job_type,
            worker_name: self.worker_name,
            timeout: self.timeout,
            max_jobs_to_activate: self.max_jobs_to_activate,
            concurrency_limit: self.concurrency_limit,
            handler: self.handler,
            fetch_variable: self.fetch_variable,
            request_timeout: self.request_timeout,
            tenant_ids: self.tenant_ids,
            _state: std::marker::PhantomData,
        }
    }
}

impl<H> WorkerBuilder<Initial, H> {
    /// Sets how long a fetch waits for jobs.
    pub fn with_request_timeout(self, request_timeout: Duration) -> (b: WorkerBuilder<
        WithRequestTimeout,
        H,
    >)
        ensures
            b@ == (WorkerBuilderView { request_timeout, ..self@ }),
    {
        let mut b = self;
        b.request_timeout = request_timeout;
        b.transition()
    }
}

impl<H> WorkerBuilder<WithRequestTimeout, H> {
    /// Sets how long an activated job stays locked to this worker.
    pub fn with_job_timeout(self, timeout: Duration) -> (b: WorkerBuilder<WithTimeout, H>)
        ensures
            b@ == (WorkerBuilderView { timeout, ..self@ }),
    {
        let mut b = self;
        b.timeout = timeout;
        b.transition()
    }
}

impl<H> WorkerBuilder<WithTimeout, H> {
    /// Sets the most jobs to activate at a time.
    pub fn with_max_jobs_to_activate(self, max_jobs_to_activate: i32) -> (b: WorkerBuilder<
        WithMaxJobs,
        H,
    >)
        ensures
            b@ == (WorkerBuilderView { max_jobs_to_activate, ..self@ }),
    {
        let mut b = self;
        b.max_jobs_to_activate = max_jobs_to_activate;
        b.transition()
    }
}

impl<H> WorkerBuilder<WithMaxJobs, H> {
    /// Sets the most jobs that the handler processes at the same time.
    pub fn with_concurrency_limit(self, concurrency_limit: u32) -> (b: WorkerBuilder<
        WithConcurrency,
        H,
    >)
        ensures
            b@ == (WorkerBuilderView { concurrency_limit, ..self@ }),
    {
        let mut b = self;
        b.concurrency_limit = concurrency_limit;
        b.transition()
    }
}

impl<H> WorkerBuilder<WithConcurrency, H> {
    /// Sets the type of the jobs to process.
    pub fn with_job_type(self, job_type: String) -> (b: WorkerBuilder<WithJobType, H>)
        ensures
            b@ == (WorkerBuilderView { job_type: job_type@, ..self@ }),
    {
        let mut b = self;
        b.job_type = job_type;
        b.transition()
    }
}

impl<H> WorkerBuilder<WithJobType, H> {
    /// Sets the handler that processes each job.
    pub fn with_handler<F>(self, handler: F) -> (b: WorkerBuilder<WithHandler, F>)
        ensures
            b@ == (WorkerBuilderView {
                job_type: self@.job_type,
                worker_name: self@.worker_name,
                timeout: self@.timeout,
                max_jobs_to_activate: self@.max_jobs_to_activate,
                concurrency_limit: self@.concurrency_limit,
                handler,
                fetch_variable: self@.fetch_variable,
                request_timeout: self@.request_timeout,
                tenant_ids: self@.tenant_ids,
            }),
    {
        WorkerBuilder {
            job_type: self.job_type,
            worker_name: self.worker_name,
            timeout: self.timeout,
            max_jobs_to_activate: self.max_jobs_to_activate,
            concurrency_limit: self.concurrency_limit,
            handler,
            fetch_variable: self.fetch_variable,
            request_timeout: self.request_timeout,
            tenant_ids: self.tenant_ids,
            _state: std::marker::PhantomData,
        }
    }

    /// Sets state that all runs of the handler share; the handler comes next.
    pub fn with_state<T>(self, shared_state: std::sync::Arc<SharedState<T>>) -> (b:
        WorkerStateBuilder<T, H>)
        ensures
            b.builder@ == self@,
            b.state == shared_state,
    {
        WorkerStateBuilder { builder: self, state: shared_state }
    }
}

/// A builder of a worker whose handler takes shared state.
pub struct WorkerStateBuilder<T, H> {
    pub builder: WorkerBuilder<WithJobType, H>,
    pub state: std::sync::Arc<SharedState<T>>,
}

impl<T, H> WorkerStateBuilder<T, H> {
    /// Sets the handler; each run of it receives the shared state.
    pub fn with_handler<F>(self, handler: F) -> (b: WorkerBuilder<
        WithHandler,
        (F, std::sync::Arc<SharedState<T>>),
    >)
        ensures
            b@.handler == (handler, self.state),
            b@.job_type == self.builder@.job_type,
            b@.worker_name == self.builder@.worker_name,
            b@.timeout == self.builder@.timeout,
            b@.max_jobs_to_activate == self.builder@.max_jobs_to_activate,
            b@.concurrency_limit == self.builder@.concurrency_limit,
            b@.fetch_variable == self.builder@.fetch_variable,
            b@.request_timeout == self.builder@.request_timeout,
            b@.tenant_ids == self.builder@.tenant_ids,
    {
        let state = self.state;
        self.builder.with_handler((handler, state))
    }
}

/// The activation request of a worker: its job type, its name, the timeouts in
/// milliseconds, the most jobs to activate, the variables to fetch and the tenants.
pub open spec fn activation_of<H>(b: WorkerBuilderView<H>) -> ActivateJobsView {
    ActivateJobsView {
        job_type: b.job_type,
        worker: b.worker_name,
        timeout: wire_millis(b.timeout),
        max_jobs_to_activate: b.max_jobs_to_activate,
        fetch_variable: b.fetch_variable,
        request_timeout: wire_millis(b.request_timeout),
        tenant_ids: b.tenant_ids,
    }
}

/// The activation request of a built worker carries its configuration: the job
/// type, the worker name, the limit of jobs, the fetch variables and the tenant ids
/// exactly as added, in order, and both timeouts in whole milliseconds.
pub proof fn activation_carries_configuration<H>(b: WorkerBuilderView<H>)
    ensures
        activation_of(b).tenant_ids == b.tenant_ids,
        activation_of(b).fetch_variable == b.fetch_variable,
        activation_of(b).job_type == b.job_type,
        activation_of(b).worker == b.worker_name,
        activation_of(b).max_jobs_to_activate == b.max_jobs_to_activate,
        activation_of(b).timeout == (b.timeout.total_millis() as u128) as i64,
        activation_of(b).request_timeout == (b.request_timeout.total_millis() as u128) as i64,
        b.timeout.total_millis() <= i64::MAX ==> activation_of(b).timeout == b.timeout.total_millis(),
        b.request_timeout.total_millis() <= i64::MAX ==> activation_of(b).request_timeout
            == b.request_timeout.total_millis(),
{
}

impl<H> WorkerBuilder<WithHandler, H> {
    /// The worker: its activation request, the request timeout, the concurrency
    /// limit and the handler.
    pub fn build(self) -> (w: Worker<H>)
        ensures
            w@ == (WorkerView {
                request: activation_of(self@),
                request_timeout: self@.request_timeout,
                concurrency_limit: self@.concurrency_limit,
                handler: self@.handler,
                poller: PollerView {
                    queued_jobs_count: 0,
                    max_jobs_to_activate: self@.max_jobs_to_activate as u32,
                    fetching_jobs: false,
                },
            }),
    {
        let timeout_ms = self.timeout.as_millis();
        let request_timeout_ms = self.request_timeout.as_millis();
        let request = protocol::ActivateJobsRequest {
            job_type: self.job_type,
            worker: self.worker_name,
            timeout: timeout_ms as i64,
            max_jobs_to_activate: self.max_jobs_to_activate,
            fetch_variable: self.fetch_variable,
            request_timeout: request_timeout_ms as i64,
            tenant_ids: self.tenant_ids,
        };
        Worker::new(request, self.request_timeout, self.concurrency_limit, self.handler)
    }

    /// Sets the name of the worker.
    pub fn with_worker_name(self, worker_name: String) -> (b: Self)
        ensures
            b@ == (WorkerBuilderView { worker_name: worker_name@, ..self@ }),
    {
        let mut b = self;
        b.worker_name = worker_name;
        b
    }

    /// Adds a variable to fetch with each job; with none, all visible ones are.
    pub fn with_fetch_variable(self, fetch_variable: String) -> (b: Self)
        ensures
            b@ == (WorkerBuilderView {
                fetch_variable: self@.fetch_variable.push(fetch_variable@),
                ..self@
            }),
    {
        let mut b = self;
        b.fetch_variable.push(fetch_variable);
        assert(b@.fetch_variable =~= self@.fetch_variable.push(fetch_variable@));
        b
    }

    /// Adds variables to fetch with each job, in order.
    pub fn with_fetch_variables(self, fetch_variables: Vec<String>) -> (b: Self)
        ensures
            b@ == (WorkerBuilderView {
                fetch_variable: self@.fetch_variable + strings_view(fetch_variables@),
                ..self@
            }),
    {
        let mut b = self;
        let mut more = fetch_variables;
        b.fetch_variable.append(&mut more);
        assert(b@.fetch_variable =~= self@.fetch_variable + strings_view(fetch_variables@));
        b
    }

    /// Adds a tenant whose jobs the worker takes.
    pub fn with_tenant_id(self, tenant_id: String) -> (b: Self)
        ensures
            b@ == (WorkerBuilderView { tenant_ids: self@.tenant_ids.push(tenant_id@), ..self@ }),
    {
        let mut b = self;
        b.tenant_ids.push(tenant_id);
        assert(b@.tenant_ids =~= self@.tenant_ids.push(tenant_id@));
        b
    }

    /// Adds tenants whose jobs the worker takes, in order.
    pub fn with_tenant_ids(self, tenant_ids: Vec<String>) -> (b: Self)
        ensures
            b@ == (WorkerBuilderView {
                tenant_ids: self@.tenant_ids + strings_view(tenant_ids@),
                ..self@
            }),
    {
        let mut b = self;
        let mut more = tenant_ids;
        b.tenant_ids.append(&mut more);
        assert(b@.tenant_ids =~= self@.tenant_ids + strings_view(tenant_ids@));
        b
    }
}

} // verus!
