//! Completing a job, with an optional result that corrects its user task.
use vstd::prelude::*;
use crate::client::ClientError;
use crate::protocol;
use crate::text::{json_null, json_null_text, opt_string_view, strings_view};

verus! {

/// What the corrections of a job result hold.
pub struct JobResultCorrectionsView {
    pub assignee: Option<Seq<char>>,
    pub due_date: Option<Seq<char>>,
    pub follow_up_date: Option<Seq<char>>,
    pub candidate_users: Option<Seq<Seq<char>>>,
    pub candidate_groups: Option<Seq<Seq<char>>>,
    pub priority: Option<i32>,
}

/// What a job result holds.
pub struct JobResultView {
    pub denied: Option<bool>,
    pub corrections: Option<JobResultCorrectionsView>,
}

/// The characters of each string of an optional list.
pub open spec fn opt_strings_view(o: Option<Vec<String>>) -> Option<Seq<Seq<char>>> {
    match o {
        Some(v) => Some(strings_view(v@)),
        None => None,
    }
}

/// Corrections that can be applied when completing a job.
#[derive(Debug)]
pub struct JobResultCorrections {
    assignee: Option<String>,
    due_date: Option<String>,
    follow_up_date: Option<String>,
    candidate_users: Option<Vec<String>>,
    candidate_groups: Option<Vec<String>>,
    priority: Option<i32>,
}

impl View for JobResultCorrections {
    type V = JobResultCorrectionsView;

    closed spec fn view(&self) -> JobResultCorrectionsView {
        JobResultCorrectionsView {
            assignee: opt_string_view(self.assignee),
            due_date: opt_string_view(self.due_date),
            follow_up_date: opt_string_view(self.follow_up_date),
            candidate_users: opt_strings_view(self.candidate_users),
            candidate_groups: opt_strings_view(self.candidate_groups),
            priority: self.priority,
        }
    }
}

/// A copy of an optional list of strings.
fn clone_opt_strings(o: &Option<Vec<String>>) -> (r: Option<Vec<String>>)
    ensures
        opt_strings_view(r) == opt_strings_view(*o),
{
    match o {
        Some(v) => Some(crate::text::clone_strings(v)),
        None => None,
    }
}

impl Clone for JobResultCorrections {
    /// Corrections of the same fields.
    fn clone(&self) -> (r: Self)
        ensures
            r@ == self@,
    {
        JobResultCorrections {
            assignee: crate::text::clone_opt_string(&self.assignee),
            due_date: crate::text::clone_opt_string(&self.due_date),
            follow_up_date: crate::text::clone_opt_string(&self.follow_up_date),
            candidate_users: clone_opt_strings(&self.candidate_users),
            candidate_groups: clone_opt_strings(&self.candidate_groups),
            priority: self.priority,
        }
    }
}

/// Corrections of which none is set.
pub open spec fn no_corrections() -> JobResultCorrectionsView {
    JobResultCorrectionsView {
        assignee: None,
        due_date: None,
        follow_up_date: None,
        candidate_users: None,
        candidate_groups: None,
        priority: None,
    }
}

impl JobResultCorrections {
    fn empty() -> (c: JobResultCorrections)
        ensures
            c@ == no_corrections(),
    {
        JobResultCorrections {
            assignee: None,
            due_date: None,
            follow_up_date: None,
            candidate_users: None,
            candidate_groups: None,
            priority: None,
        }
    }
}

/// The result of a completed job: whether it was denied, and corrections.
#[derive(Debug)]
pub struct JobResult {
    denied: Option<bool>,
    corrections: Option<JobResultCorrections>,
}

impl View for JobResult {
    type V = JobResultView;

    closed spec fn view(&self) -> JobResultView {
        JobResultView {
            denied: self.denied,
            corrections: match self.corrections {
                Some(c) => Some(c@),
                None => None,
            },
        }
    }
}

impl Clone for JobResult {
    /// A result of the same denial and corrections.
    fn clone(&self) -> (r: Self)
        ensures
            r@ == self@,
    {
        let corrections = match &self.corrections {
            Some(c) => Some(c.clone()),
            None => None,
        };
        JobResult { denied: self.denied, corrections }
    }
}

/// A copy of an optional job result.
fn clone_opt_job_result(o: &Option<JobResult>) -> (r: Option<JobResult>)
    ensures
        opt_job_result_view(r) == opt_job_result_view(*o),
{
    match o {
        Some(result) => Some(result.clone()),
        None => None,
    }
}

/// The view of an optional job result.
pub open spec fn opt_job_result_view(r: Option<JobResult>) -> Option<JobResultView> {
    match r {
        Some(r) => Some(r@),
        None => None,
    }
}

/// A job result that holds corrections: the given one, given corrections of none
/// if it holds none, or a result of corrections only if there is none.
pub open spec fn with_corrections(r: Option<JobResultView>) -> JobResultView {
    match r {
        Some(r) => JobResultView {
            denied: r.denied,
            corrections: match r.corrections {
                Some(c) => Some(c),
                None => Some(no_corrections()),
            },
        },
        None => JobResultView { denied: None, corrections: Some(no_corrections()) },
    }
}

/// A job result whose corrections are `c`, its denial that of `r`.
pub open spec fn corrected(r: Option<JobResultView>, c: JobResultCorrectionsView) -> Option<
    JobResultView,
> {
    Some(JobResultView { denied: with_corrections(r).denied, corrections: Some(c) })
}

/// The corrections of a job result once it is sure to hold some.
pub open spec fn corrections_of(r: Option<JobResultView>) -> JobResultCorrectionsView {
    with_corrections(r).corrections->0
}

/// A job result whose corrections are those of `r` (none set, if it holds none)
/// changed by `f`, its denial that of `r`.
pub open spec fn correct(
    r: Option<JobResultView>,
    f: spec_fn(JobResultCorrectionsView) -> JobResultCorrectionsView,
) -> Option<JobResultView> {
    corrected(r, f(corrections_of(r)))
}

/// A job result whose denial is `denied`, its corrections those of `r`.
pub open spec fn denied_as(r: Option<JobResultView>, denied: bool) -> Option<JobResultView> {
    match r {
        Some(r) => Some(JobResultView { denied: Some(denied), corrections: r.corrections }),
        None => Some(JobResultView { denied: Some(denied), corrections: None }),
    }
}

/// Setting whether a completion was denied and correcting the task commute: in
/// either order the result is the same.
pub proof fn denial_and_correction_commute(
    r: Option<JobResultView>,
    denied: bool,
    f: spec_fn(JobResultCorrectionsView) -> JobResultCorrectionsView,
)
    ensures
        denied_as(correct(r, f), denied) == correct(denied_as(r, denied), f),
{
}

/// Two corrections in a row are one correction that makes both changes, the later
/// one last.
pub proof fn corrections_compose(
    r: Option<JobResultView>,
    f: spec_fn(JobResultCorrectionsView) -> JobResultCorrectionsView,
    g: spec_fn(JobResultCorrectionsView) -> JobResultCorrectionsView,
)
    ensures
        correct(correct(r, f), g) == correct(r, |c: JobResultCorrectionsView| g(f(c))),
{
}

/// A correction of one field of a user task, with its new value.
pub enum Correction {
    Assignee(Seq<char>),
    DueDate(Seq<char>),
    FollowUpDate(Seq<char>),
    CandidateUsers(Seq<Seq<char>>),
    CandidateGroups(Seq<Seq<char>>),
    Priority(i32),
}

/// What a correction does to the corrections: it sets its field, the rest stays.
pub open spec fn apply_correction(x: Correction) -> spec_fn(JobResultCorrectionsView) -> JobResultCorrectionsView {
    |c: JobResultCorrectionsView| match x {
        Correction::Assignee(v) => JobResultCorrectionsView { assignee: Some(v), ..c },
        Correction::DueDate(v) => JobResultCorrectionsView { due_date: Some(v), ..c },
        Correction::FollowUpDate(v) => JobResultCorrectionsView { follow_up_date: Some(v), ..c },
        Correction::CandidateUsers(v) => JobResultCorrectionsView { candidate_users: Some(v), ..c },
        Correction::CandidateGroups(v) => JobResultCorrectionsView { candidate_groups: Some(v), ..c },
        Correction::Priority(v) => JobResultCorrectionsView { priority: Some(v), ..c },
    }
}

/// Whether two corrections set the same field.
pub open spec fn same_field(x: Correction, y: Correction) -> bool {
    match (x, y) {
        (Correction::Assignee(_), Correction::Assignee(_)) => true,
        (Correction::DueDate(_), Correction::DueDate(_)) => true,
        (Correction::FollowUpDate(_), Correction::FollowUpDate(_)) => true,
        (Correction::CandidateUsers(_), Correction::CandidateUsers(_)) => true,
        (Correction::CandidateGroups(_), Correction::CandidateGroups(_)) => true,
        (Correction::Priority(_), Correction::Priority(_)) => true,
        _ => false,
    }
}

/// Corrections of different fields commute: in either order the result is the
/// same; of the same field, the later one wins.
pub proof fn corrections_of_different_fields_commute(
    r: Option<JobResultView>,
    x: Correction,
    y: Correction,
)
    ensures
        !same_field(x, y) ==> correct(correct(r, apply_correction(x)), apply_correction(y))
            == correct(correct(r, apply_correction(y)), apply_correction(x)),
        same_field(x, y) ==> correct(correct(r, apply_correction(x)), apply_correction(y))
            == correct(r, apply_correction(y)),
{
}

/// A request before its job key is set.
#[derive(Debug, Clone)]
pub struct Initial;

/// A request with its job key.
#[derive(Debug, Clone)]
pub struct WithKey;

/// The states of a request to complete a job.
pub trait CompleteJobRequestState {}

impl CompleteJobRequestState for Initial {}

impl CompleteJobRequestState for WithKey {}

/// What a request to complete a job holds.
pub struct CompleteJobRequestView {
    pub job_key: i64,
    pub variables: Seq<char>,
    pub result: Option<JobResultView>,
}

/// A request to complete a job.
#[derive(Debug)]
pub struct CompleteJobRequest<T: CompleteJobRequestState> {
    job_key: i64,
    variables: String,
    result: Option<JobResult>,
    _state: std::marker::PhantomData<T>,
}

impl<T: CompleteJobRequestState> View for CompleteJobRequest<T> {
    type V = CompleteJobRequestView;

    closed spec fn view(&self) -> CompleteJobRequestView {
        CompleteJobRequestView {
            job_key: self.job_key,
            variables: self.variables@,
            result: opt_job_result_view(self.result),
        }
    }
}

impl<T: CompleteJobRequestState> Clone for CompleteJobRequest<T> {
    /// A request of the same job, variables and result.
    fn clone(&self) -> (r: Self)
        ensures
            r@ == self@,
    {
        CompleteJobRequest {
            job_key: self.job_key,
            variables: self.variables.clone(),
            result: clone_opt_job_result(&self.result),
            _state: std::marker::PhantomData,
        }
    }
}

impl<T: CompleteJobRequestState> CompleteJobRequest<T> {
    /// A request with no job key, no variables and no result.
    pub fn new() -> (r: CompleteJobRequest<Initial>)
        ensures
            r@ == (CompleteJobRequestView { job_key: 0, variables: json_null(), result: None }),
    {
        CompleteJobRequest {
            job_key: 0,
            variables: json_null_text(),
            result: None,
            _state: std::marker::PhantomData,
        }
    }

    fn transition<N: CompleteJobRequestState>(self) -> (r: CompleteJobRequest<N>)
        ensures
            r@ == self@,
    {
        CompleteJobRequest {
            job_key: self.job_key,
            variables: self.variables,
            result: self.result,
            _state: std::marker::PhantomData,
        }
    }
}

impl CompleteJobRequest<Initial> {
    /// Sets the key of the job to complete.
    pub fn with_job_key(self, job_key: i64) -> (r: CompleteJobRequest<WithKey>)
        ensures
            r@ == (CompleteJobRequestView { job_key, ..self@ }),
    {
        let mut r = self;
        r.job_key = job_key;
        r.transition()
    }
}

impl CompleteJobRequest<WithKey> {
    /// Sets the variables of the completion, given `data`: their JSON text, or the
    /// error of serializing them.
    pub fn with_variables(self, data: Result<String, serde_json::Error>) -> (r: Result<
        Self,
        ClientError,
    >)
        ensures
            match data {
                Ok(text) => r matches Ok(req) && req@ == (CompleteJobRequestView {
                    variables: text@,
                    ..self@
                }),
                Err(e) => r matches Err(ClientError::SerializationFailed { source }) && source == e,
            },
    {
        match data {
            Ok(text) => {
                let mut r = self;
                r.variables = text;
                Ok(r)
            },
            Err(e) => Err(ClientError::SerializationFailed { source: e }),
        }
    }

    /// Starts building a result of the job.
    pub fn with_job_result(self) -> (b: JobResultBuilder)
        ensures
            b@ == (JobResultBuilderView { source_request: self@, job_result: None }),
    {
        JobResultBuilder::new(self)
    }

    /// The message that completes the job: its key, its variables and its result,
    /// candidate lists wrapped as string lists.
    pub fn into_request(self) -> (m: protocol::CompleteJobRequest)
        ensures
            m.job_key == self@.job_key,
            m.variables@ == self@.variables,
            wire_job_result(m.result) == self@.result,
    {
        let result = match self.result {
            Some(r) => Some(
                protocol::JobResult {
                    denied: r.denied,
                    corrections: match r.corrections {
                        Some(c) => Some(
                            protocol::JobResultCorrections {
                                assignee: c.assignee,
                                due_date: c.due_date,
                                follow_up_date: c.follow_up_date,
                                candidate_users: match c.candidate_users {
                                    Some(u) => Some(protocol::StringList { values: u }),
                                    None => None,
                                },
                                candidate_groups: match c.candidate_groups {
                                    Some(g) => Some(protocol::StringList { values: g }),
                                    None => None,
                                },
                                priority: c.priority,
                            },
                        ),
                        None => None,
                    },
                },
            ),
            None => None,
        };
        protocol::CompleteJobRequest { job_key: self.job_key, variables: self.variables, result }
    }
}

/// The characters of each value of an optional string list.
pub open spec fn wire_string_list(l: Option<protocol::StringList>) -> Option<Seq<Seq<char>>> {
    match l {
        Some(l) => Some(strings_view(l.values@)),
        None => None,
    }
}

/// What a job result on the wire holds.
pub open spec fn wire_job_result(r: Option<protocol::JobResult>) -> Option<JobResultView> {
    match r {
        Some(r) => Some(
            JobResultView {
                denied: r.denied,
                corrections: match r.corrections {
                    Some(c) => Some(
                        JobResultCorrectionsView {
                            assignee: opt_string_view(c.assignee),
                            due_date: opt_string_view(c.due_date),
                            follow_up_date: opt_string_view(c.follow_up_date),
                            candidate_users: wire_string_list(c.candidate_users),
                            candidate_groups: wire_string_list(c.candidate_groups),
                            priority: c.priority,
                        },
                    ),
                    None => None,
                },
            },
        ),
        None => None,
    }
}

/// What a job result builder holds: the request it came from and the result so far.
pub struct JobResultBuilderView {
    pub source_request: CompleteJobRequestView,
    pub job_result: Option<JobResultView>,
}

/// A builder of the result of a completed job.
#[derive(Debug)]
pub struct JobResultBuilder {
    source_request: CompleteJobRequest<WithKey>,
    job_result: Option<JobResult>,
}

impl Clone for JobResultBuilder {
    /// A builder of the same request and result.
    fn clone(&self) -> (r: Self)
        ensures
            r@ == self@,
    {
        JobResultBuilder {
            source_request: self.source_request.clone(),
            job_result: clone_opt_job_result(&self.job_result),
        }
    }
}

impl View for JobResultBuilder {
    type V = JobResultBuilderView;

    closed spec fn view(&self) -> JobResultBuilderView {
        JobResultBuilderView {
            source_request: self.source_request@,
            job_result: opt_job_result_view(self.job_result),
        }
    }
}

impl JobResultBuilder {
    fn new(source_request: CompleteJobRequest<WithKey>) -> (b: JobResultBuilder)
        ensures
            b@ == (JobResultBuilderView { source_request: source_request@, job_result: None }),
    {
        JobResultBuilder { source_request, job_result: None }
    }

    /// Sets whether the completion was denied; the corrections stay.
    pub fn with_denied(self, denied: bool) -> (b: Self)
        ensures
            b@ == (JobResultBuilderView {
                job_result: denied_as(self@.job_result, denied),
                ..self@
            }),
    {
        let mut b = self;
        match &mut b.job_result {
            Some(job_result) => {
                job_result.denied = Some(denied);
            },
            None => {
                b.job_result = Some(JobResult { denied: Some(denied), corrections: None });
            },
        }
        b
    }

    /// Gives the result corrections of none where it holds none, and the
    /// corrections to change.
    fn ensure_corrections(&mut self) -> (c: &mut JobResultCorrections)
        ensures
            c@ == corrections_of(old(self)@.job_result),
            final(self)@ == (JobResultBuilderView {
                job_result: corrected(old(self)@.job_result, final(c)@),
                ..old(self)@
            }),
    {
        if self.job_result.is_none() {
            self.job_result = Some(
                JobResult { denied: None, corrections: Some(JobResultCorrections::empty()) },
            );
        }
        match &mut self.job_result {
            Some(job_result) => {
                if job_result.corrections.is_none() {
                    job_result.corrections = Some(JobResultCorrections::empty());
                }
                match &mut job_result.corrections {
                    Some(c) => c,
                    None => vstd::pervasive::unreached(),
                }
            },
            None => vstd::pervasive::unreached(),
        }
    }

    /// Sets the new assignee of the task; the rest of the result stays.
    pub fn with_assignee(self, assignee: String) -> (b: Self)
        ensures
            b@ == (JobResultBuilderView {
                job_result: correct(
                    self@.job_result,
                    apply_correction(Correction::Assignee(assignee@)),
                ),
                ..self@
            }),
    {
        let mut b = self;
        let c = b.ensure_corrections();
        c.assignee = Some(assignee);
        b
    }

    /// Sets the new due date of the task; the rest of the result stays.
    pub fn with_due_date(self, due_date: String) -> (b: Self)
        ensures
            b@ == (JobResultBuilderView {
                job_result: correct(
                    self@.job_result,
                    apply_correction(Correction::DueDate(due_date@)),
                ),
                ..self@
            }),
    {
        let mut b = self;
        let c = b.ensure_corrections();
        c.due_date = Some(due_date);
        b
    }

    /// Sets the new follow-up date of the task; the rest of the result stays.
    pub fn with_follow_up_date(self, follow_up_date: String) -> (b: Self)
        ensures
            b@ == (JobResultBuilderView {
                job_result: correct(
                    self@.job_result,
                    apply_correction(Correction::FollowUpDate(follow_up_date@)),
                ),
                ..self@
            }),
    {
        let mut b = self;
        let c = b.ensure_corrections();
        c.follow_up_date = Some(follow_up_date);
        b
    }

    /// Sets the users that are candidates for the task; the rest of the result stays.
    pub fn with_candidate_users(self, candidate_users: Vec<String>) -> (b: Self)
        ensures
            b@ == (JobResultBuilderView {
                job_result: correct(
                    self@.job_result,
                    apply_correction(Correction::CandidateUsers(strings_view(candidate_users@))),
                ),
                ..self@
            }),
    {
        let mut b = self;
        let c = b.ensure_corrections();
        c.candidate_users = Some(candidate_users);
        b
    }

    /// Sets the groups that are candidates for the task; the rest of the result stays.
    pub fn with_candidate_groups(self, candidate_groups: Vec<String>) -> (b: Self)
        ensures
            b@ == (JobResultBuilderView {
                job_result: correct(
                    self@.job_result,
                    apply_correction(Correction::CandidateGroups(strings_view(candidate_groups@))),
                ),
                ..self@
            }),
    {
        let mut b = self;
        let c = b.ensure_corrections();
        c.candidate_groups = Some(candidate_groups);
        b
    }

    /// Sets the new priority of the task; the rest of the result stays.
    pub fn with_priority(self, priority: i32) -> (b: Self)
        ensures
            b@ == (JobResultBuilderView {
                job_result: correct(
                    self@.job_result,
                    apply_correction(Correction::Priority(priority)),
                ),
                ..self@
            }),
    {
        let mut b = self;
        let c = b.ensure_corrections();
        c.priority = Some(priority);
        b
    }

    /// The request, now carrying the result that was built.
    pub fn build(self) -> (r: CompleteJobRequest<WithKey>)
        ensures
            r@ == (CompleteJobRequestView { result: self@.job_result, ..self@.source_request }),
    {
        let mut r = self.source_request;
        r.result = self.job_result;
        r
    }
}

/// The empty response to a completed job.
#[derive(Debug, Clone)]
pub struct CompleteJobResponse {}

} // verus!
