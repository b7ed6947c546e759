//! Updating the deadline of a job.
use vstd::prelude::*;
use crate::client::{code_of, status_code, ClientError};
use crate::job::fail::wire_millis;
use crate::protocol;
use crate::time::Duration;

verus! {

/// A request before its job key is set.
pub struct Initial;

/// A request with its job key.
pub struct WithKey;

/// A request with its job key and timeout.
pub struct WithTimeout;

/// The states of a request to update a job's timeout.
pub trait UpdateJobTimeoutRequestState {}

impl UpdateJobTimeoutRequestState for Initial {}

impl UpdateJobTimeoutRequestState for WithKey {}

impl UpdateJobTimeoutRequestState for WithTimeout {}

/// What a request to update a job's timeout holds.
pub struct UpdateJobTimeoutRequestView {
    pub job_key: i64,
    pub timeout: i64,
    pub operation_reference: Option<u64>,
}

/// A request to update the deadline of a job by a timeout in milliseconds.
#[derive(Debug)]
pub struct UpdateJobTimeoutRequest<T: UpdateJobTimeoutRequestState> {
    job_key: i64,
    timeout: i64,
    operation_reference: Option<u64>,
    _state: std::marker::PhantomData<T>,
}

impl<T: UpdateJobTimeoutRequestState> View for UpdateJobTimeoutRequest<T> {
    type V = UpdateJobTimeoutRequestView;

    closed spec fn view(&self) -> UpdateJobTimeoutRequestView {
        UpdateJobTimeoutRequestView {
            job_key: self.job_key,
            timeout: self.timeout,
            operation_reference: self.operation_reference,
        }
    }
}

impl<T: UpdateJobTimeoutRequestState> UpdateJobTimeoutRequest<T> {
    /// A request with no job key, no timeout and no operation reference.
    pub fn new() -> (r: UpdateJobTimeoutRequest<Initial>)
        ensures
            r@ == (UpdateJobTimeoutRequestView { job_key: 0, timeout: 0, operation_reference: None }),
    {
        UpdateJobTimeoutRequest {
            job_key: 0,
            timeout: 0,
            operation_reference: None,
            _state: std::marker::PhantomData,
        }
    }

    fn transition<N: UpdateJobTimeoutRequestState>(self) -> (r: UpdateJobTimeoutRequest<N>)
        ensures
            r@ == self@,
    {
        UpdateJobTimeoutRequest {
            job_key: self.job_key,
            timeout: self.timeout,
            operation_reference: self.operation_reference,
            _state: std::marker::PhantomData,
        }
    }
}

impl UpdateJobTimeoutRequest<Initial> {
    /// Sets the key of the job to update.
    pub fn with_job_key(self, job_key: i64) -> (r: UpdateJobTimeoutRequest<WithKey>)
        ensures
            r@ == (UpdateJobTimeoutRequestView { job_key, ..self@ }),
    {
        let mut r = self;
        r.job_key = job_key;
        r.transition()
    }
}

impl UpdateJobTimeoutRequest<WithKey> {
    /// Sets the new timeout, sent in milliseconds.
    pub fn with_timeout(self, timeout: Duration) -> (r: UpdateJobTimeoutRequest<WithTimeout>)
        ensures
            r@ == (UpdateJobTimeoutRequestView { timeout: wire_millis(timeout), ..self@ }),
    {
        let mut r = self;
        let ms = timeout.as_millis();
        r.timeout = ms as i64;
        r.transition()
    }
}

impl UpdateJobTimeoutRequest<WithTimeout> {
    /// Sets a reference that the records of the operation carry.
    pub fn with_operation_reference(self, operation_reference: u64) -> (r: Self)
        ensures
            r@ == (UpdateJobTimeoutRequestView {
                operation_reference: Some(operation_reference),
                ..self@
            }),
    {
        let mut r = self;
        r.operation_reference = Some(operation_reference);
        r
    }

    /// The message that updates the timeout, of the request's fields.
    pub fn into_request(self) -> (m: protocol::UpdateJobTimeoutRequest)
        ensures
            m.job_key == self@.job_key,
            m.timeout == self@.timeout,
            m.operation_reference == self@.operation_reference,
    {
        protocol::UpdateJobTimeoutRequest {
            job_key: self.job_key,
            timeout: self.timeout,
            operation_reference: self.operation_reference,
        }
    }
}

/// The empty response to an updated timeout.
#[derive(Debug, Clone)]
pub struct UpdateJobTimeoutResponse {}

/// The gRPC code with which the gateway answers that no job has the key.
pub const NOT_FOUND_CODE: i32 = 5;

/// The gRPC code with which the gateway answers that the job is in no state for
/// the update: it has no deadline.
pub const FAILED_PRECONDITION_CODE: i32 = 9;

/// The error of a refused timeout update whose status has the gRPC code `code`:
/// an unknown job, a job without a deadline, or any other refusal.
pub open spec fn timeout_refusal(code: i32, status: tonic::Status) -> ClientError {
    if code == NOT_FOUND_CODE {
        ClientError::NotFound(status)
    } else if code == FAILED_PRECONDITION_CODE {
        ClientError::InvalidState(status)
    } else {
        ClientError::RequestFailed(status)
    }
}

/// The error of a refused timeout update, given the code of the gateway's status:
/// `NotFound` for an unknown job, `InvalidState` for a job without a deadline,
/// `RequestFailed` for every other refusal; the status is kept.
pub fn refusal_for_code(code: i32, status: tonic::Status) -> (e: ClientError)
    ensures
        e == timeout_refusal(code, status),
{
    if code == NOT_FOUND_CODE {
        ClientError::NotFound(status)
    } else if code == FAILED_PRECONDITION_CODE {
        ClientError::InvalidState(status)
    } else {
        ClientError::RequestFailed(status)
    }
}

/// The error of a timeout update that the gateway refused with `status`.
pub fn refusal(status: tonic::Status) -> (e: ClientError)
    ensures
        e == timeout_refusal(status_code(status), status),
{
    let code = code_of(&status);
    refusal_for_code(code, status)
}

} // verus!
