//! Updating the retries of a job.
use vstd::prelude::*;
use crate::protocol;

verus! {

/// A request before its job key is set.
pub struct Initial;

/// A request with its job key.
pub struct WithKey;

/// A request with its job key and retries.
pub struct WithRetries;

/// The states of a request to update a job's retries.
pub trait UpdateJobRetriesRequestState {}

impl UpdateJobRetriesRequestState for Initial {}

impl UpdateJobRetriesRequestState for WithKey {}

impl UpdateJobRetriesRequestState for WithRetries {}

/// What a request to update a job's retries holds.
pub struct UpdateJobRetriesRequestView {
    pub job_key: i64,
    pub retries: i32,
    pub operation_reference: Option<u64>,
}

/// A request to update the number of retries of a job.
#[derive(Debug)]
pub struct UpdateJobRetriesRequest<T: UpdateJobRetriesRequestState> {
    job_key: i64,
    retries: i32,
    operation_reference: Option<u64>,
    _state: std::marker::PhantomData<T>,
}

impl<T: UpdateJobRetriesRequestState> View for UpdateJobRetriesRequest<T> {
    type V = UpdateJobRetriesRequestView;

    closed spec fn view(&self) -> UpdateJobRetriesRequestView {
        UpdateJobRetriesRequestView {
            job_key: self.job_key,
            retries: self.retries,
            operation_reference: self.operation_reference,
        }
    }
}

impl<T: UpdateJobRetriesRequestState> UpdateJobRetriesRequest<T> {
    /// A request with no job key, no retries and no operation reference.
    pub fn new() -> (r: UpdateJobRetriesRequest<Initial>)
        ensures
            r@ == (UpdateJobRetriesRequestView { job_key: 0, retries: 0, operation_reference: None }),
    {
        UpdateJobRetriesRequest {
            job_key: 0,
            retries: 0,
            operation_reference: None,
            _state: std::marker::PhantomData,
        }
    }

    fn transition<N: UpdateJobRetriesRequestState>(self) -> (r: UpdateJobRetriesRequest<N>)
        ensures
            r@ == self@,
    {
        UpdateJobRetriesRequest {
            job_key: self.job_key,
            retries: self.retries,
            operation_reference: self.operation_reference,
            _state: std::marker::PhantomData,
        }
    }
}

impl UpdateJobRetriesRequest<Initial> {
    /// Sets the key of the job to update.
    pub fn with_job_key(self, job_key: i64) -> (r: UpdateJobRetriesRequest<WithKey>)
        ensures
            r@ == (UpdateJobRetriesRequestView { job_key, ..self@ }),
    {
        let mut r = self;
        r.job_key = job_key;
        r.transition()
    }
}

impl UpdateJobRetriesRequest<WithKey> {
    /// Sets the new number of retries.
    pub fn with_retries(self, retries: i32) -> (r: UpdateJobRetriesRequest<WithRetries>)
        ensures
            r@ == (UpdateJobRetriesRequestView { retries, ..self@ }),
    {
        let mut r = self;
        r.retries = retries;
        r.transition()
    }
}

impl UpdateJobRetriesRequest<WithRetries> {
    /// Sets a reference that the records of the operation carry.
    pub fn with_operation_reference(self, operation_reference: u64) -> (r: Self)
        ensures
            r@ == (UpdateJobRetriesRequestView {
                operation_reference: Some(operation_reference),
                ..self@
            }),
    {
        let mut r = self;
        r.operation_reference = Some(operation_reference);
        r
    }

    /// The message that updates the retries, of the request's fields.
    pub fn into_request(self) -> (m: protocol::UpdateJobRetriesRequest)
        ensures
            m.job_key == self@.job_key,
            m.retries == self@.retries,
            m.operation_reference == self@.operation_reference,
    {
        protocol::UpdateJobRetriesRequest {
            job_key: self.job_key,
            retries: self.retries,
            operation_reference: self.operation_reference,
        }
    }
}

/// The empty response to updated retries.
#[derive(Debug, Clone)]
pub struct UpdateJobRetriesResponse {}

} // verus!
