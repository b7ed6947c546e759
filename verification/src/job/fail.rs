//! Marking a job as failed.
use vstd::prelude::*;
use crate::client::ClientError;
use crate::protocol;
use crate::text::{json_null, json_null_text};
use crate::time::Duration;

verus! {

/// A request before its job key is set.
pub struct Initial;

/// A request with its job key.
pub struct WithKey;

/// The states of a request to fail a job.
pub trait FailJobRequestState {}

impl FailJobRequestState for Initial {}

impl FailJobRequestState for WithKey {}

/// What a request to fail a job holds.
pub struct FailJobRequestView {
    pub job_key: i64,
    pub retries: i32,
    pub error_message: Seq<char>,
    pub retry_back_off: i64,
    pub variables: Seq<char>,
}

/// A span in whole milliseconds as the gateway takes it: the low 64 bits, signed.
pub open spec fn wire_millis(d: Duration) -> i64 {
    (d.total_millis() as u128) as i64
}

/// A request to mark a job as failed.
#[derive(Debug)]
pub struct FailJobRequest<T: FailJobRequestState> {
    job_key: i64,
    retries: i32,
    error_message: String,
    retry_back_off: i64,
    variables: String,
    _state: std::marker::PhantomData<T>,
}

impl<T: FailJobRequestState> View for FailJobRequest<T> {
    type V = FailJobRequestView;

    closed spec fn view(&self) -> FailJobRequestView {
        FailJobRequestView {
            job_key: self.job_key,
            retries: self.retries,
            error_message: self.error_message@,
            retry_back_off: self.retry_back_off,
            variables: self.variables@,
        }
    }
}

impl<T: FailJobRequestState> FailJobRequest<T> {
    /// A request with no job key, no retries, no message, no back-off and no variables.
    pub fn new() -> (r: FailJobRequest<Initial>)
        ensures
            r@ == (FailJobRequestView {
                job_key: 0,
                retries: 0,
                error_message: Seq::empty(),
                retry_back_off: 0,
                variables: json_null(),
            }),
    {
        FailJobRequest {
            job_key: 0,
            retries: 0,
            error_message: String::new(),
            retry_back_off: 0,
            variables: json_null_text(),
            _state: std::marker::PhantomData,
        }
    }

    fn transition<N: FailJobRequestState>(self) -> (r: FailJobRequest<N>)
        ensures
            r@ == self@,
    {
        FailJobRequest {
            job_key: self.job_key,
            retries: self.retries,
            error_message: self.error_message,
            retry_back_off: self.retry_back_off,
            variables: self.variables,
            _state: std::marker::PhantomData,
        }
    }
}

impl FailJobRequest<Initial> {
    /// Sets the key of the job that failed.
    pub fn with_job_key(self, job_key: i64) -> (r: FailJobRequest<WithKey>)
        ensures
            r@ == (FailJobRequestView { job_key, ..self@ }),
    {
        let mut r = self;
        r.job_key = job_key;
        r.transition()
    }
}

impl FailJobRequest<WithKey> {
    /// Sets the retries left to the job.
    pub fn with_retries(self, retries: i32) -> (r: Self)
        ensures
            r@ == (FailJobRequestView { retries, ..self@ }),
    {
        let mut r = self;
        r.retries = retries;
        r
    }

    /// Sets the message that says why the job failed.
    pub fn with_error_message(self, error_message: String) -> (r: Self)
        ensures
            r@ == (FailJobRequestView { error_message: error_message@, ..self@ }),
    {
        let mut r = self;
        r.error_message = error_message;
        r
    }

    /// Sets the time to wait before the job is retried, sent in milliseconds.
    pub fn with_retry_back_off(self, retry_back_off: Duration) -> (r: Self)
        ensures
            r@ == (FailJobRequestView { retry_back_off: wire_millis(retry_back_off), ..self@ }),
    {
        let mut r = self;
        let ms = retry_back_off.as_millis();
        r.retry_back_off = ms as i64;
        r
    }

    /// Sets the variables of the failure, given `data`: their JSON text, or the
    /// error of serializing them.
    pub fn with_variables(self, data: Result<String, serde_json::Error>) -> (r: Result<
        Self,
        ClientError,
    >)
        ensures
            match data {
                Ok(text) => r matches Ok(req) && req@ == (FailJobRequestView {
                    variables: text@,
                    ..self@
                }),
                Err(e) => r matches Err(ClientError::SerializationFailed { source }) && source == e,
            },
    {
        match data {
            Ok(text) => {
                let mut r = self;
                r.variables = text;
                Ok(r)
            },
            Err(e) => Err(ClientError::SerializationFailed { source: e }),
        }
    }

    /// The message that fails the job, of the request's fields.
    pub fn into_request(self) -> (m: protocol::FailJobRequest)
        ensures
            m.job_key == self@.job_key,
            m.retries == self@.retries,
            m.error_message@ == self@.error_message,
            m.retry_back_off == self@.retry_back_off,
            m.variables@ == self@.variables,
    {
        protocol::FailJobRequest {
            job_key: self.job_key,
            retries: self.retries,
            error_message: self.error_message,
            retry_back_off: self.retry_back_off,
            variables: self.variables,
        }
    }
}

/// The empty response to a failed job.
#[derive(Debug, Clone)]
pub struct FailJobResponse {}

} // verus!
