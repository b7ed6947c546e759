//! Throwing a business error for a job.
use vstd::prelude::*;
use crate::client::ClientError;
use crate::protocol;
use crate::text::{json_null, json_null_text};

verus! {

/// A request before its job key is set.
pub struct Initial;

/// A request with its job key.
pub struct WithKey;

/// A request with its job key and error code.
pub struct WithCode;

/// The states of a request to throw an error.
pub trait ThrowErrorRequestState {}

impl ThrowErrorRequestState for Initial {}

impl ThrowErrorRequestState for WithKey {}

impl ThrowErrorRequestState for WithCode {}

/// What a request to throw an error holds.
pub struct ThrowErrorRequestView {
    pub job_key: i64,
    pub error_code: Seq<char>,
    pub error_message: Seq<char>,
    pub variables: Seq<char>,
}

/// A request to throw a business error for a job, caught by an error catch event
/// of the process or else raised as an incident.
#[derive(Debug)]
pub struct ThrowErrorRequest<T: ThrowErrorRequestState> {
    job_key: i64,
    error_code: String,
    error_message: String,
    variables: String,
    _state: std::marker::PhantomData<T>,
}

impl<T: ThrowErrorRequestState> View for ThrowErrorRequest<T> {
    type V = ThrowErrorRequestView;

    closed spec fn view(&self) -> ThrowErrorRequestView {
        ThrowErrorRequestView {
            job_key: self.job_key,
            error_code: self.error_code@,
            error_message: self.error_message@,
            variables: self.variables@,
        }
    }
}

impl<T: ThrowErrorRequestState> ThrowErrorRequest<T> {
    /// A request with no job key, no code, no message and no variables.
    pub fn new() -> (r: ThrowErrorRequest<Initial>)
        ensures
            r@ == (ThrowErrorRequestView {
                job_key: 0,
                error_code: Seq::empty(),
                error_message: Seq::empty(),
                variables: json_null(),
            }),
    {
        ThrowErrorRequest {
            job_key: 0,
            error_code: String::new(),
            error_message: String::new(),
            variables: json_null_text(),
            _state: std::marker::PhantomData,
        }
    }

    fn transition<N: ThrowErrorRequestState>(self) -> (r: ThrowErrorRequest<N>)
        ensures
            r@ == self@,
    {
        ThrowErrorRequest {
            job_key: self.job_key,
            error_code: self.error_code,
            error_message: self.error_message,
            variables: self.variables,
            _state: std::marker::PhantomData,
        }
    }
}

impl ThrowErrorRequest<Initial> {
    /// Sets the key of the job for which the error is thrown.
    pub fn with_job_key(self, job_key: i64) -> (r: ThrowErrorRequest<WithKey>)
        ensures
            r@ == (ThrowErrorRequestView { job_key, ..self@ }),
    {
        let mut r = self;
        r.job_key = job_key;
        r.transition()
    }
}

impl ThrowErrorRequest<WithKey> {
    /// Sets the code that an error catch event matches.
    pub fn with_error_code(self, error_code: String) -> (r: ThrowErrorRequest<WithCode>)
        ensures
            r@ == (ThrowErrorRequestView { error_code: error_code@, ..self@ }),
    {
        let mut r = self;
        r.error_code = error_code;
        r.transition()
    }
}

impl ThrowErrorRequest<WithCode> {
    /// Sets a message that describes the error.
    pub fn with_error_message(self, error_message: String) -> (r: Self)
        ensures
            r@ == (ThrowErrorRequestView { error_message: error_message@, ..self@ }),
    {
        let mut r = self;
        r.error_message = error_message;
        r
    }

    /// Sets the variables of the error's catch event scope, given `data`: their
    /// JSON text, or the error of serializing them.
    pub fn with_variables(self, data: Result<String, serde_json::Error>) -> (r: Result<
        Self,
        ClientError,
    >)
        ensures
            match data {
                Ok(text) => r matches Ok(req) && req@ == (ThrowErrorRequestView {
                    variables: text@,
                    ..self@
                }),
                Err(e) => r matches Err(ClientError::JsonError(source)) && source == e,
            },
    {
        match data {
            Ok(text) => {
                let mut r = self;
                r.variables = text;
                Ok(r)
            },
            Err(e) => Err(ClientError::JsonError(e)),
        }
    }

    /// The message that throws the error, of the request's fields.
    pub fn into_request(self) -> (m: protocol::ThrowErrorRequest)
        ensures
            m.job_key == self@.job_key,
            m.error_code@ == self@.error_code,
            m.error_message@ == self@.error_message,
            m.variables@ == self@.variables,
    {
        protocol::ThrowErrorRequest {
            job_key: self.job_key,
            error_code: self.error_code,
            error_message: self.error_message,
            variables: self.variables,
        }
    }
}

/// The empty response to a thrown error.
#[derive(Debug, Clone)]
pub struct ThrowErrorResponse {}

} // verus!
