//! Setting variables.
use vstd::prelude::*;
use crate::protocol;
use crate::text::{json_null, json_null_text};

verus! {

/// Errors of setting variables.
#[derive(Debug)]
pub enum SetVariablesError {
    /// The variables could not be serialized.
    DeserializeFailed(serde_json::Error),
}

/// A request before its element instance is set.
pub struct Initial;

/// A request with its element instance.
pub struct WithInstanceKey;

/// A request with its element instance and variables.
pub struct WithVariables;

/// The states of a request to set variables in the scope of an element instance.
pub trait SetVariablesRequestState {}

impl SetVariablesRequestState for Initial {}

impl SetVariablesRequestState for WithInstanceKey {}

impl SetVariablesRequestState for WithVariables {}

/// What a request to set variables in the scope of an element instance holds.
pub struct SetVariablesRequestView {
    pub element_instance_key: i64,
    pub variables: Seq<char>,
    pub local: bool,
    pub operation_reference: Option<u64>,
}

/// A request to set variables in the scope of an element instance.
#[derive(Debug)]
pub struct SetVariablesRequest<T: SetVariablesRequestState> {
    element_instance_key: i64,
    variables: String,
    local: bool,
    operation_reference: Option<u64>,
    _state: std::marker::PhantomData<T>,
}

impl<T: SetVariablesRequestState> View for SetVariablesRequest<T> {
    type V = SetVariablesRequestView;

    closed spec fn view(&self) -> SetVariablesRequestView {
        SetVariablesRequestView {
            element_instance_key: self.element_instance_key,
            variables: self.variables@,
            local: self.local,
            operation_reference: self.operation_reference,
        }
    }
}

impl<T: SetVariablesRequestState> SetVariablesRequest<T> {
    /// A request with nothing set.
    pub fn new() -> (r: SetVariablesRequest<Initial>)
        ensures
            r@ == (SetVariablesRequestView {
                element_instance_key: 0,
                variables: json_null(),
                local: false,
                operation_reference: None,
            }),
    {
        SetVariablesRequest {
            element_instance_key: 0,
            variables: json_null_text(),
            local: false,
            operation_reference: None,
            _state: std::marker::PhantomData,
        }
    }

    fn transition<N: SetVariablesRequestState>(self) -> (r: SetVariablesRequest<N>)
        ensures
            r@ == self@,
    {
        SetVariablesRequest {
            element_instance_key: self.element_instance_key,
            variables: self.variables,
            local: self.local,
            operation_reference: self.operation_reference,
            _state: std::marker::PhantomData,
        }
    }

    /// Sets a reference that the records of the operation carry.
    pub fn with_operation_reference(self, operation_reference: u64) -> (r: Self)
        ensures
            r@ == (SetVariablesRequestView { operation_reference: Some(operation_reference), ..self@ }),
    {
        let mut r = self;
        r.operation_reference = Some(operation_reference);
        r
    }

    /// Sets whether the variables are created in the local scope only, not propagated to parent scopes.
    pub fn set_local_scope(self, is_local_scope: bool) -> (r: Self)
        ensures
            r@ == (SetVariablesRequestView { local: is_local_scope, ..self@ }),
    {
        let mut r = self;
        r.local = is_local_scope;
        r
    }
}

impl SetVariablesRequest<Initial> {

    /// Sets the key of the element instance whose scope receives the variables.
    pub fn with_element_instance_key(self, element_instance_key: i64) -> (r: SetVariablesRequest<WithInstanceKey>)
        ensures
            r@ == (SetVariablesRequestView { element_instance_key: element_instance_key, ..self@ }),
    {
        let mut r = self;
        r.element_instance_key = element_instance_key;
        r.transition()
    }
}

impl SetVariablesRequest<WithInstanceKey> {

    /// Sets the variables, given `data`: their JSON text, or the error of serializing them.
    pub fn with_variable(self, data: Result<String, serde_json::Error>) -> (r: Result<SetVariablesRequest<WithVariables>, SetVariablesError>)
        ensures
            match data {
                Ok(text) => r matches Ok(req) && req@ == (SetVariablesRequestView { variables: text@, ..self@ }),
                Err(e) => r matches Err(SetVariablesError::DeserializeFailed(source)) && source == e,
            },
    {
        match data {
            Ok(text) => {
                let mut r = self;
                r.variables = text;
                Ok(r.transition())
            },
            Err(e) => Err(SetVariablesError::DeserializeFailed(e)),
        }
    }
}

impl SetVariablesRequest<WithVariables> {

    /// The message of the request's fields.
    pub fn into_request(self) -> (m: protocol::SetVariablesRequest)
        ensures
            m.element_instance_key == self@.element_instance_key,
            m.variables@ == self@.variables,
            m.local == self@.local,
            m.operation_reference == self@.operation_reference,
    {
        protocol::SetVariablesRequest {
            element_instance_key: self.element_instance_key,
            variables: self.variables,
            local: self.local,
            operation_reference: self.operation_reference,
        }
    }
}

/// What a set variables response holds.
pub struct SetVariablesResponseView {
    pub key: i64,
}

/// The response to setting variables.
#[derive(Debug, Clone)]
pub struct SetVariablesResponse {
    key: i64,
}

impl View for SetVariablesResponse {
    type V = SetVariablesResponseView;

    closed spec fn view(&self) -> SetVariablesResponseView {
        SetVariablesResponseView {
            key: self.key,
        }
    }
}

impl SetVariablesResponse {
    /// A value of the given fields, as the gateway reports them.
    pub fn new(key: i64) -> (r: Self)
        ensures
            r@ == (SetVariablesResponseView {
                key: key,
            }),
    {
        SetVariablesResponse { key }
    }

    /// The key of the operation.
    pub fn key(&self) -> (r: i64)
        ensures
            r == self@.key,
    {
        self.key
    }
}

} // verus!
