//! Resolving incidents.
use vstd::prelude::*;
use crate::protocol;

verus! {

/// A request before its incident key is set.
pub struct Initial;

/// A request with its incident key.
pub struct WithKey;

/// The states of a request to mark an incident as resolved.
pub trait ResolveIncidentRequestState {}

impl ResolveIncidentRequestState for Initial {}

impl ResolveIncidentRequestState for WithKey {}

/// What a request to mark an incident as resolved holds.
pub struct ResolveIncidentRequestView {
    pub incident_key: i64,
    pub operation_reference: Option<u64>,
}

/// A request to mark an incident as resolved.
#[derive(Debug)]
pub struct ResolveIncidentRequest<T: ResolveIncidentRequestState> {
    incident_key: i64,
    operation_reference: Option<u64>,
    _state: std::marker::PhantomData<T>,
}

impl<T: ResolveIncidentRequestState> View for ResolveIncidentRequest<T> {
    type V = ResolveIncidentRequestView;

    closed spec fn view(&self) -> ResolveIncidentRequestView {
        ResolveIncidentRequestView {
            incident_key: self.incident_key,
            operation_reference: self.operation_reference,
        }
    }
}

impl<T: ResolveIncidentRequestState> ResolveIncidentRequest<T> {
    /// A request with nothing set.
    pub fn new() -> (r: ResolveIncidentRequest<Initial>)
        ensures
            r@ == (ResolveIncidentRequestView {
                incident_key: 0,
                operation_reference: None,
            }),
    {
        ResolveIncidentRequest {
            incident_key: 0,
            operation_reference: None,
            _state: std::marker::PhantomData,
        }
    }

    fn transition<N: ResolveIncidentRequestState>(self) -> (r: ResolveIncidentRequest<N>)
        ensures
            r@ == self@,
    {
        ResolveIncidentRequest {
            incident_key: self.incident_key,
            operation_reference: self.operation_reference,
            _state: std::marker::PhantomData,
        }
    }

    /// Sets a reference that the records of the operation carry.
    pub fn with_operation_reference(self, operation_reference: u64) -> (r: Self)
        ensures
            r@ == (ResolveIncidentRequestView { operation_reference: Some(operation_reference), ..self@ }),
    {
        let mut r = self;
        r.operation_reference = Some(operation_reference);
        r
    }
}

impl ResolveIncidentRequest<Initial> {

    /// Sets the key of the incident to resolve.
    pub fn with_incident_key(self, incident_key: i64) -> (r: ResolveIncidentRequest<WithKey>)
        ensures
            r@ == (ResolveIncidentRequestView { incident_key: incident_key, ..self@ }),
    {
        let mut r = self;
        r.incident_key = incident_key;
        r.transition()
    }
}

impl ResolveIncidentRequest<WithKey> {

    /// The message of the request's fields.
    pub fn into_request(self) -> (m: protocol::ResolveIncidentRequest)
        ensures
            m.incident_key == self@.incident_key,
            m.operation_reference == self@.operation_reference,
    {
        protocol::ResolveIncidentRequest {
            incident_key: self.incident_key,
            operation_reference: self.operation_reference,
        }
    }
}

/// The empty response to a resolved incident.
#[derive(Debug, Clone)]
pub struct ResolveIncidentResponse {}

} // verus!
