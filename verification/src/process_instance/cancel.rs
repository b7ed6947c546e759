//! Cancelling a running process instance.
use vstd::prelude::*;
use crate::protocol;

verus! {

/// A request before its process instance is set.
#[derive(Debug, Clone)]
pub struct Initial;

/// A request with its process instance.
#[derive(Debug, Clone)]
pub struct WithProcessInstance;

/// The states of a request to cancel a process instance.
pub trait CancelProcessInstanceState {}

impl CancelProcessInstanceState for Initial {}

impl CancelProcessInstanceState for WithProcessInstance {}

/// What a request to cancel a process instance holds.
pub struct CancelProcessInstanceRequestView {
    pub process_instance_key: i64,
    pub operation_reference: Option<u64>,
}

/// A request to cancel a running process instance.
#[derive(Debug)]
pub struct CancelProcessInstanceRequest<T: CancelProcessInstanceState> {
    process_instance_key: i64,
    operation_reference: Option<u64>,
    _state: std::marker::PhantomData<T>,
}

impl<T: CancelProcessInstanceState> View for CancelProcessInstanceRequest<T> {
    type V = CancelProcessInstanceRequestView;

    closed spec fn view(&self) -> CancelProcessInstanceRequestView {
        CancelProcessInstanceRequestView {
            process_instance_key: self.process_instance_key,
            operation_reference: self.operation_reference,
        }
    }
}

impl<T: CancelProcessInstanceState> Clone for CancelProcessInstanceRequest<T> {
    /// A request of the same fields.
    fn clone(&self) -> (r: Self)
        ensures
            r@ == self@,
    {
        CancelProcessInstanceRequest {
            process_instance_key: self.process_instance_key,
            operation_reference: self.operation_reference,
            _state: std::marker::PhantomData,
        }
    }
}

impl<T: CancelProcessInstanceState> CancelProcessInstanceRequest<T> {
    /// A request with no process instance and no operation reference.
    pub fn new() -> (r: CancelProcessInstanceRequest<Initial>)
        ensures
            r@ == (CancelProcessInstanceRequestView { process_instance_key: 0, operation_reference: None }),
    {
        CancelProcessInstanceRequest {
            process_instance_key: 0,
            operation_reference: None,
            _state: std::marker::PhantomData,
        }
    }

    fn transition<N: CancelProcessInstanceState>(self) -> (r: CancelProcessInstanceRequest<N>)
        ensures
            r@ == self@,
    {
        CancelProcessInstanceRequest {
            process_instance_key: self.process_instance_key,
            operation_reference: self.operation_reference,
            _state: std::marker::PhantomData,
        }
    }
}

impl CancelProcessInstanceRequest<Initial> {
    /// Sets the key of the instance to cancel.
    pub fn with_process_instance_key(self, process_instance_key: i64) -> (r:
        CancelProcessInstanceRequest<WithProcessInstance>)
        ensures
            r@ == (CancelProcessInstanceRequestView { process_instance_key, ..self@ }),
    {
        let mut r = self;
        r.process_instance_key = process_instance_key;
        r.transition()
    }
}

impl CancelProcessInstanceRequest<WithProcessInstance> {
    /// The message that cancels the instance, of the request's fields.
    pub fn into_request(self) -> (m: protocol::CancelProcessInstanceRequest)
        ensures
            m.process_instance_key == self@.process_instance_key,
            m.operation_reference == self@.operation_reference,
    {
        protocol::CancelProcessInstanceRequest {
            process_instance_key: self.process_instance_key,
            operation_reference: self.operation_reference,
        }
    }

    /// Sets a reference that the records of the operation carry.
    pub fn with_operation_reference(self, operation_reference: u64) -> (r: Self)
        ensures
            r@ == (CancelProcessInstanceRequestView {
                operation_reference: Some(operation_reference),
                ..self@
            }),
    {
        let mut r = self;
        r.operation_reference = Some(operation_reference);
        r
    }
}

/// The empty response to a cancellation.
#[derive(Debug, Clone)]
pub struct CancelProcessInstanceResponse {}

} // verus!
