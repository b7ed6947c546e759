//! Broadcasting signals.
use vstd::prelude::*;
use crate::client::ClientError;
use crate::protocol;
use crate::text::{json_null, json_null_text};

verus! {

/// A request before its signal name is set.
pub struct Initial;

/// A request with its signal name.
pub struct WithName;

/// The states of a request to broadcast a signal, caught by signal events of the same name.
pub trait BroadcastSignalRequestState {}

impl BroadcastSignalRequestState for Initial {}

impl BroadcastSignalRequestState for WithName {}

/// What a request to broadcast a signal, caught by signal events of the same name holds.
pub struct BroadcastSignalRequestView {
    pub signal_name: Seq<char>,
    pub variables: Seq<char>,
    pub tenant_id: Seq<char>,
}

/// A request to broadcast a signal, caught by signal events of the same name.
#[derive(Debug)]
pub struct BroadcastSignalRequest<T: BroadcastSignalRequestState> {
    signal_name: String,
    variables: String,
    tenant_id: String,
    _state: std::marker::PhantomData<T>,
}

impl<T: BroadcastSignalRequestState> View for BroadcastSignalRequest<T> {
    type V = BroadcastSignalRequestView;

    closed spec fn view(&self) -> BroadcastSignalRequestView {
        BroadcastSignalRequestView {
            signal_name: self.signal_name@,
            variables: self.variables@,
            tenant_id: self.tenant_id@,
        }
    }
}

impl<T: BroadcastSignalRequestState> BroadcastSignalRequest<T> {
    /// A request with nothing set.
    pub fn new() -> (r: BroadcastSignalRequest<Initial>)
        ensures
            r@ == (BroadcastSignalRequestView {
                signal_name: Seq::empty(),
                variables: json_null(),
                tenant_id: Seq::empty(),
            }),
    {
        BroadcastSignalRequest {
            signal_name: String::new(),
            variables: json_null_text(),
            tenant_id: String::new(),
            _state: std::marker::PhantomData,
        }
    }

    fn transition<N: BroadcastSignalRequestState>(self) -> (r: BroadcastSignalRequest<N>)
        ensures
            r@ == self@,
    {
        BroadcastSignalRequest {
            signal_name: self.signal_name,
            variables: self.variables,
            tenant_id: self.tenant_id,
            _state: std::marker::PhantomData,
        }
    }
}

impl BroadcastSignalRequest<Initial> {

    /// Sets the name that signal catch events match.
    pub fn with_signal_name(self, signal_name: String) -> (r: BroadcastSignalRequest<WithName>)
        ensures
            r@ == (BroadcastSignalRequestView { signal_name: signal_name@, ..self@ }),
    {
        let mut r = self;
        r.signal_name = signal_name;
        r.transition()
    }
}

impl BroadcastSignalRequest<WithName> {

    /// Sets the variables of the triggered signal events, given `data`: their JSON text, or the error of serializing them.
    pub fn with_variables(self, data: Result<String, serde_json::Error>) -> (r: Result<Self, ClientError>)
        ensures
            match data {
                Ok(text) => r matches Ok(req) && req@ == (BroadcastSignalRequestView { variables: text@, ..self@ }),
                Err(e) => r matches Err(ClientError::SerializationFailed { source }) && source == e,
            },
    {
        match data {
            Ok(text) => {
                let mut r = self;
                r.variables = text;
                Ok(r)
            },
            Err(e) => Err(ClientError::SerializationFailed { source: e }),
        }
    }

    /// Sets the tenant that owns the signal.
    pub fn with_tenant_id(self, tenant_id: String) -> (r: Self)
        ensures
            r@ == (BroadcastSignalRequestView { tenant_id: tenant_id@, ..self@ }),
    {
        let mut r = self;
        r.tenant_id = tenant_id;
        r
    }

    /// The message of the request's fields.
    pub fn into_request(self) -> (m: protocol::BroadcastSignalRequest)
        ensures
            m.signal_name@ == self@.signal_name,
            m.variables@ == self@.variables,
            m.tenant_id@ == self@.tenant_id,
    {
        protocol::BroadcastSignalRequest {
            signal_name: self.signal_name,
            variables: self.variables,
            tenant_id: self.tenant_id,
        }
    }
}

/// What a broadcast signal response holds.
pub struct BroadcastSignalResponseView {
    pub key: i64,
    pub tenant_id: Seq<char>,
}

/// The response to a broadcast signal.
#[derive(Debug, Clone)]
pub struct BroadcastSignalResponse {
    key: i64,
    tenant_id: String,
}

impl View for BroadcastSignalResponse {
    type V = BroadcastSignalResponseView;

    closed spec fn view(&self) -> BroadcastSignalResponseView {
        BroadcastSignalResponseView {
            key: self.key,
            tenant_id: self.tenant_id@,
        }
    }
}

impl BroadcastSignalResponse {
    /// A value of the given fields, as the gateway reports them.
    pub fn new(key: i64, tenant_id: String) -> (r: Self)
        ensures
            r@ == (BroadcastSignalResponseView {
                key: key,
                tenant_id: tenant_id@,
            }),
    {
        BroadcastSignalResponse { key, tenant_id }
    }

    /// The key of the broadcast.
    pub fn key(&self) -> (r: i64)
        ensures
            r == self@.key,
    {
        self.key
    }

    /// The tenant that owns the signal; empty without multi-tenancy.
    pub fn tenant_id(&self) -> (r: &str)
        ensures
            r@ == self@.tenant_id,
    {
        self.tenant_id.as_str()
    }
}

} // verus!
