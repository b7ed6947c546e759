//! Publishing messages.
use vstd::prelude::*;
use crate::protocol;
use crate::text::{json_null, json_null_text};

verus! {

/// Errors of publishing a message.
#[derive(Debug)]
pub enum MessageError {
    /// The variables could not be serialized.
    JsonError(serde_json::Error),
}

/// A request before its name is set.
pub struct Initial;

/// A request with its name.
pub struct WithName;

/// A request with its name and correlation key.
pub struct WithKey;

/// The states of a request to publish a message.
pub trait PublishMessageRequestState {}

impl PublishMessageRequestState for Initial {}

impl PublishMessageRequestState for WithName {}

impl PublishMessageRequestState for WithKey {}

/// What a request to publish a message holds.
pub struct PublishMessageRequestView {
    pub name: Seq<char>,
    pub correlation_key: Seq<char>,
    pub time_to_live: i64,
    pub message_id: Seq<char>,
    pub variables: Seq<char>,
    pub tenant_id: Seq<char>,
}

/// A request to publish a message.
#[derive(Debug)]
pub struct PublishMessageRequest<T: PublishMessageRequestState> {
    name: String,
    correlation_key: String,
    time_to_live: i64,
    message_id: String,
    variables: String,
    tenant_id: String,
    _state: std::marker::PhantomData<T>,
}

impl<T: PublishMessageRequestState> View for PublishMessageRequest<T> {
    type V = PublishMessageRequestView;

    closed spec fn view(&self) -> PublishMessageRequestView {
        PublishMessageRequestView {
            name: self.name@,
            correlation_key: self.correlation_key@,
            time_to_live: self.time_to_live,
            message_id: self.message_id@,
            variables: self.variables@,
            tenant_id: self.tenant_id@,
        }
    }
}

impl<T: PublishMessageRequestState> PublishMessageRequest<T> {
    /// A request with nothing set.
    pub fn new() -> (r: PublishMessageRequest<Initial>)
        ensures
            r@ == (PublishMessageRequestView {
                name: Seq::empty(),
                correlation_key: Seq::empty(),
                time_to_live: 0,
                message_id: Seq::empty(),
                variables: json_null(),
                tenant_id: Seq::empty(),
            }),
    {
        PublishMessageRequest {
            name: String::new(),
            correlation_key: String::new(),
            time_to_live: 0,
            message_id: String::new(),
            variables: json_null_text(),
            tenant_id: String::new(),
            _state: std::marker::PhantomData,
        }
    }

    fn transition<N: PublishMessageRequestState>(self) -> (r: PublishMessageRequest<N>)
        ensures
            r@ == self@,
    {
        PublishMessageRequest {
            name: self.name,
            correlation_key: self.correlation_key,
            time_to_live: self.time_to_live,
            message_id: self.message_id,
            variables: self.variables,
            tenant_id: self.tenant_id,
            _state: std::marker::PhantomData,
        }
    }
}

impl PublishMessageRequest<Initial> {

    /// Sets the name of the message.
    pub fn with_name(self, name: String) -> (r: PublishMessageRequest<WithName>)
        ensures
            r@ == (PublishMessageRequestView { name: name@, ..self@ }),
    {
        let mut r = self;
        r.name = name;
        r.transition()
    }
}

impl PublishMessageRequest<WithName> {

    /// Sets the key that correlates the message to a process instance.
    pub fn with_correlation_key(self, correlation_key: String) -> (r: PublishMessageRequest<WithKey>)
        ensures
            r@ == (PublishMessageRequestView { correlation_key: correlation_key@, ..self@ }),
    {
        let mut r = self;
        r.correlation_key = correlation_key;
        r.transition()
    }
}

impl PublishMessageRequest<WithKey> {

    /// Sets how long the message is buffered, in seconds; it is sent in milliseconds.
    pub fn with_time_to_live(self, ttl_sec: i64) -> (r: Self)
        requires
            i64::MIN <= ttl_sec * 1000 <= i64::MAX,
        ensures
            r@ == (PublishMessageRequestView { time_to_live: (ttl_sec * 1000) as i64, ..self@ }),
    {
        let mut r = self;
        r.time_to_live = ttl_sec * 1000;
        r
    }

    /// Sets the id that makes the message unique.
    pub fn with_message_id(self, message_id: String) -> (r: Self)
        ensures
            r@ == (PublishMessageRequestView { message_id: message_id@, ..self@ }),
    {
        let mut r = self;
        r.message_id = message_id;
        r
    }

    /// Sets the variables of the message, given `data`: their JSON text, or the error of serializing them.
    pub fn with_variables(self, data: Result<String, serde_json::Error>) -> (r: Result<Self, MessageError>)
        ensures
            match data {
                Ok(text) => r matches Ok(req) && req@ == (PublishMessageRequestView { variables: text@, ..self@ }),
                Err(e) => r matches Err(MessageError::JsonError(source)) && source == e,
            },
    {
        match data {
            Ok(text) => {
                let mut r = self;
                r.variables = text;
                Ok(r)
            },
            Err(e) => Err(MessageError::JsonError(e)),
        }
    }

    /// Sets the tenant that owns the message.
    pub fn with_tenant_id(self, tenant_id: String) -> (r: Self)
        ensures
            r@ == (PublishMessageRequestView { tenant_id: tenant_id@, ..self@ }),
    {
        let mut r = self;
        r.tenant_id = tenant_id;
        r
    }

    /// The message of the request's fields.
    pub fn into_request(self) -> (m: protocol::PublishMessageRequest)
        ensures
            m.name@ == self@.name,
            m.correlation_key@ == self@.correlation_key,
            m.time_to_live == self@.time_to_live,
            m.message_id@ == self@.message_id,
            m.variables@ == self@.variables,
            m.tenant_id@ == self@.tenant_id,
    {
        protocol::PublishMessageRequest {
            name: self.name,
            correlation_key: self.correlation_key,
            time_to_live: self.time_to_live,
            message_id: self.message_id,
            variables: self.variables,
            tenant_id: self.tenant_id,
        }
    }
}

/// What a publish message response holds.
pub struct PublishMessageResponseView {
    pub key: i64,
    pub tenant_id: Seq<char>,
}

/// The response to a published message.
#[derive(Debug, Clone)]
pub struct PublishMessageResponse {
    key: i64,
    tenant_id: String,
}

impl View for PublishMessageResponse {
    type V = PublishMessageResponseView;

    closed spec fn view(&self) -> PublishMessageResponseView {
        PublishMessageResponseView {
            key: self.key,
            tenant_id: self.tenant_id@,
        }
    }
}

impl PublishMessageResponse {
    /// A value of the given fields, as the gateway reports them.
    pub fn new(key: i64, tenant_id: String) -> (r: Self)
        ensures
            r@ == (PublishMessageResponseView {
                key: key,
                tenant_id: tenant_id@,
            }),
    {
        PublishMessageResponse { key, tenant_id }
    }

    /// The key of the message.
    pub fn key(&self) -> (r: i64)
        ensures
            r == self@.key,
    {
        self.key
    }

    /// The tenant that owns the message.
    pub fn tenant_id(&self) -> (r: &str)
        ensures
            r@ == self@.tenant_id,
    {
        self.tenant_id.as_str()
    }
}

} // verus!
