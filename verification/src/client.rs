//! The client's configuration, built step by step before a connection is made,
//! and the errors of the client's requests.
use vstd::prelude::*;
use crate::oauth::OAuthConfig;
use crate::resource::DeployResourceError;
use crate::text::{decimal, push_decimal};
use crate::time::Duration;

verus! {

/// Errors of the requests that the client sends.
#[derive(Debug)]
pub enum ClientError {
    /// The gateway refused the request or could not be reached.
    RequestFailed(tonic::Status),
    /// JSON could not be (de)serialized.
    JsonError(serde_json::Error),
    /// A resource to deploy could not be loaded.
    ResourceError(DeployResourceError),
    /// JSON text from the gateway could not be deserialized; the text is kept.
    DeserializationFailed { value: String, source: serde_json::Error },
    /// Variables could not be serialized to JSON.
    SerializationFailed { source: serde_json::Error },
    /// The gateway found no entity of the given key (a job, for a timeout update).
    NotFound(tonic::Status),
    /// The entity is not in a state that allows the request (a job without a
    /// deadline, for a timeout update).
    InvalidState(tonic::Status),
}

/// The gRPC code of a status, as the number of its `tonic::Code`.
pub uninterp spec fn status_code(status: tonic::Status) -> i32;

/// The code of `status`: `tonic::Status::code`, the `tonic::Code` as its number.
/// The code is a field of the status, read back unchanged, so it depends on the
/// status alone; `Code` numbers its variants 0 to 16. The contract claims those two
/// facts and nothing more.
#[verifier::external_body]
pub(crate) fn code_of(status: &tonic::Status) -> (code: i32)
    ensures
        code == status_code(*status),
        0 <= code <= 16,
{
    status.code() as i32
}

/// The builder before an address is set.
#[derive(Default, Clone, Debug)]
pub struct Initial;

/// The builder once an address is set.
#[derive(Clone, Debug)]
pub struct WithAddress;

/// The states of a client builder.
pub trait ClientBuilderState {}

impl ClientBuilderState for Initial {}

impl ClientBuilderState for WithAddress {}

/// What a client builder holds.
pub struct ClientBuilderView {
    pub endpoint: Option<Seq<char>>,
    pub tls: Option<Seq<char>>,
    pub timeout: Option<Duration>,
    pub keep_alive: Option<Duration>,
    pub auth_timeout: Option<Duration>,
    pub oauth_config: Option<OAuthConfig>,
}

/// The endpoint of a gateway: its address, a colon and the port in decimal.
pub open spec fn endpoint_of(zeebe_address: Seq<char>, port: u16) -> Seq<char> {
    zeebe_address + seq![':'] + decimal(port as nat)
}

/// A builder for the configuration of a client: the gateway's address, TLS,
/// timeouts and OAuth.
#[derive(Debug)]
pub struct ClientBuilder<S: ClientBuilderState> {
    endpoint: Option<String>,
    tls: Option<String>,
    timeout: Option<Duration>,
    keep_alive: Option<Duration>,
    auth_timeout: Option<Duration>,
    oauth_config: Option<OAuthConfig>,
    _state: std::marker::PhantomData<S>,
}

impl<S: ClientBuilderState> View for ClientBuilder<S> {
    type V = ClientBuilderView;

    closed spec fn view(&self) -> ClientBuilderView {
        ClientBuilderView {
            endpoint: crate::text::opt_string_view(self.endpoint),
            tls: crate::text::opt_string_view(self.tls),
            timeout: self.timeout,
            keep_alive: self.keep_alive,
            auth_timeout: self.auth_timeout,
            oauth_config: self.oauth_config,
        }
    }
}

impl<S: ClientBuilderState> Clone for ClientBuilder<S> {
    /// A builder of the same configuration.
    fn clone(&self) -> (b: Self)
        ensures
            b@ == self@,
            b.wf() == self.wf(),
    {
        let oauth_config = match &self.oauth_config {
            Some(c) => Some(c.clone()),
            None => None,
        };
        ClientBuilder {
            endpoint: crate::text::clone_opt_string(&self.endpoint),
            tls: crate::text::clone_opt_string(&self.tls),
            timeout: self.timeout,
            keep_alive: self.keep_alive,
            auth_timeout: self.auth_timeout,
            oauth_config,
            _state: std::marker::PhantomData,
        }
    }
}

impl<S: ClientBuilderState + Default> Default for ClientBuilder<S> {
    /// A builder with nothing set.
    fn default() -> (b: Self)
        ensures
            b@.endpoint is None,
            b@.tls is None,
            b@.timeout is None,
            b@.keep_alive is None,
            b@.auth_timeout is None,
            b@.oauth_config is None,
            b.wf(),
    {
        ClientBuilder {
            endpoint: None,
            tls: None,
            timeout: None,
            keep_alive: None,
            auth_timeout: None,
            oauth_config: None,
            _state: std::marker::PhantomData,
        }
    }
}

impl<S: ClientBuilderState> ClientBuilder<S> {
    /// OAuth comes with the timeout of its token requests.
    pub closed spec fn wf(&self) -> bool {
        self.oauth_config is Some ==> self.auth_timeout is Some
    }

    fn transition<N: ClientBuilderState>(self) -> (b: ClientBuilder<N>)
        ensures
            b@ == self@,
            b.wf() == self.wf(),
    {
        ClientBuilder {
            endpoint: self.endpoint,
            tls: self.tls,
            timeout: self.timeout,
            keep_alive: self.keep_alive,
            auth_timeout: self.auth_timeout,
            oauth_config: self.oauth_config,
            _state: std::marker::PhantomData,
        }
    }
}

impl ClientBuilder<Initial> {
    fn set_endpoint(&mut self, zeebe_address: &str, port: u16)
        ensures
            final(self)@ == (ClientBuilderView {
                endpoint: Some(endpoint_of(zeebe_address@, port)),
                ..old(self)@
            }),
            final(self).wf() == old(self).wf(),
    {
        let mut endpoint = String::from_str(zeebe_address);
        endpoint.append(":");
        proof {
            reveal_strlit(":");
        }
        push_decimal(&mut endpoint, port);
        assert(endpoint@ =~= endpoint_of(zeebe_address@, port));
        self.endpoint = Some(endpoint);
    }

    /// Sets the gateway's address and port; the endpoint is the address, a colon
    /// and the port in decimal.
    pub fn with_address(self, zeebe_address: &str, port: u16) -> (b: ClientBuilder<WithAddress>)
        ensures
            b@ == (ClientBuilderView { endpoint: Some(endpoint_of(zeebe_address@, port)), ..self@ }),
            b.wf() == self.wf(),
    {
        let mut b = self;
        b.set_endpoint(zeebe_address, port);
        b.transition()
    }
}

/// What a client is built from.
#[derive(Debug, Clone)]
pub struct ClientSettings {
    /// The gateway's endpoint.
    pub endpoint: String,
    /// The PEM text of the certificate authority that TLS trusts, when TLS is on.
    pub tls_ca_certificate: Option<String>,
    pub timeout: Option<Duration>,
    pub keep_alive: Option<Duration>,
    /// OAuth's configuration with the timeout of its token requests.
    pub oauth: Option<(OAuthConfig, Duration)>,
}

impl ClientBuilder<WithAddress> {
    /// Configures OAuth: the credentials, the token endpoint, the audience and the
    /// timeout of a token request.
    pub fn with_oauth(
        self,
        client_id: String,
        client_secret: String,
        auth_url: String,
        audience: String,
        auth_timeout: Duration,
    ) -> (b: Self)
        ensures
            b@ == (ClientBuilderView {
                oauth_config: Some(OAuthConfig { client_id, client_secret, auth_url, audience }),
                auth_timeout: Some(auth_timeout),
                ..self@
            }),
            b.wf(),
    {
        let mut b = self;
        b.oauth_config = Some(OAuthConfig::new(client_id, client_secret, auth_url, audience));
        b.auth_timeout = Some(auth_timeout);
        b
    }

    /// Turns TLS on, trusting the certificate authority whose PEM text is given.
    pub fn with_tls(self, pem: String) -> (b: Self)
        ensures
            b@ == (ClientBuilderView { tls: Some(pem@), ..self@ }),
            b.wf() == self.wf(),
    {
        let mut b = self;
        b.tls = Some(pem);
        b
    }

    /// Sets the timeout of the gateway's calls.
    pub fn with_timeout(self, timeout: Duration) -> (b: Self)
        ensures
            b@ == (ClientBuilderView { timeout: Some(timeout), ..self@ }),
            b.wf() == self.wf(),
    {
        let mut b = self;
        b.timeout = Some(timeout);
        b
    }

    /// Sets the keep-alive timeout of the connection.
    pub fn with_keep_alive(self, keep_alive: Duration) -> (b: Self)
        ensures
            b@ == (ClientBuilderView { keep_alive: Some(keep_alive), ..self@ }),
            b.wf() == self.wf(),
    {
        let mut b = self;
        b.keep_alive = Some(keep_alive);
        b
    }

    /// What the client is built from: the endpoint, TLS, the timeouts, and OAuth
    /// with its request timeout.
    pub fn into_settings(self) -> (s: ClientSettings)
        requires
            self@.endpoint is Some,
            self.wf(),
        ensures
            s.endpoint@ == self@.endpoint->0,
            crate::text::opt_string_view(s.tls_ca_certificate) == self@.tls,
            s.timeout == self@.timeout,
            s.keep_alive == self@.keep_alive,
            s.oauth is Some <==> self@.oauth_config is Some,
            s.oauth matches Some((config, timeout)) ==> config == self@.oauth_config->0
                && timeout == self@.auth_timeout->0,
    {
        let oauth = match self.oauth_config {
            Some(config) => match self.auth_timeout {
                Some(timeout) => Some((config, timeout)),
                None => None,
            },
            None => None,
        };
        let endpoint = match self.endpoint {
            Some(e) => e,
            None => String::new(),
        };
        ClientSettings {
            endpoint,
            tls_ca_certificate: self.tls,
            timeout: self.timeout,
            keep_alive: self.keep_alive,
            oauth,
        }
    }
}

} // verus!
