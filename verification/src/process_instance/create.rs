//! Creating a process instance, optionally awaiting its result.
use vstd::prelude::*;
use crate::client::ClientError;
use crate::protocol;
use crate::text::strings_view;

verus! {

/// The version that selects the latest deployed version of a process.
pub const LATEST_VERSION: i32 = -1;

/// A request before its process is set.
#[derive(Debug, Clone)]
pub struct Initial;

/// A request with its process.
#[derive(Debug, Clone)]
pub struct WithProcess;

/// A request with its process and input.
#[derive(Debug, Clone)]
pub struct WithVariables;

/// A request that awaits the instance's result.
#[derive(Debug, Clone)]
pub struct WithResult;

/// The states of a request to create a process instance.
pub trait CreateProcessInstanceState {}

impl CreateProcessInstanceState for Initial {}

impl CreateProcessInstanceState for WithProcess {}

impl CreateProcessInstanceState for WithVariables {}

impl CreateProcessInstanceState for WithResult {}

/// What a request to create a process instance holds.
pub struct CreateProcessInstanceRequestView {
    pub process_definition_key: Option<i64>,
    pub bpmn_process_id: Option<Seq<char>>,
    pub version: Option<i32>,
    pub input: Option<Seq<char>>,
    pub start_instructions: Seq<Seq<char>>,
    pub tenant_id: Seq<char>,
    pub operation_reference: Option<u64>,
    pub fetch_variables: Option<Seq<Seq<char>>>,
    pub request_timeout: i64,
}

/// A request to create a process instance, of a process given by its BPMN process
/// id or by the key of its definition.
#[derive(Debug)]
pub struct CreateProcessInstanceRequest<T: CreateProcessInstanceState> {
    process_definition_key: Option<i64>,
    bpmn_process_id: Option<String>,
    version: Option<i32>,
    input: Option<String>,
    start_instructions: Vec<String>,
    tenant_id: String,
    operation_reference: Option<u64>,
    fetch_variables: Option<Vec<String>>,
    request_timeout: i64,
    _state: std::marker::PhantomData<T>,
}

impl<T: CreateProcessInstanceState> View for CreateProcessInstanceRequest<T> {
    type V = CreateProcessInstanceRequestView;

    closed spec fn view(&self) -> CreateProcessInstanceRequestView {
        CreateProcessInstanceRequestView {
            process_definition_key: self.process_definition_key,
            bpmn_process_id: crate::text::opt_string_view(self.bpmn_process_id),
            version: self.version,
            input: crate::text::opt_string_view(self.input),
            start_instructions: strings_view(self.start_instructions@),
            tenant_id: self.tenant_id@,
            operation_reference: self.operation_reference,
            fetch_variables: crate::job::complete::opt_strings_view(self.fetch_variables),
            request_timeout: self.request_timeout,
        }
    }
}

impl<T: CreateProcessInstanceState> Clone for CreateProcessInstanceRequest<T> {
    /// A request of the same fields.
    fn clone(&self) -> (r: Self)
        ensures
            r@ == self@,
    {
        let fetch_variables = match &self.fetch_variables {
            Some(v) => Some(crate::text::clone_strings(v)),
            None => None,
        };
        CreateProcessInstanceRequest {
            process_definition_key: self.process_definition_key,
            bpmn_process_id: crate::text::clone_opt_string(&self.bpmn_process_id),
            version: self.version,
            input: crate::text::clone_opt_string(&self.input),
            start_instructions: crate::text::clone_strings(&self.start_instructions),
            tenant_id: self.tenant_id.clone(),
            operation_reference: self.operation_reference,
            fetch_variables,
            request_timeout: self.request_timeout,
            _state: std::marker::PhantomData,
        }
    }
}

impl<T: CreateProcessInstanceState> CreateProcessInstanceRequest<T> {
    /// A request with nothing set.
    pub fn new() -> (r: CreateProcessInstanceRequest<Initial>)
        ensures
            r@ == (CreateProcessInstanceRequestView {
                process_definition_key: None,
                bpmn_process_id: None,
                version: None,
                input: None,
                start_instructions: Seq::empty(),
                tenant_id: Seq::empty(),
                operation_reference: None,
                fetch_variables: None,
                request_timeout: 0,
            }),
    {
        let r = CreateProcessInstanceRequest {
            process_definition_key: None,
            bpmn_process_id: None,
            version: None,
            input: None,
            start_instructions: Vec::new(),
            tenant_id: String::new(),
            operation_reference: None,
            fetch_variables: None,
            request_timeout: 0,
            _state: std::marker::PhantomData,
        };
        assert(r@.start_instructions =~= Seq::<Seq<char>>::empty());
        r
    }

    fn transition<N: CreateProcessInstanceState>(self) -> (r: CreateProcessInstanceRequest<N>)
        ensures
            r@ == self@,
    {
        CreateProcessInstanceRequest {
            process_definition_key: self.process_definition_key,
            bpmn_process_id: self.bpmn_process_id,
            version: self.version,
            input: self.input,
            start_instructions: self.start_instructions,
            tenant_id: self.tenant_id,
            operation_reference: self.operation_reference,
            fetch_variables: self.fetch_variables,
            request_timeout: self.request_timeout,
            _state: std::marker::PhantomData,
        }
    }

    /// The message that creates the instance: an unset key is 0, an unset process
    /// id empty, an unset version the latest, and no input the empty text.
    fn creation_request(self) -> (m: protocol::CreateProcessInstanceRequest)
        ensures
            creation_view(m) == creation_of(self@),
    {
        let mut start_instructions: Vec<protocol::ProcessInstanceCreationStartInstruction> =
            Vec::new();
        let mut i: usize = 0;
        while i < self.start_instructions.len()
            invariant
                i <= self.start_instructions@.len(),
                start_instructions@.len() == i,
                forall|j: int| 0 <= j < i ==> #[trigger] start_instructions@[j].element_id@
                    == self.start_instructions@[j]@,
            decreases self.start_instructions@.len() - i,
        {
            start_instructions.push(
                protocol::ProcessInstanceCreationStartInstruction {
                    element_id: self.start_instructions[i].clone(),
                },
            );
            i = i + 1;
        }
        let m = protocol::CreateProcessInstanceRequest {
            process_definition_key: match self.process_definition_key {
                Some(k) => k,
                None => 0,
            },
            bpmn_process_id: match self.bpmn_process_id {
                Some(id) => id,
                None => String::new(),
            },
            version: match self.version {
                Some(v) => v,
                None => LATEST_VERSION,
            },
            variables: match self.input {
                Some(text) => text,
                None => String::new(),
            },
            start_instructions,
            tenant_id: self.tenant_id,
            operation_reference: self.operation_reference,
        };
        assert(creation_view(m).start_instructions =~= creation_of(self@).start_instructions);
        m
    }
}

/// What a creation message holds, strings by their characters.
pub struct CreationView {
    pub process_definition_key: i64,
    pub bpmn_process_id: Seq<char>,
    pub version: i32,
    pub variables: Seq<char>,
    pub start_instructions: Seq<Seq<char>>,
    pub tenant_id: Seq<char>,
    pub operation_reference: Option<u64>,
}

/// What a creation message holds.
pub open spec fn creation_view(m: protocol::CreateProcessInstanceRequest) -> CreationView {
    CreationView {
        process_definition_key: m.process_definition_key,
        bpmn_process_id: m.bpmn_process_id@,
        version: m.version,
        variables: m.variables@,
        start_instructions: m.start_instructions@.map_values(
            |s: protocol::ProcessInstanceCreationStartInstruction| s.element_id@,
        ),
        tenant_id: m.tenant_id@,
        operation_reference: m.operation_reference,
    }
}

/// The creation message of a request: an unset key is 0, an unset process id
/// empty, an unset version the latest, and no input the empty text.
pub open spec fn creation_of(r: CreateProcessInstanceRequestView) -> CreationView {
    CreationView {
        process_definition_key: match r.process_definition_key {
            Some(k) => k,
            None => 0,
        },
        bpmn_process_id: match r.bpmn_process_id {
            Some(id) => id,
            None => Seq::empty(),
        },
        version: match r.version {
            Some(v) => v,
            None => LATEST_VERSION,
        },
        variables: match r.input {
            Some(text) => text,
            None => Seq::empty(),
        },
        start_instructions: r.start_instructions,
        tenant_id: r.tenant_id,
        operation_reference: r.operation_reference,
    }
}

impl CreateProcessInstanceRequest<Initial> {
    /// Sets the BPMN process id of the process to instantiate.
    pub fn with_bpmn_process_id(self, bpmn_process_id: String) -> (r: CreateProcessInstanceRequest<
        WithProcess,
    >)
        ensures
            r@ == (CreateProcessInstanceRequestView {
                bpmn_process_id: Some(bpmn_process_id@),
                ..self@
            }),
    {
        let mut r = self;
        r.bpmn_process_id = Some(bpmn_process_id);
        r.transition()
    }

    /// Sets the key of the definition of the process to instantiate.
    pub fn with_process_definition_key(self, process_definition_key: i64) -> (r:
        CreateProcessInstanceRequest<WithProcess>)
        ensures
            r@ == (CreateProcessInstanceRequestView {
                process_definition_key: Some(process_definition_key),
                ..self@
            }),
    {
        let mut r = self;
        r.process_definition_key = Some(process_definition_key);
        r.transition()
    }
}

impl CreateProcessInstanceRequest<WithProcess> {
    /// Sets the input of the instance, given `variables`: their JSON text, or the
    /// error of serializing them.
    pub fn with_variables(self, variables: Result<String, serde_json::Error>) -> (r: Result<
        CreateProcessInstanceRequest<WithVariables>,
        ClientError,
    >)
        ensures
            match variables {
                Ok(text) => r matches Ok(req) && req@ == (CreateProcessInstanceRequestView {
                    input: Some(text@),
                    ..self@
                }),
                Err(e) => r matches Err(ClientError::SerializationFailed { source }) && source == e,
            },
    {
        match variables {
            Ok(text) => {
                let mut r = self;
                r.input = Some(text);
                Ok(r.transition())
            },
            Err(e) => Err(ClientError::SerializationFailed { source: e }),
        }
    }

    /// Creates the instance without input.
    pub fn without_input(self) -> (r: CreateProcessInstanceRequest<WithVariables>)
        ensures
            r@ == self@,
    {
        self.transition()
    }
}

impl CreateProcessInstanceRequest<WithVariables> {
    /// The message that creates the instance; see [`creation_of`].
    pub fn into_request(self) -> (m: protocol::CreateProcessInstanceRequest)
        ensures
            creation_view(m) == creation_of(self@),
    {
        self.creation_request()
    }

    /// Awaits the instance's result, fetching the given variables, or all of them.
    pub fn with_result(self, fetch_variables: Option<Vec<String>>) -> (r:
        CreateProcessInstanceRequest<WithResult>)
        ensures
            r@ == (CreateProcessInstanceRequestView {
                fetch_variables: crate::job::complete::opt_strings_view(fetch_variables),
                ..self@
            }),
    {
        let mut r = self;
        r.fetch_variables = fetch_variables;
        r.transition()
    }

    /// Sets the version of the process; `-1` selects the latest.
    pub fn with_version(self, version: i32) -> (r: Self)
        ensures
            r@ == (CreateProcessInstanceRequestView { version: Some(version), ..self@ }),
    {
        let mut r = self;
        r.version = Some(version);
        r
    }

    /// Sets the tenant that owns the instance.
    pub fn with_tenant_id(self, tenant_id: String) -> (r: Self)
        ensures
            r@ == (CreateProcessInstanceRequestView { tenant_id: tenant_id@, ..self@ }),
    {
        let mut r = self;
        r.tenant_id = tenant_id;
        r
    }

    /// Sets a reference that the records of the operation carry.
    pub fn with_operation_reference(self, operation_reference: u64) -> (r: Self)
        ensures
            r@ == (CreateProcessInstanceRequestView {
                operation_reference: Some(operation_reference),
                ..self@
            }),
    {
        let mut r = self;
        r.operation_reference = Some(operation_reference);
        r
    }
}

impl CreateProcessInstanceRequest<WithResult> {
    /// The message that creates the instance and awaits its result: the creation
    /// message, the request timeout, and the variables to fetch, none meaning all.
    pub fn into_request(self) -> (m: protocol::CreateProcessInstanceWithResultRequest)
        ensures
            m.request is Some,
            creation_view(m.request->0) == creation_of(self@),
            m.request_timeout == self@.request_timeout,
            strings_view(m.fetch_variables@) == match self@.fetch_variables {
                Some(v) => v,
                None => Seq::empty(),
            },
    {
        let request_timeout = self.request_timeout;
        let fetch = match &self.fetch_variables {
            Some(v) => crate::text::clone_strings(v),
            None => Vec::new(),
        };
        let request = self.creation_request();
        assert(strings_view(Seq::<String>::empty()) =~= Seq::<Seq<char>>::empty());
        protocol::CreateProcessInstanceWithResultRequest {
            request: Some(request),
            request_timeout,
            fetch_variables: fetch,
        }
    }
}

/// What a creation sends, field by field: the version set with `with_version`
/// whenever one was set, whichever way the process is given, and the latest only
/// when none was; the key or 0, the BPMN process id or nothing, the input or the
/// empty text, and the start instructions, tenant and operation reference as held.
pub proof fn creation_sends_what_was_set(r: CreateProcessInstanceRequestView)
    ensures
        forall|v: i32| r.version == Some(v) ==> creation_of(r).version == v,
        r.version is None ==> creation_of(r).version == -1,
        forall|k: i64| r.process_definition_key == Some(k) ==> creation_of(r).process_definition_key == k,
        r.process_definition_key is None ==> creation_of(r).process_definition_key == 0,
        forall|id: Seq<char>| r.bpmn_process_id == Some(id) ==> creation_of(r).bpmn_process_id == id,
        r.bpmn_process_id is None ==> creation_of(r).bpmn_process_id.len() == 0,
        forall|text: Seq<char>| r.input == Some(text) ==> creation_of(r).variables == text,
        r.input is None ==> creation_of(r).variables.len() == 0,
        creation_of(r).start_instructions == r.start_instructions,
        creation_of(r).tenant_id == r.tenant_id,
        creation_of(r).operation_reference == r.operation_reference,
{
}

/// What the response to a creation holds.
pub struct CreateProcessInstanceResponseView {
    pub process_definition_key: i64,
    pub bpmn_process_id: Seq<char>,
    pub version: i32,
    pub process_instance_key: i64,
    pub tenant_id: Seq<char>,
}

/// The response to the creation of a process instance.
#[derive(Debug, Clone)]
pub struct CreateProcessInstanceResponse {
    process_definition_key: i64,
    bpmn_process_id: String,
    version: i32,
    process_instance_key: i64,
    tenant_id: String,
}

impl View for CreateProcessInstanceResponse {
    type V = CreateProcessInstanceResponseView;

    closed spec fn view(&self) -> CreateProcessInstanceResponseView {
        CreateProcessInstanceResponseView {
            process_definition_key: self.process_definition_key,
            bpmn_process_id: self.bpmn_process_id@,
            version: self.version,
            process_instance_key: self.process_instance_key,
            tenant_id: self.tenant_id@,
        }
    }
}

impl CreateProcessInstanceResponse {
    /// A response of the given fields.
    pub fn new(
        process_definition_key: i64,
        bpmn_process_id: String,
        version: i32,
        process_instance_key: i64,
        tenant_id: String,
    ) -> (r: Self)
        ensures
            r@ == (CreateProcessInstanceResponseView {
                process_definition_key,
                bpmn_process_id: bpmn_process_id@,
                version,
                process_instance_key,
                tenant_id: tenant_id@,
            }),
    {
        CreateProcessInstanceResponse {
            process_definition_key,
            bpmn_process_id,
            version,
            process_instance_key,
            tenant_id,
        }
    }

    /// The key of the process definition.
    pub fn process_definition_key(&self) -> (r: i64)
        ensures
            r == self@.process_definition_key,
    {
        self.process_definition_key
    }

    /// The BPMN process id of the instance.
    pub fn bpmn_process_id(&self) -> (r: &str)
        ensures
            r@ == self@.bpmn_process_id,
    {
        self.bpmn_process_id.as_str()
    }

    /// The version of the process that was used.
    pub fn version(&self) -> (r: i32)
        ensures
            r == self@.version,
    {
        self.version
    }

    /// The key of the created instance.
    pub fn process_instance_key(&self) -> (r: i64)
        ensures
            r == self@.process_instance_key,
    {
        self.process_instance_key
    }

    /// The tenant of the instance.
    pub fn tenant_id(&self) -> (r: &str)
        ensures
            r@ == self@.tenant_id,
    {
        self.tenant_id.as_str()
    }
}

/// The response to a creation that awaited the result, the result variables as
/// JSON text.
#[derive(Debug, Clone)]
pub struct CreateProcessInstanceWithResultSerialized {
    response: CreateProcessInstanceResponse,
    variables: String,
}

/// What the response to a creation that awaited the result holds.
pub struct CreateProcessInstanceWithResultSerializedView {
    pub response: CreateProcessInstanceResponseView,
    pub variables: Seq<char>,
}

impl View for CreateProcessInstanceWithResultSerialized {
    type V = CreateProcessInstanceWithResultSerializedView;

    closed spec fn view(&self) -> CreateProcessInstanceWithResultSerializedView {
        CreateProcessInstanceWithResultSerializedView {
            response: self.response@,
            variables: self.variables@,
        }
    }
}

impl CreateProcessInstanceWithResultSerialized {
    /// A response of the creation's response and the result variables.
    pub fn new(response: CreateProcessInstanceResponse, variables: String) -> (r: Self)
        ensures
            r@ == (CreateProcessInstanceWithResultSerializedView {
                response: response@,
                variables: variables@,
            }),
    {
        CreateProcessInstanceWithResultSerialized { response, variables }
    }

    /// The response of the creation.
    pub fn response(&self) -> (r: &CreateProcessInstanceResponse)
        ensures
            r@ == self@.response,
    {
        &self.response
    }

    /// The result variables, JSON text.
    pub fn variables(&self) -> (r: &str)
        ensures
            r@ == self@.variables,
    {
        self.variables.as_str()
    }
}

/// The response to a creation that awaited the result, the result variables
/// deserialized.
#[derive(Debug, Clone)]
pub struct CreateProcessInstanceWithResult<T> {
    response: CreateProcessInstanceResponse,
    data: T,
}

/// What the response with deserialized variables holds.
pub struct CreateProcessInstanceWithResultView<T> {
    pub response: CreateProcessInstanceResponseView,
    pub data: T,
}

impl<T> View for CreateProcessInstanceWithResult<T> {
    type V = CreateProcessInstanceWithResultView<T>;

    closed spec fn view(&self) -> CreateProcessInstanceWithResultView<T> {
        CreateProcessInstanceWithResultView { response: self.response@, data: self.data }
    }
}

impl<T> CreateProcessInstanceWithResult<T> {
    /// The response of the creation's response and of the result variables, given
    /// the outcome `parsed` of deserializing them; a failure keeps their text.
    pub fn from_parts(
        response: CreateProcessInstanceResponse,
        variables: String,
        parsed: Result<T, serde_json::Error>,
    ) -> (r: Result<Self, ClientError>)
        ensures
            match parsed {
                Ok(data) => r matches Ok(res) && res@ == (CreateProcessInstanceWithResultView {
                    response: response@,
                    data,
                }),
                Err(e) => r matches Err(ClientError::DeserializationFailed { value, source })
                    && value@ == variables@ && source == e,
            },
    {
        match parsed {
            Ok(data) => Ok(CreateProcessInstanceWithResult { response, data }),
            Err(e) => Err(ClientError::DeserializationFailed { value: variables, source: e }),
        }
    }

    /// The response of the creation.
    pub fn response(&self) -> (r: &CreateProcessInstanceResponse)
        ensures
            r@ == self@.response,
    {
        &self.response
    }

    /// The deserialized result variables.
    pub fn data(&self) -> (r: &T)
        ensures
            *r == self@.data,
    {
        &self.data
    }
}

} // verus!
