//! A job that a worker activated.
use vstd::prelude::*;
use crate::client::ClientError;

verus! {

/// What an activated job holds.
pub struct ActivatedJobView {
    pub key: i64,
    pub job_type: Seq<char>,
    pub process_instance_key: i64,
    pub bpmn_process_id: Seq<char>,
    pub process_definition_version: i32,
    pub process_definition_key: i64,
    pub element_id: Seq<char>,
    pub element_instance_key: i64,
    pub custom_headers: Seq<char>,
    pub worker: Seq<char>,
    pub retries: i32,
    pub deadline: i64,
    pub variables: Seq<char>,
    pub tenant_id: Seq<char>,
}

/// A job that the gateway handed to a worker.
#[derive(Debug, Clone)]
pub struct ActivatedJob {
    key: i64,
    job_type: String,
    process_instance_key: i64,
    bpmn_process_id: String,
    process_definition_version: i32,
    process_definition_key: i64,
    element_id: String,
    element_instance_key: i64,
    custom_headers: String,
    worker: String,
    retries: i32,
    deadline: i64,
    variables: String,
    tenant_id: String,
}

impl View for ActivatedJob {
    type V = ActivatedJobView;

    closed spec fn view(&self) -> ActivatedJobView {
        ActivatedJobView {
            key: self.key,
            job_type: self.job_type@,
            process_instance_key: self.process_instance_key,
            bpmn_process_id: self.bpmn_process_id@,
            process_definition_version: self.process_definition_version,
            process_definition_key: self.process_definition_key,
            element_id: self.element_id@,
            element_instance_key: self.element_instance_key,
            custom_headers: self.custom_headers@,
            worker: self.worker@,
            retries: self.retries,
            deadline: self.deadline,
            variables: self.variables@,
            tenant_id: self.tenant_id@,
        }
    }
}

impl ActivatedJob {
    /// A job of the given fields, as the gateway reports them.
    pub fn new(
        key: i64,
        job_type: String,
        process_instance_key: i64,
        bpmn_process_id: String,
        process_definition_version: i32,
        process_definition_key: i64,
        element_id: String,
        element_instance_key: i64,
        custom_headers: String,
        worker: String,
        retries: i32,
        deadline: i64,
        variables: String,
        tenant_id: String,
    ) -> (j: ActivatedJob)
        ensures
            j@ == (ActivatedJobView {
                key,
                job_type: job_type@,
                process_instance_key,
                bpmn_process_id: bpmn_process_id@,
                process_definition_version,
                process_definition_key,
                element_id: element_id@,
                element_instance_key,
                custom_headers: custom_headers@,
                worker: worker@,
                retries,
                deadline,
                variables: variables@,
                tenant_id: tenant_id@,
            }),
    {
        ActivatedJob {
            key,
            job_type,
            process_instance_key,
            bpmn_process_id,
            process_definition_version,
            process_definition_key,
            element_id,
            element_instance_key,
            custom_headers,
            worker,
            retries,
            deadline,
            variables,
            tenant_id,
        }
    }

    /// The key, a unique identifier of the job.
    pub fn key(&self) -> (r: i64)
        ensures
            r == self@.key,
    {
        self.key
    }

    /// The type of the job.
    pub fn job_type(&self) -> (r: &str)
        ensures
            r@ == self@.job_type,
    {
        self.job_type.as_str()
    }

    /// The key of the job's process instance.
    pub fn process_instance_key(&self) -> (r: i64)
        ensures
            r == self@.process_instance_key,
    {
        self.process_instance_key
    }

    /// The BPMN process id of the job's process definition.
    pub fn bpmn_process_id(&self) -> (r: &str)
        ensures
            r@ == self@.bpmn_process_id,
    {
        self.bpmn_process_id.as_str()
    }

    /// The version of the job's process definition.
    pub fn process_definition_version(&self) -> (r: i32)
        ensures
            r == self@.process_definition_version,
    {
        self.process_definition_version
    }

    /// The key of the job's process definition.
    pub fn process_definition_key(&self) -> (r: i64)
        ensures
            r == self@.process_definition_key,
    {
        self.process_definition_key
    }

    /// The id of the task element of the job.
    pub fn element_id(&self) -> (r: &str)
        ensures
            r@ == self@.element_id,
    {
        self.element_id.as_str()
    }

    /// The key of the task element instance, unique within the process instance.
    pub fn element_instance_key(&self) -> (r: i64)
        ensures
            r == self@.element_instance_key,
    {
        self.element_instance_key
    }

    /// The custom headers of the task, a JSON document.
    pub fn custom_headers(&self) -> (r: &str)
        ensures
            r@ == self@.custom_headers,
    {
        self.custom_headers.as_str()
    }

    /// The name of the worker that activated the job.
    pub fn worker(&self) -> (r: &str)
        ensures
            r@ == self@.worker,
    {
        self.worker.as_str()
    }

    /// The retries left to the job.
    pub fn retries(&self) -> (r: i32)
        ensures
            r == self@.retries,
    {
        self.retries
    }

    /// When the job can be activated again, a UNIX epoch timestamp.
    pub fn deadline(&self) -> (r: i64)
        ensures
            r == self@.deadline,
    {
        self.deadline
    }

    /// The variables visible to the task, a JSON document.
    pub fn variables(&self) -> (r: &str)
        ensures
            r@ == self@.variables,
    {
        self.variables.as_str()
    }

    /// The value that the variables deserialize to, given the outcome `parsed` of
    /// deserializing them; a failure keeps the text of the variables.
    pub fn data<T>(&self, parsed: Result<T, serde_json::Error>) -> (r: Result<T, ClientError>)
        ensures
            match parsed {
                Ok(v) => r == Ok::<T, ClientError>(v),
                Err(e) => r matches Err(ClientError::DeserializationFailed { value, source })
                    && value@ == self@.variables && source == e,
            },
    {
        match parsed {
            Ok(v) => Ok(v),
            Err(e) => Err(ClientError::DeserializationFailed { value: self.variables.clone(), source: e }),
        }
    }

    /// The id of the tenant that owns the job.
    pub fn tenant_id(&self) -> (r: &str)
        ensures
            r@ == self@.tenant_id,
    {
        self.tenant_id.as_str()
    }
}

} // verus!
