//! The request messages of the Zeebe gateway protocol, as the library hands them
//! to the transport: every field holds the value that goes on the wire.
use vstd::prelude::*;

verus! {

/// Evaluates a decision, found by its key or by its id.
#[derive(Debug, Clone, PartialEq, Eq)]
pub struct EvaluateDecisionRequest {
    pub decision_key: i64,
    pub decision_id: String,
    pub variables: String,
    pub tenant_id: String,
}

/// Marks an incident as resolved.
#[derive(Debug, Clone, PartialEq, Eq)]
pub struct ResolveIncidentRequest {
    pub incident_key: i64,
    pub operation_reference: Option<u64>,
}

/// A list of strings, as the protocol wraps an optional list.
#[derive(Debug, Clone, PartialEq, Eq)]
pub struct StringList {
    pub values: Vec<String>,
}

/// Corrections to a user task that a completed job carries.
#[derive(Debug, Clone, PartialEq, Eq)]
pub struct JobResultCorrections {
    pub assignee: Option<String>,
    pub due_date: Option<String>,
    pub follow_up_date: Option<String>,
    pub candidate_users: Option<StringList>,
    pub candidate_groups: Option<StringList>,
    pub priority: Option<i32>,
}

/// The result that a completed job reports.
#[derive(Debug, Clone, PartialEq, Eq)]
pub struct JobResult {
    pub denied: Option<bool>,
    pub corrections: Option<JobResultCorrections>,
}

/// Completes a job.
#[derive(Debug, Clone, PartialEq, Eq)]
pub struct CompleteJobRequest {
    pub job_key: i64,
    pub variables: String,
    pub result: Option<JobResult>,
}

/// Marks a job as failed.
#[derive(Debug, Clone, PartialEq, Eq)]
pub struct FailJobRequest {
    pub job_key: i64,
    pub retries: i32,
    pub error_message: String,
    pub retry_back_off: i64,
    pub variables: String,
}

/// Sets the retries of a job.
#[derive(Debug, Clone, PartialEq, Eq)]
pub struct UpdateJobRetriesRequest {
    pub job_key: i64,
    pub retries: i32,
    pub operation_reference: Option<u64>,
}

/// Sets the deadline of a job, as a timeout in milliseconds.
#[derive(Debug, Clone, PartialEq, Eq)]
pub struct UpdateJobTimeoutRequest {
    pub job_key: i64,
    pub timeout: i64,
    pub operation_reference: Option<u64>,
}

/// Publishes a message, its time to live in milliseconds.
#[derive(Debug, Clone, PartialEq, Eq)]
pub struct PublishMessageRequest {
    pub name: String,
    pub correlation_key: String,
    pub time_to_live: i64,
    pub message_id: String,
    pub variables: String,
    pub tenant_id: String,
}

/// Cancels a process instance.
#[derive(Debug, Clone, PartialEq, Eq)]
pub struct CancelProcessInstanceRequest {
    pub process_instance_key: i64,
    pub operation_reference: Option<u64>,
}

/// An element at which a new process instance starts.
#[derive(Debug, Clone, PartialEq, Eq)]
pub struct ProcessInstanceCreationStartInstruction {
    pub element_id: String,
}

/// Creates a process instance.
#[derive(Debug, Clone, PartialEq, Eq)]
pub struct CreateProcessInstanceRequest {
    pub process_definition_key: i64,
    pub bpmn_process_id: String,
    pub version: i32,
    pub variables: String,
    pub start_instructions: Vec<ProcessInstanceCreationStartInstruction>,
    pub tenant_id: String,
    pub operation_reference: Option<u64>,
}

/// Creates a process instance and waits for its result.
#[derive(Debug, Clone, PartialEq, Eq)]
pub struct CreateProcessInstanceWithResultRequest {
    pub request: Option<CreateProcessInstanceRequest>,
    pub request_timeout: i64,
    pub fetch_variables: Vec<String>,
}

/// Maps an element of the source process to one of the target process.
#[derive(Debug, Clone, PartialEq, Eq)]
pub struct MappingInstruction {
    pub source_element_id: String,
    pub target_element_id: String,
}

/// How a process instance moves to another process definition.
#[derive(Debug, Clone, PartialEq, Eq)]
pub struct MigrationPlan {
    pub target_process_definition_key: i64,
    pub mapping_instructions: Vec<MappingInstruction>,
}

/// Migrates a process instance.
#[derive(Debug, Clone, PartialEq, Eq)]
pub struct MigrateProcessInstanceRequest {
    pub process_instance_key: i64,
    pub migration_plan: Option<MigrationPlan>,
    pub operation_reference: Option<u64>,
}

/// Variables to create in a scope when an element is activated.
#[derive(Debug, Clone, PartialEq, Eq)]
pub struct VariableInstruction {
    pub variables: String,
    pub scope_id: String,
}

/// Activates an element of a process instance.
#[derive(Debug, Clone, PartialEq, Eq)]
pub struct ActivateInstruction {
    pub element_id: String,
    pub ancestor_element_instance_key: i64,
    pub variable_instructions: Vec<VariableInstruction>,
}

/// Terminates an element instance.
#[derive(Debug, Clone, PartialEq, Eq)]
pub struct TerminateInstruction {
    pub element_instance_key: i64,
}

/// Modifies a process instance.
#[derive(Debug, Clone, PartialEq, Eq)]
pub struct ModifyProcessInstanceRequest {
    pub process_instance_key: i64,
    pub activate_instructions: Vec<ActivateInstruction>,
    pub terminate_instructions: Vec<TerminateInstruction>,
    pub operation_reference: Option<u64>,
}

/// A resource to deploy: its name and its content.
#[derive(Debug, Clone, PartialEq, Eq)]
pub struct Resource {
    pub name: String,
    pub content: Vec<u8>,
}

/// Deploys resources.
#[derive(Debug, Clone, PartialEq, Eq)]
pub struct DeployResourceRequest {
    pub resources: Vec<Resource>,
    pub tenant_id: String,
}

/// Deletes a deployed resource.
#[derive(Debug, Clone, PartialEq, Eq)]
pub struct DeleteResourceRequest {
    pub resource_key: i64,
    pub operation_reference: Option<u64>,
}

/// Sets variables in the scope of an element instance.
#[derive(Debug, Clone, PartialEq, Eq)]
pub struct SetVariablesRequest {
    pub element_instance_key: i64,
    pub variables: String,
    pub local: bool,
    pub operation_reference: Option<u64>,
}

/// Broadcasts a signal.
#[derive(Debug, Clone, PartialEq, Eq)]
pub struct BroadcastSignalRequest {
    pub signal_name: String,
    pub variables: String,
    pub tenant_id: String,
}

/// Throws a business error for a job.
#[derive(Debug, Clone, PartialEq, Eq)]
pub struct ThrowErrorRequest {
    pub job_key: i64,
    pub error_code: String,
    pub error_message: String,
    pub variables: String,
}

/// Asks for the topology of the cluster.
#[derive(Debug, Clone, PartialEq, Eq)]
pub struct TopologyRequest {}

/// Activates jobs of one type, timeouts in milliseconds.
#[derive(Debug, Clone, PartialEq, Eq)]
pub struct ActivateJobsRequest {
    pub job_type: String,
    pub worker: String,
    pub timeout: i64,
    pub max_jobs_to_activate: i32,
    pub fetch_variable: Vec<String>,
    pub request_timeout: i64,
    pub tenant_ids: Vec<String>,
}

} // verus!
