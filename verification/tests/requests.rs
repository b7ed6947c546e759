use zeebe_rs::job::update_timeout::{refusal, refusal_for_code};
use zeebe_rs::client::ClientError;
use zeebe_rs::decision::EvaluateDecisionRequest;
use zeebe_rs::incident::ResolveIncidentRequest;
use zeebe_rs::job::complete::CompleteJobRequest;
use zeebe_rs::job::fail::FailJobRequest;
use zeebe_rs::job::update_retries::UpdateJobRetriesRequest;
use zeebe_rs::job::update_timeout::UpdateJobTimeoutRequest;
use zeebe_rs::message::{MessageError, PublishMessageRequest};
use zeebe_rs::process_instance::cancel::CancelProcessInstanceRequest;
use zeebe_rs::process_instance::create::{CreateProcessInstanceRequest, LATEST_VERSION};
use zeebe_rs::process_instance::migrate::{MappingInstruction, MigrateProcessInstanceRequest};
use zeebe_rs::process_instance::modify::ModifyProcessInstanceRequest;
use zeebe_rs::protocol;
use zeebe_rs::set_variables::{SetVariablesError, SetVariablesRequest};
use zeebe_rs::signal::BroadcastSignalRequest;
use zeebe_rs::throw_error::ThrowErrorRequest;
use zeebe_rs::time::Duration;
use zeebe_rs::topology::TopologyRequest;

fn json_error() -> serde_json::Error {
    serde_json::from_str::<serde_json::Value>("[").unwrap_err()
}

fn strings(v: &[&str]) -> Vec<String> {
    v.iter().map(|s| s.to_string()).collect()
}

#[test]
fn complete_job_without_result() {
    let m = CompleteJobRequest::<zeebe_rs::job::complete::Initial>::new()
        .with_job_key(123456)
        .into_request();
    assert_eq!(
        m,
        protocol::CompleteJobRequest { job_key: 123456, variables: String::from("null"), result: None }
    );
}

#[test]
fn complete_job_with_variables_and_error() {
    let req = CompleteJobRequest::<zeebe_rs::job::complete::Initial>::new()
        .with_job_key(1)
        .with_variables(Ok(String::from("{\"a\":1}")))
        .unwrap();
    assert_eq!(req.into_request().variables, "{\"a\":1}");
    let err = CompleteJobRequest::<zeebe_rs::job::complete::Initial>::new()
        .with_job_key(1)
        .with_variables(Err(json_error()));
    assert!(matches!(err, Err(ClientError::SerializationFailed { .. })));
}

#[test]
fn job_result_corrections_keep_each_other() {
    let m = CompleteJobRequest::<zeebe_rs::job::complete::Initial>::new()
        .with_job_key(7)
        .with_job_result()
        .with_assignee(String::from("alice"))
        .with_priority(5)
        .with_denied(true)
        .with_due_date(String::from("2025-01-01"))
        .with_follow_up_date(String::from("2025-02-01"))
        .with_candidate_users(strings(&["u1", "u2"]))
        .with_candidate_groups(strings(&["g1"]))
        .build()
        .into_request();
    assert_eq!(m.job_key, 7);
    assert_eq!(m.variables, "null");
    assert_eq!(
        m.result,
        Some(protocol::JobResult {
            denied: Some(true),
            corrections: Some(protocol::JobResultCorrections {
                assignee: Some(String::from("alice")),
                due_date: Some(String::from("2025-01-01")),
                follow_up_date: Some(String::from("2025-02-01")),
                candidate_users: Some(protocol::StringList { values: strings(&["u1", "u2"]) }),
                candidate_groups: Some(protocol::StringList { values: strings(&["g1"]) }),
                priority: Some(5),
            }),
        })
    );
}

#[test]
fn job_result_denial_alone_has_no_corrections() {
    let m = CompleteJobRequest::<zeebe_rs::job::complete::Initial>::new()
        .with_job_key(7)
        .with_job_result()
        .with_denied(false)
        .build()
        .into_request();
    assert_eq!(m.result, Some(protocol::JobResult { denied: Some(false), corrections: None }));
    let empty = CompleteJobRequest::<zeebe_rs::job::complete::Initial>::new()
        .with_job_key(7)
        .with_job_result()
        .build()
        .into_request();
    assert_eq!(empty.result, None);
}

#[test]
fn job_result_order_of_denial_and_correction_does_not_matter() {
    let a = CompleteJobRequest::<zeebe_rs::job::complete::Initial>::new()
        .with_job_key(1)
        .with_job_result()
        .with_denied(true)
        .with_priority(3)
        .build()
        .into_request();
    let b = CompleteJobRequest::<zeebe_rs::job::complete::Initial>::new()
        .with_job_key(1)
        .with_job_result()
        .with_priority(3)
        .with_denied(true)
        .build()
        .into_request();
    assert_eq!(a, b);
}

#[test]
fn job_result_corrections_of_different_fields_commute() {
    let a = CompleteJobRequest::<zeebe_rs::job::complete::Initial>::new()
        .with_job_key(1)
        .with_job_result()
        .with_assignee(String::from("ann"))
        .with_candidate_groups(vec![String::from("ops")])
        .with_due_date(String::from("2025-01-01"))
        .build()
        .into_request();
    let b = CompleteJobRequest::<zeebe_rs::job::complete::Initial>::new()
        .with_job_key(1)
        .with_job_result()
        .with_due_date(String::from("2025-01-01"))
        .with_assignee(String::from("ann"))
        .with_candidate_groups(vec![String::from("ops")])
        .build()
        .into_request();
    assert_eq!(a, b);
    let c = a.result.unwrap().corrections.unwrap();
    assert_eq!(c.assignee, Some(String::from("ann")));
    assert_eq!(c.due_date, Some(String::from("2025-01-01")));
}

#[test]
fn job_result_later_correction_of_a_field_wins() {
    let m = CompleteJobRequest::<zeebe_rs::job::complete::Initial>::new()
        .with_job_key(1)
        .with_job_result()
        .with_assignee(String::from("a"))
        .with_assignee(String::from("b"))
        .build()
        .into_request();
    let c = m.result.unwrap().corrections.unwrap();
    assert_eq!(c.assignee, Some(String::from("b")));
    assert_eq!(c.priority, None);
}

#[test]
fn fail_job_request() {
    let m = FailJobRequest::<zeebe_rs::job::fail::Initial>::new()
        .with_job_key(123456)
        .with_retries(2)
        .with_error_message(String::from("broken"))
        .with_retry_back_off(Duration::from_secs(3))
        .with_variables(Ok(String::from("{}")))
        .unwrap()
        .into_request();
    assert_eq!(
        m,
        protocol::FailJobRequest {
            job_key: 123456,
            retries: 2,
            error_message: String::from("broken"),
            retry_back_off: 3000,
            variables: String::from("{}"),
        }
    );
    let err = FailJobRequest::<zeebe_rs::job::fail::Initial>::new().with_job_key(1).with_variables(Err(json_error()));
    assert!(matches!(err, Err(ClientError::SerializationFailed { .. })));
}

#[test]
fn fail_job_defaults() {
    let m = FailJobRequest::<zeebe_rs::job::fail::Initial>::new().with_job_key(5).into_request();
    assert_eq!(m.retries, 0);
    assert_eq!(m.error_message, "");
    assert_eq!(m.retry_back_off, 0);
    assert_eq!(m.variables, "null");
}

#[test]
fn back_off_wraps_like_a_cast() {
    let m = FailJobRequest::<zeebe_rs::job::fail::Initial>::new()
        .with_job_key(5)
        .with_retry_back_off(Duration::from_secs(u64::MAX))
        .into_request();
    assert_eq!(m.retry_back_off, (u64::MAX as u128 * 1000) as i64);
}

#[test]
fn update_job_retries_request() {
    let m = UpdateJobRetriesRequest::<zeebe_rs::job::update_retries::Initial>::new()
        .with_job_key(123456)
        .with_retries(1)
        .with_operation_reference(99)
        .into_request();
    assert_eq!(
        m,
        protocol::UpdateJobRetriesRequest { job_key: 123456, retries: 1, operation_reference: Some(99) }
    );
}

#[test]
fn update_job_timeout_request() {
    let m = UpdateJobTimeoutRequest::<zeebe_rs::job::update_timeout::Initial>::new()
        .with_job_key(123456)
        .with_timeout(Duration::from_secs(10))
        .into_request();
    assert_eq!(
        m,
        protocol::UpdateJobTimeoutRequest { job_key: 123456, timeout: 10_000, operation_reference: None }
    );
}

#[test]
fn throw_error_request() {
    let m = ThrowErrorRequest::<zeebe_rs::throw_error::Initial>::new()
        .with_job_key(123456)
        .with_error_code(String::from("error_code"))
        .with_error_message(String::from("msg"))
        .with_variables(Ok(String::from("{\"a\":1}")))
        .unwrap()
        .into_request();
    assert_eq!(
        m,
        protocol::ThrowErrorRequest {
            job_key: 123456,
            error_code: String::from("error_code"),
            error_message: String::from("msg"),
            variables: String::from("{\"a\":1}"),
        }
    );
    let err = ThrowErrorRequest::<zeebe_rs::throw_error::Initial>::new()
        .with_job_key(1)
        .with_error_code(String::from("c"))
        .with_variables(Err(json_error()));
    assert!(matches!(err, Err(ClientError::JsonError(_))));
}

#[test]
fn publish_message_request() {
    let m = PublishMessageRequest::<zeebe_rs::message::Initial>::new()
        .with_name(String::from("order-paid"))
        .with_correlation_key(String::from("order-1"))
        .with_time_to_live(60)
        .with_message_id(String::from("m1"))
        .with_tenant_id(String::from("t"))
        .with_variables(Ok(String::from("{}")))
        .unwrap()
        .into_request();
    assert_eq!(
        m,
        protocol::PublishMessageRequest {
            name: String::from("order-paid"),
            correlation_key: String::from("order-1"),
            time_to_live: 60_000,
            message_id: String::from("m1"),
            variables: String::from("{}"),
            tenant_id: String::from("t"),
        }
    );
    let err = PublishMessageRequest::<zeebe_rs::message::Initial>::new()
        .with_name(String::from("n"))
        .with_correlation_key(String::from("k"))
        .with_variables(Err(json_error()));
    assert!(matches!(err, Err(MessageError::JsonError(_))));
}

#[test]
fn publish_message_defaults() {
    let m = PublishMessageRequest::<zeebe_rs::message::Initial>::new()
        .with_name(String::from("n"))
        .with_correlation_key(String::from("k"))
        .into_request();
    assert_eq!(m.time_to_live, 0);
    assert_eq!(m.message_id, "");
    assert_eq!(m.variables, "null");
    assert_eq!(m.tenant_id, "");
}

#[test]
fn broadcast_signal_request() {
    let m = BroadcastSignalRequest::<zeebe_rs::signal::Initial>::new()
        .with_signal_name(String::from("Hello_Signal"))
        .with_tenant_id(String::from("t"))
        .into_request();
    assert_eq!(
        m,
        protocol::BroadcastSignalRequest {
            signal_name: String::from("Hello_Signal"),
            variables: String::from("null"),
            tenant_id: String::from("t"),
        }
    );
    let err = BroadcastSignalRequest::<zeebe_rs::signal::Initial>::new()
        .with_signal_name(String::from("s"))
        .with_variables(Err(json_error()));
    assert!(matches!(err, Err(ClientError::SerializationFailed { .. })));
}

#[test]
fn set_variables_request() {
    let m = SetVariablesRequest::<zeebe_rs::set_variables::Initial>::new()
        .set_local_scope(true)
        .with_element_instance_key(77)
        .with_operation_reference(5)
        .with_variable(Ok(String::from("{\"x\":2}")))
        .unwrap()
        .into_request();
    assert_eq!(
        m,
        protocol::SetVariablesRequest {
            element_instance_key: 77,
            variables: String::from("{\"x\":2}"),
            local: true,
            operation_reference: Some(5),
        }
    );
    let err = SetVariablesRequest::<zeebe_rs::set_variables::Initial>::new()
        .with_element_instance_key(1)
        .with_variable(Err(json_error()));
    assert!(matches!(err, Err(SetVariablesError::DeserializeFailed(_))));
}

#[test]
fn resolve_incident_request() {
    let m = ResolveIncidentRequest::<zeebe_rs::incident::Initial>::new()
        .with_operation_reference(3)
        .with_incident_key(12)
        .into_request();
    assert_eq!(m, protocol::ResolveIncidentRequest { incident_key: 12, operation_reference: Some(3) });
}

#[test]
fn evaluate_decision_request() {
    let m = EvaluateDecisionRequest::<zeebe_rs::decision::Initial>::new()
        .with_decision_key(123456)
        .with_decision_id(String::from("decision_id"))
        .with_tenant_id(String::from("t"))
        .with_variables(Ok(String::from("{\"a\":1,\"b\":2}")))
        .unwrap()
        .into_request();
    assert_eq!(
        m,
        protocol::EvaluateDecisionRequest {
            decision_key: 123456,
            decision_id: String::from("decision_id"),
            variables: String::from("{\"a\":1,\"b\":2}"),
            tenant_id: String::from("t"),
        }
    );
    let err = EvaluateDecisionRequest::<zeebe_rs::decision::Initial>::new()
        .with_decision_key(1)
        .with_decision_id(String::from("d"))
        .with_variables(Err(json_error()));
    assert!(matches!(err, Err(ClientError::SerializationFailed { .. })));
}

#[test]
fn evaluate_decision_by_key_alone() {
    let m = EvaluateDecisionRequest::<zeebe_rs::decision::Initial>::new()
        .with_decision_key(42)
        .with_variables(Ok(String::from("{\"x\":true}")))
        .unwrap()
        .into_request();
    assert_eq!(
        m,
        protocol::EvaluateDecisionRequest {
            decision_key: 42,
            decision_id: String::new(),
            variables: String::from("{\"x\":true}"),
            tenant_id: String::new(),
        }
    );
}

#[test]
fn evaluate_decision_by_id_alone() {
    let m = EvaluateDecisionRequest::<zeebe_rs::decision::Initial>::new()
        .with_decision_id(String::from("approve"))
        .with_tenant_id(String::from("t"))
        .into_request();
    assert_eq!(
        m,
        protocol::EvaluateDecisionRequest {
            decision_key: 0,
            decision_id: String::from("approve"),
            variables: String::from("null"),
            tenant_id: String::from("t"),
        }
    );
}

#[test]
fn cancel_process_instance_request() {
    let m = CancelProcessInstanceRequest::<zeebe_rs::process_instance::cancel::Initial>::new()
        .with_process_instance_key(123456)
        .into_request();
    assert_eq!(m, protocol::CancelProcessInstanceRequest { process_instance_key: 123456, operation_reference: None });
}

#[test]
fn create_process_instance_defaults_to_latest_version() {
    let m = CreateProcessInstanceRequest::<zeebe_rs::process_instance::create::Initial>::new()
        .with_bpmn_process_id(String::from("order-process"))
        .without_input()
        .into_request();
    assert_eq!(
        m,
        protocol::CreateProcessInstanceRequest {
            process_definition_key: 0,
            bpmn_process_id: String::from("order-process"),
            version: LATEST_VERSION,
            variables: String::new(),
            start_instructions: vec![],
            tenant_id: String::new(),
            operation_reference: None,
        }
    );
    assert_eq!(LATEST_VERSION, -1);
}

#[test]
fn create_process_instance_by_key_with_input() {
    let m = CreateProcessInstanceRequest::<zeebe_rs::process_instance::create::Initial>::new()
        .with_process_definition_key(12345)
        .with_variables(Ok(String::from("{\"orderId\":123}")))
        .unwrap()
        .with_version(3)
        .with_tenant_id(String::from("t"))
        .with_operation_reference(8)
        .into_request();
    assert_eq!(m.process_definition_key, 12345);
    assert_eq!(m.bpmn_process_id, "");
    assert_eq!(m.version, 3);
    assert_eq!(m.variables, "{\"orderId\":123}");
    assert_eq!(m.tenant_id, "t");
    assert_eq!(m.operation_reference, Some(8));
    let err = CreateProcessInstanceRequest::<zeebe_rs::process_instance::create::Initial>::new()
        .with_process_definition_key(1)
        .with_variables(Err(json_error()));
    assert!(matches!(err, Err(ClientError::SerializationFailed { .. })));
}

#[test]
fn create_process_instance_with_result() {
    let m = CreateProcessInstanceRequest::<zeebe_rs::process_instance::create::Initial>::new()
        .with_bpmn_process_id(String::from("p"))
        .without_input()
        .with_result(Some(strings(&["a", "b"])))
        .into_request();
    assert_eq!(m.fetch_variables, strings(&["a", "b"]));
    assert_eq!(m.request_timeout, 0);
    let inner = m.request.unwrap();
    assert_eq!(inner.bpmn_process_id, "p");
    assert_eq!(inner.version, -1);
    let all = CreateProcessInstanceRequest::<zeebe_rs::process_instance::create::Initial>::new()
        .with_bpmn_process_id(String::from("p"))
        .without_input()
        .with_result(None)
        .into_request();
    assert!(all.fetch_variables.is_empty());
}

#[test]
fn migrate_process_instance_request() {
    let m = MigrateProcessInstanceRequest::<zeebe_rs::process_instance::migrate::Initial>::new()
        .with_process_instance_key(12356)
        .with_migration_plan(
            99,
            vec![
                MappingInstruction::new(String::from("a"), String::from("b")),
                MappingInstruction::new(String::from("c"), String::from("d")),
            ],
        )
        .with_operation_reference(4)
        .into_request();
    assert_eq!(
        m,
        protocol::MigrateProcessInstanceRequest {
            process_instance_key: 12356,
            migration_plan: Some(protocol::MigrationPlan {
                target_process_definition_key: 99,
                mapping_instructions: vec![
                    protocol::MappingInstruction {
                        source_element_id: String::from("a"),
                        target_element_id: String::from("b"),
                    },
                    protocol::MappingInstruction {
                        source_element_id: String::from("c"),
                        target_element_id: String::from("d"),
                    },
                ],
            }),
            operation_reference: Some(4),
        }
    );
    let without = MigrateProcessInstanceRequest::<zeebe_rs::process_instance::migrate::Initial>::new()
        .with_process_instance_key(1)
        .without_migration_plan()
        .into_request();
    assert_eq!(without.migration_plan, None);
}

#[test]
fn modify_process_instance_request() {
    let m = ModifyProcessInstanceRequest::<zeebe_rs::process_instance::modify::Initial>::new()
        .with_process_instance_key(12345)
        .with_activate_instruction(String::from("element_id"), 67890)
        .with_variable_instruction(String::from("scope_id"), Ok(String::from("{\"key\":\"value\"}")))
        .unwrap()
        .build()
        .with_terminate_instruction(54321)
        .with_terminate_instructions(vec![1, 2])
        .with_operation_reference(98765)
        .into_request();
    assert_eq!(
        m,
        protocol::ModifyProcessInstanceRequest {
            process_instance_key: 12345,
            activate_instructions: vec![protocol::ActivateInstruction {
                element_id: String::from("element_id"),
                ancestor_element_instance_key: 67890,
                variable_instructions: vec![protocol::VariableInstruction {
                    variables: String::from("{\"key\":\"value\"}"),
                    scope_id: String::from("scope_id"),
                }],
            }],
            terminate_instructions: vec![
                protocol::TerminateInstruction { element_instance_key: 54321 },
                protocol::TerminateInstruction { element_instance_key: 1 },
                protocol::TerminateInstruction { element_instance_key: 2 },
            ],
            operation_reference: Some(98765),
        }
    );
    let err = ModifyProcessInstanceRequest::<zeebe_rs::process_instance::modify::Initial>::new()
        .with_process_instance_key(1)
        .with_activate_instruction(String::from("e"), 0)
        .with_variable_instruction(String::from("s"), Err(json_error()));
    assert!(matches!(err, Err(ClientError::JsonError(_))));
}

#[test]
fn topology_request() {
    assert_eq!(TopologyRequest::new().into_request(), protocol::TopologyRequest {});
}

#[test]
fn update_job_timeout_refusals_are_told_apart() {
    assert!(matches!(
        refusal(tonic::Status::not_found("no job")),
        ClientError::NotFound(s) if s.message() == "no job"
    ));
    assert!(matches!(
        refusal(tonic::Status::failed_precondition("no deadline")),
        ClientError::InvalidState(_)
    ));
    assert!(matches!(
        refusal(tonic::Status::unavailable("down")),
        ClientError::RequestFailed(s) if s.code() == tonic::Code::Unavailable
    ));
    assert!(matches!(
        refusal_for_code(5, tonic::Status::internal("x")),
        ClientError::NotFound(_)
    ));
    assert!(matches!(
        refusal_for_code(9, tonic::Status::internal("x")),
        ClientError::InvalidState(_)
    ));
    assert!(matches!(
        refusal_for_code(3, tonic::Status::internal("x")),
        ClientError::RequestFailed(_)
    ));
}
