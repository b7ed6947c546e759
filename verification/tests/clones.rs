use zeebe_rs::client::{ClientBuilder, Initial};
use zeebe_rs::job::complete::CompleteJobRequest;
use zeebe_rs::process_instance::cancel::CancelProcessInstanceRequest;
use zeebe_rs::process_instance::create::CreateProcessInstanceRequest;
use zeebe_rs::process_instance::migrate::{MappingInstruction, MigrateProcessInstanceRequest};
use zeebe_rs::process_instance::modify::ModifyProcessInstanceRequest;
use zeebe_rs::time::Duration;
use zeebe_rs::worker::WorkerBuilder;

#[test]
fn cloned_cancel_request_sends_the_same_message() {
    let request = CancelProcessInstanceRequest::<zeebe_rs::process_instance::cancel::Initial>::new()
        .with_process_instance_key(42)
        .with_operation_reference(7);
    let copy = request.clone();
    assert_eq!(copy.into_request(), request.into_request());
}

#[test]
fn cloned_create_request_sends_the_same_message() {
    let request = CreateProcessInstanceRequest::<zeebe_rs::process_instance::create::Initial>::new()
        .with_bpmn_process_id(String::from("order-process"))
        .with_variables(Ok(String::from("{\"a\":1}")))
        .unwrap()
        .with_version(3)
        .with_tenant_id(String::from("tenant"));
    let copy = request.clone();
    let original = request.into_request();
    assert_eq!(copy.into_request(), original);
    assert_eq!(original.bpmn_process_id, "order-process");
    assert_eq!(original.variables, "{\"a\":1}");
}

#[test]
fn cloned_create_request_with_result_keeps_fetch_variables() {
    let request = CreateProcessInstanceRequest::<zeebe_rs::process_instance::create::Initial>::new()
        .with_process_definition_key(9)
        .without_input()
        .with_result(Some(vec![String::from("x"), String::from("y")]));
    let copy = request.clone();
    let original = request.into_request();
    assert_eq!(copy.into_request(), original);
    assert_eq!(original.fetch_variables, vec![String::from("x"), String::from("y")]);
}

#[test]
fn cloned_migrate_request_sends_the_same_message() {
    let request =
        MigrateProcessInstanceRequest::<zeebe_rs::process_instance::migrate::Initial>::new()
            .with_process_instance_key(5)
            .with_migration_plan(
                77,
                vec![MappingInstruction::new(String::from("a"), String::from("b"))],
            );
    let copy = request.clone();
    let original = request.into_request();
    assert_eq!(copy.into_request(), original);
    assert_eq!(original.migration_plan.unwrap().mapping_instructions.len(), 1);
}

#[test]
fn cloned_modify_request_sends_the_same_message() {
    let request = ModifyProcessInstanceRequest::<zeebe_rs::process_instance::modify::Initial>::new()
        .with_process_instance_key(11)
        .with_activate_instruction(String::from("task"), 3)
        .with_variable_instruction(String::from("scope"), Ok(String::from("{}")))
        .unwrap()
        .build()
        .with_terminate_instructions(vec![1, 2]);
    let copy = request.clone();
    let original = request.into_request();
    assert_eq!(copy.into_request(), original);
    assert_eq!(original.terminate_instructions.len(), 2);
    assert_eq!(original.activate_instructions[0].variable_instructions.len(), 1);
}

#[test]
fn cloned_complete_request_keeps_its_result() {
    let request = CompleteJobRequest::<zeebe_rs::job::complete::Initial>::new()
        .with_job_key(8)
        .with_job_result()
        .with_denied(true)
        .with_assignee(String::from("me"))
        .build();
    let copy = request.clone();
    let original = request.into_request();
    assert_eq!(copy.into_request(), original);
    assert_eq!(original.result.unwrap().denied, Some(true));
}

#[test]
fn cloned_worker_builder_shares_its_configuration() {
    let shared = WorkerBuilder::<zeebe_rs::worker::Initial, ()>::new()
        .with_request_timeout(Duration::from_secs(10))
        .with_job_timeout(Duration::from_secs(60))
        .with_max_jobs_to_activate(4)
        .with_concurrency_limit(2);
    let first = shared
        .clone()
        .with_job_type(String::from("first"))
        .with_handler(1u8)
        .build();
    let second = shared
        .with_job_type(String::from("second"))
        .with_handler(2u8)
        .build();
    let (first_request, _, first_limit, first_handler, _) = first.into_parts();
    let (second_request, _, second_limit, second_handler, _) = second.into_parts();
    assert_eq!(first_request.job_type, "first");
    assert_eq!(second_request.job_type, "second");
    assert_eq!(first_request.timeout, 60000);
    assert_eq!(second_request.timeout, 60000);
    assert_eq!(first_request.max_jobs_to_activate, 4);
    assert_eq!(second_request.max_jobs_to_activate, 4);
    assert_eq!(first_limit, 2);
    assert_eq!(second_limit, 2);
    assert_eq!((first_handler, second_handler), (1, 2));
}

#[test]
fn cloned_client_builder_gives_the_same_settings() {
    let builder = ClientBuilder::<Initial>::default()
        .with_address("http://localhost", 26500)
        .with_timeout(Duration::from_secs(3))
        .with_oauth(
            String::from("id"),
            String::from("secret"),
            String::from("http://auth"),
            String::from("zeebe-api"),
            Duration::from_secs(30),
        );
    let copy = builder.clone().into_settings();
    let original = builder.into_settings();
    assert_eq!(copy.endpoint, "http://localhost:26500");
    assert_eq!(copy.endpoint, original.endpoint);
    assert_eq!(copy.timeout, original.timeout);
    let (copy_config, copy_timeout) = copy.oauth.unwrap();
    let (config, timeout) = original.oauth.unwrap();
    assert_eq!(copy_config.client_secret, config.client_secret);
    assert_eq!(copy_config.audience, "zeebe-api");
    assert_eq!(copy_timeout, timeout);
}
