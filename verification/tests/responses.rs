use zeebe_rs::client::ClientError;
use zeebe_rs::decision::{
    EvaluateDecisionResponse, EvaluatedDecision, EvaluatedDecisionInput, EvaluatedDecisionOutput,
    MatchedDecisionRule,
};
use zeebe_rs::job::activated_job::ActivatedJob;
use zeebe_rs::message::PublishMessageResponse;
use zeebe_rs::process_instance::create::{
    CreateProcessInstanceResponse, CreateProcessInstanceWithResult,
    CreateProcessInstanceWithResultSerialized,
};
use zeebe_rs::resource::{
    DecisionMetadata, DecisionRequirementsMetadata, DeployResourceResponse, Deployment, FormMetadata,
    Metadata, ProcessMetadata,
};
use zeebe_rs::set_variables::SetVariablesResponse;
use zeebe_rs::signal::BroadcastSignalResponse;
use zeebe_rs::topology::{BrokerInfo, Partition, TopologyResponse};

fn job() -> ActivatedJob {
    ActivatedJob::new(
        1,
        String::from("type"),
        2,
        String::from("bpmn"),
        3,
        4,
        String::from("element"),
        5,
        String::from("{\"h\":1}"),
        String::from("worker"),
        6,
        7,
        String::from("{\"x\":10}"),
        String::from("tenant"),
    )
}

#[test]
fn activated_job_getters() {
    let j = job();
    assert_eq!(j.key(), 1);
    assert_eq!(j.job_type(), "type");
    assert_eq!(j.process_instance_key(), 2);
    assert_eq!(j.bpmn_process_id(), "bpmn");
    assert_eq!(j.process_definition_version(), 3);
    assert_eq!(j.process_definition_key(), 4);
    assert_eq!(j.element_id(), "element");
    assert_eq!(j.element_instance_key(), 5);
    assert_eq!(j.custom_headers(), "{\"h\":1}");
    assert_eq!(j.worker(), "worker");
    assert_eq!(j.retries(), 6);
    assert_eq!(j.deadline(), 7);
    assert_eq!(j.variables(), "{\"x\":10}");
    assert_eq!(j.tenant_id(), "tenant");
}

#[test]
fn activated_job_data() {
    let j = job();
    let parsed: Result<serde_json::Value, serde_json::Error> = serde_json::from_str(j.variables());
    let v = j.data(parsed).unwrap();
    assert_eq!(v["x"], 10);
    let failed: Result<u32, serde_json::Error> = serde_json::from_str(j.variables());
    match j.data(failed) {
        Err(ClientError::DeserializationFailed { value, .. }) => assert_eq!(value, "{\"x\":10}"),
        _ => panic!("expected a deserialization failure"),
    }
}

#[test]
fn decision_response_parts() {
    let output = EvaluatedDecisionOutput::new(String::from("o"), String::from("out"), String::from("1"));
    assert_eq!(output.output_id(), "o");
    assert_eq!(output.output_name(), "out");
    assert_eq!(output.output_value(), "1");
    let input = EvaluatedDecisionInput::new(String::from("i"), String::from("in"), String::from("2"));
    assert_eq!(input.input_id(), "i");
    assert_eq!(input.input_name(), "in");
    assert_eq!(input.input_value(), "2");
    let rule = MatchedDecisionRule::new(String::from("r"), 3, vec![output]);
    assert_eq!(rule.rule_id(), "r");
    assert_eq!(rule.rule_index(), 3);
    assert_eq!(rule.evaluated_outputs().len(), 1);
    let decision = EvaluatedDecision::new(
        10,
        String::from("d"),
        String::from("Decision"),
        2,
        String::from("DECISION_TABLE"),
        String::from("\"yes\""),
        vec![rule],
        vec![input],
        String::from("t"),
    );
    assert_eq!(decision.decision_key(), 10);
    assert_eq!(decision.decision_id(), "d");
    assert_eq!(decision.decision_name(), "Decision");
    assert_eq!(decision.decision_version(), 2);
    assert_eq!(decision.decision_type(), "DECISION_TABLE");
    assert_eq!(decision.decision_output(), "\"yes\"");
    assert_eq!(decision.matched_rules()[0].rule_id(), "r");
    assert_eq!(decision.evaluated_inputs()[0].input_value(), "2");
    assert_eq!(decision.tenant_id(), "t");
}

fn evaluate(text: &str) -> Result<EvaluateDecisionResponse<String>, ClientError> {
    EvaluateDecisionResponse::from_parts(
        1,
        String::from("d"),
        String::from("n"),
        2,
        String::from("drg"),
        3,
        String::from(text),
        serde_json::from_str::<String>(text),
        vec![],
        String::new(),
        String::new(),
        String::from("t"),
        4,
    )
}

#[test]
fn decision_response_deserializes_its_output() {
    let r = evaluate("\"approved\"").unwrap();
    assert_eq!(r.decision_output(), "approved");
    assert_eq!(r.decision_key(), 1);
    assert_eq!(r.decision_id(), "d");
    assert_eq!(r.decision_name(), "n");
    assert_eq!(r.decision_version(), 2);
    assert_eq!(r.decision_requirements_id(), "drg");
    assert_eq!(r.decision_requirements_key(), 3);
    assert!(r.evaluated_decisions().is_empty());
    assert_eq!(r.failed_decision_id(), "");
    assert_eq!(r.failure_message(), "");
    assert_eq!(r.tenant_id(), "t");
    assert_eq!(r.decision_instance_key(), 4);
}

#[test]
fn decision_response_keeps_undeserializable_output() {
    match evaluate("42") {
        Err(ClientError::DeserializationFailed { value, .. }) => assert_eq!(value, "42"),
        _ => panic!("expected a deserialization failure"),
    }
}

#[test]
fn process_instance_responses() {
    let r = CreateProcessInstanceResponse::new(1, String::from("p"), 2, 3, String::from("t"));
    assert_eq!(r.process_definition_key(), 1);
    assert_eq!(r.bpmn_process_id(), "p");
    assert_eq!(r.version(), 2);
    assert_eq!(r.process_instance_key(), 3);
    assert_eq!(r.tenant_id(), "t");
    let s = CreateProcessInstanceWithResultSerialized::new(r.clone(), String::from("{\"a\":1}"));
    assert_eq!(s.response().process_instance_key(), 3);
    assert_eq!(s.variables(), "{\"a\":1}");
    let parsed = serde_json::from_str::<serde_json::Value>(s.variables());
    let w = CreateProcessInstanceWithResult::from_parts(r.clone(), String::from("{\"a\":1}"), parsed).unwrap();
    assert_eq!(w.data()["a"], 1);
    assert_eq!(w.response().version(), 2);
    let failed = CreateProcessInstanceWithResult::from_parts(
        r,
        String::from("oops"),
        serde_json::from_str::<serde_json::Value>("oops"),
    );
    match failed {
        Err(ClientError::DeserializationFailed { value, .. }) => assert_eq!(value, "oops"),
        _ => panic!("expected a deserialization failure"),
    }
}

#[test]
fn deployment_responses() {
    let p = ProcessMetadata::new(String::from("proc"), 1, 2, String::from("a.bpmn"), String::from("t"));
    assert_eq!(p.bpmn_process_id(), "proc");
    assert_eq!(p.version(), 1);
    assert_eq!(p.process_definition_key(), 2);
    assert_eq!(p.resource_name(), "a.bpmn");
    assert_eq!(p.tenant_id(), "t");
    let d = DecisionMetadata::new(String::from("d"), String::from("D"), 1, 2, String::from("drg"), 3, String::from("t"));
    assert_eq!(d.dmn_decision_id(), "d");
    assert_eq!(d.dmn_decision_name(), "D");
    assert_eq!(d.version(), 1);
    assert_eq!(d.decision_key(), 2);
    assert_eq!(d.dmn_decision_requirement_id(), "drg");
    assert_eq!(d.decision_requirements_key(), 3);
    assert_eq!(d.tenant_id(), "t");
    let g = DecisionRequirementsMetadata::new(String::from("g"), String::from("G"), 4, 5, String::from("g.dmn"), String::from("t"));
    assert_eq!(g.dmn_decision_requirements_id(), "g");
    assert_eq!(g.dmn_decision_requirements_name(), "G");
    assert_eq!(g.version(), 4);
    assert_eq!(g.decision_requirements_key(), 5);
    assert_eq!(g.resource_name(), "g.dmn");
    assert_eq!(g.tenant_id(), "t");
    let f = FormMetadata::new(String::from("f"), 6, 7, String::from("f.form"), String::from("t"));
    assert_eq!(f.form_id(), "f");
    assert_eq!(f.version(), 6);
    assert_eq!(f.form_key(), 7);
    assert_eq!(f.resource_name(), "f.form");
    assert_eq!(f.tenant_id(), "t");
    let deployments = vec![
        Deployment::new(Some(Metadata::Process(p))),
        Deployment::new(Some(Metadata::Form(f))),
        Deployment::new(None),
    ];
    let r = DeployResourceResponse::new(9, deployments, String::from("t"));
    assert_eq!(r.key(), 9);
    assert_eq!(r.tenant_id(), "t");
    assert!(matches!(r.deployments()[0].metadata(), Some(Metadata::Process(_))));
    assert!(matches!(r.deployments()[1].metadata(), Some(Metadata::Form(_))));
    assert!(r.deployments()[2].metadata().is_none());
}

#[test]
fn small_responses() {
    let m = PublishMessageResponse::new(5, String::from("t"));
    assert_eq!(m.key(), 5);
    assert_eq!(m.tenant_id(), "t");
    let s = BroadcastSignalResponse::new(6, String::from("u"));
    assert_eq!(s.key(), 6);
    assert_eq!(s.tenant_id(), "u");
    assert_eq!(SetVariablesResponse::new(7).key(), 7);
}

#[test]
fn topology_response() {
    let partition = Partition::new(1, 0, 0);
    assert_eq!(partition.partition_id(), 1);
    assert_eq!(partition.role(), 0);
    assert_eq!(partition.health(), 0);
    let broker = BrokerInfo::new(0, String::from("localhost"), 26501, vec![partition], String::from("8.6.0"));
    assert_eq!(broker.node_id(), 0);
    assert_eq!(broker.host(), "localhost");
    assert_eq!(broker.port(), 26501);
    assert_eq!(broker.partitions().len(), 1);
    assert_eq!(broker.version(), "8.6.0");
    let t = TopologyResponse::new(vec![broker], 1, 1, 1, String::from("8.6.0"));
    assert_eq!(t.brokers()[0].host(), "localhost");
    assert_eq!(t.cluster_size(), 1);
    assert_eq!(t.partitions_count(), 1);
    assert_eq!(t.replication_factor(), 1);
    assert_eq!(t.gateway_version(), "8.6.0");
}
