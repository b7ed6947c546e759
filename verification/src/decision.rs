//! Evaluating DMN decisions.
use vstd::prelude::*;
use crate::client::ClientError;
use crate::protocol;
use crate::text::{json_null, json_null_text};

verus! {

/// A request before its decision is given.
pub struct Initial;

/// A request whose decision is given by its key.
pub struct WithKey;

/// A request whose decision is given by its id (and possibly its key too).
pub struct WithId;

/// The states of a request to evaluate a DMN decision, found by its key or by its id.
pub trait EvaluateDecisionRequestState {}

impl EvaluateDecisionRequestState for Initial {}

impl EvaluateDecisionRequestState for WithKey {}

impl EvaluateDecisionRequestState for WithId {}

/// The states in which the decision is given, by its key or by its id, and the
/// request can be sent.
pub trait DecisionIdentified: EvaluateDecisionRequestState {}

impl DecisionIdentified for WithKey {}

impl DecisionIdentified for WithId {}

/// What a request to evaluate a DMN decision, found by its key or by its id holds.
pub struct EvaluateDecisionRequestView {
    pub decision_key: i64,
    pub decision_id: Seq<char>,
    pub variables: Seq<char>,
    pub tenant_id: Seq<char>,
}

/// A request to evaluate a DMN decision, found by its key or by its id.
#[derive(Debug)]
pub struct EvaluateDecisionRequest<T: EvaluateDecisionRequestState> {
    decision_key: i64,
    decision_id: String,
    variables: String,
    tenant_id: String,
    _state: std::marker::PhantomData<T>,
}

impl<T: EvaluateDecisionRequestState> View for EvaluateDecisionRequest<T> {
    type V = EvaluateDecisionRequestView;

    closed spec fn view(&self) -> EvaluateDecisionRequestView {
        EvaluateDecisionRequestView {
            decision_key: self.decision_key,
            decision_id: self.decision_id@,
            variables: self.variables@,
            tenant_id: self.tenant_id@,
        }
    }
}

impl<T: EvaluateDecisionRequestState> EvaluateDecisionRequest<T> {
    /// A request with nothing set.
    pub fn new() -> (r: EvaluateDecisionRequest<Initial>)
        ensures
            r@ == (EvaluateDecisionRequestView {
                decision_key: 0,
                decision_id: Seq::empty(),
                variables: json_null(),
                tenant_id: Seq::empty(),
            }),
    {
        EvaluateDecisionRequest {
            decision_key: 0,
            decision_id: String::new(),
            variables: json_null_text(),
            tenant_id: String::new(),
            _state: std::marker::PhantomData,
        }
    }

    fn transition<N: EvaluateDecisionRequestState>(self) -> (r: EvaluateDecisionRequest<N>)
        ensures
            r@ == self@,
    {
        EvaluateDecisionRequest {
            decision_key: self.decision_key,
            decision_id: self.decision_id,
            variables: self.variables,
            tenant_id: self.tenant_id,
            _state: std::marker::PhantomData,
        }
    }
}

impl EvaluateDecisionRequest<Initial> {

    /// Gives the decision by its id alone; the latest deployed version is
    /// evaluated, and the key stays 0.
    pub fn with_decision_id(self, decision_id: String) -> (r: EvaluateDecisionRequest<WithId>)
        ensures
            r@ == (EvaluateDecisionRequestView { decision_id: decision_id@, ..self@ }),
    {
        let mut r = self;
        r.decision_id = decision_id;
        r.transition()
    }

    /// Gives the decision by its key, as deployment returned it; the id stays empty
    /// unless it is set too.
    pub fn with_decision_key(self, decision_key: i64) -> (r: EvaluateDecisionRequest<WithKey>)
        ensures
            r@ == (EvaluateDecisionRequestView { decision_key: decision_key, ..self@ }),
    {
        let mut r = self;
        r.decision_key = decision_key;
        r.transition()
    }
}

impl EvaluateDecisionRequest<WithKey> {

    /// Sets the id of the decision; by id, the latest deployed version is evaluated.
    pub fn with_decision_id(self, decision_id: String) -> (r: EvaluateDecisionRequest<WithId>)
        ensures
            r@ == (EvaluateDecisionRequestView { decision_id: decision_id@, ..self@ }),
    {
        let mut r = self;
        r.decision_id = decision_id;
        r.transition()
    }
}

impl<T: DecisionIdentified> EvaluateDecisionRequest<T> {

    /// Sets the variables of the evaluation, given `data`: their JSON text, or the error of serializing them.
    pub fn with_variables(self, data: Result<String, serde_json::Error>) -> (r: Result<Self, ClientError>)
        ensures
            match data {
                Ok(text) => r matches Ok(req) && req@ == (EvaluateDecisionRequestView { variables: text@, ..self@ }),
                Err(e) => r matches Err(ClientError::SerializationFailed { source }) && source == e,
            },
    {
        match data {
            Ok(text) => {
                let mut r = self;
                r.variables = text;
                Ok(r)
            },
            Err(e) => Err(ClientError::SerializationFailed { source: e }),
        }
    }

    /// Sets the tenant that owns the decision.
    pub fn with_tenant_id(self, tenant_id: String) -> (r: Self)
        ensures
            r@ == (EvaluateDecisionRequestView { tenant_id: tenant_id@, ..self@ }),
    {
        let mut r = self;
        r.tenant_id = tenant_id;
        r
    }

    /// The message of the request's fields.
    pub fn into_request(self) -> (m: protocol::EvaluateDecisionRequest)
        ensures
            m.decision_key == self@.decision_key,
            m.decision_id@ == self@.decision_id,
            m.variables@ == self@.variables,
            m.tenant_id@ == self@.tenant_id,
    {
        protocol::EvaluateDecisionRequest {
            decision_key: self.decision_key,
            decision_id: self.decision_id,
            variables: self.variables,
            tenant_id: self.tenant_id,
        }
    }
}

/// What an evaluated decision input holds.
pub struct EvaluatedDecisionInputView {
    pub input_id: Seq<char>,
    pub input_name: Seq<char>,
    pub input_value: Seq<char>,
}

/// An input that a decision evaluated.
#[derive(Debug, Clone)]
pub struct EvaluatedDecisionInput {
    input_id: String,
    input_name: String,
    input_value: String,
}

impl View for EvaluatedDecisionInput {
    type V = EvaluatedDecisionInputView;

    closed spec fn view(&self) -> EvaluatedDecisionInputView {
        EvaluatedDecisionInputView {
            input_id: self.input_id@,
            input_name: self.input_name@,
            input_value: self.input_value@,
        }
    }
}

impl EvaluatedDecisionInput {
    /// A value of the given fields, as the gateway reports them.
    pub fn new(input_id: String, input_name: String, input_value: String) -> (r: Self)
        ensures
            r@ == (EvaluatedDecisionInputView {
                input_id: input_id@,
                input_name: input_name@,
                input_value: input_value@,
            }),
    {
        EvaluatedDecisionInput { input_id, input_name, input_value }
    }

    /// The id of the input.
    pub fn input_id(&self) -> (r: &str)
        ensures
            r@ == self@.input_id,
    {
        self.input_id.as_str()
    }

    /// The name of the input.
    pub fn input_name(&self) -> (r: &str)
        ensures
            r@ == self@.input_name,
    {
        self.input_name.as_str()
    }

    /// The value the input had in the evaluation.
    pub fn input_value(&self) -> (r: &str)
        ensures
            r@ == self@.input_value,
    {
        self.input_value.as_str()
    }
}

/// What an evaluated decision output holds.
pub struct EvaluatedDecisionOutputView {
    pub output_id: Seq<char>,
    pub output_name: Seq<char>,
    pub output_value: Seq<char>,
}

/// An output of an evaluated decision.
#[derive(Debug, Clone)]
pub struct EvaluatedDecisionOutput {
    output_id: String,
    output_name: String,
    output_value: String,
}

impl View for EvaluatedDecisionOutput {
    type V = EvaluatedDecisionOutputView;

    closed spec fn view(&self) -> EvaluatedDecisionOutputView {
        EvaluatedDecisionOutputView {
            output_id: self.output_id@,
            output_name: self.output_name@,
            output_value: self.output_value@,
        }
    }
}

impl EvaluatedDecisionOutput {
    /// A value of the given fields, as the gateway reports them.
    pub fn new(output_id: String, output_name: String, output_value: String) -> (r: Self)
        ensures
            r@ == (EvaluatedDecisionOutputView {
                output_id: output_id@,
                output_name: output_name@,
                output_value: output_value@,
            }),
    {
        EvaluatedDecisionOutput { output_id, output_name, output_value }
    }

    /// The id of the output.
    pub fn output_id(&self) -> (r: &str)
        ensures
            r@ == self@.output_id,
    {
        self.output_id.as_str()
    }

    /// The name of the output.
    pub fn output_name(&self) -> (r: &str)
        ensures
            r@ == self@.output_name,
    {
        self.output_name.as_str()
    }

    /// The value of the output.
    pub fn output_value(&self) -> (r: &str)
        ensures
            r@ == self@.output_value,
    {
        self.output_value.as_str()
    }
}

/// What a matched decision rule holds.
pub struct MatchedDecisionRuleView {
    pub rule_id: Seq<char>,
    pub rule_index: i32,
    pub evaluated_outputs: Seq<EvaluatedDecisionOutput>,
}

/// A rule that matched in a decision.
#[derive(Debug, Clone)]
pub struct MatchedDecisionRule {
    rule_id: String,
    rule_index: i32,
    evaluated_outputs: Vec<EvaluatedDecisionOutput>,
}

impl View for MatchedDecisionRule {
    type V = MatchedDecisionRuleView;

    closed spec fn view(&self) -> MatchedDecisionRuleView {
        MatchedDecisionRuleView {
            rule_id: self.rule_id@,
            rule_index: self.rule_index,
            evaluated_outputs: self.evaluated_outputs@,
        }
    }
}

impl MatchedDecisionRule {
    /// A value of the given fields, as the gateway reports them.
    pub fn new(rule_id: String, rule_index: i32, evaluated_outputs: Vec<EvaluatedDecisionOutput>) -> (r: Self)
        ensures
            r@ == (MatchedDecisionRuleView {
                rule_id: rule_id@,
                rule_index: rule_index,
                evaluated_outputs: evaluated_outputs@,
            }),
    {
        MatchedDecisionRule { rule_id, rule_index, evaluated_outputs }
    }

    /// The id of the rule.
    pub fn rule_id(&self) -> (r: &str)
        ensures
            r@ == self@.rule_id,
    {
        self.rule_id.as_str()
    }

    /// The index of the rule in the decision table.
    pub fn rule_index(&self) -> (r: i32)
        ensures
            r == self@.rule_index,
    {
        self.rule_index
    }

    /// The outputs of the rule.
    pub fn evaluated_outputs(&self) -> (r: &[EvaluatedDecisionOutput])
        ensures
            r@ == self@.evaluated_outputs,
    {
        self.evaluated_outputs.as_slice()
    }
}

/// What an evaluated decision holds.
pub struct EvaluatedDecisionView {
    pub decision_key: i64,
    pub decision_id: Seq<char>,
    pub decision_name: Seq<char>,
    pub decision_version: i32,
    pub decision_type: Seq<char>,
    pub decision_output: Seq<char>,
    pub matched_rules: Seq<MatchedDecisionRule>,
    pub evaluated_inputs: Seq<EvaluatedDecisionInput>,
    pub tenant_id: Seq<char>,
}

/// A decision that was evaluated.
#[derive(Debug, Clone)]
pub struct EvaluatedDecision {
    decision_key: i64,
    decision_id: String,
    decision_name: String,
    decision_version: i32,
    decision_type: String,
    decision_output: String,
    matched_rules: Vec<MatchedDecisionRule>,
    evaluated_inputs: Vec<EvaluatedDecisionInput>,
    tenant_id: String,
}

impl View for EvaluatedDecision {
    type V = EvaluatedDecisionView;

    closed spec fn view(&self) -> EvaluatedDecisionView {
        EvaluatedDecisionView {
            decision_key: self.decision_key,
            decision_id: self.decision_id@,
            decision_name: self.decision_name@,
            decision_version: self.decision_version,
            decision_type: self.decision_type@,
            decision_output: self.decision_output@,
            matched_rules: self.matched_rules@,
            evaluated_inputs: self.evaluated_inputs@,
            tenant_id: self.tenant_id@,
        }
    }
}

impl EvaluatedDecision {
    /// A value of the given fields, as the gateway reports them.
    pub fn new(decision_key: i64, decision_id: String, decision_name: String, decision_version: i32, decision_type: String, decision_output: String, matched_rules: Vec<MatchedDecisionRule>, evaluated_inputs: Vec<EvaluatedDecisionInput>, tenant_id: String) -> (r: Self)
        ensures
            r@ == (EvaluatedDecisionView {
                decision_key: decision_key,
                decision_id: decision_id@,
                decision_name: decision_name@,
                decision_version: decision_version,
                decision_type: decision_type@,
                decision_output: decision_output@,
                matched_rules: matched_rules@,
                evaluated_inputs: evaluated_inputs@,
                tenant_id: tenant_id@,
            }),
    {
        EvaluatedDecision { decision_key, decision_id, decision_name, decision_version, decision_type, decision_output, matched_rules, evaluated_inputs, tenant_id }
    }

    /// The key of the decision.
    pub fn decision_key(&self) -> (r: i64)
        ensures
            r == self@.decision_key,
    {
        self.decision_key
    }

    /// The id of the decision.
    pub fn decision_id(&self) -> (r: &str)
        ensures
            r@ == self@.decision_id,
    {
        self.decision_id.as_str()
    }

    /// The name of the decision.
    pub fn decision_name(&self) -> (r: &str)
        ensures
            r@ == self@.decision_name,
    {
        self.decision_name.as_str()
    }

    /// The version of the decision.
    pub fn decision_version(&self) -> (r: i32)
        ensures
            r == self@.decision_version,
    {
        self.decision_version
    }

    /// The type of the decision.
    pub fn decision_type(&self) -> (r: &str)
        ensures
            r@ == self@.decision_type,
    {
        self.decision_type.as_str()
    }

    /// The output of the decision, JSON text.
    pub fn decision_output(&self) -> (r: &str)
        ensures
            r@ == self@.decision_output,
    {
        self.decision_output.as_str()
    }

    /// The rules that matched.
    pub fn matched_rules(&self) -> (r: &[MatchedDecisionRule])
        ensures
            r@ == self@.matched_rules,
    {
        self.matched_rules.as_slice()
    }

    /// The inputs that were evaluated.
    pub fn evaluated_inputs(&self) -> (r: &[EvaluatedDecisionInput])
        ensures
            r@ == self@.evaluated_inputs,
    {
        self.evaluated_inputs.as_slice()
    }

    /// The tenant that owns the decision.
    pub fn tenant_id(&self) -> (r: &str)
        ensures
            r@ == self@.tenant_id,
    {
        self.tenant_id.as_str()
    }
}

/// What the response to a decision evaluation holds; `T` is the output.
pub struct EvaluateDecisionResponseView<T> {
    pub decision_key: i64,
    pub decision_id: Seq<char>,
    pub decision_name: Seq<char>,
    pub decision_version: i32,
    pub decision_requirements_id: Seq<char>,
    pub decision_requirements_key: i64,
    pub decision_output: T,
    pub evaluated_decisions: Seq<EvaluatedDecision>,
    pub failed_decision_id: Seq<char>,
    pub failure_message: Seq<char>,
    pub tenant_id: Seq<char>,
    pub decision_instance_key: i64,
}

/// The response to a decision evaluation, its output deserialized to `T`.
#[derive(Debug, Clone)]
pub struct EvaluateDecisionResponse<T> {
    decision_key: i64,
    decision_id: String,
    decision_name: String,
    decision_version: i32,
    decision_requirements_id: String,
    decision_requirements_key: i64,
    decision_output: T,
    evaluated_decisions: Vec<EvaluatedDecision>,
    failed_decision_id: String,
    failure_message: String,
    tenant_id: String,
    decision_instance_key: i64,
}

impl<T> View for EvaluateDecisionResponse<T> {
    type V = EvaluateDecisionResponseView<T>;

    closed spec fn view(&self) -> EvaluateDecisionResponseView<T> {
        EvaluateDecisionResponseView {
            decision_key: self.decision_key,
            decision_id: self.decision_id@,
            decision_name: self.decision_name@,
            decision_version: self.decision_version,
            decision_requirements_id: self.decision_requirements_id@,
            decision_requirements_key: self.decision_requirements_key,
            decision_output: self.decision_output,
            evaluated_decisions: self.evaluated_decisions@,
            failed_decision_id: self.failed_decision_id@,
            failure_message: self.failure_message@,
            tenant_id: self.tenant_id@,
            decision_instance_key: self.decision_instance_key,
        }
    }
}

impl<T> EvaluateDecisionResponse<T> {
    /// The response of the gateway's fields, the output given by its JSON text and
    /// the outcome `parsed` of deserializing it; a failure keeps the text.
    pub fn from_parts(
        decision_key: i64,
        decision_id: String,
        decision_name: String,
        decision_version: i32,
        decision_requirements_id: String,
        decision_requirements_key: i64,
        decision_output: String,
        parsed: Result<T, serde_json::Error>,
        evaluated_decisions: Vec<EvaluatedDecision>,
        failed_decision_id: String,
        failure_message: String,
        tenant_id: String,
        decision_instance_key: i64,
    ) -> (r: Result<Self, ClientError>)
        ensures
            match parsed {
                Ok(output) => r matches Ok(res) && res@ == (EvaluateDecisionResponseView {
                    decision_key,
                    decision_id: decision_id@,
                    decision_name: decision_name@,
                    decision_version,
                    decision_requirements_id: decision_requirements_id@,
                    decision_requirements_key,
                    decision_output: output,
                    evaluated_decisions: evaluated_decisions@,
                    failed_decision_id: failed_decision_id@,
                    failure_message: failure_message@,
                    tenant_id: tenant_id@,
                    decision_instance_key,
                }),
                Err(e) => r matches Err(ClientError::DeserializationFailed { value, source })
                    && value@ == decision_output@ && source == e,
            },
    {
        match parsed {
            Ok(output) => Ok(
                EvaluateDecisionResponse {
                    decision_key,
                    decision_id,
                    decision_name,
                    decision_version,
                    decision_requirements_id,
                    decision_requirements_key,
                    decision_output: output,
                    evaluated_decisions,
                    failed_decision_id,
                    failure_message,
                    tenant_id,
                    decision_instance_key,
                },
            ),
            Err(e) => Err(ClientError::DeserializationFailed { value: decision_output, source: e }),
        }
    }

    /// The key of the evaluated decision.
    pub fn decision_key(&self) -> (r: i64)
        ensures
            r == self@.decision_key,
    {
        self.decision_key
    }

    /// The id of the evaluated decision.
    pub fn decision_id(&self) -> (r: &str)
        ensures
            r@ == self@.decision_id,
    {
        self.decision_id.as_str()
    }

    /// The name of the evaluated decision.
    pub fn decision_name(&self) -> (r: &str)
        ensures
            r@ == self@.decision_name,
    {
        self.decision_name.as_str()
    }

    /// The version of the evaluated decision.
    pub fn decision_version(&self) -> (r: i32)
        ensures
            r == self@.decision_version,
    {
        self.decision_version
    }

    /// The id of the decision requirements graph of the decision.
    pub fn decision_requirements_id(&self) -> (r: &str)
        ensures
            r@ == self@.decision_requirements_id,
    {
        self.decision_requirements_id.as_str()
    }

    /// The key of the decision requirements graph of the decision.
    pub fn decision_requirements_key(&self) -> (r: i64)
        ensures
            r == self@.decision_requirements_key,
    {
        self.decision_requirements_key
    }

    /// The output of the evaluation.
    pub fn decision_output(&self) -> (r: &T)
        ensures
            *r == self@.decision_output,
    {
        &self.decision_output
    }

    /// The decisions that the evaluation evaluated.
    pub fn evaluated_decisions(&self) -> (r: &[EvaluatedDecision])
        ensures
            r@ == self@.evaluated_decisions,
    {
        self.evaluated_decisions.as_slice()
    }

    /// The id of the decision that failed, if one did.
    pub fn failed_decision_id(&self) -> (r: &str)
        ensures
            r@ == self@.failed_decision_id,
    {
        self.failed_decision_id.as_str()
    }

    /// Why the evaluation failed, if it did.
    pub fn failure_message(&self) -> (r: &str)
        ensures
            r@ == self@.failure_message,
    {
        self.failure_message.as_str()
    }

    /// The tenant of the evaluated decision.
    pub fn tenant_id(&self) -> (r: &str)
        ensures
            r@ == self@.tenant_id,
    {
        self.tenant_id.as_str()
    }

    /// The key of this evaluation.
    pub fn decision_instance_key(&self) -> (r: i64)
        ensures
            r == self@.decision_instance_key,
    {
        self.decision_instance_key
    }
}

} // verus!
