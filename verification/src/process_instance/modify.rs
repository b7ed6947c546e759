//! Modifying a process instance: activating elements and terminating element
//! instances.
use vstd::prelude::*;
use crate::client::ClientError;
use crate::protocol;

verus! {

/// A request before its process instance is set.
#[derive(Debug, Clone)]
pub struct Initial;

/// A request with its process instance.
#[derive(Debug, Clone)]
pub struct WithProcessInstance;

/// The states of a request to modify a process instance.
pub trait ModifyProcessInstanceState {}

impl ModifyProcessInstanceState for Initial {}

impl ModifyProcessInstanceState for WithProcessInstance {}

/// An instruction to terminate an element instance.
#[derive(Debug)]
pub struct TerminateInstruction {
    element_instance_key: i64,
}

impl View for TerminateInstruction {
    type V = i64;

    closed spec fn view(&self) -> i64 {
        self.element_instance_key
    }
}

/// What a variable instruction holds: the JSON text of the variables and the scope.
pub struct VariableInstructionView {
    pub variables: Seq<char>,
    pub scope_id: Seq<char>,
}

/// An instruction to create variables in a scope.
#[derive(Debug)]
pub struct VariableInstruction {
    variables: String,
    scope_id: String,
}

impl View for VariableInstruction {
    type V = VariableInstructionView;

    closed spec fn view(&self) -> VariableInstructionView {
        VariableInstructionView { variables: self.variables@, scope_id: self.scope_id@ }
    }
}

/// The views of a list of variable instructions.
pub open spec fn variable_instructions_view(v: Seq<VariableInstruction>) -> Seq<
    VariableInstructionView,
> {
    v.map_values(|i: VariableInstruction| i@)
}

/// What an activate instruction holds.
pub struct ActivateInstructionView {
    pub element_id: Seq<char>,
    pub ancestor_element_instance_key: i64,
    pub variable_instructions: Seq<VariableInstructionView>,
}

/// An instruction to activate an element.
#[derive(Debug)]
pub struct ActivateInstruction {
    element_id: String,
    ancestor_element_instance_key: i64,
    variable_instructions: Vec<VariableInstruction>,
}

impl View for ActivateInstruction {
    type V = ActivateInstructionView;

    closed spec fn view(&self) -> ActivateInstructionView {
        ActivateInstructionView {
            element_id: self.element_id@,
            ancestor_element_instance_key: self.ancestor_element_instance_key,
            variable_instructions: variable_instructions_view(self.variable_instructions@),
        }
    }
}

/// The views of a list of activate instructions.
pub open spec fn activate_instructions_view(v: Seq<ActivateInstruction>) -> Seq<
    ActivateInstructionView,
> {
    v.map_values(|i: ActivateInstruction| i@)
}

/// The keys of a list of terminate instructions.
pub open spec fn terminate_instructions_view(v: Seq<TerminateInstruction>) -> Seq<i64> {
    v.map_values(|i: TerminateInstruction| i@)
}

impl Clone for TerminateInstruction {
    /// An instruction of the same element instance.
    fn clone(&self) -> (r: Self)
        ensures
            r@ == self@,
    {
        TerminateInstruction { element_instance_key: self.element_instance_key }
    }
}

impl Clone for VariableInstruction {
    /// An instruction of the same variables and scope.
    fn clone(&self) -> (r: Self)
        ensures
            r@ == self@,
    {
        VariableInstruction { variables: self.variables.clone(), scope_id: self.scope_id.clone() }
    }
}

/// A copy of a list of variable instructions.
fn clone_variable_instructions(v: &Vec<VariableInstruction>) -> (r: Vec<VariableInstruction>)
    ensures
        variable_instructions_view(r@) == variable_instructions_view(v@),
{
    let mut r: Vec<VariableInstruction> = Vec::new();
    let mut i: usize = 0;
    while i < v.len()
        invariant
            i <= v@.len(),
            r@.len() == i,
            forall|j: int| 0 <= j < i ==> #[trigger] r@[j]@ == v@[j]@,
        decreases v@.len() - i,
    {
        r.push(v[i].clone());
        i = i + 1;
    }
    assert(variable_instructions_view(r@) =~= variable_instructions_view(v@));
    r
}

impl Clone for ActivateInstruction {
    /// An instruction of the same element, ancestor and variables.
    fn clone(&self) -> (r: Self)
        ensures
            r@ == self@,
    {
        ActivateInstruction {
            element_id: self.element_id.clone(),
            ancestor_element_instance_key: self.ancestor_element_instance_key,
            variable_instructions: clone_variable_instructions(&self.variable_instructions),
        }
    }
}

/// A copy of a list of activate instructions.
fn clone_activate_instructions(v: &Vec<ActivateInstruction>) -> (r: Vec<ActivateInstruction>)
    ensures
        activate_instructions_view(r@) == activate_instructions_view(v@),
{
    let mut r: Vec<ActivateInstruction> = Vec::new();
    let mut i: usize = 0;
    while i < v.len()
        invariant
            i <= v@.len(),
            r@.len() == i,
            forall|j: int| 0 <= j < i ==> #[trigger] r@[j]@ == v@[j]@,
        decreases v@.len() - i,
    {
        r.push(v[i].clone());
        i = i + 1;
    }
    assert(activate_instructions_view(r@) =~= activate_instructions_view(v@));
    r
}

/// A copy of a list of terminate instructions.
fn clone_terminate_instructions(v: &Vec<TerminateInstruction>) -> (r: Vec<TerminateInstruction>)
    ensures
        terminate_instructions_view(r@) == terminate_instructions_view(v@),
{
    let mut r: Vec<TerminateInstruction> = Vec::new();
    let mut i: usize = 0;
    while i < v.len()
        invariant
            i <= v@.len(),
            r@.len() == i,
            forall|j: int| 0 <= j < i ==> #[trigger] r@[j]@ == v@[j]@,
        decreases v@.len() - i,
    {
        r.push(v[i].clone());
        i = i + 1;
    }
    assert(terminate_instructions_view(r@) =~= terminate_instructions_view(v@));
    r
}

/// What a request to modify a process instance holds.
pub struct ModifyProcessInstanceRequestView {
    pub process_instance_key: i64,
    pub activate_instructions: Seq<ActivateInstructionView>,
    pub terminate_instructions: Seq<i64>,
    pub operation_reference: Option<u64>,
}

/// A request to modify a process instance by activating elements and terminating
/// element instances.
#[derive(Debug)]
pub struct ModifyProcessInstanceRequest<T: ModifyProcessInstanceState> {
    process_instance_key: i64,
    activate_instructions: Vec<ActivateInstruction>,
    terminate_instructions: Vec<TerminateInstruction>,
    operation_reference: Option<u64>,
    _state: std::marker::PhantomData<T>,
}

impl<T: ModifyProcessInstanceState> View for ModifyProcessInstanceRequest<T> {
    type V = ModifyProcessInstanceRequestView;

    closed spec fn view(&self) -> ModifyProcessInstanceRequestView {
        ModifyProcessInstanceRequestView {
            process_instance_key: self.process_instance_key,
            activate_instructions: activate_instructions_view(self.activate_instructions@),
            terminate_instructions: terminate_instructions_view(self.terminate_instructions@),
            operation_reference: self.operation_reference,
        }
    }
}

impl<T: ModifyProcessInstanceState> Clone for ModifyProcessInstanceRequest<T> {
    /// A request of the same instance, instructions and operation reference.
    fn clone(&self) -> (r: Self)
        ensures
            r@ == self@,
    {
        ModifyProcessInstanceRequest {
            process_instance_key: self.process_instance_key,
            activate_instructions: clone_activate_instructions(&self.activate_instructions),
            terminate_instructions: clone_terminate_instructions(&self.terminate_instructions),
            operation_reference: self.operation_reference,
            _state: std::marker::PhantomData,
        }
    }
}

impl<T: ModifyProcessInstanceState> ModifyProcessInstanceRequest<T> {
    /// A request with no process instance, no instructions and no operation
    /// reference.
    pub fn new() -> (r: ModifyProcessInstanceRequest<Initial>)
        ensures
            r@ == (ModifyProcessInstanceRequestView {
                process_instance_key: 0,
                activate_instructions: Seq::empty(),
                terminate_instructions: Seq::empty(),
                operation_reference: None,
            }),
    {
        let r = ModifyProcessInstanceRequest {
            process_instance_key: 0,
            activate_instructions: Vec::new(),
            terminate_instructions: Vec::new(),
            operation_reference: None,
            _state: std::marker::PhantomData,
        };
        assert(r@.activate_instructions =~= Seq::<ActivateInstructionView>::empty());
        assert(r@.terminate_instructions =~= Seq::<i64>::empty());
        r
    }

    fn transition<N: ModifyProcessInstanceState>(self) -> (r: ModifyProcessInstanceRequest<N>)
        ensures
            r@ == self@,
    {
        ModifyProcessInstanceRequest {
            process_instance_key: self.process_instance_key,
            activate_instructions: self.activate_instructions,
            terminate_instructions: self.terminate_instructions,
            operation_reference: self.operation_reference,
            _state: std::marker::PhantomData,
        }
    }
}

impl ModifyProcessInstanceRequest<Initial> {
    /// Sets the key of the instance to modify.
    pub fn with_process_instance_key(self, process_instance_key: i64) -> (r:
        ModifyProcessInstanceRequest<WithProcessInstance>)
        ensures
            r@ == (ModifyProcessInstanceRequestView { process_instance_key, ..self@ }),
    {
        let mut r = self;
        r.process_instance_key = process_instance_key;
        r.transition()
    }
}

/// What an activate instruction on the wire holds.
pub open spec fn wire_activate(a: protocol::ActivateInstruction) -> ActivateInstructionView {
    ActivateInstructionView {
        element_id: a.element_id@,
        ancestor_element_instance_key: a.ancestor_element_instance_key,
        variable_instructions: a.variable_instructions@.map_values(
            |v: protocol::VariableInstruction|
                VariableInstructionView { variables: v.variables@, scope_id: v.scope_id@ },
        ),
    }
}

/// The activate instruction on the wire of one of the request.
fn activate_request(a: &ActivateInstruction) -> (m: protocol::ActivateInstruction)
    ensures
        wire_activate(m) == a@,
{
    let mut variable_instructions: Vec<protocol::VariableInstruction> = Vec::new();
    let mut i: usize = 0;
    while i < a.variable_instructions.len()
        invariant
            i <= a.variable_instructions@.len(),
            variable_instructions@.len() == i,
            forall|j: int|
                0 <= j < i ==> (VariableInstructionView {
                    variables: (#[trigger] variable_instructions@[j]).variables@,
                    scope_id: variable_instructions@[j].scope_id@,
                }) == a.variable_instructions@[j]@,
        decreases a.variable_instructions@.len() - i,
    {
        let v = &a.variable_instructions[i];
        variable_instructions.push(
            protocol::VariableInstruction {
                variables: v.variables.clone(),
                scope_id: v.scope_id.clone(),
            },
        );
        i = i + 1;
    }
    let m = protocol::ActivateInstruction {
        element_id: a.element_id.clone(),
        ancestor_element_instance_key: a.ancestor_element_instance_key,
        variable_instructions,
    };
    assert(wire_activate(m).variable_instructions =~= a@.variable_instructions);
    m
}

impl ModifyProcessInstanceRequest<WithProcessInstance> {
    /// Starts building an instruction to activate `element_id` in the scope of the
    /// ancestor element instance.
    pub fn with_activate_instruction(self, element_id: String, ancestor_element_instance_key: i64) -> (b:
        ActivateInstructionBuilder)
        ensures
            b@ == (ActivateInstructionBuilderView {
                source_request: self@,
                element_id: element_id@,
                ancestor_element_instance_key,
                variable_instructions: Seq::empty(),
            }),
    {
        ActivateInstructionBuilder::new(self, element_id, ancestor_element_instance_key)
    }

    /// Adds an instruction to terminate an element instance.
    pub fn with_terminate_instruction(self, element_instance_key: i64) -> (r: Self)
        ensures
            r@ == (ModifyProcessInstanceRequestView {
                terminate_instructions: self@.terminate_instructions.push(element_instance_key),
                ..self@
            }),
    {
        let mut r = self;
        r.terminate_instructions.push(TerminateInstruction { element_instance_key });
        assert(r@.terminate_instructions =~= self@.terminate_instructions.push(element_instance_key));
        r
    }

    /// Adds instructions to terminate element instances, in order.
    pub fn with_terminate_instructions(self, element_instance_keys: Vec<i64>) -> (r: Self)
        ensures
            r@ == (ModifyProcessInstanceRequestView {
                terminate_instructions: self@.terminate_instructions + element_instance_keys@,
                ..self@
            }),
    {
        let mut r = self;
        let mut i: usize = 0;
        while i < element_instance_keys.len()
            invariant
                i <= element_instance_keys@.len(),
                r@ == (ModifyProcessInstanceRequestView {
                    terminate_instructions: self@.terminate_instructions
                        + element_instance_keys@.subrange(0, i as int),
                    ..self@
                }),
            decreases element_instance_keys@.len() - i,
        {
            let ghost before = r@.terminate_instructions;
            r.terminate_instructions.push(
                TerminateInstruction { element_instance_key: element_instance_keys[i] },
            );
            assert(r@.terminate_instructions =~= before.push(element_instance_keys@[i as int]));
            assert(element_instance_keys@.subrange(0, i + 1) =~= element_instance_keys@.subrange(
                0,
                i as int,
            ).push(element_instance_keys@[i as int]));
            i = i + 1;
        }
        assert(element_instance_keys@.subrange(0, element_instance_keys@.len() as int)
            =~= element_instance_keys@);
        r
    }

    /// The message that modifies the instance: the activate instructions with their
    /// variable instructions, and the terminate instructions, in order.
    pub fn into_request(self) -> (m: protocol::ModifyProcessInstanceRequest)
        ensures
            m.process_instance_key == self@.process_instance_key,
            m.activate_instructions@.map_values(|a: protocol::ActivateInstruction| wire_activate(a))
                == self@.activate_instructions,
            m.terminate_instructions@.map_values(
                |t: protocol::TerminateInstruction| t.element_instance_key,
            ) == self@.terminate_instructions,
            m.operation_reference == self@.operation_reference,
    {
        let mut activate_instructions: Vec<protocol::ActivateInstruction> = Vec::new();
        let mut i: usize = 0;
        while i < self.activate_instructions.len()
            invariant
                i <= self.activate_instructions@.len(),
                activate_instructions@.len() == i,
                forall|j: int| 0 <= j < i ==> #[trigger] wire_activate(activate_instructions@[j])
                    == self.activate_instructions@[j]@,
            decreases self.activate_instructions@.len() - i,
        {
            activate_instructions.push(activate_request(&self.activate_instructions[i]));
            i = i + 1;
        }
        let mut terminate_instructions: Vec<protocol::TerminateInstruction> = Vec::new();
        let mut k: usize = 0;
        while k < self.terminate_instructions.len()
            invariant
                k <= self.terminate_instructions@.len(),
                terminate_instructions@.len() == k,
                forall|j: int| 0 <= j < k ==> (#[trigger] terminate_instructions@[j]).element_instance_key
                    == self.terminate_instructions@[j]@,
            decreases self.terminate_instructions@.len() - k,
        {
            terminate_instructions.push(
                protocol::TerminateInstruction {
                    element_instance_key: self.terminate_instructions[k].element_instance_key,
                },
            );
            k = k + 1;
        }
        let m = protocol::ModifyProcessInstanceRequest {
            process_instance_key: self.process_instance_key,
            activate_instructions,
            terminate_instructions,
            operation_reference: self.operation_reference,
        };
        assert(m.activate_instructions@.map_values(
            |a: protocol::ActivateInstruction| wire_activate(a),
        ) =~= self@.activate_instructions);
        assert(m.terminate_instructions@.map_values(
            |t: protocol::TerminateInstruction| t.element_instance_key,
        ) =~= self@.terminate_instructions);
        m
    }

    /// Sets a reference that the records of the operation carry.
    pub fn with_operation_reference(self, operation_reference: u64) -> (r: Self)
        ensures
            r@ == (ModifyProcessInstanceRequestView {
                operation_reference: Some(operation_reference),
                ..self@
            }),
    {
        let mut r = self;
        r.operation_reference = Some(operation_reference);
        r
    }
}

/// What an activate instruction builder holds.
pub struct ActivateInstructionBuilderView {
    pub source_request: ModifyProcessInstanceRequestView,
    pub element_id: Seq<char>,
    pub ancestor_element_instance_key: i64,
    pub variable_instructions: Seq<VariableInstructionView>,
}

/// A builder of an instruction to activate an element.
#[derive(Debug)]
pub struct ActivateInstructionBuilder {
    source_request: ModifyProcessInstanceRequest<WithProcessInstance>,
    element_id: String,
    ancestor_element_instance_key: i64,
    variable_instructions: Vec<VariableInstruction>,
}

impl Clone for ActivateInstructionBuilder {
    /// A builder of the same request, element, ancestor and variables.
    fn clone(&self) -> (r: Self)
        ensures
            r@ == self@,
    {
        ActivateInstructionBuilder {
            source_request: self.source_request.clone(),
            element_id: self.element_id.clone(),
            ancestor_element_instance_key: self.ancestor_element_instance_key,
            variable_instructions: clone_variable_instructions(&self.variable_instructions),
        }
    }
}

impl View for ActivateInstructionBuilder {
    type V = ActivateInstructionBuilderView;

    closed spec fn view(&self) -> ActivateInstructionBuilderView {
        ActivateInstructionBuilderView {
            source_request: self.source_request@,
            element_id: self.element_id@,
            ancestor_element_instance_key: self.ancestor_element_instance_key,
            variable_instructions: variable_instructions_view(self.variable_instructions@),
        }
    }
}

impl ActivateInstructionBuilder {
    fn new(
        source_request: ModifyProcessInstanceRequest<WithProcessInstance>,
        element_id: String,
        ancestor_element_instance_key: i64,
    ) -> (b: Self)
        ensures
            b@ == (ActivateInstructionBuilderView {
                source_request: source_request@,
                element_id: element_id@,
                ancestor_element_instance_key,
                variable_instructions: Seq::empty(),
            }),
    {
        let b = ActivateInstructionBuilder {
            source_request,
            element_id,
            ancestor_element_instance_key,
            variable_instructions: Vec::new(),
        };
        assert(b@.variable_instructions =~= Seq::<VariableInstructionView>::empty());
        b
    }

    /// Adds variables to create in the scope `scope_id` when the element is
    /// activated, given `data`: their JSON text, or the error of serializing them.
    pub fn with_variable_instruction(self, scope_id: String, data: Result<String, serde_json::Error>) -> (r:
        Result<Self, ClientError>)
        ensures
            match data {
                Ok(text) => r matches Ok(b) && b@ == (ActivateInstructionBuilderView {
                    variable_instructions: self@.variable_instructions.push(
                        VariableInstructionView { variables: text@, scope_id: scope_id@ },
                    ),
                    ..self@
                }),
                Err(e) => r matches Err(ClientError::JsonError(source)) && source == e,
            },
    {
        match data {
            Ok(variables) => {
                let mut b = self;
                b.variable_instructions.push(VariableInstruction { scope_id, variables });
                assert(b@.variable_instructions =~= self@.variable_instructions.push(
                    VariableInstructionView { variables: data->Ok_0@, scope_id: scope_id@ },
                ));
                Ok(b)
            },
            Err(e) => Err(ClientError::JsonError(e)),
        }
    }

    /// The request, now carrying the activate instruction that was built.
    pub fn build(self) -> (r: ModifyProcessInstanceRequest<WithProcessInstance>)
        ensures
            r@ == (ModifyProcessInstanceRequestView {
                activate_instructions: self@.source_request.activate_instructions.push(
                    ActivateInstructionView {
                        element_id: self@.element_id,
                        ancestor_element_instance_key: self@.ancestor_element_instance_key,
                        variable_instructions: self@.variable_instructions,
                    },
                ),
                ..self@.source_request
            }),
    {
        let ghost before = self@;
        let mut r = self.source_request;
        r.activate_instructions.push(
            ActivateInstruction {
                element_id: self.element_id,
                ancestor_element_instance_key: self.ancestor_element_instance_key,
                variable_instructions: self.variable_instructions,
            },
        );
        assert(r@.activate_instructions =~= before.source_request.activate_instructions.push(
            ActivateInstructionView {
                element_id: before.element_id,
                ancestor_element_instance_key: before.ancestor_element_instance_key,
                variable_instructions: before.variable_instructions,
            },
        ));
        r
    }
}

/// The empty response to a modification.
#[derive(Debug, Clone)]
pub struct ModifyProcessInstanceResponse {}

} // verus!
