//! Migrating a process instance to another process definition.
use vstd::prelude::*;
use crate::protocol;

verus! {

/// A request before its process instance is set.
#[derive(Debug, Clone)]
pub struct Initial;

/// A request with its process instance.
#[derive(Debug, Clone)]
pub struct WithProcessInstance;

/// A request with its process instance and plan.
#[derive(Debug, Clone)]
pub struct WithVariables;

/// The states of a request to migrate a process instance.
pub trait MigrateProcessInstanceState {}

impl MigrateProcessInstanceState for Initial {}

impl MigrateProcessInstanceState for WithProcessInstance {}

impl MigrateProcessInstanceState for WithVariables {}

/// What a mapping instruction holds: the source element and the target element.
pub struct MappingInstructionView {
    pub source_element_id: Seq<char>,
    pub target_element_id: Seq<char>,
}

/// Maps an element of the source process to an element of the target process.
#[derive(Debug)]
pub struct MappingInstruction {
    source_element_id: String,
    target_element_id: String,
}

impl View for MappingInstruction {
    type V = MappingInstructionView;

    closed spec fn view(&self) -> MappingInstructionView {
        MappingInstructionView {
            source_element_id: self.source_element_id@,
            target_element_id: self.target_element_id@,
        }
    }
}

impl Clone for MappingInstruction {
    /// An instruction of the same elements.
    fn clone(&self) -> (r: Self)
        ensures
            r@ == self@,
    {
        MappingInstruction {
            source_element_id: self.source_element_id.clone(),
            target_element_id: self.target_element_id.clone(),
        }
    }
}

impl MappingInstruction {
    /// An instruction that maps `source_element_id` to `target_element_id`.
    pub fn new(source_element_id: String, target_element_id: String) -> (m: Self)
        ensures
            m@ == (MappingInstructionView {
                source_element_id: source_element_id@,
                target_element_id: target_element_id@,
            }),
    {
        MappingInstruction { source_element_id, target_element_id }
    }
}

/// What a migration plan holds.
pub struct MigrationPlanView {
    pub target_process_definition_key: i64,
    pub mapping_instructions: Seq<MappingInstructionView>,
}

/// How a process instance migrates: the target definition and the element mappings.
#[derive(Debug)]
pub struct MigrationPlan {
    target_process_definition_key: i64,
    mapping_instructions: Vec<MappingInstruction>,
}

/// The views of a list of mapping instructions.
pub open spec fn mappings_view(v: Seq<MappingInstruction>) -> Seq<MappingInstructionView> {
    v.map_values(|m: MappingInstruction| m@)
}

impl Clone for MigrationPlan {
    /// A plan of the same target and mappings.
    fn clone(&self) -> (r: Self)
        ensures
            r@ == self@,
    {
        let mut mappings: Vec<MappingInstruction> = Vec::new();
        let mut i: usize = 0;
        while i < self.mapping_instructions.len()
            invariant
                i <= self.mapping_instructions@.len(),
                mappings@.len() == i,
                forall|j: int| 0 <= j < i ==> #[trigger] mappings@[j]@
                    == self.mapping_instructions@[j]@,
            decreases self.mapping_instructions@.len() - i,
        {
            mappings.push(self.mapping_instructions[i].clone());
            i = i + 1;
        }
        let r = MigrationPlan {
            target_process_definition_key: self.target_process_definition_key,
            mapping_instructions: mappings,
        };
        assert(mappings_view(r.mapping_instructions@) =~= mappings_view(
            self.mapping_instructions@,
        ));
        r
    }
}

impl View for MigrationPlan {
    type V = MigrationPlanView;

    closed spec fn view(&self) -> MigrationPlanView {
        MigrationPlanView {
            target_process_definition_key: self.target_process_definition_key,
            mapping_instructions: mappings_view(self.mapping_instructions@),
        }
    }
}

/// What a request to migrate a process instance holds.
pub struct MigrateProcessInstanceRequestView {
    pub process_instance_key: i64,
    pub migration_plan: Option<MigrationPlanView>,
    pub operation_reference: Option<u64>,
}

/// A request to migrate a process instance to another process definition.
#[derive(Debug)]
pub struct MigrateProcessInstanceRequest<T: MigrateProcessInstanceState> {
    process_instance_key: i64,
    migration_plan: Option<MigrationPlan>,
    operation_reference: Option<u64>,
    _state: std::marker::PhantomData<T>,
}

impl<T: MigrateProcessInstanceState> View for MigrateProcessInstanceRequest<T> {
    type V = MigrateProcessInstanceRequestView;

    closed spec fn view(&self) -> MigrateProcessInstanceRequestView {
        MigrateProcessInstanceRequestView {
            process_instance_key: self.process_instance_key,
            migration_plan: match self.migration_plan {
                Some(p) => Some(p@),
                None => None,
            },
            operation_reference: self.operation_reference,
        }
    }
}

/// What a mapping instruction on the wire holds.
pub open spec fn wire_mapping(m: protocol::MappingInstruction) -> MappingInstructionView {
    MappingInstructionView {
        source_element_id: m.source_element_id@,
        target_element_id: m.target_element_id@,
    }
}

/// What a migration plan on the wire holds.
pub open spec fn wire_plan(p: Option<protocol::MigrationPlan>) -> Option<MigrationPlanView> {
    match p {
        Some(p) => Some(
            MigrationPlanView {
                target_process_definition_key: p.target_process_definition_key,
                mapping_instructions: p.mapping_instructions@.map_values(
                    |m: protocol::MappingInstruction| wire_mapping(m),
                ),
            },
        ),
        None => None,
    }
}

impl<T: MigrateProcessInstanceState> Clone for MigrateProcessInstanceRequest<T> {
    /// A request of the same fields.
    fn clone(&self) -> (r: Self)
        ensures
            r@ == self@,
    {
        let migration_plan = match &self.migration_plan {
            Some(p) => Some(p.clone()),
            None => None,
        };
        MigrateProcessInstanceRequest {
            process_instance_key: self.process_instance_key,
            migration_plan,
            operation_reference: self.operation_reference,
            _state: std::marker::PhantomData,
        }
    }
}

impl<T: MigrateProcessInstanceState> MigrateProcessInstanceRequest<T> {
    /// A request with no process instance, no plan and no operation reference.
    pub fn new() -> (r: MigrateProcessInstanceRequest<Initial>)
        ensures
            r@ == (MigrateProcessInstanceRequestView {
                process_instance_key: 0,
                migration_plan: None,
                operation_reference: None,
            }),
    {
        MigrateProcessInstanceRequest {
            process_instance_key: 0,
            migration_plan: None,
            operation_reference: None,
            _state: std::marker::PhantomData,
        }
    }

    fn transition<N: MigrateProcessInstanceState>(self) -> (r: MigrateProcessInstanceRequest<N>)
        ensures
            r@ == self@,
    {
        MigrateProcessInstanceRequest {
            process_instance_key: self.process_instance_key,
            migration_plan: self.migration_plan,
            operation_reference: self.operation_reference,
            _state: std::marker::PhantomData,
        }
    }
}

impl MigrateProcessInstanceRequest<Initial> {
    /// Sets the key of the instance to migrate.
    pub fn with_process_instance_key(self, process_instance_key: i64) -> (r:
        MigrateProcessInstanceRequest<WithProcessInstance>)
        ensures
            r@ == (MigrateProcessInstanceRequestView { process_instance_key, ..self@ }),
    {
        let mut r = self;
        r.process_instance_key = process_instance_key;
        r.transition()
    }
}

impl MigrateProcessInstanceRequest<WithProcessInstance> {
    /// Sets the plan: the target definition and the element mappings.
    pub fn with_migration_plan(
        self,
        target_process_definition_key: i64,
        mapping_instructions: Vec<MappingInstruction>,
    ) -> (r: MigrateProcessInstanceRequest<WithVariables>)
        ensures
            r@ == (MigrateProcessInstanceRequestView {
                migration_plan: Some(
                    MigrationPlanView {
                        target_process_definition_key,
                        mapping_instructions: mappings_view(mapping_instructions@),
                    },
                ),
                ..self@
            }),
    {
        let mut r = self;
        r.migration_plan = Some(MigrationPlan { target_process_definition_key, mapping_instructions });
        r.transition()
    }

    /// Goes on without a plan.
    pub fn without_migration_plan(self) -> (r: MigrateProcessInstanceRequest<WithVariables>)
        ensures
            r@ == self@,
    {
        self.transition()
    }
}

impl MigrateProcessInstanceRequest<WithVariables> {
    /// The message that migrates the instance, of the request's fields.
    pub fn into_request(self) -> (m: protocol::MigrateProcessInstanceRequest)
        ensures
            m.process_instance_key == self@.process_instance_key,
            wire_plan(m.migration_plan) == self@.migration_plan,
            m.operation_reference == self@.operation_reference,
    {
        let migration_plan = match &self.migration_plan {
            Some(p) => {
                let mut mappings: Vec<protocol::MappingInstruction> = Vec::new();
                let mut i: usize = 0;
                while i < p.mapping_instructions.len()
                    invariant
                        i <= p.mapping_instructions@.len(),
                        mappings@.len() == i,
                        forall|j: int| 0 <= j < i ==> #[trigger] wire_mapping(mappings@[j])
                            == p.mapping_instructions@[j]@,
                    decreases p.mapping_instructions@.len() - i,
                {
                    let source = &p.mapping_instructions[i];
                    mappings.push(
                        protocol::MappingInstruction {
                            source_element_id: source.source_element_id.clone(),
                            target_element_id: source.target_element_id.clone(),
                        },
                    );
                    i = i + 1;
                }
                let plan = protocol::MigrationPlan {
                    target_process_definition_key: p.target_process_definition_key,
                    mapping_instructions: mappings,
                };
                assert(wire_plan(Some(plan))->0.mapping_instructions =~= p@.mapping_instructions);
                Some(plan)
            },
            None => None,
        };
        protocol::MigrateProcessInstanceRequest {
            process_instance_key: self.process_instance_key,
            migration_plan,
            operation_reference: self.operation_reference,
        }
    }

    /// Sets a reference that the records of the operation carry.
    pub fn with_operation_reference(self, operation_reference: u64) -> (r: Self)
        ensures
            r@ == (MigrateProcessInstanceRequestView {
                operation_reference: Some(operation_reference),
                ..self@
            }),
    {
        let mut r = self;
        r.operation_reference = Some(operation_reference);
        r
    }
}

/// The empty response to a migration.
#[derive(Debug, Clone)]
pub struct MigrateProcessInstanceResponse {}

} // verus!
