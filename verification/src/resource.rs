//! Deploying and deleting resources: BPMN processes, DMN decisions and forms.
use vstd::prelude::*;
use crate::client::ClientError;
use crate::protocol;

verus! {

/// Errors of loading the files of resources to deploy.
#[derive(Debug)]
pub enum DeployResourceError {
    /// The file could not be read.
    ResourceLoad { file_path: std::path::PathBuf, source: std::io::Error },
    /// The path names no file.
    MissingName { file_path: std::path::PathBuf },
}

/// A request before its resources are given.
#[derive(Default, Clone)]
pub struct Initial;

/// A request whose resources are files, not yet read.
pub struct WithFile;

/// A request whose resources are definitions: names and contents.
pub struct WithDefinition;

/// A request to delete a resource with its key.
pub struct WithKey;

/// The states of a request to deploy resources.
pub trait DeployResourceState {}

impl DeployResourceState for Initial {}

impl DeployResourceState for WithFile {}

impl DeployResourceState for WithDefinition {}

/// What a request to deploy resources holds: the files to read, the definitions
/// (names and contents), and the owning tenant.
pub struct DeployResourceRequestView {
    pub resource_file_paths: Option<Seq<std::path::PathBuf>>,
    pub resource_definitions: Seq<(String, Vec<u8>)>,
    pub tenant_id: Option<Seq<char>>,
}

/// A request to deploy resources to the gateway; the deployment is atomic.
#[derive(Debug)]
pub struct DeployResourceRequest<T: DeployResourceState> {
    resource_file_paths: Option<Vec<std::path::PathBuf>>,
    resource_definitions: Vec<(String, Vec<u8>)>,
    tenant_id: Option<String>,
    _state: std::marker::PhantomData<T>,
}

impl<T: DeployResourceState> View for DeployResourceRequest<T> {
    type V = DeployResourceRequestView;

    closed spec fn view(&self) -> DeployResourceRequestView {
        DeployResourceRequestView {
            resource_file_paths: match self.resource_file_paths {
                Some(v) => Some(v@),
                None => None,
            },
            resource_definitions: self.resource_definitions@,
            tenant_id: crate::text::opt_string_view(self.tenant_id),
        }
    }
}

impl<T: DeployResourceState> DeployResourceRequest<T> {
    /// A request with no files, no definitions and no tenant.
    pub fn new() -> (r: DeployResourceRequest<Initial>)
        ensures
            r@ == (DeployResourceRequestView {
                resource_file_paths: None,
                resource_definitions: Seq::empty(),
                tenant_id: None,
            }),
    {
        DeployResourceRequest {
            resource_file_paths: None,
            resource_definitions: Vec::new(),
            tenant_id: None,
            _state: std::marker::PhantomData,
        }
    }

    /// Moves to another state; the tenant is cleared.
    fn transition<N: DeployResourceState>(self) -> (r: DeployResourceRequest<N>)
        ensures
            r@ == (DeployResourceRequestView { tenant_id: None, ..self@ }),
    {
        DeployResourceRequest {
            resource_file_paths: self.resource_file_paths,
            resource_definitions: self.resource_definitions,
            tenant_id: None,
            _state: std::marker::PhantomData,
        }
    }
}

impl DeployResourceRequest<Initial> {
    /// Deploys the resource of one file.
    pub fn with_resource_file(self, file_path: std::path::PathBuf) -> (r: DeployResourceRequest<
        WithFile,
    >)
        ensures
            r@ == (DeployResourceRequestView {
                resource_file_paths: Some(seq![file_path]),
                tenant_id: None,
                ..self@
            }),
    {
        let mut r = self;
        let mut paths: Vec<std::path::PathBuf> = Vec::new();
        paths.push(file_path);
        r.resource_file_paths = Some(paths);
        assert(r@.resource_file_paths->0 =~= seq![file_path]);
        r.transition()
    }

    /// Deploys the resources of files, in order.
    pub fn with_resource_files(self, file_paths: Vec<std::path::PathBuf>) -> (r:
        DeployResourceRequest<WithFile>)
        ensures
            r@ == (DeployResourceRequestView {
                resource_file_paths: Some(file_paths@),
                tenant_id: None,
                ..self@
            }),
    {
        let mut r = self;
        r.resource_file_paths = Some(file_paths);
        r.transition()
    }

    /// Adds a resource of a name (such as `process.bpmn`) and its content.
    pub fn with_definition(self, name: String, definition: Vec<u8>) -> (r: DeployResourceRequest<
        WithDefinition,
    >)
        ensures
            r@ == (DeployResourceRequestView {
                resource_definitions: self@.resource_definitions.push((name, definition)),
                tenant_id: None,
                ..self@
            }),
    {
        let mut r = self;
        r.resource_definitions.push((name, definition));
        r.transition()
    }

    /// Adds resources of names and contents, in order.
    pub fn with_definitions(self, definitions: Vec<(String, Vec<u8>)>) -> (r:
        DeployResourceRequest<WithDefinition>)
        ensures
            r@ == (DeployResourceRequestView {
                resource_definitions: self@.resource_definitions + definitions@,
                tenant_id: None,
                ..self@
            }),
    {
        let mut r = self;
        let mut more = definitions;
        r.resource_definitions.append(&mut more);
        r.transition()
    }
}

/// The file name of a path as text: the last component that `Path::file_name`
/// gives, made text by `OsStr::to_string_lossy`; none where the path has no file
/// name (it ends in `..`, or is a root or empty).
pub uninterp spec fn file_name_text(path: std::path::PathBuf) -> Option<Seq<char>>;

/// The file name of `path`: `std::path::Path::file_name`, its `OsStr` made a
/// `String` with `to_string_lossy`. Both depend on the path alone; the contract
/// claims no more than that the result is `file_name_text` of the path.
#[verifier::external_body]
fn file_name_of(path: &std::path::PathBuf) -> (name: Option<String>)
    ensures
        crate::text::opt_string_view(name) == file_name_text(*path),
{
    match path.file_name() {
        Some(n) => Some(n.to_string_lossy().into_owned()),
        None => None,
    }
}

/// Whether `definition` is what the file at `path` gives: content that `read` can
/// give for the path, named by the path's file name.
pub open spec fn defines<F>(read: F, path: std::path::PathBuf, definition: (String, Vec<u8>)) -> bool where
    F: Fn(&std::path::PathBuf) -> Result<Vec<u8>, std::io::Error>,
 {
    &&& read.ensures((&path,), Ok(definition.1))
    &&& file_name_text(path) == Some(definition.0@)
}

/// Whether the file at `path` gives a definition: it can be read and it has a name.
#[verifier::opaque]
pub open spec fn gives_definition<F>(read: F, path: std::path::PathBuf) -> bool where
    F: Fn(&std::path::PathBuf) -> Result<Vec<u8>, std::io::Error>,
 {
    exists|d: (String, Vec<u8>)| #[trigger] defines(read, path, d)
}

/// Whether each of the first `n` files gives a definition.
pub open spec fn all_define<F>(read: F, paths: Seq<std::path::PathBuf>, n: int) -> bool where
    F: Fn(&std::path::PathBuf) -> Result<Vec<u8>, std::io::Error>,
 {
    forall|j: int| 0 <= j < n ==> #[trigger] gives_definition(read, paths[j])
}

impl DeployResourceRequest<WithFile> {
    /// Reads the files into definitions, in order: `read` reads the content of one
    /// file, and a definition is named by its path's file name. The first file that
    /// cannot be read ends the reading with `ResourceLoad`, the first one read that
    /// has no file name with `MissingName`; the definitions replace those held.
    pub fn read_resource_files<F>(self, read: F) -> (r: Result<
        DeployResourceRequest<WithDefinition>,
        ClientError,
    >) where F: Fn(&std::path::PathBuf) -> Result<Vec<u8>, std::io::Error>
        requires
            forall|p: &std::path::PathBuf| #[trigger] read.requires((p,)),
        ensures
            match self@.resource_file_paths {
                None => r matches Ok(req) && req@ == (DeployResourceRequestView {
                    tenant_id: None,
                    ..self@
                }),
                Some(paths) => match r {
                    Ok(req) => req@.resource_file_paths is None && req@.tenant_id is None
                        && req@.resource_definitions.len() == paths.len() && forall|i: int|
                        0 <= i < paths.len() ==> defines(
                            read,
                            paths[i],
                            #[trigger] req@.resource_definitions[i],
                        ),
                    Err(ClientError::ResourceError(DeployResourceError::ResourceLoad { file_path, source })) =>
                        exists|i: int|
                        #![trigger paths[i]]
                        0 <= i < paths.len() && file_path == paths[i] && read.ensures(
                            (&paths[i],),
                            Err(source),
                        ) && all_define(read, paths, i),
                    Err(ClientError::ResourceError(DeployResourceError::MissingName { file_path })) =>
                        exists|i: int|
                        #![trigger paths[i]]
                        0 <= i < paths.len() && file_path == paths[i] && (exists|c: Vec<u8>|
                            #[trigger] read.ensures((&paths[i],), Ok(c))) && file_name_text(
                            paths[i],
                        ) is None && all_define(read, paths, i),
                    Err(_) => false,
                },
            },
    {
        let ghost orig = self@;
        let mut req = self;
        let paths = req.resource_file_paths.take();
        match paths {
            None => Ok(req.transition()),
            Some(paths) => {
                let ghost ps = paths@;
                let mut rest = paths;
                let mut definitions: Vec<(String, Vec<u8>)> = Vec::new();
                while rest.len() > 0
                    invariant
                        orig.resource_file_paths == Some(ps),
                        orig == self@,
                        definitions@.len() + rest@.len() == ps.len(),
                        rest@ == ps.subrange(definitions@.len() as int, ps.len() as int),
                        forall|p: &std::path::PathBuf| #[trigger] read.requires((p,)),
                        forall|j: int|
                            0 <= j < definitions@.len() ==> defines(
                                read,
                                ps[j],
                                #[trigger] definitions@[j],
                            ),
                    decreases rest@.len(),
                {
                    let ghost i = definitions@.len() as int;
                    let path = rest.remove(0);
                    assert(path == ps[i]);
                    proof {
                        assert forall|j: int| 0 <= j < i implies #[trigger] gives_definition(
                            read,
                            ps[j],
                        ) by {
                            reveal(gives_definition);
                            assert(defines(read, ps[j], definitions@[j]));
                        }
                    }
                    let ghost qs = self@.resource_file_paths->0;
                    assert(qs == ps);
                    match read(&path) {
                        Err(source) => {
                            assert(read.ensures((&qs[i],), Err(source)));
                            assert(all_define(read, qs, i));
                            return Err(
                                ClientError::ResourceError(
                                    DeployResourceError::ResourceLoad { file_path: path, source },
                                ),
                            );
                        },
                        Ok(content) => {
                            match file_name_of(&path) {
                                None => {
                                    assert(read.ensures((&qs[i],), Ok(content)));
                                    assert(file_name_text(qs[i]) is None);
                                    assert(all_define(read, qs, i));
                                    return Err(
                                        ClientError::ResourceError(
                                            DeployResourceError::MissingName { file_path: path },
                                        ),
                                    );
                                },
                                Some(name) => {
                                    definitions.push((name, content));
                                },
                            }
                        },
                    }
                    assert(rest@ =~= ps.subrange(definitions@.len() as int, ps.len() as int));
                }
                req.resource_definitions = definitions;
                Ok(req.transition())
            },
        }
    }
}

impl DeployResourceRequest<WithDefinition> {
    /// Sets the tenant that owns the resources.
    pub fn with_tenant(self, tenant_id: String) -> (r: DeployResourceRequest<WithDefinition>)
        ensures
            r@ == (DeployResourceRequestView { tenant_id: Some(tenant_id@), ..self@ }),
    {
        let mut r = self;
        r.tenant_id = Some(tenant_id);
        r
    }

    /// The message that deploys the resources: the definitions in order, and the
    /// tenant, empty when none was set.
    pub fn into_request(self) -> (m: protocol::DeployResourceRequest)
        ensures
            m.resources@.len() == self@.resource_definitions.len(),
            forall|i: int|
                0 <= i < m.resources@.len() ==> (#[trigger] m.resources@[i]).name
                    == self@.resource_definitions[i].0 && m.resources@[i].content
                    == self@.resource_definitions[i].1,
            m.tenant_id@ == match self@.tenant_id {
                Some(t) => t,
                None => Seq::empty(),
            },
    {
        let ghost defs = self@.resource_definitions;
        let mut rest = self.resource_definitions;
        let mut resources: Vec<protocol::Resource> = Vec::new();
        while rest.len() > 0
            invariant
                resources@.len() + rest@.len() == defs.len(),
                rest@ == defs.subrange(resources@.len() as int, defs.len() as int),
                forall|i: int|
                    0 <= i < resources@.len() ==> (#[trigger] resources@[i]).name == defs[i].0
                        && resources@[i].content == defs[i].1,
            decreases rest@.len(),
        {
            let (name, content) = rest.remove(0);
            resources.push(protocol::Resource { name, content });
        }
        let tenant_id = match self.tenant_id {
            Some(t) => t,
            None => String::new(),
        };
        protocol::DeployResourceRequest { resources, tenant_id }
    }
}

/// What a process metadata holds.
pub struct ProcessMetadataView {
    pub bpmn_process_id: Seq<char>,
    pub version: i32,
    pub process_definition_key: i64,
    pub resource_name: Seq<char>,
    pub tenant_id: Seq<char>,
}

/// Metadata of a deployed BPMN process definition.
#[derive(Debug, Clone)]
pub struct ProcessMetadata {
    bpmn_process_id: String,
    version: i32,
    process_definition_key: i64,
    resource_name: String,
    tenant_id: String,
}

impl View for ProcessMetadata {
    type V = ProcessMetadataView;

    closed spec fn view(&self) -> ProcessMetadataView {
        ProcessMetadataView {
            bpmn_process_id: self.bpmn_process_id@,
            version: self.version,
            process_definition_key: self.process_definition_key,
            resource_name: self.resource_name@,
            tenant_id: self.tenant_id@,
        }
    }
}

impl ProcessMetadata {
    /// A value of the given fields, as the gateway reports them.
    pub fn new(bpmn_process_id: String, version: i32, process_definition_key: i64, resource_name: String, tenant_id: String) -> (r: Self)
        ensures
            r@ == (ProcessMetadataView {
                bpmn_process_id: bpmn_process_id@,
                version: version,
                process_definition_key: process_definition_key,
                resource_name: resource_name@,
                tenant_id: tenant_id@,
            }),
    {
        ProcessMetadata { bpmn_process_id, version, process_definition_key, resource_name, tenant_id }
    }

    /// The BPMN process id.
    pub fn bpmn_process_id(&self) -> (r: &str)
        ensures
            r@ == self@.bpmn_process_id,
    {
        self.bpmn_process_id.as_str()
    }

    /// The version of the process definition.
    pub fn version(&self) -> (r: i32)
        ensures
            r == self@.version,
    {
        self.version
    }

    /// The key that Zeebe gave the process definition.
    pub fn process_definition_key(&self) -> (r: i64)
        ensures
            r == self@.process_definition_key,
    {
        self.process_definition_key
    }

    /// The name of the resource the process was deployed from.
    pub fn resource_name(&self) -> (r: &str)
        ensures
            r@ == self@.resource_name,
    {
        self.resource_name.as_str()
    }

    /// The tenant that owns the process definition; empty without multi-tenancy.
    pub fn tenant_id(&self) -> (r: &str)
        ensures
            r@ == self@.tenant_id,
    {
        self.tenant_id.as_str()
    }
}

/// What a decision metadata holds.
pub struct DecisionMetadataView {
    pub dmn_decision_id: Seq<char>,
    pub dmn_decision_name: Seq<char>,
    pub version: i32,
    pub decision_key: i64,
    pub dmn_decision_requirement_id: Seq<char>,
    pub decision_requirements_key: i64,
    pub tenant_id: Seq<char>,
}

/// Metadata of a deployed DMN decision.
#[derive(Debug, Clone)]
pub struct DecisionMetadata {
    dmn_decision_id: String,
    dmn_decision_name: String,
    version: i32,
    decision_key: i64,
    dmn_decision_requirement_id: String,
    decision_requirements_key: i64,
    tenant_id: String,
}

impl View for DecisionMetadata {
    type V = DecisionMetadataView;

    closed spec fn view(&self) -> DecisionMetadataView {
        DecisionMetadataView {
            dmn_decision_id: self.dmn_decision_id@,
            dmn_decision_name: self.dmn_decision_name@,
            version: self.version,
            decision_key: self.decision_key,
            dmn_decision_requirement_id: self.dmn_decision_requirement_id@,
            decision_requirements_key: self.decision_requirements_key,
            tenant_id: self.tenant_id@,
        }
    }
}

impl DecisionMetadata {
    /// A value of the given fields, as the gateway reports them.
    pub fn new(dmn_decision_id: String, dmn_decision_name: String, version: i32, decision_key: i64, dmn_decision_requirement_id: String, decision_requirements_key: i64, tenant_id: String) -> (r: Self)
        ensures
            r@ == (DecisionMetadataView {
                dmn_decision_id: dmn_decision_id@,
                dmn_decision_name: dmn_decision_name@,
                version: version,
                decision_key: decision_key,
                dmn_decision_requirement_id: dmn_decision_requirement_id@,
                decision_requirements_key: decision_requirements_key,
                tenant_id: tenant_id@,
            }),
    {
        DecisionMetadata { dmn_decision_id, dmn_decision_name, version, decision_key, dmn_decision_requirement_id, decision_requirements_key, tenant_id }
    }

    /// The id of the decision, from the DMN XML.
    pub fn dmn_decision_id(&self) -> (r: &str)
        ensures
            r@ == self@.dmn_decision_id,
    {
        self.dmn_decision_id.as_str()
    }

    /// The name of the decision, from the DMN XML.
    pub fn dmn_decision_name(&self) -> (r: &str)
        ensures
            r@ == self@.dmn_decision_name,
    {
        self.dmn_decision_name.as_str()
    }

    /// The version of the decision.
    pub fn version(&self) -> (r: i32)
        ensures
            r == self@.version,
    {
        self.version
    }

    /// The key that Zeebe gave the decision.
    pub fn decision_key(&self) -> (r: i64)
        ensures
            r == self@.decision_key,
    {
        self.decision_key
    }

    /// The id of the decision requirements graph the decision belongs to.
    pub fn dmn_decision_requirement_id(&self) -> (r: &str)
        ensures
            r@ == self@.dmn_decision_requirement_id,
    {
        self.dmn_decision_requirement_id.as_str()
    }

    /// The key of the decision requirements graph the decision belongs to.
    pub fn decision_requirements_key(&self) -> (r: i64)
        ensures
            r == self@.decision_requirements_key,
    {
        self.decision_requirements_key
    }

    /// The tenant that owns the decision; empty without multi-tenancy.
    pub fn tenant_id(&self) -> (r: &str)
        ensures
            r@ == self@.tenant_id,
    {
        self.tenant_id.as_str()
    }
}

/// What a decision requirements metadata holds.
pub struct DecisionRequirementsMetadataView {
    pub dmn_decision_requirements_id: Seq<char>,
    pub dmn_decision_requirements_name: Seq<char>,
    pub version: i32,
    pub decision_requirements_key: i64,
    pub resource_name: Seq<char>,
    pub tenant_id: Seq<char>,
}

/// Metadata of a deployed DMN decision requirements graph.
#[derive(Debug, Clone)]
pub struct DecisionRequirementsMetadata {
    dmn_decision_requirements_id: String,
    dmn_decision_requirements_name: String,
    version: i32,
    decision_requirements_key: i64,
    resource_name: String,
    tenant_id: String,
}

impl View for DecisionRequirementsMetadata {
    type V = DecisionRequirementsMetadataView;

    closed spec fn view(&self) -> DecisionRequirementsMetadataView {
        DecisionRequirementsMetadataView {
            dmn_decision_requirements_id: self.dmn_decision_requirements_id@,
            dmn_decision_requirements_name: self.dmn_decision_requirements_name@,
            version: self.version,
            decision_requirements_key: self.decision_requirements_key,
            resource_name: self.resource_name@,
            tenant_id: self.tenant_id@,
        }
    }
}

impl DecisionRequirementsMetadata {
    /// A value of the given fields, as the gateway reports them.
    pub fn new(dmn_decision_requirements_id: String, dmn_decision_requirements_name: String, version: i32, decision_requirements_key: i64, resource_name: String, tenant_id: String) -> (r: Self)
        ensures
            r@ == (DecisionRequirementsMetadataView {
                dmn_decision_requirements_id: dmn_decision_requirements_id@,
                dmn_decision_requirements_name: dmn_decision_requirements_name@,
                version: version,
                decision_requirements_key: decision_requirements_key,
                resource_name: resource_name@,
                tenant_id: tenant_id@,
            }),
    {
        DecisionRequirementsMetadata { dmn_decision_requirements_id, dmn_decision_requirements_name, version, decision_requirements_key, resource_name, tenant_id }
    }

    /// The id of the graph, from the DMN XML.
    pub fn dmn_decision_requirements_id(&self) -> (r: &str)
        ensures
            r@ == self@.dmn_decision_requirements_id,
    {
        self.dmn_decision_requirements_id.as_str()
    }

    /// The name of the graph, from the DMN XML.
    pub fn dmn_decision_requirements_name(&self) -> (r: &str)
        ensures
            r@ == self@.dmn_decision_requirements_name,
    {
        self.dmn_decision_requirements_name.as_str()
    }

    /// The version of the graph.
    pub fn version(&self) -> (r: i32)
        ensures
            r == self@.version,
    {
        self.version
    }

    /// The key that Zeebe gave the graph.
    pub fn decision_requirements_key(&self) -> (r: i64)
        ensures
            r == self@.decision_requirements_key,
    {
        self.decision_requirements_key
    }

    /// The name of the resource the graph was deployed from.
    pub fn resource_name(&self) -> (r: &str)
        ensures
            r@ == self@.resource_name,
    {
        self.resource_name.as_str()
    }

    /// The tenant that owns the graph; empty without multi-tenancy.
    pub fn tenant_id(&self) -> (r: &str)
        ensures
            r@ == self@.tenant_id,
    {
        self.tenant_id.as_str()
    }
}

/// What a form metadata holds.
pub struct FormMetadataView {
    pub form_id: Seq<char>,
    pub version: i32,
    pub form_key: i64,
    pub resource_name: Seq<char>,
    pub tenant_id: Seq<char>,
}

/// Metadata of a deployed form.
#[derive(Debug, Clone)]
pub struct FormMetadata {
    form_id: String,
    version: i32,
    form_key: i64,
    resource_name: String,
    tenant_id: String,
}

impl View for FormMetadata {
    type V = FormMetadataView;

    closed spec fn view(&self) -> FormMetadataView {
        FormMetadataView {
            form_id: self.form_id@,
            version: self.version,
            form_key: self.form_key,
            resource_name: self.resource_name@,
            tenant_id: self.tenant_id@,
        }
    }
}

impl FormMetadata {
    /// A value of the given fields, as the gateway reports them.
    pub fn new(form_id: String, version: i32, form_key: i64, resource_name: String, tenant_id: String) -> (r: Self)
        ensures
            r@ == (FormMetadataView {
                form_id: form_id@,
                version: version,
                form_key: form_key,
                resource_name: resource_name@,
                tenant_id: tenant_id@,
            }),
    {
        FormMetadata { form_id, version, form_key, resource_name, tenant_id }
    }

    /// The id of the form.
    pub fn form_id(&self) -> (r: &str)
        ensures
            r@ == self@.form_id,
    {
        self.form_id.as_str()
    }

    /// The version of the form.
    pub fn version(&self) -> (r: i32)
        ensures
            r == self@.version,
    {
        self.version
    }

    /// The key that Zeebe gave the form.
    pub fn form_key(&self) -> (r: i64)
        ensures
            r == self@.form_key,
    {
        self.form_key
    }

    /// The name of the resource the form was deployed from.
    pub fn resource_name(&self) -> (r: &str)
        ensures
            r@ == self@.resource_name,
    {
        self.resource_name.as_str()
    }

    /// The tenant that owns the form.
    pub fn tenant_id(&self) -> (r: &str)
        ensures
            r@ == self@.tenant_id,
    {
        self.tenant_id.as_str()
    }
}

/// The metadata of a deployed resource, by its kind.
#[derive(Debug, Clone)]
pub enum Metadata {
    Process(ProcessMetadata),
    Decision(DecisionMetadata),
    DecisionRequirements(DecisionRequirementsMetadata),
    Form(FormMetadata),
}

/// A deployed resource.
#[derive(Debug, Clone)]
pub struct Deployment {
    metadata: Option<Metadata>,
}

impl View for Deployment {
    type V = Option<Metadata>;

    closed spec fn view(&self) -> Option<Metadata> {
        self.metadata
    }
}

impl Deployment {
    /// A deployed resource of the given metadata.
    pub fn new(metadata: Option<Metadata>) -> (d: Self)
        ensures
            d@ == metadata,
    {
        Deployment { metadata }
    }

    /// The metadata of the deployed resource, if any.
    pub fn metadata(&self) -> (r: Option<&Metadata>)
        ensures
            match self@ {
                Some(m) => r matches Some(x) && *x == m,
                None => r is None,
            },
    {
        match &self.metadata {
            Some(m) => Some(m),
            None => None,
        }
    }
}

/// What a deploy resource response holds.
pub struct DeployResourceResponseView {
    pub key: i64,
    pub deployments: Seq<Deployment>,
    pub tenant_id: Seq<char>,
}

/// The response to a deployment.
#[derive(Debug, Clone)]
pub struct DeployResourceResponse {
    key: i64,
    deployments: Vec<Deployment>,
    tenant_id: String,
}

impl View for DeployResourceResponse {
    type V = DeployResourceResponseView;

    closed spec fn view(&self) -> DeployResourceResponseView {
        DeployResourceResponseView {
            key: self.key,
            deployments: self.deployments@,
            tenant_id: self.tenant_id@,
        }
    }
}

impl DeployResourceResponse {
    /// A value of the given fields, as the gateway reports them.
    pub fn new(key: i64, deployments: Vec<Deployment>, tenant_id: String) -> (r: Self)
        ensures
            r@ == (DeployResourceResponseView {
                key: key,
                deployments: deployments@,
                tenant_id: tenant_id@,
            }),
    {
        DeployResourceResponse { key, deployments, tenant_id }
    }

    /// The key of the deployment.
    pub fn key(&self) -> (r: i64)
        ensures
            r == self@.key,
    {
        self.key
    }

    /// The deployed resources.
    pub fn deployments(&self) -> (r: &[Deployment])
        ensures
            r@ == self@.deployments,
    {
        self.deployments.as_slice()
    }

    /// The tenant that owns the resources.
    pub fn tenant_id(&self) -> (r: &str)
        ensures
            r@ == self@.tenant_id,
    {
        self.tenant_id.as_str()
    }
}

/// The states of a request to delete a resource.
pub trait DeleteResourceRequestState {}

impl DeleteResourceRequestState for Initial {}

impl DeleteResourceRequestState for WithKey {}

/// What a request to delete a resource holds.
pub struct DeleteResourceRequestView {
    pub resource_key: i64,
    pub operation_reference: Option<u64>,
}

/// A request to delete a deployed resource.
#[derive(Debug)]
pub struct DeleteResourceRequest<T> {
    resource_key: i64,
    operation_reference: Option<u64>,
    _state: std::marker::PhantomData<T>,
}

impl<T> View for DeleteResourceRequest<T> {
    type V = DeleteResourceRequestView;

    closed spec fn view(&self) -> DeleteResourceRequestView {
        DeleteResourceRequestView {
            resource_key: self.resource_key,
            operation_reference: self.operation_reference,
        }
    }
}

impl<T: DeleteResourceRequestState> DeleteResourceRequest<T> {
    /// A request with no resource key and no operation reference.
    pub fn new() -> (r: DeleteResourceRequest<Initial>)
        ensures
            r@ == (DeleteResourceRequestView { resource_key: 0, operation_reference: None }),
    {
        DeleteResourceRequest {
            resource_key: 0,
            operation_reference: None,
            _state: std::marker::PhantomData,
        }
    }

    fn transition<N: DeleteResourceRequestState>(self) -> (r: DeleteResourceRequest<N>)
        ensures
            r@ == self@,
    {
        DeleteResourceRequest {
            resource_key: self.resource_key,
            operation_reference: self.operation_reference,
            _state: std::marker::PhantomData,
        }
    }
}

impl DeleteResourceRequest<Initial> {
    /// Sets the key of the process, decision or form to delete.
    pub fn with_resource_key(self, resource_key: i64) -> (r: DeleteResourceRequest<WithKey>)
        ensures
            r@ == (DeleteResourceRequestView { resource_key, ..self@ }),
    {
        let mut r = self;
        r.resource_key = resource_key;
        r.transition()
    }
}

impl DeleteResourceRequest<WithKey> {
    /// The message that deletes the resource, of the request's fields.
    pub fn into_request(self) -> (m: protocol::DeleteResourceRequest)
        ensures
            m.resource_key == self@.resource_key,
            m.operation_reference == self@.operation_reference,
    {
        protocol::DeleteResourceRequest {
            resource_key: self.resource_key,
            operation_reference: self.operation_reference,
        }
    }

    /// Sets a reference that the records of the operation carry.
    pub fn with_operation_reference(self, operation_reference: u64) -> (r: Self)
        ensures
            r@ == (DeleteResourceRequestView {
                operation_reference: Some(operation_reference),
                ..self@
            }),
    {
        let mut r = self;
        r.operation_reference = Some(operation_reference);
        r
    }
}

/// The empty response to a deletion.
#[derive(Debug, Clone)]
pub struct DeleteResourceResponse {}

} // verus!
