//! The readable resources: a call-graph summary, a Mermaid map and the technical-debt report.

use vstd::prelude::*;
use crate::analyzer::metrics::{FunctionMetrics, FunctionMetricsView};
use crate::diagram::mermaid_of;
use crate::index::first_appearances;
use crate::state::{workspace_definitions, workspace_metrics, SharedState};
use crate::text::str_eq;
use crate::types::{FnDefinitionView, SourceFile};

verus! {

/// Serves the resources from the shared state.
pub struct ArchitectResources {
    pub state: SharedState,
}

/// A resource as listed to clients.
pub struct ResourceDescriptor {
    pub uri: String,
    pub name: String,
    pub description: String,
    pub mime_type: String,
}

/// Mathematical value of a [`ResourceDescriptor`].
pub struct ResourceDescriptorView {
    pub uri: Seq<char>,
    pub name: Seq<char>,
    pub description: Seq<char>,
    pub mime_type: Seq<char>,
}

impl View for ResourceDescriptor {
    type V = ResourceDescriptorView;

    open spec fn view(&self) -> ResourceDescriptorView {
        ResourceDescriptorView {
            uri: self.uri@,
            name: self.name@,
            description: self.description@,
            mime_type: self.mime_type@,
        }
    }
}

impl DeepView for ResourceDescriptor {
    type V = ResourceDescriptorView;

    open spec fn deep_view(&self) -> ResourceDescriptorView {
        self@
    }
}

/// The three resources.
#[derive(Clone, Copy, Debug, PartialEq, Eq, Structural)]
pub enum ResourceKind {
    /// `architect://call-graph/summary`
    CallGraphSummary,
    /// `architect://visual/mermaid`
    MermaidMap,
    /// `architect://metrics/debt`
    TechnicalDebt,
}

/// Why a resource cannot be read.
#[derive(Clone, Copy, Debug, PartialEq, Eq, Structural)]
pub enum ResourceError {
    /// No resource has the requested URI.
    UnknownUri,
}

/// The URI of each resource.
pub open spec fn uri_of(kind: ResourceKind) -> Seq<char> {
    match kind {
        ResourceKind::CallGraphSummary => "architect://call-graph/summary"@,
        ResourceKind::MermaidMap => "architect://visual/mermaid"@,
        ResourceKind::TechnicalDebt => "architect://metrics/debt"@,
    }
}

/// The MIME type of each resource.
pub open spec fn mime_type_of(kind: ResourceKind) -> Seq<char> {
    match kind {
        ResourceKind::CallGraphSummary => "application/json"@,
        ResourceKind::MermaidMap => "text/plain"@,
        ResourceKind::TechnicalDebt => "application/json"@,
    }
}

/// The resource with URI `uri`: the first of summary, map and debt report that has it.
pub open spec fn resource_at(uri: Seq<char>) -> Option<ResourceKind> {
    if uri == uri_of(ResourceKind::CallGraphSummary) {
        Some(ResourceKind::CallGraphSummary)
    } else if uri == uri_of(ResourceKind::MermaidMap) {
        Some(ResourceKind::MermaidMap)
    } else if uri == uri_of(ResourceKind::TechnicalDebt) {
        Some(ResourceKind::TechnicalDebt)
    } else {
        None
    }
}

/// The listing of the three resources, in order.
pub open spec fn catalog() -> Seq<ResourceDescriptorView> {
    seq![
        ResourceDescriptorView {
            uri: uri_of(ResourceKind::CallGraphSummary),
            name: "Call Graph Summary"@,
            description: "Provides a summary of the most recently analyzed call graph"@,
            mime_type: mime_type_of(ResourceKind::CallGraphSummary),
        },
        ResourceDescriptorView {
            uri: uri_of(ResourceKind::MermaidMap),
            name: "Architecture Visual Map (Mermaid)"@,
            description: "Generates a Mermaid.js diagram of the call graph"@,
            mime_type: mime_type_of(ResourceKind::MermaidMap),
        },
        ResourceDescriptorView {
            uri: uri_of(ResourceKind::TechnicalDebt),
            name: "Technical Debt & Metrics"@,
            description: "Calculates cyclomatic complexity and identifies 'Hell Functions'"@,
            mime_type: mime_type_of(ResourceKind::TechnicalDebt),
        },
    ]
}

/// What a resource holds.
pub enum ResourceBody {
    /// The definitions of the last analyzed workspace.
    CallGraphSummary { workspace: String, total_definitions: usize, definitions: Vec<String> },
    /// The Mermaid map of the cached calls.
    MermaidDiagram(String),
    /// The measurements of the functions of the last analyzed workspace.
    Metrics(Vec<FunctionMetrics>),
    /// No workspace has been analyzed yet.
    NotAnalyzed,
}

/// A resource as read.
pub struct ResourceContent {
    pub uri: String,
    pub mime_type: String,
    pub body: ResourceBody,
}

/// The error text of a resource read before any analysis.
pub fn not_analyzed_message() -> (r: &'static str)
    ensures
        r@ == "No workspace analyzed. Call 'analyze_call_graph' first."@,
{
    "No workspace analyzed. Call 'analyze_call_graph' first."
}

/// `body` is the call-graph summary of `files` under root `root`: the root, the number
/// of distinct function names that indexing finds, and those names in order of first
/// appearance.
pub open spec fn is_summary_of(body: &ResourceBody, root: Seq<char>, files: Seq<SourceFile>) -> bool {
    match body {
        ResourceBody::CallGraphSummary { workspace, total_definitions, definitions } => {
            &&& workspace@ == root
            &&& total_definitions == definitions.len()
            &&& definitions.deep_view() == first_appearances(workspace_definitions(files))
        },
        _ => false,
    }
}

/// `body` is the debt report of `files`: the measurements of their functions.
pub open spec fn is_debt_report_of(body: &ResourceBody, files: Seq<SourceFile>) -> bool {
    match body {
        ResourceBody::Metrics(m) => m.deep_view() == workspace_metrics(files),
        _ => false,
    }
}

/// Every listed resource can be read: its URI names a resource of the listed MIME type.
pub proof fn lemma_listed_resources_are_readable(i: int)
    requires
        0 <= i < catalog().len(),
    ensures
        resource_at(catalog()[i].uri) is Some,
        mime_type_of(resource_at(catalog()[i].uri)->0) == catalog()[i].mime_type,
{
    reveal_strlit("architect://call-graph/summary");
    reveal_strlit("architect://visual/mermaid");
    reveal_strlit("architect://metrics/debt");
    assert(uri_of(ResourceKind::CallGraphSummary).len() == 30);
    assert(uri_of(ResourceKind::MermaidMap).len() == 26);
    assert(uri_of(ResourceKind::TechnicalDebt).len() == 24);
}

impl ArchitectResources {
    /// Resources served from `state`.
    pub fn new(state: SharedState) -> (r: ArchitectResources)
        ensures
            r.state == state,
    {
        ArchitectResources { state }
    }

    /// The listing of the three resources.
    pub fn list_resources(&self) -> (r: Vec<ResourceDescriptor>)
        ensures
            r.deep_view() == catalog(),
    {
        let mut r: Vec<ResourceDescriptor> = Vec::new();
        r.push(ResourceDescriptor {
            uri: String::from_str("architect://call-graph/summary"),
            name: String::from_str("Call Graph Summary"),
            description: String::from_str("Provides a summary of the most recently analyzed call graph"),
            mime_type: String::from_str("application/json"),
        });
        r.push(ResourceDescriptor {
            uri: String::from_str("architect://visual/mermaid"),
            name: String::from_str("Architecture Visual Map (Mermaid)"),
            description: String::from_str("Generates a Mermaid.js diagram of the call graph"),
            mime_type: String::from_str("text/plain"),
        });
        r.push(ResourceDescriptor {
            uri: String::from_str("architect://metrics/debt"),
            name: String::from_str("Technical Debt & Metrics"),
            description: String::from_str("Calculates cyclomatic complexity and identifies 'Hell Functions'"),
            mime_type: String::from_str("application/json"),
        });
        assert(r.deep_view() =~= catalog());
        r
    }

    /// The resource with URI `uri`, if any.
    pub fn resource_kind(uri: &str) -> (r: Result<ResourceKind, ResourceError>)
        ensures
            r matches Ok(k) ==> resource_at(uri@) == Some(k),
            r is Err ==> resource_at(uri@) is None && r == Err::<ResourceKind, ResourceError>(ResourceError::UnknownUri),
    {
        if str_eq(uri, "architect://call-graph/summary") {
            Ok(ResourceKind::CallGraphSummary)
        } else if str_eq(uri, "architect://visual/mermaid") {
            Ok(ResourceKind::MermaidMap)
        } else if str_eq(uri, "architect://metrics/debt") {
            Ok(ResourceKind::TechnicalDebt)
        } else {
            Err(ResourceError::UnknownUri)
        }
    }

    /// Reads the resource with URI `uri`; `files` are the files of the last analyzed root.
    pub fn read_resource(&self, uri: &str, files: &Vec<SourceFile>) -> (r: Result<ResourceContent, ResourceError>)
        ensures
            resource_at(uri@) is None <==> r is Err,
            r is Err ==> r == Err::<ResourceContent, ResourceError>(ResourceError::UnknownUri),
            r matches Ok(c) ==> c.uri@ == uri@ && c.mime_type@ == mime_type_of(resource_at(uri@)->0),
            r matches Ok(c) ==> match resource_at(uri@)->0 {
                ResourceKind::CallGraphSummary => match self.state.last_root {
                    Some(root) => is_summary_of(&c.body, root@, files@),
                    None => c.body is NotAnalyzed,
                },
                ResourceKind::MermaidMap => c.body matches ResourceBody::MermaidDiagram(d) && d@
                    == mermaid_of(self.state.cached_calls.deep_view()),
                ResourceKind::TechnicalDebt => match self.state.last_root {
                    Some(_) => is_debt_report_of(&c.body, files@),
                    None => c.body is NotAnalyzed,
                },
            },
    {
        let kind = match ArchitectResources::resource_kind(uri) {
            Ok(k) => k,
            Err(e) => {
                return Err(e);
            },
        };
        let (mime, body) = match kind {
            ResourceKind::CallGraphSummary => {
                let body = match &self.state.last_root {
                    Some(root) => {
                        let index = self.state.index_definitions(files);
                        let definitions = index.keys();
                        ResourceBody::CallGraphSummary {
                            workspace: root.clone(),
                            total_definitions: index.len(),
                            definitions,
                        }
                    },
                    None => ResourceBody::NotAnalyzed,
                };
                ("application/json", body)
            },
            ResourceKind::MermaidMap => ("text/plain", ResourceBody::MermaidDiagram(self.state.get_mermaid_diagram())),
            ResourceKind::TechnicalDebt => {
                let body = match &self.state.last_root {
                    Some(_) => ResourceBody::Metrics(self.state.get_metrics(files)),
                    None => ResourceBody::NotAnalyzed,
                };
                ("application/json", body)
            },
        };
        Ok(ResourceContent { uri: String::from_str(uri), mime_type: String::from_str(mime), body })
    }
}

} // verus!
