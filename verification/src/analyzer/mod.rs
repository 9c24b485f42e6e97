//! Per-file analyzers: each parses one source file with its language's grammar and
//! turns what tree-sitter finds into plain records.

pub mod api;
pub mod call_graph;
pub mod dependency;
pub mod external_coupling;
pub mod metrics;
pub mod security;
pub(crate) mod source;

pub use api::ApiAnalyzer;
pub use call_graph::SymbolAnalyzer;
pub use dependency::DependencyAnalyzer;
pub use external_coupling::ExternalCouplingAnalyzer;
pub use metrics::MetricsAnalyzer;
pub use security::SecurityAnalyzer;
