//! Architectural static analysis over syntax trees: language registry,
//! symbol indexing, call graphs, impact analysis and code metrics.

pub mod text;
pub mod types;
pub mod impact;
pub mod index;
pub mod diagram;
pub mod state;
pub mod syntax;
pub mod languages;
pub mod analyzer;
pub mod prompts;
pub mod resources;
pub mod server;
pub mod tools;
