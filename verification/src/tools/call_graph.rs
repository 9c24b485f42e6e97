//! The standalone call-graph tool.

use vstd::prelude::*;

verus! {

/// Arguments of the standalone call-graph tool.
#[derive(Debug, Default)]
pub struct CallGraphArgs {
    /// Root directory of the project to analyze.
    pub path: String,
}

/// The answer of the standalone call-graph tool.
pub fn call_graph_greeting() -> (r: String)
    ensures
        r@ == "Hello from CallGraphTool"@,
{
    String::from_str("Hello from CallGraphTool")
}

} // verus!
