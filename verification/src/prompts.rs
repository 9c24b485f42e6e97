//! Prompt texts that guide an assistant through architectural reviews.

use vstd::prelude::*;

verus! {

/// Arguments of the review prompt.
#[derive(Debug, Default)]
pub struct ReviewArgs {
    /// The function to review for architectural integrity.
    pub function_name: String,
}

/// The review prompt, before the function name.
pub open spec fn review_prefix() -> Seq<char> {
    "You are a Senior Software Architect. Review the implementation and dependencies of the function '"@
}

/// The review prompt, after the function name.
pub open spec fn review_suffix() -> Seq<char> {
    "' to identify structural flaws such as Tight Coupling or Violation of Single Responsibility.\n\nPlease utilize the following tools for your analysis:\n1. `analyze_call_graph`: Understand the overall function call structure\n2. `analyze_impact`: Identify other functions affected by modifying this function\n3. `lint_architecture`: Check for structural violations like circular references\n4. `architect://metrics/debt`: Check complexity and technical debt\n5. `architect://visual/mermaid`: Visualize the call relationship\n\nBased on this information, provide specific improvement suggestions."@
}

/// The prompt asking for an architectural review of `function_name`.
pub fn architect_review_text(function_name: &str) -> (r: String)
    ensures
        r@ == review_prefix() + function_name@ + review_suffix(),
{
    let mut text = String::from_str("You are a Senior Software Architect. Review the implementation and dependencies of the function '");
    text.append(function_name);
    text.append("' to identify structural flaws such as Tight Coupling or Violation of Single Responsibility.\n\nPlease utilize the following tools for your analysis:\n1. `analyze_call_graph`: Understand the overall function call structure\n2. `analyze_impact`: Identify other functions affected by modifying this function\n3. `lint_architecture`: Check for structural violations like circular references\n4. `architect://metrics/debt`: Check complexity and technical debt\n5. `architect://visual/mermaid`: Visualize the call relationship\n\nBased on this information, provide specific improvement suggestions.");
    text
}

/// The prompt asking for refactoring of complex or dead code.
pub fn refactor_suggestion_text() -> (r: String)
    ensures
        r@ == "You are an expert Refactoring Consultant. Please analyze the following resources to identify 'Hell Functions' and 'Dead Code':\n\n1. `architect://metrics/debt`: To find functions with high cyclomatic complexity\n2. `architect://analysis/dead-code`: To find unused symbols that can be safely removed\n3. `architect://analysis/structure`: To understand the project's overall context\n\nBased on these reports, provide a prioritized list of refactoring tasks, explaining the benefits of each."@,
{
    String::from_str("You are an expert Refactoring Consultant. Please analyze the following resources to identify 'Hell Functions' and 'Dead Code':\n\n1. `architect://metrics/debt`: To find functions with high cyclomatic complexity\n2. `architect://analysis/dead-code`: To find unused symbols that can be safely removed\n3. `architect://analysis/structure`: To understand the project's overall context\n\nBased on these reports, provide a prioritized list of refactoring tasks, explaining the benefits of each.")
}

/// The prompt asking for a security audit.
pub fn security_audit_text() -> (r: String)
    ensures
        r@ == "You are a Security Auditor. Perform a deep security review of the project by examining these specific resources:\n\n1. `architect://analysis/security`: Review the detected security hotspots\n2. `architect://analysis/api`: Examine API endpoints for potential input validation or authorization issues\n3. `architect://analysis/dead-code`: Check if 'dead' code contains sensitive logic or backdoors\n\nCategorize your findings by severity (Critical, High, Medium, Low) and provide remediation steps for each."@,
{
    String::from_str("You are a Security Auditor. Perform a deep security review of the project by examining these specific resources:\n\n1. `architect://analysis/security`: Review the detected security hotspots\n2. `architect://analysis/api`: Examine API endpoints for potential input validation or authorization issues\n3. `architect://analysis/dead-code`: Check if 'dead' code contains sensitive logic or backdoors\n\nCategorize your findings by severity (Critical, High, Medium, Low) and provide remediation steps for each.")
}

} // verus!
