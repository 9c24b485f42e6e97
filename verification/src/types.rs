//! Records shared by the analyzers: where a function is defined and where it is called.

use vstd::prelude::*;

verus! {

/// A function definition site.
pub struct FnDefinition {
    pub file: String,
    pub line: usize,
}

/// Mathematical value of a [`FnDefinition`].
pub struct FnDefinitionView {
    pub file: Seq<char>,
    pub line: usize,
}

impl View for FnDefinition {
    type V = FnDefinitionView;

    open spec fn view(&self) -> FnDefinitionView {
        FnDefinitionView { file: self.file@, line: self.line }
    }
}

impl DeepView for FnDefinition {
    type V = FnDefinitionView;

    open spec fn deep_view(&self) -> FnDefinitionView {
        self@
    }
}

impl FnDefinition {
    /// A copy with the same value.
    pub fn duplicate(&self) -> (r: FnDefinition)
        ensures
            r@ == self@,
    {
        FnDefinition { file: self.file.clone(), line: self.line }
    }
}

/// A call of a known function, found in some file.
pub struct CallInfo {
    pub caller_file: String,
    pub caller_line: usize,
    pub caller_name: Option<String>,
    pub callee_name: String,
    pub callee_defined_at: String,
}

/// Mathematical value of a [`CallInfo`].
pub struct CallInfoView {
    pub caller_file: Seq<char>,
    pub caller_line: usize,
    pub caller_name: Option<Seq<char>>,
    pub callee_name: Seq<char>,
    pub callee_defined_at: Seq<char>,
}

impl View for CallInfo {
    type V = CallInfoView;

    open spec fn view(&self) -> CallInfoView {
        CallInfoView {
            caller_file: self.caller_file@,
            caller_line: self.caller_line,
            caller_name: self.caller_name.deep_view(),
            callee_name: self.callee_name@,
            callee_defined_at: self.callee_defined_at@,
        }
    }
}

impl DeepView for CallInfo {
    type V = CallInfoView;

    open spec fn deep_view(&self) -> CallInfoView {
        self@
    }
}

/// A copy of an optional string with the same value.
pub fn copy_opt_string(s: &Option<String>) -> (r: Option<String>)
    ensures
        r.deep_view() == s.deep_view(),
{
    match s {
        Some(x) => Some(x.clone()),
        None => None,
    }
}

impl CallInfo {
    /// A copy with the same value.
    pub fn duplicate(&self) -> (r: CallInfo)
        ensures
            r@ == self@,
    {
        CallInfo {
            caller_file: self.caller_file.clone(),
            caller_line: self.caller_line,
            caller_name: copy_opt_string(&self.caller_name),
            callee_name: self.callee_name.clone(),
            callee_defined_at: self.callee_defined_at.clone(),
        }
    }
}

/// A file of the workspace as read from disk.
pub struct SourceFile {
    /// The file's path, as displayed.
    pub path: String,
    /// The path's extension, without the dot, when it has one.
    pub extension: Option<String>,
    /// The file's text.
    pub content: String,
}

/// Mathematical value of a [`SourceFile`].
pub struct SourceFileView {
    pub path: Seq<char>,
    pub extension: Option<Seq<char>>,
    pub content: Seq<char>,
}

impl View for SourceFile {
    type V = SourceFileView;

    open spec fn view(&self) -> SourceFileView {
        SourceFileView { path: self.path@, extension: self.extension.deep_view(), content: self.content@ }
    }
}

impl DeepView for SourceFile {
    type V = SourceFileView;

    open spec fn deep_view(&self) -> SourceFileView {
        self@
    }
}

} // verus!
