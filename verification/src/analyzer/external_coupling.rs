//! How much of a file's imports reach outside the project.

use vstd::prelude::*;
use crate::languages::LanguageProvider;
use crate::syntax::CaptureView;
use crate::text::{contains_str, has_substring, lemma_substring_split, splits};
use crate::analyzer::dependency::{imports_of, DependencyAnalyzer};
use crate::analyzer::source::found_captures;

verus! {

/// Splits the imports of a file into project-internal and external ones.
pub struct ExternalCouplingAnalyzer;

/// Internal and external imports of one file.
///
/// The share of external imports, as a percentage with one decimal, is derived from the
/// two counts where the report is shown.
pub struct CouplingReport {
    pub file: String,
    pub internal_imports: usize,
    pub external_imports: usize,
    /// The external imports, in order.
    pub external_libraries: Vec<String>,
}

/// An import is internal when it names a relative path (`./`, `../`) or the current crate
/// (`crate::`).
pub open spec fn is_internal_import(import: Seq<char>) -> bool {
    has_substring(import, "./"@) || has_substring(import, "../"@) || has_substring(import, "crate::"@)
}

/// The imports that are not internal, in order.
pub open spec fn external_of(imports: Seq<Seq<char>>) -> Seq<Seq<char>> {
    imports.filter(|s: Seq<char>| !is_internal_import(s))
}

/// The imports that are internal, in order.
pub open spec fn internal_of(imports: Seq<Seq<char>>) -> Seq<Seq<char>> {
    imports.filter(|s: Seq<char>| is_internal_import(s))
}

/// The report is the split of `imports` for file `path`.
pub open spec fn is_report_of(r: &CouplingReport, path: Seq<char>, imports: Seq<Seq<char>>) -> bool {
    &&& r.file@ == path
    &&& r.internal_imports == internal_of(imports).len()
    &&& r.external_imports == external_of(imports).len()
    &&& r.external_libraries.deep_view() == external_of(imports)
}

/// Law: an import is internal exactly when `./`, `../` or `crate::` occurs in it; any
/// other import (such as `import java.util.List;`) is external and listed among the
/// external libraries of its report, in order.
pub proof fn lemma_internal_imports(imports: Seq<Seq<char>>, import: Seq<char>)
    ensures
        is_internal_import(import) <==> (exists|p: Seq<char>, s: Seq<char>| #[trigger] splits(import, p, "./"@, s))
            || (exists|p: Seq<char>, s: Seq<char>| #[trigger] splits(import, p, "../"@, s))
            || (exists|p: Seq<char>, s: Seq<char>| #[trigger] splits(import, p, "crate::"@, s)),
        imports.contains(import) ==> (external_of(imports).contains(import) <==> !is_internal_import(import)),
        imports.contains(import) ==> (internal_of(imports).contains(import) <==> is_internal_import(import)),
{
    lemma_substring_split(import, "./"@);
    lemma_substring_split(import, "../"@);
    lemma_substring_split(import, "crate::"@);
    let ext = |s: Seq<char>| !is_internal_import(s);
    let inside = |s: Seq<char>| is_internal_import(s);
    if imports.contains(import) {
        let k = choose|k: int| 0 <= k < imports.len() && imports[k] == import;
        if external_of(imports).contains(import) {
            imports.lemma_filter_contains_rev(ext, import);
            let j = choose|j: int| 0 <= j < external_of(imports).len() && external_of(imports)[j] == import;
            imports.lemma_filter_pred(ext, j);
        }
        if !is_internal_import(import) {
            imports.lemma_filter_contains(ext, k);
        }
        if internal_of(imports).contains(import) {
            let j = choose|j: int| 0 <= j < internal_of(imports).len() && internal_of(imports)[j] == import;
            imports.lemma_filter_pred(inside, j);
        }
        if is_internal_import(import) {
            imports.lemma_filter_contains(inside, k);
        }
    }
}

/// Law: every import is counted exactly once, as internal or as external.
pub proof fn lemma_imports_split(imports: Seq<Seq<char>>)
    ensures
        internal_of(imports).len() + external_of(imports).len() == imports.len(),
    decreases imports.len(),
{
    if imports.len() > 0 {
        let init = imports.drop_last();
        lemma_imports_split(init);
        assert(imports =~= init.push(imports.last()));
        init.lemma_filter_push(imports.last(), |s: Seq<char>| is_internal_import(s));
        init.lemma_filter_push(imports.last(), |s: Seq<char>| !is_internal_import(s));
    } else {
        assert(internal_of(imports) =~= Seq::<Seq<char>>::empty());
        assert(external_of(imports) =~= Seq::<Seq<char>>::empty());
    }
}

impl ExternalCouplingAnalyzer {
    /// Counts internal and external imports and lists the external ones.
    pub fn report_from_imports(&self, path: &str, imports: &Vec<String>) -> (r: CouplingReport)
        ensures
            is_report_of(&r, path@, imports.deep_view()),
    {
        let ghost iv = imports.deep_view();
        let mut internal: usize = 0;
        let mut external: usize = 0;
        let mut list: Vec<String> = Vec::new();
        let mut i: usize = 0;
        proof {
            assert(iv.take(0) =~= Seq::<Seq<char>>::empty());
            assert(internal_of(iv.take(0)) =~= Seq::<Seq<char>>::empty());
            assert(external_of(iv.take(0)) =~= Seq::<Seq<char>>::empty());
        }
        while i < imports.len()
            invariant
                iv == imports.deep_view(),
                i <= iv.len(),
                internal == internal_of(iv.take(i as int)).len(),
                external == external_of(iv.take(i as int)).len(),
                list.deep_view() == external_of(iv.take(i as int)),
                internal + external == i,
            decreases iv.len() - i,
        {
            let import = imports[i].as_str();
            proof {
                assert(iv[i as int] == import@);
                assert(iv.take(i + 1) =~= iv.take(i as int).push(import@));
                iv.take(i as int).lemma_filter_push(import@, |s: Seq<char>| is_internal_import(s));
                iv.take(i as int).lemma_filter_push(import@, |s: Seq<char>| !is_internal_import(s));
            }
            if contains_str(import, "./") || contains_str(import, "../") || contains_str(import, "crate::") {
                internal = internal + 1;
            } else {
                external = external + 1;
                let ghost prev = list.deep_view();
                list.push(imports[i].clone());
                proof {
                    assert(list.deep_view() =~= prev.push(import@));
                }
            }
            i = i + 1;
        }
        proof {
            assert(iv.take(iv.len() as int) =~= iv);
        }
        CouplingReport {
            file: String::from_str(path),
            internal_imports: internal,
            external_imports: external,
            external_libraries: list,
        }
    }

    /// The coupling report of one file, from the imports its language's import query finds.
    pub fn analyze<P: LanguageProvider>(&self, path: &str, content: &str, provider: &P) -> (r: CouplingReport)
        ensures
            is_report_of(
                &r,
                path@,
                imports_of(found_captures(provider.spec_grammar(), provider.spec_import_query(), content@)),
            ),
    {
        let dep_analyzer = DependencyAnalyzer;
        let imports = dep_analyzer.analyze(path, content, provider);
        self.report_from_imports(path, &imports)
    }
}

} // verus!
