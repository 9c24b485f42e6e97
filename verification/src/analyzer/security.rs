//! Potentially dangerous calls found by each language's security query.

use vstd::prelude::*;
use crate::languages::LanguageProvider;
use crate::syntax::{capture_rows_fit, check_capture_rows, Capture, CaptureView};
use crate::analyzer::source::{found_captures, source_captures};

verus! {

/// Finds security hotspots.
pub struct SecurityAnalyzer;

/// A potentially dangerous symbol or pattern.
pub struct SecurityHotspot {
    /// Always `Security Hotspot`.
    pub issue: String,
    /// The captured source text.
    pub symbol: String,
    pub file: String,
    /// One-based line of the capture.
    pub line: usize,
    /// `Potentially dangerous symbol/pattern found: ` followed by the symbol.
    pub description: String,
}

/// Mathematical value of a [`SecurityHotspot`].
pub struct SecurityHotspotView {
    pub issue: Seq<char>,
    pub symbol: Seq<char>,
    pub file: Seq<char>,
    pub line: usize,
    pub description: Seq<char>,
}

impl View for SecurityHotspot {
    type V = SecurityHotspotView;

    open spec fn view(&self) -> SecurityHotspotView {
        SecurityHotspotView {
            issue: self.issue@,
            symbol: self.symbol@,
            file: self.file@,
            line: self.line,
            description: self.description@,
        }
    }
}

impl DeepView for SecurityHotspot {
    type V = SecurityHotspotView;

    open spec fn deep_view(&self) -> SecurityHotspotView {
        self@
    }
}

/// The hotspot record of one capture in file `path`.
pub open spec fn hotspot_of(path: Seq<char>, c: CaptureView) -> SecurityHotspotView {
    SecurityHotspotView {
        issue: "Security Hotspot"@,
        symbol: c.text,
        file: path,
        line: (c.row + 1) as usize,
        description: "Potentially dangerous symbol/pattern found: "@ + c.text,
    }
}

/// One hotspot record per capture, in order.
pub open spec fn hotspots_of(path: Seq<char>, caps: Seq<CaptureView>) -> Seq<SecurityHotspotView> {
    caps.map_values(|c: CaptureView| hotspot_of(path, c))
}

impl SecurityAnalyzer {
    /// One hotspot record per capture of the security query, in order.
    pub fn hotspots_from_captures(&self, path: &str, captures: &Vec<Capture>) -> (r: Vec<SecurityHotspot>)
        requires
            capture_rows_fit(captures.deep_view()),
        ensures
            r.deep_view() == hotspots_of(path@, captures.deep_view()),
    {
        let mut results: Vec<SecurityHotspot> = Vec::new();
        let mut i: usize = 0;
        while i < captures.len()
            invariant
                i <= captures.len(),
                capture_rows_fit(captures.deep_view()),
                results.deep_view() == hotspots_of(path@, captures.deep_view()).take(i as int),
            decreases captures.len() - i,
        {
            let c = &captures[i];
            proof {
                assert(captures.deep_view()[i as int] == c@);
                assert(captures.deep_view()[i as int].row < usize::MAX);
            }
            let mut description = String::from_str("Potentially dangerous symbol/pattern found: ");
            description.append(c.text.as_str());
            let record = SecurityHotspot {
                issue: String::from_str("Security Hotspot"),
                symbol: c.text.clone(),
                file: String::from_str(path),
                line: c.row + 1,
                description,
            };
            let ghost prev = results.deep_view();
            results.push(record);
            proof {
                assert(results.deep_view() =~= prev.push(hotspot_of(path@, c@)));
                assert(results.deep_view() =~= hotspots_of(path@, captures.deep_view()).take(i + 1));
            }
            i = i + 1;
        }
        proof {
            assert(hotspots_of(path@, captures.deep_view()).take(i as int) =~= hotspots_of(
                path@,
                captures.deep_view(),
            ));
        }
        results
    }

    /// The security hotspots of one file, found by the language's security query.
    pub fn analyze<P: LanguageProvider>(&self, path: &str, content: &str, provider: &P) -> (r: Vec<SecurityHotspot>)
        ensures
            ({
                let caps = found_captures(provider.spec_grammar(), provider.spec_security_query(), content@);
                r.deep_view() == if capture_rows_fit(caps) {
                    hotspots_of(path@, caps)
                } else {
                    Seq::empty()
                }
            }),
    {
        let caps = source_captures(provider, content, provider.security_query());
        if check_capture_rows(&caps) {
            self.hotspots_from_captures(path, &caps)
        } else {
            let r: Vec<SecurityHotspot> = Vec::new();
            proof {
                assert(hotspots_of(path@, Seq::<CaptureView>::empty()) =~= r.deep_view());
            }
            r
        }
    }
}

} // verus!
