//! API route declarations found by each language's API query.

use vstd::prelude::*;
use crate::languages::LanguageProvider;
use crate::syntax::{capture_rows_fit, check_capture_rows, Capture, CaptureView};
use crate::analyzer::source::{found_captures, source_captures};

verus! {

/// Finds API route declarations.
pub struct ApiAnalyzer;

/// A route declaration.
pub struct ApiEndpoint {
    /// Always `API Endpoint`.
    pub endpoint_type: String,
    /// The captured source text.
    pub route_info: String,
    pub file: String,
    /// One-based line of the capture.
    pub line: usize,
}

/// Mathematical value of an [`ApiEndpoint`].
pub struct ApiEndpointView {
    pub endpoint_type: Seq<char>,
    pub route_info: Seq<char>,
    pub file: Seq<char>,
    pub line: usize,
}

impl View for ApiEndpoint {
    type V = ApiEndpointView;

    open spec fn view(&self) -> ApiEndpointView {
        ApiEndpointView {
            endpoint_type: self.endpoint_type@,
            route_info: self.route_info@,
            file: self.file@,
            line: self.line,
        }
    }
}

impl DeepView for ApiEndpoint {
    type V = ApiEndpointView;

    open spec fn deep_view(&self) -> ApiEndpointView {
        self@
    }
}

/// The endpoint record of one capture in file `path`.
pub open spec fn endpoint_of(path: Seq<char>, c: CaptureView) -> ApiEndpointView {
    ApiEndpointView { endpoint_type: "API Endpoint"@, route_info: c.text, file: path, line: (c.row + 1) as usize }
}

/// One endpoint record per capture, in order.
pub open spec fn endpoints_of(path: Seq<char>, caps: Seq<CaptureView>) -> Seq<ApiEndpointView> {
    caps.map_values(|c: CaptureView| endpoint_of(path, c))
}

impl ApiAnalyzer {
    /// One endpoint record per capture of the API query, in order.
    pub fn endpoints_from_captures(&self, path: &str, captures: &Vec<Capture>) -> (r: Vec<ApiEndpoint>)
        requires
            capture_rows_fit(captures.deep_view()),
        ensures
            r.deep_view() == endpoints_of(path@, captures.deep_view()),
    {
        let mut results: Vec<ApiEndpoint> = Vec::new();
        let mut i: usize = 0;
        while i < captures.len()
            invariant
                i <= captures.len(),
                capture_rows_fit(captures.deep_view()),
                results.deep_view() == endpoints_of(path@, captures.deep_view()).take(i as int),
            decreases captures.len() - i,
        {
            let c = &captures[i];
            proof {
                assert(captures.deep_view()[i as int] == c@);
                assert(captures.deep_view()[i as int].row < usize::MAX);
            }
            let record = ApiEndpoint {
                endpoint_type: String::from_str("API Endpoint"),
                route_info: c.text.clone(),
                file: String::from_str(path),
                line: c.row + 1,
            };
            let ghost prev = results.deep_view();
            results.push(record);
            proof {
                assert(results.deep_view() =~= prev.push(endpoint_of(path@, c@)));
                assert(results.deep_view() =~= endpoints_of(path@, captures.deep_view()).take(i + 1));
            }
            i = i + 1;
        }
        proof {
            assert(endpoints_of(path@, captures.deep_view()).take(i as int) =~= endpoints_of(
                path@,
                captures.deep_view(),
            ));
        }
        results
    }

    /// The API route declarations of one file, found by the language's API query.
    pub fn analyze<P: LanguageProvider>(&self, path: &str, content: &str, provider: &P) -> (r: Vec<ApiEndpoint>)
        ensures
            ({
                let caps = found_captures(provider.spec_grammar(), provider.spec_api_query(), content@);
                r.deep_view() == if capture_rows_fit(caps) {
                    endpoints_of(path@, caps)
                } else {
                    Seq::empty()
                }
            }),
    {
        let caps = source_captures(provider, content, provider.api_query());
        if check_capture_rows(&caps) {
            self.endpoints_from_captures(path, &caps)
        } else {
            let r: Vec<ApiEndpoint> = Vec::new();
            proof {
                assert(endpoints_of(path@, Seq::<CaptureView>::empty()) =~= r.deep_view());
            }
            r
        }
    }
}

} // verus!
