//! Response classifier: a pure map from an HTTP status code to a severity
//! category and a relevance flag.

use vstd::prelude::*;

verus! {

/// Severity category of a probed response.
#[derive(Clone, Copy, Debug, PartialEq, Eq, Structural)]
pub enum Category {
    /// A 2xx status code.
    Success,
    /// A 3xx status code.
    Redirect,
    /// 401 or 403: the path exists but access is denied.
    ForbiddenOrAuth,
    /// Any other status code.
    Other,
}

/// What the classifier says of one status code: its category, and whether the
/// result is worth surfacing regardless of verbosity.
#[derive(Clone, Copy, Debug, PartialEq, Eq, Structural)]
pub struct Classification {
    pub category: Category,
    pub is_relevant: bool,
}

/// The classification of a status code:
/// 2xx is a relevant success; 3xx is a redirect, relevant only for the
/// permanent and temporary redirect codes 301, 302, 307 and 308; 401 and 403
/// are relevant access denials; everything else is irrelevant.
pub open spec fn spec_classify(code: u16) -> Classification {
    if 200 <= code <= 299 {
        Classification { category: Category::Success, is_relevant: true }
    } else if 300 <= code <= 399 {
        Classification {
            category: Category::Redirect,
            is_relevant: code == 301 || code == 302 || code == 307 || code == 308,
        }
    } else if code == 401 || code == 403 {
        Classification { category: Category::ForbiddenOrAuth, is_relevant: true }
    } else {
        Classification { category: Category::Other, is_relevant: false }
    }
}

/// Classify one HTTP status code.
pub fn classify(code: u16) -> (r: Classification)
    ensures
        r == spec_classify(code),
{
    if 200 <= code && code <= 299 {
        Classification { category: Category::Success, is_relevant: true }
    } else if 300 <= code && code <= 399 {
        Classification {
            category: Category::Redirect,
            is_relevant: code == 301 || code == 302 || code == 307 || code == 308,
        }
    } else if code == 401 || code == 403 {
        Classification { category: Category::ForbiddenOrAuth, is_relevant: true }
    } else {
        Classification { category: Category::Other, is_relevant: false }
    }
}

/// The classifier is a pure function of the status code: any two
/// classifications of the same code are the same value.
pub proof fn lemma_classify_idempotent(code: u16, first: Classification, second: Classification)
    requires
        first == spec_classify(code),
        second == spec_classify(code),
    ensures
        first == second,
{
}

} // verus!
