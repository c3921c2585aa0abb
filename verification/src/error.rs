use vstd::prelude::*;

verus! {

/// A load-time fault in a declared plan: every variant is detected while the
/// plan is built, before any repository is touched.
#[derive(Debug)]
pub enum PlanError {
    /// A repository or file filter is not valid glob syntax.
    InvalidGlob { pattern: String },
    /// A find-and-replace operation's `from` is not a valid regular expression.
    InvalidRegex { pattern: String },
    /// The plan names no repository allow filter; an explicit opt-in is required.
    NoAllowFilters,
}

impl PlanError {
    /// A short description of the fault, for operator-facing reports.
    pub fn message(&self) -> (r: String)
        ensures
            self matches PlanError::InvalidGlob { pattern } ==> r@ == "failed to parse glob "@
                + pattern@,
            self matches PlanError::InvalidRegex { pattern } ==> r@ == "failed to parse regex "@
                + pattern@,
            self matches PlanError::NoAllowFilters ==> r@
                == "plan names no repository allow filter"@,
    {
        match self {
            PlanError::InvalidGlob { pattern } => crate::strutil::concat2(
                "failed to parse glob ",
                pattern.as_str(),
            ),
            PlanError::InvalidRegex { pattern } => crate::strutil::concat2(
                "failed to parse regex ",
                pattern.as_str(),
            ),
            PlanError::NoAllowFilters => String::from_str("plan names no repository allow filter"),
        }
    }
}

} // verus!
