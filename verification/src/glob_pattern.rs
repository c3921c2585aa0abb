use vstd::prelude::*;

use crate::error::PlanError;

verus! {

/// Whether `glob::Pattern::new` accepts the pattern text.
pub uninterp spec fn is_valid_glob(pattern: Seq<char>) -> bool;

/// The verdict of `glob::Pattern::matches` for a compiled `pattern` on `name`.
pub uninterp spec fn glob_match(pattern: Seq<char>, name: Seq<char>) -> bool;

/// Relies on glob::Pattern::new: it accepts or rejects a pattern text by
/// its syntax alone.
#[verifier::external_body]
fn glob_compiles(pattern: &str) -> (r: bool)
    ensures
        r == is_valid_glob(pattern@),
{
    glob::Pattern::new(pattern).is_ok()
}

/// Relies on glob::Pattern::new and glob::Pattern::matches: the verdict is a
/// function of the pattern text and the name alone, and a pattern that does
/// not compile matches nothing.
#[verifier::external_body]
fn glob_matches(pattern: &str, name: &str) -> (r: bool)
    ensures
        r == (is_valid_glob(pattern@) && glob_match(pattern@, name@)),
{
    match glob::Pattern::new(pattern) {
        Ok(p) => p.matches(name),
        Err(_) => false,
    }
}

/// A validated shell-glob matcher. It holds the original pattern text, which
/// the constructor accepts only when the glob syntax is valid, so every value
/// of this type carries a usable pattern.
pub struct GlobPattern {
    text: String,
}

impl View for GlobPattern {
    type V = Seq<char>;

    closed spec fn view(&self) -> Seq<char> {
        self.text@
    }
}

impl DeepView for GlobPattern {
    type V = Seq<char>;

    open spec fn deep_view(&self) -> Seq<char> {
        self.view()
    }
}

impl GlobPattern {
    #[verifier::type_invariant]
    closed spec fn wf(self) -> bool {
        is_valid_glob(self.text@)
    }

    /// What `matches` returns for `name`.
    pub open spec fn spec_matches(&self, name: Seq<char>) -> bool {
        glob_match(self@, name)
    }

    pub fn new(text: String) -> (r: Result<GlobPattern, PlanError>)
        ensures
            r matches Ok(g) ==> g@ == text@ && is_valid_glob(text@),
            r matches Err(e) ==> e matches PlanError::InvalidGlob { pattern } && pattern@ == text@,
            r is Err <==> !is_valid_glob(text@),
    {
        if glob_compiles(text.as_str()) {
            Ok(GlobPattern { text })
        } else {
            Err(PlanError::InvalidGlob { pattern: text })
        }
    }

    pub fn matches(&self, name: &str) -> (r: bool)
        ensures
            r == self.spec_matches(name@),
    {
        proof {
            use_type_invariant(self);
        }
        glob_matches(self.text.as_str(), name)
    }

    pub fn as_str(&self) -> (r: &str)
        ensures
            r@ == self@,
    {
        self.text.as_str()
    }
}

} // verus!
