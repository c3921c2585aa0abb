use vstd::prelude::*;

use crate::error::PlanError;
use crate::glob_pattern::{glob_match, GlobPattern};
use crate::provider::{GithubProvider, GithubProviderView, TestProvider};

verus! {

/// Whether `regex::Regex::new` accepts the pattern text.
pub uninterp spec fn is_valid_regex(pattern: Seq<char>) -> bool;

/// The text that `regex::Regex::replace_all` returns: every non-overlapping
/// match of `from` in `text` replaced by the expansion of the template `to`.
pub uninterp spec fn replace_all_of(from: Seq<char>, text: Seq<char>, to: Seq<char>) -> Seq<char>;

/// Relies on regex::Regex::new: it accepts or rejects a pattern text by its
/// syntax alone.
#[verifier::external_body]
fn regex_compiles(pattern: &str) -> (r: bool)
    ensures
        r == is_valid_regex(pattern@),
{
    regex::Regex::new(pattern).is_ok()
}

/// Relies on regex::Regex::new and regex::Regex::replace_all: the replaced
/// text is a function of the pattern, the haystack and the replacement
/// template alone.
#[verifier::external_body]
fn regex_replace_all(from: &str, text: &str, to: &str) -> (r: Option<String>)
    ensures
        r is Some <==> is_valid_regex(from@),
        r matches Some(s) ==> s@ == replace_all_of(from@, text@, to@),
{
    match regex::Regex::new(from) {
        Ok(re) => Some(re.replace_all(text, to).into_owned()),
        Err(_) => None,
    }
}

/// The mathematical content of one find-and-replace operation.
pub struct RegexOperationView {
    pub from: Seq<char>,
    pub to: Seq<char>,
}

/// One ordered find-and-replace pair. The constructor accepts only a `from`
/// that compiles, so every value carries a usable pattern.
pub struct RegexOperation {
    from: String,
    to: String,
}

impl View for RegexOperation {
    type V = RegexOperationView;

    closed spec fn view(&self) -> RegexOperationView {
        RegexOperationView { from: self.from@, to: self.to@ }
    }
}

impl DeepView for RegexOperation {
    type V = RegexOperationView;

    open spec fn deep_view(&self) -> RegexOperationView {
        self.view()
    }
}

impl RegexOperation {
    #[verifier::type_invariant]
    closed spec fn wf(self) -> bool {
        is_valid_regex(self.from@)
    }

    pub fn new(from: String, to: String) -> (r: Result<RegexOperation, PlanError>)
        ensures
            r matches Ok(op) ==> op@.from == from@ && op@.to == to@ && is_valid_regex(from@),
            r matches Err(e) ==> e matches PlanError::InvalidRegex { pattern } && pattern@
                == from@,
            r is Err <==> !is_valid_regex(from@),
    {
        if regex_compiles(from.as_str()) {
            Ok(RegexOperation { from, to })
        } else {
            Err(PlanError::InvalidRegex { pattern: from })
        }
    }
}

/// `text` after the operations have been applied in order, each full-text
/// replace-all pass seeing the previous pass's output.
pub open spec fn apply_operations(ops: Seq<RegexOperationView>, text: Seq<char>) -> Seq<char>
    decreases ops.len(),
{
    if ops.len() == 0 {
        text
    } else {
        apply_operations(ops.drop_first(), replace_all_of(ops[0].from, text, ops[0].to))
    }
}

/// Whether any single pass produced a different text than its own input.
pub open spec fn operations_changed(ops: Seq<RegexOperationView>, text: Seq<char>) -> bool
    decreases ops.len(),
{
    if ops.len() == 0 {
        false
    } else {
        let next = replace_all_of(ops[0].from, text, ops[0].to);
        next != text || operations_changed(ops.drop_first(), next)
    }
}

/// An ordered list of find-and-replace operations run over one text buffer.
pub struct RegexProcessor {
    pub operations: Vec<RegexOperation>,
}

/// The mathematical content of one text transformation.
pub enum ProcessorView {
    Regex(Seq<RegexOperationView>),
}

/// One text transformation applied to in-memory file contents.
pub enum Processor {
    Regex(RegexProcessor),
}

impl View for Processor {
    type V = ProcessorView;

    open spec fn view(&self) -> ProcessorView {
        match self {
            Processor::Regex(p) => ProcessorView::Regex(p.operations.deep_view()),
        }
    }
}

impl DeepView for Processor {
    type V = ProcessorView;

    open spec fn deep_view(&self) -> ProcessorView {
        self.view()
    }
}

/// `text` after one processor has run.
pub open spec fn processor_apply(p: ProcessorView, text: Seq<char>) -> Seq<char> {
    match p {
        ProcessorView::Regex(ops) => apply_operations(ops, text),
    }
}

/// Whether one processor changed the buffer.
pub open spec fn processor_changed(p: ProcessorView, text: Seq<char>) -> bool {
    match p {
        ProcessorView::Regex(ops) => operations_changed(ops, text),
    }
}

impl Processor {
    /// Runs the transformation over `text` and reports whether any pass
    /// changed the buffer.
    pub fn process(&self, text: &str) -> (r: (String, bool))
        ensures
            r.0@ == processor_apply(self@, text@),
            r.1 == processor_changed(self@, text@),
    {
        match self {
            Processor::Regex(p) => {
                let ghost all = p.operations.deep_view();
                let mut acc = String::from_str(text);
                let mut changed = false;
                let mut i: usize = 0;
                proof {
                    assert(all.skip(0) =~= all);
                }
                while i < p.operations.len()
                    invariant
                        i <= p.operations.len(),
                        all == p.operations.deep_view(),
                        apply_operations(all.skip(i as int), acc@) == apply_operations(all, text@),
                        (changed || operations_changed(all.skip(i as int), acc@))
                            == operations_changed(all, text@),
                    decreases p.operations.len() - i,
                {
                    let op = &p.operations[i];
                    proof {
                        use_type_invariant(op);
                        assert(all[i as int] == op@);
                        assert(all.skip(i as int).drop_first() =~= all.skip(i as int + 1));
                    }
                    let next = regex_replace_all(
                        op.from.as_str(),
                        acc.as_str(),
                        op.to.as_str(),
                    ).unwrap();
                    let same = next == acc;
                    changed = changed || !same;
                    acc = next;
                    i = i + 1;
                }
                proof {
                    assert(all.skip(p.operations.len() as int).len() == 0);
                }
                (acc, changed)
            },
        }
    }
}

/// The mathematical content of one file operation.
pub struct FileOperationView {
    pub pattern: Seq<char>,
    pub processors: Seq<ProcessorView>,
}

/// A glob over the repository's working tree, and the processors to run, in
/// order, over every file the glob selects.
pub struct FileOperation {
    pub pattern: GlobPattern,
    pub processors: Vec<Processor>,
}

impl View for FileOperation {
    type V = FileOperationView;

    open spec fn view(&self) -> FileOperationView {
        FileOperationView { pattern: self.pattern@, processors: self.processors.deep_view() }
    }
}

impl DeepView for FileOperation {
    type V = FileOperationView;

    open spec fn deep_view(&self) -> FileOperationView {
        self.view()
    }
}

/// `text` after every processor of the operation has run in order.
pub open spec fn processors_apply(ps: Seq<ProcessorView>, text: Seq<char>) -> Seq<char>
    decreases ps.len(),
{
    if ps.len() == 0 {
        text
    } else {
        processors_apply(ps.drop_first(), processor_apply(ps[0], text))
    }
}

/// Whether any processor of the operation changed the buffer.
pub open spec fn processors_changed(ps: Seq<ProcessorView>, text: Seq<char>) -> bool
    decreases ps.len(),
{
    if ps.len() == 0 {
        false
    } else {
        processor_changed(ps[0], text) || processors_changed(
            ps.drop_first(),
            processor_apply(ps[0], text),
        )
    }
}

/// Folds every processor of one operation over `text`, accumulating whether
/// any pass changed the buffer.
pub fn apply_processors(processors: &Vec<Processor>, text: &str) -> (r: (String, bool))
    ensures
        r.0@ == processors_apply(processors.deep_view(), text@),
        r.1 == processors_changed(processors.deep_view(), text@),
{
    let ghost all = processors.deep_view();
    let mut acc = String::from_str(text);
    let mut changed = false;
    let mut i: usize = 0;
    proof {
        assert(all.skip(0) =~= all);
    }
    while i < processors.len()
        invariant
            i <= processors.len(),
            all == processors.deep_view(),
            processors_apply(all.skip(i as int), acc@) == processors_apply(all, text@),
            (changed || processors_changed(all.skip(i as int), acc@)) == processors_changed(
                all,
                text@,
            ),
        decreases processors.len() - i,
    {
        proof {
            assert(all[i as int] == processors[i as int]@);
            assert(all.skip(i as int).drop_first() =~= all.skip(i as int + 1));
        }
        let (next, step_changed) = processors[i].process(acc.as_str());
        changed = changed || step_changed;
        acc = next;
        i = i + 1;
    }
    proof {
        assert(all.skip(processors.len() as int).len() == 0);
    }
    (acc, changed)
}

/// The mathematical content of a provider configuration.
pub enum PlanProviderView {
    Github(GithubProviderView),
    Test,
}

/// The tagged provider configuration of a plan: the live hosting API, or the
/// deterministic stand-in.
pub enum PlanProvider {
    Github(GithubProvider),
    Test(TestProvider),
}

impl View for PlanProvider {
    type V = PlanProviderView;

    open spec fn view(&self) -> PlanProviderView {
        match self {
            PlanProvider::Github(p) => PlanProviderView::Github(p@),
            PlanProvider::Test(_) => PlanProviderView::Test,
        }
    }
}

/// The mathematical content of a plan.
pub struct PlanView {
    pub branch_name: Seq<char>,
    pub git_message: Seq<char>,
    pub pull_request_title: Option<Seq<char>>,
    pub pull_request_body: Option<Seq<char>>,
    pub file_operations: Seq<FileOperationView>,
    pub provider: PlanProviderView,
    pub repository_allow_filters: Seq<Seq<char>>,
    pub repository_deny_filters: Seq<Seq<char>>,
}

/// The parsed, immutable configuration of one run. A repository is in scope
/// iff it matches at least one allow filter and no deny filter.
pub struct Plan {
    pub branch_name: String,
    pub git_message: String,
    pub pull_request_title: Option<String>,
    pub pull_request_body: Option<String>,
    pub file_operations: Vec<FileOperation>,
    pub provider: PlanProvider,
    pub repository_allow_filters: Vec<GlobPattern>,
    pub repository_deny_filters: Vec<GlobPattern>,
}

impl View for Plan {
    type V = PlanView;

    open spec fn view(&self) -> PlanView {
        PlanView {
            branch_name: self.branch_name@,
            git_message: self.git_message@,
            pull_request_title: self.pull_request_title.deep_view(),
            pull_request_body: self.pull_request_body.deep_view(),
            file_operations: self.file_operations.deep_view(),
            provider: self.provider@,
            repository_allow_filters: self.repository_allow_filters.deep_view(),
            repository_deny_filters: self.repository_deny_filters.deep_view(),
        }
    }
}

/// Whether any of the patterns matches `name`.
pub open spec fn any_glob_matches(patterns: Seq<Seq<char>>, name: Seq<char>) -> bool {
    exists|i: int| 0 <= i < patterns.len() && glob_match(patterns[i], name)
}

fn any_match(filters: &Vec<GlobPattern>, name: &str) -> (r: bool)
    ensures
        r == any_glob_matches(filters.deep_view(), name@),
{
    let mut i: usize = 0;
    while i < filters.len()
        invariant
            i <= filters.len(),
            forall|k: int| 0 <= k < i ==> !glob_match(filters.deep_view()[k], name@),
        decreases filters.len() - i,
    {
        if filters[i].matches(name) {
            proof {
                assert(glob_match(filters.deep_view()[i as int], name@));
            }
            return true;
        }
        i = i + 1;
    }
    false
}

impl Plan {
    pub fn new(
        branch_name: String,
        git_message: String,
        pull_request_title: Option<String>,
        pull_request_body: Option<String>,
        file_operations: Vec<FileOperation>,
        provider: PlanProvider,
        repository_allow_filters: Vec<GlobPattern>,
        repository_deny_filters: Vec<GlobPattern>,
    ) -> (r: Result<Plan, PlanError>)
        ensures
            r is Err <==> repository_allow_filters@.len() == 0,
            r matches Err(e) ==> e is NoAllowFilters,
            r matches Ok(p) ==> p@.branch_name == branch_name@ && p@.git_message == git_message@
                && p@.pull_request_title == pull_request_title.deep_view()
                && p@.pull_request_body == pull_request_body.deep_view() && p@.file_operations
                == file_operations.deep_view() && p@.provider == provider@
                && p@.repository_allow_filters == repository_allow_filters.deep_view()
                && p@.repository_deny_filters == repository_deny_filters.deep_view(),
    {
        if repository_allow_filters.len() == 0 {
            Err(PlanError::NoAllowFilters)
        } else {
            Ok(
                Plan {
                    branch_name,
                    git_message,
                    pull_request_title,
                    pull_request_body,
                    file_operations,
                    provider,
                    repository_allow_filters,
                    repository_deny_filters,
                },
            )
        }
    }

    pub fn get_provider(&self) -> (r: &PlanProvider)
        ensures
            r@ == self@.provider,
    {
        &self.provider
    }

    /// Whether `name` is in scope: it matches at least one allow filter and
    /// no deny filter.
    pub open spec fn spec_allowed(&self, name: Seq<char>) -> bool {
        any_glob_matches(self@.repository_allow_filters, name) && !any_glob_matches(
            self@.repository_deny_filters,
            name,
        )
    }

    pub fn repository_allowed(&self, repository_name: &str) -> (r: bool)
        ensures
            r == self.spec_allowed(repository_name@),
    {
        any_match(&self.repository_allow_filters, repository_name) && !self.repository_denied(
            repository_name,
        )
    }

    fn repository_denied(&self, repository_name: &str) -> (r: bool)
        ensures
            r == any_glob_matches(self@.repository_deny_filters, repository_name@),
    {
        any_match(&self.repository_deny_filters, repository_name)
    }
}

/// For every name: a repository is in scope iff some allow filter matches it
/// and no deny filter does, where "matches" is exactly what
/// `GlobPattern::matches` returns.
pub proof fn lemma_repository_allowed(plan: &Plan, name: Seq<char>)
    ensures
        plan.spec_allowed(name) == ((exists|i: int|
            0 <= i < plan.repository_allow_filters@.len()
                && (#[trigger] plan.repository_allow_filters@[i]).spec_matches(name)) && !(exists|
            j: int,
        |
            0 <= j < plan.repository_deny_filters@.len()
                && (#[trigger] plan.repository_deny_filters@[j]).spec_matches(name))),
{
    let allow_dv = plan@.repository_allow_filters;
    let av = plan.repository_allow_filters@;
    assert(any_glob_matches(allow_dv, name) == (exists|i: int|
        0 <= i < av.len() && (#[trigger] av[i]).spec_matches(name))) by {
        if any_glob_matches(allow_dv, name) {
            let i = choose|i: int| 0 <= i < allow_dv.len() && glob_match(allow_dv[i], name);
            assert(allow_dv[i] == av[i]@);
            assert(av[i].spec_matches(name));
        }
        if exists|i: int| 0 <= i < av.len() && (#[trigger] av[i]).spec_matches(name) {
            let i = choose|i: int| 0 <= i < av.len() && (#[trigger] av[i]).spec_matches(name);
            assert(allow_dv[i] == av[i]@);
            assert(glob_match(allow_dv[i], name));
        }
    }
    let deny_dv = plan@.repository_deny_filters;
    let dv = plan.repository_deny_filters@;
    assert(any_glob_matches(deny_dv, name) == (exists|j: int|
        0 <= j < dv.len() && (#[trigger] dv[j]).spec_matches(name))) by {
        if any_glob_matches(deny_dv, name) {
            let j = choose|j: int| 0 <= j < deny_dv.len() && glob_match(deny_dv[j], name);
            assert(deny_dv[j] == dv[j]@);
            assert(dv[j].spec_matches(name));
        }
        if exists|j: int| 0 <= j < dv.len() && (#[trigger] dv[j]).spec_matches(name) {
            let j = choose|j: int| 0 <= j < dv.len() && (#[trigger] dv[j]).spec_matches(name);
            assert(deny_dv[j] == dv[j]@);
            assert(glob_match(deny_dv[j], name));
        }
    }
}

} // verus!
