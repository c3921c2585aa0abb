use vstd::prelude::*;

use crate::strutil::{concat3, concat5, dec_spec, u64_to_string};
use crate::Repository;

verus! {

/// The base URL of the public hosting API, used when a plan names none.
pub fn default_url() -> (r: String)
    ensures
        r@ == "https://api.github.com"@,
{
    String::from_str("https://api.github.com")
}

/// The cache file for the repository list of one `(provider, organization)`
/// pair; the snapshot is one whole JSON document under this name.
pub fn cache_file_name(provider_name: &str, organization: &str) -> (r: String)
    ensures
        r@ == "repositories-"@ + provider_name@ + "-"@ + organization@ + ".json"@,
{
    concat5("repositories-", provider_name, "-", organization, ".json")
}

/// The mathematical content of a hosting-API configuration.
pub struct GithubProviderView {
    pub user: Seq<char>,
    pub token: Seq<char>,
    pub organization: Seq<char>,
    pub api_url: Seq<char>,
}

/// Configuration for the REST hosting API: enumeration, pull-request lookup
/// and creation all go through these coordinates.
pub struct GithubProvider {
    pub user: String,
    pub token: String,
    pub organization: String,
    pub api_url: String,
}

impl View for GithubProvider {
    type V = GithubProviderView;

    open spec fn view(&self) -> GithubProviderView {
        GithubProviderView {
            user: self.user@,
            token: self.token@,
            organization: self.organization@,
            api_url: self.api_url@,
        }
    }
}

impl GithubProvider {
    pub fn new(user: String, token: String, organization: String, api_url: Option<String>) -> (r:
        GithubProvider)
        ensures
            r@.user == user@,
            r@.token == token@,
            r@.organization == organization@,
            api_url matches Some(u) ==> r@.api_url == u@,
            api_url is None ==> r@.api_url == "https://api.github.com"@,
    {
        let url = match api_url {
            Some(u) => u,
            None => default_url(),
        };
        GithubProvider { user, token, organization, api_url: url }
    }

    /// The enumeration URL for one page of the organization's repositories.
    pub open spec fn spec_page_url(&self, page: int) -> Seq<char> {
        self@.api_url + "/orgs/"@ + self@.organization + "/repos?type=private&per_page=100&page="@
            + dec_spec(page)
    }

    pub fn page_url(&self, page: u64) -> (r: String)
        ensures
            r@ == self.spec_page_url(page as int),
    {
        let n = u64_to_string(page);
        let mut s = concat3(self.api_url.as_str(), "/orgs/", self.organization.as_str());
        s.append("/repos?type=private&per_page=100&page=");
        s.append(n.as_str());
        s
    }

    /// The pull-request collection URL of one repository.
    pub open spec fn spec_pulls_url(&self, repository_name: Seq<char>) -> Seq<char> {
        self@.api_url + "/repos/"@ + self@.organization + "/"@ + repository_name + "/pulls"@
    }

    pub fn pulls_url(&self, repository_name: &str) -> (r: String)
        ensures
            r@ == self.spec_pulls_url(repository_name@),
    {
        let mut s = concat3(self.api_url.as_str(), "/repos/", self.organization.as_str());
        s.append("/");
        s.append(repository_name);
        s.append("/pulls");
        s
    }

    /// The `head` filter that selects pull requests from the working branch.
    pub open spec fn spec_pr_head(&self, branch_name: Seq<char>) -> Seq<char> {
        self@.organization + ":"@ + branch_name
    }

    pub fn pr_head(&self, branch_name: &str) -> (r: String)
        ensures
            r@ == self.spec_pr_head(branch_name@),
    {
        concat3(self.organization.as_str(), ":", branch_name)
    }
}

/// A fault while talking to a provider.
#[derive(Debug)]
pub enum ProviderError {
    /// More than one open pull request matched one branch: an invariant
    /// violation that is reported rather than silently resolved.
    MultipleOpenPrs { count: usize },
}

/// The verdict of an open-pull-request query, given how many open pull
/// requests matched the branch. At most one may match; more is a logic error
/// and fails loudly.
pub fn pr_open_from_matches(count: usize) -> (r: Result<bool, ProviderError>)
    ensures
        count == 0 ==> r == Result::<bool, ProviderError>::Ok(false),
        count == 1 ==> r == Result::<bool, ProviderError>::Ok(true),
        count > 1 ==> r == Result::<bool, ProviderError>::Err(ProviderError::MultipleOpenPrs {
            count,
        }),
{
    if count > 1 {
        Err(ProviderError::MultipleOpenPrs { count })
    } else {
        Ok(count == 1)
    }
}

// ---------------------------------------------------------------------------
// Repository enumeration: a paging-and-cache state machine
// ---------------------------------------------------------------------------
/// The mathematical content of one enumeration state.
#[verifier::ext_equal]
pub enum ListStateView {
    CacheCheck,
    Fetching { page: int, acc: Seq<crate::RepositoryView> },
    Saving { acc: Seq<crate::RepositoryView> },
    Finished { repositories: Seq<crate::RepositoryView> },
    ListFailed { message: Seq<char> },
}

/// Where repository enumeration stands. Each state waits for the answer to
/// exactly one issued action.
pub enum ListState {
    /// Waiting to hear whether a cached snapshot exists.
    CacheCheck,
    /// Waiting for page `page`; `acc` holds the pages fetched so far.
    Fetching { page: u64, acc: Vec<Repository> },
    /// Waiting for the snapshot write of the full list.
    Saving { acc: Vec<Repository> },
    /// Enumeration finished with the full list.
    Finished { repositories: Vec<Repository> },
    /// Enumeration failed; nothing was saved.
    ListFailed { message: String },
}

impl View for ListState {
    type V = ListStateView;

    open spec fn view(&self) -> ListStateView {
        match self {
            ListState::CacheCheck => ListStateView::CacheCheck,
            ListState::Fetching { page, acc } => ListStateView::Fetching {
                page: *page as int,
                acc: acc.deep_view(),
            },
            ListState::Saving { acc } => ListStateView::Saving { acc: acc.deep_view() },
            ListState::Finished { repositories } => ListStateView::Finished {
                repositories: repositories.deep_view(),
            },
            ListState::ListFailed { message } => ListStateView::ListFailed { message: message@ },
        }
    }
}

/// The mathematical content of one enumeration action.
#[verifier::ext_equal]
pub enum ListActionView {
    ReadCache { file: Seq<char> },
    FetchPage { url: Seq<char> },
    WriteCache { file: Seq<char>, repositories: Seq<crate::RepositoryView> },
    ListStop,
}

/// What enumeration asks its driver to do next.
pub enum ListAction {
    /// Look for the cached snapshot under this file name.
    ReadCache { file: String },
    /// Fetch one page of the organization's repositories.
    FetchPage { url: String },
    /// Overwrite the snapshot with the full list, as one whole document.
    WriteCache { file: String, repositories: Vec<Repository> },
    /// Enumeration is over; no further action follows.
    ListStop,
}

impl View for ListAction {
    type V = ListActionView;

    open spec fn view(&self) -> ListActionView {
        match self {
            ListAction::ReadCache { file } => ListActionView::ReadCache { file: file@ },
            ListAction::FetchPage { url } => ListActionView::FetchPage { url: url@ },
            ListAction::WriteCache { file, repositories } => ListActionView::WriteCache {
                file: file@,
                repositories: repositories.deep_view(),
            },
            ListAction::ListStop => ListActionView::ListStop,
        }
    }
}

/// The mathematical content of one enumeration answer.
#[verifier::ext_equal]
pub enum ListEventView {
    CacheHit { repositories: Seq<crate::RepositoryView> },
    CacheMiss,
    Page { repositories: Seq<crate::RepositoryView> },
    Saved,
    ListFail { message: Seq<char> },
}

/// The driver's answer to the previous enumeration action.
pub enum ListEvent {
    /// A snapshot exists and holds these repositories.
    CacheHit { repositories: Vec<Repository> },
    /// No snapshot exists.
    CacheMiss,
    /// One fetched page; an empty page ends the enumeration.
    Page { repositories: Vec<Repository> },
    /// The snapshot was written.
    Saved,
    /// The action could not be carried out.
    ListFail { message: String },
}

impl View for ListEvent {
    type V = ListEventView;

    open spec fn view(&self) -> ListEventView {
        match self {
            ListEvent::CacheHit { repositories } => ListEventView::CacheHit {
                repositories: repositories.deep_view(),
            },
            ListEvent::CacheMiss => ListEventView::CacheMiss,
            ListEvent::Page { repositories } => ListEventView::Page {
                repositories: repositories.deep_view(),
            },
            ListEvent::Saved => ListEventView::Saved,
            ListEvent::ListFail { message } => ListEventView::ListFail { message: message@ },
        }
    }
}

/// An element-for-element copy of a repository list.
pub fn clone_repositories(v: &Vec<Repository>) -> (r: Vec<Repository>)
    ensures
        r.deep_view() == v.deep_view(),
{
    let mut out: Vec<Repository> = Vec::new();
    let mut i: usize = 0;
    while i < v.len()
        invariant
            i <= v@.len(),
            out@.len() == i,
            out.deep_view() =~= v.deep_view().take(i as int),
        decreases v@.len() - i,
    {
        let ghost prev_seq = out@;
        let ghost prev_dv = out.deep_view();
        out.push(v[i].clone_repo());
        proof {
            let dv = v.deep_view();
            assert forall|k: int| 0 <= k < i + 1 implies out.deep_view()[k] == dv.take(
                i as int + 1,
            )[k] by {
                assert(out.deep_view()[k] == out@[k].deep_view());
                assert(dv.take(i as int + 1)[k] == dv[k]);
                if k < i {
                    assert(out@[k] == prev_seq[k]);
                    assert(prev_seq[k].deep_view() == prev_dv[k]);
                    assert(prev_dv[k] == dv.take(i as int)[k]);
                    assert(dv.take(i as int)[k] == dv[k]);
                }
            }
            assert(out.deep_view() =~= dv.take(i as int + 1));
        }
        i = i + 1;
    }
    proof {
        assert(v.deep_view().take(v@.len() as int) =~= v.deep_view());
    }
    out
}

/// The snapshot file of this provider's organization.
pub open spec fn spec_cache_file(g: GithubProviderView) -> Seq<char> {
    "repositories-"@ + "github"@ + "-"@ + g.organization + ".json"@
}

/// The enumeration URL of page `page`.
pub open spec fn spec_fetch(g: GithubProviderView, page: int, acc: Seq<crate::RepositoryView>)
    -> (ListStateView, ListActionView) {
    (
        ListStateView::Fetching { page, acc },
        ListActionView::FetchPage {
            url: g.api_url + "/orgs/"@ + g.organization + "/repos?type=private&per_page=100&page="@
                + crate::strutil::dec_spec(page),
        },
    )
}

/// The first enumeration action: consult the snapshot when the cache is in
/// use, else fetch the first page.
pub open spec fn list_model_start(g: GithubProviderView, use_cache: bool) -> (
    ListStateView,
    ListActionView,
) {
    if use_cache {
        (ListStateView::CacheCheck, ListActionView::ReadCache { file: spec_cache_file(g) })
    } else {
        spec_fetch(g, 1, Seq::empty())
    }
}

/// Which event kinds answer which enumeration state's pending action.
pub open spec fn list_valid_event(s: ListStateView, e: ListEventView) -> bool {
    match s {
        ListStateView::CacheCheck => e is CacheHit || e is CacheMiss || e is ListFail,
        ListStateView::Fetching { .. } => e is Page || e is ListFail,
        ListStateView::Saving { .. } => e is Saved || e is ListFail,
        ListStateView::Finished { .. } => false,
        ListStateView::ListFailed { .. } => false,
    }
}

/// The full transition function of repository enumeration: a cache hit
/// short-circuits; pages accumulate until an empty page; the full list is
/// then saved as one snapshot and returned.
pub open spec fn list_model_step(g: GithubProviderView, s: ListStateView, e: ListEventView) -> (
    ListStateView,
    ListActionView,
) {
    match e {
        ListEventView::ListFail { message } => (
            ListStateView::ListFailed { message },
            ListActionView::ListStop,
        ),
        ListEventView::CacheHit { repositories } => (
            ListStateView::Finished { repositories },
            ListActionView::ListStop,
        ),
        ListEventView::CacheMiss => spec_fetch(g, 1, Seq::empty()),
        ListEventView::Page { repositories } => match s {
            ListStateView::Fetching { page, acc } => {
                if repositories.len() == 0 {
                    (
                        ListStateView::Saving { acc },
                        ListActionView::WriteCache { file: spec_cache_file(g), repositories: acc },
                    )
                } else if page == u64::MAX as int {
                    (
                        ListStateView::ListFailed { message: "too many repository pages"@ },
                        ListActionView::ListStop,
                    )
                } else {
                    spec_fetch(g, page + 1, acc + repositories)
                }
            },
            _ => (s, ListActionView::ListStop),
        },
        ListEventView::Saved => match s {
            ListStateView::Saving { acc } => (
                ListStateView::Finished { repositories: acc },
                ListActionView::ListStop,
            ),
            _ => (s, ListActionView::ListStop),
        },
    }
}

impl GithubProvider {
    /// The first enumeration action for this organization.
    pub fn start_listing(&self, use_cache: bool) -> (r: (ListState, ListAction))
        ensures
            r.0@ == list_model_start(self@, use_cache).0,
            r.1@ == list_model_start(self@, use_cache).1,
    {
        if use_cache {
            let file = cache_file_name("github", self.organization.as_str());
            (ListState::CacheCheck, ListAction::ReadCache { file })
        } else {
            let url = self.page_url(1);
            let acc: Vec<Repository> = Vec::new();
            proof {
                assert(acc.deep_view() =~= Seq::<crate::RepositoryView>::empty());
            }
            (ListState::Fetching { page: 1, acc }, ListAction::FetchPage { url })
        }
    }

    /// One transition of repository enumeration, exactly as the model
    /// transition function says.
    pub fn list_step(&self, state: ListState, event: ListEvent) -> (r: (ListState, ListAction))
        requires
            list_valid_event(state@, event@),
        ensures
            r.0@ == list_model_step(self@, state@, event@).0,
            r.1@ == list_model_step(self@, state@, event@).1,
    {
        match (state, event) {
            (_, ListEvent::ListFail { message }) => (
                ListState::ListFailed { message },
                ListAction::ListStop,
            ),
            (_, ListEvent::CacheHit { repositories }) => (
                ListState::Finished { repositories },
                ListAction::ListStop,
            ),
            (_, ListEvent::CacheMiss) => {
                let url = self.page_url(1);
                let acc: Vec<Repository> = Vec::new();
                proof {
                    assert(acc.deep_view() =~= Seq::<crate::RepositoryView>::empty());
                }
                (ListState::Fetching { page: 1, acc }, ListAction::FetchPage { url })
            },
            (ListState::Fetching { page, mut acc }, ListEvent::Page { mut repositories }) => {
                if repositories.len() == 0 {
                    let file = cache_file_name("github", self.organization.as_str());
                    let snapshot = clone_repositories(&acc);
                    (
                        ListState::Saving { acc },
                        ListAction::WriteCache { file, repositories: snapshot },
                    )
                } else if page == u64::MAX {
                    (
                        ListState::ListFailed {
                            message: String::from_str("too many repository pages"),
                        },
                        ListAction::ListStop,
                    )
                } else {
                    let ghost old_acc_seq = acc@;
                    let ghost old_acc = acc.deep_view();
                    let ghost old_pages_seq = repositories@;
                    let ghost old_pages = repositories.deep_view();
                    acc.append(&mut repositories);
                    proof {
                        assert forall|k: int| 0 <= k < acc@.len() implies acc.deep_view()[k] == (
                        old_acc + old_pages)[k] by {
                            assert(acc.deep_view()[k] == acc@[k].deep_view());
                            if k < old_acc_seq.len() {
                                assert(acc@[k] == old_acc_seq[k]);
                                assert(old_acc_seq[k].deep_view() == old_acc[k]);
                            } else {
                                assert(acc@[k] == old_pages_seq[k - old_acc_seq.len()]);
                                assert(old_pages_seq[k - old_acc_seq.len()].deep_view()
                                    == old_pages[k - old_acc_seq.len()]);
                            }
                        }
                        assert(acc.deep_view() =~= old_acc + old_pages);
                    }
                    let url = self.page_url(page + 1);
                    (ListState::Fetching { page: page + 1, acc }, ListAction::FetchPage { url })
                }
            },
            (ListState::Saving { acc }, ListEvent::Saved) => (
                ListState::Finished { repositories: acc },
                ListAction::ListStop,
            ),
            _ => {
                proof {
                    assert(false);
                }
                (ListState::CacheCheck, ListAction::ListStop)
            },
        }
    }
}

/// Cache round trip: enumeration moves to saving only together with a
/// snapshot write of exactly its accumulated list, finishing from there
/// returns that same list; and a later enumeration that is answered from the
/// snapshot returns it unchanged, with no page fetched.
pub proof fn lemma_cache_round_trip(
    g: GithubProviderView,
    page: int,
    v: Seq<crate::RepositoryView>,
)
    ensures
        list_model_step(g, ListStateView::Fetching { page, acc: v }, ListEventView::Page {
            repositories: Seq::empty(),
        }) == (ListStateView::Saving { acc: v }, ListActionView::WriteCache {
            file: spec_cache_file(g),
            repositories: v,
        }),
        list_model_step(g, ListStateView::Saving { acc: v }, ListEventView::Saved).0
            == (ListStateView::Finished { repositories: v }),
        list_model_start(g, true).0 == ListStateView::CacheCheck,
        !(list_model_start(g, true).1 is FetchPage),
        list_model_step(g, ListStateView::CacheCheck, ListEventView::CacheHit { repositories: v })
            == (ListStateView::Finished { repositories: v }, ListActionView::ListStop),
{
}

/// The deterministic stand-in provider: one fixed repository, never an open
/// pull request, and pull-request creation that accepts silently.
pub struct TestProvider {}

impl TestProvider {
    pub fn list_repositories(&self) -> (r: Vec<Repository>)
        ensures
            r@.len() == 1,
            r@[0]@.name == "working-repo"@,
            r@[0]@.private == true,
            r@[0]@.fork == false,
            r@[0]@.ssh_url == "any-url"@,
            r@[0]@.default_branch == "main"@,
    {
        let repo = Repository {
            name: String::from_str("working-repo"),
            private: true,
            fork: false,
            ssh_url: String::from_str("any-url"),
            default_branch: String::from_str("main"),
        };
        let mut v: Vec<Repository> = Vec::new();
        v.push(repo);
        v
    }

    pub fn is_pr_open(&self, repository_name: &str, branch_name: &str) -> (r: bool)
        ensures
            r == false,
    {
        let _ = repository_name;
        let _ = branch_name;
        false
    }
}

} // verus!
