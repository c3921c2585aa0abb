pub mod error;
pub mod executor;
pub mod glob_pattern;
pub mod laws;
pub mod orchestrator;
pub mod plan;
pub mod provider;
pub mod strutil;

use vstd::prelude::*;

verus! {

/// The mathematical content of a repository record.
pub struct RepositoryView {
    pub name: Seq<char>,
    pub private: bool,
    pub fork: bool,
    pub ssh_url: Seq<char>,
    pub default_branch: Seq<char>,
}

/// A repository as reported by a source-hosting provider. Immutable once
/// fetched; `private` and `fork` are carried along but not used for filtering.
pub struct Repository {
    pub name: String,
    pub private: bool,
    pub fork: bool,
    pub ssh_url: String,
    pub default_branch: String,
}

impl View for Repository {
    type V = RepositoryView;

    open spec fn view(&self) -> RepositoryView {
        RepositoryView {
            name: self.name@,
            private: self.private,
            fork: self.fork,
            ssh_url: self.ssh_url@,
            default_branch: self.default_branch@,
        }
    }
}

impl DeepView for Repository {
    type V = RepositoryView;

    open spec fn deep_view(&self) -> RepositoryView {
        self.view()
    }
}

impl Repository {
    pub fn clone_repo(&self) -> (r: Repository)
        ensures
            r@ == self@,
    {
        Repository {
            name: self.name.clone(),
            private: self.private,
            fork: self.fork,
            ssh_url: self.ssh_url.clone(),
            default_branch: self.default_branch.clone(),
        }
    }
}

} // verus!
