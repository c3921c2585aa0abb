use fixit::provider::{
    cache_file_name, default_url, pr_open_from_matches, GithubProvider, ListAction, ListEvent,
    ListState, ProviderError, TestProvider,
};
use fixit::Repository;

fn provider() -> GithubProvider {
    GithubProvider::new(
        String::from("test-user"),
        String::from("api-token"),
        String::from("fix-it"),
        Some(String::from("http://localhost:9000/github")),
    )
}

fn repo(name: &str) -> Repository {
    Repository {
        name: String::from(name),
        private: true,
        fork: false,
        ssh_url: format!("git@host:fix-it/{}.git", name),
        default_branch: String::from("main"),
    }
}

#[test]
fn test_default_url() {
    assert_eq!(default_url(), "https://api.github.com");
    let p = GithubProvider::new(
        String::from("u"),
        String::from("api-token"),
        String::from("org"),
        None,
    );
    assert_eq!(p.api_url, "https://api.github.com");
}

#[test]
fn test_urls() {
    let p = provider();
    assert_eq!(
        p.page_url(1),
        "http://localhost:9000/github/orgs/fix-it/repos?type=private&per_page=100&page=1"
    );
    assert_eq!(
        p.page_url(12),
        "http://localhost:9000/github/orgs/fix-it/repos?type=private&per_page=100&page=12"
    );
    assert_eq!(
        p.pulls_url("fix-it-1"),
        "http://localhost:9000/github/repos/fix-it/fix-it-1/pulls"
    );
    assert_eq!(p.pr_head("valid-branch"), "fix-it:valid-branch");
}

#[test]
fn test_cache_file_name() {
    assert_eq!(
        cache_file_name("github", "fix-it"),
        "repositories-github-fix-it.json"
    );
}

#[test]
fn test_pr_open_from_matches() {
    assert_eq!(pr_open_from_matches(0).unwrap(), false);
    assert_eq!(pr_open_from_matches(1).unwrap(), true);
    match pr_open_from_matches(2) {
        Err(ProviderError::MultipleOpenPrs { count }) => assert_eq!(count, 2),
        _ => panic!("two open pull requests for one branch must fail loudly"),
    }
}

fn names(repositories: &[Repository]) -> Vec<String> {
    repositories.iter().map(|r| r.name.clone()).collect()
}

#[test]
fn test_enumeration_pages_until_empty_and_saves() {
    let p = provider();
    let (state, action) = p.start_listing(false);
    match &action {
        ListAction::FetchPage { url } => assert!(url.ends_with("page=1")),
        _ => panic!("without the cache the first page must be fetched"),
    }

    let (state, action) = p.list_step(
        state,
        ListEvent::Page {
            repositories: vec![repo("fix-it-1"), repo("fix-it-2")],
        },
    );
    match &action {
        ListAction::FetchPage { url } => assert!(url.ends_with("page=2")),
        _ => panic!("a non-empty page must be followed by the next page"),
    }

    let (state, action) = p.list_step(
        state,
        ListEvent::Page {
            repositories: vec![repo("fix-it-3")],
        },
    );
    match &action {
        ListAction::FetchPage { url } => assert!(url.ends_with("page=3")),
        _ => panic!("a non-empty page must be followed by the next page"),
    }

    let (state, action) = p.list_step(
        state,
        ListEvent::Page {
            repositories: vec![],
        },
    );
    let saved = match &action {
        ListAction::WriteCache { file, repositories } => {
            assert_eq!(file, "repositories-github-fix-it.json");
            assert_eq!(names(repositories), vec!["fix-it-1", "fix-it-2", "fix-it-3"]);
            names(repositories)
        }
        _ => panic!("an empty page must end enumeration with a snapshot write"),
    };

    let (state, action) = p.list_step(state, ListEvent::Saved);
    assert!(matches!(action, ListAction::ListStop));
    match state {
        ListState::Finished { repositories } => {
            assert_eq!(names(&repositories), saved);
        }
        _ => panic!("enumeration must finish after the snapshot write"),
    }
}

#[test]
fn test_cache_round_trip() {
    let p = provider();

    // First call, cache bypassed: one page, then the snapshot write.
    let (state, _) = p.start_listing(false);
    let (state, action) = p.list_step(
        state,
        ListEvent::Page {
            repositories: vec![repo("fix-it-1")],
        },
    );
    assert!(matches!(action, ListAction::FetchPage { .. }));
    let (state, action) = p.list_step(
        state,
        ListEvent::Page {
            repositories: vec![],
        },
    );
    let snapshot = match action {
        ListAction::WriteCache { repositories, .. } => repositories,
        _ => panic!("the full list must be saved"),
    };
    let (state, _) = p.list_step(state, ListEvent::Saved);
    let first = match state {
        ListState::Finished { repositories } => repositories,
        _ => panic!("the first call must finish"),
    };

    // Second call, cache in use: answered from the snapshot, no page fetched.
    let (state, action) = p.start_listing(true);
    match &action {
        ListAction::ReadCache { file } => assert_eq!(file, "repositories-github-fix-it.json"),
        _ => panic!("with the cache in use the snapshot must be consulted"),
    }
    let (state, action) = p.list_step(
        state,
        ListEvent::CacheHit {
            repositories: snapshot,
        },
    );
    assert!(matches!(action, ListAction::ListStop));
    let second = match state {
        ListState::Finished { repositories } => repositories,
        _ => panic!("the second call must finish"),
    };

    assert_eq!(names(&first), names(&second));
    assert_eq!(names(&first), vec!["fix-it-1"]);
}

#[test]
fn test_cache_miss_falls_back_to_fetching() {
    let p = provider();
    let (state, _) = p.start_listing(true);
    let (_, action) = p.list_step(state, ListEvent::CacheMiss);
    match &action {
        ListAction::FetchPage { url } => assert!(url.ends_with("page=1")),
        _ => panic!("a cache miss must fall back to enumeration"),
    }
}

#[test]
fn test_enumeration_failure_saves_nothing() {
    let p = provider();
    let (state, _) = p.start_listing(false);
    let (state, action) = p.list_step(
        state,
        ListEvent::ListFail {
            message: String::from("connection refused"),
        },
    );
    assert!(matches!(action, ListAction::ListStop));
    match state {
        ListState::ListFailed { message } => assert_eq!(message, "connection refused"),
        _ => panic!("a failed fetch must end enumeration"),
    }
}

#[test]
fn test_stand_in_provider() {
    let t = TestProvider {};
    let repositories = t.list_repositories();
    assert_eq!(repositories.len(), 1);
    assert_eq!(repositories[0].name, "working-repo");
    assert!(repositories[0].private);
    assert!(!repositories[0].fork);
    assert_eq!(repositories[0].ssh_url, "any-url");
    assert_eq!(repositories[0].default_branch, "main");
    assert!(!t.is_pr_open("working-repo", "fix-everything"));
}
