use fixit::executor::{ExecState, WorkflowStep};
use fixit::glob_pattern::GlobPattern;
use fixit::orchestrator::{allowed_repositories, first_failure, MAX_CONCURRENT_WORKFLOWS};
use fixit::plan::{Plan, PlanProvider};
use fixit::provider::TestProvider;
use fixit::strutil::{concat3, str_starts_with, trim, u64_to_string};
use fixit::Repository;

fn repo(name: &str) -> Repository {
    Repository {
        name: String::from(name),
        private: false,
        fork: false,
        ssh_url: format!("git@host:org/{}.git", name),
        default_branch: String::from("main"),
    }
}

fn plan(allow: Vec<&str>, deny: Vec<&str>) -> Plan {
    Plan::new(
        String::from("fix-everything"),
        String::from("fix: apply plan"),
        None,
        None,
        vec![],
        PlanProvider::Test(TestProvider {}),
        allow
            .into_iter()
            .map(|a| GlobPattern::new(String::from(a)).unwrap())
            .collect(),
        deny.into_iter()
            .map(|d| GlobPattern::new(String::from(d)).unwrap())
            .collect(),
    )
    .unwrap()
}

#[test]
fn test_allowed_repositories_filters_in_order() {
    let plan = plan(vec!["*my-repo*"], vec!["*-rs"]);
    let discovered = vec![
        repo("my-repo"),
        repo("unrelated"),
        repo("abc-rs-my-repo"),
        repo("my-repo-rs"),
    ];
    let surviving = allowed_repositories(&plan, &discovered);
    let names: Vec<String> = surviving.iter().map(|r| r.name.clone()).collect();
    assert_eq!(names, vec!["my-repo", "abc-rs-my-repo"]);
}

#[test]
fn test_concurrency_bound() {
    assert_eq!(MAX_CONCURRENT_WORKFLOWS, 5);
}

#[test]
fn test_first_failure_none() {
    let results = vec![
        ExecState::Done { changed: true },
        ExecState::Done { changed: false },
    ];
    assert!(first_failure(&results).is_none());
    assert!(first_failure(&vec![]).is_none());
}

#[test]
fn test_first_failure_in_collection_order() {
    let results = vec![
        ExecState::Done { changed: true },
        ExecState::Failed {
            step: WorkflowStep::Push,
            message: String::from("first collected"),
        },
        ExecState::Failed {
            step: WorkflowStep::Clone,
            message: String::from("second collected"),
        },
    ];
    let (step, message) = first_failure(&results).expect("a failure is reported");
    assert!(matches!(step, WorkflowStep::Push));
    assert_eq!(message, "first collected");
}

#[test]
fn test_trim() {
    assert_eq!(trim("  fix-everything\n"), "fix-everything");
    assert_eq!(trim("\t\r\n "), "");
    assert_eq!(trim("untouched"), "untouched");
    assert_eq!(trim("a b"), "a b");
}

#[test]
fn test_str_starts_with() {
    assert!(str_starts_with("fix: apply plan\nbody", "fix: apply plan\n"));
    assert!(!str_starts_with("fix: apply plan", "fix: apply plan\n"));
    assert!(!str_starts_with("other\n", "fix: apply plan\n"));
    assert!(str_starts_with("anything", ""));
}

#[test]
fn test_u64_to_string() {
    assert_eq!(u64_to_string(0), "0");
    assert_eq!(u64_to_string(7), "7");
    assert_eq!(u64_to_string(120), "120");
    assert_eq!(u64_to_string(18446744073709551615), "18446744073709551615");
}

#[test]
fn test_concat() {
    assert_eq!(concat3("a", "-", "b"), "a-b");
}
