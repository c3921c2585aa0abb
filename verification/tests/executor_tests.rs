use fixit::executor::{Action, Event, ExecState, GitCmd, PlanExecutor, WorkflowStep};
use fixit::glob_pattern::GlobPattern;
use fixit::plan::{FileOperation, Plan, PlanProvider, Processor, RegexOperation, RegexProcessor};
use fixit::provider::TestProvider;

/// An in-memory stand-in for the outside world: a working copy, its branch,
/// its commits and the provider's pull-request state.
struct World {
    dir_exists: bool,
    branch: String,
    files: Vec<(String, String)>,
    commits: Vec<String>,
    pushes: usize,
    pr_open: bool,
    mutations: usize,
}

impl World {
    fn file_text(&self, path: &str) -> String {
        self.files
            .iter()
            .find(|(p, _)| p == path)
            .map(|(_, t)| t.clone())
            .expect("file exists")
    }

    fn write_file(&mut self, path: &str, text: String) {
        for entry in self.files.iter_mut() {
            if entry.0 == path {
                entry.1 = text;
                return;
            }
        }
        panic!("writing a file that was never listed");
    }
}

fn perform(world: &mut World, action: &Action) -> Option<Event> {
    match action {
        Action::CheckDir { .. } => Some(Event::Dir {
            exists: world.dir_exists,
        }),
        Action::Git { cmd } => {
            let (success, stdout) = match cmd {
                GitCmd::Clone { .. } => {
                    world.dir_exists = true;
                    world.mutations += 1;
                    (true, String::new())
                }
                GitCmd::CurrentBranch => (true, format!("{}\n", world.branch)),
                GitCmd::ResetHard => {
                    world.mutations += 1;
                    (true, String::new())
                }
                GitCmd::Checkout { branch } => {
                    world.branch = branch.clone();
                    world.mutations += 1;
                    (true, String::new())
                }
                GitCmd::PullRebase => {
                    world.mutations += 1;
                    (true, String::new())
                }
                GitCmd::CheckoutNew { branch } => {
                    world.branch = branch.clone();
                    world.mutations += 1;
                    (true, String::new())
                }
                GitCmd::LastCommitMessage => {
                    let last = world
                        .commits
                        .last()
                        .map(|m| format!("{}\n", m))
                        .unwrap_or_default();
                    (true, last)
                }
                GitCmd::CommitAll { message } => {
                    world.commits.push(message.clone());
                    world.mutations += 1;
                    (true, String::new())
                }
                GitCmd::ForcePush { .. } => {
                    world.pushes += 1;
                    world.mutations += 1;
                    (true, String::new())
                }
            };
            Some(Event::Git {
                success,
                stdout,
                stderr: String::new(),
            })
        }
        Action::ListFiles { pattern } => {
            // The fixtures only use `<dir>/*.txt`, so suffix matching stands
            // in for the real glob expansion the driver would do.
            let suffix = pattern.rsplit('*').next().unwrap_or("");
            let paths = world
                .files
                .iter()
                .map(|(p, _)| p.clone())
                .filter(|p| p.ends_with(suffix))
                .collect();
            Some(Event::Files { paths })
        }
        Action::ReadFile { path } => Some(Event::FileRead {
            text: world.file_text(path),
        }),
        Action::WriteFile { path, text } => {
            world.write_file(path, text.clone());
            world.mutations += 1;
            Some(Event::Written)
        }
        Action::IsPrOpen { .. } => Some(Event::PrOpen {
            open: world.pr_open,
        }),
        Action::OpenPr { .. } => {
            world.pr_open = true;
            world.mutations += 1;
            Some(Event::PrDone)
        }
        Action::Stop => None,
    }
}

fn run_workflow(executor: &PlanExecutor, world: &mut World) -> ExecState {
    let (mut state, mut action) = executor.start();
    loop {
        match perform(world, &action) {
            None => return state,
            Some(event) => {
                let (next_state, next_action) = executor.step(state, event);
                state = next_state;
                action = next_action;
            }
        }
    }
}

fn fixture_plan(file_glob: &str) -> Plan {
    Plan::new(
        String::from("fix-everything"),
        String::from("fix: apply plan"),
        None,
        None,
        vec![FileOperation {
            pattern: GlobPattern::new(String::from(file_glob)).unwrap(),
            processors: vec![Processor::Regex(RegexProcessor {
                operations: vec![RegexOperation::new(
                    String::from("TODO"),
                    String::from("DONE"),
                )
                .unwrap()],
            })],
        }],
        PlanProvider::Test(TestProvider {}),
        vec![GlobPattern::new(String::from("working-repo")).unwrap()],
        vec![],
    )
    .unwrap()
}

fn fixture_world(directory: &str) -> World {
    World {
        dir_exists: false,
        branch: String::from("main"),
        files: vec![(
            format!("{}/notes.txt", directory),
            String::from("TODO: fix everything"),
        )],
        commits: vec![],
        pushes: 0,
        pr_open: false,
        mutations: 0,
    }
}

#[test]
fn test_executor_flow() {
    let plan = fixture_plan("*.txt");
    let repositories = TestProvider {}.list_repositories();
    assert_eq!(repositories.len(), 1);

    let repository = repositories.into_iter().next().unwrap();
    assert!(plan.repository_allowed(&repository.name));
    let executor = PlanExecutor::new(plan, repository, "/cache");
    assert_eq!(executor.directory, "/cache/repos/working-repo");

    let mut world = fixture_world(&executor.directory);
    let end = run_workflow(&executor, &mut world);

    match end {
        ExecState::Done { changed } => assert!(changed),
        _ => panic!("the workflow must finish"),
    }
    assert_eq!(world.branch, "fix-everything");
    let text = world.file_text("/cache/repos/working-repo/notes.txt");
    assert!(!text.contains("TODO"));
    assert_eq!(text, "DONE: fix everything");
    assert_eq!(world.commits, vec![String::from("fix: apply plan")]);
    assert_eq!(world.pushes, 1);
    assert!(world.pr_open);
}

#[test]
fn test_second_run_makes_no_mutating_calls() {
    let repository = TestProvider {}.list_repositories().into_iter().next().unwrap();
    let executor = PlanExecutor::new(fixture_plan("*.txt"), repository, "/cache");
    let mut world = fixture_world(&executor.directory);

    let first = run_workflow(&executor, &mut world);
    assert!(matches!(first, ExecState::Done { changed: true }));

    let mutations_after_first = world.mutations;
    let branch_after_first = world.branch.clone();
    let files_after_first = world.files.clone();
    let commits_after_first = world.commits.clone();

    let second = run_workflow(&executor, &mut world);
    assert!(matches!(second, ExecState::Done { changed: false }));
    assert_eq!(world.mutations, mutations_after_first);
    assert_eq!(world.branch, branch_after_first);
    assert_eq!(world.files, files_after_first);
    assert_eq!(world.commits, commits_after_first);
    assert_eq!(world.pushes, 1);
}

#[test]
fn test_no_matching_files_publishes_nothing() {
    let repository = TestProvider {}.list_repositories().into_iter().next().unwrap();
    let executor = PlanExecutor::new(fixture_plan("*.md"), repository, "/cache");
    let mut world = fixture_world(&executor.directory);

    let end = run_workflow(&executor, &mut world);
    assert!(matches!(end, ExecState::Done { changed: false }));
    assert!(world.commits.is_empty());
    assert_eq!(world.pushes, 0);
    assert!(!world.pr_open);
}

#[test]
fn test_unchanged_files_publish_nothing() {
    let repository = TestProvider {}.list_repositories().into_iter().next().unwrap();
    let executor = PlanExecutor::new(fixture_plan("*.txt"), repository, "/cache");
    let mut world = fixture_world(&executor.directory);
    world.files[0].1 = String::from("all DONE here");

    let end = run_workflow(&executor, &mut world);
    assert!(matches!(end, ExecState::Done { changed: false }));
    assert!(world.commits.is_empty());
    assert_eq!(world.pushes, 0);
    assert!(!world.pr_open);
}

#[test]
fn test_commit_skip_on_resume() {
    // A re-run after a crash between commit and push: the working branch is
    // checked out, the transformation applies again, but the marker commit is
    // already there, so no second commit is made; the push still happens.
    let repository = TestProvider {}.list_repositories().into_iter().next().unwrap();
    let executor = PlanExecutor::new(fixture_plan("*.txt"), repository, "/cache");
    let mut world = fixture_world(&executor.directory);
    world.dir_exists = true;
    world.branch = String::from("fix-everything");
    world.commits = vec![String::from("fix: apply plan")];

    let end = run_workflow(&executor, &mut world);
    assert!(matches!(end, ExecState::Done { changed: true }));
    assert_eq!(world.commits.len(), 1);
    assert_eq!(world.pushes, 1);
    assert!(world.pr_open);
}

#[test]
fn test_open_pr_skipped_when_already_open() {
    let repository = TestProvider {}.list_repositories().into_iter().next().unwrap();
    let executor = PlanExecutor::new(fixture_plan("*.txt"), repository, "/cache");
    let mut world = fixture_world(&executor.directory);
    world.pr_open = true;

    let end = run_workflow(&executor, &mut world);
    assert!(matches!(end, ExecState::Done { changed: true }));
    assert!(world.pr_open);
}

#[test]
fn test_clone_failure_is_contextualized() {
    let repository = TestProvider {}.list_repositories().into_iter().next().unwrap();
    let executor = PlanExecutor::new(fixture_plan("*.txt"), repository, "/cache");

    let (state, _) = executor.start();
    let (state, action) = executor.step(state, Event::Dir { exists: false });
    assert!(matches!(
        &action,
        Action::Git {
            cmd: GitCmd::Clone { .. }
        }
    ));
    let (state, action) = executor.step(
        state,
        Event::Git {
            success: false,
            stdout: String::new(),
            stderr: String::from("boom"),
        },
    );
    assert!(matches!(action, Action::Stop));
    match state {
        ExecState::Failed { step, message } => {
            assert!(matches!(step, WorkflowStep::Clone));
            assert_eq!(
                message,
                "failed to process repository working-repo: failed to clone repository\nstdout: \nstderr: boom"
            );
        }
        _ => panic!("a failed clone must end the workflow"),
    }
}

#[test]
fn test_environment_failure_is_contextualized() {
    let repository = TestProvider {}.list_repositories().into_iter().next().unwrap();
    let executor = PlanExecutor::new(fixture_plan("*.txt"), repository, "/cache");

    let (state, _) = executor.start();
    let (state, _) = executor.step(
        state,
        Event::Fail {
            message: String::from("disk gone"),
        },
    );
    match state {
        ExecState::Failed { step, message } => {
            assert!(matches!(step, WorkflowStep::Clone));
            assert_eq!(
                message,
                "failed to process repository working-repo: failed to check working directory: disk gone"
            );
        }
        _ => panic!("a failed check must end the workflow"),
    }
}

#[test]
fn test_pull_request_title_defaults_to_git_message() {
    let repository = TestProvider {}.list_repositories().into_iter().next().unwrap();
    let executor = PlanExecutor::new(fixture_plan("*.txt"), repository, "/cache");
    let (_, action) = executor.step(ExecState::PrCheck, Event::PrOpen { open: false });
    match action {
        Action::OpenPr {
            repository_name,
            base,
            head,
            title,
            body,
        } => {
            assert_eq!(repository_name, "working-repo");
            assert_eq!(base, "main");
            assert_eq!(head, "fix-everything");
            assert_eq!(title, "fix: apply plan");
            assert!(body.is_none());
        }
        _ => panic!("a pull request must be requested"),
    }
}

#[test]
fn test_git_argv() {
    let clone = GitCmd::Clone {
        url: String::from("git@host:org/repo.git"),
        dest: String::from("/cache/repos/repo"),
    };
    assert_eq!(
        clone.argv(),
        vec!["clone", "git@host:org/repo.git", "/cache/repos/repo"]
    );
    assert!(!clone.runs_in_repo());

    assert_eq!(
        GitCmd::CurrentBranch.argv(),
        vec!["rev-parse", "--abbrev-ref", "HEAD"]
    );
    assert_eq!(GitCmd::ResetHard.argv(), vec!["reset", "--hard"]);
    assert_eq!(
        GitCmd::Checkout {
            branch: String::from("main")
        }
        .argv(),
        vec!["checkout", "main"]
    );
    assert_eq!(GitCmd::PullRebase.argv(), vec!["pull", "-r"]);
    assert_eq!(
        GitCmd::CheckoutNew {
            branch: String::from("fix-everything")
        }
        .argv(),
        vec!["checkout", "-b", "fix-everything"]
    );
    assert_eq!(
        GitCmd::LastCommitMessage.argv(),
        vec!["log", "--format=%B", "-n", "1"]
    );
    assert_eq!(
        GitCmd::CommitAll {
            message: String::from("fix: apply plan")
        }
        .argv(),
        vec!["commit", "-a", "-m", "fix: apply plan"]
    );
    assert_eq!(
        GitCmd::ForcePush {
            branch: String::from("fix-everything")
        }
        .argv(),
        vec!["push", "-u", "-f", "origin", "fix-everything"]
    );
    assert!(GitCmd::CurrentBranch.runs_in_repo());
}
