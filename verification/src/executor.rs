use vstd::prelude::*;

use crate::plan::{processors_apply, processors_changed, Plan, PlanView};
use crate::strutil::{concat2, concat3, starts_with_spec, str_starts_with, trim, trim_spec};
use crate::{Repository, RepositoryView};

verus! {

// ---------------------------------------------------------------------------
// Version-control commands
// ---------------------------------------------------------------------------
/// The mathematical content of one version-control invocation.
#[verifier::ext_equal]
pub enum GitCmdView {
    Clone { url: Seq<char>, dest: Seq<char> },
    CurrentBranch,
    ResetHard,
    Checkout { branch: Seq<char> },
    PullRebase,
    CheckoutNew { branch: Seq<char> },
    LastCommitMessage,
    CommitAll { message: Seq<char> },
    ForcePush { branch: Seq<char> },
}

/// One invocation of the external version-control tool, as the workflow
/// requests it from its driver.
pub enum GitCmd {
    Clone { url: String, dest: String },
    CurrentBranch,
    ResetHard,
    Checkout { branch: String },
    PullRebase,
    CheckoutNew { branch: String },
    LastCommitMessage,
    CommitAll { message: String },
    ForcePush { branch: String },
}

impl View for GitCmd {
    type V = GitCmdView;

    open spec fn view(&self) -> GitCmdView {
        match self {
            GitCmd::Clone { url, dest } => GitCmdView::Clone { url: url@, dest: dest@ },
            GitCmd::CurrentBranch => GitCmdView::CurrentBranch,
            GitCmd::ResetHard => GitCmdView::ResetHard,
            GitCmd::Checkout { branch } => GitCmdView::Checkout { branch: branch@ },
            GitCmd::PullRebase => GitCmdView::PullRebase,
            GitCmd::CheckoutNew { branch } => GitCmdView::CheckoutNew { branch: branch@ },
            GitCmd::LastCommitMessage => GitCmdView::LastCommitMessage,
            GitCmd::CommitAll { message } => GitCmdView::CommitAll { message: message@ },
            GitCmd::ForcePush { branch } => GitCmdView::ForcePush { branch: branch@ },
        }
    }
}

/// The exact argument sequence handed to the version-control tool.
pub open spec fn argv_spec(c: GitCmdView) -> Seq<Seq<char>> {
    match c {
        GitCmdView::Clone { url, dest } => seq!["clone"@, url, dest],
        GitCmdView::CurrentBranch => seq!["rev-parse"@, "--abbrev-ref"@, "HEAD"@],
        GitCmdView::ResetHard => seq!["reset"@, "--hard"@],
        GitCmdView::Checkout { branch } => seq!["checkout"@, branch],
        GitCmdView::PullRebase => seq!["pull"@, "-r"@],
        GitCmdView::CheckoutNew { branch } => seq!["checkout"@, "-b"@, branch],
        GitCmdView::LastCommitMessage => seq!["log"@, "--format=%B"@, "-n"@, "1"@],
        GitCmdView::CommitAll { message } => seq!["commit"@, "-a"@, "-m"@, message],
        GitCmdView::ForcePush { branch } => seq!["push"@, "-u"@, "-f"@, "origin"@, branch],
    }
}

impl GitCmd {
    /// Renders the command as the tool's argument list.
    pub fn argv(&self) -> (r: Vec<String>)
        ensures
            r.deep_view() == argv_spec(self@),
    {
        let mut v: Vec<String> = Vec::new();
        match self {
            GitCmd::Clone { url, dest } => {
                v.push(String::from_str("clone"));
                v.push(url.clone());
                v.push(dest.clone());
            },
            GitCmd::CurrentBranch => {
                v.push(String::from_str("rev-parse"));
                v.push(String::from_str("--abbrev-ref"));
                v.push(String::from_str("HEAD"));
            },
            GitCmd::ResetHard => {
                v.push(String::from_str("reset"));
                v.push(String::from_str("--hard"));
            },
            GitCmd::Checkout { branch } => {
                v.push(String::from_str("checkout"));
                v.push(branch.clone());
            },
            GitCmd::PullRebase => {
                v.push(String::from_str("pull"));
                v.push(String::from_str("-r"));
            },
            GitCmd::CheckoutNew { branch } => {
                v.push(String::from_str("checkout"));
                v.push(String::from_str("-b"));
                v.push(branch.clone());
            },
            GitCmd::LastCommitMessage => {
                v.push(String::from_str("log"));
                v.push(String::from_str("--format=%B"));
                v.push(String::from_str("-n"));
                v.push(String::from_str("1"));
            },
            GitCmd::CommitAll { message } => {
                v.push(String::from_str("commit"));
                v.push(String::from_str("-a"));
                v.push(String::from_str("-m"));
                v.push(message.clone());
            },
            GitCmd::ForcePush { branch } => {
                v.push(String::from_str("push"));
                v.push(String::from_str("-u"));
                v.push(String::from_str("-f"));
                v.push(String::from_str("origin"));
                v.push(branch.clone());
            },
        }
        proof {
            assert(v.deep_view() =~= argv_spec(self@));
        }
        v
    }

    /// Whether the tool must run inside the repository's working directory.
    /// Only cloning runs outside it: the destination is an argument.
    pub fn runs_in_repo(&self) -> (r: bool)
        ensures
            r == !(self@ is Clone),
    {
        match self {
            GitCmd::Clone { .. } => false,
            _ => true,
        }
    }
}

// ---------------------------------------------------------------------------
// Workflow steps, actions and events
// ---------------------------------------------------------------------------
/// The six steps of the per-repository workflow, named for error reports.
#[derive(Clone, Copy)]
pub enum WorkflowStep {
    Clone,
    EnsureBranch,
    Process,
    Commit,
    Push,
    OpenPr,
}

/// The mathematical content of one requested action.
#[verifier::ext_equal]
pub enum ActionView {
    CheckDir { path: Seq<char> },
    Git { cmd: GitCmdView },
    ListFiles { pattern: Seq<char> },
    ReadFile { path: Seq<char> },
    WriteFile { path: Seq<char>, text: Seq<char> },
    IsPrOpen { repository_name: Seq<char>, branch_name: Seq<char> },
    OpenPr {
        repository_name: Seq<char>,
        base: Seq<char>,
        head: Seq<char>,
        title: Seq<char>,
        body: Option<Seq<char>>,
    },
    Stop,
}

/// What the workflow asks its driver to do next. The driver performs the
/// action against the outside world and hands the outcome back as an event.
pub enum Action {
    /// Ask whether the working directory already exists.
    CheckDir { path: String },
    /// Run the version-control tool.
    Git { cmd: GitCmd },
    /// Expand the glob and return the matched ordinary files.
    ListFiles { pattern: String },
    /// Read one file's full text.
    ReadFile { path: String },
    /// Overwrite one file with new text.
    WriteFile { path: String, text: String },
    /// Ask the provider whether a pull request from the branch is open.
    IsPrOpen { repository_name: String, branch_name: String },
    /// Ask the provider to open a pull request.
    OpenPr {
        repository_name: String,
        base: String,
        head: String,
        title: String,
        body: Option<String>,
    },
    /// The workflow is over; no further action follows.
    Stop,
}

impl View for Action {
    type V = ActionView;

    open spec fn view(&self) -> ActionView {
        match self {
            Action::CheckDir { path } => ActionView::CheckDir { path: path@ },
            Action::Git { cmd } => ActionView::Git { cmd: cmd@ },
            Action::ListFiles { pattern } => ActionView::ListFiles { pattern: pattern@ },
            Action::ReadFile { path } => ActionView::ReadFile { path: path@ },
            Action::WriteFile { path, text } => ActionView::WriteFile {
                path: path@,
                text: text@,
            },
            Action::IsPrOpen { repository_name, branch_name } => ActionView::IsPrOpen {
                repository_name: repository_name@,
                branch_name: branch_name@,
            },
            Action::OpenPr { repository_name, base, head, title, body } => ActionView::OpenPr {
                repository_name: repository_name@,
                base: base@,
                head: head@,
                title: title@,
                body: body.deep_view(),
            },
            Action::Stop => ActionView::Stop,
        }
    }
}

/// The mathematical content of one driver answer.
#[verifier::ext_equal]
pub enum EventView {
    Init,
    Dir { exists: bool },
    Git { success: bool, stdout: Seq<char>, stderr: Seq<char> },
    Files { paths: Seq<Seq<char>> },
    FileRead { text: Seq<char> },
    Written,
    PrOpen { open: bool },
    PrDone,
    Fail { message: Seq<char> },
}

/// The driver's answer to the previous action.
pub enum Event {
    /// Kick-off: no action has run yet.
    Init,
    /// Whether the working directory exists.
    Dir { exists: bool },
    /// A finished version-control invocation, with its captured output.
    Git { success: bool, stdout: String, stderr: String },
    /// The ordinary files the glob matched.
    Files { paths: Vec<String> },
    /// One file's full text.
    FileRead { text: String },
    /// The file was written back.
    Written,
    /// Whether a pull request from the branch is already open.
    PrOpen { open: bool },
    /// The pull request was opened.
    PrDone,
    /// The action could not be carried out.
    Fail { message: String },
}

impl View for Event {
    type V = EventView;

    open spec fn view(&self) -> EventView {
        match self {
            Event::Init => EventView::Init,
            Event::Dir { exists } => EventView::Dir { exists: *exists },
            Event::Git { success, stdout, stderr } => EventView::Git {
                success: *success,
                stdout: stdout@,
                stderr: stderr@,
            },
            Event::Files { paths } => EventView::Files { paths: paths.deep_view() },
            Event::FileRead { text } => EventView::FileRead { text: text@ },
            Event::Written => EventView::Written,
            Event::PrOpen { open } => EventView::PrOpen { open: *open },
            Event::PrDone => EventView::PrDone,
            Event::Fail { message } => EventView::Fail { message: message@ },
        }
    }
}

// ---------------------------------------------------------------------------
// Workflow states
// ---------------------------------------------------------------------------
/// The mathematical content of one workflow state.
#[verifier::ext_equal]
pub enum ExecStateView {
    Start,
    CloneCheck,
    Cloning,
    BranchCheck,
    Resetting,
    CheckingOutDefault,
    Pulling,
    CreatingBranch,
    Listing { op: int, changed: bool },
    Reading { op: int, files: Seq<Seq<char>>, next: int, changed: bool },
    Writing { op: int, files: Seq<Seq<char>>, next: int },
    CommitCheck,
    Committing,
    Pushing,
    PrCheck,
    PrOpening,
    Done { changed: bool },
    Failed { step: WorkflowStep, message: Seq<char> },
}

/// Where the per-repository workflow stands. Each state waits for the answer
/// to exactly one issued action.
pub enum ExecState {
    /// Nothing has run yet.
    Start,
    /// Waiting to hear whether the working directory exists.
    CloneCheck,
    /// Waiting for the clone to finish.
    Cloning,
    /// Waiting for the name of the checked-out branch.
    BranchCheck,
    /// Waiting for the hard reset of the working tree.
    Resetting,
    /// Waiting for the checkout of the repository's default branch.
    CheckingOutDefault,
    /// Waiting for the rebasing pull.
    Pulling,
    /// Waiting for the creation of the working branch.
    CreatingBranch,
    /// Waiting for the file list of operation `op`.
    Listing { op: usize, changed: bool },
    /// Waiting for the text of `files[next]` under operation `op`.
    Reading { op: usize, files: Vec<String>, next: usize, changed: bool },
    /// Waiting for the write-back of `files[next]` under operation `op`.
    Writing { op: usize, files: Vec<String>, next: usize },
    /// Waiting for the most recent commit's message.
    CommitCheck,
    /// Waiting for the commit of all changes.
    Committing,
    /// Waiting for the force-push of the working branch.
    Pushing,
    /// Waiting to hear whether a pull request is already open.
    PrCheck,
    /// Waiting for the pull request to be opened.
    PrOpening,
    /// The workflow finished; `changed` says whether any file changed.
    Done { changed: bool },
    /// The workflow failed at `step`; sibling repositories are unaffected.
    Failed { step: WorkflowStep, message: String },
}

impl View for ExecState {
    type V = ExecStateView;

    open spec fn view(&self) -> ExecStateView {
        match self {
            ExecState::Start => ExecStateView::Start,
            ExecState::CloneCheck => ExecStateView::CloneCheck,
            ExecState::Cloning => ExecStateView::Cloning,
            ExecState::BranchCheck => ExecStateView::BranchCheck,
            ExecState::Resetting => ExecStateView::Resetting,
            ExecState::CheckingOutDefault => ExecStateView::CheckingOutDefault,
            ExecState::Pulling => ExecStateView::Pulling,
            ExecState::CreatingBranch => ExecStateView::CreatingBranch,
            ExecState::Listing { op, changed } => ExecStateView::Listing {
                op: *op as int,
                changed: *changed,
            },
            ExecState::Reading { op, files, next, changed } => ExecStateView::Reading {
                op: *op as int,
                files: files.deep_view(),
                next: *next as int,
                changed: *changed,
            },
            ExecState::Writing { op, files, next } => ExecStateView::Writing {
                op: *op as int,
                files: files.deep_view(),
                next: *next as int,
            },
            ExecState::CommitCheck => ExecStateView::CommitCheck,
            ExecState::Committing => ExecStateView::Committing,
            ExecState::Pushing => ExecStateView::Pushing,
            ExecState::PrCheck => ExecStateView::PrCheck,
            ExecState::PrOpening => ExecStateView::PrOpening,
            ExecState::Done { changed } => ExecStateView::Done { changed: *changed },
            ExecState::Failed { step, message } => ExecStateView::Failed {
                step: *step,
                message: message@,
            },
        }
    }
}

impl ExecStateView {
    /// Whether the workflow is over.
    pub open spec fn is_terminal(self) -> bool {
        self is Done || self is Failed
    }

    /// The workflow step a state belongs to, for error reports.
    pub open spec fn step_of(self) -> WorkflowStep {
        match self {
            ExecStateView::Start => WorkflowStep::Clone,
            ExecStateView::CloneCheck => WorkflowStep::Clone,
            ExecStateView::Cloning => WorkflowStep::Clone,
            ExecStateView::BranchCheck => WorkflowStep::EnsureBranch,
            ExecStateView::Resetting => WorkflowStep::EnsureBranch,
            ExecStateView::CheckingOutDefault => WorkflowStep::EnsureBranch,
            ExecStateView::Pulling => WorkflowStep::EnsureBranch,
            ExecStateView::CreatingBranch => WorkflowStep::EnsureBranch,
            ExecStateView::Listing { .. } => WorkflowStep::Process,
            ExecStateView::Reading { .. } => WorkflowStep::Process,
            ExecStateView::Writing { .. } => WorkflowStep::Process,
            ExecStateView::CommitCheck => WorkflowStep::Commit,
            ExecStateView::Committing => WorkflowStep::Commit,
            ExecStateView::Pushing => WorkflowStep::Push,
            ExecStateView::PrCheck => WorkflowStep::OpenPr,
            ExecStateView::PrOpening => WorkflowStep::OpenPr,
            ExecStateView::Done { .. } => WorkflowStep::Clone,
            ExecStateView::Failed { .. } => WorkflowStep::Clone,
        }
    }

    /// The sub-step description used in failure reports.
    pub open spec fn context_of(self) -> Seq<char> {
        match self {
            ExecStateView::Start => "failed to start"@,
            ExecStateView::CloneCheck => "failed to check working directory"@,
            ExecStateView::Cloning => "failed to clone repository"@,
            ExecStateView::BranchCheck => "failed to list branch"@,
            ExecStateView::Resetting => "failed to reset branch"@,
            ExecStateView::CheckingOutDefault => "failed to checkout default branch"@,
            ExecStateView::Pulling => "failed to pull changes"@,
            ExecStateView::CreatingBranch => "failed to checkout new branch"@,
            ExecStateView::Listing { .. } => "failed to list files"@,
            ExecStateView::Reading { .. } => "failed to read file"@,
            ExecStateView::Writing { .. } => "failed to write file"@,
            ExecStateView::CommitCheck => "failed to read last commit"@,
            ExecStateView::Committing => "failed to commit changes"@,
            ExecStateView::Pushing => "failed to push changes"@,
            ExecStateView::PrCheck => "failed to check for an open pull request"@,
            ExecStateView::PrOpening => "failed to open pr"@,
            ExecStateView::Done { .. } => "finished"@,
            ExecStateView::Failed { .. } => "failed"@,
        }
    }
}

/// Which event kinds answer which state's pending action. A terminal state
/// takes no event at all.
pub open spec fn valid_event(s: ExecStateView, e: EventView) -> bool {
    match s {
        ExecStateView::Start => e is Init,
        ExecStateView::CloneCheck => e is Dir || e is Fail,
        ExecStateView::Cloning => e is Git || e is Fail,
        ExecStateView::BranchCheck => e is Git || e is Fail,
        ExecStateView::Resetting => e is Git || e is Fail,
        ExecStateView::CheckingOutDefault => e is Git || e is Fail,
        ExecStateView::Pulling => e is Git || e is Fail,
        ExecStateView::CreatingBranch => e is Git || e is Fail,
        ExecStateView::Listing { .. } => e is Files || e is Fail,
        ExecStateView::Reading { .. } => e is FileRead || e is Fail,
        ExecStateView::Writing { .. } => e is Written || e is Fail,
        ExecStateView::CommitCheck => e is Git || e is Fail,
        ExecStateView::Committing => e is Git || e is Fail,
        ExecStateView::Pushing => e is Git || e is Fail,
        ExecStateView::PrCheck => e is PrOpen || e is Fail,
        ExecStateView::PrOpening => e is PrDone || e is Fail,
        ExecStateView::Done { .. } => false,
        ExecStateView::Failed { .. } => false,
    }
}

// ---------------------------------------------------------------------------
// The model: one spec-level transition function
// ---------------------------------------------------------------------------
/// The mathematical content of one per-repository executor.
#[verifier::ext_equal]
pub struct ExecutorView {
    pub plan: PlanView,
    pub repository: RepositoryView,
    pub directory: Seq<char>,
}

/// The report prefix that ties a failure to its repository and sub-step.
pub open spec fn fail_prefix(ex: ExecutorView, context: Seq<char>) -> Seq<char> {
    "failed to process repository "@ + ex.repository.name + ": "@ + context
}

/// The report for a version-control invocation that exited non-zero.
pub open spec fn git_fail_message(
    ex: ExecutorView,
    context: Seq<char>,
    stdout: Seq<char>,
    stderr: Seq<char>,
) -> Seq<char> {
    fail_prefix(ex, context) + "\nstdout: "@ + stdout + "\nstderr: "@ + stderr
}

/// The report for an action the driver could not carry out.
pub open spec fn env_fail_message(ex: ExecutorView, context: Seq<char>, message: Seq<char>)
    -> Seq<char> {
    fail_prefix(ex, context) + ": "@ + message
}

/// The pull-request title: the configured one, or the commit message.
pub open spec fn title_of(p: PlanView) -> Seq<char> {
    match p.pull_request_title {
        Some(t) => t,
        None => p.git_message,
    }
}

/// The first action: ask whether the working directory already exists.
pub open spec fn model_start(ex: ExecutorView) -> (ExecStateView, ActionView) {
    (ExecStateView::CloneCheck, ActionView::CheckDir { path: ex.directory })
}

/// Move to reading the checked-out branch's name.
pub open spec fn model_branch_check() -> (ExecStateView, ActionView) {
    (ExecStateView::BranchCheck, ActionView::Git { cmd: GitCmdView::CurrentBranch })
}

/// Enter file operation `op`, or leave processing when none is left: commit
/// only if some file changed, otherwise finish quietly.
pub open spec fn model_processing(ex: ExecutorView, op: int, changed: bool) -> (
    ExecStateView,
    ActionView,
) {
    if op < ex.plan.file_operations.len() {
        (
            ExecStateView::Listing { op, changed },
            ActionView::ListFiles {
                pattern: ex.directory + "/"@ + ex.plan.file_operations[op].pattern,
            },
        )
    } else if changed {
        (ExecStateView::CommitCheck, ActionView::Git { cmd: GitCmdView::LastCommitMessage })
    } else {
        (ExecStateView::Done { changed: false }, ActionView::Stop)
    }
}

/// Read file `next` of operation `op`, or move to the next operation.
pub open spec fn model_reading(
    ex: ExecutorView,
    op: int,
    files: Seq<Seq<char>>,
    next: int,
    changed: bool,
) -> (ExecStateView, ActionView) {
    if next < files.len() {
        (
            ExecStateView::Reading { op, files, next, changed },
            ActionView::ReadFile { path: files[next] },
        )
    } else {
        model_processing(ex, op + 1, changed)
    }
}

/// A failure of the current state's pending action.
pub open spec fn model_env_fail(ex: ExecutorView, s: ExecStateView, message: Seq<char>) -> (
    ExecStateView,
    ActionView,
) {
    (
        ExecStateView::Failed { step: s.step_of(), message: env_fail_message(
            ex,
            s.context_of(),
            message,
        ) },
        ActionView::Stop,
    )
}

/// A version-control invocation that exited non-zero.
pub open spec fn model_git_fail(
    ex: ExecutorView,
    s: ExecStateView,
    stdout: Seq<char>,
    stderr: Seq<char>,
) -> (ExecStateView, ActionView) {
    (
        ExecStateView::Failed { step: s.step_of(), message: git_fail_message(
            ex,
            s.context_of(),
            stdout,
            stderr,
        ) },
        ActionView::Stop,
    )
}

/// The full transition function of the per-repository workflow: from the
/// current state and the driver's answer to the next state and the next
/// requested action.
pub open spec fn model_step(ex: ExecutorView, s: ExecStateView, e: EventView) -> (
    ExecStateView,
    ActionView,
) {
    match e {
        EventView::Fail { message } => model_env_fail(ex, s, message),
        EventView::Init => model_start(ex),
        EventView::Dir { exists } => {
            if exists {
                model_branch_check()
            } else {
                (
                    ExecStateView::Cloning,
                    ActionView::Git {
                        cmd: GitCmdView::Clone { url: ex.repository.ssh_url, dest: ex.directory },
                    },
                )
            }
        },
        EventView::Git { success, stdout, stderr } => {
            if !success {
                model_git_fail(ex, s, stdout, stderr)
            } else {
                match s {
                    ExecStateView::Cloning => model_branch_check(),
                    ExecStateView::BranchCheck => {
                        if trim_spec(stdout) == ex.plan.branch_name {
                            model_processing(ex, 0, false)
                        } else {
                            (
                                ExecStateView::Resetting,
                                ActionView::Git { cmd: GitCmdView::ResetHard },
                            )
                        }
                    },
                    ExecStateView::Resetting => (
                        ExecStateView::CheckingOutDefault,
                        ActionView::Git {
                            cmd: GitCmdView::Checkout { branch: ex.repository.default_branch },
                        },
                    ),
                    ExecStateView::CheckingOutDefault => (
                        ExecStateView::Pulling,
                        ActionView::Git { cmd: GitCmdView::PullRebase },
                    ),
                    ExecStateView::Pulling => (
                        ExecStateView::CreatingBranch,
                        ActionView::Git {
                            cmd: GitCmdView::CheckoutNew { branch: ex.plan.branch_name },
                        },
                    ),
                    ExecStateView::CreatingBranch => model_processing(ex, 0, false),
                    ExecStateView::CommitCheck => {
                        if starts_with_spec(stdout, ex.plan.git_message + "\n"@) {
                            (
                                ExecStateView::Pushing,
                                ActionView::Git {
                                    cmd: GitCmdView::ForcePush { branch: ex.plan.branch_name },
                                },
                            )
                        } else {
                            (
                                ExecStateView::Committing,
                                ActionView::Git {
                                    cmd: GitCmdView::CommitAll { message: ex.plan.git_message },
                                },
                            )
                        }
                    },
                    ExecStateView::Committing => (
                        ExecStateView::Pushing,
                        ActionView::Git {
                            cmd: GitCmdView::ForcePush { branch: ex.plan.branch_name },
                        },
                    ),
                    ExecStateView::Pushing => (
                        ExecStateView::PrCheck,
                        ActionView::IsPrOpen {
                            repository_name: ex.repository.name,
                            branch_name: ex.plan.branch_name,
                        },
                    ),
                    _ => (s, ActionView::Stop),
                }
            }
        },
        EventView::Files { paths } => {
            match s {
                ExecStateView::Listing { op, changed } => model_reading(ex, op, paths, 0, changed),
                _ => (s, ActionView::Stop),
            }
        },
        EventView::FileRead { text } => {
            match s {
                ExecStateView::Reading { op, files, next, changed } => {
                    let ps = ex.plan.file_operations[op].processors;
                    let new_text = processors_apply(ps, text);
                    if processors_changed(ps, text) {
                        (
                            ExecStateView::Writing { op, files, next },
                            ActionView::WriteFile { path: files[next], text: new_text },
                        )
                    } else {
                        model_reading(ex, op, files, next + 1, changed)
                    }
                },
                _ => (s, ActionView::Stop),
            }
        },
        EventView::Written => {
            match s {
                ExecStateView::Writing { op, files, next } => model_reading(
                    ex,
                    op,
                    files,
                    next + 1,
                    true,
                ),
                _ => (s, ActionView::Stop),
            }
        },
        EventView::PrOpen { open } => {
            if open {
                (ExecStateView::Done { changed: true }, ActionView::Stop)
            } else {
                (
                    ExecStateView::PrOpening,
                    ActionView::OpenPr {
                        repository_name: ex.repository.name,
                        base: ex.repository.default_branch,
                        head: ex.plan.branch_name,
                        title: title_of(ex.plan),
                        body: ex.plan.pull_request_body,
                    },
                )
            }
        },
        EventView::PrDone => (ExecStateView::Done { changed: true }, ActionView::Stop),
    }
}

/// Indices inside a state stay within the plan and the listed files.
pub open spec fn state_wf(ex: ExecutorView, s: ExecStateView) -> bool {
    match s {
        ExecStateView::Listing { op, .. } => 0 <= op < ex.plan.file_operations.len(),
        ExecStateView::Reading { op, files, next, .. } => 0 <= op < ex.plan.file_operations.len()
            && 0 <= next < files.len(),
        ExecStateView::Writing { op, files, next } => 0 <= op < ex.plan.file_operations.len() && 0
            <= next < files.len(),
        _ => true,
    }
}

// ---------------------------------------------------------------------------
// The executor
// ---------------------------------------------------------------------------
/// The workflow step a state belongs to, for error reports.
fn workflow_step_of(s: &ExecState) -> (r: WorkflowStep)
    ensures
        r == s@.step_of(),
{
    match s {
        ExecState::Start => WorkflowStep::Clone,
        ExecState::CloneCheck => WorkflowStep::Clone,
        ExecState::Cloning => WorkflowStep::Clone,
        ExecState::BranchCheck => WorkflowStep::EnsureBranch,
        ExecState::Resetting => WorkflowStep::EnsureBranch,
        ExecState::CheckingOutDefault => WorkflowStep::EnsureBranch,
        ExecState::Pulling => WorkflowStep::EnsureBranch,
        ExecState::CreatingBranch => WorkflowStep::EnsureBranch,
        ExecState::Listing { .. } => WorkflowStep::Process,
        ExecState::Reading { .. } => WorkflowStep::Process,
        ExecState::Writing { .. } => WorkflowStep::Process,
        ExecState::CommitCheck => WorkflowStep::Commit,
        ExecState::Committing => WorkflowStep::Commit,
        ExecState::Pushing => WorkflowStep::Push,
        ExecState::PrCheck => WorkflowStep::OpenPr,
        ExecState::PrOpening => WorkflowStep::OpenPr,
        ExecState::Done { .. } => WorkflowStep::Clone,
        ExecState::Failed { .. } => WorkflowStep::Clone,
    }
}

/// The sub-step description used in failure reports.
fn context_of(s: &ExecState) -> (r: &'static str)
    ensures
        r@ == s@.context_of(),
{
    match s {
        ExecState::Start => "failed to start",
        ExecState::CloneCheck => "failed to check working directory",
        ExecState::Cloning => "failed to clone repository",
        ExecState::BranchCheck => "failed to list branch",
        ExecState::Resetting => "failed to reset branch",
        ExecState::CheckingOutDefault => "failed to checkout default branch",
        ExecState::Pulling => "failed to pull changes",
        ExecState::CreatingBranch => "failed to checkout new branch",
        ExecState::Listing { .. } => "failed to list files",
        ExecState::Reading { .. } => "failed to read file",
        ExecState::Writing { .. } => "failed to write file",
        ExecState::CommitCheck => "failed to read last commit",
        ExecState::Committing => "failed to commit changes",
        ExecState::Pushing => "failed to push changes",
        ExecState::PrCheck => "failed to check for an open pull request",
        ExecState::PrOpening => "failed to open pr",
        ExecState::Done { .. } => "finished",
        ExecState::Failed { .. } => "failed",
    }
}

/// The per-repository orchestrator: it owns the plan, one repository record
/// and an exclusive working directory, and steps the workflow one requested
/// action at a time.
pub struct PlanExecutor {
    pub plan: Plan,
    pub repository: Repository,
    pub directory: String,
}

impl View for PlanExecutor {
    type V = ExecutorView;

    open spec fn view(&self) -> ExecutorView {
        ExecutorView { plan: self.plan@, repository: self.repository@, directory: self.directory@ }
    }
}

impl PlanExecutor {
    /// The working directory is `<folder>/repos/<repository name>`, owned by
    /// this executor alone.
    pub fn new(plan: Plan, repository: Repository, repositories_folder: &str) -> (r: PlanExecutor)
        ensures
            r@.plan == plan@,
            r@.repository == repository@,
            r@.directory == repositories_folder@ + "/repos/"@ + repository@.name,
    {
        let directory = concat3(repositories_folder, "/repos/", repository.name.as_str());
        PlanExecutor { plan, repository, directory }
    }

    /// The first action of the workflow.
    pub fn start(&self) -> (r: (ExecState, Action))
        ensures
            r.0@ == model_start(self@).0,
            r.1@ == model_start(self@).1,
            state_wf(self@, r.0@),
    {
        (ExecState::CloneCheck, Action::CheckDir { path: self.directory.clone() })
    }

    fn branch_check(&self) -> (r: (ExecState, Action))
        ensures
            r.0@ == model_branch_check().0,
            r.1@ == model_branch_check().1,
            state_wf(self@, r.0@),
    {
        (ExecState::BranchCheck, Action::Git { cmd: GitCmd::CurrentBranch })
    }

    fn processing(&self, op: usize, changed: bool) -> (r: (ExecState, Action))
        requires
            op <= self@.plan.file_operations.len(),
        ensures
            r.0@ == model_processing(self@, op as int, changed).0,
            r.1@ == model_processing(self@, op as int, changed).1,
            state_wf(self@, r.0@),
    {
        if op < self.plan.file_operations.len() {
            let pattern = concat3(
                self.directory.as_str(),
                "/",
                self.plan.file_operations[op].pattern.as_str(),
            );
            (ExecState::Listing { op, changed }, Action::ListFiles { pattern })
        } else if changed {
            (ExecState::CommitCheck, Action::Git { cmd: GitCmd::LastCommitMessage })
        } else {
            (ExecState::Done { changed: false }, Action::Stop)
        }
    }

    fn reading(&self, op: usize, files: Vec<String>, next: usize, changed: bool) -> (r: (
        ExecState,
        Action,
    ))
        requires
            op < self@.plan.file_operations.len(),
            next <= files.deep_view().len(),
        ensures
            r.0@ == model_reading(self@, op as int, files.deep_view(), next as int, changed).0,
            r.1@ == model_reading(self@, op as int, files.deep_view(), next as int, changed).1,
            state_wf(self@, r.0@),
    {
        if next < files.len() {
            let path = files[next].clone();
            (ExecState::Reading { op, files, next, changed }, Action::ReadFile { path })
        } else {
            let _total: usize = self.plan.file_operations.len();
            self.processing(op + 1, changed)
        }
    }

    fn env_failed(&self, step: WorkflowStep, context: &str, message: &str) -> (r: (
        ExecState,
        Action,
    ))
        ensures
            r.0@ == (ExecStateView::Failed {
                step,
                message: env_fail_message(self@, context@, message@),
            }),
            r.1@ == ActionView::Stop,
    {
        let prefix = crate::strutil::concat4(
            "failed to process repository ",
            self.repository.name.as_str(),
            ": ",
            context,
        );
        let msg = concat3(prefix.as_str(), ": ", message);
        (ExecState::Failed { step, message: msg }, Action::Stop)
    }

    fn git_failed(&self, step: WorkflowStep, context: &str, stdout: &str, stderr: &str) -> (r: (
        ExecState,
        Action,
    ))
        ensures
            r.0@ == (ExecStateView::Failed {
                step,
                message: git_fail_message(self@, context@, stdout@, stderr@),
            }),
            r.1@ == ActionView::Stop,
    {
        let prefix = crate::strutil::concat4(
            "failed to process repository ",
            self.repository.name.as_str(),
            ": ",
            context,
        );
        let msg = crate::strutil::concat5(
            prefix.as_str(),
            "\nstdout: ",
            stdout,
            "\nstderr: ",
            stderr,
        );
        (ExecState::Failed { step, message: msg }, Action::Stop)
    }

    /// One transition of the workflow: consume the answer to the pending
    /// action and produce the next state and the next requested action,
    /// exactly as the model transition function says.
    pub fn step(&self, state: ExecState, event: Event) -> (r: (ExecState, Action))
        requires
            state_wf(self@, state@),
            valid_event(state@, event@),
        ensures
            r.0@ == model_step(self@, state@, event@).0,
            r.1@ == model_step(self@, state@, event@).1,
            state_wf(self@, r.0@),
    {
        match (state, event) {
            (s, Event::Fail { message }) => {
                let step = workflow_step_of(&s);
                let context = context_of(&s);
                self.env_failed(step, context, message.as_str())
            },
            (ExecState::Start, Event::Init) => self.start(),
            (ExecState::CloneCheck, Event::Dir { exists }) => {
                if exists {
                    self.branch_check()
                } else {
                    (
                        ExecState::Cloning,
                        Action::Git {
                            cmd: GitCmd::Clone {
                                url: self.repository.ssh_url.clone(),
                                dest: self.directory.clone(),
                            },
                        },
                    )
                }
            },
            (ExecState::Cloning, Event::Git { success, stdout, stderr }) => {
                if success {
                    self.branch_check()
                } else {
                    self.git_failed(
                        WorkflowStep::Clone,
                        "failed to clone repository",
                        stdout.as_str(),
                        stderr.as_str(),
                    )
                }
            },
            (ExecState::BranchCheck, Event::Git { success, stdout, stderr }) => {
                if success {
                    let current = trim(stdout.as_str());
                    if current == self.plan.branch_name {
                        self.processing(0, false)
                    } else {
                        (ExecState::Resetting, Action::Git { cmd: GitCmd::ResetHard })
                    }
                } else {
                    self.git_failed(
                        WorkflowStep::EnsureBranch,
                        "failed to list branch",
                        stdout.as_str(),
                        stderr.as_str(),
                    )
                }
            },
            (ExecState::Resetting, Event::Git { success, stdout, stderr }) => {
                if success {
                    (
                        ExecState::CheckingOutDefault,
                        Action::Git {
                            cmd: GitCmd::Checkout {
                                branch: self.repository.default_branch.clone(),
                            },
                        },
                    )
                } else {
                    self.git_failed(
                        WorkflowStep::EnsureBranch,
                        "failed to reset branch",
                        stdout.as_str(),
                        stderr.as_str(),
                    )
                }
            },
            (ExecState::CheckingOutDefault, Event::Git { success, stdout, stderr }) => {
                if success {
                    (ExecState::Pulling, Action::Git { cmd: GitCmd::PullRebase })
                } else {
                    self.git_failed(
                        WorkflowStep::EnsureBranch,
                        "failed to checkout default branch",
                        stdout.as_str(),
                        stderr.as_str(),
                    )
                }
            },
            (ExecState::Pulling, Event::Git { success, stdout, stderr }) => {
                if success {
                    (
                        ExecState::CreatingBranch,
                        Action::Git {
                            cmd: GitCmd::CheckoutNew { branch: self.plan.branch_name.clone() },
                        },
                    )
                } else {
                    self.git_failed(
                        WorkflowStep::EnsureBranch,
                        "failed to pull changes",
                        stdout.as_str(),
                        stderr.as_str(),
                    )
                }
            },
            (ExecState::CreatingBranch, Event::Git { success, stdout, stderr }) => {
                if success {
                    self.processing(0, false)
                } else {
                    self.git_failed(
                        WorkflowStep::EnsureBranch,
                        "failed to checkout new branch",
                        stdout.as_str(),
                        stderr.as_str(),
                    )
                }
            },
            (ExecState::Listing { op, changed }, Event::Files { paths }) => {
                self.reading(op, paths, 0, changed)
            },
            (ExecState::Reading { op, files, next, changed }, Event::FileRead { text }) => {
                let operation = &self.plan.file_operations[op];
                let (new_text, file_changed) = crate::plan::apply_processors(
                    &operation.processors,
                    text.as_str(),
                );
                if file_changed {
                    let path = files[next].clone();
                    (
                        ExecState::Writing { op, files, next },
                        Action::WriteFile { path, text: new_text },
                    )
                } else {
                    let _total: usize = files.len();
                    self.reading(op, files, next + 1, changed)
                }
            },
            (ExecState::Writing { op, files, next }, Event::Written) => {
                let _total: usize = files.len();
                self.reading(op, files, next + 1, true)
            },
            (ExecState::CommitCheck, Event::Git { success, stdout, stderr }) => {
                if success {
                    let wanted = concat2(self.plan.git_message.as_str(), "\n");
                    if str_starts_with(stdout.as_str(), wanted.as_str()) {
                        (
                            ExecState::Pushing,
                            Action::Git {
                                cmd: GitCmd::ForcePush { branch: self.plan.branch_name.clone() },
                            },
                        )
                    } else {
                        (
                            ExecState::Committing,
                            Action::Git {
                                cmd: GitCmd::CommitAll {
                                    message: self.plan.git_message.clone(),
                                },
                            },
                        )
                    }
                } else {
                    self.git_failed(
                        WorkflowStep::Commit,
                        "failed to read last commit",
                        stdout.as_str(),
                        stderr.as_str(),
                    )
                }
            },
            (ExecState::Committing, Event::Git { success, stdout, stderr }) => {
                if success {
                    (
                        ExecState::Pushing,
                        Action::Git {
                            cmd: GitCmd::ForcePush { branch: self.plan.branch_name.clone() },
                        },
                    )
                } else {
                    self.git_failed(
                        WorkflowStep::Commit,
                        "failed to commit changes",
                        stdout.as_str(),
                        stderr.as_str(),
                    )
                }
            },
            (ExecState::Pushing, Event::Git { success, stdout, stderr }) => {
                if success {
                    (
                        ExecState::PrCheck,
                        Action::IsPrOpen {
                            repository_name: self.repository.name.clone(),
                            branch_name: self.plan.branch_name.clone(),
                        },
                    )
                } else {
                    self.git_failed(
                        WorkflowStep::Push,
                        "failed to push changes",
                        stdout.as_str(),
                        stderr.as_str(),
                    )
                }
            },
            (ExecState::PrCheck, Event::PrOpen { open }) => {
                if open {
                    (ExecState::Done { changed: true }, Action::Stop)
                } else {
                    let title = match &self.plan.pull_request_title {
                        Some(t) => t.clone(),
                        None => self.plan.git_message.clone(),
                    };
                    let body = match &self.plan.pull_request_body {
                        Some(b) => Some(b.clone()),
                        None => None,
                    };
                    (
                        ExecState::PrOpening,
                        Action::OpenPr {
                            repository_name: self.repository.name.clone(),
                            base: self.repository.default_branch.clone(),
                            head: self.plan.branch_name.clone(),
                            title,
                            body,
                        },
                    )
                }
            },
            (ExecState::PrOpening, Event::PrDone) => (
                ExecState::Done { changed: true },
                Action::Stop,
            ),
            _ => {
                proof {
                    assert(false);
                }
                (ExecState::Start, Action::Stop)
            },
        }
    }
}

} // verus!
