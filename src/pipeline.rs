//! The install-and-run session as a state machine.
//!
//! The session decides; the caller performs. Each call of [`Session::step`]
//! takes what happened last (an [`Event`]) and returns what must be done next
//! (an [`Action`]). The caller creates and removes the sandbox directory,
//! runs the installer and the executable, lists the directory and reports
//! back. Once a sandbox exists, the session ends only after asking for its
//! removal and hearing that it is gone, whichever stage failed.
use vstd::prelude::*;

use crate::locate::{find_first_executable, stem_of};
use crate::name::{is_valid_name, valid_crate_name};

verus! {

/// The program that installs a package into a chosen root directory.
pub const INSTALLER: &'static str = "cargo";

/// Why a session ended without running the executable to completion.
#[derive(Clone, Copy, Debug, PartialEq, Eq, Structural)]
pub enum PipelineError {
    /// The package name breaks the name grammar; nothing was done.
    InvalidPackageName,
    /// The temporary directory could not be created.
    SandboxCreationError,
    /// The installer or the executable could not be launched.
    ProcessSpawnError,
    /// The installer ran and reported failure (no code: killed by a signal).
    InstallFailed { status_code: Option<i32> },
    /// The install left no entry in `bin/` whose file stem is the package name.
    ExecutableNotFound,
    /// The working directory for the run could not be created.
    DirectoryCreationError,
}

/// The exit code of the executable (`None` where it had none, as when it
/// was killed by a signal), or why the session stopped before.
pub type Outcome = Result<Option<i32>, PipelineError>;

/// Where a session stands.
#[derive(Clone, Copy, Debug, PartialEq, Eq, Structural)]
pub enum Phase {
    /// Created, nothing done yet.
    Start,
    /// Waiting for the sandbox directory.
    AcquiringSandbox,
    /// Waiting for the installer to exit.
    Installing,
    /// Waiting for the listing of the sandbox's `bin/` directory.
    Locating,
    /// Waiting for the run's working directory.
    PreparingCwd,
    /// Waiting for the executable to exit.
    Running,
    /// The outcome is known; waiting for the sandbox to be removed.
    Cleaning,
    /// Over: the outcome has been handed out.
    Done,
}

/// What the caller reports to the session.
#[derive(Debug)]
pub enum Event {
    /// Start the session.
    Begin,
    /// The sandbox directory was created at `root`.
    SandboxCreated { root: String },
    /// The sandbox directory could not be created.
    SandboxFailed,
    /// The process asked for could not be launched.
    SpawnFailed,
    /// The installer exited with `code` (`None`: no exit code).
    InstallExited { code: Option<i32> },
    /// The names of the entries of the sandbox's `bin/`, in directory order.
    BinListed { file_names: Vec<String> },
    /// The sandbox's `bin/` could not be read.
    BinUnreadable,
    /// The working directory was created.
    CwdCreated,
    /// The working directory could not be created.
    CwdFailed,
    /// The executable exited with `code` (`None`: no exit code).
    RunExited { code: Option<i32> },
    /// The sandbox directory and everything in it is gone.
    SandboxRemoved,
}

/// What the session asks the caller to do.
#[derive(Debug)]
pub enum Action {
    /// Create a fresh, uniquely named temporary directory.
    AcquireSandbox,
    /// Run `program` with `args` and wait for it to exit.
    Install { program: String, args: Vec<String> },
    /// List the entries of the sandbox's `bin/`.
    ListBin,
    /// Create the directory `cwd/` in the sandbox.
    CreateCwd,
    /// Run the entry `file_name` of the sandbox's `bin/` with `args`, in
    /// the sandbox's `cwd/`, and wait for it to exit.
    Run { file_name: String, args: Vec<String> },
    /// Remove the sandbox directory with everything in it.
    RemoveSandbox,
    /// The session is over with `outcome`.
    Finish { outcome: Outcome },
    /// The event did not fit the phase; nothing changed, nothing to do.
    Ignore,
}

/// One install-and-run of a named package.
pub struct Session {
    /// The package to install and run.
    pub name: String,
    /// The arguments handed, in order and unchanged, to the executable.
    pub args: Vec<String>,
    /// Where the session stands.
    pub phase: Phase,
    /// The chosen entry of `bin/`, once located.
    pub executable: String,
    /// The outcome, once known (meaningful in `Cleaning` and `Done`).
    pub outcome: Outcome,
}

/// The character sequences of a sequence of strings.
pub open spec fn views(v: Seq<String>) -> Seq<Seq<char>> {
    v.map_values(|s: String| s@)
}

/// The arguments of the installer for package `name` and root `root`.
pub open spec fn install_args(name: Seq<char>, root: Seq<char>) -> Seq<Seq<char>> {
    seq!["install"@, name, "--root"@, root]
}

/// The phases in which a sandbox directory exists.
pub open spec fn holds_sandbox(p: Phase) -> bool {
    match p {
        Phase::Installing | Phase::Locating | Phase::PreparingCwd | Phase::Running
        | Phase::Cleaning => true,
        _ => false,
    }
}

/// `i` is the position of the first entry of `names` whose stem is `name`.
pub open spec fn is_first_match(name: Seq<char>, names: Seq<String>, i: int) -> bool {
    &&& 0 <= i < names.len()
    &&& stem_of(names[i]@) == name
    &&& forall|j: int| 0 <= j < i ==> stem_of(#[trigger] names[j]@) != name
}

/// Some entry of `names` has the stem `name`.
pub open spec fn has_match(name: Seq<char>, names: Seq<String>) -> bool {
    exists|j: int| 0 <= j < names.len() && stem_of(#[trigger] names[j]@) == name
}

/// `post` keeps the name, the arguments and the executable of `pre` and
/// stands in `phase` with `outcome`.
pub open spec fn moved(pre: Session, post: Session, phase: Phase, outcome: Outcome) -> bool {
    &&& post.name == pre.name
    &&& post.args == pre.args
    &&& post.executable == pre.executable
    &&& post.phase == phase
    &&& post.outcome == outcome
}

/// Enter `Cleaning` with `outcome` and ask for the sandbox's removal.
pub open spec fn cleans_up(pre: Session, post: Session, a: Action, outcome: Outcome) -> bool {
    moved(pre, post, Phase::Cleaning, outcome) && a == Action::RemoveSandbox
}

/// The transition of a session from `pre` on event `e` to `post`, asking `a`.
pub open spec fn step_spec(pre: Session, e: Event, post: Session, a: Action) -> bool {
    match (pre.phase, e) {
        (Phase::Start, Event::Begin) => if is_valid_name(pre.name@) {
            moved(pre, post, Phase::AcquiringSandbox, pre.outcome) && a == Action::AcquireSandbox
        } else {
            &&& moved(pre, post, Phase::Done, Err(PipelineError::InvalidPackageName))
            &&& a == (Action::Finish { outcome: Err(PipelineError::InvalidPackageName) })
        },
        (Phase::AcquiringSandbox, Event::SandboxCreated { root }) => {
            &&& moved(pre, post, Phase::Installing, pre.outcome)
            &&& a matches Action::Install { program, args }
            &&& program@ == INSTALLER@
            &&& views(args@) == install_args(pre.name@, root@)
        },
        (Phase::AcquiringSandbox, Event::SandboxFailed) => {
            &&& moved(pre, post, Phase::Done, Err(PipelineError::SandboxCreationError))
            &&& a == (Action::Finish { outcome: Err(PipelineError::SandboxCreationError) })
        },
        (Phase::Installing, Event::InstallExited { code }) => if code == Some(0i32) {
            moved(pre, post, Phase::Locating, pre.outcome) && a == Action::ListBin
        } else {
            cleans_up(pre, post, a, Err(PipelineError::InstallFailed { status_code: code }))
        },
        (Phase::Installing, Event::SpawnFailed) => {
            cleans_up(pre, post, a, Err(PipelineError::ProcessSpawnError))
        },
        (Phase::Locating, Event::BinListed { file_names }) => if has_match(
            pre.name@,
            file_names@,
        ) {
            &&& post.name == pre.name
            &&& post.args == pre.args
            &&& post.phase == Phase::PreparingCwd
            &&& post.outcome == pre.outcome
            &&& exists|i: int|
                is_first_match(pre.name@, file_names@, i) && post.executable
                    == #[trigger] file_names@[i]
            &&& a == Action::CreateCwd
        } else {
            cleans_up(pre, post, a, Err(PipelineError::ExecutableNotFound))
        },
        (Phase::Locating, Event::BinUnreadable) => {
            cleans_up(pre, post, a, Err(PipelineError::ExecutableNotFound))
        },
        (Phase::PreparingCwd, Event::CwdCreated) => {
            &&& moved(pre, post, Phase::Running, pre.outcome)
            &&& a matches Action::Run { file_name, args }
            &&& file_name == pre.executable
            &&& args@ == pre.args@
        },
        (Phase::PreparingCwd, Event::CwdFailed) => {
            cleans_up(pre, post, a, Err(PipelineError::DirectoryCreationError))
        },
        (Phase::Running, Event::RunExited { code }) => cleans_up(pre, post, a, Ok(code)),
        (Phase::Running, Event::SpawnFailed) => {
            cleans_up(pre, post, a, Err(PipelineError::ProcessSpawnError))
        },
        (Phase::Cleaning, Event::SandboxRemoved) => {
            &&& moved(pre, post, Phase::Done, pre.outcome)
            &&& a == (Action::Finish { outcome: pre.outcome })
        },
        _ => post == pre && a == Action::Ignore,
    }
}

fn copy_strings(v: &Vec<String>) -> (r: Vec<String>)
    ensures
        r@ == v@,
{
    let mut r: Vec<String> = Vec::new();
    let mut i: usize = 0;
    while i < v.len()
        invariant
            i <= v@.len(),
            r@ == v@.subrange(0, i as int),
        decreases v@.len() - i,
    {
        r.push(v[i].clone());
        i = i + 1;
        assert(r@ =~= v@.subrange(0, i as int));
    }
    assert(r@ =~= v@);
    r
}

fn text(s: &str) -> (r: String)
    ensures
        r@ == s@,
{
    s.to_owned()
}

impl Session {
    /// A session, not yet begun, for package `name` and run arguments `args`.
    pub fn new(name: String, args: Vec<String>) -> (r: Session)
        ensures
            r.name == name,
            r.args == args,
            r.phase == Phase::Start,
    {
        Session {
            name,
            args,
            phase: Phase::Start,
            executable: String::new(),
            outcome: Ok(None),
        }
    }

    /// Advances the session by `event` and returns what to do next.
    pub fn step(&mut self, event: Event) -> (a: Action)
        ensures
            step_spec(*old(self), event, *final(self), a),
    {
        match (self.phase, event) {
            (Phase::Start, Event::Begin) => {
                if valid_crate_name(self.name.as_str()) {
                    self.phase = Phase::AcquiringSandbox;
                    Action::AcquireSandbox
                } else {
                    self.finish_now(Err(PipelineError::InvalidPackageName))
                }
            },
            (Phase::AcquiringSandbox, Event::SandboxCreated { root }) => {
                let mut args: Vec<String> = Vec::new();
                args.push(text("install"));
                args.push(self.name.clone());
                args.push(text("--root"));
                args.push(root);
                assert(views(args@) =~= install_args(self.name@, root@));
                self.phase = Phase::Installing;
                Action::Install { program: text(INSTALLER), args }
            },
            (Phase::AcquiringSandbox, Event::SandboxFailed) => {
                self.finish_now(Err(PipelineError::SandboxCreationError))
            },
            (Phase::Installing, Event::InstallExited { code }) => {
                match code {
                    Some(c) if c == 0 => {
                        self.phase = Phase::Locating;
                        Action::ListBin
                    },
                    _ => self.clean_up(Err(PipelineError::InstallFailed { status_code: code })),
                }
            },
            (Phase::Installing, Event::SpawnFailed) => {
                self.clean_up(Err(PipelineError::ProcessSpawnError))
            },
            (Phase::Locating, Event::BinListed { file_names }) => {
                match find_first_executable(self.name.as_str(), &file_names) {
                    Some(i) => {
                        self.executable = file_names[i].clone();
                        self.phase = Phase::PreparingCwd;
                        assert(is_first_match(self.name@, file_names@, i as int));
                        Action::CreateCwd
                    },
                    None => self.clean_up(Err(PipelineError::ExecutableNotFound)),
                }
            },
            (Phase::Locating, Event::BinUnreadable) => {
                self.clean_up(Err(PipelineError::ExecutableNotFound))
            },
            (Phase::PreparingCwd, Event::CwdCreated) => {
                self.phase = Phase::Running;
                Action::Run { file_name: self.executable.clone(), args: copy_strings(&self.args) }
            },
            (Phase::PreparingCwd, Event::CwdFailed) => {
                self.clean_up(Err(PipelineError::DirectoryCreationError))
            },
            (Phase::Running, Event::RunExited { code }) => self.clean_up(Ok(code)),
            (Phase::Running, Event::SpawnFailed) => {
                self.clean_up(Err(PipelineError::ProcessSpawnError))
            },
            (Phase::Cleaning, Event::SandboxRemoved) => {
                let outcome = self.outcome;
                self.finish_now(outcome)
            },
            _ => Action::Ignore,
        }
    }

    fn clean_up(&mut self, outcome: Outcome) -> (a: Action)
        ensures
            cleans_up(*old(self), *final(self), a, outcome),
    {
        self.phase = Phase::Cleaning;
        self.outcome = outcome;
        Action::RemoveSandbox
    }

    fn finish_now(&mut self, outcome: Outcome) -> (a: Action)
        ensures
            moved(*old(self), *final(self), Phase::Done, outcome),
            a == (Action::Finish { outcome }),
    {
        self.phase = Phase::Done;
        self.outcome = outcome;
        Action::Finish { outcome }
    }
}

} // verus!
