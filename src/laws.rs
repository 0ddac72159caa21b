//! Properties of a whole session, proved from the transition relation.
use vstd::prelude::*;

use crate::locate::stem_of;
use crate::pipeline::{holds_sandbox, step_spec, Action, Event, Phase, PipelineError, Session};

verus! {

/// The sandbox is never leaked. A session comes to hold a sandbox only when
/// told that one was created. It stops holding it only in `Cleaning`, when
/// told that the sandbox is gone, and then finishes. Whenever the outcome is
/// settled while a sandbox is held, the session asks for the sandbox's
/// removal. A finished session holds none and stays finished.
pub proof fn lemma_sandbox_released(pre: Session, e: Event, post: Session, a: Action)
    requires
        step_spec(pre, e, post, a),
    ensures
        a is Finish ==> post.phase == Phase::Done && !holds_sandbox(post.phase),
        !holds_sandbox(pre.phase) && holds_sandbox(post.phase) ==> e is SandboxCreated,
        holds_sandbox(pre.phase) && !holds_sandbox(post.phase) ==> {
            &&& pre.phase == Phase::Cleaning
            &&& e is SandboxRemoved
            &&& post.phase == Phase::Done
            &&& a == (Action::Finish { outcome: pre.outcome })
        },
        holds_sandbox(pre.phase) && pre.phase != Phase::Cleaning && post.phase == Phase::Cleaning
            ==> a == Action::RemoveSandbox,
        holds_sandbox(pre.phase) && post.outcome != pre.outcome ==> post.phase == Phase::Cleaning
            && a == Action::RemoveSandbox,
        pre.phase == Phase::Done ==> post == pre && a == Action::Ignore,
{
}

/// A failed install (a spawn failure, or an exit other than code 0) ends
/// the session with that failure: the next thing asked is the sandbox's
/// removal, and after it nothing but finishing is ever asked, so the
/// located executable is never run.
pub proof fn lemma_install_failure_stops(
    pre: Session,
    e: Event,
    post: Session,
    a: Action,
    e2: Event,
    post2: Session,
    a2: Action,
)
    requires
        pre.phase == Phase::Installing,
        e is SpawnFailed || (e matches Event::InstallExited { code } && code != Some(0i32)),
        step_spec(pre, e, post, a),
        step_spec(post, e2, post2, a2),
    ensures
        a == Action::RemoveSandbox,
        post.phase == Phase::Cleaning,
        e matches Event::InstallExited { code } ==> post.outcome == Err::<Option<i32>, _>(
            PipelineError::InstallFailed { status_code: code },
        ),
        e is SpawnFailed ==> post.outcome == Err::<Option<i32>, _>(PipelineError::ProcessSpawnError),
        e2 is SandboxRemoved ==> a2 == (Action::Finish { outcome: post.outcome }),
        !(e2 is SandboxRemoved) ==> post2 == post && a2 == Action::Ignore,
{
}

/// Once a session is cleaning up or done, its outcome is fixed and it asks
/// for no more work: it only finishes or ignores what it is told.
pub proof fn lemma_no_work_after_outcome(pre: Session, e: Event, post: Session, a: Action)
    requires
        pre.phase == Phase::Cleaning || pre.phase == Phase::Done,
        step_spec(pre, e, post, a),
    ensures
        post.phase == Phase::Cleaning || post.phase == Phase::Done,
        post.outcome == pre.outcome,
        a is Finish || a is Ignore,
{
}

/// An install that left no entry in `bin/` whose stem is the package name
/// ends the session with `ExecutableNotFound`, after the sandbox's removal.
pub proof fn lemma_missing_executable(
    pre: Session,
    file_names: Vec<String>,
    post: Session,
    a: Action,
    post2: Session,
    a2: Action,
)
    requires
        pre.phase == Phase::Locating,
        forall|j: int|
            0 <= j < file_names@.len() ==> stem_of(#[trigger] file_names@[j]@) != pre.name@,
        step_spec(pre, Event::BinListed { file_names }, post, a),
        step_spec(post, Event::SandboxRemoved, post2, a2),
    ensures
        a == Action::RemoveSandbox,
        post.phase == Phase::Cleaning,
        post2.phase == Phase::Done,
        a2 == (Action::Finish {
            outcome: Err::<Option<i32>, _>(PipelineError::ExecutableNotFound),
        }),
{
}

/// The run gets exactly the session's arguments, and the executable's exit
/// status, whatever it is, becomes the session's outcome unchanged once the
/// sandbox is removed.
pub proof fn lemma_status_relayed(
    pre: Session,
    post: Session,
    a: Action,
    code: Option<i32>,
    post2: Session,
    a2: Action,
    post3: Session,
    a3: Action,
)
    requires
        pre.phase == Phase::PreparingCwd,
        step_spec(pre, Event::CwdCreated, post, a),
        step_spec(post, Event::RunExited { code }, post2, a2),
        step_spec(post2, Event::SandboxRemoved, post3, a3),
    ensures
        a matches Action::Run { file_name, args } && file_name == pre.executable && args@
            == pre.args@,
        a2 == Action::RemoveSandbox,
        a3 == (Action::Finish { outcome: Ok::<_, PipelineError>(code) }),
        post3.phase == Phase::Done,
{
}

} // verus!
