//! The start-up sequence: bootstrap, start, wait for readiness, then show the
//! backend; the first failing step ends it.
use vstd::prelude::*;

verus! {

/// The address the window is sent to once the backend is ready.
pub const BACKEND_URL: &'static str = "http://127.0.0.1:7860";

/// The step at which start-up gave up.
#[derive(PartialEq, Eq, Structural, Clone, Copy, Debug)]
pub enum LaunchFailure {
    Bootstrap,
    Spawn,
    NotReady,
}

/// Where start-up stands.
#[derive(PartialEq, Eq, Structural, Clone, Copy, Debug)]
pub enum LaunchStage {
    /// Make the backend's environment present.
    Bootstrap,
    /// Start the backend.
    Spawn,
    /// Wait until the backend answers.
    Probe,
    /// The backend answers: show it.
    Ready,
    /// Start-up stopped at a step.
    Failed(LaunchFailure),
}

pub open spec fn next_stage(stage: LaunchStage, ok: bool) -> LaunchStage {
    match stage {
        LaunchStage::Bootstrap => if ok {
            LaunchStage::Spawn
        } else {
            LaunchStage::Failed(LaunchFailure::Bootstrap)
        },
        LaunchStage::Spawn => if ok {
            LaunchStage::Probe
        } else {
            LaunchStage::Failed(LaunchFailure::Spawn)
        },
        LaunchStage::Probe => if ok {
            LaunchStage::Ready
        } else {
            LaunchStage::Failed(LaunchFailure::NotReady)
        },
        LaunchStage::Ready => LaunchStage::Ready,
        LaunchStage::Failed(f) => LaunchStage::Failed(f),
    }
}

/// The stage start-up begins with.
pub fn first_stage() -> (r: LaunchStage)
    ensures
        r == LaunchStage::Bootstrap,
{
    LaunchStage::Bootstrap
}

/// The stage after the current step's work has succeeded (`ok`) or failed;
/// a finished start-up stays as it is.
pub fn advance(stage: LaunchStage, ok: bool) -> (r: LaunchStage)
    ensures
        r == next_stage(stage, ok),
{
    match stage {
        LaunchStage::Bootstrap => if ok {
            LaunchStage::Spawn
        } else {
            LaunchStage::Failed(LaunchFailure::Bootstrap)
        },
        LaunchStage::Spawn => if ok {
            LaunchStage::Probe
        } else {
            LaunchStage::Failed(LaunchFailure::Spawn)
        },
        LaunchStage::Probe => if ok {
            LaunchStage::Ready
        } else {
            LaunchStage::Failed(LaunchFailure::NotReady)
        },
        LaunchStage::Ready => LaunchStage::Ready,
        LaunchStage::Failed(f) => LaunchStage::Failed(f),
    }
}

/// Whether start-up has ended, ready or not.
pub fn is_finished(stage: LaunchStage) -> (r: bool)
    ensures
        r == (stage is Ready || stage is Failed),
{
    match stage {
        LaunchStage::Ready | LaunchStage::Failed(_) => true,
        _ => false,
    }
}

/// The window is shown only when every step succeeded; otherwise start-up
/// ends at the first step that failed, and later steps change nothing.
pub proof fn lemma_ready_only_after_every_step(bootstrap_ok: bool, spawn_ok: bool, probe_ok: bool)
    ensures
        (next_stage(next_stage(next_stage(LaunchStage::Bootstrap, bootstrap_ok), spawn_ok), probe_ok)
            == LaunchStage::Ready) == (bootstrap_ok && spawn_ok && probe_ok),
        !bootstrap_ok ==> next_stage(
            next_stage(next_stage(LaunchStage::Bootstrap, bootstrap_ok), spawn_ok),
            probe_ok,
        ) == LaunchStage::Failed(LaunchFailure::Bootstrap),
        bootstrap_ok && !spawn_ok ==> next_stage(
            next_stage(next_stage(LaunchStage::Bootstrap, bootstrap_ok), spawn_ok),
            probe_ok,
        ) == LaunchStage::Failed(LaunchFailure::Spawn),
        bootstrap_ok && spawn_ok && !probe_ok ==> next_stage(
            next_stage(next_stage(LaunchStage::Bootstrap, bootstrap_ok), spawn_ok),
            probe_ok,
        ) == LaunchStage::Failed(LaunchFailure::NotReady),
{
}

} // verus!
