use vstd::prelude::*;

verus! {

/// Where the application stands in its start-up.
#[derive(Clone, Copy, Debug, PartialEq, Eq, Structural)]
pub enum Phase {
    /// Nothing built yet.
    NotStarted,
    /// The runtime was built, the command registered, and the event loop runs.
    Running,
    /// The runtime could not be built; the process stops with a diagnostic.
    Aborted,
    /// The event loop ended because the windows were closed.
    Closed,
}

/// What the runtime reports back to the start-up logic.
#[derive(Clone, Copy, Debug, PartialEq, Eq, Structural)]
pub enum StartupEvent {
    /// The runtime was built with the command registered.
    Built,
    /// Building the runtime failed (for instance, no display is available).
    BuildFailed,
    /// The event loop returned after the last window closed.
    LoopEnded,
}

/// What the caller does next.
#[derive(Clone, Copy, Debug, PartialEq, Eq, Structural)]
pub enum StartupAction {
    /// Hand the thread to the event loop until it returns.
    RunLoop,
    /// Stop the process at once with a failure status and the start-up diagnostic.
    Abort,
    /// Leave normally, with a success status.
    ExitNormally,
    /// The event has no meaning in this phase: do nothing.
    Ignore,
}

/// The transition table of start-up: a build either starts the loop or aborts,
/// the end of the loop closes the application, and nothing else moves.
pub open spec fn next(phase: Phase, event: StartupEvent) -> (Phase, StartupAction) {
    match (phase, event) {
        (Phase::NotStarted, StartupEvent::Built) => (Phase::Running, StartupAction::RunLoop),
        (Phase::NotStarted, StartupEvent::BuildFailed) => (Phase::Aborted, StartupAction::Abort),
        (Phase::Running, StartupEvent::LoopEnded) => (Phase::Closed, StartupAction::ExitNormally),
        _ => (phase, StartupAction::Ignore),
    }
}

/// The phase reached from `phase` after each of `events` in turn.
pub open spec fn phase_after(phase: Phase, events: Seq<StartupEvent>) -> Phase
    decreases events.len(),
{
    if events.len() == 0 {
        phase
    } else {
        phase_after(next(phase, events[0]).0, events.drop_first())
    }
}

/// Decides the next phase and action from the current phase and what the
/// runtime reported.
pub fn step(phase: Phase, event: StartupEvent) -> (r: (Phase, StartupAction))
    ensures
        r == next(phase, event),
        phase == Phase::NotStarted && event == StartupEvent::Built ==> r == (
        Phase::Running,
        StartupAction::RunLoop,
        ),
        phase == Phase::NotStarted && event == StartupEvent::BuildFailed ==> r == (
        Phase::Aborted,
        StartupAction::Abort,
        ),
        phase == Phase::Running && event == StartupEvent::LoopEnded ==> r == (
        Phase::Closed,
        StartupAction::ExitNormally,
        ),
{
    match (phase, event) {
        (Phase::NotStarted, StartupEvent::Built) => (Phase::Running, StartupAction::RunLoop),
        (Phase::NotStarted, StartupEvent::BuildFailed) => (Phase::Aborted, StartupAction::Abort),
        (Phase::Running, StartupEvent::LoopEnded) => (Phase::Closed, StartupAction::ExitNormally),
        _ => (phase, StartupAction::Ignore),
    }
}

/// Whether registered commands are answered in this phase: only while the
/// event loop runs.
pub fn serves_commands(phase: Phase) -> (r: bool)
    ensures
        r == (phase == Phase::Running),
{
    match phase {
        Phase::Running => true,
        _ => false,
    }
}

/// The diagnostic written when the runtime cannot be built.
pub fn startup_failure_message() -> (r: &'static str)
    ensures
        r@ == "error while running tauri application"@,
{
    "error while running tauri application"
}

/// Once start-up has left `NotStarted`, no sequence of events brings it back:
/// there is no retry.
pub proof fn lemma_no_return_to_not_started(phase: Phase, events: Seq<StartupEvent>)
    requires
        phase != Phase::NotStarted,
    ensures
        phase_after(phase, events) != Phase::NotStarted,
    decreases events.len(),
{
    if events.len() > 0 {
        lemma_no_return_to_not_started(next(phase, events[0]).0, events.drop_first());
    }
}

/// An abort is final, and so is a normal close: no event moves the
/// application out of either.
pub proof fn lemma_end_phases_are_final(phase: Phase, events: Seq<StartupEvent>)
    requires
        phase == Phase::Aborted || phase == Phase::Closed,
    ensures
        phase_after(phase, events) == phase,
    decreases events.len(),
{
    if events.len() > 0 {
        lemma_end_phases_are_final(phase, events.drop_first());
    }
}

} // verus!
