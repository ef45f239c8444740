//! The node topology dispatcher: which engine to build for a role, and the
//! lifecycle of a node from configuration to a clean stop.

use vstd::prelude::*;
use crate::binding::RuntimeBinding;
use crate::options::RunOptions;

verus! {

/// The topology of a node.
#[derive(Clone, Copy, Debug, PartialEq, Eq, Structural)]
pub enum NodeRole {
    Light,
    Full,
}

/// What the engine is to be built with.
#[derive(Clone, Copy, Debug, PartialEq, Eq)]
pub enum EnginePlan {
    /// A light client. It takes no run options: it neither discovers
    /// authorities nor votes on finality.
    Light { binding: RuntimeBinding },
    /// A full participant, with the run options as they were given.
    Full {
        binding: RuntimeBinding,
        authority_discovery_enabled: bool,
        finality_voter_pause: Option<(u32, u32)>,
    },
}

/// The engine plan for a role: a light client drops the options, a full
/// node takes both of them unchanged.
pub open spec fn engine_plan_of(
    role: NodeRole,
    binding: RuntimeBinding,
    options: RunOptions,
) -> EnginePlan {
    match role {
        NodeRole::Light => EnginePlan::Light { binding },
        NodeRole::Full => EnginePlan::Full {
            binding,
            authority_discovery_enabled: options.authority_discovery_enabled,
            finality_voter_pause: options.finality_voter_pause,
        },
    }
}

/// The engine plan for `role`.
pub fn plan_engine(role: NodeRole, binding: RuntimeBinding, options: RunOptions) -> (plan:
    EnginePlan)
    ensures
        plan == engine_plan_of(role, binding, options),
{
    match role {
        NodeRole::Light => EnginePlan::Light { binding },
        NodeRole::Full => EnginePlan::Full {
            binding,
            authority_discovery_enabled: options.authority_discovery_enabled,
            finality_voter_pause: options.finality_voter_pause,
        },
    }
}

/// Where a node stands in its lifecycle.
#[derive(Clone, Copy, Debug, PartialEq, Eq, Structural)]
pub enum Phase {
    Configuring,
    Starting,
    Running,
    ShuttingDown,
    Stopped,
}

/// What happened outside the dispatcher.
#[derive(Clone, Debug, PartialEq, Eq)]
pub enum Event {
    /// Binding, specification and options are all valid; the engine is to
    /// be built to this plan.
    Configured(EnginePlan),
    /// The engine was built and a task handle obtained.
    EngineStarted,
    /// Building the engine failed, with the engine's message.
    EngineFailed(String),
    /// The process was asked to terminate.
    CancelRequested,
    /// The task handle reports that it has drained.
    Drained,
}

/// What the caller is to do next.
#[derive(Clone, Copy, Debug, PartialEq, Eq)]
pub enum Action {
    /// Build the engine to this plan.
    BuildEngine(EnginePlan),
    AwaitCancellation,
    RequestDrain,
    /// Leave the process with exit code 0.
    ExitClean,
}

/// The engine could not be started.
#[derive(Clone, Debug, PartialEq, Eq)]
pub struct ServiceStartError {
    pub message: String,
}

/// The result of one event.
#[derive(Clone, Debug, PartialEq, Eq)]
pub enum Step {
    /// The node enters the next phase, and the caller performs the action.
    Advance(Phase, Action),
    /// The start failed: the lifecycle ends here and `Running` is never
    /// entered.
    Fail(ServiceStartError),
    /// The event does not belong to the phase; nothing changes.
    Reject,
}

/// The place of a phase in the lifecycle.
pub open spec fn phase_rank(phase: Phase) -> nat {
    match phase {
        Phase::Configuring => 0,
        Phase::Starting => 1,
        Phase::Running => 2,
        Phase::ShuttingDown => 3,
        Phase::Stopped => 4,
    }
}

/// The transition table.
pub open spec fn step_of(phase: Phase, event: Event) -> Step {
    match (phase, event) {
        (Phase::Configuring, Event::Configured(plan)) => Step::Advance(
            Phase::Starting,
            Action::BuildEngine(plan),
        ),
        (Phase::Starting, Event::EngineStarted) => Step::Advance(
            Phase::Running,
            Action::AwaitCancellation,
        ),
        (Phase::Starting, Event::EngineFailed(message)) => Step::Fail(
            ServiceStartError { message },
        ),
        (Phase::Running, Event::CancelRequested) => Step::Advance(
            Phase::ShuttingDown,
            Action::RequestDrain,
        ),
        (Phase::ShuttingDown, Event::Drained) => Step::Advance(Phase::Stopped, Action::ExitClean),
        _ => Step::Reject,
    }
}

/// Takes one event in one phase.
pub fn step(phase: Phase, event: Event) -> (result: Step)
    ensures
        result == step_of(phase, event),
{
    match (phase, event) {
        (Phase::Configuring, Event::Configured(plan)) => Step::Advance(
            Phase::Starting,
            Action::BuildEngine(plan),
        ),
        (Phase::Starting, Event::EngineStarted) => Step::Advance(
            Phase::Running,
            Action::AwaitCancellation,
        ),
        (Phase::Starting, Event::EngineFailed(message)) => Step::Fail(
            ServiceStartError { message },
        ),
        (Phase::Running, Event::CancelRequested) => Step::Advance(
            Phase::ShuttingDown,
            Action::RequestDrain,
        ),
        (Phase::ShuttingDown, Event::Drained) => Step::Advance(Phase::Stopped, Action::ExitClean),
        _ => Step::Reject,
    }
}

/// The phase reached from `phase` by a list of events, or `None` where one
/// of them fails the start or is rejected.
pub open spec fn phase_after(phase: Phase, events: Seq<Event>) -> Option<Phase>
    decreases events.len(),
{
    if events.len() == 0 {
        Some(phase)
    } else {
        match step_of(phase, events[0]) {
            Step::Advance(next, _) => phase_after(next, events.skip(1)),
            _ => None,
        }
    }
}

/// Every transition moves exactly one phase forward, and each phase is
/// entered by one event only. So `Running` is entered from `Starting` alone,
/// by a started engine, and `Stopped` from `ShuttingDown` alone, by a drain.
pub proof fn lemma_step_order(phase: Phase, event: Event)
    ensures
        step_of(phase, event) matches Step::Advance(next, action) ==> {
            &&& phase_rank(next) == phase_rank(phase) + 1
            &&& (next == Phase::Starting <==> event is Configured)
            &&& (event matches Event::Configured(plan) ==> action == Action::BuildEngine(plan))
            &&& (action is BuildEngine <==> next == Phase::Starting)
            &&& (next == Phase::Running <==> event == Event::EngineStarted)
            &&& (next == Phase::ShuttingDown <==> event == Event::CancelRequested)
            &&& (next == Phase::Stopped <==> event == Event::Drained)
            &&& (action == Action::ExitClean <==> next == Phase::Stopped)
        },
        step_of(phase, event) is Fail <==> phase == Phase::Starting && event is EngineFailed,
        phase == Phase::Stopped ==> step_of(phase, event) == Step::Reject,
{
}

/// A list of events that is taken without failure or rejection moves the
/// node forward by as many phases as it has events.
pub proof fn lemma_phase_after_rank(phase: Phase, events: Seq<Event>)
    requires
        phase_after(phase, events) is Some,
    ensures
        phase_rank(phase_after(phase, events)->Some_0) == phase_rank(phase) + events.len(),
    decreases events.len(),
{
    if events.len() > 0 {
        lemma_step_order(phase, events[0]);
        match step_of(phase, events[0]) {
            Step::Advance(next, _) => {
                lemma_phase_after_rank(next, events.skip(1));
            },
            _ => {},
        }
    }
}

/// Whether the events are those of a clean run: configured, engine
/// started, cancellation, drained, and nothing else.
pub open spec fn is_clean_run(events: Seq<Event>) -> bool {
    &&& events.len() == 4
    &&& events[0] is Configured
    &&& events[1] == Event::EngineStarted
    &&& events[2] == Event::CancelRequested
    &&& events[3] == Event::Drained
}

/// From `Configuring`, the node is stopped after exactly the four events of
/// a clean run, in their order.
pub proof fn lemma_clean_run(events: Seq<Event>)
    ensures
        phase_after(Phase::Configuring, events) == Some(Phase::Stopped) <==> is_clean_run(events),
{
    if phase_after(Phase::Configuring, events) == Some(Phase::Stopped) {
        lemma_phase_after_rank(Phase::Configuring, events);
        assert(events.len() == 4);
        let e1 = events.skip(1);
        let e2 = e1.skip(1);
        let e3 = e2.skip(1);
        assert(e1[0] == events[1]);
        assert(e2[0] == events[2]);
        assert(e3[0] == events[3]);
        lemma_step_order(Phase::Configuring, events[0]);
        assert(step_of(Phase::Configuring, events[0]) is Advance);
        assert(phase_after(Phase::Starting, e1) == Some(Phase::Stopped));
        lemma_step_order(Phase::Starting, events[1]);
        assert(step_of(Phase::Starting, e1[0]) is Advance);
        assert(phase_after(Phase::Running, e2) == Some(Phase::Stopped));
        lemma_step_order(Phase::Running, events[2]);
        assert(step_of(Phase::Running, e2[0]) is Advance);
        assert(phase_after(Phase::ShuttingDown, e3) == Some(Phase::Stopped));
        lemma_step_order(Phase::ShuttingDown, events[3]);
        assert(step_of(Phase::ShuttingDown, e3[0]) is Advance);
        assert(is_clean_run(events));
    }
    if is_clean_run(events) {
        let e1 = events.skip(1);
        let e2 = e1.skip(1);
        let e3 = e2.skip(1);
        let e4 = e3.skip(1);
        assert(e1[0] == events[1]);
        assert(e2[0] == events[2]);
        assert(e3[0] == events[3]);
        assert(e4.len() == 0);
        assert(phase_after(Phase::Stopped, e4) == Some(Phase::Stopped));
        assert(phase_after(Phase::ShuttingDown, e3) == Some(Phase::Stopped));
        assert(phase_after(Phase::Running, e2) == Some(Phase::Stopped));
        assert(phase_after(Phase::Starting, e1) == Some(Phase::Stopped));
    }
}

} // verus!
