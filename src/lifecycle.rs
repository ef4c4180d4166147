use vstd::prelude::*;

verus! {

/// The phases of the gateway process.
#[derive(PartialEq, Eq, Structural, Clone, Copy, Debug)]
pub enum Phase {
    /// The backend client exists but is not usable yet.
    Created,
    /// The client is being brought to the current chain head.
    Synchronizing,
    /// The listeners accept requests.
    Serving,
    /// Interrupted; in-flight calls drain.
    ShuttingDown,
    Terminated,
}

/// What happens to the process.
#[derive(PartialEq, Eq, Structural, Clone, Copy, Debug)]
pub enum Event {
    /// The backend client has been constructed from its configuration.
    ClientBuilt,
    SyncSucceeded,
    SyncFailed,
    /// An external interrupt signal.
    Interrupt,
    /// The last in-flight call has finished.
    Drained,
}

/// What the process must do next.
#[derive(PartialEq, Eq, Structural, Clone, Copy, Debug)]
pub enum Action {
    StartSync,
    StartServing,
    StopListeners,
    /// Exit with success.
    Exit,
    /// Exit with a failure status.
    ExitFailure,
    Nothing,
}

pub open spec fn next(phase: Phase, event: Event) -> (Phase, Action) {
    match (phase, event) {
        (Phase::Created, Event::ClientBuilt) => (Phase::Synchronizing, Action::StartSync),
        (Phase::Synchronizing, Event::SyncSucceeded) => (Phase::Serving, Action::StartServing),
        (Phase::Synchronizing, Event::SyncFailed) => (Phase::Terminated, Action::ExitFailure),
        (Phase::Created, Event::Interrupt) => (Phase::Terminated, Action::ExitFailure),
        (Phase::Synchronizing, Event::Interrupt) => (Phase::Terminated, Action::ExitFailure),
        (Phase::Serving, Event::Interrupt) => (Phase::ShuttingDown, Action::StopListeners),
        (Phase::ShuttingDown, Event::Drained) => (Phase::Terminated, Action::Exit),
        _ => (phase, Action::Nothing),
    }
}

/// The phase after a whole sequence of events.
pub open spec fn run(phase: Phase, events: Seq<Event>) -> Phase
    decreases events.len(),
{
    if events.len() == 0 {
        phase
    } else {
        run(next(phase, events[0]).0, events.drop_first())
    }
}

/// Moves the process on by one event: the new phase and what to do.
pub fn step(phase: Phase, event: Event) -> (r: (Phase, Action))
    ensures
        r == next(phase, event),
{
    match (phase, event) {
        (Phase::Created, Event::ClientBuilt) => (Phase::Synchronizing, Action::StartSync),
        (Phase::Synchronizing, Event::SyncSucceeded) => (Phase::Serving, Action::StartServing),
        (Phase::Synchronizing, Event::SyncFailed) => (Phase::Terminated, Action::ExitFailure),
        (Phase::Created, Event::Interrupt) => (Phase::Terminated, Action::ExitFailure),
        (Phase::Synchronizing, Event::Interrupt) => (Phase::Terminated, Action::ExitFailure),
        (Phase::Serving, Event::Interrupt) => (Phase::ShuttingDown, Action::StopListeners),
        (Phase::ShuttingDown, Event::Drained) => (Phase::Terminated, Action::Exit),
        _ => (phase, Action::Nothing),
    }
}

/// Requests are served in the serving phase only; in any other a request
/// waits or is turned away.
pub fn admits_requests(phase: Phase) -> (r: bool)
    ensures
        r == (phase == Phase::Serving),
{
    match phase {
        Phase::Serving => true,
        _ => false,
    }
}

/// The phases from which serving is only reached through a completed
/// synchronisation.
pub open spec fn before_sync(phase: Phase) -> bool {
    phase == Phase::Created || phase == Phase::Synchronizing
}

proof fn lemma_serving_needs_sync(phase: Phase, events: Seq<Event>)
    requires
        before_sync(phase),
        run(phase, events) == Phase::Serving,
    ensures
        exists|i: int| 0 <= i < events.len() && events[i] == Event::SyncSucceeded,
    decreases events.len(),
{
    if events.len() == 0 {
    } else if events[0] == Event::SyncSucceeded {
        assert(events[0] == Event::SyncSucceeded);
    } else {
        let p = next(phase, events[0]).0;
        assert(before_sync(p) || p == Phase::Terminated);
        if p == Phase::Terminated {
            lemma_terminated_stays(events.drop_first());
        } else {
            lemma_serving_needs_sync(p, events.drop_first());
            let i = choose|i: int|
                0 <= i < events.drop_first().len() && events.drop_first()[i] == Event::SyncSucceeded;
            assert(events[i + 1] == Event::SyncSucceeded);
        }
    }
}

proof fn lemma_terminated_stays(events: Seq<Event>)
    ensures
        run(Phase::Terminated, events) == Phase::Terminated,
    decreases events.len(),
{
    if events.len() > 0 {
        lemma_terminated_stays(events.drop_first());
    }
}

/// No request is admitted before synchronisation has completed: from a
/// freshly created process, whatever events come, a phase that admits
/// requests is reached only after a `SyncSucceeded`.
pub proof fn law_no_service_before_sync(events: Seq<Event>)
    ensures
        run(Phase::Created, events) == Phase::Serving ==> exists|i: int|
            0 <= i < events.len() && events[i] == Event::SyncSucceeded,
{
    if run(Phase::Created, events) == Phase::Serving {
        lemma_serving_needs_sync(Phase::Created, events);
    }
}

} // verus!
