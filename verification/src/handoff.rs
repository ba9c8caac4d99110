use vstd::prelude::*;

verus! {

/// How far the one fetch of a run has come.
#[derive(Clone, Copy, Debug, PartialEq, Eq)]
pub enum FetchPhase {
    /// Nothing has been launched.
    Idle,
    /// The fetch runs in the background; its result has not arrived.
    Fetching,
    /// The result has been handed to the consumer.
    Delivered,
    /// The consumer went away before a result reached it.
    Abandoned,
}

/// What can happen to the coordinator.
pub enum FetchEvent {
    /// The application starts.
    Start,
    /// A result arrives from the background.
    Arrival,
    /// The consumer is torn down.
    Teardown,
}

/// The phase after an event.
pub open spec fn next_phase(phase: FetchPhase, event: FetchEvent) -> FetchPhase {
    match (phase, event) {
        (FetchPhase::Idle, FetchEvent::Start) => FetchPhase::Fetching,
        (FetchPhase::Fetching, FetchEvent::Arrival) => FetchPhase::Delivered,
        (FetchPhase::Idle, FetchEvent::Teardown) => FetchPhase::Abandoned,
        (FetchPhase::Fetching, FetchEvent::Teardown) => FetchPhase::Abandoned,
        _ => phase,
    }
}

/// Whether an event makes the coordinator launch the background fetch.
pub open spec fn launches(phase: FetchPhase, event: FetchEvent) -> bool {
    phase is Idle && event is Start
}

/// Whether an event makes the coordinator hand a result to the consumer.
pub open spec fn delivers(phase: FetchPhase, event: FetchEvent) -> bool {
    phase is Fetching && event is Arrival
}

/// The consumer's end of the one-shot handoff: it says when to launch the one
/// background fetch, and lets the one result through to the consumer.
pub struct FetchCoordinator {
    phase: FetchPhase,
}

impl FetchCoordinator {
    pub closed spec fn phase_spec(&self) -> FetchPhase {
        self.phase
    }

    /// A coordinator that has launched nothing.
    pub fn new() -> (coordinator: Self)
        ensures
            coordinator.phase_spec() is Idle,
    {
        FetchCoordinator { phase: FetchPhase::Idle }
    }

    #[verifier::when_used_as_spec(phase_spec)]
    pub fn phase(&self) -> (phase: FetchPhase)
        ensures
            phase == self.phase_spec(),
    {
        self.phase
    }

    /// The application starts. The result says whether the background fetch is
    /// to be launched now: it is on the first call, and never again.
    pub fn start(&mut self) -> (launch: bool)
        ensures
            launch == launches(old(self).phase(), FetchEvent::Start),
            final(self).phase() == next_phase(old(self).phase(), FetchEvent::Start),
    {
        match self.phase {
            FetchPhase::Idle => {
                self.phase = FetchPhase::Fetching;
                true
            },
            _ => false,
        }
    }

    /// A result arrives. It is handed on, whole, where a fetch is under way
    /// and nothing was handed on before; otherwise it is dropped, which is no
    /// error.
    pub fn deliver<T>(&mut self, result: T) -> (handed: Option<T>)
        ensures
            handed == (if delivers(old(self).phase(), FetchEvent::Arrival) {
                Some(result)
            } else {
                None
            }),
            final(self).phase() == next_phase(old(self).phase(), FetchEvent::Arrival),
    {
        match self.phase {
            FetchPhase::Fetching => {
                self.phase = FetchPhase::Delivered;
                Some(result)
            },
            _ => None,
        }
    }

    /// The consumer is torn down. A result that arrives later is dropped.
    pub fn teardown(&mut self)
        ensures
            final(self).phase() == next_phase(old(self).phase(), FetchEvent::Teardown),
    {
        match self.phase {
            FetchPhase::Idle => {
                self.phase = FetchPhase::Abandoned;
            },
            FetchPhase::Fetching => {
                self.phase = FetchPhase::Abandoned;
            },
            _ => {},
        }
    }
}

/// The phase after a run of events, from a given phase.
pub open spec fn phase_after(phase: FetchPhase, events: Seq<FetchEvent>) -> FetchPhase
    decreases events.len(),
{
    if events.len() == 0 {
        phase
    } else {
        next_phase(phase_after(phase, events.drop_last()), events.last())
    }
}

/// How many times a run of events launches the background fetch.
pub open spec fn launch_count(phase: FetchPhase, events: Seq<FetchEvent>) -> nat
    decreases events.len(),
{
    if events.len() == 0 {
        0
    } else {
        launch_count(phase, events.drop_last()) + (if launches(
            phase_after(phase, events.drop_last()),
            events.last(),
        ) {
            1nat
        } else {
            0nat
        })
    }
}

/// How many results a run of events hands to the consumer.
pub open spec fn delivery_count(phase: FetchPhase, events: Seq<FetchEvent>) -> nat
    decreases events.len(),
{
    if events.len() == 0 {
        0
    } else {
        delivery_count(phase, events.drop_last()) + (if delivers(
            phase_after(phase, events.drop_last()),
            events.last(),
        ) {
            1nat
        } else {
            0nat
        })
    }
}

/// Whatever happens in a run, and in whatever order: the fetch is launched at
/// most once, at most one result reaches the consumer, and none reaches it
/// unless the fetch was launched.
pub proof fn lemma_at_most_one_delivery(events: Seq<FetchEvent>)
    ensures
        launch_count(FetchPhase::Idle, events) <= 1,
        delivery_count(FetchPhase::Idle, events) <= 1,
        delivery_count(FetchPhase::Idle, events) <= launch_count(FetchPhase::Idle, events),
        delivery_count(FetchPhase::Idle, events) == 1 <==> phase_after(FetchPhase::Idle, events)
            is Delivered,
        phase_after(FetchPhase::Idle, events) is Idle ==> launch_count(FetchPhase::Idle, events)
            == 0,
        phase_after(FetchPhase::Idle, events) is Fetching ==> launch_count(
            FetchPhase::Idle,
            events,
        ) == 1,
    decreases events.len(),
{
    if events.len() > 0 {
        lemma_at_most_one_delivery(events.drop_last());
    }
}

/// Once a result was handed on, or the consumer went away, nothing that
/// happens later launches or delivers anything.
pub proof fn lemma_settled_stays_settled(phase: FetchPhase, events: Seq<FetchEvent>)
    requires
        phase is Delivered || phase is Abandoned,
    ensures
        phase_after(phase, events) == phase,
        launch_count(phase, events) == 0,
        delivery_count(phase, events) == 0,
    decreases events.len(),
{
    if events.len() > 0 {
        lemma_settled_stays_settled(phase, events.drop_last());
    }
}

} // verus!
