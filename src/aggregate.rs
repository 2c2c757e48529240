use vstd::prelude::*;

verus! {

/// Foundation contract of an event-sourced entity: its state is rebuilt by
/// applying events one at a time, each application being a pure function of
/// the previous state and the event.
pub trait Aggregate: Sized {
    /// State of the entity.
    type State;

    /// Fact that already happened to the entity.
    type Event;

    /// Reason why an event cannot be applied to a state.
    type Error;

    /// What applying `event` to `state` gives.
    spec fn transition(state: Self::State, event: Self::Event) -> Result<Self::State, Self::Error>;

    /// Applies `event` to `state`, yielding the next state or an error.
    fn apply(state: Self::State, event: Self::Event) -> (r: Result<Self::State, Self::Error>)
        ensures
            r == Self::transition(state, event),
    ;
}

/// State reached by applying `events` in order, starting from `state`; the
/// first event that cannot be applied stops the fold with its error.
pub open spec fn fold_events<G: Aggregate>(state: G::State, events: Seq<G::Event>) -> Result<
    G::State,
    G::Error,
>
    decreases events.len(),
{
    if events.len() == 0 {
        Ok(state)
    } else {
        match G::transition(state, events[0]) {
            Ok(next) => fold_events::<G>(next, events.drop_first()),
            Err(e) => Err(e),
        }
    }
}

/// Applying an event is a pure function of the state and the event: two
/// applications of the same event to the same state give the same result.
pub proof fn lemma_apply_deterministic<G: Aggregate>(
    state: G::State,
    event: G::Event,
    r1: Result<G::State, G::Error>,
    r2: Result<G::State, G::Error>,
)
    requires
        r1 == G::transition(state, event),
        r2 == G::transition(state, event),
    ensures
        r1 == r2,
{
}

} // verus!
