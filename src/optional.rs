use vstd::prelude::*;

use crate::aggregate;
use crate::command;

verus! {

/// State of an optional [`Aggregate`].
pub type StateOf<A> = <A as Aggregate>::State;

/// Event of an optional [`Aggregate`].
pub type EventOf<A> = <A as Aggregate>::Event;

/// Wraps a successful state as present; an error passes through unchanged.
pub open spec fn wrap<S, E>(r: Result<S, E>) -> Result<Option<S>, E> {
    match r {
        Ok(s) => Ok(Some(s)),
        Err(e) => Err(e),
    }
}

/// Variation of the foundation aggregate whose state is absent until the
/// first event has been applied. The two cases are two operations, so an
/// implementation never has to check for presence itself.
pub trait Aggregate: Sized {
    /// State of the entity once it exists (not itself optional).
    type State;

    /// Fact that already happened to the entity.
    type Event;

    /// Reason why an event cannot be applied.
    type Error;

    /// What applying `event` to an entity with no state gives.
    spec fn first_transition(event: Self::Event) -> Result<Self::State, Self::Error>;

    /// What applying `event` to an existing `state` gives.
    spec fn next_transition(state: Self::State, event: Self::Event) -> Result<
        Self::State,
        Self::Error,
    >;

    /// Handles an event when no state exists yet.
    fn apply_first(event: Self::Event) -> (r: Result<Self::State, Self::Error>)
        ensures
            r == Self::first_transition(event),
    ;

    /// Handles an event when a state exists, and updates it.
    fn apply_next(state: Self::State, event: Self::Event) -> (r: Result<Self::State, Self::Error>)
        ensures
            r == Self::next_transition(state, event),
    ;
}

/// Adapter of an optional [`Aggregate`] to the foundation
/// [`aggregate::Aggregate`], whose state is `Option<A::State>`.
pub struct AsAggregate<A>(core::marker::PhantomData<A>);

impl<A: Aggregate> aggregate::Aggregate for AsAggregate<A> {
    type State = Option<A::State>;

    type Event = A::Event;

    type Error = A::Error;

    /// Absent state goes to the first transition, present state to the next
    /// one; the result is wrapped as present, and an error is kept as it is.
    open spec fn transition(state: Option<A::State>, event: A::Event) -> Result<
        Option<A::State>,
        A::Error,
    > {
        match state {
            None => wrap(A::first_transition(event)),
            Some(s) => wrap(A::next_transition(s, event)),
        }
    }

    fn apply(state: Option<A::State>, event: A::Event) -> (r: Result<Option<A::State>, A::Error>) {
        let next = match state {
            None => A::apply_first(event),
            Some(s) => A::apply_next(s, event),
        };
        match next {
            Ok(s) => Ok(Some(s)),
            Err(e) => Err(e),
        }
    }
}

/// Variation of the foundation command handler for an optional [`Aggregate`]:
/// a command against an entity that does not exist yet and one against an
/// existing entity are two operations. As with the foundation handler, each
/// operation is described by the results it may come back with.
pub trait CommandHandler: Sized {
    /// Request to change the entity.
    type Command;

    /// Entity whose state the command is checked against.
    type Aggregate: Aggregate;

    /// Reason why a command is refused.
    type Error;

    /// Whether handling `command` with no state may come back with `r`.
    spec fn first_yields(
        &self,
        command: Self::Command,
        r: Result<EventOf<Self::Aggregate>, Self::Error>,
    ) -> bool;

    /// Whether handling `command` against `state` may come back with `r`.
    spec fn next_yields(
        &self,
        state: StateOf<Self::Aggregate>,
        command: Self::Command,
        r: Result<EventOf<Self::Aggregate>, Self::Error>,
    ) -> bool;

    /// Handles a command when the entity has no state yet.
    fn handle_first(&self, command: Self::Command) -> (r: Result<EventOf<Self::Aggregate>, Self::Error>)
        ensures
            self.first_yields(command, r),
    ;

    /// Handles a command when the state of the entity is present; the state
    /// is only read.
    fn handle_next(&self, state: &StateOf<Self::Aggregate>, command: Self::Command) -> (r:
        Result<EventOf<Self::Aggregate>, Self::Error>)
        ensures
            self.next_yields(*state, command, r),
    ;

    /// Adapts this handler to the foundation [`command::Handler`].
    fn as_handler(self) -> (r: AsHandler<Self>)
        ensures
            r.inner() == self,
    {
        AsHandler(self)
    }
}

/// Adapter of a [`CommandHandler`] to the foundation [`command::Handler`],
/// built by [`CommandHandler::as_handler`].
pub struct AsHandler<H>(H);

impl<H> AsHandler<H> {
    /// The adapted handler.
    pub closed spec fn inner(self) -> H {
        self.0
    }
}

impl<H: CommandHandler> command::Handler for AsHandler<H> {
    type Command = H::Command;

    type Aggregate = AsAggregate<H::Aggregate>;

    type Error = H::Error;

    /// Absent state goes to the first operation, present state to the next
    /// one, and whatever that operation may give is what the adapter may give.
    open spec fn yields(
        &self,
        state: Option<StateOf<H::Aggregate>>,
        command: H::Command,
        r: Result<EventOf<H::Aggregate>, H::Error>,
    ) -> bool {
        match state {
            None => self.inner().first_yields(command, r),
            Some(s) => self.inner().next_yields(s, command, r),
        }
    }

    fn handle(&self, state: &Option<StateOf<H::Aggregate>>, command: H::Command) -> (r:
        Result<EventOf<H::Aggregate>, H::Error>) {
        match state {
            None => self.0.handle_first(command),
            Some(s) => self.0.handle_next(s, command),
        }
    }
}

/// Applying an event to an absent state through the adapter gives the first
/// transition of that event, wrapped as present; the next transition is not
/// involved.
pub proof fn lemma_apply_absent<A: Aggregate>(event: A::Event)
    ensures
        <AsAggregate<A> as aggregate::Aggregate>::transition(None, event) == wrap(
            A::first_transition(event),
        ),
{
}

/// Applying an event to a present state through the adapter gives the next
/// transition of the unwrapped state, wrapped as present; the first
/// transition is not involved.
pub proof fn lemma_apply_present<A: Aggregate>(state: A::State, event: A::Event)
    ensures
        <AsAggregate<A> as aggregate::Aggregate>::transition(Some(state), event) == wrap(
            A::next_transition(state, event),
        ),
{
}

/// The adapter fails with exactly the error that the operation it dispatches
/// to fails with, and with no other.
pub proof fn lemma_apply_error_transparent<A: Aggregate>(
    state: Option<A::State>,
    event: A::Event,
    error: A::Error,
)
    ensures
        <AsAggregate<A> as aggregate::Aggregate>::transition(state, event) == Err::<
            Option<A::State>,
            A::Error,
        >(error) <==> match state {
            None => A::first_transition(event) == Err::<A::State, A::Error>(error),
            Some(s) => A::next_transition(s, event) == Err::<A::State, A::Error>(error),
        },
{
}

/// A successful application through the adapter never yields an absent
/// state.
pub proof fn lemma_apply_success_is_present<A: Aggregate>(state: Option<A::State>, event: A::Event)
    ensures
        <AsAggregate<A> as aggregate::Aggregate>::transition(state, event) is Ok ==> <AsAggregate<
            A,
        > as aggregate::Aggregate>::transition(state, event)->Ok_0 is Some,
{
}

/// Once the state of an entity is present, no sequence of successful
/// applications through the adapter brings it back to absent.
pub proof fn lemma_present_stays_present<A: Aggregate>(state: A::State, events: Seq<A::Event>)
    ensures
        aggregate::fold_events::<AsAggregate<A>>(Some(state), events) is Ok
            ==> aggregate::fold_events::<AsAggregate<A>>(Some(state), events)->Ok_0 is Some,
    decreases events.len(),
{
    if events.len() > 0 {
        match A::next_transition(state, events[0]) {
            Ok(next) => lemma_present_stays_present::<A>(next, events.drop_first()),
            Err(_) => {},
        }
    }
}

/// Handling a command with no state through the adapter may give exactly
/// what the first operation may give; the next operation is not involved.
pub proof fn lemma_handle_absent<H: CommandHandler>(
    handler: AsHandler<H>,
    command: H::Command,
    r: Result<EventOf<H::Aggregate>, H::Error>,
)
    ensures
        <AsHandler<H> as command::Handler>::yields(&handler, None, command, r) <==> handler.inner().first_yields(command, r),
{
}

/// Handling a command against a present state through the adapter may give
/// exactly what the next operation may give on the unwrapped state; the first
/// operation is not involved.
pub proof fn lemma_handle_present<H: CommandHandler>(
    handler: AsHandler<H>,
    state: StateOf<H::Aggregate>,
    command: H::Command,
    r: Result<EventOf<H::Aggregate>, H::Error>,
)
    ensures
        <AsHandler<H> as command::Handler>::yields(&handler, Some(state), command, r) <==> handler.inner().next_yields(state, command, r),
{
}

/// The handling adapter may fail with exactly the errors that the operation
/// it dispatches to may fail with.
pub proof fn lemma_handle_error_transparent<H: CommandHandler>(
    handler: AsHandler<H>,
    state: Option<StateOf<H::Aggregate>>,
    command: H::Command,
    error: H::Error,
)
    ensures
        <AsHandler<H> as command::Handler>::yields(&handler, state, command, Err(error)) <==> match state {
            None => handler.inner().first_yields(command, Err(error)),
            Some(s) => handler.inner().next_yields(s, command, Err(error)),
        },
{
}

} // verus!
