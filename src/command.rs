use vstd::prelude::*;

use crate::aggregate::Aggregate;

verus! {

/// Foundation contract of a command handler: given the current state of an
/// entity and a command, it decides on the one event that the command leads
/// to, or refuses the command.
///
/// Handling may consult collaborators outside the entity, so its result is
/// described by a relation rather than by a function: `yields` tells which
/// results a call may come back with.
pub trait Handler: Sized {
    /// Request to change the entity.
    type Command;

    /// Entity whose state the command is checked against.
    type Aggregate: Aggregate;

    /// Reason why a command is refused.
    type Error;

    /// Whether handling `command` against `state` may come back with `r`.
    spec fn yields(
        &self,
        state: <Self::Aggregate as Aggregate>::State,
        command: Self::Command,
        r: Result<<Self::Aggregate as Aggregate>::Event, Self::Error>,
    ) -> bool;

    /// Handles `command` against `state`, yielding the new event or an error.
    /// The state is only read.
    fn handle(&self, state: &<Self::Aggregate as Aggregate>::State, command: Self::Command) -> (r:
        Result<<Self::Aggregate as Aggregate>::Event, Self::Error>)
        ensures
            self.yields(*state, command, r),
    ;
}

} // verus!
