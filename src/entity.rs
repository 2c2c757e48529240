use vstd::prelude::*;

use crate::optional::{Aggregate, CommandHandler};

verus! {

/// State of a named entity.
#[derive(Clone, Debug, PartialEq)]
pub struct EntityState {
    pub exists: bool,
    pub name: Option<String>,
}

/// Facts about a named entity.
#[derive(Clone, Debug, PartialEq)]
pub enum EntityEvent {
    Created,
    Renamed(Option<String>),
}

/// Requests to change a named entity.
#[derive(Clone, Debug, PartialEq)]
pub enum EntityCommand {
    Create,
    Rename(String),
}

/// Why an event cannot be applied to a named entity.
#[derive(Clone, Copy, Debug, PartialEq, Eq)]
pub enum EntityError {
    /// A rename arrived before the entity was created.
    NotCreated,
    /// A creation arrived for an entity that already exists.
    AlreadyCreated,
    /// A rename carries no name.
    MissingName,
}

/// Why a command on a named entity is refused.
#[derive(Clone, Copy, Debug, PartialEq, Eq)]
pub enum EntityCommandError {
    /// The command needs an existing entity and there is none.
    DoesNotExist,
    /// The command creates an entity that already exists.
    AlreadyExists,
}

/// A named entity: created once, then renamed any number of times.
pub struct Entity;

impl Aggregate for Entity {
    type State = EntityState;

    type Event = EntityEvent;

    type Error = EntityError;

    open spec fn first_transition(event: EntityEvent) -> Result<EntityState, EntityError> {
        match event {
            EntityEvent::Created => Ok(EntityState { exists: true, name: None }),
            EntityEvent::Renamed(_) => Err(EntityError::NotCreated),
        }
    }

    open spec fn next_transition(state: EntityState, event: EntityEvent) -> Result<
        EntityState,
        EntityError,
    > {
        match event {
            EntityEvent::Created => Err(EntityError::AlreadyCreated),
            EntityEvent::Renamed(None) => Err(EntityError::MissingName),
            EntityEvent::Renamed(Some(name)) => Ok(EntityState { exists: state.exists, name: Some(name) }),
        }
    }

    fn apply_first(event: EntityEvent) -> (r: Result<EntityState, EntityError>) {
        match event {
            EntityEvent::Created => Ok(EntityState { exists: true, name: None }),
            EntityEvent::Renamed(_) => Err(EntityError::NotCreated),
        }
    }

    fn apply_next(state: EntityState, event: EntityEvent) -> (r: Result<EntityState, EntityError>) {
        match event {
            EntityEvent::Created => Err(EntityError::AlreadyCreated),
            EntityEvent::Renamed(None) => Err(EntityError::MissingName),
            EntityEvent::Renamed(Some(name)) => Ok(EntityState { exists: state.exists, name: Some(name) }),
        }
    }
}

/// Decides on commands for a named entity.
pub struct EntityHandler;

impl EntityHandler {
    /// The one result of a command on an entity that does not exist yet.
    pub open spec fn first_outcome(command: EntityCommand) -> Result<EntityEvent, EntityCommandError> {
        match command {
            EntityCommand::Create => Ok(EntityEvent::Created),
            EntityCommand::Rename(_) => Err(EntityCommandError::DoesNotExist),
        }
    }

    /// The one result of a command on an existing entity.
    pub open spec fn next_outcome(command: EntityCommand) -> Result<EntityEvent, EntityCommandError> {
        match command {
            EntityCommand::Create => Err(EntityCommandError::AlreadyExists),
            EntityCommand::Rename(name) => Ok(EntityEvent::Renamed(Some(name))),
        }
    }
}

impl CommandHandler for EntityHandler {
    type Command = EntityCommand;

    type Aggregate = Entity;

    type Error = EntityCommandError;

    open spec fn first_yields(
        &self,
        command: EntityCommand,
        r: Result<EntityEvent, EntityCommandError>,
    ) -> bool {
        r == Self::first_outcome(command)
    }

    open spec fn next_yields(
        &self,
        state: EntityState,
        command: EntityCommand,
        r: Result<EntityEvent, EntityCommandError>,
    ) -> bool {
        r == Self::next_outcome(command)
    }

    fn handle_first(&self, command: EntityCommand) -> (r: Result<EntityEvent, EntityCommandError>) {
        match command {
            EntityCommand::Create => Ok(EntityEvent::Created),
            EntityCommand::Rename(_) => Err(EntityCommandError::DoesNotExist),
        }
    }

    fn handle_next(&self, state: &EntityState, command: EntityCommand) -> (r: Result<
        EntityEvent,
        EntityCommandError,
    >) {
        match command {
            EntityCommand::Create => Err(EntityCommandError::AlreadyExists),
            EntityCommand::Rename(name) => Ok(EntityEvent::Renamed(Some(name))),
        }
    }
}

} // verus!
