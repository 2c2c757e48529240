use eventually::aggregate::Aggregate as Base;
use eventually::command::Handler;
use eventually::entity::{
    Entity, EntityCommand, EntityCommandError, EntityError, EntityEvent, EntityHandler,
    EntityState,
};
use eventually::optional::{Aggregate, AsAggregate, CommandHandler};

fn named(name: &str) -> EntityState {
    EntityState { exists: true, name: Some(name.to_string()) }
}

fn created() -> EntityState {
    EntityState { exists: true, name: None }
}

#[test]
fn created_on_absent_entity_exists() {
    assert_eq!(Entity::apply_first(EntityEvent::Created), Ok(created()));
}

#[test]
fn renamed_on_existing_entity_takes_name() {
    let r = Entity::apply_next(created(), EntityEvent::Renamed(Some("x".to_string())));
    assert_eq!(r, Ok(named("x")));
}

#[test]
fn rename_command_on_existing_entity_yields_renamed() {
    let r = EntityHandler.handle_next(&named("y"), EntityCommand::Rename("x".to_string()));
    assert_eq!(r, Ok(EntityEvent::Renamed(Some("x".to_string()))));
}

#[test]
fn rename_command_on_absent_entity_fails() {
    let r = EntityHandler.handle_first(EntityCommand::Rename("x".to_string()));
    assert_eq!(r, Err(EntityCommandError::DoesNotExist));
}

#[test]
fn malformed_rename_leaves_state_unchanged() {
    let state = named("y");
    let r = Entity::apply_next(state.clone(), EntityEvent::Renamed(None));
    assert_eq!(r, Err(EntityError::MissingName));
    assert_eq!(state, named("y"));
}

#[test]
fn adapter_on_absent_state_uses_first_transition() {
    let direct = Entity::apply_first(EntityEvent::Created).map(Some);
    let adapted = AsAggregate::<Entity>::apply(None, EntityEvent::Created);
    assert_eq!(adapted, direct);
    assert_eq!(adapted, Ok(Some(created())));
}

#[test]
fn adapter_on_present_state_uses_next_transition() {
    let event = EntityEvent::Renamed(Some("z".to_string()));
    let direct = Entity::apply_next(named("y"), event.clone()).map(Some);
    let adapted = AsAggregate::<Entity>::apply(Some(named("y")), event);
    assert_eq!(adapted, direct);
    assert_eq!(adapted, Ok(Some(named("z"))));
}

#[test]
fn adapter_on_present_state_never_creates() {
    let r = AsAggregate::<Entity>::apply(Some(created()), EntityEvent::Created);
    assert_eq!(r, Err(EntityError::AlreadyCreated));
}

#[test]
fn adapter_keeps_first_transition_error() {
    let event = EntityEvent::Renamed(Some("x".to_string()));
    assert_eq!(Entity::apply_first(event.clone()), Err(EntityError::NotCreated));
    assert_eq!(AsAggregate::<Entity>::apply(None, event), Err(EntityError::NotCreated));
}

#[test]
fn adapter_keeps_next_transition_error() {
    let r = AsAggregate::<Entity>::apply(Some(named("y")), EntityEvent::Renamed(None));
    assert_eq!(r, Err(EntityError::MissingName));
}

#[test]
fn handler_adapter_on_absent_state_uses_first_operation() {
    let handler = EntityHandler.as_handler();
    assert_eq!(handler.handle(&None, EntityCommand::Create), Ok(EntityEvent::Created));
    assert_eq!(
        handler.handle(&None, EntityCommand::Rename("x".to_string())),
        Err(EntityCommandError::DoesNotExist)
    );
}

#[test]
fn handler_adapter_on_present_state_uses_next_operation() {
    let handler = EntityHandler.as_handler();
    assert_eq!(
        handler.handle(&Some(named("y")), EntityCommand::Rename("x".to_string())),
        Ok(EntityEvent::Renamed(Some("x".to_string())))
    );
    assert_eq!(
        handler.handle(&Some(named("y")), EntityCommand::Create),
        Err(EntityCommandError::AlreadyExists)
    );
}

#[test]
fn apply_twice_gives_same_result() {
    let event = EntityEvent::Renamed(Some("x".to_string()));
    let first = AsAggregate::<Entity>::apply(Some(created()), event.clone());
    let second = AsAggregate::<Entity>::apply(Some(created()), event);
    assert_eq!(first, second);
    let failed_once = AsAggregate::<Entity>::apply(None, EntityEvent::Renamed(None));
    let failed_twice = AsAggregate::<Entity>::apply(None, EntityEvent::Renamed(None));
    assert_eq!(failed_once, failed_twice);
}

#[test]
fn present_state_stays_present_over_events() {
    let events = vec![
        EntityEvent::Created,
        EntityEvent::Renamed(Some("a".to_string())),
        EntityEvent::Renamed(None),
        EntityEvent::Renamed(Some("b".to_string())),
        EntityEvent::Created,
    ];
    let mut state: Option<EntityState> = None;
    for event in events {
        match AsAggregate::<Entity>::apply(state.clone(), event) {
            Ok(next) => {
                assert!(next.is_some());
                state = next;
            }
            Err(_) => assert!(state.is_some()),
        }
    }
    assert_eq!(state, Some(named("b")));
}
