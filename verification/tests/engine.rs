use gerust::component::Component;
use gerust::system::System;
use gerust::world::{ComponentKey, EcsError, World};
use gerust::{Engine, UpdateStatus};

#[derive(Debug, PartialEq, Eq)]
struct BasicComponent();

impl Component for BasicComponent {}

impl BasicComponent {
    fn new() -> BasicComponent {
        BasicComponent {}
    }
}

struct Idle;

impl System<BasicComponent> for Idle {
    type Event = ();

    fn update(
        &self,
        _world: &mut World<BasicComponent>,
        _events: &[()],
    ) -> Result<UpdateStatus, String> {
        Ok(UpdateStatus::Continue)
    }
}

const BASIC: ComponentKey = 1;

#[test]
fn new_engine() {
    let engine: Engine<BasicComponent, Idle> = Engine::default();

    assert!(engine.entities() == 0);
    assert!(engine.component_count() == 0);
    assert!(engine.next_free() == 0);
}

#[test]
fn lib_create_one_entity() {
    let mut engine: Engine<BasicComponent, Idle> = Engine::default();

    let entity = engine.create_entity();

    assert!(entity == 0);
    assert!(engine.contains_entity(entity));
}

#[test]
fn lib_create_two_entity() {
    let mut engine: Engine<BasicComponent, Idle> = Engine::default();

    let entity1 = engine.create_entity();
    let entity2 = engine.create_entity();

    assert!(entity1 == 0);
    assert!(entity2 == 1);
}

#[test]
fn lib_register_one_component() {
    let mut engine: Engine<BasicComponent, Idle> = Engine::default();

    engine.register_component(BASIC).unwrap();

    assert!(engine.component_count() == 1);
    assert!(engine.get_mask(BASIC) == Ok(1));
}

#[test]
fn lib_get_one_component() {
    let mut engine: Engine<BasicComponent, Idle> = Engine::default();

    engine.register_component(BASIC).unwrap();

    assert!(engine.get_component(BASIC).is_ok());
}

#[test]
fn lib_get_component_not_registered() {
    let engine: Engine<BasicComponent, Idle> = Engine::default();

    assert_eq!(
        engine.get_component(BASIC).err(),
        Some(EcsError::UnregisteredComponent(BASIC))
    );
}

#[test]
fn lib_add_entity_component() {
    let mut engine: Engine<BasicComponent, Idle> = Engine::default();
    engine.register_component(BASIC).unwrap();
    let entity = engine.create_entity();

    engine.add_entity_component(entity, BASIC, BasicComponent::new()).unwrap();

    assert!(engine.get_entity_mask(entity) == engine.get_mask(BASIC));
}

#[test]
fn lib_remove_entity_component() {
    let mut engine: Engine<BasicComponent, Idle> = Engine::default();
    engine.register_component(BASIC).unwrap();
    let entity = engine.create_entity();
    engine.add_entity_component(entity, BASIC, BasicComponent::new()).unwrap();

    engine.remove_entity_component(entity, BASIC).unwrap();

    assert!(engine.get_entity_mask(entity) == Ok(0));
}

#[test]
fn update_with_no_systems_continues() {
    let mut engine: Engine<BasicComponent, Idle> = Engine::default();

    assert_eq!(engine.update(&[]), Ok(UpdateStatus::Continue));
}

#[test]
fn register_system_counts() {
    let mut engine: Engine<BasicComponent, Idle> = Engine::default();

    engine.register_system(Idle);
    engine.register_system(Idle);

    assert!(engine.system_count() == 2);
}
