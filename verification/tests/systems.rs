use gerust::component::Component;
use gerust::storage::StorageTrait;
use gerust::system::System;
use gerust::world::{ComponentKey, World};
use gerust::{Engine, UpdateStatus};

#[derive(Debug, PartialEq, Eq, Clone)]
enum Comp {
    Position(i32, i32),
    Velocity(i32, i32),
    Hit,
}

impl Component for Comp {}

const POSITION: ComponentKey = 0;
const VELOCITY: ComponentKey = 1;
const HIT: ComponentKey = 2;

enum Sys {
    /// Tags every entity matching Position and Velocity together with Hit.
    TagMoving,
    /// Adds the velocity of every moving entity to its position.
    ApplyVelocity,
    /// Asks the engine to stop.
    Exit,
    /// Tags every entity with Hit.
    TagAll,
}

impl System<Comp> for Sys {
    type Event = ();

    fn update(&self, world: &mut World<Comp>, _events: &[()]) -> Result<UpdateStatus, String> {
        let failure = |_| String::from("world query failed");
        match self {
            Sys::TagMoving => {
                let mask = world.get_mask(POSITION).map_err(failure)?
                    | world.get_mask(VELOCITY).map_err(failure)?;
                for entity in world.entities_matching(mask) {
                    world.add_entity_component(entity, HIT, Comp::Hit).map_err(failure)?;
                }
                Ok(UpdateStatus::Continue)
            }
            Sys::ApplyVelocity => {
                let mask = world.get_mask(POSITION).map_err(failure)?
                    | world.get_mask(VELOCITY).map_err(failure)?;
                for entity in world.entities_matching(mask) {
                    let (vx, vy) = match world.component(VELOCITY, entity).map_err(failure)? {
                        Comp::Velocity(vx, vy) => (*vx, *vy),
                        _ => return Err(String::from("velocity storage holds a non-velocity")),
                    };
                    let (x, y) = match world.component(POSITION, entity).map_err(failure)? {
                        Comp::Position(x, y) => (*x, *y),
                        _ => return Err(String::from("position storage holds a non-position")),
                    };
                    world
                        .add_entity_component(entity, POSITION, Comp::Position(x + vx, y + vy))
                        .map_err(failure)?;
                }
                Ok(UpdateStatus::Continue)
            }
            Sys::Exit => Ok(UpdateStatus::Exit),
            Sys::TagAll => {
                for entity in world.entities_matching(0) {
                    world.add_entity_component(entity, HIT, Comp::Hit).map_err(failure)?;
                }
                Ok(UpdateStatus::Continue)
            }
        }
    }
}

fn world_with_two_entities() -> (Engine<Comp, Sys>, u64, u64) {
    let mut engine: Engine<Comp, Sys> = Engine::new();
    engine.register_component(POSITION).unwrap();
    engine.register_component(VELOCITY).unwrap();
    engine.register_component(HIT).unwrap();

    let still = engine.create_entity();
    engine.add_entity_component(still, POSITION, Comp::Position(1, 2)).unwrap();

    let moving = engine.create_entity();
    engine.add_entity_component(moving, POSITION, Comp::Position(10, 20)).unwrap();
    engine.add_entity_component(moving, VELOCITY, Comp::Velocity(3, 4)).unwrap();

    (engine, still, moving)
}

#[test]
fn combined_mask_matches_only_full_carrier() {
    let (mut engine, still, moving) = world_with_two_entities();
    engine.register_system(Sys::TagMoving);

    engine.update(&[]).unwrap();

    let hit = engine.get_mask(HIT).unwrap();
    assert!(engine.get_entity_mask(still).unwrap() & hit == 0);
    assert!(engine.get_entity_mask(moving).unwrap() & hit == hit);
}

#[test]
fn systems_mutate_matched_components() {
    let (mut engine, still, moving) = world_with_two_entities();
    engine.register_system(Sys::ApplyVelocity);

    engine.update(&[]).unwrap();
    engine.update(&[]).unwrap();

    assert_eq!(
        engine.get_component(POSITION).unwrap().get(moving),
        &Comp::Position(16, 28)
    );
    assert_eq!(
        engine.get_component(POSITION).unwrap().get(still),
        &Comp::Position(1, 2)
    );
}

#[test]
fn exit_short_circuits_the_tick() {
    let (mut engine, still, moving) = world_with_two_entities();
    engine.register_system(Sys::Exit);
    engine.register_system(Sys::TagAll);

    let status = engine.update(&[]);

    assert_eq!(status, Ok(UpdateStatus::Exit));
    let hit = engine.get_mask(HIT).unwrap();
    assert!(engine.get_entity_mask(still).unwrap() & hit == 0);
    assert!(engine.get_entity_mask(moving).unwrap() & hit == 0);
}

#[test]
fn systems_run_in_registration_order() {
    let (mut engine, _, moving) = world_with_two_entities();
    engine.register_system(Sys::ApplyVelocity);
    engine.register_system(Sys::Exit);
    engine.register_system(Sys::TagAll);

    let status = engine.update(&[]);

    assert_eq!(status, Ok(UpdateStatus::Exit));
    assert_eq!(
        engine.get_component(POSITION).unwrap().get(moving),
        &Comp::Position(13, 24)
    );
    let hit = engine.get_mask(HIT).unwrap();
    assert!(engine.get_entity_mask(moving).unwrap() & hit == 0);
}
