use gerust::component::Component;
use gerust::storage::StorageTrait;
use gerust::system::System;
use gerust::world::{ComponentKey, World};
use gerust::{Engine, UpdateStatus};

#[derive(Debug, PartialEq, Eq)]
struct Position {
    x: u32,
    y: u32,
}

impl Component for Position {}

impl Position {
    fn new(x: u32, y: u32) -> Position {
        Position { x, y }
    }
}

const POSITION: ComponentKey = 0;

struct Gravity {}

impl System<Position> for Gravity {
    type Event = ();

    fn update(&self, world: &mut World<Position>, _events: &[()]) -> Result<UpdateStatus, String> {
        let mask = match world.get_mask(POSITION) {
            Ok(mask) => mask,
            Err(_) => return Err(String::from("position component not registered")),
        };

        for entity in world.entities_matching(mask) {
            world.get_component_mut(POSITION).get_mut(entity).y -= 10;
        }
        Ok(UpdateStatus::Continue)
    }
}

#[test]
fn basic_ecs() {
    let mut engine = Engine::default();

    engine.register_component(POSITION).unwrap();

    let entity = engine.create_entity();
    engine.add_entity_component(entity, POSITION, Position::new(0, 100)).unwrap();

    engine.register_system(Gravity {});

    for _ in 0..9 {
        engine.update(&[]).unwrap();
    }

    assert!(engine.get_component(POSITION).unwrap().get(entity) == &Position::new(0, 10));
}
