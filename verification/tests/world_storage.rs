use gerust::world::component::Component;
use gerust::world::storage::{Storage, StorageTrait};

#[derive(Debug, PartialEq, Eq)]
struct BasicComponent(u32);

impl Component for BasicComponent {
    fn new() -> BasicComponent {
        BasicComponent(0)
    }
}

#[test]
fn storage_add_entities() {
    let mut storage: Storage<BasicComponent> = Storage::new();

    storage.add_entity(10);
    storage.add_entity(3);
    storage.add_entity(5420);

    assert!(storage.len() == 3)
}

#[test]
fn added_entity_starts_fresh() {
    let mut storage: Storage<BasicComponent> = Storage::new();

    storage.add_entity(8);
    storage.get_mut(8).0 = 3;
    storage.add_entity(8);

    assert_eq!(storage.get(8), &BasicComponent(0));
    assert!(storage.len() == 1);
}

#[test]
fn remove_entity_drops_spawned_value() {
    let mut storage: Storage<BasicComponent> = Storage::new();

    storage.add_entity(2);
    storage.remove_entity(2);

    assert!(storage.len() == 0);
}
