use gerust::entity::Entity;

#[test]
fn new_entity() {
    let entity = Entity::new();

    assert!(entity.components_mask() == 0);
}

#[test]
fn add_components() {
    let mut entity = Entity::new();

    entity.add_component(0b100000);
    entity.add_component(0b1000);

    assert!(entity.components_mask() == 0b101000);
}

#[test]
fn remove_components() {
    let mut entity = Entity::new();
    entity.add_component(0b100000);
    entity.add_component(0b1000);
    entity.add_component(0b100);

    entity.remove_component(0b100);
    entity.remove_component(0b100000);

    assert!(entity.components_mask() == 0b1000);
}
