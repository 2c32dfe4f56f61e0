use gerust::world::entity::Entity;

#[test]
fn entity_new_entity() {
    let entity = Entity::new(0);

    assert!(entity.index() == 0);
}

#[test]
fn entity_keeps_its_index() {
    let entity = Entity::new(5420);

    assert!(entity.index() == 5420);
}
