use checklist_commander::registry::{craft_id_for, RegistryError};

#[test]
fn craft_id_table_is_exact() {
    assert_eq!(craft_id_for(0), Ok(2));
    assert_eq!(craft_id_for(1), Ok(3));
    assert_eq!(craft_id_for(2), Ok(1));
    assert_eq!(craft_id_for(3), Ok(0));
    assert_eq!(craft_id_for(4), Ok(4));
    assert_eq!(craft_id_for(5), Ok(5));
}

#[test]
fn craft_id_rejects_selectors_outside_the_range() {
    assert_eq!(craft_id_for(6), Err(RegistryError::UnknownSpacecraft));
    assert_eq!(craft_id_for(7), Err(RegistryError::UnknownSpacecraft));
    assert_eq!(craft_id_for(100), Err(RegistryError::UnknownSpacecraft));
    assert_eq!(craft_id_for(u32::MAX), Err(RegistryError::UnknownSpacecraft));
}
