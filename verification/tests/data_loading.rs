use spire_codegen::data_tables::{
    ScriptedSkillCells, ScriptedSkillTable,
    ConstraintError, Equipment, EquipmentTable, Error, GenericSkillCells, GenericSkillTable, Item, ItemTable,
    LinkTestCells, LinkTestTable, ParseError, PathCells, PathTable, RandomBoxCells, RandomBoxTable, Skill, SkillTable,
    Weapon, WeaponCells, WeaponTable,
};

fn weapon(id: u32, name: &str) -> WeaponCells {
    WeaponCells { count: 4, id: Ok(id), name: Ok(name.to_string()), weight: Ok(3), damage: Ok(10) }
}

fn link_test(id: u32, exclusive: u32) -> LinkTestCells {
    LinkTestCells {
        count: 6,
        id: Ok(id),
        item_link: Ok(1),
        optional_item_link: Ok(None),
        multi_item_link: Ok(vec![1, 2]),
        exclusive_max5_item_link: Ok(exclusive),
    }
}

#[test]
fn weapon_rows_load_in_order() {
    let table = WeaponTable::load(vec![weapon(1, "Sword"), weapon(2, "Axe")]).unwrap();
    assert_eq!(table.rows.len(), 2);
    assert_eq!(table.rows[0].0, 1);
    assert_eq!(table.rows[1].1.name, "Axe");
    assert_eq!(table.get(2).unwrap().name, "Axe");
    assert!(table.get(3).is_none());
}

#[test]
fn short_row_is_refused_with_its_row_number() {
    let mut short = weapon(2, "Axe");
    short.count = 3;
    match WeaponTable::load(vec![weapon(1, "Sword"), short]) {
        Err(Error::Parse { workbook, sheet, row, column, error }) => {
            assert_eq!(workbook, "weapon.ods");
            assert_eq!(sheet, "Weapon");
            // Two header rows, then the second data row.
            assert_eq!(row, 4);
            assert_eq!(column, "");
            assert!(matches!(error, ParseError::InvalidColumnCount { expected: 4, actual: 3 }));
        },
        other => panic!("unexpected {:?}", other),
    }
}

#[test]
fn first_unparsed_cell_names_its_field() {
    let mut bad = weapon(1, "Sword");
    bad.weight = Err(ParseError::InvalidValue { reason: "not a number".to_string() });
    bad.damage = Err(ParseError::InvalidValue { reason: "also bad".to_string() });
    match Weapon::parse(bad) {
        Err((column, ParseError::InvalidValue { reason })) => {
            assert_eq!(column, "weight");
            assert_eq!(reason, "not a number");
        },
        other => panic!("unexpected {:?}", other),
    }
    let mut bad = weapon(1, "Sword");
    bad.id = Err(ParseError::InvalidValue { reason: "id".to_string() });
    match WeaponTable::load(vec![bad]) {
        Err(Error::Parse { row, column, .. }) => {
            assert_eq!(row, 3);
            assert_eq!(column, "id");
        },
        other => panic!("unexpected {:?}", other),
    }
}

#[test]
fn repeated_id_is_refused() {
    match WeaponTable::load(vec![weapon(1, "Sword"), weapon(2, "Axe"), weapon(1, "Bow")]) {
        Err(Error::DuplicateId { row_type, id }) => {
            assert_eq!(row_type, "Weapon");
            assert_eq!(id, 1);
        },
        other => panic!("unexpected {:?}", other),
    }
}

#[test]
fn small_tables_load() {
    let paths = PathTable::load(vec![PathCells { count: 2, id: Ok(5) }, PathCells { count: 2, id: Ok(6) }]).unwrap();
    assert_eq!(paths.rows.len(), 2);
    assert!(matches!(
        PathTable::load(vec![PathCells { count: 1, id: Ok(5) }]),
        Err(Error::Parse { row: 3, column: "", .. })
    ));
    let boxes = RandomBoxTable::load(vec![RandomBoxCells {
        count: 3,
        id: Ok(9),
        name: Ok("Box".to_string()),
        items: Ok(vec![(1, 50), (2, 50)]),
    }])
    .unwrap();
    assert_eq!(boxes.rows[0].1.items, vec![(1, 50), (2, 50)]);
}

#[test]
fn link_test_constraints() {
    let table = LinkTestTable::load(vec![link_test(1, 3), link_test(2, 5)]).unwrap();
    assert_eq!(table.rows.len(), 2);

    match LinkTestTable::load(vec![link_test(1, 3), link_test(2, 3)]) {
        Err(Error::Constraint { workbook, sheet, row, column, error: ConstraintError::Unique { row_type, value } }) => {
            assert_eq!(workbook, "link_test.ods");
            assert_eq!(sheet, "LinkTest");
            assert_eq!(row, 4);
            assert_eq!(column, "exclusive_max5_item_link");
            assert_eq!(row_type, "Link<crate::item::Item>");
            assert_eq!(value, "3");
        },
        other => panic!("unexpected {:?}", other),
    }

    match LinkTestTable::load(vec![link_test(1, 6)]) {
        Err(Error::Constraint { row, error: ConstraintError::Max { expected, actual, .. }, .. }) => {
            assert_eq!(row, 3);
            assert_eq!(expected, "5");
            assert_eq!(actual, "6");
        },
        other => panic!("unexpected {:?}", other),
    }

    // A repeated id is found before a repeated exclusive link.
    assert!(matches!(
        LinkTestTable::load(vec![link_test(1, 3), link_test(1, 3)]),
        Err(Error::DuplicateId { row_type: "LinkTest", id: 1 })
    ));
}

#[test]
fn weapons_register_as_equipment_and_items() {
    let weapons = WeaponTable::load(vec![weapon(1, "Sword"), weapon(2, "Axe")]).unwrap();
    let mut equipment = EquipmentTable::init();
    let mut items = ItemTable::init();
    weapons.register(&mut equipment, &mut items).unwrap();
    assert_eq!(equipment.rows.len(), 2);
    assert_eq!(items.rows.len(), 2);
    assert_eq!(equipment.rows[1].1.id(), 2);
    assert!(matches!(items.rows[0].1, Item::Equipment(1)));

    // A random box with the id of a weapon is refused by the item table.
    let boxes = RandomBoxTable::load(vec![RandomBoxCells {
        count: 3,
        id: Ok(2),
        name: Ok("Box".to_string()),
        items: Ok(Vec::new()),
    }])
    .unwrap();
    assert!(matches!(boxes.register(&mut items), Err(Error::DuplicateId { row_type: "Item", id: 2 })));
    assert_eq!(items.rows.len(), 2);
}

#[test]
fn equipment_refuses_a_taken_id() {
    let mut equipment = EquipmentTable::init();
    let mut items = ItemTable::init();
    equipment.insert(&mut items, 4, Equipment::Weapon(4)).unwrap();
    assert!(matches!(
        equipment.insert(&mut items, 4, Equipment::Weapon(4)),
        Err(Error::DuplicateId { row_type: "Equipment", id: 4 })
    ));
    assert_eq!(equipment.rows.len(), 1);
    assert_eq!(items.rows.len(), 1);
}

#[test]
fn skills_register() {
    let skills_rows = GenericSkillTable::load(vec![GenericSkillCells {
        count: 4,
        id: Ok(11),
        effects: Ok(vec![1]),
        costs: Ok(vec!["Mana".to_string()]),
    }])
    .unwrap();
    let mut skills = SkillTable::init();
    skills_rows.register(&mut skills).unwrap();
    assert_eq!(skills.rows[0].1.id(), 11);
    assert!(matches!(skills.insert(11, Skill::ScriptedSkill(11)), Err(Error::DuplicateId { row_type: "Skill", id: 11 })));
    assert_eq!(Item::RandomBox(8).id(), 8);
}

#[test]
fn scripted_skills_keep_their_attributes() {
    let table = ScriptedSkillTable::load(vec![ScriptedSkillCells {
        count: 3,
        id: Ok(21),
        attributes: Ok("{\"power\": 3}".to_string()),
    }])
    .unwrap();
    assert_eq!(table.rows[0].1.attributes, "{\"power\": 3}");
    let mut skills = SkillTable::init();
    table.register(&mut skills).unwrap();
    assert!(matches!(skills.rows[0].1, Skill::ScriptedSkill(21)));
}
