use spire_codegen::generator::Generator;
use spire_codegen::names::Name;
use spire_codegen::schema::{
    AbstractTableSchema, Config, ConcreteTableSchema, Constraint, Field, FieldKind, ModuleEntry, ScalarAllType,
    TableSchema, Target,
};

fn config() -> Config {
    Config {
        schema_dir: "inner/schema".to_string(),
        src_gen_dir: "out".to_string(),
        protobuf_gen_dir: "proto".to_string(),
        sql_gen_dir: "sql".to_string(),
        target: Target::Server,
        header_rows: 2,
        dry_run: false,
    }
}

fn field(name: &str, kind: FieldKind) -> Field {
    Field {
        name: name.to_string(),
        target: Target::All,
        kind,
        optional: false,
        multi: false,
        constraints: Vec::new(),
    }
}

fn scalar(t: ScalarAllType) -> FieldKind {
    FieldKind::Scalar { scalar_type: t }
}

fn link(t: &str) -> FieldKind {
    FieldKind::Link { link_type: t.to_string() }
}

fn item_name(name: &str) -> Name {
    Name::root().get_child("item").get_child(name)
}

fn abstract_table(name: &str, extend: Option<&str>) -> TableSchema {
    TableSchema::Abstract(AbstractTableSchema {
        enabled: true,
        name: name.to_string(),
        fields: Vec::new(),
        extend: extend.map(|e| e.to_string()),
    })
}

fn weapon_schema() -> ConcreteTableSchema {
    ConcreteTableSchema {
        enabled: true,
        name: "Weapon".to_string(),
        workbook: "weapon.ods".to_string(),
        sheet: "Weapon".to_string(),
        fields: vec![
            field("id", scalar(ScalarAllType::Id)),
            field("name", scalar(ScalarAllType::String)),
            field("weight", scalar(ScalarAllType::Uint16)),
            field("damage", scalar(ScalarAllType::Uint32)),
        ],
        extend: Some("item::Equipment".to_string()),
    }
}

fn random_box_schema() -> ConcreteTableSchema {
    let mut items = field(
        "items",
        FieldKind::Tuple { types: vec![link("item::Item"), scalar(ScalarAllType::Uint16)] },
    );
    items.multi = true;
    ConcreteTableSchema {
        enabled: true,
        name: "RandomBox".to_string(),
        workbook: "random_box.ods".to_string(),
        sheet: "RandomBox".to_string(),
        fields: vec![field("id", scalar(ScalarAllType::Id)), field("name", scalar(ScalarAllType::String)), items],
        extend: Some("item::Item".to_string()),
    }
}

fn link_test_schema() -> ConcreteTableSchema {
    let mut optional = field("optional_item_link", link("item::Item"));
    optional.optional = true;
    let mut multi = field("multi_item_link", link("item::Item"));
    multi.multi = true;
    let mut client = field("client_only", scalar(ScalarAllType::Uint8));
    client.target = Target::Client;
    let mut exclusive = field("exclusive_max5_item_link", link("item::Item"));
    exclusive.constraints = vec![Constraint::Unique, Constraint::Max(5)];
    ConcreteTableSchema {
        enabled: true,
        name: "LinkTest".to_string(),
        workbook: "link_test.ods".to_string(),
        sheet: "LinkTest".to_string(),
        fields: vec![
            field("id", scalar(ScalarAllType::Id)),
            field("item_link", link("item::Item")),
            optional,
            multi,
            client,
            exclusive,
        ],
        extend: None,
    }
}

/// The generator with the item tables collected and their hierarchy built.
fn item_generator() -> Generator {
    let mut generator = Generator::new(config());
    let mut root = ModuleEntry::new(Name::root());
    let mut items = ModuleEntry::new(Name::root().get_child("item"));
    generator.add_table(&mut items, item_name("item"), abstract_table("Item", None)).unwrap();
    generator
        .add_table(&mut items, item_name("equipment"), abstract_table("Equipment", Some("item::Item")))
        .unwrap();
    generator.add_table(&mut items, item_name("random_box"), TableSchema::Concrete(random_box_schema())).unwrap();
    generator.add_table(&mut items, item_name("weapon"), TableSchema::Concrete(weapon_schema())).unwrap();
    generator
        .add_table(&mut root, Name::root().get_child("link_test"), TableSchema::Concrete(link_test_schema()))
        .unwrap();
    generator.build_hierarchies();
    generator
}

const WEAPON: &str = r##"// This is a generated file. DO NOT MODIFY.
#![allow(static_mut_refs)]

use crate::{DataId, Link, error::*, parse::*};
use std::collections::HashMap;
use std::mem::MaybeUninit;
use tracing::info;

const WORKBOOK: &str = "weapon.ods";
const SHEET: &str = "Weapon";

static mut WEAPON_TABLE: MaybeUninit<WeaponTable> = MaybeUninit::uninit();

#[derive(Debug)]
pub struct Weapon {
    pub id: DataId,
    pub name: String,
    pub weight: u16,
    pub damage: u32,
}

pub struct WeaponTable {
    rows: HashMap<DataId, Weapon>,
}

impl Weapon {
    fn parse(row: &[calamine::Data]) -> Result<(DataId, Self), (&'static str, ParseError)> {
        const FIELDS_COUNT: usize = 4;

        if row.len() < FIELDS_COUNT {
            return Err(("", ParseError::InvalidColumnCount { expected: FIELDS_COUNT, actual: row.len() }));
        }

        let id = parse(&row[0]).map_err(|e| ("id", e))?;
        let name = parse(&row[1]).map_err(|e| ("name", e))?;
        let weight = parse(&row[2]).map_err(|e| ("weight", e))?;
        let damage = parse(&row[3]).map_err(|e| ("damage", e))?;

        Ok((id, Self {
            id,
            name,
            weight,
            damage,
        }))
    }
}

impl crate::Linkable for Weapon {
    fn get(id: &DataId) -> Option<&'static Self> {
        WeaponTable::get(id)
    }
}

impl WeaponTable {
    pub fn get(id: &DataId) -> Option<&'static Weapon> {
        unsafe { WEAPON_TABLE.assume_init_ref() }.rows.get(&id)
    }

    pub fn iter() -> impl Iterator<Item = (&'static DataId, &'static Weapon)> {
        unsafe { WEAPON_TABLE.assume_init_ref() }.rows.iter()
    }
}

impl crate::Loadable for WeaponTable {
    async fn load(rows: &[&[calamine::Data]]) -> Result<(), Error> {
        let mut parsed_rows = HashMap::new();
        let mut index = 2;

        for row in rows {
            let (id, parsed_row) = Weapon::parse(row)
                .map_err(|(column, error)| Error::Parse {
                    workbook: WORKBOOK,
                    sheet: SHEET,
                    row: index + 1,
                    column,
                    error,
                })?;

            if parsed_rows.contains_key(&id) {
                return Err(Error::DuplicateId {
                    type_name: std::any::type_name::<Weapon>(),
                    id,
                    a: format!("{:?}", parsed_rows[&id]),
                    b: format!("{:?}", parsed_rows),
                });
            }

            parsed_rows.insert(id, parsed_row);

            index += 1;
        }

        let table = Self { rows: parsed_rows };
        info!("Loaded {} rows", table.rows.len());

        unsafe { WEAPON_TABLE.write(table); }

        for (id, row) in unsafe { WEAPON_TABLE.assume_init_ref() }.rows.iter() {
            crate::item::EquipmentTable::insert(&id, crate::item::Equipment::Weapon(row)).await?;
        }
        Ok(())
    }

    fn init() -> Result<(), Error> {
        Ok(())
    }
}
"##;
const RANDOM_BOX: &str = r##"// This is a generated file. DO NOT MODIFY.
#![allow(static_mut_refs)]

use crate::{DataId, Link, error::*, parse::*};
use std::collections::HashMap;
use std::mem::MaybeUninit;
use tracing::info;

const WORKBOOK: &str = "random_box.ods";
const SHEET: &str = "RandomBox";

static mut RANDOM_BOX_TABLE: MaybeUninit<RandomBoxTable> = MaybeUninit::uninit();

#[derive(Debug)]
pub struct RandomBox {
    pub id: DataId,
    pub name: String,
    pub items: Vec<(Link<crate::item::Item>, u16)>,
}

pub struct RandomBoxTable {
    rows: HashMap<DataId, RandomBox>,
}

impl RandomBox {
    fn parse(row: &[calamine::Data]) -> Result<(DataId, Self), (&'static str, ParseError)> {
        const FIELDS_COUNT: usize = 3;

        if row.len() < FIELDS_COUNT {
            return Err(("", ParseError::InvalidColumnCount { expected: FIELDS_COUNT, actual: row.len() }));
        }

        let id = parse(&row[0]).map_err(|e| ("id", e))?;
        let name = parse(&row[1]).map_err(|e| ("name", e))?;
        let items = parse_multi(&row[2]).map_err(|e| ("items", e))?;

        Ok((id, Self {
            id,
            name,
            items,
        }))
    }
}

impl crate::Linkable for RandomBox {
    fn get(id: &DataId) -> Option<&'static Self> {
        RandomBoxTable::get(id)
    }
}

impl RandomBoxTable {
    pub fn get(id: &DataId) -> Option<&'static RandomBox> {
        unsafe { RANDOM_BOX_TABLE.assume_init_ref() }.rows.get(&id)
    }

    pub fn iter() -> impl Iterator<Item = (&'static DataId, &'static RandomBox)> {
        unsafe { RANDOM_BOX_TABLE.assume_init_ref() }.rows.iter()
    }
}

impl crate::Loadable for RandomBoxTable {
    async fn load(rows: &[&[calamine::Data]]) -> Result<(), Error> {
        let mut parsed_rows = HashMap::new();
        let mut index = 2;

        for row in rows {
            let (id, parsed_row) = RandomBox::parse(row)
                .map_err(|(column, error)| Error::Parse {
                    workbook: WORKBOOK,
                    sheet: SHEET,
                    row: index + 1,
                    column,
                    error,
                })?;

            if parsed_rows.contains_key(&id) {
                return Err(Error::DuplicateId {
                    type_name: std::any::type_name::<RandomBox>(),
                    id,
                    a: format!("{:?}", parsed_rows[&id]),
                    b: format!("{:?}", parsed_rows),
                });
            }

            parsed_rows.insert(id, parsed_row);

            index += 1;
        }

        let table = Self { rows: parsed_rows };
        info!("Loaded {} rows", table.rows.len());

        unsafe { RANDOM_BOX_TABLE.write(table); }

        for (id, row) in unsafe { RANDOM_BOX_TABLE.assume_init_ref() }.rows.iter() {
            crate::item::ItemTable::insert(&id, crate::item::Item::RandomBox(row)).await?;
        }
        Ok(())
    }

    fn init() -> Result<(), Error> {
        (|| {
            for (id, row) in &mut unsafe { RANDOM_BOX_TABLE.assume_init_mut() }.rows {
                for x in &mut row.items {
                    x.0.init().map_err(|e| (*id, e))?;
                }
            }

            Ok(())
        })().map_err(|(id, error)| Error::Link {
            workbook: WORKBOOK,
            sheet: SHEET,
            id,
            error,
        })?;

        Ok(())
    }
}
"##;
const LINK_TEST: &str = r##"// This is a generated file. DO NOT MODIFY.
#![allow(static_mut_refs)]

use crate::{DataId, Link, error::*, parse::*};
use std::collections::HashMap;
use std::mem::MaybeUninit;
use tracing::info;

const WORKBOOK: &str = "link_test.ods";
const SHEET: &str = "LinkTest";

static mut LINK_TEST_TABLE: MaybeUninit<LinkTestTable> = MaybeUninit::uninit();

#[derive(Debug)]
pub struct LinkTest {
    pub id: DataId,
    pub item_link: Link<crate::item::Item>,
    pub optional_item_link: Option<Link<crate::item::Item>>,
    pub multi_item_link: Vec<Link<crate::item::Item>>,
    pub exclusive_max5_item_link: Link<crate::item::Item>,
}

pub struct LinkTestTable {
    rows: HashMap<DataId, LinkTest>,
}

impl LinkTest {
    fn parse(row: &[calamine::Data]) -> Result<(DataId, Self), (&'static str, ParseError)> {
        const FIELDS_COUNT: usize = 6;

        if row.len() < FIELDS_COUNT {
            return Err(("", ParseError::InvalidColumnCount { expected: FIELDS_COUNT, actual: row.len() }));
        }

        let id = parse(&row[0]).map_err(|e| ("id", e))?;
        let item_link = parse(&row[1]).map_err(|e| ("item_link", e))?;
        let optional_item_link = parse_optional(&row[2]).map_err(|e| ("optional_item_link", e))?;
        let multi_item_link = parse_multi(&row[3]).map_err(|e| ("multi_item_link", e))?;
        let exclusive_max5_item_link = parse(&row[5]).map_err(|e| ("exclusive_max5_item_link", e))?;

        Ok((id, Self {
            id,
            item_link,
            optional_item_link,
            multi_item_link,
            exclusive_max5_item_link,
        }))
    }
}

impl crate::Linkable for LinkTest {
    fn get(id: &DataId) -> Option<&'static Self> {
        LinkTestTable::get(id)
    }
}

impl LinkTestTable {
    pub fn get(id: &DataId) -> Option<&'static LinkTest> {
        unsafe { LINK_TEST_TABLE.assume_init_ref() }.rows.get(&id)
    }

    pub fn iter() -> impl Iterator<Item = (&'static DataId, &'static LinkTest)> {
        unsafe { LINK_TEST_TABLE.assume_init_ref() }.rows.iter()
    }
}

impl crate::Loadable for LinkTestTable {
    async fn load(rows: &[&[calamine::Data]]) -> Result<(), Error> {
        let mut parsed_rows = HashMap::new();
        let mut index = 2;

        let mut exclusive_max5_item_link_set = std::collections::HashSet::<Link<crate::item::Item>>::new();

        let mut check_constraint = |row: &LinkTest| -> Result<(), (&'static str, ConstraintError)> {
            if !exclusive_max5_item_link_set.insert(row.exclusive_max5_item_link.clone()) {
            return Err(("exclusive_max5_item_link", ConstraintError::Unique {
                type_name: std::any::type_name::<Link<crate::item::Item>>(),
                value: row.exclusive_max5_item_link.to_string(),
            }));
        }

            if row.exclusive_max5_item_link > 5 {
            return Err(("exclusive_max5_item_link", ConstraintError::Max {
                type_name: std::any::type_name::<Link<crate::item::Item>>(),
                expected: 5.to_string(),
                actual: row.exclusive_max5_item_link.to_string(),
            }));
        }

            Ok(())
        };

        for row in rows {
            let (id, parsed_row) = LinkTest::parse(row)
                .map_err(|(column, error)| Error::Parse {
                    workbook: WORKBOOK,
                    sheet: SHEET,
                    row: index + 1,
                    column,
                    error,
                })?;

            if parsed_rows.contains_key(&id) {
                return Err(Error::DuplicateId {
                    type_name: std::any::type_name::<LinkTest>(),
                    id,
                    a: format!("{:?}", parsed_rows[&id]),
                    b: format!("{:?}", parsed_rows),
                });
            }

            check_constraint(&parsed_row)
                .map_err(|(column, error)| Error::Constraint {
                    workbook: WORKBOOK,
                    sheet: SHEET,
                    row: index + 1,
                    column,
                    error,
                })?;

            parsed_rows.insert(id, parsed_row);

            index += 1;
        }

        let table = Self { rows: parsed_rows };
        info!("Loaded {} rows", table.rows.len());

        unsafe { LINK_TEST_TABLE.write(table); }
        Ok(())
    }

    fn init() -> Result<(), Error> {
        (|| {
            for (id, row) in &mut unsafe { LINK_TEST_TABLE.assume_init_mut() }.rows {
                row.item_link.init().map_err(|e| (*id, e))?;

                if let Some(optional_item_link) = row.optional_item_link.as_mut() {
                    optional_item_link.init().map_err(|e| (*id, e))?;
                }

                for x in &mut row.multi_item_link {
                    x.init().map_err(|e| (*id, e))?;
                }

                row.exclusive_max5_item_link.init().map_err(|e| (*id, e))?;
            }

            Ok(())
        })().map_err(|(id, error)| Error::Link {
            workbook: WORKBOOK,
            sheet: SHEET,
            id,
            error,
        })?;

        Ok(())
    }
}
"##;
const ITEM: &str = r##"// This is a generated file. DO NOT MODIFY.
#![allow(static_mut_refs)]

use crate::{DataId, error::Error};
use std::collections::HashMap;
use std::mem::MaybeUninit;
use tokio::sync::Mutex;

static mut ITEM_TABLE: MaybeUninit<ItemTable> = MaybeUninit::uninit();

#[derive(Debug)]
pub enum Item {
    Equipment(&'static crate::item::Equipment),
    RandomBox(&'static crate::item::RandomBox),
}

#[derive(Debug)]
pub struct ItemTable {
    rows: HashMap<DataId, Item>,
}

impl Item {
    pub fn id(&self) -> &DataId {
        match self {
            Self::Equipment(x) => &x.id(),
            Self::RandomBox(x) => &x.id,
        }
    }
}

impl crate::Linkable for Item {
    fn get(id: &DataId) -> Option<&'static Self> {
        ItemTable::get(id)
    }
}

impl ItemTable {
    pub fn get(id: &DataId) -> Option<&'static Item> {
        unsafe { &ITEM_TABLE.assume_init_ref().rows }.get(&id)
    }

    pub fn iter() -> impl Iterator<Item = (&'static DataId, &'static Item)> {
        unsafe { &ITEM_TABLE.assume_init_ref().rows }.iter()
    }

    pub(crate) fn init() {
        let table = Self { rows: HashMap::new() };
        unsafe { ITEM_TABLE.write(table); }
    }

    pub(crate) async fn insert(id: &DataId, row: Item) -> Result<(), Error> {
        static LOCK: Mutex<()> = Mutex::const_new(());

        let rows = unsafe { &mut ITEM_TABLE.assume_init_mut().rows };
        let _ = LOCK.lock().await;

        if rows.contains_key(id) {
            return Err(Error::DuplicateId {
                type_name: std::any::type_name::<Item>(),
                id: *id,
                a: format!("{:?}", rows[id]),
                b: format!("{:?}", row)
            });
        }
        rows.insert(*id, row);

        Ok(())
    }
}
"##;
const EQUIPMENT: &str = r##"// This is a generated file. DO NOT MODIFY.
#![allow(static_mut_refs)]

use crate::{DataId, error::Error};
use std::collections::HashMap;
use std::mem::MaybeUninit;
use tokio::sync::Mutex;

static mut EQUIPMENT_TABLE: MaybeUninit<EquipmentTable> = MaybeUninit::uninit();

#[derive(Debug)]
pub enum Equipment {
    Weapon(&'static crate::item::Weapon),
}

#[derive(Debug)]
pub struct EquipmentTable {
    rows: HashMap<DataId, Equipment>,
}

impl Equipment {
    pub fn id(&self) -> &DataId {
        match self {
            Self::Weapon(x) => &x.id,
        }
    }
}

impl crate::Linkable for Equipment {
    fn get(id: &DataId) -> Option<&'static Self> {
        EquipmentTable::get(id)
    }
}

impl EquipmentTable {
    pub fn get(id: &DataId) -> Option<&'static Equipment> {
        unsafe { &EQUIPMENT_TABLE.assume_init_ref().rows }.get(&id)
    }

    pub fn iter() -> impl Iterator<Item = (&'static DataId, &'static Equipment)> {
        unsafe { &EQUIPMENT_TABLE.assume_init_ref().rows }.iter()
    }

    pub(crate) fn init() {
        let table = Self { rows: HashMap::new() };
        unsafe { EQUIPMENT_TABLE.write(table); }
    }

    pub(crate) async fn insert(id: &DataId, row: Equipment) -> Result<(), Error> {
        static LOCK: Mutex<()> = Mutex::const_new(());

        let rows = unsafe { &mut EQUIPMENT_TABLE.assume_init_mut().rows };
        let _ = LOCK.lock().await;

        if rows.contains_key(id) {
            return Err(Error::DuplicateId {
                type_name: std::any::type_name::<Equipment>(),
                id: *id,
                a: format!("{:?}", rows[id]),
                b: format!("{:?}", row)
            });
        }
        rows.insert(*id, row);

        crate::item::ItemTable::insert(id, crate::item::Item::Equipment(&rows[id])).await?;

        Ok(())
    }
}
"##;

#[test]
fn weapon_table_source() {
    let generator = item_generator();
    let code = generator.generate_concrete_table(&item_name("weapon"), &weapon_schema()).unwrap();
    assert_eq!(code, WEAPON);
}

#[test]
fn random_box_table_source() {
    let generator = item_generator();
    let code = generator.generate_concrete_table(&item_name("random_box"), &random_box_schema()).unwrap();
    assert_eq!(code, RANDOM_BOX);
}

#[test]
fn link_test_table_source() {
    let generator = item_generator();
    let code = generator
        .generate_concrete_table(&Name::root().get_child("link_test"), &link_test_schema())
        .unwrap();
    assert_eq!(code, LINK_TEST);
}

#[test]
fn item_table_source() {
    let generator = item_generator();
    let table = &generator.tables[0];
    let code = generator.table_code(table).unwrap();
    assert_eq!(code, ITEM);
}

#[test]
fn equipment_table_source() {
    let generator = item_generator();
    let table = &generator.tables[1];
    let code = generator.table_code(table).unwrap();
    assert_eq!(code, EQUIPMENT);
}

#[test]
fn table_files_sit_in_their_namespace() {
    let generator = item_generator();
    let (path, code) = generator.generate_table(&generator.tables[3]).unwrap();
    assert_eq!(path, "out/item/weapon.rs");
    assert_eq!(code, WEAPON);
    assert!(spire_codegen::schema::generate_default());
}
