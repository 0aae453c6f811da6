use spire_codegen::load_order::{handle_line, DependencyGraph};
use spire_codegen::server_collect::{build_full_name, get_entity_name, CollectStep};
use spire_codegen::server_generate::{to_data_cell_name, to_data_type_name, to_entity_name, to_type_name};
use spire_codegen::server_schema::{
    Config, EnumAttribute, EnumBase, EnumSchema, Entity, EntityEntry, Field, FieldKind, GenerateError, Generator,
    ModuleDef, ScalarType, TableDef, TableKind, TableSchema, Target,
};

const TAB: &str = "    ";
const WARNING: &str = "// This is a generated file. DO NOT MODIFY.";

fn config() -> Config {
    Config {
        base_module_path: "game-data/data.mod.json".to_string(),
        gen_dir: "src/data".to_string(),
        data_dir: "game-data/data".to_string(),
        dry_run: false,
    }
}

fn field(name: &str, kind: FieldKind) -> Field {
    Field { name: name.to_string(), kind, desc: None, optional: None, cardinality: None, constraints: None }
}

fn strings(v: &[&str]) -> Vec<String> {
    v.iter().map(|s| s.to_string()).collect()
}

fn expected_handle(namespace: &str, data_type_name: &str) -> String {
    format!(
        r#"{TAB}{TAB}handles.push(tokio::spawn(async {{
            let mut workbook: calamine::Ods<_> = calamine::open_workbook(data_dir.join())?;
            let range = reader.worksheet_range("todo")?;
            crate::data::{namespace}::{data_type_name}::load(range.rows().skip(2))
        }}));"#
    )
}

fn expected_level(i: usize, handles_code: &str) -> String {
    format!(
        r#"    let level{i}_handles = {{
        let mut handles = Vec::new();
{handles_code}
        handles
    }};

    for handle in level{i}_handles {{
        match handle.await {{
            Ok(result) => {{ result?; }},
            _  => panic!("Data loading task has failed!"),
        }}
    }}"#
    )
}

fn expected_load_all(level_handles_code: &str) -> String {
    format!(
        r#"pub async fn load_all(data_dir: &std::path::PathBuf) -> Result<(), crate::data::LoadError> {{
{level_handles_code}

    Ok(())
}}
"#
    )
}

fn expected_module(imports_code: &str, exports_code: &str, base_module_code: &str) -> String {
    format!(
        r#"{WARNING}
{imports_code}

{exports_code}

{base_module_code}
"#
    )
}

fn linked_schema(name: &str, links: &[&str]) -> TableSchema {
    let mut fields = vec![field("id", FieldKind::Scalar { scalar_type: ScalarType::Id })];
    for l in links {
        fields.push(field(&format!("to_{}", l.to_lowercase()), FieldKind::Link { link_type: l.to_string() }));
    }
    TableSchema { name: name.to_string(), kind: TableKind::Concrete, sheet: name.to_string(), fields }
}

#[test]
fn naming_helpers() {
    assert_eq!(to_type_name("random_box"), "RandomBox");
    assert_eq!(to_entity_name("RandomBox"), "random_box");
    assert_eq!(to_data_type_name("random_box"), "RandomBoxData");
    assert_eq!(to_data_cell_name("RandomBox"), "RANDOM_BOX_DATA");
}

#[test]
fn table_name_with_namespace() {
    let def = TableDef {
        namespaces: strings(&["item", "equip"]),
        name: "weapon".to_string(),
        file_path: "a".to_string(),
        schema_path: "b".to_string(),
    };
    assert_eq!(def.get_name_with_namespace(), "item::equip::weapon");
    let top = TableDef { namespaces: Vec::new(), name: "weapon".to_string(), file_path: "a".to_string(), schema_path: "b".to_string() };
    assert_eq!(top.get_name_with_namespace(), "::weapon");
}

#[test]
fn server_target_filter() {
    assert!(Target::Server.is_target());
    assert!(Target::All.is_target());
    assert!(!Target::Client.is_target());
}

#[test]
fn server_concrete_table_source() {
    let schema = TableSchema {
        name: "Weapon".to_string(),
        kind: TableKind::Concrete,
        sheet: "Weapon".to_string(),
        fields: vec![
            field("id", FieldKind::Scalar { scalar_type: ScalarType::Id }),
            field("kind", FieldKind::Enum { enum_type: "item::WeaponKind".to_string() }),
            field("owner", FieldKind::Link { link_type: "character::Path".to_string() }),
        ],
    };
    let code = schema.generate().unwrap();
    let field_definitions_code = format!(
        "{TAB}pub id: DataId,\n{TAB}pub kind: crate::data::item::WeaponKind,\n{TAB}pub owner: Link<'a, crate::data::character::Path>,"
    );
    let field_parses_code = format!(
        "{TAB}{TAB}let id = crate::data::parse_id(&row[0])?;\n{TAB}{TAB}let kind = crate::data::item::WeaponKind::parse(&row[1])?;\n{TAB}{TAB}let owner = crate::data::parse_link::<crate::data::character::Path>(&row[2])?;"
    );
    let field_passes_code = format!("{TAB}{TAB}{TAB}id,\n{TAB}{TAB}{TAB}kind,\n{TAB}{TAB}{TAB}owner,");
    let table_type_name = "Weapon";
    let data_cell_name = "WEAPON_DATA";
    let data_type_name = "WeaponData";
    let lifetime_code = "<'a>";
    let lifetime_parameter_code = "<'_>";
    let expected = format!(
        r#"{WARNING}
use tracing::info;
use crate::data::DataId;

pub static {data_cell_name}: tokio::sync::OnceCell<{data_type_name}> = tokio::sync::OnceCell::const_new();

#[derive(Debug)]
pub struct {table_type_name}{lifetime_code} {{
{field_definitions_code}
}}

impl {table_type_name}{lifetime_code} {{
    fn parse(row: &[calamine::Data]) -> Result<(DataId, Self), crate::data::LoadError> {{
{field_parses_code}

        Ok((id, Self {{
{field_passes_code}
        }}))
    }}
}}

impl{lifetime_code} crate::data::Linkable for {table_type_name}{lifetime_parameter_code} {{
    fn get(id: DataId) -> Option<&'static Self> {{
        {data_type_name}::get(id)
    }}
}}

pub struct {data_type_name}{lifetime_code} {{
    data: std::collections::HashMap<DataId, {table_type_name}{lifetime_code}>,
}}

impl{lifetime_code} {data_type_name}{lifetime_parameter_code} {{
    pub fn get(id: DataId) -> Option<&'static {table_type_name}> {{
        {data_cell_name}
            .get()
            .expect("{data_cell_name} is not initialized yet")
            .data
            .get(&id)
    }}

    pub fn load(rows: &[&[calamine::Data]]) -> Result<(), crate::data::LoadError> {{
        let mut objects = std::collections::HashMap::new();
        for row in rows {{
            let (id, object) = {table_type_name}::parse(row)?;

            if objects.contains_key(&id) {{
                return Err(crate::data::LoadError::DuplicatedId {{
                    type_name: "{table_type_name}",
                    id,
                }});
            }}

            objects.insert(id, object);
        }}

        {data_cell_name}.set(Self {{ data: objects }});

        info!("Loaded {{}} rows", rows.len() - 2);
        Ok(())
    }}
}}
"#
    );
    assert_eq!(code, expected);
}

#[test]
fn server_table_without_links_has_no_lifetime() {
    let schema = TableSchema {
        name: "Path".to_string(),
        kind: TableKind::Concrete,
        sheet: "Path".to_string(),
        fields: vec![field("id", FieldKind::Scalar { scalar_type: ScalarType::Id })],
    };
    let code = schema.generate_concrete().unwrap();
    assert!(code.contains("pub struct Path {\n    pub id: DataId,\n}"));
    assert!(code.contains("impl crate::data::Linkable for Path {"));
    assert!(!code.contains("<'a>"));
}

#[test]
fn server_enum_source() {
    let schema = EnumSchema {
        name: "Race".to_string(),
        base: EnumBase::Uint8,
        enums: strings(&["Human", "Elf"]),
        target: Target::All,
        attributes: vec![
            EnumAttribute { target: Target::Server, attribute: "#[derive(Debug)]".to_string() },
            EnumAttribute { target: Target::Client, attribute: "#[client_only]".to_string() },
            EnumAttribute { target: Target::All, attribute: "#[derive(Clone)]".to_string() },
        ],
    };
    let code = schema.generate().unwrap();
    let attributes_code = "#[derive(Debug)]\n#[derive(Clone)]";
    let enum_type_name = "Race";
    let base_type_name = "u8";
    let enums_code = format!("{TAB}Human,\n{TAB}Elf,");
    let enum_parses_code = format!("{TAB}{TAB}{TAB}\"Human\" => Self::Human,\n{TAB}{TAB}{TAB}\"Elf\" => Self::Elf,");
    let enum_froms_code = format!("{TAB}{TAB}{TAB}0 => Self::Human,\n{TAB}{TAB}{TAB}1 => Self::Elf,");
    let enum_intos_code = format!("{TAB}{TAB}{TAB}Self::Human => 0,\n{TAB}{TAB}{TAB}Self::Elf => 1,");
    let expected = format!(
        r#"{WARNING}
{attributes_code}
pub enum {enum_type_name} {{
{enums_code}
}}

impl {enum_type_name} {{
    pub fn parse(value: &calamine::Data) -> Result<Self, crate::data::LoadError> {{
        let enum_string = crate::data::parse_string(value)?;

        Ok(match enum_string.as_str() {{
{enum_parses_code}
            _ => return Err(crate::data::LoadError::Parse(format!(
                "Invalid value \"{{enum_string}}\" for {enum_type_name}"
            ))),
        }})
    }}

    pub fn try_from(value: &{base_type_name}) -> Option<Self> {{
        Some(match value {{
{enum_froms_code}
            _ => return None,
        }})
    }}
}}

impl Into<{base_type_name}> for {enum_type_name} {{
    fn into(self) -> {base_type_name} {{
        match self {{
{enum_intos_code}
        }}
    }}
}}
"#
    );
    assert_eq!(code, expected);
}

#[test]
fn enum_base_types() {
    assert_eq!(EnumBase::Uint8.to_rust_type(), "u8");
    assert_eq!(EnumBase::Uint16.to_rust_type(), "u16");
    assert_eq!(EnumBase::Uint32.to_rust_type(), "u32");
}

#[test]
fn entity_names_from_files() {
    assert_eq!(get_entity_name("dir/weapon.table.json", "table").unwrap(), "weapon");
    assert_eq!(get_entity_name("item.mod.json", "mod").unwrap(), "item");
    match get_entity_name("dir/weapon.enum.json", "table") {
        Err(GenerateError::InvalidFile(m)) => assert_eq!(m, "Invalid entity file dir/weapon.enum.json"),
        other => panic!("unexpected {:?}", other),
    }
    match get_entity_name("weapon.json", "table") {
        Err(GenerateError::InvalidFile(m)) => assert_eq!(m, "Invalid entity file weapon.json"),
        other => panic!("unexpected {:?}", other),
    }
    match get_entity_name("weapon.table.yaml", "table") {
        Err(GenerateError::InvalidFile(_)) => {},
        other => panic!("unexpected {:?}", other),
    }
}

#[test]
fn full_names() {
    assert_eq!(build_full_name(&Vec::new(), "weapon"), "weapon");
    assert_eq!(build_full_name(&strings(&["item", "equip"]), "weapon"), "item.equip.weapon");
}

#[test]
fn data_and_gen_paths() {
    let generator = Generator::new(config());
    assert_eq!(generator.full_data_path(&strings(&["item", "equip"]), "weapon.ods"), "game-data/data/item.equip/weapon.ods");
    assert_eq!(generator.full_data_path(&Vec::new(), "item.mod.json"), "game-data/data/item.mod.json");
    assert_eq!(generator.full_gen_path("mod.rs"), "src/data/mod.rs");
    assert_eq!(generator.full_gen_dir(&strings(&["item", "equip"])), "src/data/item/equip");
}

#[test]
fn collecting_entries() {
    let mut generator = Generator::new(config());
    let namespaces = strings(&["item"]);
    let mut entities = Vec::new();

    let table = EntityEntry::TableEntry {
        file_path: "weapon.ods".to_string(),
        schema_path: "weapon.table.json".to_string(),
    };
    assert!(matches!(generator.collect_entry(&namespaces, &table, &mut entities), Ok(CollectStep::Done)));
    assert_eq!(generator.tables.len(), 1);
    assert_eq!(generator.tables[0].0, "item.weapon");
    assert_eq!(generator.tables[0].1.name, "weapon");
    assert_eq!(generator.tables[0].1.namespaces, strings(&["item"]));
    assert_eq!(generator.tables[0].1.file_path, "game-data/data/item/weapon.ods");
    assert_eq!(generator.tables[0].1.schema_path, "game-data/data/item/weapon.table.json");
    assert!(matches!(&entities[0], Entity::Table(n) if n == "weapon"));

    // The same full name again is a collision, for a constant as for a table.
    let constant = EntityEntry::ConstEntry { file_path: "weapon.const.json".to_string() };
    match generator.collect_entry(&namespaces, &constant, &mut entities) {
        Err(GenerateError::NamespaceCollision { name }) => assert_eq!(name, "item.weapon"),
        other => panic!("unexpected {:?}", other),
    }
    assert_eq!(entities.len(), 1);

    let enumeration = EntityEntry::EnumEntry { file_path: "race.enum.json".to_string() };
    assert!(matches!(generator.collect_entry(&namespaces, &enumeration, &mut entities), Ok(CollectStep::Done)));
    // An enumeration of the same name replaces the earlier one.
    assert!(matches!(generator.collect_entry(&namespaces, &enumeration, &mut entities), Ok(CollectStep::Done)));
    assert_eq!(generator.enums.len(), 1);
    assert_eq!(generator.enums[0].0, "item.race");

    let module = EntityEntry::ModuleEntry { file_path: "equip.mod.json".to_string() };
    match generator.collect_entry(&namespaces, &module, &mut entities) {
        Ok(CollectStep::Descend { namespace, module_file }) => {
            assert_eq!(namespace, "equip");
            assert_eq!(module_file, "game-data/data/item/equip.mod.json");
        },
        other => panic!("unexpected {:?}", other),
    }
    assert!(matches!(entities.last(), Some(Entity::Module(n)) if n == "equip"));

    let bad = EntityEntry::ModuleEntry { file_path: "equip.json".to_string() };
    assert!(matches!(generator.collect_entry(&namespaces, &bad, &mut entities), Err(GenerateError::InvalidFile(_))));

    let unnamed = EntityEntry::ConstEntry { file_path: "..".to_string() };
    assert!(matches!(generator.collect_entry(&namespaces, &unnamed, &mut entities), Ok(CollectStep::Unnamed)));

    assert!(generator.is_namespace_collision("item.weapon"));
    assert!(!generator.is_namespace_collision("item.race"));

    match generator.finish_module("game-data/data/item.mod.json", &namespaces, entities) {
        Some(Ok(())) => {},
        other => panic!("unexpected {:?}", other),
    }
    assert_eq!(generator.modules.len(), 1);
    assert_eq!(generator.modules[0].name, "item");
    assert!(generator.finish_module("game-data/data/item.json", &namespaces, Vec::new()).unwrap().is_err());
}

#[test]
fn handle_lines_split_the_namespace() {
    assert_eq!(handle_line("item::equip::weapon"), expected_handle("item::equip", "WeaponData"));
    assert_eq!(handle_line("::path"), expected_handle("", "PathData"));
}

#[test]
fn module_without_load_all() {
    let module = ModuleDef {
        name: "item".to_string(),
        namespaces: strings(&["data"]),
        entities: vec![
            Entity::Module("equip".to_string()),
            Entity::Table("random_box".to_string()),
            Entity::Const("limits".to_string()),
            Entity::Enum("rarity".to_string()),
        ],
    };
    let code = module.generate(&DependencyGraph::new()).unwrap();
    let imports = "pub mod equip;\npub mod random_box;\npub mod limits;\npub mod rarity;";
    let exports = "pub use random_box::{RandomBox, RandomBoxData, RANDOM_BOX_DATA};\npub use rarity::Rarity;";
    assert_eq!(code, expected_module(imports, exports, ""));
}

#[test]
fn base_module_loads_tables_in_levels() {
    let mut graph = DependencyGraph::new();
    // The dependency lists are keyed by the schema's name.
    graph.add_table("item::weapon".to_string(), &linked_schema("item::weapon", &["item::random_box"]));
    graph.add_table("item::random_box".to_string(), &linked_schema("item::random_box", &["character::path"]));
    graph.add_table("character::path".to_string(), &linked_schema("character::path", &[]));
    let module = ModuleDef { name: "data".to_string(), namespaces: Vec::new(), entities: Vec::new() };
    let code = module.generate(&graph).unwrap();
    let level0 = expected_level(0, &expected_handle("item", "WeaponData"));
    let level1 = expected_level(1, &expected_handle("item", "RandomBoxData"));
    let level2 = expected_level(2, &expected_handle("character", "PathData"));
    let base = expected_load_all(&format!("{level0}\n{level1}\n{level2}"));
    assert_eq!(code, expected_module("", "", &base));
}

#[test]
fn base_module_refuses_a_cycle() {
    let mut graph = DependencyGraph::new();
    graph.add_table("a::x".to_string(), &linked_schema("a::x", &["a::y"]));
    graph.add_table("a::y".to_string(), &linked_schema("a::y", &["a::x"]));
    let module = ModuleDef { name: "data".to_string(), namespaces: Vec::new(), entities: Vec::new() };
    assert!(matches!(module.generate(&graph), Err(GenerateError::DependencyCycle)));
    assert!(matches!(module.generate_base(&graph), Err(GenerateError::DependencyCycle)));
}

#[test]
fn recording_table_links() {
    let mut graph = DependencyGraph::new();
    graph.add_table("a::x".to_string(), &linked_schema("a::x", &["a::y", "b::z"]));
    assert_eq!(graph.entries.len(), 1);
    assert_eq!(graph.entries[0].1, strings(&["a::y", "b::z"]));
    // Recording the table again empties its links first.
    graph.add_table("a::x".to_string(), &linked_schema("a::x", &[]));
    assert_eq!(graph.entries.len(), 1);
    assert!(graph.entries[0].1.is_empty());
    graph.add_table("a::y".to_string(), &linked_schema("a::y", &[]));
    graph.add_table("a::x".to_string(), &linked_schema("a::x", &["a::y", "unknown"]));
    // Links to names that are no table's are left out of the positions.
    assert_eq!(graph.position_lists(), vec![vec![1], vec![]]);
}
