use spire_codegen::concrete_table::{field_kinds_supported, kind_supported};
use spire_codegen::generator::Generator;
use spire_codegen::module::{child_modules, classify_entity_file, EntityKind};
use spire_codegen::names::Name;
use spire_codegen::schema::{
    AbstractTableSchema, Config, ConcreteTableSchema, EntityEntry, EnumerationAttribute, EnumerationBase,
    EnumerationEntry, EnumerationSchema, Error, Field, FieldKind, ModuleEntry, ScalarAllType, TableSchema, Target,
};
use spire_codegen::text::{sort_strings, str_le};

const TAB: &str = "    ";

fn config(target: Target) -> Config {
    Config {
        schema_dir: "schema".to_string(),
        src_gen_dir: "out".to_string(),
        protobuf_gen_dir: "proto".to_string(),
        sql_gen_dir: "sql".to_string(),
        target,
        header_rows: 2,
        dry_run: false,
    }
}

fn field(name: &str, kind: FieldKind) -> Field {
    Field { name: name.to_string(), target: Target::All, kind, optional: false, multi: false, constraints: Vec::new() }
}

fn scalar(t: ScalarAllType) -> FieldKind {
    FieldKind::Scalar { scalar_type: t }
}

fn concrete(name: &str, fields: Vec<Field>, extend: Option<&str>) -> ConcreteTableSchema {
    ConcreteTableSchema {
        enabled: true,
        name: name.to_string(),
        workbook: format!("{}.ods", name.to_lowercase()),
        sheet: name.to_string(),
        fields,
        extend: extend.map(|e| e.to_string()),
    }
}

fn race_schema(protocol: bool, queryable: bool) -> EnumerationSchema {
    EnumerationSchema {
        name: "Race".to_string(),
        base: EnumerationBase::Uint8,
        enums: vec!["Human".to_string(), "DarkElf".to_string()],
        target: Target::All,
        protocol,
        queryable,
        attributes: vec![
            EnumerationAttribute { target: Target::Server, attribute: "#[server]".to_string() },
            EnumerationAttribute { target: Target::Client, attribute: "#[client]".to_string() },
        ],
    }
}

fn expected_enum_source(attributes_code: &str) -> String {
    let enum_type_name = "Race";
    let base_type_name = "u8";
    let enums_code = format!("{TAB}Human,\n{TAB}DarkElf,");
    let enum_parses_code = format!("{TAB}{TAB}{TAB}\"Human\" => Self::Human,\n{TAB}{TAB}{TAB}\"DarkElf\" => Self::DarkElf,");
    let enum_intos_code = format!("{TAB}{TAB}{TAB}Self::Human => 0,\n{TAB}{TAB}{TAB}Self::DarkElf => 1,");
    let enum_froms_code = format!("{TAB}{TAB}{TAB}0 => Self::Human,\n{TAB}{TAB}{TAB}1 => Self::DarkElf,");
    format!(
        r#"
{attributes_code}
pub enum {enum_type_name} {{
{enums_code}
}}

impl {enum_type_name} {{
    pub fn parse(value: &calamine::Data) -> Result<Self, ParseError> {{
        let enum_string = String::parse(value)?;

        Ok(match enum_string.as_str() {{
{enum_parses_code}
            _ => return Err(ParseError::InvalidValue {{
                type_name: std::any::type_name::<{enum_type_name}>(),
                value: enum_string,
            }}),
        }})
    }}

    pub fn try_from(value: &{base_type_name}) -> Option<Self> {{
        Some(match value {{
{enum_froms_code}
            _ => return None,
        }})
    }}
}}

impl Into<{base_type_name}> for {enum_type_name} {{
    fn into(self) -> {base_type_name} {{
        match self {{
{enum_intos_code}
        }}
    }}
}}
"#
    )
}

#[test]
fn enumeration_source_for_the_server() {
    let generator = Generator::new(config(Target::Server));
    let entry = EnumerationEntry { name: Name::root().get_child("race"), schema: race_schema(false, false) };
    let output = generator.generate_enumeration(&entry);
    let attributes = "#[derive(Debug, Clone, Copy, PartialEq, Eq)]\n#[server]";
    assert_eq!(output.code, expected_enum_source(attributes));
    assert!(output.protobuf_file.is_none());
    assert!(output.sql_file.is_none());
}

#[test]
fn enumeration_with_protocol_and_sql() {
    let generator = Generator::new(config(Target::Client));
    let entry = EnumerationEntry { name: Name::root().get_child("race"), schema: race_schema(true, true) };
    let output = generator.generate_enumeration(&entry);
    let attributes = "#[derive(Debug, Clone, Copy, PartialEq, Eq)]\n#[client]\n#[derive(diesel::FromSqlRow, diesel::AsExpression)]\n#[diesel(sql_type = crate::schema::sql_types::Race)]";
    let enum_type_name = "Race";
    let enum_matches_code = format!("{TAB}{TAB}{TAB}Self::Human => Target::Human,\n{TAB}{TAB}{TAB}Self::DarkElf => Target::DarkElf,");
    let protobuf_code = format!(
        r#"
impl Into<protocol::{enum_type_name}> for {enum_type_name} {{
    fn into(self) -> protocol::{enum_type_name} {{
        type Target = protocol::Race;

        match self {{
{enum_matches_code}
        }}
    }}
}}

impl Into<{enum_type_name}> for protocol::{enum_type_name} {{
    fn into(self) -> {enum_type_name} {{
        type Target = {enum_type_name};

        match self {{
{enum_matches_code}
        }}
    }}
}}

"#
    );
    let to_sql_matches_code = format!(
        "{TAB}{TAB}{TAB}Self::Human => out.write_all(b\"human\")?,\n{TAB}{TAB}{TAB}Self::DarkElf => out.write_all(b\"dark_elf\")?,"
    );
    let from_sql_matches_code = format!("{TAB}{TAB}{TAB}b\"human\" => Self::Human,\n{TAB}{TAB}{TAB}b\"dark_elf\" => Self::DarkElf,");
    let queryable_code = format!(
        r#"
impl diesel::serialize::ToSql<crate::schema::sql_types::{enum_type_name}, diesel::pg::Pg> for {enum_type_name} {{
    fn to_sql<'b>(
        &'b self,
        out: &mut diesel::serialize::Output<'b, '_, diesel::pg::Pg>,
    ) -> diesel::serialize::Result {{
        match *self {{
{to_sql_matches_code}
        }}
        Ok(diesel::serialize::IsNull::No)
    }}
}}

impl diesel::deserialize::FromSql<crate::schema::sql_types::{enum_type_name}, diesel::pg::Pg> for {enum_type_name} {{
    fn from_sql(
        bytes: diesel::pg::PgValue<'_>,
    ) -> diesel::deserialize::Result<Self> {{
        Ok(match bytes.as_bytes() {{
{from_sql_matches_code}
             _ => return Err(format!(
                "Unrecognized {enum_type_name} enum variant {{}}",
                String::from_utf8_lossy(bytes.as_bytes()),
            ).into()),
        }})
    }}
}}
"#
    );
    assert_eq!(output.code, expected_enum_source(attributes) + &protobuf_code + &queryable_code);

    let (proto_path, proto_text) = output.protobuf_file.unwrap();
    assert_eq!(proto_path, "proto/race.gen.proto");
    let enums_code = format!("{TAB}Human = 0;\n{TAB}DarkElf = 1;");
    assert_eq!(
        proto_text,
        format!(
            r#"// This is a generated file. DO NOT MODIFY.
syntax = "proto3";

package spire.protocol;

enum {enum_type_name} {{
{enums_code}
}}
"#
        )
    );
    let (sql_path, sql_text) = output.sql_file.unwrap();
    assert_eq!(sql_path, "sql/race.gen.sql");
    assert_eq!(
        sql_text,
        format!("-- // This is a generated file. DO NOT MODIFY.\n\ncreate type race as enum (\n{TAB}'human',\n{TAB}'dark_elf'\n);\n")
    );
}

#[test]
fn initialize_loads_concrete_tables() {
    let mut generator = Generator::new(config(Target::Server));
    let mut items = ModuleEntry::new(Name::root().get_child("item"));
    let item_name = |n: &str| Name::root().get_child("item").get_child(n);
    generator
        .add_table(
            &mut items,
            item_name("item"),
            TableSchema::Abstract(AbstractTableSchema { enabled: true, name: "Item".to_string(), fields: Vec::new(), extend: None }),
        )
        .unwrap();
    generator
        .add_table(
            &mut items,
            item_name("weapon"),
            TableSchema::Concrete(concrete("Weapon", vec![field("id", scalar(ScalarAllType::Id))], Some("item::Item"))),
        )
        .unwrap();
    let code = generator.generate_initialize();
    let header_rows = 2;
    let abstract_table_inits_code = format!("{TAB}crate::item::ItemTable::init();");
    let concrete_table_loads_code = format!("{TAB}load::<crate::item::WeaponTable>(data_dir.join(\"item/weapon.ods\"), \"Weapon\", &mut tasks);");
    let concrete_table_inits_code = format!("{TAB}init::<crate::item::WeaponTable>(&mut tasks);");
    let expected = format!(
        r#"
pub async fn init(data_dir: &std::path::PathBuf) -> Result<(), Error> {{
    init_abstract_tables();
    load_concrete_tables(data_dir).await?;
    init_concrete_tables().await?;

    Ok(())
}}

fn init_abstract_tables() {{
{abstract_table_inits_code}
}}

async fn load_concrete_tables(data_dir: &std::path::PathBuf) -> Result<(), Error> {{
    fn load<T: crate::Loadable>(
        file: std::path::PathBuf,
        sheet: &str,
        tasks: &mut Vec<tokio::task::JoinHandle<Result<(), Error>>>,
    ) {{
        use calamine::Reader;
    
        let sheet = sheet.to_owned();

        tasks.push(tokio::task::spawn(async move {{
            let mut workbook: calamine::Ods<_> = calamine::open_workbook(&file)
                .map_err(|error| Error::Workbook {{
                    workbook: file.display().to_string(),
                    error,
                }})?;
            let sheet = workbook
                .with_header_row(calamine::HeaderRow::Row({header_rows}))
                .worksheet_range(&sheet)
                .map_err(|error| Error::Sheet {{
                    workbook: file.display().to_string(),
                    sheet,
                    error,
                }})?;
            T::load(&sheet.rows().collect::<Vec<_>>()).await?;

            Ok(())
        }}));
    }}

    let mut tasks = Vec::new();

{concrete_table_loads_code}

    for task in tasks {{
        match task.await {{
            Ok(result) => result?,
            _  => panic!("Data loading task has failed!"),
        }}
    }}
    Ok(())
}}

async fn init_concrete_tables() -> Result<(), Error> {{
    fn init<T: crate::Loadable>(
        tasks: &mut Vec<tokio::task::JoinHandle<Result<(), Error>>>,
    ) {{
        tasks.push(tokio::task::spawn(async move {{
            T::init()?;
            Ok(())
        }}));
    }}

    let mut tasks = Vec::new();

{concrete_table_inits_code}

    for task in tasks {{
        match task.await {{
            Ok(result) => result?,
            _  => panic!("Data initializing task has failed!"),
        }}
    }}
    Ok(())
}}
"#
    );
    assert_eq!(code, expected);
}

#[test]
fn schema_file_names() {
    let module = ModuleEntry::new(Name::root().get_child("item"));
    match classify_entity_file(&module, "weapon.table.json") {
        Ok((EntityKind::Table, name)) => {
            assert_eq!(name.name, "weapon");
            assert_eq!(name.namespaces, vec!["item".to_string()]);
        },
        other => panic!("unexpected {:?}", other),
    }
    assert!(matches!(classify_entity_file(&module, "race.enum.json"), Ok((EntityKind::Enumeration, _))));
    assert!(matches!(classify_entity_file(&module, "limits.const.json"), Ok((EntityKind::Constant, _))));
    match classify_entity_file(&module, "weapon.json") {
        Err(Error::InvalidFileName(n)) => assert_eq!(n, "weapon.json"),
        other => panic!("unexpected {:?}", other),
    }
    assert!(matches!(classify_entity_file(&module, "weapon.view.json"), Err(Error::InvalidFileName(_))));
}

#[test]
fn child_modules_are_ordered_by_name() {
    let module = ModuleEntry::new(Name::root());
    let children = child_modules(&module, vec!["skill".to_string(), "character".to_string(), "item".to_string()]);
    let names: Vec<&str> = children.iter().map(|c| c.name.name.as_str()).collect();
    assert_eq!(names, vec!["character", "item", "skill"]);
    assert!(children.iter().all(|c| c.name.namespaces.is_empty() && c.entries.is_empty()));
    let nested = ModuleEntry::new(Name::root().get_child("item"));
    let children = child_modules(&nested, vec!["equip".to_string()]);
    assert_eq!(children[0].name.namespaces, vec!["item".to_string()]);
}

#[test]
fn text_order() {
    assert!(str_le("abc", "abd"));
    assert!(str_le("ab", "abc"));
    assert!(!str_le("b", "abc"));
    assert!(str_le("", ""));
    assert!(str_le("Z", "a"));
    assert_eq!(sort_strings(vec!["b".to_string(), "a".to_string(), "b".to_string()]), vec!["a", "b", "b"]);
}

#[test]
fn duplicate_type_names_are_refused() {
    let mut generator = Generator::new(config(Target::Server));
    let mut root = ModuleEntry::new(Name::root());
    let schema = || TableSchema::Concrete(concrete("Path", vec![field("id", scalar(ScalarAllType::Id))], None));
    generator.add_table(&mut root, Name::root().get_child("path"), schema()).unwrap();
    match generator.add_table(&mut root, Name::root().get_child("path"), schema()) {
        Err(Error::DuplicateType(n)) => assert_eq!(n, "Path"),
        other => panic!("unexpected {:?}", other),
    }
    assert_eq!(generator.tables.len(), 1);
    assert_eq!(root.entries, vec![EntityEntry::TableIndex(0)]);
}

#[test]
fn constants_take_the_last_enumeration_index() {
    let mut generator = Generator::new(config(Target::Server));
    let mut root = ModuleEntry::new(Name::root());
    generator
        .add_enumeration(&mut root, Name::root().get_child("race"), race_schema(false, false))
        .unwrap();
    generator.add_constant_entry(&mut root, &Name::root().get_child("limits")).unwrap();
    assert_eq!(root.entries, vec![EntityEntry::EnumerationIndex(0), EntityEntry::ConstantIndex(0)]);
}

#[test]
fn inherited_fields_come_first() {
    let mut generator = Generator::new(config(Target::Server));
    let mut root = ModuleEntry::new(Name::root());
    generator
        .add_table(
            &mut root,
            Name::root().get_child("base"),
            TableSchema::Abstract(AbstractTableSchema {
                enabled: true,
                name: "Base".to_string(),
                fields: vec![field("id", scalar(ScalarAllType::Id))],
                extend: None,
            }),
        )
        .unwrap();
    let child = concrete("Child", vec![field("level", scalar(ScalarAllType::Uint8))], Some("Base"));
    let fields = generator.get_table_all_fields(&child).unwrap();
    let names: Vec<&str> = fields.iter().map(|f| f.name.as_str()).collect();
    assert_eq!(names, vec!["id", "level"]);
    assert!(generator.inheritance_ends(&child.extend));

    let orphan = concrete("Orphan", Vec::new(), Some("Missing"));
    match generator.get_table_all_fields(&orphan) {
        Err(Error::Inheritance(table, parent)) => {
            assert_eq!(table, "Orphan");
            assert_eq!(parent, "Missing");
        },
        other => panic!("unexpected {:?}", other),
    }
    match generator.generate_concrete_table(&Name::root().get_child("orphan"), &orphan) {
        Err(Error::Inheritance(_, parent)) => assert_eq!(parent, "Missing"),
        other => panic!("unexpected {:?}", other),
    }
}

#[test]
fn inheritance_cycles_are_found() {
    let mut generator = Generator::new(config(Target::Server));
    let mut root = ModuleEntry::new(Name::root());
    let looped = |name: &str, extend: &str| {
        TableSchema::Abstract(AbstractTableSchema {
            enabled: true,
            name: name.to_string(),
            fields: Vec::new(),
            extend: Some(extend.to_string()),
        })
    };
    generator.add_table(&mut root, Name::root().get_child("a"), looped("A", "B")).unwrap();
    generator.add_table(&mut root, Name::root().get_child("b"), looped("B", "A")).unwrap();
    assert!(!generator.inheritance_ends(&Some("A".to_string())));
    assert!(generator.inheritance_ends(&None));
    assert!(generator.inheritance_ends(&Some("Nowhere".to_string())));
}

#[test]
fn optional_multi_fields_are_refused() {
    let generator = Generator::new(config(Target::Server));
    let mut bad = field("tags", scalar(ScalarAllType::String));
    bad.optional = true;
    bad.multi = true;
    let schema = concrete("Tagged", vec![field("id", scalar(ScalarAllType::Id)), bad], None);
    assert!(matches!(
        generator.generate_concrete_table(&Name::root().get_child("tagged"), &schema),
        Err(Error::InvalidAttribute(_))
    ));
}

#[test]
fn tuple_kinds() {
    let pair = FieldKind::Tuple { types: vec![scalar(ScalarAllType::Id), scalar(ScalarAllType::Uint8)] };
    assert!(kind_supported(&pair));
    let single = FieldKind::Tuple { types: vec![scalar(ScalarAllType::Id)] };
    assert!(!kind_supported(&single));
    let nested = FieldKind::Tuple { types: vec![scalar(ScalarAllType::Id), FieldKind::Tuple { types: Vec::new() }] };
    assert!(!kind_supported(&nested));
    assert!(kind_supported(&scalar(ScalarAllType::Json)));
    assert!(field_kinds_supported(Target::Server, &vec![field("p", pair)]));
    assert!(!field_kinds_supported(Target::Server, &vec![field("s", single)]));
    let mut client_only = field("c", FieldKind::Tuple { types: Vec::new() });
    client_only.target = Target::Client;
    assert!(field_kinds_supported(Target::Server, &vec![client_only]));
}

#[test]
fn targets_of_the_generator() {
    let generator = Generator::new(config(Target::Server));
    assert!(generator.is_target(Target::Server));
    assert!(generator.is_target(Target::All));
    assert!(!generator.is_target(Target::Client));
    assert!(!generator.is_target(Target::Excluded));
}
