//! The generated source of the game server's data: tables, enumerations and
//! modules, and the names generated code gives them.

use vstd::prelude::*;
use crate::enumeration::{VariantLine, variant_line_spec, variant_lines_code};
use crate::names::{snake_case, to_snake_case, to_upper_camel_case, to_uppercase, upper_camel_case, uppercase};
use crate::rust_types::{HEADER_ROWS, lemma_primitive_of_schema_name, primitive_of_schema_name};
use crate::server_schema::{
    EnumAttribute, EnumBase, EnumSchema, Field, FieldKind, GenerateError, ScalarType, TableDef, TableKind, TableSchema,
    Target,
};
use crate::text::{decimal, join, push_decimal, seq_join, views};

verus! {

/// The first line of every generated source file.
pub const GENERATED_FILE_WARNING_CODE: &'static str = "// This is a generated file. DO NOT MODIFY.";

/// The path of the data module as generated code names it.
pub const SERVER_CRATE_PREFIX: &'static str = "crate::data";

pub const SERVER_TABLE_0: &'static str = "\nuse tracing::info;\nuse crate::data::DataId;\n\npub static ";
pub const SERVER_TABLE_1: &'static str = ": tokio::sync::OnceCell<";
pub const SERVER_TABLE_2: &'static str = "> = tokio::sync::OnceCell::const_new();\n\n#[derive(Debug)]\npub struct ";
pub const SERVER_TABLE_3: &'static str = " {\n";
pub const SERVER_TABLE_4: &'static str = "\n}\n\nimpl ";
pub const SERVER_TABLE_5: &'static str = " {\n    fn parse(row: &[calamine::Data]) -> Result<(DataId, Self), crate::data::LoadError> {\n";
pub const SERVER_TABLE_6: &'static str = "\n\n        Ok((id, Self {\n";
pub const SERVER_TABLE_7: &'static str = "\n        }))\n    }\n}\n\nimpl";
pub const SERVER_TABLE_8: &'static str = " crate::data::Linkable for ";
pub const SERVER_TABLE_9: &'static str = " {\n    fn get(id: DataId) -> Option<&'static Self> {\n        ";
pub const SERVER_TABLE_10: &'static str = "::get(id)\n    }\n}\n\npub struct ";
pub const SERVER_TABLE_11: &'static str = " {\n    data: std::collections::HashMap<DataId, ";
pub const SERVER_TABLE_12: &'static str = ">,\n}\n\nimpl";
pub const SERVER_TABLE_13: &'static str = " ";
pub const SERVER_TABLE_14: &'static str = " {\n    pub fn get(id: DataId) -> Option<&'static ";
pub const SERVER_TABLE_15: &'static str = "> {\n        ";
pub const SERVER_TABLE_16: &'static str = "\n            .get()\n            .expect(\"";
pub const SERVER_TABLE_17: &'static str = " is not initialized yet\")\n            .data\n            .get(&id)\n    }\n\n    pub fn load(rows: &[&[calamine::Data]]) -> Result<(), crate::data::LoadError> {\n        let mut objects = std::collections::HashMap::new();\n        for row in rows {\n            let (id, object) = ";
pub const SERVER_TABLE_18: &'static str = "::parse(row)?;\n\n            if objects.contains_key(&id) {\n                return Err(crate::data::LoadError::DuplicatedId {\n                    type_name: \"";
pub const SERVER_TABLE_19: &'static str = "\",\n                    id,\n                });\n            }\n\n            objects.insert(id, object);\n        }\n\n        ";
pub const SERVER_TABLE_20: &'static str = ".set(Self { data: objects });\n\n        info!(\"Loaded {} rows\", rows.len() - ";
pub const SERVER_TABLE_21: &'static str = ");\n        Ok(())\n    }\n}\n";
pub const SERVER_FIELD_DEF_0: &'static str = "    pub ";
pub const SERVER_FIELD_DEF_1: &'static str = ": ";
pub const SERVER_FIELD_DEF_2: &'static str = ",";
pub const SERVER_FIELD_PARSE_0: &'static str = "        let ";
pub const SERVER_FIELD_PARSE_1: &'static str = " = ";
pub const SERVER_FIELD_PARSE_2: &'static str = "(&row[";
pub const SERVER_FIELD_PARSE_3: &'static str = "])?;";
pub const SERVER_FIELD_PASS_0: &'static str = "            ";
pub const SERVER_FIELD_PASS_1: &'static str = ",";
pub const SERVER_ENUM_0: &'static str = "\n";
pub const SERVER_ENUM_1: &'static str = "\npub enum ";
pub const SERVER_ENUM_2: &'static str = " {\n";
pub const SERVER_ENUM_3: &'static str = "\n}\n\nimpl ";
pub const SERVER_ENUM_4: &'static str = " {\n    pub fn parse(value: &calamine::Data) -> Result<Self, crate::data::LoadError> {\n        let enum_string = crate::data::parse_string(value)?;\n\n        Ok(match enum_string.as_str() {\n";
pub const SERVER_ENUM_5: &'static str = "\n            _ => return Err(crate::data::LoadError::Parse(format!(\n                \"Invalid value \\\"{enum_string}\\\" for ";
pub const SERVER_ENUM_6: &'static str = "\"\n            ))),\n        })\n    }\n\n    pub fn try_from(value: &";
pub const SERVER_ENUM_7: &'static str = ") -> Option<Self> {\n        Some(match value {\n";
pub const SERVER_ENUM_8: &'static str = "\n            _ => return None,\n        })\n    }\n}\n\nimpl Into<";
pub const SERVER_ENUM_9: &'static str = "> for ";
pub const SERVER_ENUM_10: &'static str = " {\n    fn into(self) -> ";
pub const SERVER_ENUM_11: &'static str = " {\n        match self {\n";
pub const SERVER_ENUM_12: &'static str = "\n        }\n    }\n}\n";
pub const SERVER_HANDLE_0: &'static str = "        handles.push(tokio::spawn(async {\n            let mut workbook: calamine::Ods<_> = calamine::open_workbook(data_dir.join())?;\n            let range = reader.worksheet_range(\"todo\")?;\n            crate::data::";
pub const SERVER_HANDLE_1: &'static str = "::";
pub const SERVER_HANDLE_2: &'static str = "::load(range.rows().skip(";
pub const SERVER_HANDLE_3: &'static str = "))\n        }));";
pub const SERVER_LEVEL_0: &'static str = "    let level";
pub const SERVER_LEVEL_1: &'static str = "_handles = {\n        let mut handles = Vec::new();\n";
pub const SERVER_LEVEL_2: &'static str = "\n        handles\n    };\n\n    for handle in level";
pub const SERVER_LEVEL_3: &'static str = "_handles {\n        match handle.await {\n            Ok(result) => { result?; },\n            _  => panic!(\"Data loading task has failed!\"),\n        }\n    }";
pub const SERVER_LOAD_ALL_0: &'static str = "pub async fn load_all(data_dir: &std::path::PathBuf) -> Result<(), crate::data::LoadError> {\n";
pub const SERVER_LOAD_ALL_1: &'static str = "\n\n    Ok(())\n}\n";
pub const SERVER_MODULE_0: &'static str = "\n";
pub const SERVER_MODULE_1: &'static str = "\n\n";
pub const SERVER_MODULE_2: &'static str = "\n\n";
pub const SERVER_MODULE_3: &'static str = "\n";
pub const MOD_DECL_0: &'static str = "pub mod ";
pub const MOD_DECL_1: &'static str = ";";
pub const TABLE_EXPORT_0: &'static str = "pub use ";
pub const TABLE_EXPORT_1: &'static str = "::{";
pub const TABLE_EXPORT_2: &'static str = ", ";
pub const TABLE_EXPORT_3: &'static str = ", ";
pub const TABLE_EXPORT_4: &'static str = "};";
pub const ENUM_EXPORT_0: &'static str = "pub use ";
pub const ENUM_EXPORT_1: &'static str = "::";
pub const ENUM_EXPORT_2: &'static str = ";";

pub open spec fn server_table_code_spec(data_cell_name: Seq<char>, data_type_name: Seq<char>, table_type_name: Seq<char>, lifetime_code: Seq<char>, lifetime_parameter_code: Seq<char>, field_definitions_code: Seq<char>, field_parses_code: Seq<char>, field_passes_code: Seq<char>) -> Seq<char> {
    GENERATED_FILE_WARNING_CODE@ + SERVER_TABLE_0@ + data_cell_name + SERVER_TABLE_1@ + data_type_name + SERVER_TABLE_2@ + table_type_name + lifetime_code + SERVER_TABLE_3@ + field_definitions_code + SERVER_TABLE_4@ + table_type_name + lifetime_code + SERVER_TABLE_5@ + field_parses_code + SERVER_TABLE_6@ + field_passes_code + SERVER_TABLE_7@ + lifetime_code + SERVER_TABLE_8@ + table_type_name + lifetime_parameter_code + SERVER_TABLE_9@ + data_type_name + SERVER_TABLE_10@ + data_type_name + lifetime_code + SERVER_TABLE_11@ + table_type_name + lifetime_code + SERVER_TABLE_12@ + lifetime_code + SERVER_TABLE_13@ + data_type_name + lifetime_parameter_code + SERVER_TABLE_14@ + table_type_name + SERVER_TABLE_15@ + data_cell_name + SERVER_TABLE_16@ + data_cell_name + SERVER_TABLE_17@ + table_type_name + SERVER_TABLE_18@ + table_type_name + SERVER_TABLE_19@ + data_cell_name + SERVER_TABLE_20@ + decimal(HEADER_ROWS as nat) + SERVER_TABLE_21@
}

pub open spec fn server_field_definition_line_spec(name: Seq<char>, ty: Seq<char>) -> Seq<char> {
    SERVER_FIELD_DEF_0@ + name + SERVER_FIELD_DEF_1@ + ty + SERVER_FIELD_DEF_2@
}

pub open spec fn server_field_parse_line_spec(field_name: Seq<char>, parse_function: Seq<char>, index: usize) -> Seq<char> {
    SERVER_FIELD_PARSE_0@ + field_name + SERVER_FIELD_PARSE_1@ + parse_function + SERVER_FIELD_PARSE_2@ + decimal(index as nat) + SERVER_FIELD_PARSE_3@
}

pub open spec fn server_field_pass_line_spec(name: Seq<char>) -> Seq<char> {
    SERVER_FIELD_PASS_0@ + name + SERVER_FIELD_PASS_1@
}

pub open spec fn server_enum_code_spec(attributes_code: Seq<char>, enum_type_name: Seq<char>, enums_code: Seq<char>, enum_parses_code: Seq<char>, base_type_name: Seq<char>, enum_froms_code: Seq<char>, enum_intos_code: Seq<char>) -> Seq<char> {
    GENERATED_FILE_WARNING_CODE@ + SERVER_ENUM_0@ + attributes_code + SERVER_ENUM_1@ + enum_type_name + SERVER_ENUM_2@ + enums_code + SERVER_ENUM_3@ + enum_type_name + SERVER_ENUM_4@ + enum_parses_code + SERVER_ENUM_5@ + enum_type_name + SERVER_ENUM_6@ + base_type_name + SERVER_ENUM_7@ + enum_froms_code + SERVER_ENUM_8@ + base_type_name + SERVER_ENUM_9@ + enum_type_name + SERVER_ENUM_10@ + base_type_name + SERVER_ENUM_11@ + enum_intos_code + SERVER_ENUM_12@
}

pub open spec fn load_handle_code_spec(namespace: Seq<char>, data_type_name: Seq<char>) -> Seq<char> {
    SERVER_HANDLE_0@ + namespace + SERVER_HANDLE_1@ + data_type_name + SERVER_HANDLE_2@ + decimal(HEADER_ROWS as nat) + SERVER_HANDLE_3@
}

pub open spec fn load_level_code_spec(i: usize, handles_code: Seq<char>) -> Seq<char> {
    SERVER_LEVEL_0@ + decimal(i as nat) + SERVER_LEVEL_1@ + handles_code + SERVER_LEVEL_2@ + decimal(i as nat) + SERVER_LEVEL_3@
}

pub open spec fn load_all_code_spec(level_handles_code: Seq<char>) -> Seq<char> {
    SERVER_LOAD_ALL_0@ + level_handles_code + SERVER_LOAD_ALL_1@
}

pub open spec fn module_code_spec(imports_code: Seq<char>, exports_code: Seq<char>, base_module_code: Seq<char>) -> Seq<char> {
    GENERATED_FILE_WARNING_CODE@ + SERVER_MODULE_0@ + imports_code + SERVER_MODULE_1@ + exports_code + SERVER_MODULE_2@ + base_module_code + SERVER_MODULE_3@
}

pub open spec fn mod_declaration_spec(name: Seq<char>) -> Seq<char> {
    MOD_DECL_0@ + name + MOD_DECL_1@
}

pub open spec fn table_export_spec(name: Seq<char>, type_ident: Seq<char>, data_type_name: Seq<char>, data_cell_name: Seq<char>) -> Seq<char> {
    TABLE_EXPORT_0@ + name + TABLE_EXPORT_1@ + type_ident + TABLE_EXPORT_2@ + data_type_name + TABLE_EXPORT_3@ + data_cell_name + TABLE_EXPORT_4@
}

pub open spec fn enum_export_spec(name: Seq<char>, type_ident: Seq<char>) -> Seq<char> {
    ENUM_EXPORT_0@ + name + ENUM_EXPORT_1@ + type_ident + ENUM_EXPORT_2@
}

/// The source of a table of the game server's data from its parts.
pub fn server_table_code(data_cell_name: &str, data_type_name: &str, table_type_name: &str, lifetime_code: &str, lifetime_parameter_code: &str, field_definitions_code: &str, field_parses_code: &str, field_passes_code: &str) -> (r: String)
    ensures
        r@ == server_table_code_spec(data_cell_name@, data_type_name@, table_type_name@, lifetime_code@, lifetime_parameter_code@, field_definitions_code@, field_parses_code@, field_passes_code@),
{
    let mut out = String::new();
    out.append(GENERATED_FILE_WARNING_CODE);
    out.append(SERVER_TABLE_0);
    out.append(data_cell_name);
    out.append(SERVER_TABLE_1);
    out.append(data_type_name);
    out.append(SERVER_TABLE_2);
    out.append(table_type_name);
    out.append(lifetime_code);
    out.append(SERVER_TABLE_3);
    out.append(field_definitions_code);
    out.append(SERVER_TABLE_4);
    out.append(table_type_name);
    out.append(lifetime_code);
    out.append(SERVER_TABLE_5);
    out.append(field_parses_code);
    out.append(SERVER_TABLE_6);
    out.append(field_passes_code);
    out.append(SERVER_TABLE_7);
    out.append(lifetime_code);
    out.append(SERVER_TABLE_8);
    out.append(table_type_name);
    out.append(lifetime_parameter_code);
    out.append(SERVER_TABLE_9);
    out.append(data_type_name);
    out.append(SERVER_TABLE_10);
    out.append(data_type_name);
    out.append(lifetime_code);
    out.append(SERVER_TABLE_11);
    out.append(table_type_name);
    out.append(lifetime_code);
    out.append(SERVER_TABLE_12);
    out.append(lifetime_code);
    out.append(SERVER_TABLE_13);
    out.append(data_type_name);
    out.append(lifetime_parameter_code);
    out.append(SERVER_TABLE_14);
    out.append(table_type_name);
    out.append(SERVER_TABLE_15);
    out.append(data_cell_name);
    out.append(SERVER_TABLE_16);
    out.append(data_cell_name);
    out.append(SERVER_TABLE_17);
    out.append(table_type_name);
    out.append(SERVER_TABLE_18);
    out.append(table_type_name);
    out.append(SERVER_TABLE_19);
    out.append(data_cell_name);
    out.append(SERVER_TABLE_20);
    push_decimal(&mut out, HEADER_ROWS as u64);
    out.append(SERVER_TABLE_21);
    out
}

/// The line that declares a row field.
pub fn server_field_definition_line(name: &str, ty: &str) -> (r: String)
    ensures
        r@ == server_field_definition_line_spec(name@, ty@),
{
    let mut out = String::new();
    out.append(SERVER_FIELD_DEF_0);
    out.append(name);
    out.append(SERVER_FIELD_DEF_1);
    out.append(ty);
    out.append(SERVER_FIELD_DEF_2);
    out
}

/// The line that parses a row field from its column.
pub fn server_field_parse_line(field_name: &str, parse_function: &str, index: usize) -> (r: String)
    ensures
        r@ == server_field_parse_line_spec(field_name@, parse_function@, index),
{
    let mut out = String::new();
    out.append(SERVER_FIELD_PARSE_0);
    out.append(field_name);
    out.append(SERVER_FIELD_PARSE_1);
    out.append(parse_function);
    out.append(SERVER_FIELD_PARSE_2);
    push_decimal(&mut out, index as u64);
    out.append(SERVER_FIELD_PARSE_3);
    out
}

/// The line that passes a parsed field to the row.
pub fn server_field_pass_line(name: &str) -> (r: String)
    ensures
        r@ == server_field_pass_line_spec(name@),
{
    let mut out = String::new();
    out.append(SERVER_FIELD_PASS_0);
    out.append(name);
    out.append(SERVER_FIELD_PASS_1);
    out
}

/// The source of an enumeration of the game server's data from its parts.
pub fn server_enum_code(attributes_code: &str, enum_type_name: &str, enums_code: &str, enum_parses_code: &str, base_type_name: &str, enum_froms_code: &str, enum_intos_code: &str) -> (r: String)
    ensures
        r@ == server_enum_code_spec(attributes_code@, enum_type_name@, enums_code@, enum_parses_code@, base_type_name@, enum_froms_code@, enum_intos_code@),
{
    let mut out = String::new();
    out.append(GENERATED_FILE_WARNING_CODE);
    out.append(SERVER_ENUM_0);
    out.append(attributes_code);
    out.append(SERVER_ENUM_1);
    out.append(enum_type_name);
    out.append(SERVER_ENUM_2);
    out.append(enums_code);
    out.append(SERVER_ENUM_3);
    out.append(enum_type_name);
    out.append(SERVER_ENUM_4);
    out.append(enum_parses_code);
    out.append(SERVER_ENUM_5);
    out.append(enum_type_name);
    out.append(SERVER_ENUM_6);
    out.append(base_type_name);
    out.append(SERVER_ENUM_7);
    out.append(enum_froms_code);
    out.append(SERVER_ENUM_8);
    out.append(base_type_name);
    out.append(SERVER_ENUM_9);
    out.append(enum_type_name);
    out.append(SERVER_ENUM_10);
    out.append(base_type_name);
    out.append(SERVER_ENUM_11);
    out.append(enum_intos_code);
    out.append(SERVER_ENUM_12);
    out
}

/// The task that loads one table.
pub fn load_handle_code(namespace: &str, data_type_name: &str) -> (r: String)
    ensures
        r@ == load_handle_code_spec(namespace@, data_type_name@),
{
    let mut out = String::new();
    out.append(SERVER_HANDLE_0);
    out.append(namespace);
    out.append(SERVER_HANDLE_1);
    out.append(data_type_name);
    out.append(SERVER_HANDLE_2);
    push_decimal(&mut out, HEADER_ROWS as u64);
    out.append(SERVER_HANDLE_3);
    out
}

/// The tasks that load the tables of one level, and the wait for them.
pub fn load_level_code(i: usize, handles_code: &str) -> (r: String)
    ensures
        r@ == load_level_code_spec(i, handles_code@),
{
    let mut out = String::new();
    out.append(SERVER_LEVEL_0);
    push_decimal(&mut out, i as u64);
    out.append(SERVER_LEVEL_1);
    out.append(handles_code);
    out.append(SERVER_LEVEL_2);
    push_decimal(&mut out, i as u64);
    out.append(SERVER_LEVEL_3);
    out
}

/// The function that loads all tables, level by level.
pub fn load_all_code(level_handles_code: &str) -> (r: String)
    ensures
        r@ == load_all_code_spec(level_handles_code@),
{
    let mut out = String::new();
    out.append(SERVER_LOAD_ALL_0);
    out.append(level_handles_code);
    out.append(SERVER_LOAD_ALL_1);
    out
}

/// The source of a module of the game server's data.
pub fn module_code(imports_code: &str, exports_code: &str, base_module_code: &str) -> (r: String)
    ensures
        r@ == module_code_spec(imports_code@, exports_code@, base_module_code@),
{
    let mut out = String::new();
    out.append(GENERATED_FILE_WARNING_CODE);
    out.append(SERVER_MODULE_0);
    out.append(imports_code);
    out.append(SERVER_MODULE_1);
    out.append(exports_code);
    out.append(SERVER_MODULE_2);
    out.append(base_module_code);
    out.append(SERVER_MODULE_3);
    out
}

/// The declaration of a child module.
pub fn mod_declaration(name: &str) -> (r: String)
    ensures
        r@ == mod_declaration_spec(name@),
{
    let mut out = String::new();
    out.append(MOD_DECL_0);
    out.append(name);
    out.append(MOD_DECL_1);
    out
}

/// The re-export of a table's types.
pub fn table_export(name: &str, type_ident: &str, data_type_name: &str, data_cell_name: &str) -> (r: String)
    ensures
        r@ == table_export_spec(name@, type_ident@, data_type_name@, data_cell_name@),
{
    let mut out = String::new();
    out.append(TABLE_EXPORT_0);
    out.append(name);
    out.append(TABLE_EXPORT_1);
    out.append(type_ident);
    out.append(TABLE_EXPORT_2);
    out.append(data_type_name);
    out.append(TABLE_EXPORT_3);
    out.append(data_cell_name);
    out.append(TABLE_EXPORT_4);
    out
}

/// The re-export of an enumeration's type.
pub fn enum_export(name: &str, type_ident: &str) -> (r: String)
    ensures
        r@ == enum_export_spec(name@, type_ident@),
{
    let mut out = String::new();
    out.append(ENUM_EXPORT_0);
    out.append(name);
    out.append(ENUM_EXPORT_1);
    out.append(type_ident);
    out.append(ENUM_EXPORT_2);
    out
}

/// The type name of an entity: its upper camel case.
pub fn to_type_name(name: &str) -> (r: String)
    ensures
        r@ == upper_camel_case(name@),
{
    to_upper_camel_case(name)
}

/// The module name of an entity: its snake case.
pub fn to_entity_name(name: &str) -> (r: String)
    ensures
        r@ == snake_case(name@),
{
    to_snake_case(name)
}

pub open spec fn data_type_name_spec(name: Seq<char>) -> Seq<char> {
    upper_camel_case(name) + "Data"@
}

pub open spec fn data_cell_name_spec(name: Seq<char>) -> Seq<char> {
    uppercase(snake_case(name)) + "_DATA"@
}

/// The name of the type that holds a table's rows.
pub fn to_data_type_name(name: &str) -> (r: String)
    ensures
        r@ == data_type_name_spec(name@),
{
    let mut r = to_upper_camel_case(name);
    r.append("Data");
    r
}

/// The name of the static cell that holds a table's rows.
pub fn to_data_cell_name(name: &str) -> (r: String)
    ensures
        r@ == data_cell_name_spec(name@),
{
    let snake = to_snake_case(name);
    let mut r = to_uppercase(snake.as_str());
    r.append("_DATA");
    r
}

/// The plain view of a field's kind.
pub enum ServerKindView {
    Scalar(ScalarType),
    Enum(Seq<char>),
    Link(Seq<char>),
}

impl View for FieldKind {
    type V = ServerKindView;

    open spec fn view(&self) -> ServerKindView {
        match self {
            FieldKind::Scalar { scalar_type } => ServerKindView::Scalar(*scalar_type),
            FieldKind::Enum { enum_type } => ServerKindView::Enum(enum_type@),
            FieldKind::Link { link_type } => ServerKindView::Link(link_type@),
        }
    }
}

pub open spec fn server_scalar_type(t: ScalarType) -> Seq<char> {
    match t {
        ScalarType::Id => "DataId"@,
        ScalarType::Bool => "bool"@,
        ScalarType::Int8 => "i8"@,
        ScalarType::Int16 => "i16"@,
        ScalarType::Int32 => "i32"@,
        ScalarType::Int64 => "i64"@,
        ScalarType::Uint8 => "u8"@,
        ScalarType::Uint16 => "u16"@,
        ScalarType::Uint32 => "u32"@,
        ScalarType::Uint64 => "u64"@,
        ScalarType::Float32 => "f32"@,
        ScalarType::Float64 => "f64"@,
        ScalarType::Str => "String"@,
        ScalarType::Datetime => "chrono::DateTime"@,
        ScalarType::Duration => "chrono::Duration"@,
    }
}

pub open spec fn scalar_parse_function(t: ScalarType) -> Seq<char> {
    match t {
        ScalarType::Id => "parse_id"@,
        ScalarType::Bool => "parse_bool"@,
        ScalarType::Int8 => "parse_i8"@,
        ScalarType::Int16 => "parse_i16"@,
        ScalarType::Int32 => "parse_i32"@,
        ScalarType::Int64 => "parse_i64"@,
        ScalarType::Uint8 => "parse_u8"@,
        ScalarType::Uint16 => "parse_u16"@,
        ScalarType::Uint32 => "parse_u32"@,
        ScalarType::Uint64 => "parse_u64"@,
        ScalarType::Float32 => "parse_f32"@,
        ScalarType::Float64 => "parse_f64"@,
        ScalarType::Str => "parse_str"@,
        ScalarType::Datetime => "parse_datetime"@,
        ScalarType::Duration => "parse_duration"@,
    }
}

/// The Rust type of a field's values.
pub open spec fn server_rust_type(k: ServerKindView) -> Seq<char> {
    match k {
        ServerKindView::Scalar(t) => server_scalar_type(t),
        ServerKindView::Enum(t) => SERVER_CRATE_PREFIX@ + "::"@ + t,
        ServerKindView::Link(t) => "Link<'a, "@ + SERVER_CRATE_PREFIX@ + "::"@ + t + ">"@,
    }
}

/// The function that parses a field's values.
pub open spec fn server_parse_code(k: ServerKindView) -> Seq<char> {
    match k {
        ServerKindView::Scalar(t) => SERVER_CRATE_PREFIX@ + "::"@ + scalar_parse_function(t),
        ServerKindView::Enum(t) => SERVER_CRATE_PREFIX@ + "::"@ + t + "::parse"@,
        ServerKindView::Link(t) => SERVER_CRATE_PREFIX@ + "::parse_link::<"@ + SERVER_CRATE_PREFIX@ + "::"@ + t + ">"@,
    }
}

impl FieldKind {
    /// The Rust type of a field's values.
    pub fn to_rust_type(&self) -> (r: String)
        ensures
            r@ == server_rust_type(self@),
    {
        match self {
            FieldKind::Scalar { scalar_type } => {
                let s: &str = match scalar_type {
                    ScalarType::Id => "DataId",
                    ScalarType::Bool => "bool",
                    ScalarType::Int8 => "i8",
                    ScalarType::Int16 => "i16",
                    ScalarType::Int32 => "i32",
                    ScalarType::Int64 => "i64",
                    ScalarType::Uint8 => "u8",
                    ScalarType::Uint16 => "u16",
                    ScalarType::Uint32 => "u32",
                    ScalarType::Uint64 => "u64",
                    ScalarType::Float32 => "f32",
                    ScalarType::Float64 => "f64",
                    ScalarType::Str => "String",
                    ScalarType::Datetime => "chrono::DateTime",
                    ScalarType::Duration => "chrono::Duration",
                };
                s.to_owned()
            },
            FieldKind::Enum { enum_type } => {
                let mut r = SERVER_CRATE_PREFIX.to_owned();
                r.append("::");
                r.append(enum_type.as_str());
                r
            },
            FieldKind::Link { link_type } => {
                let mut r = "Link<'a, ".to_owned();
                r.append(SERVER_CRATE_PREFIX);
                r.append("::");
                r.append(link_type.as_str());
                r.append(">");
                r
            },
        }
    }

    /// The function that parses a field's values.
    pub fn to_parse_code(&self) -> (r: String)
        ensures
            r@ == server_parse_code(self@),
    {
        match self {
            FieldKind::Scalar { scalar_type } => {
                let f: &str = match scalar_type {
                    ScalarType::Id => "parse_id",
                    ScalarType::Bool => "parse_bool",
                    ScalarType::Int8 => "parse_i8",
                    ScalarType::Int16 => "parse_i16",
                    ScalarType::Int32 => "parse_i32",
                    ScalarType::Int64 => "parse_i64",
                    ScalarType::Uint8 => "parse_u8",
                    ScalarType::Uint16 => "parse_u16",
                    ScalarType::Uint32 => "parse_u32",
                    ScalarType::Uint64 => "parse_u64",
                    ScalarType::Float32 => "parse_f32",
                    ScalarType::Float64 => "parse_f64",
                    ScalarType::Str => "parse_str",
                    ScalarType::Datetime => "parse_datetime",
                    ScalarType::Duration => "parse_duration",
                };
                let mut r = SERVER_CRATE_PREFIX.to_owned();
                r.append("::");
                r.append(f);
                r
            },
            FieldKind::Enum { enum_type } => {
                let mut r = SERVER_CRATE_PREFIX.to_owned();
                r.append("::");
                r.append(enum_type.as_str());
                r.append("::parse");
                r
            },
            FieldKind::Link { link_type } => {
                let mut r = SERVER_CRATE_PREFIX.to_owned();
                r.append("::parse_link::<");
                r.append(SERVER_CRATE_PREFIX);
                r.append("::");
                r.append(link_type.as_str());
                r.append(">");
                r
            },
        }
    }
}

/// Whether any field of the table is a link.
pub open spec fn has_link_field(fields: Seq<Field>) -> bool {
    exists|i: int| 0 <= i < fields.len() && #[trigger] fields[i].kind@ is Link
}

/// The source of a concrete table of the game server's data.
pub open spec fn server_concrete_spec(schema: TableSchema) -> Seq<char> {
    let fields = schema.fields@;
    let linked = has_link_field(fields);
    server_table_code_spec(
        data_cell_name_spec(schema.name@),
        data_type_name_spec(schema.name@),
        schema.name@,
        if linked { "<'a>"@ } else { Seq::empty() },
        if linked { "<'_>"@ } else { Seq::empty() },
        seq_join(Seq::new(fields.len(), |i: int| server_field_definition_line_spec(fields[i].name@, server_rust_type(fields[i].kind@))), "\n"@),
        seq_join(Seq::new(fields.len(), |i: int| server_field_parse_line_spec(fields[i].name@, server_parse_code(fields[i].kind@), i as usize)), "\n"@),
        seq_join(Seq::new(fields.len(), |i: int| server_field_pass_line_spec(fields[i].name@)), "\n"@),
    )
}

impl TableSchema {
    /// The source of the table; only concrete tables are generated.
    pub fn generate(&self) -> (r: Result<String, GenerateError>)
        requires
            self.kind == TableKind::Concrete,
        ensures
            r matches Ok(code) && code@ == server_concrete_spec(*self),
    {
        match self.kind {
            TableKind::Concrete => self.generate_concrete(),
            TableKind::Abstract => Ok(String::new()),
        }
    }

    /// The source of a concrete table: its row type, parsing of rows, and
    /// loading of all rows into its static cell with duplicate checks.
    pub fn generate_concrete(&self) -> (r: Result<String, GenerateError>)
        ensures
            r matches Ok(code) && code@ == server_concrete_spec(*self),
    {
        let data_type_name = to_data_type_name(self.name.as_str());
        let data_cell_name = to_data_cell_name(self.name.as_str());
        let mut linked = false;
        let mut definitions: Vec<String> = Vec::new();
        let mut parses: Vec<String> = Vec::new();
        let mut passes: Vec<String> = Vec::new();
        let ghost fields = self.fields@;
        let mut index: usize = 0;
        while index < self.fields.len()
            invariant
                index <= self.fields.len(),
                fields == self.fields@,
                linked == exists|i: int| 0 <= i < index && #[trigger] fields[i].kind@ is Link,
                definitions@.len() == index,
                parses@.len() == index,
                passes@.len() == index,
                forall|i: int| 0 <= i < index ==> #[trigger] definitions@[i]@
                    == server_field_definition_line_spec(fields[i].name@, server_rust_type(fields[i].kind@)),
                forall|i: int| 0 <= i < index ==> #[trigger] parses@[i]@
                    == server_field_parse_line_spec(fields[i].name@, server_parse_code(fields[i].kind@), i as usize),
                forall|i: int| 0 <= i < index ==> #[trigger] passes@[i]@ == server_field_pass_line_spec(fields[i].name@),
            decreases self.fields.len() - index,
        {
            let field = &self.fields[index];
            match &field.kind {
                FieldKind::Link { .. } => {
                    linked = true;
                },
                _ => {},
            }
            let ty = field.kind.to_rust_type();
            definitions.push(server_field_definition_line(field.name.as_str(), ty.as_str()));
            let parse_function = field.kind.to_parse_code();
            parses.push(server_field_parse_line(field.name.as_str(), parse_function.as_str(), index));
            passes.push(server_field_pass_line(field.name.as_str()));
            index = index + 1;
        }
        let lifetime_code = if linked { "<'a>".to_owned() } else { String::new() };
        let lifetime_parameter_code = if linked { "<'_>".to_owned() } else { String::new() };
        assert(views(definitions@) =~= Seq::new(fields.len(), |i: int| server_field_definition_line_spec(fields[i].name@, server_rust_type(fields[i].kind@))));
        assert(views(parses@) =~= Seq::new(fields.len(), |i: int| server_field_parse_line_spec(fields[i].name@, server_parse_code(fields[i].kind@), i as usize)));
        assert(views(passes@) =~= Seq::new(fields.len(), |i: int| server_field_pass_line_spec(fields[i].name@)));
        let definitions_code = join(&definitions, "\n");
        let parses_code = join(&parses, "\n");
        let passes_code = join(&passes, "\n");
        Ok(server_table_code(
            data_cell_name.as_str(),
            data_type_name.as_str(),
            self.name.as_str(),
            lifetime_code.as_str(),
            lifetime_parameter_code.as_str(),
            definitions_code.as_str(),
            parses_code.as_str(),
            passes_code.as_str(),
        ))
    }
}

impl EnumBase {
    pub open spec fn rust_type_spec(self) -> Seq<char> {
        match self {
            EnumBase::Uint8 => "u8"@,
            EnumBase::Uint16 => "u16"@,
            EnumBase::Uint32 => "u32"@,
        }
    }

    /// The Rust integer type that holds the enumeration's value.
    pub fn to_rust_type(&self) -> (r: String)
        ensures
            r@ == self.rust_type_spec(),
    {
        let s: &str = match self {
            EnumBase::Uint8 => "u8",
            EnumBase::Uint16 => "u16",
            EnumBase::Uint32 => "u32",
        };
        s.to_owned()
    }
}

/// The attribute lines given for the server, in order.
pub open spec fn server_attributes(attrs: Seq<EnumAttribute>) -> Seq<Seq<char>>
    decreases attrs.len(),
{
    if attrs.len() == 0 {
        Seq::empty()
    } else {
        let rest = server_attributes(attrs.drop_last());
        let a = attrs.last();
        if a.target == Target::Server || a.target == Target::All { rest.push(a.attribute@) } else { rest }
    }
}

pub open spec fn lines_of(kind: VariantLine, enums: Seq<String>) -> Seq<Seq<char>> {
    Seq::new(enums.len(), |k: int| variant_line_spec(kind, enums[k]@, k as u32))
}

/// The source of an enumeration of the game server's data.
pub open spec fn server_enum_spec(schema: EnumSchema) -> Seq<char> {
    let enums = schema.enums@;
    server_enum_code_spec(
        seq_join(server_attributes(schema.attributes@), "\n"@),
        schema.name@,
        seq_join(lines_of(VariantLine::Variant, enums), "\n"@),
        seq_join(lines_of(VariantLine::Parse, enums), "\n"@),
        schema.base.rust_type_spec(),
        seq_join(lines_of(VariantLine::From, enums), "\n"@),
        seq_join(lines_of(VariantLine::Into, enums), "\n"@),
    )
}

impl EnumSchema {
    /// The source of the enumeration: its type, parsing from a sheet cell,
    /// and conversions from and to its base integer type.
    pub fn generate(&self) -> (r: Result<String, GenerateError>)
        requires
            self.enums@.len() <= u32::MAX,
        ensures
            r matches Ok(code) && code@ == server_enum_spec(*self),
    {
        let mut attributes: Vec<String> = Vec::new();
        let mut i: usize = 0;
        while i < self.attributes.len()
            invariant
                i <= self.attributes.len(),
                views(attributes@) == server_attributes(self.attributes@.take(i as int)),
            decreases self.attributes.len() - i,
        {
            let ghost before = views(attributes@);
            let attribute = &self.attributes[i];
            proof {
                assert(self.attributes@.take(i + 1).drop_last() =~= self.attributes@.take(i as int));
            }
            if attribute.target.is_target() {
                attributes.push(attribute.attribute.clone());
                assert(views(attributes@) =~= before.push(attribute.attribute@));
            }
            i = i + 1;
        }
        assert(self.attributes@.take(self.attributes.len() as int) =~= self.attributes@);
        let attributes_code = join(&attributes, "\n");
        let enums_code = variant_lines_code(VariantLine::Variant, &self.enums, "\n");
        let parses_code = variant_lines_code(VariantLine::Parse, &self.enums, "\n");
        let froms_code = variant_lines_code(VariantLine::From, &self.enums, "\n");
        let intos_code = variant_lines_code(VariantLine::Into, &self.enums, "\n");
        let base = self.base.to_rust_type();
        Ok(server_enum_code(
            attributes_code.as_str(),
            self.name.as_str(),
            enums_code.as_str(),
            parses_code.as_str(),
            base.as_str(),
            froms_code.as_str(),
            intos_code.as_str(),
        ))
    }
}

impl TableDef {
    pub open spec fn name_with_namespace_spec(&self) -> Seq<char> {
        seq_join(views(self.namespaces@), "::"@) + "::"@ + self.name@
    }

    /// The table's name after the path of its namespaces.
    pub fn get_name_with_namespace(&self) -> (r: String)
        ensures
            r@ == self.name_with_namespace_spec(),
    {
        let mut r = join(&self.namespaces, "::");
        r.append("::");
        r.append(self.name.as_str());
        r
    }
}

/// The name a server table schema gives a scalar type.
pub open spec fn server_scalar_schema_name(t: ScalarType) -> Seq<char> {
    match t {
        ScalarType::Id => "id"@,
        ScalarType::Bool => "bool"@,
        ScalarType::Int8 => "int8"@,
        ScalarType::Int16 => "int16"@,
        ScalarType::Int32 => "int32"@,
        ScalarType::Int64 => "int64"@,
        ScalarType::Uint8 => "uint8"@,
        ScalarType::Uint16 => "uint16"@,
        ScalarType::Uint32 => "uint32"@,
        ScalarType::Uint64 => "uint64"@,
        ScalarType::Float32 => "float32"@,
        ScalarType::Float64 => "float64"@,
        ScalarType::Str => "str"@,
        ScalarType::Datetime => "datetime"@,
        ScalarType::Duration => "duration"@,
    }
}

/// Whether values of the scalar type are of a Rust primitive type: a
/// boolean or a number.
pub open spec fn server_scalar_is_primitive(t: ScalarType) -> bool {
    !(t is Id || t is Str || t is Datetime || t is Duration)
}

/// A numeric field's Rust type has the width and kind that its schema type
/// names (`int64` is written `i64`), and every field of a primitive type is
/// declared with the type that its parse function returns: the function is
/// `parse_` followed by that type (`parse_i64` for `i64`). The parse
/// function of any other scalar is `parse_` followed by the schema's name
/// for it (`parse_str` for `str`).
pub proof fn lemma_server_scalar_type_follows_schema_name(t: ScalarType, bits: Seq<char>)
    ensures
        primitive_of_schema_name(server_scalar_schema_name(t), server_scalar_type(t), bits),
        server_scalar_is_primitive(t) ==> scalar_parse_function(t) == "parse_"@ + server_scalar_type(t),
        !server_scalar_is_primitive(t) || t is Bool ==> scalar_parse_function(t) == "parse_"@ + server_scalar_schema_name(t),
{
    reveal_strlit("i");
    reveal_strlit("u");
    reveal_strlit("f");
    reveal_strlit("parse_");
    match t {
        ScalarType::Id => {
            reveal_strlit("id");
            reveal_strlit("DataId");
            reveal_strlit("parse_id");
        },
        ScalarType::Bool => {
            reveal_strlit("bool");
            reveal_strlit("bool");
            reveal_strlit("parse_bool");
        },
        ScalarType::Int8 => {
            reveal_strlit("int8");
            reveal_strlit("i8");
            reveal_strlit("parse_i8");
        },
        ScalarType::Int16 => {
            reveal_strlit("int16");
            reveal_strlit("i16");
            reveal_strlit("parse_i16");
        },
        ScalarType::Int32 => {
            reveal_strlit("int32");
            reveal_strlit("i32");
            reveal_strlit("parse_i32");
        },
        ScalarType::Int64 => {
            reveal_strlit("int64");
            reveal_strlit("i64");
            reveal_strlit("parse_i64");
        },
        ScalarType::Uint8 => {
            reveal_strlit("uint8");
            reveal_strlit("u8");
            reveal_strlit("parse_u8");
        },
        ScalarType::Uint16 => {
            reveal_strlit("uint16");
            reveal_strlit("u16");
            reveal_strlit("parse_u16");
        },
        ScalarType::Uint32 => {
            reveal_strlit("uint32");
            reveal_strlit("u32");
            reveal_strlit("parse_u32");
        },
        ScalarType::Uint64 => {
            reveal_strlit("uint64");
            reveal_strlit("u64");
            reveal_strlit("parse_u64");
        },
        ScalarType::Float32 => {
            reveal_strlit("float32");
            reveal_strlit("f32");
            reveal_strlit("parse_f32");
        },
        ScalarType::Float64 => {
            reveal_strlit("float64");
            reveal_strlit("f64");
            reveal_strlit("parse_f64");
        },
        ScalarType::Str => {
            reveal_strlit("str");
            reveal_strlit("String");
            reveal_strlit("parse_str");
        },
        ScalarType::Datetime => {
            reveal_strlit("datetime");
            reveal_strlit("chrono::DateTime");
            reveal_strlit("parse_datetime");
        },
        ScalarType::Duration => {
            reveal_strlit("duration");
            reveal_strlit("chrono::Duration");
            reveal_strlit("parse_duration");
        },
    }
    let name = server_scalar_schema_name(t);
    let rust = server_scalar_type(t);
    if name.len() >= 3 {
        assert(rust =~= "i"@ + name.skip(3) || !(name[0] == 'i' && name[1] == 'n'));
    }
    if name.len() >= 4 {
        assert(rust =~= "u"@ + name.skip(4) || !(name[0] == 'u' && name[1] == 'i'));
    }
    if name.len() >= 5 {
        assert(rust =~= "f"@ + name.skip(5) || !(name[0] == 'f' && name[1] == 'l'));
    }
    if server_scalar_is_primitive(t) {
        assert(scalar_parse_function(t) =~= "parse_"@ + rust);
    }
    if !server_scalar_is_primitive(t) || t is Bool {
        assert(scalar_parse_function(t) =~= "parse_"@ + name);
    }
    lemma_primitive_of_schema_name(name, rust, bits);
}

/// The name a server schema gives an enumeration's base.
pub open spec fn enum_base_schema_name(b: EnumBase) -> Seq<char> {
    match b {
        EnumBase::Uint8 => "uint8"@,
        EnumBase::Uint16 => "uint16"@,
        EnumBase::Uint32 => "uint32"@,
    }
}

/// The integer type written for an enumeration is the one its schema names:
/// `uint16` is written `u16`.
pub proof fn lemma_enum_base_rust_type_follows_schema_name(b: EnumBase, bits: Seq<char>)
    ensures
        primitive_of_schema_name(enum_base_schema_name(b), b.rust_type_spec(), bits),
{
    reveal_strlit("u");
    match b {
        EnumBase::Uint8 => {
            reveal_strlit("uint8");
            reveal_strlit("u8");
        },
        EnumBase::Uint16 => {
            reveal_strlit("uint16");
            reveal_strlit("u16");
        },
        EnumBase::Uint32 => {
            reveal_strlit("uint32");
            reveal_strlit("u32");
        },
    }
    let name = enum_base_schema_name(b);
    let rust = b.rust_type_spec();
    assert(rust =~= "u"@ + name.skip(4));
    lemma_primitive_of_schema_name(name, rust, bits);
}

/// Enumerations with different bases get different integer types.
pub proof fn lemma_enum_base_rust_types_distinct(a: EnumBase, b: EnumBase)
    requires
        a != b,
    ensures
        a.rust_type_spec() != b.rust_type_spec(),
{
    reveal_strlit("u8");
    reveal_strlit("u16");
    reveal_strlit("u32");
    assert("u16"@[1] != "u32"@[1]);
}

/// Different scalar types get different Rust types.
pub proof fn lemma_server_scalar_types_distinct(a: ScalarType, b: ScalarType)
    requires
        a != b,
    ensures
        server_scalar_type(a) != server_scalar_type(b),
{
    reveal_strlit("DataId");
    reveal_strlit("bool");
    reveal_strlit("i8");
    reveal_strlit("i16");
    reveal_strlit("i32");
    reveal_strlit("i64");
    reveal_strlit("u8");
    reveal_strlit("u16");
    reveal_strlit("u32");
    reveal_strlit("u64");
    reveal_strlit("f32");
    reveal_strlit("f64");
    reveal_strlit("String");
    reveal_strlit("chrono::DateTime");
    reveal_strlit("chrono::Duration");
    let x = server_scalar_type(a);
    let y = server_scalar_type(b);
    if x == y {
        assert(x.len() == y.len() && x[0] == y[0] && x[x.len() - 1] == y[y.len() - 1]);
    }
}

} // verus!
