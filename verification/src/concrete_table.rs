//! The generated source of a concrete table: its row type, how rows are
//! parsed and checked, and how the table is loaded and its links resolved.

use vstd::prelude::*;
use crate::generator::{Chain, Generator, clone_option};
use crate::names::Name;
use crate::rust_types::{
    GENERATED_FILE_WARNING, HEADER_ROWS, TUPLE_TYPES_MAX_COUNT, has_link_spec, rust_type, valid_kind,
};
use crate::schema::{
    ConcreteTableSchema, Constraint, Error, Field, FieldKind, FieldKindView, FieldView, TableSchematic,
    Target, field_views, kind_view, kind_views, lemma_kind_views, opt_view,
};
use crate::text::{decimal, join, push_decimal, push_signed_decimal, seq_join, signed_decimal, views};

verus! {

pub const FIELD_DEF_0: &'static str = "    pub ";
pub const FIELD_DEF_1: &'static str = ": ";
pub const FIELD_DEF_2: &'static str = ",";
pub const FIELD_PARSE_OPTIONAL_0: &'static str = "        let ";
pub const FIELD_PARSE_OPTIONAL_1: &'static str = " = parse_optional(&row[";
pub const FIELD_PARSE_OPTIONAL_2: &'static str = "]).map_err(|e| (\"";
pub const FIELD_PARSE_OPTIONAL_3: &'static str = "\", e))?;";
pub const FIELD_PARSE_MULTI_0: &'static str = "        let ";
pub const FIELD_PARSE_MULTI_1: &'static str = " = parse_multi(&row[";
pub const FIELD_PARSE_MULTI_2: &'static str = "]).map_err(|e| (\"";
pub const FIELD_PARSE_MULTI_3: &'static str = "\", e))?;";
pub const FIELD_PARSE_0: &'static str = "        let ";
pub const FIELD_PARSE_1: &'static str = " = parse(&row[";
pub const FIELD_PARSE_2: &'static str = "]).map_err(|e| (\"";
pub const FIELD_PARSE_3: &'static str = "\", e))?;";
pub const UNIQUE_INIT_0: &'static str = "        let mut ";
pub const UNIQUE_INIT_1: &'static str = " = std::collections::HashSet::<";
pub const UNIQUE_INIT_2: &'static str = ">::new();";
pub const UNIQUE_CHECK_0: &'static str = "            if !";
pub const UNIQUE_CHECK_1: &'static str = ".insert(row.";
pub const UNIQUE_CHECK_2: &'static str = ".clone()) {\n            return Err((\"";
pub const UNIQUE_CHECK_3: &'static str = "\", ConstraintError::Unique {\n                type_name: std::any::type_name::<";
pub const UNIQUE_CHECK_4: &'static str = ">(),\n                value: row.";
pub const UNIQUE_CHECK_5: &'static str = ".to_string(),\n            }));\n        }";
pub const MAX_CHECK_0: &'static str = "            if row.";
pub const MAX_CHECK_1: &'static str = " > ";
pub const MAX_CHECK_2: &'static str = " {\n            return Err((\"";
pub const MAX_CHECK_3: &'static str = "\", ConstraintError::Max {\n                type_name: std::any::type_name::<";
pub const MAX_CHECK_4: &'static str = ">(),\n                expected: ";
pub const MAX_CHECK_5: &'static str = ".to_string(),\n                actual: row.";
pub const MAX_CHECK_6: &'static str = ".to_string(),\n            }));\n        }";
pub const MIN_CHECK_0: &'static str = "            if row.";
pub const MIN_CHECK_1: &'static str = " < ";
pub const MIN_CHECK_2: &'static str = " {\n            return Err((\"";
pub const MIN_CHECK_3: &'static str = "\", ConstraintError::Min {\n                type_name: std::any::type_name::<";
pub const MIN_CHECK_4: &'static str = ">(),\n                expected: ";
pub const MIN_CHECK_5: &'static str = ".to_string(),\n                actual: row.";
pub const MIN_CHECK_6: &'static str = ".to_string(),\n            }));\n        }";
pub const OPTIONAL_LINK_0: &'static str = "                if let Some(";
pub const OPTIONAL_LINK_1: &'static str = ") = row.";
pub const OPTIONAL_LINK_2: &'static str = ".as_mut() {\n";
pub const OPTIONAL_LINK_3: &'static str = "\n                }";
pub const MULTI_LINK_0: &'static str = "                for x in &mut row.";
pub const MULTI_LINK_1: &'static str = " {\n";
pub const MULTI_LINK_2: &'static str = "\n                }";
pub const OPT_LINK_LINE_0: &'static str = "                    ";
pub const OPT_LINK_LINE_1: &'static str = ".init().map_err(|e| (*id, e))?;";
pub const OPT_TUPLE_LINK_LINE_0: &'static str = "                ";
pub const OPT_TUPLE_LINK_LINE_1: &'static str = ".";
pub const OPT_TUPLE_LINK_LINE_2: &'static str = ".init().map_err(|e| (*id, e))?;";
pub const MULTI_LINK_LINE_0: &'static str = "                    x.init().map_err(|e| (*id, e))?;";
pub const MULTI_TUPLE_LINK_LINE_0: &'static str = "                    x.";
pub const MULTI_TUPLE_LINK_LINE_1: &'static str = ".init().map_err(|e| (*id, e))?;";
pub const LINK_LINE_0: &'static str = "                row.";
pub const LINK_LINE_1: &'static str = ".init().map_err(|e| (*id, e))?;";
pub const TUPLE_LINK_LINE_0: &'static str = "            row.";
pub const TUPLE_LINK_LINE_1: &'static str = ".";
pub const TUPLE_LINK_LINE_2: &'static str = ".init().map_err(|e| (*id, e))?;";
pub const FIELD_PASS_0: &'static str = "            ";
pub const FIELD_PASS_1: &'static str = ",";
pub const PARENT_INSERT_0: &'static str = "\n\n        for (id, row) in unsafe { ";
pub const PARENT_INSERT_1: &'static str = ".assume_init_ref() }.rows.iter() {\n            crate::";
pub const PARENT_INSERT_2: &'static str = "Table::insert(&id, crate::";
pub const PARENT_INSERT_3: &'static str = "::";
pub const PARENT_INSERT_4: &'static str = "(row)).await?;\n        }";
pub const LINK_INITS_0: &'static str = "\n        (|| {\n            for (id, row) in &mut unsafe { ";
pub const LINK_INITS_1: &'static str = ".assume_init_mut() }.rows {\n";
pub const LINK_INITS_2: &'static str = "\n            }\n\n            Ok(())\n        })().map_err(|(id, error)| Error::Link {\n            workbook: WORKBOOK,\n            sheet: SHEET,\n            id,\n            error,\n        })?;\n";
pub const CONSTRAINT_FN_0: &'static str = "\n";
pub const CONSTRAINT_FN_1: &'static str = "\n\n        let mut check_constraint = |row: &";
pub const CONSTRAINT_FN_2: &'static str = "| -> Result<(), (&'static str, ConstraintError)> {\n";
pub const CONSTRAINT_FN_3: &'static str = "\n\n            Ok(())\n        };\n";
pub const CONCRETE_0: &'static str = "\n#![allow(static_mut_refs)]\n\nuse crate::{DataId, Link, error::*, parse::*};\nuse std::collections::HashMap;\nuse std::mem::MaybeUninit;\nuse tracing::info;\n\nconst WORKBOOK: &str = \"";
pub const CONCRETE_1: &'static str = "\";\nconst SHEET: &str = \"";
pub const CONCRETE_2: &'static str = "\";\n\nstatic mut ";
pub const CONCRETE_3: &'static str = ": MaybeUninit<";
pub const CONCRETE_4: &'static str = "> = MaybeUninit::uninit();\n\n#[derive(Debug)]\npub struct ";
pub const CONCRETE_5: &'static str = " {\n";
pub const CONCRETE_6: &'static str = "\n}\n\npub struct ";
pub const CONCRETE_7: &'static str = " {\n    rows: HashMap<DataId, ";
pub const CONCRETE_8: &'static str = ">,\n}\n\nimpl ";
pub const CONCRETE_9: &'static str = " {\n    fn parse(row: &[calamine::Data]) -> Result<(DataId, Self), (&'static str, ParseError)> {\n        const FIELDS_COUNT: usize = ";
pub const CONCRETE_10: &'static str = ";\n\n        if row.len() < FIELDS_COUNT {\n            return Err((\"\", ParseError::InvalidColumnCount { expected: FIELDS_COUNT, actual: row.len() }));\n        }\n\n";
pub const CONCRETE_11: &'static str = "\n\n        Ok((id, Self {\n";
pub const CONCRETE_12: &'static str = "\n        }))\n    }\n}\n\nimpl crate::Linkable for ";
pub const CONCRETE_13: &'static str = " {\n    fn get(id: &DataId) -> Option<&'static Self> {\n        ";
pub const CONCRETE_14: &'static str = "::get(id)\n    }\n}\n\nimpl ";
pub const CONCRETE_15: &'static str = " {\n    pub fn get(id: &DataId) -> Option<&'static ";
pub const CONCRETE_16: &'static str = "> {\n        unsafe { ";
pub const CONCRETE_17: &'static str = ".assume_init_ref() }.rows.get(&id)\n    }\n\n    pub fn iter() -> impl Iterator<Item = (&'static DataId, &'static ";
pub const CONCRETE_18: &'static str = ")> {\n        unsafe { ";
pub const CONCRETE_19: &'static str = ".assume_init_ref() }.rows.iter()\n    }\n}\n\nimpl crate::Loadable for ";
pub const CONCRETE_20: &'static str = " {\n    async fn load(rows: &[&[calamine::Data]]) -> Result<(), Error> {\n        let mut parsed_rows = HashMap::new();\n        let mut index = ";
pub const CONCRETE_21: &'static str = ";\n";
pub const CONCRETE_22: &'static str = "\n        for row in rows {\n            let (id, parsed_row) = ";
pub const CONCRETE_23: &'static str = "::parse(row)\n                .map_err(|(column, error)| Error::Parse {\n                    workbook: WORKBOOK,\n                    sheet: SHEET,\n                    row: index + 1,\n                    column,\n                    error,\n                })?;\n\n            if parsed_rows.contains_key(&id) {\n                return Err(Error::DuplicateId {\n                    type_name: std::any::type_name::<";
pub const CONCRETE_24: &'static str = ">(),\n                    id,\n                    a: format!(\"{:?}\", parsed_rows[&id]),\n                    b: format!(\"{:?}\", parsed_rows),\n                });\n            }";
pub const CONCRETE_25: &'static str = "\n\n            parsed_rows.insert(id, parsed_row);\n\n            index += 1;\n        }\n\n        let table = Self { rows: parsed_rows };\n        info!(\"Loaded {} rows\", table.rows.len());\n\n        unsafe { ";
pub const CONCRETE_26: &'static str = ".write(table); }";
pub const CONCRETE_27: &'static str = "\n        Ok(())\n    }\n\n    fn init() -> Result<(), Error> {";
pub const CONCRETE_28: &'static str = "\n        Ok(())\n    }\n}\n";

pub open spec fn field_definition_line_spec(field_name: Seq<char>, field_type: Seq<char>) -> Seq<char> {
    FIELD_DEF_0@ + field_name + FIELD_DEF_1@ + field_type + FIELD_DEF_2@
}

pub open spec fn field_parse_line_optional_spec(field_name: Seq<char>, index: usize) -> Seq<char> {
    FIELD_PARSE_OPTIONAL_0@ + field_name + FIELD_PARSE_OPTIONAL_1@ + decimal(index as nat) + FIELD_PARSE_OPTIONAL_2@ + field_name + FIELD_PARSE_OPTIONAL_3@
}

pub open spec fn field_parse_line_multi_spec(field_name: Seq<char>, index: usize) -> Seq<char> {
    FIELD_PARSE_MULTI_0@ + field_name + FIELD_PARSE_MULTI_1@ + decimal(index as nat) + FIELD_PARSE_MULTI_2@ + field_name + FIELD_PARSE_MULTI_3@
}

pub open spec fn field_parse_line_spec(field_name: Seq<char>, index: usize) -> Seq<char> {
    FIELD_PARSE_0@ + field_name + FIELD_PARSE_1@ + decimal(index as nat) + FIELD_PARSE_2@ + field_name + FIELD_PARSE_3@
}

pub open spec fn unique_init_line_spec(field_name: Seq<char>, field_type: Seq<char>) -> Seq<char> {
    UNIQUE_INIT_0@ + field_name + "_set"@ + UNIQUE_INIT_1@ + field_type + UNIQUE_INIT_2@
}

pub open spec fn unique_check_code_spec(field_name: Seq<char>, field_type: Seq<char>) -> Seq<char> {
    UNIQUE_CHECK_0@ + field_name + "_set"@ + UNIQUE_CHECK_1@ + field_name + UNIQUE_CHECK_2@ + field_name + UNIQUE_CHECK_3@ + field_type + UNIQUE_CHECK_4@ + field_name + UNIQUE_CHECK_5@
}

pub open spec fn max_check_code_spec(field_name: Seq<char>, field_type: Seq<char>, value: i32) -> Seq<char> {
    MAX_CHECK_0@ + field_name + MAX_CHECK_1@ + signed_decimal(value as int) + MAX_CHECK_2@ + field_name + MAX_CHECK_3@ + field_type + MAX_CHECK_4@ + signed_decimal(value as int) + MAX_CHECK_5@ + field_name + MAX_CHECK_6@
}

pub open spec fn min_check_code_spec(field_name: Seq<char>, field_type: Seq<char>, value: i32) -> Seq<char> {
    MIN_CHECK_0@ + field_name + MIN_CHECK_1@ + signed_decimal(value as int) + MIN_CHECK_2@ + field_name + MIN_CHECK_3@ + field_type + MIN_CHECK_4@ + signed_decimal(value as int) + MIN_CHECK_5@ + field_name + MIN_CHECK_6@
}

pub open spec fn optional_link_block_spec(field_name: Seq<char>, link_init: Seq<char>) -> Seq<char> {
    OPTIONAL_LINK_0@ + field_name + OPTIONAL_LINK_1@ + field_name + OPTIONAL_LINK_2@ + link_init + OPTIONAL_LINK_3@
}

pub open spec fn multi_link_block_spec(field_name: Seq<char>, link_init: Seq<char>) -> Seq<char> {
    MULTI_LINK_0@ + field_name + MULTI_LINK_1@ + link_init + MULTI_LINK_2@
}

pub open spec fn optional_link_line_spec(field_name: Seq<char>) -> Seq<char> {
    OPT_LINK_LINE_0@ + field_name + OPT_LINK_LINE_1@
}

pub open spec fn optional_tuple_link_line_spec(field_name: Seq<char>, i: usize) -> Seq<char> {
    OPT_TUPLE_LINK_LINE_0@ + field_name + OPT_TUPLE_LINK_LINE_1@ + decimal(i as nat) + OPT_TUPLE_LINK_LINE_2@
}

pub open spec fn multi_link_line_spec() -> Seq<char> {
    MULTI_LINK_LINE_0@
}

pub open spec fn multi_tuple_link_line_spec(i: usize) -> Seq<char> {
    MULTI_TUPLE_LINK_LINE_0@ + decimal(i as nat) + MULTI_TUPLE_LINK_LINE_1@
}

pub open spec fn link_line_spec(field_name: Seq<char>) -> Seq<char> {
    LINK_LINE_0@ + field_name + LINK_LINE_1@
}

pub open spec fn tuple_link_line_spec(field_name: Seq<char>, i: usize) -> Seq<char> {
    TUPLE_LINK_LINE_0@ + field_name + TUPLE_LINK_LINE_1@ + decimal(i as nat) + TUPLE_LINK_LINE_2@
}

pub open spec fn field_pass_line_spec(name: Seq<char>) -> Seq<char> {
    FIELD_PASS_0@ + name + FIELD_PASS_1@
}

pub open spec fn concrete_parent_insert_code_spec(table_cell_name: Seq<char>, parent_full_name: Seq<char>, row_type_name: Seq<char>) -> Seq<char> {
    PARENT_INSERT_0@ + table_cell_name + PARENT_INSERT_1@ + parent_full_name + PARENT_INSERT_2@ + parent_full_name + PARENT_INSERT_3@ + row_type_name + PARENT_INSERT_4@
}

pub open spec fn link_inits_block_spec(table_cell_name: Seq<char>, inits_code: Seq<char>) -> Seq<char> {
    LINK_INITS_0@ + table_cell_name + LINK_INITS_1@ + inits_code + LINK_INITS_2@
}

pub open spec fn constraint_function_block_spec(constraint_inits_code: Seq<char>, row_type_name: Seq<char>, constraint_checks_code: Seq<char>) -> Seq<char> {
    CONSTRAINT_FN_0@ + constraint_inits_code + CONSTRAINT_FN_1@ + row_type_name + CONSTRAINT_FN_2@ + constraint_checks_code + CONSTRAINT_FN_3@
}

pub open spec fn concrete_table_code_spec(workbook: Seq<char>, sheet: Seq<char>, table_cell_name: Seq<char>, table_type_name: Seq<char>, row_type_name: Seq<char>, fields_count: usize, field_definitions_code: Seq<char>, field_parses_code: Seq<char>, field_passes_code: Seq<char>, constraint_function_code: Seq<char>, constraint_call_code: Seq<char>, parent_insert_code: Seq<char>, link_inits_code: Seq<char>) -> Seq<char> {
    GENERATED_FILE_WARNING@ + CONCRETE_0@ + workbook + CONCRETE_1@ + sheet + CONCRETE_2@ + table_cell_name + CONCRETE_3@ + table_type_name + CONCRETE_4@ + row_type_name + CONCRETE_5@ + field_definitions_code + CONCRETE_6@ + table_type_name + CONCRETE_7@ + row_type_name + CONCRETE_8@ + row_type_name + CONCRETE_9@ + decimal(fields_count as nat) + CONCRETE_10@ + field_parses_code + CONCRETE_11@ + field_passes_code + CONCRETE_12@ + row_type_name + CONCRETE_13@ + table_type_name + CONCRETE_14@ + table_type_name + CONCRETE_15@ + row_type_name + CONCRETE_16@ + table_cell_name + CONCRETE_17@ + row_type_name + CONCRETE_18@ + table_cell_name + CONCRETE_19@ + table_type_name + CONCRETE_20@ + decimal(HEADER_ROWS as nat) + CONCRETE_21@ + constraint_function_code + CONCRETE_22@ + row_type_name + CONCRETE_23@ + row_type_name + CONCRETE_24@ + constraint_call_code + CONCRETE_25@ + table_cell_name + CONCRETE_26@ + parent_insert_code + CONCRETE_27@ + link_inits_code + CONCRETE_28@
}

/// The line that declares a row field.
pub fn field_definition_line(field_name: &str, field_type: &str) -> (r: String)
    ensures
        r@ == field_definition_line_spec(field_name@, field_type@),
{
    let mut out = String::new();
    out.append(FIELD_DEF_0);
    out.append(field_name);
    out.append(FIELD_DEF_1);
    out.append(field_type);
    out.append(FIELD_DEF_2);
    out
}

/// The line that parses a row field from its column.
pub fn field_parse_line_optional(field_name: &str, index: usize) -> (r: String)
    ensures
        r@ == field_parse_line_optional_spec(field_name@, index),
{
    let mut out = String::new();
    out.append(FIELD_PARSE_OPTIONAL_0);
    out.append(field_name);
    out.append(FIELD_PARSE_OPTIONAL_1);
    push_decimal(&mut out, index as u64);
    out.append(FIELD_PARSE_OPTIONAL_2);
    out.append(field_name);
    out.append(FIELD_PARSE_OPTIONAL_3);
    out
}

/// The line that parses a row field from its column.
pub fn field_parse_line_multi(field_name: &str, index: usize) -> (r: String)
    ensures
        r@ == field_parse_line_multi_spec(field_name@, index),
{
    let mut out = String::new();
    out.append(FIELD_PARSE_MULTI_0);
    out.append(field_name);
    out.append(FIELD_PARSE_MULTI_1);
    push_decimal(&mut out, index as u64);
    out.append(FIELD_PARSE_MULTI_2);
    out.append(field_name);
    out.append(FIELD_PARSE_MULTI_3);
    out
}

/// The line that parses a row field from its column.
pub fn field_parse_line(field_name: &str, index: usize) -> (r: String)
    ensures
        r@ == field_parse_line_spec(field_name@, index),
{
    let mut out = String::new();
    out.append(FIELD_PARSE_0);
    out.append(field_name);
    out.append(FIELD_PARSE_1);
    push_decimal(&mut out, index as u64);
    out.append(FIELD_PARSE_2);
    out.append(field_name);
    out.append(FIELD_PARSE_3);
    out
}

/// The line that creates the set of values seen of a unique field.
pub fn unique_init_line(field_name: &str, field_type: &str) -> (r: String)
    ensures
        r@ == unique_init_line_spec(field_name@, field_type@),
{
    let mut out = String::new();
    out.append(UNIQUE_INIT_0);
    out.append(field_name);
    out.append("_set");
    out.append(UNIQUE_INIT_1);
    out.append(field_type);
    out.append(UNIQUE_INIT_2);
    out
}

/// The check that a unique field's value was not seen before.
pub fn unique_check_code(field_name: &str, field_type: &str) -> (r: String)
    ensures
        r@ == unique_check_code_spec(field_name@, field_type@),
{
    let mut out = String::new();
    out.append(UNIQUE_CHECK_0);
    out.append(field_name);
    out.append("_set");
    out.append(UNIQUE_CHECK_1);
    out.append(field_name);
    out.append(UNIQUE_CHECK_2);
    out.append(field_name);
    out.append(UNIQUE_CHECK_3);
    out.append(field_type);
    out.append(UNIQUE_CHECK_4);
    out.append(field_name);
    out.append(UNIQUE_CHECK_5);
    out
}

/// The check of a bound on a field's value.
pub fn max_check_code(field_name: &str, field_type: &str, value: i32) -> (r: String)
    ensures
        r@ == max_check_code_spec(field_name@, field_type@, value),
{
    let mut out = String::new();
    out.append(MAX_CHECK_0);
    out.append(field_name);
    out.append(MAX_CHECK_1);
    push_signed_decimal(&mut out, value as i64);
    out.append(MAX_CHECK_2);
    out.append(field_name);
    out.append(MAX_CHECK_3);
    out.append(field_type);
    out.append(MAX_CHECK_4);
    push_signed_decimal(&mut out, value as i64);
    out.append(MAX_CHECK_5);
    out.append(field_name);
    out.append(MAX_CHECK_6);
    out
}

/// The check of a bound on a field's value.
pub fn min_check_code(field_name: &str, field_type: &str, value: i32) -> (r: String)
    ensures
        r@ == min_check_code_spec(field_name@, field_type@, value),
{
    let mut out = String::new();
    out.append(MIN_CHECK_0);
    out.append(field_name);
    out.append(MIN_CHECK_1);
    push_signed_decimal(&mut out, value as i64);
    out.append(MIN_CHECK_2);
    out.append(field_name);
    out.append(MIN_CHECK_3);
    out.append(field_type);
    out.append(MIN_CHECK_4);
    push_signed_decimal(&mut out, value as i64);
    out.append(MIN_CHECK_5);
    out.append(field_name);
    out.append(MIN_CHECK_6);
    out
}

/// The block that resolves the links of an optional field that is present.
pub fn optional_link_block(field_name: &str, link_init: &str) -> (r: String)
    ensures
        r@ == optional_link_block_spec(field_name@, link_init@),
{
    let mut out = String::new();
    out.append(OPTIONAL_LINK_0);
    out.append(field_name);
    out.append(OPTIONAL_LINK_1);
    out.append(field_name);
    out.append(OPTIONAL_LINK_2);
    out.append(link_init);
    out.append(OPTIONAL_LINK_3);
    out
}

/// The block that resolves the links of every value of a multi field.
pub fn multi_link_block(field_name: &str, link_init: &str) -> (r: String)
    ensures
        r@ == multi_link_block_spec(field_name@, link_init@),
{
    let mut out = String::new();
    out.append(MULTI_LINK_0);
    out.append(field_name);
    out.append(MULTI_LINK_1);
    out.append(link_init);
    out.append(MULTI_LINK_2);
    out
}

/// The line that resolves one link of a field.
pub fn optional_link_line(field_name: &str) -> (r: String)
    ensures
        r@ == optional_link_line_spec(field_name@),
{
    let mut out = String::new();
    out.append(OPT_LINK_LINE_0);
    out.append(field_name);
    out.append(OPT_LINK_LINE_1);
    out
}

/// The line that resolves one link of a field.
pub fn optional_tuple_link_line(field_name: &str, i: usize) -> (r: String)
    ensures
        r@ == optional_tuple_link_line_spec(field_name@, i),
{
    let mut out = String::new();
    out.append(OPT_TUPLE_LINK_LINE_0);
    out.append(field_name);
    out.append(OPT_TUPLE_LINK_LINE_1);
    push_decimal(&mut out, i as u64);
    out.append(OPT_TUPLE_LINK_LINE_2);
    out
}

/// The line that resolves one link of a field.
pub fn multi_link_line() -> (r: String)
    ensures
        r@ == multi_link_line_spec(),
{
    let mut out = String::new();
    out.append(MULTI_LINK_LINE_0);
    out
}

/// The line that resolves one link of a field.
pub fn multi_tuple_link_line(i: usize) -> (r: String)
    ensures
        r@ == multi_tuple_link_line_spec(i),
{
    let mut out = String::new();
    out.append(MULTI_TUPLE_LINK_LINE_0);
    push_decimal(&mut out, i as u64);
    out.append(MULTI_TUPLE_LINK_LINE_1);
    out
}

/// The line that resolves one link of a field.
pub fn link_line(field_name: &str) -> (r: String)
    ensures
        r@ == link_line_spec(field_name@),
{
    let mut out = String::new();
    out.append(LINK_LINE_0);
    out.append(field_name);
    out.append(LINK_LINE_1);
    out
}

/// The line that resolves one link of a field.
pub fn tuple_link_line(field_name: &str, i: usize) -> (r: String)
    ensures
        r@ == tuple_link_line_spec(field_name@, i),
{
    let mut out = String::new();
    out.append(TUPLE_LINK_LINE_0);
    out.append(field_name);
    out.append(TUPLE_LINK_LINE_1);
    push_decimal(&mut out, i as u64);
    out.append(TUPLE_LINK_LINE_2);
    out
}

/// The line that passes a parsed field to the row.
pub fn field_pass_line(name: &str) -> (r: String)
    ensures
        r@ == field_pass_line_spec(name@),
{
    let mut out = String::new();
    out.append(FIELD_PASS_0);
    out.append(name);
    out.append(FIELD_PASS_1);
    out
}

/// The code that inserts every loaded row into the table it extends.
pub fn concrete_parent_insert_code(table_cell_name: &str, parent_full_name: &str, row_type_name: &str) -> (r: String)
    ensures
        r@ == concrete_parent_insert_code_spec(table_cell_name@, parent_full_name@, row_type_name@),
{
    let mut out = String::new();
    out.append(PARENT_INSERT_0);
    out.append(table_cell_name);
    out.append(PARENT_INSERT_1);
    out.append(parent_full_name);
    out.append(PARENT_INSERT_2);
    out.append(parent_full_name);
    out.append(PARENT_INSERT_3);
    out.append(row_type_name);
    out.append(PARENT_INSERT_4);
    out
}

/// The code that resolves the links of every loaded row.
pub fn link_inits_block(table_cell_name: &str, inits_code: &str) -> (r: String)
    ensures
        r@ == link_inits_block_spec(table_cell_name@, inits_code@),
{
    let mut out = String::new();
    out.append(LINK_INITS_0);
    out.append(table_cell_name);
    out.append(LINK_INITS_1);
    out.append(inits_code);
    out.append(LINK_INITS_2);
    out
}

/// The closure that checks the constraints of a parsed row.
pub fn constraint_function_block(constraint_inits_code: &str, row_type_name: &str, constraint_checks_code: &str) -> (r: String)
    ensures
        r@ == constraint_function_block_spec(constraint_inits_code@, row_type_name@, constraint_checks_code@),
{
    let mut out = String::new();
    out.append(CONSTRAINT_FN_0);
    out.append(constraint_inits_code);
    out.append(CONSTRAINT_FN_1);
    out.append(row_type_name);
    out.append(CONSTRAINT_FN_2);
    out.append(constraint_checks_code);
    out.append(CONSTRAINT_FN_3);
    out
}

/// The source file of a concrete table from its parts.
pub fn concrete_table_code(workbook: &str, sheet: &str, table_cell_name: &str, table_type_name: &str, row_type_name: &str, fields_count: usize, field_definitions_code: &str, field_parses_code: &str, field_passes_code: &str, constraint_function_code: &str, constraint_call_code: &str, parent_insert_code: &str, link_inits_code: &str) -> (r: String)
    ensures
        r@ == concrete_table_code_spec(workbook@, sheet@, table_cell_name@, table_type_name@, row_type_name@, fields_count, field_definitions_code@, field_parses_code@, field_passes_code@, constraint_function_code@, constraint_call_code@, parent_insert_code@, link_inits_code@),
{
    let mut out = String::new();
    out.append(GENERATED_FILE_WARNING);
    out.append(CONCRETE_0);
    out.append(workbook);
    out.append(CONCRETE_1);
    out.append(sheet);
    out.append(CONCRETE_2);
    out.append(table_cell_name);
    out.append(CONCRETE_3);
    out.append(table_type_name);
    out.append(CONCRETE_4);
    out.append(row_type_name);
    out.append(CONCRETE_5);
    out.append(field_definitions_code);
    out.append(CONCRETE_6);
    out.append(table_type_name);
    out.append(CONCRETE_7);
    out.append(row_type_name);
    out.append(CONCRETE_8);
    out.append(row_type_name);
    out.append(CONCRETE_9);
    push_decimal(&mut out, fields_count as u64);
    out.append(CONCRETE_10);
    out.append(field_parses_code);
    out.append(CONCRETE_11);
    out.append(field_passes_code);
    out.append(CONCRETE_12);
    out.append(row_type_name);
    out.append(CONCRETE_13);
    out.append(table_type_name);
    out.append(CONCRETE_14);
    out.append(table_type_name);
    out.append(CONCRETE_15);
    out.append(row_type_name);
    out.append(CONCRETE_16);
    out.append(table_cell_name);
    out.append(CONCRETE_17);
    out.append(row_type_name);
    out.append(CONCRETE_18);
    out.append(table_cell_name);
    out.append(CONCRETE_19);
    out.append(table_type_name);
    out.append(CONCRETE_20);
    push_decimal(&mut out, HEADER_ROWS as u64);
    out.append(CONCRETE_21);
    out.append(constraint_function_code);
    out.append(CONCRETE_22);
    out.append(row_type_name);
    out.append(CONCRETE_23);
    out.append(row_type_name);
    out.append(CONCRETE_24);
    out.append(constraint_call_code);
    out.append(CONCRETE_25);
    out.append(table_cell_name);
    out.append(CONCRETE_26);
    out.append(parent_insert_code);
    out.append(CONCRETE_27);
    out.append(link_inits_code);
    out.append(CONCRETE_28);
    out
}

/// The call of the constraint check on each parsed row.
pub const CONSTRAINT_CALL: &'static str = "\n\n            check_constraint(&parsed_row)\n                .map_err(|(column, error)| Error::Constraint {\n                    workbook: WORKBOOK,\n                    sheet: SHEET,\n                    row: index + 1,\n                    column,\n                    error,\n                })?;";

/// The message of the error for a field both optional and multi.
pub const OPTIONAL_MULTI_MESSAGE: &'static str = "Optional and multi cannot be both true";

/// The message of the error for a multi field with a unique constraint.
pub const MULTI_UNIQUE_MESSAGE: &'static str = "Multi field cannot have unique constraint";

/// Whether a field for `target` is generated when the generator is configured for `configured`.
pub open spec fn targeted(target: Target, configured: Target) -> bool {
    target == Target::All || target == configured
}

/// The Rust type of a row field: the kind's type, in a `Vec` for a multi
/// field and in an `Option` for an optional one.
pub open spec fn field_type_spec(f: FieldView) -> Seq<char> {
    let base = rust_type(f.kind);
    let multi = if f.multi { "Vec<"@ + base + ">"@ } else { base };
    if f.optional { "Option<"@ + multi + ">"@ } else { multi }
}

/// The line that parses the field at column `index`.
pub open spec fn parse_line_spec(f: FieldView, index: usize) -> Seq<char> {
    if f.optional {
        field_parse_line_optional_spec(f.name, index)
    } else if f.multi {
        field_parse_line_multi_spec(f.name, index)
    } else {
        field_parse_line_spec(f.name, index)
    }
}

/// Whether a field has a unique constraint.
pub open spec fn has_unique(cs: Seq<Constraint>) -> bool {
    exists|k: int| 0 <= k < cs.len() && cs[k] == Constraint::Unique
}

/// The set declarations for the unique constraints of a field.
pub open spec fn constraint_inits_of(name: Seq<char>, ty: Seq<char>, cs: Seq<Constraint>) -> Seq<Seq<char>>
    decreases cs.len(),
{
    if cs.len() == 0 {
        Seq::empty()
    } else {
        let rest = constraint_inits_of(name, ty, cs.drop_last());
        match cs.last() {
            Constraint::Unique => rest.push(unique_init_line_spec(name, ty)),
            _ => rest,
        }
    }
}

/// The checks for the constraints of a field, in order.
pub open spec fn constraint_checks_of(name: Seq<char>, ty: Seq<char>, cs: Seq<Constraint>) -> Seq<Seq<char>>
    decreases cs.len(),
{
    if cs.len() == 0 {
        Seq::empty()
    } else {
        let rest = constraint_checks_of(name, ty, cs.drop_last());
        match cs.last() {
            Constraint::Unique => rest.push(unique_check_code_spec(name, ty)),
            Constraint::Max(v) => rest.push(max_check_code_spec(name, ty, v)),
            Constraint::Min(v) => rest.push(min_check_code_spec(name, ty, v)),
        }
    }
}

/// How a field's values are reached when its links are resolved.
#[derive(Clone, Copy, PartialEq, Eq, Structural)]
pub enum LinkMode {
    Optional,
    Multi,
    Plain,
}

/// The line that resolves the link at position `i` of a tuple field.
pub open spec fn tuple_link_line_of(mode: LinkMode, name: Seq<char>, i: usize) -> Seq<char> {
    match mode {
        LinkMode::Optional => optional_tuple_link_line_spec(name, i),
        LinkMode::Multi => multi_tuple_link_line_spec(i),
        LinkMode::Plain => tuple_link_line_spec(name, i),
    }
}

/// The lines that resolve the links among the first `n` members of a tuple field.
pub open spec fn tuple_link_lines(mode: LinkMode, name: Seq<char>, ts: Seq<FieldKindView>, n: nat) -> Seq<Seq<char>>
    decreases n,
{
    if n == 0 {
        Seq::empty()
    } else {
        let rest = tuple_link_lines(mode, name, ts, (n - 1) as nat);
        if ts[n - 1] is Link {
            rest.push(tuple_link_line_of(mode, name, (n - 1) as usize))
        } else {
            rest
        }
    }
}

/// The line that resolves a link field.
pub open spec fn link_line_of(mode: LinkMode, name: Seq<char>) -> Seq<char> {
    match mode {
        LinkMode::Optional => optional_link_line_spec(name),
        LinkMode::Multi => multi_link_line_spec(),
        LinkMode::Plain => link_line_spec(name),
    }
}

/// The code that resolves the links of one value of a field.
pub open spec fn link_inner_spec(mode: LinkMode, name: Seq<char>, k: FieldKindView) -> Seq<char> {
    match k {
        FieldKindView::Link(_) => link_line_of(mode, name),
        FieldKindView::Tuple(ts) => seq_join(tuple_link_lines(mode, name, ts, ts.len()), "\n"@),
        _ => Seq::empty(),
    }
}

/// The code that resolves the links of a field.
pub open spec fn link_init_spec(f: FieldView) -> Seq<char> {
    if f.optional {
        optional_link_block_spec(f.name, link_inner_spec(LinkMode::Optional, f.name, f.kind))
    } else if f.multi {
        multi_link_block_spec(f.name, link_inner_spec(LinkMode::Multi, f.name, f.kind))
    } else {
        link_inner_spec(LinkMode::Plain, f.name, f.kind)
    }
}

/// The code gathered from a table's fields.
pub struct ConcreteParts {
    pub names: Seq<Seq<char>>,
    pub definitions: Seq<Seq<char>>,
    pub parses: Seq<Seq<char>>,
    pub constraint_inits: Seq<Seq<char>>,
    pub constraint_checks: Seq<Seq<char>>,
    pub link_inits: Seq<Seq<char>>,
}

pub open spec fn empty_parts() -> ConcreteParts {
    ConcreteParts {
        names: Seq::empty(),
        definitions: Seq::empty(),
        parses: Seq::empty(),
        constraint_inits: Seq::empty(),
        constraint_checks: Seq::empty(),
        link_inits: Seq::empty(),
    }
}

/// What the field at column `index` adds to the gathered code, or why it is refused.
pub open spec fn field_step(configured: Target, p: ConcreteParts, index: int, f: FieldView) -> Result<ConcreteParts, Seq<char>> {
    if !targeted(f.target, configured) {
        Ok(p)
    } else if f.optional && f.multi {
        Err(OPTIONAL_MULTI_MESSAGE@)
    } else if f.multi && has_unique(f.constraints) {
        Err(MULTI_UNIQUE_MESSAGE@)
    } else {
        let ty = rust_type(f.kind);
        Ok(ConcreteParts {
            names: p.names.push(f.name),
            definitions: p.definitions.push(field_definition_line_spec(f.name, field_type_spec(f))),
            parses: p.parses.push(parse_line_spec(f, index as usize)),
            constraint_inits: p.constraint_inits + constraint_inits_of(f.name, ty, f.constraints),
            constraint_checks: p.constraint_checks + constraint_checks_of(f.name, ty, f.constraints),
            link_inits: if has_link_spec(f.kind) { p.link_inits.push(link_init_spec(f)) } else { p.link_inits },
        })
    }
}

/// The code gathered from the first `n` fields, or the first refusal.
pub open spec fn concrete_fold(configured: Target, fields: Seq<FieldView>, n: nat) -> Result<ConcreteParts, Seq<char>>
    decreases n,
{
    if n == 0 {
        Ok(empty_parts())
    } else {
        match concrete_fold(configured, fields, (n - 1) as nat) {
            Err(e) => Err(e),
            Ok(p) => field_step(configured, p, n - 1, fields[n - 1]),
        }
    }
}

/// A refusal stands: once a field is refused, so is the whole table, for the same reason.
pub proof fn lemma_fold_err_stays(configured: Target, fields: Seq<FieldView>, n: nat, k: nat)
    requires
        n <= k,
        concrete_fold(configured, fields, n) is Err,
    ensures
        concrete_fold(configured, fields, k) == concrete_fold(configured, fields, n),
    decreases k - n,
{
    if k > n {
        lemma_fold_err_stays(configured, fields, n, (k - 1) as nat);
    }
}

/// Every field whose type the generator writes out has one: fields reached
/// before any refusal, for the configured target, and not refused themselves
/// for being both optional and multi.
#[verifier::opaque]
pub open spec fn kinds_ok(configured: Target, fields: Seq<FieldView>) -> bool {
    forall|i: int| 0 <= i < fields.len() && #[trigger] targeted(fields[i].target, configured)
        && !(fields[i].optional && fields[i].multi)
        && concrete_fold(configured, fields, i as nat) is Ok ==> valid_kind(fields[i].kind)
}

/// The source of a concrete table from its gathered code.
pub open spec fn concrete_text(g: Generator, name: Name, schema: ConcreteTableSchema, field_count: nat, p: ConcreteParts) -> Seq<char> {
    let cell = name.table_type_cell_spec();
    let table_type = name.table_type_spec(false);
    let row_type = name.type_spec(false);
    let constraint_function = if p.constraint_checks.len() == 0 {
        Seq::empty()
    } else {
        constraint_function_block_spec(seq_join(p.constraint_inits, "\n"@), row_type, seq_join(p.constraint_checks, "\n\n"@))
    };
    let constraint_call = if p.constraint_checks.len() == 0 { Seq::empty() } else { CONSTRAINT_CALL@ };
    let parent_insert = match g.parent_index(opt_view(schema.extend)) {
        Some(j) => concrete_parent_insert_code_spec(cell, g.tables@[j].name.type_spec(true), row_type),
        None => Seq::empty(),
    };
    let link_inits = if p.link_inits.len() == 0 {
        Seq::empty()
    } else {
        link_inits_block_spec(cell, seq_join(p.link_inits, "\n\n"@))
    };
    concrete_table_code_spec(
        schema.workbook@,
        schema.sheet@,
        cell,
        table_type,
        row_type,
        field_count as usize,
        seq_join(p.definitions, "\n"@),
        seq_join(p.parses, "\n"@),
        seq_join(p.names.map_values(|n: Seq<char>| field_pass_line_spec(n)), "\n"@),
        constraint_function,
        constraint_call,
        parent_insert,
        link_inits,
    )
}


/// The Rust type of a row field.
pub fn field_type(f: &Field) -> (r: String)
    requires
        valid_kind(f.kind@),
    ensures
        r@ == field_type_spec(f@),
{
    let base = f.kind.to_rust_type();
    let multi = if f.multi {
        let mut m = "Vec<".to_owned();
        m.append(base.as_str());
        m.append(">");
        m
    } else {
        base
    };
    if f.optional {
        let mut o = "Option<".to_owned();
        o.append(multi.as_str());
        o.append(">");
        o
    } else {
        multi
    }
}

/// The line that parses the field at column `index`.
pub fn parse_line(f: &Field, index: usize) -> (r: String)
    ensures
        r@ == parse_line_spec(f@, index),
{
    if f.optional {
        field_parse_line_optional(f.name.as_str(), index)
    } else if f.multi {
        field_parse_line_multi(f.name.as_str(), index)
    } else {
        field_parse_line(f.name.as_str(), index)
    }
}

fn tuple_link_line_for(mode: LinkMode, name: &str, i: usize) -> (r: String)
    ensures
        r@ == tuple_link_line_of(mode, name@, i),
{
    match mode {
        LinkMode::Optional => optional_tuple_link_line(name, i),
        LinkMode::Multi => multi_tuple_link_line(i),
        LinkMode::Plain => tuple_link_line(name, i),
    }
}

fn link_line_for(mode: LinkMode, name: &str) -> (r: String)
    ensures
        r@ == link_line_of(mode, name@),
{
    match mode {
        LinkMode::Optional => optional_link_line(name),
        LinkMode::Multi => multi_link_line(),
        LinkMode::Plain => link_line(name),
    }
}

/// The code that resolves the links of one value of a field.
pub fn link_inner(mode: LinkMode, name: &str, kind: &FieldKind) -> (r: String)
    ensures
        r@ == link_inner_spec(mode, name@, kind@),
{
    match kind {
        FieldKind::Link { .. } => link_line_for(mode, name),
        FieldKind::Tuple { types } => {
            proof { lemma_kind_views(types@); }
            let ghost ts = kind_views(types@);
            let mut lines: Vec<String> = Vec::new();
            let mut i: usize = 0;
            while i < types.len()
                invariant
                    i <= types.len(),
                    ts == kind_views(types@),
                    ts.len() == types@.len(),
                    forall|j: int| 0 <= j < types@.len() ==> #[trigger] ts[j] == kind_view(types@[j]),
                    views(lines@) == tuple_link_lines(mode, name@, ts, i as nat),
                decreases types.len() - i,
            {
                let ghost before = views(lines@);
                match &types[i] {
                    FieldKind::Link { .. } => {
                        assert(ts[i as int] is Link);
                        let line = tuple_link_line_for(mode, name, i);
                        lines.push(line);
                        assert(views(lines@) =~= before.push(line@));
                    },
                    _ => {
                        assert(!(ts[i as int] is Link));
                    },
                }
                i = i + 1;
            }
            join(&lines, "\n")
        },
        _ => String::new(),
    }
}

/// The code that resolves the links of a field.
pub fn link_init_code(f: &Field) -> (r: String)
    ensures
        r@ == link_init_spec(f@),
{
    if f.optional {
        let inner = link_inner(LinkMode::Optional, f.name.as_str(), &f.kind);
        optional_link_block(f.name.as_str(), inner.as_str())
    } else if f.multi {
        let inner = link_inner(LinkMode::Multi, f.name.as_str(), &f.kind);
        multi_link_block(f.name.as_str(), inner.as_str())
    } else {
        link_inner(LinkMode::Plain, f.name.as_str(), &f.kind)
    }
}

/// Whether a field has a unique constraint.
pub fn find_unique(cs: &Vec<Constraint>) -> (r: bool)
    ensures
        r == has_unique(cs@),
{
    let mut i: usize = 0;
    while i < cs.len()
        invariant
            i <= cs.len(),
            forall|k: int| 0 <= k < i ==> cs@[k] != Constraint::Unique,
        decreases cs.len() - i,
    {
        if cs[i] == Constraint::Unique {
            return true;
        }
        i = i + 1;
    }
    false
}

/// Appends the set declarations and the checks of a field's constraints.
pub fn push_constraint_code(
    name: &str,
    ty: &str,
    cs: &Vec<Constraint>,
    inits: &mut Vec<String>,
    checks: &mut Vec<String>,
)
    ensures
        views(final(inits)@) == views(old(inits)@) + constraint_inits_of(name@, ty@, cs@),
        views(final(checks)@) == views(old(checks)@) + constraint_checks_of(name@, ty@, cs@),
{
    let ghost inits0 = views(inits@);
    let ghost checks0 = views(checks@);
    let mut k: usize = 0;
    while k < cs.len()
        invariant
            k <= cs.len(),
            views(inits@) == inits0 + constraint_inits_of(name@, ty@, cs@.take(k as int)),
            views(checks@) == checks0 + constraint_checks_of(name@, ty@, cs@.take(k as int)),
        decreases cs.len() - k,
    {
        let ghost ib = views(inits@);
        let ghost cb = views(checks@);
        proof {
            assert(cs@.take(k + 1).drop_last() =~= cs@.take(k as int));
            assert(cs@.take(k + 1).last() == cs@[k as int]);
        }
        match cs[k] {
            Constraint::Unique => {
                let line = unique_init_line(name, ty);
                inits.push(line);
                let check = unique_check_code(name, ty);
                checks.push(check);
                assert(views(inits@) =~= ib.push(line@));
                assert(views(checks@) =~= cb.push(check@));
            },
            Constraint::Max(v) => {
                let check = max_check_code(name, ty, v);
                checks.push(check);
                assert(views(checks@) =~= cb.push(check@));
            },
            Constraint::Min(v) => {
                let check = min_check_code(name, ty, v);
                checks.push(check);
                assert(views(checks@) =~= cb.push(check@));
            },
        }
        k = k + 1;
    }
    assert(cs@.take(cs.len() as int) =~= cs@);
}

/// The code gathered from a table's fields so far.
pub struct Parts {
    pub names: Vec<String>,
    pub definitions: Vec<String>,
    pub parses: Vec<String>,
    pub inits: Vec<String>,
    pub checks: Vec<String>,
    pub links: Vec<String>,
}

impl View for Parts {
    type V = ConcreteParts;

    open spec fn view(&self) -> ConcreteParts {
        ConcreteParts {
            names: views(self.names@),
            definitions: views(self.definitions@),
            parses: views(self.parses@),
            constraint_inits: views(self.inits@),
            constraint_checks: views(self.checks@),
            link_inits: views(self.links@),
        }
    }
}

impl Parts {
    pub fn new() -> (r: Parts)
        ensures
            r@ == empty_parts(),
    {
        let r = Parts {
            names: Vec::new(),
            definitions: Vec::new(),
            parses: Vec::new(),
            inits: Vec::new(),
            checks: Vec::new(),
            links: Vec::new(),
        };
        assert(r@.names =~= Seq::<Seq<char>>::empty());
        assert(r@.definitions =~= Seq::<Seq<char>>::empty());
        assert(r@.parses =~= Seq::<Seq<char>>::empty());
        assert(r@.constraint_inits =~= Seq::<Seq<char>>::empty());
        assert(r@.constraint_checks =~= Seq::<Seq<char>>::empty());
        assert(r@.link_inits =~= Seq::<Seq<char>>::empty());
        r
    }
}

impl Generator {
    /// Adds the code of the field at column `index` to `parts`, or refuses it.
    pub fn gather_field(&self, parts: &mut Parts, index: usize, field: &Field) -> (r: Result<(), Error>)
        requires
            targeted(field.target, self.config.target) && !(field.optional && field.multi)
                ==> valid_kind(field.kind@),
        ensures
            match field_step(self.config.target, old(parts)@, index as int, field@) {
                Ok(p) => r is Ok && final(parts)@ == p,
                Err(m) => r matches Err(Error::InvalidAttribute(x)) && x@ == m,
            },
    {
        if !self.is_target(field.target) {
            return Ok(());
        }
        if field.optional && field.multi {
            return Err(Error::InvalidAttribute(OPTIONAL_MULTI_MESSAGE.to_owned()));
        }
        let is_unique = find_unique(&field.constraints);
        if field.multi && is_unique {
            return Err(Error::InvalidAttribute(MULTI_UNIQUE_MESSAGE.to_owned()));
        }
        let ty = field.kind.to_rust_type();
        let ghost nb = views(parts.names@);
        let ghost db = views(parts.definitions@);
        let ghost pb = views(parts.parses@);
        let ghost lb = views(parts.links@);
        parts.names.push(field.name.clone());
        push_constraint_code(field.name.as_str(), ty.as_str(), &field.constraints, &mut parts.inits, &mut parts.checks);
        let full_type = field_type(field);
        let definition = field_definition_line(field.name.as_str(), full_type.as_str());
        parts.definitions.push(definition);
        let parse = parse_line(field, index);
        parts.parses.push(parse);
        if field.kind.has_link() {
            let link = link_init_code(field);
            parts.links.push(link);
            assert(views(parts.links@) =~= lb.push(link@));
        } else {
            assert(views(parts.links@) == lb);
        }
        proof {
            assert(views(parts.names@) =~= nb.push(field.name@));
            assert(views(parts.definitions@) =~= db.push(definition@));
            assert(views(parts.parses@) =~= pb.push(parse@));
        }
        Ok(())
    }

    /// Gathers the code of every field, or refuses the first field that cannot be generated.
    pub fn gather_fields(&self, fields: &Vec<Field>) -> (r: Result<Parts, Error>)
        requires
            kinds_ok(self.config.target, field_views(fields@)),
        ensures
            match concrete_fold(self.config.target, field_views(fields@), fields@.len()) {
                Ok(p) => r matches Ok(parts) && parts@ == p,
                Err(m) => r matches Err(Error::InvalidAttribute(x)) && x@ == m,
            },
    {
        let ghost all = field_views(fields@);
        let mut parts = Parts::new();
        let mut index: usize = 0;
        while index < fields.len()
            invariant
                index <= fields.len(),
                all == field_views(fields@),
                all.len() == fields@.len(),
                kinds_ok(self.config.target, all),
                concrete_fold(self.config.target, all, index as nat) == Ok::<ConcreteParts, Seq<char>>(parts@),
            decreases fields.len() - index,
        {
            let ghost before = parts@;
            proof {
                let f = all[index as int];
                assert(f == fields@[index as int]@);
                if targeted(f.target, self.config.target) && !(f.optional && f.multi) {
                    assert(valid_kind(f.kind)) by {
                        reveal(kinds_ok);
                    }
                }
                assert(concrete_fold(self.config.target, all, (index + 1) as nat)
                    == field_step(self.config.target, before, index as int, f));
            }
            match self.gather_field(&mut parts, index, &fields[index]) {
                Ok(()) => {},
                Err(e) => {
                    proof { lemma_fold_err_stays(self.config.target, all, (index + 1) as nat, all.len()); }
                    return Err(e);
                },
            }
            index = index + 1;
        }
        Ok(parts)
    }

    /// The source of a concrete table: its row struct, parsing of rows,
    /// constraint checks, loading into the table and resolution of links.
    pub fn generate_concrete_table(&self, name: &Name, schema: &ConcreteTableSchema) -> (r: Result<String, Error>)
        requires
            self.wf(),
            self.chain_ends(schema.extend_view()),
            match self.inherited_fields(schema.extend_view(), self.tables@.len() as nat) {
                Chain::Done(f) => kinds_ok(self.config.target, f + schema.fields_view()),
                _ => true,
            },
        ensures
            match self.inherited_fields(schema.extend_view(), self.tables@.len() as nat) {
                Chain::Done(f) => {
                    let all = f + schema.fields_view();
                    match concrete_fold(self.config.target, all, all.len()) {
                        Ok(p) => r matches Ok(s) && s@ == concrete_text(*self, *name, *schema, all.len(), p),
                        Err(m) => r matches Err(Error::InvalidAttribute(x)) && x@ == m,
                    }
                },
                Chain::Missing(p) => r matches Err(Error::Inheritance(a, b)) && a@ == schema.name@ && b@ == p,
                Chain::Cycle => false,
            },
    {
        let fields = match self.get_table_all_fields(schema) {
            Ok(f) => f,
            Err(e) => {
                return Err(e);
            },
        };
        let parts = match self.gather_fields(&fields) {
            Ok(p) => p,
            Err(e) => {
                return Err(e);
            },
        };
        let ghost all = field_views(fields@);
        let names = parts.names;
        let definitions = parts.definitions;
        let parses = parts.parses;
        let inits = parts.inits;
        let checks = parts.checks;
        let links = parts.links;
        let cell = name.as_table_type_cell();
        let table_type = name.as_table_type(false);
        let row_type = name.as_type(false);
        let definitions_code = join(&definitions, "\n");
        let parses_code = join(&parses, "\n");
        let mut passes: Vec<String> = Vec::new();
        let mut k: usize = 0;
        while k < names.len()
            invariant
                k <= names.len(),
                passes@.len() == k,
                forall|j: int| 0 <= j < k ==> #[trigger] passes@[j]@ == field_pass_line_spec(names@[j]@),
            decreases names.len() - k,
        {
            passes.push(field_pass_line(names[k].as_str()));
            k = k + 1;
        }
        let ghost p = concrete_fold(self.config.target, all, all.len())->Ok_0;
        assert(views(passes@) =~= p.names.map_values(|n: Seq<char>| field_pass_line_spec(n)));
        let passes_code = join(&passes, "\n");
        let constraint_function = if checks.len() == 0 {
            String::new()
        } else {
            let inits_code = join(&inits, "\n");
            let checks_code = join(&checks, "\n\n");
            constraint_function_block(inits_code.as_str(), row_type.as_str(), checks_code.as_str())
        };
        let constraint_call = if checks.len() == 0 { String::new() } else { CONSTRAINT_CALL.to_owned() };
        let parent_insert = match self.get_parent_table(&schema.extend) {
            Some(parent) => {
                let parent_full_name = parent.name.as_type(true);
                concrete_parent_insert_code(cell.as_str(), parent_full_name.as_str(), row_type.as_str())
            },
            None => String::new(),
        };
        let link_inits = if links.len() == 0 {
            String::new()
        } else {
            let inits_code = join(&links, "\n\n");
            link_inits_block(cell.as_str(), inits_code.as_str())
        };
        Ok(concrete_table_code(
            schema.workbook.as_str(),
            schema.sheet.as_str(),
            cell.as_str(),
            table_type.as_str(),
            row_type.as_str(),
            fields.len(),
            definitions_code.as_str(),
            parses_code.as_str(),
            passes_code.as_str(),
            constraint_function.as_str(),
            constraint_call.as_str(),
            parent_insert.as_str(),
            link_inits.as_str(),
        ))
    }
}


/// Whether a kind has a Rust type: every kind but a tuple of fewer than two
/// or more than four kinds, or with a tuple inside.
pub fn kind_supported(kind: &FieldKind) -> (r: bool)
    ensures
        r == valid_kind(kind@),
{
    match kind {
        FieldKind::Tuple { types } => {
            proof { lemma_kind_views(types@); }
            if types.len() < 2 || types.len() > TUPLE_TYPES_MAX_COUNT {
                return false;
            }
            let mut i: usize = 0;
            while i < types.len()
                invariant
                    i <= types.len(),
                    kind@ == FieldKindView::Tuple(kind_views(types@)),
                    2 <= types@.len() <= TUPLE_TYPES_MAX_COUNT,
                    kind_views(types@).len() == types@.len(),
                    forall|k: int| 0 <= k < types@.len() ==> #[trigger] kind_views(types@)[k] == kind_view(types@[k]),
                    forall|k: int| 0 <= k < i ==> !(#[trigger] kind_views(types@)[k] is Tuple),
                decreases types.len() - i,
            {
                match &types[i] {
                    FieldKind::Tuple { .. } => {
                        assert(kind_views(types@)[i as int] is Tuple);
                        return false;
                    },
                    _ => {},
                }
                i = i + 1;
            }
            true
        },
        _ => true,
    }
}

/// Whether a field has a unique constraint.
fn unique_constrained(constraints: &Vec<Constraint>) -> (r: bool)
    ensures
        r == has_unique(constraints@),
{
    let mut i: usize = 0;
    while i < constraints.len()
        invariant
            i <= constraints.len(),
            forall|k: int| 0 <= k < i ==> constraints@[k] != Constraint::Unique,
        decreases constraints.len() - i,
    {
        match constraints[i] {
            Constraint::Unique => {
                return true;
            },
            _ => {},
        }
        i = i + 1;
    }
    false
}

/// Whether every field whose type the generator writes out for the
/// configured target has one.
pub fn field_kinds_supported(configured: Target, fields: &Vec<Field>) -> (r: bool)
    ensures
        r == kinds_ok(configured, field_views(fields@)),
{
    let ghost fv = field_views(fields@);
    let mut folded = true;
    let mut i: usize = 0;
    while i < fields.len()
        invariant
            i <= fields.len(),
            fv == field_views(fields@),
            folded == concrete_fold(configured, fv, i as nat) is Ok,
            forall|k: int| 0 <= k < i && #[trigger] targeted(fv[k].target, configured)
                && !(fv[k].optional && fv[k].multi)
                && concrete_fold(configured, fv, k as nat) is Ok ==> valid_kind(fv[k].kind),
        decreases fields.len() - i,
    {
        let f = &fields[i];
        assert(fv[i as int] == f@);
        let aimed = f.target == Target::All || f.target == configured;
        if aimed && !(f.optional && f.multi) && folded {
            if !kind_supported(&f.kind) {
                proof { reveal(kinds_ok); }
                return false;
            }
        }
        if aimed && folded {
            if (f.optional && f.multi) || (f.multi && unique_constrained(&f.constraints)) {
                folded = false;
            }
        }
        i = i + 1;
    }
    proof { reveal(kinds_ok); }
    true
}

impl Generator {
    /// Whether walking up the tables that `extend` names ends: it reaches a
    /// table that extends none, or names one never collected.
    pub fn inheritance_ends(&self, extend: &Option<String>) -> (r: bool)
        requires
            self.wf(),
        ensures
            r == self.chain_ends(opt_view(*extend)),
    {
        let mut current = clone_option(extend);
        let mut fuel: usize = self.tables.len();
        let ghost start = self.inherited_fields(opt_view(*extend), self.tables@.len() as nat);
        loop
            invariant
                self.wf(),
                start == self.inherited_fields(opt_view(*extend), self.tables@.len() as nat),
                (start is Cycle) == (self.inherited_fields(opt_view(current), fuel as nat) is Cycle),
            decreases fuel,
        {
            let parent = match &current {
                Some(p) => p.clone(),
                None => {
                    return true;
                },
            };
            match self.table_index(parent.as_str()) {
                None => {
                    return true;
                },
                Some(j) => {
                    proof { crate::generator::lemma_find_index(self.names_view(), parent@); }
                    if fuel == 0 {
                        return false;
                    }
                    let parent_schema = self.tables[j].schema.schematic();
                    current = clone_option(parent_schema.extend());
                    fuel = fuel - 1;
                },
            }
        }
    }
}

} // verus!
