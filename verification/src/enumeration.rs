//! The generated source of an enumeration, and for enumerations that need
//! them, its protobuf declaration and its SQL type with diesel conversions.

use vstd::prelude::*;
use crate::generator::Generator;
use crate::names::{Name, joined_path, path_join, snake_case, to_snake_case};
use crate::rust_types::GENERATED_FILE_WARNING;
use crate::schema::{EnumerationAttribute, EnumerationEntry, EnumerationSchema, Target};
use crate::text::{decimal, join, push_decimal, seq_join, views};

verus! {

pub const ENUM_VARIANT_0: &'static str = "    ";
pub const ENUM_VARIANT_1: &'static str = ",";
pub const ENUM_PARSE_0: &'static str = "            \"";
pub const ENUM_PARSE_1: &'static str = "\" => Self::";
pub const ENUM_PARSE_2: &'static str = ",";
pub const ENUM_INTO_0: &'static str = "            Self::";
pub const ENUM_INTO_1: &'static str = " => ";
pub const ENUM_INTO_2: &'static str = ",";
pub const ENUM_FROM_0: &'static str = "            ";
pub const ENUM_FROM_1: &'static str = " => Self::";
pub const ENUM_FROM_2: &'static str = ",";
pub const QUERYABLE_SQL_TYPE_0: &'static str = "#[diesel(sql_type = crate::schema::sql_types::";
pub const QUERYABLE_SQL_TYPE_1: &'static str = ")]";
pub const ENUM_SOURCE_0: &'static str = "\n";
pub const ENUM_SOURCE_1: &'static str = "\npub enum ";
pub const ENUM_SOURCE_2: &'static str = " {\n";
pub const ENUM_SOURCE_3: &'static str = "\n}\n\nimpl ";
pub const ENUM_SOURCE_4: &'static str = " {\n    pub fn parse(value: &calamine::Data) -> Result<Self, ParseError> {\n        let enum_string = String::parse(value)?;\n\n        Ok(match enum_string.as_str() {\n";
pub const ENUM_SOURCE_5: &'static str = "\n            _ => return Err(ParseError::InvalidValue {\n                type_name: std::any::type_name::<";
pub const ENUM_SOURCE_6: &'static str = ">(),\n                value: enum_string,\n            }),\n        })\n    }\n\n    pub fn try_from(value: &";
pub const ENUM_SOURCE_7: &'static str = ") -> Option<Self> {\n        Some(match value {\n";
pub const ENUM_SOURCE_8: &'static str = "\n            _ => return None,\n        })\n    }\n}\n\nimpl Into<";
pub const ENUM_SOURCE_9: &'static str = "> for ";
pub const ENUM_SOURCE_10: &'static str = " {\n    fn into(self) -> ";
pub const ENUM_SOURCE_11: &'static str = " {\n        match self {\n";
pub const ENUM_SOURCE_12: &'static str = "\n        }\n    }\n}\n";
pub const PROTO_VARIANT_0: &'static str = "    ";
pub const PROTO_VARIANT_1: &'static str = " = ";
pub const PROTO_VARIANT_2: &'static str = ";";
pub const PROTO_MATCH_0: &'static str = "            Self::";
pub const PROTO_MATCH_1: &'static str = " => Target::";
pub const PROTO_MATCH_2: &'static str = ",";
pub const PROTO_FILE_0: &'static str = "\nsyntax = \"proto3\";\n\npackage spire.protocol;\n\nenum ";
pub const PROTO_FILE_1: &'static str = " {\n";
pub const PROTO_FILE_2: &'static str = "\n}\n";
pub const PROTO_IMPL_0: &'static str = "\nimpl Into<protocol::";
pub const PROTO_IMPL_1: &'static str = "> for ";
pub const PROTO_IMPL_2: &'static str = " {\n    fn into(self) -> protocol::";
pub const PROTO_IMPL_3: &'static str = " {\n        type Target = protocol::Race;\n\n        match self {\n";
pub const PROTO_IMPL_4: &'static str = "\n        }\n    }\n}\n\nimpl Into<";
pub const PROTO_IMPL_5: &'static str = "> for protocol::";
pub const PROTO_IMPL_6: &'static str = " {\n    fn into(self) -> ";
pub const PROTO_IMPL_7: &'static str = " {\n        type Target = ";
pub const PROTO_IMPL_8: &'static str = ";\n\n        match self {\n";
pub const PROTO_IMPL_9: &'static str = "\n        }\n    }\n}\n\n";
pub const SQL_VARIANT_0: &'static str = "    '";
pub const SQL_VARIANT_1: &'static str = "'";
pub const TO_SQL_0: &'static str = "            Self::";
pub const TO_SQL_1: &'static str = " => out.write_all(b\"";
pub const TO_SQL_2: &'static str = "\")?,";
pub const FROM_SQL_0: &'static str = "            b\"";
pub const FROM_SQL_1: &'static str = "\" => Self::";
pub const FROM_SQL_2: &'static str = ",";
pub const SQL_FILE_0: &'static str = "-- ";
pub const SQL_FILE_1: &'static str = "\n\ncreate type ";
pub const SQL_FILE_2: &'static str = " as enum (\n";
pub const SQL_FILE_3: &'static str = "\n);\n";
pub const SQL_IMPL_0: &'static str = "\nimpl diesel::serialize::ToSql<crate::schema::sql_types::";
pub const SQL_IMPL_1: &'static str = ", diesel::pg::Pg> for ";
pub const SQL_IMPL_2: &'static str = " {\n    fn to_sql<'b>(\n        &'b self,\n        out: &mut diesel::serialize::Output<'b, '_, diesel::pg::Pg>,\n    ) -> diesel::serialize::Result {\n        match *self {\n";
pub const SQL_IMPL_3: &'static str = "\n        }\n        Ok(diesel::serialize::IsNull::No)\n    }\n}\n\nimpl diesel::deserialize::FromSql<crate::schema::sql_types::";
pub const SQL_IMPL_4: &'static str = ", diesel::pg::Pg> for ";
pub const SQL_IMPL_5: &'static str = " {\n    fn from_sql(\n        bytes: diesel::pg::PgValue<'_>,\n    ) -> diesel::deserialize::Result<Self> {\n        Ok(match bytes.as_bytes() {\n";
pub const SQL_IMPL_6: &'static str = "\n             _ => return Err(format!(\n                \"Unrecognized ";
pub const SQL_IMPL_7: &'static str = " enum variant {}\",\n                String::from_utf8_lossy(bytes.as_bytes()),\n            ).into()),\n        })\n    }\n}\n";
pub const PROTO_PATH_0: &'static str = ".gen.proto";
pub const SQL_PATH_0: &'static str = ".gen.sql";

pub open spec fn enum_variant_line_spec(e: Seq<char>) -> Seq<char> {
    ENUM_VARIANT_0@ + e + ENUM_VARIANT_1@
}

pub open spec fn enum_parse_line_spec(e: Seq<char>) -> Seq<char> {
    ENUM_PARSE_0@ + e + ENUM_PARSE_1@ + e + ENUM_PARSE_2@
}

pub open spec fn enum_into_line_spec(e: Seq<char>, index: u32) -> Seq<char> {
    ENUM_INTO_0@ + e + ENUM_INTO_1@ + decimal(index as nat) + ENUM_INTO_2@
}

pub open spec fn enum_from_line_spec(e: Seq<char>, index: u32) -> Seq<char> {
    ENUM_FROM_0@ + decimal(index as nat) + ENUM_FROM_1@ + e + ENUM_FROM_2@
}

pub open spec fn sql_type_attribute_spec(name: Seq<char>) -> Seq<char> {
    QUERYABLE_SQL_TYPE_0@ + name + QUERYABLE_SQL_TYPE_1@
}

pub open spec fn enumeration_source_code_spec(attributes_code: Seq<char>, enum_type_name: Seq<char>, enums_code: Seq<char>, enum_parses_code: Seq<char>, base_type_name: Seq<char>, enum_froms_code: Seq<char>, enum_intos_code: Seq<char>) -> Seq<char> {
    ENUM_SOURCE_0@ + attributes_code + ENUM_SOURCE_1@ + enum_type_name + ENUM_SOURCE_2@ + enums_code + ENUM_SOURCE_3@ + enum_type_name + ENUM_SOURCE_4@ + enum_parses_code + ENUM_SOURCE_5@ + enum_type_name + ENUM_SOURCE_6@ + base_type_name + ENUM_SOURCE_7@ + enum_froms_code + ENUM_SOURCE_8@ + base_type_name + ENUM_SOURCE_9@ + enum_type_name + ENUM_SOURCE_10@ + base_type_name + ENUM_SOURCE_11@ + enum_intos_code + ENUM_SOURCE_12@
}

pub open spec fn proto_variant_line_spec(e: Seq<char>, index: u32) -> Seq<char> {
    PROTO_VARIANT_0@ + e + PROTO_VARIANT_1@ + decimal(index as nat) + PROTO_VARIANT_2@
}

pub open spec fn proto_match_line_spec(e: Seq<char>) -> Seq<char> {
    PROTO_MATCH_0@ + e + PROTO_MATCH_1@ + e + PROTO_MATCH_2@
}

pub open spec fn protobuf_file_text_spec(enum_type_name: Seq<char>, enums_code: Seq<char>) -> Seq<char> {
    GENERATED_FILE_WARNING@ + PROTO_FILE_0@ + enum_type_name + PROTO_FILE_1@ + enums_code + PROTO_FILE_2@
}

pub open spec fn protobuf_conversion_code_spec(enum_type_name: Seq<char>, enum_matches_code: Seq<char>) -> Seq<char> {
    PROTO_IMPL_0@ + enum_type_name + PROTO_IMPL_1@ + enum_type_name + PROTO_IMPL_2@ + enum_type_name + PROTO_IMPL_3@ + enum_matches_code + PROTO_IMPL_4@ + enum_type_name + PROTO_IMPL_5@ + enum_type_name + PROTO_IMPL_6@ + enum_type_name + PROTO_IMPL_7@ + enum_type_name + PROTO_IMPL_8@ + enum_matches_code + PROTO_IMPL_9@
}

pub open spec fn sql_variant_line_spec(snake: Seq<char>) -> Seq<char> {
    SQL_VARIANT_0@ + snake + SQL_VARIANT_1@
}

pub open spec fn to_sql_line_spec(e: Seq<char>, snake: Seq<char>) -> Seq<char> {
    TO_SQL_0@ + e + TO_SQL_1@ + snake + TO_SQL_2@
}

pub open spec fn from_sql_line_spec(snake: Seq<char>, e: Seq<char>) -> Seq<char> {
    FROM_SQL_0@ + snake + FROM_SQL_1@ + e + FROM_SQL_2@
}

pub open spec fn sql_file_text_spec(name: Seq<char>, enums_code: Seq<char>) -> Seq<char> {
    SQL_FILE_0@ + GENERATED_FILE_WARNING@ + SQL_FILE_1@ + name + SQL_FILE_2@ + enums_code + SQL_FILE_3@
}

pub open spec fn queryable_impl_code_spec(enum_type_name: Seq<char>, to_sql_matches_code: Seq<char>, from_sql_matches_code: Seq<char>) -> Seq<char> {
    SQL_IMPL_0@ + enum_type_name + SQL_IMPL_1@ + enum_type_name + SQL_IMPL_2@ + to_sql_matches_code + SQL_IMPL_3@ + enum_type_name + SQL_IMPL_4@ + enum_type_name + SQL_IMPL_5@ + from_sql_matches_code + SQL_IMPL_6@ + enum_type_name + SQL_IMPL_7@
}

pub open spec fn protobuf_file_name_spec(name: Seq<char>) -> Seq<char> {
    name + PROTO_PATH_0@
}

pub open spec fn sql_file_name_spec(name: Seq<char>) -> Seq<char> {
    name + SQL_PATH_0@
}

/// The line that declares a variant.
pub fn enum_variant_line(e: &str) -> (r: String)
    ensures
        r@ == enum_variant_line_spec(e@),
{
    let mut out = String::new();
    out.append(ENUM_VARIANT_0);
    out.append(e);
    out.append(ENUM_VARIANT_1);
    out
}

/// The arm that parses a variant from its name.
pub fn enum_parse_line(e: &str) -> (r: String)
    ensures
        r@ == enum_parse_line_spec(e@),
{
    let mut out = String::new();
    out.append(ENUM_PARSE_0);
    out.append(e);
    out.append(ENUM_PARSE_1);
    out.append(e);
    out.append(ENUM_PARSE_2);
    out
}

/// The arm that converts a variant to its value.
pub fn enum_into_line(e: &str, index: u32) -> (r: String)
    ensures
        r@ == enum_into_line_spec(e@, index),
{
    let mut out = String::new();
    out.append(ENUM_INTO_0);
    out.append(e);
    out.append(ENUM_INTO_1);
    push_decimal(&mut out, index as u64);
    out.append(ENUM_INTO_2);
    out
}

/// The arm that converts a value to its variant.
pub fn enum_from_line(e: &str, index: u32) -> (r: String)
    ensures
        r@ == enum_from_line_spec(e@, index),
{
    let mut out = String::new();
    out.append(ENUM_FROM_0);
    push_decimal(&mut out, index as u64);
    out.append(ENUM_FROM_1);
    out.append(e);
    out.append(ENUM_FROM_2);
    out
}

/// The attribute that names the SQL type of a queryable enumeration.
pub fn sql_type_attribute(name: &str) -> (r: String)
    ensures
        r@ == sql_type_attribute_spec(name@),
{
    let mut out = String::new();
    out.append(QUERYABLE_SQL_TYPE_0);
    out.append(name);
    out.append(QUERYABLE_SQL_TYPE_1);
    out
}

/// The source of an enumeration from its parts.
pub fn enumeration_source_code(attributes_code: &str, enum_type_name: &str, enums_code: &str, enum_parses_code: &str, base_type_name: &str, enum_froms_code: &str, enum_intos_code: &str) -> (r: String)
    ensures
        r@ == enumeration_source_code_spec(attributes_code@, enum_type_name@, enums_code@, enum_parses_code@, base_type_name@, enum_froms_code@, enum_intos_code@),
{
    let mut out = String::new();
    out.append(ENUM_SOURCE_0);
    out.append(attributes_code);
    out.append(ENUM_SOURCE_1);
    out.append(enum_type_name);
    out.append(ENUM_SOURCE_2);
    out.append(enums_code);
    out.append(ENUM_SOURCE_3);
    out.append(enum_type_name);
    out.append(ENUM_SOURCE_4);
    out.append(enum_parses_code);
    out.append(ENUM_SOURCE_5);
    out.append(enum_type_name);
    out.append(ENUM_SOURCE_6);
    out.append(base_type_name);
    out.append(ENUM_SOURCE_7);
    out.append(enum_froms_code);
    out.append(ENUM_SOURCE_8);
    out.append(base_type_name);
    out.append(ENUM_SOURCE_9);
    out.append(enum_type_name);
    out.append(ENUM_SOURCE_10);
    out.append(base_type_name);
    out.append(ENUM_SOURCE_11);
    out.append(enum_intos_code);
    out.append(ENUM_SOURCE_12);
    out
}

/// The protobuf line that declares a variant.
pub fn proto_variant_line(e: &str, index: u32) -> (r: String)
    ensures
        r@ == proto_variant_line_spec(e@, index),
{
    let mut out = String::new();
    out.append(PROTO_VARIANT_0);
    out.append(e);
    out.append(PROTO_VARIANT_1);
    push_decimal(&mut out, index as u64);
    out.append(PROTO_VARIANT_2);
    out
}

/// The arm that converts a variant to the same variant of the other type.
pub fn proto_match_line(e: &str) -> (r: String)
    ensures
        r@ == proto_match_line_spec(e@),
{
    let mut out = String::new();
    out.append(PROTO_MATCH_0);
    out.append(e);
    out.append(PROTO_MATCH_1);
    out.append(e);
    out.append(PROTO_MATCH_2);
    out
}

/// The protobuf file that declares an enumeration.
pub fn protobuf_file_text(enum_type_name: &str, enums_code: &str) -> (r: String)
    ensures
        r@ == protobuf_file_text_spec(enum_type_name@, enums_code@),
{
    let mut out = String::new();
    out.append(GENERATED_FILE_WARNING);
    out.append(PROTO_FILE_0);
    out.append(enum_type_name);
    out.append(PROTO_FILE_1);
    out.append(enums_code);
    out.append(PROTO_FILE_2);
    out
}

/// The conversions between an enumeration and its protobuf type.
pub fn protobuf_conversion_code(enum_type_name: &str, enum_matches_code: &str) -> (r: String)
    ensures
        r@ == protobuf_conversion_code_spec(enum_type_name@, enum_matches_code@),
{
    let mut out = String::new();
    out.append(PROTO_IMPL_0);
    out.append(enum_type_name);
    out.append(PROTO_IMPL_1);
    out.append(enum_type_name);
    out.append(PROTO_IMPL_2);
    out.append(enum_type_name);
    out.append(PROTO_IMPL_3);
    out.append(enum_matches_code);
    out.append(PROTO_IMPL_4);
    out.append(enum_type_name);
    out.append(PROTO_IMPL_5);
    out.append(enum_type_name);
    out.append(PROTO_IMPL_6);
    out.append(enum_type_name);
    out.append(PROTO_IMPL_7);
    out.append(enum_type_name);
    out.append(PROTO_IMPL_8);
    out.append(enum_matches_code);
    out.append(PROTO_IMPL_9);
    out
}

/// The SQL line that declares a variant.
pub fn sql_variant_line(snake: &str) -> (r: String)
    ensures
        r@ == sql_variant_line_spec(snake@),
{
    let mut out = String::new();
    out.append(SQL_VARIANT_0);
    out.append(snake);
    out.append(SQL_VARIANT_1);
    out
}

/// The arm that writes a variant to SQL.
pub fn to_sql_line(e: &str, snake: &str) -> (r: String)
    ensures
        r@ == to_sql_line_spec(e@, snake@),
{
    let mut out = String::new();
    out.append(TO_SQL_0);
    out.append(e);
    out.append(TO_SQL_1);
    out.append(snake);
    out.append(TO_SQL_2);
    out
}

/// The arm that reads a variant from SQL.
pub fn from_sql_line(snake: &str, e: &str) -> (r: String)
    ensures
        r@ == from_sql_line_spec(snake@, e@),
{
    let mut out = String::new();
    out.append(FROM_SQL_0);
    out.append(snake);
    out.append(FROM_SQL_1);
    out.append(e);
    out.append(FROM_SQL_2);
    out
}

/// The SQL file that creates an enumeration type.
pub fn sql_file_text(name: &str, enums_code: &str) -> (r: String)
    ensures
        r@ == sql_file_text_spec(name@, enums_code@),
{
    let mut out = String::new();
    out.append(SQL_FILE_0);
    out.append(GENERATED_FILE_WARNING);
    out.append(SQL_FILE_1);
    out.append(name);
    out.append(SQL_FILE_2);
    out.append(enums_code);
    out.append(SQL_FILE_3);
    out
}

/// The diesel conversions of a queryable enumeration.
pub fn queryable_code(enum_type_name: &str, to_sql_matches_code: &str, from_sql_matches_code: &str) -> (r: String)
    ensures
        r@ == queryable_impl_code_spec(enum_type_name@, to_sql_matches_code@, from_sql_matches_code@),
{
    let mut out = String::new();
    out.append(SQL_IMPL_0);
    out.append(enum_type_name);
    out.append(SQL_IMPL_1);
    out.append(enum_type_name);
    out.append(SQL_IMPL_2);
    out.append(to_sql_matches_code);
    out.append(SQL_IMPL_3);
    out.append(enum_type_name);
    out.append(SQL_IMPL_4);
    out.append(enum_type_name);
    out.append(SQL_IMPL_5);
    out.append(from_sql_matches_code);
    out.append(SQL_IMPL_6);
    out.append(enum_type_name);
    out.append(SQL_IMPL_7);
    out
}

/// The name of an enumeration's protobuf file.
pub fn protobuf_file_name(name: &str) -> (r: String)
    ensures
        r@ == protobuf_file_name_spec(name@),
{
    let mut out = String::new();
    out.append(name);
    out.append(PROTO_PATH_0);
    out
}

/// The name of an enumeration's SQL file.
pub fn sql_file_name(name: &str) -> (r: String)
    ensures
        r@ == sql_file_name_spec(name@),
{
    let mut out = String::new();
    out.append(name);
    out.append(SQL_PATH_0);
    out
}

/// The derive line every generated enumeration has.
pub const ENUM_DERIVE: &'static str = "#[derive(Debug, Clone, Copy, PartialEq, Eq)]";

/// The derive line of queryable enumerations.
pub const QUERYABLE_DERIVE: &'static str = "#[derive(diesel::FromSqlRow, diesel::AsExpression)]";

/// The attribute lines given for the configured target, in order.
pub open spec fn targeted_attributes(configured: Target, attrs: Seq<EnumerationAttribute>) -> Seq<Seq<char>>
    decreases attrs.len(),
{
    if attrs.len() == 0 {
        Seq::empty()
    } else {
        let rest = targeted_attributes(configured, attrs.drop_last());
        let a = attrs.last();
        if a.target == Target::All || a.target == configured { rest.push(a.attribute@) } else { rest }
    }
}

/// All attribute lines of a generated enumeration.
pub open spec fn attribute_lines(configured: Target, schema: EnumerationSchema) -> Seq<Seq<char>> {
    let base = seq![ENUM_DERIVE@] + targeted_attributes(configured, schema.attributes@);
    if schema.queryable {
        base.push(QUERYABLE_DERIVE@).push(sql_type_attribute_spec(schema.name@))
    } else {
        base
    }
}

/// One line per variant, made by `line` from the variant's name and position.
pub open spec fn variant_lines(enums: Seq<Seq<char>>, line: spec_fn(Seq<char>, u32) -> Seq<char>) -> Seq<Seq<char>> {
    Seq::new(enums.len(), |k: int| line(enums[k], k as u32))
}

/// The source of an enumeration: its type, parsing from a sheet cell, and
/// conversions from and to its base integer type.
pub open spec fn source_spec(configured: Target, schema: EnumerationSchema) -> Seq<char> {
    let enums = views(schema.enums@);
    enumeration_source_code_spec(
        seq_join(attribute_lines(configured, schema), "\n"@),
        schema.name@,
        seq_join(variant_lines(enums, |e: Seq<char>, k: u32| enum_variant_line_spec(e)), "\n"@),
        seq_join(variant_lines(enums, |e: Seq<char>, k: u32| enum_parse_line_spec(e)), "\n"@),
        schema.base.rust_type_spec(),
        seq_join(variant_lines(enums, |e: Seq<char>, k: u32| enum_from_line_spec(e, k)), "\n"@),
        seq_join(variant_lines(enums, |e: Seq<char>, k: u32| enum_into_line_spec(e, k)), "\n"@),
    )
}

/// The protobuf declaration of an enumeration.
pub open spec fn protobuf_text_spec(name: Name, schema: EnumerationSchema) -> Seq<char> {
    protobuf_file_text_spec(
        name.type_spec(false),
        seq_join(variant_lines(views(schema.enums@), |e: Seq<char>, k: u32| proto_variant_line_spec(e, k)), "\n"@),
    )
}

/// The conversions between an enumeration and its protobuf type.
pub open spec fn protobuf_code_spec(name: Name, schema: EnumerationSchema) -> Seq<char> {
    protobuf_conversion_code_spec(
        name.type_spec(false),
        seq_join(variant_lines(views(schema.enums@), |e: Seq<char>, k: u32| proto_match_line_spec(e)), "\n"@),
    )
}

/// The SQL type declaration of an enumeration.
pub open spec fn sql_text_spec(name: Name, schema: EnumerationSchema) -> Seq<char> {
    sql_file_text_spec(
        name.name@,
        seq_join(variant_lines(views(schema.enums@), |e: Seq<char>, k: u32| sql_variant_line_spec(snake_case(e))), ",\n"@),
    )
}

/// The diesel conversions of a queryable enumeration.
pub open spec fn queryable_code_spec(schema: EnumerationSchema) -> Seq<char> {
    let enums = views(schema.enums@);
    queryable_impl_code_spec(
        schema.name@,
        seq_join(variant_lines(enums, |e: Seq<char>, k: u32| to_sql_line_spec(e, snake_case(e))), "\n"@),
        seq_join(variant_lines(enums, |e: Seq<char>, k: u32| from_sql_line_spec(snake_case(e), e)), "\n"@),
    )
}


/// What generating an enumeration produces: the Rust code, and the files
/// to write beside it (path and text).
pub struct EnumerationOutput {
    pub code: String,
    pub protobuf_file: Option<(String, String)>,
    pub sql_file: Option<(String, String)>,
}

/// Which line a variant gets.
#[derive(Clone, Copy, PartialEq, Eq, Structural)]
pub enum VariantLine {
    Variant,
    Parse,
    From,
    Into,
    ProtoVariant,
    ProtoMatch,
    SqlVariant,
    ToSql,
    FromSql,
}

pub open spec fn variant_line_spec(kind: VariantLine, e: Seq<char>, k: u32) -> Seq<char> {
    match kind {
        VariantLine::Variant => enum_variant_line_spec(e),
        VariantLine::Parse => enum_parse_line_spec(e),
        VariantLine::From => enum_from_line_spec(e, k),
        VariantLine::Into => enum_into_line_spec(e, k),
        VariantLine::ProtoVariant => proto_variant_line_spec(e, k),
        VariantLine::ProtoMatch => proto_match_line_spec(e),
        VariantLine::SqlVariant => sql_variant_line_spec(snake_case(e)),
        VariantLine::ToSql => to_sql_line_spec(e, snake_case(e)),
        VariantLine::FromSql => from_sql_line_spec(snake_case(e), e),
    }
}

fn variant_line(kind: VariantLine, e: &str, k: u32) -> (r: String)
    ensures
        r@ == variant_line_spec(kind, e@, k),
{
    match kind {
        VariantLine::Variant => enum_variant_line(e),
        VariantLine::Parse => enum_parse_line(e),
        VariantLine::From => enum_from_line(e, k),
        VariantLine::Into => enum_into_line(e, k),
        VariantLine::ProtoVariant => proto_variant_line(e, k),
        VariantLine::ProtoMatch => proto_match_line(e),
        VariantLine::SqlVariant => {
            let snake = to_snake_case(e);
            sql_variant_line(snake.as_str())
        },
        VariantLine::ToSql => {
            let snake = to_snake_case(e);
            to_sql_line(e, snake.as_str())
        },
        VariantLine::FromSql => {
            let snake = to_snake_case(e);
            from_sql_line(snake.as_str(), e)
        },
    }
}

/// The lines of one kind for every variant, joined with `sep`.
pub fn variant_lines_code(kind: VariantLine, enums: &Vec<String>, sep: &str) -> (r: String)
    requires
        enums@.len() <= u32::MAX,
    ensures
        r@ == seq_join(Seq::new(enums@.len(), |k: int| variant_line_spec(kind, enums@[k]@, k as u32)), sep@),
{
    let mut lines: Vec<String> = Vec::new();
    let mut i: usize = 0;
    while i < enums.len()
        invariant
            i <= enums.len(),
            enums@.len() <= u32::MAX,
            lines@.len() == i,
            forall|m: int| 0 <= m < i ==> #[trigger] lines@[m]@ == variant_line_spec(kind, enums@[m]@, m as u32),
        decreases enums.len() - i,
    {
        let index = i as u32;
        lines.push(variant_line(kind, enums[i].as_str(), index));
        i = i + 1;
    }
    assert(views(lines@) =~= Seq::new(enums@.len(), |k: int| variant_line_spec(kind, enums@[k]@, k as u32)));
    join(&lines, sep)
}

impl Generator {
    /// The attribute lines of a generated enumeration.
    pub fn enumeration_attributes(&self, schema: &EnumerationSchema) -> (r: Vec<String>)
        ensures
            views(r@) == attribute_lines(self.config.target, *schema),
    {
        let mut attributes: Vec<String> = Vec::new();
        attributes.push(ENUM_DERIVE.to_owned());
        let ghost base = seq![ENUM_DERIVE@];
        assert(views(attributes@) =~= base);
        let mut i: usize = 0;
        while i < schema.attributes.len()
            invariant
                i <= schema.attributes.len(),
                views(attributes@) == base + targeted_attributes(self.config.target, schema.attributes@.take(i as int)),
            decreases schema.attributes.len() - i,
        {
            let ghost before = views(attributes@);
            let attribute = &schema.attributes[i];
            proof {
                assert(schema.attributes@.take(i + 1).drop_last() =~= schema.attributes@.take(i as int));
            }
            if self.is_target(attribute.target) {
                attributes.push(attribute.attribute.clone());
                assert(views(attributes@) =~= before.push(attribute.attribute@));
            }
            i = i + 1;
        }
        assert(schema.attributes@.take(schema.attributes.len() as int) =~= schema.attributes@);
        if schema.queryable {
            let ghost before = views(attributes@);
            attributes.push(QUERYABLE_DERIVE.to_owned());
            let sql_type = sql_type_attribute(schema.name.as_str());
            attributes.push(sql_type);
            assert(views(attributes@) =~= before.push(QUERYABLE_DERIVE@).push(sql_type@));
        }
        attributes
    }

    /// The source of an enumeration.
    pub fn generate_source(&self, schema: &EnumerationSchema) -> (r: String)
        requires
            schema.enums@.len() <= u32::MAX,
        ensures
            r@ == source_spec(self.config.target, *schema),
    {
        let attributes = self.enumeration_attributes(schema);
        let attributes_code = join(&attributes, "\n");
        let enums_code = variant_lines_code(VariantLine::Variant, &schema.enums, "\n");
        let parses_code = variant_lines_code(VariantLine::Parse, &schema.enums, "\n");
        let froms_code = variant_lines_code(VariantLine::From, &schema.enums, "\n");
        let intos_code = variant_lines_code(VariantLine::Into, &schema.enums, "\n");
        proof {
            let enums = views(schema.enums@);
            assert(Seq::new(schema.enums@.len(), |k: int| variant_line_spec(VariantLine::Variant, schema.enums@[k]@, k as u32))
                =~= variant_lines(enums, |e: Seq<char>, k: u32| enum_variant_line_spec(e)));
            assert(Seq::new(schema.enums@.len(), |k: int| variant_line_spec(VariantLine::Parse, schema.enums@[k]@, k as u32))
                =~= variant_lines(enums, |e: Seq<char>, k: u32| enum_parse_line_spec(e)));
            assert(Seq::new(schema.enums@.len(), |k: int| variant_line_spec(VariantLine::From, schema.enums@[k]@, k as u32))
                =~= variant_lines(enums, |e: Seq<char>, k: u32| enum_from_line_spec(e, k)));
            assert(Seq::new(schema.enums@.len(), |k: int| variant_line_spec(VariantLine::Into, schema.enums@[k]@, k as u32))
                =~= variant_lines(enums, |e: Seq<char>, k: u32| enum_into_line_spec(e, k)));
        }
        enumeration_source_code(
            attributes_code.as_str(),
            schema.name.as_str(),
            enums_code.as_str(),
            parses_code.as_str(),
            schema.base.to_rust_type(),
            froms_code.as_str(),
            intos_code.as_str(),
        )
    }

    /// The protobuf file of an enumeration (its path and text) and the
    /// conversions between the enumeration and its protobuf type.
    pub fn generate_protobuf(&self, name: &Name, schema: &EnumerationSchema) -> (r: (String, String, String))
        requires
            schema.enums@.len() <= u32::MAX,
        ensures
            r.0@ == joined_path(self.config.protobuf_gen_dir@, protobuf_file_name_spec(name.name@)),
            r.1@ == protobuf_text_spec(*name, *schema),
            r.2@ == protobuf_code_spec(*name, *schema),
    {
        let file_name = protobuf_file_name(name.name.as_str());
        let path = path_join(self.config.protobuf_gen_dir.as_str(), file_name.as_str());
        let enum_type = name.as_type(false);
        let enums_code = variant_lines_code(VariantLine::ProtoVariant, &schema.enums, "\n");
        let matches_code = variant_lines_code(VariantLine::ProtoMatch, &schema.enums, "\n");
        proof {
            let enums = views(schema.enums@);
            assert(Seq::new(schema.enums@.len(), |k: int| variant_line_spec(VariantLine::ProtoVariant, schema.enums@[k]@, k as u32))
                =~= variant_lines(enums, |e: Seq<char>, k: u32| proto_variant_line_spec(e, k)));
            assert(Seq::new(schema.enums@.len(), |k: int| variant_line_spec(VariantLine::ProtoMatch, schema.enums@[k]@, k as u32))
                =~= variant_lines(enums, |e: Seq<char>, k: u32| proto_match_line_spec(e)));
        }
        let text = protobuf_file_text(enum_type.as_str(), enums_code.as_str());
        let code = protobuf_conversion_code(enum_type.as_str(), matches_code.as_str());
        (path, text, code)
    }

    /// The SQL file of an enumeration (its path and text) and the diesel
    /// conversions between the enumeration and its SQL type.
    pub fn generate_queryable(&self, name: &Name, schema: &EnumerationSchema) -> (r: (String, String, String))
        requires
            schema.enums@.len() <= u32::MAX,
        ensures
            r.0@ == joined_path(self.config.sql_gen_dir@, sql_file_name_spec(name.name@)),
            r.1@ == sql_text_spec(*name, *schema),
            r.2@ == queryable_code_spec(*schema),
    {
        let enums_code = variant_lines_code(VariantLine::SqlVariant, &schema.enums, ",\n");
        let to_sql_code = variant_lines_code(VariantLine::ToSql, &schema.enums, "\n");
        let from_sql_code = variant_lines_code(VariantLine::FromSql, &schema.enums, "\n");
        proof {
            let enums = views(schema.enums@);
            assert(Seq::new(schema.enums@.len(), |k: int| variant_line_spec(VariantLine::SqlVariant, schema.enums@[k]@, k as u32))
                =~= variant_lines(enums, |e: Seq<char>, k: u32| sql_variant_line_spec(snake_case(e))));
            assert(Seq::new(schema.enums@.len(), |k: int| variant_line_spec(VariantLine::ToSql, schema.enums@[k]@, k as u32))
                =~= variant_lines(enums, |e: Seq<char>, k: u32| to_sql_line_spec(e, snake_case(e))));
            assert(Seq::new(schema.enums@.len(), |k: int| variant_line_spec(VariantLine::FromSql, schema.enums@[k]@, k as u32))
                =~= variant_lines(enums, |e: Seq<char>, k: u32| from_sql_line_spec(snake_case(e), e)));
        }
        let file_name = sql_file_name(name.name.as_str());
        let path = path_join(self.config.sql_gen_dir.as_str(), file_name.as_str());
        let text = sql_file_text(name.name.as_str(), enums_code.as_str());
        let code = queryable_code(schema.name.as_str(), to_sql_code.as_str(), from_sql_code.as_str());
        (path, text, code)
    }

    /// Everything generated for an enumeration: its source, then for a
    /// protocol enumeration its protobuf conversions, then for a queryable one
    /// its diesel conversions; and the protobuf and SQL files to write.
    pub fn generate_enumeration(&self, enumeration: &EnumerationEntry) -> (r: EnumerationOutput)
        requires
            enumeration.schema.enums@.len() <= u32::MAX,
        ensures
            r.code@ == source_spec(self.config.target, enumeration.schema)
                + (if enumeration.schema.protocol { protobuf_code_spec(enumeration.name, enumeration.schema) } else { Seq::empty() })
                + (if enumeration.schema.queryable { queryable_code_spec(enumeration.schema) } else { Seq::empty() }),
            enumeration.schema.protocol <==> r.protobuf_file is Some,
            r.protobuf_file matches Some(f) ==> f.0@ == joined_path(self.config.protobuf_gen_dir@, protobuf_file_name_spec(enumeration.name.name@))
                && f.1@ == protobuf_text_spec(enumeration.name, enumeration.schema),
            enumeration.schema.queryable <==> r.sql_file is Some,
            r.sql_file matches Some(f) ==> f.0@ == joined_path(self.config.sql_gen_dir@, sql_file_name_spec(enumeration.name.name@))
                && f.1@ == sql_text_spec(enumeration.name, enumeration.schema),
    {
        let mut code = self.generate_source(&enumeration.schema);
        let ghost source = code@;
        let protobuf_file = if enumeration.schema.protocol {
            let (path, text, impl_code) = self.generate_protobuf(&enumeration.name, &enumeration.schema);
            code.append(impl_code.as_str());
            Some((path, text))
        } else {
            assert(code@ =~= source + Seq::<char>::empty());
            None
        };
        let ghost with_protobuf = code@;
        let sql_file = if enumeration.schema.queryable {
            let (path, text, impl_code) = self.generate_queryable(&enumeration.name, &enumeration.schema);
            code.append(impl_code.as_str());
            Some((path, text))
        } else {
            assert(code@ =~= with_protobuf + Seq::<char>::empty());
            None
        };
        EnumerationOutput { code, protobuf_file, sql_file }
    }
}

} // verus!
