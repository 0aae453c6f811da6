//! The Rust types that generated code gives to table fields and enumerations.

use vstd::prelude::*;
use crate::schema::{EnumerationBase, FieldKind, FieldKindView, ScalarAllType, kind_view, kind_views, lemma_kind_views};
use crate::text::{lemma_after_word, seq_join, views, join};

verus! {

/// The path of the data crate as generated code names it.
pub const CRATE_PREFIX: &'static str = "crate";

/// The first line of every generated source file.
pub const GENERATED_FILE_WARNING: &'static str = "// This is a generated file. DO NOT MODIFY.";

/// The rows at the top of each sheet that hold headers, not data.
pub const HEADER_ROWS: usize = 2;

/// Tuples of more types than this are not supported.
pub const TUPLE_TYPES_MAX_COUNT: usize = 4;

pub open spec fn scalar_rust_type(t: ScalarAllType) -> Seq<char> {
    match t {
        ScalarAllType::Id => "DataId"@,
        ScalarAllType::Bool => "bool"@,
        ScalarAllType::Int8 => "i8"@,
        ScalarAllType::Int16 => "i16"@,
        ScalarAllType::Int32 => "i32"@,
        ScalarAllType::Int64 => "i64"@,
        ScalarAllType::Uint8 => "u8"@,
        ScalarAllType::Uint16 => "u16"@,
        ScalarAllType::Uint32 => "u32"@,
        ScalarAllType::Uint64 => "u64"@,
        ScalarAllType::Float32 => "f32"@,
        ScalarAllType::Float64 => "f64"@,
        ScalarAllType::String => "String"@,
        ScalarAllType::Datetime => "chrono::DateTime"@,
        ScalarAllType::Duration => "chrono::Duration"@,
        ScalarAllType::Json => "serde_json::Value"@,
    }
}

/// The Rust type of a kind that is not a tuple.
pub open spec fn base_rust_type(k: FieldKindView) -> Seq<char> {
    match k {
        FieldKindView::Scalar(t) => scalar_rust_type(t),
        FieldKindView::Enum(e) => CRATE_PREFIX@ + "::"@ + e,
        FieldKindView::Link(l) => "Link<"@ + CRATE_PREFIX@ + "::"@ + l + ">"@,
        FieldKindView::Union(u) => CRATE_PREFIX@ + "::"@ + u,
        FieldKindView::Tuple(_) => Seq::empty(),
    }
}

/// A tuple kind holds two to four kinds, none of them a tuple.
pub open spec fn valid_tuple(ts: Seq<FieldKindView>) -> bool {
    &&& 2 <= ts.len() <= TUPLE_TYPES_MAX_COUNT
    &&& forall|i: int| 0 <= i < ts.len() ==> !(#[trigger] ts[i] is Tuple)
}

/// Kinds for which a Rust type exists: every kind but malformed tuples.
pub open spec fn valid_kind(k: FieldKindView) -> bool {
    match k {
        FieldKindView::Tuple(ts) => valid_tuple(ts),
        _ => true,
    }
}

pub open spec fn base_rust_types(ts: Seq<FieldKindView>) -> Seq<Seq<char>> {
    ts.map_values(|t: FieldKindView| base_rust_type(t))
}

/// The Rust type of a field's values.
pub open spec fn rust_type(k: FieldKindView) -> Seq<char> {
    match k {
        FieldKindView::Tuple(ts) => "("@ + seq_join(base_rust_types(ts), ", "@) + ")"@,
        _ => base_rust_type(k),
    }
}

/// Whether values of the kind hold a link to another table.
pub open spec fn has_link_spec(k: FieldKindView) -> bool {
    match k {
        FieldKindView::Link(_) => true,
        FieldKindView::Tuple(ts) => exists|i: int| 0 <= i < ts.len() && #[trigger] ts[i] is Link,
        _ => false,
    }
}

/// The scan for a link meets no nested tuple before the first link.
pub open spec fn link_scan_defined(k: FieldKindView) -> bool {
    match k {
        FieldKindView::Tuple(ts) => forall|i: int| 0 <= i < ts.len() && #[trigger] ts[i] is Tuple ==>
            exists|j: int| 0 <= j < i && #[trigger] ts[j] is Link,
        _ => true,
    }
}

fn scalar_type_name(t: ScalarAllType) -> (r: String)
    ensures
        r@ == scalar_rust_type(t),
{
    let s: &str = match t {
        ScalarAllType::Id => "DataId",
        ScalarAllType::Bool => "bool",
        ScalarAllType::Int8 => "i8",
        ScalarAllType::Int16 => "i16",
        ScalarAllType::Int32 => "i32",
        ScalarAllType::Int64 => "i64",
        ScalarAllType::Uint8 => "u8",
        ScalarAllType::Uint16 => "u16",
        ScalarAllType::Uint32 => "u32",
        ScalarAllType::Uint64 => "u64",
        ScalarAllType::Float32 => "f32",
        ScalarAllType::Float64 => "f64",
        ScalarAllType::String => "String",
        ScalarAllType::Datetime => "chrono::DateTime",
        ScalarAllType::Duration => "chrono::Duration",
        ScalarAllType::Json => "serde_json::Value",
    };
    s.to_owned()
}

fn base_type_name(k: &FieldKind) -> (r: String)
    requires
        !(k@ is Tuple),
    ensures
        r@ == base_rust_type(k@),
{
    match k {
        FieldKind::Scalar { scalar_type } => scalar_type_name(*scalar_type),
        FieldKind::Enum { enum_type } => {
            let mut r = CRATE_PREFIX.to_owned();
            r.append("::");
            r.append(enum_type.as_str());
            r
        },
        FieldKind::Link { link_type } => {
            let mut r = "Link<".to_owned();
            r.append(CRATE_PREFIX);
            r.append("::");
            r.append(link_type.as_str());
            r.append(">");
            r
        },
        FieldKind::Union { union_type } => {
            let mut r = CRATE_PREFIX.to_owned();
            r.append("::");
            r.append(union_type.as_str());
            r
        },
        FieldKind::Tuple { .. } => String::new(),
    }
}

/// The Rust types of the members of a tuple field.
pub fn to_tuple_type_strings(fields: &[FieldKind]) -> (r: Vec<String>)
    requires
        valid_tuple(kind_views(fields@)),
    ensures
        views(r@) == base_rust_types(kind_views(fields@)),
{
    proof { lemma_kind_views(fields@); }
    let mut type_strings: Vec<String> = Vec::new();
    let mut i: usize = 0;
    while i < fields.len()
        invariant
            i <= fields.len(),
            kind_views(fields@).len() == fields@.len(),
            forall|j: int| 0 <= j < fields@.len() ==> #[trigger] kind_views(fields@)[j] == kind_view(fields@[j]),
            valid_tuple(kind_views(fields@)),
            type_strings@.len() == i,
            forall|j: int| 0 <= j < i ==> #[trigger] type_strings@[j]@ == base_rust_type(kind_views(fields@)[j]),
        decreases fields.len() - i,
    {
        assert(!(kind_views(fields@)[i as int] is Tuple));
        let t = base_type_name(&fields[i]);
        type_strings.push(t);
        i = i + 1;
    }
    assert(views(type_strings@) =~= base_rust_types(kind_views(fields@)));
    type_strings
}

impl FieldKind {
    /// The Rust type of a field's values.
    pub fn to_rust_type(&self) -> (r: String)
        requires
            valid_kind(self@),
        ensures
            r@ == rust_type(self@),
    {
        match self {
            FieldKind::Tuple { types } => {
                let type_strings = to_tuple_type_strings(types.as_slice());
                let mut r = "(".to_owned();
                let inner = join(&type_strings, ", ");
                r.append(inner.as_str());
                r.append(")");
                r
            },
            _ => base_type_name(self),
        }
    }

    /// Whether values of this kind hold a link to another table.
    pub fn has_link(&self) -> (r: bool)
        requires
            link_scan_defined(self@),
        ensures
            r == has_link_spec(self@),
    {
        match self {
            FieldKind::Link { .. } => true,
            FieldKind::Tuple { types } => {
                proof { lemma_kind_views(types@); }
                let mut i: usize = 0;
                while i < types.len()
                    invariant
                        i <= types.len(),
                        kind_views(types@).len() == types@.len(),
                        forall|j: int| 0 <= j < types@.len() ==> #[trigger] kind_views(types@)[j] == kind_view(types@[j]),
                        forall|j: int| 0 <= j < i ==> !(#[trigger] kind_views(types@)[j] is Link),
                        link_scan_defined(self@),
                        self@ == FieldKindView::Tuple(kind_views(types@)),
                    decreases types.len() - i,
                {
                    match &types[i] {
                        FieldKind::Link { .. } => {
                            assert(kind_views(types@)[i as int] is Link);
                            return true;
                        },
                        FieldKind::Tuple { .. } => {
                            assert(kind_views(types@)[i as int] is Tuple);
                            assert(false);
                        },
                        _ => {},
                    }
                    i = i + 1;
                }
                false
            },
            _ => false,
        }
    }
}

impl EnumerationBase {
    pub open spec fn rust_type_spec(self) -> Seq<char> {
        match self {
            EnumerationBase::Uint8 => "u8"@,
            EnumerationBase::Uint16 => "u16"@,
            EnumerationBase::Uint32 => "u32"@,
        }
    }

    /// The Rust integer type that holds the enumeration's value.
    pub fn to_rust_type(&self) -> (r: &'static str)
        ensures
            r@ == self.rust_type_spec(),
    {
        match self {
            EnumerationBase::Uint8 => "u8",
            EnumerationBase::Uint16 => "u16",
            EnumerationBase::Uint32 => "u32",
        }
    }
}

/// The name a table schema gives a scalar type.
pub open spec fn scalar_schema_name(t: ScalarAllType) -> Seq<char> {
    match t {
        ScalarAllType::Id => "id"@,
        ScalarAllType::Bool => "bool"@,
        ScalarAllType::Int8 => "int8"@,
        ScalarAllType::Int16 => "int16"@,
        ScalarAllType::Int32 => "int32"@,
        ScalarAllType::Int64 => "int64"@,
        ScalarAllType::Uint8 => "uint8"@,
        ScalarAllType::Uint16 => "uint16"@,
        ScalarAllType::Uint32 => "uint32"@,
        ScalarAllType::Uint64 => "uint64"@,
        ScalarAllType::Float32 => "float32"@,
        ScalarAllType::Float64 => "float64"@,
        ScalarAllType::String => "string"@,
        ScalarAllType::Datetime => "datetime"@,
        ScalarAllType::Duration => "duration"@,
        ScalarAllType::Json => "json"@,
    }
}

/// Whether `rust` is the Rust primitive that the schema type name `name`
/// stands for, where `name` is `int`, `uint` or `float` followed by `bits`:
/// then `rust` is `i`, `u` or `f` followed by the same `bits`.
pub open spec fn primitive_of_schema_name(name: Seq<char>, rust: Seq<char>, bits: Seq<char>) -> bool {
    &&& name == "int"@ + bits ==> rust == "i"@ + bits
    &&& name == "uint"@ + bits ==> rust == "u"@ + bits
    &&& name == "float"@ + bits ==> rust == "f"@ + bits
}

/// Shows `primitive_of_schema_name` for one schema name and Rust type whose
/// characters are known.
pub(crate) proof fn lemma_primitive_of_schema_name(name: Seq<char>, rust: Seq<char>, bits: Seq<char>)
    requires
        name.len() >= 2,
        name[0] == 'i' && name[1] == 'n' ==> name.len() >= 3 && name[2] == 't' && rust == "i"@ + name.skip(3),
        name[0] == 'u' && name[1] == 'i' ==> name.len() >= 4 && name[2] == 'n' && name[3] == 't' && rust == "u"@ + name.skip(4),
        name[0] == 'f' && name[1] == 'l' ==> name.len() >= 5 && rust == "f"@ + name.skip(5),
    ensures
        primitive_of_schema_name(name, rust, bits),
{
    reveal_strlit("int");
    reveal_strlit("uint");
    reveal_strlit("float");
    if name == "int"@ + bits {
        lemma_after_word(name, "int"@, bits);
        assert(name[0] == "int"@[0] && name[1] == "int"@[1]);
    }
    if name == "uint"@ + bits {
        lemma_after_word(name, "uint"@, bits);
        assert(name[0] == "uint"@[0] && name[1] == "uint"@[1]);
    }
    if name == "float"@ + bits {
        lemma_after_word(name, "float"@, bits);
        assert(name[0] == "float"@[0] && name[1] == "float"@[1]);
    }
}

/// A numeric field's Rust type has the width and kind that its schema type
/// names: a scalar named `int`, `uint` or `float` followed by `bits` (as
/// `int64`) is written `i`, `u` or `f` followed by the same `bits` (`i64`).
pub proof fn lemma_scalar_rust_type_follows_schema_name(t: ScalarAllType, bits: Seq<char>)
    ensures
        primitive_of_schema_name(scalar_schema_name(t), scalar_rust_type(t), bits),
{
    reveal_strlit("i");
    reveal_strlit("u");
    reveal_strlit("f");
    match t {
        ScalarAllType::Id => {
            reveal_strlit("id");
            reveal_strlit("DataId");
        },
        ScalarAllType::Bool => {
            reveal_strlit("bool");
            reveal_strlit("bool");
        },
        ScalarAllType::Int8 => {
            reveal_strlit("int8");
            reveal_strlit("i8");
        },
        ScalarAllType::Int16 => {
            reveal_strlit("int16");
            reveal_strlit("i16");
        },
        ScalarAllType::Int32 => {
            reveal_strlit("int32");
            reveal_strlit("i32");
        },
        ScalarAllType::Int64 => {
            reveal_strlit("int64");
            reveal_strlit("i64");
        },
        ScalarAllType::Uint8 => {
            reveal_strlit("uint8");
            reveal_strlit("u8");
        },
        ScalarAllType::Uint16 => {
            reveal_strlit("uint16");
            reveal_strlit("u16");
        },
        ScalarAllType::Uint32 => {
            reveal_strlit("uint32");
            reveal_strlit("u32");
        },
        ScalarAllType::Uint64 => {
            reveal_strlit("uint64");
            reveal_strlit("u64");
        },
        ScalarAllType::Float32 => {
            reveal_strlit("float32");
            reveal_strlit("f32");
        },
        ScalarAllType::Float64 => {
            reveal_strlit("float64");
            reveal_strlit("f64");
        },
        ScalarAllType::String => {
            reveal_strlit("string");
            reveal_strlit("String");
        },
        ScalarAllType::Datetime => {
            reveal_strlit("datetime");
            reveal_strlit("chrono::DateTime");
        },
        ScalarAllType::Duration => {
            reveal_strlit("duration");
            reveal_strlit("chrono::Duration");
        },
        ScalarAllType::Json => {
            reveal_strlit("json");
            reveal_strlit("serde_json::Value");
        },
    }
    let name = scalar_schema_name(t);
    let rust = scalar_rust_type(t);
    if name.len() >= 3 {
        assert(rust =~= "i"@ + name.skip(3) || !(name[0] == 'i' && name[1] == 'n'));
    }
    if name.len() >= 4 {
        assert(rust =~= "u"@ + name.skip(4) || !(name[0] == 'u' && name[1] == 'i'));
    }
    if name.len() >= 5 {
        assert(rust =~= "f"@ + name.skip(5) || !(name[0] == 'f' && name[1] == 'l'));
    }
    lemma_primitive_of_schema_name(name, rust, bits);
}

/// The name a schema gives an enumeration's base.
pub open spec fn enumeration_base_schema_name(b: EnumerationBase) -> Seq<char> {
    match b {
        EnumerationBase::Uint8 => "uint8"@,
        EnumerationBase::Uint16 => "uint16"@,
        EnumerationBase::Uint32 => "uint32"@,
    }
}

/// The integer type written for an enumeration is the one its schema names:
/// `uint` followed by `bits` (as `uint16`) is written `u` followed by the
/// same `bits` (`u16`).
pub proof fn lemma_enumeration_rust_type_follows_schema_name(b: EnumerationBase, bits: Seq<char>)
    ensures
        primitive_of_schema_name(enumeration_base_schema_name(b), b.rust_type_spec(), bits),
{
    reveal_strlit("u");
    match b {
        EnumerationBase::Uint8 => {
            reveal_strlit("uint8");
            reveal_strlit("u8");
        },
        EnumerationBase::Uint16 => {
            reveal_strlit("uint16");
            reveal_strlit("u16");
        },
        EnumerationBase::Uint32 => {
            reveal_strlit("uint32");
            reveal_strlit("u32");
        },
    }
    let name = enumeration_base_schema_name(b);
    let rust = b.rust_type_spec();
    assert(rust =~= "u"@ + name.skip(4));
    lemma_primitive_of_schema_name(name, rust, bits);
}

/// Enumerations with different bases get different integer types.
pub proof fn lemma_enumeration_rust_types_distinct(a: EnumerationBase, b: EnumerationBase)
    requires
        a != b,
    ensures
        a.rust_type_spec() != b.rust_type_spec(),
{
    reveal_strlit("u8");
    reveal_strlit("u16");
    reveal_strlit("u32");
    assert("u16"@[1] != "u32"@[1]);
}

/// Different scalar types get different Rust types.
pub proof fn lemma_scalar_rust_types_distinct(a: ScalarAllType, b: ScalarAllType)
    requires
        a != b,
    ensures
        scalar_rust_type(a) != scalar_rust_type(b),
{
    reveal_strlit("DataId");
    reveal_strlit("bool");
    reveal_strlit("i8");
    reveal_strlit("i16");
    reveal_strlit("i32");
    reveal_strlit("i64");
    reveal_strlit("u8");
    reveal_strlit("u16");
    reveal_strlit("u32");
    reveal_strlit("u64");
    reveal_strlit("f32");
    reveal_strlit("f64");
    reveal_strlit("String");
    reveal_strlit("chrono::DateTime");
    reveal_strlit("chrono::Duration");
    reveal_strlit("serde_json::Value");
    let x = scalar_rust_type(a);
    let y = scalar_rust_type(b);
    if x == y {
        assert(x.len() == y.len() && x[0] == y[0] && x[x.len() - 1] == y[y.len() - 1]);
    }
}

} // verus!
