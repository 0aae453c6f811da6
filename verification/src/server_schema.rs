//! The schema model of the game server's data generator: table and
//! enumeration schemas, the entities a module file lists, and the
//! generator state that collects them.

use vstd::prelude::*;
use crate::text::views;

verus! {

/// Which side of the game an enumeration attribute is for.
#[derive(Debug, Clone, Copy, PartialEq, Eq, Structural)]
pub enum Target {
    Client,
    Server,
    All,
}

impl Target {
    /// Whether the game server generates for this target: the server's own and all sides'.
    pub fn is_target(&self) -> (r: bool)
        ensures
            r == (*self == Target::Server || *self == Target::All),
    {
        *self == Target::Server || *self == Target::All
    }
}

/// The kind of a table schema.
#[derive(Debug, Clone, Copy, PartialEq, Eq, Structural)]
pub enum TableKind {
    Concrete,
    Abstract,
}

/// The scalar types a field can hold.
#[derive(Debug, Clone, Copy, PartialEq, Eq, Structural)]
pub enum ScalarType {
    Id,
    Bool,
    Int8,
    Int16,
    Int32,
    Int64,
    Uint8,
    Uint16,
    Uint32,
    Uint64,
    Float32,
    Float64,
    Str,
    Datetime,
    Duration,
}

/// Whether a field holds one value or several.
#[derive(Debug, Clone, Copy, PartialEq, Eq, Structural)]
pub enum Cardinality {
    Single,
    Multi,
}

/// A constraint on a field's values.
#[derive(Debug, Clone, Copy, PartialEq, Eq, Structural)]
pub enum Constraint {
    Exclusive,
}

/// The kind of value a field holds.
#[derive(Debug)]
pub enum FieldKind {
    Scalar { scalar_type: ScalarType },
    Enum { enum_type: String },
    Link { link_type: String },
}

/// One column of a table.
#[derive(Debug)]
pub struct Field {
    pub name: String,
    pub kind: FieldKind,
    pub desc: Option<String>,
    pub optional: Option<bool>,
    pub cardinality: Option<Cardinality>,
    pub constraints: Option<Vec<Constraint>>,
}

/// The schema of a table.
#[derive(Debug)]
pub struct TableSchema {
    pub name: String,
    pub kind: TableKind,
    pub sheet: String,
    pub fields: Vec<Field>,
}

/// The integer type that holds an enumeration's value.
#[derive(Debug, Clone, Copy, PartialEq, Eq, Structural)]
pub enum EnumBase {
    Uint8,
    Uint16,
    Uint32,
}

/// An attribute line added to a generated enumeration for one target.
#[derive(Debug)]
pub struct EnumAttribute {
    pub target: Target,
    pub attribute: String,
}

/// The schema of an enumeration.
#[derive(Debug)]
pub struct EnumSchema {
    pub name: String,
    pub base: EnumBase,
    pub enums: Vec<String>,
    pub target: Target,
    pub attributes: Vec<EnumAttribute>,
}

/// Where the game server's data generator reads and writes.
#[derive(Debug)]
pub struct Config {
    pub base_module_path: String,
    pub gen_dir: String,
    pub data_dir: String,
    pub dry_run: bool,
}

/// A collected table: where it sits and where its data and schema files are.
#[derive(Debug)]
pub struct TableDef {
    pub namespaces: Vec<String>,
    pub name: String,
    pub file_path: String,
    pub schema_path: String,
}

/// A collected constant.
#[derive(Debug)]
pub struct ConstDef {
    pub namespaces: Vec<String>,
    pub name: String,
    pub file_path: String,
}

/// A collected enumeration.
#[derive(Debug)]
pub struct EnumDef {
    pub namespaces: Vec<String>,
    pub name: String,
    pub file_path: String,
}

/// An entity a module holds, by name.
#[derive(Debug)]
pub enum Entity {
    Module(String),
    Table(String),
    Const(String),
    Enum(String),
}

/// A collected module: its name, where it sits and what it holds, in order.
#[derive(Debug)]
pub struct ModuleDef {
    pub name: String,
    pub namespaces: Vec<String>,
    pub entities: Vec<Entity>,
}

/// One entry of a module file.
#[derive(Debug)]
pub enum EntityEntry {
    ModuleEntry { file_path: String },
    TableEntry { file_path: String, schema_path: String },
    ConstEntry { file_path: String },
    EnumEntry { file_path: String },
}

/// Why the game server's data generator stops.
#[derive(Debug)]
pub enum GenerateError {
    InvalidFile(String),
    InvalidSchema(String),
    NamespaceCollision { name: String },
    UnknownTableName { table_name: String },
    DependencyCycle,
}

/// The state of the game server's data generator. Each list holds at most one
/// entry per full name, in the order the names were first collected.
#[derive(Debug)]
pub struct Generator {
    pub config: Config,
    pub tables: Vec<(String, TableDef)>,
    pub constants: Vec<(String, ConstDef)>,
    pub enums: Vec<(String, EnumDef)>,
    pub modules: Vec<ModuleDef>,
}

pub open spec fn keys<T>(v: Seq<(String, T)>) -> Seq<Seq<char>> {
    v.map_values(|e: (String, T)| e.0@)
}

pub open spec fn distinct_keys<T>(v: Seq<(String, T)>) -> bool {
    forall|i: int, j: int| 0 <= i < j < v.len() ==> #[trigger] v[i].0@ != #[trigger] v[j].0@
}

impl Generator {
    pub open spec fn wf(&self) -> bool {
        &&& distinct_keys(self.tables@)
        &&& distinct_keys(self.constants@)
        &&& distinct_keys(self.enums@)
    }

    pub fn new(config: Config) -> (r: Self)
        ensures
            r.wf(),
            r.config == config,
            r.tables@.len() == 0,
            r.constants@.len() == 0,
            r.enums@.len() == 0,
            r.modules@.len() == 0,
    {
        Self {
            config,
            tables: Vec::new(),
            constants: Vec::new(),
            enums: Vec::new(),
            modules: Vec::new(),
        }
    }
}

} // verus!
