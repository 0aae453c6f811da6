//! The schema model of the data generator: tables, fields, enumerations,
//! modules, and the generator state that collects them.

use vstd::prelude::*;
use crate::names::Name;
use crate::text::{clone_strings, views};

verus! {

/// Which side of the game an entity or field is generated for.
#[derive(Debug, Clone, Copy, PartialEq, Eq, Structural)]
pub enum Target {
    Client,
    Server,
    All,
    /// Generated for no side (`none` in schemas).
    Excluded,
}

/// Where the data generator reads schemas and writes generated code.
#[derive(Debug)]
pub struct Config {
    pub schema_dir: String,
    pub src_gen_dir: String,
    pub protobuf_gen_dir: String,
    pub sql_gen_dir: String,
    pub target: Target,
    pub header_rows: usize,
    pub dry_run: bool,
}

/// The scalar types a table field can hold.
#[derive(Debug, Clone, Copy, PartialEq, Eq, Structural)]
pub enum ScalarAllType {
    Id,
    Bool,
    Int8,
    Int16,
    Int32,
    Int64,
    Uint8,
    Uint16,
    Uint32,
    Uint64,
    Float32,
    Float64,
    String,
    Datetime,
    Duration,
    Json,
}

/// A check that every row of a table must pass for one field.
#[derive(Debug, Clone, Copy, PartialEq, Eq, Structural)]
pub enum Constraint {
    Unique,
    Max(i32),
    Min(i32),
}

/// The kind of value a field holds.
#[derive(Debug)]
pub enum FieldKind {
    Scalar { scalar_type: ScalarAllType },
    Enum { enum_type: String },
    Link { link_type: String },
    Tuple { types: Vec<FieldKind> },
    Union { union_type: String },
}

/// The kind of a field as plain values.
pub enum FieldKindView {
    Scalar(ScalarAllType),
    Enum(Seq<char>),
    Link(Seq<char>),
    Tuple(Seq<FieldKindView>),
    Union(Seq<char>),
}

pub open spec fn kind_view(k: FieldKind) -> FieldKindView
    decreases k,
{
    match k {
        FieldKind::Scalar { scalar_type } => FieldKindView::Scalar(scalar_type),
        FieldKind::Enum { enum_type } => FieldKindView::Enum(enum_type@),
        FieldKind::Link { link_type } => FieldKindView::Link(link_type@),
        FieldKind::Tuple { types } => FieldKindView::Tuple(kind_views(types@)),
        FieldKind::Union { union_type } => FieldKindView::Union(union_type@),
    }
}

pub open spec fn kind_views(s: Seq<FieldKind>) -> Seq<FieldKindView>
    decreases s,
{
    if s.len() == 0 {
        Seq::empty()
    } else {
        kind_views(s.drop_last()).push(kind_view(s.last()))
    }
}

pub proof fn lemma_kind_views(s: Seq<FieldKind>)
    ensures
        kind_views(s).len() == s.len(),
        forall|i: int| 0 <= i < s.len() ==> #[trigger] kind_views(s)[i] == kind_view(s[i]),
    decreases s.len(),
{
    if s.len() > 0 {
        lemma_kind_views(s.drop_last());
        assert forall|i: int| 0 <= i < s.len() implies #[trigger] kind_views(s)[i] == kind_view(s[i]) by {
            if i < s.len() - 1 {
                assert(s.drop_last()[i] == s[i]);
            }
        }
    }
}

impl View for FieldKind {
    type V = FieldKindView;

    open spec fn view(&self) -> FieldKindView {
        kind_view(*self)
    }
}

impl FieldKind {
    /// A copy of this kind.
    pub fn copy(&self) -> (r: FieldKind)
        ensures
            r@ == self@,
        decreases self,
    {
        match self {
            FieldKind::Scalar { scalar_type } => FieldKind::Scalar { scalar_type: *scalar_type },
            FieldKind::Enum { enum_type } => FieldKind::Enum { enum_type: enum_type.clone() },
            FieldKind::Link { link_type } => FieldKind::Link { link_type: link_type.clone() },
            FieldKind::Union { union_type } => FieldKind::Union { union_type: union_type.clone() },
            FieldKind::Tuple { types } => {
                let mut copies: Vec<FieldKind> = Vec::new();
                let mut i: usize = 0;
                proof { lemma_kind_views(types@); }
                while i < types.len()
                    invariant
                        i <= types.len(),
                        copies@.len() == i,
                        kind_views(types@).len() == types@.len(),
                        forall|j: int| 0 <= j < types@.len() ==> #[trigger] kind_views(types@)[j] == kind_view(types@[j]),
                        forall|j: int| 0 <= j < i ==> #[trigger] kind_view(copies@[j]) == kind_view(types@[j]),
                        *self == (FieldKind::Tuple { types: *types }),
                    decreases types.len() - i,
                {
                    proof {
                        assert(decreases_to!(*types => types@));
                        assert(decreases_to!(types@ => types@[i as int]));
                        assert(decreases_to!(*self => (*self)->types));
                    }
                    let c = types[i].copy();
                    copies.push(c);
                    i = i + 1;
                }
                proof {
                    lemma_kind_views(copies@);
                    assert(kind_views(copies@) =~= kind_views(types@));
                }
                FieldKind::Tuple { types: copies }
            },
        }
    }
}

/// One column of a table.
#[derive(Debug)]
pub struct Field {
    pub name: String,
    pub target: Target,
    pub kind: FieldKind,
    pub optional: bool,
    pub multi: bool,
    pub constraints: Vec<Constraint>,
}

/// A field as plain values.
pub struct FieldView {
    pub name: Seq<char>,
    pub target: Target,
    pub kind: FieldKindView,
    pub optional: bool,
    pub multi: bool,
    pub constraints: Seq<Constraint>,
}

impl View for Field {
    type V = FieldView;

    open spec fn view(&self) -> FieldView {
        FieldView {
            name: self.name@,
            target: self.target,
            kind: self.kind@,
            optional: self.optional,
            multi: self.multi,
            constraints: self.constraints@,
        }
    }
}

pub open spec fn field_views(s: Seq<Field>) -> Seq<FieldView> {
    s.map_values(|f: Field| f@)
}

impl Field {
    /// A copy of this field.
    pub fn copy(&self) -> (r: Field)
        ensures
            r@ == self@,
    {
        let mut constraints: Vec<Constraint> = Vec::new();
        let mut i: usize = 0;
        while i < self.constraints.len()
            invariant
                i <= self.constraints.len(),
                constraints@ == self.constraints@.take(i as int),
            decreases self.constraints.len() - i,
        {
            constraints.push(self.constraints[i]);
            assert(constraints@ =~= self.constraints@.take(i + 1));
            i = i + 1;
        }
        assert(self.constraints@.take(self.constraints.len() as int) =~= self.constraints@);
        Field {
            name: self.name.clone(),
            target: self.target,
            kind: self.kind.copy(),
            optional: self.optional,
            multi: self.multi,
            constraints,
        }
    }
}

/// Copies of a list of fields.
pub fn copy_fields(v: &Vec<Field>) -> (r: Vec<Field>)
    ensures
        field_views(r@) == field_views(v@),
{
    let mut r: Vec<Field> = Vec::new();
    let mut i: usize = 0;
    while i < v.len()
        invariant
            i <= v.len(),
            r@.len() == i,
            forall|j: int| 0 <= j < i ==> #[trigger] r@[j]@ == v@[j]@,
        decreases v.len() - i,
    {
        r.push(v[i].copy());
        i = i + 1;
    }
    assert(field_views(r@) =~= field_views(v@));
    r
}

pub open spec fn opt_view(o: Option<String>) -> Option<Seq<char>> {
    match o {
        Some(s) => Some(s@),
        None => None,
    }
}

/// Whether a table whose schema does not say is generated: it is.
pub fn generate_default() -> (r: bool)
    ensures
        r,
{
    true
}

/// A table whose rows come from a sheet of a workbook.
#[derive(Debug)]
pub struct ConcreteTableSchema {
    pub enabled: bool,
    pub name: String,
    pub workbook: String,
    pub sheet: String,
    pub fields: Vec<Field>,
    pub extend: Option<String>,
}

/// A table whose rows are the rows of the tables that extend it.
#[derive(Debug)]
pub struct AbstractTableSchema {
    pub enabled: bool,
    pub name: String,
    pub fields: Vec<Field>,
    pub extend: Option<String>,
}

/// A table schema of either kind.
#[derive(Debug)]
pub enum TableSchema {
    Concrete(ConcreteTableSchema),
    Abstract(AbstractTableSchema),
}

/// What every table schema has: a name, its own fields and the table it extends.
pub trait TableSchematic {
    spec fn name_view(&self) -> Seq<char>;

    spec fn fields_view(&self) -> Seq<FieldView>;

    spec fn extend_view(&self) -> Option<Seq<char>>;

    fn name(&self) -> (r: &str)
        ensures
            r@ == self.name_view();

    fn fields(&self) -> (r: &Vec<Field>)
        ensures
            field_views(r@) == self.fields_view();

    fn extend(&self) -> (r: &Option<String>)
        ensures
            opt_view(*r) == self.extend_view();
}

impl TableSchematic for ConcreteTableSchema {
    open spec fn name_view(&self) -> Seq<char> {
        self.name@
    }

    open spec fn fields_view(&self) -> Seq<FieldView> {
        field_views(self.fields@)
    }

    open spec fn extend_view(&self) -> Option<Seq<char>> {
        opt_view(self.extend)
    }

    fn name(&self) -> (r: &str) {
        self.name.as_str()
    }

    fn fields(&self) -> (r: &Vec<Field>) {
        &self.fields
    }

    fn extend(&self) -> (r: &Option<String>) {
        &self.extend
    }
}

impl TableSchematic for AbstractTableSchema {
    open spec fn name_view(&self) -> Seq<char> {
        self.name@
    }

    open spec fn fields_view(&self) -> Seq<FieldView> {
        field_views(self.fields@)
    }

    open spec fn extend_view(&self) -> Option<Seq<char>> {
        opt_view(self.extend)
    }

    fn name(&self) -> (r: &str) {
        self.name.as_str()
    }

    fn fields(&self) -> (r: &Vec<Field>) {
        &self.fields
    }

    fn extend(&self) -> (r: &Option<String>) {
        &self.extend
    }
}

/// A table schema of either kind, seen through what every table has.
pub enum Schematic<'a> {
    Concrete(&'a ConcreteTableSchema),
    Abstract(&'a AbstractTableSchema),
}

impl<'a> TableSchematic for Schematic<'a> {
    open spec fn name_view(&self) -> Seq<char> {
        match self {
            Schematic::Concrete(c) => c.name@,
            Schematic::Abstract(a) => a.name@,
        }
    }

    open spec fn fields_view(&self) -> Seq<FieldView> {
        match self {
            Schematic::Concrete(c) => field_views(c.fields@),
            Schematic::Abstract(a) => field_views(a.fields@),
        }
    }

    open spec fn extend_view(&self) -> Option<Seq<char>> {
        match self {
            Schematic::Concrete(c) => opt_view(c.extend),
            Schematic::Abstract(a) => opt_view(a.extend),
        }
    }

    fn name(&self) -> (r: &str) {
        match self {
            Schematic::Concrete(c) => c.name.as_str(),
            Schematic::Abstract(a) => a.name.as_str(),
        }
    }

    fn fields(&self) -> (r: &Vec<Field>) {
        match self {
            Schematic::Concrete(c) => &c.fields,
            Schematic::Abstract(a) => &a.fields,
        }
    }

    fn extend(&self) -> (r: &Option<String>) {
        match self {
            Schematic::Concrete(c) => &c.extend,
            Schematic::Abstract(a) => &a.extend,
        }
    }
}

impl TableSchema {
    pub open spec fn fields_spec(&self) -> Seq<FieldView> {
        match self {
            TableSchema::Concrete(c) => field_views(c.fields@),
            TableSchema::Abstract(a) => field_views(a.fields@),
        }
    }

    pub open spec fn extend_spec(&self) -> Option<Seq<char>> {
        match self {
            TableSchema::Concrete(c) => opt_view(c.extend),
            TableSchema::Abstract(a) => opt_view(a.extend),
        }
    }

    pub open spec fn name_spec(&self) -> Seq<char> {
        match self {
            TableSchema::Concrete(c) => c.name@,
            TableSchema::Abstract(a) => a.name@,
        }
    }

    /// The schema seen through what every table has.
    pub fn schematic(&self) -> (r: Schematic<'_>)
        ensures
            r.name_view() == self.name_spec(),
            r.fields_view() == self.fields_spec(),
            r.extend_view() == self.extend_spec(),
    {
        match self {
            TableSchema::Concrete(c) => Schematic::Concrete(c),
            TableSchema::Abstract(a) => Schematic::Abstract(a),
        }
    }
}

/// A collected table: its name and schema.
#[derive(Debug)]
pub struct TableEntry {
    pub name: Name,
    pub schema: TableSchema,
}

/// The integer type that holds an enumeration's value.
#[derive(Debug, Clone, Copy, PartialEq, Eq, Structural)]
pub enum EnumerationBase {
    Uint8,
    Uint16,
    Uint32,
}

/// An attribute line added to a generated enumeration for one target.
#[derive(Debug)]
pub struct EnumerationAttribute {
    pub target: Target,
    pub attribute: String,
}

/// The schema of an enumeration.
#[derive(Debug)]
pub struct EnumerationSchema {
    pub name: String,
    pub base: EnumerationBase,
    pub enums: Vec<String>,
    pub target: Target,
    pub protocol: bool,
    pub queryable: bool,
    pub attributes: Vec<EnumerationAttribute>,
}

/// A collected enumeration: its name and schema.
#[derive(Debug)]
pub struct EnumerationEntry {
    pub name: Name,
    pub schema: EnumerationSchema,
}

/// The integer types a signed constant can have.
#[derive(Debug, Clone, Copy, PartialEq, Eq, Structural)]
pub enum ScalarSignedIntegerType {
    Int8,
    Int16,
    Int32,
    Int64,
}

/// The integer types an unsigned constant can have.
#[derive(Debug, Clone, Copy, PartialEq, Eq, Structural)]
pub enum ScalarUnsignedIntegerType {
    Uint8,
    Uint16,
    Uint32,
    Uint64,
}

/// The floating point types a constant can have.
#[derive(Debug, Clone, Copy, PartialEq, Eq, Structural)]
pub enum ScalarFloatType {
    Float32,
    Float64,
}

/// The string type a constant can have.
#[derive(Debug, Clone, Copy, PartialEq, Eq, Structural)]
pub enum ScalarStringType {
    String,
}

/// What a module holds: the index of an entity in the generator's lists.
#[derive(Debug, Clone, Copy, PartialEq, Eq, Structural)]
pub enum EntityEntry {
    ModuleIndex(usize),
    TableIndex(usize),
    EnumerationIndex(usize),
    ConstantIndex(usize),
}

/// A schema module: its name and the entities collected in it, in order.
#[derive(Debug)]
pub struct ModuleEntry {
    pub name: Name,
    pub entries: Vec<EntityEntry>,
}

impl ModuleEntry {
    pub fn new(name: Name) -> (r: Self)
        ensures
            r.name == name,
            r.entries@.len() == 0,
    {
        Self { name, entries: Vec::new() }
    }
}

/// Why the data generator stops.
#[derive(Debug)]
pub enum Error {
    /// A schema file whose name is not `<name>.<kind>.json` with a known kind.
    InvalidFileName(String),
    /// A table (first) extends a table (second) that was not collected.
    Inheritance(String, String),
    /// A field whose attributes contradict each other.
    InvalidAttribute(String),
    /// A type name registered twice.
    DuplicateType(String),
}

} // verus!
