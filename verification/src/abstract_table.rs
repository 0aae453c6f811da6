//! The generated source of an abstract table: an enum over the rows of the
//! tables that extend it, and the table those rows are inserted into.

use vstd::prelude::*;
use crate::concrete_table::{concrete_fold, concrete_text, kinds_ok};
use crate::generator::{Chain, Generator, children_of};
use crate::schema::{Error, TableSchematic};
use crate::names::{Name, joined_all, joined_path, path_join, snake_case};
use crate::rust_types::GENERATED_FILE_WARNING;
use crate::schema::{AbstractTableSchema, TableEntry, TableSchema, opt_view};
use crate::text::{join, seq_join, views};

verus! {

pub const CHILD_TYPE_0: &'static str = "    ";
pub const CHILD_TYPE_1: &'static str = "(&'static crate::";
pub const CHILD_TYPE_2: &'static str = "),";
pub const CHILD_ID_0: &'static str = "            Self::";
pub const CHILD_ID_1: &'static str = "(x) => &x.id";
pub const CHILD_ID_2: &'static str = ",";
pub const ABSTRACT_PARENT_0: &'static str = "\n\n        crate::";
pub const ABSTRACT_PARENT_1: &'static str = "Table::insert(id, crate::";
pub const ABSTRACT_PARENT_2: &'static str = "::";
pub const ABSTRACT_PARENT_3: &'static str = "(&rows[id])).await?;";
pub const ABSTRACT_0: &'static str = "\n#![allow(static_mut_refs)]\n\nuse crate::{DataId, error::Error};\nuse std::collections::HashMap;\nuse std::mem::MaybeUninit;\nuse tokio::sync::Mutex;\n\nstatic mut ";
pub const ABSTRACT_1: &'static str = ": MaybeUninit<";
pub const ABSTRACT_2: &'static str = "> = MaybeUninit::uninit();\n\n#[derive(Debug)]\npub enum ";
pub const ABSTRACT_3: &'static str = " {\n";
pub const ABSTRACT_4: &'static str = "\n}\n\n#[derive(Debug)]\npub struct ";
pub const ABSTRACT_5: &'static str = " {\n    rows: HashMap<DataId, ";
pub const ABSTRACT_6: &'static str = ">,\n}\n\nimpl ";
pub const ABSTRACT_7: &'static str = " {\n    pub fn id(&self) -> &DataId {\n        match self {\n";
pub const ABSTRACT_8: &'static str = "\n        }\n    }\n}\n\nimpl crate::Linkable for ";
pub const ABSTRACT_9: &'static str = " {\n    fn get(id: &DataId) -> Option<&'static Self> {\n        ";
pub const ABSTRACT_10: &'static str = "::get(id)\n    }\n}\n\nimpl ";
pub const ABSTRACT_11: &'static str = " {\n    pub fn get(id: &DataId) -> Option<&'static ";
pub const ABSTRACT_12: &'static str = "> {\n        unsafe { &";
pub const ABSTRACT_13: &'static str = ".assume_init_ref().rows }.get(&id)\n    }\n\n    pub fn iter() -> impl Iterator<Item = (&'static DataId, &'static ";
pub const ABSTRACT_14: &'static str = ")> {\n        unsafe { &";
pub const ABSTRACT_15: &'static str = ".assume_init_ref().rows }.iter()\n    }\n\n    pub(crate) fn init() {\n        let table = Self { rows: HashMap::new() };\n        unsafe { ";
pub const ABSTRACT_16: &'static str = ".write(table); }\n    }\n\n    pub(crate) async fn insert(id: &DataId, row: ";
pub const ABSTRACT_17: &'static str = ") -> Result<(), Error> {\n        static LOCK: Mutex<()> = Mutex::const_new(());\n\n        let rows = unsafe { &mut ";
pub const ABSTRACT_18: &'static str = ".assume_init_mut().rows };\n        let _ = LOCK.lock().await;\n\n        if rows.contains_key(id) {\n            return Err(Error::DuplicateId {\n                type_name: std::any::type_name::<";
pub const ABSTRACT_19: &'static str = ">(),\n                id: *id,\n                a: format!(\"{:?}\", rows[id]),\n                b: format!(\"{:?}\", row)\n            });\n        }\n        rows.insert(*id, row);";
pub const ABSTRACT_20: &'static str = "\n\n        Ok(())\n    }\n}\n";

pub open spec fn child_type_line_spec(child_name: Seq<char>, child_full_name: Seq<char>) -> Seq<char> {
    CHILD_TYPE_0@ + child_name + CHILD_TYPE_1@ + child_full_name + CHILD_TYPE_2@
}

pub open spec fn child_id_line_spec(child_name: Seq<char>, call: Seq<char>) -> Seq<char> {
    CHILD_ID_0@ + child_name + CHILD_ID_1@ + call + CHILD_ID_2@
}

pub open spec fn abstract_parent_insert_code_spec(parent_full_name: Seq<char>, row_type_name: Seq<char>) -> Seq<char> {
    ABSTRACT_PARENT_0@ + parent_full_name + ABSTRACT_PARENT_1@ + parent_full_name + ABSTRACT_PARENT_2@ + row_type_name + ABSTRACT_PARENT_3@
}

pub open spec fn abstract_table_code_spec(table_cell_name: Seq<char>, table_type_name: Seq<char>, row_type_name: Seq<char>, child_types_code: Seq<char>, child_id_matches_code: Seq<char>, parent_insert_code: Seq<char>) -> Seq<char> {
    GENERATED_FILE_WARNING@ + ABSTRACT_0@ + table_cell_name + ABSTRACT_1@ + table_type_name + ABSTRACT_2@ + row_type_name + ABSTRACT_3@ + child_types_code + ABSTRACT_4@ + table_type_name + ABSTRACT_5@ + row_type_name + ABSTRACT_6@ + row_type_name + ABSTRACT_7@ + child_id_matches_code + ABSTRACT_8@ + row_type_name + ABSTRACT_9@ + table_type_name + ABSTRACT_10@ + table_type_name + ABSTRACT_11@ + row_type_name + ABSTRACT_12@ + table_cell_name + ABSTRACT_13@ + row_type_name + ABSTRACT_14@ + table_cell_name + ABSTRACT_15@ + table_cell_name + ABSTRACT_16@ + row_type_name + ABSTRACT_17@ + table_cell_name + ABSTRACT_18@ + row_type_name + ABSTRACT_19@ + parent_insert_code + ABSTRACT_20@
}

/// The variant of the row enum for one child table.
pub fn child_type_line(child_name: &str, child_full_name: &str) -> (r: String)
    ensures
        r@ == child_type_line_spec(child_name@, child_full_name@),
{
    let mut out = String::new();
    out.append(CHILD_TYPE_0);
    out.append(child_name);
    out.append(CHILD_TYPE_1);
    out.append(child_full_name);
    out.append(CHILD_TYPE_2);
    out
}

/// The arm that reads the id of a row of one child table.
pub fn child_id_line(child_name: &str, call: &str) -> (r: String)
    ensures
        r@ == child_id_line_spec(child_name@, call@),
{
    let mut out = String::new();
    out.append(CHILD_ID_0);
    out.append(child_name);
    out.append(CHILD_ID_1);
    out.append(call);
    out.append(CHILD_ID_2);
    out
}

/// The code that inserts each inserted row into the table this one extends.
pub fn abstract_parent_insert_code(parent_full_name: &str, row_type_name: &str) -> (r: String)
    ensures
        r@ == abstract_parent_insert_code_spec(parent_full_name@, row_type_name@),
{
    let mut out = String::new();
    out.append(ABSTRACT_PARENT_0);
    out.append(parent_full_name);
    out.append(ABSTRACT_PARENT_1);
    out.append(parent_full_name);
    out.append(ABSTRACT_PARENT_2);
    out.append(row_type_name);
    out.append(ABSTRACT_PARENT_3);
    out
}

/// The source file of an abstract table from its parts.
pub fn abstract_table_code(table_cell_name: &str, table_type_name: &str, row_type_name: &str, child_types_code: &str, child_id_matches_code: &str, parent_insert_code: &str) -> (r: String)
    ensures
        r@ == abstract_table_code_spec(table_cell_name@, table_type_name@, row_type_name@, child_types_code@, child_id_matches_code@, parent_insert_code@),
{
    let mut out = String::new();
    out.append(GENERATED_FILE_WARNING);
    out.append(ABSTRACT_0);
    out.append(table_cell_name);
    out.append(ABSTRACT_1);
    out.append(table_type_name);
    out.append(ABSTRACT_2);
    out.append(row_type_name);
    out.append(ABSTRACT_3);
    out.append(child_types_code);
    out.append(ABSTRACT_4);
    out.append(table_type_name);
    out.append(ABSTRACT_5);
    out.append(row_type_name);
    out.append(ABSTRACT_6);
    out.append(row_type_name);
    out.append(ABSTRACT_7);
    out.append(child_id_matches_code);
    out.append(ABSTRACT_8);
    out.append(row_type_name);
    out.append(ABSTRACT_9);
    out.append(table_type_name);
    out.append(ABSTRACT_10);
    out.append(table_type_name);
    out.append(ABSTRACT_11);
    out.append(row_type_name);
    out.append(ABSTRACT_12);
    out.append(table_cell_name);
    out.append(ABSTRACT_13);
    out.append(row_type_name);
    out.append(ABSTRACT_14);
    out.append(table_cell_name);
    out.append(ABSTRACT_15);
    out.append(table_cell_name);
    out.append(ABSTRACT_16);
    out.append(row_type_name);
    out.append(ABSTRACT_17);
    out.append(table_cell_name);
    out.append(ABSTRACT_18);
    out.append(row_type_name);
    out.append(ABSTRACT_19);
    out.append(parent_insert_code);
    out.append(ABSTRACT_20);
    out
}

/// How the id of a child row is read: a field for concrete rows, a method for abstract ones.
pub open spec fn id_call(schema: TableSchema) -> Seq<char> {
    match schema {
        TableSchema::Concrete(_) => ""@,
        TableSchema::Abstract(_) => "()"@,
    }
}

/// The variants of the row enum, one per child table.
pub open spec fn child_type_lines(g: Generator, children: Seq<usize>) -> Seq<Seq<char>> {
    Seq::new(children.len(), |k: int| child_type_line_spec(
        g.tables@[children[k] as int].name.type_spec(false),
        g.tables@[children[k] as int].name.type_spec(true),
    ))
}

/// The id arms of the row enum, one per child table.
pub open spec fn child_id_lines(g: Generator, children: Seq<usize>) -> Seq<Seq<char>> {
    Seq::new(children.len(), |k: int| child_id_line_spec(
        g.tables@[children[k] as int].name.type_spec(false),
        id_call(g.tables@[children[k] as int].schema),
    ))
}

/// The source of an abstract table.
pub open spec fn abstract_text(g: Generator, name: Name, schema: AbstractTableSchema) -> Seq<char> {
    let j = g.table_index_spec(name.type_spec(true))->Some_0;
    let children = g.table_hierarchies@[j]@;
    let row_type = name.type_spec(false);
    let parent_insert = match g.parent_index(opt_view(schema.extend)) {
        Some(p) => abstract_parent_insert_code_spec(g.tables@[p].name.type_spec(true), row_type),
        None => Seq::empty(),
    };
    abstract_table_code_spec(
        name.table_type_cell_spec(),
        name.table_type_spec(false),
        row_type,
        seq_join(child_type_lines(g, children), "\n"@),
        seq_join(child_id_lines(g, children), "\n"@),
        parent_insert,
    )
}

impl Generator {
    /// The source of an abstract table: the row enum over the tables that
    /// extend it, the id of a row, and insertion of rows with duplicate checks.
    pub fn generate_abstract_table(&self, name: &Name, schema: &AbstractTableSchema) -> (r: Result<String, Error>)
        requires
            self.wf(),
            self.hierarchies_built(),
            self.table_index_spec(name.type_spec(true)) is Some,
        ensures
            r matches Ok(code) && code@ == abstract_text(*self, *name, *schema),
    {
        let cell = name.as_table_type_cell();
        let table_type = name.as_table_type(false);
        let row_type = name.as_type(false);
        let full = name.as_type(true);
        let j = match self.table_index(full.as_str()) {
            Some(j) => j,
            None => 0,
        };
        proof {
            crate::generator::lemma_find_index(self.names_view(), full@);
        }
        let children = &self.table_hierarchies[j];
        let ghost cs = children@;
        proof {
            assert(self.tables@.len() == self.tables.len());
            lemma_children_bounded(self.tables@, self.names_view(), j as int, self.tables@.len() as nat);
        }
        let mut child_types: Vec<String> = Vec::new();
        let mut child_ids: Vec<String> = Vec::new();
        let mut k: usize = 0;
        while k < children.len()
            invariant
                k <= children.len(),
                cs == children@,
                forall|m: int| 0 <= m < cs.len() ==> (#[trigger] cs[m] as int) < self.tables@.len(),
                child_types@.len() == k,
                child_ids@.len() == k,
                forall|m: int| 0 <= m < k ==> #[trigger] child_types@[m]@ == child_type_lines(*self, cs)[m],
                forall|m: int| 0 <= m < k ==> #[trigger] child_ids@[m]@ == child_id_lines(*self, cs)[m],
            decreases children.len() - k,
        {
            let child = &self.tables[children[k]];
            let child_name = child.name.as_type(false);
            let child_full_name = child.name.as_type(true);
            child_types.push(child_type_line(child_name.as_str(), child_full_name.as_str()));
            let call = match &child.schema {
                TableSchema::Concrete(_) => "",
                TableSchema::Abstract(_) => "()",
            };
            child_ids.push(child_id_line(child_name.as_str(), call));
            k = k + 1;
        }
        assert(views(child_types@) =~= child_type_lines(*self, cs));
        assert(views(child_ids@) =~= child_id_lines(*self, cs));
        let parent_insert = match self.get_parent_table(&schema.extend) {
            Some(parent) => {
                let parent_full_name = parent.name.as_type(true);
                abstract_parent_insert_code(parent_full_name.as_str(), row_type.as_str())
            },
            None => String::new(),
        };
        let child_types_code = join(&child_types, "\n");
        let child_ids_code = join(&child_ids, "\n");
        Ok(abstract_table_code(
            cell.as_str(),
            table_type.as_str(),
            row_type.as_str(),
            child_types_code.as_str(),
            child_ids_code.as_str(),
            parent_insert.as_str(),
        ))
    }
}

/// The children of a table are tables.
pub proof fn lemma_children_bounded(tables: Seq<TableEntry>, names: Seq<Seq<char>>, j: int, n: nat)
    requires
        n <= usize::MAX,
    ensures
        forall|m: int| 0 <= m < children_of(tables, names, j, n).len() ==>
            (#[trigger] children_of(tables, names, j, n)[m] as int) < n,
    decreases n,
{
    if n > 0 {
        lemma_children_bounded(tables, names, j, (n - 1) as nat);
        let rest = children_of(tables, names, j, (n - 1) as nat);
        let all = children_of(tables, names, j, n);
        assert forall|m: int| 0 <= m < all.len() implies (#[trigger] all[m] as int) < n by {
            if m < rest.len() {
                assert(all[m] == rest[m]);
            }
        }
    }
}


impl Generator {
    /// What the generated source of a collected table comes to.
    pub open spec fn table_code_outcome(&self, table: TableEntry, r: Result<String, Error>) -> bool {
        match table.schema {
            TableSchema::Concrete(schema) => match self.inherited_fields(schema.extend_view(), self.tables@.len() as nat) {
                Chain::Done(f) => {
                    let all = f + schema.fields_view();
                    match concrete_fold(self.config.target, all, all.len()) {
                        Ok(p) => r matches Ok(s) && s@ == concrete_text(*self, table.name, schema, all.len(), p),
                        Err(m) => r matches Err(Error::InvalidAttribute(x)) && x@ == m,
                    }
                },
                Chain::Missing(p) => r matches Err(Error::Inheritance(a, b)) && a@ == schema.name@ && b@ == p,
                Chain::Cycle => false,
            },
            TableSchema::Abstract(schema) => r matches Ok(s) && s@ == abstract_text(*self, table.name, schema),
        }
    }

    /// The generated source of a collected table, concrete or abstract.
    pub fn table_code(&self, table: &TableEntry) -> (r: Result<String, Error>)
        requires
            self.wf(),
            match table.schema {
                TableSchema::Concrete(schema) => {
                    &&& self.chain_ends(schema.extend_view())
                    &&& match self.inherited_fields(schema.extend_view(), self.tables@.len() as nat) {
                        Chain::Done(f) => kinds_ok(self.config.target, f + schema.fields_view()),
                        _ => true,
                    }
                },
                TableSchema::Abstract(_) => {
                    &&& self.hierarchies_built()
                    &&& self.table_index_spec(table.name.type_spec(true)) is Some
                },
            },
        ensures
            self.table_code_outcome(*table, r),
    {
        match &table.schema {
            TableSchema::Concrete(schema) => self.generate_concrete_table(&table.name, schema),
            TableSchema::Abstract(schema) => self.generate_abstract_table(&table.name, schema),
        }
    }
}


impl Generator {
    /// The file of a collected table and its generated source: the table's
    /// snake case name with `.rs`, in the output directory of its namespaces.
    pub fn generate_table(&self, table: &TableEntry) -> (r: Result<(String, String), Error>)
        requires
            self.wf(),
            match table.schema {
                TableSchema::Concrete(schema) => {
                    &&& self.chain_ends(schema.extend_view())
                    &&& match self.inherited_fields(schema.extend_view(), self.tables@.len() as nat) {
                        Chain::Done(f) => kinds_ok(self.config.target, f + schema.fields_view()),
                        _ => true,
                    }
                },
                TableSchema::Abstract(_) => {
                    &&& self.hierarchies_built()
                    &&& self.table_index_spec(table.name.type_spec(true)) is Some
                },
            },
        ensures
            match r {
                Ok((path, code)) => {
                    &&& path@ == joined_path(joined_all(self.config.src_gen_dir@, table.name.namespaces_view()), snake_case(table.name.name@) + ".rs"@)
                    &&& self.table_code_outcome(*table, Ok(code))
                },
                Err(e) => self.table_code_outcome(*table, Err(e)),
            },
    {
        let dir = Name { namespaces: table.name.parent_namespace(), name: String::new() }.as_full_dir(self.config.src_gen_dir.as_str());
        let mut file = table.name.as_entity();
        file.append(".rs");
        let path = path_join(dir.as_str(), file.as_str());
        match self.table_code(table) {
            Ok(code) => Ok((path, code)),
            Err(e) => Err(e),
        }
    }
}

} // verus!
