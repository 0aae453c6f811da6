//! Schema modules: which entity a schema file declares, and the generated
//! code that loads every table of the data crate.

use vstd::prelude::*;
use crate::generator::Generator;
use crate::names::Name;
use crate::schema::{Error, ModuleEntry, TableEntry, TableSchema};
use crate::text::{decimal, join, lemma_seq_join_starts_with_first, push_decimal, seq_join, sort_strings, split_on, split_seq, str_eq, texts_sorted, views};

verus! {

pub const ABSTRACT_INIT_0: &'static str = "    crate::";
pub const ABSTRACT_INIT_1: &'static str = "Table::init();";
pub const CONCRETE_LOAD_0: &'static str = "    load::<crate::";
pub const CONCRETE_LOAD_1: &'static str = ">(data_dir.join(\"";
pub const CONCRETE_LOAD_2: &'static str = "\"), \"";
pub const CONCRETE_LOAD_3: &'static str = "\", &mut tasks);";
pub const CONCRETE_INIT_0: &'static str = "    init::<crate::";
pub const CONCRETE_INIT_1: &'static str = ">(&mut tasks);";
pub const INITIALIZE_0: &'static str = "\npub async fn init(data_dir: &std::path::PathBuf) -> Result<(), Error> {\n    init_abstract_tables();\n    load_concrete_tables(data_dir).await?;\n    init_concrete_tables().await?;\n\n    Ok(())\n}\n\nfn init_abstract_tables() {\n";
pub const INITIALIZE_1: &'static str = "\n}\n\nasync fn load_concrete_tables(data_dir: &std::path::PathBuf) -> Result<(), Error> {\n    fn load<T: crate::Loadable>(\n        file: std::path::PathBuf,\n        sheet: &str,\n        tasks: &mut Vec<tokio::task::JoinHandle<Result<(), Error>>>,\n    ) {\n        use calamine::Reader;\n    \n        let sheet = sheet.to_owned();\n\n        tasks.push(tokio::task::spawn(async move {\n            let mut workbook: calamine::Ods<_> = calamine::open_workbook(&file)\n                .map_err(|error| Error::Workbook {\n                    workbook: file.display().to_string(),\n                    error,\n                })?;\n            let sheet = workbook\n                .with_header_row(calamine::HeaderRow::Row(";
pub const INITIALIZE_2: &'static str = "))\n                .worksheet_range(&sheet)\n                .map_err(|error| Error::Sheet {\n                    workbook: file.display().to_string(),\n                    sheet,\n                    error,\n                })?;\n            T::load(&sheet.rows().collect::<Vec<_>>()).await?;\n\n            Ok(())\n        }));\n    }\n\n    let mut tasks = Vec::new();\n\n";
pub const INITIALIZE_3: &'static str = "\n\n    for task in tasks {\n        match task.await {\n            Ok(result) => result?,\n            _  => panic!(\"Data loading task has failed!\"),\n        }\n    }\n    Ok(())\n}\n\nasync fn init_concrete_tables() -> Result<(), Error> {\n    fn init<T: crate::Loadable>(\n        tasks: &mut Vec<tokio::task::JoinHandle<Result<(), Error>>>,\n    ) {\n        tasks.push(tokio::task::spawn(async move {\n            T::init()?;\n            Ok(())\n        }));\n    }\n\n    let mut tasks = Vec::new();\n\n";
pub const INITIALIZE_4: &'static str = "\n\n    for task in tasks {\n        match task.await {\n            Ok(result) => result?,\n            _  => panic!(\"Data initializing task has failed!\"),\n        }\n    }\n    Ok(())\n}\n";

pub open spec fn abstract_init_line_spec(name: Seq<char>) -> Seq<char> {
    ABSTRACT_INIT_0@ + name + ABSTRACT_INIT_1@
}

pub open spec fn concrete_load_line_spec(table: Seq<char>, file: Seq<char>, sheet: Seq<char>) -> Seq<char> {
    CONCRETE_LOAD_0@ + table + CONCRETE_LOAD_1@ + file + CONCRETE_LOAD_2@ + sheet + CONCRETE_LOAD_3@
}

pub open spec fn concrete_init_line_spec(table: Seq<char>) -> Seq<char> {
    CONCRETE_INIT_0@ + table + CONCRETE_INIT_1@
}

pub open spec fn initialize_code_spec(header_rows: usize, abstract_table_inits_code: Seq<char>, concrete_table_loads_code: Seq<char>, concrete_table_inits_code: Seq<char>) -> Seq<char> {
    INITIALIZE_0@ + abstract_table_inits_code + INITIALIZE_1@ + decimal(header_rows as nat) + INITIALIZE_2@ + concrete_table_loads_code + INITIALIZE_3@ + concrete_table_inits_code + INITIALIZE_4@
}

/// The line that creates an empty abstract table.
pub fn abstract_init_line(name: &str) -> (r: String)
    ensures
        r@ == abstract_init_line_spec(name@),
{
    let mut out = String::new();
    out.append(ABSTRACT_INIT_0);
    out.append(name);
    out.append(ABSTRACT_INIT_1);
    out
}

/// The line that loads a concrete table from its sheet.
pub fn concrete_load_line(table: &str, file: &str, sheet: &str) -> (r: String)
    ensures
        r@ == concrete_load_line_spec(table@, file@, sheet@),
{
    let mut out = String::new();
    out.append(CONCRETE_LOAD_0);
    out.append(table);
    out.append(CONCRETE_LOAD_1);
    out.append(file);
    out.append(CONCRETE_LOAD_2);
    out.append(sheet);
    out.append(CONCRETE_LOAD_3);
    out
}

/// The line that resolves the links of a concrete table.
pub fn concrete_init_line(table: &str) -> (r: String)
    ensures
        r@ == concrete_init_line_spec(table@),
{
    let mut out = String::new();
    out.append(CONCRETE_INIT_0);
    out.append(table);
    out.append(CONCRETE_INIT_1);
    out
}

/// The code that loads every table of the data crate.
pub fn initialize_code(header_rows: usize, abstract_table_inits_code: &str, concrete_table_loads_code: &str, concrete_table_inits_code: &str) -> (r: String)
    ensures
        r@ == initialize_code_spec(header_rows, abstract_table_inits_code@, concrete_table_loads_code@, concrete_table_inits_code@),
{
    let mut out = String::new();
    out.append(INITIALIZE_0);
    out.append(abstract_table_inits_code);
    out.append(INITIALIZE_1);
    push_decimal(&mut out, header_rows as u64);
    out.append(INITIALIZE_2);
    out.append(concrete_table_loads_code);
    out.append(INITIALIZE_3);
    out.append(concrete_table_inits_code);
    out.append(INITIALIZE_4);
    out
}

/// The workbook of a concrete table, below the data directory: in the
/// directory of the table's module.
pub open spec fn workbook_path(name: Name, workbook: Seq<char>) -> Seq<char> {
    let dir = seq_join(name.namespaces_view(), "/"@);
    if dir.len() == 0 { workbook } else { dir + "/"@ + workbook }
}

/// Which line of the initialization code a table gets.
#[derive(Clone, Copy, PartialEq, Eq, Structural)]
pub enum InitLine {
    AbstractInit,
    ConcreteLoad,
    ConcreteInit,
}

/// The line a table gets, where it gets one.
pub open spec fn init_line_of(kind: InitLine, t: TableEntry) -> Option<Seq<char>> {
    match (kind, t.schema) {
        (InitLine::AbstractInit, TableSchema::Abstract(_)) => Some(abstract_init_line_spec(t.name.type_spec(true))),
        (InitLine::ConcreteLoad, TableSchema::Concrete(c)) => Some(concrete_load_line_spec(
            t.name.table_type_spec(true),
            workbook_path(t.name, c.workbook@),
            c.sheet@,
        )),
        (InitLine::ConcreteInit, TableSchema::Concrete(_)) => Some(concrete_init_line_spec(t.name.table_type_spec(true))),
        _ => None,
    }
}

/// The lines of one kind for the first `n` tables, in order.
pub open spec fn init_lines(kind: InitLine, tables: Seq<TableEntry>, n: nat) -> Seq<Seq<char>>
    decreases n,
{
    if n == 0 {
        Seq::empty()
    } else {
        let rest = init_lines(kind, tables, (n - 1) as nat);
        match init_line_of(kind, tables[n - 1]) {
            Some(l) => rest.push(l),
            None => rest,
        }
    }
}

/// The initialization code of the data crate.
pub open spec fn initialize_spec(g: Generator) -> Seq<char> {
    let n = g.tables@.len() as nat;
    initialize_code_spec(
        g.config.header_rows,
        seq_join(init_lines(InitLine::AbstractInit, g.tables@, n), "\n"@),
        seq_join(init_lines(InitLine::ConcreteLoad, g.tables@, n), "\n"@),
        seq_join(init_lines(InitLine::ConcreteInit, g.tables@, n), "\n"@),
    )
}

/// The workbook of a concrete table, below the data directory.
pub fn workbook_file(name: &Name, workbook: &str) -> (r: String)
    ensures
        r@ == workbook_path(*name, workbook@),
{
    let mut dir = join(&name.namespaces, "/");
    if dir.unicode_len() > 0 {
        dir.append("/");
    }
    dir.append(workbook);
    dir
}

fn init_line_for(kind: InitLine, t: &TableEntry) -> (r: Option<String>)
    ensures
        match init_line_of(kind, *t) {
            Some(l) => r matches Some(s) && s@ == l,
            None => r is None,
        },
{
    match (kind, &t.schema) {
        (InitLine::AbstractInit, TableSchema::Abstract(_)) => {
            let full = t.name.as_type(true);
            Some(abstract_init_line(full.as_str()))
        },
        (InitLine::ConcreteLoad, TableSchema::Concrete(c)) => {
            let table = t.name.as_table_type(true);
            let file = workbook_file(&t.name, c.workbook.as_str());
            Some(concrete_load_line(table.as_str(), file.as_str(), c.sheet.as_str()))
        },
        (InitLine::ConcreteInit, TableSchema::Concrete(_)) => {
            let table = t.name.as_table_type(true);
            Some(concrete_init_line(table.as_str()))
        },
        _ => None,
    }
}

/// The lines of one kind for every table, joined by line breaks.
pub fn init_lines_code(kind: InitLine, tables: &Vec<TableEntry>) -> (r: String)
    ensures
        r@ == seq_join(init_lines(kind, tables@, tables@.len() as nat), "\n"@),
{
    let mut lines: Vec<String> = Vec::new();
    let mut i: usize = 0;
    while i < tables.len()
        invariant
            i <= tables.len(),
            views(lines@) == init_lines(kind, tables@, i as nat),
        decreases tables.len() - i,
    {
        let ghost before = views(lines@);
        match init_line_for(kind, &tables[i]) {
            Some(l) => {
                lines.push(l);
                assert(views(lines@) =~= before.push(l@));
            },
            None => {},
        }
        i = i + 1;
    }
    join(&lines, "\n")
}

impl Generator {
    /// The code that creates the abstract tables, loads every concrete table
    /// from its workbook and sheet, and then resolves the links of their rows.
    pub fn generate_initialize(&self) -> (r: String)
        ensures
            r@ == initialize_spec(*self),
    {
        let abstract_inits = init_lines_code(InitLine::AbstractInit, &self.tables);
        let concrete_loads = init_lines_code(InitLine::ConcreteLoad, &self.tables);
        let concrete_inits = init_lines_code(InitLine::ConcreteInit, &self.tables);
        initialize_code(
            self.config.header_rows,
            abstract_inits.as_str(),
            concrete_loads.as_str(),
            concrete_inits.as_str(),
        )
    }
}

/// The kind of entity a schema file declares.
#[derive(Debug, Clone, Copy, PartialEq, Eq, Structural)]
pub enum EntityKind {
    Table,
    Enumeration,
    Constant,
}

/// The namespaces of an entity in the module named `m`.
pub open spec fn child_namespaces(m: Name) -> Seq<Seq<char>> {
    if m.name@.len() == 0 { m.namespaces_view() } else { m.namespaces_view().push(m.name@) }
}

/// What a schema file of the given name declares: `<name>.table.json`,
/// `<name>.enum.json` or `<name>.const.json`.
pub open spec fn entity_file_kind(file_name: Seq<char>) -> Option<EntityKind> {
    let c = split_seq(file_name, '.');
    if c.len() != 3 {
        None
    } else if c[1] == "table"@ {
        Some(EntityKind::Table)
    } else if c[1] == "enum"@ {
        Some(EntityKind::Enumeration)
    } else if c[1] == "const"@ {
        Some(EntityKind::Constant)
    } else {
        None
    }
}

/// The kind and name of the entity that a schema file in `module` declares;
/// a file named otherwise is refused.
pub fn classify_entity_file(module: &ModuleEntry, file_name: &str) -> (r: Result<(EntityKind, Name), Error>)
    ensures
        match entity_file_kind(file_name@) {
            Some(k) => r matches Ok((kind, n)) && kind == k
                && n.name@ == split_seq(file_name@, '.')[0]
                && n.namespaces_view() == child_namespaces(module.name),
            None => r matches Err(Error::InvalidFileName(x)) && x@ == file_name@,
        },
{
    let components = split_on(file_name, '.');
    if components.len() != 3 {
        return Err(Error::InvalidFileName(file_name.to_owned()));
    }
    assert(views(components@)[1] == components@[1]@);
    assert(views(components@)[0] == components@[0]@);
    let kind_text = components[1].as_str();
    let kind = if str_eq(kind_text, "table") {
        EntityKind::Table
    } else if str_eq(kind_text, "enum") {
        EntityKind::Enumeration
    } else if str_eq(kind_text, "const") {
        EntityKind::Constant
    } else {
        return Err(Error::InvalidFileName(file_name.to_owned()));
    };
    let name = module.name.get_child(components[0].as_str());
    Ok((kind, name))
}

/// The module of a child directory of `module`.
pub fn child_module(module: &ModuleEntry, dir_name: &str) -> (r: ModuleEntry)
    ensures
        r.name.name@ == dir_name@,
        r.name.namespaces_view() == child_namespaces(module.name),
        r.entries@.len() == 0,
{
    ModuleEntry::new(module.name.get_child(dir_name))
}


/// The modules of the child directories `dir_names` of `module`, ordered by
/// name.
pub fn child_modules(module: &ModuleEntry, dir_names: Vec<String>) -> (r: Vec<ModuleEntry>)
    ensures
        r@.len() == dir_names@.len(),
        Seq::new(r@.len(), |i: int| r@[i].name.name@).to_multiset() == views(dir_names@).to_multiset(),
        texts_sorted(Seq::new(r@.len(), |i: int| r@[i].name.name@)),
        forall|i: int| 0 <= i < r@.len() ==> (#[trigger] r@[i]).name.namespaces_view() == child_namespaces(module.name)
            && r@[i].entries@.len() == 0,
{
    let names = sort_strings(dir_names);
    let ghost sorted = views(names@);
    let mut r: Vec<ModuleEntry> = Vec::new();
    let mut i: usize = 0;
    while i < names.len()
        invariant
            i <= names@.len(),
            sorted == views(names@),
            r@.len() == i,
            forall|k: int| 0 <= k < i ==> (#[trigger] r@[k]).name.name@ == sorted[k]
                && r@[k].name.namespaces_view() == child_namespaces(module.name)
                && r@[k].entries@.len() == 0,
        decreases names.len() - i,
    {
        r.push(child_module(module, names[i].as_str()));
        i = i + 1;
    }
    assert(Seq::new(r@.len(), |i: int| r@[i].name.name@) =~= sorted);
    assert(views(names@).len() == names@.len());
    proof {
        views(names@).to_multiset_ensures();
        views(dir_names@).to_multiset_ensures();
    }
    r
}

/// Where a table's workbook lies below the data directory: at the root
/// module it is the workbook name alone; below namespaces, none of them
/// empty, it is the namespaces and then the workbook name, joined by "/",
/// so it begins with the first namespace, never with a "/" of its own.
pub proof fn lemma_workbook_path_in_module_directory(name: Name, workbook: Seq<char>)
    ensures
        name.namespaces_view().len() == 0 ==> workbook_path(name, workbook) == workbook,
        (forall|i: int| 0 <= i < name.namespaces_view().len() ==> #[trigger] name.namespaces_view()[i].len() > 0)
            ==> workbook_path(name, workbook) == seq_join(name.namespaces_view().push(workbook), "/"@),
        name.namespaces_view().len() > 0 && name.namespaces_view()[0].len() > 0 ==> {
            let first = name.namespaces_view()[0];
            &&& workbook_path(name, workbook).len() > first.len()
            &&& workbook_path(name, workbook).take(first.len() as int) == first
        },
{
    let ns = name.namespaces_view();
    let path = workbook_path(name, workbook);
    reveal_strlit("/");
    if ns.len() > 0 && ns[0].len() > 0 {
        lemma_seq_join_starts_with_first(ns, "/"@);
        let dir = seq_join(ns, "/"@);
        assert(path == dir + "/"@ + workbook);
        assert(path.take(ns[0].len() as int) =~= dir.take(ns[0].len() as int));
    }
    if ns.len() > 0 && (forall|i: int| 0 <= i < ns.len() ==> #[trigger] ns[i].len() > 0) {
        assert(ns[0].len() > 0);
        let joined = ns.push(workbook);
        assert(joined.drop_last() =~= ns);
        assert(joined.last() == workbook);
    }
    if ns.len() == 0 {
        assert(ns.push(workbook) =~= seq![workbook]);
    }
}

} // verus!
