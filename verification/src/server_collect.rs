//! Collecting the game server's data entities: the decisions taken for each
//! entry of a module file, and where the generated files go.

use vstd::prelude::*;
use crate::generator::{find_index, lemma_find_index};
use crate::names::{file_name_of, joined_all, joined_path, path_file_name, path_join, snake_case, to_snake_case};
use crate::server_schema::{
    ConstDef, Entity, EntityEntry, EnumDef, GenerateError, Generator, ModuleDef, TableDef, distinct_keys, keys,
};
use crate::text::{clone_strings, join, seq_join, split_on, split_seq, str_eq, views};

verus! {

/// The name of an entity file: a file name `<name>.<kind>.json` gives
/// `<name>` for the expected kind; any other file name gives nothing.
pub open spec fn entity_name_spec(file_name: Seq<char>, expected_type: Seq<char>) -> Option<Seq<char>> {
    let parts = split_seq(file_name, '.');
    if parts.len() == 3 && parts[1] == expected_type && parts[2] == "json"@ {
        Some(parts[0])
    } else {
        None
    }
}

/// The message of a refused entity file.
pub open spec fn invalid_entity_message(file_path: Seq<char>) -> Seq<char> {
    "Invalid entity file "@ + file_path
}

/// The full name of an entity: its namespaces and its name joined by dots.
pub open spec fn full_name_spec(namespaces: Seq<Seq<char>>, name: Seq<char>) -> Seq<char> {
    if namespaces.len() == 0 {
        name
    } else {
        seq_join(namespaces, "."@) + "."@ + name
    }
}

/// The path of a data file listed by a module in `namespaces`.
pub open spec fn data_path_spec(data_dir: Seq<char>, namespaces: Seq<Seq<char>>, path: Seq<char>) -> Seq<char> {
    joined_path(joined_path(data_dir, seq_join(namespaces, "."@)), path)
}

/// `key` names an entry of `v`.
pub open spec fn has_key<T>(v: Seq<(String, T)>, key: Seq<char>) -> bool {
    keys(v).contains(key)
}

/// The entity file name of `file_path` for the expected kind.
pub fn get_entity_name(file_path: &str, expected_type: &str) -> (r: Result<String, GenerateError>)
    requires
        path_file_name(file_path@) is Some,
    ensures
        match entity_name_spec(path_file_name(file_path@)->0, expected_type@) {
            Some(n) => r matches Ok(x) && x@ == n,
            None => r matches Err(GenerateError::InvalidFile(m)) && m@ == invalid_entity_message(file_path@),
        },
{
    let file_name = match file_name_of(file_path) {
        Some(f) => f,
        None => {
            assert(false);
            return Err(GenerateError::InvalidFile(String::new()));
        },
    };
    let components = split_on(file_name.as_str(), '.');
    if components.len() != 3 || !str_eq(components[1].as_str(), expected_type)
        || !str_eq(components[2].as_str(), "json") {
        let mut message = String::new();
        message.append("Invalid entity file ");
        message.append(file_path);
        return Err(GenerateError::InvalidFile(message));
    }
    Ok(components[0].clone())
}

/// The full name of an entity in `namespaces`.
pub fn build_full_name(namespaces: &Vec<String>, name: &str) -> (r: String)
    ensures
        r@ == full_name_spec(views(namespaces@), name@),
{
    if namespaces.len() == 0 {
        return name.to_owned();
    }
    let mut r = join(namespaces, ".");
    r.append(".");
    r.append(name);
    r
}

/// Whether `name` is the key of an entry of `v`.
fn key_present<T>(v: &Vec<(String, T)>, name: &str) -> (r: bool)
    ensures
        r == has_key(v@, name@),
{
    let mut i: usize = 0;
    while i < v.len()
        invariant
            i <= v.len(),
            forall|j: int| 0 <= j < i ==> keys(v@)[j] != name@,
        decreases v.len() - i,
    {
        if str_eq(v[i].0.as_str(), name) {
            assert(keys(v@)[i as int] == name@);
            return true;
        }
        i = i + 1;
    }
    assert(!keys(v@).contains(name@)) by {
        if keys(v@).contains(name@) {
            let j = choose|j: int| 0 <= j < keys(v@).len() && keys(v@)[j] == name@;
        }
    }
    false
}

/// What reading one entry of a module file asks for next.
#[derive(Debug)]
pub enum CollectStep {
    /// The entry is collected.
    Done,
    /// The entry is a child module: its file is read next, in its namespace.
    Descend { namespace: String, module_file: String },
    /// The entry's path has no file name; collecting stops here.
    Unnamed,
}

/// A collected table sits in `namespaces` under `name` with these files.
pub open spec fn table_def_is(d: TableDef, namespaces: Seq<Seq<char>>, name: Seq<char>, file_path: Seq<char>, schema_path: Seq<char>) -> bool {
    &&& views(d.namespaces@) == namespaces
    &&& d.name@ == name
    &&& d.file_path@ == file_path
    &&& d.schema_path@ == schema_path
}

/// A collected constant sits in `namespaces` under `name` with this file.
pub open spec fn const_def_is(d: ConstDef, namespaces: Seq<Seq<char>>, name: Seq<char>, file_path: Seq<char>) -> bool {
    &&& views(d.namespaces@) == namespaces
    &&& d.name@ == name
    &&& d.file_path@ == file_path
}

/// A collected enumeration sits in `namespaces` under `name` with this file.
pub open spec fn enum_def_is(d: EnumDef, namespaces: Seq<Seq<char>>, name: Seq<char>, file_path: Seq<char>) -> bool {
    &&& views(d.namespaces@) == namespaces
    &&& d.name@ == name
    &&& d.file_path@ == file_path
}

/// No full name is both a table's and a constant's.
pub open spec fn tables_and_constants_apart(g: Generator) -> bool {
    forall|i: int, j: int| 0 <= i < g.tables@.len() && 0 <= j < g.constants@.len()
        ==> #[trigger] g.tables@[i].0@ != #[trigger] g.constants@[j].0@
}

/// Where an entry with `key` goes: the position of the entry it replaces,
/// or the end.
pub open spec fn slot_of<T>(v: Seq<(String, T)>, key: Seq<char>) -> int {
    match find_index(keys(v), key) {
        Some(i) => i,
        None => v.len() as int,
    }
}

impl Generator {
    /// The path of a data file listed by a module in `namespaces`.
    pub fn full_data_path(&self, namespaces: &Vec<String>, path: &str) -> (r: String)
        ensures
            r@ == data_path_spec(self.config.data_dir@, views(namespaces@), path@),
    {
        let dir = join(namespaces, ".");
        let base = path_join(self.config.data_dir.as_str(), dir.as_str());
        path_join(base.as_str(), path)
    }

    /// The path of a generated file below the output directory.
    pub fn full_gen_path(&self, path: &str) -> (r: String)
        ensures
            r@ == joined_path(self.config.gen_dir@, path@),
    {
        path_join(self.config.gen_dir.as_str(), path)
    }

    /// The output directory of the entities in `namespaces`.
    pub fn full_gen_dir(&self, namespaces: &Vec<String>) -> (r: String)
        ensures
            r@ == joined_all(self.config.gen_dir@, views(namespaces@)),
    {
        let mut dir = self.config.gen_dir.clone();
        let mut i: usize = 0;
        while i < namespaces.len()
            invariant
                i <= namespaces.len(),
                dir@ == joined_all(self.config.gen_dir@, views(namespaces@).take(i as int)),
            decreases namespaces.len() - i,
        {
            dir = path_join(dir.as_str(), namespaces[i].as_str());
            assert(views(namespaces@).take(i + 1).drop_last() =~= views(namespaces@).take(i as int));
            i = i + 1;
        }
        assert(views(namespaces@).take(namespaces.len() as int) =~= views(namespaces@));
        dir
    }

    /// Whether a table or a constant already has the full name `name`.
    pub fn is_namespace_collision(&self, name: &str) -> (r: bool)
        ensures
            r == (has_key(self.tables@, name@) || has_key(self.constants@, name@)),
    {
        key_present(&self.tables, name) || key_present(&self.constants, name)
    }
}


impl Generator {
    /// Collects one entry of the module file of `namespaces`, adding its
    /// entity to `entities`: a child module is named and handed back to be
    /// read next; a table or a constant is refused if its full name is taken
    /// by a table or a constant, else recorded; an enumeration is refused on
    /// the same names, else recorded, replacing one of the same full name.
    pub fn collect_entry(&mut self, namespaces: &Vec<String>, entry: &EntityEntry, entities: &mut Vec<Entity>) -> (r: Result<CollectStep, GenerateError>)
        requires
            old(self).wf(),
        ensures
            final(self).wf(),
            tables_and_constants_apart(*old(self)) ==> tables_and_constants_apart(*final(self)),
            final(self).config == old(self).config,
            final(self).modules == old(self).modules,
            match *entry {
                EntityEntry::ModuleEntry { file_path } => match path_file_name(file_path@) {
                    None => r matches Ok(CollectStep::Unnamed) && *final(self) == *old(self) && final(entities)@ == old(entities)@,
                    Some(f) => match entity_name_spec(f, "mod"@) {
                        None => r matches Err(GenerateError::InvalidFile(m)) && m@ == invalid_entity_message(file_path@)
                            && *final(self) == *old(self) && final(entities)@ == old(entities)@,
                        Some(n) => r matches Ok(CollectStep::Descend { namespace, module_file })
                            && namespace@ == n
                            && module_file@ == data_path_spec(old(self).config.data_dir@, views(namespaces@), file_path@)
                            && *final(self) == *old(self)
                            && final(entities)@ == old(entities)@.push(final(entities)@.last())
                            && (final(entities)@.last() matches Entity::Module(x) && x@ == n),
                    },
                },
                EntityEntry::TableEntry { file_path, schema_path } => match path_file_name(schema_path@) {
                    None => r matches Ok(CollectStep::Unnamed) && *final(self) == *old(self) && final(entities)@ == old(entities)@,
                    Some(f) => match entity_name_spec(f, "table"@) {
                        None => r matches Err(GenerateError::InvalidFile(m)) && m@ == invalid_entity_message(schema_path@)
                            && *final(self) == *old(self) && final(entities)@ == old(entities)@,
                        Some(n) => {
                            let full = full_name_spec(views(namespaces@), n);
                            if has_key(old(self).tables@, full) || has_key(old(self).constants@, full) {
                                r matches Err(GenerateError::NamespaceCollision { name }) && name@ == full
                                    && *final(self) == *old(self) && final(entities)@ == old(entities)@
                            } else {
                                &&& r matches Ok(CollectStep::Done)
                                &&& final(self).constants == old(self).constants
                                &&& final(self).enums == old(self).enums
                                &&& final(self).tables@ == old(self).tables@.push(final(self).tables@.last())
                                &&& final(self).tables@.last().0@ == full
                                &&& table_def_is(final(self).tables@.last().1, views(namespaces@), n,
                                        data_path_spec(old(self).config.data_dir@, views(namespaces@), file_path@),
                                        data_path_spec(old(self).config.data_dir@, views(namespaces@), schema_path@))
                                &&& final(entities)@ == old(entities)@.push(final(entities)@.last())
                                &&& final(entities)@.last() matches Entity::Table(x) && x@ == n
                            }
                        },
                    },
                },
                EntityEntry::ConstEntry { file_path } => match path_file_name(file_path@) {
                    None => r matches Ok(CollectStep::Unnamed) && *final(self) == *old(self) && final(entities)@ == old(entities)@,
                    Some(f) => match entity_name_spec(f, "const"@) {
                        None => r matches Err(GenerateError::InvalidFile(m)) && m@ == invalid_entity_message(file_path@)
                            && *final(self) == *old(self) && final(entities)@ == old(entities)@,
                        Some(n) => {
                            let full = full_name_spec(views(namespaces@), n);
                            if has_key(old(self).tables@, full) || has_key(old(self).constants@, full) {
                                r matches Err(GenerateError::NamespaceCollision { name }) && name@ == full
                                    && *final(self) == *old(self) && final(entities)@ == old(entities)@
                            } else {
                                &&& r matches Ok(CollectStep::Done)
                                &&& final(self).tables == old(self).tables
                                &&& final(self).enums == old(self).enums
                                &&& final(self).constants@ == old(self).constants@.push(final(self).constants@.last())
                                &&& final(self).constants@.last().0@ == full
                                &&& const_def_is(final(self).constants@.last().1, views(namespaces@), n,
                                        data_path_spec(old(self).config.data_dir@, views(namespaces@), file_path@))
                                &&& final(entities)@ == old(entities)@.push(final(entities)@.last())
                                &&& final(entities)@.last() matches Entity::Const(x) && x@ == n
                            }
                        },
                    },
                },
                EntityEntry::EnumEntry { file_path } => match path_file_name(file_path@) {
                    None => r matches Ok(CollectStep::Unnamed) && *final(self) == *old(self) && final(entities)@ == old(entities)@,
                    Some(f) => match entity_name_spec(f, "enum"@) {
                        None => r matches Err(GenerateError::InvalidFile(m)) && m@ == invalid_entity_message(file_path@)
                            && *final(self) == *old(self) && final(entities)@ == old(entities)@,
                        Some(n) => {
                            let full = full_name_spec(views(namespaces@), n);
                            let i = slot_of(old(self).enums@, full);
                            if has_key(old(self).tables@, full) || has_key(old(self).constants@, full) {
                                r matches Err(GenerateError::NamespaceCollision { name }) && name@ == full
                                    && *final(self) == *old(self) && final(entities)@ == old(entities)@
                            } else {
                                &&& r matches Ok(CollectStep::Done)
                                &&& final(self).tables == old(self).tables
                                &&& final(self).constants == old(self).constants
                                &&& final(self).enums@.len() == (if i < old(self).enums@.len() { old(self).enums@.len() } else { old(self).enums@.len() + 1 })
                                &&& forall|j: int| 0 <= j < old(self).enums@.len() && j != i ==> final(self).enums@[j] == old(self).enums@[j]
                                &&& final(self).enums@[i].0@ == full
                                &&& enum_def_is(final(self).enums@[i].1, views(namespaces@), n,
                                        data_path_spec(old(self).config.data_dir@, views(namespaces@), file_path@))
                                &&& final(entities)@ == old(entities)@.push(final(entities)@.last())
                                &&& final(entities)@.last() matches Entity::Enum(x) && x@ == n
                            }
                        },
                    },
                },
            },
    {
        match entry {
            EntityEntry::ModuleEntry { file_path } => {
                if file_name_of(file_path.as_str()).is_none() {
                    return Ok(CollectStep::Unnamed);
                }
                let namespace = get_entity_name(file_path.as_str(), "mod")?;
                let next = self.full_data_path(namespaces, file_path.as_str());
                entities.push(Entity::Module(namespace.clone()));
                Ok(CollectStep::Descend { namespace, module_file: next })
            },
            EntityEntry::TableEntry { file_path, schema_path } => {
                if file_name_of(schema_path.as_str()).is_none() {
                    return Ok(CollectStep::Unnamed);
                }
                let table_name = get_entity_name(schema_path.as_str(), "table")?;
                let full = build_full_name(namespaces, table_name.as_str());
                if self.is_namespace_collision(full.as_str()) {
                    return Err(GenerateError::NamespaceCollision { name: full });
                }
                let def = TableDef {
                    namespaces: clone_strings(namespaces),
                    name: table_name.clone(),
                    file_path: self.full_data_path(namespaces, file_path.as_str()),
                    schema_path: self.full_data_path(namespaces, schema_path.as_str()),
                };
                let ghost old_tables = self.tables@;
                let ghost full_view = full@;
                self.tables.push((full, def));
                proof {
                    assert(!keys(old_tables).contains(full_view));
                    assert forall|a: int, b: int| 0 <= a < b < self.tables@.len() implies #[trigger] self.tables@[a].0@ != #[trigger] self.tables@[b].0@ by {
                        if b == old_tables.len() {
                            assert(keys(old_tables)[a] == old_tables[a].0@);
                        }
                    }
                    assert forall|a: int, b: int| 0 <= a < self.tables@.len() && 0 <= b < self.constants@.len()
                        && a == old_tables.len() implies #[trigger] self.tables@[a].0@ != #[trigger] self.constants@[b].0@ by {
                        assert(keys(self.constants@)[b] == self.constants@[b].0@);
                    }
                }
                entities.push(Entity::Table(table_name));
                Ok(CollectStep::Done)
            },
            EntityEntry::ConstEntry { file_path } => {
                if file_name_of(file_path.as_str()).is_none() {
                    return Ok(CollectStep::Unnamed);
                }
                let const_name = get_entity_name(file_path.as_str(), "const")?;
                let full = build_full_name(namespaces, const_name.as_str());
                if self.is_namespace_collision(full.as_str()) {
                    return Err(GenerateError::NamespaceCollision { name: full });
                }
                let def = ConstDef {
                    namespaces: clone_strings(namespaces),
                    name: const_name.clone(),
                    file_path: self.full_data_path(namespaces, file_path.as_str()),
                };
                let ghost old_constants = self.constants@;
                let ghost full_view = full@;
                self.constants.push((full, def));
                proof {
                    assert(!keys(old_constants).contains(full_view));
                    assert forall|a: int, b: int| 0 <= a < b < self.constants@.len() implies #[trigger] self.constants@[a].0@ != #[trigger] self.constants@[b].0@ by {
                        if b == old_constants.len() {
                            assert(keys(old_constants)[a] == old_constants[a].0@);
                        }
                    }
                    assert forall|a: int, b: int| 0 <= a < self.tables@.len() && 0 <= b < self.constants@.len()
                        && b == old_constants.len() implies #[trigger] self.tables@[a].0@ != #[trigger] self.constants@[b].0@ by {
                        assert(keys(self.tables@)[a] == self.tables@[a].0@);
                    }
                }
                entities.push(Entity::Const(const_name));
                Ok(CollectStep::Done)
            },
            EntityEntry::EnumEntry { file_path } => {
                if file_name_of(file_path.as_str()).is_none() {
                    return Ok(CollectStep::Unnamed);
                }
                let enum_name = get_entity_name(file_path.as_str(), "enum")?;
                let full = build_full_name(namespaces, enum_name.as_str());
                if self.is_namespace_collision(full.as_str()) {
                    return Err(GenerateError::NamespaceCollision { name: full });
                }
                let def = EnumDef {
                    namespaces: clone_strings(namespaces),
                    name: enum_name.clone(),
                    file_path: self.full_data_path(namespaces, file_path.as_str()),
                };
                let ghost old_enums = self.enums@;
                let ghost full_view = full@;
                proof { lemma_find_index(keys(old_enums), full_view); }
                match enum_position(&self.enums, full.as_str()) {
                    Some(i) => {
                        self.enums.set(i, (full, def));
                        proof {
                            assert forall|a: int, b: int| 0 <= a < b < self.enums@.len() implies #[trigger] self.enums@[a].0@ != #[trigger] self.enums@[b].0@ by {
                                assert(keys(old_enums)[a] == old_enums[a].0@);
                                assert(keys(old_enums)[b] == old_enums[b].0@);
                            }
                        }
                    },
                    None => {
                        self.enums.push((full, def));
                        proof {
                            assert forall|a: int, b: int| 0 <= a < b < self.enums@.len() implies #[trigger] self.enums@[a].0@ != #[trigger] self.enums@[b].0@ by {
                                if b == old_enums.len() {
                                    assert(keys(old_enums)[a] == old_enums[a].0@);
                                }
                            }
                        }
                    },
                }
                entities.push(Entity::Enum(enum_name));
                Ok(CollectStep::Done)
            },
        }
    }

    /// Records the module read from `module_file` with the entities collected
    /// from it; `None` where the path has no file name.
    pub fn finish_module(&mut self, module_file: &str, namespaces: &Vec<String>, entities: Vec<Entity>) -> (r: Option<Result<(), GenerateError>>)
        ensures
            match path_file_name(module_file@) {
                None => r is None && *final(self) == *old(self),
                Some(f) => match entity_name_spec(f, "mod"@) {
                    None => r matches Some(Err(GenerateError::InvalidFile(m))) && m@ == invalid_entity_message(module_file@)
                        && *final(self) == *old(self),
                    Some(n) => {
                        &&& r matches Some(Ok(()))
                        &&& final(self).config == old(self).config
                        &&& final(self).tables == old(self).tables
                        &&& final(self).constants == old(self).constants
                        &&& final(self).enums == old(self).enums
                        &&& final(self).modules@ == old(self).modules@.push(final(self).modules@.last())
                        &&& final(self).modules@.last().name@ == n
                        &&& views(final(self).modules@.last().namespaces@) == views(namespaces@)
                        &&& final(self).modules@.last().entities@ == entities@
                    },
                },
            },
    {
        if file_name_of(module_file).is_none() {
            return None;
        }
        let name = match get_entity_name(module_file, "mod") {
            Ok(n) => n,
            Err(e) => {
                return Some(Err(e));
            },
        };
        self.modules.push(ModuleDef { name, namespaces: clone_strings(namespaces), entities });
        Some(Ok(()))
    }
}

/// The first position of an enumeration with full name `name`.
fn enum_position(v: &Vec<(String, EnumDef)>, name: &str) -> (r: Option<usize>)
    ensures
        match r {
            Some(i) => find_index(keys(v@), name@) == Some(i as int),
            None => find_index(keys(v@), name@) is None,
        },
{
    let ghost s = keys(v@);
    let mut i: usize = 0;
    while i < v.len()
        invariant
            i <= v.len(),
            s == keys(v@),
            forall|j: int| 0 <= j < i ==> s[j] != name@,
        decreases v.len() - i,
    {
        assert(s[i as int] == v@[i as int].0@);
        if str_eq(v[i].0.as_str(), name) {
            proof {
                lemma_find_index(s, name@);
                match find_index(s, name@) {
                    Some(k) => {
                        if k > i {
                            assert(s[i as int] != name@);
                        } else if k < i {
                            assert(s[k] != name@);
                        }
                    },
                    None => {
                        assert(s[i as int] != name@);
                    },
                }
            }
            return Some(i);
        }
        i = i + 1;
    }
    proof {
        lemma_find_index(s, name@);
        match find_index(s, name@) {
            Some(k) => { assert(s[k] != name@); },
            None => {},
        }
    }
    None
}

} // verus!
