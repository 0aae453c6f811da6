//! Naming conventions of generated code: type, entity and table names,
//! and the file paths that schema entities live in.

use vstd::prelude::*;
use crate::text::{clone_strings, join, seq_join, views};

verus! {

/// What heck's `ToSnakeCase::to_snake_case` returns for the given text.
pub uninterp spec fn snake_case(s: Seq<char>) -> Seq<char>;

/// What heck's `ToUpperCamelCase::to_upper_camel_case` returns for the given text.
pub uninterp spec fn upper_camel_case(s: Seq<char>) -> Seq<char>;

/// What std's `str::to_uppercase` returns for the given text.
pub uninterp spec fn uppercase(s: Seq<char>) -> Seq<char>;

/// What std's `Path::file_name` gives for the given path, as text.
pub uninterp spec fn path_file_name(p: Seq<char>) -> Option<Seq<char>>;

/// What std's `Path::join` gives for a base path and a further path, as text.
pub uninterp spec fn joined_path(base: Seq<char>, part: Seq<char>) -> Seq<char>;

/// heck's `to_snake_case`: the result is the crate's snake case of the text.
#[verifier::external_body]
pub(crate) fn to_snake_case(s: &str) -> (r: String)
    ensures
        r@ == snake_case(s@),
{
    heck::ToSnakeCase::to_snake_case(s)
}

/// heck's `to_upper_camel_case`: the result is the crate's upper camel case of the text.
#[verifier::external_body]
pub(crate) fn to_upper_camel_case(s: &str) -> (r: String)
    ensures
        r@ == upper_camel_case(s@),
{
    heck::ToUpperCamelCase::to_upper_camel_case(s)
}

/// std's `str::to_uppercase`: the result is the Unicode upper case of the text.
#[verifier::external_body]
pub(crate) fn to_uppercase(s: &str) -> (r: String)
    ensures
        r@ == uppercase(s@),
{
    s.to_uppercase()
}

/// std's `Path::file_name` on the path spelled by `p`; the result is the
/// final component as text, `None` where the path has none.
#[verifier::external_body]
pub(crate) fn file_name_of(p: &str) -> (r: Option<String>)
    ensures
        match r {
            Some(x) => path_file_name(p@) == Some(x@),
            None => path_file_name(p@) is None,
        },
{
    std::path::Path::new(p).file_name().map(|n| n.to_string_lossy().into_owned())
}

/// std's `Path::join`: the result is `part` joined onto `base`, as text.
#[verifier::external_body]
pub(crate) fn path_join(base: &str, part: &str) -> (r: String)
    ensures
        r@ == joined_path(base@, part@),
{
    std::path::Path::new(base).join(part).to_string_lossy().into_owned()
}

/// A type name: the upper camel case of a schema name.
pub open spec fn type_name_of(name: Seq<char>) -> Seq<char> {
    upper_camel_case(name)
}

/// The name of a schema entity: the modules that hold it and its own name.
#[derive(Debug)]
pub struct Name {
    pub namespaces: Vec<String>,
    pub name: String,
}

impl Name {
    pub open spec fn namespaces_view(&self) -> Seq<Seq<char>> {
        views(self.namespaces@)
    }

    /// The Rust type of the entity, with its module path when asked.
    pub open spec fn type_spec(&self, with_namespace: bool) -> Seq<char> {
        if with_namespace && self.namespaces.len() > 0 {
            seq_join(self.namespaces_view(), "::"@) + "::"@ + type_name_of(self.name@)
        } else {
            type_name_of(self.name@)
        }
    }

    /// The name of the entity's table type.
    pub open spec fn table_type_spec(&self, with_namespace: bool) -> Seq<char> {
        self.type_spec(with_namespace) + "Table"@
    }

    /// The name of the static cell that holds the entity's table.
    pub open spec fn table_type_cell_spec(&self) -> Seq<char> {
        uppercase(snake_case(self.name@)) + "_TABLE"@
    }

    pub fn new(namespaces: Vec<String>, name: String) -> (r: Name)
        ensures
            r.namespaces@ == namespaces@,
            r.name@ == name@,
    {
        Name { namespaces, name }
    }

    /// The name of the top module, which holds every other entity.
    pub fn root() -> (r: Name)
        ensures
            r.namespaces@.len() == 0,
            r.name@.len() == 0,
    {
        Name { namespaces: Vec::new(), name: String::new() }
    }

    /// The name of an entity inside this module; the top module adds no namespace.
    pub fn get_child(&self, child: &str) -> (r: Name)
        ensures
            r.name@ == child@,
            r.namespaces_view() == (if self.name@.len() == 0 {
                self.namespaces_view()
            } else {
                self.namespaces_view().push(self.name@)
            }),
    {
        let mut namespaces = clone_strings(&self.namespaces);
        if self.name.unicode_len() > 0 {
            namespaces.push(self.name.clone());
            assert(views(namespaces@) =~= self.namespaces_view().push(self.name@));
        }
        Name { namespaces, name: child.to_owned() }
    }

    /// The modules that hold this entity.
    pub fn parent_namespace(&self) -> (r: Vec<String>)
        ensures
            views(r@) == self.namespaces_view(),
    {
        let r = clone_strings(&self.namespaces);
        r
    }

    /// The Rust type of the entity, with its module path when asked.
    pub fn as_type(&self, with_namespace: bool) -> (r: String)
        ensures
            r@ == self.type_spec(with_namespace),
    {
        let t = to_upper_camel_case(self.name.as_str());
        if with_namespace && self.namespaces.len() > 0 {
            let mut r = join(&self.namespaces, "::");
            r.append("::");
            r.append(t.as_str());
            r
        } else {
            t
        }
    }

    /// The name of the file that holds the entity: its snake case.
    pub fn as_entity(&self) -> (r: String)
        ensures
            r@ == snake_case(self.name@),
    {
        to_snake_case(self.name.as_str())
    }

    /// The name of the entity's table type.
    pub fn as_table_type(&self, with_namespace: bool) -> (r: String)
        ensures
            r@ == self.table_type_spec(with_namespace),
    {
        let mut r = self.as_type(with_namespace);
        r.append("Table");
        r
    }

    /// The name of the static cell that holds the entity's table.
    pub fn as_table_type_cell(&self) -> (r: String)
        ensures
            r@ == self.table_type_cell_spec(),
    {
        let snake = to_snake_case(self.name.as_str());
        let mut r = to_uppercase(snake.as_str());
        r.append("_TABLE");
        r
    }

    /// The directory of this module below the schema directory.
    pub fn as_full_dir(&self, base: &str) -> (r: String)
        ensures
            r@ == full_dir(base@, self.namespaces_view(), self.name@),
    {
        let mut dir = base.to_owned();
        let mut i: usize = 0;
        while i < self.namespaces.len()
            invariant
                i <= self.namespaces.len(),
                dir@ == joined_all(base@, self.namespaces_view().take(i as int)),
            decreases self.namespaces.len() - i,
        {
            dir = path_join(dir.as_str(), self.namespaces[i].as_str());
            assert(self.namespaces_view().take(i + 1).drop_last() =~= self.namespaces_view().take(i as int));
            i = i + 1;
        }
        assert(self.namespaces_view().take(self.namespaces.len() as int) =~= self.namespaces_view());
        if self.name.unicode_len() > 0 {
            dir = path_join(dir.as_str(), self.name.as_str());
        }
        dir
    }
}

/// `base` with each of `parts` joined on in turn.
pub open spec fn joined_all(base: Seq<char>, parts: Seq<Seq<char>>) -> Seq<char>
    decreases parts.len(),
{
    if parts.len() == 0 {
        base
    } else {
        joined_path(joined_all(base, parts.drop_last()), parts.last())
    }
}

/// The directory of a module: the base directory, then its namespaces, then its own name.
pub open spec fn full_dir(base: Seq<char>, namespaces: Seq<Seq<char>>, name: Seq<char>) -> Seq<char> {
    let d = joined_all(base, namespaces);
    if name.len() == 0 { d } else { joined_path(d, name) }
}

/// The Rust path of an entity's type: at the root module, or when no module
/// path is asked for, the type name alone; else the modules and then the
/// type name, joined by "::", so it never begins with "::".
pub proof fn lemma_type_path_joins_namespaces(name: Name, with_namespace: bool)
    ensures
        !with_namespace || name.namespaces_view().len() == 0 ==> name.type_spec(with_namespace) == type_name_of(name.name@),
        with_namespace && name.namespaces_view().len() > 0 ==> name.type_spec(with_namespace)
            == seq_join(name.namespaces_view().push(type_name_of(name.name@)), "::"@),
{
    let ns = name.namespaces_view();
    let joined = ns.push(type_name_of(name.name@));
    assert(joined.drop_last() =~= ns);
    assert(joined.last() == type_name_of(name.name@));
    if ns.len() > 0 {
        assert(joined.len() > 1);
    }
}

/// A module's directory is the base directory with each of its namespaces,
/// and then its own name where it has one, joined on in turn: the root
/// module's directory is the base directory itself.
pub proof fn lemma_full_dir_joins_each_part(base: Seq<char>, namespaces: Seq<Seq<char>>, name: Seq<char>)
    ensures
        name.len() > 0 ==> full_dir(base, namespaces, name) == joined_all(base, namespaces.push(name)),
        name.len() == 0 ==> full_dir(base, namespaces, name) == joined_all(base, namespaces),
        namespaces.len() == 0 && name.len() == 0 ==> full_dir(base, namespaces, name) == base,
{
    let parts = namespaces.push(name);
    assert(parts.drop_last() =~= namespaces);
}

} // verus!
