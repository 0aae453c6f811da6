//! The data generator's state: the tables, enumerations and type names it has
//! collected, how tables extend each other, and the fields a table inherits.

use vstd::prelude::*;
use crate::names::Name;
use crate::schema::{
    Config, EntityEntry, EnumerationEntry, EnumerationSchema, Error, Field, FieldView, ModuleEntry,
    TableEntry, TableSchema, TableSchematic, Target, copy_fields, field_views, opt_view,
};
use crate::text::{views, str_eq};

verus! {

/// The first position at which `key` occurs.
pub open spec fn find_index(s: Seq<Seq<char>>, key: Seq<char>) -> Option<int>
    decreases s.len(),
{
    if s.len() == 0 {
        None
    } else {
        match find_index(s.drop_last(), key) {
            Some(i) => Some(i),
            None => if s.last() == key { Some(s.len() - 1) } else { None },
        }
    }
}

pub proof fn lemma_find_index(s: Seq<Seq<char>>, key: Seq<char>)
    ensures
        match find_index(s, key) {
            Some(i) => 0 <= i < s.len() && s[i] == key && forall|j: int| 0 <= j < i ==> s[j] != key,
            None => forall|j: int| 0 <= j < s.len() ==> s[j] != key,
        },
    decreases s.len(),
{
    if s.len() > 0 {
        lemma_find_index(s.drop_last(), key);
        assert forall|j: int| 0 <= j < s.len() - 1 implies s.drop_last()[j] == s[j] by {}
    }
}

/// The tables among the first `n` of `tables` that extend table `j`, in order,
/// where `names` are the tables' full type names.
pub open spec fn children_of(tables: Seq<TableEntry>, names: Seq<Seq<char>>, j: int, n: nat) -> Seq<usize>
    decreases n,
{
    if n == 0 {
        Seq::empty()
    } else {
        let i = n - 1;
        let rest = children_of(tables, names, j, (n - 1) as nat);
        let parent = match tables[i].schema.extend_spec() {
            Some(p) => find_index(names, p),
            None => None,
        };
        if parent == Some(j) {
            rest.push(i as usize)
        } else {
            rest
        }
    }
}

/// What walking up a chain of extended tables comes to.
pub enum Chain {
    /// The chain ends; these are the fields of the tables walked, the farthest first.
    Done(Seq<FieldView>),
    /// The chain names a table that was not collected.
    Missing(Seq<char>),
    /// The chain did not end within the steps given.
    Cycle,
}

/// The chain outcome with `tail` after the fields found.
pub open spec fn prepend_to(c: Chain, tail: Seq<FieldView>) -> Chain {
    match c {
        Chain::Done(f) => Chain::Done(f + tail),
        _ => c,
    }
}

/// The state of the data generator.
#[derive(Debug)]
pub struct Generator {
    pub config: Config,
    pub tables: Vec<TableEntry>,
    pub enumerations: Vec<EnumerationEntry>,
    /// Every type name registered so far.
    pub types: Vec<String>,
    /// The full type name of each table, by table index.
    pub table_names: Vec<String>,
    /// The indices of the tables that extend each table, by table index.
    pub table_hierarchies: Vec<Vec<usize>>,
}

impl Generator {
    /// The generator's lists agree: one name and one child list per table,
    /// each table named by its full type name, and every table name registered.
    pub open spec fn wf(&self) -> bool {
        &&& self.table_names@.len() == self.tables@.len()
        &&& self.table_hierarchies@.len() == self.tables@.len()
        &&& forall|i: int| 0 <= i < self.tables@.len() ==>
            #[trigger] self.table_names@[i]@ == self.tables@[i].name.type_spec(true)
        &&& forall|i: int| 0 <= i < self.table_names@.len() ==>
            views(self.types@).contains(#[trigger] self.table_names@[i]@)
        &&& forall|i: int, j: int| 0 <= i < j < self.table_names@.len() ==>
            #[trigger] self.table_names@[i]@ != #[trigger] self.table_names@[j]@
    }

    pub open spec fn names_view(&self) -> Seq<Seq<char>> {
        views(self.table_names@)
    }

    /// The index of the table with the given full type name.
    pub open spec fn table_index_spec(&self, key: Seq<char>) -> Option<int> {
        find_index(self.names_view(), key)
    }

    /// The index of the table that a table with `extend` extends.
    pub open spec fn parent_index(&self, extend: Option<Seq<char>>) -> Option<int> {
        match extend {
            Some(p) => self.table_index_spec(p),
            None => None,
        }
    }

    /// Walks up from `extend` at most `fuel` tables.
    pub open spec fn inherited_fields(&self, extend: Option<Seq<char>>, fuel: nat) -> Chain
        decreases fuel,
    {
        match extend {
            None => Chain::Done(Seq::empty()),
            Some(p) => match self.table_index_spec(p) {
                None => Chain::Missing(p),
                Some(j) => if fuel == 0 {
                    Chain::Cycle
                } else {
                    let parent = self.tables@[j].schema;
                    prepend_to(self.inherited_fields(parent.extend_spec(), (fuel - 1) as nat), parent.fields_spec())
                },
            },
        }
    }

    /// The chain of tables above `extend` ends: it meets no table twice.
    pub open spec fn chain_ends(&self, extend: Option<Seq<char>>) -> bool {
        !(self.inherited_fields(extend, self.tables@.len() as nat) is Cycle)
    }

    /// The tables among the first `n` that extend table `j`, in order.
    pub open spec fn children_upto(&self, j: int, n: nat) -> Seq<usize> {
        children_of(self.tables@, self.names_view(), j, n)
    }

    /// Each table's child list names exactly the tables that extend it, in order.
    pub open spec fn hierarchies_built(&self) -> bool {
        &&& self.table_hierarchies@.len() == self.tables@.len()
        &&& forall|j: int| 0 <= j < self.tables@.len() ==>
            #[trigger] self.table_hierarchies@[j]@ == self.children_upto(j, self.tables@.len() as nat)
    }

    pub fn new(config: Config) -> (r: Self)
        ensures
            r.wf(),
            r.tables@.len() == 0,
            r.enumerations@.len() == 0,
            r.types@.len() == 0,
            r.config == config,
    {
        Self {
            config,
            tables: Vec::new(),
            enumerations: Vec::new(),
            types: Vec::new(),
            table_names: Vec::new(),
            table_hierarchies: Vec::new(),
        }
    }

    /// Whether an entity for `target` is generated under this configuration:
    /// entities for all sides always are, others when they match the configured side.
    pub fn is_target(&self, target: Target) -> (r: bool)
        ensures
            r == (target == Target::All || target == self.config.target),
    {
        target == Target::All || target == self.config.target
    }

    /// Records a new type name; a name recorded before is refused.
    pub fn register_type(&mut self, name: &str) -> (r: Result<(), Error>)
        ensures
            r is Ok <==> !views(old(self).types@).contains(name@),
            r is Ok ==> views(final(self).types@) == views(old(self).types@).push(name@),
            r is Err ==> final(self).types@ == old(self).types@,
            r matches Err(e) ==> e matches Error::DuplicateType(n) && n@ == name@,
            final(self).tables == old(self).tables,
            final(self).enumerations == old(self).enumerations,
            final(self).table_names == old(self).table_names,
            final(self).table_hierarchies == old(self).table_hierarchies,
            final(self).config == old(self).config,
    {
        let mut i: usize = 0;
        while i < self.types.len()
            invariant
                i <= self.types.len(),
                forall|j: int| 0 <= j < i ==> #[trigger] self.types@[j]@ != name@,
            decreases self.types.len() - i,
        {
            if str_eq(self.types[i].as_str(), name) {
                assert(views(self.types@)[i as int] == name@);
                return Err(Error::DuplicateType(name.to_owned()));
            }
            i = i + 1;
        }
        proof {
            assert forall|j: int| 0 <= j < views(self.types@).len() implies views(self.types@)[j] != name@ by {
                assert(self.types@[j]@ != name@);
            }
        }
        let ghost before = views(self.types@);
        self.types.push(name.to_owned());
        assert(views(self.types@) =~= before.push(name@));
        Ok(())
    }

    /// The index of the table with the given full type name.
    pub fn table_index(&self, key: &str) -> (r: Option<usize>)
        ensures
            match r {
                Some(i) => self.table_index_spec(key@) == Some(i as int) && i < self.table_names@.len(),
                None => self.table_index_spec(key@) is None,
            },
    {
        let ghost s = self.names_view();
        proof { lemma_find_index(s, key@); }
        let mut i: usize = 0;
        while i < self.table_names.len()
            invariant
                i <= self.table_names.len(),
                s == self.names_view(),
                s.len() == self.table_names@.len(),
                forall|j: int| 0 <= j < i ==> s[j] != key@,
            decreases self.table_names.len() - i,
        {
            assert(s[i as int] == self.table_names@[i as int]@);
            if str_eq(self.table_names[i].as_str(), key) {
                proof {
                    lemma_find_index(s, key@);
                    assert(s[i as int] == key@);
                    match find_index(s, key@) {
                        Some(k) => {
                            if k > i {
                                assert(s[i as int] != key@);
                            } else if k < i {
                                assert(s[k] != key@);
                            }
                        },
                        None => {
                            assert(s[i as int] != key@);
                        },
                    }
                }
                return Some(i);
            }
            i = i + 1;
        }
        proof {
            match find_index(s, key@) {
                Some(k) => { assert(s[k] != key@); },
                None => {},
            }
        }
        None
    }

    /// The table that a table with `extend` extends, where it was collected.
    pub fn get_parent_table(&self, extend: &Option<String>) -> (r: Option<&TableEntry>)
        requires
            self.wf(),
        ensures
            match self.parent_index(opt_view(*extend)) {
                Some(j) => r == Some(&self.tables@[j]),
                None => r is None,
            },
    {
        match extend {
            Some(p) => {
                match self.table_index(p.as_str()) {
                    Some(j) => {
                        proof { lemma_find_index(self.names_view(), p@); }
                        Some(&self.tables[j])
                    },
                    None => None,
                }
            },
            None => None,
        }
    }

    /// Collects a table into `module`: registers its full type name and
    /// appends it to the tables.
    pub fn add_table(&mut self, module: &mut ModuleEntry, name: Name, schema: TableSchema) -> (r: Result<(), Error>)
        requires
            old(self).wf(),
        ensures
            final(self).wf(),
            r is Ok <==> !views(old(self).types@).contains(name.type_spec(true)),
            r is Ok ==> final(self).tables@ == old(self).tables@.push(TableEntry { name, schema }),
            r is Ok ==> final(module).entries@ == old(module).entries@.push(EntityEntry::TableIndex(old(self).tables@.len() as usize)),
            r is Err ==> final(self).tables@ == old(self).tables@ && final(module).entries@ == old(module).entries@,
            final(self).enumerations == old(self).enumerations,
            final(module).name == old(module).name,
    {
        let full = name.as_type(true);
        match self.register_type(full.as_str()) {
            Err(e) => {
                return Err(e);
            },
            Ok(()) => {},
        }
        let ghost old_names = self.table_names@;
        let ghost old_tables = self.tables@;
        proof {
            assert forall|i: int| 0 <= i < old_names.len() implies #[trigger] old_names[i]@ != full@ by {
                assert(views(old(self).types@).contains(old_names[i]@));
            }
        }
        self.tables.push(TableEntry { name, schema });
        self.table_names.push(full);
        self.table_hierarchies.push(Vec::new());
        module.entries.push(EntityEntry::TableIndex(self.tables.len() - 1));
        proof {
            assert forall|i: int| 0 <= i < self.table_names@.len() implies
                views(self.types@).contains(#[trigger] self.table_names@[i]@) by {
                if i < old_names.len() {
                    assert(views(old(self).types@).contains(old_names[i]@));
                    let k = choose|k: int| 0 <= k < views(old(self).types@).len() && views(old(self).types@)[k] == old_names[i]@;
                    assert(views(self.types@)[k] == old_names[i]@);
                } else {
                    assert(views(self.types@)[views(self.types@).len() - 1] == full@);
                }
            }
            assert forall|i: int| 0 <= i < self.tables@.len() implies
                #[trigger] self.table_names@[i]@ == self.tables@[i].name.type_spec(true) by {
                if i < old_tables.len() {
                    assert(self.table_names@[i] == old_names[i]);
                    assert(self.tables@[i] == old_tables[i]);
                }
            }
        }
        Ok(())
    }

    /// Collects an enumeration into `module`: registers its full type name and
    /// appends it to the enumerations.
    pub fn add_enumeration(&mut self, module: &mut ModuleEntry, name: Name, schema: EnumerationSchema) -> (r: Result<(), Error>)
        requires
            old(self).wf(),
        ensures
            final(self).wf(),
            r is Ok <==> !views(old(self).types@).contains(name.type_spec(true)),
            r is Ok ==> final(self).enumerations@ == old(self).enumerations@.push(EnumerationEntry { name, schema }),
            r is Ok ==> final(module).entries@ == old(module).entries@.push(EntityEntry::EnumerationIndex(old(self).enumerations@.len() as usize)),
            r is Err ==> final(self).enumerations@ == old(self).enumerations@ && final(module).entries@ == old(module).entries@,
            final(self).tables == old(self).tables,
            final(module).name == old(module).name,
    {
        let full = name.as_type(true);
        match self.register_type(full.as_str()) {
            Err(e) => {
                return Err(e);
            },
            Ok(()) => {},
        }
        proof { self.lemma_wf_after_register(old(self).types@); }
        self.enumerations.push(EnumerationEntry { name, schema });
        module.entries.push(EntityEntry::EnumerationIndex(self.enumerations.len() - 1));
        Ok(())
    }

    /// Records a constant in `module`: registers its full type name and adds
    /// the module entry, whose index is the last enumeration's.
    pub fn add_constant_entry(&mut self, module: &mut ModuleEntry, name: &Name) -> (r: Result<(), Error>)
        requires
            old(self).wf(),
            old(self).enumerations@.len() > 0,
        ensures
            final(self).wf(),
            r is Ok <==> !views(old(self).types@).contains(name.type_spec(true)),
            r is Ok ==> final(module).entries@ == old(module).entries@.push(EntityEntry::ConstantIndex((old(self).enumerations@.len() - 1) as usize)),
            r is Err ==> final(module).entries@ == old(module).entries@,
            final(self).tables == old(self).tables,
            final(self).enumerations == old(self).enumerations,
            final(module).name == old(module).name,
    {
        let full = name.as_type(true);
        match self.register_type(full.as_str()) {
            Err(e) => {
                return Err(e);
            },
            Ok(()) => {},
        }
        proof { self.lemma_wf_after_register(old(self).types@); }
        module.entries.push(EntityEntry::ConstantIndex(self.enumerations.len() - 1));
        Ok(())
    }

    proof fn lemma_wf_after_register(&self, before: Seq<String>)
        requires
            self.table_names@.len() == self.tables@.len(),
            self.table_hierarchies@.len() == self.tables@.len(),
            forall|i: int| 0 <= i < self.tables@.len() ==>
                #[trigger] self.table_names@[i]@ == self.tables@[i].name.type_spec(true),
            forall|i: int| 0 <= i < self.table_names@.len() ==>
                views(before).contains(#[trigger] self.table_names@[i]@),
            forall|i: int, j: int| 0 <= i < j < self.table_names@.len() ==>
                #[trigger] self.table_names@[i]@ != #[trigger] self.table_names@[j]@,
            exists|x: Seq<char>| views(self.types@) == views(before).push(x),
        ensures
            self.wf(),
    {
        let x = choose|x: Seq<char>| views(self.types@) == views(before).push(x);
        assert forall|i: int| 0 <= i < self.table_names@.len() implies
            views(self.types@).contains(#[trigger] self.table_names@[i]@) by {
            let k = choose|k: int| 0 <= k < views(before).len() && views(before)[k] == self.table_names@[i]@;
            assert(views(self.types@)[k] == self.table_names@[i]@);
        }
    }

    /// Fills each table's child list with the tables that extend it, in collection order.
    pub fn build_hierarchies(&mut self)
        requires
            old(self).wf(),
        ensures
            final(self).wf(),
            final(self).hierarchies_built(),
            final(self).tables == old(self).tables,
            final(self).table_names == old(self).table_names,
            final(self).enumerations == old(self).enumerations,
            final(self).types == old(self).types,
            final(self).config == old(self).config,
    {
        let n = self.tables.len();
        let mut hierarchies: Vec<Vec<usize>> = Vec::new();
        let mut j: usize = 0;
        while j < n
            invariant
                j <= n,
                n == self.tables@.len(),
                hierarchies@.len() == j,
                forall|k: int| 0 <= k < j ==> (#[trigger] hierarchies@[k])@.len() == 0,
            decreases n - j,
        {
            hierarchies.push(Vec::new());
            j = j + 1;
        }
        let mut i: usize = 0;
        while i < n
            invariant
                i <= n,
                n == self.tables@.len(),
                self.wf(),
                hierarchies@.len() == n,
                forall|k: int| 0 <= k < n ==> #[trigger] hierarchies@[k]@ == self.children_upto(k, i as nat),
            decreases n - i,
        {
            let parent = self.get_parent_table_index(i);
            let ghost before = hierarchies@;
            match parent {
                Some(p) => {
                    let mut list: Vec<usize> = Vec::new();
                    std::mem::swap(&mut list, &mut hierarchies[p]);
                    list.push(i);
                    hierarchies.set(p, list);
                },
                None => {},
            }
            proof {
                assert forall|k: int| 0 <= k < n implies #[trigger] hierarchies@[k]@ == self.children_upto(k, (i + 1) as nat) by {
                    assert(self.children_upto(k, (i + 1) as nat) == (if self.parent_index(self.tables@[i as int].schema.extend_spec()) == Some(k) {
                        self.children_upto(k, i as nat).push(i)
                    } else {
                        self.children_upto(k, i as nat)
                    }));
                    if parent != Some(k as usize) {
                        assert(hierarchies@[k] == before[k]);
                    }
                }
            }
            i = i + 1;
        }
        self.table_hierarchies = hierarchies;
        assert forall|k: int| 0 <= k < self.tables@.len() implies
            #[trigger] self.table_hierarchies@[k]@ == self.children_upto(k, self.tables@.len() as nat) by {
            assert(self.table_hierarchies@[k] == hierarchies@[k]);
        }
    }

    /// The index of the table that table `i` extends, where it was collected.
    pub fn get_parent_table_index(&self, i: usize) -> (r: Option<usize>)
        requires
            self.wf(),
            i < self.tables@.len(),
        ensures
            match self.parent_index(self.tables@[i as int].schema.extend_spec()) {
                Some(j) => r == Some(j as usize) && 0 <= j < self.tables@.len(),
                None => r is None,
            },
    {
        let schematic = self.tables[i].schema.schematic();
        match schematic.extend() {
            Some(p) => {
                proof { lemma_find_index(self.names_view(), p@); }
                self.table_index(p.as_str())
            },
            None => None,
        }
    }

    /// All fields of a table: those of the tables it extends, the farthest
    /// first, then its own. A table that extends one never collected is refused.
    pub fn get_table_all_fields<S: TableSchematic>(&self, schema: &S) -> (r: Result<Vec<Field>, Error>)
        requires
            self.wf(),
            self.chain_ends(schema.extend_view()),
        ensures
            match self.inherited_fields(schema.extend_view(), self.tables@.len() as nat) {
                Chain::Done(f) => r matches Ok(v) && field_views(v@) == f + schema.fields_view(),
                Chain::Missing(p) => r matches Err(Error::Inheritance(a, b)) && a@ == schema.name_view() && b@ == p,
                Chain::Cycle => false,
            },
    {
        let mut fields = copy_fields(schema.fields());
        let mut extend = clone_option(schema.extend());
        let mut fuel: usize = self.tables.len();
        let ghost start = self.inherited_fields(schema.extend_view(), self.tables@.len() as nat);
        let ghost goal = prepend_to(start, schema.fields_view());
        while extend.is_some()
            invariant
                self.wf(),
                start == self.inherited_fields(schema.extend_view(), self.tables@.len() as nat),
                !(start is Cycle),
                goal == prepend_to(start, schema.fields_view()),
                goal == prepend_to(self.inherited_fields(opt_view(extend), fuel as nat), field_views(fields@)),
            decreases fuel,
        {
            let parent = match extend {
                Some(p) => p,
                None => String::new(),
            };
            match self.table_index(parent.as_str()) {
                None => {
                    assert(goal == Chain::Missing(parent@));
                    return Err(Error::Inheritance(schema.name().to_owned(), parent));
                },
                Some(j) => {
                    proof { lemma_find_index(self.names_view(), parent@); }
                    assert(fuel > 0) by {
                        if fuel == 0 {
                            assert(self.inherited_fields(opt_view(extend), fuel as nat) is Cycle);
                        }
                    }
                    let parent_schema = self.tables[j].schema.schematic();
                    let parent_fields = copy_fields(parent_schema.fields());
                    let ghost old_fields = field_views(fields@);
                    fields = concat_fields(parent_fields, fields);
                    extend = clone_option(parent_schema.extend());
                    fuel = fuel - 1;
                    proof {
                        let o = self.inherited_fields(opt_view(extend), fuel as nat);
                        match o {
                            Chain::Done(f) => {
                                assert(f + parent_schema.fields_view() + old_fields =~= f + (parent_schema.fields_view() + old_fields));
                            },
                            _ => {},
                        }
                    }
                },
            }
        }
        proof {
            assert(Seq::<FieldView>::empty() + field_views(fields@) =~= field_views(fields@));
        }
        Ok(fields)
    }
}

/// A copy of an optional string.
pub fn clone_option(o: &Option<String>) -> (r: Option<String>)
    ensures
        opt_view(r) == opt_view(*o),
{
    match o {
        Some(s) => Some(s.clone()),
        None => None,
    }
}

/// The fields of `front` followed by those of `back`.
pub fn concat_fields(front: Vec<Field>, back: Vec<Field>) -> (r: Vec<Field>)
    ensures
        field_views(r@) == field_views(front@) + field_views(back@),
{
    let ghost back_items = back@;
    let mut r = front;
    let mut back = back;
    r.append(&mut back);
    assert(r@ == front@ + back_items);
    assert(field_views(r@) =~= field_views(front@) + field_views(back_items));
    r
}

} // verus!
