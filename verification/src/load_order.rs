//! The order in which the game server loads its tables: the links between
//! tables, their layering, and the generated `load_all` function.

use vstd::prelude::*;
use crate::dependency::{
    canonical_levels, edge_total, has_cycle, lemma_canonical_levels, lemma_layering_acyclic, links_in_range,
    lists_view, load_levels,
};
use crate::generator::{find_index, lemma_find_index};
use crate::names::upper_camel_case;
use crate::server_generate::{
    data_cell_name_spec, data_type_name_spec, enum_export, enum_export_spec, load_all_code, load_all_code_spec,
    load_handle_code, load_handle_code_spec, load_level_code, load_level_code_spec, mod_declaration,
    mod_declaration_spec, module_code, module_code_spec, table_export, table_export_spec, to_data_cell_name,
    to_data_type_name, to_type_name,
};
use crate::server_schema::{Entity, Field, FieldKind, GenerateError, ModuleDef, TableSchema};
use crate::text::{
    clone_strings, join, lemma_split_str_from_nonempty, seq_join, split_str, split_str_spec, str_eq, views,
};

verus! {

/// The links between the game server's tables: for each table, by its name
/// with namespace, the names of the tables it links to.
#[derive(Debug)]
pub struct DependencyGraph {
    pub entries: Vec<(String, Vec<String>)>,
}

/// The plain view of the links: each table's name and the names it links to.
pub open spec fn entries_view(e: Seq<(String, Vec<String>)>) -> Seq<(Seq<char>, Seq<Seq<char>>)> {
    e.map_values(|x: (String, Vec<String>)| (x.0@, views(x.1@)))
}

impl View for DependencyGraph {
    type V = Seq<(Seq<char>, Seq<Seq<char>>)>;

    open spec fn view(&self) -> Seq<(Seq<char>, Seq<Seq<char>>)> {
        entries_view(self.entries@)
    }
}

/// The names of the tables of a link graph.
pub open spec fn graph_names(g: Seq<(Seq<char>, Seq<Seq<char>>)>) -> Seq<Seq<char>> {
    g.map_values(|x: (Seq<char>, Seq<Seq<char>>)| x.0)
}

/// No table stands twice.
pub open spec fn names_distinct(g: Seq<(Seq<char>, Seq<Seq<char>>)>) -> bool {
    forall|i: int, j: int| 0 <= i < j < g.len() ==> #[trigger] g[i].0 != #[trigger] g[j].0
}

/// The names of the tables the fields link to, in field order.
pub open spec fn link_names(fields: Seq<Field>) -> Seq<Seq<char>>
    decreases fields.len(),
{
    if fields.len() == 0 {
        Seq::<Seq<char>>::empty()
    } else {
        let rest = link_names(fields.drop_last());
        match fields.last().kind {
            FieldKind::Link { link_type } => rest.push(link_type@),
            _ => rest,
        }
    }
}

/// `g` with the table `key` linking to nothing: its entry emptied where it
/// stands, or a new entry at the end.
pub open spec fn with_table(g: Seq<(Seq<char>, Seq<Seq<char>>)>, key: Seq<char>) -> Seq<(Seq<char>, Seq<Seq<char>>)> {
    match find_index(graph_names(g), key) {
        Some(i) => g.update(i, (key, Seq::<Seq<char>>::empty())),
        None => g.push((key, Seq::<Seq<char>>::empty())),
    }
}

/// `g` with `links` added after the links of table `name`.
pub open spec fn with_links(g: Seq<(Seq<char>, Seq<Seq<char>>)>, name: Seq<char>, links: Seq<Seq<char>>) -> Seq<(Seq<char>, Seq<Seq<char>>)> {
    if links.len() == 0 {
        g
    } else {
        match find_index(graph_names(g), name) {
            Some(i) => g.update(i, (name, g[i].1 + links)),
            None => g,
        }
    }
}

/// The number of links held by the first `m` tables.
pub open spec fn link_total(g: Seq<(Seq<char>, Seq<Seq<char>>)>, m: nat) -> nat
    decreases m,
{
    if m == 0 {
        0
    } else {
        link_total(g, (m - 1) as nat) + g[m - 1].1.len()
    }
}

/// The positions among `names` of the tables in `links`; links to names that
/// are no table's are left out.
pub open spec fn link_positions(names: Seq<Seq<char>>, links: Seq<Seq<char>>) -> Seq<usize>
    decreases links.len(),
{
    if links.len() == 0 {
        Seq::<usize>::empty()
    } else {
        let rest = link_positions(names, links.drop_last());
        match find_index(names, links.last()) {
            Some(i) => rest.push(i as usize),
            None => rest,
        }
    }
}

/// The link graph by table positions.
pub open spec fn position_graph(g: Seq<(Seq<char>, Seq<Seq<char>>)>) -> Seq<Seq<usize>> {
    Seq::new(g.len(), |u: int| link_positions(graph_names(g), g[u].1))
}

proof fn lemma_link_positions(names: Seq<Seq<char>>, links: Seq<Seq<char>>)
    requires
        names.len() <= usize::MAX,
    ensures
        link_positions(names, links).len() <= links.len(),
        forall|i: int| 0 <= i < link_positions(names, links).len() ==> (#[trigger] link_positions(names, links)[i] as int) < names.len(),
    decreases links.len(),
{
    if links.len() > 0 {
        lemma_link_positions(names, links.drop_last());
        lemma_find_index(names, links.last());
    }
}

proof fn lemma_position_graph(g: Seq<(Seq<char>, Seq<Seq<char>>)>, m: nat)
    requires
        g.len() <= usize::MAX,
        m <= g.len(),
    ensures
        links_in_range(position_graph(g)),
        edge_total(position_graph(g), m) <= link_total(g, m),
    decreases m,
{
    let pg = position_graph(g);
    assert forall|u: int, i: int| 0 <= u < pg.len() && 0 <= i < pg[u].len() implies (#[trigger] pg[u][i] as int) < pg.len() by {
        lemma_link_positions(graph_names(g), g[u].1);
    }
    if m > 0 {
        lemma_position_graph(g, (m - 1) as nat);
        lemma_link_positions(graph_names(g), g[m - 1].1);
    }
}

/// The first position of table `name` in `entries`.
fn table_position(entries: &Vec<(String, Vec<String>)>, name: &str) -> (r: Option<usize>)
    ensures
        match r {
            Some(i) => find_index(graph_names(entries_view(entries@)), name@) == Some(i as int),
            None => find_index(graph_names(entries_view(entries@)), name@) is None,
        },
{
    let ghost s = graph_names(entries_view(entries@));
    proof { lemma_find_index(s, name@); }
    let mut i: usize = 0;
    while i < entries.len()
        invariant
            i <= entries.len(),
            s == graph_names(entries_view(entries@)),
            s.len() == entries@.len(),
            forall|j: int| 0 <= j < i ==> s[j] != name@,
        decreases entries.len() - i,
    {
        assert(s[i as int] == entries@[i as int].0@);
        if str_eq(entries[i].0.as_str(), name) {
            proof {
                lemma_find_index(s, name@);
                match find_index(s, name@) {
                    Some(k) => {
                        if k > i {
                            assert(s[i as int] != name@);
                        } else if k < i {
                            assert(s[k] != name@);
                        }
                    },
                    None => {
                        assert(s[i as int] != name@);
                    },
                }
            }
            return Some(i);
        }
        i = i + 1;
    }
    proof {
        lemma_find_index(s, name@);
        match find_index(s, name@) {
            Some(k) => { assert(s[k] != name@); },
            None => {},
        }
    }
    None
}

/// Recording a table keeps each table's name once.
pub proof fn lemma_recording_keeps_names_distinct(g: Seq<(Seq<char>, Seq<Seq<char>>)>, key: Seq<char>, name: Seq<char>, links: Seq<Seq<char>>)
    requires
        names_distinct(g),
    ensures
        names_distinct(with_table(g, key)),
        names_distinct(with_links(with_table(g, key), name, links)),
{
    lemma_find_index(graph_names(g), key);
    let g1 = with_table(g, key);
    assert forall|i: int, j: int| 0 <= i < j < g1.len() implies #[trigger] g1[i].0 != #[trigger] g1[j].0 by {
        assert(graph_names(g).len() == g.len());
        if j < g.len() {
            assert(g1[i].0 == g[i].0 || g1[i].0 == key);
            match find_index(graph_names(g), key) {
                Some(k) => {
                    if i == k {
                        assert(graph_names(g)[j] == g[j].0);
                    } else if j == k {
                        assert(graph_names(g)[i] == g[i].0);
                    }
                },
                None => {},
            }
        } else {
            assert(graph_names(g)[i] == g[i].0);
        }
    }
    lemma_find_index(graph_names(g1), name);
    let g2 = with_links(g1, name, links);
    assert forall|i: int, j: int| 0 <= i < j < g2.len() implies #[trigger] g2[i].0 != #[trigger] g2[j].0 by {
        assert(g2[i].0 == g1[i].0);
        assert(g2[j].0 == g1[j].0);
    }
}

impl DependencyGraph {
    /// A graph without tables.
    pub fn new() -> (r: Self)
        ensures
            r@ == Seq::<(Seq<char>, Seq<Seq<char>>)>::empty(),
    {
        DependencyGraph { entries: Vec::new() }
    }

    /// Records a generated table: the table `key` first links to nothing;
    /// then the link fields of `schema` are added, in order, to the links
    /// of the table named as the schema is.
    pub fn add_table(&mut self, key: String, schema: &TableSchema)
        requires
            link_names(schema.fields@).len() > 0 ==> find_index(graph_names(with_table(old(self)@, key@)), schema.name@) is Some,
        ensures
            final(self)@ == with_links(with_table(old(self)@, key@), schema.name@, link_names(schema.fields@)),
            names_distinct(old(self)@) ==> names_distinct(final(self)@),
    {
        let ghost g0 = self@;
        proof {
            lemma_find_index(graph_names(g0), key@);
            if names_distinct(g0) {
                lemma_recording_keeps_names_distinct(g0, key@, schema.name@, link_names(schema.fields@));
            }
        }
        assert(views(Seq::<String>::empty()) =~= Seq::<Seq<char>>::empty());
        match table_position(&self.entries, key.as_str()) {
            Some(i) => {
                let ghost kv = key@;
                self.entries.set(i, (key, Vec::new()));
                proof {
                    assert(self@ =~= g0.update(i as int, (kv, Seq::<Seq<char>>::empty())));
                }
            },
            None => {
                let ghost kv = key@;
                self.entries.push((key, Vec::new()));
                proof {
                    assert(self@ =~= g0.push((kv, Seq::<Seq<char>>::empty())));
                }
            },
        }
        let ghost g1 = self@;
        let mut links: Vec<String> = Vec::new();
        let mut k: usize = 0;
        while k < schema.fields.len()
            invariant
                k <= schema.fields.len(),
                views(links@) == link_names(schema.fields@.take(k as int)),
                self@ == g1,
            decreases schema.fields.len() - k,
        {
            proof {
                assert(schema.fields@.take(k + 1).drop_last() =~= schema.fields@.take(k as int));
            }
            match &schema.fields[k].kind {
                FieldKind::Link { link_type } => {
                    links.push(link_type.clone());
                    proof {
                        assert(views(links@) =~= link_names(schema.fields@.take(k as int)).push(link_type@));
                    }
                },
                _ => {},
            }
            k = k + 1;
        }
        assert(schema.fields@.take(schema.fields.len() as int) =~= schema.fields@);
        if links.len() > 0 {
            let j = table_position(&self.entries, schema.name.as_str());
            proof { lemma_find_index(graph_names(g1), schema.name@); }
            let j = match j {
                Some(j) => j,
                None => {
                    assert(false);
                    return;
                },
            };
            let ghost before = self@;
            let mut list = clone_strings(&self.entries[j].1);
            let ghost base = views(self.entries@[j as int].1@);
            let mut t: usize = 0;
            while t < links.len()
                invariant
                    t <= links.len(),
                    views(list@) == base + views(links@).take(t as int),
                decreases links.len() - t,
            {
                let ghost before = views(list@);
                let c = links[t].clone();
                list.push(c);
                proof {
                    assert(views(list@) =~= before.push(links@[t as int]@));
                    assert(views(links@).take(t + 1) =~= views(links@).take(t as int).push(links@[t as int]@));
                    assert(views(list@) =~= base + views(links@).take(t + 1));
                }
                t = t + 1;
            }
            assert(views(links@).take(links.len() as int) =~= views(links@));
            let name = self.entries[j].0.clone();
            self.entries.set(j, (name, list));
            proof {
                lemma_find_index(graph_names(before), schema.name@);
                assert(self@ =~= with_links(g1, schema.name@, link_names(schema.fields@)));
            }
        }
    }
}


/// The load task of a table, by its name with namespace: the part before
/// the last `::` is the namespace, the rest the table's name.
pub open spec fn handle_code_spec(key: Seq<char>) -> Seq<char> {
    let parts = split_str_spec(key, "::"@);
    load_handle_code_spec(seq_join(parts.drop_last(), "::"@), data_type_name_spec(parts.last()))
}

/// The loading of one level, the `i`-th.
pub open spec fn level_code_spec(names: Seq<Seq<char>>, level: Seq<usize>, i: int) -> Seq<char> {
    load_level_code_spec(
        i as usize,
        seq_join(Seq::new(level.len(), |t: int| handle_code_spec(names[level[t] as int])), "\n"@),
    )
}

/// The loading of the first `m` levels, an empty level left out.
pub open spec fn level_codes(names: Seq<Seq<char>>, levels: Seq<Seq<usize>>, m: nat) -> Seq<Seq<char>>
    decreases m,
{
    if m == 0 {
        Seq::<Seq<char>>::empty()
    } else {
        let rest = level_codes(names, levels, (m - 1) as nat);
        if levels[m - 1].len() == 0 {
            rest
        } else {
            rest.push(level_code_spec(names, levels[m - 1], m - 1))
        }
    }
}

/// The generated `load_all` function for tables `names` loaded in `levels`.
pub open spec fn load_all_spec(names: Seq<Seq<char>>, levels: Seq<Seq<usize>>) -> Seq<char> {
    load_all_code_spec(seq_join(level_codes(names, levels, levels.len()), "\n"@))
}

/// The load task of a table, by its name with namespace.
pub fn handle_line(key: &str) -> (r: String)
    ensures
        r@ == handle_code_spec(key@),
{
    proof {
        reveal_strlit("::");
        lemma_split_str_from_nonempty(key@, "::"@, 0, 0);
    }
    let parts = split_str(key, "::");
    let last = parts.len() - 1;
    let mut prefix: Vec<String> = Vec::new();
    let mut t: usize = 0;
    while t < last
        invariant
            t <= last,
            last == parts.len() - 1,
            views(prefix@) == views(parts@).take(t as int),
        decreases last - t,
    {
        let ghost before = views(prefix@);
        let c = parts[t].clone();
        prefix.push(c);
        proof {
            assert(views(prefix@) =~= before.push(parts@[t as int]@));
            assert(views(parts@).take(t + 1) =~= views(parts@).take(t as int).push(parts@[t as int]@));
        }
        t = t + 1;
    }
    assert(views(parts@).take(last as int) =~= views(parts@).drop_last());
    let namespace = join(&prefix, "::");
    let data_type_name = to_data_type_name(parts[last].as_str());
    load_handle_code(namespace.as_str(), data_type_name.as_str())
}

impl DependencyGraph {
    /// The links by table position: entry `u` lists the positions of the
    /// tables that table `u` links to; names that are no table's are left out.
    pub fn position_lists(&self) -> (r: Vec<Vec<usize>>)
        ensures
            lists_view(r@) == position_graph(self@),
    {
        let ghost names = graph_names(self@);
        let mut r: Vec<Vec<usize>> = Vec::new();
        let mut u: usize = 0;
        while u < self.entries.len()
            invariant
                u <= self.entries.len(),
                names == graph_names(self@),
                lists_view(r@) == position_graph(self@).take(u as int),
            decreases self.entries.len() - u,
        {
            let deps = &self.entries[u].1;
            assert(views(deps@) == self@[u as int].1);
            let mut list: Vec<usize> = Vec::new();
            let mut j: usize = 0;
            while j < deps.len()
                invariant
                    j <= deps.len(),
                    u < self.entries.len(),
                    deps == &self.entries@[u as int].1,
                    names == graph_names(self@),
                    list@ == link_positions(names, views(deps@).take(j as int)),
                decreases deps.len() - j,
            {
                proof {
                    assert(views(deps@).take(j + 1).drop_last() =~= views(deps@).take(j as int));
                }
                match table_position(&self.entries, deps[j].as_str()) {
                    Some(i) => {
                        list.push(i);
                    },
                    None => {},
                }
                j = j + 1;
            }
            assert(views(deps@).take(deps.len() as int) =~= views(deps@));
            let ghost before = lists_view(r@);
            r.push(list);
            proof {
                assert(lists_view(r@) =~= before.push(list@));
                assert(position_graph(self@).take(u + 1) =~= position_graph(self@).take(u as int).push(list@));
            }
            u = u + 1;
        }
        assert(position_graph(self@).take(self.entries.len() as int) =~= position_graph(self@));
        r
    }

    /// The generated `load_all` function: the tables of each non-empty level
    /// are loaded together, one level after another.
    pub fn render_load_all(&self, levels: &Vec<Vec<usize>>) -> (r: String)
        requires
            forall|k: int, i: int| 0 <= k < levels@.len() && 0 <= i < levels@[k]@.len()
                ==> (#[trigger] levels@[k]@[i] as int) < self@.len(),
        ensures
            r@ == load_all_spec(graph_names(self@), lists_view(levels@)),
    {
        let ghost names = graph_names(self@);
        let ghost lv = lists_view(levels@);
        let mut codes: Vec<String> = Vec::new();
        let mut k: usize = 0;
        while k < levels.len()
            invariant
                k <= levels.len(),
                names == graph_names(self@),
                lv == lists_view(levels@),
                forall|k: int, i: int| 0 <= k < levels@.len() && 0 <= i < levels@[k]@.len()
                    ==> (#[trigger] levels@[k]@[i] as int) < self@.len(),
                views(codes@) == level_codes(names, lv, k as nat),
            decreases levels.len() - k,
        {
            let level = &levels[k];
            assert(level@ == lv[k as int]);
            if level.len() > 0 {
                let mut handles: Vec<String> = Vec::new();
                let mut t: usize = 0;
                while t < level.len()
                    invariant
                        t <= level.len(),
                        k < levels.len(),
                        level == &levels@[k as int],
                        names == graph_names(self@),
                        forall|k: int, i: int| 0 <= k < levels@.len() && 0 <= i < levels@[k]@.len()
                            ==> (#[trigger] levels@[k]@[i] as int) < self@.len(),
                        views(handles@) =~= Seq::new(t as nat, |x: int| handle_code_spec(names[level@[x] as int])),
                    decreases level.len() - t,
                {
                    let u = level[t];
                    assert((u as int) < self@.len());
                    let line = handle_line(self.entries[u].0.as_str());
                    let ghost before = views(handles@);
                    handles.push(line);
                    proof {
                        assert(views(handles@) =~= before.push(line@));
                    }
                    t = t + 1;
                }
                let handles_code = join(&handles, "\n");
                let code = load_level_code(k, handles_code.as_str());
                let ghost before = views(codes@);
                codes.push(code);
                proof {
                    assert(views(codes@) =~= before.push(code@));
                }
            }
            k = k + 1;
        }
        let all = join(&codes, "\n");
        load_all_code(all.as_str())
    }
}

/// The name of a module entity.
pub open spec fn entity_name(e: Entity) -> Seq<char> {
    match e {
        Entity::Module(name) => name@,
        Entity::Table(name) => name@,
        Entity::Const(name) => name@,
        Entity::Enum(name) => name@,
    }
}

/// The re-exports of the first `m` entities: a table's types and an
/// enumeration's type.
pub open spec fn export_lines(es: Seq<Entity>, m: nat) -> Seq<Seq<char>>
    decreases m,
{
    if m == 0 {
        Seq::<Seq<char>>::empty()
    } else {
        let rest = export_lines(es, (m - 1) as nat);
        match es[m - 1] {
            Entity::Table(name) => rest.push(table_export_spec(
                name@, upper_camel_case(name@), data_type_name_spec(name@), data_cell_name_spec(name@),
            )),
            Entity::Enum(name) => rest.push(enum_export_spec(name@, upper_camel_case(name@))),
            _ => rest,
        }
    }
}

impl ModuleDef {
    /// The root module `data` is the one that loads all tables.
    pub open spec fn is_base_module(&self) -> bool {
        self.name@ == "data"@ && self.namespaces@.len() == 0
    }

    /// The module's source with `base` as the code after its declarations.
    pub open spec fn module_text(&self, base: Seq<char>) -> Seq<char> {
        let es = self.entities@;
        module_code_spec(
            seq_join(Seq::new(es.len(), |i: int| mod_declaration_spec(entity_name(es[i]))), "\n"@),
            seq_join(export_lines(es, es.len()), "\n"@),
            base,
        )
    }

    /// The `load_all` function of the root module: the tables layered by
    /// their links, each level in table order, or `DependencyCycle` when the
    /// links close a cycle.
    pub fn generate_base(&self, graph: &DependencyGraph) -> (r: Result<String, GenerateError>)
        requires
            link_total(graph@, graph@.len()) <= usize::MAX,
        ensures
            match r {
                Ok(code) => !has_cycle(position_graph(graph@))
                    && code@ == load_all_spec(graph_names(graph@), canonical_levels(position_graph(graph@))),
                Err(e) => e is DependencyCycle && has_cycle(position_graph(graph@)),
            },
    {
        let adj = graph.position_lists();
        let n = graph.entries.len();
        proof {
            lemma_position_graph(graph@, graph@.len());
            assert(lists_view(adj@).len() == adj@.len());
            assert(position_graph(graph@).len() == graph@.len());
        }
        match load_levels(&adj) {
            Some(levels) => {
                proof {
                    let lv = lists_view(levels@);
                    assert forall|k: int, i: int| 0 <= k < levels@.len() && 0 <= i < levels@[k]@.len()
                        implies (#[trigger] levels@[k]@[i] as int) < graph@.len() by {
                        assert(lv[k][i] == levels@[k]@[i]);
                    }
                }
                let code = graph.render_load_all(&levels);
                proof {
                    lemma_canonical_levels(position_graph(graph@), lists_view(levels@));
                    lemma_layering_acyclic(position_graph(graph@), lists_view(levels@));
                }
                Ok(code)
            },
            None => Err(GenerateError::DependencyCycle),
        }
    }

    /// The module's source: a declaration for each entity, the re-exports of
    /// its tables and enumerations, and for the root module the `load_all`
    /// function.
    pub fn generate(&self, graph: &DependencyGraph) -> (r: Result<String, GenerateError>)
        requires
            self.is_base_module() ==> link_total(graph@, graph@.len()) <= usize::MAX,
        ensures
            !self.is_base_module() ==> (r matches Ok(code) && code@ == self.module_text(Seq::<char>::empty())),
            self.is_base_module() ==> match r {
                Ok(code) => !has_cycle(position_graph(graph@))
                    && code@ == self.module_text(load_all_spec(graph_names(graph@), canonical_levels(position_graph(graph@)))),
                Err(e) => e is DependencyCycle && has_cycle(position_graph(graph@)),
            },
    {
        let is_base = str_eq(self.name.as_str(), "data") && self.namespaces.len() == 0;
        let ghost es = self.entities@;
        let mut imports: Vec<String> = Vec::new();
        let mut exports: Vec<String> = Vec::new();
        let mut i: usize = 0;
        while i < self.entities.len()
            invariant
                i <= self.entities.len(),
                es == self.entities@,
                views(imports@) =~= Seq::new(i as nat, |x: int| mod_declaration_spec(entity_name(es[x]))),
                views(exports@) == export_lines(es, i as nat),
            decreases self.entities.len() - i,
        {
            let ghost before_imports = views(imports@);
            let ghost before_exports = views(exports@);
            match &self.entities[i] {
                Entity::Module(name) => {
                    imports.push(mod_declaration(name.as_str()));
                },
                Entity::Table(name) => {
                    imports.push(mod_declaration(name.as_str()));
                    let type_ident = to_type_name(name.as_str());
                    let data_type_name = to_data_type_name(name.as_str());
                    let data_cell_name = to_data_cell_name(name.as_str());
                    exports.push(table_export(name.as_str(), type_ident.as_str(), data_type_name.as_str(), data_cell_name.as_str()));
                    proof {
                        assert(views(exports@) =~= before_exports.push(exports@.last()@));
                    }
                },
                Entity::Const(name) => {
                    imports.push(mod_declaration(name.as_str()));
                },
                Entity::Enum(name) => {
                    let type_ident = to_type_name(name.as_str());
                    imports.push(mod_declaration(name.as_str()));
                    exports.push(enum_export(name.as_str(), type_ident.as_str()));
                    proof {
                        assert(views(exports@) =~= before_exports.push(exports@.last()@));
                    }
                },
            }
            proof {
                assert(views(imports@) =~= before_imports.push(imports@.last()@));
            }
            i = i + 1;
        }
        let imports_code = join(&imports, "\n");
        let exports_code = join(&exports, "\n");
        if is_base {
            match self.generate_base(graph) {
                Ok(base) => Ok(module_code(imports_code.as_str(), exports_code.as_str(), base.as_str())),
                Err(e) => Err(e),
            }
        } else {
            let empty = String::new();
            Ok(module_code(imports_code.as_str(), exports_code.as_str(), empty.as_str()))
        }
    }
}

} // verus!
