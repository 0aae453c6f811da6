//! Load order of the game server's tables: tables are layered so that each
//! table comes after every table that links to it (Kahn's algorithm), and a
//! cycle of links is refused.

use vstd::prelude::*;
use vstd::set_lib::{lemma_int_range, lemma_len_subset, lemma_subset_equality, set_int_range};

verus! {

/// How often `v` occurs in `s`.
pub open spec fn seq_count(s: Seq<usize>, v: int) -> nat
    decreases s.len(),
{
    if s.len() == 0 {
        0
    } else {
        seq_count(s.drop_last(), v) + (if s.last() as int == v { 1nat } else { 0nat })
    }
}

/// The links into `v` from the first `m` tables that are not in `done`.
pub open spec fn remaining(adj: Seq<Seq<usize>>, done: Set<int>, v: int, m: nat) -> nat
    decreases m,
{
    if m == 0 {
        0
    } else {
        remaining(adj, done, v, (m - 1) as nat)
            + (if done.contains(m - 1) { 0nat } else { seq_count(adj[m - 1], v) })
    }
}

/// Table `u` links to table `v`.
pub open spec fn is_edge(adj: Seq<Seq<usize>>, u: int, v: int) -> bool {
    0 <= u < adj.len() && member(adj[u], v)
}

/// `v` occurs in `s`.
pub open spec fn member(s: Seq<usize>, v: int) -> bool {
    exists|i: int| 0 <= i < s.len() && s[i] as int == v
}

/// The tables of `order` at positions below `k`.
pub open spec fn prefix_set(order: Seq<usize>, k: int) -> Set<int> {
    Set::new(|x: int| exists|i: int| 0 <= i < k && order[i] as int == x)
}

pub proof fn lemma_count_positive(s: Seq<usize>, v: int)
    ensures
        seq_count(s, v) > 0 <==> exists|i: int| 0 <= i < s.len() && s[i] as int == v,
    decreases s.len(),
{
    if s.len() > 0 {
        lemma_count_positive(s.drop_last(), v);
        if seq_count(s.drop_last(), v) > 0 {
            let i = choose|i: int| 0 <= i < s.drop_last().len() && s.drop_last()[i] as int == v;
            assert(s[i] as int == v);
        }
        if exists|i: int| 0 <= i < s.len() && s[i] as int == v {
            let i = choose|i: int| 0 <= i < s.len() && s[i] as int == v;
            if i < s.len() - 1 {
                assert(s.drop_last()[i] as int == v);
            }
        }
    }
}

pub proof fn lemma_count_first(s: Seq<usize>, v: int)
    requires
        s.len() > 0,
    ensures
        seq_count(s, v) == seq_count(s.drop_first(), v) + (if s[0] as int == v { 1nat } else { 0nat }),
    decreases s.len(),
{
    if s.len() > 1 {
        lemma_count_first(s.drop_last(), v);
        assert(s.drop_last().drop_first() =~= s.drop_first().drop_last());
    } else {
        assert(s.drop_first() =~= Seq::<usize>::empty());
        assert(s.drop_last() =~= Seq::<usize>::empty());
    }
}

pub proof fn lemma_remaining_remove(adj: Seq<Seq<usize>>, done: Set<int>, v: int, m: nat, u: int)
    requires
        0 <= u < m,
        !done.contains(u),
    ensures
        remaining(adj, done, v, m) == remaining(adj, done.insert(u), v, m) + seq_count(adj[u], v),
    decreases m,
{
    if m - 1 == u {
        lemma_remaining_same(adj, done, done.insert(u), v, (m - 1) as nat);
    } else {
        lemma_remaining_remove(adj, done, v, (m - 1) as nat, u);
    }
}

pub proof fn lemma_remaining_same(adj: Seq<Seq<usize>>, a: Set<int>, b: Set<int>, v: int, m: nat)
    requires
        forall|x: int| 0 <= x < m ==> (a.contains(x) <==> b.contains(x)),
    ensures
        remaining(adj, a, v, m) == remaining(adj, b, v, m),
    decreases m,
{
    if m > 0 {
        lemma_remaining_same(adj, a, b, v, (m - 1) as nat);
    }
}

/// No links into `v` remain exactly when no table outside `done` links to it.
pub proof fn lemma_remaining_zero(adj: Seq<Seq<usize>>, done: Set<int>, v: int, m: nat)
    requires
        m <= adj.len(),
    ensures
        remaining(adj, done, v, m) == 0 <==> forall|u: int| 0 <= u < m && !done.contains(u) ==> !is_edge(adj, u, v),
    decreases m,
{
    if m > 0 {
        lemma_remaining_zero(adj, done, v, (m - 1) as nat);
        let u = m - 1;
        lemma_count_positive(adj[u], v);
    }
}

/// A list without repeats of tables below `n` has at most `n` members, and
/// with exactly `n` it holds every table.
pub proof fn lemma_pigeonhole(s: Seq<usize>, n: nat)
    requires
        s.no_duplicates(),
        forall|i: int| 0 <= i < s.len() ==> (s[i] as int) < n,
    ensures
        s.len() <= n,
        s.len() == n ==> forall|v: int| 0 <= v < n ==> #[trigger] member(s, v),
        (forall|v: int| 0 <= v < n ==> #[trigger] member(s, v)) ==> s.len() == n,
{
    let t = s.map_values(|x: usize| x as int);
    assert(t.no_duplicates()) by {
        assert forall|i: int, j: int| 0 <= i < t.len() && 0 <= j < t.len() && i != j implies t[i] != t[j] by {
            assert(s[i] != s[j]);
        }
    }
    t.unique_seq_to_set();
    let range = set_int_range(0, n as int);
    lemma_int_range(0, n as int);
    assert(t.to_set().subset_of(range)) by {
        assert forall|x: int| t.to_set().contains(x) implies range.contains(x) by {
            let i = choose|i: int| 0 <= i < t.len() && t[i] == x;
            assert(t[i] == s[i] as int);
        }
    }
    lemma_len_subset(t.to_set(), range);
    if forall|v: int| 0 <= v < n ==> #[trigger] member(s, v) {
        assert(range.subset_of(t.to_set())) by {
            assert forall|x: int| range.contains(x) implies t.to_set().contains(x) by {
                assert(member(s, x));
                let i = choose|i: int| 0 <= i < s.len() && s[i] as int == x;
                assert(t[i] == x);
            }
        }
        lemma_len_subset(range, t.to_set());
    }
    if s.len() == n {
        lemma_subset_equality(t.to_set(), range);
        assert forall|v: int| 0 <= v < n implies #[trigger] member(s, v) by {
            assert(range.contains(v));
            assert(t.to_set().contains(v));
            let i = choose|i: int| 0 <= i < t.len() && t[i] == v;
            assert(s[i] as int == v);
        }
    }
}


/// Each level lists its tables in increasing order.
pub open spec fn levels_sorted(levels: Seq<Seq<usize>>) -> bool {
    forall|k: int, i: int, j: int| 0 <= k < levels.len() && 0 <= i < j < levels[k].len()
        ==> #[trigger] levels[k][i] < #[trigger] levels[k][j]
}

/// The layering of `g` with each level in increasing order; a graph with a
/// cycle has none, and this is then an arbitrary value.
pub open spec fn canonical_levels(g: Seq<Seq<usize>>) -> Seq<Seq<usize>> {
    choose|levels: Seq<Seq<usize>>| is_layering(g, levels) && levels_sorted(levels)
}

proof fn lemma_sorted_same_members(s: Seq<usize>, t: Seq<usize>)
    requires
        forall|i: int, j: int| 0 <= i < j < s.len() ==> #[trigger] s[i] < #[trigger] s[j],
        forall|i: int, j: int| 0 <= i < j < t.len() ==> #[trigger] t[i] < #[trigger] t[j],
        forall|v: int| #[trigger] member(s, v) <==> member(t, v),
    ensures
        s == t,
    decreases s.len(),
{
    if s.len() == 0 {
        if t.len() > 0 {
            assert(member(t, t[0] as int));
            assert(member(s, t[0] as int));
            let i = choose|i: int| 0 <= i < s.len() && s[i] as int == t[0] as int;
            assert(false);
        }
        assert(s =~= t);
    } else {
        assert(member(s, s[0] as int));
        assert(member(t, s[0] as int));
        assert(t.len() > 0);
        assert(member(t, t[0] as int));
        assert(member(s, t[0] as int));
        let a = choose|i: int| 0 <= i < t.len() && t[i] as int == s[0] as int;
        let b = choose|i: int| 0 <= i < s.len() && s[i] as int == t[0] as int;
        if a > 0 {
            assert(t[0] < t[a]);
        }
        if b > 0 {
            assert(s[0] < s[b]);
        }
        assert(s[0] == t[0]);
        let s1 = s.drop_first();
        let t1 = t.drop_first();
        assert forall|v: int| #[trigger] member(s1, v) <==> member(t1, v) by {
            if member(s1, v) {
                let i = choose|i: int| 0 <= i < s1.len() && s1[i] as int == v;
                assert(s[i + 1] as int == v);
                assert(member(s, v));
                let j = choose|j: int| 0 <= j < t.len() && t[j] as int == v;
                assert(s[0] < s[i + 1]);
                if j == 0 {
                    assert(false);
                }
                assert(t1[j - 1] as int == v);
            }
            if member(t1, v) {
                let i = choose|i: int| 0 <= i < t1.len() && t1[i] as int == v;
                assert(t[i + 1] as int == v);
                assert(member(t, v));
                assert(member(s, v));
                let j = choose|j: int| 0 <= j < s.len() && s[j] as int == v;
                assert(t[0] < t[i + 1]);
                if j == 0 {
                    assert(s[0] == t[0]);
                    assert(false);
                }
                assert(s1[j - 1] as int == v);
            }
        }
        assert forall|i: int, j: int| 0 <= i < j < s1.len() implies #[trigger] s1[i] < #[trigger] s1[j] by {
            assert(s[i + 1] < s[j + 1]);
        }
        assert forall|i: int, j: int| 0 <= i < j < t1.len() implies #[trigger] t1[i] < #[trigger] t1[j] by {
            assert(t[i + 1] < t[j + 1]);
        }
        lemma_sorted_same_members(s1, t1);
        assert(s =~= seq![s[0]] + s1);
        assert(t =~= seq![t[0]] + t1);
    }
}

/// A graph has at most one layering with each level in increasing order.
pub proof fn lemma_canonical_levels(g: Seq<Seq<usize>>, levels: Seq<Seq<usize>>)
    requires
        is_layering(g, levels),
        levels_sorted(levels),
    ensures
        canonical_levels(g) == levels,
{
    let c = canonical_levels(g);
    assert(is_layering(g, c) && levels_sorted(c));
    lemma_layering_unique(g, c, levels);
    assert forall|k: int| 0 <= k < levels.len() implies #[trigger] c[k] == levels[k] by {
        assert forall|v: int| #[trigger] member(c[k], v) <==> member(levels[k], v) by {
            assert(in_level(c, k, v) <==> in_level(levels, k, v));
        }
        lemma_sorted_same_members(c[k], levels[k]);
    }
    assert(c =~= levels);
}

/// The tables below `m` at level `k` in `level_of`, in increasing order.
pub open spec fn tables_at(level_of: Seq<usize>, k: int, m: nat) -> Seq<usize>
    decreases m,
{
    if m == 0 {
        Seq::empty()
    } else {
        let rest = tables_at(level_of, k, (m - 1) as nat);
        if level_of[m - 1] as int == k { rest.push((m - 1) as usize) } else { rest }
    }
}

proof fn lemma_tables_at(level_of: Seq<usize>, k: int, m: nat)
    requires
        m <= level_of.len(),
        m <= usize::MAX,
    ensures
        forall|i: int, j: int| 0 <= i < j < tables_at(level_of, k, m).len()
            ==> #[trigger] tables_at(level_of, k, m)[i] < #[trigger] tables_at(level_of, k, m)[j],
        forall|i: int| 0 <= i < tables_at(level_of, k, m).len() ==> (#[trigger] tables_at(level_of, k, m)[i] as int) < m,
        forall|v: int| #[trigger] member(tables_at(level_of, k, m), v) <==> (0 <= v < m && level_of[v] as int == k),
    decreases m,
{
    if m > 0 {
        lemma_tables_at(level_of, k, (m - 1) as nat);
        let rest = tables_at(level_of, k, (m - 1) as nat);
        let all = tables_at(level_of, k, m);
        lemma_member_push(rest, (m - 1) as usize);
        assert forall|v: int| #[trigger] member(all, v) <==> (0 <= v < m && level_of[v] as int == k) by {
            if level_of[m - 1] as int == k {
                assert(all == rest.push((m - 1) as usize));
            } else {
                assert(all == rest);
            }
        }
    }
}

/// The contents of a list of vectors.
pub open spec fn lists_view(adj: Seq<Vec<usize>>) -> Seq<Seq<usize>> {
    adj.map_values(|l: Vec<usize>| l@)
}

/// Every link of the graph points at one of its tables.
pub open spec fn links_in_range(g: Seq<Seq<usize>>) -> bool {
    forall|u: int, i: int| 0 <= u < g.len() && 0 <= i < g[u].len() ==> (#[trigger] g[u][i] as int) < g.len()
}

/// The number of links held by the first `m` tables.
pub open spec fn edge_total(g: Seq<Seq<usize>>, m: nat) -> nat
    decreases m,
{
    if m == 0 {
        0
    } else {
        edge_total(g, (m - 1) as nat) + g[m - 1].len()
    }
}

/// Table `v` stands in level `k`.
pub open spec fn in_level(levels: Seq<Seq<usize>>, k: int, v: int) -> bool {
    0 <= k < levels.len() && member(levels[k], v)
}

/// Table `v` stands in some level.
pub open spec fn placed(levels: Seq<Seq<usize>>, v: int) -> bool {
    exists|k: int| #[trigger] in_level(levels, k, v)
}

/// `levels` layers the tables of `g`: every table stands in exactly one
/// level, each level is a non-empty list without repeats, every table that
/// links to a table stands in an earlier level than it, and each table of a
/// level after the first is linked to by a table of the level just before.
pub open spec fn is_layering(g: Seq<Seq<usize>>, levels: Seq<Seq<usize>>) -> bool {
    &&& forall|k: int| 0 <= k < levels.len() ==> (#[trigger] levels[k]).len() > 0 && levels[k].no_duplicates()
    &&& forall|k: int, i: int| 0 <= k < levels.len() && 0 <= i < levels[k].len() ==> (#[trigger] levels[k][i] as int) < g.len()
    &&& forall|v: int, k1: int, k2: int| #![trigger in_level(levels, k1, v), in_level(levels, k2, v)]
            in_level(levels, k1, v) && in_level(levels, k2, v) ==> k1 == k2
    &&& forall|v: int| 0 <= v < g.len() ==> #[trigger] placed(levels, v)
    &&& forall|u: int, v: int, k: int| #![trigger in_level(levels, k, v), is_edge(g, u, v)]
            in_level(levels, k, v) && is_edge(g, u, v) ==> exists|k2: int| k2 < k && #[trigger] in_level(levels, k2, u)
    &&& forall|v: int, k: int| #[trigger] in_level(levels, k, v) && k > 0 ==> exists|u: int| is_edge(g, u, v) && #[trigger] in_level(levels, k - 1, u)
}

/// A non-empty set of tables each of which is linked to by a table of the set.
pub open spec fn cyclic_set(g: Seq<Seq<usize>>, s: Set<int>) -> bool {
    &&& exists|v: int| s.contains(v)
    &&& forall|v: int| #[trigger] s.contains(v) ==> 0 <= v < g.len() && exists|u: int| s.contains(u) && #[trigger] is_edge(g, u, v)
}

/// The links of `g` close a cycle.
pub open spec fn has_cycle(g: Seq<Seq<usize>>) -> bool {
    exists|s: Set<int>| #[trigger] cyclic_set(g, s)
}

proof fn lemma_no_member_up_to(g: Seq<Seq<usize>>, levels: Seq<Seq<usize>>, s: Set<int>, k: int)
    requires
        is_layering(g, levels),
        cyclic_set(g, s),
    ensures
        forall|v: int, k2: int| s.contains(v) && k2 <= k ==> !#[trigger] in_level(levels, k2, v),
    decreases k + 1,
{
    if k >= 0 {
        lemma_no_member_up_to(g, levels, s, k - 1);
        assert forall|v: int, k2: int| s.contains(v) && k2 <= k implies !#[trigger] in_level(levels, k2, v) by {
            if in_level(levels, k2, v) {
                let u = choose|u: int| s.contains(u) && #[trigger] is_edge(g, u, v);
                let k3 = choose|k3: int| k3 < k2 && #[trigger] in_level(levels, k3, u);
                assert(!in_level(levels, k3, u));
            }
        }
    }
}

/// A graph that can be layered has no cycle of links.
pub proof fn lemma_layering_acyclic(g: Seq<Seq<usize>>, levels: Seq<Seq<usize>>)
    requires
        is_layering(g, levels),
    ensures
        !has_cycle(g),
{
    if has_cycle(g) {
        let s = choose|s: Set<int>| #[trigger] cyclic_set(g, s);
        let v = choose|v: int| s.contains(v);
        assert(0 <= v < g.len());
        assert(placed(levels, v));
        let k = choose|k: int| #[trigger] in_level(levels, k, v);
        lemma_no_member_up_to(g, levels, s, levels.len() as int);
        assert(!in_level(levels, k, v));
    }
}

proof fn lemma_level_le(g: Seq<Seq<usize>>, a: Seq<Seq<usize>>, b: Seq<Seq<usize>>, kb: int)
    requires
        is_layering(g, a),
        is_layering(g, b),
    ensures
        forall|v: int, ka: int| #[trigger] in_level(a, ka, v) && in_level(b, kb, v) ==> ka <= kb,
    decreases kb + 1,
{
    if kb >= 0 {
        assert forall|v: int, ka: int| #[trigger] in_level(a, ka, v) && in_level(b, kb, v) implies ka <= kb by {
            if ka > 0 {
                let u = choose|u: int| is_edge(g, u, v) && #[trigger] in_level(a, ka - 1, u);
                let kb2 = choose|kb2: int| kb2 < kb && #[trigger] in_level(b, kb2, u);
                lemma_level_le(g, a, b, kb2);
                assert(ka - 1 <= kb2);
            }
        }
    }
}

/// The layering of a graph is unique up to the order within each level:
/// two layerings put every table in the same level.
pub proof fn lemma_layering_unique(g: Seq<Seq<usize>>, a: Seq<Seq<usize>>, b: Seq<Seq<usize>>)
    requires
        is_layering(g, a),
        is_layering(g, b),
    ensures
        a.len() == b.len(),
        forall|v: int, k: int| in_level(a, k, v) <==> #[trigger] in_level(b, k, v),
{
    assert forall|v: int, k: int| in_level(a, k, v) <==> #[trigger] in_level(b, k, v) by {
        if in_level(a, k, v) {
            assert(placed(b, v));
            let kb = choose|kb: int| #[trigger] in_level(b, kb, v);
            lemma_level_le(g, a, b, kb);
            lemma_level_le(g, b, a, k);
        }
        if in_level(b, k, v) {
            assert(placed(a, v));
            let ka = choose|ka: int| #[trigger] in_level(a, ka, v);
            lemma_level_le(g, a, b, k);
            lemma_level_le(g, b, a, ka);
        }
    }
    assert(a.len() == b.len()) by {
        if a.len() > 0 {
            let w = a[a.len() - 1][0] as int;
            assert(in_level(a, a.len() - 1, w));
            assert(in_level(b, a.len() - 1, w));
        }
        if b.len() > 0 {
            let w = b[b.len() - 1][0] as int;
            assert(in_level(b, b.len() - 1, w));
            assert(in_level(a, b.len() - 1, w));
        }
    }
}


/// Every table of `order` has each table linking to it earlier in `order`,
/// at a lower level.
spec fn preds_placed(g: Seq<Seq<usize>>, order: Seq<usize>, lv: Seq<int>) -> bool {
    forall|u: int, w: int| #![trigger is_edge(g, u, w), member(order, w)]
        member(order, w) && is_edge(g, u, w) ==> member(order, u) && lv[u] < lv[w]
}

/// Every table of `order` above level zero is linked to by a table of
/// `order` one level below it.
spec fn pred_below(g: Seq<Seq<usize>>, order: Seq<usize>, lv: Seq<int>) -> bool {
    forall|w: int| #[trigger] member(order, w) && lv[w] > 0 ==> exists|u: int|
        member(order, u) && #[trigger] is_edge(g, u, w) && lv[u] == lv[w] - 1
}

/// `deg` counts the links into each table from tables outside `done`, plus
/// the links of `extra` still to be taken off.
spec fn degrees(g: Seq<Seq<usize>>, deg: Seq<usize>, done: Set<int>, extra: Seq<usize>) -> bool {
    &&& deg.len() == g.len()
    &&& forall|v: int| 0 <= v < g.len() ==> #[trigger] deg[v] == remaining(g, done, v, g.len()) + seq_count(extra, v)
}

/// `order` holds, without repeats, exactly the tables whose count is zero.
spec fn queued(g: Seq<Seq<usize>>, order: Seq<usize>, deg: Seq<usize>) -> bool {
    &&& order.no_duplicates()
    &&& forall|i: int| 0 <= i < order.len() ==> (#[trigger] order[i] as int) < g.len()
    &&& forall|v: int| 0 <= v < g.len() ==> (#[trigger] member(order, v) <==> deg[v] == 0)
}

/// The positions of `order` before `start` are in levels below `l`, those up
/// to `end` in level `l`, and the rest in level `l + 1`.
spec fn banded(n: nat, order: Seq<usize>, lv: Seq<int>, l: int, start: int, end: int) -> bool {
    &&& 0 <= start <= end <= order.len()
    &&& lv.len() == n
    &&& forall|p: int| 0 <= p < start ==> 0 <= #[trigger] lv[order[p] as int] < l
    &&& forall|p: int| start <= p < end ==> #[trigger] lv[order[p] as int] == l
    &&& forall|p: int| end <= p < order.len() ==> #[trigger] lv[order[p] as int] == l + 1
}

/// The finished levels hold the positions of `order` before `start`, each
/// table in the level `lv` gives it.
spec fn levels_built(order: Seq<usize>, lv: Seq<int>, levels: Seq<Seq<usize>>, start: int) -> bool {
    &&& forall|k: int| 0 <= k < levels.len() ==> (#[trigger] levels[k]).len() > 0 && levels[k].no_duplicates()
    &&& forall|k: int, i: int| 0 <= k < levels.len() && 0 <= i < levels[k].len() ==>
            lv[#[trigger] levels[k][i] as int] == k && member(order, levels[k][i] as int)
    &&& forall|p: int| 0 <= p < start ==> member(levels[lv[#[trigger] order[p] as int]], order[p] as int)
}

proof fn lemma_member_push(s: Seq<usize>, x: usize)
    ensures
        forall|v: int| #[trigger] member(s.push(x), v) <==> member(s, v) || v == x as int,
{
    assert forall|v: int| #[trigger] member(s.push(x), v) <==> member(s, v) || v == x as int by {
        if member(s.push(x), v) {
            let i = choose|i: int| 0 <= i < s.push(x).len() && s.push(x)[i] as int == v;
            if i < s.len() {
                assert(s[i] as int == v);
            }
        }
        if member(s, v) {
            let i = choose|i: int| 0 <= i < s.len() && s[i] as int == v;
            assert(s.push(x)[i] as int == v);
        }
        if v == x as int {
            assert(s.push(x)[s.len() as int] as int == v);
        }
    }
}

proof fn lemma_member_at(s: Seq<usize>, p: int)
    requires
        0 <= p < s.len(),
    ensures
        member(s, s[p] as int),
{
}

proof fn lemma_count_le(s: Seq<usize>, v: int)
    ensures
        seq_count(s, v) <= s.len(),
    decreases s.len(),
{
    if s.len() > 0 {
        lemma_count_le(s.drop_last(), v);
    }
}

proof fn lemma_count_step(s: Seq<usize>, j: int, v: int)
    requires
        0 <= j < s.len(),
    ensures
        seq_count(s.subrange(j, s.len() as int), v)
            == seq_count(s.subrange(j + 1, s.len() as int), v) + (if s[j] as int == v { 1nat } else { 0nat }),
{
    lemma_count_first(s.subrange(j, s.len() as int), v);
    assert(s.subrange(j, s.len() as int).drop_first() =~= s.subrange(j + 1, s.len() as int));
}

proof fn lemma_count_take(s: Seq<usize>, j: int, v: int)
    requires
        0 <= j < s.len(),
    ensures
        seq_count(s.take(j + 1), v) == seq_count(s.take(j), v) + (if s[j] as int == v { 1nat } else { 0nat }),
{
    assert(s.take(j + 1).drop_last() =~= s.take(j));
}

proof fn lemma_remaining_le(g: Seq<Seq<usize>>, v: int, m: nat)
    requires
        m <= g.len(),
    ensures
        remaining(g, Set::<int>::empty(), v, m) <= edge_total(g, m),
    decreases m,
{
    if m > 0 {
        lemma_remaining_le(g, v, (m - 1) as nat);
        lemma_count_le(g[m - 1], v);
    }
}

proof fn lemma_edge_total_mono(g: Seq<Seq<usize>>, a: nat, b: nat)
    requires
        a <= b <= g.len(),
    ensures
        edge_total(g, a) <= edge_total(g, b),
    decreases b,
{
    if a < b {
        lemma_edge_total_mono(g, a, (b - 1) as nat);
    }
}

proof fn lemma_prefix_next(order: Seq<usize>, k: int)
    requires
        0 <= k < order.len(),
    ensures
        prefix_set(order, k + 1) == prefix_set(order, k).insert(order[k] as int),
        !prefix_set(order, k).contains(order[k] as int) <== order.no_duplicates(),
{
    assert(prefix_set(order, k + 1) =~= prefix_set(order, k).insert(order[k] as int)) by {
        assert forall|x: int| prefix_set(order, k + 1).contains(x) implies prefix_set(order, k).insert(order[k] as int).contains(x) by {
            let i = choose|i: int| 0 <= i < k + 1 && order[i] as int == x;
            if i < k {
                assert(prefix_set(order, k).contains(x));
            }
        }
        assert forall|x: int| prefix_set(order, k).insert(order[k] as int).contains(x) implies prefix_set(order, k + 1).contains(x) by {
            if x == order[k] as int {
                assert(0 <= k < k + 1 && order[k] as int == x);
            } else {
                let i = choose|i: int| 0 <= i < k && order[i] as int == x;
                assert(0 <= i < k + 1 && order[i] as int == x);
            }
        }
    }
    if order.no_duplicates() && prefix_set(order, k).contains(order[k] as int) {
        let i = choose|i: int| 0 <= i < k && order[i] as int == order[k] as int;
        assert(order[i] == order[k]);
    }
}


proof fn lemma_prefix_push(order: Seq<usize>, v: usize, k: int)
    requires
        0 <= k <= order.len(),
    ensures
        prefix_set(order.push(v), k) == prefix_set(order, k),
{
    assert(prefix_set(order.push(v), k) =~= prefix_set(order, k)) by {
        assert forall|x: int| prefix_set(order.push(v), k).contains(x) implies prefix_set(order, k).contains(x) by {
            let i = choose|i: int| 0 <= i < k && order.push(v)[i] as int == x;
            assert(order[i] as int == x);
        }
        assert forall|x: int| prefix_set(order, k).contains(x) implies prefix_set(order.push(v), k).contains(x) by {
            let i = choose|i: int| 0 <= i < k && order[i] as int == x;
            assert(order.push(v)[i] as int == x);
        }
    }
}

proof fn lemma_enqueue(
    g: Seq<Seq<usize>>,
    order: Seq<usize>,
    deg: Seq<usize>,
    lv: Seq<int>,
    levels: Seq<Seq<usize>>,
    l: int,
    start: int,
    end: int,
    head: int,
    j: int,
    v: usize,
)
    requires
        links_in_range(g),
        order.no_duplicates(),
        forall|i: int| 0 <= i < order.len() ==> (#[trigger] order[i] as int) < g.len(),
        forall|x: int| 0 <= x < g.len() && x != v as int ==> (#[trigger] member(order, x) <==> deg[x] == 0),
        !member(order, v as int),
        (v as int) < g.len(),
        deg[v as int] == 0,
        degrees(g, deg, prefix_set(order, head + 1), g[order[head] as int].subrange(j + 1, g[order[head] as int].len() as int)),
        preds_placed(g, order, lv),
        pred_below(g, order, lv),
        banded(g.len(), order, lv, l, start, end),
        levels_built(order, lv, levels, start),
        start <= head < end,
        0 <= j < g[order[head] as int].len(),
        g[order[head] as int][j] == v,
    ensures
        queued(g, order.push(v), deg),
        preds_placed(g, order.push(v), lv.update(v as int, l + 1)),
        pred_below(g, order.push(v), lv.update(v as int, l + 1)),
        banded(g.len(), order.push(v), lv.update(v as int, l + 1), l, start, end),
        levels_built(order.push(v), lv.update(v as int, l + 1), levels, start),
        order.push(v).len() <= g.len(),
{
    let n = g.len();
    let o2 = order.push(v);
    let lv2 = lv.update(v as int, l + 1);
    let u = order[head] as int;
    lemma_member_push(order, v);
    assert(o2.no_duplicates()) by {
        assert forall|a: int, b: int| 0 <= a < o2.len() && 0 <= b < o2.len() && a != b implies o2[a] != o2[b] by {
            if a < order.len() && b < order.len() {
                assert(order[a] != order[b]);
            } else if a < order.len() {
                lemma_member_at(order, a);
            } else {
                lemma_member_at(order, b);
            }
        }
    }
    assert forall|p: int| 0 <= p < order.len() implies #[trigger] order[p] as int != v as int by {
        lemma_member_at(order, p);
    }
    // Every table linking to `v` is among the first `head + 1` of `order`.
    assert(remaining(g, prefix_set(order, head + 1), v as int, n) == 0) by {
        assert(deg[v as int] == remaining(g, prefix_set(order, head + 1), v as int, n)
            + seq_count(g[u].subrange(j + 1, g[u].len() as int), v as int));
    }
    lemma_remaining_zero(g, prefix_set(order, head + 1), v as int, n);
    assert forall|x: int| #[trigger] is_edge(g, x, v as int) implies member(order, x) && lv[x] <= l by {
        assert(prefix_set(order, head + 1).contains(x));
        let i = choose|i: int| 0 <= i < head + 1 && order[i] as int == x;
        lemma_member_at(order, i);
        assert(lv[order[i] as int] <= l);
    }
    assert(queued(g, o2, deg)) by {
        assert forall|i: int| 0 <= i < o2.len() implies (#[trigger] o2[i] as int) < g.len() by {
            if i < order.len() {
                assert(o2[i] == order[i]);
            }
        }
    }
    assert(preds_placed(g, o2, lv2)) by {
        assert forall|x: int, w: int| #![trigger is_edge(g, x, w), member(o2, w)]
            member(o2, w) && is_edge(g, x, w) implies member(o2, x) && lv2[x] < lv2[w] by {
            if w == v as int {
                assert(member(order, x));
            } else {
                assert(member(order, w));
                assert(member(order, x) && lv[x] < lv[w]);
            }
        }
    }
    assert(pred_below(g, o2, lv2)) by {
        assert forall|w: int| #[trigger] member(o2, w) && lv2[w] > 0 implies exists|x: int|
            member(o2, x) && #[trigger] is_edge(g, x, w) && lv2[x] == lv2[w] - 1 by {
            if w == v as int {
                lemma_member_at(order, head);
                assert(g[u][j] as int == v as int);
                assert(member(g[u], v as int));
                assert(is_edge(g, u, w));
                assert(lv[order[head] as int] == l);
                assert(member(o2, u) && is_edge(g, u, w) && lv2[u] == lv2[w] - 1);
            } else {
                assert(member(order, w));
                let x = choose|x: int| member(order, x) && #[trigger] is_edge(g, x, w) && lv[x] == lv[w] - 1;
                assert(member(o2, x) && is_edge(g, x, w) && lv2[x] == lv2[w] - 1);
            }
        }
    }
    assert(banded(n, o2, lv2, l, start, end)) by {
        assert forall|p: int| 0 <= p < start implies 0 <= #[trigger] lv2[o2[p] as int] < l by {
            assert(o2[p] == order[p]);
            assert(order[p] as int != v as int);
        }
        assert forall|p: int| start <= p < end implies #[trigger] lv2[o2[p] as int] == l by {
            assert(o2[p] == order[p]);
            assert(order[p] as int != v as int);
        }
        assert forall|p: int| end <= p < o2.len() implies #[trigger] lv2[o2[p] as int] == l + 1 by {
            if p < order.len() {
                assert(o2[p] == order[p]);
                assert(order[p] as int != v as int);
            }
        }
    }
    assert(levels_built(o2, lv2, levels, start)) by {
        assert forall|k: int, i: int| 0 <= k < levels.len() && 0 <= i < levels[k].len() implies
            lv2[#[trigger] levels[k][i] as int] == k && member(o2, levels[k][i] as int) by {
            assert(member(order, levels[k][i] as int));
        }
        assert forall|p: int| 0 <= p < start implies member(levels[lv2[#[trigger] o2[p] as int]], o2[p] as int) by {
            assert(o2[p] == order[p]);
            assert(order[p] as int != v as int);
            assert(member(levels[lv[order[p] as int]], order[p] as int));
        }
    }
    lemma_pigeonhole(o2, n);
}


proof fn lemma_finish_layering(g: Seq<Seq<usize>>, order: Seq<usize>, deg: Seq<usize>, lv: Seq<int>, levels: Seq<Seq<usize>>)
    requires
        queued(g, order, deg),
        order.len() == g.len(),
        preds_placed(g, order, lv),
        pred_below(g, order, lv),
        banded(g.len(), order, lv, levels.len() as int, order.len() as int, order.len() as int),
        levels_built(order, lv, levels, order.len() as int),
    ensures
        is_layering(g, levels),
        forall|x: int, k: int| #[trigger] in_level(levels, k, x) <==> (0 <= x < g.len() && lv[x] == k),
{
    let n = g.len();
    lemma_pigeonhole(order, n);
    // A table of `order` stands in the level that `lv` gives it.
    assert forall|x: int| #[trigger] member(order, x) implies in_level(levels, lv[x], x) by {
        let p = choose|p: int| 0 <= p < order.len() && order[p] as int == x;
        assert(member(levels[lv[order[p] as int]], order[p] as int));
        assert(0 <= lv[order[p] as int] < levels.len());
    }
    assert forall|x: int, k: int| #[trigger] in_level(levels, k, x) implies lv[x] == k && member(order, x) by {
        let i = choose|i: int| 0 <= i < levels[k].len() && levels[k][i] as int == x;
        assert(lv[levels[k][i] as int] == k && member(order, levels[k][i] as int));
    }
    assert forall|x: int, k: int| #[trigger] in_level(levels, k, x) <==> (0 <= x < g.len() && lv[x] == k) by {
        if in_level(levels, k, x) {
            let p = choose|p: int| 0 <= p < order.len() && order[p] as int == x;
        }
        if 0 <= x < g.len() && lv[x] == k {
            assert(member(order, x));
            assert(in_level(levels, lv[x], x));
        }
    }
    assert forall|k: int, i: int| 0 <= k < levels.len() && 0 <= i < levels[k].len() implies (#[trigger] levels[k][i] as int) < g.len() by {
        assert(member(order, levels[k][i] as int));
        let p = choose|p: int| 0 <= p < order.len() && order[p] as int == levels[k][i] as int;
    }
    assert forall|v: int| 0 <= v < g.len() implies #[trigger] placed(levels, v) by {
        assert(member(order, v));
        assert(in_level(levels, lv[v], v));
    }
    assert forall|u: int, v: int, k: int| #![trigger in_level(levels, k, v), is_edge(g, u, v)]
        in_level(levels, k, v) && is_edge(g, u, v) implies exists|k2: int| k2 < k && #[trigger] in_level(levels, k2, u) by {
        assert(member(order, v));
        assert(member(order, u) && lv[u] < lv[v]);
        assert(in_level(levels, lv[u], u));
    }
    assert forall|v: int, k: int| #[trigger] in_level(levels, k, v) && k > 0 implies exists|u: int| is_edge(g, u, v) && #[trigger] in_level(levels, k - 1, u) by {
        assert(member(order, v) && lv[v] == k);
        let u = choose|u: int| member(order, u) && #[trigger] is_edge(g, u, v) && lv[u] == lv[v] - 1;
        assert(in_level(levels, lv[u], u));
    }
}

proof fn lemma_finish_cycle(g: Seq<Seq<usize>>, order: Seq<usize>, deg: Seq<usize>)
    requires
        queued(g, order, deg),
        order.len() < g.len(),
        degrees(g, deg, prefix_set(order, order.len() as int), Seq::empty()),
    ensures
        has_cycle(g),
{
    let n = g.len();
    let s = Set::new(|v: int| 0 <= v < n && !member(order, v));
    lemma_pigeonhole(order, n);
    assert(!(forall|v: int| 0 <= v < n ==> #[trigger] member(order, v)));
    let w = choose|v: int| !(0 <= v < n ==> #[trigger] member(order, v));
    assert(s.contains(w));
    assert forall|v: int| #[trigger] s.contains(v) implies 0 <= v < g.len() && exists|u: int| s.contains(u) && #[trigger] is_edge(g, u, v) by {
        assert(deg[v] != 0);
        assert(seq_count(Seq::<usize>::empty(), v) == 0);
        lemma_remaining_zero(g, prefix_set(order, order.len() as int), v, n);
        let u = choose|u: int| 0 <= u < n && !prefix_set(order, order.len() as int).contains(u) && is_edge(g, u, v);
        if member(order, u) {
            let i = choose|i: int| 0 <= i < order.len() && order[i] as int == u;
            assert(prefix_set(order, order.len() as int).contains(u));
        }
        assert(s.contains(u));
    }
    assert(cyclic_set(g, s));
}


/// The levels gathered by scanning the tables in order, from the level each
/// table was placed at, are a layering too, each level in increasing order.
proof fn lemma_same_layering(g: Seq<Seq<usize>>, layered: Seq<Seq<usize>>, sorted: Seq<Seq<usize>>, level_of: Seq<usize>, lv: Seq<int>)
    requires
        is_layering(g, layered),
        forall|x: int, k: int| #[trigger] in_level(layered, k, x) <==> (0 <= x < g.len() && lv[x] == k),
        g.len() <= usize::MAX,
        level_of.len() == g.len(),
        forall|x: int| 0 <= x < g.len() ==> level_of[x] as int == lv[x],
        sorted.len() == layered.len(),
        forall|k: int| 0 <= k < sorted.len() ==> #[trigger] sorted[k] == tables_at(level_of, k, g.len()),
    ensures
        is_layering(g, sorted),
        levels_sorted(sorted),
{
    let n = g.len();
    assert forall|k: int| 0 <= k < sorted.len() implies
        #[trigger] sorted[k] == tables_at(level_of, k, n)
        && (forall|v: int| #[trigger] member(sorted[k], v) <==> (0 <= v < n && level_of[v] as int == k))
        && (forall|i: int, j: int| 0 <= i < j < sorted[k].len() ==> #[trigger] sorted[k][i] < #[trigger] sorted[k][j])
        && (forall|i: int| 0 <= i < sorted[k].len() ==> (#[trigger] sorted[k][i] as int) < n) by {
        lemma_tables_at(level_of, k, n);
    }
    assert forall|x: int, k: int| #[trigger] in_level(sorted, k, x) <==> in_level(layered, k, x) by {
        if 0 <= k < sorted.len() {
            assert(member(sorted[k], x) <==> (0 <= x < n && level_of[x] as int == k));
        }
    }
    assert forall|k: int| 0 <= k < sorted.len() implies (#[trigger] sorted[k]).len() > 0 && sorted[k].no_duplicates() by {
        let w = layered[k][0] as int;
        assert(in_level(layered, k, w));
        assert(in_level(sorted, k, w));
        assert forall|a: int, b: int| 0 <= a < sorted[k].len() && 0 <= b < sorted[k].len() && a != b implies sorted[k][a] != sorted[k][b] by {
            if a < b {
                assert(sorted[k][a] < sorted[k][b]);
            } else {
                assert(sorted[k][b] < sorted[k][a]);
            }
        }
    }
    assert forall|v: int| 0 <= v < g.len() implies #[trigger] placed(sorted, v) by {
        assert(placed(layered, v));
        let k = choose|k: int| #[trigger] in_level(layered, k, v);
        assert(in_level(sorted, k, v));
    }
    assert forall|u: int, v: int, k: int| #![trigger in_level(sorted, k, v), is_edge(g, u, v)]
        in_level(sorted, k, v) && is_edge(g, u, v) implies exists|k2: int| k2 < k && #[trigger] in_level(sorted, k2, u) by {
        assert(in_level(layered, k, v));
        let k2 = choose|k2: int| k2 < k && #[trigger] in_level(layered, k2, u);
        assert(in_level(sorted, k2, u));
    }
    assert forall|v: int, k: int| #[trigger] in_level(sorted, k, v) && k > 0 implies exists|u: int| is_edge(g, u, v) && #[trigger] in_level(sorted, k - 1, u) by {
        assert(in_level(layered, k, v));
        let u = choose|u: int| is_edge(g, u, v) && #[trigger] in_level(layered, k - 1, u);
        assert(in_level(sorted, k - 1, u));
    }
    assert forall|v: int, k1: int, k2: int| #![trigger in_level(sorted, k1, v), in_level(sorted, k2, v)]
        in_level(sorted, k1, v) && in_level(sorted, k2, v) implies k1 == k2 by {
        assert(in_level(layered, k1, v) && in_level(layered, k2, v));
    }
}

/// For each table, the number of links into it.
fn link_counts(adj: &Vec<Vec<usize>>) -> (deg: Vec<usize>)
    requires
        links_in_range(lists_view(adj@)),
        edge_total(lists_view(adj@), adj.len() as nat) <= usize::MAX,
    ensures
        degrees(lists_view(adj@), deg@, Set::<int>::empty(), Seq::<usize>::empty()),
{
    let ghost g = lists_view(adj@);
    let n = adj.len();
    let mut deg: Vec<usize> = Vec::new();
    let mut i: usize = 0;
    while i < n
        invariant
            i <= n,
            deg@.len() == i,
            forall|x: int| 0 <= x < i ==> #[trigger] deg@[x] == 0,
        decreases n - i,
    {
        deg.push(0);
        i += 1;
    }
    let mut u: usize = 0;
    while u < n
        invariant
            g == lists_view(adj@),
            n == adj.len(),
            u <= n,
            deg@.len() == n,
            links_in_range(g),
            edge_total(g, n as nat) <= usize::MAX,
            forall|x: int| 0 <= x < n ==> #[trigger] deg@[x] == remaining(g, Set::<int>::empty(), x, u as nat),
        decreases n - u,
    {
        let list = &adj[u];
        assert(list@ == g[u as int]);
        let mut j: usize = 0;
        while j < list.len()
            invariant
                g == lists_view(adj@),
                n == adj.len(),
                u < n,
                list@ == g[u as int],
                j <= list.len(),
                deg@.len() == n,
                links_in_range(g),
                edge_total(g, n as nat) <= usize::MAX,
                forall|x: int| 0 <= x < n ==> #[trigger] deg@[x]
                    == remaining(g, Set::<int>::empty(), x, u as nat) + seq_count(list@.take(j as int), x),
            decreases list.len() - j,
        {
            let v = list[j];
            assert((v as int) < n);
            proof {
                lemma_remaining_le(g, v as int, u as nat);
                lemma_count_le(list@.take(j as int), v as int);
                lemma_edge_total_mono(g, (u + 1) as nat, n as nat);
            }
            let d = deg[v] + 1;
            deg.set(v, d);
            proof {
                assert forall|x: int| 0 <= x < n implies #[trigger] deg@[x]
                    == remaining(g, Set::<int>::empty(), x, u as nat) + seq_count(list@.take(j + 1), x) by {
                    lemma_count_take(list@, j as int, x);
                }
            }
            j += 1;
        }
        assert(list@.take(list.len() as int) =~= list@);
        u += 1;
    }
    deg
}

/// Layers the tables of a link graph: `adj[u]` lists the tables that table
/// `u` links to. A table comes in a level after every table that links to
/// it, and each level is taken off as a whole before the next (Kahn's
/// algorithm); `None` when the links close a cycle.
#[verifier::spinoff_prover]
#[verifier::rlimit(40)]
pub fn load_levels(adj: &Vec<Vec<usize>>) -> (r: Option<Vec<Vec<usize>>>)
    requires
        links_in_range(lists_view(adj@)),
        edge_total(lists_view(adj@), adj.len() as nat) <= usize::MAX,
    ensures
        match r {
            Some(levels) => is_layering(lists_view(adj@), lists_view(levels@)) && levels_sorted(lists_view(levels@)),
            None => has_cycle(lists_view(adj@)),
        },
{
    let ghost g = lists_view(adj@);
    let n = adj.len();
    let mut deg = link_counts(adj);
    let mut order: Vec<usize> = Vec::new();
    let mut x: usize = 0;
    while x < n
        invariant
            g == lists_view(adj@),
            n == adj.len(),
            x <= n,
            deg@.len() == n,
            forall|a: int, b: int| 0 <= a < b < order@.len() ==> order@[a] < order@[b],
            forall|i: int| 0 <= i < order@.len() ==> order@[i] < x,
            forall|v: int| 0 <= v < x ==> (#[trigger] member(order@, v) <==> deg@[v] == 0),
        decreases n - x,
    {
        proof {
            lemma_member_push(order@, x);
        }
        if deg[x] == 0 {
            order.push(x);
        }
        proof {
            assert forall|v: int| x < v < n implies !member(order@, v) by {
                if member(order@, v) {
                    let i = choose|i: int| 0 <= i < order@.len() && order@[i] as int == v;
                }
            }
        }
        x += 1;
    }
    let ghost mut lv: Seq<int> = Seq::new(n as nat, |i: int| 0int);
    let mut level_of: Vec<usize> = Vec::new();
    let mut z: usize = 0;
    while z < n
        invariant
            z <= n,
            level_of@.len() == z,
            forall|v: int| 0 <= v < z ==> #[trigger] level_of@[v] == 0,
        decreases n - z,
    {
        level_of.push(0);
        z += 1;
    }
    proof {
        assert(order@.no_duplicates()) by {
            assert forall|a: int, b: int| 0 <= a < order@.len() && 0 <= b < order@.len() && a != b implies order@[a] != order@[b] by {
                if a < b {
                    assert(order@[a] < order@[b]);
                } else {
                    assert(order@[b] < order@[a]);
                }
            }
        }
        assert(queued(g, order@, deg@));
        assert(prefix_set(order@, 0) =~= Set::<int>::empty());
        assert forall|v: int| 0 <= v < n implies #[trigger] deg@[v] == remaining(g, prefix_set(order@, 0), v, n as nat) + seq_count(Seq::<usize>::empty(), v) by {
        }
        assert(preds_placed(g, order@, lv)) by {
            assert forall|u: int, w: int| #![trigger is_edge(g, u, w), member(order@, w)]
                member(order@, w) && is_edge(g, u, w) implies member(order@, u) && lv[u] < lv[w] by {
                let i = choose|i: int| 0 <= i < order@.len() && order@[i] as int == w;
                assert(0 <= w < n);
                assert(deg@[w] == 0);
                assert(deg@[w] == remaining(g, Set::<int>::empty(), w, n as nat) + seq_count(Seq::<usize>::empty(), w));
                assert(seq_count(Seq::<usize>::empty(), w) == 0);
                assert(remaining(g, Set::<int>::empty(), w, n as nat) == 0);
                lemma_remaining_zero(g, Set::<int>::empty(), w, n as nat);
                assert(!Set::<int>::empty().contains(u));
                assert(0 <= u < n);
                assert(!is_edge(g, u, w));
            }
        }
        lemma_pigeonhole(order@, n as nat);
    }
    let mut levels: Vec<Vec<usize>> = Vec::new();
    let mut head: usize = 0;
    while head < order.len()
        invariant
            g == lists_view(adj@),
            n == adj.len(),
            links_in_range(g),
            head <= order@.len() <= n,
            queued(g, order@, deg@),
            degrees(g, deg@, prefix_set(order@, head as int), Seq::<usize>::empty()),
            preds_placed(g, order@, lv),
            pred_below(g, order@, lv),
            banded(n as nat, order@, lv, levels@.len() as int, head as int, order@.len() as int),
            levels_built(order@, lv, lists_view(levels@), head as int),
            level_of@.len() == n,
            forall|v: int| 0 <= v < n && #[trigger] member(order@, v) ==> level_of@[v] as int == lv[v],
            levels@.len() <= head,
        decreases n - head,
    {
        let level_end = order.len();
        let next = levels.len() + 1;
        let ghost start = head as int;
        let ghost l = levels@.len() as int;
        let mut current: Vec<usize> = Vec::new();
        while head < level_end
            invariant
                g == lists_view(adj@),
                n == adj.len(),
                links_in_range(g),
                start <= head <= level_end <= order@.len() <= n,
                l == levels@.len(),
                queued(g, order@, deg@),
                degrees(g, deg@, prefix_set(order@, head as int), Seq::<usize>::empty()),
                preds_placed(g, order@, lv),
                pred_below(g, order@, lv),
                banded(n as nat, order@, lv, l, start, level_end as int),
                levels_built(order@, lv, lists_view(levels@), start),
                current@ =~= order@.subrange(start, head as int),
                level_of@.len() == n,
                forall|v: int| 0 <= v < n && #[trigger] member(order@, v) ==> level_of@[v] as int == lv[v],
                l <= start,
                start < level_end,
                next == l + 1,
            decreases level_end - head,
        {
            let u = order[head];
            let list = &adj[u];
            assert(list@ == g[u as int]);
            proof {
                lemma_prefix_next(order@, head as int);
                assert(list@.subrange(0, list@.len() as int) =~= list@);
                assert forall|v: int| 0 <= v < n implies #[trigger] deg@[v]
                    == remaining(g, prefix_set(order@, head + 1), v, n as nat) + seq_count(list@.subrange(0, list@.len() as int), v) by {
                    lemma_remaining_remove(g, prefix_set(order@, head as int), v, n as nat, u as int);
                }
            }
            let mut j: usize = 0;
            while j < list.len()
                invariant
                    g == lists_view(adj@),
                    n == adj.len(),
                    links_in_range(g),
                    start <= head < level_end <= order@.len() <= n,
                    u == order@[head as int],
                    list@ == g[u as int],
                    j <= list.len(),
                    l == levels@.len(),
                    queued(g, order@, deg@),
                    degrees(g, deg@, prefix_set(order@, head + 1), list@.subrange(j as int, list@.len() as int)),
                    preds_placed(g, order@, lv),
                    pred_below(g, order@, lv),
                    banded(n as nat, order@, lv, l, start, level_end as int),
                    levels_built(order@, lv, lists_view(levels@), start),
                    current@ =~= order@.subrange(start, head as int),
                    level_of@.len() == n,
                    forall|v: int| 0 <= v < n && #[trigger] member(order@, v) ==> level_of@[v] as int == lv[v],
                    next == l + 1,
                decreases list.len() - j,
            {
                let v = list[j];
                proof {
                    assert((v as int) < n);
                    assert forall|y: int| 0 <= y < n implies #[trigger] deg@[y]
                        == remaining(g, prefix_set(order@, head + 1), y, n as nat)
                            + seq_count(list@.subrange(j + 1, list@.len() as int), y)
                            + (if list@[j as int] as int == y { 1nat } else { 0nat }) by {
                        lemma_count_step(list@, j as int, y);
                    }
                    assert(deg@[v as int] > 0);
                }
                let d = deg[v] - 1;
                deg.set(v, d);
                if d == 0 {
                    proof {
                        lemma_enqueue(g, order@, deg@, lv, lists_view(levels@), l, start, level_end as int, head as int, j as int, v);
                        assert(order@.push(v).subrange(start, head as int) =~= order@.subrange(start, head as int));
                        lemma_prefix_push(order@, v, head as int + 1);
                    }
                    let ghost before = order@;
                    order.push(v);
                    level_of.set(v, next);
                    proof {
                        lv = lv.update(v as int, l + 1);
                        lemma_member_push(before, v);
                        assert forall|x: int| 0 <= x < n && #[trigger] member(order@, x) implies level_of@[x] as int == lv[x] by {
                            if x != v as int {
                                assert(member(before, x));
                            }
                        }
                    }
                } else {
                    proof {
                        assert(!member(order@, v as int));
                    }
                }
                j += 1;
            }
            proof {
                assert(list@.subrange(list@.len() as int, list@.len() as int) =~= Seq::<usize>::empty());
            }
            current.push(u);
            head += 1;
        }
        proof {
            let lvls = lists_view(levels@);
            let lvls2 = lists_view(levels@.push(current));
            assert(lvls2 =~= lvls.push(current@));
            assert forall|i: int| 0 <= i < current@.len() implies #[trigger] current@[i] == order@[start + i] by {}
            assert(current@.len() > 0);
            assert(current@.no_duplicates()) by {
                assert forall|a: int, b: int| 0 <= a < current@.len() && 0 <= b < current@.len() && a != b implies current@[a] != current@[b] by {
                    assert(order@[start + a] != order@[start + b]);
                }
            }
            assert forall|i: int| 0 <= i < current@.len() implies
                lv[#[trigger] current@[i] as int] == l && member(order@, current@[i] as int) by {
                lemma_member_at(order@, start + i);
            }
            assert forall|p: int| 0 <= p < level_end implies member(lvls2[lv[#[trigger] order@[p] as int]], order@[p] as int) by {
                if p >= start {
                    assert(current@[p - start] == order@[p]);
                    assert(member(current@, order@[p] as int));
                }
            }
        }
        levels.push(current);
    }
    if order.len() == n {
        proof {
            lemma_finish_layering(g, order@, deg@, lv, lists_view(levels@));
            lemma_pigeonhole(order@, n as nat);
        }
        let ghost layered = lists_view(levels@);
        let mut sorted: Vec<Vec<usize>> = Vec::new();
        let mut k: usize = 0;
        while k < levels.len()
            invariant
                k <= levels@.len(),
                n == adj.len(),
                level_of@.len() == n,
                sorted@.len() == k,
                forall|kk: int| 0 <= kk < k ==> (#[trigger] sorted@[kk])@ == tables_at(level_of@, kk, n as nat),
            decreases levels.len() - k,
        {
            let mut level: Vec<usize> = Vec::new();
            let mut v: usize = 0;
            while v < n
                invariant
                    v <= n,
                    level_of@.len() == n,
                    level@ == tables_at(level_of@, k as int, v as nat),
                decreases n - v,
            {
                if level_of[v] == k {
                    level.push(v);
                }
                v += 1;
            }
            sorted.push(level);
            k += 1;
        }
        proof {
            let sv = lists_view(sorted@);
            assert forall|k: int| 0 <= k < sv.len() implies #[trigger] sv[k] == tables_at(level_of@, k, n as nat) by {
                assert(sv[k] == sorted@[k]@);
            }
            assert forall|x: int| 0 <= x < n implies level_of@[x] as int == lv[x] by {
                assert(member(order@, x));
            }
            lemma_same_layering(g, layered, sv, level_of@, lv);
        }
        Some(sorted)
    } else {
        proof {
            lemma_pigeonhole(order@, n as nat);
            lemma_finish_cycle(g, order@, deg@);
        }
        None
    }
}

} // verus!
