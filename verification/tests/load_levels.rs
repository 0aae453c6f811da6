use spire_codegen::dependency::load_levels;

fn sorted_levels(levels: Vec<Vec<usize>>) -> Vec<Vec<usize>> {
    levels
        .into_iter()
        .map(|mut l| {
            l.sort();
            l
        })
        .collect()
}

#[test]
fn chain_is_layered_in_link_order() {
    // 0 links to 1, 1 links to 2: a table comes after the tables linking to it.
    let levels = load_levels(&vec![vec![1], vec![2], vec![]]).unwrap();
    assert_eq!(levels, vec![vec![0], vec![1], vec![2]]);
}

#[test]
fn diamond_shares_a_level() {
    let levels = load_levels(&vec![vec![1, 2], vec![3], vec![3], vec![]]).unwrap();
    assert_eq!(sorted_levels(levels), vec![vec![0], vec![1, 2], vec![3]]);
}

#[test]
fn unlinked_tables_form_one_level() {
    let levels = load_levels(&vec![vec![], vec![], vec![]]).unwrap();
    assert_eq!(levels, vec![vec![0, 1, 2]]);
}

#[test]
fn no_tables_no_levels() {
    let levels = load_levels(&Vec::new()).unwrap();
    assert!(levels.is_empty());
}

#[test]
fn repeated_links_count_once_each() {
    let levels = load_levels(&vec![vec![1, 1], vec![]]).unwrap();
    assert_eq!(levels, vec![vec![0], vec![1]]);
}

#[test]
fn level_is_one_past_the_longest_chain() {
    // 0 -> 2 directly and 0 -> 1 -> 2: table 2 waits for table 1.
    let levels = load_levels(&vec![vec![2, 1], vec![2], vec![]]).unwrap();
    assert_eq!(levels, vec![vec![0], vec![1], vec![2]]);
}

#[test]
fn two_tables_linking_each_other_are_a_cycle() {
    assert!(load_levels(&vec![vec![1], vec![0]]).is_none());
}

#[test]
fn self_link_is_a_cycle() {
    assert!(load_levels(&vec![vec![0]]).is_none());
}

#[test]
fn cycle_downstream_of_a_root_is_found() {
    // 0 is free, but 1 and 2 link to each other.
    assert!(load_levels(&vec![vec![1], vec![2], vec![1]]).is_none());
}

#[test]
fn acyclic_graphs_are_always_layered() {
    // Every graph whose links go to higher positions is acyclic.
    for n in 0..6usize {
        let mut adj = Vec::new();
        for u in 0..n {
            adj.push(((u + 1)..n).filter(|v| (u * 7 + v * 3) % 3 != 0).collect::<Vec<_>>());
        }
        let levels = load_levels(&adj).unwrap();
        let mut seen: Vec<usize> = levels.iter().flatten().cloned().collect();
        seen.sort();
        assert_eq!(seen, (0..n).collect::<Vec<_>>());
        // Every table linking to a table stands in an earlier level.
        let level_of = |x: usize| levels.iter().position(|l| l.contains(&x)).unwrap();
        for u in 0..n {
            for &v in &adj[u] {
                assert!(level_of(u) < level_of(v));
            }
        }
    }
}

#[test]
fn layering_does_not_depend_on_link_order() {
    let a = sorted_levels(load_levels(&vec![vec![1, 2, 3], vec![3], vec![1], vec![]]).unwrap());
    let b = sorted_levels(load_levels(&vec![vec![3, 2, 1], vec![3], vec![1], vec![]]).unwrap());
    assert_eq!(a, b);
    assert_eq!(a, vec![vec![0], vec![2], vec![1], vec![3]]);
}

#[test]
fn each_level_lists_tables_in_order() {
    // Table 0 links to 2 before 1; the level still lists 1 first.
    let levels = load_levels(&vec![vec![2, 1], vec![], vec![]]).unwrap();
    assert_eq!(levels, vec![vec![0], vec![1, 2]]);
    let levels = load_levels(&vec![vec![], vec![0], vec![]]).unwrap();
    assert_eq!(levels, vec![vec![1, 2], vec![0]]);
}
