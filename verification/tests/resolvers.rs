use match_vs_map::lang::{lookup_match, Lang};
use match_vs_map::shared::{lookup_map_static, SharedTable};
use match_vs_map::table::{build_table, lookup_map_local};
use match_vs_map::workload::{keys, resolve_all_map_local, resolve_all_map_static, resolve_all_match};

#[test]
fn all_strategies_agree_on_every_workload_key() {
    let ks = keys();
    let shared = SharedTable::new();
    let table = build_table();
    for k in &ks {
        let by_branch = lookup_match(k);
        let by_shared = lookup_map_static(&shared, k);
        let by_local = lookup_map_local(&table, k);
        assert_eq!(by_branch, by_shared);
        assert_eq!(by_branch, by_local);
    }
}

#[test]
fn workload_passes_agree_on_all_thirteen_keys() {
    let ks = keys();
    assert_eq!(ks.len(), 13);
    let shared = SharedTable::new();
    let table = build_table();
    let by_branch = resolve_all_match(&ks);
    let by_shared = resolve_all_map_static(&shared, &ks);
    let by_local = resolve_all_map_local(&table, &ks);
    assert_eq!(by_branch, by_shared);
    assert_eq!(by_branch, by_local);
    assert_eq!(by_branch.len(), 13);
}

#[test]
fn known_keys_map_to_declared_tags() {
    let table = build_table();
    let shared = SharedTable::new();
    let expected = [
        ("rust", Lang::Rust),
        ("java", Lang::Java),
        ("javascript", Lang::JavaScript),
        ("python", Lang::Python),
        ("c", Lang::C),
        ("cpp", Lang::Cpp),
        ("haskell", Lang::Haskell),
        ("webassembly", Lang::WebAssembly),
        ("perl", Lang::Perl),
        ("ruby", Lang::Ruby),
    ];
    for (key, tag) in expected {
        assert_eq!(lookup_match(key), Some(tag));
        assert_eq!(lookup_map_static(&shared, key), Some(tag));
        assert_eq!(lookup_map_local(&table, key), Some(tag));
    }
}

#[test]
fn absent_keys_resolve_to_none() {
    let table = build_table();
    let shared = SharedTable::new();
    for key in ["does_not_exists1", "does_not_exists2", "does_not_exists3"] {
        assert_eq!(lookup_match(key), None);
        assert_eq!(lookup_map_static(&shared, key), None);
        assert_eq!(lookup_map_local(&table, key), None);
    }
}

#[test]
fn table_has_ten_entries_with_unique_keys() {
    let table = build_table();
    assert_eq!(table.len(), 10);
    for i in 0..table.len() {
        for j in 0..i {
            assert_ne!(table.key_at(i), table.key_at(j));
        }
    }
}

#[test]
fn building_twice_yields_identical_content() {
    let a = build_table();
    let b = build_table();
    assert_eq!(a.len(), b.len());
    for i in 0..a.len() {
        assert_eq!(a.key_at(i), b.key_at(i));
        assert_eq!(a.lang_at(i), b.lang_at(i));
    }
}

#[test]
fn once_cell_initializer_runs_at_most_once() {
    // The shared table rests on std::sync::OnceLock's once-only guarantee;
    // exercise that primitive with a counting initializer.
    let cell: std::sync::OnceLock<u32> = std::sync::OnceLock::new();
    let count = std::cell::Cell::new(0u32);
    for _ in 0..100 {
        let v = cell.get_or_init(|| {
            count.set(count.get() + 1);
            7
        });
        assert_eq!(*v, 7);
    }
    assert_eq!(count.get(), 1);
}

#[test]
fn repeated_shared_lookups_stay_consistent() {
    let shared = SharedTable::new();
    for _ in 0..1000 {
        assert_eq!(lookup_map_static(&shared, "rust"), Some(Lang::Rust));
        assert_eq!(lookup_map_static(&shared, "does_not_exists1"), None);
    }
}

#[test]
fn end_to_end_scenario() {
    let ks: Vec<&str> = vec!["rust", "python", "does_not_exists1"];
    let expected = vec![Some(Lang::Rust), Some(Lang::Python), None];
    let shared = SharedTable::new();
    let table = build_table();
    assert_eq!(resolve_all_match(&ks), expected);
    assert_eq!(resolve_all_map_static(&shared, &ks), expected);
    assert_eq!(resolve_all_map_local(&table, &ks), expected);
}

#[test]
fn workload_lists_the_thirteen_keys_in_order() {
    let ks = keys();
    let expected = vec![
        "rust",
        "java",
        "javascript",
        "python",
        "c",
        "cpp",
        "haskell",
        "webassembly",
        "perl",
        "ruby",
        "does_not_exists1",
        "does_not_exists2",
        "does_not_exists3",
    ];
    assert_eq!(ks, expected);
}

#[test]
fn cumulative_elapsed_time_is_monotone_in_passes() {
    // More passes can only accumulate more elapsed time.
    let ks = keys();
    let table = build_table();
    let start = std::time::Instant::now();
    for _ in 0..100 {
        let r = resolve_all_map_local(&table, &ks);
        assert_eq!(r.len(), 13);
    }
    let after_few = start.elapsed();
    for _ in 0..100 {
        let r = resolve_all_map_local(&table, &ks);
        assert_eq!(r.len(), 13);
    }
    let after_more = start.elapsed();
    assert!(after_few <= after_more);
}

#[test]
fn str_eq_is_exact_equality() {
    assert!(match_vs_map::text::str_eq("rust", "rust"));
    assert!(!match_vs_map::text::str_eq("rust", "Rust"));
    assert!(!match_vs_map::text::str_eq("rust", "rus"));
    assert!(!match_vs_map::text::str_eq("rust", "rust "));
    assert!(match_vs_map::text::str_eq("", ""));
    assert!(!match_vs_map::text::str_eq("", "x"));
}
