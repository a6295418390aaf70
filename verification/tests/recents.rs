use diagram_shell::recents::{load_recents, touch, update_recents, RecentItem, Stored, MAX_RECENTS};

fn item(kind: &str, path: &str, name: Option<&str>, updated_at: u64) -> RecentItem {
    RecentItem {
        kind: kind.to_string(),
        path: path.to_string(),
        name: name.map(|name| name.to_string()),
        updated_at,
    }
}

fn keys(list: &[RecentItem]) -> Vec<(String, String)> {
    list.iter().map(|entry| (entry.kind.clone(), entry.path.clone())).collect()
}

#[test]
fn touching_twice_keeps_one_entry_with_the_second_name() {
    let list = touch(Vec::new(), "freeform-diagram", "/a.fd", Some("a".to_string()), 100);
    let list = touch(list, "freeform-diagram", "/a.fd", Some("a2".to_string()), 250);
    let list = load_recents(Stored::List(list));
    assert_eq!(list, vec![item("freeform-diagram", "/a.fd", Some("a2"), 250)]);
}

#[test]
fn first_touch_of_an_empty_list() {
    let list = touch(Vec::new(), "flow-diagram", "/d/x.mmd", None, 7);
    assert_eq!(list, vec![item("flow-diagram", "/d/x.mmd", None, 7)]);
}

#[test]
fn touched_entry_comes_first_and_others_keep_their_order() {
    let list = vec![
        item("freeform-diagram", "/c.fd", Some("c"), 30),
        item("flow-diagram", "/b.mmd", Some("b"), 20),
        item("freeform-diagram", "/a.fd", Some("a"), 10),
    ];
    let list = touch(list, "flow-diagram", "/b.mmd", Some("b".to_string()), 40);
    assert_eq!(
        list,
        vec![
            item("flow-diagram", "/b.mmd", Some("b"), 40),
            item("freeform-diagram", "/c.fd", Some("c"), 30),
            item("freeform-diagram", "/a.fd", Some("a"), 10),
        ]
    );
}

#[test]
fn retouching_renames_without_duplicating() {
    let list = vec![
        item("freeform-diagram", "/c.fd", Some("c"), 30),
        item("freeform-diagram", "/a.fd", Some("old"), 10),
    ];
    let list = touch(list, "freeform-diagram", "/a.fd", Some("new".to_string()), 31);
    assert_eq!(list.len(), 2);
    assert_eq!(list[0], item("freeform-diagram", "/a.fd", Some("new"), 31));
    assert_eq!(list[1], item("freeform-diagram", "/c.fd", Some("c"), 30));
    let hits = list.iter().filter(|entry| entry.path == "/a.fd").count();
    assert_eq!(hits, 1);
}

#[test]
fn retouching_can_drop_the_name() {
    let list = vec![item("freeform-diagram", "/a.fd", Some("old"), 10)];
    let list = touch(list, "freeform-diagram", "/a.fd", None, 11);
    assert_eq!(list, vec![item("freeform-diagram", "/a.fd", None, 11)]);
}

#[test]
fn same_path_under_another_kind_is_another_entry() {
    let list = vec![item("freeform-diagram", "/a", Some("a"), 10)];
    let list = touch(list, "flow-diagram", "/a", Some("a".to_string()), 11);
    assert_eq!(
        list,
        vec![item("flow-diagram", "/a", Some("a"), 11), item("freeform-diagram", "/a", Some("a"), 10)]
    );
}

#[test]
fn same_kind_under_another_path_is_another_entry() {
    let list = vec![item("flow-diagram", "/a", None, 10)];
    let list = touch(list, "flow-diagram", "/b", None, 11);
    assert_eq!(list, vec![item("flow-diagram", "/b", None, 11), item("flow-diagram", "/a", None, 10)]);
}

#[test]
fn the_list_never_grows_past_its_bound() {
    assert_eq!(MAX_RECENTS, 10);
    let mut list = Vec::new();
    for n in 0..12u64 {
        list = touch(list, "freeform-diagram", &format!("/doc{}.fd", n), None, 1000 + n);
        assert!(list.len() <= MAX_RECENTS);
        assert_eq!(list[0].path, format!("/doc{}.fd", n));
    }
    assert_eq!(list.len(), 10);
    let paths: Vec<String> = list.iter().map(|entry| entry.path.clone()).collect();
    let expected: Vec<String> = (2..12u64).rev().map(|n| format!("/doc{}.fd", n)).collect();
    assert_eq!(paths, expected);
    let times: Vec<u64> = list.iter().map(|entry| entry.updated_at).collect();
    assert_eq!(times, vec![1011, 1010, 1009, 1008, 1007, 1006, 1005, 1004, 1003, 1002]);
}

#[test]
fn a_full_list_keeps_its_length_when_an_entry_is_retouched() {
    let mut list = Vec::new();
    for n in 0..10u64 {
        list = touch(list, "flow-diagram", &format!("/doc{}.mmd", n), None, n);
    }
    let list = touch(list, "flow-diagram", "/doc0.mmd", Some("zero".to_string()), 99);
    assert_eq!(list.len(), 10);
    assert_eq!(list[0], item("flow-diagram", "/doc0.mmd", Some("zero"), 99));
    assert_eq!(list[9].path, "/doc1.mmd");
}

#[test]
fn no_sequence_of_touches_duplicates_a_key() {
    let paths = ["/a", "/b", "/a", "/c", "/b", "/a", "/d", "/a"];
    let kinds = ["freeform-diagram", "flow-diagram"];
    let mut list = Vec::new();
    let mut now = 0u64;
    for round in 0..3 {
        for (n, path) in paths.iter().enumerate() {
            now += 1;
            list = touch(list, kinds[(n + round) % 2], path, None, now);
            let mut seen = keys(&list);
            seen.sort();
            seen.dedup();
            assert_eq!(seen.len(), list.len());
            assert!(list.len() <= 10);
            assert!(list.windows(2).all(|pair| pair[0].updated_at >= pair[1].updated_at));
        }
    }
    assert_eq!(list.len(), 8);
}

#[test]
fn an_overlong_stored_list_is_cut_on_the_next_touch() {
    let stored: Vec<RecentItem> =
        (0..15u64).map(|n| item("flow-diagram", &format!("/old{}", n), None, 100 - n)).collect();
    let list = touch(stored, "flow-diagram", "/new", None, 200);
    assert_eq!(list.len(), 10);
    assert_eq!(list[0].path, "/new");
    assert_eq!(list[1].path, "/old0");
    assert_eq!(list[9].path, "/old8");
}

#[test]
fn every_stored_copy_of_the_touched_key_goes() {
    let stored = vec![
        item("flow-diagram", "/a", Some("one"), 3),
        item("flow-diagram", "/b", None, 2),
        item("flow-diagram", "/a", Some("two"), 1),
    ];
    let list = touch(stored, "flow-diagram", "/a", Some("three".to_string()), 4);
    assert_eq!(list, vec![item("flow-diagram", "/a", Some("three"), 4), item("flow-diagram", "/b", None, 2)]);
}

#[test]
fn a_clock_set_back_still_puts_the_entry_first() {
    let list = vec![item("flow-diagram", "/a", None, 100)];
    let list = touch(list, "flow-diagram", "/a", None, 50);
    assert_eq!(list, vec![item("flow-diagram", "/a", None, 50)]);
}

#[test]
fn a_missing_store_lists_nothing() {
    assert_eq!(load_recents(Stored::Absent), Vec::<RecentItem>::new());
}

#[test]
fn a_corrupt_store_lists_nothing() {
    assert_eq!(load_recents(Stored::Malformed), Vec::<RecentItem>::new());
}

#[test]
fn a_stored_list_is_listed_as_stored() {
    let stored = vec![item("flow-diagram", "/b", None, 2), item("freeform-diagram", "/a", Some("a"), 9)];
    assert_eq!(load_recents(Stored::List(stored.clone())), stored);
}

#[test]
fn update_recents_stamps_the_entry_with_the_clock() {
    let before = vec![item("freeform-diagram", "/a.fd", Some("a"), 1), item("flow-diagram", "/b", None, 0)];
    let list = update_recents(before, "freeform-diagram", "/a.fd", Some("a2".to_string()));
    assert_eq!(list.len(), 2);
    assert_eq!(list[0].kind, "freeform-diagram");
    assert_eq!(list[0].path, "/a.fd");
    assert_eq!(list[0].name, Some("a2".to_string()));
    assert!(list[0].updated_at > 1_600_000_000);
    assert_eq!(list[1], item("flow-diagram", "/b", None, 0));
}
