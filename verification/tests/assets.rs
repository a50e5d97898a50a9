use cat_launcher::assets::{sort_assets, AssetListing};

fn asset(id: &str, third_party: bool, name: &str) -> AssetListing {
    AssetListing {
        id: id.to_string(),
        name: name.to_string(),
        third_party,
    }
}

fn names(items: &[AssetListing]) -> Vec<&str> {
    items.iter().map(|a| a.name.as_str()).collect()
}

#[test]
fn third_party_assets_come_first_then_by_id() {
    let mut items = vec![
        asset("b", false, "0"),
        asset("z", true, "1"),
        asset("a", false, "2"),
        asset("c", true, "3"),
    ];
    sort_assets(&mut items);
    let ids: Vec<&str> = items.iter().map(|a| a.id.as_str()).collect();
    assert_eq!(ids, vec!["c", "z", "a", "b"]);
}

#[test]
fn equal_keys_keep_their_order() {
    let mut items = vec![
        asset("m", false, "0"),
        asset("k", false, "1"),
        asset("m", false, "2"),
        asset("k", false, "3"),
        asset("m", true, "4"),
    ];
    sort_assets(&mut items);
    assert_eq!(names(&items), vec!["4", "1", "3", "0", "2"]);
}

#[test]
fn sorting_matches_std_stable_sort() {
    let ids = ["b", "a", "B", "aa", "", "a", "é", "b", "mod-10", "mod-2"];
    let make = || -> Vec<AssetListing> {
        ids.iter()
            .enumerate()
            .map(|(i, id)| asset(id, i % 3 == 0, &i.to_string()))
            .collect()
    };
    let mut items = make();
    let mut expected = make();
    expected.sort_by(|a, b| {
        a.third_party
            .cmp(&b.third_party)
            .reverse()
            .then_with(|| a.id.as_str().cmp(b.id.as_str()))
    });
    sort_assets(&mut items);
    assert_eq!(names(&items), names(&expected));
}

#[test]
fn empty_and_single_slices() {
    let mut none: Vec<AssetListing> = vec![];
    sort_assets(&mut none);
    assert!(none.is_empty());
    let mut one = vec![asset("x", false, "only")];
    sort_assets(&mut one);
    assert_eq!(one[0].id, "x");
}
