use batch_remux::scan::{generate_id, list_contains, normalize_extension_list, should_include_file};

fn scan_list(items: &[&str]) -> Vec<String> {
    items.iter().map(|s| s.to_string()).collect()
}

#[test]
fn extensions_lose_dots_and_case() {
    assert_eq!(
        normalize_extension_list(&scan_list(&[".MKV", "mp4", "..Ass", ".", "", "m.k"])),
        scan_list(&["mkv", "mp4", "ass", "m.k"])
    );
    assert_eq!(normalize_extension_list(&[]), Vec::<String>::new());
}

#[test]
fn empty_list_and_all_take_every_file() {
    assert!(should_include_file(Some("xyz"), &[]));
    assert!(should_include_file(None, &[]));
    assert!(should_include_file(None, &scan_list(&["mkv", "all"])));
    assert!(should_include_file(Some("txt"), &scan_list(&["all"])));
}

#[test]
fn extension_is_compared_in_lower_case() {
    let allowed = scan_list(&["mkv", "mp4"]);
    assert!(should_include_file(Some("MKV"), &allowed));
    assert!(should_include_file(Some("mp4"), &allowed));
    assert!(!should_include_file(Some("avi"), &allowed));
    assert!(!should_include_file(None, &allowed));
    assert!(!should_include_file(Some("mkv"), &scan_list(&["MKV"])));
    assert!(!should_include_file(Some("x"), &scan_list(&["ALL"])));
}

#[test]
fn list_membership_is_exact() {
    assert!(list_contains(&scan_list(&["a", "b"]), "b"));
    assert!(!list_contains(&scan_list(&["a", "b"]), "B"));
    assert!(!list_contains(&[], ""));
}

#[test]
fn ids_are_prefix_time_and_counter() {
    assert_eq!(generate_id("video", 1700000000123, 0), "video-1700000000123-0");
    assert_eq!(generate_id("", 0, 17), "-0-17");
    assert_eq!(
        generate_id("audio", u128::MAX, u64::MAX),
        format!("audio-{}-{}", u128::MAX, u64::MAX)
    );
}
