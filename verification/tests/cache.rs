use fsel::cache::{
    cache_entry_is_fresh, entry_keys, file_list_cache_is_fresh, should_remove_old_name,
};

#[test]
fn file_list_cache_freshness_ignores_duplicate_dirs() {
    let dir = b"/usr/share/applications".to_vec();
    let mtime: i128 = 1_700_000_000_000_000_000;
    let cached = vec![(dir.clone(), mtime)];

    assert!(file_list_cache_is_fresh(
        &cached,
        &vec![dir.clone(), dir.clone()],
        &vec![Some(mtime), Some(mtime)]
    ));
}

#[test]
fn file_list_cache_needs_every_directory_unchanged() {
    let a = b"/a".to_vec();
    let b = b"/b".to_vec();
    let cached = vec![(a.clone(), 5), (b.clone(), 7)];
    assert!(file_list_cache_is_fresh(&cached, &vec![a.clone(), b.clone()], &vec![Some(5), Some(7)]));
    assert!(!file_list_cache_is_fresh(&cached, &vec![a.clone(), b.clone()], &vec![Some(5), Some(8)]));
    assert!(!file_list_cache_is_fresh(&cached, &vec![a.clone(), b.clone()], &vec![Some(5), None]));
    assert!(!file_list_cache_is_fresh(&cached, &vec![a.clone()], &vec![Some(5)]));
    assert!(!file_list_cache_is_fresh(&cached, &vec![a, b"/c".to_vec()], &vec![Some(5), Some(7)]));
}

#[test]
fn escaped_cached_icons_are_invalidated_for_reparsing() {
    assert!(!cache_entry_is_fresh(Some("/opt/My\\sApp/icon.png"), 10, Some(10)));
    assert!(cache_entry_is_fresh(Some("/opt/My App/icon.png"), 10, Some(10)));
    assert!(cache_entry_is_fresh(None, -3, Some(-3)));
    assert!(!cache_entry_is_fresh(None, 10, Some(11)));
    assert!(!cache_entry_is_fresh(None, 10, None));
}

#[test]
fn renamed_entries_release_their_old_name() {
    let key = "2f61";
    assert!(should_remove_old_name(Some("Old"), "New", Some(&b"2f61".to_vec()), key));
    assert!(!should_remove_old_name(Some("Old"), "New", Some(&b"ffff".to_vec()), key));
    assert!(!should_remove_old_name(Some("Same"), "Same", Some(&b"2f61".to_vec()), key));
    assert!(!should_remove_old_name(None, "New", Some(&b"2f61".to_vec()), key));
    assert!(!should_remove_old_name(Some("Old"), "New", None, key));
}

#[test]
fn cached_entries_are_keyed_by_hex_then_text() {
    let (primary, legacy) = entry_keys(&b"/a.desktop".to_vec());
    assert_eq!(primary, "2f612e6465736b746f70");
    assert_eq!(legacy, "/a.desktop");
    let (_, lossy) = entry_keys(&vec![0xff, b'x']);
    assert_eq!(lossy, "\u{fffd}x");
}
