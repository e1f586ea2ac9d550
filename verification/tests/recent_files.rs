use master_browser::recent::{track_recent_file, RecentFile, RECENT_LIMIT};

fn file(path: &str, timestamp: u64) -> RecentFile {
    let name = path.rsplit('/').next().unwrap_or("").to_string();
    RecentFile { path: path.to_string(), name, timestamp }
}

fn paths(list: &[RecentFile]) -> Vec<&str> {
    list.iter().map(|r| r.path.as_str()).collect()
}

#[test]
fn the_list_keeps_twenty() {
    assert_eq!(RECENT_LIMIT, 20);
}

#[test]
fn the_first_file_makes_a_list_of_one() {
    let list = track_recent_file(Vec::new(), file("/a", 1));
    assert_eq!(paths(&list), ["/a"]);
    assert_eq!(list[0].name, "a");
    assert_eq!(list[0].timestamp, 1);
}

#[test]
fn the_newest_file_comes_first() {
    let list = track_recent_file(vec![file("/a", 1), file("/b", 2)], file("/c", 3));
    assert_eq!(paths(&list), ["/c", "/a", "/b"]);
}

#[test]
fn a_file_used_again_moves_to_the_head() {
    let list = track_recent_file(vec![file("/a", 1), file("/b", 2), file("/c", 3)], file("/b", 9));
    assert_eq!(paths(&list), ["/b", "/a", "/c"]);
    assert_eq!(list[0].timestamp, 9);
}

#[test]
fn every_former_entry_for_the_path_leaves() {
    let former = vec![file("/x", 1), file("/a", 2), file("/x", 3), file("/x", 4), file("/b", 5)];
    let list = track_recent_file(former, file("/x", 6));
    assert_eq!(paths(&list), ["/x", "/a", "/b"]);
}

#[test]
fn paths_are_compared_exactly() {
    let former = vec![file("/A", 1), file("/a/", 2), file("/a ", 3)];
    let list = track_recent_file(former, file("/a", 4));
    assert_eq!(paths(&list), ["/a", "/A", "/a/", "/a "]);
}

#[test]
fn the_list_is_cut_after_the_twentieth() {
    let former: Vec<RecentFile> = (0..20).map(|i| file(&format!("/f{}", i), i)).collect();
    let list = track_recent_file(former, file("/new", 100));
    assert_eq!(list.len(), 20);
    assert_eq!(list[0].path, "/new");
    assert_eq!(list[1].path, "/f0");
    assert_eq!(list[19].path, "/f18");
}

#[test]
fn a_longer_list_is_cut_too() {
    let former: Vec<RecentFile> = (0..50).map(|i| file(&format!("/f{}", i), i)).collect();
    let list = track_recent_file(former, file("/f30", 100));
    assert_eq!(list.len(), 20);
    assert_eq!(list[0].path, "/f30");
    assert_eq!(list[19].path, "/f18");
}

#[test]
fn a_full_list_keeps_its_length_when_a_member_is_used() {
    let former: Vec<RecentFile> = (0..20).map(|i| file(&format!("/f{}", i), i)).collect();
    let list = track_recent_file(former, file("/f19", 100));
    assert_eq!(list.len(), 20);
    assert_eq!(list[0].path, "/f19");
    assert_eq!(list[0].timestamp, 100);
    assert_eq!(list[19].path, "/f18");
}
