use backend_supervisor::search_path::{lists_directory, repair};

fn fixed_list() -> Vec<String> {
    vec![
        "/opt/homebrew/bin".to_string(),
        "/usr/local/bin".to_string(),
        "/usr/bin".to_string(),
        "/bin".to_string(),
    ]
}

fn occurrences(path: &str, dir: &str) -> usize {
    path.split(':').filter(|entry| *entry == dir).count()
}

#[test]
fn repair_prepends_missing_directories_in_list_order() {
    let repaired = repair("/usr/bin:/bin", &fixed_list());
    assert_eq!(repaired, "/opt/homebrew/bin:/usr/local/bin:/usr/bin:/bin");
}

#[test]
fn repair_lists_every_directory_once_and_keeps_the_base_order() {
    let base = "/usr/local/bin:/home/me/tools:/bin";
    let repaired = repair(base, &fixed_list());
    assert_eq!(
        repaired,
        "/opt/homebrew/bin:/usr/bin:/usr/local/bin:/home/me/tools:/bin"
    );
    for dir in fixed_list() {
        assert_eq!(occurrences(&repaired, &dir), 1);
    }
    assert!(repaired.ends_with(base));
}

#[test]
fn repair_leaves_a_complete_path_alone() {
    let base = "/bin:/usr/bin:/usr/local/bin:/opt/homebrew/bin";
    assert_eq!(repair(base, &fixed_list()), base);
}

#[test]
fn repair_of_the_empty_path_ends_with_an_empty_entry() {
    assert_eq!(
        repair("", &fixed_list()),
        "/opt/homebrew/bin:/usr/local/bin:/usr/bin:/bin:"
    );
}

#[test]
fn repair_with_no_directories_returns_the_base() {
    assert_eq!(repair("/a:/b", &Vec::new()), "/a:/b");
}

#[test]
fn repair_does_not_remove_duplicates_of_the_base() {
    let repaired = repair("/x:/bin:/x:/bin", &fixed_list());
    assert_eq!(
        repaired,
        "/opt/homebrew/bin:/usr/local/bin:/usr/bin:/x:/bin:/x:/bin"
    );
    assert_eq!(occurrences(&repaired, "/bin"), 2);
    assert_eq!(occurrences(&repaired, "/x"), 2);
}

#[test]
fn repair_adds_a_directory_named_twice_only_once() {
    let fixed = vec!["/a".to_string(), "/b".to_string(), "/a".to_string()];
    assert_eq!(repair("/c", &fixed), "/b:/a:/c");
}

#[test]
fn repair_compares_whole_entries() {
    let fixed = vec!["/usr/bin".to_string()];
    assert_eq!(
        repair("/usr/bin/extra:/opt/usr/bin", &fixed),
        "/usr/bin:/usr/bin/extra:/opt/usr/bin"
    );
}

#[test]
fn repair_twice_is_repair_once() {
    let once = repair("/home/me/bin:/usr/bin", &fixed_list());
    let twice = repair(&once, &fixed_list());
    assert_eq!(once, "/opt/homebrew/bin:/usr/local/bin:/bin:/home/me/bin:/usr/bin");
    assert_eq!(twice, once);
}

#[test]
fn repair_handles_characters_outside_ascii() {
    let fixed = vec!["/größe/bin".to_string(), "/bin".to_string()];
    assert_eq!(repair("/données:/bin", &fixed), "/größe/bin:/données:/bin");
    assert_eq!(repair("/größe/bin:/x", &fixed), "/bin:/größe/bin:/x");
}

#[test]
fn lists_directory_finds_first_middle_and_last_entries() {
    let path = "/a:/b/c:/d";
    assert!(lists_directory(path, "/a"));
    assert!(lists_directory(path, "/b/c"));
    assert!(lists_directory(path, "/d"));
    assert!(!lists_directory(path, "/b"));
    assert!(!lists_directory(path, "/a:/b/c"));
    assert!(!lists_directory(path, ""));
}

#[test]
fn lists_directory_knows_empty_entries() {
    assert!(lists_directory("", ""));
    assert!(lists_directory("/a::/b", ""));
    assert!(lists_directory("/a:", ""));
    assert!(lists_directory(":/a", ""));
    assert!(!lists_directory("/a", ""));
    assert!(!lists_directory("", "/a"));
}

#[test]
fn lists_directory_does_not_match_parts_of_entries() {
    assert!(!lists_directory("/usr/bin/extra", "/usr/bin"));
    assert!(!lists_directory("/opt/usr/bin", "/usr/bin"));
    assert!(!lists_directory("/usr/bi", "/usr/bin"));
    assert!(lists_directory("/usr/bin", "/usr/bin"));
}
