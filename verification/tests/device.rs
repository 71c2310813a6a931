use resourced::device::{join_path, parent_directory};

#[test]
fn join_path_puts_one_slash_between() {
    assert_eq!(join_path("/sys/class/drm/card0", "gt_min_freq_mhz"), "/sys/class/drm/card0/gt_min_freq_mhz");
    assert_eq!(join_path("/", "gt_min_freq_mhz"), "//gt_min_freq_mhz");
    assert_eq!(join_path("", ""), "/");
}

#[test]
fn parent_directory_cuts_at_the_last_slash() {
    assert_eq!(
        parent_directory("/sys/class/drm/card0/gt_boost_freq_mhz"),
        Some("/sys/class/drm/card0".to_string())
    );
    assert_eq!(parent_directory("card0/file"), Some("card0".to_string()));
    assert_eq!(parent_directory("/file"), Some("".to_string()));
    assert_eq!(parent_directory("dir/"), Some("dir".to_string()));
    assert_eq!(parent_directory("file"), None);
    assert_eq!(parent_directory(""), None);
}

#[test]
fn parent_directory_counts_characters_not_bytes() {
    assert_eq!(parent_directory("/k\u{e4}rte/\u{fc}ber"), Some("/k\u{e4}rte".to_string()));
}

#[test]
fn joined_entry_is_found_in_its_directory() {
    let dir = "/sys/class/drm/card1";
    let path = join_path(dir, "gt_boost_freq_mhz");
    assert_eq!(parent_directory(&path), Some(dir.to_string()));
}
