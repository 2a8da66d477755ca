use update_engine::extract::plan_entry;

#[test]
fn file_entry_written_at_stored_name() {
    assert_eq!(plan_entry("dir/a.txt"), Some("dir/a.txt".to_string()));
    assert_eq!(plan_entry("b.bin"), Some("b.bin".to_string()));
}

#[test]
fn directory_entry_not_written() {
    assert_eq!(plan_entry("dir/"), None);
    assert_eq!(plan_entry("a/b/c/"), None);
    assert_eq!(plan_entry(""), None);
}
