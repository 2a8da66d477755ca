use update_engine::merge::{plan_file, Disposition, SelfReplacePolicy};
use update_engine::paths::{join, last_component};

#[test]
fn join_and_last_component() {
    assert_eq!(join("tgt", "a/b.txt"), "tgt/a/b.txt");
    assert_eq!(last_component("a/b.txt"), "b.txt");
    assert_eq!(last_component("b.txt"), "b.txt");
    assert_eq!(last_component("a/b/"), "");
    assert_eq!(last_component(""), "");
}

#[test]
fn plain_file_written_in_place() {
    for policy in [SelfReplacePolicy::Skip, SelfReplacePolicy::DeferredReplace] {
        match plan_file("tgt", "docs/readme.md", "run.exe", policy) {
            // The relative path is reused unchanged under the target.
            Disposition::Write { dest } => assert_eq!(dest, "tgt/docs/readme.md"),
            _ => panic!("expected a plain write"),
        }
    }
}

#[test]
fn matching_file_skipped_under_skip_policy() {
    let d = plan_file("tgt", "run.exe", "run.exe", SelfReplacePolicy::Skip);
    assert!(matches!(d, Disposition::Skipped));
}

#[test]
fn matching_file_staged_under_deferred_policy() {
    match plan_file("tgt", "run.exe", "run.exe", SelfReplacePolicy::DeferredReplace) {
        Disposition::Staged { dest } => {
            assert_eq!(dest, "tgt/run.exe.new");
            assert_ne!(dest, "tgt/run.exe");
        }
        _ => panic!("expected a staged write"),
    }
}

#[test]
fn only_the_file_name_decides_a_match() {
    // A file merely under a directory of that name is written normally.
    match plan_file("tgt", "run.exe/data", "run.exe", SelfReplacePolicy::Skip) {
        Disposition::Write { dest } => assert_eq!(dest, "tgt/run.exe/data"),
        _ => panic!("expected a plain write"),
    }
    // A nested file of the matching name is still special.
    let d = plan_file("tgt", "bin/run.exe", "run.exe", SelfReplacePolicy::Skip);
    assert!(matches!(d, Disposition::Skipped));
}
