use update_engine::engine::{Engine, Phase};
use update_engine::merge::{Disposition, SelfReplacePolicy};
use update_engine::messages::UpdateMsg;

fn config(
    package: &str,
    target: Option<&str>,
    inner: &str,
    policy: SelfReplacePolicy,
) -> Engine {
    Engine::new(
        package.to_string(),
        target.map(|t| t.to_string()),
        inner.to_string(),
        "app".to_string(),
        "run.exe".to_string(),
        policy,
    )
}

#[test]
fn successful_run_event_order() {
    let mut e = config("pkg.zip", Some("tgt"), "", SelfReplacePolicy::Skip);
    let mut events: Vec<UpdateMsg> = Vec::new();

    events.extend(e.start());
    assert!(matches!(e.phase, Phase::Opening));
    events.extend(e.archive_opened("scratch".to_string(), 3));
    for name in ["dir/", "dir/a.txt", "b.txt"] {
        events.push(e.entry_event(name.to_string()));
    }
    e.extraction_done();
    let root = e.resolve(false, false).unwrap();
    assert_eq!(root, "scratch");
    let files = vec!["dir/a.txt".to_string(), "b.txt".to_string()];
    events.extend(e.files_listed(files));
    for _ in 0..2 {
        let (_d, m) = e.next_file();
        events.push(m);
    }
    events.push(e.finish());
    assert!(matches!(e.phase, Phase::Done));

    // The full protocol, in order.
    assert_eq!(events.len(), 9);
    match &events[0] {
        UpdateMsg::Status(t) => assert_eq!(t, "Extracting update package..."),
        _ => panic!("expected the extraction status first"),
    }
    // Extraction: one Progress per entry, directories included, current 1..3,
    // total constant at 3.
    for (i, name) in ["dir/", "dir/a.txt", "b.txt"].iter().enumerate() {
        match &events[1 + i] {
            UpdateMsg::Progress(current, total, n) => {
                assert_eq!(*current, i + 1);
                assert_eq!(*total, 3);
                assert_eq!(n, name);
            }
            _ => panic!("expected extraction progress"),
        }
    }
    match &events[4] {
        UpdateMsg::Status(t) => assert_eq!(t, "Copying files..."),
        _ => panic!("expected the merge status"),
    }
    // TotalFiles exactly once, before the merge progress, counting regular
    // files only.
    match &events[5] {
        UpdateMsg::TotalFiles(n) => assert_eq!(*n, 2),
        _ => panic!("expected TotalFiles"),
    }
    assert_eq!(
        events
            .iter()
            .filter(|m| matches!(m, UpdateMsg::TotalFiles(_)))
            .count(),
        1
    );
    for (j, name) in ["dir/a.txt", "b.txt"].iter().enumerate() {
        match &events[6 + j] {
            UpdateMsg::Progress(current, total, n) => {
                assert_eq!(*current, j + 1);
                assert_eq!(*total, 2);
                assert_eq!(n, name);
            }
            _ => panic!("expected merge progress"),
        }
    }
    // Complete exactly once, last, right after a Progress whose current
    // equals total.
    assert!(matches!(events.last(), Some(UpdateMsg::Complete)));
    assert_eq!(
        events
            .iter()
            .filter(|m| matches!(m, UpdateMsg::Complete))
            .count(),
        1
    );
    match &events[events.len() - 2] {
        UpdateMsg::Progress(current, total, _) => assert_eq!(current, total),
        _ => panic!("expected full progress before Complete"),
    }
}

#[test]
fn missing_package_fails_immediately() {
    let mut e = config("", Some("tgt"), "", SelfReplacePolicy::Skip);
    let msgs = e.start();
    assert!(matches!(e.phase, Phase::Failed));
    assert_eq!(msgs.len(), 1);
    match &msgs[0] {
        UpdateMsg::Error(t) => assert_eq!(t, "No update package path was provided"),
        _ => panic!("expected an Error event"),
    }
}

#[test]
fn missing_target_fails_immediately() {
    let mut e = config("pkg.zip", None, "", SelfReplacePolicy::Skip);
    let msgs = e.start();
    assert!(matches!(e.phase, Phase::Failed));
    assert_eq!(msgs.len(), 1);
    match &msgs[0] {
        UpdateMsg::Error(t) => assert_eq!(t, "No target directory was provided"),
        _ => panic!("expected an Error event"),
    }
}

#[test]
fn archive_failure_error_is_last() {
    let mut e = config("pkg.zip", Some("tgt"), "", SelfReplacePolicy::Skip);
    let mut events: Vec<UpdateMsg> = Vec::new();
    events.extend(e.start());
    events.extend(e.archive_opened("scratch".to_string(), 2));
    events.push(e.entry_event("a.txt".to_string()));
    // The second entry cannot be decoded: the run aborts.
    events.push(e.fail(update_engine::errors::UpdateError::ArchiveError(
        "invalid entry".to_string(),
    )));
    assert!(matches!(e.phase, Phase::Failed));
    match events.last() {
        Some(UpdateMsg::Error(t)) => assert_eq!(t, "invalid entry"),
        _ => panic!("expected the Error event last"),
    }
    // No Progress or Complete after the Error: it is the final event.
    assert_eq!(events.len(), 3);
    assert!(events[..2]
        .iter()
        .all(|m| !matches!(m, UpdateMsg::Error(_) | UpdateMsg::Complete)));
}

#[test]
fn copy_failure_error_is_last() {
    let mut e = config("pkg.zip", Some("tgt"), "", SelfReplacePolicy::Skip);
    let mut events: Vec<UpdateMsg> = Vec::new();
    events.extend(e.start());
    events.extend(e.archive_opened("scratch".to_string(), 1));
    events.push(e.entry_event("a.txt".to_string()));
    e.extraction_done();
    e.resolve(false, false).unwrap();
    events.extend(e.files_listed(vec!["a.txt".to_string()]));
    let (_d, m) = e.next_file();
    events.push(m);
    events.push(e.fail(update_engine::errors::UpdateError::IoError(
        "copy failed".to_string(),
    )));
    assert!(matches!(e.phase, Phase::Failed));
    match events.last() {
        Some(UpdateMsg::Error(t)) => assert_eq!(t, "copy failed"),
        _ => panic!("expected the Error event last"),
    }
    assert!(events[..events.len() - 1]
        .iter()
        .all(|m| !matches!(m, UpdateMsg::Error(_) | UpdateMsg::Complete)));
}

#[test]
fn empty_archive_and_payload_completes() {
    let mut e = config("pkg.zip", Some("tgt"), "", SelfReplacePolicy::Skip);
    let mut events: Vec<UpdateMsg> = Vec::new();
    events.extend(e.start());
    events.extend(e.archive_opened("scratch".to_string(), 0));
    e.extraction_done();
    e.resolve(false, false).unwrap();
    events.extend(e.files_listed(Vec::new()));
    events.push(e.finish());
    assert!(matches!(e.phase, Phase::Done));
    match &events[2] {
        UpdateMsg::TotalFiles(n) => assert_eq!(*n, 0),
        _ => panic!("expected TotalFiles"),
    }
    assert!(matches!(events.last(), Some(UpdateMsg::Complete)));
}

#[test]
fn skip_policy_counts_but_never_writes_executable() {
    let mut e = config("pkg.zip", Some("tgt"), "", SelfReplacePolicy::Skip);
    e.start();
    e.archive_opened("scratch".to_string(), 0);
    e.extraction_done();
    e.resolve(false, false).unwrap();
    let msgs = e.files_listed(vec!["data.bin".to_string(), "run.exe".to_string()]);
    match &msgs[1] {
        // The matching file is still counted in the total.
        UpdateMsg::TotalFiles(n) => assert_eq!(*n, 2),
        _ => panic!("expected TotalFiles"),
    }
    let (d1, _m1) = e.next_file();
    match d1 {
        Disposition::Write { dest } => assert_eq!(dest, "tgt/data.bin"),
        _ => panic!("expected a plain write"),
    }
    let (d2, m2) = e.next_file();
    // The file matching the running executable is never written...
    assert!(matches!(d2, Disposition::Skipped));
    // ...but still produces its Progress event.
    match m2 {
        UpdateMsg::Progress(current, total, name) => {
            assert_eq!(current, 2);
            assert_eq!(total, 2);
            assert_eq!(name, "run.exe");
        }
        _ => panic!("expected merge progress"),
    }
    e.finish();
    assert!(matches!(e.phase, Phase::Done));
}

#[test]
fn deferred_policy_stages_executable_under_suffix() {
    let mut e = config("pkg.zip", Some("tgt"), "", SelfReplacePolicy::DeferredReplace);
    e.start();
    e.archive_opened("scratch".to_string(), 0);
    e.extraction_done();
    e.resolve(false, false).unwrap();
    e.files_listed(vec!["bin/run.exe".to_string(), "bin/other.dll".to_string()]);
    let (d1, _) = e.next_file();
    match d1 {
        // Staged under the suffixed sibling path, never the live path.
        Disposition::Staged { dest } => assert_eq!(dest, "tgt/bin/run.exe.new"),
        _ => panic!("expected a staged write"),
    }
    let (d2, _) = e.next_file();
    match d2 {
        Disposition::Write { dest } => assert_eq!(dest, "tgt/bin/other.dll"),
        _ => panic!("expected a plain write"),
    }
}

#[test]
fn rerun_plans_identical_actions() {
    let mut plans: Vec<Vec<String>> = Vec::new();
    for _ in 0..2 {
        let mut e = config("pkg.zip", Some("tgt"), "", SelfReplacePolicy::DeferredReplace);
        e.start();
        e.archive_opened("scratch".to_string(), 2);
        e.entry_event("run.exe".to_string());
        e.entry_event("a.txt".to_string());
        e.extraction_done();
        e.resolve(false, false).unwrap();
        e.files_listed(vec!["run.exe".to_string(), "a.txt".to_string()]);
        let mut plan: Vec<String> = Vec::new();
        for _ in 0..2 {
            let (d, _) = e.next_file();
            plan.push(match d {
                Disposition::Write { dest } => format!("write {}", dest),
                Disposition::Staged { dest } => format!("stage {}", dest),
                Disposition::Skipped => "skip".to_string(),
            });
        }
        e.finish();
        plans.push(plan);
    }
    // The run is a function of its inputs alone: the second run plans the
    // same overwrites, so unchanged inputs leave the same final contents.
    assert_eq!(plans[0], plans[1]);
    assert_eq!(plans[0], vec!["stage tgt/run.exe.new".to_string(), "write tgt/a.txt".to_string()]);
}
