use resource_pipeline::fs_model::{SimEntry, SimFs};
use resource_pipeline::opener::{open_or_create, recoverable};
use resource_pipeline::outcome::{
    cause_label, fatal_message, step_label, FailKind, IoErr, OperationOutcome,
};
use resource_pipeline::reader::{read_all, read_all_with_mode, ReadDisposition, ReadMode};

fn fs_with(entries: Vec<(&str, &str, bool)>) -> SimFs {
    let mut fs = SimFs::new();
    for (name, content, readable) in entries {
        fs.entries.push(SimEntry {
            name: name.to_string(),
            content: content.to_string(),
            readable,
        });
    }
    fs
}

fn content_of(fs: &SimFs, name: &str) -> Option<String> {
    fs.entries
        .iter()
        .find(|e| e.name == name)
        .map(|e| e.content.clone())
}

#[test]
fn creates_missing_resource() {
    let mut fs = SimFs::new();
    let name = "missing.txt".to_string();
    let r = open_or_create(&mut fs, &name);
    assert!(matches!(r, OperationOutcome::Success(_)));
    assert_eq!(content_of(&fs, "missing.txt"), Some(String::new()));
    assert!(fs.entries[0].readable);
}

#[test]
fn open_existing_keeps_content() {
    let mut fs = fs_with(vec![("present.txt", "hello", true)]);
    let name = "present.txt".to_string();
    let before = content_of(&fs, "present.txt");
    let r = open_or_create(&mut fs, &name);
    assert!(matches!(r, OperationOutcome::Success(_)));
    assert_eq!(content_of(&fs, "present.txt"), before);
    assert_eq!(fs.entries.len(), 1);
}

#[test]
fn denied_creation_is_create_failed() {
    let mut fs = SimFs::new();
    fs.create_fault = Some(IoErr::PermissionDenied);
    let name = "new.txt".to_string();
    let r = open_or_create(&mut fs, &name);
    assert!(matches!(
        r,
        OperationOutcome::Failure(FailKind::CreateFailed, IoErr::PermissionDenied)
    ));
    assert!(fs.entries.is_empty());
}

#[test]
fn propagating_failure_performs_no_io() {
    let mut fs = fs_with(vec![("present.txt", "hello", true)]);
    let input = OperationOutcome::Failure(FailKind::OpenFailed, IoErr::PermissionDenied);
    let calls_before = fs.calls;
    let out = read_all(&mut fs, input);
    assert_eq!(
        out,
        OperationOutcome::Failure(FailKind::OpenFailed, IoErr::PermissionDenied)
    );
    assert_eq!(fs.calls, calls_before);
}

#[test]
fn missing_resource_reads_empty() {
    let mut fs = SimFs::new();
    let name = "missing.txt".to_string();
    let r = open_or_create(&mut fs, &name);
    let out = read_all(&mut fs, r);
    assert_eq!(out, OperationOutcome::Success(String::new()));
}

#[test]
fn present_resource_reads_hello() {
    let mut fs = fs_with(vec![("present.txt", "hello", true)]);
    let name = "present.txt".to_string();
    let r = open_or_create(&mut fs, &name);
    let out = read_all(&mut fs, r);
    assert_eq!(out, OperationOutcome::Success("hello".to_string()));
}

#[test]
fn denied_open_propagates() {
    let mut fs = fs_with(vec![("secret.txt", "top", false)]);
    let name = "secret.txt".to_string();
    let r = open_or_create(&mut fs, &name);
    assert!(matches!(
        r,
        OperationOutcome::Failure(FailKind::OpenFailed, IoErr::PermissionDenied)
    ));
    let out = read_all(&mut fs, r);
    assert_eq!(
        out,
        OperationOutcome::Failure(FailKind::OpenFailed, IoErr::PermissionDenied)
    );
}

#[test]
fn denied_open_terminates_in_fatal_mode() {
    let mut fs = fs_with(vec![("secret.txt", "top", false)]);
    let name = "secret.txt".to_string();
    let r = open_or_create(&mut fs, &name);
    let out = read_all_with_mode(&mut fs, r, ReadMode::Fatal);
    assert_eq!(
        out,
        ReadDisposition::Terminated(
            "fatal error while opening the resource: permission denied".to_string()
        )
    );
}

#[test]
fn failed_read_is_read_failed() {
    let mut fs = fs_with(vec![("present.txt", "hello", true)]);
    fs.read_fault = Some(IoErr::Other);
    let name = "present.txt".to_string();
    let r = open_or_create(&mut fs, &name);
    assert!(matches!(r, OperationOutcome::Success(_)));
    let out = read_all(&mut fs, r);
    assert_eq!(
        out,
        OperationOutcome::Failure(FailKind::ReadFailed, IoErr::Other)
    );
}

#[test]
fn failed_read_terminates_in_fatal_mode() {
    let mut fs = fs_with(vec![("present.txt", "hello", true)]);
    fs.read_fault = Some(IoErr::Other);
    let name = "present.txt".to_string();
    let r = open_or_create(&mut fs, &name);
    let out = read_all_with_mode(&mut fs, r, ReadMode::Fatal);
    assert_eq!(
        out,
        ReadDisposition::Terminated(
            "fatal error while reading the resource: unexpected host failure".to_string()
        )
    );
}

#[test]
fn fatal_mode_success_returns_content() {
    let mut fs = fs_with(vec![("present.txt", "hello", true)]);
    let name = "present.txt".to_string();
    let r = open_or_create(&mut fs, &name);
    let out = read_all_with_mode(&mut fs, r, ReadMode::Fatal);
    assert_eq!(
        out,
        ReadDisposition::Returned(OperationOutcome::Success("hello".to_string()))
    );
}

#[test]
fn propagating_mode_matches_read_all() {
    let mut fs = fs_with(vec![("present.txt", "hello", true)]);
    let name = "present.txt".to_string();
    let r = open_or_create(&mut fs, &name);
    let out = read_all_with_mode(&mut fs, r, ReadMode::Propagating);
    assert_eq!(
        out,
        ReadDisposition::Returned(OperationOutcome::Success("hello".to_string()))
    );
}

#[test]
fn only_not_found_is_recoverable() {
    assert!(recoverable(IoErr::NotFound));
    assert!(!recoverable(IoErr::PermissionDenied));
    assert!(!recoverable(IoErr::Other));
}

#[test]
fn call_counter_counts_primitives() {
    let mut fs = SimFs::new();
    let name = "missing.txt".to_string();
    assert_eq!(fs.calls, 0);
    let r = open_or_create(&mut fs, &name);
    assert_eq!(fs.calls, 2); // a failed open, then a creation
    let _ = read_all(&mut fs, r);
    assert_eq!(fs.calls, 3); // one read
    let r2 = open_or_create(&mut fs, &name);
    assert_eq!(fs.calls, 4); // the resource now exists: one open
    assert!(matches!(r2, OperationOutcome::Success(_)));
}

#[test]
fn creation_leaves_other_resources_alone() {
    let mut fs = fs_with(vec![("kept.txt", "x", true)]);
    let name = "fresh.txt".to_string();
    let r = open_or_create(&mut fs, &name);
    assert!(matches!(r, OperationOutcome::Success(_)));
    assert_eq!(content_of(&fs, "kept.txt"), Some("x".to_string()));
    assert_eq!(content_of(&fs, "fresh.txt"), Some(String::new()));
    assert_eq!(fs.entries.len(), 2);
}

#[test]
fn create_never_overwrites() {
    let mut fs = fs_with(vec![("present.txt", "hello", true)]);
    let name = "present.txt".to_string();
    let r = fs.create(&name);
    assert!(r.is_ok());
    assert_eq!(content_of(&fs, "present.txt"), Some("hello".to_string()));
    assert_eq!(fs.entries.len(), 1);
}

#[test]
fn open_reports_not_found() {
    let mut fs = SimFs::new();
    let name = "absent.txt".to_string();
    let r = fs.open(&name);
    assert_eq!(r.err(), Some(IoErr::NotFound));
}

#[test]
fn diagnostic_labels_are_exact() {
    assert_eq!(step_label(FailKind::OpenFailed), "opening the resource");
    assert_eq!(step_label(FailKind::CreateFailed), "creating the resource");
    assert_eq!(step_label(FailKind::ReadFailed), "reading the resource");
    assert_eq!(cause_label(IoErr::NotFound), "not found");
    assert_eq!(cause_label(IoErr::PermissionDenied), "permission denied");
    assert_eq!(cause_label(IoErr::Other), "unexpected host failure");
    assert_eq!(
        fatal_message(FailKind::CreateFailed, IoErr::NotFound),
        "fatal error while creating the resource: not found"
    );
}
