//! Scenario tests of the fetch-and-extract engine, driven with real
//! archives built in memory and a simulated filesystem.

use std::collections::HashMap;
use std::io::Write;

use csharp_tooling::effects::{Action, Event};
use csharp_tooling::engine::{EngineState, FetchEngine};

fn make_zip(entries: &[(&str, &[u8])]) -> Vec<u8> {
    let mut cursor = std::io::Cursor::new(Vec::new());
    {
        let mut writer = zip::ZipWriter::new(&mut cursor);
        let options = zip::write::SimpleFileOptions::default();
        for (name, data) in entries {
            if name.ends_with('/') && data.is_empty() {
                writer.add_directory(name.trim_end_matches('/'), options).unwrap();
            } else {
                writer.start_file(*name, options).unwrap();
                writer.write_all(data).unwrap();
            }
        }
        writer.finish().unwrap();
    }
    cursor.into_inner()
}

struct SimHost {
    /// Scripted answers to download requests, in order.
    downloads: Vec<Result<Vec<u8>, String>>,
    download_requests: usize,
    dirs: Vec<String>,
    files: HashMap<String, Vec<u8>>,
    removed: Vec<String>,
    /// Which file writes (counted from zero across the whole run) fail.
    failing_write_indices: Vec<usize>,
    writes_seen: usize,
}

impl SimHost {
    fn new(downloads: Vec<Result<Vec<u8>, String>>) -> Self {
        SimHost {
            downloads,
            download_requests: 0,
            dirs: Vec::new(),
            files: HashMap::new(),
            removed: Vec::new(),
            failing_write_indices: Vec::new(),
            writes_seen: 0,
        }
    }

    /// Performs the actions of one step and produces the answering event
    /// for the last, or None when the machine went terminal.
    fn perform(&mut self, actions: &[Action]) -> Option<Event> {
        let mut reply = None;
        for action in actions {
            match action {
                Action::Download(_) => {
                    self.download_requests += 1;
                    let next = self.downloads.remove(0);
                    reply = Some(Event::Downloaded(next));
                },
                Action::CreateDir(path) => {
                    if !self.dirs.contains(path) {
                        self.dirs.push(path.clone());
                    }
                    reply = Some(Event::Completed(Ok(())));
                },
                Action::RemoveDir(path) => {
                    self.removed.push(path.clone());
                    let prefix = format!("{}/", path);
                    self.dirs.retain(|d| d != path && !d.starts_with(&prefix));
                    self.files.retain(|f, _| !f.starts_with(&prefix));
                    reply = None;
                },
                Action::WriteFile { path, data } => {
                    let index = self.writes_seen;
                    self.writes_seen += 1;
                    if self.failing_write_indices.contains(&index) {
                        reply = Some(Event::Completed(Err("disk quota exceeded".to_string())));
                    } else {
                        self.files.insert(path.clone(), data.clone());
                        reply = Some(Event::Completed(Ok(())));
                    }
                },
                _ => panic!("engine asked for an unexpected action"),
            }
        }
        reply
    }
}

fn run_engine(url: &str, dest: &str, max_attempts: usize, host: &mut SimHost) -> EngineState {
    let (mut engine, mut actions) = FetchEngine::fetch_and_extract(url, dest, max_attempts);
    loop {
        if matches!(engine.state, EngineState::Done | EngineState::Failed { .. }) {
            // A terminal step still carries cleanup actions.
            let _ = host.perform(&actions);
            return engine.state;
        }
        let event = host.perform(&actions).expect("non-terminal step must await an event");
        let (next, out) = engine.step(event);
        engine = next;
        actions = out;
    }
}

#[test]
fn extracts_archive_contents_faithfully() {
    let zip = make_zip(&[
        ("bin/tool", b"#!ELF fake binary"),
        ("readme.txt", b"hello"),
        ("sub/dir/", b""),
    ]);
    let mut host = SimHost::new(vec![Ok(zip)]);
    let state = run_engine("https://example.invalid/t.zip", "tool-1.0", 3, &mut host);
    assert!(matches!(state, EngineState::Done));
    assert_eq!(host.files.get("tool-1.0/bin/tool").unwrap(), b"#!ELF fake binary");
    assert_eq!(host.files.get("tool-1.0/readme.txt").unwrap(), b"hello");
    assert!(host.dirs.contains(&"tool-1.0".to_string()));
    assert!(host.dirs.contains(&"tool-1.0/bin".to_string()));
}

#[test]
fn download_failing_twice_then_succeeding_extracts() {
    let zip = make_zip(&[("payload.bin", b"data")]);
    let mut host = SimHost::new(vec![
        Err("download timed out".to_string()),
        Err("download reset".to_string()),
        Ok(zip),
    ]);
    let state = run_engine("u", "dest", 3, &mut host);
    assert!(matches!(state, EngineState::Done));
    assert_eq!(host.download_requests, 3);
    assert_eq!(host.files.get("dest/payload.bin").unwrap(), b"data");
}

#[test]
fn download_always_failing_stops_after_exactly_three_attempts() {
    let mut host = SimHost::new(vec![
        Err("no route to host".to_string()),
        Err("no route to host".to_string()),
        Err("the final error".to_string()),
    ]);
    let state = run_engine("u", "dest", 3, &mut host);
    match state {
        EngineState::Failed { error } => assert_eq!(error, "the final error"),
        _ => panic!("expected failure"),
    }
    assert_eq!(host.download_requests, 3);
    assert!(host.files.is_empty());
}

#[test]
fn empty_download_counts_as_failure_and_is_retried() {
    let zip = make_zip(&[("a.txt", b"x")]);
    let mut host = SimHost::new(vec![Ok(Vec::new()), Ok(zip)]);
    let state = run_engine("u", "dest", 3, &mut host);
    assert!(matches!(state, EngineState::Done));
    assert_eq!(host.download_requests, 2);
}

#[test]
fn empty_download_error_is_surfaced_after_last_attempt() {
    let mut host = SimHost::new(vec![Ok(Vec::new())]);
    let state = run_engine("u", "dest", 1, &mut host);
    match state {
        EngineState::Failed { error } => assert_eq!(error, "downloaded file is empty"),
        _ => panic!("expected failure"),
    }
}

#[test]
fn corrupt_archive_cleans_destination_and_retries() {
    let good = make_zip(&[("ok.txt", b"fine")]);
    let mut host = SimHost::new(vec![Ok(b"this is not an archive".to_vec()), Ok(good)]);
    let state = run_engine("u", "dest", 3, &mut host);
    assert!(matches!(state, EngineState::Done));
    assert_eq!(host.download_requests, 2);
    // The corrupted attempt's destination was deleted before the retry.
    assert!(host.removed.contains(&"dest".to_string()));
    assert_eq!(host.files.get("dest/ok.txt").unwrap(), b"fine");
}

#[test]
fn corrupt_archive_fails_when_attempts_are_exhausted() {
    let mut host = SimHost::new(vec![Ok(b"garbage".to_vec())]);
    let state = run_engine("u", "dest", 1, &mut host);
    match state {
        EngineState::Failed { error } => {
            assert!(error.starts_with("failed to open zip archive"));
        },
        _ => panic!("expected failure"),
    }
    // A failed run leaves the destination absent, never partial.
    assert!(host.removed.contains(&"dest".to_string()));
    assert!(!host.dirs.contains(&"dest".to_string()));
}

#[test]
fn traversal_entry_is_skipped_and_extraction_continues() {
    // An entry trying to climb out of the destination must produce nothing
    // outside it; the remaining entries are still extracted.
    let zip = make_zip(&[("../../evil", b"boom"), ("ok.txt", b"safe")]);
    let mut host = SimHost::new(vec![Ok(zip)]);
    let state = run_engine("u", "dest", 3, &mut host);
    assert!(matches!(state, EngineState::Done));
    assert_eq!(host.files.get("dest/ok.txt").unwrap(), b"safe");
    // Nothing was written outside the destination, under any name.
    for path in host.files.keys() {
        assert!(path.starts_with("dest/"), "escaped the destination: {}", path);
        assert!(!path.contains(".."), "kept a parent-directory component: {}", path);
    }
    for dir in &host.dirs {
        assert!(dir == "dest" || dir.starts_with("dest/"), "created outside: {}", dir);
    }
}

#[test]
fn empty_archive_finishes_with_nothing_written() {
    let zip = make_zip(&[]);
    let mut host = SimHost::new(vec![Ok(zip)]);
    let state = run_engine("u", "dest", 3, &mut host);
    assert!(matches!(state, EngineState::Done));
    assert!(host.files.is_empty());
    // Only the destination itself was ensured.
    assert_eq!(host.dirs, vec!["dest".to_string()]);
}

#[test]
fn failed_write_cleans_destination_and_retries() {
    let zip = make_zip(&[("data.bin", b"payload")]);
    let mut host = SimHost::new(vec![Ok(zip.clone()), Ok(zip)]);
    host.failing_write_indices = vec![0];
    let state = run_engine("u", "dest", 3, &mut host);
    assert!(matches!(state, EngineState::Done));
    // The partial attempt's destination was deleted before the retry.
    assert!(host.removed.contains(&"dest".to_string()));
    assert_eq!(host.download_requests, 2);
    assert_eq!(host.files.get("dest/data.bin").unwrap(), b"payload");
}

#[test]
fn failed_write_on_last_attempt_surfaces_the_entry() {
    let zip = make_zip(&[("data.bin", b"payload")]);
    let mut host = SimHost::new(vec![Ok(zip)]);
    host.failing_write_indices = vec![0];
    let state = run_engine("u", "dest", 1, &mut host);
    match state {
        EngineState::Failed { error } => {
            assert_eq!(error, "failed to create file data.bin: disk quota exceeded");
        },
        _ => panic!("expected failure"),
    }
    // Whatever the failing attempt had already written is cleaned away.
    assert!(host.removed.contains(&"dest".to_string()));
    assert!(host.files.is_empty());
    assert!(!host.dirs.contains(&"dest".to_string()));
}

#[test]
fn partial_content_is_removed_when_the_final_attempt_fails() {
    // The first entry is written, the second write fails on the only
    // allowed attempt: the failed run must not leave the first file behind.
    let zip = make_zip(&[("first.txt", b"written"), ("second.txt", b"never lands")]);
    let mut host = SimHost::new(vec![Ok(zip)]);
    host.failing_write_indices = vec![1];
    let state = run_engine("u", "dest", 1, &mut host);
    match state {
        EngineState::Failed { error } => {
            assert_eq!(error, "failed to create file second.txt: disk quota exceeded");
        },
        _ => panic!("expected failure"),
    }
    assert!(host.removed.contains(&"dest".to_string()));
    assert!(host.files.is_empty());
    assert!(!host.dirs.contains(&"dest".to_string()));
}

#[test]
fn nested_file_entries_create_parent_directories() {
    let zip = make_zip(&[("a/b/c/deep.txt", b"deep")]);
    let mut host = SimHost::new(vec![Ok(zip)]);
    let state = run_engine("u", "dest", 3, &mut host);
    assert!(matches!(state, EngineState::Done));
    assert!(host.dirs.contains(&"dest/a/b/c".to_string()));
    assert_eq!(host.files.get("dest/a/b/c/deep.txt").unwrap(), b"deep");
}
