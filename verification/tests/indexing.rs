use recorder_control::index::{
    file_path, list_recording_files, newest_mp4, is_recording_artifact, DirectoryScan, FileEntry,
    IndexListing,
};
use recorder_control::stamp::LocalStamp;

fn stamp(year: u64, month: u64, day: u64, hour: u64, minute: u64) -> LocalStamp {
    LocalStamp { year, month, day, hour, minute, second: 0 }
}

fn entry(name: &str, is_file: bool, size_bytes: u64, modified_secs: i64, st: LocalStamp) -> FileEntry {
    FileEntry { name: name.to_string(), is_file, size_bytes, modified_secs, modified: st }
}

#[test]
fn filter_keeps_exactly_the_recording_artifacts() {
    let st = stamp(2024, 1, 1, 10, 0);
    let scan = DirectoryScan::Entries(vec![
        entry("a.mp4", true, 10, 100, st),
        entry("b.txt", true, 10, 100, st),
        entry("wf-recorder-x.bin", true, 10, 100, st),
        entry("c.mkv", true, 10, 100, st),
    ]);
    match list_recording_files(scan) {
        IndexListing::Items(rows) => {
            let mut names: Vec<&str> = rows.iter().map(|r| r.name.as_str()).collect();
            names.sort();
            assert_eq!(names, vec!["a.mp4", "c.mkv", "wf-recorder-x.bin"]);
        }
        _ => panic!("expected rendered rows"),
    }
}

#[test]
fn filter_skips_directories() {
    let st = stamp(2024, 1, 1, 10, 0);
    let scan = DirectoryScan::Entries(vec![
        entry("clips.mp4", false, 0, 100, st),
        entry("clip.webm", true, 10, 100, st),
    ]);
    match list_recording_files(scan) {
        IndexListing::Items(rows) => {
            assert_eq!(rows.len(), 1);
            assert_eq!(rows[0].name, "clip.webm");
        }
        _ => panic!("expected rendered rows"),
    }
}

#[test]
fn listing_orders_newest_rendered_timestamp_first() {
    let scan = DirectoryScan::Entries(vec![
        entry("one.mp4", true, 1, 10, stamp(2024, 1, 1, 10, 0)),
        entry("two.mp4", true, 2, 20, stamp(2024, 1, 2, 9, 0)),
        entry("three.mp4", true, 3, 30, stamp(2024, 1, 1, 10, 0)),
    ]);
    match list_recording_files(scan) {
        IndexListing::Items(rows) => {
            assert_eq!(rows.len(), 3);
            assert_eq!(rows[0].name, "two.mp4");
            assert_eq!(rows[0].modified, "2024-01-02 09:00");
            // the two rows with equal rendered timestamps both appear, in
            // either order
            let mut tail: Vec<&str> = rows[1..].iter().map(|r| r.name.as_str()).collect();
            tail.sort();
            assert_eq!(tail, vec!["one.mp4", "three.mp4"]);
            assert_eq!(rows[1].modified, "2024-01-01 10:00");
            assert_eq!(rows[2].modified, "2024-01-01 10:00");
        }
        _ => panic!("expected rendered rows"),
    }
}

#[test]
fn listing_renders_size_and_time() {
    let scan = DirectoryScan::Entries(vec![entry(
        "clip.mp4",
        true,
        1536,
        100,
        stamp(2023, 7, 15, 8, 5),
    )]);
    match list_recording_files(scan) {
        IndexListing::Items(rows) => {
            assert_eq!(rows[0].name, "clip.mp4");
            assert_eq!(rows[0].size, "1.5 KB");
            assert_eq!(rows[0].modified, "2023-07-15 08:05");
        }
        _ => panic!("expected rendered rows"),
    }
}

#[test]
fn listing_reports_empty_directory() {
    let scan = DirectoryScan::Entries(vec![]);
    assert!(matches!(list_recording_files(scan), IndexListing::Empty));
}

#[test]
fn listing_reports_only_foreign_files_as_empty() {
    let st = stamp(2024, 1, 1, 10, 0);
    let scan = DirectoryScan::Entries(vec![entry("b.txt", true, 10, 100, st)]);
    assert!(matches!(list_recording_files(scan), IndexListing::Empty));
}

#[test]
fn listing_keeps_unreadable_distinct_from_empty() {
    let scan = DirectoryScan::Unreadable("permission denied".to_string());
    match list_recording_files(scan) {
        IndexListing::Error(reason) => assert_eq!(reason, "permission denied"),
        _ => panic!("expected the unreadable reason to be kept"),
    }
}

#[test]
fn deletion_disappears_from_next_listing() {
    let st = stamp(2024, 1, 1, 10, 0);
    let before = vec![
        entry("keep.mp4", true, 10, 100, st),
        entry("gone.mp4", true, 10, 200, st),
    ];
    match list_recording_files(DirectoryScan::Entries(before)) {
        IndexListing::Items(rows) => {
            assert!(rows.iter().any(|r| r.name == "gone.mp4"));
        }
        _ => panic!("expected rendered rows"),
    }
    // after a confirmed delete the file is no longer among the entries the
    // next scan observes
    let after = vec![entry("keep.mp4", true, 10, 100, st)];
    match list_recording_files(DirectoryScan::Entries(after)) {
        IndexListing::Items(rows) => {
            assert_eq!(rows.len(), 1);
            assert!(rows.iter().all(|r| r.name != "gone.mp4"));
        }
        _ => panic!("expected rendered rows"),
    }
}

#[test]
fn newest_mp4_picks_latest_modification() {
    let st = stamp(2024, 1, 1, 10, 0);
    let entries = vec![
        entry("old.mp4", true, 1, 100, st),
        entry("note.txt", true, 1, 999, st),
        entry("new.mp4", true, 1, 300, st),
        entry("mid.mp4", true, 1, 200, st),
    ];
    assert_eq!(newest_mp4(&entries), Some("new.mp4".to_string()));
}

#[test]
fn newest_mp4_without_candidates() {
    let st = stamp(2024, 1, 1, 10, 0);
    let entries = vec![entry("note.txt", true, 1, 999, st)];
    assert_eq!(newest_mp4(&entries), None);
}

#[test]
fn file_path_joins_directory_and_name() {
    assert_eq!(file_path("/tmp/rec", "clip.mp4"), "/tmp/rec/clip.mp4");
}

#[test]
fn artifact_classification() {
    assert!(is_recording_artifact("a.mp4"));
    assert!(is_recording_artifact("a.mkv"));
    assert!(is_recording_artifact("a.webm"));
    assert!(is_recording_artifact("my-wf-recorder-clip.bin"));
    assert!(is_recording_artifact("wf-recorder"));
    assert!(!is_recording_artifact("notes.txt"));
    assert!(!is_recording_artifact("A.MP4"));
    assert!(!is_recording_artifact("mp4"));
}
