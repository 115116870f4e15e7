use recorder_control::SessionState;
use recorder_control::controller::{
    output_filename, reconcile, start, stop, LaunchOutcome, PidLookup, StartError, StopReport,
};
use recorder_control::index::{DirectoryScan, FileEntry};
use recorder_control::poller::PollingScheduler;
use recorder_control::opener::opener_attempt;
use recorder_control::session::{
    apply, default_recording_directory, validate, DirOutcome, PathStatus,
};
use recorder_control::stamp::LocalStamp;

fn fixed_clock() -> LocalStamp {
    LocalStamp { year: 2024, month: 1, day: 1, hour: 10, minute: 0, second: 0 }
}

fn entry(name: &str, modified_secs: i64) -> FileEntry {
    FileEntry {
        name: name.to_string(),
        is_file: true,
        size_bytes: 1024,
        modified_secs,
        modified: fixed_clock(),
    }
}

#[test]
fn validate_accepts_a_ready_directory() {
    let path = "/tmp/rec".to_string();
    let (status, note) = validate(&path, DirOutcome::Ready);
    assert!(matches!(status, PathStatus::Valid));
    assert_eq!(note.urgency, 2);
    assert_eq!(note.duration_ms, 3000);
    assert_eq!(note.color, "rgb(00FF00)");
    assert_eq!(note.message, "fontsize:35 Directory validated: /tmp/rec");
}

#[test]
fn validate_rejects_with_the_failure_text() {
    let path = "/no/such".to_string();
    let (status, note) = validate(&path, DirOutcome::Failed("denied".to_string()));
    match status {
        PathStatus::Invalid(reason) => assert_eq!(reason, "denied"),
        PathStatus::Valid => panic!("a failed creation must not validate"),
    }
    assert_eq!(note.urgency, 0);
    assert_eq!(note.color, "rgb(FF0000)");
    assert_eq!(note.message, "Invalid directory path: denied");
}

#[test]
fn validate_is_idempotent_on_an_unchanged_filesystem() {
    let path = "/tmp/rec".to_string();
    let (first, _) = validate(&path, DirOutcome::Ready);
    let (second, _) = validate(&path, DirOutcome::Ready);
    assert!(matches!(first, PathStatus::Valid));
    assert!(matches!(second, PathStatus::Valid));
    let (first, _) = validate(&path, DirOutcome::Failed("denied".to_string()));
    let (second, _) = validate(&path, DirOutcome::Failed("denied".to_string()));
    match (first, second) {
        (PathStatus::Invalid(a), PathStatus::Invalid(b)) => assert_eq!(a, b),
        _ => panic!("equal filesystem answers must classify alike"),
    }
}

#[test]
fn apply_replaces_the_directory_on_success() {
    let mut session = SessionState::new("/old".to_string());
    let path = "/tmp/rec".to_string();
    let (status, note) = apply(&path, DirOutcome::Ready, &mut session);
    assert!(matches!(status, PathStatus::Valid));
    assert_eq!(session.recording_directory, "/tmp/rec");
    assert!(!session.is_recording);
    assert_eq!(note.message, "fontsize:35 Applied recording directory: /tmp/rec");
}

#[test]
fn apply_leaves_the_session_untouched_on_failure() {
    let mut session = SessionState::new("/old".to_string());
    let path = "/tmp/rec".to_string();
    let (status, note) = apply(&path, DirOutcome::Failed("denied".to_string()), &mut session);
    assert!(matches!(status, PathStatus::Invalid(_)));
    assert_eq!(session.recording_directory, "/old");
    assert_eq!(note.message, "fontsize:35 Cannot apply invalid path: denied");
}

#[test]
fn happy_path_from_apply_to_stop() {
    let mut session = SessionState::new("/elsewhere".to_string());
    let path = "/tmp/rec".to_string();
    let (status, _) = apply(&path, DirOutcome::Ready, &mut session);
    assert!(matches!(status, PathStatus::Valid));

    let now = fixed_clock();
    let report = start(&mut session, PidLookup::NotFound, true, LaunchOutcome::Launched, &now);
    let filename = report.result.expect("an idle session with a ready directory must start");
    assert_eq!(filename, "/tmp/rec/wf-recorder-2024-01-01-10-00-00.mp4");
    assert_eq!(report.status, "Recording to: /tmp/rec/wf-recorder-2024-01-01-10-00-00.mp4");
    let note = report.notification.expect("a successful start is announced");
    assert_eq!(note.urgency, 1);
    assert_eq!(note.duration_ms, 5000);
    assert!(session.is_recording);

    let scan = DirectoryScan::Entries(vec![
        entry("wf-recorder-2023-12-31-09-00-00.mp4", 100),
        entry("wf-recorder-2024-01-01-10-00-00.mp4", 200),
    ]);
    let outcome = stop(&mut session, PidLookup::Found, &scan);
    match outcome.report {
        StopReport::Saved(name) => assert_eq!(name, "wf-recorder-2024-01-01-10-00-00.mp4"),
        _ => panic!("stopping a found recorder with recordings present reports the newest"),
    }
    assert_eq!(outcome.status, "Saved: wf-recorder-2024-01-01-10-00-00.mp4");
    let note = outcome.notification.expect("a saved recording is announced");
    assert_eq!(note.urgency, 5);
    assert_eq!(
        note.message,
        "fontsize:35   Video recording ended and saved to: /tmp/rec/wf-recorder-2024-01-01-10-00-00.mp4 📹"
    );
    assert!(!session.is_recording);
}

#[test]
fn start_refuses_while_already_recording() {
    let mut session = SessionState::new("/tmp/rec".to_string());
    session.is_recording = true;
    let now = fixed_clock();
    let report = start(&mut session, PidLookup::NotFound, true, LaunchOutcome::Launched, &now);
    assert!(matches!(report.result, Err(StartError::AlreadyRunning)));
    assert_eq!(report.status, "Error: Recording already in progress");
    assert!(report.notification.is_none());
    assert!(session.is_recording);
}

#[test]
fn start_refuses_a_running_instance() {
    let mut session = SessionState::new("/tmp/rec".to_string());
    let now = fixed_clock();
    let report = start(&mut session, PidLookup::Found, true, LaunchOutcome::Launched, &now);
    assert!(matches!(report.result, Err(StartError::AlreadyRunning)));
    assert_eq!(report.status, "Error: wf-recorder is already running");
    assert!(!session.is_recording);
}

#[test]
fn start_refuses_an_unavailable_directory() {
    let mut session = SessionState::new("/tmp/rec".to_string());
    let now = fixed_clock();
    let report = start(&mut session, PidLookup::NotFound, false, LaunchOutcome::Launched, &now);
    assert!(matches!(report.result, Err(StartError::DirectoryUnavailable)));
    assert_eq!(report.status, "Error: Failed to create recording directory");
    assert!(!session.is_recording);
}

#[test]
fn start_reports_a_failed_launch_and_stays_idle() {
    let mut session = SessionState::new("/tmp/rec".to_string());
    let now = fixed_clock();
    // a failed process lookup counts as no instance seen: the attempt
    // proceeds and fails only at the launch
    let report = start(
        &mut session,
        PidLookup::LookupFailed,
        true,
        LaunchOutcome::Failed("spawn refused".to_string()),
        &now,
    );
    match report.result {
        Err(StartError::LaunchFailed(cause)) => assert_eq!(cause, "spawn refused"),
        _ => panic!("a failed launch must be reported with its cause"),
    }
    assert_eq!(report.status, "Error: Failed to start wf-recorder");
    assert!(!session.is_recording);
}

#[test]
fn at_most_one_start_succeeds_without_a_stop() {
    let mut session = SessionState::new("/tmp/rec".to_string());
    let now = fixed_clock();
    let first = start(&mut session, PidLookup::NotFound, true, LaunchOutcome::Launched, &now);
    assert!(first.result.is_ok());
    let second = start(&mut session, PidLookup::NotFound, true, LaunchOutcome::Launched, &now);
    assert!(matches!(second.result, Err(StartError::AlreadyRunning)));
    // after a completed stop a new start may succeed again
    let scan = DirectoryScan::Entries(vec![]);
    stop(&mut session, PidLookup::Found, &scan);
    let third = start(&mut session, PidLookup::NotFound, true, LaunchOutcome::Launched, &now);
    assert!(third.result.is_ok());
}

#[test]
fn stop_without_start_reports_not_running() {
    let mut session = SessionState::new("/tmp/rec".to_string());
    let scan = DirectoryScan::Entries(vec![]);
    let outcome = stop(&mut session, PidLookup::NotFound, &scan);
    assert!(matches!(outcome.report, StopReport::NotRunning));
    assert_eq!(outcome.status, "wf-recorder is not running");
    assert!(outcome.notification.is_none());
    assert_eq!(session.recording_directory, "/tmp/rec");
    assert!(!session.is_recording);
}

#[test]
fn stop_reports_a_failed_lookup() {
    let mut session = SessionState::new("/tmp/rec".to_string());
    let scan = DirectoryScan::Entries(vec![]);
    let outcome = stop(&mut session, PidLookup::LookupFailed, &scan);
    assert!(matches!(outcome.report, StopReport::LookupFailed));
    assert_eq!(outcome.status, "Error: Could not find wf-recorder process");
    assert!(!session.is_recording);
}

#[test]
fn stop_without_recordings_reports_plain_stop() {
    let mut session = SessionState::new("/tmp/rec".to_string());
    session.is_recording = true;
    let scan = DirectoryScan::Entries(vec![entry("notes.txt", 500)]);
    let outcome = stop(&mut session, PidLookup::Found, &scan);
    assert!(matches!(outcome.report, StopReport::Stopped));
    assert_eq!(outcome.status, "Recording stopped");
    assert!(!session.is_recording);
}

#[test]
fn stop_with_unreadable_directory_reports_plain_stop() {
    let mut session = SessionState::new("/tmp/rec".to_string());
    session.is_recording = true;
    let scan = DirectoryScan::Unreadable("denied".to_string());
    let outcome = stop(&mut session, PidLookup::Found, &scan);
    assert!(matches!(outcome.report, StopReport::Stopped));
    assert_eq!(outcome.status, "Recording stopped");
}

#[test]
fn output_filename_combines_directory_and_stamp() {
    let now = fixed_clock();
    assert_eq!(
        output_filename("/videos", &now),
        "/videos/wf-recorder-2024-01-01-10-00-00.mp4"
    );
}

#[test]
fn reconcile_syncs_belief_to_observed_state() {
    let mut session = SessionState::new("/tmp/rec".to_string());
    session.is_recording = true;
    // the recorder died outside this process
    assert!(reconcile(&mut session, PidLookup::NotFound));
    assert!(!session.is_recording);
    // an independently started recorder is adopted
    assert!(reconcile(&mut session, PidLookup::Found));
    assert!(session.is_recording);
    // agreement reports no drift
    assert!(!reconcile(&mut session, PidLookup::Found));
    assert!(session.is_recording);
}

#[test]
fn default_directory_lives_under_the_user_home() {
    assert_eq!(
        default_recording_directory("alice"),
        "/home/alice/Videos/wf-recorder"
    );
}

#[test]
fn poller_refreshes_only_while_visible() {
    let mut poller = PollingScheduler::new();
    assert!(!poller.tick());
    // the transition from hidden to visible owes one immediate refresh
    assert!(poller.set_visible(true));
    assert!(poller.tick());
    assert!(poller.tick());
    // staying visible owes no further immediate refresh
    assert!(!poller.set_visible(true));
    assert!(!poller.set_visible(false));
    assert!(!poller.tick());
}

#[test]
fn opener_chain_tries_the_expected_commands_in_order() {
    let dir = "/tmp/rec".to_string();
    let expected: Vec<(&str, Vec<&str>)> = vec![
        ("xdg-open", vec!["/tmp/rec"]),
        ("nautilus", vec!["/tmp/rec"]),
        ("thunar", vec!["/tmp/rec"]),
        ("dolphin", vec!["/tmp/rec"]),
        ("kitty", vec!["--directory", "/tmp/rec"]),
        ("gnome-terminal", vec!["--working-directory", "/tmp/rec"]),
    ];
    for (step, (program, args)) in expected.iter().enumerate() {
        let cmd = opener_attempt(step, &dir).expect("the chain has six attempts");
        assert_eq!(&cmd.program, program);
        let got: Vec<&str> = cmd.args.iter().map(|a| a.as_str()).collect();
        assert_eq!(&got, args);
    }
    assert!(opener_attempt(6, &dir).is_none());
}
