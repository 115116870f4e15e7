//! The recorder process controller: the two-state machine (`Idle`,
//! `Recording`) behind the start and stop buttons. The caller performs
//! the operating-system work — the process-name lookup, the directory
//! creation, the launch, the interrupt signal, the directory scan — and
//! hands in what it observed; these functions make every decision, keep
//! the single-instance guarantee, and say what to report and notify.

use vstd::prelude::*;
use crate::SessionState;
use crate::notify::{Notification, color_green, green_color};
use crate::stamp::{LocalStamp, stamp_compact_chars};
use crate::index::{DirectoryScan, newest_mp4, is_newest_mp4, no_mp4};

verus! {

/// What the process-name lookup reported: the lookup utility itself
/// failed, no recorder instance was found, or one is running.
pub enum PidLookup {
    LookupFailed,
    NotFound,
    Found,
}

/// What launching the recorder reported.
pub enum LaunchOutcome {
    Launched,
    Failed(String),
}

/// Why a start attempt was refused.
#[derive(Debug)]
pub enum StartError {
    AlreadyRunning,
    DirectoryUnavailable,
    LaunchFailed(String),
}

/// What a stop attempt concluded.
pub enum StopReport {
    LookupFailed,
    NotRunning,
    Stopped,
    Saved(String),
}

/// A start attempt's result, the status line to show, and the
/// notification to deliver, if any.
pub struct StartReport {
    pub result: Result<String, StartError>,
    pub status: String,
    pub notification: Option<Notification>,
}

/// A stop attempt's conclusion, the status line to show, and the
/// notification to deliver, if any.
pub struct StopOutcome {
    pub report: StopReport,
    pub status: String,
    pub notification: Option<Notification>,
}

/// The output path a start attempt records to:
/// `<directory>/wf-recorder-<timestamp>.mp4`.
pub open spec fn output_filename_chars(dir: Seq<char>, st: LocalStamp) -> Seq<char> {
    dir + "/wf-recorder-"@ + stamp_compact_chars(st) + ".mp4"@
}

/// Builds the output path for a recording started now.
pub fn output_filename(directory: &str, now: &LocalStamp) -> (r: String)
    requires
        now.wf(),
    ensures
        r@ == output_filename_chars(directory@, *now),
{
    let mut s = String::from_str(directory);
    s.append("/wf-recorder-");
    let ts = now.render_compact();
    s.append(ts.as_str());
    s.append(".mp4");
    assert(s@ =~= output_filename_chars(directory@, *now));
    s
}

/// A start attempt succeeds exactly when the session is idle, the lookup
/// saw no running instance (a failed lookup counts as none seen), the
/// directory is ready, and the launch came up.
pub open spec fn start_succeeds(
    recording: bool,
    lookup: PidLookup,
    dir_ready: bool,
    launch: LaunchOutcome,
) -> bool {
    !recording && !(lookup is Found) && dir_ready && launch is Launched
}

/// The recording flag after a start attempt: set on success, otherwise
/// unchanged.
pub open spec fn start_next_recording(
    recording: bool,
    lookup: PidLookup,
    dir_ready: bool,
    launch: LaunchOutcome,
) -> bool {
    start_succeeds(recording, lookup, dir_ready, launch) || recording
}

/// Attempts to start a recording from what the caller observed, in the
/// order the collaborators are consulted: an already-recording session
/// short-circuits, then a found running instance refuses, then an
/// unavailable directory, then a failed launch; otherwise the session
/// transitions to recording under the computed output filename.
pub fn start(
    session: &mut SessionState,
    lookup: PidLookup,
    dir_ready: bool,
    launch: LaunchOutcome,
    now: &LocalStamp,
) -> (r: StartReport)
    requires
        now.wf(),
    ensures
        final(session).recording_directory == old(session).recording_directory,
        final(session).is_recording == start_next_recording(
            old(session).is_recording,
            lookup,
            dir_ready,
            launch,
        ),
        r.result is Ok <==> start_succeeds(old(session).is_recording, lookup, dir_ready, launch),
        old(session).is_recording ==> (r.result matches Err(StartError::AlreadyRunning)
            && r.status@ == "Error: Recording already in progress"@ && r.notification is None),
        !old(session).is_recording && lookup is Found ==> (r.result matches Err(
            StartError::AlreadyRunning,
        ) && r.status@ == "Error: wf-recorder is already running"@ && r.notification is None),
        !old(session).is_recording && !(lookup is Found) && !dir_ready ==> (r.result matches Err(
            StartError::DirectoryUnavailable,
        ) && r.status@ == "Error: Failed to create recording directory"@ && r.notification
            is None),
        !old(session).is_recording && !(lookup is Found) && dir_ready ==> (launch matches
            LaunchOutcome::Failed(cause) ==> (r.result matches Err(StartError::LaunchFailed(c))
            && c == cause && r.status@ == "Error: Failed to start wf-recorder"@ && r.notification
            is None)),
        start_succeeds(old(session).is_recording, lookup, dir_ready, launch) ==> (r.result matches
            Ok(f) && f@ == output_filename_chars(old(session).recording_directory@, *now)
            && r.status@ == "Recording to: "@ + f@ && (r.notification matches Some(n) && n.urgency
            == 1 && n.duration_ms == 5000 && n.color@ == color_green() && n.message@
            == "fontsize:35   Video recording started with wf-recorder 📹"@)),
{
    if session.is_recording {
        return StartReport {
            result: Err(StartError::AlreadyRunning),
            status: String::from_str("Error: Recording already in progress"),
            notification: None,
        };
    }
    if let PidLookup::Found = lookup {
        return StartReport {
            result: Err(StartError::AlreadyRunning),
            status: String::from_str("Error: wf-recorder is already running"),
            notification: None,
        };
    }
    if !dir_ready {
        return StartReport {
            result: Err(StartError::DirectoryUnavailable),
            status: String::from_str("Error: Failed to create recording directory"),
            notification: None,
        };
    }
    match launch {
        LaunchOutcome::Failed(cause) => StartReport {
            result: Err(StartError::LaunchFailed(cause)),
            status: String::from_str("Error: Failed to start wf-recorder"),
            notification: None,
        },
        LaunchOutcome::Launched => {
            let filename = output_filename(session.recording_directory.as_str(), now);
            let mut status = String::from_str("Recording to: ");
            status.append(filename.as_str());
            session.is_recording = true;
            StartReport {
                result: Ok(filename),
                status,
                notification: Some(
                    Notification {
                        urgency: 1,
                        duration_ms: 5000,
                        color: green_color(),
                        message: String::from_str(
                            "fontsize:35   Video recording started with wf-recorder 📹",
                        ),
                    },
                ),
            }
        },
    }
}

/// Concludes a stop attempt from what the caller observed. Whatever was
/// observed, the session is forced back to idle: its recording belief is
/// optimistic, not proven. A found instance (already signalled by the
/// caller) is reported with the newest recording in the scanned
/// directory, when one exists.
pub fn stop(session: &mut SessionState, lookup: PidLookup, scan: &DirectoryScan) -> (r:
    StopOutcome)
    ensures
        final(session).recording_directory == old(session).recording_directory,
        !final(session).is_recording,
        lookup is LookupFailed ==> r.report is LookupFailed && r.status@
            == "Error: Could not find wf-recorder process"@ && r.notification is None,
        lookup is NotFound ==> r.report is NotRunning && r.status@
            == "wf-recorder is not running"@ && r.notification is None,
        lookup is Found && !(scan matches DirectoryScan::Entries(entries) && !no_mp4(entries@))
            ==> r.report is Stopped && r.status@ == "Recording stopped"@ && r.notification is None,
        lookup is Found ==> (scan matches DirectoryScan::Entries(entries) ==> (!no_mp4(entries@)
            ==> (r.report matches StopReport::Saved(name) && is_newest_mp4(entries@, name@)
            && r.status@ == "Saved: "@ + name@ && (r.notification matches Some(n) && n.urgency == 5
            && n.duration_ms == 5000 && n.color@ == color_green() && n.message@
            == "fontsize:35   Video recording ended and saved to: "@
            + old(session).recording_directory@ + "/"@ + name@ + " 📹"@)))),
{
    let r = match lookup {
        PidLookup::LookupFailed => StopOutcome {
            report: StopReport::LookupFailed,
            status: String::from_str("Error: Could not find wf-recorder process"),
            notification: None,
        },
        PidLookup::NotFound => StopOutcome {
            report: StopReport::NotRunning,
            status: String::from_str("wf-recorder is not running"),
            notification: None,
        },
        PidLookup::Found => {
            let found = match scan {
                DirectoryScan::Unreadable(_) => None,
                DirectoryScan::Entries(entries) => newest_mp4(entries),
            };
            match found {
                None => StopOutcome {
                    report: StopReport::Stopped,
                    status: String::from_str("Recording stopped"),
                    notification: None,
                },
                Some(name) => {
                    let mut status = String::from_str("Saved: ");
                    status.append(name.as_str());
                    let mut message = String::from_str(
                        "fontsize:35   Video recording ended and saved to: ",
                    );
                    message.append(session.recording_directory.as_str());
                    message.append("/");
                    message.append(name.as_str());
                    message.append(" 📹");
                    StopOutcome {
                        report: StopReport::Saved(name),
                        status,
                        notification: Some(
                            Notification {
                                urgency: 5,
                                duration_ms: 5000,
                                color: green_color(),
                                message,
                            },
                        ),
                    }
                },
            }
        },
    };
    session.is_recording = false;
    r
}

/// Re-syncs the session's recording belief to the observed state of the
/// operating system. The belief is optimistic — the recorder may have
/// been stopped or started outside this process — so callers consult
/// this before trusting it for anything irreversible. The result says
/// whether the belief had drifted.
pub fn reconcile(session: &mut SessionState, lookup: PidLookup) -> (drifted: bool)
    ensures
        final(session).recording_directory == old(session).recording_directory,
        final(session).is_recording == (lookup is Found),
        drifted == (old(session).is_recording != (lookup is Found)),
{
    let observed = match lookup {
        PidLookup::Found => true,
        PidLookup::NotFound => false,
        PidLookup::LookupFailed => false,
    };
    let drifted = session.is_recording != observed;
    session.is_recording = observed;
    drifted
}

/// One start attempt's observations: the process lookup, whether the
/// directory came up, and how the launch went.
pub struct StartObs {
    pub lookup: PidLookup,
    pub dir_ready: bool,
    pub launch: LaunchOutcome,
}

/// The recording flag after the first `k` of a run of consecutive start
/// attempts, beginning from `recording`.
pub open spec fn recording_after(recording: bool, obs: Seq<StartObs>, k: int) -> bool
    decreases k,
{
    if k <= 0 {
        recording
    } else {
        let prev = recording_after(recording, obs, k - 1);
        start_next_recording(prev, obs[k - 1].lookup, obs[k - 1].dir_ready, obs[k - 1].launch)
    }
}

/// Whether the attempt at position `k` of the run succeeds.
pub open spec fn succeeds_at(recording: bool, obs: Seq<StartObs>, k: int) -> bool {
    start_succeeds(
        recording_after(recording, obs, k),
        obs[k].lookup,
        obs[k].dir_ready,
        obs[k].launch,
    )
}

/// Once the session records, further start attempts leave it recording.
proof fn lemma_recording_persists(recording: bool, obs: Seq<StartObs>, k1: int, k2: int)
    requires
        0 <= k1 <= k2,
        recording_after(recording, obs, k1),
    ensures
        recording_after(recording, obs, k2),
    decreases k2 - k1,
{
    if k1 < k2 {
        lemma_recording_persists(recording, obs, k1, k2 - 1);
    }
}

/// The single-instance guarantee: in any run of consecutive start
/// attempts with no intervening stop, at most one attempt succeeds —
/// once the attempt at position `i` has succeeded, every later attempt
/// is refused.
pub proof fn lemma_single_instance(recording: bool, obs: Seq<StartObs>, i: int, j: int)
    requires
        0 <= i < j < obs.len(),
        succeeds_at(recording, obs, i),
    ensures
        !succeeds_at(recording, obs, j),
{
    assert(recording_after(recording, obs, i + 1));
    lemma_recording_persists(recording, obs, i + 1, j);
}

} // verus!
