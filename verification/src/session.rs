//! Directory-path validation and application. The caller attempts to
//! create the candidate directory (with its parents) and hands in the
//! outcome; these functions classify it, update the session on success,
//! and say what to tell the user. Validation is a pure function of that
//! outcome: with an unchanged filesystem answer it always classifies the
//! same way.

use vstd::prelude::*;
use crate::SessionState;
use crate::notify::{Notification, color_green, color_red, green_color, red_color};

verus! {

/// The directory a fresh session records to, under the user's home:
/// `/home/<user>/Videos/wf-recorder`.
pub open spec fn default_directory_chars(user: Seq<char>) -> Seq<char> {
    "/home/"@ + user + "/Videos/wf-recorder"@
}

/// Builds the default recording directory for the named user.
pub fn default_recording_directory(user: &str) -> (r: String)
    ensures
        r@ == default_directory_chars(user@),
{
    let mut s = String::from_str("/home/");
    s.append(user);
    s.append("/Videos/wf-recorder");
    assert(s@ =~= default_directory_chars(user@));
    s
}

/// The classification of a candidate output directory.
pub enum PathStatus {
    Valid,
    Invalid(String),
}

/// The filesystem's answer to "create this directory and its parents":
/// ready (created or already present), or failed with the error text.
pub enum DirOutcome {
    Ready,
    Failed(String),
}

/// A directory outcome, as the failure text it carries (nothing on
/// success).
pub open spec fn outcome_model(o: DirOutcome) -> Option<Seq<char>> {
    match o {
        DirOutcome::Ready => Option::None,
        DirOutcome::Failed(e) => Option::Some(e@),
    }
}

/// A path status, as the rejection reason it carries (nothing when
/// valid).
pub open spec fn status_model(s: PathStatus) -> Option<Seq<char>> {
    match s {
        PathStatus::Valid => Option::None,
        PathStatus::Invalid(m) => Option::Some(m@),
    }
}

/// The message announcing a validated directory.
pub open spec fn validate_ok_message(path: Seq<char>) -> Seq<char> {
    "fontsize:35 Directory validated: "@ + path
}

/// The message announcing a failed validation.
pub open spec fn validate_err_message(reason: Seq<char>) -> Seq<char> {
    "Invalid directory path: "@ + reason
}

/// The message announcing an applied directory.
pub open spec fn apply_ok_message(path: Seq<char>) -> Seq<char> {
    "fontsize:35 Applied recording directory: "@ + path
}

/// The message announcing a failed application.
pub open spec fn apply_err_message(reason: Seq<char>) -> Seq<char> {
    "fontsize:35 Cannot apply invalid path: "@ + reason
}

/// Classifies a candidate directory from the filesystem's answer: ready
/// is valid, a failure is invalid with the failure text as the reason.
/// Either way the caller gets a notification to deliver.
pub fn validate(path: &String, outcome: DirOutcome) -> (r: (PathStatus, Notification))
    ensures
        status_model(r.0) == outcome_model(outcome),
        outcome matches DirOutcome::Ready ==> r.1.urgency == 2 && r.1.duration_ms == 3000
            && r.1.color@ == color_green() && r.1.message@ == validate_ok_message(path@),
        outcome matches DirOutcome::Failed(e) ==> r.1.urgency == 0 && r.1.duration_ms == 3000
            && r.1.color@ == color_red() && r.1.message@ == validate_err_message(e@),
{
    match outcome {
        DirOutcome::Ready => {
            let mut message = String::from_str("fontsize:35 Directory validated: ");
            message.append(path.as_str());
            (
                PathStatus::Valid,
                Notification { urgency: 2, duration_ms: 3000, color: green_color(), message },
            )
        },
        DirOutcome::Failed(e) => {
            let mut message = String::from_str("Invalid directory path: ");
            message.append(e.as_str());
            (
                PathStatus::Invalid(e),
                Notification { urgency: 0, duration_ms: 3000, color: red_color(), message },
            )
        },
    }
}

/// Applies a candidate directory: on a ready filesystem answer the
/// session's recording directory becomes the path; on a failure the
/// session is left untouched. The status and notification mirror
/// `validate`, with the apply wording.
pub fn apply(path: &String, outcome: DirOutcome, session: &mut SessionState) -> (r: (
    PathStatus,
    Notification,
))
    ensures
        status_model(r.0) == outcome_model(outcome),
        final(session).is_recording == old(session).is_recording,
        outcome matches DirOutcome::Ready ==> final(session).recording_directory == path
            && r.1.urgency == 2 && r.1.duration_ms == 3000 && r.1.color@ == color_green()
            && r.1.message@ == apply_ok_message(path@),
        outcome matches DirOutcome::Failed(e) ==> *final(session) == *old(session) && r.1.urgency
            == 0 && r.1.duration_ms == 3000 && r.1.color@ == color_red() && r.1.message@
            == apply_err_message(e@),
{
    match outcome {
        DirOutcome::Ready => {
            session.recording_directory = path.clone();
            let mut message = String::from_str("fontsize:35 Applied recording directory: ");
            message.append(path.as_str());
            (
                PathStatus::Valid,
                Notification { urgency: 2, duration_ms: 3000, color: green_color(), message },
            )
        },
        DirOutcome::Failed(e) => {
            let mut message = String::from_str("fontsize:35 Cannot apply invalid path: ");
            message.append(e.as_str());
            (
                PathStatus::Invalid(e),
                Notification { urgency: 0, duration_ms: 3000, color: red_color(), message },
            )
        },
    }
}

/// Validation is idempotent: two validations whose filesystem answers
/// agree classify the path the same way, whatever the path. The status a
/// validation returns is fixed by its answer (`validate` ensures
/// `status_model(r.0) == outcome_model(outcome)`), so equal answers force
/// equal statuses.
pub proof fn lemma_validate_idempotent(o1: DirOutcome, o2: DirOutcome, s1: PathStatus, s2: PathStatus)
    requires
        outcome_model(o1) == outcome_model(o2),
        status_model(s1) == outcome_model(o1),
        status_model(s2) == outcome_model(o2),
    ensures
        status_model(s1) == status_model(s2),
{
}

} // verus!
