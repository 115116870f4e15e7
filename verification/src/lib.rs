//! Recording session control: the state and decision logic of a desktop
//! panel that drives an external screen-recorder process and manages the
//! files it produces.
//!
//! The library owns the session state machine (start/stop with a
//! single-instance guarantee), directory-path validation, the index of
//! recording files (classification, size and timestamp rendering, ordering),
//! the polling scheduler's visibility decisions, and the fallback chain for
//! opening the recordings folder. All operating-system work — process
//! lookup and launching, filesystem access, notification delivery — is done
//! by the caller, which hands the observed outcomes to these functions as
//! plain values.

use vstd::prelude::*;

pub mod controller;
pub mod index;
pub mod notify;
pub mod opener;
pub mod poller;
pub mod render;
pub mod session;
pub mod stamp;
pub mod text;

verus! {

/// The shared per-window record: the applied output directory and whether a
/// recording is believed to be in progress.
pub struct SessionState {
    pub recording_directory: String,
    pub is_recording: bool,
}

impl SessionState {
    /// A fresh session: not recording, writing to the given directory.
    pub fn new(directory: String) -> (s: SessionState)
        ensures
            s.recording_directory == directory,
            !s.is_recording,
    {
        SessionState { recording_directory: directory, is_recording: false }
    }
}

} // verus!
