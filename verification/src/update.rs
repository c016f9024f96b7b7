//! The update flow, as a state machine the host's background task drives.
//!
//! The shell spawns one task at startup that asks the updater service for a
//! newer version, downloads it while reporting byte progress, installs it,
//! and restarts the process. Every decision of that task — which phase
//! follows which, what the progress callback observes, that any error
//! unwinds the flow at once — lives here; the host performs the check, the
//! transfer, the install and the restart, and feeds the outcomes back in.

use vstd::prelude::*;

verus! {

/// The phase the update flow is in. Phases only ever move forward:
/// `NoUpdate`, `Restarting` and `Failed` are terminal.
#[derive(Clone, Copy, PartialEq, Eq, Structural, Debug)]
pub enum UpdatePhase {
    /// Not started yet.
    Idle,
    /// Waiting for the updater service's answer.
    Checking,
    /// The service reported no newer version; the flow is over.
    NoUpdate,
    /// Streaming the update payload.
    Downloading,
    /// The payload is complete; the updater is installing it.
    Installing,
    /// Install succeeded; the process restart has been requested.
    Restarting,
    /// An error unwound the flow; nothing further runs.
    Failed,
}

/// One run of the update flow: the current phase and the running count of
/// downloaded bytes that the progress callback observes.
#[derive(Debug, PartialEq)]
pub struct UpdateFlow {
    pub phase: UpdatePhase,
    pub downloaded: u64,
}

/// How far along a phase is: transitions never decrease this measure, so at
/// most one update cycle runs per launch.
pub open spec fn phase_rank(p: UpdatePhase) -> int {
    match p {
        UpdatePhase::Idle => 0,
        UpdatePhase::Checking => 1,
        UpdatePhase::NoUpdate => 2,
        UpdatePhase::Downloading => 2,
        UpdatePhase::Installing => 3,
        UpdatePhase::Restarting => 4,
        UpdatePhase::Failed => 5,
    }
}

/// No bytes are counted before the download phase is reached.
pub open spec fn wf(flow: UpdateFlow) -> bool {
    phase_rank(flow.phase) < 2 ==> flow.downloaded == 0
}

impl UpdateFlow {
    /// A fresh flow: idle, nothing downloaded.
    pub fn new() -> (r: UpdateFlow)
        ensures
            r.phase == UpdatePhase::Idle,
            r.downloaded == 0,
            wf(r),
    {
        UpdateFlow { phase: UpdatePhase::Idle, downloaded: 0 }
    }

    /// The task has asked the updater service for a newer version.
    pub fn start_check(&mut self)
        requires
            old(self).phase == UpdatePhase::Idle,
            wf(*old(self)),
        ensures
            final(self).phase == UpdatePhase::Checking,
            final(self).downloaded == old(self).downloaded,
            wf(*final(self)),
            phase_rank(final(self).phase) > phase_rank(old(self).phase),
    {
        self.phase = UpdatePhase::Checking;
    }

    /// The service answered: download when a newer version exists, finish
    /// otherwise.
    pub fn on_check_result(&mut self, update_available: bool)
        requires
            old(self).phase == UpdatePhase::Checking,
            wf(*old(self)),
        ensures
            update_available ==> final(self).phase == UpdatePhase::Downloading,
            !update_available ==> final(self).phase == UpdatePhase::NoUpdate,
            final(self).downloaded == old(self).downloaded,
            wf(*final(self)),
            phase_rank(final(self).phase) > phase_rank(old(self).phase),
    {
        if update_available {
            self.phase = UpdatePhase::Downloading;
        } else {
            self.phase = UpdatePhase::NoUpdate;
        }
    }

    /// One payload chunk arrived. Returns the running total the progress
    /// callback reports: every byte received so far, this chunk included.
    pub fn on_chunk(&mut self, chunk_len: u64) -> (progress: u64)
        requires
            old(self).phase == UpdatePhase::Downloading,
            old(self).downloaded + chunk_len <= u64::MAX,
            wf(*old(self)),
        ensures
            final(self).phase == UpdatePhase::Downloading,
            final(self).downloaded == old(self).downloaded + chunk_len,
            progress == final(self).downloaded,
            wf(*final(self)),
            phase_rank(final(self).phase) == phase_rank(old(self).phase),
    {
        self.downloaded = self.downloaded + chunk_len;
        self.downloaded
    }

    /// The transfer finished: the one completion notification, after which
    /// installing begins.
    pub fn on_download_complete(&mut self)
        requires
            old(self).phase == UpdatePhase::Downloading,
            wf(*old(self)),
        ensures
            final(self).phase == UpdatePhase::Installing,
            final(self).downloaded == old(self).downloaded,
            wf(*final(self)),
            phase_rank(final(self).phase) > phase_rank(old(self).phase),
    {
        self.phase = UpdatePhase::Installing;
    }

    /// The updater installed the payload: the flow now requests the process
    /// restart, unconditionally.
    pub fn on_installed(&mut self)
        requires
            old(self).phase == UpdatePhase::Installing,
            wf(*old(self)),
        ensures
            final(self).phase == UpdatePhase::Restarting,
            final(self).downloaded == old(self).downloaded,
            wf(*final(self)),
            phase_rank(final(self).phase) > phase_rank(old(self).phase),
    {
        self.phase = UpdatePhase::Restarting;
    }

    /// An error at checking, downloading or installing unwinds the whole
    /// flow at once: no retry, no report, the task just ends.
    pub fn on_error(&mut self)
        requires
            old(self).phase == UpdatePhase::Checking || old(self).phase
                == UpdatePhase::Downloading || old(self).phase == UpdatePhase::Installing,
            wf(*old(self)),
        ensures
            final(self).phase == UpdatePhase::Failed,
            final(self).downloaded == old(self).downloaded,
            wf(*final(self)),
            phase_rank(final(self).phase) > phase_rank(old(self).phase),
    {
        self.phase = UpdatePhase::Failed;
    }
}

} // verus!
