//! The update coordinator: a state machine between the background task that
//! checks for a new version and the user's decision, delivered later through
//! a polled flag. Progress grows monotonically as downloaded chunks arrive.

use vstd::prelude::*;

use crate::types::UpdateProgressPayload;

verus! {

/// Where the update flow stands.
#[derive(Clone, Copy, Debug, PartialEq, Eq, Structural)]
pub enum UpdateState {
    /// No update is known; also the state after a failed remote check.
    Idle,
    /// An update was found and announced; the user has not decided yet.
    AwaitingDecision,
    /// The user turned the update down; the flow is over.
    Declined,
    /// The user accepted; chunks are arriving.
    Downloading,
    /// The new version is fully downloaded and installed.
    Installed,
    /// The download or installation failed; the running version stays.
    Failed,
}

/// The decision flag the UI writes: unset while the user thinks, then
/// accepted or declined.
pub fn decision_value(requested: bool) -> (r: i8)
    ensures
        requested ==> r == 1,
        !requested ==> r == -1,
{
    if requested {
        1
    } else {
        -1
    }
}

/// The update coordinator: one waiter polling one decision flag, with a
/// monotonically growing progress counter that only means something after
/// the user accepted.
pub struct UpdateCoordinator {
    pub state: UpdateState,
    pub progress: u64,
}

impl UpdateCoordinator {
    pub fn new() -> (r: UpdateCoordinator)
        ensures
            r.state == UpdateState::Idle,
            r.progress == 0,
    {
        UpdateCoordinator { state: UpdateState::Idle, progress: 0 }
    }

    /// Record what the remote check found. Only a found update moves the
    /// coordinator on; a check that found nothing leaves it idle.
    pub fn check_result(&mut self, found: bool)
        requires
            old(self).state == UpdateState::Idle,
        ensures
            final(self).state == if found {
                UpdateState::AwaitingDecision
            } else {
                UpdateState::Idle
            },
            final(self).progress == old(self).progress,
    {
        if found {
            self.state = UpdateState::AwaitingDecision;
        }
    }

    /// Record that the remote check failed: the error is the caller's to
    /// report, and the coordinator goes back to idle without retrying.
    pub fn check_failed(&mut self)
        requires
            old(self).state == UpdateState::Idle,
        ensures
            final(self).state == UpdateState::Idle,
            final(self).progress == old(self).progress,
    {
    }

    /// Read the decision flag once. Zero keeps waiting; a negative flag
    /// declines and ends the flow; a positive flag accepts, resets the
    /// progress counter and asks the caller to start the download — the
    /// returned flag is true exactly then.
    pub fn poll_decision(&mut self, flag: i8) -> (start_download: bool)
        requires
            old(self).state == UpdateState::AwaitingDecision,
        ensures
            flag == 0 ==> final(self).state == UpdateState::AwaitingDecision && !start_download
                && final(self).progress == old(self).progress,
            flag < 0 ==> final(self).state == UpdateState::Declined && !start_download
                && final(self).progress == old(self).progress,
            flag > 0 ==> final(self).state == UpdateState::Downloading && start_download
                && final(self).progress == 0,
    {
        if flag == 0 {
            false
        } else if flag < 0 {
            self.state = UpdateState::Declined;
            false
        } else {
            self.progress = 0;
            self.state = UpdateState::Downloading;
            true
        }
    }

    /// Record one downloaded chunk; the payload for the progress observers
    /// carries the running total.
    pub fn chunk_received(&mut self, chunk_len: u64, content_len: Option<u64>) -> (r:
        UpdateProgressPayload)
        requires
            old(self).state == UpdateState::Downloading,
            old(self).progress + chunk_len <= u64::MAX,
            old(self).progress + chunk_len <= usize::MAX,
        ensures
            final(self).state == UpdateState::Downloading,
            final(self).progress == old(self).progress + chunk_len,
            r.chunk_len == final(self).progress,
            r.content_len == content_len,
    {
        self.progress = self.progress + chunk_len;
        UpdateProgressPayload { chunk_len: self.progress as usize, content_len }
    }

    /// The download completed and the new version is installed.
    pub fn download_finished(&mut self)
        requires
            old(self).state == UpdateState::Downloading,
        ensures
            final(self).state == UpdateState::Installed,
            final(self).progress == old(self).progress,
    {
        self.state = UpdateState::Installed;
    }

    /// The download or installation failed; the flow ends and the running
    /// version stays in place.
    pub fn download_failed(&mut self)
        requires
            old(self).state == UpdateState::Downloading,
        ensures
            final(self).state == UpdateState::Failed,
            final(self).progress == old(self).progress,
    {
        self.state = UpdateState::Failed;
    }
}

} // verus!
