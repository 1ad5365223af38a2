//! Waiting for a torrent to finish: after each sync report, what to do next.
use vstd::prelude::*;
use crate::qbit::models::TorrentState;
use crate::qbit::partial::PartialTorrent;

verus! {

/// The ETA qBittorrent reports for a torrent that will never finish.
pub const QBITTORRENT_INFINITE: u64 = 8640000;
/// Seconds to wait for a torrent that has not started downloading yet.
pub const DEFAULT_TIMEOUT: u64 = 5;
pub const MAX_TIMEOUT: u64 = 60;
pub const MIN_TIMEOUT: u64 = 1;
/// The bits of the progress `1.0` (`1.0f64.to_bits()`): downloaded completely.
pub const PROGRESS_COMPLETE: u64 = 0x3ff0_0000_0000_0000;

/// What waiting does after a sync report.
#[derive(Debug, Clone, Copy, PartialEq, Eq, Structural)]
pub enum WaitStep {
    /// The torrent is complete: hand it back.
    Complete,
    /// Sleep this many seconds, then sync again.
    Sleep(u64),
    /// The torrent is gone, or will never finish: it is not found.
    NotFound,
}

/// The states in which a torrent has not started downloading yet.
pub open spec fn is_starting(state: TorrentState) -> bool {
    ||| state == TorrentState::Allocating
    ||| state == TorrentState::MetaDL
    ||| state == TorrentState::QueuedDL
    ||| state == TorrentState::CheckingDL
    ||| state == TorrentState::CheckingResumeData
}

/// `eta` held between the shortest and the longest wait.
pub open spec fn clamped_wait(eta: u64) -> u64 {
    if eta > MAX_TIMEOUT {
        MAX_TIMEOUT
    } else if eta < MIN_TIMEOUT {
        MIN_TIMEOUT
    } else {
        eta
    }
}

/// The next step for a torrent that the report lists: complete when its
/// progress is 1, a short sleep while it starts, not found when it will never
/// finish, else a sleep as long as its ETA (between 1 and 60 seconds).
pub open spec fn step_spec(progress: u64, eta: u64, state: TorrentState) -> WaitStep {
    if progress == PROGRESS_COMPLETE {
        WaitStep::Complete
    } else if is_starting(state) {
        WaitStep::Sleep(DEFAULT_TIMEOUT)
    } else if eta == QBITTORRENT_INFINITE {
        WaitStep::NotFound
    } else {
        WaitStep::Sleep(clamped_wait(eta))
    }
}

/// What to do after a sync report in which the torrent is `torrent` (`None`
/// when the report does not list it). A listed torrent must carry its
/// progress, ETA and state, as sync reports do.
pub fn next_wait_step(torrent: Option<&PartialTorrent>) -> (r: WaitStep)
    requires
        torrent matches Some(t) ==> t.progress is Some && t.eta is Some && t.state is Some,
    ensures
        torrent is None ==> r == WaitStep::NotFound,
        torrent matches Some(t) ==> r == step_spec(
            t.progress->0,
            t.eta->0 as u64,
            t.state->0,
        ),
{
    match torrent {
        None => WaitStep::NotFound,
        Some(t) => {
            let progress = match t.progress {
                Some(p) => p,
                None => 0,
            };
            let eta = match t.eta {
                Some(e) => e as u64,
                None => 0,
            };
            let state = match t.state {
                Some(s) => s,
                None => TorrentState::Unknown,
            };
            if progress == PROGRESS_COMPLETE {
                return WaitStep::Complete;
            }
            let starting = match state {
                TorrentState::Allocating | TorrentState::MetaDL | TorrentState::QueuedDL
                | TorrentState::CheckingDL | TorrentState::CheckingResumeData => true,
                _ => false,
            };
            if starting {
                WaitStep::Sleep(DEFAULT_TIMEOUT)
            } else if eta == QBITTORRENT_INFINITE {
                WaitStep::NotFound
            } else if eta > MAX_TIMEOUT {
                WaitStep::Sleep(MAX_TIMEOUT)
            } else if eta < MIN_TIMEOUT {
                WaitStep::Sleep(MIN_TIMEOUT)
            } else {
                WaitStep::Sleep(eta)
            }
        },
    }
}

/// Every sleep lasts between 1 and 60 seconds, so waiting always syncs again within a minute.
pub proof fn lemma_sleeps_bounded(progress: u64, eta: u64, state: TorrentState)
    ensures
        step_spec(progress, eta, state) matches WaitStep::Sleep(s) ==> MIN_TIMEOUT <= s <= MAX_TIMEOUT,
{
}

/// A torrent that is not complete and has not started downloading yet
/// (allocating, fetching metadata, queued, checking, or checking resume data)
/// is waited for a fixed 5 seconds, whatever its ETA: it is never given up.
pub proof fn lemma_starting_torrents_are_waited_for(progress: u64, eta: u64, state: TorrentState)
    requires
        progress != 0x3ff0_0000_0000_0000u64,
        state == TorrentState::Allocating || state == TorrentState::MetaDL
            || state == TorrentState::QueuedDL || state == TorrentState::CheckingDL
            || state == TorrentState::CheckingResumeData,
    ensures
        step_spec(progress, eta, state) == WaitStep::Sleep(5),
{
}

/// A complete torrent (progress 1.0) is handed back, whatever its state and ETA.
pub proof fn lemma_complete_torrents_are_done(eta: u64, state: TorrentState)
    ensures
        step_spec(0x3ff0_0000_0000_0000u64, eta, state) == WaitStep::Complete,
{
}

/// A torrent that is downloading, seeding, paused, stalled or in any other
/// state past the start is given up only when its ETA is qBittorrent's
/// infinity (8640000); otherwise it is waited for its ETA, held between 1 and
/// 60 seconds.
pub proof fn lemma_started_torrents_wait_for_eta(progress: u64, eta: u64, state: TorrentState)
    requires
        progress != 0x3ff0_0000_0000_0000u64,
        state != TorrentState::Allocating && state != TorrentState::MetaDL
            && state != TorrentState::QueuedDL && state != TorrentState::CheckingDL
            && state != TorrentState::CheckingResumeData,
    ensures
        eta == 8640000 ==> step_spec(progress, eta, state) == WaitStep::NotFound,
        eta != 8640000 && eta > 60 ==> step_spec(progress, eta, state) == WaitStep::Sleep(60),
        eta != 8640000 && eta < 1 ==> step_spec(progress, eta, state) == WaitStep::Sleep(1),
        eta != 8640000 && 1 <= eta <= 60 ==> step_spec(progress, eta, state) == WaitStep::Sleep(eta),
{
}

} // verus!
