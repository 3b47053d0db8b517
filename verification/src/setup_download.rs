//! The decisions of the setup wizard's loop around the model download: when
//! the download starts, what each report from it does to the wizard, and
//! when the wizard ends. The download itself, the channel it reports on and
//! the terminal belong to the caller.

use vstd::prelude::*;

use crate::setup::{next_step_spec, SetupApp, SetupAppView, SetupState, SetupStateView};

verus! {

/// A report from the model download.
pub enum DownloadMessage {
    /// Progress, in thousandths, and what the download is doing.
    Progress(u32, String),
    /// Done: where the model was stored.
    Complete(String),
    /// Failed, with the error.
    Failed(String),
}

/// What polling the download's channel gave.
pub enum DownloadPoll {
    /// A report.
    Message(DownloadMessage),
    /// Nothing yet.
    Empty,
    /// The download went away without a last report.
    Disconnected,
}

/// Progress shown while waiting, in thousandths, creeps up to this.
pub const CREEP_LIMIT: u32 = 950;

/// Whether the model download is to start in the wizard `a`: the download
/// step has not begun nor failed, no download is being listened to
/// (`listening`), and a token was given.
pub open spec fn download_due(a: SetupAppView, listening: bool) -> bool {
    &&& a.state matches SetupStateView::Downloading { progress_permille, failed, .. }
        && progress_permille == 0 && !failed
    &&& !listening
    &&& a.hf_token is Some
}

/// The wizard `a` with its download step failed for `error`.
pub open spec fn download_failed(a: SetupAppView, error: Seq<char>) -> SetupAppView {
    match a.state {
        SetupStateView::Downloading { progress_permille, .. } => SetupAppView {
            state: SetupStateView::Downloading {
                progress_permille,
                status: "Download failed"@,
                failed: true,
                error: Some(error),
            },
            ..a
        },
        _ => a,
    }
}

/// The wizard `a` after waiting one more round for the download: the
/// progress creeps up by a thousandth below `CREEP_LIMIT`, and reads
/// "Downloading model..." between a tenth and nine tenths.
pub open spec fn download_waited(a: SetupAppView) -> SetupAppView {
    match a.state {
        SetupStateView::Downloading { progress_permille, status, failed, error } => if progress_permille
            < CREEP_LIMIT {
            let p = (progress_permille + 1) as u32;
            SetupAppView {
                state: SetupStateView::Downloading {
                    progress_permille: p,
                    status: if 100 < p && p < 900 {
                        "Downloading model..."@
                    } else {
                        status
                    },
                    failed,
                    error,
                },
                ..a
            }
        } else {
            a
        },
        _ => a,
    }
}

/// The wizard after the poll `poll` of the download's channel in the wizard
/// `a`, and whether to stop listening to the channel: a progress report is
/// shown; completion records the model's place and moves on; a failure, or
/// the channel going away, marks the step failed; with nothing yet the
/// progress creeps up (see `download_waited`).
pub open spec fn download_polled(a: SetupAppView, poll: DownloadPoll) -> (SetupAppView, bool) {
    match poll {
        DownloadPoll::Message(DownloadMessage::Progress(p, s)) => (
            match a.state {
                SetupStateView::Downloading { failed, error, .. } => SetupAppView {
                    state: SetupStateView::Downloading {
                        progress_permille: p,
                        status: s@,
                        failed,
                        error,
                    },
                    ..a
                },
                _ => a,
            },
            false,
        ),
        DownloadPoll::Message(DownloadMessage::Complete(path)) => (
            next_step_spec(SetupAppView { model_path: Some(path@), ..a }),
            true,
        ),
        DownloadPoll::Message(DownloadMessage::Failed(e)) => (download_failed(a, e@), true),
        DownloadPoll::Empty => (download_waited(a), false),
        DownloadPoll::Disconnected => (
            download_failed(a, "Download thread disconnected unexpectedly"@),
            true,
        ),
    }
}

impl SetupApp {
    /// Whether to start the model download (see `download_due`).
    pub fn download_should_start(&self, listening: bool) -> (r: bool)
        ensures
            r == download_due(self@, listening),
    {
        match &self.state {
            SetupState::Downloading { progress_permille, failed, .. } => *progress_permille == 0
                && !*failed && !listening && self.hf_token.is_some(),
            _ => false,
        }
    }

    /// Marks the download step failed for `error`.
    fn fail_download(&mut self, error: String)
        ensures
            final(self)@ == download_failed(old(self)@, error@),
    {
        match &mut self.state {
            SetupState::Downloading { failed, error: err, status, .. } => {
                *failed = true;
                *err = Some(error);
                *status = String::from_str("Download failed");
            },
            _ => {},
        }
    }

    /// Takes the poll `poll` of the download's channel (see
    /// `download_polled`); returns whether to stop listening to the channel.
    pub fn handle_download_poll(&mut self, poll: DownloadPoll) -> (stop: bool)
        ensures
            (final(self)@, stop) == download_polled(old(self)@, poll),
    {
        match poll {
            DownloadPoll::Message(DownloadMessage::Progress(p, s)) => {
                match &mut self.state {
                    SetupState::Downloading { progress_permille, status, .. } => {
                        *progress_permille = p;
                        *status = s;
                    },
                    _ => {},
                }
                false
            },
            DownloadPoll::Message(DownloadMessage::Complete(path)) => {
                self.model_path = Some(path);
                self.next_step();
                true
            },
            DownloadPoll::Message(DownloadMessage::Failed(e)) => {
                self.fail_download(e);
                true
            },
            DownloadPoll::Empty => {
                match &mut self.state {
                    SetupState::Downloading { progress_permille, status, .. } => {
                        if *progress_permille < CREEP_LIMIT {
                            *progress_permille = *progress_permille + 1;
                            if 100 < *progress_permille && *progress_permille < 900 {
                                *status = String::from_str("Downloading model...");
                            }
                        }
                    },
                    _ => {},
                }
                false
            },
            DownloadPoll::Disconnected => {
                self.fail_download(String::from_str("Download thread disconnected unexpectedly"));
                true
            },
        }
    }

    /// Whether the wizard is over: the user quit, or it reached its end.
    pub fn wizard_finished(&self) -> (r: bool)
        ensures
            r == (self.should_quit || self@.state is Complete),
    {
        self.should_quit || matches!(self.state, SetupState::Complete)
    }
}

} // verus!
