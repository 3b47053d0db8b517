use ciphey::setup::{SetupApp, SetupState};
use ciphey::setup_download::{DownloadMessage, DownloadPoll};

fn downloading(progress_permille: u32) -> SetupApp {
    let mut app = SetupApp::new();
    app.enhanced_detection = true;
    app.hf_token = Some("hf_x".to_string());
    app.state = SetupState::Downloading {
        progress_permille,
        status: "Preparing download...".to_string(),
        failed: false,
        error: None,
    };
    app
}

fn shown(app: &SetupApp) -> (u32, String, bool, Option<String>) {
    match &app.state {
        SetupState::Downloading { progress_permille, status, failed, error } => {
            (*progress_permille, status.clone(), *failed, error.clone())
        }
        _ => panic!("expected the download step"),
    }
}

#[test]
fn download_starts_once_with_a_token() {
    let mut app = downloading(0);
    assert!(app.download_should_start(false));
    assert!(!app.download_should_start(true));
    app.hf_token = None;
    assert!(!app.download_should_start(false));
    assert!(!downloading(10).download_should_start(false));
    assert!(!SetupApp::new().download_should_start(false));
}

#[test]
fn waiting_creeps_the_progress_up() {
    let mut app = downloading(0);
    assert!(!app.handle_download_poll(DownloadPoll::Empty));
    assert_eq!(shown(&app), (1, "Preparing download...".to_string(), false, None));
    let mut app = downloading(100);
    app.handle_download_poll(DownloadPoll::Empty);
    assert_eq!(shown(&app), (101, "Downloading model...".to_string(), false, None));
    let mut app = downloading(950);
    app.handle_download_poll(DownloadPoll::Empty);
    assert_eq!(shown(&app), (950, "Preparing download...".to_string(), false, None));
}

#[test]
fn progress_reports_are_shown() {
    let mut app = downloading(0);
    let stop = app.handle_download_poll(DownloadPoll::Message(DownloadMessage::Progress(
        50,
        "Starting download...".to_string(),
    )));
    assert!(!stop);
    assert_eq!(shown(&app), (50, "Starting download...".to_string(), false, None));
}

#[test]
fn a_failed_or_lost_download_marks_the_step_failed() {
    let mut app = downloading(30);
    assert!(app.handle_download_poll(DownloadPoll::Message(DownloadMessage::Failed("no network".to_string()))));
    assert_eq!(shown(&app), (30, "Download failed".to_string(), true, Some("no network".to_string())));
    let mut app = downloading(30);
    assert!(app.handle_download_poll(DownloadPoll::Disconnected));
    assert_eq!(
        shown(&app),
        (30, "Download failed".to_string(), true, Some("Download thread disconnected unexpectedly".to_string()))
    );
}

#[test]
fn a_finished_download_moves_on() {
    let mut app = downloading(700);
    assert!(app.handle_download_poll(DownloadPoll::Message(DownloadMessage::Complete("/m/model.bin".to_string()))));
    assert_eq!(app.model_path, Some("/m/model.bin".to_string()));
    assert!(matches!(app.state, SetupState::CuteCat));
    assert!(app.enhanced_detection);
}

#[test]
fn the_wizard_ends_on_quit_or_at_its_end() {
    let mut app = SetupApp::new();
    assert!(!app.wizard_finished());
    app.state = SetupState::Complete;
    assert!(app.wizard_finished());
    let mut app = SetupApp::new();
    app.should_quit = true;
    assert!(app.wizard_finished());
}
