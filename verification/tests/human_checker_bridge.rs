use ciphey::human_checker_bridge::{
    init_tui_confirmation_channel, is_tui_confirmation_active, reinit_tui_confirmation_channel,
    request_tui_confirmation, take_confirmation_receiver, ConfirmationChannel,
};
use ciphey::state::{CheckResult, HumanConfirmationRequest};

fn make_test_check_result() -> CheckResult {
    CheckResult {
        is_identified: true,
        text: "test plaintext".to_string(),
        description: "Test description".to_string(),
        checker_name: "TestChecker",
        checker_description: "A test checker",
        link: "https://example.com",
    }
}

#[test]
fn test_human_confirmation_request_from_check_result() {
    let check_result = make_test_check_result();
    let request = HumanConfirmationRequest::from(&check_result);

    assert_eq!(request.text, "test plaintext");
    assert_eq!(request.description, "Test description");
    assert_eq!(request.checker_name, "TestChecker");
}

#[test]
fn test_init_channel_is_idempotent() {
    let mut channel = ConfirmationChannel::new();
    assert!(init_tui_confirmation_channel(&mut channel));
    assert!(is_tui_confirmation_active(&channel));

    assert!(init_tui_confirmation_channel(&mut channel));
    assert!(is_tui_confirmation_active(&channel));
}

#[test]
fn test_take_receiver_returns_none_after_take() {
    let mut channel = ConfirmationChannel::new();
    init_tui_confirmation_channel(&mut channel);

    let rx = take_confirmation_receiver(&mut channel);
    assert!(rx.is_some());

    let rx2 = take_confirmation_receiver(&mut channel);
    assert!(rx2.is_none());
}

#[test]
fn test_reinit_provides_fresh_receiver() {
    let mut channel = ConfirmationChannel::new();
    init_tui_confirmation_channel(&mut channel);
    let _ = take_confirmation_receiver(&mut channel);

    let rx = reinit_tui_confirmation_channel(&mut channel);
    assert!(rx.is_some());
}

#[test]
fn test_request_returns_none_when_not_initialised() {
    let mut channel = ConfirmationChannel::new();
    channel.clear_sender();

    let check_result = make_test_check_result();
    assert!(request_tui_confirmation(&channel, &check_result).is_none());
}

#[test]
fn new_channel_is_inactive() {
    let channel = ConfirmationChannel::new();
    assert!(!is_tui_confirmation_active(&channel));
}

#[test]
fn take_before_init_gives_none() {
    let mut channel = ConfirmationChannel::new();
    assert!(take_confirmation_receiver(&mut channel).is_none());
}

#[test]
fn request_gives_none_when_receiver_is_gone() {
    let mut channel = ConfirmationChannel::new();
    init_tui_confirmation_channel(&mut channel);
    drop(take_confirmation_receiver(&mut channel));
    let check_result = make_test_check_result();
    assert_eq!(request_tui_confirmation(&channel, &check_result), None);
}
