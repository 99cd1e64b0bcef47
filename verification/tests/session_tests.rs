use remote_console::error::AppError;
use remote_console::forward::{aggregate_frames, FrameEvent};
use remote_console::state::{AppState, SendOutcome, SEND_TIMEOUT_SECS};
use remote_console::tls::Session;

#[test]
fn the_send_time_budget_is_five_seconds() {
    assert_eq!(SEND_TIMEOUT_SECS, 5);
}

#[test]
fn forwarding_over_a_working_handle_returns_the_peers_body() {
    let mut slot = AppState::new();
    let mut session = Session::new();
    session.handshake_completed(true).unwrap();
    let g = session.channel_established(&mut slot);

    assert_eq!(slot.send_request(), Ok(g));
    assert_eq!(slot.complete_send(SendOutcome::Responded), Ok(()));
    let frames = vec![FrameEvent::Data(b"OK".to_vec())];
    assert_eq!(aggregate_frames(&frames), Ok(b"OK".to_vec()));
    assert!(slot.has_sender());
}

#[test]
fn handshake_failure_is_a_recoverable_value() {
    let mut session = Session::new();
    let r = session.handshake_completed(false);
    assert_eq!(r, Err(AppError::HandshakeError));
}

#[test]
fn a_session_installs_and_later_clears_its_handle() {
    let mut slot = AppState::new();
    let mut session = Session::new();
    assert_eq!(session.handshake_completed(true), Ok(()));
    session.channel_established(&mut slot);
    assert!(slot.has_sender());
    session.driver_terminated(&mut slot);
    assert!(!slot.has_sender());
}

#[test]
fn a_replaced_session_leaves_the_newer_handle_intact() {
    let mut slot = AppState::new();

    let mut first = Session::new();
    first.handshake_completed(true).unwrap();
    first.channel_established(&mut slot);

    let mut second = Session::new();
    second.handshake_completed(true).unwrap();
    let newer = second.channel_established(&mut slot);

    first.driver_terminated(&mut slot);
    assert!(slot.has_sender());
    assert_eq!(slot.send_request(), Ok(newer));

    second.driver_terminated(&mut slot);
    assert!(!slot.has_sender());
}

#[test]
fn termination_after_a_timeout_clear_leaves_the_slot_empty() {
    let mut slot = AppState::new();
    let mut session = Session::new();
    session.handshake_completed(true).unwrap();
    session.channel_established(&mut slot);

    let r = slot.complete_send(SendOutcome::TimedOut);
    assert_eq!(r, Err(AppError::Timeout));
    assert!(!slot.has_sender());

    session.driver_terminated(&mut slot);
    assert!(!slot.has_sender());
}
