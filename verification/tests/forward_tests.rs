use remote_console::error::AppError;
use remote_console::forward::{aggregate_frames, BodyAggregator, FrameEvent, PendingRequest};

#[test]
fn aggregator_concatenates_frames_in_order() {
    let mut agg = BodyAggregator::new();
    agg.push_frame(b"O");
    agg.push_frame(b"K");
    assert_eq!(agg.into_bytes(), b"OK".to_vec());
}

#[test]
fn aggregator_starts_empty() {
    let agg = BodyAggregator::new();
    assert_eq!(agg.into_bytes(), Vec::<u8>::new());
}

#[test]
fn aggregate_frames_concatenates_all_data() {
    let frames = vec![
        FrameEvent::Data(b"he".to_vec()),
        FrameEvent::Data(b"l".to_vec()),
        FrameEvent::Data(b"lo".to_vec()),
    ];
    assert_eq!(aggregate_frames(&frames), Ok(b"hello".to_vec()));
}

#[test]
fn aggregate_frames_of_empty_stream_is_empty() {
    let frames: Vec<FrameEvent> = Vec::new();
    assert_eq!(aggregate_frames(&frames), Ok(Vec::new()));
}

#[test]
fn aggregate_frames_surfaces_a_transport_error() {
    let frames = vec![
        FrameEvent::Data(b"par".to_vec()),
        FrameEvent::Failed,
        FrameEvent::Data(b"tial".to_vec()),
    ];
    assert_eq!(aggregate_frames(&frames), Err(AppError::TransportError));
}

#[test]
fn pending_request_keeps_what_the_caller_supplied() {
    let req = PendingRequest::new(
        "POST".to_string(),
        "http://localhost/reboot".to_string(),
        "localhost".to_string(),
        b"Reboot!".to_vec(),
    );
    assert_eq!(req.method, "POST");
    assert_eq!(req.target, "http://localhost/reboot");
    assert_eq!(req.host, "localhost");
    assert_eq!(req.body, b"Reboot!".to_vec());
    assert_eq!(req.content_length(), 7);
}

#[test]
fn error_messages_classify_the_failure() {
    assert_eq!(AppError::NoConnection.message(), "no sender available");
    assert_eq!(AppError::Timeout.message(), "timeout while sending request");
    assert_eq!(AppError::TransportError.message(), "failed to send request");
    assert_eq!(AppError::HandshakeError.message(), "TLS handshake failed");
}
