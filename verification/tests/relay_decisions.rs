use hbb_common::relay::{
    handle_connection_step, handle_request_step, AcceptAction, AcceptOutcome, ReadOutcome,
    RelayAction, RelayError,
};
use hbb_common::video::{create_frame, video_message, Message, MessageUnion, VideoFrame};

fn received(bytes: Vec<u8>, parsed: Result<Message, String>) -> ReadOutcome {
    ReadOutcome::Received { bytes, parsed }
}

#[test]
fn marked_video_frame_is_forwarded_unchanged() {
    let m = video_message(vec![create_frame(vec![1, 2])], 1_700_000_000_000);
    let a = handle_request_step(received(vec![10, 20, 30], Ok(m)));
    assert_eq!(a, RelayAction::Forward(vec![10, 20, 30]));
}

#[test]
fn unmarked_video_frame_is_skipped() {
    let m = video_message(vec![create_frame(vec![1, 2])], 0);
    assert_eq!(handle_request_step(received(vec![1], Ok(m))), RelayAction::Skip);
}

#[test]
fn negative_timestamp_is_skipped() {
    let mut vf = VideoFrame::new();
    vf.timestamp = -5;
    let mut m = Message::new();
    m.set_video_frame(vf);
    assert_eq!(handle_request_step(received(vec![1], Ok(m))), RelayAction::Skip);
}

#[test]
fn video_frame_without_payload_but_marked_is_forwarded() {
    let mut vf = VideoFrame::new();
    vf.timestamp = 1;
    let m = Message { union: Some(MessageUnion::VideoFrame(vf)) };
    assert_eq!(handle_request_step(received(vec![7], Ok(m))), RelayAction::Forward(vec![7]));
}

#[test]
fn empty_message_is_reported() {
    assert_eq!(handle_request_step(received(vec![], Ok(Message::new()))), RelayAction::ReportEmpty);
}

#[test]
fn parse_failure_stops_the_stream() {
    let a = handle_request_step(received(vec![0xff], Err("bad wire type".to_string())));
    assert_eq!(a, RelayAction::Stop(RelayError::ParseFailed("bad wire type".to_string())));
}

#[test]
fn read_failure_stops_the_stream() {
    let a = handle_request_step(ReadOutcome::Failed("reset".to_string()));
    assert_eq!(a, RelayAction::Stop(RelayError::ReadFailed("reset".to_string())));
}

#[test]
fn end_of_stream_stops_the_stream() {
    assert_eq!(handle_request_step(ReadOutcome::Ended), RelayAction::Stop(RelayError::StreamEnded));
}

#[test]
fn accept_decisions() {
    assert_eq!(handle_connection_step(AcceptOutcome::Opened), AcceptAction::Serve);
    assert_eq!(handle_connection_step(AcceptOutcome::ApplicationClosed), AcceptAction::Finish);
    assert_eq!(
        handle_connection_step(AcceptOutcome::Failed("timed out".to_string())),
        AcceptAction::Fail("timed out".to_string())
    );
}

#[test]
fn client_message_relayed_iff_marked() {
    for ts in [-1i64, 0, 1, 1_700_000_000_000] {
        let m = video_message(vec![create_frame(vec![3])], ts);
        let a = handle_request_step(received(vec![5, 6], Ok(m)));
        if ts > 0 {
            assert_eq!(a, RelayAction::Forward(vec![5, 6]));
        } else {
            assert_eq!(a, RelayAction::Skip);
        }
    }
}

#[test]
fn serving_a_stream_echoes_marked_frames_until_stop() {
    let marked = |b: Vec<u8>, ts: i64| received(b, Ok(video_message(vec![create_frame(vec![0])], ts)));
    let events = vec![
        marked(vec![1], 5),
        marked(vec![2], 0),
        received(vec![3], Ok(Message::new())),
        marked(vec![4], 9),
        ReadOutcome::Failed("reset".to_string()),
        marked(vec![5], 7),
    ];
    let mut sent = Vec::new();
    let mut stopped = None;
    for e in events {
        match handle_request_step(e) {
            RelayAction::Forward(b) => sent.push(b),
            RelayAction::Stop(err) => {
                stopped = Some(err);
                break;
            }
            _ => {}
        }
    }
    assert_eq!(sent, vec![vec![1], vec![4]]);
    assert_eq!(stopped, Some(RelayError::ReadFailed("reset".to_string())));
}
