use hbb_common::relay::{handle_read, RelayAction, RelayError};
use hbb_common::video::{
    create_frame, video_message, EncodedVideoFrame, Message, MessageUnion, VideoFrameUnion,
};
use hbb_common::wire::{decode_frame, parse_message};

// EncodedVideoFrame { data: [1, 2], key: true, pts: 25 }
const FRAME: [u8; 8] = [0x0a, 0x02, 0x01, 0x02, 0x10, 0x01, 0x18, 0x19];

fn frames_bytes() -> Vec<u8> {
    let mut v = vec![0x0a, FRAME.len() as u8];
    v.extend_from_slice(&FRAME);
    v
}

fn video_bytes(timestamp: Option<u8>) -> Vec<u8> {
    let frames = frames_bytes();
    let mut v = vec![0x32, frames.len() as u8];
    v.extend_from_slice(&frames);
    if let Some(t) = timestamp {
        v.extend_from_slice(&[0x48, t]);
    }
    v
}

fn message_bytes(timestamp: Option<u8>) -> Vec<u8> {
    let video = video_bytes(timestamp);
    let mut v = vec![0x32, video.len() as u8];
    v.extend_from_slice(&video);
    v
}

#[test]
fn frame_fields_are_read() {
    let f = decode_frame(&FRAME).unwrap();
    assert_eq!(f, EncodedVideoFrame { data: vec![1, 2], key: true, pts: 25 });
}

#[test]
fn absent_frame_fields_take_defaults() {
    let f = decode_frame(&[]).unwrap();
    assert_eq!(f, EncodedVideoFrame { data: vec![], key: false, pts: 0 });
}

#[test]
fn last_value_of_a_field_wins() {
    let f = decode_frame(&[0x18, 0x01, 0x18, 0x07]).unwrap();
    assert_eq!(f.pts, 7);
}

#[test]
fn marked_video_message_parses() {
    let m = parse_message(&message_bytes(Some(5))).unwrap();
    match m.union {
        Some(MessageUnion::VideoFrame(vf)) => {
            assert_eq!(vf.timestamp, 5);
            match vf.union {
                Some(VideoFrameUnion::Vp9s(fs)) => {
                    assert_eq!(fs.frames, vec![EncodedVideoFrame { data: vec![1, 2], key: true, pts: 25 }])
                }
                None => panic!("no payload"),
            }
        }
        None => panic!("no video frame"),
    }
}

#[test]
fn unknown_fields_are_skipped() {
    let mut bytes = vec![0x18, 0x01];
    bytes.extend_from_slice(&message_bytes(Some(9)));
    let m = parse_message(&bytes).unwrap();
    assert!(matches!(m.union, Some(MessageUnion::VideoFrame(ref vf)) if vf.timestamp == 9));
    assert_eq!(parse_message(&[0x18, 0x01]).unwrap().union, None);
}

#[test]
fn truncated_bytes_do_not_parse() {
    assert!(parse_message(&[0xff]).is_err());
    assert!(parse_message(&[0x32, 0x05, 0x00]).is_err());
}

#[test]
fn malformed_nested_frame_fails_the_message() {
    // video_frame holding vp9s holding a frame cut short
    let bad_frame = [0x0a, 0x05, 0x01];
    let mut frames = vec![0x0a, bad_frame.len() as u8];
    frames.extend_from_slice(&bad_frame);
    let mut video = vec![0x32, frames.len() as u8];
    video.extend_from_slice(&frames);
    let mut msg = vec![0x32, video.len() as u8];
    msg.extend_from_slice(&video);
    assert!(parse_message(&msg).is_err());
}

#[test]
fn handle_read_forwards_marked_frames_unchanged() {
    let bytes = message_bytes(Some(5));
    assert_eq!(handle_read(Some(Ok(bytes.clone()))), RelayAction::Forward(bytes));
}

#[test]
fn handle_read_skips_unmarked_frames() {
    assert_eq!(handle_read(Some(Ok(message_bytes(None)))), RelayAction::Skip);
}

#[test]
fn handle_read_reports_empty_messages() {
    assert_eq!(handle_read(Some(Ok(vec![]))), RelayAction::ReportEmpty);
}

#[test]
fn handle_read_stops_on_bad_frames_and_ends() {
    assert!(matches!(
        handle_read(Some(Ok(vec![0xff]))),
        RelayAction::Stop(RelayError::ParseFailed(_))
    ));
    assert_eq!(
        handle_read(Some(Err("reset".to_string()))),
        RelayAction::Stop(RelayError::ReadFailed("reset".to_string()))
    );
    assert_eq!(handle_read(None), RelayAction::Stop(RelayError::StreamEnded));
}

#[test]
fn encode_writes_the_schema_fields() {
    let m = video_message(vec![create_frame(vec![1, 2])], 5);
    let frames = frames_bytes();
    let mut video = vec![0x48, 0x05, 0x32, frames.len() as u8];
    video.extend_from_slice(&frames);
    let mut expected = vec![0x32, video.len() as u8];
    expected.extend_from_slice(&video);
    assert_eq!(hbb_common::wire::encode_message(&m).unwrap(), expected);
}

#[test]
fn encode_then_parse_gives_the_message_back() {
    for ts in [0i64, 1, -3, 1_700_000_000_000] {
        let m = video_message(vec![create_frame(vec![7; 300]), create_frame(vec![])], ts);
        let bytes = hbb_common::wire::encode_message(&m).unwrap();
        assert_eq!(parse_message(&bytes).unwrap(), m);
    }
    assert_eq!(hbb_common::wire::encode_message(&Message::new()).unwrap(), Vec::<u8>::new());
}
