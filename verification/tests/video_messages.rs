use hbb_common::clock::{get_time, timestamp_from_millis};
use hbb_common::video::{
    create_frame, create_msg, mark_due, next_message, video_message, EncodedVideoFrame, EncodedVideoFrames,
    Message, MessageUnion, VideoFrame, VideoFrameUnion, FRAME_PTS, MARK_SEND_INTERVAL,
};
use std::time::{Duration, Instant};

fn frames_of(m: &Message) -> (&Vec<EncodedVideoFrame>, i64) {
    match &m.union {
        Some(MessageUnion::VideoFrame(VideoFrame {
            union: Some(VideoFrameUnion::Vp9s(EncodedVideoFrames { frames })),
            timestamp,
        })) => (frames, *timestamp),
        _ => panic!("not a VP9 video frame message"),
    }
}

#[test]
fn timestamp_of_a_reading() {
    assert_eq!(timestamp_from_millis(Some(1_700_000_000_123)), 1_700_000_000_123);
    assert_eq!(timestamp_from_millis(None), 0);
    assert_eq!(timestamp_from_millis(Some((1u128 << 64) + 5)), 5);
    assert_eq!(timestamp_from_millis(Some(u64::MAX as u128)), -1);
}

#[test]
fn get_time_is_after_2020() {
    let t = get_time();
    assert!(t > 1_577_836_800_000);
}

#[test]
fn create_frame_makes_key_frame() {
    let f = create_frame(vec![1, 2, 3]);
    assert_eq!(f.data, vec![1, 2, 3]);
    assert!(f.key);
    assert_eq!(f.pts, 25);
    assert_eq!(FRAME_PTS, 25);
}

#[test]
fn create_frame_of_empty_bytes() {
    let f = create_frame(Vec::new());
    assert!(f.data.is_empty());
    assert!(f.key);
    assert_eq!(f.pts, 25);
}

#[test]
fn mark_due_after_more_than_one_second() {
    assert_eq!(MARK_SEND_INTERVAL, 1);
    assert!(!mark_due(0));
    assert!(!mark_due(1));
    assert!(mark_due(2));
    assert!(mark_due(u64::MAX));
}

#[test]
fn video_message_carries_frames_and_time() {
    let frames = vec![create_frame(vec![9]), create_frame(vec![8, 7])];
    let m = video_message(frames.clone(), 42);
    let (got, ts) = frames_of(&m);
    assert_eq!(got, &frames);
    assert_eq!(ts, 42);
}

#[test]
fn empty_message_and_setters() {
    let mut m = Message::new();
    assert_eq!(m.union, None);
    let mut vf = VideoFrame::new();
    assert_eq!(vf.union, None);
    assert_eq!(vf.timestamp, 0);
    vf.timestamp = 3;
    vf.set_vp9s(EncodedVideoFrames { frames: vec![] });
    assert_eq!(vf.timestamp, 3);
    m.set_video_frame(vf.clone());
    assert_eq!(m.union, Some(MessageUnion::VideoFrame(vf)));
}

#[test]
fn create_msg_unmarked_right_after_a_mark() {
    let start = Instant::now();
    let mut last = start;
    let frames = vec![create_frame(vec![1])];
    let m = create_msg(frames.clone(), &mut last);
    let (got, ts) = frames_of(&m);
    assert_eq!(got, &frames);
    assert_eq!(ts, 0);
    assert_eq!(last, start);
}

#[test]
fn create_msg_marks_after_the_interval() {
    let start = Instant::now() - Duration::from_secs(5);
    let mut last = start;
    let frames = vec![create_frame(vec![4, 5])];
    let before = get_time();
    let m = create_msg(frames.clone(), &mut last);
    let (got, ts) = frames_of(&m);
    assert_eq!(got, &frames);
    assert!(ts >= before);
    assert!(last > start);
    let again = create_msg(frames.clone(), &mut last);
    assert_eq!(frames_of(&again).1, 0);
}

#[test]
fn next_message_stamps_only_due_messages() {
    let frames = vec![create_frame(vec![1, 2, 3])];
    let (m, marked) = next_message(frames.clone(), 1, 777);
    assert!(!marked);
    assert_eq!(frames_of(&m), (&frames, 0));
    let (m, marked) = next_message(frames.clone(), 2, 777);
    assert!(marked);
    assert_eq!(frames_of(&m), (&frames, 777));
}

#[test]
fn create_msg_one_and_a_half_seconds_after_a_mark() {
    let mut t = Instant::now() - Duration::from_millis(1500);
    let t0 = t;
    let f = create_frame(vec![1u8, 2, 3]);
    let m = create_msg(vec![f.clone()], &mut t);
    assert_eq!(frames_of(&m), (&vec![f], 0));
    assert_eq!(t, t0);
}
