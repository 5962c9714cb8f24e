//! The video frame messages that a client sends through the relay.

use vstd::prelude::*;
use crate::clock::{get_time, is_clock_reading};

verus! {

/// Seconds that must pass after a marked message before the next message
/// carries a send timestamp again.
pub const MARK_SEND_INTERVAL: u64 = 1;

/// Presentation timestamp given to every frame the client encodes.
pub const FRAME_PTS: i64 = 25;

/// One encoded video frame.
#[derive(Debug, Clone, PartialEq, Eq)]
pub struct EncodedVideoFrame {
    pub data: Vec<u8>,
    pub key: bool,
    pub pts: i64,
}

/// A batch of encoded frames of one codec.
#[derive(Debug, Clone, PartialEq, Eq)]
pub struct EncodedVideoFrames {
    pub frames: Vec<EncodedVideoFrame>,
}

/// What a video frame message holds.
#[derive(Debug, Clone, PartialEq, Eq)]
pub enum VideoFrameUnion {
    Vp9s(EncodedVideoFrames),
}

/// A video frame message: its payload and the time it was sent (0 when the
/// sender did not mark it).
#[derive(Debug, Clone, PartialEq, Eq)]
pub struct VideoFrame {
    pub union: Option<VideoFrameUnion>,
    pub timestamp: i64,
}

/// What a top-level message holds.
#[derive(Debug, Clone, PartialEq, Eq)]
pub enum MessageUnion {
    VideoFrame(VideoFrame),
}

/// A top-level message; `union` is `None` for an empty message.
#[derive(Debug, Clone, PartialEq, Eq)]
pub struct Message {
    pub union: Option<MessageUnion>,
}

impl VideoFrame {
    /// An empty video frame: no payload, timestamp 0.
    pub fn new() -> (vf: VideoFrame)
        ensures
            vf.union is None,
            vf.timestamp == 0,
    {
        VideoFrame { union: None, timestamp: 0 }
    }

    /// Makes `frames` the VP9 payload of this video frame.
    pub fn set_vp9s(&mut self, frames: EncodedVideoFrames)
        ensures
            final(self).union == Some(VideoFrameUnion::Vp9s(frames)),
            final(self).timestamp == old(self).timestamp,
    {
        self.union = Some(VideoFrameUnion::Vp9s(frames));
    }
}

impl Message {
    /// An empty message.
    pub fn new() -> (m: Message)
        ensures
            m.union is None,
    {
        Message { union: None }
    }

    /// Makes `vf` the content of this message.
    pub fn set_video_frame(&mut self, vf: VideoFrame)
        ensures
            final(self).union == Some(MessageUnion::VideoFrame(vf)),
    {
        self.union = Some(MessageUnion::VideoFrame(vf));
    }
}

/// The message that carries `frames` as VP9 payload and `timestamp` as send
/// time.
pub open spec fn spec_video_message(frames: Vec<EncodedVideoFrame>, timestamp: i64) -> Message {
    Message {
        union: Some(
            MessageUnion::VideoFrame(
                VideoFrame {
                    union: Some(VideoFrameUnion::Vp9s(EncodedVideoFrames { frames })),
                    timestamp,
                },
            ),
        ),
    }
}

/// Whether a message is due to carry a send timestamp, given the whole
/// seconds since the last marked message.
pub open spec fn spec_mark_due(elapsed_secs: u64) -> bool {
    elapsed_secs > MARK_SEND_INTERVAL
}

/// Wraps raw encoded bytes as a key frame with presentation time 25.
pub fn create_frame(frame: Vec<u8>) -> (f: EncodedVideoFrame)
    ensures
        f.data@ == frame@,
        f.key,
        f.pts == FRAME_PTS,
{
    EncodedVideoFrame { data: frame, key: true, pts: FRAME_PTS }
}

/// Decides whether the next message is marked (see `spec_mark_due`).
pub fn mark_due(elapsed_secs: u64) -> (due: bool)
    ensures
        due == spec_mark_due(elapsed_secs),
{
    elapsed_secs > MARK_SEND_INTERVAL
}

/// Builds the message that carries `vp9s` with send time `timestamp`.
pub fn video_message(vp9s: Vec<EncodedVideoFrame>, timestamp: i64) -> (m: Message)
    ensures
        m == spec_video_message(vp9s, timestamp),
{
    let mut msg_out = Message::new();
    let mut vf = VideoFrame::new();
    vf.set_vp9s(EncodedVideoFrames { frames: vp9s });
    vf.timestamp = timestamp;
    msg_out.set_video_frame(vf);
    msg_out
}

#[verifier::external_type_specification]
#[verifier::external_body]
pub struct ExInstant(std::time::Instant);

/// `std::time::Instant::now`: the current monotonic instant. Nothing is
/// claimed of it: it depends on the machine's clock.
#[verifier::external_body]
fn instant_now() -> std::time::Instant {
    std::time::Instant::now()
}

/// `std::time::Instant::elapsed`: the time passed since `since`. Nothing is
/// claimed of it: it depends on the machine's clock.
#[verifier::external_body]
fn instant_elapsed(since: &std::time::Instant) -> std::time::Duration {
    since.elapsed()
}

/// `std::time::Duration::as_secs`: the whole seconds of a duration. A
/// `Duration` is opaque here, so nothing is claimed of the number.
#[verifier::external_body]
fn duration_secs(d: &std::time::Duration) -> u64 {
    d.as_secs()
}

/// The next message of the stream and whether it is marked, when
/// `elapsed_secs` whole seconds have passed since the last marked message and
/// the clock reads `now`: a due message carries `now`, any other carries 0.
pub open spec fn spec_next_message(vp9s: Vec<EncodedVideoFrame>, elapsed_secs: u64, now: i64) -> (
    Message,
    bool,
) {
    let marked = spec_mark_due(elapsed_secs);
    (spec_video_message(vp9s, if marked { now } else { 0 }), marked)
}

/// Builds the next message of the stream (see `spec_next_message`) and says
/// whether it is marked, so that the caller moves its marker.
pub fn next_message(vp9s: Vec<EncodedVideoFrame>, elapsed_secs: u64, now: i64) -> (r: (
    Message,
    bool,
))
    ensures
        r == spec_next_message(vp9s, elapsed_secs, now),
{
    let marked = mark_due(elapsed_secs);
    let timestamp = if marked {
        now
    } else {
        0
    };
    (video_message(vp9s, timestamp), marked)
}

/// Reads a clock: the value that `clock` gives, which satisfies whatever
/// `clock` promises of its result.
fn read_clock<F: Fn() -> i64>(clock: F) -> (t: i64)
    requires
        call_requires(clock, ()),
    ensures
        call_ensures(clock, (), t),
{
    clock()
}

/// Builds the next message of the stream from `vp9s` with `next_message`,
/// given the whole seconds since `last_send_marked` and, for a due message,
/// the current time (`get_time`); a marked message moves `last_send_marked`
/// to now. The elapsed time and the clock are outside readings, so the
/// contract states what holds whichever they are: either the message is
/// unmarked (timestamp 0) and `last_send_marked` stays, or the message
/// carries a time that `get_time` gave during this call. So the marker never
/// moves without the message being stamped with the clock.
pub fn create_msg(vp9s: Vec<EncodedVideoFrame>, last_send_marked: &mut std::time::Instant) -> (m:
    Message)
    ensures
        (m == spec_video_message(vp9s, 0) && *final(last_send_marked) == *old(last_send_marked))
            || (exists|now: i64| m == spec_video_message(vp9s, now)),
        (m == spec_video_message(vp9s, 0) && *final(last_send_marked) == *old(last_send_marked))
            || (exists|now: i64|
            call_ensures(get_time, (), now) && m == spec_video_message(vp9s, now)),
        (m == spec_video_message(vp9s, 0) && *final(last_send_marked) == *old(last_send_marked))
            || (exists|now: i64| is_clock_reading(now) && m == spec_video_message(vp9s, now)),
{
    let elapsed_secs = duration_secs(&instant_elapsed(last_send_marked));
    let now = if mark_due(elapsed_secs) {
        read_clock(get_time)
    } else {
        0
    };
    let (m, marked) = next_message(vp9s, elapsed_secs, now);
    if marked {
        *last_send_marked = instant_now();
    }
    m
}

/// The send time of a video frame message, if the message is one.
pub open spec fn spec_video_timestamp(m: Message) -> Option<i64> {
    match m.union {
        Some(MessageUnion::VideoFrame(vf)) => Some(vf.timestamp),
        None => None,
    }
}

/// End-to-end latency of a message that came back through the relay: the
/// time now minus the time the message was marked with, in milliseconds;
/// `None` for a message that is not a video frame.
pub fn latency_ms(m: &Message, now: i64) -> (l: Option<i64>)
    requires
        spec_video_timestamp(*m) matches Some(ts) ==> i64::MIN <= now - ts <= i64::MAX,
    ensures
        l == match spec_video_timestamp(*m) {
            Some(ts) => Some((now - ts) as i64),
            None => None::<i64>,
        },
{
    match &m.union {
        Some(MessageUnion::VideoFrame(vf)) => Some(now - vf.timestamp),
        None => None,
    }
}

/// What the client does after sending one message, to keep its frame rate.
#[derive(Debug, Clone, Copy, PartialEq, Eq)]
pub enum Pace {
    /// Sleep this many nanoseconds before the next message.
    Sleep(u128),
    /// The send took the whole frame period or longer: go on at once and
    /// report that sending is slow.
    Behind,
}

/// Decides how long to wait before the next message when sending took
/// `elapsed_nanos` of a frame period of `period_nanos`.
pub fn pace(elapsed_nanos: u128, period_nanos: u128) -> (p: Pace)
    ensures
        elapsed_nanos < period_nanos ==> p == Pace::Sleep((period_nanos - elapsed_nanos) as u128),
        elapsed_nanos >= period_nanos ==> p == Pace::Behind,
{
    if elapsed_nanos < period_nanos {
        Pace::Sleep(period_nanos - elapsed_nanos)
    } else {
        Pace::Behind
    }
}

/// The send time read back from a message the client built is the time it
/// was built with, so the latency of a message that comes back is measured
/// from its marking.
pub proof fn lemma_video_message_timestamp_read_back(
    frames: Vec<EncodedVideoFrame>,
    timestamp: i64,
)
    ensures
        spec_video_timestamp(spec_video_message(frames, timestamp)) == Some(timestamp),
{
}

/// What an encoded frame holds, as mathematical values.
pub struct FrameView {
    pub data: Seq<u8>,
    pub key: bool,
    pub pts: i64,
}

/// What a video frame message holds: its VP9 frames, if it carries any, and
/// its send time.
pub struct VideoView {
    pub vp9s: Option<Seq<FrameView>>,
    pub timestamp: i64,
}

/// What a top-level message holds: a video frame, or nothing.
pub struct MessageView {
    pub video: Option<VideoView>,
}

impl View for EncodedVideoFrame {
    type V = FrameView;

    open spec fn view(&self) -> FrameView {
        FrameView { data: self.data@, key: self.key, pts: self.pts }
    }
}

/// The frames of a batch, as mathematical values.
pub open spec fn frames_view(frames: Seq<EncodedVideoFrame>) -> Seq<FrameView> {
    frames.map_values(|f: EncodedVideoFrame| f@)
}

impl View for VideoFrame {
    type V = VideoView;

    open spec fn view(&self) -> VideoView {
        VideoView {
            vp9s: match self.union {
                Some(VideoFrameUnion::Vp9s(fs)) => Some(frames_view(fs.frames@)),
                None => None,
            },
            timestamp: self.timestamp,
        }
    }
}

impl View for Message {
    type V = MessageView;

    open spec fn view(&self) -> MessageView {
        MessageView {
            video: match self.union {
                Some(MessageUnion::VideoFrame(vf)) => Some(vf@),
                None => None,
            },
        }
    }
}

} // verus!
