//! The relay server's decisions: which incoming connections and streams it
//! serves, and what it does with each message read from a stream.

use vstd::prelude::*;
use crate::video::{Message, MessageUnion, MessageView, VideoFrame, EncodedVideoFrame, spec_video_message};
use crate::wire::{parse_message, spec_decode_message};

verus! {

/// What one read from a framed stream gave.
#[derive(Debug, PartialEq, Eq)]
pub enum ReadOutcome {
    /// The stream has no more frames.
    Ended,
    /// Reading the next frame failed; the text describes the failure.
    Failed(String),
    /// A frame arrived: its bytes, and what parsing them as a `Message` gave
    /// (the parse error's description on failure).
    Received { bytes: Vec<u8>, parsed: Result<Message, String> },
}

/// Why the relay stops serving a stream.
#[derive(Debug, Clone, PartialEq, Eq)]
pub enum RelayError {
    /// The stream ended.
    StreamEnded,
    /// Reading from the stream failed.
    ReadFailed(String),
    /// A frame did not parse as a message.
    ParseFailed(String),
}

/// What the relay does after a read.
#[derive(Debug, Clone, PartialEq, Eq)]
pub enum RelayAction {
    /// Send these bytes back on the stream, unchanged, and read on.
    Forward(Vec<u8>),
    /// Read on without sending anything.
    Skip,
    /// Report a message without content, and read on.
    ReportEmpty,
    /// Stop serving the stream with this error.
    Stop(RelayError),
}

/// Whether a parsed message is a video frame that its sender marked with a
/// positive send time: the messages that the relay forwards.
pub open spec fn is_marked_video(m: Message) -> bool {
    match m.union {
        Some(MessageUnion::VideoFrame(vf)) => vf.timestamp > 0,
        None => false,
    }
}

/// The relay's answer to one read.
pub open spec fn spec_relay_action(event: ReadOutcome) -> RelayAction {
    match event {
        ReadOutcome::Ended => RelayAction::Stop(RelayError::StreamEnded),
        ReadOutcome::Failed(e) => RelayAction::Stop(RelayError::ReadFailed(e)),
        ReadOutcome::Received { bytes, parsed } => match parsed {
            Err(e) => RelayAction::Stop(RelayError::ParseFailed(e)),
            Ok(m) => match m.union {
                Some(MessageUnion::VideoFrame(vf)) => if vf.timestamp > 0 {
                    RelayAction::Forward(bytes)
                } else {
                    RelayAction::Skip
                },
                None => RelayAction::ReportEmpty,
            },
        },
    }
}

/// Decides what the relay does with one read from a stream: a marked video
/// frame goes back unchanged, an unmarked one is dropped, an empty message is
/// reported, and the end of the stream or any read or parse failure stops the
/// stream.
pub fn handle_request_step(event: ReadOutcome) -> (action: RelayAction)
    ensures
        action == spec_relay_action(event),
{
    match event {
        ReadOutcome::Ended => RelayAction::Stop(RelayError::StreamEnded),
        ReadOutcome::Failed(e) => RelayAction::Stop(RelayError::ReadFailed(e)),
        ReadOutcome::Received { bytes, parsed } => match parsed {
            Err(e) => RelayAction::Stop(RelayError::ParseFailed(e)),
            Ok(m) => match m.union {
                Some(MessageUnion::VideoFrame(vf)) => {
                    if vf.timestamp > 0 {
                        RelayAction::Forward(bytes)
                    } else {
                        RelayAction::Skip
                    }
                },
                None => RelayAction::ReportEmpty,
            },
        },
    }
}

/// What accepting the next bidirectional stream of a connection gave.
#[derive(Debug, Clone, PartialEq, Eq)]
pub enum AcceptOutcome {
    /// A new stream was opened by the peer.
    Opened,
    /// The peer closed the connection at application level.
    ApplicationClosed,
    /// The connection failed; the text describes the failure.
    Failed(String),
}

/// What the server does with a connection after an accept.
#[derive(Debug, Clone, PartialEq, Eq)]
pub enum AcceptAction {
    /// Serve the new stream on its own task and accept the next one.
    Serve,
    /// The connection is done; stop without error.
    Finish,
    /// Stop serving the connection with this error.
    Fail(String),
}

/// The server's answer to an accept.
pub open spec fn spec_accept_action(outcome: AcceptOutcome) -> AcceptAction {
    match outcome {
        AcceptOutcome::Opened => AcceptAction::Serve,
        AcceptOutcome::ApplicationClosed => AcceptAction::Finish,
        AcceptOutcome::Failed(e) => AcceptAction::Fail(e),
    }
}

/// Decides what the server does after accepting on a connection: serve a new
/// stream, finish when the peer closed the connection, fail otherwise.
pub fn handle_connection_step(outcome: AcceptOutcome) -> (action: AcceptAction)
    ensures
        action == spec_accept_action(outcome),
{
    match outcome {
        AcceptOutcome::Opened => AcceptAction::Serve,
        AcceptOutcome::ApplicationClosed => AcceptAction::Finish,
        AcceptOutcome::Failed(e) => AcceptAction::Fail(e),
    }
}

/// The relay forwards a frame exactly when it parses as a video frame marked
/// with a positive send time, and then it forwards the bytes it read,
/// unchanged.
pub proof fn lemma_forwards_exactly_marked_video(bytes: Vec<u8>, m: Message)
    ensures
        spec_relay_action(ReadOutcome::Received { bytes, parsed: Ok(m) }) is Forward
            <==> is_marked_video(m),
        spec_relay_action(ReadOutcome::Received { bytes, parsed: Ok(m) }) matches
            RelayAction::Forward(out) ==> out == bytes,
{
}

/// The relay stops serving a stream exactly when the stream ended, a read
/// failed, or a frame did not parse; a parsed message never stops it.
pub proof fn lemma_stops_only_on_failure(event: ReadOutcome)
    ensures
        spec_relay_action(event) is Stop <==> match event {
            ReadOutcome::Received { bytes, parsed } => parsed is Err,
            _ => true,
        },
{
}

/// A message built by the client is forwarded by the relay, bytes unchanged,
/// when the client marked it with a positive time, and dropped silently
/// otherwise.
pub proof fn lemma_client_message_relayed(
    bytes: Vec<u8>,
    frames: Vec<EncodedVideoFrame>,
    timestamp: i64,
)
    ensures
        spec_relay_action(
            ReadOutcome::Received { bytes, parsed: Ok(spec_video_message(frames, timestamp)) },
        ) == (if timestamp > 0 {
            RelayAction::Forward(bytes)
        } else {
            RelayAction::Skip
        }),
{
}

/// The bytes the relay sends back while it serves a stream whose reads give
/// `events` in order, obtained by running `spec_relay_action` read by read
/// until it stops.
pub open spec fn spec_serve(events: Seq<ReadOutcome>) -> Seq<Seq<u8>>
    decreases events.len(),
{
    if events.len() == 0 {
        seq![]
    } else {
        match spec_relay_action(events[0]) {
            RelayAction::Forward(b) => seq![b@] + spec_serve(events.drop_first()),
            RelayAction::Stop(_) => seq![],
            _ => spec_serve(events.drop_first()),
        }
    }
}

/// Whether a read stops the relay: the end of the stream, a failed read, or
/// a frame that does not parse.
pub open spec fn is_stopping_read(e: ReadOutcome) -> bool {
    match e {
        ReadOutcome::Received { bytes, parsed } => parsed is Err,
        _ => true,
    }
}

/// Whether a read gives a frame that parses as a marked video message.
pub open spec fn is_marked_read(e: ReadOutcome) -> bool {
    match e {
        ReadOutcome::Received { bytes, parsed } => match parsed {
            Ok(m) => is_marked_video(m),
            Err(_) => false,
        },
        _ => false,
    }
}

/// The bytes of a read frame (none for other reads).
pub open spec fn read_bytes(e: ReadOutcome) -> Seq<u8> {
    match e {
        ReadOutcome::Received { bytes, parsed } => bytes@,
        _ => seq![],
    }
}

/// How many reads the relay serves before the first read that stops it.
pub open spec fn reads_before_stop(events: Seq<ReadOutcome>) -> nat
    decreases events.len(),
{
    if events.len() == 0 {
        0
    } else if is_stopping_read(events[0]) {
        0
    } else {
        1 + reads_before_stop(events.drop_first())
    }
}

proof fn lemma_reads_before_stop_bounded(events: Seq<ReadOutcome>)
    ensures
        reads_before_stop(events) <= events.len(),
    decreases events.len(),
{
    if events.len() > 0 {
        lemma_reads_before_stop_bounded(events.drop_first());
    }
}

/// Over a whole stream, the relay sends back exactly the frames that parse
/// as marked video messages, each unchanged and in the order read, among the
/// reads before the first one that stops it; nothing after that read.
pub proof fn lemma_serve_echoes_marked_frames(events: Seq<ReadOutcome>)
    ensures
        spec_serve(events) =~= events.take(reads_before_stop(events) as int).filter(
            |e: ReadOutcome| is_marked_read(e),
        ).map_values(|e: ReadOutcome| read_bytes(e)),
    decreases events.len(),
{
    let p = |e: ReadOutcome| is_marked_read(e);
    let f = |e: ReadOutcome| read_bytes(e);
    if events.len() == 0 {
        assert(events.take(0) =~= Seq::<ReadOutcome>::empty());
        assert(Seq::<ReadOutcome>::empty().filter(p) =~= Seq::<ReadOutcome>::empty()) by {
            reveal(Seq::filter);
        }
    } else {
        let e = events[0];
        let rest = events.drop_first();
        lemma_serve_echoes_marked_frames(rest);
        lemma_reads_before_stop_bounded(rest);
        if is_stopping_read(e) {
            assert(events.take(0) =~= Seq::<ReadOutcome>::empty());
            assert(Seq::<ReadOutcome>::empty().filter(p) =~= Seq::<ReadOutcome>::empty()) by {
                reveal(Seq::filter);
            }
        } else {
            let k = reads_before_stop(rest) as int;
            assert(events.take(k + 1) =~= seq![e] + rest.take(k));
            rest.take(k).lemma_filter_prepend(e, p);
            let tail = rest.take(k).filter(p);
            if is_marked_read(e) {
                assert((seq![e] + tail).map_values(f) =~= seq![read_bytes(e)] + tail.map_values(f));
            } else {
                assert((Seq::<ReadOutcome>::empty() + tail) =~= tail);
            }
        }
    }
}

/// Whether a read can change what the relay sends back or whether it goes
/// on: a read that stops it, or a marked video frame.
pub open spec fn is_relevant_read(e: ReadOutcome) -> bool {
    is_stopping_read(e) || is_marked_read(e)
}

/// Reads of frames that parse but are not marked video messages (no
/// content, or a video frame with a timestamp of 0 or less) change nothing:
/// the relay sends back the same frames whether they are there or not.
pub proof fn lemma_serve_ignores_unmarked_frames(events: Seq<ReadOutcome>)
    ensures
        spec_serve(events) == spec_serve(events.filter(|e: ReadOutcome| is_relevant_read(e))),
    decreases events.len(),
{
    let p = |e: ReadOutcome| is_relevant_read(e);
    if events.len() == 0 {
        assert(events.filter(p) =~= Seq::<ReadOutcome>::empty()) by {
            reveal(Seq::filter);
        }
    } else {
        let e = events[0];
        let rest = events.drop_first();
        assert(events =~= seq![e] + rest);
        rest.lemma_filter_prepend(e, p);
        lemma_serve_ignores_unmarked_frames(rest);
        if is_relevant_read(e) {
            let f = seq![e] + rest.filter(p);
            assert(f[0] == e);
            assert(f.drop_first() =~= rest.filter(p));
        } else {
            assert(Seq::<ReadOutcome>::empty() + rest.filter(p) =~= rest.filter(p));
        }
    }
}

/// How the relay's service of a stream whose reads give `events` ends: the
/// error of the first read that stops it, or `None` when none does.
pub open spec fn spec_serve_end(events: Seq<ReadOutcome>) -> Option<RelayError>
    decreases events.len(),
{
    if events.len() == 0 {
        None
    } else {
        match spec_relay_action(events[0]) {
            RelayAction::Stop(e) => Some(e),
            _ => spec_serve_end(events.drop_first()),
        }
    }
}

/// Reads of frames that parse but are not marked video messages do not
/// change how the relay's service of a stream ends either.
pub proof fn lemma_serve_end_ignores_unmarked_frames(events: Seq<ReadOutcome>)
    ensures
        spec_serve_end(events) == spec_serve_end(
            events.filter(|e: ReadOutcome| is_relevant_read(e)),
        ),
    decreases events.len(),
{
    let p = |e: ReadOutcome| is_relevant_read(e);
    if events.len() == 0 {
        assert(events.filter(p) =~= Seq::<ReadOutcome>::empty()) by {
            reveal(Seq::filter);
        }
    } else {
        let e = events[0];
        let rest = events.drop_first();
        assert(events =~= seq![e] + rest);
        rest.lemma_filter_prepend(e, p);
        lemma_serve_end_ignores_unmarked_frames(rest);
        if is_relevant_read(e) {
            let f = seq![e] + rest.filter(p);
            assert(f[0] == e);
            assert(f.drop_first() =~= rest.filter(p));
        } else {
            assert(Seq::<ReadOutcome>::empty() + rest.filter(p) =~= rest.filter(p));
        }
    }
}

/// The relay's answer to a frame whose bytes parse as the message `m`.
pub open spec fn spec_parsed_action(bytes: Vec<u8>, m: MessageView) -> RelayAction {
    match m.video {
        Some(vf) => if vf.timestamp > 0 {
            RelayAction::Forward(bytes)
        } else {
            RelayAction::Skip
        },
        None => RelayAction::ReportEmpty,
    }
}

/// A frame that parses as a video frame is sent back, with exactly the bytes
/// read, if and only if its send time is positive, and dropped otherwise; a
/// message without a video frame is never sent back.
pub proof fn lemma_parsed_frame_forwarded_iff_positive_time(bytes: Vec<u8>, m: MessageView)
    ensures
        spec_parsed_action(bytes, m) is Forward <==> (m.video is Some && m.video->Some_0.timestamp
            > 0),
        spec_parsed_action(bytes, m) matches RelayAction::Forward(out) ==> out == bytes,
        m.video is Some && m.video->Some_0.timestamp <= 0 ==> spec_parsed_action(bytes, m)
            == RelayAction::Skip,
        m.video is None ==> spec_parsed_action(bytes, m) == RelayAction::ReportEmpty,
{
}

/// Decides what the relay does with one read from a stream, parsing the
/// frame it read (`parse_message`): a frame that parses as a video frame
/// marked with a positive time goes back unchanged, an unmarked one is
/// dropped, an empty message is reported, and the end of the stream, a read
/// failure, or a frame that does not parse stops the stream.
pub fn handle_read(read: Option<Result<Vec<u8>, String>>) -> (a: RelayAction)
    ensures
        read is None ==> a == RelayAction::Stop(RelayError::StreamEnded),
        read matches Some(Err(e)) ==> a == RelayAction::Stop(RelayError::ReadFailed(e)),
        read matches Some(Ok(bytes)) ==> match spec_decode_message(bytes@) {
            Some(m) => a == spec_parsed_action(bytes, m),
            None => a matches RelayAction::Stop(RelayError::ParseFailed(_)),
        },
        read matches Some(Ok(bytes)) ==> (spec_decode_message(bytes@) matches Some(m) ==> match m.video {
            Some(vf) => a == (if vf.timestamp > 0 {
                RelayAction::Forward(bytes)
            } else {
                RelayAction::Skip
            }),
            None => a == RelayAction::ReportEmpty,
        }),
{
    let event = match read {
        None => ReadOutcome::Ended,
        Some(Err(e)) => ReadOutcome::Failed(e),
        Some(Ok(bytes)) => {
            let parsed = parse_message(bytes.as_slice());
            ReadOutcome::Received { bytes, parsed }
        },
    };
    handle_request_step(event)
}

} // verus!
