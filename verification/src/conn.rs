//! State and decisions of a framed QUIC connection: the channel through which
//! other tasks hand it frames to send, the loop that drains that channel into
//! the stream, the send timeout, and what a shutdown closes.

use vstd::prelude::*;

verus! {

#[verifier::external_type_specification]
#[verifier::external_body]
#[verifier::reject_recursive_types(T)]
pub struct ExSender<T>(tokio::sync::mpsc::Sender<T>);

#[verifier::external_type_specification]
#[verifier::external_body]
pub struct ExBytes(bytes::Bytes);

/// `Clone::clone` of `tokio::sync::mpsc::Sender`: another handle on the same
/// channel. The source copies the handle's shared channel (`Arc`) and nothing
/// else, so the new handle is the same handle value as `sender`.
#[verifier::external_body]
fn clone_sender(sender: &tokio::sync::mpsc::Sender<bytes::Bytes>) -> (r: tokio::sync::mpsc::Sender<
    bytes::Bytes,
>)
    ensures
        r == *sender,
{
    sender.clone()
}

/// Error code sent to the peer when a connection is shut down.
pub const CLOSE_CODE: u32 = 0;

/// Reason sent to the peer when a connection is shut down: the bytes of
/// "done".
pub open spec fn spec_close_reason() -> Seq<u8> {
    seq![100u8, 111u8, 110u8, 101u8]
}

/// The reason bytes of a shutdown (see `spec_close_reason`).
pub fn close_reason() -> (r: Vec<u8>)
    ensures
        r@ == spec_close_reason(),
{
    let mut r: Vec<u8> = Vec::new();
    r.push(100u8);
    r.push(111u8);
    r.push(110u8);
    r.push(101u8);
    r
}

/// The timeout that a send on a connection with `ms_timeout` waits at most:
/// none when `ms_timeout` is 0.
pub open spec fn spec_send_timeout(ms_timeout: u64) -> Option<u64> {
    if ms_timeout > 0 {
        Some(ms_timeout)
    } else {
        None
    }
}

/// Why a connection cannot hand out a sender.
#[derive(Debug, Clone, Copy, PartialEq, Eq)]
pub enum ConnError {
    /// The connection has no send channel.
    SenderNotFound,
}

/// A handle through which any task can queue frames for a connection.
pub struct ConnSender {
    sender: tokio::sync::mpsc::Sender<bytes::Bytes>,
}

impl Clone for ConnSender {
    /// Another handle on the same channel.
    fn clone(&self) -> (r: Self)
        ensures
            r.channel() == self.channel(),
    {
        ConnSender { sender: clone_sender(&self.sender) }
    }
}

impl ConnSender {
    /// The channel handle that this sender holds.
    pub closed spec fn channel(&self) -> tokio::sync::mpsc::Sender<bytes::Bytes> {
        self.sender
    }

    /// The channel handle on which frames are queued.
    pub fn sender(&self) -> (s: &tokio::sync::mpsc::Sender<bytes::Bytes>)
        ensures
            *s == self.channel(),
    {
        &self.sender
    }
}

/// A framed QUIC connection: `inner_sender` writes frames to the stream,
/// `inner_stream` reads frames from it, and frames queued on `mpsc_sender`
/// are written by a background loop. A client connection also keeps its QUIC
/// connection (`Q`) and endpoint (`E`), so that a shutdown can close them.
pub struct Connection<W, R, Q, E> {
    endpoint: Option<E>,
    conn: Option<Q>,
    mpsc_sender: Option<tokio::sync::mpsc::Sender<bytes::Bytes>>,
    pub inner_sender: W,
    pub inner_stream: R,
    ms_timeout: u64,
}

impl<W, R, Q, E> Connection<W, R, Q, E> {
    /// Whether the connection has a send channel.
    pub closed spec fn has_sender(&self) -> bool {
        self.mpsc_sender is Some
    }

    /// The handle on the connection's send channel, if it has one.
    pub closed spec fn spec_channel(&self) -> Option<tokio::sync::mpsc::Sender<bytes::Bytes>> {
        self.mpsc_sender
    }

    /// The QUIC connection the connection keeps, if any.
    pub closed spec fn kept_connection(&self) -> Option<Q> {
        self.conn
    }

    /// The endpoint the connection keeps, if any.
    pub closed spec fn kept_endpoint(&self) -> Option<E> {
        self.endpoint
    }

    /// The half that writes frames to the stream.
    pub closed spec fn writer(&self) -> W {
        self.inner_sender
    }

    /// The half that reads frames from the stream.
    pub closed spec fn reader(&self) -> R {
        self.inner_stream
    }

    /// The send timeout in milliseconds (0: none).
    pub closed spec fn spec_ms_timeout(&self) -> u64 {
        self.ms_timeout
    }

    /// A connection over a freshly opened stream: it has its send channel
    /// and timeout, and no QUIC connection or endpoint of its own.
    pub fn new_conn_wrapper(
        inner_sender: W,
        inner_stream: R,
        mpsc_sender: tokio::sync::mpsc::Sender<bytes::Bytes>,
        ms_timeout: u64,
    ) -> (c: Self)
        ensures
            c.has_sender(),
            c.spec_channel() == Some(mpsc_sender),
            c.kept_connection() is None,
            c.kept_endpoint() is None,
            c.spec_ms_timeout() == ms_timeout,
            c.writer() == inner_sender,
            c.reader() == inner_stream,
    {
        Connection {
            mpsc_sender: Some(mpsc_sender),
            inner_sender,
            inner_stream,
            endpoint: None,
            ms_timeout,
            conn: None,
        }
    }

    /// Makes the connection keep the QUIC connection and endpoint that a
    /// client opened it on; nothing else changes.
    pub fn attach_client(&mut self, conn: Q, endpoint: E)
        ensures
            final(self).kept_connection() == Some(conn),
            final(self).kept_endpoint() == Some(endpoint),
            final(self).has_sender() == old(self).has_sender(),
            final(self).spec_channel() == old(self).spec_channel(),
            final(self).spec_ms_timeout() == old(self).spec_ms_timeout(),
            final(self).writer() == old(self).writer(),
            final(self).reader() == old(self).reader(),
    {
        self.conn = Some(conn);
        self.endpoint = Some(endpoint);
    }

    /// The send timeout in milliseconds (0: none).
    pub fn ms_timeout(&self) -> (ms: u64)
        ensures
            ms == self.spec_ms_timeout(),
    {
        self.ms_timeout
    }

    /// How long a send on this connection may wait (see `spec_send_timeout`).
    pub fn send_timeout(&self) -> (t: Option<u64>)
        ensures
            t == spec_send_timeout(self.spec_ms_timeout()),
    {
        if self.ms_timeout > 0 {
            Some(self.ms_timeout)
        } else {
            None
        }
    }

    /// A new handle on the connection's send channel; fails exactly when the
    /// connection has none.
    pub fn get_conn_sender(&self) -> (r: Result<ConnSender, ConnError>)
        ensures
            r is Ok <==> self.has_sender(),
            r matches Ok(s) ==> self.spec_channel() == Some(s.channel()),
            r is Err ==> r == Err::<ConnSender, ConnError>(ConnError::SenderNotFound),
    {
        match &self.mpsc_sender {
            Some(sender) => Ok(ConnSender { sender: clone_sender(sender) }),
            None => Err(ConnError::SenderNotFound),
        }
    }

    /// The QUIC connection that a shutdown closes, if the connection keeps
    /// one.
    pub fn quic_connection(&self) -> (c: Option<&Q>)
        ensures
            c is Some <==> self.kept_connection() is Some,
            c matches Some(q) ==> self.kept_connection() == Some(*q),
    {
        match &self.conn {
            Some(c) => Some(c),
            None => None,
        }
    }

    /// The endpoint that a shutdown waits on until idle, if the connection
    /// keeps one.
    pub fn endpoint(&self) -> (e: Option<&E>)
        ensures
            e is Some <==> self.kept_endpoint() is Some,
            e matches Some(p) ==> self.kept_endpoint() == Some(*p),
    {
        match &self.endpoint {
            Some(e) => Some(e),
            None => None,
        }
    }
}

/// How writing a frame to the stream ended.
#[derive(Debug, Clone, Copy, PartialEq, Eq)]
pub enum WriteOutcome {
    /// The frame was written.
    Written,
    /// The stream refused the frame.
    Failed,
    /// The timeout passed before the write finished.
    TimedOut,
}

/// What the background send loop of a connection learns next.
pub enum SenderEvent<T> {
    /// The result of waiting on the channel: a frame, or `None` once every
    /// handle on the channel is gone.
    Item(Option<T>),
    /// How writing the last frame to the stream ended.
    Sent(WriteOutcome),
}

/// What the background send loop does next.
pub enum SenderAction<T> {
    /// Write this frame to the stream, waiting at most `timeout_ms`
    /// milliseconds when a timeout is given.
    Send { data: T, timeout_ms: Option<u64> },
    /// Wait for the next frame on the channel.
    Receive,
    /// Leave the loop.
    Exit,
}

/// Whether a write that ended with `outcome` ends the loop on a connection
/// with `ms_timeout`: a write that timed out always does; a refused write
/// does only when writes have no timeout (a timed write that the stream
/// refused in time is passed over).
pub open spec fn ends_loop(ms_timeout: u64, outcome: WriteOutcome) -> bool {
    match outcome {
        WriteOutcome::Written => false,
        WriteOutcome::Failed => ms_timeout == 0,
        WriteOutcome::TimedOut => true,
    }
}

/// The loop's answer to an event, on a connection with `ms_timeout`.
pub open spec fn spec_sender_action<T>(ms_timeout: u64, event: SenderEvent<T>) -> SenderAction<T> {
    match event {
        SenderEvent::Item(Some(data)) => SenderAction::Send {
            data,
            timeout_ms: spec_send_timeout(ms_timeout),
        },
        SenderEvent::Item(None) => SenderAction::Exit,
        SenderEvent::Sent(outcome) => if ends_loop(ms_timeout, outcome) {
            SenderAction::Exit
        } else {
            SenderAction::Receive
        },
    }
}

/// One step of the loop that drains a connection's send channel into its
/// stream: each frame taken from the channel is written unchanged, with the
/// connection's timeout; the loop ends when the channel closes or a write
/// ends it (see `ends_loop`), and otherwise waits for the next frame.
pub fn sender_loop_step<T>(ms_timeout: u64, event: SenderEvent<T>) -> (action: SenderAction<T>)
    ensures
        action == spec_sender_action(ms_timeout, event),
{
    match event {
        SenderEvent::Item(Some(data)) => {
            let timeout_ms = if ms_timeout > 0 {
                Some(ms_timeout)
            } else {
                None
            };
            SenderAction::Send { data, timeout_ms }
        },
        SenderEvent::Item(None) => SenderAction::Exit,
        SenderEvent::Sent(outcome) => {
            let ends = match outcome {
                WriteOutcome::Written => false,
                WriteOutcome::Failed => ms_timeout == 0,
                WriteOutcome::TimedOut => true,
            };
            if ends {
                SenderAction::Exit
            } else {
                SenderAction::Receive
            }
        },
    }
}

/// The result of a receive that was given a deadline: `finished` is `None`
/// when the deadline passed first, else what the receive gave. A receive
/// that timed out gives `None`, as a closed stream does.
pub fn settle_timed_receive<T>(finished: Option<Option<T>>) -> (r: Option<T>)
    ensures
        r == match finished {
            Some(res) => res,
            None => None::<T>,
        },
{
    match finished {
        Some(res) => res,
        None => None,
    }
}

/// A frame queued on the channel is written to the stream unchanged, with a
/// timeout exactly when the connection has a positive `ms_timeout`, and the
/// loop leaves only when the channel closed, a write timed out, or a write
/// without timeout failed.
pub proof fn lemma_sender_loop<T>(ms_timeout: u64, event: SenderEvent<T>)
    ensures
        event matches SenderEvent::Item(Some(data)) ==> spec_sender_action(ms_timeout, event)
            == (SenderAction::Send {
            data,
            timeout_ms: if ms_timeout > 0 {
                Some(ms_timeout)
            } else {
                None
            },
        }),
        spec_sender_action(ms_timeout, event) is Exit <==> (event matches SenderEvent::Item(None)
            || event == SenderEvent::<T>::Sent(WriteOutcome::TimedOut) || (ms_timeout == 0
            && event == SenderEvent::<T>::Sent(WriteOutcome::Failed))),
{
}

/// The frames, each with the timeout it is written with, that the send loop
/// writes when the channel yields `items` in order and the successive writes
/// end as `ok` says, obtained by running `spec_sender_action` step by
/// step: each item is taken from the channel and written, and the loop goes
/// back to the channel only after a write that does not end it.
pub open spec fn spec_drain<T>(ms_timeout: u64, items: Seq<T>, ok: Seq<WriteOutcome>) -> Seq<(T, Option<u64>)>
    decreases items.len(),
{
    if items.len() == 0 || ok.len() == 0 {
        seq![]
    } else {
        match spec_sender_action(ms_timeout, SenderEvent::Item(Some(items[0]))) {
            SenderAction::Send { data, timeout_ms } => seq![(data, timeout_ms)] + match spec_sender_action(
                ms_timeout,
                SenderEvent::<T>::Sent(ok[0]),
            ) {
                SenderAction::Receive => spec_drain(ms_timeout, items.drop_first(), ok.drop_first()),
                _ => seq![],
            },
            _ => seq![],
        }
    }
}

/// How many writes come before the first one that ends the loop.
pub open spec fn writes_before_end(ms_timeout: u64, ok: Seq<WriteOutcome>) -> nat
    decreases ok.len(),
{
    if ok.len() == 0 {
        0
    } else if ends_loop(ms_timeout, ok[0]) {
        0
    } else {
        1 + writes_before_end(ms_timeout, ok.drop_first())
    }
}

/// The smallest of three numbers.
pub open spec fn min3(a: nat, b: nat, c: nat) -> nat {
    if a <= b && a <= c {
        a
    } else if b <= c {
        b
    } else {
        c
    }
}

/// Every frame queued on the channel is written, in the order it was queued
/// and unchanged, with the connection's timeout, until the first write that
/// ends the loop (which is the last one made) or until the channel runs out.
pub proof fn lemma_drain_writes_queued_frames_in_order<T>(
    ms_timeout: u64,
    items: Seq<T>,
    ok: Seq<WriteOutcome>,
)
    ensures
        spec_drain(ms_timeout, items, ok) =~= Seq::new(
            min3(items.len(), ok.len(), writes_before_end(ms_timeout, ok) + 1),
            |i: int| (items[i], spec_send_timeout(ms_timeout)),
        ),
    decreases items.len(),
{
    if items.len() == 0 || ok.len() == 0 {
    } else {
        lemma_drain_writes_queued_frames_in_order(ms_timeout, items.drop_first(), ok.drop_first());
        let rest = spec_drain(ms_timeout, items.drop_first(), ok.drop_first());
        if !ends_loop(ms_timeout, ok[0]) {
            assert(spec_drain(ms_timeout, items, ok) == seq![(items[0], spec_send_timeout(ms_timeout))] + rest);
        } else {
            assert(spec_drain(ms_timeout, items, ok) == seq![(items[0], spec_send_timeout(ms_timeout))]);
        }
    }
}

} // verus!
