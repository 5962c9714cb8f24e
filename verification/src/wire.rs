//! Parsing of messages from their protobuf wire form. The protobuf runtime
//! reads the wire (tags, varints, lengths, skipped groups) into the values of
//! each field number; this module applies the message schema to those
//! values, level by level, as the schema's generated code does.

use vstd::prelude::*;
use crate::video::{
    EncodedVideoFrame, EncodedVideoFrames, FrameView, Message, MessageUnion, MessageView,
    VideoFrame, VideoFrameUnion, VideoView, frames_view,
};

verus! {

/// One value read from the wire for some field number.
pub enum WireValue {
    Fixed32(u32),
    Fixed64(u64),
    Varint(u64),
    Delimited(Vec<u8>),
}

/// The values of field number `n`, as the protobuf runtime reads `bytes`:
/// its varints and its length-delimited payloads, each in the order they
/// occur; `None` when the runtime refuses the bytes.
pub uninterp spec fn spec_wire_field(bytes: Seq<u8>, n: u32) -> Option<(Seq<u64>, Seq<Seq<u8>>)>;

/// The varints of field number `n` among `entries`, in order.
pub open spec fn varints_for(entries: Seq<(u32, WireValue)>, n: u32) -> Seq<u64>
    decreases entries.len(),
{
    if entries.len() == 0 {
        seq![]
    } else {
        let prev = varints_for(entries.drop_last(), n);
        let (m, v) = entries.last();
        match v {
            WireValue::Varint(x) => if m == n {
                prev.push(x)
            } else {
                prev
            },
            _ => prev,
        }
    }
}

/// The length-delimited payloads of field number `n` among `entries`, in
/// order.
pub open spec fn delimited_for(entries: Seq<(u32, WireValue)>, n: u32) -> Seq<Seq<u8>>
    decreases entries.len(),
{
    if entries.len() == 0 {
        seq![]
    } else {
        let prev = delimited_for(entries.drop_last(), n);
        let (m, v) = entries.last();
        match v {
            WireValue::Delimited(b) => if m == n {
                prev.push(b@)
            } else {
                prev
            },
            _ => prev,
        }
    }
}

/// `<protobuf::well_known_types::empty::Empty as protobuf::Message>::parse_from_bytes`,
/// read for its unknown fields: every field of `bytes` with its number, in
/// the order `UnknownFields::iter` yields them (within one number, all of a
/// wire type in the order read). The error is the runtime's, as text.
/// Whether the bytes parse, and the values of each field number, depend on
/// the bytes alone.
#[verifier::external_body]
fn wire_entries(bytes: &[u8]) -> (r: Result<Vec<(u32, WireValue)>, String>)
    ensures
        forall|n: u32| (#[trigger] spec_wire_field(bytes@, n) is Some) <==> r is Ok,
        r matches Ok(entries) ==> forall|n: u32|
            #[trigger] spec_wire_field(bytes@, n) == Some(
                (varints_for(entries@, n), delimited_for(entries@, n)),
            ),
{
    match <protobuf::well_known_types::empty::Empty as protobuf::Message>::parse_from_bytes(bytes) {
        Ok(m) => Ok(m.special_fields.unknown_fields().iter().map(|(n, v)| (n, match v {
            protobuf::UnknownValueRef::Fixed32(x) => WireValue::Fixed32(x),
            protobuf::UnknownValueRef::Fixed64(x) => WireValue::Fixed64(x),
            protobuf::UnknownValueRef::Varint(x) => WireValue::Varint(x),
            protobuf::UnknownValueRef::LengthDelimited(b) => WireValue::Delimited(b.to_vec()),
        })).collect()),
        Err(e) => Err(format!("{:?}", e)),
    }
}

/// The varints and payloads of field number `n` among `entries`.
fn field_values(entries: &Vec<(u32, WireValue)>, n: u32) -> (r: (Vec<u64>, Vec<Vec<u8>>))
    ensures
        r.0@ == varints_for(entries@, n),
        r.1@.map_values(|b: Vec<u8>| b@) == delimited_for(entries@, n),
{
    let mut varints: Vec<u64> = Vec::new();
    let mut payloads: Vec<Vec<u8>> = Vec::new();
    let mut i: usize = 0;
    while i < entries.len()
        invariant
            i <= entries.len(),
            varints@ == varints_for(entries@.take(i as int), n),
            payloads@.map_values(|b: Vec<u8>| b@) == delimited_for(entries@.take(i as int), n),
        decreases entries.len() - i,
    {
        assert(entries@.take(i + 1).drop_last() =~= entries@.take(i as int));
        let (m, v) = &entries[i];
        if *m == n {
            match v {
                WireValue::Varint(x) => {
                    varints.push(*x);
                },
                WireValue::Delimited(b) => {
                    let ghost before = payloads@;
                    payloads.push(b.clone());
                    assert(payloads@.map_values(|b: Vec<u8>| b@) =~= before.map_values(
                        |b: Vec<u8>| b@,
                    ).push(b@));
                },
                _ => {},
            }
        }
        i = i + 1;
    }
    assert(entries@.take(entries.len() as int) =~= entries@);
    (varints, payloads)
}

/// The last of a sequence of varints, if any.
pub open spec fn last_varint(s: Seq<u64>) -> Option<u64> {
    if s.len() == 0 {
        None
    } else {
        Some(s.last())
    }
}

/// An encoded frame as the schema reads it from its wire form: `data`
/// (field 1, bytes), `key` (field 2, bool) and `pts` (field 3, int64), each
/// the last value of its field, or its default (empty, false, 0) when
/// absent.
pub open spec fn spec_decode_frame(bytes: Seq<u8>) -> Option<FrameView> {
    match (spec_wire_field(bytes, 1), spec_wire_field(bytes, 2), spec_wire_field(bytes, 3)) {
        (Some(f1), Some(f2), Some(f3)) => Some(
            FrameView {
                data: if f1.1.len() == 0 {
                    seq![]
                } else {
                    f1.1.last()
                },
                key: match last_varint(f2.0) {
                    Some(v) => v != 0,
                    None => false,
                },
                pts: match last_varint(f3.0) {
                    Some(v) => v as i64,
                    None => 0,
                },
            },
        ),
        _ => None,
    }
}

/// A batch of frames as the schema reads it: every payload of field 1 is a
/// frame, in order; the batch is refused when one of them is.
pub open spec fn spec_decode_frames(bytes: Seq<u8>) -> Option<Seq<FrameView>> {
    match spec_wire_field(bytes, 1) {
        Some(f) => if forall|i: int| 0 <= i < f.1.len() ==> #[trigger] spec_decode_frame(f.1[i]) is Some {
            Some(Seq::new(f.1.len(), |i: int| spec_decode_frame(f.1[i])->Some_0))
        } else {
            None
        },
        None => None,
    }
}

/// A video frame as the schema reads it: every payload of field 6 must be a
/// batch of VP9 frames and the last one is the frame's payload; the send
/// time is the last value of field 9 (int64), or 0.
pub open spec fn spec_decode_video(bytes: Seq<u8>) -> Option<VideoView> {
    match (spec_wire_field(bytes, 6), spec_wire_field(bytes, 9)) {
        (Some(f6), Some(f9)) => if forall|i: int|
            0 <= i < f6.1.len() ==> #[trigger] spec_decode_frames(f6.1[i]) is Some {
            Some(
                VideoView {
                    vp9s: if f6.1.len() == 0 {
                        None
                    } else {
                        spec_decode_frames(f6.1.last())
                    },
                    timestamp: match last_varint(f9.0) {
                        Some(v) => v as i64,
                        None => 0,
                    },
                },
            )
        } else {
            None
        },
        _ => None,
    }
}

/// A top-level message as the schema reads it: every payload of field 6
/// must be a video frame and the last one is the message's content.
pub open spec fn spec_decode_message(bytes: Seq<u8>) -> Option<MessageView> {
    match spec_wire_field(bytes, 6) {
        Some(f6) => if forall|i: int|
            0 <= i < f6.1.len() ==> #[trigger] spec_decode_video(f6.1[i]) is Some {
            Some(
                MessageView {
                    video: if f6.1.len() == 0 {
                        None
                    } else {
                        spec_decode_video(f6.1.last())
                    },
                },
            )
        } else {
            None
        },
        None => None,
    }
}

/// The message schema applied to a frame's wire form (see
/// `spec_decode_frame`); the error is the runtime's.
pub fn decode_frame(bytes: &[u8]) -> (r: Result<EncodedVideoFrame, String>)
    ensures
        r is Ok <==> spec_decode_frame(bytes@) is Some,
        r matches Ok(f) ==> spec_decode_frame(bytes@) == Some(f@),
{
    let entries = match wire_entries(bytes) {
        Ok(e) => e,
        Err(e) => {
            assert(spec_wire_field(bytes@, 1) is None);
            return Err(e);
        },
    };
    assert(spec_wire_field(bytes@, 1) is Some);
    assert(spec_wire_field(bytes@, 2) is Some);
    assert(spec_wire_field(bytes@, 3) is Some);
    let (_, data_values) = field_values(&entries, 1);
    let (key_values, _) = field_values(&entries, 2);
    let (pts_values, _) = field_values(&entries, 3);
    let data = if data_values.len() == 0 {
        Vec::new()
    } else {
        let last = data_values.len() - 1;
        assert(data_values@.map_values(|b: Vec<u8>| b@)[last as int] == data_values@[last as int]@);
        data_values[last].clone()
    };
    let key = if key_values.len() == 0 {
        false
    } else {
        key_values[key_values.len() - 1] != 0
    };
    let pts = if pts_values.len() == 0 {
        0
    } else {
        #[verifier::truncate]
        (pts_values[pts_values.len() - 1] as i64)
    };
    let f = EncodedVideoFrame { data, key, pts };
    assert(f@.data =~= spec_decode_frame(bytes@)->Some_0.data);
    Ok(f)
}

/// Each payload read as a frame (meaningful when every one parses).
pub open spec fn all_frames(payloads: Seq<Seq<u8>>) -> Seq<FrameView> {
    Seq::new(payloads.len(), |i: int| spec_decode_frame(payloads[i])->Some_0)
}

/// The message schema applied to a batch's wire form (see
/// `spec_decode_frames`).
pub fn decode_frames(bytes: &[u8]) -> (r: Result<Vec<EncodedVideoFrame>, String>)
    ensures
        r is Ok <==> spec_decode_frames(bytes@) is Some,
        r matches Ok(fs) ==> spec_decode_frames(bytes@) == Some(frames_view(fs@)),
{
    let entries = match wire_entries(bytes) {
        Ok(e) => e,
        Err(e) => {
            assert(spec_wire_field(bytes@, 1) is None);
            return Err(e);
        },
    };
    assert(spec_wire_field(bytes@, 1) is Some);
    let (_, payloads) = field_values(&entries, 1);
    let ghost ps = payloads@.map_values(|b: Vec<u8>| b@);
    assert(spec_wire_field(bytes@, 1) == Some((varints_for(entries@, 1), ps)));
    let mut frames: Vec<EncodedVideoFrame> = Vec::new();
    let mut i: usize = 0;
    while i < payloads.len()
        invariant
            i <= payloads.len(),
            ps == payloads@.map_values(|b: Vec<u8>| b@),
            spec_wire_field(bytes@, 1) == Some((varints_for(entries@, 1), ps)),
            forall|j: int| 0 <= j < i ==> #[trigger] spec_decode_frame(ps[j]) is Some,
            frames_view(frames@) =~= all_frames(ps.take(i as int)),
        decreases payloads.len() - i,
    {
        assert(ps[i as int] == payloads@[i as int]@);
        match decode_frame(payloads[i].as_slice()) {
            Ok(f) => {
                let ghost before = frames@;
                frames.push(f);
                assert(frames_view(frames@) =~= frames_view(before).push(f@));
                assert(all_frames(ps.take(i + 1)) =~= all_frames(ps.take(i as int)).push(f@));
            },
            Err(e) => {
                assert(spec_decode_frame(ps[i as int]) is None);
                return Err(e);
            },
        }
        i = i + 1;
    }
    assert(ps.take(payloads.len() as int) =~= ps);
    Ok(frames)
}

/// The message schema applied to a video frame's wire form (see
/// `spec_decode_video`).
pub fn decode_video(bytes: &[u8]) -> (r: Result<VideoFrame, String>)
    ensures
        r is Ok <==> spec_decode_video(bytes@) is Some,
        r matches Ok(vf) ==> spec_decode_video(bytes@) == Some(vf@),
{
    let entries = match wire_entries(bytes) {
        Ok(e) => e,
        Err(e) => {
            assert(spec_wire_field(bytes@, 6) is None);
            return Err(e);
        },
    };
    assert(spec_wire_field(bytes@, 6) is Some);
    assert(spec_wire_field(bytes@, 9) is Some);
    let (_, payloads) = field_values(&entries, 6);
    let (times, _) = field_values(&entries, 9);
    let ghost ps = payloads@.map_values(|b: Vec<u8>| b@);
    assert(spec_wire_field(bytes@, 6) == Some((varints_for(entries@, 6), ps)));
    let mut last: Option<Vec<EncodedVideoFrame>> = None;
    let mut i: usize = 0;
    while i < payloads.len()
        invariant
            i <= payloads.len(),
            ps == payloads@.map_values(|b: Vec<u8>| b@),
            spec_wire_field(bytes@, 6) == Some((varints_for(entries@, 6), ps)),
            forall|j: int| 0 <= j < i ==> #[trigger] spec_decode_frames(ps[j]) is Some,
            i == 0 ==> last is None,
            i > 0 ==> (last matches Some(fs) && spec_decode_frames(ps[i - 1]) == Some(
                frames_view(fs@),
            )),
        decreases payloads.len() - i,
    {
        assert(ps[i as int] == payloads@[i as int]@);
        match decode_frames(payloads[i].as_slice()) {
            Ok(fs) => {
                last = Some(fs);
            },
            Err(e) => {
                assert(spec_decode_frames(ps[i as int]) is None);
                return Err(e);
            },
        }
        i = i + 1;
    }
    let timestamp = if times.len() == 0 {
        0
    } else {
        #[verifier::truncate]
        (times[times.len() - 1] as i64)
    };
    let union = match last {
        Some(frames) => Some(VideoFrameUnion::Vp9s(EncodedVideoFrames { frames })),
        None => None,
    };
    Ok(VideoFrame { union, timestamp })
}

/// Parses a message from its wire form: the protobuf runtime reads the
/// wire, and the message schema is applied to what it read (see
/// `spec_decode_message`); the error is the runtime's.
pub fn parse_message(bytes: &[u8]) -> (r: Result<Message, String>)
    ensures
        r is Ok <==> spec_decode_message(bytes@) is Some,
        r matches Ok(m) ==> spec_decode_message(bytes@) == Some(m@),
{
    let entries = match wire_entries(bytes) {
        Ok(e) => e,
        Err(e) => {
            assert(spec_wire_field(bytes@, 6) is None);
            return Err(e);
        },
    };
    assert(spec_wire_field(bytes@, 6) is Some);
    let (_, payloads) = field_values(&entries, 6);
    let ghost ps = payloads@.map_values(|b: Vec<u8>| b@);
    assert(spec_wire_field(bytes@, 6) == Some((varints_for(entries@, 6), ps)));
    let mut last: Option<VideoFrame> = None;
    let mut i: usize = 0;
    while i < payloads.len()
        invariant
            i <= payloads.len(),
            ps == payloads@.map_values(|b: Vec<u8>| b@),
            spec_wire_field(bytes@, 6) == Some((varints_for(entries@, 6), ps)),
            forall|j: int| 0 <= j < i ==> #[trigger] spec_decode_video(ps[j]) is Some,
            i == 0 ==> last is None,
            i > 0 ==> (last matches Some(vf) && spec_decode_video(ps[i - 1]) == Some(vf@)),
        decreases payloads.len() - i,
    {
        assert(ps[i as int] == payloads@[i as int]@);
        match decode_video(payloads[i].as_slice()) {
            Ok(vf) => {
                last = Some(vf);
            },
            Err(e) => {
                assert(spec_decode_video(ps[i as int]) is None);
                return Err(e);
            },
        }
        i = i + 1;
    }
    let union = match last {
        Some(vf) => Some(MessageUnion::VideoFrame(vf)),
        None => None,
    };
    Ok(Message { union })
}

/// The wire bytes of field number `n` holding the varint `v` (tag, then the
/// value), as the protobuf runtime writes them.
pub uninterp spec fn spec_varint_field(n: u32, v: u64) -> Seq<u8>;

/// The wire bytes of field number `n` holding the length-delimited
/// `payload` (tag, length, then the payload), as the protobuf runtime writes
/// them.
pub uninterp spec fn spec_delimited_field(n: u32, payload: Seq<u8>) -> Seq<u8>;

/// No field at all: what the runtime reads of each field number of an empty
/// message.
pub open spec fn no_fields() -> (Seq<u64>, Seq<Seq<u8>>) {
    (Seq::empty(), Seq::empty())
}

/// A field's values with the varint `v` read after them.
pub open spec fn with_varint(p: (Seq<u64>, Seq<Seq<u8>>), v: u64) -> (Seq<u64>, Seq<Seq<u8>>) {
    (p.0.push(v), p.1)
}

/// A field's values with the payload `b` read after them.
pub open spec fn with_payload(p: (Seq<u64>, Seq<Seq<u8>>), b: Seq<u8>) -> (Seq<u64>, Seq<Seq<u8>>) {
    (p.0, p.1.push(b))
}

/// `protobuf::CodedOutputStream::write_uint64` on a stream over `out`,
/// then `flush`: appends field `n` holding `v` to `out` (a tag and a varint,
/// at least one byte each). As the protobuf wire format is defined, bytes
/// that parse, extended by a field, parse with that field's value read after
/// its earlier ones and every other field as before; and empty bytes parse
/// with no field at all. The runtime panics on a field number outside
/// 1..=0x1fffffff, which `requires` leaves out; the error is the runtime's,
/// as text.
#[verifier::external_body]
fn append_varint_field(out: &mut Vec<u8>, n: u32, v: u64) -> (r: Result<(), String>)
    requires
        1 <= n <= 0x1fff_ffff,
    ensures
        r is Ok ==> final(out)@ == old(out)@ + spec_varint_field(n, v),
        r is Ok ==> final(out)@.len() > old(out)@.len(),
        r is Ok && old(out)@.len() == 0 ==> forall|k: u32|
            #[trigger] spec_wire_field(old(out)@, k) == Some(no_fields()),
        r is Ok ==> forall|k: u32|
            spec_wire_field(old(out)@, k) is Some ==> #[trigger] spec_wire_field(final(out)@, k)
                == Some(
                if k == n {
                    with_varint(spec_wire_field(old(out)@, k)->Some_0, v)
                } else {
                    spec_wire_field(old(out)@, k)->Some_0
                },
            ),
{
    let mut os = protobuf::CodedOutputStream::vec(out);
    os.write_uint64(n, v).and_then(|_| os.flush()).map_err(|e| format!("{:?}", e))
}

/// `protobuf::CodedOutputStream::write_bytes` on a stream over `out`, then
/// `flush`: appends field `n` holding `payload` to `out` (a tag, the length
/// as a varint, then the payload). As the protobuf wire format is defined,
/// bytes that parse, extended by such a field whose length fits in 32 bits
/// (the runtime writes the length as a 32-bit varint), parse with the payload
/// read after the field's earlier ones and every other field as before; and
/// empty bytes parse with no field at all. The runtime panics on a field
/// number outside 1..=0x1fffffff, which `requires` leaves out; the error is
/// the runtime's, as text.
#[verifier::external_body]
fn append_delimited_field(out: &mut Vec<u8>, n: u32, payload: &[u8]) -> (r: Result<(), String>)
    requires
        1 <= n <= 0x1fff_ffff,
    ensures
        r is Ok ==> final(out)@ == old(out)@ + spec_delimited_field(n, payload@),
        r is Ok ==> final(out)@.len() > old(out)@.len() + payload@.len(),
        r is Ok && old(out)@.len() == 0 ==> forall|k: u32|
            #[trigger] spec_wire_field(old(out)@, k) == Some(no_fields()),
        r is Ok && payload@.len() == 0 ==> forall|k: u32|
            #[trigger] spec_wire_field(payload@, k) == Some(no_fields()),
        r is Ok && payload@.len() <= u32::MAX ==> forall|k: u32|
            spec_wire_field(old(out)@, k) is Some ==> #[trigger] spec_wire_field(final(out)@, k)
                == Some(
                if k == n {
                    with_payload(spec_wire_field(old(out)@, k)->Some_0, payload@)
                } else {
                    spec_wire_field(old(out)@, k)->Some_0
                },
            ),
{
    let mut os = protobuf::CodedOutputStream::vec(out);
    os.write_bytes(n, payload).and_then(|_| os.flush()).map_err(|e| format!("{:?}", e))
}

/// A frame's wire form as the schema writes it: each field in number order,
/// left out when it holds its default (empty data, false, 0).
pub open spec fn spec_encode_frame(f: FrameView) -> Seq<u8> {
    (if f.data.len() > 0 {
        spec_delimited_field(1, f.data)
    } else {
        seq![]
    }) + (if f.key {
        spec_varint_field(2, 1)
    } else {
        seq![]
    }) + (if f.pts != 0 {
        spec_varint_field(3, f.pts as u64)
    } else {
        seq![]
    })
}

/// A batch's wire form: each frame, in order, as a payload of field 1.
pub open spec fn spec_encode_frames(fs: Seq<FrameView>) -> Seq<u8>
    decreases fs.len(),
{
    if fs.len() == 0 {
        seq![]
    } else {
        spec_encode_frames(fs.drop_last()) + spec_delimited_field(1, spec_encode_frame(fs.last()))
    }
}

/// A video frame's wire form: the send time (field 9) unless it is 0, then
/// the VP9 batch (field 6) when there is one.
pub open spec fn spec_encode_video(v: VideoView) -> Seq<u8> {
    (if v.timestamp != 0 {
        spec_varint_field(9, v.timestamp as u64)
    } else {
        seq![]
    }) + match v.vp9s {
        Some(fs) => spec_delimited_field(6, spec_encode_frames(fs)),
        None => seq![],
    }
}

/// A message's wire form: its video frame (field 6), if any.
pub open spec fn spec_encode_message(m: MessageView) -> Seq<u8> {
    match m.video {
        Some(v) => spec_delimited_field(6, spec_encode_video(v)),
        None => seq![],
    }
}

/// An encoded frame with every field at its default: no data, not a key
/// frame, presentation time 0.
pub open spec fn default_frame() -> FrameView {
    FrameView { data: Seq::empty(), key: false, pts: 0 }
}

/// What the runtime reads of field `k` of a frame's wire form whose data
/// payloads are `d`, key varints `kv` and pts varints `pv`.
pub open spec fn frame_wire(d: Seq<Seq<u8>>, kv: Seq<u64>, pv: Seq<u64>, k: u32) -> (
    Seq<u64>,
    Seq<Seq<u8>>,
) {
    if k == 1 {
        (Seq::empty(), d)
    } else if k == 2 {
        (kv, Seq::empty())
    } else if k == 3 {
        (pv, Seq::empty())
    } else {
        no_fields()
    }
}

/// Writes a frame's wire form (see `spec_encode_frame`). Parsing gives the
/// frame back: a frame that writes no bytes has every field at its default,
/// and the frame read from any other wire form of at most `u32::MAX` bytes
/// is the frame written, its data whole.
pub fn encode_frame(f: &EncodedVideoFrame) -> (r: Result<Vec<u8>, String>)
    ensures
        r matches Ok(b) ==> b@ == spec_encode_frame(f@),
        r matches Ok(b) ==> (b@.len() == 0 ==> f@ == default_frame()),
        r matches Ok(b) ==> (0 < b@.len() <= u32::MAX ==> spec_decode_frame(b@) == Some(f@)),
{
    let mut out: Vec<u8> = Vec::new();
    let ghost e8 = Seq::<Seq<u8>>::empty();
    let ghost e64 = Seq::<u64>::empty();
    let ghost d = e8;
    if f.data.len() > 0 {
        append_delimited_field(&mut out, 1, f.data.as_slice())?;
        proof {
            d = e8.push(f.data@);
            assert forall|k: u32|
                out@.len() <= u32::MAX implies #[trigger] spec_wire_field(out@, k) == Some(
                    frame_wire(d, e64, e64, k),
                ) by {
                assert(spec_wire_field(Seq::<u8>::empty(), k) == Some(no_fields()));
            }
        }
    }
    let ghost out1 = out@;
    assert(out1.len() == 0 <==> d.len() == 0);
    let ghost kv = e64;
    if f.key {
        let ghost before = out@;
        append_varint_field(&mut out, 2, 1)?;
        proof {
            kv = e64.push(1u64);
            assert forall|k: u32|
                out@.len() <= u32::MAX implies #[trigger] spec_wire_field(out@, k) == Some(
                    frame_wire(d, kv, e64, k),
                ) by {
                assert(spec_wire_field(before, k) == Some(frame_wire(d, e64, e64, k)));
            }
        }
    }
    let ghost out2 = out@;
    assert(out2.len() == 0 <==> (d.len() == 0 && kv.len() == 0));
    let ghost pv = e64;
    if f.pts != 0 {
        let ghost before = out@;
        append_varint_field(&mut out, 3, f.pts as u64)?;
        proof {
            pv = e64.push(f.pts as u64);
            assert forall|k: u32|
                out@.len() <= u32::MAX implies #[trigger] spec_wire_field(out@, k) == Some(
                    frame_wire(d, kv, pv, k),
                ) by {
                assert(spec_wire_field(before, k) == Some(frame_wire(d, kv, e64, k)));
            }
        }
    }
    proof {
        let p = f.pts;
        assert((p as u64) as i64 == p) by (bit_vector);
        if f.data.len() == 0 {
            assert(f.data@ =~= Seq::<u8>::empty());
        }
        if 0 < out@.len() <= u32::MAX {
            assert(spec_wire_field(out@, 1) == Some(frame_wire(d, kv, pv, 1)));
            assert(spec_wire_field(out@, 2) == Some(frame_wire(d, kv, pv, 2)));
            assert(spec_wire_field(out@, 3) == Some(frame_wire(d, kv, pv, 3)));
            assert(spec_decode_frame(out@)->Some_0.data =~= f@.data);
        }
        if out@.len() == 0 {
            assert(f@.data =~= default_frame().data);
        }
    }
    assert(out@ =~= spec_encode_frame(f@));
    Ok(out)
}

/// Writes a batch's wire form (see `spec_encode_frames`). Parsing gives the
/// batch back: an empty batch writes no bytes, and the batch read from any
/// other wire form of at most `u32::MAX` bytes is the batch written.
pub fn encode_frames(frames: &Vec<EncodedVideoFrame>) -> (r: Result<Vec<u8>, String>)
    ensures
        r matches Ok(b) ==> b@ == spec_encode_frames(frames_view(frames@)),
        r matches Ok(b) ==> (b@.len() == 0 <==> frames@.len() == 0),
        r matches Ok(b) ==> (0 < b@.len() <= u32::MAX ==> spec_decode_frames(b@) == Some(
            frames_view(frames@),
        )),
{
    let mut out: Vec<u8> = Vec::new();
    let ghost ps = Seq::<Seq<u8>>::empty();
    let mut i: usize = 0;
    while i < frames.len()
        invariant
            i <= frames.len(),
            out@ == spec_encode_frames(frames_view(frames@.take(i as int))),
            ps.len() == i,
            out@.len() == 0 <==> i == 0,
            out@.len() <= u32::MAX ==> forall|j: int|
                0 <= j < i ==> #[trigger] spec_decode_frame(ps[j]) == Some(frames@[j]@),
            0 < out@.len() <= u32::MAX ==> forall|k: u32|
                #[trigger] spec_wire_field(out@, k) == Some(
                    if k == 1 {
                        (Seq::<u64>::empty(), ps)
                    } else {
                        no_fields()
                    },
                ),
        decreases frames.len() - i,
    {
        let inner = encode_frame(&frames[i])?;
        let ghost before = out@;
        append_delimited_field(&mut out, 1, inner.as_slice())?;
        proof {
            if inner@.len() == 0 {
                assert(spec_wire_field(inner@, 1) == Some(no_fields()));
                assert(spec_wire_field(inner@, 2) == Some(no_fields()));
                assert(spec_wire_field(inner@, 3) == Some(no_fields()));
                assert(spec_decode_frame(inner@)->Some_0.data =~= default_frame().data);
            }
            assert(out@.len() <= u32::MAX ==> spec_decode_frame(inner@) == Some(frames@[i as int]@));
            assert forall|j: int|
                out@.len() <= u32::MAX && 0 <= j < i + 1 implies #[trigger] spec_decode_frame(
                ps.push(inner@)[j],
            ) == Some(frames@[j]@) by {
                if j < i {
                    assert(ps.push(inner@)[j] == ps[j]);
                }
            }
            assert forall|k: u32|
                0 < out@.len() <= u32::MAX implies #[trigger] spec_wire_field(out@, k) == Some(
                    if k == 1 {
                        (Seq::<u64>::empty(), ps.push(inner@))
                    } else {
                        no_fields()
                    },
                ) by {
                if before.len() == 0 {
                    assert(spec_wire_field(before, k) == Some(no_fields()));
                    assert(ps =~= Seq::<Seq<u8>>::empty());
                } else {
                    assert(spec_wire_field(before, k) == Some(
                        if k == 1 {
                            (Seq::<u64>::empty(), ps)
                        } else {
                            no_fields()
                        },
                    ));
                }
            }
            ps = ps.push(inner@);
        }
        assert(frames_view(frames@.take(i + 1)).drop_last() =~= frames_view(frames@.take(i as int)));
        assert(frames_view(frames@.take(i + 1)).last() == frames@[i as int]@);
        i = i + 1;
    }
    assert(frames@.take(frames.len() as int) =~= frames@);
    proof {
        if 0 < out@.len() <= u32::MAX {
            assert(spec_wire_field(out@, 1) == Some((Seq::<u64>::empty(), ps)));
            assert(Seq::new(ps.len(), |j: int| spec_decode_frame(ps[j])->Some_0) =~= frames_view(
                frames@,
            ));
        }
    }
    Ok(out)
}

/// A video frame with every field at its default: no payload, send time 0.
pub open spec fn default_video() -> VideoView {
    VideoView { vp9s: None, timestamp: 0 }
}

/// What the runtime reads of field `k` of a video frame's wire form whose
/// send-time varints are `tv` and batch payloads `p6`.
pub open spec fn video_wire(tv: Seq<u64>, p6: Seq<Seq<u8>>, k: u32) -> (Seq<u64>, Seq<Seq<u8>>) {
    if k == 9 {
        (tv, Seq::empty())
    } else if k == 6 {
        (Seq::empty(), p6)
    } else {
        no_fields()
    }
}

/// Writes a video frame's wire form (see `spec_encode_video`). Parsing gives
/// the video frame back: one that writes no bytes has every field at its
/// default, and the video frame read from any other wire form of at most
/// `u32::MAX` bytes is the one written.
pub fn encode_video(vf: &VideoFrame) -> (r: Result<Vec<u8>, String>)
    ensures
        r matches Ok(b) ==> b@ == spec_encode_video(vf@),
        r matches Ok(b) ==> (b@.len() == 0 ==> vf@ == default_video()),
        r matches Ok(b) ==> (0 < b@.len() <= u32::MAX ==> spec_decode_video(b@) == Some(vf@)),
{
    let mut out: Vec<u8> = Vec::new();
    let ghost e8 = Seq::<Seq<u8>>::empty();
    let ghost e64 = Seq::<u64>::empty();
    let ghost tv = e64;
    if vf.timestamp != 0 {
        append_varint_field(&mut out, 9, vf.timestamp as u64)?;
        proof {
            tv = e64.push(vf.timestamp as u64);
            assert forall|k: u32|
                out@.len() <= u32::MAX implies #[trigger] spec_wire_field(out@, k) == Some(
                    video_wire(tv, e8, k),
                ) by {
                assert(spec_wire_field(Seq::<u8>::empty(), k) == Some(no_fields()));
            }
        }
    }
    let ghost out1 = out@;
    assert(out1.len() == 0 <==> tv.len() == 0);
    let ghost p6 = e8;
    match &vf.union {
        Some(VideoFrameUnion::Vp9s(fs)) => {
            let inner = encode_frames(&fs.frames)?;
            let ghost before = out@;
            append_delimited_field(&mut out, 6, inner.as_slice())?;
            proof {
                p6 = e8.push(inner@);
                assert forall|k: u32|
                    out@.len() <= u32::MAX implies #[trigger] spec_wire_field(out@, k) == Some(
                        video_wire(tv, p6, k),
                    ) by {
                    if before.len() == 0 {
                        assert(spec_wire_field(before, k) == Some(no_fields()));
                    } else {
                        assert(spec_wire_field(before, k) == Some(video_wire(tv, e8, k)));
                    }
                }
                if inner@.len() == 0 {
                    assert(spec_wire_field(inner@, 1) == Some(no_fields()));
                    assert(frames_view(fs.frames@) =~= Seq::<FrameView>::empty());
                    assert(spec_decode_frames(inner@)->Some_0 =~= Seq::<FrameView>::empty());
                }
                assert(out@.len() <= u32::MAX ==> spec_decode_frames(inner@) == Some(
                    frames_view(fs.frames@),
                ));
            }
        },
        None => {},
    }
    proof {
        let t = vf.timestamp;
        assert((t as u64) as i64 == t) by (bit_vector);
        if 0 < out@.len() <= u32::MAX {
            assert(spec_wire_field(out@, 6) == Some(video_wire(tv, p6, 6)));
            assert(spec_wire_field(out@, 9) == Some(video_wire(tv, p6, 9)));
        }
    }
    assert(out@ =~= spec_encode_video(vf@));
    Ok(out)
}

/// Writes a message's wire form (see `spec_encode_message`). Parsing gives
/// the message back: a message that writes no bytes holds no video frame,
/// and the message read from any other wire form of at most `u32::MAX`
/// bytes is the message written.
pub fn encode_message(m: &Message) -> (r: Result<Vec<u8>, String>)
    ensures
        r matches Ok(b) ==> b@ == spec_encode_message(m@),
        r matches Ok(b) ==> (b@.len() == 0 ==> m@.video is None),
        r matches Ok(b) ==> (0 < b@.len() <= u32::MAX ==> spec_decode_message(b@) == Some(m@)),
{
    let mut out: Vec<u8> = Vec::new();
    match &m.union {
        Some(MessageUnion::VideoFrame(vf)) => {
            let inner = encode_video(vf)?;
            append_delimited_field(&mut out, 6, inner.as_slice())?;
            proof {
                assert(spec_wire_field(Seq::<u8>::empty(), 6) == Some(no_fields()));
                if inner@.len() == 0 {
                    assert(spec_wire_field(inner@, 6) == Some(no_fields()));
                    assert(spec_wire_field(inner@, 9) == Some(no_fields()));
                }
                if out@.len() <= u32::MAX {
                    assert(spec_wire_field(out@, 6) == Some(
                        (Seq::<u64>::empty(), Seq::<Seq<u8>>::empty().push(inner@)),
                    ));
                    assert(spec_decode_video(inner@) == Some(vf@));
                }
            }
        },
        None => {},
    }
    assert(out@ =~= spec_encode_message(m@));
    Ok(out)
}

} // verus!
