//! What holds of frames and their bytes.

use vstd::prelude::*;

use crate::big_endian::{
    be_bytes, be_value, lemma_be_bytes_len, lemma_bytes_of_value, lemma_u128_fits, lemma_u16_fits,
    lemma_value_of_bytes,
};
use crate::buffer::contents;
use crate::channel::ChannelId;
use crate::codec::{
    after_first, announced_len, decoding, encoding, first_channel_id, first_message, frame_bytes,
    has_frame, Codec, CodecError, EncodedFrame, FRAME_MESSAGE_MAX_SIZE,
};
use crate::ident::Uuid;

verus! {

/// A frame takes eighteen bytes and its message.
pub proof fn law_frame_size(channel_id: ChannelId, message: Seq<u8>)
    ensures
        frame_bytes(channel_id, message).len() == 18 + message.len(),
{
    lemma_be_bytes_len(message.len(), 2);
    lemma_be_bytes_len(channel_id.value as nat, 16);
}

/// What is decoded is what was encoded, whatever follows it in the buffer, for every message that
/// can be encoded.
pub proof fn law_decode_gives_back_what_was_encoded(
    channel_id: ChannelId,
    message: Seq<u8>,
    rest: Seq<u8>,
)
    requires
        message.len() <= FRAME_MESSAGE_MAX_SIZE,
    ensures
        ({
            let bytes = frame_bytes(channel_id, message) + rest;
            &&& has_frame(bytes)
            &&& first_channel_id(bytes) == channel_id.value
            &&& first_message(bytes) == message
            &&& after_first(bytes) == rest
        }),
{
    let bytes = frame_bytes(channel_id, message) + rest;
    let header = be_bytes(message.len(), 2);
    let id = be_bytes(channel_id.value as nat, 16);
    law_frame_size(channel_id, message);
    lemma_be_bytes_len(message.len(), 2);
    lemma_be_bytes_len(channel_id.value as nat, 16);
    lemma_u16_fits(message.len() as u16);
    lemma_u128_fits(channel_id.value);
    lemma_value_of_bytes(message.len(), 2);
    lemma_value_of_bytes(channel_id.value as nat, 16);
    assert(bytes.take(2) =~= header);
    assert(bytes.subrange(2, 18) =~= id);
    assert(first_message(bytes) =~= message);
    assert(after_first(bytes) =~= rest);
}

/// Bytes that begin with a whole frame are the encoding of that frame, followed by the rest.
pub proof fn law_encode_gives_back_what_was_decoded(bytes: Seq<u8>, channel_id: ChannelId)
    requires
        has_frame(bytes),
        channel_id.value == first_channel_id(bytes),
    ensures
        bytes == frame_bytes(channel_id, first_message(bytes)) + after_first(bytes),
{
    let header = bytes.take(2);
    let id = bytes.subrange(2, 18);
    lemma_announced_len(bytes);
    lemma_bytes_of_value(header);
    lemma_bytes_of_value(id);
    assert(bytes =~= header + id + first_message(bytes) + after_first(bytes));
}

/// A header announces no more than a message may hold.
proof fn lemma_announced_len(bytes: Seq<u8>)
    requires
        bytes.len() >= 2,
    ensures
        announced_len(bytes) <= FRAME_MESSAGE_MAX_SIZE,
{
    let header = bytes.take(2);
    reveal_with_fuel(be_value, 3);
    assert(header.drop_last().drop_last().len() == 0);
}

/// As long as only a part of a frame has arrived, the decoder waits for more.
pub proof fn law_decoder_waits_for_the_whole_frame(
    channel_id: ChannelId,
    message: Seq<u8>,
    arrived: int,
)
    requires
        message.len() <= FRAME_MESSAGE_MAX_SIZE,
        0 <= arrived < frame_bytes(channel_id, message).len(),
    ensures
        !has_frame(frame_bytes(channel_id, message).take(arrived)),
{
    let bytes = frame_bytes(channel_id, message);
    law_frame_size(channel_id, message);
    law_decode_gives_back_what_was_encoded(channel_id, message, Seq::empty());
    assert(bytes + Seq::<u8>::empty() =~= bytes);
    if arrived >= 18 {
        assert(bytes.take(arrived).take(2) =~= bytes.take(2));
        assert(first_message(bytes).len() == announced_len(bytes));
    }
}

/// Bytes that arrive after a whole frame do not change what the frame is decoded to.
pub proof fn law_later_bytes_do_not_matter(bytes: Seq<u8>, later: Seq<u8>)
    requires
        has_frame(bytes),
    ensures
        has_frame(bytes + later),
        first_channel_id(bytes + later) == first_channel_id(bytes),
        first_message(bytes + later) == first_message(bytes),
        after_first(bytes + later) == after_first(bytes) + later,
{
    assert((bytes + later).take(2) =~= bytes.take(2));
    assert((bytes + later).subrange(2, 18) =~= bytes.subrange(2, 18));
    assert(first_message(bytes + later) =~= first_message(bytes));
    assert(after_first(bytes + later) =~= after_first(bytes) + later);
}

/// The header of every frame that is encoded holds the length of its message.
pub proof fn law_header_is_the_length_of_the_message(
    channel_id: ChannelId,
    message: Result<Vec<u8>, postcard::Error>,
    before: Seq<u8>,
    result: Result<(), CodecError>,
    after: Seq<u8>,
)
    requires
        encoding(channel_id, message, before, result, after),
        result is Ok,
    ensures
        message matches Ok(bytes) && announced_len(after.skip(before.len() as int)) == bytes@.len(),
{
    let bytes = message->Ok_0;
    let frame = frame_bytes(channel_id, bytes@);
    law_decode_gives_back_what_was_encoded(channel_id, bytes@, Seq::empty());
    assert(frame + Seq::<u8>::empty() =~= frame);
    assert(after.skip(before.len() as int) =~= frame);
    law_frame_size(channel_id, bytes@);
    assert(first_message(frame).len() == announced_len(frame));
}

/// A codec keeps nothing: one that was used for whatever calls is the same as one that was not.
pub proof fn law_used_codec_is_as_new(used: Codec, unused: Codec)
    ensures
        used == unused,
{
}

/// All codecs act alike, whatever they were used for before: what encoding comes to is settled by
/// what is encoded and by what the buffer holds.
pub proof fn law_codecs_encode_alike(
    channel_id: ChannelId,
    message: Result<Vec<u8>, postcard::Error>,
    before: Seq<u8>,
    result: Result<(), CodecError>,
    after: Seq<u8>,
    other_result: Result<(), CodecError>,
    other_after: Seq<u8>,
)
    requires
        encoding(channel_id, message, before, result, after),
        encoding(channel_id, message, before, other_result, other_after),
    ensures
        result == other_result,
        after == other_after,
{
}

/// All codecs act alike, whatever they were used for before: what decoding comes to is settled by
/// what the buffer holds.
pub proof fn law_codecs_decode_alike(
    before: Seq<u8>,
    result: Result<Option<EncodedFrame>, CodecError>,
    after: Seq<u8>,
    other_result: Result<Option<EncodedFrame>, CodecError>,
    other_after: Seq<u8>,
)
    requires
        decoding(before, result, after),
        decoding(before, other_result, other_after),
    ensures
        match (result, other_result) {
            (Ok(Some(frame)), Ok(Some(other))) => {
                &&& frame.channel_id == other.channel_id
                &&& contents(frame.message) == contents(other.message)
            },
            (Ok(None), Ok(None)) => true,
            _ => false,
        },
        after == other_after,
{
}

/// What one codec has encoded any other one decodes, whatever follows it.
pub proof fn law_any_codec_decodes_what_another_encoded(
    channel_id: ChannelId,
    message: Vec<u8>,
    written: Seq<u8>,
    rest: Seq<u8>,
    result: Result<Option<EncodedFrame>, CodecError>,
    after: Seq<u8>,
)
    requires
        encoding(channel_id, Ok(message), Seq::empty(), Ok(()), written),
        decoding(written + rest, result, after),
    ensures
        result matches Ok(Some(frame)) && frame.channel_id == channel_id && contents(frame.message)
            == message@,
        after == rest,
{
    assert(written =~= frame_bytes(channel_id, message@));
    law_decode_gives_back_what_was_encoded(channel_id, message@, rest);
}

/// The bytes of frames, one after the other.
pub open spec fn stream_bytes(frames: Seq<(ChannelId, Seq<u8>)>) -> Seq<u8>
    decreases frames.len(),
{
    if frames.len() == 0 {
        Seq::empty()
    } else {
        frame_bytes(frames[0].0, frames[0].1) + stream_bytes(frames.drop_first())
    }
}

/// The frames that decoding takes out of the bytes one after the other, until it has to wait.
pub open spec fn decode_all(bytes: Seq<u8>) -> Seq<(ChannelId, Seq<u8>)>
    decreases bytes.len(),
{
    if has_frame(bytes) {
        seq![(Uuid { value: first_channel_id(bytes) as u128 }, first_message(bytes))] + decode_all(
            after_first(bytes),
        )
    } else {
        Seq::empty()
    }
}

/// A stream of frames is decoded to the same frames in the same order, and what follows them is
/// decoded as if it stood alone.
pub proof fn law_stream_of_frames(frames: Seq<(ChannelId, Seq<u8>)>, rest: Seq<u8>)
    requires
        forall|i: int| 0 <= i < frames.len() ==> (#[trigger] frames[i]).1.len()
            <= FRAME_MESSAGE_MAX_SIZE,
    ensures
        decode_all(stream_bytes(frames) + rest) == frames + decode_all(rest),
    decreases frames.len(),
{
    if frames.len() == 0 {
        assert(stream_bytes(frames) + rest =~= rest);
        assert(frames + decode_all(rest) =~= decode_all(rest));
    } else {
        let others = frames.drop_first();
        let tail = stream_bytes(others) + rest;
        let bytes = frame_bytes(frames[0].0, frames[0].1) + tail;
        assert(stream_bytes(frames) + rest =~= bytes);
        law_decode_gives_back_what_was_encoded(frames[0].0, frames[0].1, tail);
        law_stream_of_frames(others, rest);
        assert(frames =~= seq![frames[0]] + others);
        assert(decode_all(bytes) =~= seq![frames[0]] + decode_all(tail));
        assert(frames + decode_all(rest) =~= seq![frames[0]] + (others + decode_all(rest)));
    }
}

} // verus!
