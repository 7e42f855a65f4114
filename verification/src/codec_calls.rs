//! What calls of the codec come to.

use bytes::BytesMut;
use vstd::prelude::*;

use crate::big_endian::{be_bytes, be_value, lemma_be_bytes_len};
use crate::buffer::contents;
use crate::channel::ChannelId;
use crate::codec::{Codec, CodecError, EncodedFrame, Frame};
use crate::codec_laws::law_any_codec_decodes_what_another_encoded;
use crate::ident::Uuid;
use crate::message::Message;

verus! {

/// A message that two bytes can count is appended to the buffer behind its length, most significant
/// byte first, and the sixteen bytes of the channel identifier.
pub proof fn law_frame_layout(
    codec: &mut Codec,
    channel_id: ChannelId,
    message: Vec<u8>,
    dst: &mut BytesMut,
    result: Result<(), CodecError>,
    id_bytes: [u8; 16],
)
    requires
        call_ensures(Codec::encode, (codec, channel_id, Ok(message), dst), result),
        call_ensures(Uuid::as_bytes, (&channel_id,), id_bytes),
        message@.len() < 65536,
    ensures
        result is Ok,
        ({
            let before = contents(*old(dst));
            let after = contents(*final(dst));
            let at = before.len() as int;
            &&& after.len() == at + 18 + message@.len()
            &&& after.take(at) == before
            &&& after[at] as int * 256 + after[at + 1] as int == message@.len()
            &&& after.subrange(at + 2, at + 18) == id_bytes@
            &&& after.skip(at + 18) == message@
        }),
{
    let before = contents(*old(dst));
    let after = contents(*final(dst));
    let at = before.len() as int;
    let header = be_bytes(message@.len(), 2);
    lemma_be_bytes_len(message@.len(), 2);
    lemma_be_bytes_len(channel_id.value as nat, 16);
    reveal_with_fuel(be_bytes, 3);
    assert(after =~= before + header + id_bytes@ + message@);
    assert(header[0] == (message@.len() / 256) % 256);
    assert(header[1] == message@.len() % 256);
    assert(after.take(at) =~= before);
    assert(after.subrange(at + 2, at + 18) =~= id_bytes@);
    assert(after.skip(at + 18) =~= message@);
}

/// A message that two bytes cannot count, and one that could not be serialized, is refused with what
/// is wrong with it, and the buffer stays as it is.
pub proof fn law_what_cannot_be_framed_is_refused(
    codec: &mut Codec,
    channel_id: ChannelId,
    message: Result<Vec<u8>, postcard::Error>,
    dst: &mut BytesMut,
    result: Result<(), CodecError>,
)
    requires
        call_ensures(Codec::encode, (codec, channel_id, message, dst), result),
        message matches Ok(bytes) ==> bytes@.len() >= 65536,
    ensures
        contents(*final(dst)) == contents(*old(dst)),
        message matches Ok(bytes) ==> result matches Err(CodecError::FrameTooLarge(len)) && len
            == bytes@.len(),
        message matches Err(cause) ==> result == Err::<(), CodecError>(
            CodecError::MessageSerializationError(cause),
        ),
{
}

/// A buffer that begins with a whole frame gives the frame: the identifier that its third to
/// eighteenth byte spell and as many bytes of message as the first two bytes count. What follows
/// stays in the buffer.
pub proof fn law_whole_frame_is_taken_out(
    codec: &mut Codec,
    src: &mut BytesMut,
    result: Result<Option<EncodedFrame>, CodecError>,
    id_bytes: &[u8],
    id: Result<Uuid, uuid::Error>,
)
    requires
        call_ensures(Codec::decode, (codec, src), result),
        contents(*src).len() >= 18,
        contents(*src).len() >= 18 + contents(*src)[0] as int * 256 + contents(*src)[1] as int,
        id_bytes@ == contents(*src).subrange(2, 18),
        call_ensures(Uuid::from_slice, (id_bytes,), id),
    ensures
        ({
            let bytes = contents(*old(src));
            let len = bytes[0] as int * 256 + bytes[1] as int;
            &&& result matches Ok(Some(frame)) && id == Ok::<Uuid, uuid::Error>(frame.channel_id)
                && contents(frame.message) == bytes.subrange(18, 18 + len)
            &&& contents(*final(src)) == bytes.skip(18 + len)
        }),
{
    lemma_header(contents(*old(src)));
}

/// A buffer that does not begin with a whole frame is left as it is, to wait for more.
pub proof fn law_part_of_a_frame_waits(
    codec: &mut Codec,
    src: &mut BytesMut,
    result: Result<Option<EncodedFrame>, CodecError>,
)
    requires
        call_ensures(Codec::decode, (codec, src), result),
        contents(*src).len() < 18 || contents(*src).len() < 18 + contents(*src)[0] as int * 256
            + contents(*src)[1] as int,
    ensures
        result matches Ok(None),
        contents(*final(src)) == contents(*old(src)),
{
    if contents(*old(src)).len() >= 2 {
        lemma_header(contents(*old(src)));
    }
}

/// What two bytes spell.
proof fn lemma_header(bytes: Seq<u8>)
    requires
        bytes.len() >= 2,
    ensures
        be_value(bytes.take(2)) == bytes[0] as int * 256 + bytes[1] as int,
{
    let header = bytes.take(2);
    reveal_with_fuel(be_value, 3);
    assert(header.drop_last().drop_last().len() == 0);
    assert(header.drop_last().last() == bytes[0]);
}

/// What one call has encoded another one decodes, whatever follows it: the same channel, the same
/// message, and what follows is left.
pub proof fn law_encoded_frame_is_decoded(
    encoder: &mut Codec,
    decoder: &mut Codec,
    channel_id: ChannelId,
    message: Vec<u8>,
    dst: &mut BytesMut,
    src: &mut BytesMut,
    rest: Seq<u8>,
    result: Result<Option<EncodedFrame>, CodecError>,
)
    requires
        call_ensures(Codec::encode, (encoder, channel_id, Ok(message), dst), Ok(())),
        contents(*dst).len() == 0,
        call_ensures(Codec::decode, (decoder, src), result),
        contents(*src) == contents(*final(dst)) + rest,
    ensures
        result matches Ok(Some(frame)) && frame.channel_id == channel_id && contents(frame.message)
            == message@,
        contents(*final(src)) == rest,
{
    assert(contents(*old(dst)) =~= Seq::<u8>::empty());
    law_any_codec_decodes_what_another_encoded(
        channel_id,
        message,
        contents(*final(dst)),
        rest,
        result,
        contents(*final(src)),
    );
}

/// Every buffer can be decoded, and everything can be encoded where the buffer has room for it.
pub proof fn law_codec_takes_every_input(
    codec: &mut Codec,
    channel_id: ChannelId,
    message: Result<Vec<u8>, postcard::Error>,
    buffer: &mut BytesMut,
)
    requires
        message matches Ok(bytes) ==> contents(*buffer).len() + 18 + bytes@.len() <= isize::MAX,
    ensures
        call_requires(Codec::encode, (codec, channel_id, message, buffer)),
        call_requires(Codec::decode, (codec, buffer)),
{
}

/// A frame gets the message that was read for it, on its own channel, or the error of reading it.
pub proof fn law_frame_gets_its_message(
    frame: EncodedFrame,
    message: Result<Message, postcard::Error>,
    result: Result<Option<Frame>, CodecError>,
)
    requires
        call_ensures(EncodedFrame::decoded, (frame, message), result),
    ensures
        message matches Ok(read) ==> result == Ok::<Option<Frame>, CodecError>(
            Some(Frame { channel_id: frame.channel_id, message: read }),
        ),
        message matches Err(cause) ==> result == Err::<Option<Frame>, CodecError>(
            CodecError::MessageDeserializationError(cause),
        ),
{
}

} // verus!
