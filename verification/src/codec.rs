//! The encoding/decoding protocol for frames sent over the raw connection.
//! Every frame is prefixed with a length header (2 bytes, big-endian), which holds the length of
//! the message. The frame body consists of a channel identifier (16 bytes) and a message (variable
//! length, up to what the header can count: one byte less than 64 kilobytes).

use bytes::BytesMut;
use vstd::prelude::*;

use crate::big_endian::{be_bytes, be_value, lemma_be_bytes_len};
use crate::buffer::{
    buffer_advance, buffer_bytes, buffer_len, buffer_put_slice, buffer_put_u16, buffer_reserve,
    buffer_split_to, contents,
};
use crate::channel::ChannelId;
use crate::ident::Uuid;
use crate::message::Message;

verus! {

/// What `postcard` reports for a message that it cannot write or read.
#[verifier::external_type_specification]
#[verifier::external_body]
pub struct ExPostcardError(postcard::Error);

/// What the connection reports.
#[verifier::external_type_specification]
#[verifier::external_body]
pub struct ExIoError(std::io::Error);

/// A frame of data that contains a message and the channel that it is belongs to.
/// Frames are sent across the wire, and the mux is responsible for dispatching messages to the
/// appropriate channel based on the channel ID in the frame.
#[derive(Debug)]
pub struct Frame {
    /// The channel identifier that this frame belongs to.
    pub channel_id: ChannelId,
    /// The message that is being sent to the peer.
    pub message: Message,
}

/// A frame whose message is still in its serialized form.
#[derive(Debug)]
pub struct EncodedFrame {
    /// The channel identifier that this frame belongs to.
    pub channel_id: ChannelId,
    /// The serialized message.
    pub message: BytesMut,
}

/// 2 bytes for payload length.
pub const FRAME_LENGTH_HEADER_SIZE: usize = 2;

/// 16 bytes for channel ID.
pub const FRAME_CHANNEL_ID_SIZE: usize = 16;

/// The largest message that the length header can count.
pub const FRAME_MESSAGE_MAX_SIZE: usize = 65535;

/// Errors for encoding/decoding frames.
#[derive(Debug)]
pub enum CodecError {
    IoError(std::io::Error),
    FrameTooLarge(usize),
    ChannelIdDeserializationError(uuid::Error),
    MessageDeserializationError(postcard::Error),
    MessageSerializationError(postcard::Error),
}

/// The bytes of a frame: the length of the message, the channel identifier and the message.
pub open spec fn frame_bytes(channel_id: ChannelId, message: Seq<u8>) -> Seq<u8> {
    be_bytes(message.len(), 2) + be_bytes(channel_id.value as nat, 16) + message
}

/// The length of the message that the header of a frame announces.
pub open spec fn announced_len(bytes: Seq<u8>) -> nat {
    be_value(bytes.take(2))
}

/// Whether the bytes begin with a whole frame.
pub open spec fn has_frame(bytes: Seq<u8>) -> bool {
    bytes.len() >= 18 && bytes.len() >= 18 + announced_len(bytes)
}

/// The channel identifier of the frame that the bytes begin with.
pub open spec fn first_channel_id(bytes: Seq<u8>) -> nat {
    be_value(bytes.subrange(2, 18))
}

/// The serialized message of the frame that the bytes begin with.
pub open spec fn first_message(bytes: Seq<u8>) -> Seq<u8> {
    bytes.subrange(18, 18 + announced_len(bytes) as int)
}

/// What follows the frame that the bytes begin with.
pub open spec fn after_first(bytes: Seq<u8>) -> Seq<u8> {
    bytes.skip(18 + announced_len(bytes) as int)
}

/// Whether encoding comes to `result` and takes what a buffer holds from `before` to `after`.
/// `message` is what came of serializing the message.
pub open spec fn encoding(
    channel_id: ChannelId,
    message: Result<Vec<u8>, postcard::Error>,
    before: Seq<u8>,
    result: Result<(), CodecError>,
    after: Seq<u8>,
) -> bool {
    match message {
        Err(e) => {
            &&& result == Err::<(), CodecError>(CodecError::MessageSerializationError(e))
            &&& after == before
        },
        Ok(bytes) if bytes@.len() > FRAME_MESSAGE_MAX_SIZE => {
            &&& result == Err::<(), CodecError>(CodecError::FrameTooLarge(bytes.len()))
            &&& after == before
        },
        Ok(bytes) => {
            &&& result == Ok::<(), CodecError>(())
            &&& after == before + frame_bytes(channel_id, bytes@)
        },
    }
}

/// Whether decoding comes to `result` and takes what a buffer holds from `before` to `after`.
pub open spec fn decoding(
    before: Seq<u8>,
    result: Result<Option<EncodedFrame>, CodecError>,
    after: Seq<u8>,
) -> bool {
    if has_frame(before) {
        &&& result matches Ok(Some(frame))
        &&& frame.channel_id.value == first_channel_id(before)
        &&& contents(frame.message) == first_message(before)
        &&& after == after_first(before)
    } else {
        &&& result == Ok::<Option<EncodedFrame>, CodecError>(None)
        &&& after == before
    }
}

/// Turns frames into bytes and back. A codec keeps nothing between calls.
pub struct Codec;

impl Codec {
    /// Constructs a new [`Codec`].
    pub fn new() -> (codec: Self)
        ensures
            codec == Codec,
    {
        Codec
    }

    /// Appends a frame to the buffer. `message` is what came of serializing the message; where that
    /// failed, or the header cannot count the message, the buffer is left as it is.
    pub fn encode(
        &mut self,
        channel_id: ChannelId,
        message: Result<Vec<u8>, postcard::Error>,
        dst: &mut BytesMut,
    ) -> (result: Result<(), CodecError>)
        requires
            message matches Ok(bytes) ==> bytes@.len() <= FRAME_MESSAGE_MAX_SIZE ==> contents(
                *old(dst),
            ).len() + 18 + bytes@.len() <= isize::MAX,
        ensures
            encoding(channel_id, message, contents(*old(dst)), result, contents(*final(dst))),
            *final(self) == *old(self),
    {
        let message = match message {
            Ok(message) => message,
            Err(e) => {
                return Err(CodecError::MessageSerializationError(e));
            },
        };
        if message.len() > FRAME_MESSAGE_MAX_SIZE {
            return Err(CodecError::FrameTooLarge(message.len()));
        }
        proof {
            lemma_be_bytes_len(message@.len(), 2);
            lemma_be_bytes_len(channel_id.value as nat, 16);
        }
        buffer_reserve(dst, FRAME_LENGTH_HEADER_SIZE + FRAME_CHANNEL_ID_SIZE + message.len());
        buffer_put_u16(dst, message.len() as u16);
        buffer_put_slice(dst, &channel_id.as_bytes());
        buffer_put_slice(dst, message.as_slice());
        assert(contents(*dst) =~= contents(*old(dst)) + frame_bytes(channel_id, message@));
        Ok(())
    }

    /// Takes a frame out of the buffer. Where the buffer does not begin with a whole frame, it is
    /// left as it is, to wait for more.
    pub fn decode(&mut self, src: &mut BytesMut) -> (result: Result<Option<EncodedFrame>, CodecError>)
        ensures
            decoding(contents(*old(src)), result, contents(*final(src))),
            *final(self) == *old(self),
    {
        let available = buffer_len(src);
        if available < FRAME_LENGTH_HEADER_SIZE + FRAME_CHANNEL_ID_SIZE {
            // `src` does not have enough bytes to read the length and channel ID.
            return Ok(None);
        }
        let bytes = buffer_bytes(src);
        let high: usize = bytes[0] as usize;
        let low: usize = bytes[1] as usize;
        let message_len: usize = high * 256 + low;
        proof {
            let header = contents(*src).take(2);
            reveal_with_fuel(be_value, 3);
            assert(header.drop_last().drop_last().len() == 0);
            assert(header.drop_last().last() == high);
            assert(announced_len(contents(*src)) == message_len);
        }
        if message_len > FRAME_MESSAGE_MAX_SIZE {
            return Err(CodecError::FrameTooLarge(message_len));
        }
        let channel_id = match Uuid::from_slice(
            vstd::slice::slice_subrange(
                bytes,
                FRAME_LENGTH_HEADER_SIZE,
                FRAME_LENGTH_HEADER_SIZE + FRAME_CHANNEL_ID_SIZE,
            ),
        ) {
            Ok(channel_id) => channel_id,
            Err(e) => {
                return Err(CodecError::ChannelIdDeserializationError(e));
            },
        };
        let total = FRAME_LENGTH_HEADER_SIZE + FRAME_CHANNEL_ID_SIZE + message_len;
        if available < total {
            // `src` does not have enough bytes to read the entire frame.
            return Ok(None);
        }
        let ghost before = contents(*src);
        buffer_advance(src, FRAME_LENGTH_HEADER_SIZE + FRAME_CHANNEL_ID_SIZE);
        let message = buffer_split_to(src, message_len);
        proof {
            assert(contents(message) =~= first_message(before));
            assert(contents(*src) =~= after_first(before));
        }
        Ok(Some(EncodedFrame { channel_id, message }))
    }
}

impl EncodedFrame {
    /// The frame with its message. `message` is what came of reading the serialized message.
    pub fn decoded(self, message: Result<Message, postcard::Error>) -> (result: Result<
        Option<Frame>,
        CodecError,
    >)
        ensures
            match message {
                Ok(message) => result == Ok::<Option<Frame>, CodecError>(
                    Some(Frame { channel_id: self.channel_id, message }),
                ),
                Err(e) => result == Err::<Option<Frame>, CodecError>(
                    CodecError::MessageDeserializationError(e),
                ),
            },
    {
        match message {
            Ok(message) => Ok(Some(Frame { channel_id: self.channel_id, message })),
            Err(e) => Err(CodecError::MessageDeserializationError(e)),
        }
    }
}

} // verus!
