use bytes::BytesMut;
use muzanci_transport::codec::{Codec, CodecError};
use muzanci_transport::ident::Uuid;
use muzanci_transport::message::Message;

const ID: Uuid = Uuid { value: 0xA1A2A3A4_B1B2_C1C2_D1D2_D3D4D5D6D7D8 };

fn encoded(id: Uuid, message: &[u8]) -> BytesMut {
    let mut buffer = BytesMut::new();
    Codec::new().encode(id, Ok(message.to_vec()), &mut buffer).unwrap();
    buffer
}

#[test]
fn frame_layout() {
    let buffer = encoded(ID, &[7, 8, 9]);
    assert_eq!(
        &buffer[..],
        &[
            0, 3, 0xA1, 0xA2, 0xA3, 0xA4, 0xB1, 0xB2, 0xC1, 0xC2, 0xD1, 0xD2, 0xD3, 0xD4, 0xD5,
            0xD6, 0xD7, 0xD8, 7, 8, 9
        ]
    );
    assert_eq!(encoded(ID, &vec![1; 0x0102])[..2], [1, 2]);
}

#[test]
fn decode_gives_back_what_was_encoded() {
    let mut buffer = encoded(ID, &[7, 8, 9]);
    let other = Uuid { value: 1 };
    Codec::new().encode(other, Ok(vec![]), &mut buffer).unwrap();
    buffer.extend_from_slice(&[0xFF]);
    let mut codec = Codec::new();
    let first = codec.decode(&mut buffer).unwrap().unwrap();
    assert_eq!(first.channel_id, ID);
    assert_eq!(&first.message[..], &[7, 8, 9]);
    let second = codec.decode(&mut buffer).unwrap().unwrap();
    assert_eq!(second.channel_id, other);
    assert!(second.message.is_empty());
    assert!(codec.decode(&mut buffer).unwrap().is_none());
    assert_eq!(&buffer[..], &[0xFF]);
}

#[test]
fn largest_message_that_the_header_counts() {
    let message = vec![0x5A; 65535];
    let mut buffer = encoded(ID, &message);
    assert_eq!(buffer.len(), 18 + 65535);
    assert_eq!(buffer[..2], [0xFF, 0xFF]);
    let frame = Codec::new().decode(&mut buffer).unwrap().unwrap();
    assert!(frame.message[..] == message[..]);
    assert!(buffer.is_empty());
}

#[test]
fn message_that_the_header_cannot_count_is_refused() {
    let mut buffer = encoded(ID, &[1]);
    let before = buffer.clone();
    let result = Codec::new().encode(ID, Ok(vec![1; 65536]), &mut buffer);
    assert!(matches!(result, Err(CodecError::FrameTooLarge(65536))));
    assert_eq!(buffer, before);
}

#[test]
fn too_large_message_is_refused() {
    let mut buffer = encoded(ID, &[1]);
    let before = buffer.clone();
    let result = Codec::new().encode(ID, Ok(vec![0; 65537]), &mut buffer);
    assert!(matches!(result, Err(CodecError::FrameTooLarge(65537))));
    assert_eq!(buffer, before);
}

#[test]
fn serialization_failure_leaves_the_buffer() {
    let mut buffer = encoded(ID, &[1]);
    let before = buffer.clone();
    let result = Codec::new().encode(ID, Err(postcard::Error::SerializeBufferFull), &mut buffer);
    assert!(matches!(
        result,
        Err(CodecError::MessageSerializationError(postcard::Error::SerializeBufferFull))
    ));
    assert_eq!(buffer, before);
}

#[test]
fn decoder_waits_for_the_whole_frame() {
    let whole = encoded(ID, &[7, 8, 9]);
    for arrived in 0..whole.len() {
        let mut buffer = BytesMut::from(&whole[..arrived]);
        assert!(Codec::new().decode(&mut buffer).unwrap().is_none());
        assert_eq!(&buffer[..], &whole[..arrived]);
    }
}

#[test]
fn message_is_put_into_its_frame() {
    let mut buffer = encoded(ID, &[7]);
    let frame = Codec::new().decode(&mut buffer).unwrap().unwrap();
    let frame = frame.decoded(Ok(Message::RawData(vec![7]))).unwrap().unwrap();
    assert_eq!(frame.channel_id, ID);
    assert!(matches!(frame.message, Message::RawData(data) if data == [7]));
    let mut buffer = encoded(ID, &[7]);
    let frame = Codec::new().decode(&mut buffer).unwrap().unwrap();
    assert!(matches!(
        frame.decoded(Err(postcard::Error::DeserializeUnexpectedEnd)),
        Err(CodecError::MessageDeserializationError(postcard::Error::DeserializeUnexpectedEnd))
    ));
}

#[test]
fn header_is_the_length_of_the_message() {
    for len in [0usize, 1, 255, 256, 65534, 65535] {
        let buffer = encoded(ID, &vec![3; len]);
        assert_eq!(u16::from_be_bytes([buffer[0], buffer[1]]) as usize, len);
    }
}

#[test]
fn used_codecs_act_as_new_ones() {
    let mut used = Codec::new();
    let mut scratch = BytesMut::new();
    assert!(used.encode(ID, Ok(vec![0; 70000]), &mut scratch).is_err());
    assert!(used.encode(ID, Err(postcard::Error::SerializeBufferFull), &mut scratch).is_err());
    assert!(used.decode(&mut BytesMut::from(&[0u8, 9, 1][..])).unwrap().is_none());
    let mut buffer = BytesMut::new();
    used.encode(ID, Ok(vec![4, 5]), &mut buffer).unwrap();
    assert_eq!(buffer, encoded(ID, &[4, 5]));
    let mut again = buffer.clone();
    let by_new = Codec::new().decode(&mut buffer).unwrap().unwrap();
    let by_used = used.decode(&mut again).unwrap().unwrap();
    assert_eq!((by_new.channel_id, by_new.message), (by_used.channel_id, by_used.message));
    assert_eq!(buffer, again);
}

#[test]
fn encode_gives_back_what_was_decoded() {
    let mut bytes = vec![0, 4];
    bytes.extend((0u8..16).map(|i| i * 7));
    bytes.extend([9, 9, 8, 7]);
    let mut buffer = BytesMut::from(&bytes[..]);
    let frame = Codec::new().decode(&mut buffer).unwrap().unwrap();
    let again = encoded(frame.channel_id, &frame.message);
    assert_eq!(&again[..], &bytes[..]);
}

#[test]
fn stream_of_frames_keeps_its_order() {
    let frames: Vec<(Uuid, Vec<u8>)> = (0u8..20)
        .map(|i| (Uuid { value: i as u128 + 1 }, vec![i; 13 * i as usize]))
        .collect();
    let mut stream = BytesMut::new();
    for (id, message) in &frames {
        Codec::new().encode(*id, Ok(message.clone()), &mut stream).unwrap();
    }
    let mut codec = Codec::new();
    let mut buffer = BytesMut::new();
    let mut decoded = vec![];
    for byte in stream {
        buffer.extend_from_slice(&[byte]);
        if let Some(frame) = codec.decode(&mut buffer).unwrap() {
            decoded.push((frame.channel_id, frame.message.to_vec()));
        }
    }
    assert!(buffer.is_empty());
    assert_eq!(decoded, frames);
}
