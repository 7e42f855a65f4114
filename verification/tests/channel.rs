use muzanci_transport::channel::{
    channel, ChannelAcceptor, ChannelPollSender, ChannelType, FnChannelAcceptor, ParseError,
    WriteStep, MAX_FRAME_SIZE,
};
use muzanci_transport::ident::Uuid;
use muzanci_transport::message::{ControlMessage, Message};
use muzanci_transport::mux::Command;

const ID: Uuid = Uuid { value: 0xA1A2A3A4_B1B2_C1C2_D1D2_D3D4D5D6D7D8 };

const ALL: [ChannelType; 10] = [
    ChannelType::EvaluatorScheduler,
    ChannelType::Evaluator,
    ChannelType::WorkerScheduler,
    ChannelType::Worker,
    ChannelType::DebuggerScheduler,
    ChannelType::Debugger,
    ChannelType::DebugResolver,
    ChannelType::DebugClient,
    ChannelType::DebugClientTunnel,
    ChannelType::DebuggerTunnel,
];

#[test]
fn channel_type_names_round_trip() {
    for channel_type in ALL {
        assert_eq!(ChannelType::from_str(channel_type.as_str()), Ok(channel_type));
        assert_eq!(channel_type.as_str(), format!("{:?}", channel_type));
    }
    assert_eq!(ChannelType::from_str("worker"), Err(ParseError::VariantNotFound));
    assert_eq!(ChannelType::from_str(""), Err(ParseError::VariantNotFound));
    assert_eq!(ChannelType::from_str("DebuggerTunnel "), Err(ParseError::VariantNotFound));
}

#[test]
fn sender_frames_messages_and_explains_failures() {
    let (sender, receiver) = channel(ID, ChannelType::Worker);
    assert_eq!(receiver.channel_id, ID);
    assert_eq!(receiver.channel_type, ChannelType::Worker);
    let frame = sender.frame(Message::RawData(vec![1, 2, 3]));
    assert_eq!(frame.channel_id, ID);
    assert!(matches!(frame.message, Message::RawData(data) if data == [1, 2, 3]));
    assert!(sender.send(Ok(())).is_ok());
    assert_eq!(
        sender.send(Err("channel closed".to_string())).unwrap_err().0,
        "ChannelSender [Worker][a1a2a3a4-b1b2-c1c2-d1d2-d3d4d5d6d7d8] failed to send frame: channel closed"
    );
}

#[test]
fn poll_sender_reserves_and_sends() {
    let (sender, _) = channel(ID, ChannelType::DebuggerTunnel);
    let poll_sender = ChannelPollSender::new(sender);
    assert!(poll_sender.poll_reserve(None).is_none());
    assert!(matches!(poll_sender.poll_reserve(Some(Ok(()))), Some(Ok(()))));
    assert_eq!(
        poll_sender.poll_reserve(Some(Err("gone".to_string()))).unwrap().unwrap_err().0,
        "ChannelSender [DebuggerTunnel][a1a2a3a4-b1b2-c1c2-d1d2-d3d4d5d6d7d8] failed to poll reserve: gone"
    );
    assert!(poll_sender.send_item(Ok(())).is_ok());
    assert_eq!(
        poll_sender.send_item(Err("gone".to_string())).unwrap_err().0,
        "ChannelSender [DebuggerTunnel][a1a2a3a4-b1b2-c1c2-d1d2-d3d4d5d6d7d8] failed to send item: gone"
    );
    assert_eq!(poll_sender.finish_write(7, Ok(())).unwrap(), 7);
    assert!(poll_sender.finish_write(7, Err("gone".to_string())).is_err());
}

#[test]
fn writes_wait_fail_or_take_bytes() {
    let (sender, _) = channel(ID, ChannelType::DebuggerTunnel);
    let poll_sender = ChannelPollSender::new(sender);
    assert!(matches!(poll_sender.poll_write(&[1], None), WriteStep::Pending));
    assert!(matches!(
        poll_sender.poll_write(&[1], Some(Err("gone".to_string()))),
        WriteStep::Failed(_)
    ));
    match poll_sender.poll_write(&[], Some(Ok(()))) {
        WriteStep::Send { frame, written } => {
            assert_eq!(written, 0);
            assert!(matches!(frame.message, Message::RawData(data) if data.is_empty()));
        }
        _ => panic!("an empty write sends an empty frame"),
    }
}

#[test]
fn payloads_join_to_what_was_written() {
    let (sender, receiver) = channel(ID, ChannelType::DebuggerTunnel);
    let poll_sender = ChannelPollSender::new(sender);
    let bytes: Vec<u8> = (0..MAX_FRAME_SIZE + 10).map(|i| (i % 251) as u8).collect();
    let mut rest = &bytes[..];
    let mut arrived: Vec<u8> = vec![];
    let mut sizes = vec![];
    while !rest.is_empty() {
        match poll_sender.poll_write(rest, Some(Ok(()))) {
            WriteStep::Send { frame, written } => {
                assert_eq!(frame.channel_id, ID);
                sizes.push(written);
                rest = &rest[written..];
                arrived.extend(receiver.poll_next(Some(frame.message)).unwrap());
            }
            _ => panic!("there is room"),
        }
    }
    assert_eq!(sizes, vec![1048576, 10]);
    assert!(arrived == bytes);
}

#[test]
fn byte_stream_ends_with_the_channel_or_another_message() {
    let (_, receiver) = channel(ID, ChannelType::DebuggerTunnel);
    assert_eq!(receiver.poll_next(Some(Message::RawData(vec![5]))), Some(vec![5]));
    assert_eq!(receiver.poll_next(None), None);
    let other = Message::Control(ControlMessage::CloseChannelRequest { channel_id: ID });
    assert_eq!(receiver.poll_next(Some(other)), None);
}

#[test]
fn dropped_receiver_closes_its_channel() {
    let (_, receiver) = channel(ID, ChannelType::DebuggerTunnel);
    let command: Command<u8, u8> = receiver.close_command(4);
    assert!(matches!(command, Command::CloseChannel { channel_id, reply_tx: 4 } if channel_id == ID));
}

#[test]
fn finished_writer_closes_its_channel() {
    let (sender, _) = channel(ID, ChannelType::DebuggerTunnel);
    let command: Command<u8, u8> = ChannelPollSender::new(sender).close_command(6);
    assert!(matches!(command, Command::CloseChannel { channel_id, reply_tx: 6 } if channel_id == ID));
}

#[test]
fn closure_acceptor_answers_as_the_closure() {
    let acceptor = FnChannelAcceptor::new(|channel_id: Uuid, channel_type: ChannelType| {
        if channel_type == ChannelType::Worker {
            Ok(channel_id.value)
        } else {
            Err("workers only".to_string())
        }
    });
    assert_eq!(acceptor.future_fn(ID, ChannelType::Worker), Ok(ID.value));
    assert_eq!(
        acceptor.clone().future_fn(ID, ChannelType::Debugger),
        Err("workers only".to_string())
    );
}
