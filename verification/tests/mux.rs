use muzanci_transport::channel::{ChannelType, FnChannelAcceptor};
use muzanci_transport::codec::Frame;
use muzanci_transport::ident::Uuid;
use muzanci_transport::message::{ControlMessage, Message};
use muzanci_transport::mux::{
    incoming_frame, CloseChannelCommandReply, Command, Effect, Event, Mux, MuxError, MuxHandle,
    OpenChannelStatus,
};

type E = Effect<u32, u32, u32, u32>;
type TestMux = Mux<u32, u32>;

const ID: Uuid = Uuid { value: 0xA1A2A3A4_B1B2_C1C2_D1D2_D3D4D5D6D7D8 };
const TEXT: &str = "a1a2a3a4-b1b2-c1c2-d1d2-d3d4d5d6d7d8";

fn control(message: ControlMessage) -> Frame {
    Frame { channel_id: Uuid::nil(), message: Message::Control(message) }
}

fn sent(effect: &E) -> &ControlMessage {
    match effect {
        Effect::SendFrame(Frame { channel_id, message: Message::Control(control) }) => {
            assert!(channel_id.is_nil());
            control
        }
        _ => panic!("no control frame"),
    }
}

/// A mux with the channel open.
fn open_mux() -> TestMux {
    let mut mux = Mux::new();
    let _: Vec<E> = mux.handle_open_channel_command(ID, ChannelType::Worker, 1);
    let (_, left_over): (Vec<E>, _) = mux.handle_open_channel_response(ID, Ok(()), 2);
    assert_eq!(left_over, None);
    mux
}

/// A mux that has sent a close request for the channel.
fn closing_mux() -> TestMux {
    let mut mux = open_mux();
    let _: Vec<E> = mux.handle_close_channel_command(ID, 3);
    mux
}

fn status(mux: &TestMux) -> Option<OpenChannelStatus> {
    mux.open_channel(ID).map(|channel| channel.status)
}

#[test]
fn open_command_asks_the_peer() {
    let mut mux: TestMux = Mux::new();
    let effects: Vec<E> = mux.handle_open_channel_command(ID, ChannelType::Worker, 1);
    assert_eq!(effects.len(), 1);
    assert!(matches!(
        sent(&effects[0]),
        ControlMessage::OpenChannelRequest { channel_id: ID, channel_type: ChannelType::Worker }
    ));
    let pending = mux.pending_channel(ID).unwrap();
    assert_eq!(pending.reply_tx, 1);
    assert_eq!(
        pending.to_string(),
        format!("Channel(channel_id={}, channel_type=Worker)", TEXT)
    );
    assert!(mux.open_channel(ID).is_none());
}

#[test]
fn open_command_is_refused() {
    let refusal = |mux: &mut TestMux| -> String {
        let effects: Vec<E> = mux.handle_open_channel_command(ID, ChannelType::Worker, 9);
        assert_eq!(effects.len(), 1);
        match &effects[0] {
            Effect::ReplyOpenFailed { reply_tx: 9, error } => error.0.clone(),
            _ => panic!("not refused"),
        }
    };
    let mut mux = open_mux();
    assert_eq!(refusal(&mut mux), format!("Channel ID [{}] already open", TEXT));
    let mut mux: TestMux = Mux::new();
    let _: Vec<E> = mux.handle_open_channel_command(ID, ChannelType::Worker, 1);
    assert_eq!(refusal(&mut mux), format!("Channel ID [{}] already pending", TEXT));
    let mut mux: TestMux = Mux::new();
    let _: Vec<E> = mux.shutdown();
    assert_eq!(
        refusal(&mut mux),
        format!("Channel ID [{}] cannot be opened. Mux is shutting down.", TEXT)
    );
    assert!(mux.pending_channel(ID).is_none());
}

#[test]
fn open_response_opens_the_channel() {
    let mut mux: TestMux = Mux::new();
    let _: Vec<E> = mux.handle_open_channel_command(ID, ChannelType::Worker, 1);
    let (effects, left_over): (Vec<E>, _) = mux.handle_open_channel_response(ID, Ok(()), 2);
    assert_eq!(left_over, None);
    assert_eq!(effects.len(), 1);
    assert!(matches!(
        effects[0],
        Effect::ReplyOpened { reply_tx: 1, channel_id: ID, channel_type: ChannelType::Worker }
    ));
    let channel = mux.open_channel(ID).unwrap();
    assert_eq!(channel.link, 2);
    assert_eq!(channel.status, OpenChannelStatus::NotAwaitingCloseResponse);
    assert_eq!(
        channel.to_string(),
        format!("Channel(channel_id={}, channel_type=Worker)", TEXT)
    );
    assert!(mux.pending_channel(ID).is_none());
}

#[test]
fn rejected_open_is_replied_to_with_an_error() {
    let mut mux: TestMux = Mux::new();
    let _: Vec<E> = mux.handle_open_channel_command(ID, ChannelType::Worker, 1);
    let (effects, left_over): (Vec<E>, _) =
        mux.handle_open_channel_response(ID, Err("no".to_string()), 2);
    assert_eq!(left_over, Some(2));
    assert_eq!(effects.len(), 1);
    match &effects[0] {
        Effect::ReplyOpenFailed { reply_tx: 1, error } => assert_eq!(
            error.0,
            format!("Failed to open channel [Channel(channel_id={}, channel_type=Worker)]: no", TEXT)
        ),
        _ => panic!("no reply"),
    }
    assert!(mux.pending_channel(ID).is_none());
    assert!(mux.open_channel(ID).is_none());
}

#[test]
fn unexpected_open_response_is_ignored() {
    let mut mux: TestMux = Mux::new();
    let (effects, left_over): (Vec<E>, _) = mux.handle_open_channel_response(ID, Ok(()), 2);
    assert!(effects.is_empty());
    assert_eq!(left_over, Some(2));
    assert!(mux.open_channel(ID).is_none());
}

#[test]
fn accepted_request_opens_the_channel() {
    let mut mux: TestMux = Mux::new();
    let acceptor = FnChannelAcceptor::new(|_: Uuid, _: ChannelType| Ok::<u32, String>(77));
    let (effects, left_over): (Vec<E>, _) =
        mux.handle_open_channel_request(&acceptor, ID, ChannelType::Debugger, 5);
    assert_eq!(left_over, None);
    assert_eq!(effects.len(), 2);
    assert!(matches!(
        sent(&effects[0]),
        ControlMessage::OpenChannelResponse { channel_id: ID, result: Ok(()) }
    ));
    assert!(matches!(
        effects[1],
        Effect::Start { channel_id: ID, channel_type: ChannelType::Debugger, task: 77 }
    ));
    assert_eq!(mux.open_channel(ID).unwrap().link, 5);
}

#[test]
fn rejected_request_is_answered_with_the_reason() {
    let mut mux: TestMux = Mux::new();
    let acceptor =
        FnChannelAcceptor::new(|_: Uuid, _: ChannelType| Err::<u32, String>("busy".to_string()));
    let (effects, left_over): (Vec<E>, _) =
        mux.handle_open_channel_request(&acceptor, ID, ChannelType::Debugger, 5);
    assert_eq!(left_over, Some(5));
    assert_eq!(effects.len(), 1);
    assert!(matches!(
        sent(&effects[0]),
        ControlMessage::OpenChannelResponse { channel_id: ID, result: Err(reason) }
            if reason == "busy"
    ));
    assert!(mux.open_channel(ID).is_none());
}

#[test]
fn refused_request_does_not_reach_the_acceptor() {
    let refusal = |mux: &mut TestMux| -> String {
        let acceptor = FnChannelAcceptor::new(|_: Uuid, _: ChannelType| -> Result<u32, String> {
            panic!("the acceptor is not asked")
        });
        let (effects, left_over): (Vec<E>, _) =
            mux.handle_open_channel_request(&acceptor, ID, ChannelType::Worker, 5);
        assert_eq!(left_over, Some(5));
        assert_eq!(effects.len(), 1);
        match sent(&effects[0]) {
            ControlMessage::OpenChannelResponse { channel_id: ID, result: Err(reason) } => {
                reason.clone()
            }
            _ => panic!("not refused"),
        }
    };
    let mut mux = open_mux();
    assert_eq!(refusal(&mut mux), format!("Channel ID [{}] is already open", TEXT));
    assert_eq!(mux.open_channel(ID).unwrap().link, 2);
    let mut mux: TestMux = Mux::new();
    let _: Vec<E> = mux.handle_open_channel_command(ID, ChannelType::Worker, 1);
    assert_eq!(refusal(&mut mux), format!("Channel ID [{}] is already pending", TEXT));
    let mut mux: TestMux = Mux::new();
    let _: Vec<E> = mux.shutdown();
    assert_eq!(refusal(&mut mux), "Peer mux is shutting down");
    assert_eq!(
        mux.refuse_open_channel_request(ID),
        Some("Peer mux is shutting down".to_string())
    );
}

#[test]
fn answers_decide_admission() {
    let mut mux: TestMux = Mux::new();
    assert_eq!(mux.refuse_open_channel_request(ID), None);
    let (effects, left_over): (Vec<E>, _) =
        mux.answer_open_channel_request(ID, ChannelType::Worker, Err("no".to_string()), 5);
    assert_eq!((effects.len(), left_over), (1, Some(5)));
    let (effects, left_over): (Vec<E>, _) =
        mux.answer_open_channel_request(ID, ChannelType::Worker, Ok(6), 5);
    assert_eq!((effects.len(), left_over), (2, None));
    assert!(mux.open_channel(ID).is_some());
}

#[test]
fn close_command_asks_the_peer_once() {
    let mut mux = open_mux();
    let effects: Vec<E> = mux.handle_close_channel_command(ID, 3);
    assert_eq!(effects.len(), 2);
    assert!(matches!(
        effects[0],
        Effect::ReplyClose { reply_tx: 3, reply: CloseChannelCommandReply::ChannelClosed(ID) }
    ));
    assert!(matches!(
        sent(&effects[1]),
        ControlMessage::CloseChannelRequest { channel_id: ID }
    ));
    assert_eq!(status(&mux), Some(OpenChannelStatus::AwaitingCloseResponse));
    let effects: Vec<E> = mux.handle_close_channel_command(ID, 4);
    assert_eq!(effects.len(), 1);
    assert!(matches!(
        effects[0],
        Effect::ReplyClose { reply_tx: 4, reply: CloseChannelCommandReply::ChannelClosed(ID) }
    ));
    assert_eq!(status(&mux), Some(OpenChannelStatus::AwaitingCloseResponse));
}

#[test]
fn close_command_for_unknown_channel() {
    let mut mux: TestMux = Mux::new();
    let effects: Vec<E> = mux.handle_close_channel_command(ID, 3);
    assert_eq!(effects.len(), 1);
    assert!(matches!(
        effects[0],
        Effect::ReplyClose {
            reply_tx: 3,
            reply: CloseChannelCommandReply::ChannelIdDoesNotExist(ID)
        }
    ));
}

#[test]
fn close_request_closes_and_answers() {
    let mut mux = open_mux();
    let effects: Vec<E> = mux.handle_close_channel_request(ID);
    assert_eq!(effects.len(), 2);
    assert!(matches!(&effects[0], Effect::NotifyClosed { channel } if channel.link == 2));
    assert!(matches!(
        sent(&effects[1]),
        ControlMessage::CloseChannelResponse { channel_id: ID, result: Ok(()) }
    ));
    assert_eq!(status(&mux), None);
    let effects: Vec<E> = mux.handle_close_channel_request(ID);
    assert_eq!(effects.len(), 1);
    match sent(&effects[0]) {
        ControlMessage::CloseChannelResponse { channel_id: ID, result: Err(reason) } => {
            assert_eq!(reason, &format!("Channel ID [{}] not open", TEXT))
        }
        _ => panic!("not answered"),
    }
}

#[test]
fn simultaneous_close_waits_for_the_response() {
    let mut mux = closing_mux();
    let effects: Vec<E> = mux.handle_close_channel_request(ID);
    assert_eq!(effects.len(), 1);
    assert!(matches!(
        sent(&effects[0]),
        ControlMessage::CloseChannelResponse { channel_id: ID, result: Ok(()) }
    ));
    assert_eq!(status(&mux), Some(OpenChannelStatus::AwaitingCloseResponse));
    let effects: Vec<E> = mux.handle_close_channel_response(ID, Ok(()));
    assert_eq!(effects.len(), 1);
    assert!(matches!(&effects[0], Effect::NotifyClosed { channel } if channel.link == 2));
    assert_eq!(status(&mux), None);
}

#[test]
fn close_response_ends_the_channel_whatever_it_says() {
    let mut mux = closing_mux();
    let effects: Vec<E> = mux.handle_close_channel_response(ID, Err("not open".to_string()));
    assert_eq!(effects.len(), 1);
    assert!(matches!(effects[0], Effect::NotifyClosed { .. }));
    assert_eq!(status(&mux), None);
    let effects: Vec<E> = mux.handle_close_channel_response(ID, Ok(()));
    assert!(effects.is_empty());
}

#[test]
fn unsolicited_close_response_keeps_the_channel_open() {
    for result in [Ok(()), Err("no".to_string())] {
        let mut mux = open_mux();
        let effects: Vec<E> = mux.handle_close_channel_response(ID, result);
        assert!(effects.is_empty());
        assert_eq!(status(&mux), Some(OpenChannelStatus::NotAwaitingCloseResponse));
        assert_eq!(mux.open_channel(ID).unwrap().link, 2);
        let effects: Vec<E> = mux.dispatch_message(ID, Message::RawData(vec![1]));
        assert_eq!(effects.len(), 1);
    }
}

#[test]
fn data_passes_only_on_open_channels() {
    let deliver = |mux: &TestMux| -> usize {
        let effects: Vec<E> = mux.dispatch_message(ID, Message::RawData(vec![1]));
        for effect in &effects {
            assert!(matches!(
                effect,
                Effect::Deliver { channel_id: ID, message: Message::RawData(data) } if data == &[1]
            ));
        }
        effects.len()
    };
    let send = |mux: &TestMux, id: Uuid| -> usize {
        let effects: Vec<E> = mux.send_outgoing_frame(Frame {
            channel_id: id,
            message: Message::RawData(vec![2]),
        });
        for effect in &effects {
            assert!(matches!(
                effect,
                Effect::SendFrame(Frame { channel_id, message: Message::RawData(data) })
                    if *channel_id == id && data == &[2]
            ));
        }
        effects.len()
    };
    let unknown: TestMux = Mux::new();
    assert_eq!((deliver(&unknown), send(&unknown, ID), send(&unknown, Uuid::nil())), (0, 0, 1));
    let open = open_mux();
    assert_eq!((deliver(&open), send(&open, ID), send(&open, Uuid::nil())), (1, 1, 1));
    let closing = closing_mux();
    assert_eq!((deliver(&closing), send(&closing, ID), send(&closing, Uuid::nil())), (0, 0, 1));
}

#[test]
fn shutdown_fails_pending_and_closes_open_channels() {
    let mut mux = open_mux();
    let _: Vec<E> = mux.handle_open_channel_command(Uuid { value: 5 }, ChannelType::Worker, 50);
    let _: Vec<E> = mux.handle_open_channel_command(Uuid { value: 6 }, ChannelType::Worker, 60);
    assert!(mux.is_running());
    let effects: Vec<E> = mux.shutdown();
    assert!(!mux.is_running());
    assert!(!mux.is_stopped());
    assert_eq!(effects.len(), 3);
    let mut refused: Vec<u32> = effects[..2]
        .iter()
        .map(|effect| match effect {
            Effect::ReplyOpenFailed { reply_tx, error } => {
                assert_eq!(error.0, "Cannot open new channel. Mux is shutting down");
                *reply_tx
            }
            _ => panic!("no reply"),
        })
        .collect();
    refused.sort();
    assert_eq!(refused, vec![50, 60]);
    assert!(matches!(&effects[2], Effect::EnqueueClose { channel_ids } if channel_ids == &[ID]));
    assert!(mux.pending_channel(Uuid { value: 5 }).is_none());
    let _: Vec<E> = mux.handle_close_channel_command(ID, 3);
    let _: Vec<E> = mux.handle_close_channel_response(ID, Ok(()));
    assert!(mux.is_stopped());
}

fn receive(mux: &mut TestMux, frame: Frame) -> (Vec<E>, Option<u32>) {
    let acceptor = FnChannelAcceptor::new(|_: Uuid, _: ChannelType| Ok::<u32, String>(77));
    mux.recv_incoming_frame(&acceptor, frame, 5)
}

#[test]
fn frames_reach_their_handlers() {
    let mut mux: TestMux = Mux::new();
    let (effects, left_over) = receive(
        &mut mux,
        control(ControlMessage::OpenChannelRequest {
            channel_id: ID,
            channel_type: ChannelType::Worker,
        }),
    );
    assert_eq!((effects.len(), left_over), (2, None));
    let (effects, left_over) =
        receive(&mut mux, Frame { channel_id: ID, message: Message::RawData(vec![3]) });
    assert!(matches!(effects[0], Effect::Deliver { channel_id: ID, .. }));
    assert_eq!(left_over, Some(5));
    let (effects, _) =
        receive(&mut mux, control(ControlMessage::CloseChannelRequest { channel_id: ID }));
    assert_eq!(effects.len(), 2);
    assert_eq!(status(&mux), None);
    let _: Vec<E> = mux.handle_open_channel_command(ID, ChannelType::Worker, 1);
    let (effects, left_over) = receive(
        &mut mux,
        control(ControlMessage::OpenChannelResponse { channel_id: ID, result: Ok(()) }),
    );
    assert!(matches!(effects[0], Effect::ReplyOpened { reply_tx: 1, .. }));
    assert_eq!(left_over, None);
    let _: Vec<E> = mux.handle_close_channel_command(ID, 3);
    let (effects, _) = receive(
        &mut mux,
        control(ControlMessage::CloseChannelResponse { channel_id: ID, result: Ok(()) }),
    );
    assert!(matches!(effects[0], Effect::NotifyClosed { .. }));
    assert!(mux.is_running());
}

#[test]
fn unexpected_control_messages_shut_the_mux_down() {
    let mut mux = open_mux();
    let (effects, left_over) =
        receive(&mut mux, Frame { channel_id: Uuid::nil(), message: Message::RawData(vec![]) });
    assert!(matches!(&effects[0], Effect::EnqueueClose { channel_ids } if channel_ids == &[ID]));
    assert_eq!(left_over, Some(5));
    assert!(!mux.is_running());
    let mut mux: TestMux = Mux::new();
    receive(&mut mux, control(ControlMessage::CloseChannel { channel_id: ID }));
    assert!(mux.is_stopped());
}

#[test]
fn control_message_on_a_data_channel_is_data() {
    let mut mux = open_mux();
    let message = Message::Control(ControlMessage::CloseChannelRequest { channel_id: ID });
    let (effects, _) = receive(&mut mux, Frame { channel_id: ID, message });
    assert!(matches!(effects[0], Effect::Deliver { channel_id: ID, .. }));
    assert!(status(&mux).is_some());
}

#[test]
fn run_loop_ends_with_its_sources() {
    let acceptor = FnChannelAcceptor::new(|_: Uuid, _: ChannelType| Ok::<u32, String>(77));
    let ends: [Event<u32, u32>; 3] =
        [Event::IncomingFrame(None), Event::OutgoingFrame(None), Event::Command(None)];
    for end in ends {
        let mut mux = open_mux();
        let step = mux.run(&acceptor, end, 5);
        assert!(!step.proceed);
        assert!(step.effects.is_empty());
        assert_eq!(step.left_over, Some(5));
        assert!(status(&mux).is_some());
    }
    let mut mux = open_mux();
    let step = mux.run(&acceptor, Event::<u32, u32>::Cancelled, 5);
    assert!(step.proceed);
    assert_eq!(step.effects.len(), 1);
    let step = mux.run(&acceptor, Event::<u32, u32>::Cancelled, 5);
    assert!(step.proceed);
    assert!(step.effects.is_empty());
    let step = mux.run(
        &acceptor,
        Event::<u32, u32>::Command(Some(MuxHandle.close_channel(ID, 8))),
        5,
    );
    assert_eq!(step.effects.len(), 2);
    let step = mux.run(
        &acceptor,
        Event::<u32, u32>::OutgoingFrame(Some(Frame {
            channel_id: ID,
            message: Message::RawData(vec![]),
        })),
        5,
    );
    assert!(step.proceed && step.effects.is_empty());
}

#[test]
fn opening_uses_a_fresh_identifier() {
    let (first, command): (Uuid, Command<u32, u32>) = MuxHandle.open_channel(ChannelType::Worker, 4);
    let (second, _): (Uuid, Command<u32, u32>) = MuxHandle.open_channel(ChannelType::Worker, 4);
    assert!(!first.is_nil());
    assert_ne!(first, second);
    assert!(matches!(
        command,
        Command::OpenChannel { channel_id, channel_type: ChannelType::Worker, reply_tx: 4 }
            if channel_id == first
    ));
}

#[test]
fn handle_gives_both_ends_of_the_channel() {
    assert!(MuxHandle.open_channel_sent(Ok(())).is_ok());
    let (sender, receiver, value) =
        MuxHandle.open_channel_replied(ID, ChannelType::Debugger, Ok(Ok(5))).unwrap();
    assert_eq!((sender.channel_id, sender.channel_type), (ID, ChannelType::Debugger));
    assert_eq!((receiver.channel_id, receiver.channel_type), (ID, ChannelType::Debugger));
    assert_eq!(value, 5);
    assert!(MuxHandle.close_channel_sent(Ok(())).is_ok());
    assert_eq!(
        MuxHandle.close_channel_replied(Ok(CloseChannelCommandReply::ChannelClosed(ID))).unwrap(),
        CloseChannelCommandReply::ChannelClosed(ID)
    );
}

#[test]
fn failed_commands_are_explained() {
    let opened = |reply: Result<Result<u32, MuxError>, String>| -> String {
        MuxHandle.open_channel_replied(ID, ChannelType::Worker, reply).unwrap_err().0
    };
    assert_eq!(
        MuxHandle.open_channel_sent(Err("closed".to_string())).unwrap_err().0,
        "Failed to send open channel command: closed"
    );
    assert_eq!(opened(Ok(Err(MuxError("no".to_string())))), "no");
    assert_eq!(
        opened(Err("dropped".to_string())),
        "Open channel command resulted in an error: dropped"
    );
    assert_eq!(
        MuxHandle.close_channel_sent(Err("closed".to_string())).unwrap_err().0,
        "Failed to send close channel command: closed"
    );
    assert_eq!(
        MuxHandle.close_channel_replied(Err("dropped".to_string())).unwrap_err().0,
        "Close channel command resulted in an error: dropped"
    );
    assert_eq!(MuxError("no".to_string()).to_string(), "MuxError: no");
}

#[test]
fn reader_stops_at_the_end_and_at_errors() {
    let frame = Frame { channel_id: ID, message: Message::RawData(vec![1]) };
    assert!(incoming_frame::<String>(Some(Ok(frame))).is_some());
    assert!(incoming_frame(Some(Err("bad".to_string()))).is_none());
    assert!(incoming_frame::<String>(None).is_none());
}
