use std::collections::VecDeque;

use muzanci_transport::channel::{ChannelType, FnChannelAcceptor};
use muzanci_transport::codec::Frame;
use muzanci_transport::ident::Uuid;
use muzanci_transport::message::{ControlMessage, Message};
use muzanci_transport::mux::{
    CloseChannelCommandReply, Command, Effect, Event, Mux, MuxError, MuxHandle, OpenChannelStatus,
};

/// A mux with its surroundings: what it was told, what it tells, and what it has told so far.
struct Side {
    mux: Mux<u32, u32>,
    commands: VecDeque<Command<u32, u32>>,
    outgoing: VecDeque<Frame>,
    next_link: u32,
    running: bool,
    opened: Vec<(u32, Uuid)>,
    failed: Vec<(u32, MuxError)>,
    closed: Vec<(u32, CloseChannelCommandReply)>,
    started: Vec<Uuid>,
    ended: Vec<Uuid>,
    delivered: Vec<(Uuid, Vec<u8>)>,
    spare_links: usize,
}

impl Side {
    fn new() -> Side {
        Side {
            mux: Mux::new(),
            commands: VecDeque::new(),
            outgoing: VecDeque::new(),
            next_link: 100,
            running: true,
            opened: vec![],
            failed: vec![],
            closed: vec![],
            started: vec![],
            ended: vec![],
            delivered: vec![],
            spare_links: 0,
        }
    }

    fn event(&mut self, event: Event<u32, u32>) {
        if self.mux.is_stopped() {
            self.running = false;
        }
        if !self.running {
            return;
        }
        let acceptor = FnChannelAcceptor::new(|_: Uuid, _: ChannelType| Ok::<u32, String>(7));
        self.next_link += 1;
        let step = self.mux.run(&acceptor, event, self.next_link);
        if step.left_over.is_some() {
            self.spare_links += 1;
        }
        for effect in step.effects {
            match effect {
                Effect::SendFrame(frame) => self.outgoing.push_back(frame),
                Effect::Deliver { channel_id, message } => match message {
                    Message::RawData(data) => self.delivered.push((channel_id, data)),
                    _ => panic!("only raw data is sent here"),
                },
                Effect::Start { channel_id, .. } => self.started.push(channel_id),
                Effect::ReplyOpened { reply_tx, channel_id, .. } => {
                    self.opened.push((reply_tx, channel_id))
                }
                Effect::ReplyOpenFailed { reply_tx, error } => self.failed.push((reply_tx, error)),
                Effect::ReplyClose { reply_tx, reply } => self.closed.push((reply_tx, reply)),
                Effect::NotifyClosed { channel } => self.ended.push(channel.channel_id),
                Effect::EnqueueClose { channel_ids } => {
                    for channel_id in channel_ids {
                        self.commands.push_back(MuxHandle.close_channel(channel_id, 0));
                    }
                }
            }
        }
        if !step.proceed || self.mux.is_stopped() {
            self.running = false;
        }
    }

    fn open(&mut self, reply_tx: u32) -> Uuid {
        let (channel_id, command) = MuxHandle.open_channel(ChannelType::Worker, reply_tx);
        self.commands.push_back(command);
        channel_id
    }

    fn close(&mut self, channel_id: Uuid, reply_tx: u32) {
        self.commands.push_back(MuxHandle.close_channel(channel_id, reply_tx));
    }

    fn send(&mut self, channel_id: Uuid, data: &[u8]) {
        let message = Message::RawData(data.to_vec());
        self.event(Event::OutgoingFrame(Some(Frame { channel_id, message })));
    }

    fn work(&mut self) -> bool {
        match self.commands.pop_front() {
            Some(command) => {
                self.event(Event::Command(Some(command)));
                true
            }
            None => false,
        }
    }

    fn status(&self, channel_id: Uuid) -> Option<OpenChannelStatus> {
        self.mux.open_channel(channel_id).map(|channel| channel.status)
    }
}

/// Hands the frames of each side to the other one until nothing moves. A side that is gone takes
/// its connection with it, which ends the other side.
fn settle(a: &mut Side, b: &mut Side) {
    loop {
        let mut moved = a.work() | b.work();
        if let Some(frame) = a.outgoing.pop_front() {
            b.event(Event::IncomingFrame(Some(frame)));
            moved = true;
        }
        if let Some(frame) = b.outgoing.pop_front() {
            a.event(Event::IncomingFrame(Some(frame)));
            moved = true;
        }
        if !moved {
            break;
        }
    }
    if !a.running {
        b.event(Event::IncomingFrame(None));
    }
    if !b.running {
        a.event(Event::IncomingFrame(None));
    }
}

fn open_pair() -> (Side, Side, Uuid) {
    let (mut a, mut b) = (Side::new(), Side::new());
    let id = a.open(1);
    settle(&mut a, &mut b);
    (a, b, id)
}

#[test]
fn open_handshake() {
    let (a, b, id) = open_pair();
    assert_eq!(a.opened, vec![(1, id)]);
    assert!(a.failed.is_empty());
    assert_eq!(b.started, vec![id]);
    assert_eq!(a.status(id), Some(OpenChannelStatus::NotAwaitingCloseResponse));
    assert_eq!(b.status(id), Some(OpenChannelStatus::NotAwaitingCloseResponse));
    assert_eq!(a.mux.open_channel(id).unwrap().channel_type, ChannelType::Worker);
    assert_eq!(b.mux.open_channel(id).unwrap().channel_type, ChannelType::Worker);
    assert!(a.mux.pending_channel(id).is_none());
    assert_eq!((a.spare_links, b.spare_links), (1, 0));
}

#[test]
fn data_flows_both_ways_in_order() {
    let (mut a, mut b, id) = open_pair();
    a.send(id, &[1]);
    a.send(id, &[2, 3]);
    b.send(id, &[4]);
    a.send(Uuid { value: 77 }, &[5]);
    settle(&mut a, &mut b);
    assert_eq!(b.delivered, vec![(id, vec![1]), (id, vec![2, 3])]);
    assert_eq!(a.delivered, vec![(id, vec![4])]);
}

#[test]
fn close_handshake() {
    let (mut a, mut b, id) = open_pair();
    a.close(id, 5);
    settle(&mut a, &mut b);
    assert_eq!(a.closed, vec![(5, CloseChannelCommandReply::ChannelClosed(id))]);
    assert_eq!((a.status(id), b.status(id)), (None, None));
    assert_eq!((a.ended, b.ended), (vec![id], vec![id]));
    assert!(a.running && b.running);
}

#[test]
fn both_sides_close_at_once() {
    let (mut a, mut b, id) = open_pair();
    a.close(id, 5);
    b.close(id, 6);
    a.work();
    b.work();
    a.send(id, &[1]);
    settle(&mut a, &mut b);
    assert_eq!((a.status(id), b.status(id)), (None, None));
    assert_eq!((a.ended, b.ended), (vec![id], vec![id]));
    assert!(b.delivered.is_empty());
}

#[test]
fn closed_channel_can_be_opened_again() {
    let (mut a, mut b, id) = open_pair();
    a.close(id, 5);
    settle(&mut a, &mut b);
    b.commands.push_back(Command::OpenChannel {
        channel_id: id,
        channel_type: ChannelType::Debugger,
        reply_tx: 9,
    });
    settle(&mut a, &mut b);
    assert_eq!(b.opened, vec![(9, id)]);
    assert_eq!(a.mux.open_channel(id).unwrap().channel_type, ChannelType::Debugger);
}

#[test]
fn other_channels_stay_as_they_are() {
    let (mut a, mut b, id) = open_pair();
    let link = a.mux.open_channel(id).unwrap().link;
    let other = a.open(2);
    settle(&mut a, &mut b);
    a.close(other, 5);
    settle(&mut a, &mut b);
    assert_eq!(a.mux.open_channel(id).unwrap().link, link);
    assert_eq!(a.status(id), Some(OpenChannelStatus::NotAwaitingCloseResponse));
    a.send(id, &[8]);
    settle(&mut a, &mut b);
    assert_eq!(b.delivered, vec![(id, vec![8])]);
}

#[test]
fn nothing_opens_during_shutdown() {
    let (mut a, mut b, id) = open_pair();
    a.event(Event::Cancelled);
    a.open(2);
    a.work();
    a.work();
    b.open(3);
    b.work();
    let request = b.outgoing.pop_front().unwrap();
    a.event(Event::IncomingFrame(Some(request)));
    a.event(Event::Cancelled);
    assert!(!a.mux.is_running());
    assert_eq!(a.failed.len(), 1);
    assert_eq!(a.failed[0].0, 2);
    settle(&mut a, &mut b);
    assert_eq!(b.failed.len(), 1);
    assert!(b.failed[0].1 .0.ends_with("]: Peer mux is shutting down"));
    assert_eq!(a.ended, vec![id]);
    assert!(!a.running);
}

#[test]
fn cancel_mux_with_one_open_channel() {
    let (mut a, mut b, id) = open_pair();
    a.event(Event::Cancelled);
    assert!(a.running);
    settle(&mut a, &mut b);
    assert!(!a.running, "mux task A did not terminate before timeout");
    assert!(!b.running, "mux task B did not terminate before timeout");
    assert_eq!((a.ended, b.ended), (vec![id], vec![id]));
}

#[test]
fn cancel_mux_with_ten_open_channels() {
    let (mut a, mut b) = (Side::new(), Side::new());
    let mut ids: Vec<Uuid> = (0..10).map(|i| a.open(i)).collect();
    settle(&mut a, &mut b);
    assert_eq!(a.opened.len(), 10, "channel should open");
    a.event(Event::Cancelled);
    settle(&mut a, &mut b);
    assert!(!a.running, "mux task A did not terminate before timeout");
    assert!(!b.running, "mux task B did not terminate before timeout");
    ids.sort_by_key(|id| id.value);
    a.ended.sort_by_key(|id| id.value);
    b.ended.sort_by_key(|id| id.value);
    assert_eq!(a.ended, ids);
    assert_eq!(b.ended, ids);
}

#[test]
fn cancel_mux_with_pending_channel() {
    let mut mux = Side::new();
    let id = mux.open(3);
    mux.work();
    let open_channel_request_frame =
        mux.outgoing.pop_front().expect("peer frame reader received None");
    assert!(matches!(
        open_channel_request_frame,
        Frame {
            message: Message::Control(ControlMessage::OpenChannelRequest {
                channel_type: ChannelType::Worker,
                ..
            }),
            ..
        }
    ));
    assert!(mux.mux.pending_channel(id).is_some());
    mux.event(Event::Cancelled);
    assert_eq!(mux.failed.len(), 1, "open channel command did not reply before timeout");
    assert!(matches!(mux.failed[0], (3, MuxError(_))));
    assert!(!mux.running, "mux task did not terminate before timeout");
}

#[test]
fn mux_and_peer_cancel_concurrently() {
    let (mut a, mut b) = (Side::new(), Side::new());
    a.event(Event::Cancelled);
    b.event(Event::Cancelled);
    settle(&mut a, &mut b);
    assert!(!a.running, "mux task A did not exit before the timeout");
    assert!(!b.running, "mux task B did not exit before the timeout");
}

#[test]
fn mux_and_peer_cancel_with_open_channels() {
    let (mut a, mut b, first) = open_pair();
    let second = b.open(4);
    settle(&mut a, &mut b);
    a.event(Event::Cancelled);
    b.event(Event::Cancelled);
    settle(&mut a, &mut b);
    assert!(!a.running && !b.running);
    assert_eq!((a.ended.len(), b.ended.len()), (2, 2));
    assert_eq!((a.status(first), b.status(second)), (None, None));
}

#[test]
fn mux_opens_channel_when_io_stream_is_dropped() {
    let mut mux = Side::new();
    let id = mux.open(3);
    mux.work();
    mux.event(Event::IncomingFrame(None));
    assert!(!mux.running, "mux task did not exit before timeout");
    let result = MuxHandle.open_channel_replied::<u32>(
        id,
        ChannelType::Worker,
        Err("channel closed".to_string()),
    );
    assert!(matches!(result, Err(MuxError(_))));
}

#[test]
fn open_channel_fails_when_peer_is_shutting_down() {
    let (mut mux, mut peer, _) = open_pair();
    assert_eq!(mux.opened.len(), 1, "failed to open channel");
    peer.event(Event::Cancelled);
    let second = mux.open(2);
    mux.work();
    let request = mux.outgoing.pop_front().unwrap();
    peer.event(Event::IncomingFrame(Some(request)));
    settle(&mut mux, &mut peer);
    assert_eq!(mux.failed.len(), 1, "mux open channel did not return before timeout");
    assert!(matches!(mux.failed[0], (2, MuxError(_))));
    assert_eq!(mux.status(second), None);
    assert!(!mux.running, "mux task did not exit before timeout");
    assert!(!peer.running, "peer mux task did not exit before timeout");
}

#[test]
fn both_sides_ask_for_the_same_channel() {
    let (mut a, mut b) = (Side::new(), Side::new());
    let id = Uuid { value: 0xABC };
    for side in [&mut a, &mut b] {
        side.commands.push_back(Command::OpenChannel {
            channel_id: id,
            channel_type: ChannelType::Worker,
            reply_tx: 1,
        });
        side.work();
    }
    settle(&mut a, &mut b);
    let text = "Failed to open channel [Channel(channel_id=00000000-0000-0000-0000-000000000abc, \
                channel_type=Worker)]: Channel ID [00000000-0000-0000-0000-000000000abc] is already pending";
    for side in [&a, &b] {
        assert_eq!(side.failed.len(), 1);
        assert_eq!(side.failed[0].1 .0, text);
        assert_eq!(side.status(id), None);
        assert!(side.mux.pending_channel(id).is_none());
    }
}

#[test]
fn forgotten_channel_can_still_be_closed() {
    let (mut a, mut b, first) = open_pair();
    let second = a.open(2);
    a.work();
    a.event(Event::Cancelled);
    assert_eq!(a.failed.len(), 1);
    let request = a.outgoing.pop_front().unwrap();
    b.event(Event::IncomingFrame(Some(request)));
    let response = b.outgoing.pop_front().unwrap();
    a.event(Event::IncomingFrame(Some(response)));
    assert_eq!(a.status(second), None);
    assert_eq!(b.status(second), Some(OpenChannelStatus::NotAwaitingCloseResponse));
    b.close(second, 8);
    b.work();
    let request = b.outgoing.pop_front().unwrap();
    a.event(Event::IncomingFrame(Some(request)));
    let response = a.outgoing.pop_front().unwrap();
    b.event(Event::IncomingFrame(Some(response)));
    assert_eq!(b.ended, vec![second]);
    assert!(a.status(first).is_some());
}

#[test]
fn quiet_peers_know_the_same_channels() {
    let (mut a, mut b) = (Side::new(), Side::new());
    let ids: Vec<Uuid> = (1..5).map(|value| Uuid { value }).collect();
    let mut seed: u64 = 12345;
    let mut random = |bound: u64| -> u64 {
        seed = seed.wrapping_mul(6364136223846793005).wrapping_add(1442695040888963407);
        (seed >> 33) % bound
    };
    for round in 0..200 {
        for _ in 0..30 {
            let id = ids[random(4) as usize];
            let on_left = random(2) == 0;
            let side = if on_left { &mut a } else { &mut b };
            match random(4) {
                0 => {
                    side.commands.push_back(Command::OpenChannel {
                        channel_id: id,
                        channel_type: ChannelType::Worker,
                        reply_tx: round,
                    });
                    side.work();
                }
                1 => {
                    side.close(id, round);
                    side.work();
                }
                _ => {
                    let (from, to) = if on_left { (&mut a, &mut b) } else { (&mut b, &mut a) };
                    if let Some(frame) = from.outgoing.pop_front() {
                        to.event(Event::IncomingFrame(Some(frame)));
                    }
                }
            }
        }
        settle(&mut a, &mut b);
        for id in &ids {
            assert_eq!(a.status(*id), b.status(*id));
            assert_ne!(a.status(*id), Some(OpenChannelStatus::AwaitingCloseResponse));
            assert!(a.mux.pending_channel(*id).is_none());
            assert!(b.mux.pending_channel(*id).is_none());
        }
    }
    assert!(a.running && b.running);
}

#[test]
fn nothing_follows_the_close_command() {
    let (mut a, mut b, id) = open_pair();
    b.send(id, &[1]);
    a.close(id, 5);
    a.work();
    a.send(id, &[2]);
    let late = b.outgoing.pop_front().unwrap();
    a.event(Event::IncomingFrame(Some(late)));
    assert_eq!(a.outgoing.len(), 1);
    assert!(a.delivered.is_empty());
    settle(&mut a, &mut b);
    a.send(id, &[3]);
    settle(&mut a, &mut b);
    assert!(b.delivered.is_empty());
    assert_eq!((a.status(id), b.status(id)), (None, None));
}

#[test]
fn data_never_comes_too_early() {
    let (mut a, mut b) = (Side::new(), Side::new());
    let ids: Vec<Uuid> = (1..4).map(|value| Uuid { value }).collect();
    let mut seed: u64 = 99;
    let mut random = |bound: u64| -> u64 {
        seed = seed.wrapping_mul(6364136223846793005).wrapping_add(1442695040888963407);
        (seed >> 33) % bound
    };
    let mut arrivals = 0;
    for round in 0..6000u32 {
        let id = ids[random(3) as usize];
        let on_left = random(2) == 0;
        let (side, peer) = if on_left { (&mut a, &mut b) } else { (&mut b, &mut a) };
        match random(8) {
            0 => {
                side.commands.push_back(Command::OpenChannel {
                    channel_id: id,
                    channel_type: ChannelType::Worker,
                    reply_tx: round,
                });
                side.work();
            }
            1 => {
                side.close(id, round);
                side.work();
            }
            2 | 3 => side.send(id, &round.to_be_bytes()),
            _ => {
                if let Some(frame) = peer.outgoing.pop_front() {
                    if !frame.channel_id.is_nil() {
                        assert!(side.status(frame.channel_id).is_some());
                        assert!(side.mux.pending_channel(frame.channel_id).is_none());
                        arrivals += 1;
                    }
                    side.event(Event::IncomingFrame(Some(frame)));
                }
            }
        }
    }
    assert!(arrivals > 100);
    for side in [&a, &b] {
        for id in &ids {
            let of_channel: Vec<&Vec<u8>> =
                side.delivered.iter().filter(|item| item.0 == *id).map(|item| &item.1).collect();
            assert!(of_channel.windows(2).all(|pair| pair[0] < pair[1]));
        }
    }
}
