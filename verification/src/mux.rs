//! The mux decides what becomes of every frame and every command.

use std::collections::HashMap;

use vstd::prelude::*;

use crate::channel::{
    channel, ChannelAcceptor, ChannelId, ChannelReceiver, ChannelSender, ChannelType,
};
use crate::codec::Frame;
use crate::ident::Uuid;
use crate::message::{ControlMessage, Message};
use crate::model::{
    answer_view, can_ask_for, channel_id_text, channel_text, command_input, control_frame,
    effects_view, event_handled, frame_handled, id_values, lists_keys, open_request_handled,
    result_view, EffectModel, Input, MuxModel,
};
use crate::text::between;

verus! {

broadcast use vstd::std_specs::hash::group_hash_axioms;

/// Why the mux could not do what it was asked for.
#[derive(Debug, Clone)]
pub struct MuxError(pub String);

/// The reply to a command to close a channel.
#[derive(Debug, Clone, Copy, PartialEq, Eq, Structural)]
pub enum CloseChannelCommandReply {
    ChannelClosed(ChannelId),
    ChannelIdDoesNotExist(ChannelId),
}

/// A command sent to the mux to perform an action, such as opening a channel.
/// Replies are sent through the handle that comes with the command.
#[allow(inconsistent_fields)]
pub enum Command<R, C> {
    /// A command for the mux to open a channel.
    /// Upon success, the mux will reply with the channel. Otherwise, the mux will reply with an
    /// error.
    OpenChannel { channel_id: ChannelId, channel_type: ChannelType, reply_tx: R },
    /// A command for the mux to close a channel.
    CloseChannel { channel_id: ChannelId, reply_tx: C },
}

impl MuxError {
    /// Writes `MuxError: ..`.
    pub fn to_string(&self) -> (text: String)
        ensures
            text@ == "MuxError: "@ + self.0@,
    {
        "MuxError: ".to_owned().concat(self.0.as_str())
    }
}

/// Whether `result` is `outcome` with the cause of a failure turned into an error text.
pub open spec fn explained<V>(
    outcome: Result<V, String>,
    explanation: Seq<char>,
    result: Result<V, MuxError>,
) -> bool {
    match outcome {
        Ok(value) => result == Ok::<V, MuxError>(value),
        Err(cause) => result matches Err(error) && error.0@ == explanation + cause@,
    }
}

fn explain<V>(outcome: Result<V, String>, explanation: &str) -> (result: Result<V, MuxError>)
    ensures
        explained(outcome, explanation@, result),
{
    match outcome {
        Ok(value) => Ok(value),
        Err(cause) => Err(MuxError(explanation.to_owned().concat(cause.as_str()))),
    }
}

/// Asks the mux to open and to close channels. Each request goes through three steps: the command
/// that is handed to the mux, what came of handing it over, and what came back.
#[derive(Debug, Clone, Copy)]
pub struct MuxHandle;

impl MuxHandle {
    /// The command to open a channel under a fresh identifier, which is never that of the control
    /// channel.
    pub fn open_channel<R, C>(&self, channel_type: ChannelType, reply_tx: R) -> (opening: (
        ChannelId,
        Command<R, C>,
    ))
        ensures
            opening.0.version() == 7,
            opening.0.variant() == 2,
            opening.0.value != 0,
            opening.1 == (Command::<R, C>::OpenChannel {
                channel_id: opening.0,
                channel_type,
                reply_tx,
            }),
    {
        let channel_id = ChannelId::now_v7();
        (channel_id, Command::OpenChannel { channel_id, channel_type, reply_tx })
    }

    /// What handing over the command to open a channel comes to.
    pub fn open_channel_sent(&self, outcome: Result<(), String>) -> (result: Result<(), MuxError>)
        ensures
            explained(outcome, "Failed to send open channel command: "@, result),
    {
        explain(outcome, "Failed to send open channel command: ")
    }

    /// What the command to open a channel comes to, given the mux's reply or why there was none:
    /// both ends of the channel and what came with the reply, or an error.
    pub fn open_channel_replied<V>(
        &self,
        channel_id: ChannelId,
        channel_type: ChannelType,
        reply: Result<Result<V, MuxError>, String>,
    ) -> (result: Result<(ChannelSender, ChannelReceiver, V), MuxError>)
        ensures
            match reply {
                Ok(Ok(value)) => result == Ok::<_, MuxError>(
                    (
                        ChannelSender { channel_id, channel_type },
                        ChannelReceiver { channel_id, channel_type },
                        value,
                    ),
                ),
                Ok(Err(error)) => result == Err::<(ChannelSender, ChannelReceiver, V), _>(error),
                Err(cause) => result matches Err(error) && error.0@
                    == "Open channel command resulted in an error: "@ + cause@,
            },
    {
        match explain(reply, "Open channel command resulted in an error: ") {
            Ok(Ok(value)) => {
                let (sender, receiver) = channel(channel_id, channel_type);
                Ok((sender, receiver, value))
            },
            Ok(Err(error)) => Err(error),
            Err(error) => Err(error),
        }
    }

    /// The command to close the channel.
    pub fn close_channel<R, C>(&self, channel_id: ChannelId, reply_tx: C) -> (command: Command<
        R,
        C,
    >)
        ensures
            command == (Command::<R, C>::CloseChannel { channel_id, reply_tx }),
    {
        Command::CloseChannel { channel_id, reply_tx }
    }

    /// What handing over the command to close a channel comes to.
    pub fn close_channel_sent(&self, outcome: Result<(), String>) -> (result: Result<(), MuxError>)
        ensures
            explained(outcome, "Failed to send close channel command: "@, result),
    {
        explain(outcome, "Failed to send close channel command: ")
    }

    /// What the command to close a channel comes to, given the mux's reply or why there was none.
    pub fn close_channel_replied(
        &self,
        reply: Result<CloseChannelCommandReply, String>,
    ) -> (result: Result<CloseChannelCommandReply, MuxError>)
        ensures
            explained(reply, "Close channel command resulted in an error: "@, result),
    {
        explain(reply, "Close channel command resulted in an error: ")
    }
}

#[derive(Debug, Clone, Copy, PartialEq, Eq, Structural)]
pub enum MuxStatus {
    /// The mux is running as normal.
    Running,
    /// The mux is in the process of shutting down.
    ShuttingDown,
}

/// A channel that the peer has not yet acknowledged.
pub struct PendingChannel<R> {
    pub channel_id: ChannelId,
    pub channel_type: ChannelType,
    pub reply_tx: R,
}

#[derive(Debug, Clone, Copy, PartialEq, Eq, Structural)]
pub enum OpenChannelStatus {
    /// The channel has not sent a close request and is not expecting a close response.
    NotAwaitingCloseResponse,
    /// The channel has sent a close request and is expecting a close response.
    AwaitingCloseResponse,
}

/// A channel that both peers know. `link` is its local end.
pub struct OpenChannel<L> {
    pub channel_id: ChannelId,
    pub channel_type: ChannelType,
    pub status: OpenChannelStatus,
    pub link: L,
}

/// What the mux tells its surroundings to do.
#[allow(inconsistent_fields)]
pub enum Effect<R, C, L, T> {
    /// Hand the frame to the task that writes to the peer.
    SendFrame(Frame),
    /// Hand the message to the local end of the open channel.
    Deliver { channel_id: ChannelId, message: Message },
    /// Start the task that serves a channel which the peer opened.
    Start { channel_id: ChannelId, channel_type: ChannelType, task: T },
    /// Reply to a command to open a channel: the channel is open.
    ReplyOpened { reply_tx: R, channel_id: ChannelId, channel_type: ChannelType },
    /// Reply to a command to open a channel: it failed.
    ReplyOpenFailed { reply_tx: R, error: MuxError },
    /// Reply to a command to close a channel.
    ReplyClose { reply_tx: C, reply: CloseChannelCommandReply },
    /// Tell everyone who waits for the end of the channel that it has come.
    NotifyClosed { channel: OpenChannel<L> },
    /// Send the mux a command to close each of the channels.
    EnqueueClose { channel_ids: Vec<ChannelId> },
}

/// What wakes up the run loop of the mux.
pub enum Event<R, C> {
    /// The mux was told to shut down.
    Cancelled,
    /// A frame from the peer, or the end of such frames.
    IncomingFrame(Option<Frame>),
    /// A frame from a local channel, or the end of such frames.
    OutgoingFrame(Option<Frame>),
    /// A command from a local task, or the end of such commands.
    Command(Option<Command<R, C>>),
}

/// What the run loop of the mux does after an event.
pub struct Step<R, C, L, T> {
    /// What is to be done, in order.
    pub effects: Vec<Effect<R, C, L, T>>,
    /// The local end that came with the event, unless a channel took it.
    pub left_over: Option<L>,
    /// Whether the loop goes on.
    pub proceed: bool,
}

/// Dispatches frames to channels and keeps track of which channels are open.
pub struct Mux<R, L> {
    status: MuxStatus,
    /// A dispatch table mapping channel IDs to open channels.
    open_channels: HashMap<u128, OpenChannel<L>>,
    /// A mapping of pending channels that have not yet been acknowledged by the peer.
    pending_channels: HashMap<u128, PendingChannel<R>>,
}

impl<R, L> View for Mux<R, L> {
    type V = MuxModel<R, L>;

    closed spec fn view(&self) -> MuxModel<R, L> {
        MuxModel {
            status: self.status,
            open: self.open_channels@,
            pending: self.pending_channels@,
        }
    }
}

fn channel_id_error(channel_id: ChannelId, rest: &str) -> (text: String)
    ensures
        text@ == channel_id_text(channel_id, rest@),
{
    between("Channel ID [", channel_id.to_string().as_str(), rest)
}

fn describe_channel(channel_id: ChannelId, channel_type: ChannelType) -> (text: String)
    ensures
        text@ == channel_text(channel_id, channel_type),
{
    between(
        "Channel(channel_id=",
        channel_id.to_string().as_str(),
        ", channel_type=",
    ).concat(channel_type.as_str()).concat(")")
}

/// What the task that reads from the peer hands to the mux, given what it read. There is nothing
/// more to hand over once the peer is gone or has sent what cannot be read.
pub fn incoming_frame<E>(read: Option<Result<Frame, E>>) -> (frame: Option<Frame>)
    ensures
        match read {
            Some(Ok(read)) => frame == Some(read),
            _ => frame is None,
        },
{
    match read {
        Some(Ok(frame)) => Some(frame),
        _ => None,
    }
}

/// Lists the keys of a table.
fn table_keys<V>(table: &HashMap<u128, V>) -> (keys: Vec<u128>)
    ensures
        lists_keys(table@.dom(), keys@),
{
    let ghost all = vstd::std_specs::iter::IteratorSpec::remaining(
        &vstd::std_specs::hash::spec_keys_iter(table),
    ).unref();
    let mut keys: Vec<u128> = Vec::new();
    for key in iter: table.keys()
        invariant
            iter.seq().unref() == all,
            keys@ == all.take(iter.index()),
    {
        keys.push(*key);
        assert(keys@ =~= all.take(iter.index() + 1));
    }
    assert(keys@ =~= all);
    keys
}

impl<R> PendingChannel<R> {
    /// Writes `Channel(channel_id=.., channel_type=..)`.
    pub fn to_string(&self) -> (text: String)
        ensures
            text@ == channel_text(self.channel_id, self.channel_type),
    {
        describe_channel(self.channel_id, self.channel_type)
    }
}

impl<L> OpenChannel<L> {
    /// Writes `Channel(channel_id=.., channel_type=..)`.
    pub fn to_string(&self) -> (text: String)
        ensures
            text@ == channel_text(self.channel_id, self.channel_type),
    {
        describe_channel(self.channel_id, self.channel_type)
    }
}

impl<R, L> Mux<R, L> {
    /// A running mux without channels.
    pub fn new() -> (mux: Self)
        ensures
            mux@ == (MuxModel::<R, L> {
                status: MuxStatus::Running,
                open: Map::empty(),
                pending: Map::empty(),
            }),
            mux@.valid(),
    {
        Mux {
            status: MuxStatus::Running,
            open_channels: HashMap::new(),
            pending_channels: HashMap::new(),
        }
    }

    /// Decides whether a frame goes to the peer. Control frames always do; a frame of a channel
    /// does while the channel is open and no close request was sent for it.
    pub fn send_outgoing_frame<C, T>(&self, frame: Frame) -> (effects: Vec<Effect<R, C, L, T>>)
        ensures
            effects_view(effects@) == self@.output(Input::<R, C, L, T>::Outgoing { frame }),
            forall|i: int|
                0 <= i < effects@.len() ==> #[trigger] effects@[i] == Effect::<R, C, L, T>::SendFrame(
                    frame,
                ),
    {
        let mut effects: Vec<Effect<R, C, L, T>> = Vec::new();
        if frame.channel_id.is_nil() {
            effects.push(Effect::SendFrame(frame));
        } else {
            match self.open_channels.get(&frame.channel_id.value) {
                Some(channel) => match channel.status {
                    OpenChannelStatus::NotAwaitingCloseResponse => {
                        effects.push(Effect::SendFrame(frame));
                    },
                    OpenChannelStatus::AwaitingCloseResponse => {},
                },
                None => {},
            }
        }
        assert(effects_view(effects@) =~= self@.output(
            Input::<R, C, L, T>::Outgoing { frame },
        ));
        effects
    }

    /// Adds a control message to the peer to what is to be done.
    fn send_control<C, T>(
        &self,
        control: ControlMessage,
        effects: &mut Vec<Effect<R, C, L, T>>,
    )
        ensures
            effects_view(final(effects)@) == effects_view(old(effects)@).push(
                EffectModel::SendFrame(control_frame(control@)),
            ),
    {
        let frame = Frame { channel_id: ChannelId::nil(), message: Message::Control(control) };
        let mut sent: Vec<Effect<R, C, L, T>> = self.send_outgoing_frame(frame);
        let ghost before = effects@;
        let ghost added = sent@;
        effects.append(&mut sent);
        proof {
            assert(effects_view(added).len() == added.len());
            assert(effects_view(added)[0] == added[0]@);
            assert(effects_view(effects@) =~= effects_view(before).push(
                EffectModel::SendFrame(control_frame(control@)),
            ));
        }
    }

    /// Why a request from the peer to open the channel is refused before the acceptor is asked:
    /// the channel is open or pending already, or the mux is shutting down.
    pub fn refuse_open_channel_request(&self, channel_id: ChannelId) -> (refusal: Option<String>)
        ensures
            match refusal {
                Some(text) => self@.request_refusal(channel_id) == Some(text@),
                None => self@.request_refusal(channel_id) is None,
            },
    {
        if self.open_channels.contains_key(&channel_id.value) {
            Some(channel_id_error(channel_id, "] is already open"))
        } else if self.pending_channels.contains_key(&channel_id.value) {
            Some(channel_id_error(channel_id, "] is already pending"))
        } else if self.status == MuxStatus::ShuttingDown {
            Some("Peer mux is shutting down".to_owned())
        } else {
            None
        }
    }

    /// Acts on the acceptor's answer to a request from the peer to open a channel. An accepted
    /// channel is open from here on, and its task starts once the peer has been told; a rejected
    /// one leaves nothing behind but the reason that the peer is told. Gives back `fresh` unless it
    /// became the local end of the channel.
    pub fn answer_open_channel_request<C, T>(
        &mut self,
        channel_id: ChannelId,
        channel_type: ChannelType,
        answer: Result<T, String>,
        fresh: L,
    ) -> (outcome: (Vec<Effect<R, C, L, T>>, Option<L>))
        requires
            old(self)@.request_refusal(channel_id) is None,
        ensures
            ({
                let input = Input::<R, C, L, T>::OpenRequest {
                    channel_id,
                    channel_type,
                    answer: answer_view(answer),
                    fresh,
                };
                &&& final(self)@ == old(self)@.next(input)
                &&& effects_view(outcome.0@) == old(self)@.output(input)
                &&& outcome.1 == old(self)@.left_over(input, fresh)
                &&& old(self)@.valid() ==> final(self)@.valid()
            }),
    {
        let mut effects: Vec<Effect<R, C, L, T>> = Vec::new();
        match answer {
            Ok(task) => {
                self.open_channels.insert(
                    channel_id.value,
                    OpenChannel {
                        channel_id,
                        channel_type,
                        status: OpenChannelStatus::NotAwaitingCloseResponse,
                        link: fresh,
                    },
                );
                self.send_control(
                    ControlMessage::OpenChannelResponse { channel_id, result: Ok(()) },
                    &mut effects,
                );
                let ghost sent = effects@;
                effects.push(Effect::Start { channel_id, channel_type, task });
                assert(effects_view(effects@) =~= effects_view(sent).push(
                    EffectModel::Start { channel_id, channel_type, task },
                ));
                (effects, None)
            },
            Err(reason) => {
                self.send_control(
                    ControlMessage::OpenChannelResponse { channel_id, result: Err(reason) },
                    &mut effects,
                );
                (effects, Some(fresh))
            },
        }
    }

    /// Handles a request from the peer to open a channel. A channel that is known already, and any
    /// channel while the mux shuts down, is refused without asking the acceptor; else the acceptor
    /// decides. The peer is answered in every case. Gives back `fresh` unless it became the local end of the channel.
    pub fn handle_open_channel_request<C, T, A: ChannelAcceptor<T>>(
        &mut self,
        acceptor: &A,
        channel_id: ChannelId,
        channel_type: ChannelType,
        fresh: L,
    ) -> (outcome: (Vec<Effect<R, C, L, T>>, Option<L>))
        requires
            old(self)@.request_refusal(channel_id) is None ==> acceptor.can_ask(
                channel_id,
                channel_type,
            ),
        ensures
            open_request_handled(
                *acceptor,
                channel_id,
                channel_type,
                fresh,
                old(self)@,
                final(self)@,
                effects_view(outcome.0@),
                outcome.1,
            ),
            old(self)@.valid() ==> final(self)@.valid(),
    {
        match self.refuse_open_channel_request(channel_id) {
            Some(reason) => {
                let mut effects: Vec<Effect<R, C, L, T>> = Vec::new();
                self.send_control(
                    ControlMessage::OpenChannelResponse { channel_id, result: Err(reason) },
                    &mut effects,
                );
                (effects, Some(fresh))
            },
            None => {
                let answer = acceptor.future_fn(channel_id, channel_type);
                self.answer_open_channel_request(channel_id, channel_type, answer, fresh)
            },
        }
    }

    /// Handles a response from the peer about opening a channel. The one who asked for the channel
    /// gets a reply either way, and the channel is pending no longer. Gives back `fresh` unless it
    /// became the local end of the channel.
    pub fn handle_open_channel_response<C, T>(
        &mut self,
        channel_id: ChannelId,
        result: Result<(), String>,
        fresh: L,
    ) -> (outcome: (Vec<Effect<R, C, L, T>>, Option<L>))
        ensures
            ({
                let input = Input::<R, C, L, T>::OpenResponse {
                    channel_id,
                    result: result_view(result),
                    fresh,
                };
                &&& final(self)@ == old(self)@.next(input)
                &&& effects_view(outcome.0@) == old(self)@.output(input)
                &&& outcome.1 == old(self)@.left_over(input, fresh)
                &&& old(self)@.valid() ==> final(self)@.valid()
            }),
    {
        let mut effects: Vec<Effect<R, C, L, T>> = Vec::new();
        let pending_channel = match self.pending_channels.remove(&channel_id.value) {
            Some(pending_channel) => pending_channel,
            None => {
                assert(self@.pending =~= old(self)@.pending);
                assert(effects_view(effects@) =~= seq![]);
                return (effects, Some(fresh));
            },
        };
        match result {
            Ok(()) => {
                let channel_type = pending_channel.channel_type;
                self.open_channels.insert(
                    channel_id.value,
                    OpenChannel {
                        channel_id,
                        channel_type,
                        status: OpenChannelStatus::NotAwaitingCloseResponse,
                        link: fresh,
                    },
                );
                effects.push(
                    Effect::ReplyOpened {
                        reply_tx: pending_channel.reply_tx,
                        channel_id,
                        channel_type,
                    },
                );
                assert(effects_view(effects@) =~= seq![
                    EffectModel::ReplyOpened {
                        reply_tx: pending_channel.reply_tx,
                        channel_id,
                        channel_type,
                    },
                ]);
                (effects, None)
            },
            Err(reason) => {
                let text = between(
                    "Failed to open channel [",
                    pending_channel.to_string().as_str(),
                    "]: ",
                ).concat(reason.as_str());
                effects.push(
                    Effect::ReplyOpenFailed {
                        reply_tx: pending_channel.reply_tx,
                        error: MuxError(text),
                    },
                );
                assert(effects_view(effects@) =~= seq![
                    EffectModel::ReplyOpenFailed {
                        reply_tx: pending_channel.reply_tx,
                        error: text@,
                    },
                ]);
                (effects, Some(fresh))
            },
        }
    }

    /// Handles a request from the peer to close a channel. The peer is answered in every case. An
    /// open channel is closed, except where this side has asked for the same and still waits for
    /// the response.
    pub fn handle_close_channel_request<C, T>(&mut self, channel_id: ChannelId) -> (effects: Vec<
        Effect<R, C, L, T>,
    >)
        ensures
            ({
                let input = Input::<R, C, L, T>::CloseRequest { channel_id };
                &&& final(self)@ == old(self)@.next(input)
                &&& effects_view(effects@) == old(self)@.output(input)
                &&& old(self)@.valid() ==> final(self)@.valid()
            }),
    {
        let mut effects: Vec<Effect<R, C, L, T>> = Vec::new();
        match self.open_channels.remove(&channel_id.value) {
            Some(channel) => {
                match channel.status {
                    OpenChannelStatus::NotAwaitingCloseResponse => {
                        effects.push(Effect::NotifyClosed { channel });
                        assert(effects_view(effects@) =~= seq![
                            EffectModel::NotifyClosed { channel },
                        ]);
                    },
                    OpenChannelStatus::AwaitingCloseResponse => {
                        // Keep the channel and wait for the close response.
                        self.open_channels.insert(channel_id.value, channel);
                        assert(self@.open =~= old(self)@.open);
                        assert(effects_view(effects@) =~= seq![]);
                    },
                }
                self.send_control(
                    ControlMessage::CloseChannelResponse { channel_id, result: Ok(()) },
                    &mut effects,
                );
            },
            None => {
                assert(self@.open =~= old(self)@.open);
                assert(effects_view(effects@) =~= seq![]);
                self.send_control(
                    ControlMessage::CloseChannelResponse {
                        channel_id,
                        result: Err(channel_id_error(channel_id, "] not open")),
                    },
                    &mut effects,
                );
            },
        }
        assert(effects_view(effects@) =~= old(self)@.output(
            Input::<R, C, L, T>::CloseRequest { channel_id },
        ));
        effects
    }

    /// Handles a response from the peer about closing a channel. Where this side has sent a close
    /// request, the channel is closed, whatever the response says, and those who wait for its end
    /// are told. A response that was not asked for is a failure of the peer and changes nothing.
    pub fn handle_close_channel_response<C, T>(
        &mut self,
        channel_id: ChannelId,
        _result: Result<(), String>,
    ) -> (effects: Vec<Effect<R, C, L, T>>)
        ensures
            ({
                let input = Input::<R, C, L, T>::CloseResponse { channel_id };
                &&& final(self)@ == old(self)@.next(input)
                &&& effects_view(effects@) == old(self)@.output(input)
                &&& old(self)@.valid() ==> final(self)@.valid()
            }),
    {
        let mut effects: Vec<Effect<R, C, L, T>> = Vec::new();
        match self.open_channels.remove(&channel_id.value) {
            Some(channel) => match channel.status {
                OpenChannelStatus::NotAwaitingCloseResponse => {
                    // Keep the channel open.
                    self.open_channels.insert(channel_id.value, channel);
                    assert(self@.open =~= old(self)@.open);
                },
                OpenChannelStatus::AwaitingCloseResponse => {
                    effects.push(Effect::NotifyClosed { channel });
                },
            },
            None => {},
        }
        assert(effects_view(effects@) =~= old(self)@.output(
            Input::<R, C, L, T>::CloseResponse { channel_id },
        ));
        effects
    }

    /// Dispatches an incoming message to a local channel. The message is dropped unless the channel
    /// is open and no close request was sent for it.
    pub fn dispatch_message<C, T>(
        &self,
        channel_id: ChannelId,
        message: Message,
    ) -> (effects: Vec<Effect<R, C, L, T>>)
        ensures
            effects_view(effects@) == self@.output(
                Input::<R, C, L, T>::Incoming { channel_id, message },
            ),
    {
        let mut effects: Vec<Effect<R, C, L, T>> = Vec::new();
        match self.open_channels.get(&channel_id.value) {
            Some(channel) => match channel.status {
                OpenChannelStatus::NotAwaitingCloseResponse => {
                    effects.push(Effect::Deliver { channel_id, message });
                },
                OpenChannelStatus::AwaitingCloseResponse => {},
            },
            None => {},
        }
        assert(effects_view(effects@) =~= self@.output(
            Input::<R, C, L, T>::Incoming { channel_id, message },
        ));
        effects
    }

    /// Handles a command from a local task to open a new channel. A channel that is known already,
    /// and any channel while the mux shuts down, is refused; else the channel is pending and the
    /// peer is asked to open it.
    pub fn handle_open_channel_command<C, T>(
        &mut self,
        channel_id: ChannelId,
        channel_type: ChannelType,
        reply_tx: R,
    ) -> (effects: Vec<Effect<R, C, L, T>>)
        ensures
            ({
                let input = Input::<R, C, L, T>::OpenCommand { channel_id, channel_type, reply_tx };
                &&& final(self)@ == old(self)@.next(input)
                &&& effects_view(effects@) == old(self)@.output(input)
                &&& old(self)@.valid() ==> final(self)@.valid()
            }),
    {
        let mut effects: Vec<Effect<R, C, L, T>> = Vec::new();
        assert(effects_view(effects@) =~= seq![]);
        let refusal = if self.open_channels.contains_key(&channel_id.value) {
            Some(channel_id_error(channel_id, "] already open"))
        } else if self.pending_channels.contains_key(&channel_id.value) {
            Some(channel_id_error(channel_id, "] already pending"))
        } else if self.status == MuxStatus::ShuttingDown {
            Some(channel_id_error(channel_id, "] cannot be opened. Mux is shutting down."))
        } else {
            None
        };
        match refusal {
            Some(text) => {
                effects.push(Effect::ReplyOpenFailed { reply_tx, error: MuxError(text) });
            },
            None => {
                self.pending_channels.insert(
                    channel_id.value,
                    PendingChannel { channel_id, channel_type, reply_tx },
                );
                self.send_control(
                    ControlMessage::OpenChannelRequest { channel_id, channel_type },
                    &mut effects,
                );
            },
        }
        assert(effects_view(effects@) =~= old(self)@.output(
            Input::<R, C, L, T>::OpenCommand { channel_id, channel_type, reply_tx },
        ));
        effects
    }

    /// Handles a command from a local task to close a channel. The peer is asked once, however
    /// often the command comes.
    pub fn handle_close_channel_command<C, T>(
        &mut self,
        channel_id: ChannelId,
        reply_tx: C,
    ) -> (effects: Vec<Effect<R, C, L, T>>)
        ensures
            ({
                let input = Input::<R, C, L, T>::CloseCommand { channel_id, reply_tx };
                &&& final(self)@ == old(self)@.next(input)
                &&& effects_view(effects@) == old(self)@.output(input)
                &&& old(self)@.valid() ==> final(self)@.valid()
            }),
    {
        let mut effects: Vec<Effect<R, C, L, T>> = Vec::new();
        match self.open_channels.remove(&channel_id.value) {
            Some(channel) => {
                effects.push(
                    Effect::ReplyClose {
                        reply_tx,
                        reply: CloseChannelCommandReply::ChannelClosed(channel_id),
                    },
                );
                assert(effects_view(effects@) =~= seq![
                    EffectModel::ReplyClose {
                        reply_tx,
                        reply: CloseChannelCommandReply::ChannelClosed(channel_id),
                    },
                ]);
                match channel.status {
                    OpenChannelStatus::AwaitingCloseResponse => {
                        self.open_channels.insert(channel_id.value, channel);
                        assert(self@.open =~= old(self)@.open);
                    },
                    OpenChannelStatus::NotAwaitingCloseResponse => {
                        self.open_channels.insert(
                            channel_id.value,
                            OpenChannel {
                                channel_id: channel.channel_id,
                                channel_type: channel.channel_type,
                                status: OpenChannelStatus::AwaitingCloseResponse,
                                link: channel.link,
                            },
                        );
                        assert(self@.open =~= old(self)@.with_close_requested(channel_id).open);
                        self.send_control(
                            ControlMessage::CloseChannelRequest { channel_id },
                            &mut effects,
                        );
                    },
                }
            },
            None => {
                assert(self@.open =~= old(self)@.open);
                effects.push(
                    Effect::ReplyClose {
                        reply_tx,
                        reply: CloseChannelCommandReply::ChannelIdDoesNotExist(channel_id),
                    },
                );
            },
        }
        assert(effects_view(effects@) =~= old(self)@.output(
            Input::<R, C, L, T>::CloseCommand { channel_id, reply_tx },
        ));
        effects
    }

    /// Handles a command from a local task.
    pub fn handle_command<C, T>(&mut self, command: Command<R, C>) -> (effects: Vec<
        Effect<R, C, L, T>,
    >)
        ensures
            ({
                let input = command_input::<R, C, L, T>(command);
                &&& final(self)@ == old(self)@.next(input)
                &&& effects_view(effects@) == old(self)@.output(input)
                &&& old(self)@.valid() ==> final(self)@.valid()
            }),
    {
        match command {
            Command::OpenChannel { channel_id, channel_type, reply_tx } => {
                self.handle_open_channel_command(channel_id, channel_type, reply_tx)
            },
            Command::CloseChannel { channel_id, reply_tx } => {
                self.handle_close_channel_command(channel_id, reply_tx)
            },
        }
    }

    /// Drains all pending channels and asks for all open channels to be closed.
    pub fn shutdown<C, T>(&mut self) -> (effects: Vec<Effect<R, C, L, T>>)
        ensures
            ({
                let input = Input::<R, C, L, T>::Shutdown;
                &&& final(self)@ == old(self)@.next(input)
                &&& old(self)@.outputs(input, effects_view(effects@))
                &&& old(self)@.valid() ==> final(self)@.valid()
            }),
    {
        self.status = MuxStatus::ShuttingDown;
        let refused = table_keys(&self.pending_channels);
        let closing_keys = table_keys(&self.open_channels);
        let mut effects: Vec<Effect<R, C, L, T>> = Vec::new();
        let mut next: usize = 0;
        proof {
            assert forall|id: u128| #[trigger] self.pending_channels@.contains_key(id) implies exists|
                j: int,
            | 0 <= j < refused.len() && refused@[j] == id by {
                assert(refused@.to_set().contains(id));
            }
            assert forall|j: int| 0 <= j < refused.len() implies self.pending_channels@.contains_key(
                #[trigger] refused@[j],
            ) by {
                assert(refused@.to_set().contains(refused@[j]));
            }
        }
        while next < refused.len()
            invariant
                next <= refused.len(),
                self.status == MuxStatus::ShuttingDown,
                self.open_channels@ == old(self).open_channels@,
                lists_keys(old(self).pending_channels@.dom(), refused@),
                forall|j: int|
                    next <= j < refused.len() ==> self.pending_channels@.contains_key(
                        #[trigger] refused@[j],
                    ) && self.pending_channels@[refused@[j]] == old(
                        self,
                    ).pending_channels@[refused@[j]],
                forall|id: u128| #[trigger]
                    self.pending_channels@.contains_key(id) ==> exists|j: int|
                        next <= j < refused.len() && refused@[j] == id,
                effects_view(effects@) == refused@.take(next as int).map_values(
                    |id: u128| old(self)@.shutdown_refusal::<C, T>(id),
                ),
            decreases refused.len() - next,
        {
            let id: u128 = refused[next];
            let ghost before = effects@;
            match self.pending_channels.remove(&id) {
                Some(pending_channel) => {
                    effects.push(
                        Effect::ReplyOpenFailed {
                            reply_tx: pending_channel.reply_tx,
                            error: MuxError(
                                "Cannot open new channel. Mux is shutting down".to_owned(),
                            ),
                        },
                    );
                },
                None => {},
            }
            proof {
                assert(refused@.take(next + 1) =~= refused@.take(next as int).push(id));
                assert(effects_view(effects@) =~= effects_view(before).push(
                    old(self)@.shutdown_refusal::<C, T>(id),
                ));
                assert(effects_view(effects@) =~= refused@.take(next + 1).map_values(
                    |id: u128| old(self)@.shutdown_refusal::<C, T>(id),
                ));
            }
            next = next + 1;
        }
        let mut closing: Vec<ChannelId> = Vec::new();
        let mut listed: usize = 0;
        while listed < closing_keys.len()
            invariant
                listed <= closing_keys.len(),
                id_values(closing@) =~= closing_keys@.take(listed as int),
            decreases closing_keys.len() - listed,
        {
            closing.push(Uuid { value: closing_keys[listed] });
            assert(closing_keys@.take(listed + 1) =~= closing_keys@.take(listed as int).push(
                closing_keys@[listed as int],
            ));
            listed = listed + 1;
        }
        effects.push(Effect::EnqueueClose { channel_ids: closing });
        proof {
            assert(closing_keys@.take(listed as int) =~= closing_keys@);
            assert(refused@.take(next as int) =~= refused@);
            assert(self@.pending =~= Map::empty());
            assert(old(self)@.shutdown_output(refused@, closing@, effects_view(effects@)));
        }
        effects
    }

    /// Handles an incoming frame from the peer. Gives back `fresh` unless it became the local end
    /// of a channel.
    pub fn recv_incoming_frame<C, T, A: ChannelAcceptor<T>>(
        &mut self,
        acceptor: &A,
        frame: Frame,
        fresh: L,
    ) -> (outcome: (Vec<Effect<R, C, L, T>>, Option<L>))
        requires
            can_ask_for(*acceptor, old(self)@, frame),
        ensures
            frame_handled(
                *acceptor,
                frame,
                fresh,
                old(self)@,
                final(self)@,
                effects_view(outcome.0@),
                outcome.1,
            ),
            old(self)@.valid() ==> final(self)@.valid(),
    {
        if !frame.channel_id.is_nil() {
            // Message for data channel.
            return (self.dispatch_message(frame.channel_id, frame.message), Some(fresh));
        }
        // Message for control channel.
        match frame.message {
            Message::Control(ControlMessage::OpenChannelRequest { channel_id, channel_type }) => {
                self.handle_open_channel_request(acceptor, channel_id, channel_type, fresh)
            },
            Message::Control(ControlMessage::OpenChannelResponse { channel_id, result }) => {
                self.handle_open_channel_response(channel_id, result, fresh)
            },
            Message::Control(ControlMessage::CloseChannelRequest { channel_id }) => {
                (self.handle_close_channel_request(channel_id), Some(fresh))
            },
            Message::Control(ControlMessage::CloseChannelResponse { channel_id, result }) => {
                (self.handle_close_channel_response(channel_id, result), Some(fresh))
            },
            _ => {
                // Unexpected message on control channel.
                (self.shutdown(), Some(fresh))
            },
        }
    }

    /// Whether the mux is running as normal, and so heeds a cancellation.
    pub fn is_running(&self) -> (running: bool)
        ensures
            running == (self@.status is Running),
    {
        self.status == MuxStatus::Running
    }

    /// Whether the run loop is over: the mux shuts down and no channel is open.
    pub fn is_stopped(&self) -> (stopped: bool)
        ensures
            stopped == self@.stopped(),
    {
        self.status == MuxStatus::ShuttingDown && self.open_channels.is_empty()
    }

    /// Looks up an open channel.
    pub fn open_channel(&self, channel_id: ChannelId) -> (channel: Option<&OpenChannel<L>>)
        ensures
            match channel {
                Some(channel) => self@.open.contains_key(channel_id.value)
                    && self@.open[channel_id.value] == *channel,
                None => !self@.open.contains_key(channel_id.value),
            },
    {
        self.open_channels.get(&channel_id.value)
    }

    /// Looks up a pending channel.
    pub fn pending_channel(&self, channel_id: ChannelId) -> (channel: Option<&PendingChannel<R>>)
        ensures
            match channel {
                Some(channel) => self@.pending.contains_key(channel_id.value)
                    && self@.pending[channel_id.value] == *channel,
                None => !self@.pending.contains_key(channel_id.value),
            },
    {
        self.pending_channels.get(&channel_id.value)
    }

    /// Handles one event of the run loop. The loop calls this until the mux is stopped or the step
    /// says that it does not go on.
    pub fn run<C, T, A: ChannelAcceptor<T>>(
        &mut self,
        acceptor: &A,
        event: Event<R, C>,
        fresh: L,
    ) -> (step: Step<R, C, L, T>)
        requires
            event matches Event::IncomingFrame(Some(frame)) ==> can_ask_for(
                *acceptor,
                old(self)@,
                frame,
            ),
        ensures
            event_handled(
                *acceptor,
                event,
                fresh,
                old(self)@,
                final(self)@,
                effects_view(step.effects@),
                step.left_over,
                step.proceed,
            ),
            event matches Event::OutgoingFrame(Some(frame)) ==> forall|i: int|
                0 <= i < step.effects@.len() ==> #[trigger] step.effects@[i] == Effect::<
                    R,
                    C,
                    L,
                    T,
                >::SendFrame(frame),
            old(self)@.valid() ==> final(self)@.valid(),
    {
        let idle: Vec<Effect<R, C, L, T>> = Vec::new();
        assert(effects_view(idle@) =~= seq![]);
        match event {
            Event::Cancelled => {
                let effects = if self.status == MuxStatus::Running {
                    self.shutdown()
                } else {
                    idle
                };
                Step { effects, left_over: Some(fresh), proceed: true }
            },
            Event::IncomingFrame(Some(frame)) => {
                let (effects, left_over) = self.recv_incoming_frame(acceptor, frame, fresh);
                Step { effects, left_over, proceed: true }
            },
            Event::OutgoingFrame(Some(frame)) => {
                let effects = self.send_outgoing_frame(frame);
                Step { effects, left_over: Some(fresh), proceed: true }
            },
            Event::Command(Some(command)) => {
                let effects = self.handle_command(command);
                Step { effects, left_over: Some(fresh), proceed: true }
            },
            _ => Step { effects: idle, left_over: Some(fresh), proceed: false },
        }
    }
}

} // verus!
