//! The mux as a state machine: what it remembers, what can happen to it, and what it then does.

use vstd::prelude::*;

use crate::channel::{ChannelAcceptor, ChannelId, ChannelType};
use crate::codec::Frame;
use crate::ident::{hyphenated, Uuid};
use crate::message::{ControlMessage, Message};
use crate::mux::{
    CloseChannelCommandReply, Command, Effect, Event, MuxStatus, OpenChannel, OpenChannelStatus,
    PendingChannel,
};

verus! {

/// A control message whose texts are sequences of characters.
pub enum ControlModel {
    OpenChannelRequest { channel_id: ChannelId, channel_type: ChannelType },
    OpenChannelResponse { channel_id: ChannelId, result: Result<(), Seq<char>> },
    CloseChannel { channel_id: ChannelId },
    CloseChannelRequest { channel_id: ChannelId },
    CloseChannelResponse { channel_id: ChannelId, result: Result<(), Seq<char>> },
}

/// A message of which only a control message is looked into.
pub enum MessageModel {
    Control(ControlModel),
    Data(Message),
}

/// A frame of which only a control message is looked into.
pub struct FrameModel {
    pub channel_id: ChannelId,
    pub message: MessageModel,
}

/// An outcome whose error text is a sequence of characters.
pub open spec fn result_view(result: Result<(), String>) -> Result<(), Seq<char>> {
    match result {
        Ok(()) => Ok(()),
        Err(text) => Err(text@),
    }
}

impl View for ControlMessage {
    type V = ControlModel;

    open spec fn view(&self) -> ControlModel {
        match *self {
            ControlMessage::OpenChannelRequest { channel_id, channel_type } =>
                ControlModel::OpenChannelRequest { channel_id, channel_type },
            ControlMessage::OpenChannelResponse { channel_id, result } =>
                ControlModel::OpenChannelResponse { channel_id, result: result_view(result) },
            ControlMessage::CloseChannel { channel_id } => ControlModel::CloseChannel {
                channel_id,
            },
            ControlMessage::CloseChannelRequest { channel_id } =>
                ControlModel::CloseChannelRequest { channel_id },
            ControlMessage::CloseChannelResponse { channel_id, result } =>
                ControlModel::CloseChannelResponse { channel_id, result: result_view(result) },
        }
    }
}

impl View for Message {
    type V = MessageModel;

    open spec fn view(&self) -> MessageModel {
        match *self {
            Message::Control(control) => MessageModel::Control(control@),
            _ => MessageModel::Data(*self),
        }
    }
}

impl View for Frame {
    type V = FrameModel;

    open spec fn view(&self) -> FrameModel {
        FrameModel { channel_id: self.channel_id, message: self.message@ }
    }
}

/// The frame that carries `control` on the control channel.
pub open spec fn control_frame(control: ControlModel) -> FrameModel {
    FrameModel { channel_id: Uuid { value: 0 }, message: MessageModel::Control(control) }
}

/// What the mux remembers: whether it is shutting down, the channels that are open, and the
/// channels that were asked for and not yet acknowledged by the peer.
pub struct MuxModel<R, L> {
    pub status: MuxStatus,
    pub open: Map<u128, OpenChannel<L>>,
    pub pending: Map<u128, PendingChannel<R>>,
}

/// What the mux tells its surroundings to do.
#[allow(inconsistent_fields)]
pub enum EffectModel<R, C, L, T> {
    SendFrame(FrameModel),
    Deliver { channel_id: ChannelId, message: Message },
    Start { channel_id: ChannelId, channel_type: ChannelType, task: T },
    ReplyOpened { reply_tx: R, channel_id: ChannelId, channel_type: ChannelType },
    ReplyOpenFailed { reply_tx: R, error: Seq<char> },
    ReplyClose { reply_tx: C, reply: CloseChannelCommandReply },
    NotifyClosed { channel: OpenChannel<L> },
    EnqueueClose { channel_ids: Seq<ChannelId> },
}

impl<R, C, L, T> View for Effect<R, C, L, T> {
    type V = EffectModel<R, C, L, T>;

    open spec fn view(&self) -> EffectModel<R, C, L, T> {
        match *self {
            Effect::SendFrame(frame) => EffectModel::SendFrame(frame@),
            Effect::Deliver { channel_id, message } => EffectModel::Deliver {
                channel_id,
                message,
            },
            Effect::Start { channel_id, channel_type, task } => EffectModel::Start {
                channel_id,
                channel_type,
                task,
            },
            Effect::ReplyOpened { reply_tx, channel_id, channel_type } =>
                EffectModel::ReplyOpened { reply_tx, channel_id, channel_type },
            Effect::ReplyOpenFailed { reply_tx, error } => EffectModel::ReplyOpenFailed {
                reply_tx,
                error: error.0@,
            },
            Effect::ReplyClose { reply_tx, reply } => EffectModel::ReplyClose { reply_tx, reply },
            Effect::NotifyClosed { channel } => EffectModel::NotifyClosed { channel },
            Effect::EnqueueClose { channel_ids } => EffectModel::EnqueueClose {
                channel_ids: channel_ids@,
            },
        }
    }
}

/// The effects of a list, in the same order.
pub open spec fn effects_view<R, C, L, T>(effects: Seq<Effect<R, C, L, T>>) -> Seq<
    EffectModel<R, C, L, T>,
> {
    effects.map_values(|effect: Effect<R, C, L, T>| effect@)
}

/// What can happen to the mux. `R` and `C` stand for the handles that take the reply to a command
/// to open and to close a channel, `L` for the local end of an open channel, and `T` for the task
/// that serves a channel which the peer opened.
#[allow(inconsistent_fields)]
pub enum Input<R, C, L, T> {
    /// The peer asks to open a channel. `answer` is what the acceptor says, where it is asked, and
    /// `fresh` a local end for the channel.
    OpenRequest {
        channel_id: ChannelId,
        channel_type: ChannelType,
        answer: Result<T, Seq<char>>,
        fresh: L,
    },
    /// The peer answers a request to open a channel. `fresh` is a local end for the channel.
    OpenResponse { channel_id: ChannelId, result: Result<(), Seq<char>>, fresh: L },
    /// The peer asks to close a channel.
    CloseRequest { channel_id: ChannelId },
    /// The peer answers a request to close a channel.
    CloseResponse { channel_id: ChannelId },
    /// The peer sends a message on a channel.
    Incoming { channel_id: ChannelId, message: Message },
    /// A local task sends a frame to the peer.
    Outgoing { frame: Frame },
    /// A local task asks to open a channel.
    OpenCommand { channel_id: ChannelId, channel_type: ChannelType, reply_tx: R },
    /// A local task asks to close a channel.
    CloseCommand { channel_id: ChannelId, reply_tx: C },
    /// The mux is to shut down.
    Shutdown,
}

/// The text `Channel(channel_id=.., channel_type=..)`.
pub open spec fn channel_text(channel_id: ChannelId, channel_type: ChannelType) -> Seq<char> {
    "Channel(channel_id="@ + hyphenated(channel_id.value) + ", channel_type="@
        + channel_type.name() + ")"@
}

/// The text `Channel ID [..]`, followed by `rest`.
pub open spec fn channel_id_text(channel_id: ChannelId, rest: Seq<char>) -> Seq<char> {
    "Channel ID ["@ + hyphenated(channel_id.value) + rest
}

impl<R, L> MuxModel<R, L> {
    /// What every mux keeps: the tables file each channel under its own identifier, no channel is
    /// both open and pending, and none is pending while the mux shuts down.
    pub open spec fn valid(self) -> bool {
        &&& forall|id: u128| #[trigger]
            self.open.contains_key(id) ==> self.open[id].channel_id.value == id
        &&& forall|id: u128| #[trigger]
            self.pending.contains_key(id) ==> self.pending[id].channel_id.value == id
        &&& forall|id: u128|
            !(#[trigger] self.open.contains_key(id) && #[trigger] self.pending.contains_key(id))
        &&& self.status is ShuttingDown ==> self.pending =~= Map::empty()
    }

    /// Whether the mux has nothing left to do: it shuts down and no channel is open.
    pub open spec fn stopped(self) -> bool {
        self.status is ShuttingDown && self.open.dom() =~= Set::empty()
    }

    /// Whether data may pass on the channel: it is open and no close request was sent for it.
    pub open spec fn passes(self, channel_id: ChannelId) -> bool {
        self.open.contains_key(channel_id.value)
            && self.open[channel_id.value].status is NotAwaitingCloseResponse
    }

    /// Why a request of the peer to open the channel is refused without asking the acceptor.
    pub open spec fn request_refusal(self, channel_id: ChannelId) -> Option<Seq<char>> {
        if self.open.contains_key(channel_id.value) {
            Some(channel_id_text(channel_id, "] is already open"@))
        } else if self.pending.contains_key(channel_id.value) {
            Some(channel_id_text(channel_id, "] is already pending"@))
        } else if self.status is ShuttingDown {
            Some("Peer mux is shutting down"@)
        } else {
            None
        }
    }

    /// Why a command of a local task to open the channel is refused.
    pub open spec fn command_refusal(self, channel_id: ChannelId) -> Option<Seq<char>> {
        if self.open.contains_key(channel_id.value) {
            Some(channel_id_text(channel_id, "] already open"@))
        } else if self.pending.contains_key(channel_id.value) {
            Some(channel_id_text(channel_id, "] already pending"@))
        } else if self.status is ShuttingDown {
            Some(channel_id_text(channel_id, "] cannot be opened. Mux is shutting down."@))
        } else {
            None
        }
    }

    /// The mux once the channel is open.
    pub open spec fn with_open(
        self,
        channel_id: ChannelId,
        channel_type: ChannelType,
        link: L,
    ) -> Self {
        MuxModel {
            open: self.open.insert(
                channel_id.value,
                OpenChannel {
                    channel_id,
                    channel_type,
                    status: OpenChannelStatus::NotAwaitingCloseResponse,
                    link,
                },
            ),
            ..self
        }
    }

    /// The mux once the channel is no longer open.
    pub open spec fn without_open(self, channel_id: ChannelId) -> Self {
        MuxModel { open: self.open.remove(channel_id.value), ..self }
    }

    /// The mux once the channel is no longer pending.
    pub open spec fn without_pending(self, channel_id: ChannelId) -> Self {
        MuxModel { pending: self.pending.remove(channel_id.value), ..self }
    }

    /// The mux once a close request was sent for the open channel.
    pub open spec fn with_close_requested(self, channel_id: ChannelId) -> Self {
        MuxModel {
            open: self.open.insert(
                channel_id.value,
                OpenChannel {
                    status: OpenChannelStatus::AwaitingCloseResponse,
                    ..self.open[channel_id.value]
                },
            ),
            ..self
        }
    }

    /// Whether the input opens a channel, and so takes the local end that came with it.
    pub open spec fn opens<C, T>(self, input: Input<R, C, L, T>) -> bool {
        match input {
            Input::OpenRequest { channel_id, answer, .. } => self.request_refusal(channel_id) is None
                && answer is Ok,
            Input::OpenResponse { channel_id, result, .. } => self.pending.contains_key(
                channel_id.value,
            ) && result is Ok,
            _ => false,
        }
    }

    /// The mux after the input.
    pub open spec fn next<C, T>(self, input: Input<R, C, L, T>) -> Self {
        match input {
            Input::OpenRequest { channel_id, channel_type, answer, fresh } => if self.opens(input) {
                self.with_open(channel_id, channel_type, fresh)
            } else {
                self
            },
            Input::OpenResponse { channel_id, result, fresh } => if self.opens(input) {
                self.without_pending(channel_id).with_open(
                    channel_id,
                    self.pending[channel_id.value].channel_type,
                    fresh,
                )
            } else {
                self.without_pending(channel_id)
            },
            Input::CloseRequest { channel_id } => if self.passes(channel_id) {
                self.without_open(channel_id)
            } else {
                self
            },
            Input::CloseResponse { channel_id } => if self.passes(channel_id) {
                self
            } else {
                self.without_open(channel_id)
            },
            Input::Incoming { .. } => self,
            Input::Outgoing { .. } => self,
            Input::OpenCommand { channel_id, channel_type, reply_tx } => if self.command_refusal(
                channel_id,
            ) is None {
                MuxModel {
                    pending: self.pending.insert(
                        channel_id.value,
                        PendingChannel { channel_id, channel_type, reply_tx },
                    ),
                    ..self
                }
            } else {
                self
            },
            Input::CloseCommand { channel_id, .. } => if self.passes(channel_id) {
                self.with_close_requested(channel_id)
            } else {
                self
            },
            Input::Shutdown => MuxModel {
                status: MuxStatus::ShuttingDown,
                pending: Map::empty(),
                ..self
            },
        }
    }

    /// What the mux does on every input but `Shutdown`, in order.
    pub open spec fn output<C, T>(self, input: Input<R, C, L, T>) -> Seq<EffectModel<R, C, L, T>> {
        match input {
            Input::OpenRequest { channel_id, channel_type, answer, .. } => match (
                self.request_refusal(channel_id),
                answer,
            ) {
                (Some(text), _) => seq![open_response(channel_id, Err(text))],
                (None, Err(text)) => seq![open_response(channel_id, Err(text))],
                (None, Ok(task)) => seq![
                    open_response(channel_id, Ok(())),
                    EffectModel::Start { channel_id, channel_type, task },
                ],
            },
            Input::OpenResponse { channel_id, result, .. } => if self.pending.contains_key(
                channel_id.value,
            ) {
                let pending = self.pending[channel_id.value];
                match result {
                    Ok(()) => seq![
                        EffectModel::ReplyOpened {
                            reply_tx: pending.reply_tx,
                            channel_id,
                            channel_type: pending.channel_type,
                        },
                    ],
                    Err(text) => seq![
                        EffectModel::ReplyOpenFailed {
                            reply_tx: pending.reply_tx,
                            error: "Failed to open channel ["@ + channel_text(
                                pending.channel_id,
                                pending.channel_type,
                            ) + "]: "@ + text,
                        },
                    ],
                }
            } else {
                seq![]
            },
            Input::CloseRequest { channel_id } => if self.passes(channel_id) {
                seq![
                    EffectModel::NotifyClosed { channel: self.open[channel_id.value] },
                    close_response(channel_id, Ok(())),
                ]
            } else if self.open.contains_key(channel_id.value) {
                seq![close_response(channel_id, Ok(()))]
            } else {
                seq![
                    close_response(
                        channel_id,
                        Err(channel_id_text(channel_id, "] not open"@)),
                    ),
                ]
            },
            Input::CloseResponse { channel_id } => if self.open.contains_key(channel_id.value)
                && !self.passes(channel_id) {
                seq![EffectModel::NotifyClosed { channel: self.open[channel_id.value] }]
            } else {
                seq![]
            },
            Input::Incoming { channel_id, message } => if self.passes(channel_id) {
                seq![EffectModel::Deliver { channel_id, message }]
            } else {
                seq![]
            },
            Input::Outgoing { frame } => if frame.channel_id.value == 0 || self.passes(
                frame.channel_id,
            ) {
                seq![EffectModel::SendFrame(frame@)]
            } else {
                seq![]
            },
            Input::OpenCommand { channel_id, channel_type, reply_tx } => match self.command_refusal(
                channel_id,
            ) {
                Some(text) => seq![EffectModel::ReplyOpenFailed { reply_tx, error: text }],
                None => seq![
                    EffectModel::SendFrame(
                        control_frame(
                            ControlModel::OpenChannelRequest { channel_id, channel_type },
                        ),
                    ),
                ],
            },
            Input::CloseCommand { channel_id, reply_tx } => if self.passes(channel_id) {
                seq![
                    EffectModel::ReplyClose {
                        reply_tx,
                        reply: CloseChannelCommandReply::ChannelClosed(channel_id),
                    },
                    EffectModel::SendFrame(
                        control_frame(ControlModel::CloseChannelRequest { channel_id }),
                    ),
                ]
            } else if self.open.contains_key(channel_id.value) {
                seq![
                    EffectModel::ReplyClose {
                        reply_tx,
                        reply: CloseChannelCommandReply::ChannelClosed(channel_id),
                    },
                ]
            } else {
                seq![
                    EffectModel::ReplyClose {
                        reply_tx,
                        reply: CloseChannelCommandReply::ChannelIdDoesNotExist(channel_id),
                    },
                ]
            },
            Input::Shutdown => seq![],
        }
    }

    /// The reply that a shutdown gives to the one who waits for the pending channel.
    pub open spec fn shutdown_refusal<C, T>(self, id: u128) -> EffectModel<R, C, L, T> {
        EffectModel::ReplyOpenFailed {
            reply_tx: self.pending[id].reply_tx,
            error: "Cannot open new channel. Mux is shutting down"@,
        }
    }

    /// Whether `effects` are what a shutdown does: it fails each pending channel once, in the order
    /// `refused`, and then asks for each open channel to be closed once, in the order `closing`.
    pub open spec fn shutdown_output<C, T>(
        self,
        refused: Seq<u128>,
        closing: Seq<ChannelId>,
        effects: Seq<EffectModel<R, C, L, T>>,
    ) -> bool {
        &&& lists_keys(self.pending.dom(), refused)
        &&& lists_keys(self.open.dom(), id_values(closing))
        &&& effects =~= refused.map_values(|id: u128| self.shutdown_refusal::<C, T>(id)).push(
            EffectModel::EnqueueClose { channel_ids: closing },
        )
    }

    /// Whether `effects` are what the mux does on the input. A shutdown goes through the tables in
    /// an order that is left open.
    pub open spec fn outputs<C, T>(
        self,
        input: Input<R, C, L, T>,
        effects: Seq<EffectModel<R, C, L, T>>,
    ) -> bool {
        if input is Shutdown {
            exists|refused: Seq<u128>, closing: Seq<ChannelId>| #[trigger]
                self.shutdown_output(refused, closing, effects)
        } else {
            effects =~= self.output(input)
        }
    }

    /// What is left of a local end that came with the input.
    pub open spec fn left_over<C, T>(self, input: Input<R, C, L, T>, fresh: L) -> Option<L> {
        if self.opens(input) {
            None
        } else {
            Some(fresh)
        }
    }
}

/// An acceptor's answer whose reason is a sequence of characters.
pub open spec fn answer_view<T>(answer: Result<T, String>) -> Result<T, Seq<char>> {
    match answer {
        Ok(task) => Ok(task),
        Err(text) => Err(text@),
    }
}

/// Whether a request of the peer to open a channel was handled: a refused request is answered with
/// the refusal and changes nothing; else the outcome is that of an answer which the acceptor may
/// give.
pub open spec fn open_request_handled<R, C, L, T, A: ChannelAcceptor<T>>(
    acceptor: A,
    channel_id: ChannelId,
    channel_type: ChannelType,
    fresh: L,
    pre: MuxModel<R, L>,
    post: MuxModel<R, L>,
    effects: Seq<EffectModel<R, C, L, T>>,
    left_over: Option<L>,
) -> bool {
    match pre.request_refusal(channel_id) {
        Some(text) => {
            &&& post == pre
            &&& effects =~= seq![open_response(channel_id, Err(text))]
            &&& left_over == Some(fresh)
        },
        None => exists|answer: Result<T, String>| #[trigger]
            acceptor.may_answer(channel_id, channel_type, answer) && {
                let input = Input::<R, C, L, T>::OpenRequest {
                    channel_id,
                    channel_type,
                    answer: answer_view(answer),
                    fresh,
                };
                &&& post == pre.next(input)
                &&& effects =~= pre.output(input)
                &&& left_over == pre.left_over(input, fresh)
            },
    }
}

/// The values of identifiers, in the same order.
pub open spec fn id_values(ids: Seq<ChannelId>) -> Seq<u128> {
    ids.map_values(|id: ChannelId| id.value)
}

/// Whether `keys` lists each key of `dom` exactly once.
pub open spec fn lists_keys(dom: Set<u128>, keys: Seq<u128>) -> bool {
    keys.no_duplicates() && keys.to_set() =~= dom
}

/// The answer to a request to open the channel.
pub open spec fn open_response<R, C, L, T>(
    channel_id: ChannelId,
    result: Result<(), Seq<char>>,
) -> EffectModel<R, C, L, T> {
    EffectModel::SendFrame(
        control_frame(ControlModel::OpenChannelResponse { channel_id, result }),
    )
}

/// The answer to a request to close the channel.
pub open spec fn close_response<R, C, L, T>(
    channel_id: ChannelId,
    result: Result<(), Seq<char>>,
) -> EffectModel<R, C, L, T> {
    EffectModel::SendFrame(
        control_frame(ControlModel::CloseChannelResponse { channel_id, result }),
    )
}

/// The input that a command of a local task is.
pub open spec fn command_input<R, C, L, T>(command: Command<R, C>) -> Input<R, C, L, T> {
    match command {
        Command::OpenChannel { channel_id, channel_type, reply_tx } => Input::OpenCommand {
            channel_id,
            channel_type,
            reply_tx,
        },
        Command::CloseChannel { channel_id, reply_tx } => Input::CloseCommand {
            channel_id,
            reply_tx,
        },
    }
}

/// The channel that the peer asks to open with a frame.
pub open spec fn requested_channel(frame: Frame) -> Option<(ChannelId, ChannelType)> {
    match frame.message {
        Message::Control(
            ControlMessage::OpenChannelRequest { channel_id, channel_type },
        ) if frame.channel_id.value == 0 => Some((channel_id, channel_type)),
        _ => None,
    }
}

/// The input that a frame from the peer is, where it does not ask to open a channel. `fresh` serves
/// the answer to such a request. Whatever does not belong on the control channel is a reason to
/// shut down.
pub open spec fn frame_input<R, C, L, T>(frame: Frame, fresh: L) -> Input<R, C, L, T> {
    if frame.channel_id.value != 0 {
        Input::Incoming { channel_id: frame.channel_id, message: frame.message }
    } else {
        match frame.message {
            Message::Control(ControlMessage::OpenChannelResponse { channel_id, result }) =>
                Input::OpenResponse { channel_id, result: result_view(result), fresh },
            Message::Control(ControlMessage::CloseChannelRequest { channel_id }) =>
                Input::CloseRequest { channel_id },
            Message::Control(ControlMessage::CloseChannelResponse { channel_id, .. }) =>
                Input::CloseResponse { channel_id },
            _ => Input::Shutdown,
        }
    }
}

/// Whether a frame from the peer was handled.
pub open spec fn frame_handled<R, C, L, T, A: ChannelAcceptor<T>>(
    acceptor: A,
    frame: Frame,
    fresh: L,
    pre: MuxModel<R, L>,
    post: MuxModel<R, L>,
    effects: Seq<EffectModel<R, C, L, T>>,
    left_over: Option<L>,
) -> bool {
    match requested_channel(frame) {
        Some((channel_id, channel_type)) => open_request_handled(
            acceptor,
            channel_id,
            channel_type,
            fresh,
            pre,
            post,
            effects,
            left_over,
        ),
        None => {
            let input = frame_input::<R, C, L, T>(frame, fresh);
            &&& post == pre.next(input)
            &&& pre.outputs(input, effects)
            &&& left_over == pre.left_over(input, fresh)
        },
    }
}

/// Whether the acceptor can be asked whatever the frame asks for. A request that the mux refuses
/// does not reach the acceptor.
pub open spec fn can_ask_for<R, L, T, A: ChannelAcceptor<T>>(
    acceptor: A,
    mux: MuxModel<R, L>,
    frame: Frame,
) -> bool {
    requested_channel(frame) matches Some((channel_id, channel_type)) ==> mux.request_refusal(
        channel_id,
    ) is None ==> acceptor.can_ask(channel_id, channel_type)
}

/// Whether an event of the run loop was handled. The loop ends where one of its sources has ended;
/// a cancellation counts once.
pub open spec fn event_handled<R, C, L, T, A: ChannelAcceptor<T>>(
    acceptor: A,
    event: Event<R, C>,
    fresh: L,
    pre: MuxModel<R, L>,
    post: MuxModel<R, L>,
    effects: Seq<EffectModel<R, C, L, T>>,
    left_over: Option<L>,
    proceed: bool,
) -> bool {
    match event {
        Event::IncomingFrame(Some(frame)) => {
            &&& proceed
            &&& frame_handled(acceptor, frame, fresh, pre, post, effects, left_over)
        },
        Event::Cancelled if pre.status is Running => {
            let input = Input::<R, C, L, T>::Shutdown;
            &&& proceed
            &&& post == pre.next(input)
            &&& pre.outputs(input, effects)
            &&& left_over == Some(fresh)
        },
        Event::OutgoingFrame(Some(frame)) => {
            let input = Input::<R, C, L, T>::Outgoing { frame };
            &&& proceed
            &&& post == pre
            &&& effects =~= pre.output(input)
            &&& left_over == Some(fresh)
        },
        Event::Command(Some(command)) => {
            let input = command_input::<R, C, L, T>(command);
            &&& proceed
            &&& post == pre.next(input)
            &&& effects =~= pre.output(input)
            &&& left_over == Some(fresh)
        },
        _ => {
            &&& proceed == (event is Cancelled)
            &&& post == pre
            &&& effects =~= seq![]
            &&& left_over == Some(fresh)
        },
    }
}

} // verus!
