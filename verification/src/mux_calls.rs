//! What calls of the mux come to, whatever way an input takes to it.

use vstd::prelude::*;

use crate::channel::{ChannelAcceptor, ChannelId, ChannelType};
use crate::codec::Frame;
use crate::ident::Uuid;
use crate::laws::law_shutdown_closes_every_channel;
use crate::message::{ControlMessage, Message};
use crate::model::{effects_view, Input};
use crate::mux::{
    incoming_frame, CloseChannelCommandReply, Command, Effect, Event, Mux, OpenChannel,
    OpenChannelStatus, PendingChannel, Step,
};

verus! {

/// The view of effects is that of each effect.
proof fn lemma_effects<R, C, L, T>(effects: Seq<Effect<R, C, L, T>>)
    ensures
        effects_view(effects).len() == effects.len(),
        forall|i: int|
            0 <= i < effects.len() ==> #[trigger] effects_view(effects)[i] == effects[i]@,
        forall|i: int|
            0 <= i < effects.len() ==> effects_view(effects)[i] == (#[trigger] effects[i])@,
{
}

/// A request to open a channel that is open already is answered with that reason, however the
/// request reaches the mux. Nothing else happens.
pub proof fn law_request_while_open_is_refused<R, C, L, T, A: ChannelAcceptor<T>>(
    mux: &mut Mux<R, L>,
    acceptor: A,
    frame: Frame,
    channel_id: ChannelId,
    channel_type: ChannelType,
    fresh: L,
    effects: Vec<Effect<R, C, L, T>>,
    left_over: Option<L>,
    id_text: String,
)
    requires
        ({
            ||| call_ensures(
                    Mux::<R, L>::handle_open_channel_request::<C, T, A>,
                    (mux, &acceptor, channel_id, channel_type, fresh),
                    (effects, left_over),
                )
            ||| call_ensures(
                    Mux::<R, L>::recv_incoming_frame::<C, T, A>,
                    (mux, &acceptor, frame, fresh),
                    (effects, left_over),
                )
            ||| call_ensures(
                    Mux::<R, L>::run::<C, T, A>,
                    (mux, &acceptor, Event::IncomingFrame(Some(frame)), fresh),
                    Step { effects, left_over, proceed: true },
                )
        }),
        frame.channel_id.value == 0,
        frame.message == Message::Control(
            ControlMessage::OpenChannelRequest { channel_id, channel_type },
        ),
        call_ensures(Uuid::to_string, (&channel_id,), id_text),
        old(mux)@.open.contains_key(channel_id.value),
    ensures
        final(mux)@ == old(mux)@,
        left_over == Some(fresh),
        effects@.len() == 1,
        effects@[0] matches Effect::SendFrame(
            Frame {
                channel_id: on,
                message: Message::Control(
                    ControlMessage::OpenChannelResponse { channel_id: answered, result: Err(reason) },
                ),
            },
        ) && on.value == 0 && answered == channel_id && reason@
            == "Channel ID ["@ + id_text@ + "] is already open"@,
{
    lemma_effects(effects@);
}

/// A request to open a channel that is pending is answered with that reason. Nothing else happens.
pub proof fn law_request_while_pending_is_refused<R, C, L, T, A: ChannelAcceptor<T>>(
    mux: &mut Mux<R, L>,
    acceptor: A,
    frame: Frame,
    channel_id: ChannelId,
    channel_type: ChannelType,
    fresh: L,
    effects: Vec<Effect<R, C, L, T>>,
    left_over: Option<L>,
    id_text: String,
)
    requires
        ({
            ||| call_ensures(
                    Mux::<R, L>::handle_open_channel_request::<C, T, A>,
                    (mux, &acceptor, channel_id, channel_type, fresh),
                    (effects, left_over),
                )
            ||| call_ensures(
                    Mux::<R, L>::recv_incoming_frame::<C, T, A>,
                    (mux, &acceptor, frame, fresh),
                    (effects, left_over),
                )
            ||| call_ensures(
                    Mux::<R, L>::run::<C, T, A>,
                    (mux, &acceptor, Event::IncomingFrame(Some(frame)), fresh),
                    Step { effects, left_over, proceed: true },
                )
        }),
        frame.channel_id.value == 0,
        frame.message == Message::Control(
            ControlMessage::OpenChannelRequest { channel_id, channel_type },
        ),
        call_ensures(Uuid::to_string, (&channel_id,), id_text),
        !old(mux)@.open.contains_key(channel_id.value),
        old(mux)@.pending.contains_key(channel_id.value),
    ensures
        final(mux)@ == old(mux)@,
        left_over == Some(fresh),
        effects@.len() == 1,
        effects@[0] matches Effect::SendFrame(
            Frame {
                channel_id: on,
                message: Message::Control(
                    ControlMessage::OpenChannelResponse { channel_id: answered, result: Err(reason) },
                ),
            },
        ) && on.value == 0 && answered == channel_id && reason@
            == "Channel ID ["@ + id_text@ + "] is already pending"@,
{
    lemma_effects(effects@);
}

/// A request to open a new channel while the mux shuts down is answered with that reason. Nothing
/// else happens.
pub proof fn law_request_while_shutting_down_is_refused<R, C, L, T, A: ChannelAcceptor<T>>(
    mux: &mut Mux<R, L>,
    acceptor: A,
    frame: Frame,
    channel_id: ChannelId,
    channel_type: ChannelType,
    fresh: L,
    effects: Vec<Effect<R, C, L, T>>,
    left_over: Option<L>,
    id_text: String,
)
    requires
        ({
            ||| call_ensures(
                    Mux::<R, L>::handle_open_channel_request::<C, T, A>,
                    (mux, &acceptor, channel_id, channel_type, fresh),
                    (effects, left_over),
                )
            ||| call_ensures(
                    Mux::<R, L>::recv_incoming_frame::<C, T, A>,
                    (mux, &acceptor, frame, fresh),
                    (effects, left_over),
                )
            ||| call_ensures(
                    Mux::<R, L>::run::<C, T, A>,
                    (mux, &acceptor, Event::IncomingFrame(Some(frame)), fresh),
                    Step { effects, left_over, proceed: true },
                )
        }),
        frame.channel_id.value == 0,
        frame.message == Message::Control(
            ControlMessage::OpenChannelRequest { channel_id, channel_type },
        ),
        call_ensures(Uuid::to_string, (&channel_id,), id_text),
        !old(mux)@.open.contains_key(channel_id.value),
        !old(mux)@.pending.contains_key(channel_id.value),
        old(mux)@.status is ShuttingDown,
    ensures
        final(mux)@ == old(mux)@,
        left_over == Some(fresh),
        effects@.len() == 1,
        effects@[0] matches Effect::SendFrame(
            Frame {
                channel_id: on,
                message: Message::Control(
                    ControlMessage::OpenChannelResponse { channel_id: answered, result: Err(reason) },
                ),
            },
        ) && on.value == 0 && answered == channel_id && reason@
            == "Peer mux is shutting down"@,
{
    lemma_effects(effects@);
}

/// A running mux that does not know the channel leaves it to the acceptor, whatever the type of the
/// channel: it does what an answer that the acceptor may give calls for. On `Ok` the channel is open,
/// the peer is told so, and then the task starts. On `Err` the peer is told the reason.
pub proof fn law_acceptor_decides<R, C, L, T, A: ChannelAcceptor<T>>(
    mux: &mut Mux<R, L>,
    acceptor: A,
    frame: Frame,
    channel_id: ChannelId,
    channel_type: ChannelType,
    fresh: L,
    effects: Vec<Effect<R, C, L, T>>,
    left_over: Option<L>,
)
    requires
        ({
            ||| call_ensures(
                    Mux::<R, L>::handle_open_channel_request::<C, T, A>,
                    (mux, &acceptor, channel_id, channel_type, fresh),
                    (effects, left_over),
                )
            ||| call_ensures(
                    Mux::<R, L>::recv_incoming_frame::<C, T, A>,
                    (mux, &acceptor, frame, fresh),
                    (effects, left_over),
                )
            ||| call_ensures(
                    Mux::<R, L>::run::<C, T, A>,
                    (mux, &acceptor, Event::IncomingFrame(Some(frame)), fresh),
                    Step { effects, left_over, proceed: true },
                )
        }),
        frame.channel_id.value == 0,
        frame.message == Message::Control(
            ControlMessage::OpenChannelRequest { channel_id, channel_type },
        ),
        old(mux)@.status is Running,
        !old(mux)@.open.contains_key(channel_id.value),
        !old(mux)@.pending.contains_key(channel_id.value),
    ensures
        exists|answer: Result<T, String>| #[trigger]
            acceptor.may_answer(channel_id, channel_type, answer) && match answer {
                Ok(task) => {
                    &&& effects@.len() == 2
                    &&& effects@[0] matches Effect::SendFrame(
                        Frame {
                            channel_id: on,
                            message: Message::Control(
                                ControlMessage::OpenChannelResponse { channel_id: answered, result: Ok(()) },
                            ),
                        },
                    ) && on.value == 0 && answered == channel_id
                    &&& effects@[1] == (Effect::<R, C, L, T>::Start { channel_id, channel_type, task })
                    &&& final(mux)@.open == old(mux)@.open.insert(
                        channel_id.value,
                        OpenChannel {
                            channel_id,
                            channel_type,
                            status: OpenChannelStatus::NotAwaitingCloseResponse,
                            link: fresh,
                        },
                    )
                    &&& final(mux)@.pending == old(mux)@.pending
                    &&& final(mux)@.status == old(mux)@.status
                    &&& left_over is None
                },
                Err(reason) => {
                    &&& effects@.len() == 1
                    &&& effects@[0] matches Effect::SendFrame(
                        Frame {
                            channel_id: on,
                            message: Message::Control(
                                ControlMessage::OpenChannelResponse { channel_id: answered, result: Err(told) },
                            ),
                        },
                    ) && on.value == 0 && answered == channel_id && told@ == reason@
                    &&& final(mux)@ == old(mux)@
                    &&& left_over == Some(fresh)
                },
            },
{
    lemma_effects(effects@);
}

/// Where the acceptor can only accept, the channel opens and its task starts; where it can only
/// reject, nothing opens.
pub proof fn law_acceptor_has_the_last_word<R, C, L, T, A: ChannelAcceptor<T>>(
    mux: &mut Mux<R, L>,
    acceptor: A,
    frame: Frame,
    channel_id: ChannelId,
    channel_type: ChannelType,
    fresh: L,
    effects: Vec<Effect<R, C, L, T>>,
    left_over: Option<L>,
)
    requires
        ({
            ||| call_ensures(
                    Mux::<R, L>::handle_open_channel_request::<C, T, A>,
                    (mux, &acceptor, channel_id, channel_type, fresh),
                    (effects, left_over),
                )
            ||| call_ensures(
                    Mux::<R, L>::recv_incoming_frame::<C, T, A>,
                    (mux, &acceptor, frame, fresh),
                    (effects, left_over),
                )
            ||| call_ensures(
                    Mux::<R, L>::run::<C, T, A>,
                    (mux, &acceptor, Event::IncomingFrame(Some(frame)), fresh),
                    Step { effects, left_over, proceed: true },
                )
        }),
        frame.channel_id.value == 0,
        frame.message == Message::Control(
            ControlMessage::OpenChannelRequest { channel_id, channel_type },
        ),
        old(mux)@.status is Running,
        !old(mux)@.open.contains_key(channel_id.value),
        !old(mux)@.pending.contains_key(channel_id.value),
    ensures
        (forall|answer: Result<T, String>| #[trigger]
            acceptor.may_answer(channel_id, channel_type, answer) ==> answer is Ok) ==> {
            &&& final(mux)@.open.contains_key(channel_id.value)
            &&& final(mux)@.open[channel_id.value].status is NotAwaitingCloseResponse
            &&& final(mux)@.open[channel_id.value].channel_type == channel_type
            &&& final(mux)@.open[channel_id.value].link == fresh
            &&& effects@.len() == 2
            &&& effects@[0] matches Effect::SendFrame(
                Frame {
                    message: Message::Control(
                        ControlMessage::OpenChannelResponse { channel_id: answered, result: Ok(()) },
                    ),
                    ..
                },
            ) && answered == channel_id
            &&& effects@[1] is Start
        },
        (forall|answer: Result<T, String>| #[trigger]
            acceptor.may_answer(channel_id, channel_type, answer) ==> answer is Err) ==> {
            &&& final(mux)@ == old(mux)@
            &&& effects@.len() == 1
            &&& effects@[0] matches Effect::SendFrame(
                Frame {
                    message: Message::Control(
                        ControlMessage::OpenChannelResponse { channel_id: answered, result: Err(_) },
                    ),
                    ..
                },
            ) && answered == channel_id
        },
{
    law_acceptor_decides(
        mux,
        acceptor,
        frame,
        channel_id,
        channel_type,
        fresh,
        effects,
        left_over,
    );
}

/// Acting on an answer of the acceptor does what the answer calls for.
pub proof fn law_answer_is_carried_out<R, C, L, T>(
    mux: &mut Mux<R, L>,
    channel_id: ChannelId,
    channel_type: ChannelType,
    answer: Result<T, String>,
    fresh: L,
    effects: Vec<Effect<R, C, L, T>>,
    left_over: Option<L>,
)
    requires
        call_ensures(
            Mux::<R, L>::answer_open_channel_request::<C, T>,
            (mux, channel_id, channel_type, answer, fresh),
            (effects, left_over),
        ),
        old(mux)@.status is Running,
        !old(mux)@.open.contains_key(channel_id.value),
        !old(mux)@.pending.contains_key(channel_id.value),
    ensures
        match answer {
            Ok(task) => {
                &&& effects@.len() == 2
                &&& effects@[0] matches Effect::SendFrame(
                    Frame {
                        channel_id: on,
                        message: Message::Control(
                            ControlMessage::OpenChannelResponse { channel_id: answered, result: Ok(()) },
                        ),
                    },
                ) && on.value == 0 && answered == channel_id
                &&& effects@[1] == (Effect::<R, C, L, T>::Start { channel_id, channel_type, task })
                &&& final(mux)@.open == old(mux)@.open.insert(
                    channel_id.value,
                    OpenChannel {
                        channel_id,
                        channel_type,
                        status: OpenChannelStatus::NotAwaitingCloseResponse,
                        link: fresh,
                    },
                )
                &&& final(mux)@.pending == old(mux)@.pending
                &&& final(mux)@.status == old(mux)@.status
                &&& left_over is None
            },
            Err(reason) => {
                &&& effects@.len() == 1
                &&& effects@[0] matches Effect::SendFrame(
                    Frame {
                        channel_id: on,
                        message: Message::Control(
                            ControlMessage::OpenChannelResponse { channel_id: answered, result: Err(told) },
                        ),
                    },
                ) && on.value == 0 && answered == channel_id && told@ == reason@
                &&& final(mux)@ == old(mux)@
                &&& left_over == Some(fresh)
            },
        },
{
    lemma_effects(effects@);
}

/// Why a request to open a channel is refused: that it is open, else that it is pending, else that
/// the mux shuts down; else it is not refused.
pub proof fn law_refusal_names_the_reason<R, L>(
    mux: Mux<R, L>,
    channel_id: ChannelId,
    refusal: Option<String>,
    id_text: String,
)
    requires
        call_ensures(Mux::<R, L>::refuse_open_channel_request, (&mux, channel_id), refusal),
        call_ensures(Uuid::to_string, (&channel_id,), id_text),
    ensures
        if mux@.open.contains_key(channel_id.value) {
            refusal matches Some(text) && text@ == "Channel ID ["@ + id_text@ + "] is already open"@
        } else if mux@.pending.contains_key(channel_id.value) {
            refusal matches Some(text) && text@ == "Channel ID ["@ + id_text@ + "] is already pending"@
        } else if mux@.status is ShuttingDown {
            refusal matches Some(text) && text@ == "Peer mux is shutting down"@
        } else {
            refusal is None
        },
{
}

/// When the peer says that a pending channel is open, it is open here too, with the type that was
/// asked for, and the one who asked is told so through the handle that came with the command.
pub proof fn law_accepted_channel_is_handed_out<R, C, L, T, A: ChannelAcceptor<T>>(
    mux: &mut Mux<R, L>,
    acceptor: A,
    frame: Frame,
    channel_id: ChannelId,
    result: Result<(), String>,
    fresh: L,
    effects: Vec<Effect<R, C, L, T>>,
    left_over: Option<L>,
)
    requires
        ({
            ||| call_ensures(
                    Mux::<R, L>::handle_open_channel_response::<C, T>,
                    (mux, channel_id, result, fresh),
                    (effects, left_over),
                )
            ||| call_ensures(
                    Mux::<R, L>::recv_incoming_frame::<C, T, A>,
                    (mux, &acceptor, frame, fresh),
                    (effects, left_over),
                )
            ||| call_ensures(
                    Mux::<R, L>::run::<C, T, A>,
                    (mux, &acceptor, Event::IncomingFrame(Some(frame)), fresh),
                    Step { effects, left_over, proceed: true },
                )
        }),
        frame.channel_id.value == 0,
        frame.message == Message::Control(
            ControlMessage::OpenChannelResponse { channel_id, result },
        ),
        old(mux)@.pending.contains_key(channel_id.value),
        result is Ok,
    ensures
        effects@ == seq![
            Effect::<R, C, L, T>::ReplyOpened {
                reply_tx: old(mux)@.pending[channel_id.value].reply_tx,
                channel_id,
                channel_type: old(mux)@.pending[channel_id.value].channel_type,
            },
        ],
        final(mux)@.open == old(mux)@.open.insert(
            channel_id.value,
            OpenChannel {
                channel_id,
                channel_type: old(mux)@.pending[channel_id.value].channel_type,
                status: OpenChannelStatus::NotAwaitingCloseResponse,
                link: fresh,
            },
        ),
        final(mux)@.pending == old(mux)@.pending.remove(channel_id.value),
        final(mux)@.status == old(mux)@.status,
        left_over is None,
{
    lemma_effects(effects@);
}

/// When the peer says that a pending channel is not opened, it is pending no longer, and the one who
/// asked is told the peer's reason.
pub proof fn law_rejected_channel_is_explained<R, C, L, T, A: ChannelAcceptor<T>>(
    mux: &mut Mux<R, L>,
    acceptor: A,
    frame: Frame,
    channel_id: ChannelId,
    result: Result<(), String>,
    fresh: L,
    effects: Vec<Effect<R, C, L, T>>,
    left_over: Option<L>,
    id_text: String,
    type_text: &'static str,
)
    requires
        ({
            ||| call_ensures(
                    Mux::<R, L>::handle_open_channel_response::<C, T>,
                    (mux, channel_id, result, fresh),
                    (effects, left_over),
                )
            ||| call_ensures(
                    Mux::<R, L>::recv_incoming_frame::<C, T, A>,
                    (mux, &acceptor, frame, fresh),
                    (effects, left_over),
                )
            ||| call_ensures(
                    Mux::<R, L>::run::<C, T, A>,
                    (mux, &acceptor, Event::IncomingFrame(Some(frame)), fresh),
                    Step { effects, left_over, proceed: true },
                )
        }),
        frame.channel_id.value == 0,
        frame.message == Message::Control(
            ControlMessage::OpenChannelResponse { channel_id, result },
        ),
        old(mux)@.pending.contains_key(channel_id.value),
        result is Err,
        call_ensures(
            Uuid::to_string,
            (&old(mux)@.pending[channel_id.value].channel_id,),
            id_text,
        ),
        call_ensures(
            ChannelType::as_str,
            (&old(mux)@.pending[channel_id.value].channel_type,),
            type_text,
        ),
    ensures
        effects@.len() == 1,
        effects@[0] matches Effect::ReplyOpenFailed { reply_tx, error } && reply_tx
            == old(mux)@.pending[channel_id.value].reply_tx && error.0@
            == "Failed to open channel ["@ + ("Channel(channel_id="@ + id_text@ + ", channel_type="@
            + type_text@ + ")"@) + "]: "@ + result->Err_0@,
        final(mux)@.open == old(mux)@.open,
        final(mux)@.pending == old(mux)@.pending.remove(channel_id.value),
        final(mux)@.status == old(mux)@.status,
        left_over == Some(fresh),
{
    lemma_effects(effects@);
}

/// An answer about a channel that is not pending changes nothing, and nothing is done.
pub proof fn law_unasked_open_response_changes_nothing<R, C, L, T, A: ChannelAcceptor<T>>(
    mux: &mut Mux<R, L>,
    acceptor: A,
    frame: Frame,
    channel_id: ChannelId,
    result: Result<(), String>,
    fresh: L,
    effects: Vec<Effect<R, C, L, T>>,
    left_over: Option<L>,
)
    requires
        ({
            ||| call_ensures(
                    Mux::<R, L>::handle_open_channel_response::<C, T>,
                    (mux, channel_id, result, fresh),
                    (effects, left_over),
                )
            ||| call_ensures(
                    Mux::<R, L>::recv_incoming_frame::<C, T, A>,
                    (mux, &acceptor, frame, fresh),
                    (effects, left_over),
                )
            ||| call_ensures(
                    Mux::<R, L>::run::<C, T, A>,
                    (mux, &acceptor, Event::IncomingFrame(Some(frame)), fresh),
                    Step { effects, left_over, proceed: true },
                )
        }),
        frame.channel_id.value == 0,
        frame.message == Message::Control(
            ControlMessage::OpenChannelResponse { channel_id, result },
        ),
        !old(mux)@.pending.contains_key(channel_id.value),
    ensures
        final(mux)@.open == old(mux)@.open,
        final(mux)@.pending =~= old(mux)@.pending,
        final(mux)@.status == old(mux)@.status,
        effects@.len() == 0,
        left_over == Some(fresh),
{
    lemma_effects(effects@);
}

/// A request to close an open channel closes it: those who wait for its end are told, and then the
/// peer.
pub proof fn law_requested_close_is_done<R, C, L, T, A: ChannelAcceptor<T>>(
    mux: &mut Mux<R, L>,
    acceptor: A,
    frame: Frame,
    channel_id: ChannelId,
    fresh: L,
    effects: Vec<Effect<R, C, L, T>>,
    left_over: Option<L>,
)
    requires
        ({
            ||| call_ensures(
                    Mux::<R, L>::handle_close_channel_request::<C, T>,
                    (mux, channel_id),
                    effects,
                ) && left_over == Some(fresh)
            ||| call_ensures(
                    Mux::<R, L>::recv_incoming_frame::<C, T, A>,
                    (mux, &acceptor, frame, fresh),
                    (effects, left_over),
                )
            ||| call_ensures(
                    Mux::<R, L>::run::<C, T, A>,
                    (mux, &acceptor, Event::IncomingFrame(Some(frame)), fresh),
                    Step { effects, left_over, proceed: true },
                )
        }),
        frame.channel_id.value == 0,
        frame.message == Message::Control(
            ControlMessage::CloseChannelRequest { channel_id },
        ),
        old(mux)@.open.contains_key(channel_id.value),
        old(mux)@.open[channel_id.value].status is NotAwaitingCloseResponse,
    ensures
        effects@.len() == 2,
        effects@[0] == (Effect::<R, C, L, T>::NotifyClosed {
            channel: old(mux)@.open[channel_id.value],
        }),
        effects@[1] matches Effect::SendFrame(
            Frame {
                channel_id: on,
                message: Message::Control(
                    ControlMessage::CloseChannelResponse { channel_id: answered, result: Ok(()) },
                ),
            },
        ) && on.value == 0 && answered == channel_id,
        final(mux)@.open == old(mux)@.open.remove(channel_id.value),
        final(mux)@.pending == old(mux)@.pending,
        final(mux)@.status == old(mux)@.status,
        left_over == Some(fresh),
{
    lemma_effects(effects@);
}

/// A request to close a channel that this side is closing too is answered, and the channel is kept
/// until the peer answers.
pub proof fn law_crossing_close_is_answered<R, C, L, T, A: ChannelAcceptor<T>>(
    mux: &mut Mux<R, L>,
    acceptor: A,
    frame: Frame,
    channel_id: ChannelId,
    fresh: L,
    effects: Vec<Effect<R, C, L, T>>,
    left_over: Option<L>,
)
    requires
        ({
            ||| call_ensures(
                    Mux::<R, L>::handle_close_channel_request::<C, T>,
                    (mux, channel_id),
                    effects,
                ) && left_over == Some(fresh)
            ||| call_ensures(
                    Mux::<R, L>::recv_incoming_frame::<C, T, A>,
                    (mux, &acceptor, frame, fresh),
                    (effects, left_over),
                )
            ||| call_ensures(
                    Mux::<R, L>::run::<C, T, A>,
                    (mux, &acceptor, Event::IncomingFrame(Some(frame)), fresh),
                    Step { effects, left_over, proceed: true },
                )
        }),
        frame.channel_id.value == 0,
        frame.message == Message::Control(
            ControlMessage::CloseChannelRequest { channel_id },
        ),
        old(mux)@.open.contains_key(channel_id.value),
        old(mux)@.open[channel_id.value].status is AwaitingCloseResponse,
    ensures
        effects@.len() == 1,
        effects@[0] matches Effect::SendFrame(
            Frame {
                channel_id: on,
                message: Message::Control(
                    ControlMessage::CloseChannelResponse { channel_id: answered, result: Ok(()) },
                ),
            },
        ) && on.value == 0 && answered == channel_id,
        final(mux)@.open =~= old(mux)@.open,
        final(mux)@.pending == old(mux)@.pending,
        final(mux)@.status == old(mux)@.status,
        left_over == Some(fresh),
{
    lemma_effects(effects@);
}

/// A request to close a channel that is not open is answered with that reason.
pub proof fn law_close_of_unknown_channel_is_refused<R, C, L, T, A: ChannelAcceptor<T>>(
    mux: &mut Mux<R, L>,
    acceptor: A,
    frame: Frame,
    channel_id: ChannelId,
    fresh: L,
    effects: Vec<Effect<R, C, L, T>>,
    left_over: Option<L>,
    id_text: String,
)
    requires
        ({
            ||| call_ensures(
                    Mux::<R, L>::handle_close_channel_request::<C, T>,
                    (mux, channel_id),
                    effects,
                ) && left_over == Some(fresh)
            ||| call_ensures(
                    Mux::<R, L>::recv_incoming_frame::<C, T, A>,
                    (mux, &acceptor, frame, fresh),
                    (effects, left_over),
                )
            ||| call_ensures(
                    Mux::<R, L>::run::<C, T, A>,
                    (mux, &acceptor, Event::IncomingFrame(Some(frame)), fresh),
                    Step { effects, left_over, proceed: true },
                )
        }),
        frame.channel_id.value == 0,
        frame.message == Message::Control(
            ControlMessage::CloseChannelRequest { channel_id },
        ),
        !old(mux)@.open.contains_key(channel_id.value),
        call_ensures(Uuid::to_string, (&channel_id,), id_text),
    ensures
        effects@.len() == 1,
        effects@[0] matches Effect::SendFrame(
            Frame {
                channel_id: on,
                message: Message::Control(
                    ControlMessage::CloseChannelResponse { channel_id: answered, result: Err(reason) },
                ),
            },
        ) && on.value == 0 && answered == channel_id && reason@ == "Channel ID ["@ + id_text@
            + "] not open"@,
        final(mux)@.open =~= old(mux)@.open,
        final(mux)@.pending == old(mux)@.pending,
        final(mux)@.status == old(mux)@.status,
        left_over == Some(fresh),
{
    lemma_effects(effects@);
}

/// The answer to a close request ends the channel, whatever it says, and those who wait for its end
/// are told.
pub proof fn law_answered_close_ends_the_channel<R, C, L, T, A: ChannelAcceptor<T>>(
    mux: &mut Mux<R, L>,
    acceptor: A,
    frame: Frame,
    channel_id: ChannelId,
    result: Result<(), String>,
    fresh: L,
    effects: Vec<Effect<R, C, L, T>>,
    left_over: Option<L>,
)
    requires
        ({
            ||| call_ensures(
                    Mux::<R, L>::handle_close_channel_response::<C, T>,
                    (mux, channel_id, result),
                    effects,
                ) && left_over == Some(fresh)
            ||| call_ensures(
                    Mux::<R, L>::recv_incoming_frame::<C, T, A>,
                    (mux, &acceptor, frame, fresh),
                    (effects, left_over),
                )
            ||| call_ensures(
                    Mux::<R, L>::run::<C, T, A>,
                    (mux, &acceptor, Event::IncomingFrame(Some(frame)), fresh),
                    Step { effects, left_over, proceed: true },
                )
        }),
        frame.channel_id.value == 0,
        frame.message == Message::Control(
            ControlMessage::CloseChannelResponse { channel_id, result },
        ),
        old(mux)@.open.contains_key(channel_id.value),
        old(mux)@.open[channel_id.value].status is AwaitingCloseResponse,
    ensures
        effects@ == seq![
            Effect::<R, C, L, T>::NotifyClosed { channel: old(mux)@.open[channel_id.value] },
        ],
        final(mux)@.open == old(mux)@.open.remove(channel_id.value),
        final(mux)@.pending == old(mux)@.pending,
        final(mux)@.status == old(mux)@.status,
        left_over == Some(fresh),
{
    lemma_effects(effects@);
}

/// An answer to a close request that was not sent changes nothing.
pub proof fn law_unasked_close_response_is_ignored<R, C, L, T, A: ChannelAcceptor<T>>(
    mux: &mut Mux<R, L>,
    acceptor: A,
    frame: Frame,
    channel_id: ChannelId,
    result: Result<(), String>,
    fresh: L,
    effects: Vec<Effect<R, C, L, T>>,
    left_over: Option<L>,
)
    requires
        ({
            ||| call_ensures(
                    Mux::<R, L>::handle_close_channel_response::<C, T>,
                    (mux, channel_id, result),
                    effects,
                ) && left_over == Some(fresh)
            ||| call_ensures(
                    Mux::<R, L>::recv_incoming_frame::<C, T, A>,
                    (mux, &acceptor, frame, fresh),
                    (effects, left_over),
                )
            ||| call_ensures(
                    Mux::<R, L>::run::<C, T, A>,
                    (mux, &acceptor, Event::IncomingFrame(Some(frame)), fresh),
                    Step { effects, left_over, proceed: true },
                )
        }),
        frame.channel_id.value == 0,
        frame.message == Message::Control(
            ControlMessage::CloseChannelResponse { channel_id, result },
        ),
        !old(mux)@.open.contains_key(channel_id.value) || old(
            mux,
        )@.open[channel_id.value].status is NotAwaitingCloseResponse,
    ensures
        effects@.len() == 0,
        final(mux)@.open =~= old(mux)@.open,
        final(mux)@.pending == old(mux)@.pending,
        final(mux)@.status == old(mux)@.status,
        left_over == Some(fresh),
{
    lemma_effects(effects@);
}

/// Every message that arrives on an open channel is delivered to that channel as it is, whatever it
/// is, and nothing else is done.
pub proof fn law_every_message_is_delivered<R, C, L, T, A: ChannelAcceptor<T>>(
    mux: &mut Mux<R, L>,
    acceptor: A,
    frame: Frame,
    fresh: L,
    effects: Vec<Effect<R, C, L, T>>,
    left_over: Option<L>,
)
    requires
        ({
            ||| call_ensures(
                    Mux::<R, L>::dispatch_message::<C, T>,
                    (mux, frame.channel_id, frame.message),
                    effects,
                ) && left_over == Some(fresh) && *final(mux) == *old(mux)
            ||| call_ensures(
                    Mux::<R, L>::recv_incoming_frame::<C, T, A>,
                    (mux, &acceptor, frame, fresh),
                    (effects, left_over),
                )
            ||| call_ensures(
                    Mux::<R, L>::run::<C, T, A>,
                    (mux, &acceptor, Event::IncomingFrame(Some(frame)), fresh),
                    Step { effects, left_over, proceed: true },
                )
        }),
        frame.channel_id.value != 0,
        old(mux)@.open.contains_key(frame.channel_id.value),
        old(mux)@.open[frame.channel_id.value].status is NotAwaitingCloseResponse,
    ensures
        effects@ == seq![
            Effect::<R, C, L, T>::Deliver { channel_id: frame.channel_id, message: frame.message },
        ],
        final(mux)@ == old(mux)@,
        left_over == Some(fresh),
{
    lemma_effects(effects@);
}

/// A message for a channel that is not open, or that this side is closing, is dropped.
pub proof fn law_other_messages_are_dropped<R, C, L, T, A: ChannelAcceptor<T>>(
    mux: &mut Mux<R, L>,
    acceptor: A,
    frame: Frame,
    fresh: L,
    effects: Vec<Effect<R, C, L, T>>,
    left_over: Option<L>,
)
    requires
        ({
            ||| call_ensures(
                    Mux::<R, L>::dispatch_message::<C, T>,
                    (mux, frame.channel_id, frame.message),
                    effects,
                ) && left_over == Some(fresh) && *final(mux) == *old(mux)
            ||| call_ensures(
                    Mux::<R, L>::recv_incoming_frame::<C, T, A>,
                    (mux, &acceptor, frame, fresh),
                    (effects, left_over),
                )
            ||| call_ensures(
                    Mux::<R, L>::run::<C, T, A>,
                    (mux, &acceptor, Event::IncomingFrame(Some(frame)), fresh),
                    Step { effects, left_over, proceed: true },
                )
        }),
        frame.channel_id.value != 0,
        !old(mux)@.open.contains_key(frame.channel_id.value) || old(
            mux,
        )@.open[frame.channel_id.value].status is AwaitingCloseResponse,
    ensures
        effects@.len() == 0,
        final(mux)@ == old(mux)@,
        left_over == Some(fresh),
{
    lemma_effects(effects@);
}

/// Every frame of an open channel, and every frame of the control channel, goes to the peer as it
/// is, whatever its message is, and nothing else is done.
pub proof fn law_every_frame_is_sent<R, C, L, T, A: ChannelAcceptor<T>>(
    mux: &mut Mux<R, L>,
    acceptor: A,
    frame: Frame,
    fresh: L,
    effects: Vec<Effect<R, C, L, T>>,
    left_over: Option<L>,
)
    requires
        ({
            ||| call_ensures(Mux::<R, L>::send_outgoing_frame::<C, T>, (mux, frame), effects)
                    && left_over == Some(fresh) && *final(mux) == *old(mux)
            ||| call_ensures(
                    Mux::<R, L>::run::<C, T, A>,
                    (mux, &acceptor, Event::OutgoingFrame(Some(frame)), fresh),
                    Step { effects, left_over, proceed: true },
                )
        }),
        frame.channel_id.value == 0 || (old(mux)@.open.contains_key(frame.channel_id.value) && old(
            mux,
        )@.open[frame.channel_id.value].status is NotAwaitingCloseResponse),
    ensures
        effects@ == seq![Effect::<R, C, L, T>::SendFrame(frame)],
        final(mux)@ == old(mux)@,
        left_over == Some(fresh),
{
    lemma_effects(effects@);
}

/// A frame of another channel that is not open, or that this side is closing, is dropped.
pub proof fn law_other_frames_are_dropped<R, C, L, T, A: ChannelAcceptor<T>>(
    mux: &mut Mux<R, L>,
    acceptor: A,
    frame: Frame,
    fresh: L,
    effects: Vec<Effect<R, C, L, T>>,
    left_over: Option<L>,
)
    requires
        ({
            ||| call_ensures(Mux::<R, L>::send_outgoing_frame::<C, T>, (mux, frame), effects)
                    && left_over == Some(fresh) && *final(mux) == *old(mux)
            ||| call_ensures(
                    Mux::<R, L>::run::<C, T, A>,
                    (mux, &acceptor, Event::OutgoingFrame(Some(frame)), fresh),
                    Step { effects, left_over, proceed: true },
                )
        }),
        frame.channel_id.value != 0,
        !old(mux)@.open.contains_key(frame.channel_id.value) || old(
            mux,
        )@.open[frame.channel_id.value].status is AwaitingCloseResponse,
    ensures
        effects@.len() == 0,
        final(mux)@ == old(mux)@,
        left_over == Some(fresh),
{
    lemma_effects(effects@);
}

/// A command to open a channel that is not known asks the peer for exactly that channel with exactly
/// that type, and the channel is pending with that type and the handle for the reply.
pub proof fn law_open_command_asks_for_its_channel<R, C, L, T, A: ChannelAcceptor<T>>(
    mux: &mut Mux<R, L>,
    acceptor: A,
    channel_id: ChannelId,
    channel_type: ChannelType,
    reply_tx: R,
    fresh: L,
    effects: Vec<Effect<R, C, L, T>>,
    left_over: Option<L>,
)
    requires
        ({
            ||| call_ensures(
                    Mux::<R, L>::handle_open_channel_command::<C, T>,
                    (mux, channel_id, channel_type, reply_tx),
                    effects,
                ) && left_over == Some(fresh)
            ||| call_ensures(
                    Mux::<R, L>::handle_command::<C, T>,
                    (mux, Command::OpenChannel { channel_id, channel_type, reply_tx }),
                    effects,
                ) && left_over == Some(fresh)
            ||| call_ensures(
                    Mux::<R, L>::run::<C, T, A>,
                    (mux, &acceptor, Event::Command(Some(Command::OpenChannel { channel_id, channel_type, reply_tx })), fresh),
                    Step { effects, left_over, proceed: true },
                )
        }),
        old(mux)@.status is Running,
        !old(mux)@.open.contains_key(channel_id.value),
        !old(mux)@.pending.contains_key(channel_id.value),
    ensures
        effects@.len() == 1,
        effects@[0] matches Effect::SendFrame(
            Frame {
                channel_id: on,
                message: Message::Control(
                    ControlMessage::OpenChannelRequest { channel_id: asked_id, channel_type: asked_type },
                ),
            },
        ) && on.value == 0 && asked_id == channel_id && asked_type == channel_type,
        final(mux)@.pending == old(mux)@.pending.insert(
            channel_id.value,
            PendingChannel { channel_id, channel_type, reply_tx },
        ),
        final(mux)@.open == old(mux)@.open,
        final(mux)@.status == old(mux)@.status,
        left_over == Some(fresh),
{
    lemma_effects(effects@);
}

/// A command to open a channel that is open or pending already, or while the mux shuts down, is
/// replied to with the reason, and nothing else happens.
pub proof fn law_refused_open_command_is_explained<R, C, L, T, A: ChannelAcceptor<T>>(
    mux: &mut Mux<R, L>,
    acceptor: A,
    channel_id: ChannelId,
    channel_type: ChannelType,
    reply_tx: R,
    fresh: L,
    effects: Vec<Effect<R, C, L, T>>,
    left_over: Option<L>,
    id_text: String,
)
    requires
        ({
            ||| call_ensures(
                    Mux::<R, L>::handle_open_channel_command::<C, T>,
                    (mux, channel_id, channel_type, reply_tx),
                    effects,
                ) && left_over == Some(fresh)
            ||| call_ensures(
                    Mux::<R, L>::handle_command::<C, T>,
                    (mux, Command::OpenChannel { channel_id, channel_type, reply_tx }),
                    effects,
                ) && left_over == Some(fresh)
            ||| call_ensures(
                    Mux::<R, L>::run::<C, T, A>,
                    (mux, &acceptor, Event::Command(Some(Command::OpenChannel { channel_id, channel_type, reply_tx })), fresh),
                    Step { effects, left_over, proceed: true },
                )
        }),
        call_ensures(Uuid::to_string, (&channel_id,), id_text),
        old(mux)@.open.contains_key(channel_id.value) || old(mux)@.pending.contains_key(channel_id.value) || old(
            mux,
        )@.status is ShuttingDown,
    ensures
        final(mux)@ == old(mux)@,
        left_over == Some(fresh),
        effects@.len() == 1,
        effects@[0] matches Effect::ReplyOpenFailed { reply_tx: replied, error } && replied == reply_tx
            && error.0@ == "Channel ID ["@ + id_text@ + if old(mux)@.open.contains_key(
            channel_id.value,
        ) {
            "] already open"@
        } else if old(mux)@.pending.contains_key(channel_id.value) {
            "] already pending"@
        } else {
            "] cannot be opened. Mux is shutting down."@
        },
{
    lemma_effects(effects@);
}

/// A command to close an open channel is replied to and asks the peer to close exactly that channel,
/// which carries no data from then on and is otherwise as it was.
pub proof fn law_close_command_asks_the_peer<R, C, L, T, A: ChannelAcceptor<T>>(
    mux: &mut Mux<R, L>,
    acceptor: A,
    channel_id: ChannelId,
    reply_tx: C,
    fresh: L,
    effects: Vec<Effect<R, C, L, T>>,
    left_over: Option<L>,
)
    requires
        ({
            ||| call_ensures(
                    Mux::<R, L>::handle_close_channel_command::<C, T>,
                    (mux, channel_id, reply_tx),
                    effects,
                ) && left_over == Some(fresh)
            ||| call_ensures(
                    Mux::<R, L>::handle_command::<C, T>,
                    (mux, Command::CloseChannel { channel_id, reply_tx }),
                    effects,
                ) && left_over == Some(fresh)
            ||| call_ensures(
                    Mux::<R, L>::run::<C, T, A>,
                    (mux, &acceptor, Event::Command(Some(Command::CloseChannel { channel_id, reply_tx })), fresh),
                    Step { effects, left_over, proceed: true },
                )
        }),
        old(mux)@.open.contains_key(channel_id.value),
        old(mux)@.open[channel_id.value].status is NotAwaitingCloseResponse,
    ensures
        effects@.len() == 2,
        effects@[0] == (Effect::<R, C, L, T>::ReplyClose {
            reply_tx,
            reply: CloseChannelCommandReply::ChannelClosed(channel_id),
        }),
        effects@[1] matches Effect::SendFrame(
            Frame {
                channel_id: on,
                message: Message::Control(
                    ControlMessage::CloseChannelRequest { channel_id: asked },
                ),
            },
        ) && on.value == 0 && asked == channel_id,
        final(mux)@.open == old(mux)@.open.insert(
            channel_id.value,
            OpenChannel {
                channel_id: old(mux)@.open[channel_id.value].channel_id,
                channel_type: old(mux)@.open[channel_id.value].channel_type,
                status: OpenChannelStatus::AwaitingCloseResponse,
                link: old(mux)@.open[channel_id.value].link,
            },
        ),
        final(mux)@.pending == old(mux)@.pending,
        final(mux)@.status == old(mux)@.status,
        left_over == Some(fresh),
{
    lemma_effects(effects@);
}

/// A command to close a channel that is being closed is replied to and does nothing more.
pub proof fn law_repeated_close_command_is_replied_to<R, C, L, T, A: ChannelAcceptor<T>>(
    mux: &mut Mux<R, L>,
    acceptor: A,
    channel_id: ChannelId,
    reply_tx: C,
    fresh: L,
    effects: Vec<Effect<R, C, L, T>>,
    left_over: Option<L>,
)
    requires
        ({
            ||| call_ensures(
                    Mux::<R, L>::handle_close_channel_command::<C, T>,
                    (mux, channel_id, reply_tx),
                    effects,
                ) && left_over == Some(fresh)
            ||| call_ensures(
                    Mux::<R, L>::handle_command::<C, T>,
                    (mux, Command::CloseChannel { channel_id, reply_tx }),
                    effects,
                ) && left_over == Some(fresh)
            ||| call_ensures(
                    Mux::<R, L>::run::<C, T, A>,
                    (mux, &acceptor, Event::Command(Some(Command::CloseChannel { channel_id, reply_tx })), fresh),
                    Step { effects, left_over, proceed: true },
                )
        }),
        old(mux)@.open.contains_key(channel_id.value),
        old(mux)@.open[channel_id.value].status is AwaitingCloseResponse,
    ensures
        effects@ == seq![
            Effect::<R, C, L, T>::ReplyClose {
                reply_tx,
                reply: CloseChannelCommandReply::ChannelClosed(channel_id),
            },
        ],
        final(mux)@.open =~= old(mux)@.open,
        final(mux)@.pending == old(mux)@.pending,
        final(mux)@.status == old(mux)@.status,
        left_over == Some(fresh),
{
    lemma_effects(effects@);
}

/// A command to close a channel that is not open is told so.
pub proof fn law_close_command_for_unknown_channel<R, C, L, T, A: ChannelAcceptor<T>>(
    mux: &mut Mux<R, L>,
    acceptor: A,
    channel_id: ChannelId,
    reply_tx: C,
    fresh: L,
    effects: Vec<Effect<R, C, L, T>>,
    left_over: Option<L>,
)
    requires
        ({
            ||| call_ensures(
                    Mux::<R, L>::handle_close_channel_command::<C, T>,
                    (mux, channel_id, reply_tx),
                    effects,
                ) && left_over == Some(fresh)
            ||| call_ensures(
                    Mux::<R, L>::handle_command::<C, T>,
                    (mux, Command::CloseChannel { channel_id, reply_tx }),
                    effects,
                ) && left_over == Some(fresh)
            ||| call_ensures(
                    Mux::<R, L>::run::<C, T, A>,
                    (mux, &acceptor, Event::Command(Some(Command::CloseChannel { channel_id, reply_tx })), fresh),
                    Step { effects, left_over, proceed: true },
                )
        }),
        !old(mux)@.open.contains_key(channel_id.value),
    ensures
        effects@ == seq![
            Effect::<R, C, L, T>::ReplyClose {
                reply_tx,
                reply: CloseChannelCommandReply::ChannelIdDoesNotExist(channel_id),
            },
        ],
        final(mux)@.open =~= old(mux)@.open,
        final(mux)@.pending == old(mux)@.pending,
        final(mux)@.status == old(mux)@.status,
        left_over == Some(fresh),
{
    lemma_effects(effects@);
}

/// A shutdown, be it asked for or brought about by what does not belong on the control channel, fails
/// every pending channel, asks for every open channel to be closed, and does nothing else. Every open
/// channel stays as it is until it is closed.
pub proof fn law_shutdown_drains_and_closes<R, C, L, T, A: ChannelAcceptor<T>>(
    mux: &mut Mux<R, L>,
    acceptor: A,
    frame: Frame,
    fresh: L,
    effects: Vec<Effect<R, C, L, T>>,
    left_over: Option<L>,
)
    requires
        ({
            ||| call_ensures(
                    Mux::<R, L>::shutdown::<C, T>,
                    (mux,),
                    effects,
                ) && left_over == Some(fresh)
            ||| call_ensures(
                    Mux::<R, L>::run::<C, T, A>,
                    (mux, &acceptor, Event::Cancelled, fresh),
                    Step { effects, left_over, proceed: true },
                ) && old(mux)@.status is Running
            ||| call_ensures(
                    Mux::<R, L>::recv_incoming_frame::<C, T, A>,
                    (mux, &acceptor, frame, fresh),
                    (effects, left_over),
                ) && frame.channel_id.value == 0 && match frame.message {
                    Message::Control(ControlMessage::CloseChannel { .. }) => true,
                    Message::Control(_) => false,
                    _ => true,
                }
            ||| call_ensures(
                    Mux::<R, L>::run::<C, T, A>,
                    (mux, &acceptor, Event::IncomingFrame(Some(frame)), fresh),
                    Step { effects, left_over, proceed: true },
                ) && frame.channel_id.value == 0 && match frame.message {
                    Message::Control(ControlMessage::CloseChannel { .. }) => true,
                    Message::Control(_) => false,
                    _ => true,
                }
        }),
    ensures
        final(mux)@.status is ShuttingDown,
        final(mux)@.open == old(mux)@.open,
        final(mux)@.pending == Map::<u128, PendingChannel<R>>::empty(),
        left_over == Some(fresh),
        effects@.len() >= 1,
        effects@.last() matches Effect::EnqueueClose { channel_ids } && channel_ids@.no_duplicates()
            && forall|channel_id: ChannelId| #[trigger]
            channel_ids@.contains(channel_id) <==> old(mux)@.open.contains_key(channel_id.value),
        old(mux)@.pending.dom().finite() ==> effects@.len() == old(mux)@.pending.dom().len() + 1,
        forall|i: int|
            0 <= i < effects@.len() - 1 ==> (#[trigger] effects@[i] matches Effect::ReplyOpenFailed {
                reply_tx,
                error,
            } && error.0@ == "Cannot open new channel. Mux is shutting down"@ && exists|id: u128| #[trigger]
                old(mux)@.pending.contains_key(id) && old(mux)@.pending[id].reply_tx == reply_tx),
        forall|id: u128| #[trigger]
            old(mux)@.pending.contains_key(id) ==> exists|i: int|
                0 <= i < effects@.len() - 1 && (#[trigger] effects@[i] matches Effect::ReplyOpenFailed {
                    reply_tx,
                    ..
                } && reply_tx == old(mux)@.pending[id].reply_tx),
{
    lemma_effects(effects@);
    let pre = old(mux)@;
    let view = effects_view(effects@);
    assert(pre.outputs(Input::<R, C, L, T>::Shutdown, view));
    law_shutdown_closes_every_channel(pre, view);
    let (refused, closing) = choose|refused: Seq<u128>, closing: Seq<ChannelId>| #[trigger]
        pre.shutdown_output(refused, closing, view);
    assert(refused.to_set() =~= pre.pending.dom());
    refused.unique_seq_to_set();
    assert(effects@.last()@ == view.last());
    assert forall|i: int| 0 <= i < effects@.len() - 1 implies (
    #[trigger] effects@[i] matches Effect::ReplyOpenFailed { reply_tx, error } && error.0@
        == "Cannot open new channel. Mux is shutting down"@ && exists|id: u128| #[trigger]
        pre.pending.contains_key(id) && pre.pending[id].reply_tx == reply_tx) by {
        assert(effects@[i]@ == pre.shutdown_refusal::<C, T>(refused[i]));
        assert(refused.to_set().contains(refused[i]));
        assert(pre.pending.contains_key(refused[i]));
    }
    assert forall|id: u128| #[trigger] pre.pending.contains_key(id) implies exists|i: int|
        0 <= i < effects@.len() - 1 && (#[trigger] effects@[i] matches Effect::ReplyOpenFailed {
            reply_tx,
            ..
        } && reply_tx == pre.pending[id].reply_tx) by {
        assert(refused.to_set().contains(id));
        let i = choose|i: int| 0 <= i < refused.len() && refused[i] == id;
        assert(effects@[i]@ == pre.shutdown_refusal::<C, T>(id));
    }
}

/// The run loop ends exactly when one of its sources has ended, and then nothing is done. A
/// cancellation of a mux that shuts down already does nothing.
pub proof fn law_run_loop_ends_with_its_sources<R, C, L, T, A: ChannelAcceptor<T>>(
    mux: &mut Mux<R, L>,
    acceptor: A,
    event: Event<R, C>,
    fresh: L,
    step: Step<R, C, L, T>,
)
    requires
        call_ensures(Mux::<R, L>::run::<C, T, A>, (mux, &acceptor, event, fresh), step),
    ensures
        step.proceed == match event {
            Event::Cancelled => true,
            Event::IncomingFrame(frame) => frame is Some,
            Event::OutgoingFrame(frame) => frame is Some,
            Event::Command(command) => command is Some,
        },
        !step.proceed || (event is Cancelled && old(mux)@.status is ShuttingDown) ==> {
            &&& final(mux)@ == old(mux)@
            &&& step.effects@.len() == 0
            &&& step.left_over == Some(fresh)
        },
{
    lemma_effects(step.effects@);
}

/// A new mux runs and knows no channel.
pub proof fn law_new_mux_is_empty<R, L>(
    mux: Mux<R, L>,
)
    requires
        call_ensures(Mux::<R, L>::new, (), mux),
    ensures
        mux@.status is Running,
        mux@.open == Map::<u128, OpenChannel<L>>::empty(),
        mux@.pending == Map::<u128, PendingChannel<R>>::empty(),
{
}

/// What can be looked up of a mux is what it knows.
pub proof fn law_lookups_show_the_mux<R, L>(
    mux: Mux<R, L>,
    channel_id: ChannelId,
    running: bool,
    stopped: bool,
    open: Option<&OpenChannel<L>>,
    pending: Option<&PendingChannel<R>>,
)
    requires
        call_ensures(Mux::<R, L>::is_running, (&mux,), running),
        call_ensures(Mux::<R, L>::is_stopped, (&mux,), stopped),
        call_ensures(Mux::<R, L>::open_channel, (&mux, channel_id), open),
        call_ensures(Mux::<R, L>::pending_channel, (&mux, channel_id), pending),
    ensures
        running == (mux@.status is Running),
        stopped == (mux@.status is ShuttingDown && forall|id: u128| !#[trigger] mux@.open.contains_key(id)),
        open is Some == mux@.open.contains_key(channel_id.value),
        open matches Some(channel) ==> *channel == mux@.open[channel_id.value],
        pending is Some == mux@.pending.contains_key(channel_id.value),
        pending matches Some(channel) ==> *channel == mux@.pending[channel_id.value],
{
    if mux@.stopped() {
        assert forall|id: u128| !#[trigger] mux@.open.contains_key(id) by {
            assert(!mux@.open.dom().contains(id));
        }
    }
    if mux@.status is ShuttingDown && forall|id: u128| !#[trigger] mux@.open.contains_key(id) {
        assert(mux@.open.dom() =~= Set::<u128>::empty());
    }
}

/// The task that reads from the peer hands over every frame that it could read, and stops at the first
/// thing that is none.
pub proof fn law_reader_hands_over_what_it_read<E>(
    read: Option<Result<Frame, E>>,
    frame: Option<Frame>,
)
    requires
        call_ensures(incoming_frame::<E>, (read,), frame),
    ensures
        read matches Some(Ok(whole)) ==> frame == Some(whole),
        frame matches Some(whole) ==> read == Some(Ok::<Frame, E>(whole)),
{
}

/// Channels describe themselves by identifier and type.
pub proof fn law_channels_describe_themselves<R, L>(
    pending: PendingChannel<R>,
    open: OpenChannel<L>,
    text: String,
    open_text: String,
    id_text: String,
    type_text: &'static str,
)
    requires
        open.channel_id == pending.channel_id,
        open.channel_type == pending.channel_type,
        call_ensures(PendingChannel::<R>::to_string, (&pending,), text),
        call_ensures(OpenChannel::<L>::to_string, (&open,), open_text),
        call_ensures(Uuid::to_string, (&pending.channel_id,), id_text),
        call_ensures(ChannelType::as_str, (&pending.channel_type,), type_text),
    ensures
        text@ == "Channel(channel_id="@ + id_text@ + ", channel_type="@ + type_text@ + ")"@,
        open_text@ == text@,
{
}

/// A mux takes every input, in every state. The acceptor has to be able to answer only where the
/// mux runs and does not know the channel that the peer asks for.
pub proof fn law_mux_takes_every_input<R, C, L, T, A: ChannelAcceptor<T>>(
    mux: &mut Mux<R, L>,
    acceptor: A,
    channel_id: ChannelId,
    channel_type: ChannelType,
    result: Result<(), String>,
    frame: Frame,
    command: Command<R, C>,
    event: Event<R, C>,
    open_reply_tx: R,
    close_reply_tx: C,
    fresh: L,
)
    requires
        forall|asked: ChannelId, asked_type: ChannelType|
            mux@.status is Running && !mux@.open.contains_key(asked.value)
                && !mux@.pending.contains_key(asked.value) ==> #[trigger] acceptor.can_ask(
                asked,
                asked_type,
            ),
    ensures
        call_requires(Mux::<R, L>::run::<C, T, A>, (mux, &acceptor, event, fresh)),
        call_requires(Mux::<R, L>::recv_incoming_frame::<C, T, A>, (mux, &acceptor, frame, fresh)),
        call_requires(
            Mux::<R, L>::handle_open_channel_request::<C, T, A>,
            (mux, &acceptor, channel_id, channel_type, fresh),
        ),
        call_requires(
            Mux::<R, L>::handle_open_channel_response::<C, T>,
            (mux, channel_id, result, fresh),
        ),
        call_requires(Mux::<R, L>::handle_close_channel_request::<C, T>, (mux, channel_id)),
        call_requires(Mux::<R, L>::handle_close_channel_response::<C, T>, (mux, channel_id, result)),
        call_requires(Mux::<R, L>::handle_command::<C, T>, (mux, command)),
        call_requires(
            Mux::<R, L>::handle_open_channel_command::<C, T>,
            (mux, channel_id, channel_type, open_reply_tx),
        ),
        call_requires(
            Mux::<R, L>::handle_close_channel_command::<C, T>,
            (mux, channel_id, close_reply_tx),
        ),
        call_requires(Mux::<R, L>::shutdown::<C, T>, (mux,)),
        call_requires(Mux::<R, L>::send_outgoing_frame::<C, T>, (&*old(mux), frame)),
        call_requires(
            Mux::<R, L>::dispatch_message::<C, T>,
            (&*old(mux), channel_id, frame.message),
        ),
{
}

} // verus!
