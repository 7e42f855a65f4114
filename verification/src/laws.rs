//! What holds of the mux over all inputs, and of two muxes that talk to each other.

use vstd::prelude::*;

use crate::channel::{ChannelAcceptor, ChannelId, ChannelType};
use crate::codec::Frame;
use crate::ident::Uuid;
use crate::message::Message;
use crate::model::{
    answer_view, channel_id_text, channel_text, close_response, command_input, control_frame,
    event_handled, frame_input, id_values, open_response, requested_channel, ControlModel,
    EffectModel, Input, MuxModel,
};
use crate::mux::{CloseChannelCommandReply, Event};

verus! {

/// The channel that an input is about, if it is about one.
pub open spec fn subject<R, C, L, T>(input: Input<R, C, L, T>) -> Option<ChannelId> {
    match input {
        Input::OpenRequest { channel_id, .. } => Some(channel_id),
        Input::OpenResponse { channel_id, .. } => Some(channel_id),
        Input::CloseRequest { channel_id } => Some(channel_id),
        Input::CloseResponse { channel_id } => Some(channel_id),
        Input::Incoming { channel_id, .. } => Some(channel_id),
        Input::Outgoing { frame } => Some(frame.channel_id),
        Input::OpenCommand { channel_id, .. } => Some(channel_id),
        Input::CloseCommand { channel_id, .. } => Some(channel_id),
        Input::Shutdown => None,
    }
}

/// The mux after a sequence of inputs.
pub open spec fn after<R, C, L, T>(
    mux: MuxModel<R, L>,
    inputs: Seq<Input<R, C, L, T>>,
) -> MuxModel<R, L>
    decreases inputs.len(),
{
    if inputs.len() == 0 {
        mux
    } else {
        after(mux, inputs.drop_last()).next(inputs.last())
    }
}

/// No input makes a mux invalid: its tables file each channel under its own identifier, no channel
/// is both open and pending, and none is pending while the mux shuts down.
pub proof fn law_stays_valid<R, C, L, T>(mux: MuxModel<R, L>, input: Input<R, C, L, T>)
    requires
        mux.valid(),
    ensures
        mux.next(input).valid(),
{
}

/// A mux that shuts down never runs again.
pub proof fn law_shutdown_is_final<R, C, L, T>(mux: MuxModel<R, L>, input: Input<R, C, L, T>)
    requires
        mux.status is ShuttingDown,
    ensures
        mux.next(input).status is ShuttingDown,
{
}

/// While a mux shuts down no channel becomes open or pending: each channel that is open after an
/// input was open before it.
pub proof fn law_nothing_opens_during_shutdown<R, C, L, T>(
    mux: MuxModel<R, L>,
    input: Input<R, C, L, T>,
)
    requires
        mux.valid(),
        mux.status is ShuttingDown,
    ensures
        !mux.opens(input),
        mux.next(input).open.dom().subset_of(mux.open.dom()),
        mux.next(input).pending =~= Map::empty(),
{
}

/// An input about one channel leaves every other channel as it was, and a shutdown leaves every
/// open channel as it was.
pub proof fn law_other_channels_untouched<R, C, L, T>(
    mux: MuxModel<R, L>,
    input: Input<R, C, L, T>,
    other: u128,
)
    requires
        subject(input) matches Some(channel_id) ==> channel_id.value != other,
    ensures
        mux.next(input).open.contains_key(other) == mux.open.contains_key(other),
        mux.next(input).open[other] == mux.open[other],
        !(input is Shutdown) ==> {
            &&& mux.next(input).pending.contains_key(other) == mux.pending.contains_key(other)
            &&& mux.next(input).pending[other] == mux.pending[other]
        },
{
}

/// For as long as a channel is open it keeps its type and its local end, and once a close request
/// was sent for it, it waits for the response until it is gone.
pub proof fn law_open_channel_keeps_identity<R, C, L, T>(
    mux: MuxModel<R, L>,
    input: Input<R, C, L, T>,
    id: u128,
)
    requires
        mux.valid(),
        mux.open.contains_key(id),
        mux.next(input).open.contains_key(id),
    ensures
        ({
            let before = mux.open[id];
            let now = mux.next(input).open[id];
            &&& now.channel_id == before.channel_id
            &&& now.channel_type == before.channel_type
            &&& now.link == before.link
            &&& before.status is AwaitingCloseResponse ==> now.status is AwaitingCloseResponse
        }),
{
}

/// Every request of the peer to open a channel is answered once and first of all: with `Ok` if the
/// request opened the channel, else with a reason. A request that does not open the channel changes
/// nothing, and what a refused request is answered is the refusal.
pub proof fn law_open_request_is_answered<R, C, L, T>(
    mux: MuxModel<R, L>,
    channel_id: ChannelId,
    channel_type: ChannelType,
    answer: Result<T, Seq<char>>,
    fresh: L,
)
    ensures
        ({
            let input = Input::<R, C, L, T>::OpenRequest {
                channel_id,
                channel_type,
                answer,
                fresh,
            };
            let effects = mux.output(input);
            &&& effects.len() >= 1
            &&& forall|i: int|
                1 <= i < effects.len() ==> !(#[trigger] effects[i] is SendFrame)
            &&& mux.opens(input) ==> {
                &&& effects[0] == open_response::<R, C, L, T>(channel_id, Ok(()))
                &&& mux.next(input).passes(channel_id)
            }
            &&& !mux.opens(input) ==> {
                &&& mux.next(input) == mux
                &&& exists|text: Seq<char>|
                    effects[0] == #[trigger] open_response::<R, C, L, T>(channel_id, Err(text))
            }
            &&& mux.request_refusal(channel_id) matches Some(text) ==> effects
                == seq![open_response::<R, C, L, T>(channel_id, Err(text))]
        }),
{
    let input = Input::<R, C, L, T>::OpenRequest { channel_id, channel_type, answer, fresh };
    if !mux.opens(input) {
        let text = match mux.request_refusal(channel_id) {
            Some(text) => text,
            None => answer->Err_0,
        };
        assert(mux.output(input)[0] == open_response::<R, C, L, T>(channel_id, Err(text)));
    }
}

/// Every request of the peer to close a channel is answered once, last of all: with `Ok` if the
/// channel was open, else with an error. Afterwards the channel carries no data.
pub proof fn law_close_request_is_answered<R, C, L, T>(
    mux: MuxModel<R, L>,
    channel_id: ChannelId,
)
    ensures
        ({
            let input = Input::<R, C, L, T>::CloseRequest { channel_id };
            let effects = mux.output(input);
            &&& effects.len() >= 1
            &&& forall|i: int|
                0 <= i < effects.len() - 1 ==> !(#[trigger] effects[i] is SendFrame)
            &&& mux.open.contains_key(channel_id.value) ==> effects.last() == close_response::<
                R,
                C,
                L,
                T,
            >(channel_id, Ok(()))
            &&& !mux.open.contains_key(channel_id.value) ==> exists|text: Seq<char>|
                effects.last() == #[trigger] close_response::<R, C, L, T>(channel_id, Err(text))
            &&& !mux.next(input).passes(channel_id)
        }),
{
    if !mux.open.contains_key(channel_id.value) {
        let text = channel_id_text(channel_id, "] not open"@);
        assert(mux.output(Input::<R, C, L, T>::CloseRequest { channel_id }).last()
            == close_response::<R, C, L, T>(channel_id, Err(text)));
    }
}

/// Whether an effect replies to a command to open a channel, through the given handle.
pub open spec fn replies_to<R, C, L, T>(effect: EffectModel<R, C, L, T>, handle: R) -> bool {
    match effect {
        EffectModel::ReplyOpened { reply_tx, .. } => reply_tx == handle,
        EffectModel::ReplyOpenFailed { reply_tx, .. } => reply_tx == handle,
        _ => false,
    }
}

/// A command to open a channel either makes the channel pending and asks the peer to open it, or is
/// replied to with an error at once and changes nothing.
pub proof fn law_open_command_is_pending_or_refused<R, C, L, T>(
    mux: MuxModel<R, L>,
    channel_id: ChannelId,
    channel_type: ChannelType,
    reply_tx: R,
)
    ensures
        ({
            let input = Input::<R, C, L, T>::OpenCommand { channel_id, channel_type, reply_tx };
            let next = mux.next(input);
            let effects = mux.output(input);
            ||| {
                &&& mux.command_refusal(channel_id) is None
                &&& next.pending.contains_key(channel_id.value)
                &&& next.pending[channel_id.value].reply_tx == reply_tx
                &&& next.pending[channel_id.value].channel_type == channel_type
                &&& effects == seq![
                    EffectModel::<R, C, L, T>::SendFrame(
                        control_frame(
                            ControlModel::OpenChannelRequest { channel_id, channel_type },
                        ),
                    ),
                ]
            }
            ||| {
                &&& mux.command_refusal(channel_id) matches Some(text)
                &&& next == mux
                &&& effects == seq![
                    EffectModel::<R, C, L, T>::ReplyOpenFailed { reply_tx, error: text },
                ]
            }
        }),
{
}

/// Whoever waits for a pending channel gets a reply in the very step in which the channel is
/// pending no longer: that the channel is open if it is, else an error.
pub proof fn law_pending_channel_gets_a_reply<R, C, L, T>(
    mux: MuxModel<R, L>,
    input: Input<R, C, L, T>,
    effects: Seq<EffectModel<R, C, L, T>>,
    id: u128,
)
    requires
        mux.valid(),
        mux.outputs(input, effects),
        mux.pending.contains_key(id),
        !mux.next(input).pending.contains_key(id),
    ensures
        exists|i: int|
            0 <= i < effects.len() && #[trigger] replies_to(effects[i], mux.pending[id].reply_tx)
                && (effects[i] is ReplyOpened <==> mux.next(input).open.contains_key(id)),
{
    if input is Shutdown {
        let (refused, closing) = choose|refused: Seq<u128>, closing: Seq<ChannelId>| #[trigger]
            mux.shutdown_output(refused, closing, effects);
        assert(refused.to_set().contains(id));
        let i = choose|i: int| 0 <= i < refused.len() && refused[i] == id;
        assert(effects[i] == mux.shutdown_refusal::<C, T>(id));
        assert(replies_to(effects[i], mux.pending[id].reply_tx));
    } else {
        assert(replies_to(effects[0], mux.pending[id].reply_tx));
    }
}

/// A shutdown asks for every open channel to be closed, and for each of them once.
pub proof fn law_shutdown_closes_every_channel<R, C, L, T>(
    mux: MuxModel<R, L>,
    effects: Seq<EffectModel<R, C, L, T>>,
)
    requires
        mux.outputs(Input::<R, C, L, T>::Shutdown, effects),
    ensures
        effects.len() >= 1,
        effects.last() matches EffectModel::EnqueueClose { channel_ids }
            && channel_ids.no_duplicates() && forall|channel_id: ChannelId| #[trigger]
            channel_ids.contains(channel_id) <==> mux.open.contains_key(channel_id.value),
{
    let (refused, closing) = choose|refused: Seq<u128>, closing: Seq<ChannelId>| #[trigger]
        mux.shutdown_output(refused, closing, effects);
    let values = id_values(closing);
    assert forall|i: int, j: int|
        0 <= i < closing.len() && 0 <= j < closing.len() && i != j implies closing[i]
        != closing[j] by {
        assert(values[i] != values[j]);
    }
    assert forall|channel_id: ChannelId| #[trigger] closing.contains(channel_id)
        <==> mux.open.contains_key(channel_id.value) by {
        if closing.contains(channel_id) {
            let i = choose|i: int| 0 <= i < closing.len() && closing[i] == channel_id;
            assert(values[i] == channel_id.value);
            assert(values.to_set().contains(channel_id.value));
        }
        if mux.open.contains_key(channel_id.value) {
            assert(values.to_set().contains(channel_id.value));
            let i = choose|i: int| 0 <= i < values.len() && values[i] == channel_id.value;
            assert(closing[i] == channel_id);
        }
    }
}

/// Data passes in either direction only while the channel is open and no close request was sent for
/// it; control frames always pass to the peer.
pub proof fn law_data_passes_only_on_open_channels<R, C, L, T>(
    mux: MuxModel<R, L>,
    frame: Frame,
    message: Message,
    channel_id: ChannelId,
)
    ensures
        mux.output(Input::<R, C, L, T>::Incoming { channel_id, message }) == if mux.passes(
            channel_id,
        ) {
            seq![EffectModel::<R, C, L, T>::Deliver { channel_id, message }]
        } else {
            seq![]
        },
        frame.channel_id.value == 0 || mux.passes(frame.channel_id) ==> mux.output(
            Input::<R, C, L, T>::Outgoing { frame },
        ) == seq![EffectModel::<R, C, L, T>::SendFrame(frame@)],
        frame.channel_id.value != 0 && !mux.passes(frame.channel_id) ==> mux.output(
            Input::<R, C, L, T>::Outgoing { frame },
        ).len() == 0,
{
}

/// A second command to close a channel changes nothing, sends nothing to the peer and gets the same
/// reply as the first one.
pub proof fn law_close_command_is_idempotent<R, C, L, T>(
    mux: MuxModel<R, L>,
    channel_id: ChannelId,
    first: C,
    second: C,
)
    ensures
        ({
            let once = Input::<R, C, L, T>::CloseCommand { channel_id, reply_tx: first };
            let again = Input::<R, C, L, T>::CloseCommand { channel_id, reply_tx: second };
            let closing = mux.next(once);
            let reply = if mux.open.contains_key(channel_id.value) {
                CloseChannelCommandReply::ChannelClosed(channel_id)
            } else {
                CloseChannelCommandReply::ChannelIdDoesNotExist(channel_id)
            };
            &&& mux.output(once)[0] == (EffectModel::<R, C, L, T>::ReplyClose {
                reply_tx: first,
                reply,
            })
            &&& closing.next(again) == closing
            &&& closing.output(again) == seq![
                EffectModel::<R, C, L, T>::ReplyClose { reply_tx: second, reply },
            ]
        }),
{
}

/// Whether one of the inputs opens the channel.
pub open spec fn opened_by<R, C, L, T>(
    mux: MuxModel<R, L>,
    inputs: Seq<Input<R, C, L, T>>,
    channel_id: ChannelId,
) -> bool {
    exists|i: int|
        0 <= i < inputs.len() && subject(#[trigger] inputs[i]) == Some(channel_id) && after(
            mux,
            inputs.take(i),
        ).opens(inputs[i])
}

/// A channel on which no data passes stays so, whatever comes in, until an input opens it.
pub proof fn law_closed_until_opened<R, C, L, T>(
    mux: MuxModel<R, L>,
    inputs: Seq<Input<R, C, L, T>>,
    channel_id: ChannelId,
)
    requires
        !mux.passes(channel_id),
        !opened_by(mux, inputs, channel_id),
    ensures
        !after(mux, inputs).passes(channel_id),
    decreases inputs.len(),
{
    if inputs.len() > 0 {
        let earlier = inputs.drop_last();
        let last = inputs.last();
        assert forall|i: int|
            0 <= i < earlier.len() && subject(#[trigger] earlier[i]) == Some(
                channel_id,
            ) implies !after(mux, earlier.take(i)).opens(earlier[i]) by {
            assert(inputs[i] == earlier[i]);
            assert(inputs.take(i) =~= earlier.take(i));
        }
        law_closed_until_opened(mux, earlier, channel_id);
        assert(inputs[inputs.len() - 1] == last);
        assert(inputs.take(inputs.len() - 1) =~= earlier);
        if subject(last) != Some(channel_id) {
            law_other_channels_untouched(after(mux, earlier), last, channel_id.value);
        }
    }
}

/// Nothing of a channel other than the control channel follows the command to close it: until an
/// input opens the channel again, no message of it is delivered and no frame of it goes to the peer.
pub proof fn law_nothing_follows_the_close_command<R, C, L, T>(
    mux: MuxModel<R, L>,
    channel_id: ChannelId,
    reply_tx: C,
    inputs: Seq<Input<R, C, L, T>>,
    message: Message,
    frame: Frame,
)
    requires
        !opened_by(
            mux.next(Input::<R, C, L, T>::CloseCommand { channel_id, reply_tx }),
            inputs,
            channel_id,
        ),
        frame.channel_id == channel_id,
        channel_id.value != 0,
    ensures
        ({
            let later = after(
                mux.next(Input::<R, C, L, T>::CloseCommand { channel_id, reply_tx }),
                inputs,
            );
            &&& !later.passes(channel_id)
            &&& later.output(Input::<R, C, L, T>::Incoming { channel_id, message }).len() == 0
            &&& later.output(Input::<R, C, L, T>::Outgoing { frame }).len() == 0
        }),
{
    law_closed_until_opened(
        mux.next(Input::<R, C, L, T>::CloseCommand { channel_id, reply_tx }),
        inputs,
        channel_id,
    );
}

/// A channel opens on both sides: the command of one mux asks the other one, whose acceptor accepts;
/// its answer opens the channel on the first side too, and the reply says so. Both sides then know
/// the channel under the same identifier with the same type, and data passes in both directions.
pub proof fn law_open_handshake<R, C, L, T>(
    here: MuxModel<R, L>,
    there: MuxModel<R, L>,
    channel_id: ChannelId,
    channel_type: ChannelType,
    reply_tx: R,
    task: T,
    link_here: L,
    link_there: L,
    request: Frame,
    response: Frame,
)
    requires
        here.command_refusal(channel_id) is None,
        there.request_refusal(channel_id) is None,
        request@ == control_frame(ControlModel::OpenChannelRequest { channel_id, channel_type }),
        response@ == control_frame(
            ControlModel::OpenChannelResponse { channel_id, result: Ok(()) },
        ),
    ensures
        ({
            let command = Input::<R, C, L, T>::OpenCommand { channel_id, channel_type, reply_tx };
            let asked = here.next(command);
            let accept = Input::<R, C, L, T>::OpenRequest {
                channel_id,
                channel_type,
                answer: Ok(task),
                fresh: link_there,
            };
            let answered = frame_input::<R, C, L, T>(response, link_here);
            let done_here = asked.next(answered);
            let done_there = there.next(accept);
            &&& here.output(command) == seq![EffectModel::<R, C, L, T>::SendFrame(request@)]
            &&& requested_channel(request) == Some((channel_id, channel_type))
            &&& there.output(accept)[0] == EffectModel::<R, C, L, T>::SendFrame(response@)
            &&& requested_channel(response) is None
            &&& asked.output(answered) == seq![
                EffectModel::<R, C, L, T>::ReplyOpened { reply_tx, channel_id, channel_type },
            ]
            &&& done_here.passes(channel_id)
            &&& done_there.passes(channel_id)
            &&& done_here.open[channel_id.value].channel_type == channel_type
            &&& done_there.open[channel_id.value].channel_type == channel_type
            &&& done_here.open[channel_id.value].link == link_here
            &&& done_there.open[channel_id.value].link == link_there
            &&& !done_here.pending.contains_key(channel_id.value)
        }),
{
}

/// A channel that the other side refuses or rejects is known to neither side afterwards, and the
/// one who asked for it gets an error that ends in the reason.
pub proof fn law_rejected_open<R, C, L, T>(
    here: MuxModel<R, L>,
    there: MuxModel<R, L>,
    channel_id: ChannelId,
    channel_type: ChannelType,
    reply_tx: R,
    answer: Result<T, Seq<char>>,
    link_here: L,
    link_there: L,
    reason: Seq<char>,
    response: Frame,
)
    requires
        here.command_refusal(channel_id) is None,
        there.output(
            Input::<R, C, L, T>::OpenRequest {
                channel_id,
                channel_type,
                answer,
                fresh: link_there,
            },
        )[0] == EffectModel::<R, C, L, T>::SendFrame(response@),
        response@ == control_frame(
            ControlModel::OpenChannelResponse { channel_id, result: Err(reason) },
        ),
    ensures
        ({
            let asked = here.next(
                Input::<R, C, L, T>::OpenCommand { channel_id, channel_type, reply_tx },
            );
            let answered = frame_input::<R, C, L, T>(response, link_here);
            let done_here = asked.next(answered);
            let done_there = there.next(
                Input::<R, C, L, T>::OpenRequest {
                    channel_id,
                    channel_type,
                    answer,
                    fresh: link_there,
                },
            );
            &&& done_here == here
            &&& done_there == there
            &&& asked.output(answered) == seq![
                EffectModel::<R, C, L, T>::ReplyOpenFailed {
                    reply_tx,
                    error: "Failed to open channel ["@ + channel_text(
                        channel_id,
                        channel_type,
                    ) + "]: "@ + reason,
                },
            ]
        }),
{
    let asked = here.next(Input::<R, C, L, T>::OpenCommand { channel_id, channel_type, reply_tx });
    let answered = frame_input::<R, C, L, T>(response, link_here);
    assert(asked.next(answered).pending =~= here.pending);
}

/// A channel closes on both sides: the command of one mux asks the other one, which closes the
/// channel and answers; the answer closes it on the first side too. Whoever waits for the end of
/// the channel is told on both sides.
pub proof fn law_close_handshake<R, C, L, T>(
    here: MuxModel<R, L>,
    there: MuxModel<R, L>,
    channel_id: ChannelId,
    reply_tx: C,
    fresh: L,
    request: Frame,
    response: Frame,
)
    requires
        here.passes(channel_id),
        there.passes(channel_id),
        request@ == control_frame(ControlModel::CloseChannelRequest { channel_id }),
        response@ == control_frame(
            ControlModel::CloseChannelResponse { channel_id, result: Ok(()) },
        ),
    ensures
        ({
            let command = Input::<R, C, L, T>::CloseCommand { channel_id, reply_tx };
            let closing = here.next(command);
            let asked = frame_input::<R, C, L, T>(request, fresh);
            let answered = frame_input::<R, C, L, T>(response, fresh);
            &&& here.output(command).last() == EffectModel::<R, C, L, T>::SendFrame(request@)
            &&& requested_channel(request) is None
            &&& requested_channel(response) is None
            &&& there.output(asked) == seq![
                EffectModel::<R, C, L, T>::NotifyClosed { channel: there.open[channel_id.value] },
                EffectModel::<R, C, L, T>::SendFrame(response@),
            ]
            &&& closing.output(answered) == seq![
                EffectModel::<R, C, L, T>::NotifyClosed { channel: closing.open[channel_id.value] },
            ]
            &&& closing.open[channel_id.value].link == here.open[channel_id.value].link
            &&& there.next(asked).open =~= there.open.remove(channel_id.value)
            &&& closing.next(answered).open =~= here.open.remove(channel_id.value)
        }),
{
}

/// Two muxes that close the same channel at the same time: each gets the other's request while it
/// waits for the response, answers it and keeps the channel, and closes it on the response.
pub proof fn law_simultaneous_close<R, C, L, T>(
    mux: MuxModel<R, L>,
    channel_id: ChannelId,
    reply_tx: C,
    fresh: L,
    request: Frame,
    response: Frame,
)
    requires
        mux.passes(channel_id),
        request@ == control_frame(ControlModel::CloseChannelRequest { channel_id }),
        response@ == control_frame(
            ControlModel::CloseChannelResponse { channel_id, result: Ok(()) },
        ),
    ensures
        ({
            let closing = mux.next(Input::<R, C, L, T>::CloseCommand { channel_id, reply_tx });
            let asked = frame_input::<R, C, L, T>(request, fresh);
            let answered = frame_input::<R, C, L, T>(response, fresh);
            &&& closing.next(asked) == closing
            &&& closing.output(asked) == seq![EffectModel::<R, C, L, T>::SendFrame(response@)]
            &&& closing.next(answered).open =~= mux.open.remove(channel_id.value)
            &&& closing.output(answered) == seq![
                EffectModel::<R, C, L, T>::NotifyClosed { channel: closing.open[channel_id.value] },
            ]
        }),
{
}

/// A response to a close request that was never sent changes nothing: a channel that is open stays
/// open, and nobody is told anything.
pub proof fn law_unasked_close_response_changes_nothing<R, C, L, T>(
    mux: MuxModel<R, L>,
    channel_id: ChannelId,
)
    requires
        mux.passes(channel_id) || !mux.open.contains_key(channel_id.value),
    ensures
        mux.next(Input::<R, C, L, T>::CloseResponse { channel_id }) == mux,
        mux.output(Input::<R, C, L, T>::CloseResponse { channel_id }).len() == 0,
{
    assert(mux.next(Input::<R, C, L, T>::CloseResponse { channel_id }).open =~= mux.open);
}

/// Closing undoes opening: once a channel has been opened and closed again, the mux is as it was
/// before, on the side that asked for both as well as on the side that was asked.
pub proof fn law_closing_undoes_opening<R, C, L, T>(
    mux: MuxModel<R, L>,
    channel_id: ChannelId,
    channel_type: ChannelType,
    open_reply_tx: R,
    close_reply_tx: C,
    task: T,
    fresh: L,
)
    requires
        mux.command_refusal(channel_id) is None,
    ensures
        mux.next(
            Input::<R, C, L, T>::OpenCommand { channel_id, channel_type, reply_tx: open_reply_tx },
        ).next(Input::<R, C, L, T>::OpenResponse { channel_id, result: Ok(()), fresh }).next(
            Input::<R, C, L, T>::CloseCommand { channel_id, reply_tx: close_reply_tx },
        ).next(Input::<R, C, L, T>::CloseResponse { channel_id }) == mux,
        mux.next(
            Input::<R, C, L, T>::OpenRequest { channel_id, channel_type, answer: Ok(task), fresh },
        ).next(Input::<R, C, L, T>::CloseRequest { channel_id }) == mux,
{
    let asking = mux.next(
        Input::<R, C, L, T>::OpenCommand { channel_id, channel_type, reply_tx: open_reply_tx },
    ).next(Input::<R, C, L, T>::OpenResponse { channel_id, result: Ok(()), fresh }).next(
        Input::<R, C, L, T>::CloseCommand { channel_id, reply_tx: close_reply_tx },
    ).next(Input::<R, C, L, T>::CloseResponse { channel_id });
    let asked = mux.next(
        Input::<R, C, L, T>::OpenRequest { channel_id, channel_type, answer: Ok(task), fresh },
    ).next(Input::<R, C, L, T>::CloseRequest { channel_id });
    assert(asking.open =~= mux.open);
    assert(asking.pending =~= mux.pending);
    assert(asked.open =~= mux.open);
}

/// The mux itself sends nothing but control messages, and those on the control channel; what it
/// delivers, it delivers on the channel that the message came in on.
pub proof fn law_messages_stay_on_their_channel<R, C, L, T>(
    mux: MuxModel<R, L>,
    input: Input<R, C, L, T>,
    i: int,
)
    requires
        0 <= i < mux.output(input).len(),
    ensures
        mux.output(input)[i] matches EffectModel::SendFrame(frame) ==> {
            ||| input matches Input::Outgoing { frame: sent } && sent@ == frame
            ||| frame.channel_id.value == 0 && frame.message is Control
        },
        mux.output(input)[i] matches EffectModel::Deliver { channel_id, message } ==> input
            == (Input::<R, C, L, T>::Incoming { channel_id, message }),
{
}

/// A mux that shuts down stays valid, goes on shutting down and opens nothing, whatever comes in.
proof fn lemma_shutdown_only_shrinks<R, C, L, T>(
    mux: MuxModel<R, L>,
    inputs: Seq<Input<R, C, L, T>>,
)
    requires
        mux.valid(),
        mux.status is ShuttingDown,
    ensures
        after(mux, inputs).valid(),
        after(mux, inputs).status is ShuttingDown,
        after(mux, inputs).open.dom().subset_of(mux.open.dom()),
    decreases inputs.len(),
{
    if inputs.len() > 0 {
        lemma_shutdown_only_shrinks(mux, inputs.drop_last());
        let before = after(mux, inputs.drop_last());
        law_stays_valid(before, inputs.last());
        law_nothing_opens_during_shutdown(before, inputs.last());
    }
}

/// Whether a close request was sent for the channel, before the inputs or on one of them.
pub open spec fn asked_to_close<R, C, L, T>(
    mux: MuxModel<R, L>,
    inputs: Seq<Input<R, C, L, T>>,
    channel_id: ChannelId,
) -> bool {
    !mux.passes(channel_id) || exists|i: int|
        0 <= i < inputs.len() && (#[trigger] inputs[i] matches Input::CloseCommand {
            channel_id: closed,
            ..
        } && closed == channel_id)
}

/// Whether a close request was sent for the channel and the peer has answered it.
pub open spec fn close_is_answered<R, C, L, T>(
    mux: MuxModel<R, L>,
    inputs: Seq<Input<R, C, L, T>>,
    channel_id: ChannelId,
) -> bool {
    exists|i: int|
        0 <= i < inputs.len() && #[trigger] inputs[i] == (Input::<R, C, L, T>::CloseResponse {
            channel_id,
        }) && asked_to_close(mux, inputs.take(i), channel_id)
}

/// While a mux shuts down, no data passes any more on a channel that it was asked to close.
proof fn lemma_asked_channel_does_not_pass<R, C, L, T>(
    mux: MuxModel<R, L>,
    inputs: Seq<Input<R, C, L, T>>,
    channel_id: ChannelId,
)
    requires
        mux.valid(),
        mux.status is ShuttingDown,
        asked_to_close(mux, inputs, channel_id),
    ensures
        !after(mux, inputs).passes(channel_id),
    decreases inputs.len(),
{
    if inputs.len() > 0 {
        let earlier = inputs.drop_last();
        lemma_shutdown_only_shrinks(mux, earlier);
        law_nothing_opens_during_shutdown(after(mux, earlier), inputs.last());
        if asked_to_close(mux, earlier, channel_id) {
            lemma_asked_channel_does_not_pass(mux, earlier, channel_id);
        } else {
            let i = choose|i: int|
                0 <= i < inputs.len() && (#[trigger] inputs[i] matches Input::CloseCommand {
                    channel_id: closed,
                    ..
                } && closed == channel_id);
            if i < earlier.len() {
                assert(earlier[i] == inputs[i]);
            }
            assert(inputs[i] == inputs.last());
        }
    }
}

/// While a mux shuts down, a channel is gone for good once the peer has answered its close request.
proof fn lemma_answered_channel_is_gone<R, C, L, T>(
    mux: MuxModel<R, L>,
    inputs: Seq<Input<R, C, L, T>>,
    channel_id: ChannelId,
)
    requires
        mux.valid(),
        mux.status is ShuttingDown,
        close_is_answered(mux, inputs, channel_id),
    ensures
        !after(mux, inputs).open.contains_key(channel_id.value),
    decreases inputs.len(),
{
    let response = Input::<R, C, L, T>::CloseResponse { channel_id };
    let earlier = inputs.drop_last();
    let i = choose|i: int|
        0 <= i < inputs.len() && #[trigger] inputs[i] == response && asked_to_close(
            mux,
            inputs.take(i),
            channel_id,
        );
    if i == inputs.len() - 1 {
        assert(inputs.take(i) =~= earlier);
        lemma_asked_channel_does_not_pass(mux, earlier, channel_id);
    } else {
        assert(earlier[i] == response);
        assert(earlier.take(i) =~= inputs.take(i));
        lemma_answered_channel_is_gone(mux, earlier, channel_id);
        lemma_shutdown_only_shrinks(mux, earlier);
        law_nothing_opens_during_shutdown(after(mux, earlier), inputs.last());
    }
}

/// A mux that shuts down comes to its end: once a close request was sent for each channel that was
/// open and the peer has answered it, in any order and among any other inputs, the mux is stopped.
pub proof fn law_shutdown_comes_to_its_end<R, C, L, T>(
    mux: MuxModel<R, L>,
    inputs: Seq<Input<R, C, L, T>>,
)
    requires
        mux.valid(),
        mux.status is ShuttingDown,
        forall|channel_id: ChannelId|
            mux.open.contains_key(channel_id.value) ==> #[trigger] close_is_answered(
                mux,
                inputs,
                channel_id,
            ),
    ensures
        after(mux, inputs).stopped(),
{
    lemma_shutdown_only_shrinks(mux, inputs);
    assert forall|id: u128| !#[trigger] after(mux, inputs).open.dom().contains(id) by {
        if after(mux, inputs).open.dom().contains(id) {
            assert(mux.open.dom().contains(id));
            let channel_id: ChannelId = Uuid { value: id };
            assert(mux.open.contains_key(channel_id.value));
            assert(close_is_answered(mux, inputs, channel_id));
            lemma_answered_channel_is_gone(mux, inputs, channel_id);
        }
    }
}

/// Two muxes after the first one has closed the channels one by one: it asks for each of them, the
/// second one answers, and the answer comes back.
pub open spec fn close_each<R, C, L, T>(
    here: MuxModel<R, L>,
    there: MuxModel<R, L>,
    channel_ids: Seq<ChannelId>,
    reply_tx: C,
) -> (MuxModel<R, L>, MuxModel<R, L>)
    decreases channel_ids.len(),
{
    if channel_ids.len() == 0 {
        (here, there)
    } else {
        let (here, there) = close_each::<R, C, L, T>(
            here,
            there,
            channel_ids.drop_last(),
            reply_tx,
        );
        let channel_id = channel_ids.last();
        (
            here.next(Input::<R, C, L, T>::CloseCommand { channel_id, reply_tx }).next(
                Input::<R, C, L, T>::CloseResponse { channel_id },
            ),
            there.next(Input::<R, C, L, T>::CloseRequest { channel_id }),
        )
    }
}

/// Closing channels one by one takes them out of the first mux, lets no data pass on them in the
/// second, and leaves every other channel of both as it was.
proof fn lemma_close_each<R, C, L, T>(
    here: MuxModel<R, L>,
    there: MuxModel<R, L>,
    channel_ids: Seq<ChannelId>,
    reply_tx: C,
)
    ensures
        ({
            let (done_here, done_there) = close_each::<R, C, L, T>(
                here,
                there,
                channel_ids,
                reply_tx,
            );
            &&& done_here.status == here.status
            &&& forall|channel_id: ChannelId| #[trigger]
                done_here.open.contains_key(channel_id.value) <==> here.open.contains_key(
                    channel_id.value,
                ) && !channel_ids.contains(channel_id)
            &&& forall|channel_id: ChannelId| #[trigger]
                channel_ids.contains(channel_id) ==> !done_there.passes(channel_id)
            &&& forall|channel_id: ChannelId|
                !#[trigger] channel_ids.contains(channel_id) ==> {
                    &&& done_there.open.contains_key(channel_id.value)
                        == there.open.contains_key(channel_id.value)
                    &&& done_there.open[channel_id.value] == there.open[channel_id.value]
                }
        }),
    decreases channel_ids.len(),
{
    if channel_ids.len() > 0 {
        let rest = channel_ids.drop_last();
        lemma_close_each::<R, C, L, T>(here, there, rest, reply_tx);
        assert forall|channel_id: ChannelId| #[trigger]
            channel_ids.contains(channel_id) <==> rest.contains(channel_id) || channel_id
                == channel_ids.last() by {
            if channel_ids.contains(channel_id) && channel_id != channel_ids.last() {
                let i = choose|i: int|
                    0 <= i < channel_ids.len() && channel_ids[i] == channel_id;
                assert(rest[i] == channel_id);
            }
            if rest.contains(channel_id) {
                let i = choose|i: int| 0 <= i < rest.len() && rest[i] == channel_id;
                assert(channel_ids[i] == channel_id);
            }
            if channel_id == channel_ids.last() {
                assert(channel_ids[channel_ids.len() - 1] == channel_id);
            }
        }
    }
}

/// A mux that is told to shut down stops once the peer has gone through the channels with it: after
/// each close that the shutdown asks for was requested and answered, no channel is left here, no
/// data passes on any of them there, and the peer's other channels are as they were.
pub proof fn law_shutdown_with_a_peer<R, C, L, T>(
    here: MuxModel<R, L>,
    there: MuxModel<R, L>,
    effects: Seq<EffectModel<R, C, L, T>>,
    channel_ids: Seq<ChannelId>,
    reply_tx: C,
)
    requires
        here.outputs(Input::<R, C, L, T>::Shutdown, effects),
        effects.last() == (EffectModel::<R, C, L, T>::EnqueueClose { channel_ids }),
    ensures
        ({
            let (done_here, done_there) = close_each::<R, C, L, T>(
                here.next(Input::<R, C, L, T>::Shutdown),
                there,
                channel_ids,
                reply_tx,
            );
            &&& done_here.stopped()
            &&& forall|channel_id: ChannelId|
                here.open.contains_key(channel_id.value) ==> !#[trigger] done_there.passes(
                    channel_id,
                )
            &&& forall|channel_id: ChannelId|
                !here.open.contains_key(channel_id.value) ==> #[trigger] done_there.passes(
                    channel_id,
                ) == there.passes(channel_id)
        }),
{
    let closing = here.next(Input::<R, C, L, T>::Shutdown);
    let (done_here, done_there) = close_each::<R, C, L, T>(closing, there, channel_ids, reply_tx);
    law_shutdown_closes_every_channel(here, effects);
    lemma_close_each::<R, C, L, T>(closing, there, channel_ids, reply_tx);
    assert forall|id: u128| !#[trigger] done_here.open.dom().contains(id) by {
        let channel_id: ChannelId = Uuid { value: id };
        assert(channel_ids.contains(channel_id) <==> here.open.contains_key(channel_id.value));
        assert(!done_here.open.contains_key(channel_id.value));
    }
    assert forall|channel_id: ChannelId|
        here.open.contains_key(channel_id.value) implies !#[trigger] done_there.passes(
        channel_id,
    ) by {
        assert(channel_ids.contains(channel_id));
    }
    assert forall|channel_id: ChannelId|
        !here.open.contains_key(channel_id.value) implies #[trigger] done_there.passes(channel_id)
        == there.passes(channel_id) by {
        assert(!channel_ids.contains(channel_id));
    }
}

/// Every event of the run loop is an input of the mux or leaves the mux as it is with nothing to do,
/// so that what holds after every input holds after every event.
pub proof fn law_every_event_is_an_input<R, C, L, T, A: ChannelAcceptor<T>>(
    acceptor: A,
    event: Event<R, C>,
    fresh: L,
    pre: MuxModel<R, L>,
    post: MuxModel<R, L>,
    effects: Seq<EffectModel<R, C, L, T>>,
    left_over: Option<L>,
    proceed: bool,
)
    requires
        event_handled(acceptor, event, fresh, pre, post, effects, left_over, proceed),
    ensures
        (post == pre && effects.len() == 0) || exists|input: Input<R, C, L, T>| #[trigger]
            pre.outputs(input, effects) && post == pre.next(input),
{
    match event {
        Event::IncomingFrame(Some(frame)) => {
            match requested_channel(frame) {
                Some((channel_id, channel_type)) => {
                    let answer: Result<T, Seq<char>> = match pre.request_refusal(channel_id) {
                        Some(text) => Err(text),
                        None => answer_view(
                            choose|answer: Result<T, String>| #[trigger]
                                acceptor.may_answer(channel_id, channel_type, answer) && {
                                    let input = Input::<R, C, L, T>::OpenRequest {
                                        channel_id,
                                        channel_type,
                                        answer: answer_view(answer),
                                        fresh,
                                    };
                                    &&& post == pre.next(input)
                                    &&& effects =~= pre.output(input)
                                    &&& left_over == pre.left_over(input, fresh)
                                },
                        ),
                    };
                    let input = Input::<R, C, L, T>::OpenRequest {
                        channel_id,
                        channel_type,
                        answer,
                        fresh,
                    };
                    assert(pre.outputs(input, effects) && post == pre.next(input));
                },
                None => {
                    let input = frame_input::<R, C, L, T>(frame, fresh);
                    assert(pre.outputs(input, effects) && post == pre.next(input));
                },
            }
        },
        Event::Cancelled if pre.status is Running => {
            let input = Input::<R, C, L, T>::Shutdown;
            assert(pre.outputs(input, effects) && post == pre.next(input));
        },
        Event::OutgoingFrame(Some(frame)) => {
            let input = Input::<R, C, L, T>::Outgoing { frame };
            assert(pre.outputs(input, effects) && post == pre.next(input));
        },
        Event::Command(Some(command)) => {
            let input = command_input::<R, C, L, T>(command);
            assert(pre.outputs(input, effects) && post == pre.next(input));
        },
        _ => {},
    }
}

} // verus!
