//! The messages that go from one mux to the other.

use vstd::prelude::*;

use crate::channel::ChannelId;
use crate::codec::Frame;
use crate::model::{EffectModel, FrameModel, Input, MessageModel, MuxModel};
use crate::peers::{
    agree_on, arrives_as, can_become, in_agreement, in_phases, law_peers_start_in_agreement,
    law_peers_stay_in_agreement, left_step, lemma_arrival, lemma_flipped, lemma_sent, note_of, notes,
    proper, sent, step, Note, Peers, Phase,
};

verus! {

/// The messages of a channel among frames, in order.
pub open spec fn data(frames: Seq<FrameModel>, channel_id: ChannelId) -> Seq<MessageModel>
    decreases frames.len(),
{
    if frames.len() == 0 {
        Seq::empty()
    } else {
        let rest = data(frames.drop_first(), channel_id);
        if frames[0].channel_id == channel_id {
            seq![frames[0].message] + rest
        } else {
            rest
        }
    }
}

/// The messages of frames that follow each other follow each other.
proof fn lemma_data_add(first: Seq<FrameModel>, second: Seq<FrameModel>, channel_id: ChannelId)
    ensures
        data(first + second, channel_id) == data(first, channel_id) + data(second, channel_id),
    decreases first.len(),
{
    if first.len() == 0 {
        assert(first + second =~= second);
        assert(data(first, channel_id) + data(second, channel_id) =~= data(second, channel_id));
    } else {
        lemma_data_add(first.drop_first(), second, channel_id);
        assert((first + second).drop_first() =~= first.drop_first() + second);
        assert(data(first + second, channel_id) =~= data(first, channel_id) + data(
            second,
            channel_id,
        ));
    }
}

/// What a mux adds to the messages of a channel on their way to the peer is what a local task sends
/// on that channel while data passes on it, behind what is on its way already. No other step adds
/// or takes away any.
pub proof fn law_data_goes_out_in_order<R, C, L, T>(
    pre: Peers<R, L>,
    post: Peers<R, L>,
    arrived: Option<Frame>,
    input: Input<R, C, L, T>,
    effects: Seq<EffectModel<R, C, L, T>>,
    channel_id: ChannelId,
)
    requires
        left_step(pre, post, arrived, input, effects),
        channel_id.value != 0,
    ensures
        match input {
            Input::Outgoing { frame } if frame.channel_id == channel_id && pre.left.passes(
                channel_id,
            ) => data(post.to_right, channel_id) == data(pre.to_right, channel_id).push(
                frame.message@,
            ),
            _ => data(post.to_right, channel_id) == data(pre.to_right, channel_id),
        },
{
    lemma_sent(pre.left, input, effects);
    lemma_data_add(pre.to_right, sent(effects), channel_id);
    reveal_with_fuel(data, 2);
    match input {
        Input::Outgoing { frame } if frame.channel_id == channel_id && pre.left.passes(
            channel_id,
        ) => {
            assert(effects == pre.left.output(input));
            assert(sent(effects) =~= seq![frame@]) by {
                reveal_with_fuel(sent, 2);
            }
            assert(data(sent(effects), channel_id) =~= seq![frame.message@]);
            assert(data(post.to_right, channel_id) =~= data(pre.to_right, channel_id).push(
                frame.message@,
            ));
        },
        _ => {
            if let Input::Outgoing { frame } = input {
                if frame.channel_id == channel_id {
                    assert(effects == pre.left.output(input));
                    assert(sent(effects).len() == 0);
                }
            }
            assert(data(sent(effects), channel_id) =~= Seq::<MessageModel>::empty());
            assert(data(post.to_right, channel_id) =~= data(pre.to_right, channel_id));
        },
    }
}

/// The messages of a channel arrive in the order in which they are on their way, one at a time, and
/// each is handed to the channel as it is if data passes on it, and to nobody else.
pub proof fn law_data_arrives_in_order<R, C, L, T>(
    pre: Peers<R, L>,
    post: Peers<R, L>,
    frame: Frame,
    input: Input<R, C, L, T>,
    effects: Seq<EffectModel<R, C, L, T>>,
    channel_id: ChannelId,
)
    requires
        left_step(pre, post, Some(frame), input, effects),
        channel_id.value != 0,
    ensures
        if frame.channel_id == channel_id {
            &&& data(pre.to_left, channel_id) == seq![frame.message@] + data(
                post.to_left,
                channel_id,
            )
            &&& effects == if pre.left.passes(channel_id) {
                seq![
                    EffectModel::<R, C, L, T>::Deliver { channel_id, message: frame.message },
                ]
            } else {
                seq![]
            }
            &&& post.left == pre.left
        } else {
            data(pre.to_left, channel_id) == data(post.to_left, channel_id)
        },
{
}

/// Without an arrival nothing is taken from the messages on their way, and nothing is delivered.
pub proof fn law_nothing_is_delivered_without_an_arrival<R, C, L, T>(
    pre: Peers<R, L>,
    post: Peers<R, L>,
    input: Input<R, C, L, T>,
    effects: Seq<EffectModel<R, C, L, T>>,
    channel_id: ChannelId,
    i: int,
)
    requires
        left_step(pre, post, None, input, effects),
        0 <= i < effects.len(),
    ensures
        data(post.to_left, channel_id) == data(pre.to_left, channel_id),
        !(effects[i] is Deliver),
{
    if input is Shutdown {
        let (refused, closing) = choose|refused: Seq<u128>, closing: Seq<ChannelId>| #[trigger]
            pre.left.shutdown_output(refused, closing, effects);
        if i < refused.len() {
            assert(effects[i] == pre.left.shutdown_refusal::<C, T>(refused[i]));
        }
    } else {
        assert(effects == pre.left.output(input));
    }
}

/// Whether a frame says that the channel is closed or shall be closed.
pub open spec fn closes(frame: FrameModel, id: u128) -> bool {
    note_of(frame, id).len() == 1 && (note_of(frame, id)[0] is CloseRequest || note_of(
        frame,
        id,
    )[0] is Closed)
}

/// Whether a frame says that the channel was opened.
pub open spec fn opens(frame: FrameModel, id: u128) -> bool {
    note_of(frame, id).len() == 1 && note_of(frame, id)[0] is Opened
}

/// Whether the frames on their way to a mux are in order with regard to a channel: no message of it
/// stands behind what closes it, and as long as a running mux does not have the channel open, every
/// message of it stands behind the news that it was opened.
pub open spec fn in_order<R, L>(mux: MuxModel<R, L>, frames: Seq<FrameModel>, id: u128) -> bool {
    &&& forall|i: int, j: int|
        0 <= i < j < frames.len() && #[trigger] closes(frames[i], id) ==> (
        #[trigger] frames[j]).channel_id.value != id
    &&& mux.status is Running && !mux.open.contains_key(id) ==> forall|j: int|
        0 <= j < frames.len() && (#[trigger] frames[j]).channel_id.value == id ==> exists|i: int|
            0 <= i < j && #[trigger] opens(frames[i], id)
}

/// Whether the frames on their way are in order with regard to every channel.
pub open spec fn all_in_order<R, L>(peers: Peers<R, L>) -> bool {
    forall|id: u128|
        id != 0 ==> #[trigger] in_order(peers.left, peers.to_left, id) && in_order(
            peers.right,
            peers.to_right,
            id,
        )
}

/// What one of the frames says is among what the frames say.
proof fn lemma_said(frames: Seq<FrameModel>, id: u128, i: int)
    requires
        0 <= i < frames.len(),
        note_of(frames[i], id).len() == 1,
    ensures
        notes(frames, id).contains(note_of(frames[i], id)[0]),
    decreases frames.len(),
{
    let rest = frames.drop_first();
    let all = notes(frames, id);
    let first = note_of(frames[0], id);
    if i == 0 {
        assert(all[0] == first[0]);
    } else {
        lemma_said(rest, id, i - 1);
        let said = note_of(frames[i], id)[0];
        let k = choose|k: int| 0 <= k < notes(rest, id).len() && notes(rest, id)[k] == said;
        assert(all[first.len() + k] == said);
    }
}

/// What the frames say is said by one of them.
proof fn lemma_said_by(frames: Seq<FrameModel>, id: u128, k: int) -> (i: int)
    requires
        0 <= k < notes(frames, id).len(),
    ensures
        0 <= i < frames.len(),
        note_of(frames[i], id).len() == 1,
        note_of(frames[i], id)[0] == notes(frames, id)[k],
    decreases frames.len(),
{
    let first = note_of(frames[0], id);
    if k < first.len() {
        0
    } else {
        let rest = frames.drop_first();
        let i = lemma_said_by(rest, id, k - first.len());
        assert(rest[i] == frames[i + 1]);
        i + 1
    }
}

/// A step of the left mux keeps what is on its way to it in order.
proof fn lemma_receiver<R, C, L, T>(
    pre: Peers<R, L>,
    post: Peers<R, L>,
    arrived: Option<Frame>,
    input: Input<R, C, L, T>,
    effects: Seq<EffectModel<R, C, L, T>>,
    id: u128,
)
    requires
        in_agreement(pre),
        left_step(pre, post, arrived, input, effects),
        in_order(pre.left, pre.to_left, id),
        id != 0,
    ensures
        in_order(post.left, post.to_left, id),
{
    match arrived {
        None => {},
        Some(frame) => {
            let before = pre.to_left;
            let now = post.to_left;
            assert(proper(before[0]));
            lemma_arrival(frame, input, id);
            assert forall|i: int, j: int|
                0 <= i < j < now.len() && #[trigger] closes(now[i], id) implies (
            #[trigger] now[j]).channel_id.value != id by {
                assert(closes(before[i + 1], id));
                assert(before[j + 1] == now[j]);
            }
            if post.left.status is Running && !post.left.open.contains_key(id) {
                assert forall|j: int|
                    0 <= j < now.len() && (#[trigger] now[j]).channel_id.value
                        == id implies exists|i: int| 0 <= i < j && #[trigger] opens(now[i], id) by {
                    assert(before[j + 1] == now[j]);
                    assert(agree_on(pre, id));
                    let (left, right) = choose|left: Phase, right: Phase| #[trigger]
                        in_phases(pre, id, left, right);
                    if note_of(frame@, id).len() == 1 {
                        assert(notes(before, id)[0] == note_of(frame@, id)[0]);
                    }
                    if pre.left.open.contains_key(id) {
                        assert(closes(before[0], id));
                    } else {
                        let i = choose|i: int| 0 <= i < j + 1 && #[trigger] opens(before[i], id);
                        assert(i > 0);
                        assert(opens(now[i - 1], id));
                    }
                }
            }
        },
    }
}

/// A step of the left mux keeps what is on its way from it in order.
proof fn lemma_sender<R, C, L, T>(
    pre: Peers<R, L>,
    post: Peers<R, L>,
    arrived: Option<Frame>,
    input: Input<R, C, L, T>,
    effects: Seq<EffectModel<R, C, L, T>>,
    id: u128,
)
    requires
        in_agreement(pre),
        left_step(pre, post, arrived, input, effects),
        in_order(pre.right, pre.to_right, id),
        id != 0,
    ensures
        in_order(post.right, post.to_right, id),
{
    lemma_sent(pre.left, input, effects);
    if let Some(frame) = arrived {
        assert(proper(pre.to_left[0]));
        lemma_arrival(frame, input, id);
    }
    let before = pre.to_right;
    let now = post.to_right;
    assert(forall|i: int| 0 <= i < before.len() ==> now[i] == before[i]);
    let adds = sent(effects).len() == 1 && sent(effects)[0].channel_id.value == id;
    if adds {
        assert(input is Outgoing);
        assert(effects == pre.left.output(input));
        assert(agree_on(pre, id));
        let (left, right) = choose|left: Phase, right: Phase| #[trigger]
            in_phases(pre, id, left, right);
        assert(left is Open);
        assert forall|i: int| 0 <= i < before.len() implies !(#[trigger] closes(before[i], id)) by {
            if closes(before[i], id) {
                lemma_said(before, id, i);
            }
        }
        if pre.right.status is Running && !pre.right.open.contains_key(id) {
            assert(notes(before, id)[0] is Opened);
            let i = lemma_said_by(before, id, 0);
            assert(opens(now[i], id));
        }
    }
    assert forall|i: int, j: int|
        0 <= i < j < now.len() && #[trigger] closes(now[i], id) implies (
    #[trigger] now[j]).channel_id.value != id by {
        assert(closes(before[i], id));
        if j < before.len() {
            assert(before[j] == now[j]);
        }
    }
    if post.right.status is Running && !post.right.open.contains_key(id) {
        assert forall|j: int|
            0 <= j < now.len() && (#[trigger] now[j]).channel_id.value == id implies exists|i: int|
            0 <= i < j && #[trigger] opens(now[i], id) by {
            if j < before.len() {
                assert(before[j] == now[j]);
                let i = choose|i: int| 0 <= i < j && #[trigger] opens(before[i], id);
                assert(opens(now[i], id));
            } else {
                assert(adds);
            }
        }
    }
}

/// Muxes in agreement keep the frames on their way in order.
pub proof fn law_frames_stay_in_order<R, C, L, T>(
    pre: Peers<R, L>,
    post: Peers<R, L>,
    on_left: bool,
    arrived: Option<Frame>,
    input: Input<R, C, L, T>,
    effects: Seq<EffectModel<R, C, L, T>>,
)
    requires
        in_agreement(pre),
        all_in_order(pre),
        step(pre, post, on_left, arrived, input, effects),
    ensures
        all_in_order(post),
{
    if !on_left {
        lemma_flipped(pre);
    }
    assert forall|id: u128| id != 0 implies #[trigger] in_order(post.left, post.to_left, id)
        && in_order(post.right, post.to_right, id) by {
        assert(in_order(pre.left, pre.to_left, id));
        if on_left {
            lemma_receiver(pre, post, arrived, input, effects, id);
            lemma_sender(pre, post, arrived, input, effects, id);
        } else {
            lemma_receiver(pre.flipped(), post.flipped(), arrived, input, effects, id);
            lemma_sender(pre.flipped(), post.flipped(), arrived, input, effects, id);
        }
    }
}

/// Between muxes that started without channels the frames are in order at every moment.
pub proof fn law_frames_are_always_in_order<R, C, L, T>(moments: Seq<Peers<R, L>>)
    requires
        moments.len() > 0,
        moments[0] == Peers::<R, L>::at_first(),
        forall|i: int|
            0 < i < moments.len() ==> can_become::<R, C, L, T>(
                moments[i - 1],
                #[trigger] moments[i],
            ),
    ensures
        in_agreement(moments.last()),
        all_in_order(moments.last()),
    decreases moments.len(),
{
    if moments.len() == 1 {
        law_peers_start_in_agreement::<R, L>();
    } else {
        let earlier = moments.drop_last();
        assert forall|i: int| 0 < i < earlier.len() implies can_become::<R, C, L, T>(
            earlier[i - 1],
            #[trigger] earlier[i],
        ) by {
            assert(can_become::<R, C, L, T>(moments[i - 1], moments[i]));
        }
        law_frames_are_always_in_order::<R, C, L, T>(earlier);
        let pre = earlier.last();
        let post = moments.last();
        assert(can_become::<R, C, L, T>(pre, post));
        let (on_left, arrived, input, effects) = choose|
            on_left: bool,
            arrived: Option<Frame>,
            input: Input<R, C, L, T>,
            effects: Seq<EffectModel<R, C, L, T>>,
        | #[trigger]
            step(pre, post, on_left, arrived, input, effects);
        law_peers_stay_in_agreement(pre, post, on_left, arrived, input, effects);
        law_frames_stay_in_order(pre, post, on_left, arrived, input, effects);
    }
}

/// Data never comes too early: a message that arrives at a running mux arrives on a channel that is
/// open there, and not on one that is pending or unknown. It is delivered, unless this side has
/// asked to close the channel.
pub proof fn law_data_arrives_on_open_channels<R, C, L, T>(
    peers: Peers<R, L>,
    frame: Frame,
    input: Input<R, C, L, T>,
)
    requires
        in_agreement(peers),
        all_in_order(peers),
        peers.left.status is Running,
        peers.to_left.len() > 0,
        peers.to_left[0] == frame@,
        frame.channel_id.value != 0,
        arrives_as(frame, input),
    ensures
        peers.left.open.contains_key(frame.channel_id.value),
        !peers.left.pending.contains_key(frame.channel_id.value),
        peers.left.open[frame.channel_id.value].status is NotAwaitingCloseResponse
            ==> peers.left.output(input) == seq![
            EffectModel::<R, C, L, T>::Deliver {
                channel_id: frame.channel_id,
                message: frame.message,
            },
        ],
{
    let id = frame.channel_id.value;
    assert(in_order(peers.left, peers.to_left, id));
    assert(peers.to_left[0].channel_id.value == id);
}

} // verus!
