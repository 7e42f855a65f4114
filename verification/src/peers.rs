//! Two muxes that talk to each other: what each of them knows of a channel, given what is on its
//! way between them.

use vstd::prelude::*;

use crate::channel::{ChannelId, ChannelType};
use crate::codec::Frame;
use crate::ident::Uuid;
use crate::laws::{law_other_channels_untouched, law_stays_valid, subject};
use crate::model::{
    frame_input, requested_channel, ControlModel, EffectModel, FrameModel, Input, MessageModel,
    MuxModel,
};
use crate::mux::MuxStatus;

verus! {

/// Two muxes and the frames that are on their way from one to the other, the oldest first.
pub struct Peers<R, L> {
    pub left: MuxModel<R, L>,
    pub right: MuxModel<R, L>,
    pub to_left: Seq<FrameModel>,
    pub to_right: Seq<FrameModel>,
}

impl<R, L> Peers<R, L> {
    /// The same peers, seen from the other side.
    pub open spec fn flipped(self) -> Self {
        Peers {
            left: self.right,
            right: self.left,
            to_left: self.to_right,
            to_right: self.to_left,
        }
    }

    /// Two running muxes without channels, and nothing on its way.
    pub open spec fn at_first() -> Self {
        let mux = MuxModel {
            status: MuxStatus::Running,
            open: Map::empty(),
            pending: Map::empty(),
        };
        Peers { left: mux, right: mux, to_left: Seq::empty(), to_right: Seq::empty() }
    }
}

/// The frames among effects, in order.
pub open spec fn sent<R, C, L, T>(effects: Seq<EffectModel<R, C, L, T>>) -> Seq<FrameModel>
    decreases effects.len(),
{
    if effects.len() == 0 {
        Seq::empty()
    } else {
        let rest = sent(effects.drop_first());
        match effects[0] {
            EffectModel::SendFrame(frame) => seq![frame] + rest,
            _ => rest,
        }
    }
}

/// Whether an input comes from a local task. Local tasks send on the channels that they were given,
/// and not on the control channel.
pub open spec fn local<R, C, L, T>(input: Input<R, C, L, T>) -> bool {
    match input {
        Input::OpenCommand { .. } => true,
        Input::CloseCommand { .. } => true,
        Input::Outgoing { frame } => frame.channel_id.value != 0,
        Input::Shutdown => true,
        _ => false,
    }
}

/// Whether a frame that arrives is the input, with whatever the acceptor answers.
pub open spec fn arrives_as<R, C, L, T>(frame: Frame, input: Input<R, C, L, T>) -> bool {
    match requested_channel(frame) {
        Some((requested_id, requested_type)) => input matches Input::OpenRequest {
            channel_id,
            channel_type,
            ..
        } && channel_id == requested_id && channel_type == requested_type,
        None => exists|fresh: L| input == #[trigger] frame_input::<R, C, L, T>(frame, fresh),
    }
}

/// Whether the left mux takes `pre` to `post`, on a frame that has arrived or on a local input.
pub open spec fn left_step<R, C, L, T>(
    pre: Peers<R, L>,
    post: Peers<R, L>,
    arrived: Option<Frame>,
    input: Input<R, C, L, T>,
    effects: Seq<EffectModel<R, C, L, T>>,
) -> bool {
    &&& pre.left.outputs(input, effects)
    &&& post.left == pre.left.next(input)
    &&& post.right == pre.right
    &&& post.to_right == pre.to_right + sent(effects)
    &&& match arrived {
        None => local(input) && post.to_left == pre.to_left,
        Some(frame) => {
            &&& pre.to_left.len() > 0
            &&& pre.to_left[0] == frame@
            &&& arrives_as(frame, input)
            &&& post.to_left == pre.to_left.drop_first()
        },
    }
}

/// Whether one of the muxes takes `pre` to `post`: the left one, or the right one.
pub open spec fn step<R, C, L, T>(
    pre: Peers<R, L>,
    post: Peers<R, L>,
    on_left: bool,
    arrived: Option<Frame>,
    input: Input<R, C, L, T>,
    effects: Seq<EffectModel<R, C, L, T>>,
) -> bool {
    if on_left {
        left_step(pre, post, arrived, input, effects)
    } else {
        left_step(pre.flipped(), post.flipped(), arrived, input, effects)
    }
}

/// Whether `pre` can become `post` in one step.
pub open spec fn can_become<R, C, L, T>(pre: Peers<R, L>, post: Peers<R, L>) -> bool {
    exists|
        on_left: bool,
        arrived: Option<Frame>,
        input: Input<R, C, L, T>,
        effects: Seq<EffectModel<R, C, L, T>>,
    | #[trigger]
        step(pre, post, on_left, arrived, input, effects)
}

/// What a control frame says about a channel.
pub enum Note {
    OpenRequest(ChannelType),
    Opened,
    OpenFailed,
    CloseRequest,
    Closed,
}

/// What a frame says about the channel: nothing, or one thing.
pub open spec fn note_of(frame: FrameModel, id: u128) -> Seq<Note> {
    if frame.channel_id.value != 0 {
        Seq::empty()
    } else {
        match frame.message {
            MessageModel::Control(
                ControlModel::OpenChannelRequest { channel_id, channel_type },
            ) if channel_id.value == id => seq![Note::OpenRequest(channel_type)],
            MessageModel::Control(
                ControlModel::OpenChannelResponse { channel_id, result },
            ) if channel_id.value == id => seq![
                if result is Ok {
                    Note::Opened
                } else {
                    Note::OpenFailed
                },
            ],
            MessageModel::Control(
                ControlModel::CloseChannelRequest { channel_id },
            ) if channel_id.value == id => seq![Note::CloseRequest],
            MessageModel::Control(
                ControlModel::CloseChannelResponse { channel_id, .. },
            ) if channel_id.value == id => seq![Note::Closed],
            _ => Seq::empty(),
        }
    }
}

/// What the frames say about the channel, in order.
pub open spec fn notes(frames: Seq<FrameModel>, id: u128) -> Seq<Note>
    decreases frames.len(),
{
    if frames.len() == 0 {
        Seq::empty()
    } else {
        note_of(frames[0], id) + notes(frames.drop_first(), id)
    }
}

/// Whether a frame belongs where it is: on the control channel, only the requests and responses
/// that open and close channels.
pub open spec fn proper(frame: FrameModel) -> bool {
    frame.channel_id.value == 0 ==> match frame.message {
        MessageModel::Control(ControlModel::CloseChannel { .. }) => false,
        MessageModel::Control(_) => true,
        MessageModel::Data(_) => false,
    }
}

/// How far one side is with a channel.
pub enum Phase {
    /// It does not know the channel.
    Unknown,
    /// It has asked for the channel and has not seen the answer.
    Asking(ChannelType),
    /// The channel is open.
    Open(ChannelType),
    /// It has asked to close the channel and has not seen the answer.
    Closing(ChannelType),
}

/// Whether a mux is in the phase with the channel. A mux that shuts down has forgotten what it has
/// asked for.
pub open spec fn in_phase<R, L>(mux: MuxModel<R, L>, id: u128, phase: Phase) -> bool {
    match phase {
        Phase::Unknown => !mux.open.contains_key(id) && !mux.pending.contains_key(id),
        Phase::Asking(channel_type) => {
            &&& !mux.open.contains_key(id)
            &&& mux.pending.contains_key(id) ==> mux.pending[id].channel_type == channel_type
            &&& mux.pending.contains_key(id) || mux.status is ShuttingDown
        },
        Phase::Open(channel_type) => {
            &&& mux.open.contains_key(id)
            &&& mux.open[id].status is NotAwaitingCloseResponse
            &&& mux.open[id].channel_type == channel_type
        },
        Phase::Closing(channel_type) => {
            &&& mux.open.contains_key(id)
            &&& mux.open[id].status is AwaitingCloseResponse
            &&& mux.open[id].channel_type == channel_type
        },
    }
}

/// Whether nothing is said.
pub open spec fn none(notes: Seq<Note>) -> bool {
    notes.len() == 0
}

/// Whether one thing is said.
pub open spec fn one(notes: Seq<Note>, note: Note) -> bool {
    notes.len() == 1 && notes[0] == note
}

/// Whether two things are said, in this order.
pub open spec fn two(notes: Seq<Note>, first: Note, second: Note) -> bool {
    notes.len() == 2 && notes[0] == first && notes[1] == second
}

/// The phases in which the two sides can be, with what is then on its way to each of them. `down`
/// says whether the mux on this side shuts down. The other half is the same seen from the other
/// side.
pub open spec fn half_table(
    here: Phase,
    there: Phase,
    to_here: Seq<Note>,
    to_there: Seq<Note>,
    down: bool,
) -> bool {
    match (here, there) {
        (Phase::Unknown, Phase::Unknown) => none(to_here) && none(to_there),
        (Phase::Unknown, Phase::Open(_)) => down && none(to_here) && none(to_there),
        (Phase::Unknown, Phase::Closing(_)) => {
            ||| none(to_here) && one(to_there, Note::Closed)
            ||| down && one(to_here, Note::CloseRequest) && none(to_there)
        },
        (Phase::Asking(t), Phase::Unknown) => {
            ||| none(to_here) && one(to_there, Note::OpenRequest(t))
            ||| one(to_here, Note::OpenFailed) && none(to_there)
        },
        (Phase::Asking(t), Phase::Asking(u)) => {
            ||| one(to_here, Note::OpenRequest(u)) && one(to_there, Note::OpenRequest(t))
            ||| two(to_here, Note::OpenRequest(u), Note::OpenFailed) && none(to_there)
            ||| two(to_here, Note::OpenFailed, Note::OpenRequest(u)) && none(to_there)
            ||| one(to_here, Note::OpenFailed) && one(to_there, Note::OpenFailed)
        },
        (Phase::Asking(t), Phase::Open(u)) => {
            t == u && one(to_here, Note::Opened) && none(to_there)
        },
        (Phase::Asking(t), Phase::Closing(u)) => {
            ||| t == u && two(to_here, Note::Opened, Note::CloseRequest) && none(to_there)
            ||| none(to_here) && two(to_there, Note::Closed, Note::OpenRequest(t))
        },
        (Phase::Open(t), Phase::Open(u)) => t == u && none(to_here) && none(to_there),
        (Phase::Open(t), Phase::Closing(u)) => {
            t == u && one(to_here, Note::CloseRequest) && none(to_there)
        },
        (Phase::Closing(t), Phase::Closing(u)) => {
            t == u && {
                ||| one(to_here, Note::CloseRequest) && one(to_there, Note::CloseRequest)
                ||| two(to_here, Note::CloseRequest, Note::Closed) && none(to_there)
                ||| one(to_here, Note::Closed) && one(to_there, Note::Closed)
            }
        },
        _ => false,
    }
}

/// Whether the two sides are in the phases with the channel, and what is on its way fits to that.
pub open spec fn in_phases<R, L>(
    peers: Peers<R, L>,
    id: u128,
    left: Phase,
    right: Phase,
) -> bool {
    let to_left = notes(peers.to_left, id);
    let to_right = notes(peers.to_right, id);
    &&& in_phase(peers.left, id, left)
    &&& in_phase(peers.right, id, right)
    &&& {
        ||| half_table(left, right, to_left, to_right, peers.left.status is ShuttingDown)
        ||| half_table(right, left, to_right, to_left, peers.right.status is ShuttingDown)
    }
}

/// Whether what the two sides know of the channel fits together.
pub open spec fn agree_on<R, L>(peers: Peers<R, L>, id: u128) -> bool {
    exists|left: Phase, right: Phase| #[trigger] in_phases(peers, id, left, right)
}

/// Whether what the two sides know fits together.
pub open spec fn in_agreement<R, L>(peers: Peers<R, L>) -> bool {
    &&& peers.left.valid()
    &&& peers.right.valid()
    &&& forall|i: int| 0 <= i < peers.to_left.len() ==> #[trigger] proper(peers.to_left[i])
    &&& forall|i: int| 0 <= i < peers.to_right.len() ==> #[trigger] proper(peers.to_right[i])
    &&& forall|id: u128| #[trigger] agree_on(peers, id)
}

/// Muxes start in agreement.
pub proof fn law_peers_start_in_agreement<R, L>()
    ensures
        in_agreement(Peers::<R, L>::at_first()),
{
    let peers = Peers::<R, L>::at_first();
    assert forall|id: u128| #[trigger] agree_on(peers, id) by {
        assert(in_phases(peers, id, Phase::Unknown, Phase::Unknown));
    }
}

/// Effects that hold no frame send none.
proof fn lemma_nothing_sent<R, C, L, T>(effects: Seq<EffectModel<R, C, L, T>>)
    requires
        forall|i: int| 0 <= i < effects.len() ==> !(#[trigger] effects[i] is SendFrame),
    ensures
        sent(effects) == Seq::<FrameModel>::empty(),
    decreases effects.len(),
{
    if effects.len() > 0 {
        lemma_nothing_sent(effects.drop_first());
    }
}

/// What is said by frames that follow each other is said in that order.
proof fn lemma_notes_add(first: Seq<FrameModel>, second: Seq<FrameModel>, id: u128)
    ensures
        notes(first + second, id) == notes(first, id) + notes(second, id),
    decreases first.len(),
{
    if first.len() == 0 {
        assert(first + second =~= second);
        assert(notes(first, id) + notes(second, id) =~= notes(second, id));
    } else {
        lemma_notes_add(first.drop_first(), second, id);
        assert((first + second).drop_first() =~= first.drop_first() + second);
        assert(notes(first + second, id) =~= notes(first, id) + notes(second, id));
    }
}

/// The frames that the mux sends on an input, spelled out.
pub(crate) proof fn lemma_sent<R, C, L, T>(
    mux: MuxModel<R, L>,
    input: Input<R, C, L, T>,
    effects: Seq<EffectModel<R, C, L, T>>,
)
    requires
        mux.outputs(input, effects),
    ensures
        input is Shutdown || input is OpenResponse || input is CloseResponse || input is Incoming
            ==> sent(effects).len() == 0,
        sent(effects).len() <= 1,
        input is OpenRequest ==> sent(effects) == seq![effects[0]->SendFrame_0],
        input is CloseRequest ==> sent(effects) == seq![effects.last()->SendFrame_0],
        input is OpenCommand && effects[0] is SendFrame ==> sent(effects) == seq![
            effects[0]->SendFrame_0,
        ],
        input is OpenCommand && !(effects[0] is SendFrame) ==> sent(effects).len() == 0,
        input is CloseCommand && effects.len() == 2 ==> sent(effects) == seq![
            effects[1]->SendFrame_0,
        ],
        input is CloseCommand && effects.len() == 1 ==> sent(effects).len() == 0,
        input matches Input::Outgoing { frame } ==> sent(effects).len() == 0 || sent(effects)
            == seq![frame@],
{
    if input is Shutdown {
        let (refused, closing) = choose|refused: Seq<u128>, closing: Seq<ChannelId>| #[trigger]
            mux.shutdown_output(refused, closing, effects);
        lemma_nothing_sent(effects);
    } else {
        reveal_with_fuel(sent, 3);
        assert(effects == mux.output(input));
        assert(effects.len() <= 2);
        if effects.len() >= 1 {
            assert(effects.drop_first().len() == effects.len() - 1);
            if effects.len() == 2 {
                assert(effects.drop_first()[0] == effects[1]);
                assert(effects.drop_first().drop_first().len() == 0);
            }
        }
        if input is OpenRequest {
            assert(sent(effects) =~= seq![effects[0]->SendFrame_0]);
        }
        if input is CloseRequest {
            assert(sent(effects) =~= seq![effects.last()->SendFrame_0]);
        }
        if input is OpenCommand && effects[0] is SendFrame {
            assert(sent(effects) =~= seq![effects[0]->SendFrame_0]);
        }
        if input is CloseCommand && effects.len() == 2 {
            assert(sent(effects) =~= seq![effects[1]->SendFrame_0]);
        }
        if let Input::Outgoing { frame } = input {
            if effects.len() == 1 {
                assert(sent(effects) =~= seq![frame@]);
            }
        }
    }
}

/// What a mux sends says nothing about channels that the input is not about.
proof fn lemma_sent_about_subject<R, C, L, T>(
    mux: MuxModel<R, L>,
    input: Input<R, C, L, T>,
    effects: Seq<EffectModel<R, C, L, T>>,
    id: u128,
)
    requires
        mux.outputs(input, effects),
        local(input) || !(input is Outgoing),
        subject(input) matches Some(channel_id) ==> channel_id.value != id || input is Outgoing,
    ensures
        notes(sent(effects), id) == Seq::<Note>::empty(),
{
    lemma_sent(mux, input, effects);
    reveal_with_fuel(notes, 2);
    assert(notes(sent(effects), id) =~= Seq::<Note>::empty());
}

/// A step of the left mux that is not about the channel leaves the agreement on it.
proof fn lemma_step_about_another<R, C, L, T>(
    pre: Peers<R, L>,
    post: Peers<R, L>,
    arrived: Option<Frame>,
    input: Input<R, C, L, T>,
    effects: Seq<EffectModel<R, C, L, T>>,
    id: u128,
)
    requires
        in_agreement(pre),
        left_step(pre, post, arrived, input, effects),
        local(input) || !(input is Outgoing),
        arrived matches Some(frame) ==> note_of(frame@, id).len() == 0,
        subject(input) matches Some(channel_id) ==> channel_id.value != id || input is Outgoing
            || input is Incoming,
    ensures
        agree_on(post, id),
{
    assert(agree_on(pre, id));
    let (left, right) = choose|left: Phase, right: Phase| #[trigger]
        in_phases(pre, id, left, right);
    if input is Incoming {
        lemma_sent(pre.left, input, effects);
        assert(notes(sent(effects), id) =~= Seq::<Note>::empty());
    } else {
        lemma_sent_about_subject(pre.left, input, effects, id);
    }
    lemma_notes_add(pre.to_right, sent(effects), id);
    assert(notes(post.to_right, id) =~= notes(pre.to_right, id));
    assert(notes(post.to_left, id) =~= notes(pre.to_left, id));
    if !(input is Incoming || input is Outgoing) {
        law_other_channels_untouched(pre.left, input, id);
    }
    assert(in_phases(post, id, left, right));
}

/// A command about the channel, handled by the left mux, keeps the agreement on it.
proof fn lemma_command<R, C, L, T>(
    pre: Peers<R, L>,
    post: Peers<R, L>,
    input: Input<R, C, L, T>,
    effects: Seq<EffectModel<R, C, L, T>>,
    id: u128,
)
    requires
        in_agreement(pre),
        left_step(pre, post, None, input, effects),
        input is OpenCommand || input is CloseCommand,
        subject(input) matches Some(channel_id) && channel_id.value == id,
    ensures
        agree_on(post, id),
{
    assert(agree_on(pre, id));
    let (left, right) = choose|left: Phase, right: Phase| #[trigger]
        in_phases(pre, id, left, right);
    lemma_sent(pre.left, input, effects);
    lemma_notes_add(pre.to_right, sent(effects), id);
    reveal_with_fuel(notes, 2);
    let said = notes(sent(effects), id);
    let now = match (input, left) {
        (Input::OpenCommand { channel_type, .. }, Phase::Unknown) => if pre.left.status is Running {
            Phase::Asking(channel_type)
        } else {
            left
        },
        (Input::CloseCommand { .. }, Phase::Open(t)) => Phase::Closing(t),
        _ => left,
    };
    match (input, left) {
        (Input::OpenCommand { channel_type, .. }, Phase::Unknown) if pre.left.status is Running => {
            assert(one(said, Note::OpenRequest(channel_type)));
        },
        (Input::CloseCommand { .. }, Phase::Open(t)) => {
            assert(one(said, Note::CloseRequest));
        },
        _ => {
            assert(none(said));
        },
    }
    assert(in_phases(post, id, now, right));
}

/// The channel that a frame on the control channel is about is the subject of the input.
pub(crate) proof fn lemma_arrival<R, C, L, T>(frame: Frame, input: Input<R, C, L, T>, id: u128)
    requires
        arrives_as(frame, input),
        proper(frame@),
    ensures
        !(input is Outgoing) && !(input is Shutdown),
        note_of(frame@, id).len() <= 1,
        note_of(frame@, id).len() == 1 ==> {
            &&& subject(input) matches Some(channel_id) && channel_id.value == id
            &&& !(input is Incoming)
            &&& match note_of(frame@, id)[0] {
                Note::OpenRequest(t) => input matches Input::OpenRequest { channel_type, .. }
                    && channel_type == t,
                Note::Opened => input matches Input::OpenResponse { result, .. } && result is Ok,
                Note::OpenFailed => input matches Input::OpenResponse { result, .. }
                    && result is Err,
                Note::CloseRequest => input is CloseRequest,
                Note::Closed => input is CloseResponse,
            }
        },
        note_of(frame@, id).len() == 0 ==> (subject(input) matches Some(channel_id)
            && channel_id.value != id) || input is Incoming,
{
}

/// A frame about the channel, handled by the left mux, keeps the agreement on it.
proof fn lemma_frame<R, C, L, T>(
    pre: Peers<R, L>,
    post: Peers<R, L>,
    frame: Frame,
    input: Input<R, C, L, T>,
    effects: Seq<EffectModel<R, C, L, T>>,
    id: u128,
)
    requires
        in_agreement(pre),
        left_step(pre, post, Some(frame), input, effects),
        note_of(frame@, id).len() == 1,
    ensures
        agree_on(post, id),
{
    assert(agree_on(pre, id));
    let (left, right) = choose|left: Phase, right: Phase| #[trigger]
        in_phases(pre, id, left, right);
    assert(proper(pre.to_left[0]));
    lemma_arrival(frame, input, id);
    lemma_sent(pre.left, input, effects);
    lemma_notes_add(pre.to_right, sent(effects), id);
    reveal_with_fuel(notes, 2);
    let note = note_of(frame@, id)[0];
    let said = notes(sent(effects), id);
    assert(notes(pre.to_left, id)[0] == note);
    assert(notes(pre.to_left, id).len() == 1 + notes(post.to_left, id).len());
    assert(notes(post.to_left, id).len() == 1 ==> notes(post.to_left, id)[0] == notes(
        pre.to_left,
        id,
    )[1]);
    let now = match (note, left) {
        (Note::OpenRequest(t), Phase::Unknown) => if pre.left.opens(input) {
            Phase::Open(t)
        } else {
            left
        },
        (Note::Opened, Phase::Asking(t)) => if pre.left.opens(input) {
            Phase::Open(t)
        } else {
            Phase::Unknown
        },
        (Note::OpenFailed, _) => Phase::Unknown,
        (Note::CloseRequest, Phase::Open(_)) => Phase::Unknown,
        (Note::Closed, _) => Phase::Unknown,
        _ => left,
    };
    match note {
        Note::OpenRequest(t) => {
            assert(one(said, if pre.left.opens(input) { Note::Opened } else { Note::OpenFailed }));
        },
        Note::CloseRequest => {
            assert(one(said, Note::Closed));
        },
        _ => {
            assert(none(said));
        },
    }
    assert(in_phases(post, id, now, right));
}

/// Agreement looks the same from both sides.
pub(crate) proof fn lemma_flipped<R, L>(peers: Peers<R, L>)
    requires
        in_agreement(peers),
    ensures
        in_agreement(peers.flipped()),
{
    assert forall|id: u128| #[trigger] agree_on(peers.flipped(), id) by {
        assert(agree_on(peers, id));
        let (left, right) = choose|left: Phase, right: Phase| #[trigger]
            in_phases(peers, id, left, right);
        assert(in_phases(peers.flipped(), id, right, left));
    }
}

/// A step of the left mux keeps the agreement.
proof fn lemma_left_step<R, C, L, T>(
    pre: Peers<R, L>,
    post: Peers<R, L>,
    arrived: Option<Frame>,
    input: Input<R, C, L, T>,
    effects: Seq<EffectModel<R, C, L, T>>,
)
    requires
        in_agreement(pre),
        left_step(pre, post, arrived, input, effects),
    ensures
        in_agreement(post),
{
    law_stays_valid(pre.left, input);
    lemma_sent(pre.left, input, effects);
    if let Some(frame) = arrived {
        assert(proper(pre.to_left[0]));
        lemma_arrival(frame, input, 0);
    }
    assert forall|i: int| 0 <= i < post.to_left.len() implies #[trigger] proper(
        post.to_left[i],
    ) by {
        if arrived is Some {
            assert(proper(pre.to_left[i + 1]));
        } else {
            assert(proper(pre.to_left[i]));
        }
    }
    assert forall|i: int| 0 <= i < post.to_right.len() implies #[trigger] proper(
        post.to_right[i],
    ) by {
        if i < pre.to_right.len() {
            assert(proper(pre.to_right[i]));
        }
    }
    assert forall|id: u128| #[trigger] agree_on(post, id) by {
        match arrived {
            Some(frame) => {
                lemma_arrival(frame, input, id);
                if note_of(frame@, id).len() == 1 {
                    lemma_frame(pre, post, frame, input, effects, id);
                } else {
                    lemma_step_about_another(pre, post, arrived, input, effects, id);
                }
            },
            None => {
                if (input is OpenCommand || input is CloseCommand) && subject(input)
                    == Some::<ChannelId>(Uuid { value: id }) {
                    lemma_command(pre, post, input, effects, id);
                } else {
                    lemma_step_about_another(pre, post, arrived, input, effects, id);
                }
            },
        }
    }
}

/// Muxes stay in agreement, whatever local tasks ask for, whatever the acceptors answer, and
/// whenever one of them shuts down.
pub proof fn law_peers_stay_in_agreement<R, C, L, T>(
    pre: Peers<R, L>,
    post: Peers<R, L>,
    on_left: bool,
    arrived: Option<Frame>,
    input: Input<R, C, L, T>,
    effects: Seq<EffectModel<R, C, L, T>>,
)
    requires
        in_agreement(pre),
        step(pre, post, on_left, arrived, input, effects),
    ensures
        in_agreement(post),
{
    if on_left {
        lemma_left_step(pre, post, arrived, input, effects);
    } else {
        lemma_flipped(pre);
        lemma_left_step(pre.flipped(), post.flipped(), arrived, input, effects);
        lemma_flipped(post.flipped());
        assert(post.flipped().flipped() == post);
    }
}

/// Muxes that started without channels are in agreement at every moment.
pub proof fn law_peers_always_agree<R, C, L, T>(moments: Seq<Peers<R, L>>)
    requires
        moments.len() > 0,
        moments[0] == Peers::<R, L>::at_first(),
        forall|i: int|
            0 < i < moments.len() ==> can_become::<R, C, L, T>(
                moments[i - 1],
                #[trigger] moments[i],
            ),
    ensures
        in_agreement(moments.last()),
    decreases moments.len(),
{
    if moments.len() == 1 {
        law_peers_start_in_agreement::<R, L>();
    } else {
        let earlier = moments.drop_last();
        assert forall|i: int| 0 < i < earlier.len() implies can_become::<R, C, L, T>(
            earlier[i - 1],
            #[trigger] earlier[i],
        ) by {
            assert(can_become::<R, C, L, T>(moments[i - 1], moments[i]));
        }
        law_peers_always_agree::<R, C, L, T>(earlier);
        let pre = earlier.last();
        let post = moments.last();
        assert(can_become::<R, C, L, T>(pre, post));
        let (on_left, arrived, input, effects) = choose|
            on_left: bool,
            arrived: Option<Frame>,
            input: Input<R, C, L, T>,
            effects: Seq<EffectModel<R, C, L, T>>,
        | #[trigger]
            step(pre, post, on_left, arrived, input, effects);
        law_peers_stay_in_agreement(pre, post, on_left, arrived, input, effects);
    }
}

/// Once nothing about a channel is on its way, running muxes know the same of it: either it is open
/// on both sides, with the same type, or neither side knows it.
pub proof fn law_quiet_peers_know_the_same<R, L>(peers: Peers<R, L>, channel_id: ChannelId)
    requires
        in_agreement(peers),
        peers.left.status is Running,
        peers.right.status is Running,
        notes(peers.to_left, channel_id.value).len() == 0,
        notes(peers.to_right, channel_id.value).len() == 0,
    ensures
        !peers.left.pending.contains_key(channel_id.value),
        !peers.right.pending.contains_key(channel_id.value),
        peers.left.open.contains_key(channel_id.value) == peers.left.passes(channel_id),
        peers.right.open.contains_key(channel_id.value) == peers.right.passes(channel_id),
        peers.left.passes(channel_id) == peers.right.passes(channel_id),
        peers.left.passes(channel_id) ==> peers.left.open[channel_id.value].channel_type
            == peers.right.open[channel_id.value].channel_type,
{
    assert(agree_on(peers, channel_id.value));
}

/// A channel that is open on one side is known on the other one with the same type, or the other
/// side has asked for it and the news is on its way, or the other side is shutting down.
pub proof fn law_open_channel_is_known_to_the_peer<R, L>(peers: Peers<R, L>, channel_id: ChannelId)
    requires
        in_agreement(peers),
        peers.left.passes(channel_id),
    ensures
        ({
            let id = channel_id.value;
            let channel_type = peers.left.open[id].channel_type;
            ||| {
                &&& peers.right.open.contains_key(id)
                &&& peers.right.open[id].channel_type == channel_type
            }
            ||| {
                &&& peers.right.pending.contains_key(id)
                &&& peers.right.pending[id].channel_type == channel_type
                &&& notes(peers.to_right, id).contains(Note::Opened)
            }
            ||| peers.right.status is ShuttingDown
        }),
{
    let id = channel_id.value;
    assert(agree_on(peers, id));
    if notes(peers.to_right, id).len() == 1 {
        assert(notes(peers.to_right, id).contains(notes(peers.to_right, id)[0]));
    }
}

/// Every answer that arrives was asked for: a mux gets the response to a close request only while it
/// waits for one, and the response to an open request only while the channel is pending, unless it
/// has begun to shut down in the meantime. No peer sends what makes a mux shut down.
pub proof fn law_answers_are_expected<R, C, L, T>(
    peers: Peers<R, L>,
    frame: Frame,
    input: Input<R, C, L, T>,
)
    requires
        in_agreement(peers),
        peers.to_left.len() > 0,
        peers.to_left[0] == frame@,
        arrives_as(frame, input),
    ensures
        !(input is Shutdown),
        input matches Input::CloseResponse { channel_id } ==> peers.left.open.contains_key(
            channel_id.value,
        ) && !peers.left.passes(channel_id),
        input matches Input::OpenResponse { channel_id, .. } ==> peers.left.pending.contains_key(
            channel_id.value,
        ) || peers.left.status is ShuttingDown,
{
    assert(proper(peers.to_left[0]));
    lemma_arrival(frame, input, 0);
    if let Some(channel_id) = subject(input) {
        let id = channel_id.value;
        lemma_arrival(frame, input, id);
        if note_of(frame@, id).len() == 1 {
            assert(notes(peers.to_left, id)[0] == note_of(frame@, id)[0]);
            assert(agree_on(peers, id));
        }
    }
}

/// No question is forgotten: while a mux waits for an answer about a channel, the question or the
/// answer is on its way.
pub proof fn law_no_question_is_forgotten<R, L>(peers: Peers<R, L>, channel_id: ChannelId)
    requires
        in_agreement(peers),
        peers.left.pending.contains_key(channel_id.value) || (peers.left.open.contains_key(
            channel_id.value,
        ) && !peers.left.passes(channel_id)),
    ensures
        ({
            let to_left = notes(peers.to_left, channel_id.value);
            let to_right = notes(peers.to_right, channel_id.value);
            if peers.left.pending.contains_key(channel_id.value) {
                ||| to_right.contains(
                    Note::OpenRequest(peers.left.pending[channel_id.value].channel_type),
                )
                ||| to_left.contains(Note::Opened)
                ||| to_left.contains(Note::OpenFailed)
            } else {
                ||| to_right.contains(Note::CloseRequest)
                ||| to_left.contains(Note::Closed)
            }
        }),
{
    let to_left = notes(peers.to_left, channel_id.value);
    let to_right = notes(peers.to_right, channel_id.value);
    assert(agree_on(peers, channel_id.value));
    if to_left.len() > 0 {
        assert(to_left.contains(to_left[0]));
    }
    if to_left.len() > 1 {
        assert(to_left.contains(to_left[1]));
    }
    if to_right.len() > 0 {
        assert(to_right.contains(to_right[0]));
    }
    if to_right.len() > 1 {
        assert(to_right.contains(to_right[1]));
    }
}

} // verus!
