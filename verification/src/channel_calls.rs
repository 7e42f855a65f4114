//! What calls on the ends of a channel come to.

use vstd::prelude::*;

use crate::channel::{
    channel, ChannelAcceptor, ChannelId, ChannelPollSender, ChannelReceiver, ChannelSender,
    ChannelType, FnChannelAcceptor, ParseError, WriteStep,
};
use crate::codec::Frame;
use crate::ident::Uuid;
use crate::message::Message;
use crate::mux::{CloseChannelCommandReply, Command, MuxError, MuxHandle};

verus! {

/// Every payload, of every length, comes out of the receiver as it went in.
pub proof fn law_payload_is_read_whole(
    receiver: ChannelReceiver,
    data: Vec<u8>,
    item: Option<Vec<u8>>,
)
    requires
        call_ensures(
            ChannelReceiver::poll_next,
            (&receiver, Some(Message::RawData(data))),
            item,
        ),
    ensures
        item matches Some(read) && read@ == data@,
{
}

/// The byte stream ends with the channel and with every message that is not raw data, and with
/// nothing else.
pub proof fn law_byte_stream_ends(
    receiver: ChannelReceiver,
    message: Option<Message>,
    item: Option<Vec<u8>>,
)
    requires
        call_ensures(ChannelReceiver::poll_next, (&receiver, message), item),
    ensures
        item is None <==> (message is None || !(message->0 is RawData)),
{
}

/// With room, a write takes the first bytes, as many as there are up to a mebibyte, and puts them
/// into a frame of raw data on the channel.
pub proof fn law_write_takes_the_first_bytes(
    sender: ChannelPollSender,
    buf: &[u8],
    step: WriteStep,
)
    requires
        call_ensures(ChannelPollSender::poll_write, (&sender, buf, Some(Ok(()))), step),
    ensures
        step matches WriteStep::Send {
            frame: Frame { channel_id, message: Message::RawData(data) },
            written,
        } && channel_id == sender.channel_id && data@ == buf@.take(written as int) && written
            == if buf@.len() < 1048576 {
            buf@.len()
        } else {
            1048576
        },
{
}

/// Without room a write waits.
pub proof fn law_write_waits_for_room(sender: ChannelPollSender, buf: &[u8], step: WriteStep)
    requires
        call_ensures(ChannelPollSender::poll_write, (&sender, buf, None), step),
    ensures
        step is Pending,
{
}

/// One write and one read: what is read is what the write took, and a write of something takes
/// something.
pub proof fn law_what_is_written_is_read(
    sender: ChannelPollSender,
    receiver: ChannelReceiver,
    buf: &[u8],
    frame: Frame,
    written: usize,
    item: Option<Vec<u8>>,
)
    requires
        call_ensures(
            ChannelPollSender::poll_write,
            (&sender, buf, Some(Ok(()))),
            WriteStep::Send { frame, written },
        ),
        call_ensures(ChannelReceiver::poll_next, (&receiver, Some(frame.message)), item),
    ensures
        item matches Some(read) && read@ == buf@.take(written as int),
        written <= buf@.len(),
        buf@.len() > 0 ==> written > 0,
{
    law_write_takes_the_first_bytes(sender, buf, WriteStep::Send { frame, written });
    let data = frame.message->RawData_0;
    law_payload_is_read_whole(receiver, data, item);
}

/// The whole of a write, over as many frames as it takes: where each write goes on behind what the
/// write before it took, until all is taken, the items that the receiver makes of the frames are,
/// joined in order, the bytes that were written.
pub proof fn law_stream_is_read_back(
    sender: ChannelPollSender,
    receiver: ChannelReceiver,
    bytes: Seq<u8>,
    bufs: Seq<&[u8]>,
    frames: Seq<Frame>,
    written: Seq<usize>,
    items: Seq<Vec<u8>>,
)
    requires
        bufs.len() == frames.len() == written.len() == items.len(),
        bufs.len() == 0 ==> bytes.len() == 0,
        bufs.len() > 0 ==> bufs[0]@ == bytes,
        forall|i: int|
            0 <= i < bufs.len() ==> call_ensures(
                ChannelPollSender::poll_write,
                (&sender, #[trigger] bufs[i], Some(Ok(()))),
                WriteStep::Send { frame: frames[i], written: written[i] },
            ),
        forall|i: int|
            0 <= i < bufs.len() ==> call_ensures(
                ChannelReceiver::poll_next,
                (&receiver, Some((#[trigger] frames[i]).message)),
                Some(items[i]),
            ),
        forall|i: int|
            0 < i < bufs.len() ==> (#[trigger] bufs[i])@ == bufs[i - 1]@.skip(
                written[i - 1] as int,
            ),
        bufs.len() > 0 ==> bufs.last()@.len() == written.last(),
    ensures
        items.map_values(|item: Vec<u8>| item@).flatten() == bytes,
    decreases bufs.len(),
{
    let read = items.map_values(|item: Vec<u8>| item@);
    if bufs.len() == 0 {
        assert(read.flatten() =~= Seq::<u8>::empty());
        assert(bytes =~= Seq::<u8>::empty());
    } else {
        assert(bufs[0]@ == bytes);
        assert(frames[0].message == frames[0].message);
        law_what_is_written_is_read(
            sender,
            receiver,
            bufs[0],
            frames[0],
            written[0],
            Some(items[0]),
        );
        let rest = bytes.skip(written[0] as int);
        let later_bufs = bufs.drop_first();
        let later_frames = frames.drop_first();
        let later_written = written.drop_first();
        let later_items = items.drop_first();
        assert forall|i: int| 0 <= i < later_bufs.len() implies call_ensures(
            ChannelPollSender::poll_write,
            (&sender, #[trigger] later_bufs[i], Some(Ok(()))),
            WriteStep::Send { frame: later_frames[i], written: later_written[i] },
        ) by {
            assert(later_bufs[i] == bufs[i + 1]);
        }
        assert forall|i: int| 0 <= i < later_bufs.len() implies call_ensures(
            ChannelReceiver::poll_next,
            (&receiver, Some((#[trigger] later_frames[i]).message)),
            Some(later_items[i]),
        ) by {
            assert(later_frames[i] == frames[i + 1]);
        }
        assert forall|i: int| 0 < i < later_bufs.len() implies (#[trigger] later_bufs[i])@
            == later_bufs[i - 1]@.skip(later_written[i - 1] as int) by {
            assert(later_bufs[i] == bufs[i + 1]);
        }
        if bufs.len() > 1 {
            assert(bufs[1]@ == rest);
        }
        law_stream_is_read_back(
            sender,
            receiver,
            rest,
            later_bufs,
            later_frames,
            later_written,
            later_items,
        );
        let later_read = later_items.map_values(|item: Vec<u8>| item@);
        assert(read.drop_first() =~= later_read);
        assert(read.flatten() == read.first() + later_read.flatten());
        assert(bytes.take(written[0] as int) + rest =~= bytes);
    }
}

/// A channel is split into two ends that both belong to it.
pub proof fn law_ends_belong_to_the_channel(
    channel_id: ChannelId,
    channel_type: ChannelType,
    ends: (ChannelSender, ChannelReceiver),
    poll_sender: ChannelPollSender,
)
    requires
        call_ensures(channel, (channel_id, channel_type), ends),
        call_ensures(ChannelPollSender::new, (ends.0,), poll_sender),
    ensures
        ends.0.channel_id == channel_id,
        ends.0.channel_type == channel_type,
        ends.1.channel_id == channel_id,
        ends.1.channel_type == channel_type,
        poll_sender.channel_id == channel_id,
        poll_sender.channel_type == channel_type,
{
}

/// A message goes out as it is, on the sender's own channel.
pub proof fn law_message_is_framed_as_it_is(sender: ChannelSender, message: Message, frame: Frame)
    requires
        call_ensures(ChannelSender::frame, (&sender, message), frame),
    ensures
        frame.channel_id == sender.channel_id,
        frame.message == message,
{
}

/// What could be sent was sent.
pub proof fn law_sending_succeeds(
    sender: ChannelSender,
    poll_sender: ChannelPollSender,
    size: usize,
    sent: Result<(), MuxError>,
    reserved: Option<Result<(), MuxError>>,
    item_sent: Result<(), MuxError>,
    finished: Result<usize, MuxError>,
)
    requires
        call_ensures(ChannelSender::send, (&sender, Ok(())), sent),
        call_ensures(ChannelPollSender::poll_reserve, (&poll_sender, Some(Ok(()))), reserved),
        call_ensures(ChannelPollSender::send_item, (&poll_sender, Ok(())), item_sent),
        call_ensures(ChannelPollSender::finish_write, (&poll_sender, size, Ok(())), finished),
    ensures
        sent is Ok,
        reserved matches Some(Ok(_)),
        item_sent is Ok,
        finished == Ok::<usize, MuxError>(size),
{
}

/// As long as there is no room there is no outcome of reserving it.
pub proof fn law_reserving_waits(
    poll_sender: ChannelPollSender,
    reserved: Option<Result<(), MuxError>>,
)
    requires
        call_ensures(ChannelPollSender::poll_reserve, (&poll_sender, None), reserved),
    ensures
        reserved is None,
{
}

/// A failure to send is explained by the channel's type and identifier, what was attempted, and the
/// cause.
pub proof fn law_failed_sending_is_explained(
    sender: ChannelSender,
    poll_sender: ChannelPollSender,
    buf: &[u8],
    size: usize,
    cause: String,
    id_text: String,
    type_text: &'static str,
    sent: Result<(), MuxError>,
    reserved: Option<Result<(), MuxError>>,
    item_sent: Result<(), MuxError>,
    finished: Result<usize, MuxError>,
    step: WriteStep,
)
    requires
        poll_sender.channel_id == sender.channel_id,
        poll_sender.channel_type == sender.channel_type,
        call_ensures(Uuid::to_string, (&sender.channel_id,), id_text),
        call_ensures(ChannelType::as_str, (&sender.channel_type,), type_text),
        call_ensures(ChannelSender::send, (&sender, Err(cause)), sent),
        call_ensures(ChannelPollSender::poll_reserve, (&poll_sender, Some(Err(cause))), reserved),
        call_ensures(ChannelPollSender::send_item, (&poll_sender, Err(cause)), item_sent),
        call_ensures(ChannelPollSender::finish_write, (&poll_sender, size, Err(cause)), finished),
        call_ensures(ChannelPollSender::poll_write, (&poll_sender, buf, Some(Err(cause))), step),
    ensures
        ({
            let channel = "ChannelSender ["@ + type_text@ + "]["@ + id_text@ + "] failed to "@;
            &&& sent matches Err(error) && error.0@ == channel + "send frame"@ + ": "@ + cause@
            &&& reserved matches Some(Err(error)) && error.0@ == channel + "poll reserve"@ + ": "@
                + cause@
            &&& item_sent matches Err(error) && error.0@ == channel + "send item"@ + ": "@ + cause@
            &&& finished matches Err(error) && error.0@ == channel + "send item"@ + ": "@ + cause@
            &&& step matches WriteStep::Failed(error) && error.0@ == channel + "poll reserve"@
                + ": "@ + cause@
        }),
{
}

/// Either end closes its own channel.
pub proof fn law_ends_close_their_channel<R, C>(
    receiver: ChannelReceiver,
    poll_sender: ChannelPollSender,
    reply_tx: C,
    received: Command<R, C>,
    finished: Command<R, C>,
)
    requires
        call_ensures(ChannelReceiver::close_command::<R, C>, (&receiver, reply_tx), received),
        call_ensures(ChannelPollSender::close_command::<R, C>, (&poll_sender, reply_tx), finished),
    ensures
        received == (Command::<R, C>::CloseChannel { channel_id: receiver.channel_id, reply_tx }),
        finished == (Command::<R, C>::CloseChannel {
            channel_id: poll_sender.channel_id,
            reply_tx,
        }),
{
}

/// Each channel type is written as its own name.
pub proof fn law_channel_types_are_written_by_name(channel_type: ChannelType, text: &'static str)
    requires
        call_ensures(ChannelType::as_str, (&channel_type,), text),
    ensures
        channel_type is EvaluatorScheduler ==> text@ == "EvaluatorScheduler"@,
        channel_type is Evaluator ==> text@ == "Evaluator"@,
        channel_type is WorkerScheduler ==> text@ == "WorkerScheduler"@,
        channel_type is Worker ==> text@ == "Worker"@,
        channel_type is DebuggerScheduler ==> text@ == "DebuggerScheduler"@,
        channel_type is Debugger ==> text@ == "Debugger"@,
        channel_type is DebugResolver ==> text@ == "DebugResolver"@,
        channel_type is DebugClient ==> text@ == "DebugClient"@,
        channel_type is DebugClientTunnel ==> text@ == "DebugClientTunnel"@,
        channel_type is DebuggerTunnel ==> text@ == "DebuggerTunnel"@,
{
}

/// Reading inverts writing: a text is read as a channel type exactly where that type is written so.
pub proof fn law_reading_inverts_writing(
    channel_type: ChannelType,
    name: &'static str,
    text: &str,
    result: Result<ChannelType, ParseError>,
)
    requires
        call_ensures(ChannelType::as_str, (&channel_type,), name),
        call_ensures(ChannelType::from_str, (text,), result),
    ensures
        text@ == name@ <==> result == Ok::<ChannelType, ParseError>(channel_type),
        result is Err ==> result == Err::<ChannelType, ParseError>(ParseError::VariantNotFound),
{
    assert(channel_type.name() == name@);
}

/// An acceptor made of a closure, and a clone of it, hold that closure, or a clone of it, and give
/// its answers.
pub proof fn law_acceptor_gives_the_answers_of_its_closure<
    T,
    F: Fn(ChannelId, ChannelType) -> Result<T, String> + Clone,
>(
    f: F,
    acceptor: FnChannelAcceptor<F>,
    copy: FnChannelAcceptor<F>,
    channel_id: ChannelId,
    channel_type: ChannelType,
    answer: Result<T, String>,
    copy_answer: Result<T, String>,
    given: Result<T, String>,
)
    requires
        call_ensures(FnChannelAcceptor::<F>::new::<T>, (f,), acceptor),
        call_ensures(FnChannelAcceptor::<F>::clone, (&acceptor,), copy),
        ChannelAcceptor::<T>::may_answer(&acceptor, channel_id, channel_type, answer),
        ChannelAcceptor::<T>::may_answer(&copy, channel_id, channel_type, copy_answer),
        call_ensures(
            <FnChannelAcceptor<F> as ChannelAcceptor<T>>::future_fn,
            (&acceptor, channel_id, channel_type),
            given,
        ),
    ensures
        acceptor.f == f,
        cloned(f, copy.f),
        call_ensures(f, (channel_id, channel_type), answer),
        call_ensures(copy.f, (channel_id, channel_type), copy_answer),
        call_ensures(f, (channel_id, channel_type), given),
{
}

/// The handle asks for a channel of exactly the given type, under an identifier of its own, and for
/// exactly the given channel to be closed.
pub proof fn law_handle_asks_for_what_it_was_given<R, C>(
    handle: MuxHandle,
    channel_type: ChannelType,
    open_reply_tx: R,
    opening: (ChannelId, Command<R, C>),
    channel_id: ChannelId,
    close_reply_tx: C,
    closing: Command<R, C>,
)
    requires
        call_ensures(
            MuxHandle::open_channel::<R, C>,
            (&handle, channel_type, open_reply_tx),
            opening,
        ),
        call_ensures(
            MuxHandle::close_channel::<R, C>,
            (&handle, channel_id, close_reply_tx),
            closing,
        ),
    ensures
        opening.0.value != 0,
        opening.1 == (Command::<R, C>::OpenChannel {
            channel_id: opening.0,
            channel_type,
            reply_tx: open_reply_tx,
        }),
        closing == (Command::<R, C>::CloseChannel { channel_id, reply_tx: close_reply_tx }),
{
}

/// The handle passes on what the mux replies: both ends of the channel that was asked for, with what
/// came along, or the error as it is.
pub proof fn law_handle_passes_on_the_reply<V>(
    handle: MuxHandle,
    channel_id: ChannelId,
    channel_type: ChannelType,
    reply: Result<V, MuxError>,
    opened: Result<(ChannelSender, ChannelReceiver, V), MuxError>,
    close_reply: CloseChannelCommandReply,
    closed: Result<CloseChannelCommandReply, MuxError>,
    open_sent: Result<(), MuxError>,
    close_sent: Result<(), MuxError>,
)
    requires
        call_ensures(
            MuxHandle::open_channel_replied::<V>,
            (&handle, channel_id, channel_type, Ok(reply)),
            opened,
        ),
        call_ensures(MuxHandle::close_channel_replied, (&handle, Ok(close_reply)), closed),
        call_ensures(MuxHandle::open_channel_sent, (&handle, Ok(())), open_sent),
        call_ensures(MuxHandle::close_channel_sent, (&handle, Ok(())), close_sent),
    ensures
        match reply {
            Ok(value) => opened matches Ok((sender, receiver, came_along)) && sender.channel_id
                == channel_id && sender.channel_type == channel_type && receiver.channel_id
                == channel_id && receiver.channel_type == channel_type && came_along == value,
            Err(error) => opened == Err::<(ChannelSender, ChannelReceiver, V), MuxError>(error),
        },
        closed == Ok::<CloseChannelCommandReply, MuxError>(close_reply),
        open_sent is Ok,
        close_sent is Ok,
{
}

/// Where the mux is gone, the handle says at which point, and why.
pub proof fn law_handle_explains_failures<V>(
    handle: MuxHandle,
    channel_id: ChannelId,
    channel_type: ChannelType,
    cause: String,
    opened: Result<(ChannelSender, ChannelReceiver, V), MuxError>,
    closed: Result<CloseChannelCommandReply, MuxError>,
    open_sent: Result<(), MuxError>,
    close_sent: Result<(), MuxError>,
)
    requires
        call_ensures(
            MuxHandle::open_channel_replied::<V>,
            (&handle, channel_id, channel_type, Err(cause)),
            opened,
        ),
        call_ensures(MuxHandle::close_channel_replied, (&handle, Err(cause)), closed),
        call_ensures(MuxHandle::open_channel_sent, (&handle, Err(cause)), open_sent),
        call_ensures(MuxHandle::close_channel_sent, (&handle, Err(cause)), close_sent),
    ensures
        opened matches Err(error) && error.0@ == "Open channel command resulted in an error: "@
            + cause@,
        closed matches Err(error) && error.0@ == "Close channel command resulted in an error: "@
            + cause@,
        open_sent matches Err(error) && error.0@ == "Failed to send open channel command: "@
            + cause@,
        close_sent matches Err(error) && error.0@ == "Failed to send close channel command: "@
            + cause@,
{
}

/// The ends of a channel take every message, every buffer and every outcome.
pub proof fn law_ends_take_every_input(
    sender: ChannelSender,
    poll_sender: ChannelPollSender,
    receiver: ChannelReceiver,
    message: Message,
    next: Option<Message>,
    buf: &[u8],
    size: usize,
    outcome: Result<(), String>,
    reserved: Option<Result<(), String>>,
    text: &str,
)
    ensures
        call_requires(ChannelSender::frame, (&sender, message)),
        call_requires(ChannelSender::send, (&sender, outcome)),
        call_requires(ChannelPollSender::poll_reserve, (&poll_sender, reserved)),
        call_requires(ChannelPollSender::send_item, (&poll_sender, outcome)),
        call_requires(ChannelPollSender::poll_write, (&poll_sender, buf, reserved)),
        call_requires(ChannelPollSender::finish_write, (&poll_sender, size, outcome)),
        call_requires(ChannelReceiver::poll_next, (&receiver, next)),
        call_requires(ChannelType::from_str, (text,)),
{
}

/// A mux error is written with its reason.
pub proof fn law_mux_error_is_written_with_its_reason(error: MuxError, text: String)
    requires
        call_ensures(MuxError::to_string, (&error,), text),
    ensures
        text@ == "MuxError: "@ + error.0@,
{
}

} // verus!
