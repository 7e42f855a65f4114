//! A channel is a bidirectional data stream between two peers.
//! A channel does not support broadcasting. A channel handle should only have a single owner.
//!
//! In some cases, it may be helpful to split the ownership of a channel handle into a sender and a
//! receiver.

use vstd::prelude::*;

use crate::codec::Frame;
use crate::ident::{hyphenated, Uuid};
use crate::message::Message;
use crate::mux::{Command, MuxError};
use crate::text::{between, same};

verus! {

pub type ChannelId = Uuid;

#[derive(Debug, Clone, Copy, PartialEq, Eq, Structural)]
pub enum ChannelType {
    /// An evaluator scheduler channel. Initiated by a runner.
    EvaluatorScheduler,
    /// An evaluator channel. Initiated by a runner.
    Evaluator,
    /// A worker scheduler channel. Initiated by a runner.
    WorkerScheduler,
    /// A worker channel. Initiated by a runner.
    Worker,
    /// A debugger scheduler channel. Initiated by a runner.
    DebuggerScheduler,
    /// A debugger channel. Initiated by a runner.
    Debugger,
    /// A debug resolver channel. Initiated by a CLI.
    DebugResolver,
    /// A debug client channel. Initiated by a CLI.
    DebugClient,
    /// A debug client tunnel channel. Initiated by a CLI.
    DebugClientTunnel,
    /// A debugger tunnel channel. Initiated by a runner.
    DebuggerTunnel,
}

/// Why a text is not the name of a channel type.
#[derive(Debug, Clone, Copy, PartialEq, Eq, Structural)]
pub enum ParseError {
    VariantNotFound,
}

/// No two channel types have the same name.
pub proof fn law_channel_type_names_are_distinct(a: ChannelType, b: ChannelType)
    requires
        a.name() == b.name(),
    ensures
        a == b,
{
    reveal_strlit("EvaluatorScheduler");
    reveal_strlit("Evaluator");
    reveal_strlit("WorkerScheduler");
    reveal_strlit("Worker");
    reveal_strlit("DebuggerScheduler");
    reveal_strlit("Debugger");
    reveal_strlit("DebugResolver");
    reveal_strlit("DebugClient");
    reveal_strlit("DebugClientTunnel");
    reveal_strlit("DebuggerTunnel");
    assert("EvaluatorScheduler"@.len() == 18);
    assert("Evaluator"@.len() == 9);
    assert("WorkerScheduler"@.len() == 15);
    assert("Worker"@.len() == 6);
    assert("DebuggerScheduler"@.len() == 17);
    assert("Debugger"@.len() == 8);
    assert("DebugResolver"@.len() == 13);
    assert("DebugClient"@.len() == 11);
    assert("DebugClientTunnel"@.len() == 17);
    assert("DebuggerTunnel"@.len() == 14);
    assert("DebuggerScheduler"@[5] == 'g');
    assert("DebugClientTunnel"@[5] == 'C');
}

impl ChannelType {
    /// The name of the variant.
    pub open spec fn name(self) -> Seq<char> {
        match self {
            ChannelType::EvaluatorScheduler => "EvaluatorScheduler"@,
            ChannelType::Evaluator => "Evaluator"@,
            ChannelType::WorkerScheduler => "WorkerScheduler"@,
            ChannelType::Worker => "Worker"@,
            ChannelType::DebuggerScheduler => "DebuggerScheduler"@,
            ChannelType::Debugger => "Debugger"@,
            ChannelType::DebugResolver => "DebugResolver"@,
            ChannelType::DebugClient => "DebugClient"@,
            ChannelType::DebugClientTunnel => "DebugClientTunnel"@,
            ChannelType::DebuggerTunnel => "DebuggerTunnel"@,
        }
    }

    /// The name of the variant, as a string.
    pub fn as_str(&self) -> (text: &'static str)
        ensures
            text@ == self.name(),
    {
        match *self {
            ChannelType::EvaluatorScheduler => "EvaluatorScheduler",
            ChannelType::Evaluator => "Evaluator",
            ChannelType::WorkerScheduler => "WorkerScheduler",
            ChannelType::Worker => "Worker",
            ChannelType::DebuggerScheduler => "DebuggerScheduler",
            ChannelType::Debugger => "Debugger",
            ChannelType::DebugResolver => "DebugResolver",
            ChannelType::DebugClient => "DebugClient",
            ChannelType::DebugClientTunnel => "DebugClientTunnel",
            ChannelType::DebuggerTunnel => "DebuggerTunnel",
        }
    }

    /// Finds the channel type with the name. The name must match to the letter.
    pub fn from_str(text: &str) -> (result: Result<ChannelType, ParseError>)
        ensures
            forall|channel_type: ChannelType|
                (#[trigger] channel_type.name() == text@) == (result == Ok::<
                    ChannelType,
                    ParseError,
                >(channel_type)),
            result is Err ==> result == Err::<ChannelType, ParseError>(ParseError::VariantNotFound),
    {
        let result = if same(text, "EvaluatorScheduler") {
            Ok(ChannelType::EvaluatorScheduler)
        } else if same(text, "Evaluator") {
            Ok(ChannelType::Evaluator)
        } else if same(text, "WorkerScheduler") {
            Ok(ChannelType::WorkerScheduler)
        } else if same(text, "Worker") {
            Ok(ChannelType::Worker)
        } else if same(text, "DebuggerScheduler") {
            Ok(ChannelType::DebuggerScheduler)
        } else if same(text, "Debugger") {
            Ok(ChannelType::Debugger)
        } else if same(text, "DebugResolver") {
            Ok(ChannelType::DebugResolver)
        } else if same(text, "DebugClient") {
            Ok(ChannelType::DebugClient)
        } else if same(text, "DebugClientTunnel") {
            Ok(ChannelType::DebugClientTunnel)
        } else if same(text, "DebuggerTunnel") {
            Ok(ChannelType::DebuggerTunnel)
        } else {
            Err(ParseError::VariantNotFound)
        };
        proof {
            assert forall|channel_type: ChannelType|
                (#[trigger] channel_type.name() == text@) == (result == Ok::<
                    ChannelType,
                    ParseError,
                >(channel_type)) by {
                if let Ok(found) = result {
                    assert(found.name() == text@);
                    if channel_type.name() == text@ {
                        law_channel_type_names_are_distinct(found, channel_type);
                    }
                }
            }
        }
        result
    }
}

/// Splits a channel into the end that sends and the end that receives.
pub fn channel(channel_id: ChannelId, channel_type: ChannelType) -> (ends: (
    ChannelSender,
    ChannelReceiver,
))
    ensures
        ends.0 == (ChannelSender { channel_id, channel_type }),
        ends.1 == (ChannelReceiver { channel_id, channel_type }),
{
    (ChannelSender { channel_id, channel_type }, ChannelReceiver { channel_id, channel_type })
}

/// The text `ChannelSender [..][..] failed to ..: ..`.
pub open spec fn sender_error(
    channel_type: ChannelType,
    channel_id: ChannelId,
    action: Seq<char>,
    cause: Seq<char>,
) -> Seq<char> {
    "ChannelSender ["@ + channel_type.name() + "]["@ + hyphenated(channel_id.value)
        + "] failed to "@ + action + ": "@ + cause
}

/// The outcome of an attempt to send: `Ok` stays `Ok`, and the cause of a failure becomes an error
/// that names the channel and the action.
pub open spec fn sending<V>(
    channel_type: ChannelType,
    channel_id: ChannelId,
    action: Seq<char>,
    value: V,
    outcome: Result<(), String>,
    result: Result<V, MuxError>,
) -> bool {
    match outcome {
        Ok(()) => result == Ok::<V, MuxError>(value),
        Err(cause) => result matches Err(error) && error.0@ == sender_error(
            channel_type,
            channel_id,
            action,
            cause@,
        ),
    }
}

fn sending_failed(
    channel_type: ChannelType,
    channel_id: ChannelId,
    action: &str,
    cause: &str,
) -> (error: MuxError)
    ensures
        error.0@ == sender_error(channel_type, channel_id, action@, cause@),
{
    let text = between("ChannelSender [", channel_type.as_str(), "][").concat(
        channel_id.to_string().as_str(),
    ).concat("] failed to ").concat(action).concat(": ").concat(cause);
    MuxError(text)
}

/// The end of a channel that sends messages to the peer.
#[derive(Debug, Clone, Copy, PartialEq, Eq, Structural)]
pub struct ChannelSender {
    /// The channel's unique identifier.
    pub channel_id: ChannelId,
    pub channel_type: ChannelType,
}

impl ChannelSender {
    /// The frame that carries the message to the peer.
    pub fn frame(&self, message: Message) -> (frame: Frame)
        ensures
            frame == (Frame { channel_id: self.channel_id, message }),
    {
        Frame { channel_id: self.channel_id, message }
    }

    /// What sending a message comes to, given what came of handing over its frame.
    pub fn send(&self, outcome: Result<(), String>) -> (result: Result<(), MuxError>)
        ensures
            sending(self.channel_type, self.channel_id, "send frame"@, (), outcome, result),
    {
        match outcome {
            Ok(()) => Ok(()),
            Err(cause) => Err(
                sending_failed(self.channel_type, self.channel_id, "send frame", cause.as_str()),
            ),
        }
    }
}

/// The end of a channel that sends bytes to the peer, as far as there is room for them.
#[derive(Debug, Clone, Copy, PartialEq, Eq, Structural)]
pub struct ChannelPollSender {
    /// The channel's unique identifier.
    pub channel_id: ChannelId,
    pub channel_type: ChannelType,
}

/// The most bytes that one write takes.
pub const MAX_FRAME_SIZE: usize = 1048576;

/// What a write comes to.
#[derive(Debug)]
pub enum WriteStep {
    /// There is no room yet.
    Pending,
    /// There will be no room.
    Failed(MuxError),
    /// Hand over the frame, which takes that many of the bytes.
    Send { frame: Frame, written: usize },
}

/// How many of the bytes one write takes.
pub open spec fn written_len(len: nat) -> nat {
    if len <= MAX_FRAME_SIZE {
        len
    } else {
        MAX_FRAME_SIZE as nat
    }
}

impl ChannelPollSender {
    /// Sends bytes where the sender sent messages.
    pub fn new(sender: ChannelSender) -> (poll_sender: Self)
        ensures
            poll_sender.channel_id == sender.channel_id,
            poll_sender.channel_type == sender.channel_type,
    {
        ChannelPollSender { channel_id: sender.channel_id, channel_type: sender.channel_type }
    }

    /// What reserving room for a frame comes to, given the outcome of the attempt. There is none as
    /// long as there is neither room nor a failure.
    pub fn poll_reserve(&self, outcome: Option<Result<(), String>>) -> (result: Option<
        Result<(), MuxError>,
    >)
        ensures
            match outcome {
                Some(outcome) => result matches Some(result) && sending(
                    self.channel_type,
                    self.channel_id,
                    "poll reserve"@,
                    (),
                    outcome,
                    result,
                ),
                None => result is None,
            },
    {
        match outcome {
            Some(Ok(())) => Some(Ok(())),
            Some(Err(cause)) => Some(
                Err(
                    sending_failed(
                        self.channel_type,
                        self.channel_id,
                        "poll reserve",
                        cause.as_str(),
                    ),
                ),
            ),
            None => None,
        }
    }

    /// What sending a frame into reserved room comes to, given the outcome of the attempt.
    pub fn send_item(&self, outcome: Result<(), String>) -> (result: Result<(), MuxError>)
        ensures
            sending(self.channel_type, self.channel_id, "send item"@, (), outcome, result),
    {
        match outcome {
            Ok(()) => Ok(()),
            Err(cause) => Err(
                sending_failed(self.channel_type, self.channel_id, "send item", cause.as_str()),
            ),
        }
    }

    /// Decides on a write, given what came of reserving room. With room, the first bytes go into a
    /// frame of raw data.
    pub fn poll_write(&self, buf: &[u8], reserved: Option<Result<(), String>>) -> (step: WriteStep)
        ensures
            match reserved {
                None => step is Pending,
                Some(Err(cause)) => step matches WriteStep::Failed(error) && error.0@
                    == sender_error(
                    self.channel_type,
                    self.channel_id,
                    "poll reserve"@,
                    cause@,
                ),
                Some(Ok(())) => {
                    &&& step matches WriteStep::Send { frame, written }
                    &&& written == written_len(buf@.len())
                    &&& frame.channel_id == self.channel_id
                    &&& frame.message matches Message::RawData(data)
                    &&& data@ == buf@.take(written as int)
                },
            },
    {
        let written: usize = if buf.len() <= MAX_FRAME_SIZE {
            buf.len()
        } else {
            MAX_FRAME_SIZE
        };
        match self.poll_reserve(reserved) {
            Some(Ok(())) => {
                let data = vstd::slice::slice_to_vec(vstd::slice::slice_subrange(buf, 0, written));
                assert(data@ =~= buf@.take(written as int));
                WriteStep::Send {
                    frame: Frame {
                        channel_id: self.channel_id,
                        message: Message::RawData(data),
                    },
                    written,
                }
            },
            Some(Err(error)) => WriteStep::Failed(error),
            None => WriteStep::Pending,
        }
    }

    /// How many bytes a write took, given what came of sending its frame.
    pub fn finish_write(&self, written: usize, outcome: Result<(), String>) -> (result: Result<
        usize,
        MuxError,
    >)
        ensures
            sending(self.channel_type, self.channel_id, "send item"@, written, outcome, result),
    {
        match self.send_item(outcome) {
            Ok(()) => Ok(written),
            Err(error) => Err(error),
        }
    }

    /// The command that closes the channel when this side is done writing.
    pub fn close_command<R, C>(&self, reply_tx: C) -> (command: Command<R, C>)
        ensures
            command == (Command::<R, C>::CloseChannel { channel_id: self.channel_id, reply_tx }),
    {
        Command::CloseChannel { channel_id: self.channel_id, reply_tx }
    }
}

/// The end of a channel that receives messages from the peer.
#[derive(Debug, Clone, Copy, PartialEq, Eq, Structural)]
pub struct ChannelReceiver {
    /// The channel's unique identifier.
    pub channel_id: ChannelId,
    pub channel_type: ChannelType,
}

/// The bytes that a message from the channel adds to its byte stream. The stream ends with the
/// channel, and with the first message that is not raw data.
pub open spec fn stream_item(message: Option<Message>) -> Option<Seq<u8>> {
    match message {
        Some(Message::RawData(data)) => Some(data@),
        _ => None,
    }
}

impl ChannelReceiver {
    /// The next bytes of the stream, given the next message of the channel.
    pub fn poll_next(&self, message: Option<Message>) -> (item: Option<Vec<u8>>)
        ensures
            match item {
                Some(data) => stream_item(message) == Some(data@),
                None => stream_item(message) is None,
            },
    {
        match message {
            Some(Message::RawData(data)) => Some(data),
            _ => None,
        }
    }

    /// The command that closes the channel when its receiver is dropped.
    pub fn close_command<R, C>(&self, reply_tx: C) -> (command: Command<R, C>)
        ensures
            command == (Command::<R, C>::CloseChannel { channel_id: self.channel_id, reply_tx }),
    {
        Command::CloseChannel { channel_id: self.channel_id, reply_tx }
    }
}

/// The payloads of the frames that take all of the bytes, one write after the other.
pub open spec fn payloads(bytes: Seq<u8>) -> Seq<Seq<u8>>
    decreases bytes.len(),
{
    if bytes.len() == 0 {
        Seq::empty()
    } else {
        let written = written_len(bytes.len()) as int;
        seq![bytes.take(written)] + payloads(bytes.skip(written))
    }
}

/// The bytes of payloads, one after the other.
pub open spec fn joined(payloads: Seq<Seq<u8>>) -> Seq<u8>
    decreases payloads.len(),
{
    if payloads.len() == 0 {
        Seq::empty()
    } else {
        payloads[0] + joined(payloads.drop_first())
    }
}

/// Writing cuts bytes into the payloads of frames, which joined in the same order are the bytes
/// again. No payload is empty or holds more than a write takes. Whether a frame is small enough to
/// be encoded depends on its serialized message and is not part of this.
pub proof fn law_payloads_join_to_what_was_written(bytes: Seq<u8>)
    ensures
        joined(payloads(bytes)) == bytes,
        forall|i: int|
            0 <= i < payloads(bytes).len() ==> 0 < (#[trigger] payloads(bytes)[i]).len()
                <= MAX_FRAME_SIZE,
    decreases bytes.len(),
{
    if bytes.len() > 0 {
        let written = written_len(bytes.len()) as int;
        let rest = bytes.skip(written);
        law_payloads_join_to_what_was_written(rest);
        assert(payloads(bytes).drop_first() =~= payloads(rest));
        assert(bytes.take(written) + rest =~= bytes);
        assert forall|i: int| 0 <= i < payloads(bytes).len() implies 0 < (#[trigger] payloads(
            bytes,
        )[i]).len() <= MAX_FRAME_SIZE by {
            if i > 0 {
                assert(payloads(bytes)[i] == payloads(rest)[i - 1]);
            }
        }
    }
}

/// Provides an operation to handle a channel open request from the peer. `T` is what serves an
/// accepted channel.
pub trait ChannelAcceptor<T> {
    /// Whether the acceptor can be asked about such a channel.
    spec fn can_ask(&self, channel_id: ChannelId, channel_type: ChannelType) -> bool;

    /// Whether the acceptor may give `answer` for such a channel.
    spec fn may_answer(
        &self,
        channel_id: ChannelId,
        channel_type: ChannelType,
        answer: Result<T, String>,
    ) -> bool;

    /// Accepts the channel with what is to serve it, or rejects it with a reason.
    fn future_fn(&self, channel_id: ChannelId, channel_type: ChannelType) -> (answer: Result<
        T,
        String,
    >)
        requires
            self.can_ask(channel_id, channel_type),
        ensures
            self.may_answer(channel_id, channel_type, answer),
    ;
}

/// A [`ChannelAcceptor`] that is constructed from a closure.
pub struct FnChannelAcceptor<F> {
    pub f: F,
}

impl<F> FnChannelAcceptor<F> {
    /// Constructs an acceptor that answers as the closure does.
    pub fn new<T>(f: F) -> (acceptor: Self) where
        F: Fn(ChannelId, ChannelType) -> Result<T, String>,

        ensures
            acceptor.f == f,
            forall|channel_id: ChannelId, channel_type: ChannelType| #[trigger]
                ChannelAcceptor::<T>::can_ask(&acceptor, channel_id, channel_type)
                    == call_requires(f, (channel_id, channel_type)),
            forall|channel_id: ChannelId, channel_type: ChannelType, answer: Result<T, String>|
                #[trigger]
                ChannelAcceptor::<T>::may_answer(&acceptor, channel_id, channel_type, answer)
                    == call_ensures(f, (channel_id, channel_type), answer),
    {
        FnChannelAcceptor { f }
    }
}

impl<F: Clone> Clone for FnChannelAcceptor<F> {
    /// An acceptor that answers as a clone of the closure does.
    fn clone(&self) -> (copy: Self)
        ensures
            cloned(self.f, copy.f),
    {
        FnChannelAcceptor { f: self.f.clone() }
    }
}

/// An acceptor that is constructed from a closure, or cloned from one, can be asked whatever its
/// closure can be asked, and may answer whatever its closure may answer.
pub proof fn law_acceptor_answers_as_its_closure<
    T,
    F: Fn(ChannelId, ChannelType) -> Result<T, String>,
>(
    acceptor: FnChannelAcceptor<F>,
    channel_id: ChannelId,
    channel_type: ChannelType,
    answer: Result<T, String>,
)
    ensures
        ChannelAcceptor::<T>::can_ask(&acceptor, channel_id, channel_type) == call_requires(
            acceptor.f,
            (channel_id, channel_type),
        ),
        ChannelAcceptor::<T>::may_answer(&acceptor, channel_id, channel_type, answer)
            == call_ensures(acceptor.f, (channel_id, channel_type), answer),
{
}

impl<T, F: Fn(ChannelId, ChannelType) -> Result<T, String>> ChannelAcceptor<T>
    for FnChannelAcceptor<F> {
    open spec fn can_ask(&self, channel_id: ChannelId, channel_type: ChannelType) -> bool {
        call_requires(self.f, (channel_id, channel_type))
    }

    open spec fn may_answer(
        &self,
        channel_id: ChannelId,
        channel_type: ChannelType,
        answer: Result<T, String>,
    ) -> bool {
        call_ensures(self.f, (channel_id, channel_type), answer)
    }

    fn future_fn(&self, channel_id: ChannelId, channel_type: ChannelType) -> (answer: Result<
        T,
        String,
    >) {
        (self.f)(channel_id, channel_type)
    }
}

} // verus!
