//! The messages that peers exchange on channels.

use vstd::prelude::*;

use crate::channel::{ChannelId, ChannelType};
use crate::ident::Uuid;
use crate::text::{signed_decimal, signed_text};

verus! {

/// A URL of the `url` crate, carried through as it is.
#[verifier::external_type_specification]
#[verifier::external_body]
pub struct ExUrl(url::Url);

/// A path, carried through as it is.
#[verifier::external_type_specification]
#[verifier::external_body]
pub struct ExPathBuf(std::path::PathBuf);

/// A message sent between peers on a channel.
///
/// Control messages are sent from a mux to the peer mux to manage channels, always on the control
/// channel (the nil identifier). Every other message is sent from one end of a channel to the
/// other, on the channel that it belongs to.
#[derive(Debug)]
pub enum Message {
    Control(ControlMessage),
    EvaluatorScheduler(EvaluatorSchedulerMessage),
    Evaluator(EvaluatorMessage),
    WorkerScheduler(WorkerSchedulerMessage),
    Worker(WorkerMessage),
    RawData(RawData),
}

pub type RawData = Vec<u8>;

/// A message that manages channels, sent from a mux to the peer mux on the control channel.
#[derive(Debug)]
pub enum ControlMessage {
    /// Requests the peer mux to open a channel. The peer answers with an `OpenChannelResponse`,
    /// which holds `Ok` if the request was accepted and `Err` if it was rejected.
    OpenChannelRequest { channel_id: ChannelId, channel_type: ChannelType },
    /// Answers an `OpenChannelRequest`.
    OpenChannelResponse { channel_id: ChannelId, result: Result<(), String> },
    /// Announces a close without asking for an answer. The mux takes no part in it: it treats the
    /// message as one that does not belong on the control channel.
    CloseChannel { channel_id: ChannelId },
    /// Requests the peer mux to close a channel. The peer answers with a `CloseChannelResponse`.
    CloseChannelRequest { channel_id: ChannelId },
    /// Answers a `CloseChannelRequest`.
    CloseChannelResponse { channel_id: ChannelId, result: Result<(), String> },
}

pub type RunnerId = Uuid;

pub type GitCloneUrl = url::Url;

/// The name of a git branch.
#[derive(Debug, Clone)]
pub struct GitBranch(pub String);

/// The hash of a git commit.
#[derive(Debug, Clone)]
pub struct GitCommitSha(pub String);

/// The platform that an image is built for.
#[derive(Debug, Clone)]
pub struct ImagePlatform(pub String);

/// A reference to an image manifest.
#[derive(Debug, Clone)]
pub struct ManifestRef(pub String);

/// An evaluated configuration, in its serialized form.
#[derive(Debug, Clone)]
pub struct Config(pub Vec<u8>);

/// The configuration of one step, in its serialized form.
#[derive(Debug, Clone)]
pub struct StepConfig(pub Vec<u8>);

/// Names a step of a task.
#[derive(Debug, Clone)]
pub struct StepId(pub String);

#[derive(Debug)]
pub struct CheckoutConfig {
    pub url: GitCloneUrl,
    pub branch: GitBranch,
    pub commit_sha: GitCommitSha,
}

pub type TriggerId = Uuid;

#[derive(Debug, Clone)]
pub struct WaitingTrigger {
    pub trigger_id: TriggerId,
    pub capacity: u64,
}

#[derive(Debug)]
#[allow(inconsistent_fields)]
pub enum EvaluatorSchedulerMessage {
    FetchWaitingTriggersRequest,
    FetchWaitingTriggersResponse { result: Result<Vec<WaitingTrigger>, String> },
    ReserveTriggerRequest { runner_id: RunnerId, trigger_id: TriggerId },
    ReserveTriggerResponse { result: Result<(), String> },
}

#[derive(Debug, Clone)]
pub enum ProcessOutput {
    Stdout { index: usize, line: String },
    Stderr { index: usize, line: String },
}

#[derive(Debug, Clone, Copy, PartialEq, Eq, Structural)]
pub enum ExitStatus {
    Code(i32),
    Signal,
}

impl ExitStatus {
    /// The exit code in decimal, or the word `signal`.
    pub open spec fn text(self) -> Seq<char> {
        match self {
            ExitStatus::Code(code) => signed_decimal(code as int),
            ExitStatus::Signal => "signal"@,
        }
    }

    /// Writes the exit code in decimal, or the word `signal`.
    pub fn to_string(&self) -> (text: String)
        ensures
            text@ == self.text(),
    {
        match *self {
            ExitStatus::Code(code) => signed_text(code),
            ExitStatus::Signal => "signal".to_owned(),
        }
    }
}

#[derive(Debug)]
pub struct EvaluationConfig {
    pub checkout: CheckoutConfig,
    pub input: std::path::PathBuf,
}

#[derive(Debug)]
#[allow(inconsistent_fields)]
pub enum EvaluatorMessage {
    StartRequest { runner_id: RunnerId, trigger_id: TriggerId },
    StartResponse { result: Result<EvaluationConfig, String> },
    CompleteRequest { runner_id: RunnerId, trigger_id: TriggerId, config: Config },
    CompleteResponse { result: Result<(), String> },
    FailRequest { runner_id: RunnerId, trigger_id: TriggerId, reason: String },
    FailResponse { result: Result<(), String> },
}

pub type TaskId = Uuid;

#[derive(Debug, Clone)]
pub struct WaitingTask {
    pub task_id: TaskId,
    pub capacity: u64,
    pub manifest_ref: ManifestRef,
    pub platform: ImagePlatform,
}

#[derive(Debug)]
pub struct TaskConfig {
    pub checkout_config: CheckoutConfig,
    pub steps: Vec<StepConfig>,
}

#[derive(Debug)]
#[allow(inconsistent_fields)]
pub enum WorkerSchedulerMessage {
    FetchWaitingTasksRequest,
    FetchWaitingTasksResponse { result: Result<Vec<WaitingTask>, String> },
    ReserveTaskRequest { runner_id: RunnerId, task_id: TaskId },
    ReserveTaskResponse { result: Result<(), String> },
}

#[derive(Debug)]
#[allow(inconsistent_fields)]
pub enum WorkerMessage {
    StartRequest { runner_id: RunnerId, task_id: TaskId },
    StartResponse { result: Result<TaskConfig, String> },
    CompleteRequest { runner_id: RunnerId, task_id: TaskId },
    CompleteResponse { result: Result<(), String> },
    FailRequest { runner_id: RunnerId, task_id: TaskId, reason: String },
    FailResponse { result: Result<(), String> },
    StartStepRequest { runner_id: RunnerId, task_id: TaskId, step_id: StepId },
    StartStepResponse { result: Result<(), String> },
    CompleteStepRequest { runner_id: RunnerId, task_id: TaskId, step_id: StepId },
    CompleteStepResponse { result: Result<(), String> },
    FailStepRequest { runner_id: RunnerId, task_id: TaskId, step_id: StepId, reason: String },
    FailStepResponse { result: Result<(), String> },
    StepProcessOutput {
        runner_id: RunnerId,
        task_id: TaskId,
        step_id: StepId,
        output: ProcessOutput,
    },
    StepProcessExitStatus {
        runner_id: RunnerId,
        task_id: TaskId,
        step_id: StepId,
        exit_status: ExitStatus,
    },
}

} // verus!
