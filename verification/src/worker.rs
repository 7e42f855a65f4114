//! Workers and what they run.

use vstd::prelude::*;

use crate::ident::Uuid;

verus! {

/// An identifier for a worker.
pub type WorkerId = Uuid;

/// A configuration for a worker.
#[derive(Debug, Clone)]
pub struct WorkerConfig {
    /// The worker identifier.
    worker_id: WorkerId,
    /// The capacity to consume for this worker.
    worker_capacity: u64,
    /// GitHub App installation access token.
    /// Used for fetching code contents and updating checks.
    access_token: String,
    /// The GitHub repository owner.
    repo_owner: String,
    /// The GitHub repository name.
    repo_name: String,
    /// The specific commit to checkout and run the job on.
    commit_sha: String,
    /// The command to execute from the repository root directory.
    exec_command: String,
}

/// What a configuration for a worker consists of.
pub struct WorkerConfigModel {
    pub worker_id: WorkerId,
    pub worker_capacity: u64,
    pub access_token: Seq<char>,
    pub repo_owner: Seq<char>,
    pub repo_name: Seq<char>,
    pub commit_sha: Seq<char>,
    pub exec_command: Seq<char>,
}

impl View for WorkerConfig {
    type V = WorkerConfigModel;

    closed spec fn view(&self) -> WorkerConfigModel {
        WorkerConfigModel {
            worker_id: self.worker_id,
            worker_capacity: self.worker_capacity,
            access_token: self.access_token@,
            repo_owner: self.repo_owner@,
            repo_name: self.repo_name@,
            commit_sha: self.commit_sha@,
            exec_command: self.exec_command@,
        }
    }
}

impl WorkerConfig {
    /// Constructs a new [`WorkerConfig`].
    pub fn new(
        worker_id: WorkerId,
        worker_capacity: u64,
        access_token: String,
        repo_owner: String,
        repo_name: String,
        commit_sha: String,
        exec_command: String,
    ) -> (config: Self)
        ensures
            config@ == (WorkerConfigModel {
                worker_id,
                worker_capacity,
                access_token: access_token@,
                repo_owner: repo_owner@,
                repo_name: repo_name@,
                commit_sha: commit_sha@,
                exec_command: exec_command@,
            }),
    {
        WorkerConfig {
            worker_id,
            worker_capacity,
            access_token,
            repo_owner,
            repo_name,
            commit_sha,
            exec_command,
        }
    }

    /// Returns the [`WorkerId`].
    pub fn worker_id(&self) -> (worker_id: WorkerId)
        ensures
            worker_id == self@.worker_id,
    {
        self.worker_id
    }

    /// Returns the worker capacity.
    pub fn worker_capacity(&self) -> (capacity: u64)
        ensures
            capacity == self@.worker_capacity,
    {
        self.worker_capacity
    }

    /// Returns the GitHub App installation access token.
    pub fn access_token(&self) -> (text: &str)
        ensures
            text@ == self@.access_token,
    {
        self.access_token.as_str()
    }

    /// Returns the GitHub repository owner.
    pub fn repo_owner(&self) -> (text: &str)
        ensures
            text@ == self@.repo_owner,
    {
        self.repo_owner.as_str()
    }

    /// Returns the GitHub repository name.
    pub fn repo_name(&self) -> (text: &str)
        ensures
            text@ == self@.repo_name,
    {
        self.repo_name.as_str()
    }

    /// Returns the specific commit to checkout and run the job on.
    pub fn commit_sha(&self) -> (text: &str)
        ensures
            text@ == self@.commit_sha,
    {
        self.commit_sha.as_str()
    }

    /// Returns the command to execute from the repository root directory.
    pub fn exec(&self) -> (text: &str)
        ensures
            text@ == self@.exec_command,
    {
        self.exec_command.as_str()
    }
}

/// An event in the lifecycle of a worker.
#[derive(Debug, Clone, Copy, PartialEq, Eq, Structural)]
pub enum WorkerEvent {
    Started,
    Completed,
    Failed,
}

} // verus!
