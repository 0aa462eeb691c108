//! What the engine asks its host to do, and what the host answers.
//!
//! The engine itself touches no process, file or network. It hands out one
//! `Action` at a time, with every path, command and name resolved; the host
//! performs it and hands back an `Event`.

use vstd::prelude::*;
use vstd::string::*;
use crate::config_process::pair_texts;
use crate::document::opt_text;
use crate::participant::{participant_views, Participant, ParticipantView};

verus! {

/// The snapshot of an invocation that is stored before its first step.
#[derive(Debug, PartialEq, Eq)]
pub struct ParamSnapshot {
    /// The task parameter as base64 text.
    pub param: String,
    /// The participants of the task, each as user and role, in order.
    pub participants: Vec<(String, String)>,
    /// The user that this invocation acts for.
    pub user_id: String,
    /// The task that this invocation belongs to.
    pub task_id: String,
}

/// A snapshot with its strings taken as texts.
pub struct ParamSnapshotView {
    pub param: Seq<char>,
    pub participants: Seq<(Seq<char>, Seq<char>)>,
    pub user_id: Seq<char>,
    pub task_id: Seq<char>,
}

impl View for ParamSnapshot {
    type V = ParamSnapshotView;

    open spec fn view(&self) -> ParamSnapshotView {
        ParamSnapshotView {
            param: self.param@,
            participants: pair_texts(self.participants@),
            user_id: self.user_id@,
            task_id: self.task_id@,
        }
    }
}

/// What failed when an action could not be performed.
#[derive(Clone, Copy, Debug, PartialEq, Eq, Structural)]
pub enum Fault {
    /// A file or a directory could not be read, written or created.
    File,
    /// A process could not be spawned, signalled or waited for.
    Process,
    /// The coordination service reported a failure.
    Service,
}

/// The host's answer to an action.
#[derive(Debug, PartialEq, Eq)]
pub enum Event {
    /// The action was performed.
    Completed,
    /// The process that was waited for has ended: with an exit code, or by a
    /// signal.
    Exited { code: Option<i32>, signal: Option<i32> },
    /// The coordination service has delivered a payload.
    Received(Vec<u8>),
    /// The action could not be performed.
    Failed(Fault),
}

/// Where an invocation stands: which answer the engine is waiting for.
#[derive(Clone, Copy, Debug, PartialEq, Eq, Structural)]
pub enum Phase {
    /// Between two steps: no action is under way.
    Idle,
    /// The working directory and the snapshot are being made.
    Preparing,
    /// The guard's command is running.
    GuardWaiting,
    /// The step's process is being launched.
    Launching,
    /// A process is being killed.
    Killing,
    /// A process is being waited for.
    Reaping,
    /// The output of a process that ended with `observed` is being collected.
    Collecting { observed: i32 },
    /// The result `observed` of a process is being written to a file.
    Recording { observed: i32 },
    /// A call to the coordination service is under way.
    Calling,
    /// A payload from the coordination service is awaited.
    Receiving,
    /// A payload that was received is being written to its file.
    Storing,
    /// Every step has completed.
    Finished,
    /// An error has ended the invocation.
    Failed,
}

/// One thing for the host to do. Every string in it is resolved.
#[derive(Debug, PartialEq, Eq)]
#[allow(inconsistent_fields)]
pub enum Action {
    /// Create `working_dir` with its parents, make it the current directory,
    /// and store `snapshot` in `file`.
    Prepare { working_dir: String, file: String, snapshot: ParamSnapshot },
    /// Run `command` through a shell in `working_dir`, with the variables
    /// `env` added to its environment, until it ends; its output is not kept.
    /// The answer is `Exited`.
    Run { command: String, working_dir: String, env: Vec<(String, String)> },
    /// Start `command` through a shell in `working_dir`, with its output
    /// captured through pipes and the variables `env` added to its
    /// environment; keep the process under `step_name`.
    Launch { step_name: String, command: String, working_dir: String, env: Vec<(String, String)> },
    /// Send the termination signal to the process kept under `step_name`, and
    /// keep the process.
    Kill { step_name: String },
    /// Wait until the process kept under `step_name` has ended, without
    /// blocking again if it already has. If waiting fails, kill the process
    /// and wait once more before answering `Failed`. The answer is `Exited`.
    Wait { step_name: String },
    /// Copy what the process kept under `step_name` wrote to its standard
    /// output and standard error to the files that are named, and let go of
    /// the process.
    Collect { step_name: String, stdout_file: Option<String>, stderr_file: Option<String> },
    /// Create `path` with its parent directories and write `contents` to it.
    WriteFile { path: String, contents: String },
    /// Read the payload from `file` and send it as the variable `name` to
    /// `participants`.
    SendVariable { name: String, file: String, participants: Vec<Participant> },
    /// Receive the variable `name` from `participant`, suspending until it is
    /// delivered. The answer is `Received`.
    RecvVariable { name: String, participant: Participant },
    /// Create `path` with its parent directories and write `payload` to it.
    WritePayload { path: String, payload: Vec<u8> },
    /// Read the payload from `file` and create the entry `key` with it.
    CreateEntry { key: String, file: String },
    /// Read the payload from `file` and update the entry `key` with it.
    UpdateEntry { key: String, file: String },
    /// Delete the entry `key`.
    DeleteEntry { key: String },
    /// Create `file` with its parent directories, then read the entry `key`.
    /// The answer is `Received`.
    ReadEntry { key: String, file: String },
    /// Create `file` with its parent directories, then read the entry `key`,
    /// suspending until the entry exists. The answer is `Received`.
    ReadOrWaitEntry { key: String, file: String },
    /// Nothing is left to do: every step has completed.
    Finished,
}

/// An action with its strings taken as texts.
#[allow(inconsistent_fields)]
pub enum ActionView {
    Prepare { working_dir: Seq<char>, file: Seq<char>, snapshot: ParamSnapshotView },
    Run { command: Seq<char>, working_dir: Seq<char>, env: Seq<(Seq<char>, Seq<char>)> },
    Launch {
        step_name: Seq<char>,
        command: Seq<char>,
        working_dir: Seq<char>,
        env: Seq<(Seq<char>, Seq<char>)>,
    },
    Kill { step_name: Seq<char> },
    Wait { step_name: Seq<char> },
    Collect { step_name: Seq<char>, stdout_file: Option<Seq<char>>, stderr_file: Option<Seq<char>> },
    WriteFile { path: Seq<char>, contents: Seq<char> },
    SendVariable { name: Seq<char>, file: Seq<char>, participants: Seq<ParticipantView> },
    RecvVariable { name: Seq<char>, participant: ParticipantView },
    WritePayload { path: Seq<char>, payload: Seq<u8> },
    CreateEntry { key: Seq<char>, file: Seq<char> },
    UpdateEntry { key: Seq<char>, file: Seq<char> },
    DeleteEntry { key: Seq<char> },
    ReadEntry { key: Seq<char>, file: Seq<char> },
    ReadOrWaitEntry { key: Seq<char>, file: Seq<char> },
    Finished,
}

impl View for Action {
    type V = ActionView;

    open spec fn view(&self) -> ActionView {
        match *self {
            Action::Prepare { working_dir, file, snapshot } => ActionView::Prepare {
                working_dir: working_dir@,
                file: file@,
                snapshot: snapshot@,
            },
            Action::Run { command, working_dir, env } => ActionView::Run {
                command: command@,
                working_dir: working_dir@,
                env: pair_texts(env@),
            },
            Action::Launch { step_name, command, working_dir, env } => ActionView::Launch {
                step_name: step_name@,
                command: command@,
                working_dir: working_dir@,
                env: pair_texts(env@),
            },
            Action::Kill { step_name } => ActionView::Kill { step_name: step_name@ },
            Action::Wait { step_name } => ActionView::Wait { step_name: step_name@ },
            Action::Collect { step_name, stdout_file, stderr_file } => ActionView::Collect {
                step_name: step_name@,
                stdout_file: opt_text(stdout_file),
                stderr_file: opt_text(stderr_file),
            },
            Action::WriteFile { path, contents } => ActionView::WriteFile {
                path: path@,
                contents: contents@,
            },
            Action::SendVariable { name, file, participants } => ActionView::SendVariable {
                name: name@,
                file: file@,
                participants: participant_views(participants@),
            },
            Action::RecvVariable { name, participant } => ActionView::RecvVariable {
                name: name@,
                participant: participant@,
            },
            Action::WritePayload { path, payload } => ActionView::WritePayload {
                path: path@,
                payload: payload@,
            },
            Action::CreateEntry { key, file } => ActionView::CreateEntry { key: key@, file: file@ },
            Action::UpdateEntry { key, file } => ActionView::UpdateEntry { key: key@, file: file@ },
            Action::DeleteEntry { key } => ActionView::DeleteEntry { key: key@ },
            Action::ReadEntry { key, file } => ActionView::ReadEntry { key: key@, file: file@ },
            Action::ReadOrWaitEntry { key, file } => ActionView::ReadOrWaitEntry {
                key: key@,
                file: file@,
            },
            Action::Finished => ActionView::Finished,
        }
    }
}

} // verus!
