//! The runtime for flat playbooks, whose steps are lists of keys and string
//! values. It is the same kind of machine as the interpreter and follows the
//! same rules; the exit code that a step asks for and the index of a
//! participant are written as decimal texts.

use vstd::prelude::*;
use vstd::string::*;
use crate::action::{Action, ActionView, Event, Fault, ParamSnapshot, ParamSnapshotView, Phase};
use crate::config_process::{pair_texts, Role, RoleView};
use crate::encoding::{base64_encode, base64_of, encodable};
use crate::error::{PlaybookError, ProcessError, TemplateError};
use crate::helper::{bindings_of, lookup, resolve, resolved, text_of};
use crate::interpreter::{
    awaiting, canonical_bindings, canonical_table, differs_from, fault_error, id_role_pairs,
    id_roles, launch_env, observed_result, opt_text_of, pick, spawn_env, Identity, IdentityView,
};
use crate::participant::{
    get_role_participants, of_role, participant_views, Participant, ParticipantView,
};
use crate::pattern::texts;
use crate::text::{
    chars_of, read_small_integer, signed_decimal, signed_decimal_text, small_integer_of,
};

verus! {

/// The value of the field `key` of a flat step.
pub open spec fn field(step: Map<Seq<char>, Seq<char>>, key: Seq<char>) -> Option<Seq<char>> {
    if step.contains_key(key) {
        Some(step[key])
    } else {
        None
    }
}

/// The integer under the key `key` of a flat step, whose values are texts:
/// `Some` of the outcome, or `None` if the value writes no integer.
pub open spec fn integer_field(step: Map<Seq<char>, Seq<char>>, key: Seq<char>) -> Option<
    Option<i32>,
> {
    match field(step, key) {
        None => Some(None),
        Some(text) => match small_integer_of(text) {
            Some(n) => Some(Some(n)),
            None => None,
        },
    }
}



/// Whether `count` participants fit the bounds `min_num` and `max_num`.
pub open spec fn count_fits(count: nat, min_num: i64, max_num: i64) -> bool {
    min_num <= count <= max_num
}

/// The state of the runtime as the contracts see it.
pub struct RuntimeView {
    /// The working directory, a template.
    pub working_dir: Seq<char>,
    /// The participants of the task.
    pub participants: Seq<ParticipantView>,
    /// The client's identity.
    pub identity: IdentityView,
    /// The environment.
    pub env: Map<Seq<char>, Seq<char>>,
    /// The process table.
    pub registered: Seq<Seq<char>>,
    /// The position of the step that is evaluated.
    pub cursor: nat,
    /// Which answer the runtime is waiting for.
    pub phase: Phase,
}

/// What the evaluation of a flat step comes to at one point.
pub struct Decision {
    pub runtime: RuntimeView,
    pub result: Result<Option<ActionView>, PlaybookError>,
}

/// One invocation of a role by the runtime.
pub struct InvocationView {
    /// The role that is executed.
    pub role: RoleView,
    /// The state of the runtime.
    pub runtime: RuntimeView,
}

/// What an invocation of the runtime comes to at one point.
pub struct Progress {
    pub invocation: InvocationView,
    pub result: Result<ActionView, PlaybookError>,
}

impl RuntimeView {
    /// This state in another phase.
    pub open spec fn at(self, phase: Phase) -> RuntimeView {
        RuntimeView { phase, ..self }
    }

    /// The invocation ends with the error `e`.
    pub open spec fn fails(self, e: PlaybookError) -> Decision {
        Decision { runtime: self.at(Phase::Failed), result: Err(e) }
    }

    /// The host is asked for `action`, and the answer is awaited in `phase`.
    pub open spec fn asks(self, phase: Phase, action: ActionView) -> Decision {
        Decision { runtime: self.at(phase), result: Ok(Some(action)) }
    }

    /// The step has completed.
    pub open spec fn completes(self) -> Decision {
        Decision { runtime: self.at(Phase::Idle), result: Ok(None) }
    }

    /// What a dynamic string resolves to: its placeholders are rendered under
    /// the canonical bindings, then the `$NAME` tokens of the rendering are
    /// replaced from the environment; a token whose name the environment does
    /// not hold stays as it is.
    pub open spec fn replace(self, s: Seq<char>) -> Result<Seq<char>, TemplateError> {
        resolved(s, canonical_bindings(self.identity), self.env)
    }

    /// What a dynamic string that may be absent resolves to.
    pub open spec fn replace_opt(self, s: Option<Seq<char>>) -> Result<
        Option<Seq<char>>,
        TemplateError,
    > {
        match s {
            None => Ok(None),
            Some(t) => match self.replace(t) {
                Ok(text) => Ok(Some(text)),
                Err(e) => Err(e),
            },
        }
    }

    /// Whether a process is registered under `name`.
    pub open spec fn is_registered(self, name: Seq<char>) -> bool {
        self.registered.contains(name)
    }

    /// This state with `name` added to the process table.
    pub open spec fn registering(self, name: Seq<char>) -> RuntimeView {
        RuntimeView { registered: self.registered.push(name), ..self }
    }

    /// This state with `name` taken out of the process table.
    pub open spec fn releasing(self, name: Seq<char>) -> RuntimeView {
        RuntimeView { registered: self.registered.filter(differs_from(name)), ..self }
    }

    /// This state at the next step.
    pub open spec fn next(self) -> RuntimeView {
        RuntimeView { cursor: self.cursor + 1, ..self }
    }

    /// The command and the working directory of a process, resolved.
    pub open spec fn command_line(self, command: Seq<char>) -> Result<
        (Seq<char>, Seq<char>),
        TemplateError,
    > {
        match self.replace(command) {
            Err(e) => Err(e),
            Ok(line) => match self.replace(self.working_dir) {
                Err(e) => Err(e),
                Ok(dir) => Ok((line, dir)),
            },
        }
    }

    /// Running the guard `condition` to its end.
    pub open spec fn guard(self, condition: Seq<char>) -> Decision {
        match self.command_line(condition) {
            Err(e) => self.fails(PlaybookError::Template(e)),
            Ok((line, dir)) => self.asks(
                Phase::GuardWaiting,
                ActionView::Run { command: line, working_dir: dir, env: launch_env(self.identity) },
            ),
        }
    }

    /// Launching `command` under `step_name`, which must be free.
    pub open spec fn launch(self, step_name: Seq<char>, command: Seq<char>) -> Decision {
        match self.command_line(command) {
            Err(e) => self.fails(PlaybookError::Template(e)),
            Ok((line, dir)) => if self.is_registered(step_name) {
                self.fails(PlaybookError::Process(ProcessError::AlreadyRegistered))
            } else {
                self.asks(
                    Phase::Launching,
                    ActionView::Launch {
                        step_name,
                        command: line,
                        working_dir: dir,
                        env: launch_env(self.identity),
                    },
                )
            },
        }
    }

    /// Killing the process registered under `name`, which stays registered.
    pub open spec fn kill(self, name: Seq<char>) -> Decision {
        if !self.is_registered(name) {
            self.fails(PlaybookError::Process(ProcessError::NotRegistered))
        } else {
            self.asks(Phase::Killing, ActionView::Kill { step_name: name })
        }
    }

    /// Waiting for the process registered under `name`, which is taken out of
    /// the table.
    pub open spec fn reap(self, name: Seq<char>) -> Decision {
        if !self.is_registered(name) {
            self.fails(PlaybookError::Process(ProcessError::NotRegistered))
        } else {
            self.releasing(name).asks(Phase::Reaping, ActionView::Wait { step_name: name })
        }
    }

    /// Collecting the output of the process that the step waited for, which
    /// ended with `observed`: the files for the output are resolved.
    pub open spec fn collect(self, step: Map<Seq<char>, Seq<char>>, observed: i32) -> Decision {
        let name = match field(step, "process_kill"@) {
            Some(name) => Some(name),
            None => field(step, "process_wait"@),
        };
        match name {
            None => self.fails(PlaybookError::UnexpectedEvent),
            Some(name) => match self.replace_opt(field(step, "stdout_file"@)) {
                Err(e) => self.fails(PlaybookError::Template(e)),
                Ok(out) => match self.replace_opt(field(step, "stderr_file"@)) {
                    Err(e) => self.fails(PlaybookError::Template(e)),
                    Ok(err) => self.asks(
                        Phase::Collecting { observed },
                        ActionView::Collect { step_name: name, stdout_file: out, stderr_file: err },
                    ),
                },
            },
        }
    }

    /// The end of a step that waited for a process that ended with `observed`:
    /// where the step asks for an exit code under `check_exit_code`, it must
    /// be the one observed.
    pub open spec fn settle(self, step: Map<Seq<char>, Seq<char>>, observed: i32) -> Decision {
        match integer_field(step, "check_exit_code"@) {
            None => self.fails(PlaybookError::Config),
            Some(None) => self.completes(),
            Some(Some(expected)) => if expected != observed {
                self.fails(PlaybookError::Process(ProcessError::ExitCode { expected, observed }))
            } else {
                self.completes()
            },
        }
    }

    /// What follows the collecting of the output: the result is written to
    /// the file under `exit_code` if the step names one, as a decimal number,
    /// and the step is then settled.
    pub open spec fn record(self, step: Map<Seq<char>, Seq<char>>, observed: i32) -> Decision {
        match field(step, "exit_code"@) {
            Some(file) => match self.replace(file) {
                Err(e) => self.fails(PlaybookError::Template(e)),
                Ok(path) => self.asks(
                    Phase::Recording { observed },
                    ActionView::WriteFile { path, contents: signed_decimal_text(observed as int) },
                ),
            },
            None => self.settle(step, observed),
        }
    }

    /// The key and the file of an entry operation that carries a payload: the
    /// step must name a file; the key and the file are resolved.
    pub open spec fn entry_args(self, step: Map<Seq<char>, Seq<char>>, key: Seq<char>) -> Result<
        (Seq<char>, Seq<char>),
        PlaybookError,
    > {
        match field(step, "file"@) {
            None => Err(PlaybookError::Config),
            Some(file) => match self.replace(key) {
                Err(e) => Err(PlaybookError::Template(e)),
                Ok(entry) => match self.replace(file) {
                    Err(e) => Err(PlaybookError::Template(e)),
                    Ok(path) => Ok((entry, path)),
                },
            },
        }
    }

    /// Sending the variable whose name is the template `name`: the step must
    /// name a file and a role; the receivers are all participants of the role,
    /// or the one at the step's index.
    pub open spec fn send(self, step: Map<Seq<char>, Seq<char>>, name: Seq<char>) -> Decision {
        match (field(step, "file"@), field(step, "to_role"@)) {
            (Some(file), Some(role)) => match self.replace(name) {
                Err(e) => self.fails(PlaybookError::Template(e)),
                Ok(variable) => match self.replace(file) {
                    Err(e) => self.fails(PlaybookError::Template(e)),
                    Ok(path) => {
                        let all = of_role(self.participants, role);
                        match integer_field(step, "index"@) {
                            None => self.fails(PlaybookError::Config),
                            Some(None) => self.asks(
                                Phase::Calling,
                                ActionView::SendVariable {
                                    name: variable,
                                    file: path,
                                    participants: all,
                                },
                            ),
                            Some(Some(index)) => match pick(all, index as i64) {
                                Some(one) => self.asks(
                                    Phase::Calling,
                                    ActionView::SendVariable {
                                        name: variable,
                                        file: path,
                                        participants: seq![one],
                                    },
                                ),
                                None => self.fails(PlaybookError::Config),
                            },
                        }
                    },
                },
            },
            _ => self.fails(PlaybookError::Config),
        }
    }

    /// Receiving the variable whose name is the template `name`: the step must
    /// name a role and an index, which select the one sender.
    pub open spec fn recv(self, step: Map<Seq<char>, Seq<char>>, name: Seq<char>) -> Decision {
        match self.replace(name) {
            Err(e) => self.fails(PlaybookError::Template(e)),
            Ok(variable) => match (field(step, "from_role"@), integer_field(step, "index"@)) {
                (Some(role), Some(Some(index))) => match pick(
                    of_role(self.participants, role),
                    index as i64,
                ) {
                    None => self.fails(PlaybookError::Config),
                    Some(sender) => self.asks(
                        Phase::Receiving,
                        ActionView::RecvVariable { name: variable, participant: sender },
                    ),
                },
                _ => self.fails(PlaybookError::Config),
            },
        }
    }

    /// What follows the delivery of `payload`: it is written, as it was
    /// received, to the step's file; a step that names no file has completed.
    pub open spec fn store(self, step: Map<Seq<char>, Seq<char>>, payload: Seq<u8>) -> Decision {
        match field(step, "file"@) {
            None => self.completes(),
            Some(file) => match self.replace(file) {
                Err(e) => self.fails(PlaybookError::Template(e)),
                Ok(path) => self.asks(Phase::Storing, ActionView::WritePayload { path, payload }),
            },
        }
    }

    /// The step's variable or entry operation: the first, in this order, of
    /// send, receive, create, read, read-or-wait, update and delete that the
    /// step names.
    pub open spec fn coordinate(self, step: Map<Seq<char>, Seq<char>>) -> Decision {
        if let Some(name) = field(step, "send_variable"@) {
            self.send(step, name)
        } else if let Some(name) = field(step, "recv_variable"@) {
            self.recv(step, name)
        } else if let Some(key) = field(step, "create_entry"@) {
            match self.entry_args(step, key) {
                Ok((key, file)) => self.asks(Phase::Calling, ActionView::CreateEntry { key, file }),
                Err(e) => self.fails(e),
            }
        } else if let Some(key) = field(step, "read_entry"@) {
            match self.entry_args(step, key) {
                Ok((key, file)) => self.asks(Phase::Receiving, ActionView::ReadEntry { key, file }),
                Err(e) => self.fails(e),
            }
        } else if let Some(key) = field(step, "read_or_wait_entry"@) {
            match self.entry_args(step, key) {
                Ok((key, file)) => self.asks(
                    Phase::Receiving,
                    ActionView::ReadOrWaitEntry { key, file },
                ),
                Err(e) => self.fails(e),
            }
        } else if let Some(key) = field(step, "update_entry"@) {
            match self.entry_args(step, key) {
                Ok((key, file)) => self.asks(Phase::Calling, ActionView::UpdateEntry { key, file }),
                Err(e) => self.fails(e),
            }
        } else if let Some(key) = field(step, "delete_entry"@) {
            match self.replace(key) {
                Ok(key) => self.asks(Phase::Calling, ActionView::DeleteEntry { key }),
                Err(e) => self.fails(PlaybookError::Template(e)),
            }
        } else {
            self.fails(PlaybookError::UnrecognizedStep)
        }
    }

    /// What the step does about processes that run.
    pub open spec fn control(self, step: Map<Seq<char>, Seq<char>>, launched: bool) -> Decision {
        if let Some(name) = field(step, "process_kill"@) {
            self.kill(name)
        } else if let Some(name) = field(step, "process_wait"@) {
            self.reap(name)
        } else if launched {
            self.completes()
        } else {
            self.coordinate(step)
        }
    }

    /// The step's action once its guard, if any, has passed.
    pub open spec fn act(self, step: Map<Seq<char>, Seq<char>>) -> Decision {
        match field(step, "process"@) {
            Some(command) => match field(step, "step_name"@) {
                Some(name) => self.launch(name, command),
                None => self.fails(PlaybookError::Config),
            },
            None => self.control(step, false),
        }
    }

    /// The start of the evaluation of `step`.
    pub open spec fn decide(self, step: Map<Seq<char>, Seq<char>>) -> Decision {
        match field(step, "if"@) {
            Some(condition) => self.guard(condition),
            None => self.act(step),
        }
    }

    /// How the evaluation of `step` goes on when the host answers `event`.
    pub open spec fn resume(self, step: Map<Seq<char>, Seq<char>>, event: Event) -> Decision {
        if !awaiting(self.phase) || self.phase is Preparing {
            self.fails(PlaybookError::UnexpectedEvent)
        } else {
            match event {
                Event::Failed(fault) => self.fails(fault_error(fault)),
                Event::Completed => match self.phase {
                    Phase::Launching => match field(step, "step_name"@) {
                        Some(name) => self.registering(name).control(step, true),
                        None => self.fails(PlaybookError::UnexpectedEvent),
                    },
                    Phase::Killing => match field(step, "process_kill"@) {
                        Some(name) => self.reap(name),
                        None => self.fails(PlaybookError::UnexpectedEvent),
                    },
                    Phase::Collecting { observed } => self.record(step, observed),
                    Phase::Recording { observed } => self.settle(step, observed),
                    Phase::Calling => self.completes(),
                    Phase::Storing => self.completes(),
                    _ => self.fails(PlaybookError::UnexpectedEvent),
                },
                Event::Received(payload) => match self.phase {
                    Phase::Receiving => self.store(step, payload@),
                    _ => self.fails(PlaybookError::UnexpectedEvent),
                },
                Event::Exited { code, signal } => match self.phase {
                    Phase::GuardWaiting => match observed_result(code, signal) {
                        None => self.fails(PlaybookError::Process(ProcessError::Failed)),
                        Some(observed) => if observed == 0 {
                            self.act(step)
                        } else {
                            self.completes()
                        },
                    },
                    Phase::Reaping => match observed_result(code, signal) {
                        None => self.fails(PlaybookError::Process(ProcessError::Failed)),
                        Some(observed) => self.collect(step, observed),
                    },
                    _ => self.fails(PlaybookError::UnexpectedEvent),
                },
            }
        }
    }

    /// The snapshot of an invocation with the parameter `param`.
    pub open spec fn snapshot(self, param: Seq<u8>) -> ParamSnapshotView {
        ParamSnapshotView {
            param: base64_of(param),
            participants: id_roles(self.participants),
            user_id: self.identity.user_id,
            task_id: self.identity.task_id,
        }
    }
}

impl InvocationView {
    /// This invocation with the runtime in the state `runtime`.
    pub open spec fn with_runtime(self, runtime: RuntimeView) -> InvocationView {
        InvocationView { runtime, ..self }
    }

    /// This invocation ended by the error `e`.
    pub open spec fn fails(self, e: PlaybookError) -> Progress {
        Progress { invocation: self.with_runtime(self.runtime.at(Phase::Failed)), result: Err(e) }
    }

    /// How many participants have the role that is executed.
    pub open spec fn role_count(self) -> nat {
        of_role(self.runtime.participants, self.role.name).len()
    }

    /// The start of an invocation with the parameter `param`: the
    /// participants of the role are counted against its bounds before
    /// anything else; then the working directory and the snapshot's file are
    /// resolved, and the host is asked to make them.
    pub open spec fn start(self, param: Seq<u8>) -> Progress {
        if !count_fits(self.role_count(), self.role.min_num, self.role.max_num) {
            self.fails(PlaybookError::ParticipantCount)
        } else {
            match self.runtime.replace(self.runtime.working_dir) {
                Err(e) => self.fails(PlaybookError::Template(e)),
                Ok(dir) => match self.runtime.replace("param.json"@) {
                    Err(e) => self.fails(PlaybookError::Template(e)),
                    Ok(file) => Progress {
                        invocation: self.with_runtime(self.runtime.at(Phase::Preparing)),
                        result: Ok(
                            ActionView::Prepare {
                                working_dir: dir,
                                file,
                                snapshot: self.runtime.snapshot(param),
                            },
                        ),
                    },
                },
            }
        }
    }

    /// The flat step at the cursor.
    pub open spec fn step(self) -> Map<Seq<char>, Seq<char>> {
        map_of(self.role.steps[self.runtime.cursor as int])
    }

    /// What a point of a step means for the invocation: the step's action or
    /// error, or else the step has completed.
    pub open spec fn follow(self, point: Decision) -> Progress {
        match point.result {
            Err(e) => Progress { invocation: self.with_runtime(point.runtime), result: Err(e) },
            Ok(Some(action)) => Progress {
                invocation: self.with_runtime(point.runtime),
                result: Ok(action),
            },
            Ok(None) => self.with_runtime(point.runtime.next()).enter(),
        }
    }

    /// Taking up the step at the cursor: the end if no step is left; else the
    /// first point of that step, which is an action or an error.
    pub open spec fn enter(self) -> Progress {
        if self.runtime.cursor >= self.role.steps.len() {
            Progress {
                invocation: self.with_runtime(self.runtime.at(Phase::Finished)),
                result: Ok(ActionView::Finished),
            }
        } else {
            let first = self.runtime.decide(self.step());
            match first.result {
                Err(e) => Progress { invocation: self.with_runtime(first.runtime), result: Err(e) },
                Ok(Some(action)) => Progress {
                    invocation: self.with_runtime(first.runtime),
                    result: Ok(action),
                },
                Ok(None) => self.with_runtime(first.runtime).fails(PlaybookError::UnexpectedEvent),
            }
        }
    }

    /// How the invocation goes on when the host answers `event`: the step at
    /// the cursor goes on, and when it has completed the next one is taken
    /// up. Once the invocation has ended, every answer is refused.
    pub open spec fn advance(self, event: Event) -> Progress {
        if self.runtime.phase is Preparing {
            match event {
                Event::Completed => self.enter(),
                Event::Failed(fault) => self.fails(fault_error(fault)),
                _ => self.fails(PlaybookError::UnexpectedEvent),
            }
        } else if !awaiting(self.runtime.phase) {
            Progress { invocation: self, result: Err(PlaybookError::UnexpectedEvent) }
        } else if self.runtime.cursor >= self.role.steps.len() {
            self.fails(PlaybookError::UnexpectedEvent)
        } else {
            self.follow(self.runtime.resume(self.step(), event))
        }
    }
}

/// The fields of a flat step as a map; where a key stands twice, its first
/// value counts.
pub open spec fn map_of(step: Seq<(Seq<char>, Seq<char>)>) -> Map<Seq<char>, Seq<char>>
    decreases step.len(),
{
    if step.len() == 0 {
        Map::empty()
    } else {
        map_of(step.drop_first()).insert(step[0].0, step[0].1)
    }
}

/// The map of a list of pairs is the binding set of the list.
pub proof fn lemma_map_of_pairs(step: Seq<(String, String)>)
    ensures
        map_of(pair_texts(step)) == bindings_of(step),
    decreases step.len(),
{
    if step.len() > 0 {
        assert(pair_texts(step).drop_first() =~= pair_texts(step.drop_first()));
        lemma_map_of_pairs(step.drop_first());
    }
}

/// What the caller of the runtime hands to it with every call: the client's
/// identity, the environment as names and values, and the participants of
/// the task.
#[derive(Debug, PartialEq, Eq)]
pub struct Caller {
    pub identity: Identity,
    pub env: Vec<(String, String)>,
    pub participants: Vec<Participant>,
}

/// A caller as the contracts see it.
pub struct CallerView {
    pub identity: IdentityView,
    pub env: Map<Seq<char>, Seq<char>>,
    pub participants: Seq<ParticipantView>,
}

impl View for Caller {
    type V = CallerView;

    open spec fn view(&self) -> CallerView {
        CallerView {
            identity: self.identity@,
            env: bindings_of(self.env@),
            participants: participant_views(self.participants@),
        }
    }
}

/// The working state of the runtime: its working directory, its process
/// table, and where it stands in the role's steps.
pub struct RuntimeFunc {
    working_dir: String,
    process_map: Vec<String>,
    cursor: usize,
    phase: Phase,
}

/// The working state as the contracts see it.
pub struct FuncView {
    pub working_dir: Seq<char>,
    pub registered: Seq<Seq<char>>,
    pub cursor: nat,
    pub phase: Phase,
}

impl View for RuntimeFunc {
    type V = FuncView;

    closed spec fn view(&self) -> FuncView {
        FuncView {
            working_dir: self.working_dir@,
            registered: texts(self.process_map@),
            cursor: self.cursor as nat,
            phase: self.phase,
        }
    }
}

/// The state of the runtime in a call by `caller`.
pub open spec fn runtime_view(func: FuncView, caller: CallerView) -> RuntimeView {
    RuntimeView {
        working_dir: func.working_dir,
        participants: caller.participants,
        identity: caller.identity,
        env: caller.env,
        registered: func.registered,
        cursor: func.cursor,
        phase: func.phase,
    }
}

/// The outcome of a point of a step, with the action taken by its view.
pub open spec fn decision_of(
    func: FuncView,
    caller: CallerView,
    r: Result<Option<Action>, PlaybookError>,
) -> Decision {
    Decision {
        runtime: runtime_view(func, caller),
        result: match r {
            Ok(Some(action)) => Ok(Some(action@)),
            Ok(None) => Ok(None),
            Err(e) => Err(e),
        },
    }
}

/// The value of a field of a flat step, taken by its view.
pub open spec fn field_text(value: Option<&String>) -> Option<Seq<char>> {
    match value {
        Some(s) => Some(s@),
        None => None,
    }
}

/// The value of the field `key` of a flat step.
pub fn get<'a>(step_argv: &'a Vec<(String, String)>, key: &str) -> (r: Option<&'a String>)
    ensures
        field_text(r) == field(bindings_of(step_argv@), key@),
{
    let name: Vec<char> = chars_of(key);
    lookup(step_argv, &name)
}

/// The integer under the key `key` of a flat step.
pub fn get_integer(step_argv: &Vec<(String, String)>, key: &str) -> (r: Option<Option<i32>>)
    ensures
        r == integer_field(bindings_of(step_argv@), key@),
{
    match get(step_argv, key) {
        None => Some(None),
        Some(text) => match read_small_integer(&chars_of(text.as_str())) {
            Some(n) => Some(Some(n)),
            None => None,
        },
    }
}

impl RuntimeFunc {
    /// The working state at the start: no process is registered, and no step
    /// has run.
    pub fn new(working_dir: String) -> (r: RuntimeFunc)
        ensures
            r@ == (FuncView {
                working_dir: working_dir@,
                registered: Seq::empty(),
                cursor: 0,
                phase: Phase::Idle,
            }),
    {
        let func = RuntimeFunc {
            working_dir,
            process_map: Vec::new(),
            cursor: 0,
            phase: Phase::Idle,
        };
        assert(func@.registered =~= Seq::<Seq<char>>::empty());
        func
    }

    /// Which answer the runtime is waiting for.
    pub fn phase(&self) -> (r: Phase)
        ensures
            r == self@.phase,
    {
        self.phase
    }

    /// The position of the step that is evaluated.
    pub fn cursor(&self) -> (r: usize)
        ensures
            r == self@.cursor,
    {
        self.cursor
    }

    /// Whether a process is registered under `name`.
    pub fn is_registered(&self, name: &str) -> (r: bool)
        ensures
            r == self@.registered.contains(name@),
    {
        let wanted: String = name.to_string();
        let mut i: usize = 0;
        while i < self.process_map.len()
            invariant
                0 <= i <= self.process_map@.len(),
                wanted@ == name@,
                forall|k: int| 0 <= k < i ==> texts(self.process_map@)[k] != name@,
            decreases self.process_map@.len() - i,
        {
            if self.process_map[i] == wanted {
                assert(texts(self.process_map@)[i as int] == name@);
                return true;
            }
            i = i + 1;
        }
        false
    }

    /// The participants with the role `role_name`, in the order of
    /// `participants`.
    pub fn get_role_participants(participants: &Vec<Participant>, role_name: String) -> (r: Vec<
        Participant,
    >)
        ensures
            participant_views(r@) == of_role(participant_views(participants@), role_name@),
    {
        get_role_participants(participants, role_name.as_str())
    }

    /// Resolves `to_replace`: the placeholders `{{task_id}}` and
    /// `{{user_id}}`, with or without a range, are rendered, and every
    /// `$NAME` token is then replaced from the environment; a token whose
    /// name the environment does not hold stays as it is, and so does all
    /// text that is no placeholder.
    pub fn replace_path_value(caller: &Caller, to_replace: &str) -> (r: Result<
        String,
        TemplateError,
    >)
        ensures
            text_of(r) == resolved(to_replace@, canonical_bindings(caller@.identity), caller@.env),
    {
        let table: Vec<(String, String)> = canonical_table(&caller.identity);
        resolve(to_replace, &table, &caller.env)
    }

    fn replace(&self, caller: &Caller, s: &str) -> (r: Result<String, TemplateError>)
        ensures
            text_of(r) == runtime_view(self@, caller@).replace(s@),
    {
        RuntimeFunc::replace_path_value(caller, s)
    }

    fn replace_opt(&self, caller: &Caller, s: Option<&String>) -> (r: Result<
        Option<String>,
        TemplateError,
    >)
        ensures
            opt_text_of(r) == runtime_view(self@, caller@).replace_opt(field_text(s)),
    {
        match s {
            None => Ok(None),
            Some(name) => match self.replace(caller, name.as_str()) {
                Ok(path) => Ok(Some(path)),
                Err(e) => Err(e),
            },
        }
    }

    /// Holds the number of participants with the role `role_name` against the
    /// bounds: fewer than `min_num` or more than `max_num` is an error.
    pub fn check_roles_num(
        &self,
        participants: &Vec<Participant>,
        role_name: &str,
        max_num: i64,
        min_num: i64,
    ) -> (r: Result<(), PlaybookError>)
        ensures
            r is Ok <==> count_fits(
                of_role(participant_views(participants@), role_name@).len(),
                min_num,
                max_num,
            ),
            r matches Err(e) ==> e == PlaybookError::ParticipantCount,
    {
        let matching: Vec<Participant> = get_role_participants(participants, role_name);
        assert(participant_views(matching@).len() == matching@.len());
        let count: usize = matching.len();
        let below_max: bool = max_num >= 0 && count as u64 <= max_num as u64;
        let above_min: bool = min_num <= 0 || min_num as u64 <= count as u64;
        if below_max && above_min {
            Ok(())
        } else {
            Err(PlaybookError::ParticipantCount)
        }
    }

    /// The snapshot of an invocation with the parameter `param`.
    pub fn store_param(&self, caller: &Caller, param: &Vec<u8>) -> (r: ParamSnapshot)
        requires
            encodable(param@.len()),
        ensures
            r@ == runtime_view(self@, caller@).snapshot(param@),
    {
        ParamSnapshot {
            param: base64_encode(param),
            participants: id_role_pairs(&caller.participants),
            user_id: caller.identity.user_id.clone(),
            task_id: caller.identity.task_id.clone(),
        }
    }

    fn fail(&mut self, caller: &Caller, e: PlaybookError) -> (r: Result<
        Option<Action>,
        PlaybookError,
    >)
        ensures
            decision_of(final(self)@, caller@, r) == runtime_view(old(self)@, caller@).fails(e),
    {
        self.phase = Phase::Failed;
        Err(e)
    }

    fn ask(&mut self, caller: &Caller, phase: Phase, action: Action) -> (r: Result<
        Option<Action>,
        PlaybookError,
    >)
        ensures
            decision_of(final(self)@, caller@, r) == runtime_view(old(self)@, caller@).asks(
                phase,
                action@,
            ),
    {
        self.phase = phase;
        Ok(Some(action))
    }

    fn complete(&mut self, caller: &Caller) -> (r: Result<Option<Action>, PlaybookError>)
        ensures
            decision_of(final(self)@, caller@, r) == runtime_view(old(self)@, caller@).completes(),
    {
        self.phase = Phase::Idle;
        Ok(None)
    }

    fn register(&mut self, name: &str)
        ensures
            final(self)@ == (FuncView { registered: old(self)@.registered.push(name@), ..old(self)@ }),
    {
        self.process_map.push(name.to_string());
        proof {
            assert(texts(self.process_map@) =~= texts(old(self).process_map@).push(name@));
        }
    }

    fn release(&mut self, name: &str)
        ensures
            final(self)@ == (FuncView {
                registered: old(self)@.registered.filter(differs_from(name@)),
                ..old(self)@
            }),
    {
        let wanted: String = name.to_string();
        let ghost all = texts(self.process_map@);
        let mut kept: Vec<String> = Vec::new();
        let mut i: usize = 0;
        proof {
            reveal(Seq::filter);
            assert(all.take(0) =~= Seq::<Seq<char>>::empty());
        }
        while i < self.process_map.len()
            invariant
                0 <= i <= self.process_map@.len(),
                wanted@ == name@,
                all == texts(self.process_map@),
                texts(kept@) == all.take(i as int).filter(differs_from(name@)),
            decreases self.process_map@.len() - i,
        {
            let ghost before = texts(kept@);
            proof {
                reveal(Seq::filter);
                assert(all.take(i + 1).drop_last() =~= all.take(i as int));
                assert(all.take(i + 1).last() == self.process_map@[i as int]@);
            }
            if !(self.process_map[i] == wanted) {
                kept.push(self.process_map[i].clone());
                assert(texts(kept@) =~= before.push(self.process_map@[i as int]@));
            }
            i = i + 1;
        }
        proof {
            assert(all.take(i as int) =~= all);
        }
        self.process_map = kept;
    }

    /// The command and the working directory of a process, resolved.
    fn command_line(&self, caller: &Caller, command: &str) -> (r: Result<
        (String, String),
        TemplateError,
    >)
        ensures
            match r {
                Ok((line, dir)) => runtime_view(self@, caller@).command_line(command@) == Ok::<
                    (Seq<char>, Seq<char>),
                    TemplateError,
                >((line@, dir@)),
                Err(e) => runtime_view(self@, caller@).command_line(command@) == Err::<
                    (Seq<char>, Seq<char>),
                    TemplateError,
                >(e),
            },
    {
        let line: String = match self.replace(caller, command) {
            Ok(line) => line,
            Err(e) => {
                return Err(e);
            },
        };
        match self.replace(caller, self.working_dir.as_str()) {
            Ok(dir) => Ok((line, dir)),
            Err(e) => Err(e),
        }
    }

    /// Asks for the guard `command_str` to be run to its end.
    fn simple_run(&mut self, caller: &Caller, command_str: &str) -> (r: Result<
        Option<Action>,
        PlaybookError,
    >)
        ensures
            decision_of(final(self)@, caller@, r) == runtime_view(old(self)@, caller@).guard(
                command_str@,
            ),
    {
        match self.command_line(caller, command_str) {
            Err(e) => self.fail(caller, PlaybookError::Template(e)),
            Ok((command, working_dir)) => {
                let env: Vec<(String, String)> = spawn_env(&caller.identity);
                self.ask(caller, Phase::GuardWaiting, Action::Run { command, working_dir, env })
            },
        }
    }

    /// Asks for `process_str` to be launched under `process_name`.
    fn sign_process_and_run(&mut self, caller: &Caller, process_name: &str, process_str: &str) -> (r:
        Result<Option<Action>, PlaybookError>)
        ensures
            decision_of(final(self)@, caller@, r) == runtime_view(old(self)@, caller@).launch(
                process_name@,
                process_str@,
            ),
    {
        match self.command_line(caller, process_str) {
            Err(e) => self.fail(caller, PlaybookError::Template(e)),
            Ok((command, working_dir)) => {
                if self.is_registered(process_name) {
                    return self.fail(
                        caller,
                        PlaybookError::Process(ProcessError::AlreadyRegistered),
                    );
                }
                let env: Vec<(String, String)> = spawn_env(&caller.identity);
                let action = Action::Launch {
                    step_name: process_name.to_string(),
                    command,
                    working_dir,
                    env,
                };
                self.ask(caller, Phase::Launching, action)
            },
        }
    }

    /// Asks for the process registered under `process_name` to be killed.
    fn process_kill(&mut self, caller: &Caller, process_name: &str) -> (r: Result<
        Option<Action>,
        PlaybookError,
    >)
        ensures
            decision_of(final(self)@, caller@, r) == runtime_view(old(self)@, caller@).kill(
                process_name@,
            ),
    {
        if !self.is_registered(process_name) {
            return self.fail(caller, PlaybookError::Process(ProcessError::NotRegistered));
        }
        self.ask(caller, Phase::Killing, Action::Kill { step_name: process_name.to_string() })
    }

    /// Asks for the process registered under `process_name` to be waited for,
    /// and takes it out of the table.
    fn wait(&mut self, caller: &Caller, process_name: &str) -> (r: Result<
        Option<Action>,
        PlaybookError,
    >)
        ensures
            decision_of(final(self)@, caller@, r) == runtime_view(old(self)@, caller@).reap(
                process_name@,
            ),
    {
        if !self.is_registered(process_name) {
            return self.fail(caller, PlaybookError::Process(ProcessError::NotRegistered));
        }
        self.release(process_name);
        self.ask(caller, Phase::Reaping, Action::Wait { step_name: process_name.to_string() })
    }

    /// Asks for the output of the process that the step waited for to be
    /// collected.
    fn communicate_with_process(
        &mut self,
        caller: &Caller,
        step_argv: &Vec<(String, String)>,
        observed: i32,
    ) -> (r: Result<Option<Action>, PlaybookError>)
        ensures
            decision_of(final(self)@, caller@, r) == runtime_view(old(self)@, caller@).collect(
                bindings_of(step_argv@),
                observed,
            ),
    {
        let name: &String = match get(step_argv, "process_kill") {
            Some(name) => name,
            None => match get(step_argv, "process_wait") {
                Some(name) => name,
                None => {
                    return self.fail(caller, PlaybookError::UnexpectedEvent);
                },
            },
        };
        let out: Option<String> = match self.replace_opt(caller, get(step_argv, "stdout_file")) {
            Ok(path) => path,
            Err(e) => {
                return self.fail(caller, PlaybookError::Template(e));
            },
        };
        let err: Option<String> = match self.replace_opt(caller, get(step_argv, "stderr_file")) {
            Ok(path) => path,
            Err(e) => {
                return self.fail(caller, PlaybookError::Template(e));
            },
        };
        let action = Action::Collect { step_name: name.clone(), stdout_file: out, stderr_file: err };
        self.ask(caller, Phase::Collecting { observed }, action)
    }

    /// Ends a step that waited for a process: the result must be the one the
    /// step asks for, if it asks for one.
    fn settle(&mut self, caller: &Caller, step_argv: &Vec<(String, String)>, observed: i32) -> (r:
        Result<Option<Action>, PlaybookError>)
        ensures
            decision_of(final(self)@, caller@, r) == runtime_view(old(self)@, caller@).settle(
                bindings_of(step_argv@),
                observed,
            ),
    {
        match get_integer(step_argv, "check_exit_code") {
            None => self.fail(caller, PlaybookError::Config),
            Some(None) => self.complete(caller),
            Some(Some(expected)) => {
                if expected != observed {
                    self.fail(
                        caller,
                        PlaybookError::Process(ProcessError::ExitCode { expected, observed }),
                    )
                } else {
                    self.complete(caller)
                }
            },
        }
    }

    /// Asks for the result of a process to be written to the file under
    /// `exit_code`, or settles the step if it names none.
    fn record(&mut self, caller: &Caller, step_argv: &Vec<(String, String)>, observed: i32) -> (r:
        Result<Option<Action>, PlaybookError>)
        ensures
            decision_of(final(self)@, caller@, r) == runtime_view(old(self)@, caller@).record(
                bindings_of(step_argv@),
                observed,
            ),
    {
        match get(step_argv, "exit_code") {
            Some(file) => match self.replace(caller, file.as_str()) {
                Err(e) => self.fail(caller, PlaybookError::Template(e)),
                Ok(path) => {
                    let contents: String = signed_decimal(observed as i64);
                    self.ask(
                        caller,
                        Phase::Recording { observed },
                        Action::WriteFile { path, contents },
                    )
                },
            },
            None => self.settle(caller, step_argv, observed),
        }
    }

    /// Asks for a variable to be sent.
    fn send_variable(
        &mut self,
        caller: &Caller,
        step_argv: &Vec<(String, String)>,
        variable_name: &str,
    ) -> (r: Result<Option<Action>, PlaybookError>)
        ensures
            decision_of(final(self)@, caller@, r) == runtime_view(old(self)@, caller@).send(
                bindings_of(step_argv@),
                variable_name@,
            ),
    {
        let (file, to_role): (&String, &String) = match (
            get(step_argv, "file"),
            get(step_argv, "to_role"),
        ) {
            (Some(file), Some(to_role)) => (file, to_role),
            _ => {
                return self.fail(caller, PlaybookError::Config);
            },
        };
        let name: String = match self.replace(caller, variable_name) {
            Ok(name) => name,
            Err(e) => {
                return self.fail(caller, PlaybookError::Template(e));
            },
        };
        let path: String = match self.replace(caller, file.as_str()) {
            Ok(path) => path,
            Err(e) => {
                return self.fail(caller, PlaybookError::Template(e));
            },
        };
        let all: Vec<Participant> = get_role_participants(&caller.participants, to_role.as_str());
        assert(participant_views(all@).len() == all@.len());
        let participants: Vec<Participant> = match get_integer(step_argv, "index") {
            None => {
                return self.fail(caller, PlaybookError::Config);
            },
            Some(None) => all,
            Some(Some(index)) => {
                if index >= 0 && (index as u64) < (all.len() as u64) {
                    let one: Participant = all[index as usize].clone();
                    assert(participant_views(all@)[index as int] == one@);
                    let mut only: Vec<Participant> = Vec::new();
                    only.push(one);
                    assert(participant_views(only@) =~= seq![one@]);
                    only
                } else {
                    return self.fail(caller, PlaybookError::Config);
                }
            },
        };
        self.ask(caller, Phase::Calling, Action::SendVariable { name, file: path, participants })
    }

    /// Asks for a variable to be received.
    fn recv_variable(
        &mut self,
        caller: &Caller,
        step_argv: &Vec<(String, String)>,
        variable_name: &str,
    ) -> (r: Result<Option<Action>, PlaybookError>)
        ensures
            decision_of(final(self)@, caller@, r) == runtime_view(old(self)@, caller@).recv(
                bindings_of(step_argv@),
                variable_name@,
            ),
    {
        let name: String = match self.replace(caller, variable_name) {
            Ok(name) => name,
            Err(e) => {
                return self.fail(caller, PlaybookError::Template(e));
            },
        };
        let (from_role, index): (&String, i32) = match (
            get(step_argv, "from_role"),
            get_integer(step_argv, "index"),
        ) {
            (Some(role), Some(Some(index))) => (role, index),
            _ => {
                return self.fail(caller, PlaybookError::Config);
            },
        };
        let senders: Vec<Participant> = get_role_participants(
            &caller.participants,
            from_role.as_str(),
        );
        assert(participant_views(senders@).len() == senders@.len());
        if index >= 0 && (index as u64) < (senders.len() as u64) {
            let participant: Participant = senders[index as usize].clone();
            assert(participant_views(senders@)[index as int] == participant@);
            self.ask(caller, Phase::Receiving, Action::RecvVariable { name, participant })
        } else {
            self.fail(caller, PlaybookError::Config)
        }
    }

    /// Asks for a payload that was received to be written to the step's file.
    fn store(&mut self, caller: &Caller, step_argv: &Vec<(String, String)>, payload: Vec<u8>) -> (r:
        Result<Option<Action>, PlaybookError>)
        ensures
            decision_of(final(self)@, caller@, r) == runtime_view(old(self)@, caller@).store(
                bindings_of(step_argv@),
                payload@,
            ),
    {
        match get(step_argv, "file") {
            None => self.complete(caller),
            Some(file) => match self.replace(caller, file.as_str()) {
                Err(e) => self.fail(caller, PlaybookError::Template(e)),
                Ok(path) => self.ask(caller, Phase::Storing, Action::WritePayload { path, payload }),
            },
        }
    }

    /// The file and the key of an entry operation that carries a payload.
    fn entry_args(&self, caller: &Caller, step_argv: &Vec<(String, String)>, key: &str) -> (r:
        Result<(String, String), PlaybookError>)
        ensures
            match r {
                Ok((entry, path)) => runtime_view(self@, caller@).entry_args(
                    bindings_of(step_argv@),
                    key@,
                ) == Ok::<(Seq<char>, Seq<char>), PlaybookError>((entry@, path@)),
                Err(e) => runtime_view(self@, caller@).entry_args(bindings_of(step_argv@), key@)
                    == Err::<(Seq<char>, Seq<char>), PlaybookError>(e),
            },
    {
        let file: &String = match get(step_argv, "file") {
            Some(file) => file,
            None => {
                return Err(PlaybookError::Config);
            },
        };
        let entry: String = match self.replace(caller, key) {
            Ok(entry) => entry,
            Err(e) => {
                return Err(PlaybookError::Template(e));
            },
        };
        match self.replace(caller, file.as_str()) {
            Ok(path) => Ok((entry, path)),
            Err(e) => Err(PlaybookError::Template(e)),
        }
    }

    /// The step's variable or entry operation.
    fn coordinate(&mut self, caller: &Caller, step_argv: &Vec<(String, String)>) -> (r: Result<
        Option<Action>,
        PlaybookError,
    >)
        ensures
            decision_of(final(self)@, caller@, r) == runtime_view(old(self)@, caller@).coordinate(
                bindings_of(step_argv@),
            ),
    {
        if let Some(name) = get(step_argv, "send_variable") {
            self.send_variable(caller, step_argv, name.as_str())
        } else if let Some(name) = get(step_argv, "recv_variable") {
            self.recv_variable(caller, step_argv, name.as_str())
        } else if let Some(key) = get(step_argv, "create_entry") {
            match self.entry_args(caller, step_argv, key.as_str()) {
                Ok((key, file)) => self.ask(caller, Phase::Calling, Action::CreateEntry { key, file }),
                Err(e) => self.fail(caller, e),
            }
        } else if let Some(key) = get(step_argv, "read_entry") {
            match self.entry_args(caller, step_argv, key.as_str()) {
                Ok((key, file)) => self.ask(caller, Phase::Receiving, Action::ReadEntry { key, file }),
                Err(e) => self.fail(caller, e),
            }
        } else if let Some(key) = get(step_argv, "read_or_wait_entry") {
            match self.entry_args(caller, step_argv, key.as_str()) {
                Ok((key, file)) => self.ask(
                    caller,
                    Phase::Receiving,
                    Action::ReadOrWaitEntry { key, file },
                ),
                Err(e) => self.fail(caller, e),
            }
        } else if let Some(key) = get(step_argv, "update_entry") {
            match self.entry_args(caller, step_argv, key.as_str()) {
                Ok((key, file)) => self.ask(caller, Phase::Calling, Action::UpdateEntry { key, file }),
                Err(e) => self.fail(caller, e),
            }
        } else if let Some(key) = get(step_argv, "delete_entry") {
            match self.replace(caller, key.as_str()) {
                Ok(key) => self.ask(caller, Phase::Calling, Action::DeleteEntry { key }),
                Err(e) => self.fail(caller, PlaybookError::Template(e)),
            }
        } else {
            self.fail(caller, PlaybookError::UnrecognizedStep)
        }
    }

    /// What the step does about processes that run.
    fn control(&mut self, caller: &Caller, step_argv: &Vec<(String, String)>, launched: bool) -> (r:
        Result<Option<Action>, PlaybookError>)
        ensures
            decision_of(final(self)@, caller@, r) == runtime_view(old(self)@, caller@).control(
                bindings_of(step_argv@),
                launched,
            ),
    {
        if let Some(name) = get(step_argv, "process_kill") {
            self.process_kill(caller, name.as_str())
        } else if let Some(name) = get(step_argv, "process_wait") {
            self.wait(caller, name.as_str())
        } else if launched {
            self.complete(caller)
        } else {
            self.coordinate(caller, step_argv)
        }
    }

    /// The step's action once its guard, if any, has passed.
    fn act(&mut self, caller: &Caller, step_argv: &Vec<(String, String)>) -> (r: Result<
        Option<Action>,
        PlaybookError,
    >)
        ensures
            decision_of(final(self)@, caller@, r) == runtime_view(old(self)@, caller@).act(
                bindings_of(step_argv@),
            ),
    {
        match get(step_argv, "process") {
            Some(command) => match get(step_argv, "step_name") {
                Some(name) => self.sign_process_and_run(caller, name.as_str(), command.as_str()),
                None => self.fail(caller, PlaybookError::Config),
            },
            None => self.control(caller, step_argv, false),
        }
    }

    /// Starts the evaluation of the flat step `step_argv` and gives its first
    /// action.
    ///
    /// A guard under the key `if` is run first. Without one, the step's
    /// action is taken up: a launch under `process`, which needs `step_name`;
    /// else `process_kill` or `process_wait`; else the first variable or
    /// entry operation that the step names. A step that names no action is
    /// refused with `UnrecognizedStep`.
    pub fn decide_and_call(&mut self, caller: &Caller, step_argv: &Vec<(String, String)>) -> (r:
        Result<Option<Action>, PlaybookError>)
        ensures
            decision_of(final(self)@, caller@, r) == runtime_view(old(self)@, caller@).decide(
                bindings_of(step_argv@),
            ),
    {
        match get(step_argv, "if") {
            Some(condition) => self.simple_run(caller, condition.as_str()),
            None => self.act(caller, step_argv),
        }
    }

    /// Goes on with the evaluation of `step_argv` when the host answers
    /// `event`: gives the step's next action, `Ok(None)` when the step has
    /// completed, or the error that ends the invocation.
    pub fn resume(&mut self, caller: &Caller, step_argv: &Vec<(String, String)>, event: Event) -> (r:
        Result<Option<Action>, PlaybookError>)
        ensures
            decision_of(final(self)@, caller@, r) == runtime_view(old(self)@, caller@).resume(
                bindings_of(step_argv@),
                event,
            ),
    {
        match self.phase {
            Phase::Idle | Phase::Finished | Phase::Failed | Phase::Preparing => {
                return self.fail(caller, PlaybookError::UnexpectedEvent);
            },
            _ => {},
        }
        match event {
            Event::Failed(fault) => {
                let e: PlaybookError = match fault {
                    Fault::File => PlaybookError::Io,
                    Fault::Process => PlaybookError::Process(ProcessError::Failed),
                    Fault::Service => PlaybookError::Coordination,
                };
                self.fail(caller, e)
            },
            Event::Completed => match self.phase {
                Phase::Launching => match get(step_argv, "step_name") {
                    Some(name) => {
                        self.register(name.as_str());
                        self.control(caller, step_argv, true)
                    },
                    None => self.fail(caller, PlaybookError::UnexpectedEvent),
                },
                Phase::Killing => match get(step_argv, "process_kill") {
                    Some(name) => self.wait(caller, name.as_str()),
                    None => self.fail(caller, PlaybookError::UnexpectedEvent),
                },
                Phase::Collecting { observed } => self.record(caller, step_argv, observed),
                Phase::Recording { observed } => self.settle(caller, step_argv, observed),
                Phase::Calling => self.complete(caller),
                Phase::Storing => self.complete(caller),
                _ => self.fail(caller, PlaybookError::UnexpectedEvent),
            },
            Event::Received(payload) => match self.phase {
                Phase::Receiving => self.store(caller, step_argv, payload),
                _ => self.fail(caller, PlaybookError::UnexpectedEvent),
            },
            Event::Exited { code, signal } => {
                let observed: Option<i32> = match signal {
                    Some(number) => Some(number),
                    None => code,
                };
                match self.phase {
                    Phase::GuardWaiting => match observed {
                        None => self.fail(caller, PlaybookError::Process(ProcessError::Failed)),
                        Some(result) => {
                            if result == 0 {
                                self.act(caller, step_argv)
                            } else {
                                self.complete(caller)
                            }
                        },
                    },
                    Phase::Reaping => match observed {
                        None => self.fail(caller, PlaybookError::Process(ProcessError::Failed)),
                        Some(result) => self.communicate_with_process(caller, step_argv, result),
                    },
                    _ => self.fail(caller, PlaybookError::UnexpectedEvent),
                }
            },
        }
    }
}

/// The runner of one role of a flat playbook.
pub struct PlaybookRuntime {
    pub role: Role,
    pub func: RuntimeFunc,
}

/// The outcome of a point of an invocation, with the action taken by its view.
pub open spec fn progress_of(invocation: InvocationView, r: Result<Action, PlaybookError>) -> Progress {
    Progress {
        invocation,
        result: match r {
            Ok(action) => Ok(action@),
            Err(e) => Err(e),
        },
    }
}

impl PlaybookRuntime {
    /// The invocation that this runner is in, in a call by `caller`.
    pub open spec fn invocation(self, caller: CallerView) -> InvocationView {
        InvocationView { role: self.role@, runtime: runtime_view(self.func@, caller) }
    }

    /// Takes up the step at the cursor.
    fn enter(&mut self, caller: &Caller) -> (r: Result<Action, PlaybookError>)
        ensures
            progress_of(final(self).invocation(caller@), r) == old(self).invocation(caller@).enter(),
    {
        if self.func.cursor >= self.role.steps.len() {
            self.func.phase = Phase::Finished;
            return Ok(Action::Finished);
        }
        proof {
            lemma_map_of_pairs(self.role.steps@[self.func.cursor as int]@);
        }
        match self.func.decide_and_call(caller, &self.role.steps[self.func.cursor]) {
            Err(e) => Err(e),
            Ok(Some(action)) => Ok(action),
            Ok(None) => {
                self.func.phase = Phase::Failed;
                Err(PlaybookError::UnexpectedEvent)
            },
        }
    }

    /// Starts one invocation of the role with the parameter `param`.
    ///
    /// The number of participants of the role is held against the role's
    /// bounds before anything else: outside them the result is
    /// `ParticipantCount`, and no step runs.
    pub fn start(&mut self, caller: &Caller, param: &Vec<u8>) -> (r: Result<Action, PlaybookError>)
        requires
            encodable(param@.len()),
        ensures
            progress_of(final(self).invocation(caller@), r) == old(self).invocation(caller@).start(
                param@,
            ),
            (r matches Err(PlaybookError::ParticipantCount)) <==> !count_fits(
                of_role(caller@.participants, old(self).role@.name).len(),
                old(self).role@.min_num,
                old(self).role@.max_num,
            ),
    {
        if self.func.check_roles_num(
            &caller.participants,
            self.role.name.as_str(),
            self.role.max_num,
            self.role.min_num,
        ).is_err() {
            self.func.phase = Phase::Failed;
            return Err(PlaybookError::ParticipantCount);
        }
        let working_dir: String = match self.func.replace(caller, self.func.working_dir.as_str()) {
            Ok(dir) => dir,
            Err(e) => {
                self.func.phase = Phase::Failed;
                return Err(PlaybookError::Template(e));
            },
        };
        let file: String = match self.func.replace(caller, "param.json") {
            Ok(file) => file,
            Err(e) => {
                self.func.phase = Phase::Failed;
                return Err(PlaybookError::Template(e));
            },
        };
        let snapshot: ParamSnapshot = self.func.store_param(caller, param);
        self.func.phase = Phase::Preparing;
        Ok(Action::Prepare { working_dir, file, snapshot })
    }

    /// Goes on with the invocation when the host answers `event`: gives the
    /// next action, `Finished` after the last step, or the error that ends
    /// the invocation.
    pub fn advance(&mut self, caller: &Caller, event: Event) -> (r: Result<Action, PlaybookError>)
        ensures
            progress_of(final(self).invocation(caller@), r) == old(self).invocation(
                caller@,
            ).advance(event),
    {
        match self.func.phase {
            Phase::Preparing => {
                return match event {
                    Event::Completed => self.enter(caller),
                    Event::Failed(fault) => {
                        self.func.phase = Phase::Failed;
                        Err(
                            match fault {
                                Fault::File => PlaybookError::Io,
                                Fault::Process => PlaybookError::Process(ProcessError::Failed),
                                Fault::Service => PlaybookError::Coordination,
                            },
                        )
                    },
                    _ => {
                        self.func.phase = Phase::Failed;
                        Err(PlaybookError::UnexpectedEvent)
                    },
                };
            },
            Phase::Idle | Phase::Finished | Phase::Failed => {
                return Err(PlaybookError::UnexpectedEvent);
            },
            _ => {},
        }
        if self.func.cursor >= self.role.steps.len() {
            self.func.phase = Phase::Failed;
            return Err(PlaybookError::UnexpectedEvent);
        }
        proof {
            lemma_map_of_pairs(self.role.steps@[self.func.cursor as int]@);
        }
        match self.func.resume(caller, &self.role.steps[self.func.cursor], event) {
            Err(e) => Err(e),
            Ok(Some(action)) => Ok(action),
            Ok(None) => {
                self.func.cursor = self.func.cursor + 1;
                self.enter(caller)
            },
        }
    }
}

} // verus!
