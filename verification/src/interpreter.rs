//! The execution of one role invocation: its context, and the evaluation of
//! its steps as a machine that turns the host's answers into the next action.
//!
//! The model of the machine is a set of spec functions on `ContextView`; the
//! executable methods of `Context` are proved to compute it.

use vstd::prelude::*;
use vstd::string::*;
use crate::action::{Action, ActionView, Event, Fault, ParamSnapshot, ParamSnapshotView, Phase};
use crate::config_process::pair_texts;
use crate::document::opt_text;
use crate::encoding::{base64_encode, base64_of, encodable};
use crate::error::{PlaybookError, ProcessError, TemplateError};
use crate::helper::{
    bindings_of, env_substituted, render_template, replace_env_var, resolve, resolved,
    template_rendered, text_of,
};
use crate::participant::{
    count_allowed, count_is_allowed, get_role_participants, of_role, participant_views,
    Participant, ParticipantView,
};
use crate::pattern::texts;
use crate::spec_parser::{RoleSpec, RoleSpecView, StepSpec, StepSpecView};
use crate::text::{signed_decimal, signed_decimal_text};

verus! {

/// What the coordination service's client tells of itself.
#[derive(Debug, PartialEq, Eq)]
pub struct Identity {
    /// The user that the invocation acts for.
    pub user_id: String,
    /// The task that the invocation belongs to.
    pub task_id: String,
    /// The address of the coordination service.
    pub core_addr: String,
    /// The credential of the caller.
    pub jwt: String,
}

/// An identity with its strings taken as texts.
pub struct IdentityView {
    pub user_id: Seq<char>,
    pub task_id: Seq<char>,
    pub core_addr: Seq<char>,
    pub jwt: Seq<char>,
}

impl View for Identity {
    type V = IdentityView;

    open spec fn view(&self) -> IdentityView {
        IdentityView {
            user_id: self.user_id@,
            task_id: self.task_id@,
            core_addr: self.core_addr@,
            jwt: self.jwt@,
        }
    }
}

/// The binding set under which an invocation renders its templates: the
/// names `user_id` and `task_id`.
pub open spec fn canonical_bindings(identity: IdentityView) -> Map<Seq<char>, Seq<char>> {
    Map::empty().insert("task_id"@, identity.task_id).insert("user_id"@, identity.user_id)
}

/// The test for a name to differ from `name`.
pub open spec fn differs_from(name: Seq<char>) -> spec_fn(Seq<char>) -> bool {
    |other: Seq<char>| other != name
}

/// The variables that a spawned command finds added to its environment: the
/// address of the coordination service and the credential of the caller, so
/// that the command can itself act as a client of the service.
pub open spec fn launch_env(identity: IdentityView) -> Seq<(Seq<char>, Seq<char>)> {
    seq![("COLINK_CORE_ADDR"@, identity.core_addr), ("COLINK_JWT"@, identity.jwt)]
}

/// The step name of the process that `step` waits for: the one it kills, or
/// else the one it names to wait for.
pub open spec fn waited_name(step: StepSpecView) -> Option<Seq<char>> {
    match step.process_kill {
        Some(name) => Some(name),
        None => step.process_wait,
    }
}

/// The result of a process that has ended: the number of the signal that ended
/// it, or else its exit code.
pub open spec fn observed_result(code: Option<i32>, signal: Option<i32>) -> Option<i32> {
    match signal {
        Some(number) => Some(number),
        None => code,
    }
}

/// The error that a fault of the host stands for.
pub open spec fn fault_error(fault: Fault) -> PlaybookError {
    match fault {
        Fault::File => PlaybookError::Io,
        Fault::Process => PlaybookError::Process(ProcessError::Failed),
        Fault::Service => PlaybookError::Coordination,
    }
}

/// The participant at position `index` of `targets`, if there is one.
pub open spec fn pick(targets: Seq<ParticipantView>, index: i64) -> Option<ParticipantView> {
    if 0 <= index < targets.len() {
        Some(targets[index as int])
    } else {
        None
    }
}

/// Whether an action is under way in `phase`, so that an answer is due.
pub open spec fn awaiting(phase: Phase) -> bool {
    !(phase is Idle || phase is Finished || phase is Failed)
}

/// The state of one role invocation, as the contracts see it.
pub struct ContextView {
    /// The role that is executed.
    pub role: RoleSpecView,
    /// The working directory, a template that ends in `/`.
    pub working_dir: Seq<char>,
    /// The participants of the task, in the order in which they were given.
    pub participants: Seq<ParticipantView>,
    /// The task parameter.
    pub param: Seq<u8>,
    /// The client's identity.
    pub identity: IdentityView,
    /// The bindings of the template engine.
    pub bindings: Map<Seq<char>, Seq<char>>,
    /// The environment.
    pub env: Map<Seq<char>, Seq<char>>,
    /// The process table: the step names under which a process is registered.
    pub registered: Seq<Seq<char>>,
    /// The position of the step that is evaluated.
    pub step_counter: nat,
    /// Which answer the engine is waiting for.
    pub phase: Phase,
}

/// What the evaluation of a step comes to at one point: the state after it,
/// and the action to perform, `None` when the step has completed, or the
/// error that ends the invocation.
pub struct Outcome {
    pub context: ContextView,
    pub result: Result<Option<ActionView>, PlaybookError>,
}

/// What an invocation comes to at one point: the state, and the next action
/// or the error that ends it.
pub struct Advance {
    pub context: ContextView,
    pub result: Result<ActionView, PlaybookError>,
}

impl ContextView {
    /// This state in another phase.
    pub open spec fn at(self, phase: Phase) -> ContextView {
        ContextView { phase, ..self }
    }

    /// The invocation ends with the error `e`.
    pub open spec fn fails(self, e: PlaybookError) -> Outcome {
        Outcome { context: self.at(Phase::Failed), result: Err(e) }
    }

    /// The host is asked for `action`, and the answer is awaited in `phase`.
    pub open spec fn asks(self, phase: Phase, action: ActionView) -> Outcome {
        Outcome { context: self.at(phase), result: Ok(Some(action)) }
    }

    /// The step has completed.
    pub open spec fn completes(self) -> Outcome {
        Outcome { context: self.at(Phase::Idle), result: Ok(None) }
    }

    /// What the dynamic string `s` resolves to: placeholders are rendered
    /// under the bindings, then `$NAME` tokens are replaced from the
    /// environment.
    pub open spec fn resolve(self, s: Seq<char>) -> Result<Seq<char>, TemplateError> {
        resolved(s, self.bindings, self.env)
    }

    /// What a dynamic string that may be absent resolves to.
    pub open spec fn resolve_opt(self, s: Option<Seq<char>>) -> Result<
        Option<Seq<char>>,
        TemplateError,
    > {
        match s {
            None => Ok(None),
            Some(t) => match self.resolve(t) {
                Ok(text) => Ok(Some(text)),
                Err(e) => Err(e),
            },
        }
    }

    /// Whether a process is registered under `name`.
    pub open spec fn is_registered(self, name: Seq<char>) -> bool {
        self.registered.contains(name)
    }

    /// This state with `name` added to the process table.
    pub open spec fn registering(self, name: Seq<char>) -> ContextView {
        ContextView { registered: self.registered.push(name), ..self }
    }

    /// This state with `name` taken out of the process table.
    pub open spec fn releasing(self, name: Seq<char>) -> ContextView {
        ContextView { registered: self.registered.filter(differs_from(name)), ..self }
    }

    /// This state at the next step.
    pub open spec fn next(self) -> ContextView {
        ContextView { step_counter: self.step_counter + 1, ..self }
    }

    /// Running the guard `condition` to its end: the command and the working
    /// directory are resolved.
    pub open spec fn guard(self, condition: Seq<char>) -> Outcome {
        match self.resolve(condition) {
            Err(e) => self.fails(PlaybookError::Template(e)),
            Ok(line) => match self.resolve(self.working_dir) {
                Err(e) => self.fails(PlaybookError::Template(e)),
                Ok(dir) => self.asks(
                    Phase::GuardWaiting,
                    ActionView::Run {
                        command: line,
                        working_dir: dir,
                        env: launch_env(self.identity),
                    },
                ),
            },
        }
    }

    /// Launching `command` under `step_name`: the command and the working
    /// directory are resolved, and the name must be free. The process is
    /// entered in the table when the host answers that it runs.
    pub open spec fn launch(self, step_name: Seq<char>, command: Seq<char>) -> Outcome {
        match self.resolve(command) {
            Err(e) => self.fails(PlaybookError::Template(e)),
            Ok(line) => match self.resolve(self.working_dir) {
                Err(e) => self.fails(PlaybookError::Template(e)),
                Ok(dir) => if self.is_registered(step_name) {
                    self.fails(PlaybookError::Process(ProcessError::AlreadyRegistered))
                } else {
                    self.asks(
                        Phase::Launching,
                        ActionView::Launch {
                            step_name,
                            command: line,
                            working_dir: dir,
                            env: launch_env(self.identity),
                        },
                    )
                },
            },
        }
    }

    /// Waiting for the process registered under `name`: the name must be
    /// registered, and is taken out of the table, so that a process can be
    /// waited for once after each launch.
    pub open spec fn reap(self, name: Seq<char>) -> Outcome {
        if !self.is_registered(name) {
            self.fails(PlaybookError::Process(ProcessError::NotRegistered))
        } else {
            self.releasing(name).asks(Phase::Reaping, ActionView::Wait { step_name: name })
        }
    }

    /// Collecting the output of the process that the step waited for, which
    /// ended with `observed`: the files for the output are resolved.
    pub open spec fn collect(self, step: StepSpecView, observed: i32) -> Outcome {
        match waited_name(step) {
            None => self.fails(PlaybookError::UnexpectedEvent),
            Some(name) => match self.resolve_opt(step.stdout_file) {
                Err(e) => self.fails(PlaybookError::Template(e)),
                Ok(out) => match self.resolve_opt(step.stderr_file) {
                    Err(e) => self.fails(PlaybookError::Template(e)),
                    Ok(err) => self.asks(
                        Phase::Collecting { observed },
                        ActionView::Collect { step_name: name, stdout_file: out, stderr_file: err },
                    ),
                },
            },
        }
    }

    /// Killing the process registered under `name`: the name must be
    /// registered, and stays so.
    pub open spec fn kill(self, name: Seq<char>) -> Outcome {
        if !self.is_registered(name) {
            self.fails(PlaybookError::Process(ProcessError::NotRegistered))
        } else {
            self.asks(Phase::Killing, ActionView::Kill { step_name: name })
        }
    }

    /// The end of a step that waited for a process that ended with `observed`:
    /// where the step asks for an exit code, it must be the one observed.
    pub open spec fn settle(self, step: StepSpecView, observed: i32) -> Outcome {
        match step.check_exit_code {
            Some(expected) => if expected != observed {
                self.fails(PlaybookError::Process(ProcessError::ExitCode { expected, observed }))
            } else {
                self.completes()
            },
            None => self.completes(),
        }
    }

    /// What follows the end of a process with `observed`: the result is
    /// written to the step's exit-code file if it names one, as a decimal
    /// number, and the step is then settled.
    pub open spec fn record(self, step: StepSpecView, observed: i32) -> Outcome {
        match step.exit_code {
            Some(file) => match self.resolve(file) {
                Err(e) => self.fails(PlaybookError::Template(e)),
                Ok(path) => self.asks(
                    Phase::Recording { observed },
                    ActionView::WriteFile { path, contents: signed_decimal_text(observed as int) },
                ),
            },
            None => self.settle(step, observed),
        }
    }

    /// Sending the variable whose name is the template `name`: the step must
    /// name a file and a role; the receivers are all participants of the role,
    /// or the one at the step's index.
    pub open spec fn send(self, step: StepSpecView, name: Seq<char>) -> Outcome {
        match (step.file, step.to_role) {
            (Some(file), Some(role)) => match self.resolve(name) {
                Err(e) => self.fails(PlaybookError::Template(e)),
                Ok(variable) => match self.resolve(file) {
                    Err(e) => self.fails(PlaybookError::Template(e)),
                    Ok(path) => {
                        let all = of_role(self.participants, role);
                        match step.index {
                            None => self.asks(
                                Phase::Calling,
                                ActionView::SendVariable {
                                    name: variable,
                                    file: path,
                                    participants: all,
                                },
                            ),
                            Some(index) => match pick(all, index) {
                                Some(one) => self.asks(
                                    Phase::Calling,
                                    ActionView::SendVariable {
                                        name: variable,
                                        file: path,
                                        participants: seq![one],
                                    },
                                ),
                                None => self.fails(PlaybookError::Config),
                            },
                        }
                    },
                },
            },
            _ => self.fails(PlaybookError::Config),
        }
    }

    /// Receiving the variable whose name is the template `name`: the step must
    /// name a role and an index, which select the one sender.
    pub open spec fn recv(self, step: StepSpecView, name: Seq<char>) -> Outcome {
        match self.resolve(name) {
            Err(e) => self.fails(PlaybookError::Template(e)),
            Ok(variable) => match (step.from_role, step.index) {
                (Some(role), Some(index)) => match pick(of_role(self.participants, role), index) {
                    None => self.fails(PlaybookError::Config),
                    Some(sender) => self.asks(
                        Phase::Receiving,
                        ActionView::RecvVariable { name: variable, participant: sender },
                    ),
                },
                _ => self.fails(PlaybookError::Config),
            },
        }
    }

    /// What follows the delivery of `payload`: it is written, as it was
    /// received, to the step's file; a step that names no file has completed.
    pub open spec fn store(self, step: StepSpecView, payload: Seq<u8>) -> Outcome {
        match step.file {
            None => self.completes(),
            Some(file) => match self.resolve(file) {
                Err(e) => self.fails(PlaybookError::Template(e)),
                Ok(path) => self.asks(Phase::Storing, ActionView::WritePayload { path, payload }),
            },
        }
    }

    /// The key and the file of an entry operation that carries a payload: the
    /// step must name a file; the key and the file are resolved.
    pub open spec fn entry_args(self, step: StepSpecView, key: Seq<char>) -> Result<
        (Seq<char>, Seq<char>),
        PlaybookError,
    > {
        match step.file {
            None => Err(PlaybookError::Config),
            Some(file) => match self.resolve(key) {
                Err(e) => Err(PlaybookError::Template(e)),
                Ok(entry) => match self.resolve(file) {
                    Err(e) => Err(PlaybookError::Template(e)),
                    Ok(path) => Ok((entry, path)),
                },
            },
        }
    }

    /// The step's variable or entry operation: the first, in this order, of
    /// send, receive, create, read, read-or-wait, update and delete that the
    /// step names. A step that names none of them is not recognized.
    pub open spec fn coordinate(self, step: StepSpecView) -> Outcome {
        if let Some(name) = step.send_variable {
            self.send(step, name)
        } else if let Some(name) = step.recv_variable {
            self.recv(step, name)
        } else if let Some(key) = step.create_entry {
            match self.entry_args(step, key) {
                Ok((key, file)) => self.asks(Phase::Calling, ActionView::CreateEntry { key, file }),
                Err(e) => self.fails(e),
            }
        } else if let Some(key) = step.read_entry {
            match self.entry_args(step, key) {
                Ok((key, file)) => self.asks(Phase::Receiving, ActionView::ReadEntry { key, file }),
                Err(e) => self.fails(e),
            }
        } else if let Some(key) = step.read_or_wait_entry {
            match self.entry_args(step, key) {
                Ok((key, file)) => self.asks(
                    Phase::Receiving,
                    ActionView::ReadOrWaitEntry { key, file },
                ),
                Err(e) => self.fails(e),
            }
        } else if let Some(key) = step.update_entry {
            match self.entry_args(step, key) {
                Ok((key, file)) => self.asks(Phase::Calling, ActionView::UpdateEntry { key, file }),
                Err(e) => self.fails(e),
            }
        } else if let Some(key) = step.delete_entry {
            match self.resolve(key) {
                Ok(key) => self.asks(Phase::Calling, ActionView::DeleteEntry { key }),
                Err(e) => self.fails(PlaybookError::Template(e)),
            }
        } else {
            self.fails(PlaybookError::UnrecognizedStep)
        }
    }

    /// What the step does about processes that run: it kills and then waits,
    /// or else waits. A step that does neither has completed if it has just
    /// launched its process, and goes on to its variable or entry operation
    /// otherwise.
    pub open spec fn control(self, step: StepSpecView, launched: bool) -> Outcome {
        if let Some(name) = step.process_kill {
            self.kill(name)
        } else if let Some(name) = step.process_wait {
            self.reap(name)
        } else if launched {
            self.completes()
        } else {
            self.coordinate(step)
        }
    }

    /// The step's action once its guard, if any, has passed: a process launch
    /// needs the step's name and comes first.
    pub open spec fn act(self, step: StepSpecView) -> Outcome {
        match step.process {
            Some(command) => match step.step_name {
                Some(name) => self.launch(name, command),
                None => self.fails(PlaybookError::Config),
            },
            None => self.control(step, false),
        }
    }

    /// The start of the evaluation of `step`: its guard is run if it has
    /// one; else its action is taken up at once.
    pub open spec fn begin(self, step: StepSpecView) -> Outcome {
        match step._if {
            Some(condition) => self.guard(condition),
            None => self.act(step),
        }
    }

    /// How the evaluation of `step` goes on when the host answers `event`.
    pub open spec fn react(self, step: StepSpecView, event: Event) -> Outcome {
        if !awaiting(self.phase) || self.phase is Preparing {
            self.fails(PlaybookError::UnexpectedEvent)
        } else {
            match event {
                Event::Failed(fault) => self.fails(fault_error(fault)),
                Event::Completed => match self.phase {
                    Phase::Launching => match step.step_name {
                        Some(name) => self.registering(name).control(step, true),
                        None => self.fails(PlaybookError::UnexpectedEvent),
                    },
                    Phase::Killing => match step.process_kill {
                        Some(name) => self.reap(name),
                        None => self.fails(PlaybookError::UnexpectedEvent),
                    },
                    Phase::Collecting { observed } => self.record(step, observed),
                    Phase::Recording { observed } => self.settle(step, observed),
                    Phase::Calling => self.completes(),
                    Phase::Storing => self.completes(),
                    _ => self.fails(PlaybookError::UnexpectedEvent),
                },
                Event::Received(payload) => match self.phase {
                    Phase::Receiving => self.store(step, payload@),
                    _ => self.fails(PlaybookError::UnexpectedEvent),
                },
                Event::Exited { code, signal } => match self.phase {
                    Phase::GuardWaiting => match observed_result(code, signal) {
                        None => self.fails(PlaybookError::Process(ProcessError::Failed)),
                        Some(observed) => if observed == 0 {
                            self.act(step)
                        } else {
                            self.completes()
                        },
                    },
                    Phase::Reaping => match observed_result(code, signal) {
                        None => self.fails(PlaybookError::Process(ProcessError::Failed)),
                        Some(observed) => self.collect(step, observed),
                    },
                    _ => self.fails(PlaybookError::UnexpectedEvent),
                },
            }
        }
    }

    /// Taking up the step at the counter: the end if no step is left; else
    /// the first point of that step, which is an action or an error.
    pub open spec fn enter(self) -> Advance {
        if self.step_counter >= self.role.steps.len() {
            Advance { context: self.at(Phase::Finished), result: Ok(ActionView::Finished) }
        } else {
            let first = self.begin(self.role.steps[self.step_counter as int]);
            match first.result {
                Err(e) => Advance { context: first.context, result: Err(e) },
                Ok(Some(action)) => Advance { context: first.context, result: Ok(action) },
                Ok(None) => Advance {
                    context: first.context.at(Phase::Failed),
                    result: Err(PlaybookError::UnexpectedEvent),
                },
            }
        }
    }

    /// How the invocation goes on when the host answers `event`: the step at
    /// the counter reacts, and when it has completed the next one is taken
    /// up. Once the invocation has ended, every answer is refused.
    pub open spec fn advance(self, event: Event) -> Advance {
        if self.phase is Preparing {
            match event {
                Event::Completed => self.enter(),
                Event::Failed(fault) => self.fails(fault_error(fault)).proceed(),
                _ => self.fails(PlaybookError::UnexpectedEvent).proceed(),
            }
        } else if !awaiting(self.phase) {
            Advance { context: self, result: Err(PlaybookError::UnexpectedEvent) }
        } else if self.step_counter >= self.role.steps.len() {
            self.fails(PlaybookError::UnexpectedEvent).proceed()
        } else {
            self.react(self.role.steps[self.step_counter as int], event).proceed()
        }
    }
}

impl Outcome {
    /// The invocation after this point of a step: the step's action or error;
    /// or, when the step has completed, the start of the next step.
    pub open spec fn proceed(self) -> Advance {
        match self.result {
            Err(e) => Advance { context: self.context, result: Err(e) },
            Ok(Some(action)) => Advance { context: self.context, result: Ok(action) },
            Ok(None) => self.context.next().enter(),
        }
    }
}

/// The state in which an invocation starts: nothing is registered, no step
/// has run, and the working directory is the role's, or else the default one,
/// with a `/` behind it.
pub open spec fn initial_context(
    role: RoleSpecView,
    default_working_dir: Seq<char>,
    participants: Seq<ParticipantView>,
    param: Seq<u8>,
    identity: IdentityView,
    env: Map<Seq<char>, Seq<char>>,
) -> ContextView {
    ContextView {
        role,
        working_dir: (match role.workdir {
            Some(dir) => dir,
            None => default_working_dir,
        }) + "/"@,
        participants,
        param,
        identity,
        bindings: canonical_bindings(identity),
        env,
        registered: Seq::empty(),
        step_counter: 0,
        phase: Phase::Idle,
    }
}

/// The users and roles of a list of participants, in order.
pub open spec fn id_roles(participants: Seq<ParticipantView>) -> Seq<(Seq<char>, Seq<char>)> {
    participants.map_values(|p: ParticipantView| (p.user_id, p.role))
}

impl ContextView {
    /// The snapshot of the invocation: the parameter as base64 text, the
    /// participants, and the user and task of the client.
    pub open spec fn snapshot(self) -> ParamSnapshotView {
        ParamSnapshotView {
            param: base64_of(self.param),
            participants: id_roles(self.participants),
            user_id: self.identity.user_id,
            task_id: self.identity.task_id,
        }
    }

    /// How many participants have the role that is executed.
    pub open spec fn role_count(self) -> nat {
        of_role(self.participants, self.role.name).len()
    }

    /// Whether the number of participants of the executing role lies within
    /// the role's bounds.
    pub open spec fn count_in_bounds(self) -> bool {
        count_allowed(self.role_count(), self.role.min_num, self.role.max_num)
    }

    /// The start of an invocation: the participants of the role are counted
    /// against its bounds before anything else; then the working directory
    /// and the snapshot's file are resolved, and the host is asked to make
    /// them.
    pub open spec fn start(self) -> Advance {
        if !self.count_in_bounds() {
            Advance { context: self.at(Phase::Failed), result: Err(PlaybookError::ParticipantCount) }
        } else {
            match self.resolve(self.working_dir) {
                Err(e) => Advance {
                    context: self.at(Phase::Failed),
                    result: Err(PlaybookError::Template(e)),
                },
                Ok(dir) => match self.resolve("param.json"@) {
                    Err(e) => Advance {
                        context: self.at(Phase::Failed),
                        result: Err(PlaybookError::Template(e)),
                    },
                    Ok(file) => Advance {
                        context: self.at(Phase::Preparing),
                        result: Ok(
                            ActionView::Prepare {
                                working_dir: dir,
                                file,
                                snapshot: self.snapshot(),
                            },
                        ),
                    },
                },
            }
        }
    }
}

/// The outcome of a point of a step, with the action taken by its view.
pub open spec fn outcome_of(context: ContextView, r: Result<Option<Action>, PlaybookError>) -> Outcome {
    Outcome {
        context,
        result: match r {
            Ok(Some(action)) => Ok(Some(action@)),
            Ok(None) => Ok(None),
            Err(e) => Err(e),
        },
    }
}

/// The outcome of a point of an invocation, with the action taken by its view.
pub open spec fn advance_of(context: ContextView, r: Result<Action, PlaybookError>) -> Advance {
    Advance {
        context,
        result: match r {
            Ok(action) => Ok(action@),
            Err(e) => Err(e),
        },
    }
}

/// The result of resolving a string that may be absent, taken by its view.
pub open spec fn opt_text_of(r: Result<Option<String>, TemplateError>) -> Result<
    Option<Seq<char>>,
    TemplateError,
> {
    match r {
        Ok(s) => Ok(opt_text(s)),
        Err(e) => Err(e),
    }
}

/// The state of one role invocation.
pub struct Context {
    role_spec: RoleSpec,
    working_dir: String,
    participants: Vec<Participant>,
    param: Vec<u8>,
    identity: Identity,
    bindings: Vec<(String, String)>,
    env: Vec<(String, String)>,
    step_name_to_process: Vec<String>,
    step_counter: usize,
    phase: Phase,
}

impl View for Context {
    type V = ContextView;

    closed spec fn view(&self) -> ContextView {
        ContextView {
            role: self.role_spec@,
            working_dir: self.working_dir@,
            participants: participant_views(self.participants@),
            param: self.param@,
            identity: self.identity@,
            bindings: bindings_of(self.bindings@),
            env: bindings_of(self.env@),
            registered: texts(self.step_name_to_process@),
            step_counter: self.step_counter as nat,
            phase: self.phase,
        }
    }
}

/// The variables that a spawned command finds added to its environment, for
/// the client `identity`.
pub fn spawn_env(identity: &Identity) -> (r: Vec<(String, String)>)
    ensures
        pair_texts(r@) == launch_env(identity@),
{
    let mut env: Vec<(String, String)> = Vec::new();
    env.push(("COLINK_CORE_ADDR".to_string(), identity.core_addr.clone()));
    env.push(("COLINK_JWT".to_string(), identity.jwt.clone()));
    assert(pair_texts(env@) =~= launch_env(identity@));
    env
}

/// The canonical binding set as a list of pairs.
pub fn canonical_table(identity: &Identity) -> (r: Vec<(String, String)>)
    ensures
        bindings_of(r@) == canonical_bindings(identity@),
{
    let mut bindings: Vec<(String, String)> = Vec::new();
    bindings.push(("user_id".to_string(), identity.user_id.clone()));
    bindings.push(("task_id".to_string(), identity.task_id.clone()));
    proof {
        reveal_with_fuel(bindings_of, 3);
        let rest = bindings@.drop_first();
        assert(rest.len() == 1);
        assert(rest.drop_first().len() == 0);
        assert(rest[0] == bindings@[1]);
        assert(bindings_of(bindings@) =~= canonical_bindings(identity@));
    }
    bindings
}

/// The users and roles of a list of participants, in order.
pub fn id_role_pairs(participants: &Vec<Participant>) -> (r: Vec<(String, String)>)
    ensures
        pair_texts(r@) == id_roles(participant_views(participants@)),
{
    let mut pairs: Vec<(String, String)> = Vec::new();
    let mut i: usize = 0;
    while i < participants.len()
        invariant
            0 <= i <= participants@.len(),
            pairs@.len() == i,
            forall|k: int|
                0 <= k < i ==> (#[trigger] pairs@[k]).0@ == participants@[k].user_id@
                    && pairs@[k].1@ == participants@[k].role@,
        decreases participants@.len() - i,
    {
        pairs.push((participants[i].user_id.clone(), participants[i].role.clone()));
        i = i + 1;
    }
    assert(pair_texts(pairs@) =~= id_roles(participant_views(participants@)));
    pairs
}

/// A copy of a list of participants.
pub fn copy_participants(participants: &Vec<Participant>) -> (r: Vec<Participant>)
    ensures
        r@ == participants@,
{
    let mut out: Vec<Participant> = Vec::new();
    let mut i: usize = 0;
    while i < participants.len()
        invariant
            0 <= i <= participants@.len(),
            out@ == participants@.take(i as int),
        decreases participants@.len() - i,
    {
        out.push(participants[i].clone());
        i = i + 1;
    }
    assert(out@ == participants@);
    out
}

impl Context {
    /// The context in which an invocation of `role_spec` starts.
    ///
    /// `identity` is what the client tells of itself, and `env` the
    /// environment as names and values; where a name stands twice, the first
    /// pair counts.
    pub fn new(
        role_spec: RoleSpec,
        default_working_dir: &str,
        participants: &Vec<Participant>,
        param: &Vec<u8>,
        identity: Identity,
        env: Vec<(String, String)>,
    ) -> (r: Context)
        ensures
            r@ == initial_context(
                role_spec@,
                default_working_dir@,
                participant_views(participants@),
                param@,
                identity@,
                bindings_of(env@),
            ),
    {
        let dir: String = match &role_spec.workdir {
            Some(role_dir) => role_dir.clone(),
            None => default_working_dir.to_string(),
        };
        let working_dir: String = dir.concat("/");
        let bindings: Vec<(String, String)> = canonical_table(&identity);
        let ctx = Context {
            role_spec,
            working_dir,
            participants: copy_participants(participants),
            param: param.clone(),
            identity,
            bindings,
            env,
            step_name_to_process: Vec::new(),
            step_counter: 0,
            phase: Phase::Idle,
        };
        proof {
            assert(ctx@.registered =~= Seq::<Seq<char>>::empty());
        }
        ctx
    }

    /// Which answer the engine is waiting for.
    pub fn phase(&self) -> (r: Phase)
        ensures
            r == self@.phase,
    {
        self.phase
    }

    /// The position of the step that is evaluated.
    pub fn step_counter(&self) -> (r: usize)
        ensures
            r == self@.step_counter,
    {
        self.step_counter
    }

    /// Whether a process is registered under `name`.
    pub fn is_registered(&self, name: &str) -> (r: bool)
        ensures
            r == self@.is_registered(name@),
    {
        let wanted: String = name.to_string();
        let mut i: usize = 0;
        while i < self.step_name_to_process.len()
            invariant
                0 <= i <= self.step_name_to_process@.len(),
                wanted@ == name@,
                forall|k: int| 0 <= k < i ==> texts(self.step_name_to_process@)[k] != name@,
            decreases self.step_name_to_process@.len() - i,
        {
            if self.step_name_to_process[i] == wanted {
                assert(texts(self.step_name_to_process@)[i as int] == name@);
                return true;
            }
            i = i + 1;
        }
        false
    }

    /// Replaces the `$NAME` tokens of `s` from the environment; a token whose
    /// name the environment does not hold stays as it is.
    pub fn replace_env_var(&self, s: &str) -> (r: Result<String, TemplateError>)
        ensures
            text_of(r) == env_substituted(s@, self@.env),
    {
        replace_env_var(s, &self.env)
    }

    /// Renders the placeholders of `s` under the bindings `user_id` and
    /// `task_id`. A placeholder is `{{name}}` or `{{name[range]}}` with a
    /// name of word characters; all other text stays as it is.
    pub fn render_template(&self, s: &str) -> (r: Result<String, TemplateError>)
        ensures
            text_of(r) == template_rendered(s@, self@.bindings),
    {
        render_template(s, &self.bindings)
    }

    /// Resolves the path `file_name`: placeholders first, then `$NAME` tokens.
    pub fn render_path(&self, file_name: &str) -> (r: Result<String, TemplateError>)
        ensures
            text_of(r) == self@.resolve(file_name@),
    {
        resolve(file_name, &self.bindings, &self.env)
    }

    /// Resolves a path that may be absent.
    pub fn render_opt_path(&self, file_name: &Option<String>) -> (r: Result<
        Option<String>,
        TemplateError,
    >)
        ensures
            opt_text_of(r) == self@.resolve_opt(opt_text(*file_name)),
    {
        match file_name {
            None => Ok(None),
            Some(name) => match self.render_path(name.as_str()) {
                Ok(path) => Ok(Some(path)),
                Err(e) => Err(e),
            },
        }
    }

    /// Holds the number of participants of the executing role against the
    /// role's bounds.
    pub fn check_roles_num(&self) -> (r: Result<(), PlaybookError>)
        ensures
            r is Ok <==> self@.count_in_bounds(),
            r matches Err(e) ==> e == PlaybookError::ParticipantCount,
    {
        let matching: Vec<Participant> = get_role_participants(
            &self.participants,
            self.role_spec.name.as_str(),
        );
        assert(participant_views(matching@).len() == matching@.len());
        if count_is_allowed(matching.len(), self.role_spec.min_num, self.role_spec.max_num) {
            Ok(())
        } else {
            Err(PlaybookError::ParticipantCount)
        }
    }

    /// The snapshot of the invocation that is stored before its first step.
    pub fn store_param_to_file(&self) -> (r: ParamSnapshot)
        requires
            encodable(self@.param.len()),
        ensures
            r@ == self@.snapshot(),
    {
        let pairs: Vec<(String, String)> = id_role_pairs(&self.participants);
        ParamSnapshot {
            param: base64_encode(&self.param),
            participants: pairs,
            user_id: self.identity.user_id.clone(),
            task_id: self.identity.task_id.clone(),
        }
    }

    fn fail(&mut self, e: PlaybookError) -> (r: Result<Option<Action>, PlaybookError>)
        ensures
            outcome_of(final(self)@, r) == old(self)@.fails(e),
    {
        self.phase = Phase::Failed;
        Err(e)
    }

    fn ask(&mut self, phase: Phase, action: Action) -> (r: Result<Option<Action>, PlaybookError>)
        ensures
            outcome_of(final(self)@, r) == old(self)@.asks(phase, action@),
    {
        self.phase = phase;
        Ok(Some(action))
    }

    fn complete(&mut self) -> (r: Result<Option<Action>, PlaybookError>)
        ensures
            outcome_of(final(self)@, r) == old(self)@.completes(),
    {
        self.phase = Phase::Idle;
        Ok(None)
    }

    fn register(&mut self, name: &str)
        ensures
            final(self)@ == old(self)@.registering(name@),
    {
        self.step_name_to_process.push(name.to_string());
        proof {
            assert(texts(self.step_name_to_process@) =~= texts(old(self).step_name_to_process@).push(
                name@,
            ));
        }
    }

    fn release(&mut self, name: &str)
        ensures
            final(self)@ == old(self)@.releasing(name@),
    {
        let wanted: String = name.to_string();
        let ghost all = texts(self.step_name_to_process@);
        let mut kept: Vec<String> = Vec::new();
        let mut i: usize = 0;
        proof {
            reveal(Seq::filter);
            assert(all.take(0) =~= Seq::<Seq<char>>::empty());
        }
        while i < self.step_name_to_process.len()
            invariant
                0 <= i <= self.step_name_to_process@.len(),
                wanted@ == name@,
                all == texts(self.step_name_to_process@),
                texts(kept@) == all.take(i as int).filter(differs_from(name@)),
            decreases self.step_name_to_process@.len() - i,
        {
            let ghost before = texts(kept@);
            proof {
                reveal(Seq::filter);
                assert(all.take(i + 1).drop_last() =~= all.take(i as int));
                assert(all.take(i + 1).last() == self.step_name_to_process@[i as int]@);
            }
            if !(self.step_name_to_process[i] == wanted) {
                kept.push(self.step_name_to_process[i].clone());
                assert(texts(kept@) =~= before.push(self.step_name_to_process@[i as int]@));
            }
            i = i + 1;
        }
        proof {
            assert(all.take(i as int) =~= all);
        }
        self.step_name_to_process = kept;
    }

    /// The variables that a spawned command finds added to its environment.
    fn spawn_env(&self) -> (r: Vec<(String, String)>)
        ensures
            pair_texts(r@) == launch_env(self@.identity),
    {
        spawn_env(&self.identity)
    }

    /// Asks for the guard `condition` to be run to its end.
    fn run_guard(&mut self, condition: &str) -> (r: Result<Option<Action>, PlaybookError>)
        ensures
            outcome_of(final(self)@, r) == old(self)@.guard(condition@),
    {
        let command: String = match self.render_path(condition) {
            Ok(line) => line,
            Err(e) => {
                return self.fail(PlaybookError::Template(e));
            },
        };
        let working_dir: String = match self.render_path(self.working_dir.as_str()) {
            Ok(dir) => dir,
            Err(e) => {
                return self.fail(PlaybookError::Template(e));
            },
        };
        let env: Vec<(String, String)> = self.spawn_env();
        self.ask(Phase::GuardWaiting, Action::Run { command, working_dir, env })
    }

    /// Asks for `process_command` to be launched under `step_name`.
    fn run(&mut self, step_name: &str, process_command: &str) -> (r: Result<
        Option<Action>,
        PlaybookError,
    >)
        ensures
            outcome_of(final(self)@, r) == old(self)@.launch(step_name@, process_command@),
    {
        let command: String = match self.render_path(process_command) {
            Ok(line) => line,
            Err(e) => {
                return self.fail(PlaybookError::Template(e));
            },
        };
        let working_dir: String = match self.render_path(self.working_dir.as_str()) {
            Ok(dir) => dir,
            Err(e) => {
                return self.fail(PlaybookError::Template(e));
            },
        };
        if self.is_registered(step_name) {
            return self.fail(PlaybookError::Process(ProcessError::AlreadyRegistered));
        }
        let env: Vec<(String, String)> = self.spawn_env();
        let action = Action::Launch { step_name: step_name.to_string(), command, working_dir, env };
        self.ask(Phase::Launching, action)
    }

    /// Asks for the process registered under `process_name` to be waited for,
    /// and takes it out of the table.
    fn wait(&mut self, process_name: &str) -> (r: Result<Option<Action>, PlaybookError>)
        ensures
            outcome_of(final(self)@, r) == old(self)@.reap(process_name@),
    {
        if !self.is_registered(process_name) {
            return self.fail(PlaybookError::Process(ProcessError::NotRegistered));
        }
        self.release(process_name);
        self.ask(Phase::Reaping, Action::Wait { step_name: process_name.to_string() })
    }

    /// Asks for the output of the process that the step waited for to be
    /// collected.
    fn collect(&mut self, step_spec: &StepSpec, observed: i32) -> (r: Result<
        Option<Action>,
        PlaybookError,
    >)
        ensures
            outcome_of(final(self)@, r) == old(self)@.collect(step_spec@, observed),
    {
        let name: &String = match &step_spec.process_kill {
            Some(name) => name,
            None => match &step_spec.process_wait {
                Some(name) => name,
                None => {
                    return self.fail(PlaybookError::UnexpectedEvent);
                },
            },
        };
        let out: Option<String> = match self.render_opt_path(&step_spec.stdout_file) {
            Ok(path) => path,
            Err(e) => {
                return self.fail(PlaybookError::Template(e));
            },
        };
        let err: Option<String> = match self.render_opt_path(&step_spec.stderr_file) {
            Ok(path) => path,
            Err(e) => {
                return self.fail(PlaybookError::Template(e));
            },
        };
        let action = Action::Collect { step_name: name.clone(), stdout_file: out, stderr_file: err };
        self.ask(Phase::Collecting { observed }, action)
    }

    /// Asks for the process registered under `process_name` to be killed; it
    /// stays registered.
    fn kill(&mut self, process_name: &str) -> (r: Result<Option<Action>, PlaybookError>)
        ensures
            outcome_of(final(self)@, r) == old(self)@.kill(process_name@),
    {
        if !self.is_registered(process_name) {
            return self.fail(PlaybookError::Process(ProcessError::NotRegistered));
        }
        self.ask(Phase::Killing, Action::Kill { step_name: process_name.to_string() })
    }

    /// Ends a step that waited for a process: the result must be the one the
    /// step asks for, if it asks for one.
    fn settle(&mut self, step_spec: &StepSpec, observed: i32) -> (r: Result<
        Option<Action>,
        PlaybookError,
    >)
        ensures
            outcome_of(final(self)@, r) == old(self)@.settle(step_spec@, observed),
    {
        match step_spec.check_exit_code {
            Some(expected) => {
                if expected != observed {
                    self.fail(PlaybookError::Process(ProcessError::ExitCode { expected, observed }))
                } else {
                    self.complete()
                }
            },
            None => self.complete(),
        }
    }

    /// Asks for the result of a process to be written to the step's exit-code
    /// file, or settles the step if it names none.
    fn record(&mut self, step_spec: &StepSpec, observed: i32) -> (r: Result<
        Option<Action>,
        PlaybookError,
    >)
        ensures
            outcome_of(final(self)@, r) == old(self)@.record(step_spec@, observed),
    {
        match &step_spec.exit_code {
            Some(file) => match self.render_path(file.as_str()) {
                Err(e) => self.fail(PlaybookError::Template(e)),
                Ok(path) => {
                    let contents: String = signed_decimal(observed as i64);
                    self.ask(Phase::Recording { observed }, Action::WriteFile { path, contents })
                },
            },
            None => self.settle(step_spec, observed),
        }
    }

    /// The participant at position `index` among those of `role`.
    fn pick_participant(&self, role: &str, index: i64) -> (r: Option<Participant>)
        ensures
            match r {
                Some(p) => pick(of_role(self@.participants, role@), index) == Some(p@),
                None => pick(of_role(self@.participants, role@), index) is None,
            },
    {
        let targets: Vec<Participant> = get_role_participants(&self.participants, role);
        assert(participant_views(targets@).len() == targets@.len());
        if index >= 0 && (index as u64) < (targets.len() as u64) {
            let one: Participant = targets[index as usize].clone();
            assert(participant_views(targets@)[index as int] == one@);
            Some(one)
        } else {
            None
        }
    }

    /// Asks for a variable to be sent.
    fn send_variable(&mut self, step_spec: &StepSpec, variable_name: &str) -> (r: Result<
        Option<Action>,
        PlaybookError,
    >)
        ensures
            outcome_of(final(self)@, r) == old(self)@.send(step_spec@, variable_name@),
    {
        let (file, to_role): (&String, &String) = match (&step_spec.file, &step_spec.to_role) {
            (Some(file), Some(to_role)) => (file, to_role),
            _ => {
                return self.fail(PlaybookError::Config);
            },
        };
        let name: String = match self.render_path(variable_name) {
            Ok(name) => name,
            Err(e) => {
                return self.fail(PlaybookError::Template(e));
            },
        };
        let path: String = match self.render_path(file.as_str()) {
            Ok(path) => path,
            Err(e) => {
                return self.fail(PlaybookError::Template(e));
            },
        };
        let participants: Vec<Participant> = match step_spec.index {
            None => get_role_participants(&self.participants, to_role.as_str()),
            Some(index) => match self.pick_participant(to_role.as_str(), index) {
                Some(one) => {
                    let mut only: Vec<Participant> = Vec::new();
                    only.push(one);
                    assert(participant_views(only@) =~= seq![one@]);
                    only
                },
                None => {
                    return self.fail(PlaybookError::Config);
                },
            },
        };
        self.ask(Phase::Calling, Action::SendVariable { name, file: path, participants })
    }

    /// Asks for a variable to be received.
    fn recv_variable(&mut self, step_spec: &StepSpec, variable_name: &str) -> (r: Result<
        Option<Action>,
        PlaybookError,
    >)
        ensures
            outcome_of(final(self)@, r) == old(self)@.recv(step_spec@, variable_name@),
    {
        let name: String = match self.render_path(variable_name) {
            Ok(name) => name,
            Err(e) => {
                return self.fail(PlaybookError::Template(e));
            },
        };
        let (from_role, index): (&String, i64) = match (&step_spec.from_role, step_spec.index) {
            (Some(from_role), Some(index)) => (from_role, index),
            _ => {
                return self.fail(PlaybookError::Config);
            },
        };
        let participant: Participant = match self.pick_participant(from_role.as_str(), index) {
            Some(sender) => sender,
            None => {
                return self.fail(PlaybookError::Config);
            },
        };
        self.ask(Phase::Receiving, Action::RecvVariable { name, participant })
    }

    /// Asks for a payload that was received to be written to the step's file.
    fn store(&mut self, step_spec: &StepSpec, payload: Vec<u8>) -> (r: Result<
        Option<Action>,
        PlaybookError,
    >)
        ensures
            outcome_of(final(self)@, r) == old(self)@.store(step_spec@, payload@),
    {
        match &step_spec.file {
            None => self.complete(),
            Some(file) => match self.render_path(file.as_str()) {
                Err(e) => self.fail(PlaybookError::Template(e)),
                Ok(path) => self.ask(Phase::Storing, Action::WritePayload { path, payload }),
            },
        }
    }

    /// The key and the file of an entry operation that carries a payload.
    fn entry_args(&self, step_spec: &StepSpec, key: &str) -> (r: Result<
        (String, String),
        PlaybookError,
    >)
        ensures
            match r {
                Ok((entry, path)) => self@.entry_args(step_spec@, key@) == Ok::<
                    (Seq<char>, Seq<char>),
                    PlaybookError,
                >((entry@, path@)),
                Err(e) => self@.entry_args(step_spec@, key@) == Err::<
                    (Seq<char>, Seq<char>),
                    PlaybookError,
                >(e),
            },
    {
        let file: &String = match &step_spec.file {
            Some(file) => file,
            None => {
                return Err(PlaybookError::Config);
            },
        };
        let entry: String = match self.render_path(key) {
            Ok(entry) => entry,
            Err(e) => {
                return Err(PlaybookError::Template(e));
            },
        };
        match self.render_path(file.as_str()) {
            Ok(path) => Ok((entry, path)),
            Err(e) => Err(PlaybookError::Template(e)),
        }
    }

    /// Asks for an entry to be created.
    fn create_entry(&mut self, step_spec: &StepSpec, key: &str) -> (r: Result<
        Option<Action>,
        PlaybookError,
    >)
        ensures
            outcome_of(final(self)@, r) == (match old(self)@.entry_args(step_spec@, key@) {
                Ok((key, file)) => old(self)@.asks(
                    Phase::Calling,
                    ActionView::CreateEntry { key, file },
                ),
                Err(e) => old(self)@.fails(e),
            }),
    {
        match self.entry_args(step_spec, key) {
            Ok((key, file)) => self.ask(Phase::Calling, Action::CreateEntry { key, file }),
            Err(e) => self.fail(e),
        }
    }

    /// Asks for an entry to be updated.
    fn update_entry(&mut self, step_spec: &StepSpec, key: &str) -> (r: Result<
        Option<Action>,
        PlaybookError,
    >)
        ensures
            outcome_of(final(self)@, r) == (match old(self)@.entry_args(step_spec@, key@) {
                Ok((key, file)) => old(self)@.asks(
                    Phase::Calling,
                    ActionView::UpdateEntry { key, file },
                ),
                Err(e) => old(self)@.fails(e),
            }),
    {
        match self.entry_args(step_spec, key) {
            Ok((key, file)) => self.ask(Phase::Calling, Action::UpdateEntry { key, file }),
            Err(e) => self.fail(e),
        }
    }

    /// Asks for an entry to be read.
    fn read_entry(&mut self, step_spec: &StepSpec, key: &str) -> (r: Result<
        Option<Action>,
        PlaybookError,
    >)
        ensures
            outcome_of(final(self)@, r) == (match old(self)@.entry_args(step_spec@, key@) {
                Ok((key, file)) => old(self)@.asks(
                    Phase::Receiving,
                    ActionView::ReadEntry { key, file },
                ),
                Err(e) => old(self)@.fails(e),
            }),
    {
        match self.entry_args(step_spec, key) {
            Ok((key, file)) => self.ask(Phase::Receiving, Action::ReadEntry { key, file }),
            Err(e) => self.fail(e),
        }
    }

    /// Asks for an entry to be read once it exists.
    fn read_or_wait_entry(&mut self, step_spec: &StepSpec, key: &str) -> (r: Result<
        Option<Action>,
        PlaybookError,
    >)
        ensures
            outcome_of(final(self)@, r) == (match old(self)@.entry_args(step_spec@, key@) {
                Ok((key, file)) => old(self)@.asks(
                    Phase::Receiving,
                    ActionView::ReadOrWaitEntry { key, file },
                ),
                Err(e) => old(self)@.fails(e),
            }),
    {
        match self.entry_args(step_spec, key) {
            Ok((key, file)) => self.ask(Phase::Receiving, Action::ReadOrWaitEntry { key, file }),
            Err(e) => self.fail(e),
        }
    }

    /// Asks for an entry to be deleted.
    fn delete_entry(&mut self, key: &str) -> (r: Result<Option<Action>, PlaybookError>)
        ensures
            outcome_of(final(self)@, r) == (match old(self)@.resolve(key@) {
                Ok(key) => old(self)@.asks(Phase::Calling, ActionView::DeleteEntry { key }),
                Err(e) => old(self)@.fails(PlaybookError::Template(e)),
            }),
    {
        match self.render_path(key) {
            Ok(key) => self.ask(Phase::Calling, Action::DeleteEntry { key }),
            Err(e) => self.fail(PlaybookError::Template(e)),
        }
    }

    /// The step's variable or entry operation.
    fn coordinate(&mut self, step_spec: &StepSpec) -> (r: Result<Option<Action>, PlaybookError>)
        ensures
            outcome_of(final(self)@, r) == old(self)@.coordinate(step_spec@),
    {
        if let Some(name) = &step_spec.send_variable {
            self.send_variable(step_spec, name.as_str())
        } else if let Some(name) = &step_spec.recv_variable {
            self.recv_variable(step_spec, name.as_str())
        } else if let Some(key) = &step_spec.create_entry {
            self.create_entry(step_spec, key.as_str())
        } else if let Some(key) = &step_spec.read_entry {
            self.read_entry(step_spec, key.as_str())
        } else if let Some(key) = &step_spec.read_or_wait_entry {
            self.read_or_wait_entry(step_spec, key.as_str())
        } else if let Some(key) = &step_spec.update_entry {
            self.update_entry(step_spec, key.as_str())
        } else if let Some(key) = &step_spec.delete_entry {
            self.delete_entry(key.as_str())
        } else {
            self.fail(PlaybookError::UnrecognizedStep)
        }
    }

    /// What the step does about processes that run.
    fn control(&mut self, step_spec: &StepSpec, launched: bool) -> (r: Result<
        Option<Action>,
        PlaybookError,
    >)
        ensures
            outcome_of(final(self)@, r) == old(self)@.control(step_spec@, launched),
    {
        if let Some(name) = &step_spec.process_kill {
            self.kill(name.as_str())
        } else if let Some(name) = &step_spec.process_wait {
            self.wait(name.as_str())
        } else if launched {
            self.complete()
        } else {
            self.coordinate(step_spec)
        }
    }

    /// The step's action once its guard, if any, has passed.
    fn act(&mut self, step_spec: &StepSpec) -> (r: Result<Option<Action>, PlaybookError>)
        ensures
            outcome_of(final(self)@, r) == old(self)@.act(step_spec@),
    {
        match &step_spec.process {
            Some(command) => match &step_spec.step_name {
                Some(name) => self.run(name.as_str(), command.as_str()),
                None => self.fail(PlaybookError::Config),
            },
            None => self.control(step_spec, false),
        }
    }

    /// Starts the evaluation of `step_spec` and gives its first action.
    ///
    /// A guard is run first, to its end. Without one, the step's action is
    /// taken up: a process launch, which needs the step's name; else a kill
    /// or a wait; else the first variable or entry operation that the step
    /// names. A step that names no action is refused with
    /// `UnrecognizedStep`.
    pub fn evaluate(ctx: &mut Context, step_spec: &StepSpec) -> (r: Result<
        Option<Action>,
        PlaybookError,
    >)
        ensures
            outcome_of(final(ctx)@, r) == old(ctx)@.begin(step_spec@),
    {
        match &step_spec._if {
            Some(condition) => ctx.run_guard(condition.as_str()),
            None => ctx.act(step_spec),
        }
    }

    /// Goes on with the evaluation of `step_spec` when the host answers
    /// `event`: gives the step's next action, `Ok(None)` when the step has
    /// completed, or the error that ends the invocation.
    pub fn react(ctx: &mut Context, step_spec: &StepSpec, event: Event) -> (r: Result<
        Option<Action>,
        PlaybookError,
    >)
        ensures
            outcome_of(final(ctx)@, r) == old(ctx)@.react(step_spec@, event),
    {
        match ctx.phase {
            Phase::Idle | Phase::Finished | Phase::Failed | Phase::Preparing => {
                return ctx.fail(PlaybookError::UnexpectedEvent);
            },
            _ => {},
        }
        match event {
            Event::Failed(fault) => {
                let e: PlaybookError = match fault {
                    Fault::File => PlaybookError::Io,
                    Fault::Process => PlaybookError::Process(ProcessError::Failed),
                    Fault::Service => PlaybookError::Coordination,
                };
                ctx.fail(e)
            },
            Event::Completed => match ctx.phase {
                Phase::Launching => match &step_spec.step_name {
                    Some(name) => {
                        ctx.register(name.as_str());
                        ctx.control(step_spec, true)
                    },
                    None => ctx.fail(PlaybookError::UnexpectedEvent),
                },
                Phase::Killing => match &step_spec.process_kill {
                    Some(name) => ctx.wait(name.as_str()),
                    None => ctx.fail(PlaybookError::UnexpectedEvent),
                },
                Phase::Collecting { observed } => ctx.record(step_spec, observed),
                Phase::Recording { observed } => ctx.settle(step_spec, observed),
                Phase::Calling => ctx.complete(),
                Phase::Storing => ctx.complete(),
                _ => ctx.fail(PlaybookError::UnexpectedEvent),
            },
            Event::Received(payload) => match ctx.phase {
                Phase::Receiving => ctx.store(step_spec, payload),
                _ => ctx.fail(PlaybookError::UnexpectedEvent),
            },
            Event::Exited { code, signal } => {
                let observed: Option<i32> = match signal {
                    Some(number) => Some(number),
                    None => code,
                };
                match ctx.phase {
                    Phase::GuardWaiting => match observed {
                        None => ctx.fail(PlaybookError::Process(ProcessError::Failed)),
                        Some(result) => {
                            if result == 0 {
                                ctx.act(step_spec)
                            } else {
                                ctx.complete()
                            }
                        },
                    },
                    Phase::Reaping => match observed {
                        None => ctx.fail(PlaybookError::Process(ProcessError::Failed)),
                        Some(result) => ctx.collect(step_spec, result),
                    },
                    _ => ctx.fail(PlaybookError::UnexpectedEvent),
                }
            },
        }
    }

    /// Takes up the step at the counter.
    fn enter(&mut self) -> (r: Result<Action, PlaybookError>)
        ensures
            advance_of(final(self)@, r) == old(self)@.enter(),
    {
        if self.step_counter >= self.role_spec.steps.len() {
            self.phase = Phase::Finished;
            return Ok(Action::Finished);
        }
        let step: StepSpec = self.role_spec.steps[self.step_counter].clone();
        match Context::evaluate(self, &step) {
            Err(e) => Err(e),
            Ok(Some(action)) => Ok(action),
            Ok(None) => {
                self.phase = Phase::Failed;
                Err(PlaybookError::UnexpectedEvent)
            },
        }
    }

    /// Goes on with the invocation when the host answers `event`: gives the
    /// next action, `Finished` after the last step, or the error that ends
    /// the invocation.
    ///
    /// The steps run strictly in the role's order: the step at the counter
    /// reacts to the answer, and only when it has completed is the next one
    /// taken up. After an error, and after `Finished`, every answer is
    /// refused with `UnexpectedEvent` and the state stays as it is.
    pub fn advance(&mut self, event: Event) -> (r: Result<Action, PlaybookError>)
        ensures
            advance_of(final(self)@, r) == old(self)@.advance(event),
    {
        match self.phase {
            Phase::Preparing => {
                return match event {
                    Event::Completed => self.enter(),
                    Event::Failed(fault) => {
                        self.phase = Phase::Failed;
                        Err(
                            match fault {
                                Fault::File => PlaybookError::Io,
                                Fault::Process => PlaybookError::Process(ProcessError::Failed),
                                Fault::Service => PlaybookError::Coordination,
                            },
                        )
                    },
                    _ => {
                        self.phase = Phase::Failed;
                        Err(PlaybookError::UnexpectedEvent)
                    },
                };
            },
            Phase::Idle | Phase::Finished | Phase::Failed => {
                return Err(PlaybookError::UnexpectedEvent);
            },
            _ => {},
        }
        if self.step_counter >= self.role_spec.steps.len() {
            self.phase = Phase::Failed;
            return Err(PlaybookError::UnexpectedEvent);
        }
        let step: StepSpec = self.role_spec.steps[self.step_counter].clone();
        match Context::react(self, &step, event) {
            Err(e) => Err(e),
            Ok(Some(action)) => Ok(action),
            Ok(None) => {
                self.step_counter = self.step_counter + 1;
                self.enter()
            },
        }
    }
}

/// The runner of one role: the role with its steps, and the working
/// directory of its protocol.
pub struct Interpreter {
    role: RoleSpec,
    working_dir: String,
}

/// A runner as the contracts see it.
pub struct InterpreterView {
    pub role: RoleSpecView,
    pub working_dir: Seq<char>,
}

impl View for Interpreter {
    type V = InterpreterView;

    closed spec fn view(&self) -> InterpreterView {
        InterpreterView { role: self.role@, working_dir: self.working_dir@ }
    }
}

impl Interpreter {
    /// The runner of `role` in a protocol whose working directory is
    /// `working_dir`.
    pub fn new(role: RoleSpec, working_dir: &str) -> (r: Interpreter)
        ensures
            r@ == (InterpreterView { role: role@, working_dir: working_dir@ }),
    {
        Interpreter { role, working_dir: working_dir.to_string() }
    }

    /// Starts one invocation of the role for a task with `participants` and
    /// the parameter `param`.
    ///
    /// The number of participants of the role is held against the role's
    /// bounds before anything else: outside them the result is
    /// `ParticipantCount`, and no step runs. Within them the result is the
    /// action that prepares the working directory and stores the snapshot,
    /// unless the working directory cannot be resolved.
    pub fn start(
        &self,
        identity: Identity,
        env: Vec<(String, String)>,
        param: &Vec<u8>,
        participants: &Vec<Participant>,
    ) -> (r: (Context, Result<Action, PlaybookError>))
        requires
            encodable(param@.len()),
        ensures
            advance_of(r.0@, r.1) == initial_context(
                self@.role,
                self@.working_dir,
                participant_views(participants@),
                param@,
                identity@,
                bindings_of(env@),
            ).start(),
            (r.1 matches Err(PlaybookError::ParticipantCount)) <==> !count_allowed(
                of_role(participant_views(participants@), self@.role.name).len(),
                self@.role.min_num,
                self@.role.max_num,
            ),
            r.1 is Err ==> r.0@.phase is Failed,
    {
        let mut ctx: Context = Context::new(
            self.role.clone(),
            self.working_dir.as_str(),
            participants,
            param,
            identity,
            env,
        );
        if ctx.check_roles_num().is_err() {
            ctx.phase = Phase::Failed;
            return (ctx, Err(PlaybookError::ParticipantCount));
        }
        let working_dir: String = match ctx.render_path(ctx.working_dir.as_str()) {
            Ok(dir) => dir,
            Err(e) => {
                ctx.phase = Phase::Failed;
                return (ctx, Err(PlaybookError::Template(e)));
            },
        };
        let file: String = match ctx.render_path("param.json") {
            Ok(file) => file,
            Err(e) => {
                ctx.phase = Phase::Failed;
                return (ctx, Err(PlaybookError::Template(e)));
            },
        };
        let snapshot: ParamSnapshot = ctx.store_param_to_file();
        ctx.phase = Phase::Preparing;
        (ctx, Ok(Action::Prepare { working_dir, file, snapshot }))
    }
}

} // verus!
