//! What holds of every invocation, proved from the model of the engine.

use vstd::prelude::*;
use crate::action::{ActionView, Event, Phase};
use crate::error::{PlaybookError, ProcessError, TemplateError};
use crate::helper::render;
use crate::text::{
    bound_of, decimal_text, digit_char, find_pair, is_digit, is_number, number_value, Bound,
};
use crate::interpreter::{
    awaiting, differs_from, observed_result, Advance, ContextView, Outcome,
};
use crate::runtime::{count_fits, InvocationView, RuntimeView};
use crate::spec_parser::StepSpecView;

verus! {

/// A text that holds no `{{` renders to itself, whatever the bindings are.
pub proof fn literal_text_renders_to_itself(
    template: Seq<char>,
    bindings: Map<Seq<char>, Seq<char>>,
)
    requires
        find_pair(template, '{', '{', 0) is None,
    ensures
        render(template, bindings) == Ok::<Seq<char>, TemplateError>(template),
{
    assert(template.subrange(0, template.len() as int) =~= template);
}

/// A number that is written in decimal reads back as itself: the text is a
/// decimal number, and the digits write the number. So a bound of a range
/// that is written by `decimal_text` is the bound that was meant.
pub proof fn decimal_text_reads_back(n: nat)
    ensures
        is_number(decimal_text(n)),
        number_value(decimal_text(n)) == n,
        n <= usize::MAX ==> bound_of(decimal_text(n)) == Bound::At(n as usize),
    decreases n,
{
    let text = decimal_text(n);
    if n < 10 {
        assert(text.len() == 1);
        assert(text.drop_last().len() == 0);
        assert(number_value(text.drop_last()) == 0);
        assert(text.last() == digit_char(n));
    } else {
        decimal_text_reads_back(n / 10);
        let head = decimal_text(n / 10);
        assert(text.drop_last() =~= head);
        assert(text.last() == digit_char(n % 10));
        assert forall|k: int| 0 <= k < text.len() implies is_digit(#[trigger] text[k]) by {
            if k < head.len() {
                assert(text[k] == head[k]);
            }
        }
    }
}

/// The first point of a step is an action or an error: no step completes
/// without the host having done anything.
pub proof fn first_point_is_action_or_error(context: ContextView, step: StepSpecView)
    ensures
        context.begin(step).result != Ok::<Option<ActionView>, PlaybookError>(None),
{
    if let Some(name) = step.send_variable {
        assert(context.send(step, name).result != Ok::<Option<ActionView>, PlaybookError>(None));
    } else if let Some(name) = step.recv_variable {
        assert(context.recv(step, name).result != Ok::<Option<ActionView>, PlaybookError>(None));
    }
    assert(context.coordinate(step).result != Ok::<Option<ActionView>, PlaybookError>(None));
    assert(context.control(step, false).result != Ok::<Option<ActionView>, PlaybookError>(None));
}

/// Taking a name out of a table without duplicates leaves a table without
/// duplicates that does not hold the name and holds every other name that
/// the table held, and no more.
pub proof fn lemma_release(table: Seq<Seq<char>>, name: Seq<char>)
    requires
        table.no_duplicates(),
    ensures
        table.filter(differs_from(name)).no_duplicates(),
        !table.filter(differs_from(name)).contains(name),
        forall|other: Seq<char>|
            table.filter(differs_from(name)).contains(other) <==> (other != name && table.contains(
                other,
            )),
    decreases table.len(),
{
    reveal(Seq::filter);
    let kept = table.filter(differs_from(name));
    if table.len() > 0 {
        let front = table.drop_last();
        let last = table.last();
        assert(front.no_duplicates()) by {
            assert forall|i: int, j: int| 0 <= i < front.len() && 0 <= j < front.len() && i
                != j implies front[i] != front[j] by {
                assert(front[i] == table[i] && front[j] == table[j]);
            }
        }
        lemma_release(front, name);
        let kept_front = front.filter(differs_from(name));
        assert(!front.contains(last)) by {
            if front.contains(last) {
                let i = choose|i: int| 0 <= i < front.len() && front[i] == last;
                assert(table[i] == table[table.len() - 1]);
            }
        }
        assert forall|other: Seq<char>| table.contains(other) <==> (front.contains(other) || other
            == last) by {
            if table.contains(other) {
                let i = choose|i: int| 0 <= i < table.len() && table[i] == other;
                if i < front.len() {
                    assert(front[i] == other);
                }
            }
            if front.contains(other) {
                let i = choose|i: int| 0 <= i < front.len() && front[i] == other;
                assert(table[i] == other);
            }
            if other == last {
                assert(table[table.len() - 1] == other);
            }
        }
        if differs_from(name)(last) {
            assert(kept == kept_front.push(last));
            assert(kept.no_duplicates()) by {
                assert forall|i: int, j: int| 0 <= i < kept.len() && 0 <= j < kept.len() && i
                    != j implies kept[i] != kept[j] by {
                    if i < kept_front.len() && j < kept_front.len() {
                        assert(kept[i] == kept_front[i] && kept[j] == kept_front[j]);
                    } else if i < kept_front.len() {
                        assert(kept_front.contains(kept_front[i]));
                    } else {
                        assert(kept_front.contains(kept_front[j]));
                    }
                }
            }
            assert forall|other: Seq<char>| kept.contains(other) <==> (other != name
                && table.contains(other)) by {
                if kept.contains(other) {
                    let i = choose|i: int| 0 <= i < kept.len() && kept[i] == other;
                    if i < kept_front.len() {
                        assert(kept_front.contains(kept_front[i]));
                    }
                }
                if other != name && table.contains(other) {
                    if other == last {
                        assert(kept[kept.len() - 1] == other);
                    } else {
                        let i = choose|i: int| 0 <= i < kept_front.len() && kept_front[i] == other;
                        assert(kept[i] == other);
                    }
                }
            }
        } else {
            assert(kept == kept_front);
        }
    }
}

/// The participant count gates the invocation. Outside the role's bounds the
/// start fails with `ParticipantCount` and the invocation has ended. Within
/// them the start does not fail on the count; and once the host has prepared
/// the working directory, the step at the counter is taken up.
pub proof fn participant_count_gates_start(context: ContextView)
    ensures
        !context.count_in_bounds() ==> context.start() == (Advance {
            context: context.at(Phase::Failed),
            result: Err(PlaybookError::ParticipantCount),
        }),
        context.count_in_bounds() ==> context.start().result != Err::<ActionView, PlaybookError>(
            PlaybookError::ParticipantCount,
        ),
        context.start().result is Ok ==> context.count_in_bounds() && context.start().context.advance(
            Event::Completed,
        ) == context.start().context.enter(),
{
}

/// An invocation that has ended runs nothing more: whatever the host answers
/// is refused, and the state stays as it is.
pub proof fn ended_invocation_refuses(context: ContextView, event: Event)
    requires
        !awaiting(context.phase),
    ensures
        context.advance(event) == (Advance {
            context,
            result: Err(PlaybookError::UnexpectedEvent),
        }),
{
}

/// Whether an outcome that is an error leaves the invocation ended.
pub open spec fn ends_on_error(outcome: Outcome) -> bool {
    outcome.result is Err ==> outcome.context.phase is Failed
}

proof fn lemma_coordinate_ends_on_error(context: ContextView, step: StepSpecView)
    ensures
        ends_on_error(context.coordinate(step)),
{
    if let Some(name) = step.send_variable {
        assert(ends_on_error(context.send(step, name)));
    } else if let Some(name) = step.recv_variable {
        assert(ends_on_error(context.recv(step, name)));
    }
}

proof fn lemma_act_ends_on_error(context: ContextView, step: StepSpecView)
    ensures
        ends_on_error(context.act(step)),
        ends_on_error(context.control(step, true)),
        ends_on_error(context.begin(step)),
{
    lemma_coordinate_ends_on_error(context, step);
    assert(ends_on_error(context.control(step, false)));
}

proof fn lemma_react_ends_on_error(context: ContextView, step: StepSpecView, event: Event)
    ensures
        ends_on_error(context.react(step, event)),
{
    lemma_act_ends_on_error(context, step);
    if let Some(name) = step.step_name {
        lemma_act_ends_on_error(context.registering(name), step);
    }
    match context.phase {
        Phase::Reaping => {
            if let Event::Exited { code, signal } = event {
                if let Some(observed) = observed_result(code, signal) {
                    assert(ends_on_error(context.collect(step, observed)));
                }
            }
        },
        Phase::Collecting { observed } => {
            assert(ends_on_error(context.record(step, observed)));
        },
        _ => {},
    }
}

/// An error ends the invocation: after it no answer is awaited, so that no
/// later step runs.
pub proof fn error_ends_invocation(context: ContextView, event: Event)
    ensures
        context.advance(event).result is Err ==> !awaiting(context.advance(event).context.phase),
        context.start().result is Err ==> !awaiting(context.start().context.phase),
{
    if context.phase is Preparing {
        if context.step_counter < context.role.steps.len() {
            lemma_act_ends_on_error(context, context.role.steps[context.step_counter as int]);
        }
    } else if awaiting(context.phase) && context.step_counter < context.role.steps.len() {
        let step = context.role.steps[context.step_counter as int];
        lemma_react_ends_on_error(context, step, event);
        let outcome = context.react(step, event);
        if outcome.result == Ok::<Option<ActionView>, PlaybookError>(None) {
            let following = outcome.context.next();
            if following.step_counter < following.role.steps.len() {
                lemma_act_ends_on_error(
                    following,
                    following.role.steps[following.step_counter as int],
                );
            }
        }
    }
}

/// A guard that ends with a result other than zero skips the whole step:
/// the step completes without any action, nothing but the phase changes, and
/// the invocation goes on with the next step.
pub proof fn failed_guard_skips_step(
    context: ContextView,
    step: StepSpecView,
    code: Option<i32>,
    signal: Option<i32>,
)
    requires
        context.phase is GuardWaiting,
        observed_result(code, signal) matches Some(observed) && observed != 0,
    ensures
        context.react(step, Event::Exited { code, signal }) == context.completes(),
        context.react(step, Event::Exited { code, signal }).result == Ok::<
            Option<ActionView>,
            PlaybookError,
        >(None),
        context.react(step, Event::Exited { code, signal }).context == context.at(Phase::Idle),
        context.step_counter < context.role.steps.len() && step
            == context.role.steps[context.step_counter as int] ==> context.advance(
            Event::Exited { code, signal },
        ) == context.at(Phase::Idle).next().enter(),
{
}

/// A process is waited for once after each launch: waiting takes the name
/// out of the table, so that a second wait on the name is refused, as is a
/// wait on a name that was never registered.
pub proof fn process_is_waited_once(context: ContextView, name: Seq<char>)
    requires
        context.registered.no_duplicates(),
    ensures
        context.registering(name).is_registered(name),
        context.is_registered(name) ==> context.reap(name).result == Ok::<
            Option<ActionView>,
            PlaybookError,
        >(Some(ActionView::Wait { step_name: name })),
        !context.reap(name).context.is_registered(name),
        context.reap(name).context.reap(name).result == Err::<Option<ActionView>, PlaybookError>(
            PlaybookError::Process(ProcessError::NotRegistered),
        ),
        !context.is_registered(name) ==> context.reap(name).result == Err::<
            Option<ActionView>,
            PlaybookError,
        >(PlaybookError::Process(ProcessError::NotRegistered)),
        context.is_registered(name) ==> context.kill(name).context.is_registered(name),
{
    lemma_release(context.registered, name);
    let pushed = context.registered.push(name);
    assert(pushed[pushed.len() - 1] == name);
}

/// What the coordination service delivers reaches the step's file as it was
/// received: while a payload is awaited, the answer that brings it makes the
/// engine ask for exactly that payload to be written to the step's resolved
/// file. Until the answer comes, the engine asks for nothing else.
pub proof fn received_payload_is_stored_unchanged(
    context: ContextView,
    step: StepSpecView,
    payload: Vec<u8>,
)
    requires
        context.phase is Receiving,
    ensures
        match step.file {
            Some(file) => match context.resolve(file) {
                Ok(path) => context.react(step, Event::Received(payload)) == context.asks(
                    Phase::Storing,
                    ActionView::WritePayload { path, payload: payload@ },
                ),
                Err(e) => context.react(step, Event::Received(payload)) == context.fails(
                    PlaybookError::Template(e),
                ),
            },
            None => context.react(step, Event::Received(payload)) == context.completes(),
        },
{
}

/// Where a step asks for an exit code and the process ends with another
/// result, the step fails with `ExitCode` and the invocation has ended; with
/// the result asked for, or where none is asked for, the step completes.
pub proof fn exit_code_is_checked(context: ContextView, step: StepSpecView, observed: i32)
    ensures
        match step.check_exit_code {
            Some(expected) => if expected != observed {
                context.settle(step, observed) == context.fails(
                    PlaybookError::Process(ProcessError::ExitCode { expected, observed }),
                ) && !awaiting(context.settle(step, observed).context.phase)
            } else {
                context.settle(step, observed) == context.completes()
            },
            None => context.settle(step, observed) == context.completes(),
        },
{
}

impl ContextView {
    /// Whether the process table is consistent: no name stands in it twice,
    /// and while a launch is under way the name it will be registered under
    /// is free.
    pub open spec fn consistent(self) -> bool {
        &&& self.registered.no_duplicates()
        &&& self.phase is Launching ==> {
            &&& self.step_counter < self.role.steps.len()
            &&& self.role.steps[self.step_counter as int].step_name matches Some(name)
            &&& !self.is_registered(name)
        }
    }
}

/// The first point of a step leaves the process table as it is, and a launch
/// that it asks for is one under a free name.
proof fn lemma_begin_consistent(context: ContextView)
    requires
        context.registered.no_duplicates(),
        context.step_counter < context.role.steps.len(),
    ensures
        context.begin(context.role.steps[context.step_counter as int]).context.consistent()
            || context.begin(context.role.steps[context.step_counter as int]).context.phase
            is Reaping,
        context.begin(context.role.steps[context.step_counter as int]).context.registered.no_duplicates(),
        context.begin(context.role.steps[context.step_counter as int]).context.role == context.role,
        context.begin(context.role.steps[context.step_counter as int]).context.step_counter
            == context.step_counter,
{
    let step = context.role.steps[context.step_counter as int];
    if let Some(name) = step.process_wait {
        lemma_release(context.registered, name);
    }
}

/// The process table stays consistent: the names in it are unique at every
/// point of an invocation.
pub proof fn names_stay_unique(context: ContextView, event: Event)
    requires
        context.consistent(),
    ensures
        context.advance(event).context.consistent(),
{
    if context.phase is Preparing {
        if event is Completed && context.step_counter < context.role.steps.len() {
            lemma_begin_consistent(context);
        }
    } else if !awaiting(context.phase) || context.step_counter >= context.role.steps.len() {
    } else {
        let step = context.role.steps[context.step_counter as int];
        let outcome = context.react(step, event);
        if let Some(name) = step.process_wait {
            lemma_release(context.registered, name);
        }
        if let Some(name) = step.process_kill {
            lemma_release(context.registered, name);
        }
        if let Some(name) = step.step_name {
            let grown = context.registering(name);
            if !context.is_registered(name) {
                assert(grown.registered.no_duplicates()) by {
                    assert forall|i: int, j: int|
                        0 <= i < grown.registered.len() && 0 <= j < grown.registered.len() && i
                            != j implies grown.registered[i] != grown.registered[j] by {
                        if i < context.registered.len() && j < context.registered.len() {
                        } else if i < context.registered.len() {
                            assert(context.registered.contains(context.registered[i]));
                        } else {
                            assert(context.registered.contains(context.registered[j]));
                        }
                    }
                }
                if let Some(waited) = step.process_wait {
                    lemma_release(grown.registered, waited);
                }
                if let Some(killed) = step.process_kill {
                    lemma_release(grown.registered, killed);
                }
            }
        }
        assert(outcome.context.registered.no_duplicates());
        assert(outcome.context.role == context.role);
        assert(outcome.context.step_counter == context.step_counter);
        if outcome.result is Ok && outcome.result->Ok_0 is None {
            let following = outcome.context.next();
            if following.step_counter < following.role.steps.len() {
                lemma_begin_consistent(following);
            }
        }
    }
}

/// An invocation starts with a consistent process table.
pub proof fn start_is_consistent(context: ContextView)
    requires
        context.registered.len() == 0,
    ensures
        context.start().context.consistent(),
{
}

/// The flat runtime gates on the participant count as the interpreter does:
/// with fewer participants of the role than its lower bound, or more than its
/// upper bound, the start fails with `ParticipantCount` and the invocation
/// has ended, so that no step runs.
pub proof fn flat_participant_count_gates_start(
    invocation: InvocationView,
    param: Seq<u8>,
    event: Event,
)
    ensures
        !count_fits(invocation.role_count(), invocation.role.min_num, invocation.role.max_num)
            ==> {
            &&& invocation.start(param) == invocation.fails(PlaybookError::ParticipantCount)
            &&& invocation.start(param).invocation.advance(event).result == Err::<
                ActionView,
                PlaybookError,
            >(PlaybookError::UnexpectedEvent)
            &&& invocation.start(param).invocation.advance(event).invocation == invocation.start(
                param,
            ).invocation
        },
        count_fits(invocation.role_count(), invocation.role.min_num, invocation.role.max_num)
            ==> invocation.start(param).result != Err::<ActionView, PlaybookError>(
            PlaybookError::ParticipantCount,
        ),
{
}

/// In the flat runtime, too, a guard that ends with a result other than
/// zero skips the whole step: the step completes without any action, and nothing
/// but the phase changes.
pub proof fn flat_failed_guard_skips_step(
    runtime: RuntimeView,
    step: Map<Seq<char>, Seq<char>>,
    code: Option<i32>,
    signal: Option<i32>,
)
    requires
        runtime.phase is GuardWaiting,
        observed_result(code, signal) matches Some(observed) && observed != 0,
    ensures
        runtime.resume(step, Event::Exited { code, signal }) == runtime.completes(),
{
}

} // verus!
