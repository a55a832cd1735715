//! Runs of the supervisor: sequences of commands and outcomes, and what holds along them.
use vstd::prelude::*;
use crate::backend::{advance_spec, begin_commit_info, begin_restart, begin_start};
use crate::backend::{begin_stderr, begin_stdout, begin_stop, done_ok, in_phase};
use crate::backend::{done_err, ActionView, BackendView, EventView, Phase, ReplyView};
use crate::command::OutputView;
use crate::error::ErrorKind;
use crate::report::{build_report, lemma_build_report_nonempty};

verus! {

/// One thing that happens to the supervisor: a command of its operator, or the outcome of
/// work that it asked for.
pub enum Input {
    Start,
    Stop,
    Restart,
    Stdout,
    Stderr,
    CommitInfo,
    Outcome(EventView),
}

/// The state and the action after one input.
pub open spec fn step(s: BackendView, input: Input) -> (BackendView, ActionView) {
    match input {
        Input::Start => begin_start(s),
        Input::Stop => begin_stop(s),
        Input::Restart => begin_restart(s),
        Input::Stdout => begin_stdout(s),
        Input::Stderr => begin_stderr(s),
        Input::CommitInfo => begin_commit_info(s),
        Input::Outcome(event) => advance_spec(s, event),
    }
}

/// The state after the inputs, taken in order from `s`.
pub open spec fn state_after(s: BackendView, inputs: Seq<Input>) -> BackendView
    decreases inputs.len(),
{
    if inputs.len() == 0 {
        s
    } else {
        step(state_after(s, inputs.drop_last()), inputs.last()).0
    }
}

/// The state in which input `i` of the run arrives.
pub open spec fn state_at(s: BackendView, inputs: Seq<Input>, i: int) -> BackendView {
    state_after(s, inputs.take(i))
}

/// The action with which the supervisor answers input `i` of the run.
pub open spec fn action_at(s: BackendView, inputs: Seq<Input>, i: int) -> ActionView {
    step(state_at(s, inputs, i), inputs[i]).1
}

/// A stop is in flight.
pub open spec fn stopping(phase: Phase) -> bool {
    phase is Killing || phase is Waiting
}

/// A start is in flight.
pub open spec fn starting(phase: Phase) -> bool {
    phase is Building || phase is Locating || phase is Resolving || phase is Spawning
}

/// No input of the run asks for the worker to be stopped.
pub open spec fn without_stop(inputs: Seq<Input>) -> bool {
    forall|i: int| 0 <= i < inputs.len() ==> !(inputs[i] is Stop) && !(inputs[i] is Restart)
}

/// No input of the run is a start, a stop or a restart.
pub open spec fn queries_only(inputs: Seq<Input>) -> bool {
    forall|i: int|
        0 <= i < inputs.len() ==> !(inputs[i] is Start) && !(inputs[i] is Stop) && !(
        inputs[i] is Restart)
}

proof fn lemma_state_at_next(s: BackendView, inputs: Seq<Input>, i: int)
    requires
        0 <= i < inputs.len(),
    ensures
        state_at(s, inputs, i + 1) == step(state_at(s, inputs, i), inputs[i]).0,
{
    assert(inputs.take(i + 1).drop_last() =~= inputs.take(i));
}

/// A stop of a stopped supervisor succeeds at once and changes nothing: no worker
/// appears, the deployment directory stays, and no operation is left in flight.
pub proof fn lemma_stop_of_stopped(s: BackendView)
    requires
        s.process is None,
    ensures
        begin_stop(s) == done_ok(s, ReplyView::NotRunning),
        begin_stop(s).0 == in_phase(s, Phase::Idle),
        begin_stop(s).1 == ActionView::Done(Ok(ReplyView::NotRunning)),
{
}

/// A start of a running supervisor succeeds at once, asks for no work and leaves the
/// worker untouched.
pub proof fn lemma_start_of_running(s: BackendView)
    requires
        s.process is Some,
    ensures
        begin_start(s).0 == in_phase(s, Phase::Idle),
        begin_start(s).1 == ActionView::Done(Ok(ReplyView::AlreadyRunning)),
{
}

/// When an operation ends with `Started`, a worker runs; when it ends with `Stopped`,
/// none does.
pub proof fn lemma_reply_tells_state(s: BackendView, input: Input)
    ensures
        step(s, input).1 == ActionView::Done(Ok(ReplyView::Started)) ==> step(
            s,
            input,
        ).0.process is Some,
        step(s, input).1 is Done && step(s, input).1->Done_0 is Ok && step(
            s,
            input,
        ).1->Done_0->Ok_0 is Stopped ==> step(s, input).0.process is None,
        step(s, input).1 == ActionView::Done(Ok(ReplyView::NotRunning)) ==> step(
            s,
            input,
        ).0.process is None,
        step(s, input).1 is Done ==> step(s, input).0.phase == Phase::Idle,
{
}

/// A command given while an operation is in flight abandons that operation: it acts as it
/// does when none is in flight. So a host that failed in the middle of an operation leaves
/// a supervisor that the next command can use.
pub proof fn lemma_command_abandons_operation(s: BackendView, input: Input)
    requires
        !(input is Outcome),
    ensures
        step(s, input) == step(in_phase(s, Phase::Idle), input),
        step(s, input).0.path == s.path,
{
}

/// A build that exits unsuccessfully ends the start with `BuildFailed`; the message is the
/// account of the build, which is never empty; and the supervisor stays stopped.
pub proof fn lemma_failed_build_is_reported(s: BackendView, output: OutputView)
    requires
        s.phase == Phase::Building,
        s.process is None,
        !output.success,
    ensures
        advance_spec(s, EventView::Ran(Ok(output))) == done_err(
            s,
            ErrorKind::BuildFailed,
            build_report(output),
        ),
        build_report(output).len() > 0,
        advance_spec(s, EventView::Ran(Ok(output))).0.process is None,
        advance_spec(s, EventView::Ran(Ok(output))).0.phase == Phase::Idle,
{
    lemma_build_report_nonempty(output);
}

/// While a worker runs and nothing asks for it to be stopped, it stays the same worker,
/// and the supervisor never asks for another to be created, whatever is started and
/// whatever outcomes arrive.
pub proof fn lemma_no_second_worker(s: BackendView, inputs: Seq<Input>, i: int)
    requires
        s.process is Some,
        !stopping(s.phase),
        without_stop(inputs),
        0 <= i <= inputs.len(),
    ensures
        state_at(s, inputs, i).process is Some,
        state_at(s, inputs, i).process->0.pid == s.process->0.pid,
        !stopping(state_at(s, inputs, i).phase),
        i < inputs.len() ==> !(action_at(s, inputs, i) is Spawn) && action_at(s, inputs, i)
            != ActionView::Done(Ok(ReplyView::Started)),
    decreases i,
{
    if i == 0 {
        assert(inputs.take(0) =~= Seq::<Input>::empty());
    } else {
        lemma_no_second_worker(s, inputs, i - 1);
        lemma_state_at_next(s, inputs, i - 1);
    }
}

/// Within a run that never asks for the worker to be stopped, a worker is created at most
/// once: after an operation has ended with `Started`, no later one asks for a process to be
/// created, and none ends with `Started` again.
pub proof fn lemma_at_most_one_worker(s: BackendView, inputs: Seq<Input>, i: int, j: int)
    requires
        without_stop(inputs),
        0 <= i < j < inputs.len(),
        action_at(s, inputs, i) == ActionView::Done(Ok(ReplyView::Started)),
    ensures
        !(action_at(s, inputs, j) is Spawn),
        action_at(s, inputs, j) != ActionView::Done(Ok(ReplyView::Started)),
{
    let mid = state_at(s, inputs, i + 1);
    lemma_state_at_next(s, inputs, i);
    let rest = inputs.skip(i + 1);
    assert(without_stop(rest)) by {
        assert forall|k: int| 0 <= k < rest.len() implies !(rest[k] is Stop) && !(
        rest[k] is Restart) by {
            assert(rest[k] == inputs[i + 1 + k]);
        }
    }
    lemma_no_second_worker(mid, rest, j - i - 1);
    lemma_state_at_split(s, inputs, i + 1, j);
    assert(rest[j - i - 1] == inputs[j]);
}

/// A run may be cut anywhere: the state in which input `j` arrives is the one reached by
/// the inputs from `i` on, started in the state in which input `i` arrives.
pub proof fn lemma_state_at_split(s: BackendView, inputs: Seq<Input>, i: int, j: int)
    requires
        0 <= i <= j <= inputs.len(),
    ensures
        state_at(s, inputs, j) == state_at(state_at(s, inputs, i), inputs.skip(i), j - i),
    decreases j - i,
{
    let rest = inputs.skip(i);
    if j == i {
        assert(rest.take(0) =~= Seq::<Input>::empty());
    } else {
        lemma_state_at_split(s, inputs, i, j - 1);
        lemma_state_at_next(s, inputs, j - 1);
        lemma_state_at_next(state_at(s, inputs, i), rest, j - 1 - i);
        assert(rest[j - 1 - i] == inputs[j - 1]);
    }
}

/// The same state, with the stop in flight being the first half of a restart.
pub open spec fn restarting(s: BackendView) -> BackendView {
    match s.phase {
        Phase::Killing { restart } => in_phase(s, Phase::Killing { restart: true }),
        Phase::Waiting { restart } => in_phase(s, Phase::Waiting { restart: true }),
        _ => s,
    }
}

/// A restart of a stopped supervisor is the stop, which does nothing, followed by the
/// start.
pub proof fn lemma_restart_of_stopped(s: BackendView)
    requires
        s.process is None,
    ensures
        begin_stop(s).1 == ActionView::Done(Ok(ReplyView::NotRunning)),
        begin_restart(s) == begin_start(begin_stop(s).0),
{
}

/// A restart of a running supervisor begins as the stop does.
pub proof fn lemma_restart_begins_as_stop(s: BackendView)
    requires
        s.process is Some,
    ensures
        begin_restart(s).1 == begin_stop(s).1,
        begin_restart(s).0 == restarting(begin_stop(s).0),
{
}

/// One step of a restart, held against the same step of a stop.
///
/// Take a stop in flight and the restart in the same position, and give both the same
/// outcome. Where the stop goes on, the restart asks for the same work. Where the stop
/// fails, the restart ends with the same failure in the same state, and begins no start.
/// Where the stop succeeds, the restart does what a start begun in the stopped state does.
pub proof fn lemma_restart_step(s: BackendView, e: EventView)
    requires
        s.phase == (Phase::Killing { restart: false }) || s.phase == (Phase::Waiting {
            restart: false,
        }),
    ensures
        ({
            let stop = advance_spec(s, e);
            let restart = advance_spec(restarting(s), e);
            match stop.1 {
                ActionView::Done(Ok(_)) => restart == begin_start(stop.0),
                ActionView::Done(Err(_)) => restart == stop,
                _ => restart.1 == stop.1 && restart.0 == restarting(stop.0) && (stop.0.phase
                    == (Phase::Killing { restart: false }) || stop.0.phase == (Phase::Waiting {
                    restart: false,
                })),
            }
        }),
{
}

/// Where an operation stands once the host has answered with the outcomes `events`, in
/// order, as far as the operation asked for them: the state, the action last given, and
/// the outcomes that were not taken because the operation had ended.
pub open spec fn carried_out(s: BackendView, action: ActionView, events: Seq<EventView>) -> (
    BackendView,
    ActionView,
    Seq<EventView>,
)
    decreases events.len(),
{
    if action is Done || events.len() == 0 {
        (s, action, events)
    } else {
        let next = advance_spec(s, events[0]);
        carried_out(next.0, next.1, events.drop_first())
    }
}

proof fn lemma_restart_run_from(s: BackendView, action: ActionView, events: Seq<EventView>)
    requires
        s.phase == (Phase::Killing { restart: false }) || s.phase == (Phase::Waiting {
            restart: false,
        }),
        !(action is Done),
    ensures
        ({
            let stop = carried_out(s, action, events);
            let restart = carried_out(restarting(s), action, events);
            match stop.1 {
                ActionView::Done(Ok(_)) => restart == carried_out(
                    begin_start(stop.0).0,
                    begin_start(stop.0).1,
                    stop.2,
                ),
                ActionView::Done(Err(_)) => restart == stop,
                _ => restart.1 == stop.1 && restart.2 == stop.2,
            }
        }),
    decreases events.len(),
{
    if events.len() > 0 {
        let rest = events.drop_first();
        let stop = advance_spec(s, events[0]);
        let restart = advance_spec(restarting(s), events[0]);
        lemma_restart_step(s, events[0]);
        assert(carried_out(s, action, events) == carried_out(stop.0, stop.1, rest));
        assert(carried_out(restarting(s), action, events) == carried_out(
            restart.0,
            restart.1,
            rest,
        ));
        if stop.1 is Done {
            assert(carried_out(stop.0, stop.1, rest) == (stop.0, stop.1, rest));
        } else {
            lemma_restart_run_from(stop.0, stop.1, rest);
        }
    }
}

/// A restart is a stop followed, after its success and only then, by a start.
///
/// Let a stop and a restart begin in the same state and let the host answer both with the
/// same outcomes. Where the stop fails, the restart has ended with the same failure, in
/// the same state, having taken the same outcomes: no start was begun. Where the stop
/// succeeds, the restart stands where a start stands that was begun in the state the stop
/// left and answered with the outcomes the stop did not take. Where the outcomes end
/// before the stop does, both wait for the same work.
pub proof fn lemma_restart_is_stop_then_start(s: BackendView, events: Seq<EventView>)
    ensures
        ({
            let stop = carried_out(begin_stop(s).0, begin_stop(s).1, events);
            let restart = carried_out(begin_restart(s).0, begin_restart(s).1, events);
            match stop.1 {
                ActionView::Done(Ok(_)) => restart == carried_out(
                    begin_start(stop.0).0,
                    begin_start(stop.0).1,
                    stop.2,
                ),
                ActionView::Done(Err(_)) => restart == stop,
                _ => restart.1 == stop.1 && restart.2 == stop.2,
            }
        }),
{
    if s.process is Some {
        lemma_restart_begins_as_stop(s);
        lemma_restart_run_from(begin_stop(s).0, begin_stop(s).1, events);
    } else {
        lemma_restart_of_stopped(s);
    }
}

/// Between two replacements of the worker its output only grows: along a run that never
/// asks for the worker to be stopped, begun with a worker and no stop in flight, the
/// worker stays, and what had been accumulated when input `i` arrived is a prefix of what
/// has been when input `j` arrives.
pub proof fn lemma_output_grows(s: BackendView, inputs: Seq<Input>, i: int, j: int)
    requires
        s.process is Some,
        !stopping(s.phase),
        without_stop(inputs),
        0 <= i <= j <= inputs.len(),
    ensures
        state_at(s, inputs, i).process is Some,
        state_at(s, inputs, j).process is Some,
        !stopping(state_at(s, inputs, j).phase),
        state_at(s, inputs, j).process->0.pid == state_at(s, inputs, i).process->0.pid,
        state_at(s, inputs, i).process->0.stdout.is_prefix_of(
            state_at(s, inputs, j).process->0.stdout,
        ),
        state_at(s, inputs, i).process->0.stderr.is_prefix_of(
            state_at(s, inputs, j).process->0.stderr,
        ),
    decreases j,
{
    if j == 0 {
        assert(inputs.take(0) =~= Seq::<Input>::empty());
    } else if i == j {
        lemma_output_grows(s, inputs, 0, j - 1);
        lemma_state_at_next(s, inputs, j - 1);
    } else {
        lemma_output_grows(s, inputs, i, j - 1);
        lemma_state_at_next(s, inputs, j - 1);
    }
}

/// Along a run that never asks for the worker to be stopped, begun while no stop is in
/// flight, none comes to be in flight, whether a worker runs or not.
pub proof fn lemma_never_stopping(s: BackendView, inputs: Seq<Input>, i: int)
    requires
        !stopping(s.phase),
        without_stop(inputs),
        0 <= i <= inputs.len(),
    ensures
        !stopping(state_at(s, inputs, i).phase),
    decreases i,
{
    if i == 0 {
        assert(inputs.take(0) =~= Seq::<Input>::empty());
    } else {
        lemma_never_stopping(s, inputs, i - 1);
        lemma_state_at_next(s, inputs, i - 1);
    }
}

/// An output query answers with the accumulation as it leaves it.
pub proof fn lemma_reply_is_accumulation(s: BackendView, input: Input)
    ensures
        forall|text: Seq<char>|
            step(s, input).1 == ActionView::Done(Ok(ReplyView::Stdout(text))) ==> s.process
                is Some && step(s, input).0.process is Some && step(
                s,
                input,
            ).0.process->0.stdout == text && s.process->0.stdout.is_prefix_of(text),
        forall|text: Seq<char>|
            step(s, input).1 == ActionView::Done(Ok(ReplyView::Stderr(text))) ==> s.process
                is Some && step(s, input).0.process is Some && step(
                s,
                input,
            ).0.process->0.stderr == text && s.process->0.stderr.is_prefix_of(text),
{
}

/// Output queries are monotonic: of two standard output queries answered along a run
/// that never asks for the worker to be stopped, the text given first is a prefix of the
/// text given later; and so for standard error. Starts may come between them, and the
/// worker may keep writing.
pub proof fn lemma_queries_monotonic(s: BackendView, inputs: Seq<Input>, i: int, j: int)
    requires
        !stopping(s.phase),
        without_stop(inputs),
        0 <= i <= j < inputs.len(),
    ensures
        forall|a: Seq<char>, b: Seq<char>|
            action_at(s, inputs, i) == ActionView::Done(Ok(ReplyView::Stdout(a))) && action_at(
                s,
                inputs,
                j,
            ) == ActionView::Done(Ok(ReplyView::Stdout(b))) ==> a.is_prefix_of(b),
        forall|a: Seq<char>, b: Seq<char>|
            action_at(s, inputs, i) == ActionView::Done(Ok(ReplyView::Stderr(a))) && action_at(
                s,
                inputs,
                j,
            ) == ActionView::Done(Ok(ReplyView::Stderr(b))) ==> a.is_prefix_of(b),
{
    let si = state_at(s, inputs, i);
    let sj = state_at(s, inputs, j);
    lemma_never_stopping(s, inputs, i);
    lemma_reply_is_accumulation(si, inputs[i]);
    lemma_reply_is_accumulation(sj, inputs[j]);
    lemma_state_at_next(s, inputs, i);
    if si.process is Some && i < j {
        let rest = inputs.skip(i);
        assert(without_stop(rest)) by {
            assert forall|k: int| 0 <= k < rest.len() implies !(rest[k] is Stop) && !(
            rest[k] is Restart) by {
                assert(rest[k] == inputs[i + k]);
            }
        }
        lemma_output_grows(si, rest, 1, j - i);
        lemma_state_at_split(s, inputs, i, i + 1);
        lemma_state_at_split(s, inputs, i, j);
    }
}

/// A status query never changes the lifecycle: along a run without start, stop or
/// restart, begun while none of them is in flight, none of them comes to be in flight, and
/// a worker runs at the end exactly if one ran at the beginning.
pub proof fn lemma_phase_stays_query(s: BackendView, inputs: Seq<Input>, i: int)
    requires
        !starting(s.phase),
        !stopping(s.phase),
        queries_only(inputs),
        0 <= i <= inputs.len(),
    ensures
        !starting(state_at(s, inputs, i).phase),
        !stopping(state_at(s, inputs, i).phase),
        state_at(s, inputs, i).process is Some == (s.process is Some),
        s.process is Some ==> state_at(s, inputs, i).process->0.pid == s.process->0.pid,
    decreases i,
{
    if i == 0 {
        assert(inputs.take(0) =~= Seq::<Input>::empty());
    } else {
        lemma_phase_stays_query(s, inputs, i - 1);
        lemma_state_at_next(s, inputs, i - 1);
    }
}

} // verus!
