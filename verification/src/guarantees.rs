//! What holds of the supervisor as a whole: statements that relate several
//! operations, proved from their definitions.

use vstd::prelude::*;
use crate::clock::{settled, ClockDomain};
use crate::command::{addresses, is_terminal, ActionModel, CommandModel, PipelineSpecModel};
use crate::controller::{ControllerActionModel, ControllerModel, StartupStep, SETTLE_MILLIS};
use crate::instance::{GraphMessage, InstanceModel, Phase, ProbeVerdict, SourceEvent};

verus! {

/// The instances after the bus delivered the command to the command task
/// of each.
pub open spec fn delivered(fleet: Seq<InstanceModel>, cmd: CommandModel) -> Seq<InstanceModel> {
    Seq::new(fleet.len(), |i: int| fleet[i].after_command(cmd))
}

/// The names of the specs.
pub open spec fn names_of(specs: Seq<PipelineSpecModel>) -> Seq<Seq<char>> {
    Seq::new(specs.len(), |i: int| specs[i].name)
}

/// Specs that a controller lets in one after the other: each describes a
/// graph, and no name occurs twice among them or is live already.
pub open spec fn admissible(m: ControllerModel, specs: Seq<PipelineSpecModel>) -> bool {
    &&& m.accepting
    &&& specs.len() <= usize::MAX
    &&& forall|i: int| 0 <= i < specs.len() ==> (#[trigger] specs[i]).description.len() > 0
    &&& forall|i: int| 0 <= i < specs.len() ==> !m.live.contains((#[trigger] specs[i]).name)
    &&& forall|i: int, j: int|
        0 <= i < j < specs.len() ==> (#[trigger] specs[i]).name != (#[trigger] specs[j]).name
}

/// A controller that is asked to bring up specs with distinct, fresh names
/// launches every one of them, in their order, each followed by the
/// settling interval, and then holds exactly their names besides those it
/// held before.
pub proof fn distinct_specs_are_all_launched(m: ControllerModel, specs: Seq<PipelineSpecModel>)
    requires
        m.wf(),
        admissible(m, specs),
    ensures
        m.after_startup(specs).wf(),
        m.after_startup(specs).accepting,
        m.after_startup(specs).live == m.live + names_of(specs),
        m.startup_steps(specs).len() == 2 * specs.len(),
        forall|i: int|
            0 <= i < specs.len() ==> {
                &&& #[trigger] m.startup_steps(specs)[2 * i] == StartupStep::Launch(i as usize)
                &&& m.startup_steps(specs)[2 * i + 1] == StartupStep::Settle(SETTLE_MILLIS)
            },
    decreases specs.len(),
{
    if specs.len() == 0 {
        assert(m.live + names_of(specs) =~= m.live);
    } else {
        let front = specs.drop_last();
        let last = specs.last();
        assert forall|i: int| 0 <= i < front.len() implies (#[trigger] front[i]).description.len()
            > 0 && !m.live.contains(front[i].name) by {
            assert(front[i] == specs[i]);
        }
        assert forall|i: int, j: int| 0 <= i < j < front.len() implies (#[trigger] front[i]).name
            != (#[trigger] front[j]).name by {
            assert(front[i] == specs[i]);
            assert(front[j] == specs[j]);
        }
        distinct_specs_are_all_launched(m, front);
        let before = m.after_startup(front);
        assert(!before.live.contains(last.name)) by {
            if before.live.contains(last.name) {
                let k = choose|k: int| 0 <= k < before.live.len() && before.live[k] == last.name;
                if k < m.live.len() {
                    assert(m.live[k] == last.name);
                    assert(m.live.contains(last.name));
                    assert(specs[specs.len() - 1] == last);
                } else {
                    let j = k - m.live.len();
                    assert(names_of(front)[j] == front[j].name);
                    assert(front[j] == specs[j]);
                    assert(specs[specs.len() - 1] == last);
                }
            }
        }
        assert(specs[specs.len() - 1] == last);
        assert(before.verdict(last).is_ok());
        let after = before.enrolled(last);
        assert(after.live =~= m.live + names_of(specs));
        assert(after.live.no_duplicates()) by {
            assert forall|a: int, b: int| 0 <= a < b < after.live.len() implies after.live[a]
                != after.live[b] by {
                if b < before.live.len() {
                    assert(before.live[a] != before.live[b]);
                } else {
                    assert(before.live[a] == after.live[a]);
                    assert(before.live.contains(before.live[a]));
                }
            }
        }
        let steps = m.startup_steps(specs);
        let index = (specs.len() - 1) as usize;
        assert(steps == m.startup_steps(front) + seq![
            StartupStep::Launch(index),
            StartupStep::Settle(SETTLE_MILLIS),
        ]);
        assert forall|i: int| 0 <= i < specs.len() implies {
            &&& #[trigger] steps[2 * i] == StartupStep::Launch(i as usize)
            &&& steps[2 * i + 1] == StartupStep::Settle(SETTLE_MILLIS)
        } by {
            if i < front.len() {
                assert(m.startup_steps(front)[2 * i] == StartupStep::Launch(i as usize));
            }
        }
    }
}

/// Additions with distinct, fresh names all succeed: after any number of
/// them the next one is launched too.
pub proof fn distinct_additions_all_succeed(
    m: ControllerModel,
    specs: Seq<PipelineSpecModel>,
    i: int,
)
    requires
        m.wf(),
        admissible(m, specs),
        0 <= i < specs.len(),
    ensures
        m.after_startup(specs.take(i)).action(Some(CommandModel::AddPipeline(specs[i])))
            == ControllerActionModel::Launch(specs[i]),
        m.after_startup(specs.take(i)).after_receive(Some(CommandModel::AddPipeline(specs[i])))
            == m.after_startup(specs.take(i + 1)),
{
    let front = specs.take(i + 1);
    assert forall|a: int| 0 <= a < front.len() implies (#[trigger] front[a]).description.len() > 0
        && !m.live.contains(front[a].name) by {
        assert(front[a] == specs[a]);
    }
    assert forall|a: int, b: int| 0 <= a < b < front.len() implies (#[trigger] front[a]).name
        != (#[trigger] front[b]).name by {
        assert(front[a] == specs[a]);
        assert(front[b] == specs[b]);
    }
    distinct_specs_are_all_launched(m, front);
    assert(front.drop_last() =~= specs.take(i));
    assert(front.last() == specs[i]);
    let before = m.after_startup(specs.take(i));
    let after = m.after_startup(front);
    assert(after == before.enrolled(specs[i]));
    assert(after.live.len() == m.live.len() + i + 1) by {
        assert(names_of(front).len() == i + 1);
    }
    assert forall|a: int| 0 <= a < specs.take(i).len() implies (#[trigger] specs.take(
        i,
    )[a]).description.len() > 0 && !m.live.contains(specs.take(i)[a].name) by {
        assert(specs.take(i)[a] == specs[a]);
    }
    assert forall|a: int, b: int| 0 <= a < b < specs.take(i).len() implies (#[trigger] specs.take(
        i,
    )[a]).name != (#[trigger] specs.take(i)[b]).name by {
        assert(specs.take(i)[a] == specs[a]);
        assert(specs.take(i)[b] == specs[b]);
    }
    distinct_specs_are_all_launched(m, specs.take(i));
    assert(before.live.len() == m.live.len() + i) by {
        assert(names_of(specs.take(i)).len() == i);
    }
    assert(before.verdict(specs[i]).is_ok());
}

/// No command is dispatched to an instance before it plays: an instance
/// that has not been started ignores every command, and a start that the
/// engine accepts takes it to `Playing` with both tasks at work.
pub proof fn playing_comes_before_dispatch(m: InstanceModel, cmd: CommandModel)
    requires
        m.wf(),
        m.phase == Phase::Created,
    ensures
        m.after_command(cmd) == m,
        m.directive(cmd).action == ActionModel::Nothing,
        m.started(true).phase == Phase::Playing,
        m.started(true).command_task_live,
        m.started(true).wf(),
{
}

/// `StopPipeline` stops the instances it names and no other: a named
/// instance whose command task runs is marked as stopped by the operator,
/// is sent end-of-stream, and is `Stopped` once that end-of-stream has come
/// through its graph; every instance that is not named stays exactly as it
/// was and asks nothing of its graph.
pub proof fn stop_reaches_only_the_named(
    fleet: Seq<InstanceModel>,
    names: Seq<Seq<char>>,
    i: int,
)
    requires
        0 <= i < fleet.len(),
        fleet[i].wf(),
    ensures
        ({
            let cmd = CommandModel::StopPipeline(names);
            let after = delivered(fleet, cmd)[i];
            &&& after.wf()
            &&& !names.contains(fleet[i].name) ==> after == fleet[i] && (fleet[i].command_task_live
                ==> fleet[i].directive(cmd).action == ActionModel::Nothing
                && !fleet[i].directive(cmd).terminate)
            &&& names.contains(fleet[i].name) && fleet[i].command_task_live ==> {
                &&& after.stopped_by_operator
                &&& !after.command_task_live
                &&& fleet[i].directive(cmd).action == ActionModel::SignalEos
                &&& fleet[i].directive(cmd).terminate
                &&& after.after_message(GraphMessage::Eos).phase == Phase::Stopped
                &&& after.after_message(GraphMessage::Eos).finished()
            }
        }),
{
}

/// `Exit` stops every instance: whatever its name, an instance whose
/// command task runs is sent end-of-stream and marked as stopped by the
/// operator, and has finished once that end-of-stream has come through its
/// graph.
pub proof fn exit_stops_every_instance(fleet: Seq<InstanceModel>, i: int)
    requires
        0 <= i < fleet.len(),
        fleet[i].wf(),
        fleet[i].command_task_live,
    ensures
        ({
            let after = delivered(fleet, CommandModel::Exit)[i];
            &&& after.wf()
            &&& after.stopped_by_operator
            &&& fleet[i].directive(CommandModel::Exit).action == ActionModel::SignalEos
            &&& fleet[i].directive(CommandModel::Exit).terminate
            &&& after.after_message(GraphMessage::Eos).finished()
        }),
{
}

/// The controller after the instances of the given names finished, one
/// after the other.
pub open spec fn retired_all(m: ControllerModel, names: Seq<Seq<char>>) -> ControllerModel
    decreases names.len(),
{
    if names.len() == 0 {
        m
    } else {
        retired_all(m, names.drop_last()).retired(names.last())
    }
}

/// Retiring a name takes that name out and keeps every other.
pub proof fn retiring_removes_one_name(m: ControllerModel, name: Seq<char>)
    requires
        m.wf(),
    ensures
        m.retired(name).wf(),
        m.retired(name).accepting == m.accepting,
        forall|x: Seq<char>| #[trigger]
            m.retired(name).live.contains(x) <==> m.live.contains(x) && x != name,
{
    if m.live.contains(name) {
        let k = m.live.index_of(name);
        let rest = m.live.remove(k);
        assert(m.live[k] == name);
        assert forall|a: int, b: int| 0 <= a < b < rest.len() implies rest[a] != rest[b] by {
            let a2 = if a < k { a } else { a + 1 };
            let b2 = if b < k { b } else { b + 1 };
            assert(m.live[a2] != m.live[b2]);
        }
        assert forall|x: Seq<char>| #[trigger] rest.contains(x) <==> m.live.contains(x) && x
            != name by {
            if rest.contains(x) {
                let a = choose|a: int| 0 <= a < rest.len() && rest[a] == x;
                let a2 = if a < k { a } else { a + 1 };
                assert(m.live[a2] == x);
            }
            if m.live.contains(x) && x != name {
                let a = choose|a: int| 0 <= a < m.live.len() && m.live[a] == x;
                let a2 = if a < k { a } else { a - 1 };
                assert(rest[a2] == x);
            }
        }
    }
}

/// Once the bus is gone and every live instance has finished, in whatever
/// order, the controller ends the event loop of the process.
pub proof fn wait_ends_when_all_finished(m: ControllerModel, names: Seq<Seq<char>>)
    requires
        m.wf(),
        forall|x: Seq<char>| m.live.contains(x) ==> names.contains(x),
    ensures
        retired_all(m.closed(), names).may_quit(),
{
    remaining_after_retiring(m.closed(), names);
    let end = retired_all(m.closed(), names);
    if end.live.len() > 0 {
        assert(end.live.contains(end.live[0]));
    }
}

/// After the instances of the given names finished, exactly the other
/// names are live.
pub proof fn remaining_after_retiring(m: ControllerModel, names: Seq<Seq<char>>)
    requires
        m.wf(),
    ensures
        retired_all(m, names).wf(),
        retired_all(m, names).accepting == m.accepting,
        forall|x: Seq<char>| #[trigger]
            retired_all(m, names).live.contains(x) <==> m.live.contains(x) && !names.contains(x),
    decreases names.len(),
{
    if names.len() > 0 {
        let front = names.drop_last();
        remaining_after_retiring(m, front);
        let before = retired_all(m, front);
        retiring_removes_one_name(before, names.last());
        assert forall|x: Seq<char>| #[trigger]
            retired_all(m, names).live.contains(x) <==> m.live.contains(x) && !names.contains(
                x,
            ) by {
            if names.contains(x) {
                let a = choose|a: int| 0 <= a < names.len() && names[a] == x;
                if a < front.len() {
                    assert(front[a] == x);
                    assert(front.contains(x));
                }
            }
            if front.contains(x) {
                let a = choose|a: int| 0 <= a < front.len() && front[a] == x;
                assert(names[a] == x);
            }
            assert(names[names.len() - 1] == names.last());
        }
    }
}

/// End-of-stream on a re-entrant source of a playing instance is kept from
/// travelling on and the source is restarted, while the instance stays as
/// it is. Once the operator has asked for a stop, the same event is let
/// through, and when it has come through the graph the instance is
/// `Stopped`.
pub proof fn source_eos_restarts_until_operator_stops(m: InstanceModel)
    requires
        m.wf(),
        m.monitor_task_live,
    ensures
        !m.stopped_by_operator ==> m.verdict(SourceEvent::Eos) == ProbeVerdict::SuppressAndRestart
            && m.phase == Phase::Playing,
        m.stopped_by_operator ==> m.verdict(SourceEvent::Eos) == ProbeVerdict::Forward
            && m.after_message(GraphMessage::Eos).phase == Phase::Stopped,
{
}

/// The operator's stop flag is never reset, and a stopped instance never
/// plays again: no command and no message of the graph undoes them.
pub proof fn stop_flag_is_monotonic(m: InstanceModel, cmd: CommandModel, msg: GraphMessage)
    requires
        m.wf(),
    ensures
        m.after_command(cmd).wf(),
        m.after_message(msg).wf(),
        m.stopped_by_operator ==> m.after_command(cmd).stopped_by_operator && m.after_message(
            msg,
        ).stopped_by_operator,
        m.phase == Phase::Stopped ==> m.after_command(cmd).phase == Phase::Stopped
            && m.after_message(msg).phase == Phase::Stopped,
{
}

/// What can happen to an instance: an attempt to start it, a command or the
/// shutdown signal in its command task, a message of the graph in its
/// monitor task.
pub ghost enum InstanceEvent {
    Start(bool),
    Command(CommandModel),
    Shutdown,
    Message(GraphMessage),
}

/// The instance after the event.
pub open spec fn after_event(m: InstanceModel, event: InstanceEvent) -> InstanceModel {
    match event {
        InstanceEvent::Start(accepted) => m.started(accepted),
        InstanceEvent::Command(cmd) => m.after_command(cmd),
        InstanceEvent::Shutdown => m.after_command(CommandModel::Exit),
        InstanceEvent::Message(msg) => m.after_message(msg),
    }
}

/// The instance after the events, in their order.
pub open spec fn after_events(m: InstanceModel, events: Seq<InstanceEvent>) -> InstanceModel
    decreases events.len(),
{
    if events.len() == 0 {
        m
    } else {
        after_event(after_events(m, events.drop_last()), events.last())
    }
}

/// Whatever happens to an instance, in whatever order the two tasks take
/// their turns: it keeps its name and stays in one of the states an
/// instance can be in, the operator's stop flag stays set once it is set,
/// an instance that is `Stopped` stays so, and an instance that has
/// finished never changes again.
pub proof fn instance_invariants_hold_throughout(m: InstanceModel, events: Seq<InstanceEvent>)
    requires
        m.wf(),
    ensures
        after_events(m, events).wf(),
        after_events(m, events).name == m.name,
        m.stopped_by_operator ==> after_events(m, events).stopped_by_operator,
        m.phase == Phase::Stopped ==> after_events(m, events).phase == Phase::Stopped,
        m.finished() ==> after_events(m, events) == m,
    decreases events.len(),
{
    if events.len() > 0 {
        instance_invariants_hold_throughout(m, events.drop_last());
    }
}

/// Until an instance is started nothing happens to it: commands, the
/// shutdown signal and messages leave a fresh instance as it is.
pub proof fn nothing_happens_before_start(m: InstanceModel, events: Seq<InstanceEvent>)
    requires
        m.wf(),
        m.phase == Phase::Created,
        forall|i: int| 0 <= i < events.len() ==> !((#[trigger] events[i]) is Start),
    ensures
        after_events(m, events) == m,
    decreases events.len(),
{
    if events.len() > 0 {
        let front = events.drop_last();
        assert forall|i: int| 0 <= i < front.len() implies !((#[trigger] front[i]) is Start) by {
            assert(front[i] == events[i]);
        }
        nothing_happens_before_start(m, front);
        assert(events[events.len() - 1] == events.last());
    }
}

/// A latency directive leaves the instance as it is, so that a latency
/// query for the same pipeline that follows it is dispatched: it asks the
/// graph, or the element it names, for its latency, and the command task
/// goes on.
pub proof fn latency_query_follows_directive(
    m: InstanceModel,
    set_element: Option<Seq<char>>,
    latency_ms: u64,
    get_element: Option<Seq<char>>,
)
    requires
        m.wf(),
        m.command_task_live,
    ensures
        ({
            let set = CommandModel::SetLatency {
                pipeline: m.name,
                element: set_element,
                latency_ms,
            };
            let get = CommandModel::GetLatency { pipeline: m.name, element: get_element };
            &&& m.directive(set).action == ActionModel::SendLatency {
                element: set_element,
                latency_ms,
            }
            &&& m.after_command(set) == m
            &&& m.after_command(set).directive(get).action == ActionModel::QueryLatency {
                element: get_element,
            }
            &&& !m.after_command(set).directive(get).terminate
            &&& m.after_command(set).after_command(get) == m
        }),
{
}

/// A command that is meant for none of the instances changes none of them,
/// asks nothing of any graph, and, unless it adds a pipeline, leaves the
/// controller as it is. Delivering it again changes nothing either.
pub proof fn unaddressed_command_changes_nothing(
    fleet: Seq<InstanceModel>,
    controller: ControllerModel,
    cmd: CommandModel,
)
    requires
        forall|i: int| 0 <= i < fleet.len() ==> !addresses(cmd, (#[trigger] fleet[i]).name),
    ensures
        delivered(fleet, cmd) == fleet,
        delivered(delivered(fleet, cmd), cmd) == fleet,
        forall|i: int|
            0 <= i < fleet.len() ==> (#[trigger] fleet[i]).directive(cmd).action
                == ActionModel::Nothing,
        !(cmd is AddPipeline) ==> controller.after_receive(Some(cmd)) == controller
            && controller.action(Some(cmd)) == ControllerActionModel::Ignore,
{
    assert forall|i: int| 0 <= i < fleet.len() implies !is_terminal(
        cmd,
        (#[trigger] fleet[i]).name,
    ) by {}
    assert(delivered(fleet, cmd) =~= fleet);
}

/// What a cell holds after it was asked for its domain once for each of
/// the first `n` readings.
pub open spec fn settled_through(
    held: Option<ClockDomain>,
    readings: Seq<Option<u64>>,
    n: int,
) -> Option<ClockDomain>
    decreases n,
{
    if n <= 0 {
        held
    } else {
        settled(settled_through(held, readings, n - 1), readings[n - 1])
    }
}

/// All pipelines observe one base time: once the first request has set the
/// domain up, every later request finds that same domain, whatever the
/// readings of the later callers.
pub proof fn all_requests_see_one_domain(
    held: Option<ClockDomain>,
    readings: Seq<Option<u64>>,
    n: int,
)
    requires
        1 <= n <= readings.len(),
        held.is_some() || readings[0].is_some(),
    ensures
        settled_through(held, readings, n).is_some(),
        settled_through(held, readings, n) == settled_through(held, readings, 1),
    decreases n,
{
    assert(settled_through(held, readings, 0) == held);
    if n > 1 {
        all_requests_see_one_domain(held, readings, n - 1);
    }
}

} // verus!
