//! The control state of one pipeline instance, and how its two tasks move
//! it: the command task, which dispatches operator commands, and the monitor
//! task, which follows the events of the graph.

use vstd::prelude::*;
use crate::command::{action_for, is_terminal, ActionModel, Command, CommandModel, GraphAction};

verus! {

/// Where an instance is in its life.
#[derive(Clone, Copy, Debug, PartialEq, Eq, Structural)]
pub enum Phase {
    /// Built, not started yet.
    Created,
    /// The graph runs; both tasks are at work.
    Playing,
    /// The operator asked for a stop; end-of-stream travels through the graph.
    Stopping,
    /// The graph is shut down.
    Stopped,
}

/// What a re-entrant source sends down its primary output.
#[derive(Clone, Copy, Debug, PartialEq, Eq, Structural)]
pub enum SourceEvent {
    Eos,
    Latency,
    Other,
}

/// What the observer on a re-entrant source does with an event.
#[derive(Clone, Copy, Debug, PartialEq, Eq, Structural)]
pub enum ProbeVerdict {
    /// Let the event through and skip the remaining observers.
    Pass,
    /// Let the event through unmodified.
    Forward,
    /// Keep the event from travelling on, and restart the source once.
    SuppressAndRestart,
}

/// What the graph puts on its message stream.
#[derive(Clone, Copy, Debug, PartialEq, Eq, Structural)]
pub enum GraphMessage {
    Eos,
    Error,
    Latency,
    Other,
}

/// What the monitor task does about a message of the graph.
#[derive(Clone, Copy, Debug, PartialEq, Eq, Structural)]
pub enum MonitorAction {
    /// Shut the graph down and end the monitor task.
    ShutDownGraph,
    /// Log the error and go on.
    LogError,
    /// Query and log the latency, have the graph recompute it, and go on.
    ReportAndRecalculateLatency,
    /// Go on.
    Ignore,
}

/// Why an instance did not start.
#[derive(Clone, Copy, Debug, PartialEq, Eq, Structural)]
pub enum StartError {
    /// The engine refused to enter the playing state.
    StateTransition,
    /// The instance had been started before.
    AlreadyStarted,
}

/// What the command task does next.
#[derive(Clone, Debug, PartialEq, Eq)]
pub struct Directive {
    /// What to ask of the graph.
    pub action: GraphAction,
    /// Whether the command task ends.
    pub terminate: bool,
}

/// Mathematical value of a [`Directive`].
pub ghost struct DirectiveModel {
    pub action: ActionModel,
    pub terminate: bool,
}

impl View for Directive {
    type V = DirectiveModel;

    open spec fn view(&self) -> DirectiveModel {
        DirectiveModel { action: self.action@, terminate: self.terminate }
    }
}

/// Mathematical value of an [`Instance`].
pub ghost struct InstanceModel {
    pub name: Seq<char>,
    pub phase: Phase,
    pub stopped_by_operator: bool,
    pub command_task_live: bool,
    pub monitor_task_live: bool,
}

impl InstanceModel {
    /// The states an instance can be in. The tasks run only once the
    /// instance has started; the command task lives exactly until the
    /// operator's stop, the monitor task exactly until the graph is shut
    /// down.
    pub open spec fn wf(self) -> bool {
        match self.phase {
            Phase::Created => !self.stopped_by_operator && !self.command_task_live
                && !self.monitor_task_live,
            Phase::Playing => !self.stopped_by_operator && self.command_task_live
                && self.monitor_task_live,
            Phase::Stopping => self.stopped_by_operator && !self.command_task_live
                && self.monitor_task_live,
            Phase::Stopped => !self.monitor_task_live && !(self.stopped_by_operator
                && self.command_task_live),
        }
    }

    /// A fresh instance of the given name.
    pub open spec fn fresh(name: Seq<char>) -> InstanceModel {
        InstanceModel {
            name,
            phase: Phase::Created,
            stopped_by_operator: false,
            command_task_live: false,
            monitor_task_live: false,
        }
    }

    /// The instance after an attempt to start it, which the engine accepted
    /// or refused.
    pub open spec fn started(self, accepted: bool) -> InstanceModel {
        if self.phase != Phase::Created {
            self
        } else if accepted {
            InstanceModel {
                phase: Phase::Playing,
                command_task_live: true,
                monitor_task_live: true,
                ..self
            }
        } else {
            InstanceModel { phase: Phase::Stopped, ..self }
        }
    }

    /// The instance after the operator's stop reached its command task.
    pub open spec fn stopped(self) -> InstanceModel {
        InstanceModel {
            phase: if self.phase == Phase::Playing {
                Phase::Stopping
            } else {
                self.phase
            },
            stopped_by_operator: true,
            command_task_live: false,
            ..self
        }
    }

    /// The instance after its command task received the command.
    pub open spec fn after_command(self, cmd: CommandModel) -> InstanceModel {
        if self.command_task_live && is_terminal(cmd, self.name) {
            self.stopped()
        } else {
            self
        }
    }

    /// What the command task does on the command.
    pub open spec fn directive(self, cmd: CommandModel) -> DirectiveModel {
        if self.command_task_live {
            DirectiveModel {
                action: action_for(cmd, self.name),
                terminate: is_terminal(cmd, self.name),
            }
        } else {
            DirectiveModel { action: ActionModel::Nothing, terminate: true }
        }
    }

    /// The instance after one round of its command task, in which the
    /// shutdown signal had fired or not, and a command was ready or not.
    /// The shutdown signal goes first.
    pub open spec fn after_round(self, shutdown: bool, cmd: Option<CommandModel>) -> InstanceModel {
        if shutdown {
            self.after_command(CommandModel::Exit)
        } else {
            match cmd {
                Some(c) => self.after_command(c),
                None => self,
            }
        }
    }

    /// What the command task does in such a round.
    pub open spec fn round_directive(self, shutdown: bool, cmd: Option<CommandModel>) -> DirectiveModel {
        if shutdown {
            self.directive(CommandModel::Exit)
        } else {
            match cmd {
                Some(c) => self.directive(c),
                None => DirectiveModel {
                    action: ActionModel::Nothing,
                    terminate: !self.command_task_live,
                },
            }
        }
    }

    /// What the observer on a re-entrant source does with an event.
    pub open spec fn verdict(self, event: SourceEvent) -> ProbeVerdict {
        match event {
            SourceEvent::Latency => ProbeVerdict::Pass,
            SourceEvent::Eos => if self.stopped_by_operator {
                ProbeVerdict::Forward
            } else {
                ProbeVerdict::SuppressAndRestart
            },
            SourceEvent::Other => ProbeVerdict::Forward,
        }
    }

    /// The instance after its monitor task read the message.
    pub open spec fn after_message(self, msg: GraphMessage) -> InstanceModel {
        if self.monitor_task_live && msg == GraphMessage::Eos {
            InstanceModel { phase: Phase::Stopped, monitor_task_live: false, ..self }
        } else {
            self
        }
    }

    /// What the monitor task does about the message.
    pub open spec fn monitor_action(self, msg: GraphMessage) -> MonitorAction {
        if !self.monitor_task_live {
            MonitorAction::Ignore
        } else {
            match msg {
                GraphMessage::Eos => MonitorAction::ShutDownGraph,
                GraphMessage::Error => MonitorAction::LogError,
                GraphMessage::Latency => MonitorAction::ReportAndRecalculateLatency,
                GraphMessage::Other => MonitorAction::Ignore,
            }
        }
    }

    /// Whether the instance has started and both its tasks have ended.
    pub open spec fn finished(self) -> bool {
        self.phase != Phase::Created && !self.command_task_live && !self.monitor_task_live
    }
}

/// The control state of one pipeline instance.
#[derive(Debug)]
pub struct Instance {
    name: String,
    phase: Phase,
    stopped_by_operator: bool,
    command_task_live: bool,
    monitor_task_live: bool,
}

impl View for Instance {
    type V = InstanceModel;

    closed spec fn view(&self) -> InstanceModel {
        InstanceModel {
            name: self.name@,
            phase: self.phase,
            stopped_by_operator: self.stopped_by_operator,
            command_task_live: self.command_task_live,
            monitor_task_live: self.monitor_task_live,
        }
    }
}

impl Instance {
    /// A fresh instance of the given name, not started yet.
    pub fn new(name: &String) -> (inst: Instance)
        ensures
            inst@ == InstanceModel::fresh(name@),
            inst@.wf(),
    {
        Instance {
            name: name.clone(),
            phase: Phase::Created,
            stopped_by_operator: false,
            command_task_live: false,
            monitor_task_live: false,
        }
    }

    /// Records the attempt to start the graph, which the engine accepted or
    /// refused. A fresh instance that the engine accepted is playing, with
    /// both tasks at work; one that it refused is stopped and runs no task.
    /// An instance that was started before is left as it is.
    pub fn start(&mut self, accepted: bool) -> (r: Result<(), StartError>)
        requires
            old(self)@.wf(),
        ensures
            final(self)@ == old(self)@.started(accepted),
            final(self)@.wf(),
            r.is_ok() <==> old(self)@.phase == Phase::Created && accepted,
            r == Err::<(), StartError>(StartError::StateTransition) <==> old(self)@.phase
                == Phase::Created && !accepted,
            r == Err::<(), StartError>(StartError::AlreadyStarted) <==> old(self)@.phase
                != Phase::Created,
    {
        if self.phase != Phase::Created {
            return Err(StartError::AlreadyStarted);
        }
        if accepted {
            self.phase = Phase::Playing;
            self.command_task_live = true;
            self.monitor_task_live = true;
            Ok(())
        } else {
            self.phase = Phase::Stopped;
            Err(StartError::StateTransition)
        }
    }

    /// Marks the instance as stopped by the operator and ends its command
    /// task. The flag is never reset.
    fn mark_stopped(&mut self)
        requires
            old(self)@.wf(),
            old(self)@.command_task_live,
        ensures
            final(self)@ == old(self)@.stopped(),
            final(self)@.wf(),
    {
        if self.phase == Phase::Playing {
            self.phase = Phase::Stopping;
        }
        self.stopped_by_operator = true;
        self.command_task_live = false;
    }

    /// Dispatches one command in the command task. A command that is not
    /// meant for this instance changes nothing and asks nothing of the
    /// graph. `StopPipeline` with this instance's name, and `Exit`, signal
    /// end-of-stream, set the operator's stop flag and end the command task.
    /// An instance whose command task does not run dispatches nothing.
    pub fn handle_command(&mut self, cmd: &Command) -> (d: Directive)
        requires
            old(self)@.wf(),
        ensures
            final(self)@ == old(self)@.after_command(cmd@),
            final(self)@.wf(),
            d@ == old(self)@.directive(cmd@),
    {
        if !self.command_task_live {
            return Directive { action: GraphAction::Nothing, terminate: true };
        }
        let action = cmd.action_for(&self.name);
        let terminate = cmd.ends(&self.name);
        if terminate {
            self.mark_stopped();
        }
        Directive { action, terminate }
    }

    /// Reacts to the shutdown signal in the command task, as to `Exit`.
    pub fn handle_shutdown(&mut self) -> (d: Directive)
        requires
            old(self)@.wf(),
        ensures
            final(self)@ == old(self)@.after_command(CommandModel::Exit),
            final(self)@.wf(),
            d@ == old(self)@.directive(CommandModel::Exit),
    {
        self.handle_command(&Command::Exit)
    }

    /// One round of the command task: `shutdown` says whether the shutdown
    /// signal has fired, `cmd` holds the next command if one is ready. Where
    /// both are ready the shutdown signal wins and the command is not
    /// dispatched.
    pub fn command_round(&mut self, shutdown: bool, cmd: Option<&Command>) -> (d: Directive)
        requires
            old(self)@.wf(),
        ensures
            final(self)@ == old(self)@.after_round(shutdown, opt_model(cmd)),
            final(self)@.wf(),
            d@ == old(self)@.round_directive(shutdown, opt_model(cmd)),
    {
        if shutdown {
            return self.handle_shutdown();
        }
        match cmd {
            Some(c) => self.handle_command(c),
            None => Directive { action: GraphAction::Nothing, terminate: !self.command_task_live },
        }
    }

    /// Decides, in the observer on a re-entrant source, what becomes of an
    /// event. End-of-stream is suppressed and the source restarted unless
    /// the operator asked for a stop; then it is let through.
    pub fn on_source_event(&self, event: SourceEvent) -> (v: ProbeVerdict)
        ensures
            v == self@.verdict(event),
    {
        match event {
            SourceEvent::Latency => ProbeVerdict::Pass,
            SourceEvent::Eos => if self.stopped_by_operator {
                ProbeVerdict::Forward
            } else {
                ProbeVerdict::SuppressAndRestart
            },
            SourceEvent::Other => ProbeVerdict::Forward,
        }
    }

    /// Reacts to a message of the graph in the monitor task. End-of-stream
    /// at the level of the whole graph stops the instance and ends the
    /// task; an error and a latency notification leave the state as it is.
    pub fn on_message(&mut self, msg: GraphMessage) -> (a: MonitorAction)
        requires
            old(self)@.wf(),
        ensures
            final(self)@ == old(self)@.after_message(msg),
            final(self)@.wf(),
            a == old(self)@.monitor_action(msg),
    {
        if !self.monitor_task_live {
            return MonitorAction::Ignore;
        }
        match msg {
            GraphMessage::Eos => {
                self.phase = Phase::Stopped;
                self.monitor_task_live = false;
                MonitorAction::ShutDownGraph
            },
            GraphMessage::Error => MonitorAction::LogError,
            GraphMessage::Latency => MonitorAction::ReportAndRecalculateLatency,
            GraphMessage::Other => MonitorAction::Ignore,
        }
    }

    /// Whether the instance has started and both its tasks have ended.
    pub fn is_finished(&self) -> (r: bool)
        ensures
            r == self@.finished(),
    {
        self.phase != Phase::Created && !self.command_task_live && !self.monitor_task_live
    }

    /// The name of the instance.
    pub fn name(&self) -> (r: &String)
        ensures
            r@ == self@.name,
    {
        &self.name
    }

    /// Where the instance is in its life.
    pub fn phase(&self) -> (r: Phase)
        ensures
            r == self@.phase,
    {
        self.phase
    }

    /// Whether the operator asked this instance to stop.
    pub fn stopped_by_operator(&self) -> (r: bool)
        ensures
            r == self@.stopped_by_operator,
    {
        self.stopped_by_operator
    }

    /// Whether the command task runs.
    pub fn command_task_live(&self) -> (r: bool)
        ensures
            r == self@.command_task_live,
    {
        self.command_task_live
    }

    /// Whether the monitor task runs.
    pub fn monitor_task_live(&self) -> (r: bool)
        ensures
            r == self@.monitor_task_live,
    {
        self.monitor_task_live
    }
}

/// The value of a command that may be there.
pub open spec fn opt_model(cmd: Option<&Command>) -> Option<CommandModel> {
    match cmd {
        Some(c) => Some(c@),
        None => None,
    }
}

} // verus!
