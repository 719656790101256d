//! The pipeline controller: which instances it tracks, which it lets in,
//! and when the event loop of the process may end.

use vstd::prelude::*;
use crate::command::{contains_name, texts, Command, CommandModel, PipelineSpec, PipelineSpecModel};

verus! {

/// How long the controller waits after launching a configured pipeline
/// before it launches the next, in milliseconds.
pub const SETTLE_MILLIS: u64 = 1000;

/// Why a pipeline was not let in.
#[derive(Clone, Copy, Debug, PartialEq, Eq, Structural)]
pub enum ConstructionError {
    /// The controller no longer accepts pipelines.
    ShuttingDown,
    /// The graph description holds no token.
    EmptyDescription,
    /// A live instance has the name already.
    DuplicateName,
}

/// One step of bringing up the configured pipelines.
#[derive(Clone, Copy, Debug, PartialEq, Eq, Structural)]
pub enum StartupStep {
    /// Create and start the instance of the spec at this index.
    Launch(usize),
    /// Wait this many milliseconds.
    Settle(u64),
    /// The spec at this index was not let in.
    Reject(usize, ConstructionError),
}

/// What the controller does about what it received from the command bus.
#[derive(Clone, Debug, PartialEq, Eq)]
pub enum ControllerAction {
    /// Create and start an instance of this spec.
    Launch(PipelineSpec),
    /// The pipeline that the command asked for was not let in.
    Reject(ConstructionError),
    /// The command is not for the controller.
    Ignore,
    /// The bus is gone: wait for the live instances to finish.
    AwaitInstances,
}

/// Mathematical value of a [`ControllerAction`].
pub ghost enum ControllerActionModel {
    Launch(PipelineSpecModel),
    Reject(ConstructionError),
    Ignore,
    AwaitInstances,
}

impl View for ControllerAction {
    type V = ControllerActionModel;

    open spec fn view(&self) -> ControllerActionModel {
        match *self {
            ControllerAction::Launch(spec) => ControllerActionModel::Launch(spec@),
            ControllerAction::Reject(e) => ControllerActionModel::Reject(e),
            ControllerAction::Ignore => ControllerActionModel::Ignore,
            ControllerAction::AwaitInstances => ControllerActionModel::AwaitInstances,
        }
    }
}

/// The values of a sequence of pipeline specs.
pub open spec fn spec_models(v: Seq<PipelineSpec>) -> Seq<PipelineSpecModel> {
    Seq::new(v.len(), |i: int| v[i]@)
}

/// Mathematical value of a [`Controller`].
pub ghost struct ControllerModel {
    /// The names of the instances that were let in and have not finished,
    /// in the order in which they came.
    pub live: Seq<Seq<char>>,
    /// Whether further pipelines can be let in.
    pub accepting: bool,
}

impl ControllerModel {
    /// No name is held twice.
    pub open spec fn wf(self) -> bool {
        self.live.no_duplicates()
    }

    /// A controller that holds no instance and accepts pipelines.
    pub open spec fn fresh() -> ControllerModel {
        ControllerModel { live: Seq::empty(), accepting: true }
    }

    /// Whether the spec is let in, and if not, why.
    pub open spec fn verdict(self, spec: PipelineSpecModel) -> Result<(), ConstructionError> {
        if !self.accepting {
            Err(ConstructionError::ShuttingDown)
        } else if spec.description.len() == 0 {
            Err(ConstructionError::EmptyDescription)
        } else if self.live.contains(spec.name) {
            Err(ConstructionError::DuplicateName)
        } else {
            Ok(())
        }
    }

    /// The controller after it was asked to let the spec in.
    pub open spec fn enrolled(self, spec: PipelineSpecModel) -> ControllerModel {
        if self.verdict(spec).is_ok() {
            ControllerModel { live: self.live.push(spec.name), ..self }
        } else {
            self
        }
    }

    /// The controller after the instance of the given name finished.
    pub open spec fn retired(self, name: Seq<char>) -> ControllerModel {
        if self.live.contains(name) {
            ControllerModel { live: self.live.remove(self.live.index_of(name)), ..self }
        } else {
            self
        }
    }

    /// The controller after the command bus went away.
    pub open spec fn closed(self) -> ControllerModel {
        ControllerModel { accepting: false, ..self }
    }

    /// Whether the event loop of the process may end: nothing more can be
    /// let in and every live instance has finished.
    pub open spec fn may_quit(self) -> bool {
        !self.accepting && self.live.len() == 0
    }

    /// The controller after what it received from the command bus: a
    /// command, or nothing because the bus is gone.
    pub open spec fn after_receive(self, received: Option<CommandModel>) -> ControllerModel {
        match received {
            None => self.closed(),
            Some(CommandModel::AddPipeline(spec)) => self.enrolled(spec),
            Some(_) => self,
        }
    }

    /// What the controller does about what it received.
    pub open spec fn action(self, received: Option<CommandModel>) -> ControllerActionModel {
        match received {
            None => ControllerActionModel::AwaitInstances,
            Some(CommandModel::AddPipeline(spec)) => match self.verdict(spec) {
                Ok(_) => ControllerActionModel::Launch(spec),
                Err(e) => ControllerActionModel::Reject(e),
            },
            Some(_) => ControllerActionModel::Ignore,
        }
    }

    /// The controller after it was asked, in order, to let each of the
    /// specs in.
    pub open spec fn after_startup(self, specs: Seq<PipelineSpecModel>) -> ControllerModel
        decreases specs.len(),
    {
        if specs.len() == 0 {
            self
        } else {
            self.after_startup(specs.drop_last()).enrolled(specs.last())
        }
    }

    /// The steps of bringing the specs up in order: a spec that is let in
    /// is launched and followed by the settling interval, one that is not
    /// is rejected.
    pub open spec fn startup_steps(self, specs: Seq<PipelineSpecModel>) -> Seq<StartupStep>
        decreases specs.len(),
    {
        if specs.len() == 0 {
            Seq::empty()
        } else {
            let index = (specs.len() - 1) as usize;
            let before = self.after_startup(specs.drop_last());
            self.startup_steps(specs.drop_last()) + match before.verdict(specs.last()) {
                Ok(_) => seq![StartupStep::Launch(index), StartupStep::Settle(SETTLE_MILLIS)],
                Err(e) => seq![StartupStep::Reject(index, e)],
            }
        }
    }
}

/// The pipeline controller's bookkeeping.
#[derive(Debug)]
pub struct Controller {
    live: Vec<String>,
    accepting: bool,
}

impl View for Controller {
    type V = ControllerModel;

    closed spec fn view(&self) -> ControllerModel {
        ControllerModel { live: texts(self.live@), accepting: self.accepting }
    }
}

impl Controller {
    /// A controller that holds no instance and accepts pipelines.
    pub fn new() -> (c: Controller)
        ensures
            c@ == ControllerModel::fresh(),
            c@.wf(),
    {
        let c = Controller { live: Vec::new(), accepting: true };
        assert(c@.live =~= Seq::empty());
        c
    }

    /// Lets the spec in, or says why not. A spec is let in while the
    /// controller accepts pipelines, if its description holds a token and no
    /// live instance has its name; its name is then held. A spec that
    /// is not let in changes nothing.
    pub fn enroll(&mut self, spec: &PipelineSpec) -> (r: Result<(), ConstructionError>)
        requires
            old(self)@.wf(),
        ensures
            r == old(self)@.verdict(spec@),
            final(self)@ == old(self)@.enrolled(spec@),
            final(self)@.wf(),
    {
        if !self.accepting {
            return Err(ConstructionError::ShuttingDown);
        }
        if spec.description.len() == 0 {
            return Err(ConstructionError::EmptyDescription);
        }
        if contains_name(&self.live, &spec.name) {
            return Err(ConstructionError::DuplicateName);
        }
        self.live.push(spec.name.clone());
        assert(final(self)@.live =~= old(self)@.live.push(spec@.name));
        Ok(())
    }

    /// Plans the bringing up of the configured pipelines, in their order,
    /// and holds the names of those that are let in.
    pub fn plan_startup(&mut self, specs: &Vec<PipelineSpec>) -> (steps: Vec<StartupStep>)
        requires
            old(self)@.wf(),
        ensures
            steps@ == old(self)@.startup_steps(spec_models(specs@)),
            final(self)@ == old(self)@.after_startup(spec_models(specs@)),
            final(self)@.wf(),
    {
        let ghost start = self@;
        let ghost all = spec_models(specs@);
        let mut steps: Vec<StartupStep> = Vec::new();
        let mut i: usize = 0;
        while i < specs.len()
            invariant
                i <= specs.len(),
                all == spec_models(specs@),
                self@.wf(),
                self@ == start.after_startup(all.take(i as int)),
                steps@ == start.startup_steps(all.take(i as int)),
            decreases specs.len() - i,
        {
            proof {
                assert(all.take(i + 1).drop_last() =~= all.take(i as int));
                assert(all.take(i + 1).last() == specs@[i as int]@);
            }
            let ghost prior = steps@;
            match self.enroll(&specs[i]) {
                Ok(_) => {
                    steps.push(StartupStep::Launch(i));
                    steps.push(StartupStep::Settle(SETTLE_MILLIS));
                    assert(steps@ =~= prior + seq![
                        StartupStep::Launch(i),
                        StartupStep::Settle(SETTLE_MILLIS),
                    ]);
                },
                Err(e) => {
                    steps.push(StartupStep::Reject(i, e));
                    assert(steps@ =~= prior + seq![StartupStep::Reject(i, e)]);
                },
            }
            i += 1;
        }
        assert(all.take(i as int) =~= all);
        steps
    }

    /// Reacts to what came from the command bus: a command, or nothing
    /// because the bus is gone. `AddPipeline` asks to let its spec in; no
    /// other command concerns the controller. Once the bus is gone the
    /// controller accepts nothing more.
    pub fn on_receive(&mut self, received: Option<&Command>) -> (a: ControllerAction)
        requires
            old(self)@.wf(),
        ensures
            final(self)@ == old(self)@.after_receive(crate::instance::opt_model(received)),
            final(self)@.wf(),
            a@ == old(self)@.action(crate::instance::opt_model(received)),
    {
        match received {
            None => {
                self.accepting = false;
                ControllerAction::AwaitInstances
            },
            Some(Command::AddPipeline(spec)) => match self.enroll(spec) {
                Ok(_) => ControllerAction::Launch(spec.copy()),
                Err(e) => ControllerAction::Reject(e),
            },
            Some(_) => ControllerAction::Ignore,
        }
    }

    /// Records that the instance of the given name has finished, or could
    /// not be built: its name is held no longer. An unknown name changes
    /// nothing.
    pub fn retire(&mut self, name: &String)
        requires
            old(self)@.wf(),
        ensures
            final(self)@ == old(self)@.retired(name@),
            final(self)@.wf(),
    {
        let mut i: usize = 0;
        while i < self.live.len()
            invariant
                i <= self.live.len(),
                *self == *old(self),
                self@.wf(),
                forall|j: int| 0 <= j < i ==> texts(self.live@)[j] != name@,
            decreases self.live.len() - i,
        {
            if self.live[i] == *name {
                let ghost before = texts(self.live@);
                proof {
                    assert(before[i as int] == name@);
                    let k = before.index_of(name@);
                    assert(before[k] == name@);
                    assert(k == i);
                }
                self.live.remove(i);
                assert(texts(self.live@) =~= before.remove(i as int));
                proof {
                    before.remove_ensures(i as int);
                    assert forall|a: int, b: int|
                        0 <= a < b < before.remove(i as int).len() implies before.remove(
                        i as int,
                    )[a] != before.remove(i as int)[b] by {
                        let a2 = if a < i { a } else { a + 1 };
                        let b2 = if b < i { b } else { b + 1 };
                        assert(before[a2] != before[b2]);
                    }
                }
                return ;
            }
            i += 1;
        }
        assert(!texts(self.live@).contains(name@));
    }

    /// Whether the event loop of the process may end: the bus is gone and
    /// every live instance has finished.
    pub fn should_quit(&self) -> (r: bool)
        ensures
            r == self@.may_quit(),
    {
        !self.accepting && self.live.len() == 0
    }

    /// Whether an instance of the given name is live.
    pub fn is_live(&self, name: &String) -> (r: bool)
        ensures
            r == self@.live.contains(name@),
    {
        contains_name(&self.live, name)
    }

    /// How many instances are live.
    pub fn live_count(&self) -> (n: usize)
        ensures
            n == self@.live.len(),
    {
        self.live.len()
    }

    /// Whether further pipelines can be let in.
    pub fn is_accepting(&self) -> (r: bool)
        ensures
            r == self@.accepting,
    {
        self.accepting
    }
}

} // verus!
