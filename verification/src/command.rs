//! Operator commands and the graph actions they turn into.

use vstd::prelude::*;
use vstd::string::StringExecFns;

verus! {

/// The factory name of the elements that are re-entrant sources.
pub const REENTRANT_SOURCE_KIND: &'static str = "intersrc";

/// The name of the primary output of a re-entrant source.
pub const SOURCE_OUTPUT_PAD: &'static str = "src";

/// The tokens of a graph description as one line, with one space between
/// each two.
pub open spec fn joined(tokens: Seq<Seq<char>>) -> Seq<char>
    decreases tokens.len(),
{
    if tokens.len() == 0 {
        Seq::empty()
    } else if tokens.len() == 1 {
        tokens[0]
    } else {
        joined(tokens.drop_last()) + seq![' '] + tokens.last()
    }
}

/// The texts held by a sequence of strings.
pub open spec fn texts(v: Seq<String>) -> Seq<Seq<char>> {
    Seq::new(v.len(), |i: int| v[i]@)
}

/// The text of an optional string.
pub open spec fn opt_text(s: Option<String>) -> Option<Seq<char>> {
    match s {
        Some(t) => Some(t@),
        None => None,
    }
}

/// What one pipeline is built from: its name and the tokens of its graph
/// description.
#[derive(Clone, Debug, PartialEq, Eq)]
pub struct PipelineSpec {
    pub name: String,
    pub description: Vec<String>,
}

/// Mathematical value of a [`PipelineSpec`].
pub ghost struct PipelineSpecModel {
    pub name: Seq<char>,
    pub description: Seq<Seq<char>>,
}

impl View for PipelineSpec {
    type V = PipelineSpecModel;

    open spec fn view(&self) -> PipelineSpecModel {
        PipelineSpecModel { name: self.name@, description: texts(self.description@) }
    }
}

/// A command of the operator, broadcast to every pipeline instance and to
/// the controller.
#[derive(Clone, Debug, PartialEq, Eq)]
#[allow(inconsistent_fields)]
pub enum Command {
    AddPipeline(PipelineSpec),
    StopPipeline(Vec<String>),
    SetProperty { pipeline: String, element: String, property: String, value: String },
    SwitchPad { pipeline: String, element: String, pad: String },
    PushLatencyEvent { pipeline: String },
    SetLatency { pipeline: String, element: Option<String>, latency_ms: u64 },
    GetLatency { pipeline: String, element: Option<String> },
    Exit,
}

/// Mathematical value of a [`Command`].
#[allow(inconsistent_fields)]
pub ghost enum CommandModel {
    AddPipeline(PipelineSpecModel),
    StopPipeline(Seq<Seq<char>>),
    SetProperty { pipeline: Seq<char>, element: Seq<char>, property: Seq<char>, value: Seq<char> },
    SwitchPad { pipeline: Seq<char>, element: Seq<char>, pad: Seq<char> },
    PushLatencyEvent { pipeline: Seq<char> },
    SetLatency { pipeline: Seq<char>, element: Option<Seq<char>>, latency_ms: u64 },
    GetLatency { pipeline: Seq<char>, element: Option<Seq<char>> },
    Exit,
}

impl View for Command {
    type V = CommandModel;

    open spec fn view(&self) -> CommandModel {
        match *self {
            Command::AddPipeline(spec) => CommandModel::AddPipeline(spec@),
            Command::StopPipeline(names) => CommandModel::StopPipeline(texts(names@)),
            Command::SetProperty { pipeline, element, property, value } => CommandModel::SetProperty {
                pipeline: pipeline@,
                element: element@,
                property: property@,
                value: value@,
            },
            Command::SwitchPad { pipeline, element, pad } => CommandModel::SwitchPad {
                pipeline: pipeline@,
                element: element@,
                pad: pad@,
            },
            Command::PushLatencyEvent { pipeline } => CommandModel::PushLatencyEvent {
                pipeline: pipeline@,
            },
            Command::SetLatency { pipeline, element, latency_ms } => CommandModel::SetLatency {
                pipeline: pipeline@,
                element: opt_text(element),
                latency_ms,
            },
            Command::GetLatency { pipeline, element } => CommandModel::GetLatency {
                pipeline: pipeline@,
                element: opt_text(element),
            },
            Command::Exit => CommandModel::Exit,
        }
    }
}

/// What the command task asks of the graph of its instance.
#[derive(Clone, Debug, PartialEq, Eq)]
#[allow(inconsistent_fields)]
pub enum GraphAction {
    /// Leave the graph alone.
    Nothing,
    /// Look the element up; if it is there, set the property from the text.
    SetProperty { element: String, property: String, value: String },
    /// Look the element up; if it is there and has the pad, make the pad its
    /// active input.
    SwitchPad { element: String, pad: String },
    /// Send end-of-stream into the whole graph.
    SignalEos,
    /// Post a latency notification onto the graph's message stream.
    PostLatencyMessage,
    /// Send a latency directive to the element, or to the whole graph.
    SendLatency { element: Option<String>, latency_ms: u64 },
    /// Query the latency of the element, or of the whole graph, and report it.
    QueryLatency { element: Option<String> },
}

/// Mathematical value of a [`GraphAction`].
#[allow(inconsistent_fields)]
pub ghost enum ActionModel {
    Nothing,
    SetProperty { element: Seq<char>, property: Seq<char>, value: Seq<char> },
    SwitchPad { element: Seq<char>, pad: Seq<char> },
    SignalEos,
    PostLatencyMessage,
    SendLatency { element: Option<Seq<char>>, latency_ms: u64 },
    QueryLatency { element: Option<Seq<char>> },
}

impl View for GraphAction {
    type V = ActionModel;

    open spec fn view(&self) -> ActionModel {
        match *self {
            GraphAction::Nothing => ActionModel::Nothing,
            GraphAction::SetProperty { element, property, value } => ActionModel::SetProperty {
                element: element@,
                property: property@,
                value: value@,
            },
            GraphAction::SwitchPad { element, pad } => ActionModel::SwitchPad {
                element: element@,
                pad: pad@,
            },
            GraphAction::SignalEos => ActionModel::SignalEos,
            GraphAction::PostLatencyMessage => ActionModel::PostLatencyMessage,
            GraphAction::SendLatency { element, latency_ms } => ActionModel::SendLatency {
                element: opt_text(element),
                latency_ms,
            },
            GraphAction::QueryLatency { element } => ActionModel::QueryLatency {
                element: opt_text(element),
            },
        }
    }
}

/// Whether the command is meant for the instance of the given name: `Exit`
/// is meant for every instance, `StopPipeline` for those it lists,
/// `AddPipeline` for none, and every other command for the one it names.
pub open spec fn addresses(cmd: CommandModel, name: Seq<char>) -> bool {
    match cmd {
        CommandModel::AddPipeline(_) => false,
        CommandModel::StopPipeline(names) => names.contains(name),
        CommandModel::SetProperty { pipeline, .. } => pipeline == name,
        CommandModel::SwitchPad { pipeline, .. } => pipeline == name,
        CommandModel::PushLatencyEvent { pipeline } => pipeline == name,
        CommandModel::SetLatency { pipeline, .. } => pipeline == name,
        CommandModel::GetLatency { pipeline, .. } => pipeline == name,
        CommandModel::Exit => true,
    }
}

/// Whether the command ends the instance of the given name: `Exit` always,
/// `StopPipeline` where it lists the name.
pub open spec fn is_terminal(cmd: CommandModel, name: Seq<char>) -> bool {
    match cmd {
        CommandModel::StopPipeline(names) => names.contains(name),
        CommandModel::Exit => true,
        _ => false,
    }
}

/// The graph action that the command asks of the instance of the given name.
pub open spec fn action_for(cmd: CommandModel, name: Seq<char>) -> ActionModel {
    if !addresses(cmd, name) {
        ActionModel::Nothing
    } else {
        match cmd {
            CommandModel::AddPipeline(_) => ActionModel::Nothing,
            CommandModel::StopPipeline(_) => ActionModel::SignalEos,
            CommandModel::SetProperty { element, property, value, .. } => ActionModel::SetProperty {
                element,
                property,
                value,
            },
            CommandModel::SwitchPad { element, pad, .. } => ActionModel::SwitchPad { element, pad },
            CommandModel::PushLatencyEvent { .. } => ActionModel::PostLatencyMessage,
            CommandModel::SetLatency { element, latency_ms, .. } => ActionModel::SendLatency {
                element,
                latency_ms,
            },
            CommandModel::GetLatency { element, .. } => ActionModel::QueryLatency { element },
            CommandModel::Exit => ActionModel::SignalEos,
        }
    }
}

/// Whether `name` is one of `names`.
pub fn contains_name(names: &Vec<String>, name: &String) -> (found: bool)
    ensures
        found == texts(names@).contains(name@),
{
    let mut i: usize = 0;
    while i < names.len()
        invariant
            i <= names.len(),
            forall|j: int| 0 <= j < i ==> texts(names@)[j] != name@,
        decreases names.len() - i,
    {
        if names[i] == *name {
            assert(texts(names@)[i as int] == name@);
            return true;
        }
        i += 1;
    }
    false
}

/// A copy of an optional string.
pub fn copy_opt(s: &Option<String>) -> (r: Option<String>)
    ensures
        opt_text(r) == opt_text(*s),
{
    match s {
        Some(t) => Some(t.clone()),
        None => None,
    }
}

/// A copy of a sequence of strings.
pub fn copy_texts(v: &Vec<String>) -> (r: Vec<String>)
    ensures
        texts(r@) == texts(v@),
{
    let mut r: Vec<String> = Vec::new();
    let mut i: usize = 0;
    while i < v.len()
        invariant
            i <= v.len(),
            r.len() == i,
            forall|j: int| 0 <= j < i ==> r@[j]@ == v@[j]@,
        decreases v.len() - i,
    {
        r.push(v[i].clone());
        i += 1;
    }
    assert(texts(r@) =~= texts(v@));
    r
}

impl PipelineSpec {
    /// The graph description as the one line that the engine builds the
    /// graph from.
    pub fn launch_line(&self) -> (line: String)
        ensures
            line@ == joined(self@.description),
    {
        let ghost all = texts(self.description@);
        let mut line = String::new();
        let mut i: usize = 0;
        proof {
            reveal_strlit(" ");
            assert(all.take(0).len() == 0);
        }
        while i < self.description.len()
            invariant
                i <= self.description.len(),
                all == texts(self.description@),
                " "@ == seq![' '],
                line@ == joined(all.take(i as int)),
            decreases self.description.len() - i,
        {
            proof {
                assert(all.take(i + 1).drop_last() =~= all.take(i as int));
                assert(all.take(i + 1).last() == self.description@[i as int]@);
                assert(all.take(1)[0] == all[0]);
            }
            if i > 0 {
                line.append(" ");
            }
            line.append(self.description[i].as_str());
            proof {
                if i == 0 {
                    assert(line@ =~= all[0]);
                }
            }
            i += 1;
        }
        assert(all.take(i as int) =~= all);
        line
    }

    /// A copy of the spec.
    pub fn copy(&self) -> (r: PipelineSpec)
        ensures
            r@ == self@,
    {
        PipelineSpec { name: self.name.clone(), description: copy_texts(&self.description) }
    }
}

impl Command {
    /// Whether the command is meant for the instance named `name`.
    pub fn targets(&self, name: &String) -> (hit: bool)
        ensures
            hit == addresses(self@, name@),
    {
        match self {
            Command::AddPipeline(_) => false,
            Command::StopPipeline(names) => contains_name(names, name),
            Command::SetProperty { pipeline, .. } => *pipeline == *name,
            Command::SwitchPad { pipeline, .. } => *pipeline == *name,
            Command::PushLatencyEvent { pipeline } => *pipeline == *name,
            Command::SetLatency { pipeline, .. } => *pipeline == *name,
            Command::GetLatency { pipeline, .. } => *pipeline == *name,
            Command::Exit => true,
        }
    }

    /// The graph action that the command asks of the instance named `name`.
    pub fn action_for(&self, name: &String) -> (action: GraphAction)
        ensures
            action@ == action_for(self@, name@),
    {
        if !self.targets(name) {
            return GraphAction::Nothing;
        }
        match self {
            Command::AddPipeline(_) => GraphAction::Nothing,
            Command::StopPipeline(_) => GraphAction::SignalEos,
            Command::SetProperty { element, property, value, .. } => GraphAction::SetProperty {
                element: element.clone(),
                property: property.clone(),
                value: value.clone(),
            },
            Command::SwitchPad { element, pad, .. } => GraphAction::SwitchPad {
                element: element.clone(),
                pad: pad.clone(),
            },
            Command::PushLatencyEvent { .. } => GraphAction::PostLatencyMessage,
            Command::SetLatency { element, latency_ms, .. } => GraphAction::SendLatency {
                element: copy_opt(element),
                latency_ms: *latency_ms,
            },
            Command::GetLatency { element, .. } => GraphAction::QueryLatency {
                element: copy_opt(element),
            },
            Command::Exit => GraphAction::SignalEos,
        }
    }

    /// Whether the command ends the instance named `name`.
    pub fn ends(&self, name: &String) -> (r: bool)
        ensures
            r == is_terminal(self@, name@),
    {
        match self {
            Command::StopPipeline(names) => contains_name(names, name),
            Command::Exit => true,
            _ => false,
        }
    }

    /// A copy of the command.
    pub fn copy(&self) -> (r: Command)
        ensures
            r@ == self@,
    {
        match self {
            Command::AddPipeline(spec) => Command::AddPipeline(spec.copy()),
            Command::StopPipeline(names) => Command::StopPipeline(copy_texts(names)),
            Command::SetProperty { pipeline, element, property, value } => Command::SetProperty {
                pipeline: pipeline.clone(),
                element: element.clone(),
                property: property.clone(),
                value: value.clone(),
            },
            Command::SwitchPad { pipeline, element, pad } => Command::SwitchPad {
                pipeline: pipeline.clone(),
                element: element.clone(),
                pad: pad.clone(),
            },
            Command::PushLatencyEvent { pipeline } => Command::PushLatencyEvent {
                pipeline: pipeline.clone(),
            },
            Command::SetLatency { pipeline, element, latency_ms } => Command::SetLatency {
                pipeline: pipeline.clone(),
                element: copy_opt(element),
                latency_ms: *latency_ms,
            },
            Command::GetLatency { pipeline, element } => Command::GetLatency {
                pipeline: pipeline.clone(),
                element: copy_opt(element),
            },
            Command::Exit => Command::Exit,
        }
    }
}

} // verus!
