//! The operator front end's side of the command bus: publishing a command
//! and deciding whether the console goes on.

use vstd::prelude::*;
use crate::command::{Command, CommandModel};

verus! {

/// The sending half of `tokio::sync::broadcast`, a channel that hands each
/// value to every receiver. Nothing is known of what is inside.
#[verifier::external_type_specification]
#[verifier::external_body]
#[verifier::reject_recursive_types(T)]
pub struct ExSender<T>(tokio::sync::broadcast::Sender<T>);

/// Why the console ends.
#[derive(Clone, Copy, Debug, PartialEq, Eq, Structural)]
pub enum FinishReason {
    /// The operator asked to exit.
    ExitRequested,
    /// Nobody listens on the command bus any more.
    BusDisconnected,
}

/// What the console does after a line of the operator.
#[derive(Clone, Copy, Debug, PartialEq, Eq, Structural)]
pub enum FrontEndStep {
    /// Read the next line.
    Continue,
    /// Fire the shutdown signal and end.
    Finish(FinishReason),
}

/// What the console does after it published the command, which reached
/// `receivers` subscribers, or none because nobody listens.
pub open spec fn step_after(cmd: CommandModel, receivers: Option<usize>) -> FrontEndStep {
    if receivers.is_none() {
        FrontEndStep::Finish(FinishReason::BusDisconnected)
    } else if cmd == CommandModel::Exit {
        FrontEndStep::Finish(FinishReason::ExitRequested)
    } else {
        FrontEndStep::Continue
    }
}

/// Calls `tokio::sync::broadcast::Sender::send`, which hands the value to
/// every receiver subscribed at that moment and never blocks. The result is
/// the number of those receivers, which is not zero, or `None` where there
/// is none and the value was not sent.
#[verifier::external_body]
fn send_to_all<T>(sender: &tokio::sync::broadcast::Sender<T>, value: T) -> (receivers: Option<usize>)
    ensures
        receivers != Some(0usize),
{
    match sender.send(value) {
        Ok(n) => Some(n),
        Err(_) => None,
    }
}

/// Decides what the console does after it published the command.
pub fn after_publish(cmd: &Command, receivers: Option<usize>) -> (step: FrontEndStep)
    ensures
        step == step_after(cmd@, receivers),
{
    if receivers.is_none() {
        FrontEndStep::Finish(FinishReason::BusDisconnected)
    } else {
        match cmd {
            Command::Exit => FrontEndStep::Finish(FinishReason::ExitRequested),
            _ => FrontEndStep::Continue,
        }
    }
}

/// Publishes the command on the bus and decides what the console does
/// next. Who listens at that moment is not in the hands of the caller, so
/// the step is the one that belongs to one of the possible outcomes of the
/// publication; after `Exit` the console never goes on.
pub fn publish(bus: &tokio::sync::broadcast::Sender<Command>, cmd: &Command) -> (step: FrontEndStep)
    ensures
        exists|receivers: Option<usize>| step == step_after(cmd@, receivers),
        cmd@ == CommandModel::Exit ==> step != FrontEndStep::Continue,
{
    let receivers = send_to_all(bus, cmd.copy());
    let step = after_publish(cmd, receivers);
    assert(step == step_after(cmd@, receivers));
    step
}

/// One round of the console: `parsed` is the command that the operator's
/// line gave, or `None` where the line was rejected. A rejected line changes
/// nothing and the console goes on. A command is published; where the
/// console then ends, the shutdown signal is fired first.
pub fn console_round(
    bus: &tokio::sync::broadcast::Sender<Command>,
    signal: &tokio::sync::broadcast::Sender<()>,
    parsed: Option<&Command>,
) -> (step: FrontEndStep)
    ensures
        parsed.is_none() ==> step == FrontEndStep::Continue,
        parsed.is_some() ==> exists|receivers: Option<usize>|
            step == step_after(parsed.unwrap()@, receivers),
        parsed.is_some() && parsed.unwrap()@ == CommandModel::Exit ==> step
            != FrontEndStep::Continue,
{
    match parsed {
        None => FrontEndStep::Continue,
        Some(cmd) => {
            let step = publish(bus, cmd);
            match step {
                FrontEndStep::Finish(_) => {
                    let _ = send_to_all(signal, ());
                },
                FrontEndStep::Continue => {},
            }
            step
        },
    }
}

} // verus!
