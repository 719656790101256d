use gst_launch_multi::command::Command;
use gst_launch_multi::frontend::{after_publish, console_round, publish, FinishReason, FrontEndStep};
use tokio::sync::broadcast;

fn latency_push() -> Command {
    Command::PushLatencyEvent { pipeline: "p0".to_string() }
}

#[test]
fn step_after_publication() {
    assert_eq!(after_publish(&latency_push(), Some(2)), FrontEndStep::Continue);
    assert_eq!(
        after_publish(&latency_push(), None),
        FrontEndStep::Finish(FinishReason::BusDisconnected)
    );
    assert_eq!(
        after_publish(&Command::Exit, Some(1)),
        FrontEndStep::Finish(FinishReason::ExitRequested)
    );
    assert_eq!(
        after_publish(&Command::Exit, None),
        FrontEndStep::Finish(FinishReason::BusDisconnected)
    );
}

#[test]
fn published_command_reaches_every_subscriber() {
    let (tx, mut rx1) = broadcast::channel::<Command>(4);
    let mut rx2 = tx.subscribe();
    assert_eq!(publish(&tx, &latency_push()), FrontEndStep::Continue);
    assert_eq!(rx1.try_recv().unwrap(), latency_push());
    assert_eq!(rx2.try_recv().unwrap(), latency_push());
    assert!(rx1.try_recv().is_err());
}

#[test]
fn late_subscriber_misses_earlier_commands() {
    let (tx, mut early) = broadcast::channel::<Command>(4);
    assert_eq!(publish(&tx, &latency_push()), FrontEndStep::Continue);
    let mut late = tx.subscribe();
    assert!(late.try_recv().is_err());
    assert_eq!(early.try_recv().unwrap(), latency_push());
}

#[test]
fn publishing_without_subscribers_disconnects() {
    let (tx, rx) = broadcast::channel::<Command>(1);
    drop(rx);
    assert_eq!(
        publish(&tx, &latency_push()),
        FrontEndStep::Finish(FinishReason::BusDisconnected)
    );
}

#[test]
fn rejected_line_changes_nothing() {
    let (tx, mut rx) = broadcast::channel::<Command>(1);
    let (stop_tx, mut stop_rx) = broadcast::channel::<()>(1);
    assert_eq!(console_round(&tx, &stop_tx, None), FrontEndStep::Continue);
    assert!(rx.try_recv().is_err());
    assert!(stop_rx.try_recv().is_err());
}

#[test]
fn exit_is_published_and_fires_shutdown() {
    let (tx, mut rx) = broadcast::channel::<Command>(1);
    let (stop_tx, mut stop_rx) = broadcast::channel::<()>(1);
    assert_eq!(
        console_round(&tx, &stop_tx, Some(&Command::Exit)),
        FrontEndStep::Finish(FinishReason::ExitRequested)
    );
    assert_eq!(rx.try_recv().unwrap(), Command::Exit);
    assert_eq!(stop_rx.try_recv(), Ok(()));
}

#[test]
fn ordinary_command_does_not_fire_shutdown() {
    let (tx, mut rx) = broadcast::channel::<Command>(1);
    let (stop_tx, mut stop_rx) = broadcast::channel::<()>(1);
    assert_eq!(console_round(&tx, &stop_tx, Some(&latency_push())), FrontEndStep::Continue);
    assert_eq!(rx.try_recv().unwrap(), latency_push());
    assert!(stop_rx.try_recv().is_err());
}

#[test]
fn bus_disconnect_fires_shutdown() {
    let (tx, rx) = broadcast::channel::<Command>(1);
    drop(rx);
    let (stop_tx, mut stop_rx) = broadcast::channel::<()>(1);
    assert_eq!(
        console_round(&tx, &stop_tx, Some(&latency_push())),
        FrontEndStep::Finish(FinishReason::BusDisconnected)
    );
    assert_eq!(stop_rx.try_recv(), Ok(()));
}
