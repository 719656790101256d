use gst_launch_multi::command::{Command, GraphAction, PipelineSpec};
use gst_launch_multi::instance::{
    Directive, GraphMessage, Instance, MonitorAction, Phase, ProbeVerdict, SourceEvent, StartError,
};

fn text(x: &str) -> String {
    x.to_string()
}

fn playing(name: &str) -> Instance {
    let mut inst = Instance::new(&text(name));
    assert_eq!(inst.start(true), Ok(()));
    inst
}

#[test]
fn fresh_instance_is_created_and_idle() {
    let inst = Instance::new(&text("p0"));
    assert_eq!(inst.name(), "p0");
    assert_eq!(inst.phase(), Phase::Created);
    assert!(!inst.stopped_by_operator());
    assert!(!inst.command_task_live());
    assert!(!inst.monitor_task_live());
    assert!(!inst.is_finished());
}

#[test]
fn start_accepted_reaches_playing() {
    let mut inst = Instance::new(&text("p0"));
    assert_eq!(inst.start(true), Ok(()));
    assert_eq!(inst.phase(), Phase::Playing);
    assert!(inst.command_task_live());
    assert!(inst.monitor_task_live());
}

#[test]
fn start_refused_is_fatal_for_the_instance() {
    let mut inst = Instance::new(&text("p0"));
    assert_eq!(inst.start(false), Err(StartError::StateTransition));
    assert_eq!(inst.phase(), Phase::Stopped);
    assert!(!inst.command_task_live());
    assert!(inst.is_finished());
    let d = inst.handle_command(&Command::Exit);
    assert_eq!(d, Directive { action: GraphAction::Nothing, terminate: true });
    assert!(!inst.stopped_by_operator());
}

#[test]
fn start_twice_is_refused() {
    let mut inst = playing("p0");
    assert_eq!(inst.start(true), Err(StartError::AlreadyStarted));
    assert_eq!(inst.phase(), Phase::Playing);
}

#[test]
fn no_command_is_dispatched_before_start() {
    let mut inst = Instance::new(&text("p0"));
    let d = inst.handle_command(&Command::PushLatencyEvent { pipeline: text("p0") });
    assert_eq!(d.action, GraphAction::Nothing);
    assert_eq!(inst.phase(), Phase::Created);
    let d = inst.handle_command(&Command::Exit);
    assert_eq!(d.action, GraphAction::Nothing);
    assert!(!inst.stopped_by_operator());
}

#[test]
fn set_property_for_this_instance() {
    let mut inst = playing("p0");
    let d = inst.handle_command(&Command::SetProperty {
        pipeline: text("p0"),
        element: text("src"),
        property: text("foo"),
        value: text("bar"),
    });
    assert_eq!(
        d,
        Directive {
            action: GraphAction::SetProperty {
                element: text("src"),
                property: text("foo"),
                value: text("bar"),
            },
            terminate: false,
        }
    );
    assert_eq!(inst.phase(), Phase::Playing);
}

#[test]
fn switch_pad_for_this_instance() {
    let mut inst = playing("p0");
    let d = inst.handle_command(&Command::SwitchPad {
        pipeline: text("p0"),
        element: text("sel"),
        pad: text("sink_1"),
    });
    assert_eq!(d.action, GraphAction::SwitchPad { element: text("sel"), pad: text("sink_1") });
    assert!(!d.terminate);
}

#[test]
fn push_latency_event_posts_a_message() {
    let mut inst = playing("p0");
    let d = inst.handle_command(&Command::PushLatencyEvent { pipeline: text("p0") });
    assert_eq!(d, Directive { action: GraphAction::PostLatencyMessage, terminate: false });
}

#[test]
fn set_latency_to_element_and_to_graph() {
    let mut inst = playing("p0");
    let d = inst.handle_command(&Command::SetLatency {
        pipeline: text("p0"),
        element: Some(text("q")),
        latency_ms: 250,
    });
    assert_eq!(d.action, GraphAction::SendLatency { element: Some(text("q")), latency_ms: 250 });
    let d = inst.handle_command(&Command::SetLatency {
        pipeline: text("p0"),
        element: None,
        latency_ms: 40,
    });
    assert_eq!(d.action, GraphAction::SendLatency { element: None, latency_ms: 40 });
    assert!(!d.terminate);
}

#[test]
fn get_latency_after_set_latency_is_dispatched() {
    let mut inst = playing("p0");
    inst.handle_command(&Command::SetLatency { pipeline: text("p0"), element: None, latency_ms: 100 });
    let d = inst.handle_command(&Command::GetLatency { pipeline: text("p0"), element: None });
    assert_eq!(d, Directive { action: GraphAction::QueryLatency { element: None }, terminate: false });
    let d = inst.handle_command(&Command::GetLatency {
        pipeline: text("p0"),
        element: Some(text("sink")),
    });
    assert_eq!(d.action, GraphAction::QueryLatency { element: Some(text("sink")) });
    assert_eq!(inst.phase(), Phase::Playing);
}

#[test]
fn command_for_another_pipeline_is_a_no_op() {
    let mut inst = playing("p0");
    let cmds = vec![
        Command::SetProperty {
            pipeline: text("p1"),
            element: text("src"),
            property: text("foo"),
            value: text("bar"),
        },
        Command::SwitchPad { pipeline: text("p1"), element: text("e"), pad: text("p") },
        Command::PushLatencyEvent { pipeline: text("p1") },
        Command::SetLatency { pipeline: text("p1"), element: None, latency_ms: 1 },
        Command::GetLatency { pipeline: text("p1"), element: None },
        Command::StopPipeline(vec![text("p1"), text("p2")]),
        Command::StopPipeline(vec![]),
        Command::AddPipeline(PipelineSpec { name: text("p0"), description: vec![text("src")] }),
    ];
    for cmd in cmds.iter() {
        let d = inst.handle_command(cmd);
        assert_eq!(d, Directive { action: GraphAction::Nothing, terminate: false });
        assert_eq!(inst.phase(), Phase::Playing);
        assert!(!inst.stopped_by_operator());
        assert!(inst.command_task_live());
    }
}

#[test]
fn stop_pipeline_stops_the_named_instance_only() {
    let mut p0 = playing("p0");
    let mut p1 = playing("p1");
    let cmd = Command::StopPipeline(vec![text("px"), text("p0")]);
    let d0 = p0.handle_command(&cmd);
    let d1 = p1.handle_command(&cmd);
    assert_eq!(d0, Directive { action: GraphAction::SignalEos, terminate: true });
    assert_eq!(d1, Directive { action: GraphAction::Nothing, terminate: false });
    assert_eq!(p0.phase(), Phase::Stopping);
    assert!(p0.stopped_by_operator());
    assert!(!p0.command_task_live());
    assert_eq!(p1.phase(), Phase::Playing);
    assert!(!p1.stopped_by_operator());
    assert_eq!(p0.on_message(GraphMessage::Eos), MonitorAction::ShutDownGraph);
    assert_eq!(p0.phase(), Phase::Stopped);
    assert!(p0.is_finished());
    assert!(!p1.is_finished());
}

#[test]
fn exit_stops_whatever_the_name() {
    let mut inst = playing("anything");
    let d = inst.handle_command(&Command::Exit);
    assert_eq!(d, Directive { action: GraphAction::SignalEos, terminate: true });
    assert!(inst.stopped_by_operator());
    assert_eq!(inst.phase(), Phase::Stopping);
    let again = inst.handle_command(&Command::Exit);
    assert_eq!(again, Directive { action: GraphAction::Nothing, terminate: true });
    assert!(inst.stopped_by_operator());
}

#[test]
fn shutdown_wins_over_a_ready_command() {
    let mut inst = playing("p0");
    let cmd = Command::PushLatencyEvent { pipeline: text("p0") };
    let d = inst.command_round(true, Some(&cmd));
    assert_eq!(d, Directive { action: GraphAction::SignalEos, terminate: true });
    assert!(inst.stopped_by_operator());
}

#[test]
fn round_without_shutdown_dispatches_the_command() {
    let mut inst = playing("p0");
    let cmd = Command::PushLatencyEvent { pipeline: text("p0") };
    let d = inst.command_round(false, Some(&cmd));
    assert_eq!(d, Directive { action: GraphAction::PostLatencyMessage, terminate: false });
    let idle = inst.command_round(false, None);
    assert_eq!(idle, Directive { action: GraphAction::Nothing, terminate: false });
    let d = inst.handle_shutdown();
    assert_eq!(d, Directive { action: GraphAction::SignalEos, terminate: true });
    let idle = inst.command_round(false, None);
    assert_eq!(idle, Directive { action: GraphAction::Nothing, terminate: true });
}

#[test]
fn source_eos_restarts_while_operator_has_not_stopped() {
    let inst = playing("p0");
    assert_eq!(inst.on_source_event(SourceEvent::Eos), ProbeVerdict::SuppressAndRestart);
    assert_eq!(inst.on_source_event(SourceEvent::Latency), ProbeVerdict::Pass);
    assert_eq!(inst.on_source_event(SourceEvent::Other), ProbeVerdict::Forward);
    assert_eq!(inst.phase(), Phase::Playing);
}

#[test]
fn source_eos_passes_once_operator_stopped() {
    let mut inst = playing("p0");
    inst.handle_command(&Command::StopPipeline(vec![text("p0")]));
    assert_eq!(inst.on_source_event(SourceEvent::Eos), ProbeVerdict::Forward);
    assert_eq!(inst.on_message(GraphMessage::Eos), MonitorAction::ShutDownGraph);
    assert_eq!(inst.phase(), Phase::Stopped);
}

#[test]
fn error_and_latency_messages_do_not_stop_the_instance() {
    let mut inst = playing("p0");
    assert_eq!(inst.on_message(GraphMessage::Error), MonitorAction::LogError);
    assert_eq!(inst.on_message(GraphMessage::Latency), MonitorAction::ReportAndRecalculateLatency);
    assert_eq!(inst.on_message(GraphMessage::Other), MonitorAction::Ignore);
    assert_eq!(inst.phase(), Phase::Playing);
    assert!(inst.monitor_task_live());
}

#[test]
fn graph_eos_without_operator_stop_keeps_the_command_task() {
    let mut inst = playing("p0");
    assert_eq!(inst.on_message(GraphMessage::Eos), MonitorAction::ShutDownGraph);
    assert_eq!(inst.phase(), Phase::Stopped);
    assert!(!inst.stopped_by_operator());
    assert!(inst.command_task_live());
    assert!(!inst.is_finished());
    assert_eq!(inst.on_message(GraphMessage::Eos), MonitorAction::Ignore);
    let d = inst.handle_command(&Command::Exit);
    assert_eq!(d, Directive { action: GraphAction::SignalEos, terminate: true });
    assert_eq!(inst.phase(), Phase::Stopped);
    assert!(inst.is_finished());
}

#[test]
fn command_helpers_agree_with_dispatch() {
    let name = text("p0");
    let stop = Command::StopPipeline(vec![text("p0")]);
    assert!(stop.targets(&name));
    assert!(stop.ends(&name));
    assert!(!stop.targets(&text("p1")));
    assert!(!stop.ends(&text("p1")));
    let get = Command::GetLatency { pipeline: text("p0"), element: None };
    assert!(get.targets(&name));
    assert!(!get.ends(&name));
    assert_eq!(get.action_for(&text("p1")), GraphAction::Nothing);
    assert!(Command::Exit.targets(&text("zzz")));
    assert_eq!(stop.copy(), stop);
    assert_eq!(get.copy(), get);
}
