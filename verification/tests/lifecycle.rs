use constellation_standalone::engine::{Action, Engine, Event};
use constellation_standalone::notify::NotifyFlag;
use constellation_standalone::signal::{handle_signal, HandlerOutcome, SignalBridge, SignalKind};
use constellation_standalone::Standalone;

struct Demo;

impl Standalone for Demo {
    type Config = u32;
    type CreateCleanup = u32;
    type RunCleanup = u32;
    type RunErrorCleanup = u32;

    fn component_name() -> String {
        "demo".to_owned()
    }

    fn config_file_names() -> Vec<String> {
        vec!["demo.yaml".to_owned()]
    }

    fn log_config_file_names() -> Vec<String> {
        vec!["demo-log.yaml".to_owned()]
    }

    fn create(config: u32) -> Result<(Demo, u32), u32> {
        Ok((Demo, config))
    }

    fn run(self) -> Result<u32, u32> {
        Ok(0)
    }

    fn shutdown(_create: u32, _run: Option<u32>) {}

    fn shutdown_err(_create: u32, _run: u32) {}
}

#[test]
fn engine_happy_path() {
    let mut engine: Engine<Demo> = Engine::new();
    assert!(matches!(engine.step(Event::ConfigLoaded(7)), Action::Create(7)));
    assert!(matches!(engine.step(Event::CreateOk(Demo, 1)), Action::InitNotify));
    assert!(matches!(engine.step(Event::NotifyReady), Action::Arm(SignalKind::Terminate)));
    assert!(matches!(engine.step(Event::ArmOk), Action::Arm(SignalKind::Interrupt)));
    assert!(matches!(engine.step(Event::ArmOk), Action::Arm(SignalKind::HangUp)));
    assert!(matches!(engine.step(Event::ArmOk), Action::Run(_)));
    assert!(matches!(engine.step(Event::RunOk(2)), Action::Wait));
    assert!(matches!(engine.step(Event::Notified), Action::Shutdown(1, Some(2))));
    assert!(matches!(engine.step(Event::ArmOk), Action::Halt));
}

#[test]
fn engine_create_failure_shuts_down_without_run() {
    let mut engine: Engine<Demo> = Engine::new();
    assert!(matches!(engine.step(Event::ConfigLoaded(7)), Action::Create(7)));
    assert!(matches!(engine.step(Event::CreateFailed(5)), Action::Shutdown(5, None)));
    assert!(matches!(engine.step(Event::ArmOk), Action::Halt));
    assert!(matches!(engine.step(Event::RunOk(3)), Action::Halt));
}

#[test]
fn engine_run_failure_uses_error_shutdown() {
    let mut engine: Engine<Demo> = Engine::new();
    assert!(matches!(engine.step(Event::ConfigLoaded(7)), Action::Create(7)));
    assert!(matches!(engine.step(Event::CreateOk(Demo, 1)), Action::InitNotify));
    assert!(matches!(engine.step(Event::NotifyReady), Action::Arm(SignalKind::Terminate)));
    assert!(matches!(engine.step(Event::ArmOk), Action::Arm(SignalKind::Interrupt)));
    assert!(matches!(engine.step(Event::ArmOk), Action::Arm(SignalKind::HangUp)));
    assert!(matches!(engine.step(Event::ArmOk), Action::Run(_)));
    assert!(matches!(engine.step(Event::RunFailed(9)), Action::ShutdownErr(1, 9)));
    assert!(matches!(engine.step(Event::Notified), Action::Halt));
}

#[test]
fn engine_arm_failure_on_second_kind_skips_third_and_run() {
    let mut engine: Engine<Demo> = Engine::new();
    assert!(matches!(engine.step(Event::ConfigLoaded(7)), Action::Create(7)));
    assert!(matches!(engine.step(Event::CreateOk(Demo, 1)), Action::InitNotify));
    assert!(matches!(engine.step(Event::NotifyReady), Action::Arm(SignalKind::Terminate)));
    assert!(matches!(engine.step(Event::ArmOk), Action::Arm(SignalKind::Interrupt)));
    assert!(matches!(engine.step(Event::ArmFailed), Action::Shutdown(1, None)));
    // The third kind is never requested and run is never reached.
    assert!(matches!(engine.step(Event::ArmOk), Action::Halt));
    assert!(matches!(engine.step(Event::ArmOk), Action::Halt));
}

#[test]
fn engine_wait_failure_still_shuts_down_with_both_tokens() {
    let mut engine: Engine<Demo> = Engine::new();
    assert!(matches!(engine.step(Event::ConfigLoaded(7)), Action::Create(7)));
    assert!(matches!(engine.step(Event::CreateOk(Demo, 1)), Action::InitNotify));
    assert!(matches!(engine.step(Event::NotifyReady), Action::Arm(SignalKind::Terminate)));
    assert!(matches!(engine.step(Event::ArmOk), Action::Arm(SignalKind::Interrupt)));
    assert!(matches!(engine.step(Event::ArmOk), Action::Arm(SignalKind::HangUp)));
    assert!(matches!(engine.step(Event::ArmOk), Action::Run(_)));
    assert!(matches!(engine.step(Event::RunOk(2)), Action::Wait));
    assert!(matches!(engine.step(Event::WaitFailed), Action::Shutdown(1, Some(2))));
}

#[test]
fn engine_config_missing_reports_and_stops() {
    let mut engine: Engine<Demo> = Engine::new();
    assert!(matches!(engine.step(Event::ConfigMissing), Action::FailConfig));
    assert!(matches!(engine.step(Event::ConfigLoaded(7)), Action::Halt));
    assert!(matches!(engine.step(Event::CreateOk(Demo, 1)), Action::Halt));
}

#[test]
fn notify_collapses_to_single_wakeup() {
    let mut flag = NotifyFlag::new();
    assert!(!flag.pending);
    flag.notify();
    flag.notify();
    flag.notify();
    // Three notifications produce exactly one wake-up.
    assert!(flag.take_wake());
    assert!(!flag.take_wake());
    // A later wait needs a fresh notification.
    flag.notify();
    assert!(flag.take_wake());
    assert!(!flag.take_wake());
}

#[test]
fn first_interrupt_notifies_and_escalates() {
    let mut bridge = SignalBridge::new();
    let mut flag = NotifyFlag::new();
    assert!(!bridge.escalated);
    let outcome = handle_signal(&mut bridge, &mut flag, SignalKind::Interrupt);
    assert!(matches!(outcome, HandlerOutcome::Notified));
    assert!(bridge.escalated);
    assert!(flag.pending);
}

#[test]
fn second_interrupt_forces_exit_without_notification() {
    let mut bridge = SignalBridge::new();
    let mut flag = NotifyFlag::new();
    // Two interrupts in rapid succession, before any wait observes the
    // first: the first is not lost (it posts the notification), the
    // second demands immediate termination and touches nothing.
    assert!(matches!(
        handle_signal(&mut bridge, &mut flag, SignalKind::Interrupt),
        HandlerOutcome::Notified
    ));
    assert!(flag.pending);
    assert!(flag.take_wake());
    assert!(matches!(
        handle_signal(&mut bridge, &mut flag, SignalKind::Interrupt),
        HandlerOutcome::ForceExit
    ));
    assert!(!flag.pending);
    assert!(bridge.escalated);
}

#[test]
fn hangup_and_terminate_never_escalate() {
    let mut bridge = SignalBridge::new();
    let mut flag = NotifyFlag::new();
    assert!(matches!(
        handle_signal(&mut bridge, &mut flag, SignalKind::HangUp),
        HandlerOutcome::Notified
    ));
    assert!(!bridge.escalated);
    assert!(matches!(
        handle_signal(&mut bridge, &mut flag, SignalKind::Terminate),
        HandlerOutcome::Notified
    ));
    assert!(!bridge.escalated);
    assert!(flag.pending);
}

#[test]
fn hangup_still_notifies_after_escalation() {
    let mut bridge = SignalBridge::new();
    let mut flag = NotifyFlag::new();
    assert!(matches!(
        handle_signal(&mut bridge, &mut flag, SignalKind::Interrupt),
        HandlerOutcome::Notified
    ));
    assert!(flag.take_wake());
    assert!(matches!(
        handle_signal(&mut bridge, &mut flag, SignalKind::HangUp),
        HandlerOutcome::Notified
    ));
    assert!(flag.pending);
}
