use glimpse_shell::exec_applet::{after_child_exit, ChildLoopExit, Config, StderrLogLimiter};
use glimpse_shell::exec_supervisor::{Supervisor, SupervisorAction, SupervisorPhase};
use glimpse_shell::throttle::{CommandThrottle, ThrottleStep};

fn config() -> Config {
    Config {
        command: vec!["/bin/example".into()],
        restart_delay_ms: 250,
        ..Config::default()
    }
}

#[test]
fn throttle_sends_at_once_then_schedules_one_delayed_send() {
    let mut throttle = CommandThrottle::new(50);
    assert_eq!(throttle.on_change(10, 1_000), ThrottleStep::Send(10));
    assert_eq!(throttle.on_change(20, 1_020), ThrottleStep::Schedule(30));
    assert_eq!(throttle.on_change(30, 1_030), ThrottleStep::Wait);
    assert_eq!(throttle.on_timer(1_050), Some(30));
    assert_eq!(throttle.on_timer(1_060), None);
    assert_eq!(throttle.on_change(40, 1_100), ThrottleStep::Send(40));
}

#[test]
fn stderr_limiter_reports_suppressed_lines_in_the_next_window() {
    let mut limiter = StderrLogLimiter::new(0);
    for _ in 0..20 {
        assert!(limiter.log(100).emit);
    }
    let decision = limiter.log(200);
    assert!(!decision.emit);
    let decision = limiter.log(10_000);
    assert_eq!(decision.report_suppressed, 1);
    assert!(decision.emit);
    assert_eq!(limiter.flush(), 0);
}

#[test]
fn child_exits_decide_restart() {
    assert!(after_child_exit(ChildLoopExit::Stop).stop);
    assert!(after_child_exit(ChildLoopExit::ProtocolEnded).wait_before_restart);
    let restart = after_child_exit(ChildLoopExit::Restart);
    assert!(!restart.stop && !restart.wait_before_restart);
}

#[test]
fn supervisor_spawns_serves_and_restarts_after_protocol_end() {
    let mut supervisor = Supervisor::new(config(), 0);
    assert!(matches!(supervisor.start().as_slice(), [SupervisorAction::Spawn]));
    assert!(matches!(supervisor.spawned(10).as_slice(), [SupervisorAction::SendInit]));
    assert_eq!(supervisor.phase, SupervisorPhase::Running);

    let out = supervisor.stdout_line("status {\"items\":[]}");
    assert!(matches!(out.as_slice(), [SupervisorAction::Forward(_)]));
    let out = supervisor.stdout_line("bogus");
    assert!(matches!(out.as_slice(), [SupervisorAction::IgnoreLine(_)]));
    assert!(matches!(supervisor.outbound().as_slice(), [SupervisorAction::WriteToChild]));
    assert!(supervisor.stderr_line("", 20).is_empty());
    assert!(matches!(supervisor.stderr_line("oops", 20).as_slice(), [SupervisorAction::LogStderr]));

    let out = supervisor.protocol_ended();
    assert!(matches!(
        out.as_slice(),
        [SupervisorAction::FinishChild, SupervisorAction::NotifyExited, SupervisorAction::Sleep(250)]
    ));
    assert_eq!(supervisor.phase, SupervisorPhase::Waiting);
    assert!(matches!(supervisor.start().as_slice(), [SupervisorAction::Spawn]));
}

#[test]
fn supervisor_stops_without_a_command_or_an_applet() {
    let mut empty = Supervisor::new(Config::default(), 0);
    assert!(matches!(
        empty.start().as_slice(),
        [SupervisorAction::NotifyExited, SupervisorAction::Stop]
    ));
    assert_eq!(empty.phase, SupervisorPhase::Stopped);
    assert!(empty.start().is_empty());

    let mut supervisor = Supervisor::new(config(), 0);
    supervisor.start();
    supervisor.spawned(0);
    let out = supervisor.applet_gone();
    assert!(matches!(
        out.as_slice(),
        [SupervisorAction::FinishChild, SupervisorAction::NotifyExited, SupervisorAction::Stop]
    ));
    assert!(supervisor.stdout_line("status {}").is_empty());
}

#[test]
fn supervisor_retries_failed_spawns_and_takes_new_configuration() {
    let mut supervisor = Supervisor::new(config(), 0);
    supervisor.start();
    assert!(matches!(
        supervisor.spawn_failed().as_slice(),
        [SupervisorAction::NotifyExited, SupervisorAction::Sleep(250)]
    ));
    supervisor.start();
    assert!(matches!(
        supervisor.pipe_missing().as_slice(),
        [SupervisorAction::NotifyExited, SupervisorAction::Kill, SupervisorAction::Sleep(250)]
    ));
    supervisor.start();
    supervisor.spawned(0);
    let next = Config {
        command: vec!["/bin/other".into()],
        restart_delay_ms: 500,
        ..Config::default()
    };
    let out = supervisor.reconfigured(next);
    assert!(matches!(
        out.as_slice(),
        [SupervisorAction::FinishChild, SupervisorAction::NotifyExited]
    ));
    assert_eq!(supervisor.config.command, vec!["/bin/other".to_string()]);
    assert_eq!(supervisor.phase, SupervisorPhase::Starting);
}
