use chat_e2e::driver::DriverLocation;
use chat_e2e::error::HarnessError;
use chat_e2e::handle::{driver_launch_command, DriverProcessHandle};
use chat_e2e::launcher::{endpoint_address, readiness_policy, NetworkServiceLauncher};
use chat_e2e::poll::{PollAction, PollEvent, PollPhase, PollPolicy, Poller};

/// Runs a poller against a clock that advances by `probe_ms` for each probe
/// and by the pause for each pause; the probe succeeds from `ready_at` on.
/// Returns how the poller ended, when, and how many probes were made.
fn run(policy: PollPolicy, probe_ms: u64, ready_at: Option<u64>) -> (PollAction, u64, u32) {
    let mut poller = Poller::new(policy);
    let mut clock = 0u64;
    let mut probes = 0u32;
    let mut action = poller.action();
    for _ in 0..100_000 {
        action = match action {
            PollAction::ReadClock => poller.step(PollEvent::Elapsed(clock)),
            PollAction::Probe => {
                probes += 1;
                let ok = ready_at.map_or(false, |t| clock >= t);
                clock += probe_ms;
                poller.step(PollEvent::Probed(ok))
            }
            PollAction::Pause(ms) => {
                clock += ms;
                poller.step(PollEvent::Paused)
            }
            PollAction::Succeed | PollAction::GiveUp => return (action, clock, probes),
        };
    }
    panic!("the poller did not end");
}

#[test]
fn a_service_that_never_binds_its_socket_times_out_between_5_and_5_5_seconds() {
    for probe_ms in [0, 1, 7, 50, 100, 250, 399, 400] {
        let (action, clock, probes) = run(readiness_policy(), probe_ms, None);
        assert_eq!(action, PollAction::GiveUp);
        assert!(clock >= 5000, "gave up after {} ms", clock);
        assert!(clock < 5500, "gave up after {} ms", clock);
        assert!(probes >= 10);
    }
}

#[test]
fn a_service_is_tried_every_hundred_milliseconds() {
    let (action, clock, probes) = run(readiness_policy(), 0, None);
    assert_eq!((action, clock, probes), (PollAction::GiveUp, 5000, 50));
}

#[test]
fn a_service_that_answers_is_ready_at_once() {
    assert_eq!(run(readiness_policy(), 0, Some(0)), (PollAction::Succeed, 0, 1));
    assert_eq!(run(readiness_policy(), 0, Some(250)), (PollAction::Succeed, 300, 4));
    assert_eq!(run(readiness_policy(), 0, Some(4900)), (PollAction::Succeed, 4900, 50));
    assert_eq!(run(readiness_policy(), 0, Some(4901)), (PollAction::GiveUp, 5000, 50));
}

#[test]
fn the_readiness_policy() {
    assert_eq!(readiness_policy(), PollPolicy { timeout_ms: 5000, interval_ms: 100 });
}

#[test]
fn the_poller_goes_from_phase_to_phase() {
    let mut poller = Poller::new(PollPolicy { timeout_ms: 10, interval_ms: 3 });
    assert_eq!(poller.phase(), PollPhase::Timing);
    assert_eq!(poller.action(), PollAction::ReadClock);
    assert!(!poller.is_finished());
    assert_eq!(poller.step(PollEvent::Elapsed(9)), PollAction::Probe);
    assert_eq!(poller.phase(), PollPhase::Probing);
    assert_eq!(poller.step(PollEvent::Probed(false)), PollAction::Pause(3));
    assert_eq!(poller.phase(), PollPhase::Pausing);
    assert_eq!(poller.step(PollEvent::Paused), PollAction::ReadClock);
    assert_eq!(poller.step(PollEvent::Elapsed(10)), PollAction::GiveUp);
    assert_eq!(poller.phase(), PollPhase::TimedOut);
    assert!(poller.is_finished());
    assert!(!poller.has_succeeded());
    assert_eq!(poller.policy(), PollPolicy { timeout_ms: 10, interval_ms: 3 });
}

#[test]
fn the_poller_ignores_what_it_did_not_ask_for() {
    let mut poller = Poller::new(readiness_policy());
    assert_eq!(poller.step(PollEvent::Probed(true)), PollAction::ReadClock);
    assert_eq!(poller.step(PollEvent::Paused), PollAction::ReadClock);
    assert_eq!(poller.step(PollEvent::Elapsed(0)), PollAction::Probe);
    assert_eq!(poller.step(PollEvent::Elapsed(9999)), PollAction::Probe);
    assert_eq!(poller.step(PollEvent::Paused), PollAction::Probe);
    assert_eq!(poller.step(PollEvent::Probed(false)), PollAction::Pause(100));
    assert_eq!(poller.step(PollEvent::Probed(true)), PollAction::Pause(100));
    assert_eq!(poller.step(PollEvent::Elapsed(9999)), PollAction::Pause(100));
}

#[test]
fn the_end_of_polling_is_final() {
    let mut poller = Poller::new(readiness_policy());
    poller.step(PollEvent::Elapsed(0));
    assert_eq!(poller.step(PollEvent::Probed(true)), PollAction::Succeed);
    assert!(poller.has_succeeded());
    for event in [PollEvent::Elapsed(6000), PollEvent::Probed(false), PollEvent::Paused] {
        assert_eq!(poller.step(event), PollAction::Succeed);
    }
    let mut poller = Poller::new(readiness_policy());
    assert_eq!(poller.step(PollEvent::Elapsed(5000)), PollAction::GiveUp);
    for event in [PollEvent::Elapsed(0), PollEvent::Probed(true), PollEvent::Paused] {
        assert_eq!(poller.step(event), PollAction::GiveUp);
    }
}

#[test]
fn a_zero_timeout_gives_up_without_a_probe() {
    let (action, clock, probes) = run(PollPolicy { timeout_ms: 0, interval_ms: 100 }, 5, Some(0));
    assert_eq!((action, clock, probes), (PollAction::GiveUp, 0, 0));
}

#[test]
fn the_address_of_a_launched_service() {
    assert_eq!(endpoint_address(8080), "http://127.0.0.1:8080");
    assert_eq!(endpoint_address(0), "http://127.0.0.1:0");
    assert_eq!(endpoint_address(65535), "http://127.0.0.1:65535");
}

fn connected(port: u16) -> NetworkServiceLauncher<&'static str> {
    let mut launcher = NetworkServiceLauncher::start("application", port, "child");
    assert_eq!(launcher.port(), port);
    assert_eq!(launcher.action(), PollAction::ReadClock);
    assert_eq!(launcher.step(PollEvent::Elapsed(0)), PollAction::Probe);
    assert_eq!(launcher.step(PollEvent::Probed(false)), PollAction::Pause(100));
    assert_eq!(launcher.step(PollEvent::Paused), PollAction::ReadClock);
    assert_eq!(launcher.step(PollEvent::Elapsed(130)), PollAction::Probe);
    assert_eq!(launcher.step(PollEvent::Probed(true)), PollAction::Succeed);
    launcher
}

#[test]
fn a_launch_that_connected_hands_out_the_service() {
    let mut endpoint = connected(40123).finish().unwrap();
    assert_eq!(endpoint.get_url(), "http://127.0.0.1:40123/");
    assert!(endpoint.is_running());
    let termination = endpoint.stop(false).unwrap();
    assert_eq!(termination.handle, "child");
    assert!(!termination.report);
    assert!(endpoint.stop(true).is_none());
    assert!(!endpoint.is_running());
    assert_eq!(endpoint.get_url(), "http://127.0.0.1:40123/");
    assert_eq!(endpoint.report(Some("killed"), b"", b"x"), "application status: killed\napplication stderr:\n    x\n\n");
}

#[test]
fn the_address_of_the_service_is_in_normal_form() {
    assert_eq!(connected(80).finish().unwrap().get_url(), "http://127.0.0.1/");
    assert_eq!(connected(1).finish().unwrap().get_url(), "http://127.0.0.1:1/");
}

#[test]
fn a_launch_that_timed_out_stops_the_process_and_prints_its_output() {
    let mut launcher = NetworkServiceLauncher::start("webdriver", 40124, 7u8);
    let mut clock = 0;
    loop {
        match launcher.action() {
            PollAction::ReadClock => launcher.step(PollEvent::Elapsed(clock)),
            PollAction::Probe => launcher.step(PollEvent::Probed(false)),
            PollAction::Pause(ms) => {
                clock += ms;
                launcher.step(PollEvent::Paused)
            }
            PollAction::GiveUp => break,
            PollAction::Succeed => panic!("no probe succeeded"),
        };
    }
    assert_eq!(clock, 5000);
    let mut failure = launcher.finish().unwrap_err();
    assert!(matches!(failure.error, HarnessError::ReadinessTimeout));
    assert_eq!(failure.error.message(), "server failed to bind port during startup");
    let termination = failure.termination.unwrap();
    assert_eq!(termination.handle, 7);
    assert!(termination.report);
    assert!(!failure.process.is_running());
    assert!(failure.process.stop(true).is_none());
    assert_eq!(failure.process.name(), "webdriver");
}

#[test]
fn a_launch_that_is_ended_early_hands_out_no_service() {
    let mut launcher = NetworkServiceLauncher::start("application", 1, ());
    let failure = NetworkServiceLauncher::start("application", 1, ()).finish().unwrap_err();
    assert!(matches!(failure.error, HarnessError::ReadinessTimeout));
    launcher.step(PollEvent::Elapsed(10));
    let failure = launcher.finish().unwrap_err();
    assert!(matches!(failure.error, HarnessError::ReadinessTimeout));
    assert!(failure.termination.is_some());
}

#[test]
fn a_local_driver_is_started_with_its_arguments_and_the_port() {
    let location = DriverLocation::Local {
        path: "/opt/geckodriver".to_string(),
        args: vec!["--log".to_string(), "debug".to_string()],
    };
    let command = driver_launch_command(&location, 4444).unwrap();
    assert_eq!(command.program, "/opt/geckodriver");
    assert_eq!(command.args, vec!["--log", "debug", "--port=4444"]);
    assert!(command.env.is_empty());
    assert!(DriverProcessHandle::<()>::connect(&location).is_none());

    let bare = DriverLocation::Local { path: "chromedriver".to_string(), args: vec![] };
    assert_eq!(driver_launch_command(&bare, 0).unwrap().args, vec!["--port=0"]);
    assert_eq!(driver_launch_command(&bare, 65535).unwrap().args, vec!["--port=65535"]);
}

#[test]
fn a_remote_driver_needs_no_process() {
    let location = DriverLocation::Remote { url: "http://x/".to_string() };
    assert!(driver_launch_command(&location, 4444).is_none());
    let mut handle = DriverProcessHandle::<u8>::connect(&location).unwrap();
    assert_eq!(handle.get_url(), "http://x/");
    assert!(handle.stop(true).is_none());
    assert_eq!(handle.get_url(), "http://x/");
}

#[test]
fn a_launched_driver_is_stopped_once() {
    let endpoint = connected(4445).finish().unwrap();
    let mut handle = DriverProcessHandle::launched(endpoint);
    assert_eq!(handle.get_url(), "http://127.0.0.1:4445/");
    let termination = handle.stop(true).unwrap();
    assert_eq!((termination.handle, termination.report), ("child", true));
    assert!(handle.stop(true).is_none());
    assert_eq!(handle.get_url(), "http://127.0.0.1:4445/");
}

#[test]
fn a_command_is_written_on_one_line() {
    let location = DriverLocation::Local {
        path: "/opt/geckodriver".to_string(),
        args: vec!["--log".to_string(), "debug".to_string()],
    };
    let command = driver_launch_command(&location, 4444).unwrap();
    assert_eq!(command.text(), "/opt/geckodriver --log debug --port=4444");
    match command.spawn_failure("permission denied") {
        HarnessError::SpawnFailure { command, reason } => {
            assert_eq!(command, "/opt/geckodriver --log debug --port=4444");
            assert_eq!(reason, "permission denied");
        }
        other => panic!("expected a failure to spawn, got {:?}", other),
    }
    assert_eq!(
        command.spawn_failure("permission denied").message(),
        "Failed to spawn `/opt/geckodriver --log debug --port=4444`: permission denied"
    );
    let bare = chat_e2e::launcher::CommandLine { program: "backend".to_string(), args: vec![], env: vec![] };
    assert_eq!(bare.text(), "backend");
}
