use chat_e2e::driver::{DriverInfo, DriverKind, DriverLocation};
use chat_e2e::error::HarnessError;
use chat_e2e::handle::DriverProcessHandle;
use chat_e2e::harness::{
    application_command, demo_mode, describe_failure, SetupStage, TeardownStep, TestHarness,
};
use chat_e2e::launcher::{NetworkServiceLauncher, ServiceEndpoint};
use chat_e2e::locator::ResolutionFailure;
use chat_e2e::poll::PollEvent;
use chat_e2e::session::{SessionHandle, WindowStep};

fn endpoint(name: &str, port: u16, handle: u32) -> ServiceEndpoint<u32> {
    let mut launcher = NetworkServiceLauncher::start(name, port, handle);
    launcher.step(PollEvent::Elapsed(0));
    launcher.step(PollEvent::Probed(true));
    launcher.finish().unwrap()
}

fn local_info() -> DriverInfo {
    DriverInfo { kind: DriverKind::Firefox, location: DriverLocation::Local { path: "geckodriver".to_string(), args: vec![] } }
}

fn remote_info() -> DriverInfo {
    DriverInfo { kind: DriverKind::Chrome, location: DriverLocation::Remote { url: "http://grid/".to_string() } }
}

/// What a list of steps asks for, by name, handle and whether to report.
fn names(steps: &[TeardownStep<u32>]) -> Vec<(&'static str, u32, bool)> {
    steps
        .iter()
        .map(|step| match step {
            TeardownStep::CloseSession => ("session", 0, false),
            TeardownStep::StopDriver(t) => ("driver", t.handle, t.report),
            TeardownStep::StopApplication(t) => ("application", t.handle, t.report),
        })
        .collect()
}

fn complete() -> TestHarness<u32> {
    let mut harness = TestHarness::new();
    assert_eq!(harness.next_stage(), Some(SetupStage::Application));
    harness.application_started(endpoint("application", 8080, 1)).unwrap();
    assert_eq!(harness.next_stage(), Some(SetupStage::Resolution));
    harness.driver_resolved(local_info()).unwrap();
    assert_eq!(harness.next_stage(), Some(SetupStage::Driver));
    harness.driver_started(DriverProcessHandle::launched(endpoint("webdriver", 4444, 2))).unwrap();
    assert_eq!(harness.next_stage(), Some(SetupStage::Session));
    harness.session_opened(SessionHandle::open("s1", false)).unwrap();
    assert_eq!(harness.next_stage(), None);
    harness
}

#[test]
fn the_fixture_exposes_the_application_and_the_session() {
    let harness = complete();
    assert_eq!(harness.app_url(), Some("http://127.0.0.1:8080/"));
    assert_eq!(harness.driver_url(), Some("http://127.0.0.1:4444/"));
    assert_eq!(harness.session().unwrap().id(), "s1");
    assert_eq!(harness.driver_info().unwrap().browser(), DriverKind::Firefox);
}

#[test]
fn teardown_closes_the_session_then_stops_the_driver_then_the_application() {
    let mut harness = complete();
    let steps = harness.teardown(false);
    assert_eq!(names(&steps), vec![("session", 0, false), ("driver", 2, false), ("application", 1, false)]);
    assert!(!harness.session().unwrap().is_open());
}

#[test]
fn teardown_after_a_failure_prints_the_output() {
    let mut harness = complete();
    let steps = harness.teardown(true);
    assert_eq!(names(&steps), vec![("session", 0, false), ("driver", 2, true), ("application", 1, true)]);
}

#[test]
fn a_second_teardown_asks_for_nothing() {
    let mut harness = complete();
    assert_eq!(harness.teardown(false).len(), 3);
    assert!(harness.teardown(false).is_empty());
    assert!(harness.teardown(true).is_empty());
    assert_eq!(harness.next_stage(), None);
    assert_eq!(harness.app_url(), Some("http://127.0.0.1:8080/"));
}

#[test]
fn teardown_takes_down_what_was_set_up() {
    let mut harness = TestHarness::<u32>::new();
    assert!(harness.teardown(true).is_empty());

    let mut harness = TestHarness::new();
    harness.application_started(endpoint("application", 8080, 1)).unwrap();
    assert_eq!(names(&harness.teardown(true)), vec![("application", 1, true)]);

    let mut harness = TestHarness::new();
    harness.application_started(endpoint("application", 8080, 1)).unwrap();
    harness.driver_resolved(local_info()).unwrap();
    harness.driver_started(DriverProcessHandle::launched(endpoint("webdriver", 4444, 2))).unwrap();
    assert_eq!(names(&harness.teardown(true)), vec![("driver", 2, true), ("application", 1, true)]);
}

#[test]
fn a_remote_driver_is_not_stopped() {
    let mut harness = TestHarness::new();
    harness.application_started(endpoint("application", 8080, 1)).unwrap();
    harness.driver_resolved(remote_info()).unwrap();
    let handle = DriverProcessHandle::connect(harness.driver_info().unwrap().location()).unwrap();
    harness.driver_started(handle).unwrap();
    harness.session_opened(SessionHandle::open("s", true)).unwrap();
    assert_eq!(harness.driver_url(), Some("http://grid/"));
    assert_eq!(names(&harness.teardown(false)), vec![("session", 0, false), ("application", 1, false)]);
}

#[test]
fn what_was_stopped_before_is_not_stopped_again() {
    let mut app = endpoint("application", 8080, 1);
    app.stop(false);
    let mut harness = TestHarness::new();
    harness.application_started(app).unwrap();
    harness.driver_resolved(local_info()).unwrap();
    harness.driver_started(DriverProcessHandle::launched(endpoint("webdriver", 4444, 2))).unwrap();
    let mut session = SessionHandle::open("s", false);
    session.close();
    harness.session_opened(session).unwrap();
    assert_eq!(names(&harness.teardown(false)), vec![("driver", 2, false)]);
}

#[test]
fn the_steps_of_the_set_up_are_taken_in_their_order() {
    let mut harness = TestHarness::<u32>::new();
    assert!(harness.driver_resolved(local_info()).is_err());
    assert!(harness.driver_started(DriverProcessHandle::Remote("http://x/".to_string())).is_err());
    assert!(harness.session_opened(SessionHandle::open("s", false)).is_err());
    assert_eq!(harness.next_stage(), Some(SetupStage::Application));
    assert!(harness.app_url().is_none() && harness.driver_url().is_none());
    assert!(harness.session().is_none() && harness.driver_info().is_none());

    harness.application_started(endpoint("application", 1, 1)).unwrap();
    let back = harness.application_started(endpoint("application", 2, 9)).unwrap_err();
    assert_eq!(back.get_url(), "http://127.0.0.1:2/");
    assert_eq!(harness.app_url(), Some("http://127.0.0.1:1/"));
    assert!(harness.session_opened(SessionHandle::open("s", false)).is_err());
}

#[test]
fn the_driver_is_settled_on_once() {
    let mut harness = TestHarness::<u32>::new();
    harness.application_started(endpoint("application", 1, 1)).unwrap();
    harness.driver_resolved(local_info()).unwrap();
    let back = harness.driver_resolved(remote_info()).unwrap_err();
    assert_eq!(back.kind, DriverKind::Chrome);
    assert_eq!(harness.driver_info().unwrap().kind, DriverKind::Firefox);
}

#[test]
fn the_window_is_switched_through_the_fixture() {
    let mut harness = complete();
    assert_eq!(harness.ensure_window("w1", "w2"), WindowStep::Switch { pause_ms: 0 });
    assert_eq!(harness.ensure_window("w2", "w2"), WindowStep::Stay);
    assert_eq!(TestHarness::<u32>::new().ensure_window("a", "b"), WindowStep::Stay);
}

#[test]
fn the_application_is_told_its_port_and_its_files() {
    let command = application_command(40001);
    assert_eq!(command.program, "../target/debug/backend");
    assert!(command.args.is_empty());
    assert_eq!(
        command.env,
        vec![("PORT".to_string(), "40001".to_string()), ("STATIC_ASSETS".to_string(), "../frontend/dist".to_string())]
    );
}

#[test]
fn demo_mode_is_asked_for_by_1_or_true() {
    assert!(demo_mode(Some("1")));
    assert!(demo_mode(Some("true")));
    assert!(demo_mode(Some("TRUE")));
    assert!(demo_mode(Some("True")));
    assert!(!demo_mode(Some("0")));
    assert!(!demo_mode(Some("")));
    assert!(!demo_mode(Some("yes")));
    assert!(!demo_mode(Some("11")));
    assert!(!demo_mode(Some(" true")));
    assert!(!demo_mode(None));
}

#[test]
fn a_failure_is_told_with_the_step_that_it_stopped() {
    assert_eq!(
        describe_failure(SetupStage::Application, &HarnessError::ReadinessTimeout),
        "Could not start application process: server failed to bind port during startup"
    );
    assert_eq!(
        describe_failure(SetupStage::Driver, &HarnessError::spawn_failure("geckodriver", "No such file or directory (os error 2)")),
        "Could not determine/start webdriver process: Failed to spawn `geckodriver`: No such file or directory (os error 2)"
    );
    assert_eq!(
        describe_failure(SetupStage::Session, &HarnessError::session_failure("connection refused")),
        "Could not create webdriver client: connection refused"
    );
    assert_eq!(
        describe_failure(
            SetupStage::Resolution,
            &HarnessError::DriverResolutionFailure(ResolutionFailure::AutoInstallUnsupported(DriverKind::Edge))
        ),
        "Auto downloading is not supported for msedgedriver"
    );
    assert_eq!(
        HarnessError::InvalidAddress { address: "http://127.0.0.1:x".to_string() }.message(),
        "not a web address: http://127.0.0.1:x"
    );
    assert_eq!(HarnessError::AssertionFailure("a != b".to_string()).message(), "a != b");
}
