use chat_e2e::driver::DriverKind;
use chat_e2e::error::HarnessError;
use chat_e2e::pages::{expect_last_message, expect_messages, page_plan, same_texts, PagePlan};
use chat_e2e::poll::{PollAction, PollPolicy};
use chat_e2e::session::{
    determine_capabilities, elements_showing, query_policy, Capabilities, ElementQuery,
    SessionHandle, WindowStep,
};

fn ids(list: &[&str]) -> Vec<String> {
    list.iter().map(|s| s.to_string()).collect()
}

/// Runs a query against a page on which the elements `found` appear at
/// `appear_at` milliseconds; every probe takes `probe_ms`.
fn run_query(appear_at: Option<u64>, found: &[&str], probe_ms: u64) -> (ElementQuery, u64, u32) {
    let mut query = ElementQuery::new();
    let mut clock = 0u64;
    let mut probes = 0u32;
    let mut action = query.action();
    for _ in 0..10_000 {
        action = match action {
            PollAction::ReadClock => query.elapsed(clock),
            PollAction::Probe => {
                probes += 1;
                let there = appear_at.map_or(false, |t| clock >= t);
                clock += probe_ms;
                query.probed(if there { ids(found) } else { Vec::new() })
            }
            PollAction::Pause(ms) => {
                clock += ms;
                query.paused()
            }
            PollAction::Succeed | PollAction::GiveUp => return (query, clock, probes),
        };
    }
    panic!("the query did not end");
}

#[test]
fn query_single_returns_the_element_as_soon_as_it_appears() {
    let (query, clock, probes) = run_query(Some(0), &["e1"], 0);
    assert_eq!(query.single().unwrap(), "e1");
    assert_eq!((clock, probes), (0, 1));

    let (query, clock, probes) = run_query(Some(1200), &["e7"], 0);
    assert_eq!(query.single().unwrap(), "e7");
    assert_eq!((clock, probes), (1500, 4));

    let (query, clock, _) = run_query(Some(2500), &["late"], 10);
    assert_eq!(query.single().unwrap(), "late");
    assert!(clock < 3000);
}

#[test]
fn query_single_fails_once_the_window_has_passed_without_a_match() {
    for probe_ms in [0, 20, 499] {
        let (query, clock, probes) = run_query(None, &[], probe_ms);
        assert_eq!(query.action(), PollAction::GiveUp);
        assert!(clock >= 3000 && clock < 4000, "{}", clock);
        assert!(probes >= 3);
        match query.single() {
            Err(HarnessError::SessionFailure(text)) => assert_eq!(text, "no such element"),
            other => panic!("expected a failure, got {:?}", other),
        }
        assert!(query.all().is_empty());
    }
    let (_, clock, probes) = run_query(None, &[], 0);
    assert_eq!((clock, probes), (3000, 6));
}

#[test]
fn an_element_that_appears_too_late_is_not_found() {
    let (query, clock, _) = run_query(Some(3000), &["e"], 0);
    assert!(query.single().is_err());
    assert_eq!(clock, 3000);
}

#[test]
fn query_single_fails_on_more_than_one_match() {
    let (query, _, _) = run_query(Some(0), &["a", "b"], 0);
    match query.single() {
        Err(HarnessError::SessionFailure(text)) => assert_eq!(text, "too many elements received"),
        other => panic!("expected a failure, got {:?}", other),
    }
    assert_eq!(query.all(), ids(&["a", "b"]));
}

#[test]
fn query_all_returns_every_match() {
    let (query, clock, _) = run_query(Some(600), &["p1", "p2", "p3"], 0);
    assert_eq!(query.all(), ids(&["p1", "p2", "p3"]));
    assert_eq!(clock, 1000);
}

#[test]
fn a_query_that_has_not_run_has_found_nothing() {
    let query = ElementQuery::new();
    assert!(query.single().is_err());
    assert!(query.all().is_empty());
    assert_eq!(query.action(), PollAction::ReadClock);
}

#[test]
fn a_probe_that_was_not_asked_for_is_ignored() {
    let mut query = ElementQuery::new();
    assert_eq!(query.probed(ids(&["x"])), PollAction::ReadClock);
    assert!(query.all().is_empty());
    assert_eq!(query.elapsed(0), PollAction::Probe);
    assert_eq!(query.probed(Vec::new()), PollAction::Pause(500));
    assert_eq!(query.probed(ids(&["x"])), PollAction::Pause(500));
    assert!(query.all().is_empty());
    assert_eq!(query.paused(), PollAction::ReadClock);
    assert_eq!(query.elapsed(3000), PollAction::GiveUp);
    assert_eq!(query.probed(ids(&["x"])), PollAction::GiveUp);
    assert!(query.single().is_err());
}

#[test]
fn the_query_policy() {
    assert_eq!(query_policy(), PollPolicy { timeout_ms: 3000, interval_ms: 500 });
    let session = SessionHandle::open("s", false);
    assert_eq!(session.query().action(), PollAction::ReadClock);
}

#[test]
fn browsers_run_headless_unless_shown() {
    let table = [
        (DriverKind::Firefox, false, true),
        (DriverKind::Firefox, true, false),
        (DriverKind::Chrome, false, true),
        (DriverKind::Chrome, true, false),
        (DriverKind::Safari, false, false),
        (DriverKind::Safari, true, false),
        (DriverKind::Edge, false, false),
        (DriverKind::Edge, true, false),
    ];
    for (browser, demo_mode, headless) in table {
        assert_eq!(determine_capabilities(browser, demo_mode), Capabilities { browser, headless });
    }
}

#[test]
fn the_pause_is_made_only_in_demo_mode() {
    assert_eq!(SessionHandle::open("a", true).demo_pause(), 1000);
    assert_eq!(SessionHandle::open("a", false).demo_pause(), 0);
}

#[test]
fn the_session_is_closed_once() {
    let mut session = SessionHandle::open("session-1", true);
    assert!(session.is_open());
    assert_eq!(session.id(), "session-1");
    assert!(session.demo_mode());
    assert!(session.close());
    assert!(!session.is_open());
    assert!(!session.close());
    assert!(!session.close());
    assert_eq!(session.id(), "session-1");
}

#[test]
fn the_window_is_switched_only_where_it_differs() {
    let mut session = SessionHandle::open("s", true);
    assert_eq!(session.ensure_window("w1", "w1"), WindowStep::Stay);
    assert_eq!(session.ensure_window("w1", "w2"), WindowStep::Switch { pause_ms: 1000 });
    assert_eq!(session.window(), Some("w2"));
    let mut session = SessionHandle::open("s", false);
    assert_eq!(session.window(), None);
    assert_eq!(session.ensure_window("w2", "w1"), WindowStep::Switch { pause_ms: 0 });
    assert_eq!(session.window(), Some("w1"));
    assert_eq!(session.ensure_window("", ""), WindowStep::Stay);
}

#[test]
fn a_page_is_opened_in_a_new_tab_where_the_application_is_shown_already() {
    assert_eq!(page_plan("http://127.0.0.1:8080/", "http://127.0.0.1:8080/"), PagePlan::NewTab);
    assert_eq!(page_plan("http://127.0.0.1:8080/", "about:blank"), PagePlan::CurrentWindow);
    assert_eq!(page_plan("http://127.0.0.1:8080/", "http://127.0.0.1:8080"), PagePlan::CurrentWindow);
}

#[test]
fn the_messages_shown_are_held_against_those_expected() {
    let expected = ids(&["<User#2>: Hi! How are you?", "You: Hi there!"]);
    assert!(expect_messages(&expected.clone(), &expected).is_ok());
    assert!(expect_messages(&Vec::new(), &Vec::new()).is_ok());
    let actual = ids(&["<User#2>: Hi! How are you?"]);
    match expect_messages(&actual, &expected) {
        Err(HarnessError::AssertionFailure(text)) => assert_eq!(
            text,
            "Expected messages:\n <User#2>: Hi! How are you?\n You: Hi there!\nare not equal to actual ones:\n <User#2>: Hi! How are you?"
        ),
        other => panic!("expected a failure, got {:?}", other),
    }
    assert!(expect_messages(&ids(&["b", "a"]), &ids(&["a", "b"])).is_err());
    assert!(expect_messages(&ids(&["a", "b", "c"]), &ids(&["a", "b"])).is_err());
    assert!(same_texts(&ids(&["a", "b"]), &ids(&["a", "b"])));
    assert!(!same_texts(&ids(&["a", "b"]), &ids(&["a", "B"])));
    assert!(!same_texts(&ids(&[]), &ids(&[""])));
}

#[test]
fn the_last_message_is_held_against_the_one_expected() {
    assert!(expect_last_message(true, None, "hi").is_ok());
    assert!(expect_last_message(true, Some("other"), "hi").is_ok());
    assert!(expect_last_message(false, Some("hi"), "hi").is_ok());
    match expect_last_message(false, Some("You: x"), "You: y") {
        Err(HarnessError::AssertionFailure(text)) => {
            assert_eq!(text, "The last message \"You: x\" is not equal to the expected one \"You: y\"")
        }
        other => panic!("expected a failure, got {:?}", other),
    }
    match expect_last_message(false, None, "hi") {
        Err(HarnessError::SessionFailure(text)) => assert_eq!(text, "Could not get the last chat message"),
        other => panic!("expected a failure, got {:?}", other),
    }
}

#[test]
fn elements_are_picked_by_the_text_that_they_show() {
    let found: Vec<(String, String)> = [("e1", "You: hi"), ("e2", "<User#2>: hi"), ("e3", "You: hi"), ("e4", "you: hi"), ("e5", "")]
        .iter()
        .map(|(id, text)| (id.to_string(), text.to_string()))
        .collect();
    assert_eq!(elements_showing(&found, "You: hi"), ids(&["e1", "e3"]));
    assert_eq!(elements_showing(&found, "<User#2>: hi"), ids(&["e2"]));
    assert_eq!(elements_showing(&found, ""), ids(&["e5"]));
    assert!(elements_showing(&found, "You").is_empty());
    assert!(elements_showing(&Vec::new(), "You: hi").is_empty());
}
