use chat_e2e::process::{captured_or_empty, status_line, stream_block, ManagedProcess};

#[test]
fn stop_called_twice_releases_the_process_once() {
    let mut process = ManagedProcess::spawn("application", 4711u32);
    assert!(process.is_running());
    let first = process.stop(true).expect("the first stop hands out the handle");
    assert_eq!(first.handle, 4711);
    assert!(first.report);
    assert!(!process.is_running());
    assert!(process.stop(true).is_none());
    assert!(process.stop(false).is_none());
    assert!(!process.is_running());
    assert_eq!(process.name(), "application");
}

#[test]
fn a_quiet_stop_asks_for_no_report() {
    let mut process = ManagedProcess::spawn("webdriver", "handle".to_string());
    let termination = process.stop(false).unwrap();
    assert_eq!(termination.handle, "handle");
    assert!(!termination.report);
    assert!(process.stop(true).is_none());
}

#[test]
fn the_status_line_names_the_process() {
    assert_eq!(status_line("application", Some("exit status: 0")), "application status: exit status: 0\n");
    assert_eq!(status_line("webdriver", Some("signal: 9 (SIGKILL)")), "webdriver status: signal: 9 (SIGKILL)\n");
    assert_eq!(status_line("webdriver", None), "webdriver status: None\n");
}

#[test]
fn a_stream_is_printed_indented_under_its_name() {
    assert_eq!(stream_block("application", "stdout", b"listening\non 8080\n"), "application stdout:\n    listening\n    on 8080\n\n");
    assert_eq!(stream_block("application", "stderr", b"oops"), "application stderr:\n    oops\n\n");
}

#[test]
fn an_empty_stream_is_not_printed() {
    assert_eq!(stream_block("application", "stdout", b""), "");
}

#[test]
fn bytes_that_are_no_text_are_replaced() {
    assert_eq!(stream_block("p", "stdout", &[b'a', 0xff, b'b']), "p stdout:\n    a\u{fffd}b\n\n");
    assert_eq!(stream_block("p", "stdout", "grüße\r\n".as_bytes()), "p stdout:\n    grüße\n\n");
}

#[test]
fn the_report_holds_status_and_both_streams() {
    let mut process = ManagedProcess::spawn("application", ());
    process.stop(true);
    let report = process.report(Some("exit status: 1"), b"out 1\nout 2", b"err");
    assert_eq!(
        report,
        "application status: exit status: 1\napplication stdout:\n    out 1\n    out 2\n\napplication stderr:\n    err\n\n"
    );
    assert_eq!(process.report(None, b"", b""), "application status: None\n");
    assert_eq!(process.report(None, b"", b"e"), "application status: None\napplication stderr:\n    e\n\n");
}

#[test]
fn a_stream_that_could_not_be_read_counts_as_empty() {
    assert_eq!(captured_or_empty(Some(vec![1, 2, 3])), vec![1, 2, 3]);
    assert_eq!(captured_or_empty(None), Vec::<u8>::new());
}
