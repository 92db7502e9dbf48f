use rotolog::Registry;
use rotolog::Severity;
use rotolog::initlogger;
use rotolog::setup_logger;

fn contains(hay: &[u8], needle: &[u8]) -> bool {
    hay.windows(needle.len()).any(|w| w == needle)
}

#[test]
fn below_threshold_writes_nothing() {
    let mut registry = Registry::new();
    setup_logger(&mut registry, true, true, b"app.log".to_vec(), 1024, Severity::Warn, false, 2, false);
    let out = registry.info(b"quiet".to_vec(), None);
    assert!(out.console_line.is_none());
    assert!(out.file_line.is_none());
    assert!(!out.failed);
    assert!(!out.rotated);
    // Zero writes reached either sink's underlying writer.
    assert!(registry.active.console.out.is_empty());
    assert!(registry.active.file.live.is_empty());
}

#[test]
fn at_threshold_reaches_both_sinks() {
    let mut registry = Registry::new();
    setup_logger(&mut registry, true, true, b"app.log".to_vec(), 1024, Severity::Warn, false, 2, false);
    let out = registry.warn(b"loud".to_vec(), None);
    let console_line = out.console_line.expect("console line");
    let file_line = out.file_line.expect("file line");
    assert!(contains(&console_line, b"[WARN    ] loud\n"));
    assert_eq!(console_line, file_line);
    assert_eq!(registry.active.console.out, console_line);
    assert_eq!(registry.active.file.live, vec![file_line]);
}

#[test]
fn disabled_sinks_succeed_silently() {
    // Both sinks disabled: every call succeeds, no output, no file.
    let mut registry = Registry::new();
    setup_logger(&mut registry, false, false, b"app.log".to_vec(), 1024, Severity::Trace, false, 2, false);
    let out = registry.error(b"nobody listens".to_vec(), None);
    assert!(!out.failed);
    assert!(out.console_line.is_none());
    assert!(out.file_line.is_none());
    assert!(registry.active.console.out.is_empty());
    assert!(registry.active.file.live.is_empty());
    assert!(registry.active.file.history.is_empty());
}

#[test]
fn critical_reaches_all_enabled_sinks() {
    // The record lands in every enabled sink; terminating the process with
    // a non-zero status afterwards is the embedder's duty.
    let mut registry = Registry::new();
    setup_logger(&mut registry, true, true, b"app.log".to_vec(), 1024, Severity::Critical, false, 2, false);
    let out = registry.critical(b"fatal".to_vec(), None);
    assert!(!out.failed);
    assert!(contains(&out.console_line.expect("console line"), b"[CRITICAL] fatal\n"));
    assert!(contains(&out.file_line.expect("file line"), b"[CRITICAL] fatal\n"));
    assert_eq!(registry.active.file.live.len(), 1);
}

#[test]
fn each_entry_point_tags_its_severity() {
    let mut registry = Registry::new();
    setup_logger(&mut registry, true, false, Vec::new(), 1024, Severity::Trace, false, 0, false);
    registry.trace(b"a".to_vec(), None);
    registry.debug(b"b".to_vec(), None);
    registry.info(b"c".to_vec(), None);
    registry.warn(b"d".to_vec(), None);
    registry.error(b"e".to_vec(), None);
    let all = registry.active.console.drain();
    assert!(contains(&all, b"[TRACE   ] a\n"));
    assert!(contains(&all, b"[DEBUG   ] b\n"));
    assert!(contains(&all, b"[INFO    ] c\n"));
    assert!(contains(&all, b"[WARN    ] d\n"));
    assert!(contains(&all, b"[ERROR   ] e\n"));
    assert!(registry.active.console.out.is_empty());
}

#[test]
fn location_rendered_per_sink_flag() {
    let mut registry = Registry::new();
    setup_logger(&mut registry, true, false, Vec::new(), 1024, Severity::Trace, true, 0, false);
    let loc = rotolog::Location { file: b"main.rs".to_vec(), line: 42 };
    let out = registry.info(b"here".to_vec(), Some(loc));
    assert!(contains(&out.console_line.expect("console line"), b" [main.rs:42] here\n"));
}

#[test]
fn failed_file_sink_still_writes_console() {
    let mut registry = Registry::new();
    setup_logger(&mut registry, true, true, b"app.log".to_vec(), 1024, Severity::Trace, false, 2, false);
    registry.active.file.mark_failed();
    let out = registry.error(b"disk gone".to_vec(), None);
    // Fan-out attempts both sinks and aggregates the failure.
    assert!(out.failed);
    assert!(out.console_line.is_some());
    assert!(out.file_line.is_none());
    assert!(!registry.active.console.out.is_empty());
    assert!(registry.active.file.live.is_empty());
}

#[test]
fn release_without_cancel_restores_previous() {
    let mut registry = Registry::new();
    setup_logger(&mut registry, true, false, Vec::new(), 1024, Severity::Trace, false, 0, false);
    registry.info(b"first".to_vec(), None);
    let replacement = initlogger(false, false, Vec::new(), 0, Severity::Error, false, 0, false);
    let handle = registry.install(replacement);
    let out = registry.info(b"while replaced".to_vec(), None);
    assert!(out.console_line.is_none());
    registry.release(handle);
    // Later calls route to the prior sink set again, its output intact.
    let out = registry.info(b"second".to_vec(), None);
    assert!(out.console_line.is_some());
    let all = registry.active.console.drain();
    assert!(contains(&all, b"first\n"));
    assert!(!contains(&all, b"while replaced"));
    assert!(contains(&all, b"second\n"));
}

#[test]
fn cancel_makes_installation_permanent() {
    let mut registry = Registry::new();
    setup_logger(&mut registry, false, false, Vec::new(), 0, Severity::Error, false, 0, false);
    let replacement = initlogger(true, false, Vec::new(), 1024, Severity::Trace, false, 0, false);
    let mut handle = registry.install(replacement);
    handle.cancel();
    registry.release(handle);
    // The new logger stays: exactly one logger is active, and it is ours.
    let out = registry.info(b"kept".to_vec(), None);
    assert!(out.console_line.is_some());
    assert!(contains(&registry.active.console.out, b"kept\n"));
}

#[test]
fn repeated_install_cancel_keeps_one_active() {
    let mut registry = Registry::new();
    for _ in 0..3 {
        let logger = initlogger(true, false, Vec::new(), 1024, Severity::Trace, false, 0, false);
        let mut handle = registry.install(logger);
        handle.cancel();
        registry.release(handle);
    }
    let out = registry.info(b"still one".to_vec(), None);
    assert!(out.console_line.is_some());
    assert_eq!(contains(&registry.active.console.out, b"still one\n"), true);
}

#[test]
fn rotation_through_logger() {
    let mut registry = Registry::new();
    // Threshold of one byte: every record rotates the file sink.
    setup_logger(&mut registry, false, true, b"app.log".to_vec(), 1, Severity::Trace, false, 2, false);
    let out = registry.info(b"spill".to_vec(), None);
    assert!(out.rotated);
    assert!(registry.active.file.live.is_empty());
    assert_eq!(registry.active.file.history.len(), 1);
}
