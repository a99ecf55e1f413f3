use synth_sim::log::{push, snapshot, visible_lines, EventLog, MAX_LOG_LINES};

#[test]
fn log_keeps_messages_in_order() {
    let mut log = EventLog::new();
    assert!(snapshot(&log).is_empty());
    push(&mut log, String::from("first"));
    push(&mut log, String::from("second"));
    assert_eq!(snapshot(&log), vec![String::from("first"), String::from("second")]);
}

#[test]
fn log_drops_oldest_lines_when_full() {
    let mut log = EventLog::new();
    for i in 0..(MAX_LOG_LINES + 1) {
        push(&mut log, format!("message {i}"));
    }
    let lines = snapshot(&log);
    assert_eq!(lines.len(), 200);
    assert_eq!(lines[0], "message 1");
    assert_eq!(lines[199], "message 200");
    push(&mut log, String::from("latest"));
    let lines = snapshot(&log);
    assert_eq!(lines.len(), 200);
    assert_eq!(lines[0], "message 2");
    assert_eq!(lines[199], "latest");
}

#[test]
fn log_panel_shows_newest_lines() {
    let mut log = EventLog::new();
    for i in 0..5 {
        push(&mut log, format!("line {i}"));
    }
    assert_eq!(visible_lines(&log, 5), vec!["line 2", "line 3", "line 4"]);
    assert_eq!(visible_lines(&log, 20).len(), 5);
    assert!(visible_lines(&log, 2).is_empty());
    assert!(visible_lines(&log, 0).is_empty());
}
