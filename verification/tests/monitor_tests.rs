use aeternum::monitor::LineRead;
use aeternum::monitor::MonitorUpdate;
use aeternum::monitor::monitor_line;
use aeternum::monitor::monitor_stream;
use aeternum::notice::NoticeLevel;

#[test]
fn progress_filter_forwards_digit_lines_only() {
    let lines = vec![
        LineRead::Line("35%".to_string()),
        LineRead::Line("done compiling shaders".to_string()),
        LineRead::Line("78%".to_string()),
        LineRead::Line("".to_string()),
    ];
    let updates = monitor_stream(&lines);
    assert_eq!(updates.len(), 2);
    match &updates[0] {
        MonitorUpdate::Progress(t) => assert_eq!(t, "Processing: 35%"),
        MonitorUpdate::ReadError(_) => panic!("expected a progress update"),
    }
    match &updates[1] {
        MonitorUpdate::Progress(t) => assert_eq!(t, "Processing: 78%"),
        MonitorUpdate::ReadError(_) => panic!("expected a progress update"),
    }
}

#[test]
fn progress_line_forwards_verbatim_behind_prefix() {
    let update = monitor_line(&LineRead::Line("12.5% done".to_string()));
    match update {
        Some(MonitorUpdate::Progress(t)) => assert_eq!(t, "Processing: 12.5% done"),
        _ => panic!("expected a progress update"),
    }
}

#[test]
fn empty_line_produces_no_update() {
    assert!(monitor_line(&LineRead::Line("".to_string())).is_none());
}

#[test]
fn chatter_line_produces_no_update() {
    assert!(monitor_line(&LineRead::Line("loading model".to_string())).is_none());
}

#[test]
fn read_failure_is_reported_once_and_drain_goes_on() {
    let lines = vec![
        LineRead::Line("10%".to_string()),
        LineRead::Failed("stream hiccup".to_string()),
        LineRead::Line("90%".to_string()),
    ];
    let updates = monitor_stream(&lines);
    assert_eq!(updates.len(), 3);
    match &updates[1] {
        MonitorUpdate::ReadError(n) => {
            assert_eq!(n.level, NoticeLevel::Error);
            assert_eq!(n.text, "Failed to read a line of the upscaler's output: stream hiccup");
        },
        MonitorUpdate::Progress(_) => panic!("expected a read error"),
    }
    assert!(matches!(&updates[2], MonitorUpdate::Progress(_)));
}
