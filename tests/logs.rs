use onebox::app_status::{read_logs, AppData, LogType, LOG_CAPACITY};

#[test]
fn new_log_is_empty() {
    let data = AppData::new();
    assert_eq!(data.read(LogType::Info), "");
    assert_eq!(data.read(LogType::Error), "");
}

#[test]
fn read_joins_lines_with_newlines() {
    let mut data = AppData::new();
    data.write("first".to_string(), LogType::Info);
    data.write("second".to_string(), LogType::Info);
    assert_eq!(data.read(LogType::Info), "first\nsecond");
    assert_eq!(data.read(LogType::Error), "");
}

#[test]
fn categories_are_kept_apart() {
    let mut data = AppData::new();
    data.write("ok".to_string(), LogType::Info);
    data.write("bad".to_string(), LogType::Error);
    assert_eq!(read_logs(&data, false), "ok");
    assert_eq!(read_logs(&data, true), "bad");
}

#[test]
fn eleventh_line_evicts_the_oldest() {
    let mut data = AppData::new();
    for i in 0..11 {
        data.write(format!("line {}", i), LogType::Info);
    }
    assert_eq!(data.log_buffer.len(), LOG_CAPACITY);
    assert_eq!(data.log_buffer[0], "line 1");
    assert_eq!(data.log_buffer[9], "line 10");
    let expected: Vec<String> = (1..11).map(|i| format!("line {}", i)).collect();
    assert_eq!(data.read(LogType::Info), expected.join("\n"));
}

#[test]
fn buffer_never_exceeds_capacity() {
    let mut data = AppData::new();
    for i in 0..25 {
        data.write(format!("e{}", i), LogType::Error);
        assert!(data.error_log_buffer.len() <= 10);
    }
    assert_eq!(data.error_log_buffer.len(), 10);
    assert_eq!(data.error_log_buffer[0], "e15");
    assert!(data.log_buffer.is_empty());
}
