use macroquest::mq::{console, InternalConsoleWriter};

#[test]
fn test_console_writer_writes_line() {
    let mut console = InternalConsoleWriter::new();
    let mut lines: Vec<String> = Vec::new();

    let (_, emitted) = console
        .write(b"this is one line\nand this is another\n")
        .unwrap();
    lines.extend(emitted);

    let (_, emitted) = console.write(b"this is a line without a new line").unwrap();
    lines.extend(emitted);

    assert_eq!(
        lines,
        vec!["this is one line".to_string(), "and this is another".to_string()]
    );

    let (_, emitted) = console.write(b"\n").unwrap();
    lines.extend(emitted);

    assert_eq!(
        lines,
        vec![
            "this is one line".to_string(),
            "and this is another".to_string(),
            "this is a line without a new line".to_string()
        ]
    );
}

#[test]
fn test_console_writer_reports_consumed_bytes() {
    let mut w = InternalConsoleWriter::new();
    let (consumed, emitted) = w.write(b"one\ntwo\ntail").unwrap();
    assert_eq!(consumed, 8);
    assert_eq!(emitted, vec!["one".to_string(), "two".to_string()]);
}

#[test]
fn test_console_writer_rejects_invalid_utf8() {
    let mut w = InternalConsoleWriter::new();
    w.write(b"kept").unwrap();
    assert!(w.write(b"\xff\n").is_err());
    let (_, emitted) = w.write(b"\n").unwrap();
    assert_eq!(emitted, vec!["kept".to_string()]);
}

#[test]
fn test_console_writer_buffers_partial_lines() {
    let mut w = InternalConsoleWriter::new();
    let (consumed, emitted) = w.write(b"hal").unwrap();
    assert_eq!(consumed, 0);
    assert!(emitted.is_empty());
    let (consumed, emitted) = w.write(b"lo\nrest").unwrap();
    assert_eq!(consumed, 6);
    assert_eq!(emitted, vec!["hallo".to_string()]);
}

#[test]
fn test_console_handle_writes_lines() {
    let mut c = console();
    let (_, emitted) = c.write(b"a line\n").unwrap();
    assert_eq!(emitted, vec!["a line".to_string()]);
    c.flush();
}
