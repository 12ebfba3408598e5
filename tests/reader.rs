use least::reader::{count_lines, expand_line_tabs, poll_timeout_nanos, LineAssembler, FLUSH_INTERVAL_NANOS};

#[test]
fn counts_line_terminators() {
    assert_eq!(count_lines(b""), 0);
    assert_eq!(count_lines(b"no newline"), 0);
    assert_eq!(count_lines(b"a\nb\n\nc"), 3);
}

#[test]
fn tabs_become_two_spaces() {
    assert_eq!(expand_line_tabs(b"\ta\tb"), b"  a  b".to_vec());
    assert_eq!(expand_line_tabs(b""), Vec::<u8>::new());
}

#[test]
fn chunk_splits_into_lines_keeping_terminators() {
    let mut a = LineAssembler::new();
    a.push_chunk(b"one\ntwo\nthr");
    assert_eq!(a.take_due(FLUSH_INTERVAL_NANOS), Some(vec!["one\n".to_string(), "two\n".to_string()]));
    a.push_chunk(b"ee\n");
    assert_eq!(a.take_due(FLUSH_INTERVAL_NANOS), Some(vec!["three\n".to_string()]));
}

#[test]
fn batch_waits_for_flush_interval() {
    let mut a = LineAssembler::new();
    a.push_chunk(b"x\n");
    assert_eq!(a.take_due(FLUSH_INTERVAL_NANOS - 1), None);
    assert_eq!(a.take_due(FLUSH_INTERVAL_NANOS), Some(vec!["x\n".to_string()]));
    assert_eq!(a.take_due(FLUSH_INTERVAL_NANOS * 2), None);
}

#[test]
fn end_of_input_completes_partial_line() {
    let mut a = LineAssembler::new();
    a.push_chunk(b"a\nb");
    assert_eq!(a.end_of_input(), Some(vec!["a\n".to_string(), "b".to_string()]));
    assert_eq!(a.end_of_input(), None);
}

#[test]
fn end_of_empty_input_sends_nothing() {
    let mut a = LineAssembler::new();
    assert_eq!(a.end_of_input(), None);
}

#[test]
fn lines_are_tab_expanded_and_decoded() {
    let mut a = LineAssembler::new();
    a.push_chunk(b"\tx\xff\n");
    assert_eq!(a.end_of_input(), Some(vec!["  x\u{FFFD}\n".to_string()]));
}

#[test]
fn poll_timeout_is_rest_of_interval() {
    assert_eq!(FLUSH_INTERVAL_NANOS, 16_000_000);
    assert_eq!(poll_timeout_nanos(0), 16_000_000);
    assert_eq!(poll_timeout_nanos(6_000_000), 10_000_000);
    assert_eq!(poll_timeout_nanos(20_000_000), 0);
}
