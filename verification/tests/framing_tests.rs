use worker_supervisor::framing::decode_frame;
use worker_supervisor::framing::encode_request;
use worker_supervisor::framing::sentinel_text;
use worker_supervisor::framing::trim_str;
use worker_supervisor::framing::ChannelError;
use worker_supervisor::framing::FrameReader;

fn strings(parts: &[&str]) -> Vec<String> {
    parts.iter().map(|p| String::from(*p)).collect()
}

#[test]
fn encode_joins_arguments_with_tabs() {
    let line = encode_request(&strings(&["CONTEXT_IS_CORRECT", "/tmp"]));
    assert_eq!(line, "CONTEXT_IS_CORRECT\t/tmp\n");
}

#[test]
fn encode_single_argument_has_no_delimiter() {
    let line = encode_request(&strings(&["GET_TIME_RANGE"]));
    assert_eq!(line, "GET_TIME_RANGE\n");
}

#[test]
fn encode_empty_request_is_a_bare_newline() {
    let line = encode_request(&strings(&[]));
    assert_eq!(line, "\n");
}

#[test]
fn encode_three_arguments() {
    let line = encode_request(&strings(&["GENERATE_EXCEL_TO_FILE", "{}", "/out.xlsx"]));
    assert_eq!(line, "GENERATE_EXCEL_TO_FILE\t{}\t/out.xlsx\n");
}

#[test]
fn trim_removes_surrounding_whitespace() {
    assert_eq!(trim_str("  a b \r\n"), "a b");
    assert_eq!(trim_str("\t\n \r"), "");
    assert_eq!(trim_str("plain"), "plain");
    assert_eq!(trim_str(""), "");
    assert_eq!(trim_str("inner  space"), "inner  space");
}

#[test]
fn sentinel_is_the_reserved_token() {
    assert_eq!(sentinel_text(), "<<<END_RESPONSE>>>");
}

#[test]
fn frame_of_two_lines_before_the_sentinel() {
    let r = decode_frame("line1\nline2\n<<<END_RESPONSE>>>\n");
    assert_eq!(r.unwrap(), "line1\nline2");
}

#[test]
fn frame_without_sentinel_means_worker_terminated() {
    let r = decode_frame("line1\nline2\n");
    assert_eq!(r.unwrap_err(), ChannelError::TerminatedUnexpectedly);
}

#[test]
fn empty_stream_means_worker_terminated() {
    let r = decode_frame("");
    assert_eq!(r.unwrap_err(), ChannelError::TerminatedUnexpectedly);
}

#[test]
fn sentinel_line_is_recognized_trimmed() {
    let r = decode_frame("{\"result\": true}\n  <<<END_RESPONSE>>>  \n");
    assert_eq!(r.unwrap(), "{\"result\": true}");
}

#[test]
fn immediate_sentinel_gives_an_empty_body() {
    let r = decode_frame("<<<END_RESPONSE>>>\n");
    assert_eq!(r.unwrap(), "");
}

#[test]
fn reading_stops_at_the_first_sentinel() {
    let r = decode_frame("a\n<<<END_RESPONSE>>>\nleftover of the next response\n");
    assert_eq!(r.unwrap(), "a");
}

#[test]
fn a_line_merely_containing_the_sentinel_does_not_end_the_frame() {
    let r = decode_frame("x <<<END_RESPONSE>>> y\n<<<END_RESPONSE>>>\n");
    assert_eq!(r.unwrap(), "x <<<END_RESPONSE>>> y");
}

#[test]
fn frame_reader_accumulates_until_sentinel() {
    let mut reader = FrameReader::new();
    assert!(!reader.feed_line("{\n"));
    assert!(!reader.feed_line("  \"result\": 3\n"));
    assert!(!reader.feed_line("}\n"));
    assert!(reader.feed_line("<<<END_RESPONSE>>>\n"));
    assert_eq!(reader.finish(), "{\n  \"result\": 3\n}");
}

#[test]
fn frame_reader_trims_the_accumulated_body() {
    let mut reader = FrameReader::new();
    assert!(!reader.feed_line("\n"));
    assert!(!reader.feed_line("body\n"));
    assert!(reader.feed_line("<<<END_RESPONSE>>>\n"));
    assert_eq!(reader.finish(), "body");
}
