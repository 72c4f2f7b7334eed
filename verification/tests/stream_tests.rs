use langra::placement::popup_position;
use langra::stream::{extract_partial_text, field_for_tool, sse_data, sse_is_done, LineBuffer};
use langra::types::{Delta, FunctionDelta, Message, StreamChoice, StreamResponse, ToolCallDelta};

#[test]
fn line_buffer_holds_back_incomplete_lines() {
    let mut b = LineBuffer::new();
    let lines = b.push_chunk("data: a\nda");
    assert_eq!(lines, vec!["data: a"]);
    assert_eq!(b.pending, "da");
    let lines = b.push_chunk("ta: b\n");
    assert_eq!(lines, vec!["data: b"]);
    assert_eq!(b.pending, "");
}

#[test]
fn line_buffer_without_newline_returns_nothing() {
    let mut b = LineBuffer::new();
    let lines = b.push_chunk("partial");
    assert!(lines.is_empty());
    assert_eq!(b.pending, "partial");
}

#[test]
fn line_buffer_many_lines_in_one_chunk() {
    let mut b = LineBuffer::new();
    let lines = b.push_chunk("one\ntwo\nthree\n");
    assert_eq!(lines, vec!["one", "two", "three"]);
    assert_eq!(b.pending, "");
}

#[test]
fn sse_data_strips_the_prefix() {
    assert_eq!(sse_data("data: hello"), Some("hello".to_string()));
    assert_eq!(sse_data("data: "), Some(String::new()));
    assert_eq!(sse_data("event: x"), None);
    assert_eq!(sse_data("data:"), None);
    assert_eq!(sse_data(""), None);
}

#[test]
fn sse_done_marker() {
    assert!(sse_is_done("[DONE]"));
    assert!(!sse_is_done("[DONE] "));
    assert!(!sse_is_done("{\"x\":1}"));
}

#[test]
fn field_for_tool_maps_each_tool() {
    assert_eq!(field_for_tool("provide_translation"), "translated_text");
    assert_eq!(field_for_tool("provide_corrected_text"), "corrected_text");
    assert_eq!(field_for_tool("provide_improved_text"), "improved_text");
    assert_eq!(field_for_tool("anything_else"), "translated_text");
}

#[test]
fn extract_partial_text_reads_truncated_values() {
    // The closing quote has not arrived yet.
    assert_eq!(
        extract_partial_text("{\"translated_text\":\"Hi there", "translated_text"),
        Some("Hi there".to_string())
    );
    // Complete value followed by more JSON.
    assert_eq!(
        extract_partial_text("{\"translated_text\":\"ok\"}", "translated_text"),
        Some("ok".to_string())
    );
}

#[test]
fn extract_partial_text_decodes_escapes() {
    assert_eq!(
        extract_partial_text("{\"f\":\"a\\nb\\tc\\rd\\\"e\\\\f\"}", "f"),
        Some("a\nb\tc\rd\"e\\f".to_string())
    );
    // An unknown escape is kept verbatim.
    assert_eq!(extract_partial_text("{\"f\":\"a\\xb\"}", "f"), Some("a\\xb".to_string()));
    // A dangling backslash at the end of the truncated text contributes
    // nothing.
    assert_eq!(extract_partial_text("{\"f\":\"ab\\", "f"), Some("ab".to_string()));
}

#[test]
fn extract_partial_text_misses() {
    assert_eq!(extract_partial_text("{\"other\":\"x\"}", "f"), None);
    assert_eq!(extract_partial_text("{\"f\":\"\"}", "f"), None);
    assert_eq!(extract_partial_text("", "f"), None);
}

fn response_with(arguments: Option<&str>) -> StreamResponse {
    StreamResponse {
        choices: vec![StreamChoice {
            delta: Delta {
                tool_calls: Some(vec![ToolCallDelta {
                    function: Some(FunctionDelta { arguments: arguments.map(|s| s.to_string()) }),
                }]),
            },
        }],
    }
}

#[test]
fn stream_response_yields_first_tool_arguments() {
    let r = response_with(Some("{\"tr"));
    assert_eq!(r.first_tool_arguments().map(|s| s.as_str()), Some("{\"tr"));
    let r = response_with(None);
    assert!(r.first_tool_arguments().is_none());
    let empty = StreamResponse { choices: vec![] };
    assert!(empty.first_tool_arguments().is_none());
    let no_calls = StreamResponse {
        choices: vec![StreamChoice { delta: Delta { tool_calls: None } }],
    };
    assert!(no_calls.first_tool_arguments().is_none());
}

#[test]
fn stream_response_arguments_accumulate() {
    let mut acc = String::new();
    response_with(Some("{\"translated")).append_arguments(&mut acc);
    response_with(None).append_arguments(&mut acc);
    response_with(Some("_text\":\"Hallo\"}")).append_arguments(&mut acc);
    assert_eq!(acc, "{\"translated_text\":\"Hallo\"}");
    assert_eq!(
        extract_partial_text(&acc, "translated_text"),
        Some("Hallo".to_string())
    );
}

#[test]
fn message_carries_role_and_content() {
    let m = Message::new("system".to_string(), "Translate this.".to_string());
    assert_eq!(m.role, "system");
    assert_eq!(m.content, "Translate this.");
}

#[test]
fn popup_lands_below_right_of_the_cursor() {
    assert_eq!(popup_position(100, 200, 600, 500, None), (120, 220));
    // Fits on the monitor: stays below right.
    assert_eq!(popup_position(100, 200, 600, 500, Some((0, 0, 1920, 1080))), (120, 220));
}

#[test]
fn popup_flips_when_it_would_leave_the_monitor() {
    // Sticks out on the right: flip to the left of the cursor.
    assert_eq!(popup_position(1900, 200, 600, 500, Some((0, 0, 1920, 1080))), (1280, 220));
    // Sticks out at the bottom: flip above the cursor.
    assert_eq!(popup_position(100, 1000, 600, 500, Some((0, 0, 1920, 1080))), (120, 480));
    // Both at once.
    assert_eq!(popup_position(1900, 1000, 600, 500, Some((0, 0, 1920, 1080))), (1280, 480));
}

