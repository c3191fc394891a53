use control_plane::proxy::collector::{
    collect_chunks, collect_stream_to_json, created_from, StreamCollector,
};
use control_plane::proxy::models::{OpenAIContent, OpenAIResponse, OpenAIUsage};

fn frame(data: &str) -> Result<Vec<u8>, String> {
    Ok(format!("data: {}\n\n", data).into_bytes())
}

fn content_of(response: &OpenAIResponse) -> String {
    match &response.choices[0].message.content {
        Some(OpenAIContent::String(s)) => s.clone(),
        None => panic!("content is absent"),
    }
}

#[test]
fn test_collect_stream_with_tool_calls() {
    let chunk1 = "{\"id\":\"chatcmpl-123\",\"model\":\"gpt-4\",\"choices\":[{\"index\":0,\"delta\":{\"role\":\"assistant\",\"tool_calls\":[{\"index\":0,\"id\":\"call_123\",\"type\":\"function\",\"function\":{\"name\":\"get_weather\",\"arguments\":\"\"}}]},\"finish_reason\":null}]}";
    let chunk2 = "{\"id\":\"chatcmpl-123\",\"model\":\"gpt-4\",\"choices\":[{\"index\":0,\"delta\":{\"tool_calls\":[{\"index\":0,\"function\":{\"arguments\":\"{\\\"loc\"}}]},\"finish_reason\":null}]}";
    let chunk3 = "{\"id\":\"chatcmpl-123\",\"model\":\"gpt-4\",\"choices\":[{\"index\":0,\"delta\":{\"tool_calls\":[{\"index\":0,\"function\":{\"arguments\":\"ation\\\": \\\"NY\\\"}\"}}]},\"finish_reason\":null}]}";
    let chunk4 = "{\"id\":\"chatcmpl-123\",\"model\":\"gpt-4\",\"choices\":[{\"index\":0,\"delta\":{\"tool_calls\":[{\"index\":1,\"id\":\"call_456\",\"type\":\"function\",\"function\":{\"name\":\"get_time\",\"arguments\":\"{}\"}}]},\"finish_reason\":null}]}";
    let chunk_done = "[DONE]";

    let chunks = vec![
        frame(chunk1),
        frame(chunk2),
        frame(chunk3),
        frame(chunk4),
        frame(chunk_done),
    ];

    let result = collect_stream_to_json(&chunks).expect("Failed to collect");

    let msg = &result.choices[0].message;
    assert!(msg.tool_calls.is_some(), "Tool calls should be present");
    let tools = msg.tool_calls.as_ref().unwrap();
    assert_eq!(tools.len(), 2);

    assert_eq!(tools[0].id, "call_123");
    assert_eq!(tools[0].function.name, "get_weather");
    assert_eq!(tools[0].function.arguments, "{\"location\": \"NY\"}");

    assert_eq!(tools[1].id, "call_456");
    assert_eq!(tools[1].function.name, "get_time");
    assert_eq!(tools[1].function.arguments, "{}");
}

#[test]
fn head_fields_are_overwritten_by_later_frames() {
    let chunks = vec![
        frame("{\"id\":\"a\",\"model\":\"m1\",\"created\":10}"),
        frame("{\"id\":\"b\",\"created\":20}"),
        frame("{\"model\":\"m3\"}"),
    ];
    let r = collect_chunks(&chunks, 7).unwrap();
    assert_eq!(r.id, "b");
    assert_eq!(r.model, "m3");
    assert_eq!(r.created, 20);
    assert_eq!(r.object, "chat.completion");
    assert_eq!(r.choices.len(), 1);
    assert_eq!(r.choices[0].index, 0);
}

#[test]
fn an_empty_stream_gives_the_defaults() {
    let chunks: Vec<Result<Vec<u8>, String>> = Vec::new();
    let r = collect_chunks(&chunks, 1234).unwrap();
    assert_eq!(r.id, "chatcmpl-unknown");
    assert_eq!(r.model, "unknown");
    assert_eq!(r.created, 1234);
    assert_eq!(r.usage, None);
    assert_eq!(r.choices.len(), 1);
    let message = &r.choices[0].message;
    assert_eq!(message.role, "assistant");
    assert_eq!(content_of(&r), "");
    assert!(message.reasoning_content.is_none());
    assert!(message.tool_calls.is_none());
    assert!(message.tool_call_id.is_none());
    assert!(message.name.is_none());
    assert_eq!(r.choices[0].finish_reason, Some("stop".to_string()));
}

#[test]
fn content_and_reasoning_are_joined_in_order() {
    let chunks = vec![
        frame("{\"choices\":[{\"delta\":{\"role\":\"assistant\",\"content\":\"Hel\"}}]}"),
        frame("{\"choices\":[{\"delta\":{\"reasoning_content\":\"think \"}}]}"),
        frame("{\"choices\":[{\"delta\":{\"content\":\"lo\",\"reasoning_content\":\"hard\"}}]}"),
        frame("{\"choices\":[{\"delta\":{\"content\":\"!\"},\"finish_reason\":\"length\"}]}"),
    ];
    let r = collect_chunks(&chunks, 0).unwrap();
    assert_eq!(content_of(&r), "Hello!");
    assert_eq!(r.choices[0].message.reasoning_content, Some("think hard".to_string()));
    assert_eq!(r.choices[0].finish_reason, Some("length".to_string()));
}

#[test]
fn an_empty_reasoning_fragment_makes_reasoning_present() {
    let chunks = vec![frame("{\"choices\":[{\"delta\":{\"reasoning_content\":\"\"}}]}")];
    let r = collect_chunks(&chunks, 0).unwrap();
    assert_eq!(r.choices[0].message.reasoning_content, Some(String::new()));
}

#[test]
fn role_and_finish_reason_take_the_last_value() {
    let chunks = vec![
        frame("{\"choices\":[{\"delta\":{\"role\":\"user\"},\"finish_reason\":\"length\"}]}"),
        frame("{\"choices\":[{\"delta\":{\"role\":\"tool\"},\"finish_reason\":\"tool_calls\"}]}"),
        frame("{\"choices\":[{\"delta\":{},\"finish_reason\":null}]}"),
    ];
    let r = collect_chunks(&chunks, 0).unwrap();
    assert_eq!(r.choices[0].message.role, "tool");
    assert_eq!(r.choices[0].finish_reason, Some("tool_calls".to_string()));
}

#[test]
fn tool_calls_come_out_by_ascending_index() {
    let chunks = vec![
        frame("{\"choices\":[{\"delta\":{\"tool_calls\":[{\"index\":2,\"id\":\"c\",\"function\":{\"name\":\"third\"}}]}}]}"),
        frame("{\"choices\":[{\"delta\":{\"tool_calls\":[{\"index\":0,\"id\":\"a\",\"function\":{\"name\":\"first\"}}]}}]}"),
        frame("{\"choices\":[{\"delta\":{\"tool_calls\":[{\"index\":1,\"id\":\"b\",\"function\":{\"name\":\"second\"}}]}}]}"),
    ];
    let r = collect_chunks(&chunks, 0).unwrap();
    let tools = r.choices[0].message.tool_calls.as_ref().unwrap();
    let ids: Vec<&str> = tools.iter().map(|t| t.id.as_str()).collect();
    let names: Vec<&str> = tools.iter().map(|t| t.function.name.as_str()).collect();
    assert_eq!(ids, vec!["a", "b", "c"]);
    assert_eq!(names, vec!["first", "second", "third"]);
}

#[test]
fn split_arguments_are_joined_in_arrival_order() {
    let pieces = ["{\"ci", "ty\": \"Par", "", "is\", \"n\": 1", "2}"];
    let mut chunks = Vec::new();
    for piece in pieces {
        let escaped = piece.replace('\\', "\\\\").replace('"', "\\\"");
        chunks.push(frame(&format!(
            "{{\"choices\":[{{\"delta\":{{\"tool_calls\":[{{\"index\":5,\"function\":{{\"arguments\":\"{}\"}}}}]}}}}]}}",
            escaped
        )));
    }
    let r = collect_chunks(&chunks, 0).unwrap();
    let tools = r.choices[0].message.tool_calls.as_ref().unwrap();
    assert_eq!(tools.len(), 1);
    assert_eq!(tools[0].function.arguments, "{\"city\": \"Paris\", \"n\": 12}");
    assert_eq!(tools[0].id, "");
    assert_eq!(tools[0].call_type, "function");
    assert_eq!(tools[0].function.name, "");
}

#[test]
fn identifier_and_type_of_a_tool_call_are_set_once() {
    let chunks = vec![
        frame("{\"choices\":[{\"delta\":{\"tool_calls\":[{\"index\":0,\"id\":\"first\",\"type\":\"custom\",\"function\":{\"name\":\"get_\"}}]}}]}"),
        frame("{\"choices\":[{\"delta\":{\"tool_calls\":[{\"index\":0,\"id\":\"second\",\"type\":\"function\",\"function\":{\"name\":\"time\"}}]}}]}"),
    ];
    let r = collect_chunks(&chunks, 0).unwrap();
    let tools = r.choices[0].message.tool_calls.as_ref().unwrap();
    assert_eq!(tools.len(), 1);
    assert_eq!(tools[0].id, "first");
    assert_eq!(tools[0].call_type, "custom");
    assert_eq!(tools[0].function.name, "get_time");
}

#[test]
fn several_fragments_in_one_delta_are_taken_in_order() {
    let chunks = vec![frame(
        "{\"choices\":[{\"delta\":{\"tool_calls\":[{\"index\":1,\"function\":{\"arguments\":\"a\"}},{\"index\":0,\"function\":{\"arguments\":\"x\"}},{\"index\":1,\"function\":{\"arguments\":\"b\"}},{\"function\":{\"arguments\":\"lost\"}}]}}]}",
    )];
    let r = collect_chunks(&chunks, 0).unwrap();
    let tools = r.choices[0].message.tool_calls.as_ref().unwrap();
    assert_eq!(tools.len(), 2);
    assert_eq!(tools[0].function.arguments, "x");
    assert_eq!(tools[1].function.arguments, "ab");
}

#[test]
fn only_the_first_choice_is_read() {
    let chunks = vec![frame(
        "{\"choices\":[{\"delta\":{\"content\":\"one\"}},{\"delta\":{\"content\":\"two\"},\"finish_reason\":\"length\"}]}",
    )];
    let r = collect_chunks(&chunks, 0).unwrap();
    assert_eq!(content_of(&r), "one");
    assert_eq!(r.choices[0].finish_reason, Some("stop".to_string()));
}

#[test]
fn usage_takes_the_last_readable_value() {
    let chunks = vec![
        frame("{\"usage\":{\"prompt_tokens\":1,\"completion_tokens\":2,\"total_tokens\":3}}"),
        frame("{\"usage\":null}"),
        frame("{\"usage\":{\"prompt_tokens\":4,\"completion_tokens\":5,\"total_tokens\":9}}"),
        frame("{\"usage\":{\"prompt_tokens\":-1,\"completion_tokens\":5,\"total_tokens\":9}}"),
        frame("{\"usage\":{\"prompt_tokens\":7}}"),
    ];
    let r = collect_chunks(&chunks, 0).unwrap();
    assert_eq!(
        r.usage,
        Some(OpenAIUsage { prompt_tokens: 4, completion_tokens: 5, total_tokens: 9 })
    );
}

#[test]
fn lines_that_carry_nothing_are_passed_over() {
    let text = "event: message\n: comment\n\ndata: not json\ndata: [1,2]\ndata: \"text\"\n   data: {\"id\":\"kept\"}   \r\ndata:{\"id\":\"no space\"}\nDATA: {\"id\":\"upper\"}\n";
    let chunks = vec![Ok(text.as_bytes().to_vec())];
    let r = collect_chunks(&chunks, 0).unwrap();
    assert_eq!(r.id, "kept");
}

#[test]
fn the_end_marker_does_not_end_the_collection() {
    let chunks = vec![
        frame("{\"choices\":[{\"delta\":{\"content\":\"a\"}}]}"),
        frame("[DONE]"),
        frame("{\"choices\":[{\"delta\":{\"content\":\"b\"}}]}"),
    ];
    let r = collect_chunks(&chunks, 0).unwrap();
    assert_eq!(content_of(&r), "ab");
}

#[test]
fn a_repeated_data_prefix_is_dropped_whole() {
    let chunks = vec![Ok(b"data: data: data: {\"id\":\"x\"}\n".to_vec())];
    let r = collect_chunks(&chunks, 0).unwrap();
    assert_eq!(r.id, "x");
}

#[test]
fn a_frame_may_hold_several_lines_and_no_final_line_feed() {
    let text = "data: {\"choices\":[{\"delta\":{\"content\":\"a\"}}]}\ndata: {\"choices\":[{\"delta\":{\"content\":\"b\"}}]}\r\n\r\ndata: {\"choices\":[{\"delta\":{\"content\":\"c\"}}]}";
    let chunks = vec![Ok(text.as_bytes().to_vec())];
    let r = collect_chunks(&chunks, 0).unwrap();
    assert_eq!(content_of(&r), "abc");
}

#[test]
fn a_line_cut_by_a_frame_boundary_is_lost() {
    let chunks = vec![
        Ok(b"data: {\"id\":".to_vec()),
        Ok(b"\"x\"}\n".to_vec()),
    ];
    let r = collect_chunks(&chunks, 0).unwrap();
    assert_eq!(r.id, "chatcmpl-unknown");
}

#[test]
fn a_failed_frame_fails_the_collection() {
    let chunks = vec![
        frame("{\"id\":\"a\"}"),
        Err("connection reset".to_string()),
        frame("{\"id\":\"b\"}"),
    ];
    assert_eq!(collect_chunks(&chunks, 0).unwrap_err(), "Stream error: connection reset");
    assert_eq!(collect_stream_to_json(&chunks).unwrap_err(), "Stream error: connection reset");
}

#[test]
fn bytes_that_are_no_utf8_are_replaced() {
    let mut bytes = b"data: {\"choices\":[{\"delta\":{\"content\":\"a".to_vec();
    bytes.push(0xff);
    bytes.extend_from_slice(b"b\"}}]}\n");
    let r = collect_chunks(&vec![Ok(bytes)], 0).unwrap();
    assert_eq!(content_of(&r), "a\u{fffd}b");
}

#[test]
fn content_may_hold_any_unicode() {
    let chunks = vec![frame("{\"choices\":[{\"delta\":{\"content\":\"héllo → 世界 \\u00e9\"}}]}")];
    let r = collect_chunks(&chunks, 0).unwrap();
    assert_eq!(content_of(&r), "héllo → 世界 é");
}

#[test]
fn a_tool_index_is_taken_to_32_bits() {
    let chunks = vec![
        frame("{\"choices\":[{\"delta\":{\"tool_calls\":[{\"index\":4294967297,\"function\":{\"arguments\":\"a\"}},{\"index\":1,\"function\":{\"arguments\":\"b\"}},{\"index\":-1,\"function\":{\"arguments\":\"c\"}},{\"index\":\"1\",\"function\":{\"arguments\":\"d\"}},{\"index\":1.5,\"function\":{\"arguments\":\"e\"}}]}}]}"),
    ];
    let r = collect_chunks(&chunks, 0).unwrap();
    let tools = r.choices[0].message.tool_calls.as_ref().unwrap();
    assert_eq!(tools.len(), 1);
    assert_eq!(tools[0].function.arguments, "ab");
}

#[test]
fn collector_can_be_fed_by_hand() {
    let mut collector = StreamCollector::new(5);
    collector.feed(b"data: {\"id\":\"one\"}\n");
    collector.feed_text("data: {\"model\":\"two\"}");
    collector.feed_payload("{\"choices\":[{\"delta\":{\"content\":\"three\"}}]}");
    collector.feed_payload("[DONE]");
    collector.feed_payload("{broken");
    let r = collector.finish();
    assert_eq!(r.id, "one");
    assert_eq!(r.model, "two");
    assert_eq!(content_of(&r), "three");
    assert_eq!(r.created, 5);
}

#[test]
fn created_wraps_a_time_before_the_epoch() {
    assert_eq!(created_from(0), 0);
    assert_eq!(created_from(1_700_000_000), 1_700_000_000);
    assert_eq!(created_from(i64::MAX), i64::MAX as u64);
    assert_eq!(created_from(-1), u64::MAX);
    assert_eq!(created_from(i64::MIN), 1u64 << 63);
}

#[test]
fn collect_stream_carries_the_current_time() {
    let chunks = vec![frame("{\"id\":\"a\"}")];
    let r = collect_stream_to_json(&chunks).unwrap();
    assert!(r.created > 1_600_000_000);
    assert_eq!(r.id, "a");
}
