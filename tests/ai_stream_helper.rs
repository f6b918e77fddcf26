use bt_ai_core::ai_chat_helper::AIChatResponse;
use bt_ai_core::ai_stream_helper::{ChunkOutcome, StreamAction, StreamAggregator};
use bt_ai_core::ai_tool_to_call::ToolToCall;
use bt_ai_core::message::{Message, MessageRole};

fn event(content: &str, done: bool, eval_count: u64, calls: Option<Vec<ToolToCall>>) -> AIChatResponse {
    AIChatResponse {
        model: "llama3.1".to_owned(),
        created_at: format!("t-{}", content),
        message: Message { role: MessageRole::ASSISTANT, content: content.to_owned(), tool_calls: calls },
        done_reason: if done { "stop".to_owned() } else { "".to_owned() },
        done,
        total_duration: 10,
        load_duration: 2,
        prompt_eval_count: 3,
        prompt_eval_duration: 4,
        eval_count,
        eval_duration: 6,
    }
}

#[test]
fn clean_stream_concatenates_in_order() {
    let mut agg = StreamAggregator::new();
    assert_eq!(agg.on_chunk(ChunkOutcome::Parsed(event("a", false, 1, None))), StreamAction::Continue);
    assert_eq!(agg.on_chunk(ChunkOutcome::Parsed(event("b", false, 2, None))), StreamAction::Continue);
    assert_eq!(agg.on_chunk(ChunkOutcome::Parsed(event("c", true, 3, None))), StreamAction::Continue);
    let r = agg.finish();
    assert_eq!(r.message.content, "abc");
    assert_eq!(r.message.role, MessageRole::ASSISTANT);
    assert!(r.message.tool_calls.is_none());
    assert!(r.done);
    assert_eq!(r.done_reason, "stop");
    assert_eq!(r.created_at, "t-c");
    assert_eq!(r.eval_count, 3);
    assert_eq!(r.total_duration, 10);
}

#[test]
fn six_malformed_chunks_stop_the_stream() {
    let mut agg = StreamAggregator::new();
    assert_eq!(agg.on_chunk(ChunkOutcome::Parsed(event("kept", false, 1, None))), StreamAction::Continue);
    for n in 1..=5u64 {
        assert_eq!(agg.on_chunk(ChunkOutcome::Malformed), StreamAction::Backoff(n));
        assert!(!agg.is_stopped());
    }
    assert_eq!(agg.on_chunk(ChunkOutcome::Malformed), StreamAction::Stop);
    assert!(agg.is_stopped());
    assert_eq!(agg.on_chunk(ChunkOutcome::Parsed(event("late", true, 9, None))), StreamAction::Stop);
    let r = agg.finish();
    assert_eq!(r.message.content, "kept");
    assert!(!r.done);
    assert_eq!(r.eval_count, 1);
}

#[test]
fn errors_are_counted_across_good_chunks() {
    let mut agg = StreamAggregator::new();
    assert_eq!(agg.on_chunk(ChunkOutcome::Malformed), StreamAction::Backoff(1));
    assert_eq!(agg.on_chunk(ChunkOutcome::Parsed(event("x", false, 1, None))), StreamAction::Continue);
    assert_eq!(agg.on_chunk(ChunkOutcome::Malformed), StreamAction::Backoff(2));
    assert_eq!(agg.on_chunk(ChunkOutcome::Parsed(event("y", true, 2, None))), StreamAction::Continue);
    assert_eq!(agg.finish().message.content, "xy");
}

#[test]
fn empty_stream_gives_error_answer() {
    let r = StreamAggregator::new().finish();
    assert_eq!(r.model, "UNKNOWN_MODEL_ERROR");
    assert_eq!(r.created_at, "");
    assert_eq!(r.message.role, MessageRole::ERROR);
    assert_eq!(r.message.content, "NO RESPONSE ERROR!");
    assert!(r.message.tool_calls.is_none());
    assert_eq!(r.done_reason, "error");
    assert!(r.done);
    assert_eq!(r.eval_duration, 0);
}

#[test]
fn only_malformed_chunks_give_error_answer() {
    let mut agg = StreamAggregator::new();
    for _ in 0..6 {
        agg.on_chunk(ChunkOutcome::Malformed);
    }
    let r = agg.finish();
    assert_eq!(r.message.role, MessageRole::ERROR);
    assert_eq!(r.message.content, "NO RESPONSE ERROR!");
}

#[test]
fn first_non_empty_tool_calls_win() {
    let mut agg = StreamAggregator::new();
    agg.on_chunk(ChunkOutcome::Parsed(event("", false, 1, Some(vec![]))));
    agg.on_chunk(ChunkOutcome::Parsed(event("", false, 2, Some(vec![ToolToCall::new("first".to_owned(), vec![])]))));
    agg.on_chunk(ChunkOutcome::Parsed(event("", true, 3, Some(vec![ToolToCall::new("second".to_owned(), vec![])]))));
    let r = agg.finish();
    let calls = r.message.tool_calls.unwrap();
    assert_eq!(calls.len(), 1);
    assert_eq!(calls[0].get_function_name(), "first");
}

#[test]
fn empty_tool_call_list_is_not_captured() {
    let mut agg = StreamAggregator::new();
    agg.on_chunk(ChunkOutcome::Parsed(event("z", true, 1, Some(vec![]))));
    assert!(agg.finish().message.tool_calls.is_none());
}
