use bt_ai_core::ai_chat_helper::{degraded_request_text, get_chat_ai_chat_request};
use bt_ai_core::ai_tools::{Function, FunctionParameters, Tool};
use bt_ai_core::message::{Message, MessageRole};

#[test]
fn chat_request_with_system_prompt() {
    let req = get_chat_ai_chat_request(
        &"llama3.1".to_string(),
        MessageRole::USER,
        &"The prompt".to_string(),
        Vec::new(),
        Some("AI Assistant".to_owned()),
        None,
        "03/27/2025",
        "6:45 PM",
        false,
    );
    assert_eq!(req.model, "llama3.1");
    assert!(!req.stream);
    assert!(req.tools.is_none());
    assert_eq!(req.messages.len(), 2);
    assert_eq!(req.messages[0].role.as_str(), "system");
    assert_eq!(
        req.messages[0].content,
        "AI Assistant. The current date is 03/27/2025 and the current time is 6:45 PM"
    );
    assert!(req.messages[0].tool_calls.is_none());
    assert_eq!(req.messages[1].role.as_str(), "user");
    assert_eq!(req.messages[1].content, "The prompt");
    assert!(req.messages[1].tool_calls.is_none());
}

#[test]
fn chat_request_keeps_history_order() {
    let context = vec![
        Message::new(MessageRole::USER, "q1".to_owned()),
        Message::new(MessageRole::ASSISTANT, "a1".to_owned()),
        Message::new(MessageRole::TOOL, "t1".to_owned()),
    ];
    let tool = Tool {
        type_: "function".to_owned(),
        function: Function {
            name: "f".to_owned(),
            description: "d".to_owned(),
            parameters: FunctionParameters { type_: "object".to_owned(), properties: vec![], required: vec![] },
        },
    };
    let req = get_chat_ai_chat_request(
        &"m".to_string(),
        MessageRole::IPYTHON,
        &"q2".to_string(),
        context,
        None,
        Some(vec![tool]),
        "d",
        "t",
        true,
    );
    let contents: Vec<&str> = req.messages.iter().map(|m| m.content.as_str()).collect();
    assert_eq!(contents, vec!["q1", "a1", "t1", "q2"]);
    assert_eq!(req.messages[3].role, MessageRole::IPYTHON);
    assert!(req.stream);
    assert_eq!(req.tools.unwrap()[0].function.name, "f");
}

#[test]
fn system_prompt_text_is_not_parsed() {
    let req = get_chat_ai_chat_request(
        &"m".to_string(),
        MessageRole::USER,
        &"".to_string(),
        Vec::new(),
        Some("".to_owned()),
        None,
        "not a date",
        "",
        false,
    );
    assert_eq!(req.messages[0].content, ". The current date is not a date and the current time is ");
    assert_eq!(req.messages[1].content, "");
}

#[test]
fn degraded_request_shape() {
    let text = degraded_request_text(&"llama3.1".to_string(), &"[m]".to_string());
    assert_eq!(text, "{\"model\": \"llama3.1\", \"message\": \"[m]\", \"stream\": false}");
}
