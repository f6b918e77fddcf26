use bt_ai_core::ai_tool_to_call::ToolToCall;
use bt_ai_core::message::{Message, MessageRole};
use serde_json::Value;

#[test]
fn test_message_success() {
    let content: String = "This is a prompt".to_owned();
    let msg = Message::new(MessageRole::USER, content.clone());
    assert_eq!(msg.get_role().clone(), MessageRole::USER);
    assert_eq!(msg.get_content().clone(), content);
    assert!(msg.get_tools().is_none());
}

#[test]
fn test_message_with_funct() {
    let ctt: String = "This is a prompt".to_owned();
    let arg: Vec<(String, Value)> = vec![("ARG1".to_owned(), Value::String("Value1".to_owned()))];

    let ttc = ToolToCall::new("FunctName".to_owned(), arg);

    let msg = Message {
        role: MessageRole::USER,
        content: ctt.clone(),
        tool_calls: Some(vec![ttc]),
    };

    assert_eq!(msg.get_role().clone(), MessageRole::USER);
    assert_eq!(msg.content, ctt);
    assert_eq!(msg.get_tools().unwrap()[0].get_function_name(), "FunctName");
}

#[test]
fn test_as_str() {
    assert_eq!(MessageRole::USER.as_str(), "user");
    assert_eq!(MessageRole::ASSISTANT.as_str(), "assistant");
    assert_eq!(MessageRole::SYSTEM.as_str(), "system");
    assert_eq!(MessageRole::TOOL.as_str(), "tool");
    assert_eq!(MessageRole::IPYTHON.as_str(), "ipython");
    assert_eq!(MessageRole::ERROR.as_str(), "error");
}

#[test]
fn message_new_with_tools_keeps_calls() {
    let call = ToolToCall::new("f".to_owned(), Vec::new());
    let msg = Message::new_with_tools(MessageRole::ASSISTANT, "x".to_owned(), vec![call]);
    let tools = msg.get_tools().unwrap();
    assert_eq!(tools.len(), 1);
    assert_eq!(tools[0].get_function_name(), "f");
    assert_eq!(msg.get_role().clone(), MessageRole::ASSISTANT);
}

#[test]
fn message_duplicate_is_equal() {
    let msg = Message::new(MessageRole::TOOL, "result".to_owned());
    let copy = msg.duplicate();
    assert_eq!(copy.get_content(), "result");
    assert_eq!(copy.get_role().clone(), MessageRole::TOOL);
    assert!(copy.get_tools().is_none());
}
