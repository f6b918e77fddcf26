use vstd::prelude::*;
use crate::ai_tool_to_call::{ToolToCall, ToolCallView, tool_call_views, duplicate_calls};

verus! {

/// Who speaks in a message.
#[derive(Clone, Copy, Debug, PartialEq, Eq, Structural)]
pub enum MessageRole {
    USER,
    ASSISTANT,
    SYSTEM,
    TOOL,
    IPYTHON,
    ERROR,
}

/// The wire name of a role: its variant name in lower case.
pub open spec fn role_name(role: MessageRole) -> Seq<char> {
    match role {
        MessageRole::USER => "user"@,
        MessageRole::ASSISTANT => "assistant"@,
        MessageRole::SYSTEM => "system"@,
        MessageRole::TOOL => "tool"@,
        MessageRole::IPYTHON => "ipython"@,
        MessageRole::ERROR => "error"@,
    }
}

impl MessageRole {
    pub fn as_str(&self) -> (r: &'static str)
        ensures
            r@ == role_name(*self),
    {
        match self {
            MessageRole::USER => "user",
            MessageRole::ASSISTANT => "assistant",
            MessageRole::SYSTEM => "system",
            MessageRole::TOOL => "tool",
            MessageRole::IPYTHON => "ipython",
            MessageRole::ERROR => "error",
        }
    }
}

/// One role-tagged unit of a conversation.
pub struct Message {
    pub role: MessageRole,
    pub content: String,
    pub tool_calls: Option<Vec<ToolToCall>>,
}

pub struct MessageView {
    pub role: MessageRole,
    pub content: Seq<char>,
    pub tool_calls: Option<Seq<ToolCallView>>,
}

pub open spec fn calls_view(calls: Option<Vec<ToolToCall>>) -> Option<Seq<ToolCallView>> {
    match calls {
        Some(v) => Some(tool_call_views(v@)),
        None => None,
    }
}

impl View for Message {
    type V = MessageView;

    open spec fn view(&self) -> MessageView {
        MessageView { role: self.role, content: self.content@, tool_calls: calls_view(self.tool_calls) }
    }
}

pub open spec fn message_views(msgs: Seq<Message>) -> Seq<MessageView> {
    msgs.map_values(|m: Message| m@)
}

impl Message {
    pub fn new(role: MessageRole, msg_content: String) -> (r: Self)
        ensures
            r@ == (MessageView { role, content: msg_content@, tool_calls: None }),
    {
        Message { role: role, content: msg_content, tool_calls: None }
    }

    pub fn new_with_tools(role: MessageRole, msg_content: String, tools: Vec<ToolToCall>) -> (r:
        Self)
        ensures
            r@ == (MessageView {
                role,
                content: msg_content@,
                tool_calls: Some(tool_call_views(tools@)),
            }),
    {
        Message { role: role, content: msg_content, tool_calls: Some(tools) }
    }

    pub fn get_content(&self) -> (r: &String)
        ensures
            r@ == self@.content,
    {
        &self.content
    }

    pub fn get_role(&self) -> (r: &MessageRole)
        ensures
            *r == self@.role,
    {
        &self.role
    }

    pub fn get_tools(&self) -> (r: Option<Vec<ToolToCall>>)
        ensures
            calls_view(r) == self@.tool_calls,
    {
        match &self.tool_calls {
            Some(calls) => Some(duplicate_calls(calls)),
            None => None,
        }
    }

    /// A copy with the same role, content and tool calls.
    pub fn duplicate(&self) -> (r: Self)
        ensures
            r@ == self@,
    {
        Message { role: self.role, content: self.content.clone(), tool_calls: self.get_tools() }
    }
}

} // verus!
