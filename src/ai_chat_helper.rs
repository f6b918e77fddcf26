use vstd::prelude::*;
use vstd::string::*;
use crate::ai_tools::{Tool, opt_tool_views};
use crate::message::{Message, MessageRole, MessageView, message_views};

verus! {

/// A chat request as the backend receives it.
pub struct AIChatRequest {
    pub model: String,
    pub messages: Vec<Message>,
    pub stream: bool,
    pub tools: Option<Vec<Tool>>,
}

/// One response event of the backend, and the final answer built from them.
pub struct AIChatResponse {
    pub model: String,
    pub created_at: String,
    pub message: Message,
    pub done_reason: String,
    pub done: bool,
    pub total_duration: u128,
    pub load_duration: u128,
    pub prompt_eval_count: u64,
    pub prompt_eval_duration: u128,
    pub eval_count: u64,
    pub eval_duration: u128,
}

pub struct ResponseView {
    pub model: Seq<char>,
    pub created_at: Seq<char>,
    pub message: MessageView,
    pub done_reason: Seq<char>,
    pub done: bool,
    pub total_duration: u128,
    pub load_duration: u128,
    pub prompt_eval_count: u64,
    pub prompt_eval_duration: u128,
    pub eval_count: u64,
    pub eval_duration: u128,
}

impl View for AIChatResponse {
    type V = ResponseView;

    open spec fn view(&self) -> ResponseView {
        ResponseView {
            model: self.model@,
            created_at: self.created_at@,
            message: self.message@,
            done_reason: self.done_reason@,
            done: self.done,
            total_duration: self.total_duration,
            load_duration: self.load_duration,
            prompt_eval_count: self.prompt_eval_count,
            prompt_eval_duration: self.prompt_eval_duration,
            eval_count: self.eval_count,
            eval_duration: self.eval_duration,
        }
    }
}

/// A message together with the conversation that led to it.
pub struct AIChatBodyMessage {
    pub message: Message,
    pub context: Vec<Message>,
    pub done: bool,
}

/// The system message's text: the prompt followed by the date and time,
/// written as given.
pub open spec fn system_content(prompt: Seq<char>, date: Seq<char>, time: Seq<char>) -> Seq<char> {
    prompt + ". The current date is "@ + date + " and the current time is "@ + time
}

/// The messages of a request: the system message when there is a prompt,
/// then the prior conversation in order, then the new message.
pub open spec fn request_messages(
    role: MessageRole,
    message: Seq<char>,
    context: Seq<MessageView>,
    system: Option<Seq<char>>,
    date: Seq<char>,
    time: Seq<char>,
) -> Seq<MessageView> {
    let head = match system {
        Some(p) => seq![
            MessageView {
                role: MessageRole::SYSTEM,
                content: system_content(p, date, time),
                tool_calls: None,
            },
        ],
        None => Seq::<MessageView>::empty(),
    };
    head + context + seq![MessageView { role, content: message, tool_calls: None }]
}

pub open spec fn opt_text(o: Option<String>) -> Option<Seq<char>> {
    match o {
        Some(s) => Some(s@),
        None => None,
    }
}

/// Builds a chat request.
pub fn get_chat_ai_chat_request(
    ai_model: &String,
    role: MessageRole,
    message: &String,
    context: Vec<Message>,
    system: Option<String>,
    tool_list: Option<Vec<Tool>>,
    current_date: &str,
    current_time: &str,
    stream_ans: bool,
) -> (r: AIChatRequest)
    ensures
        r.model@ == ai_model@,
        r.stream == stream_ans,
        opt_tool_views(r.tools) == opt_tool_views(tool_list),
        message_views(r.messages@) == request_messages(
            role,
            message@,
            message_views(context@),
            opt_text(system),
            current_date@,
            current_time@,
        ),
        match system {
            Some(p) => r.messages@[0]@.role == MessageRole::SYSTEM && r.messages@[0]@.content
                == system_content(p@, current_date@, current_time@),
            None => true,
        },
{
    let mut initial_msg: Vec<Message> = Vec::new();
    let ghost sys = opt_text(system);
    match system {
        Some(sys_msg) => {
            let mut content = sys_msg;
            content.append(". The current date is ");
            content.append(current_date);
            content.append(" and the current time is ");
            content.append(current_time);
            initial_msg.push(Message::new(MessageRole::SYSTEM, content));
        },
        None => {},
    }
    let ghost head = message_views(initial_msg@);
    let mut rest = context;
    let ghost ctx = rest@;
    initial_msg.append(&mut rest);
    let user_message = Message::new(role, message.clone());
    let ghost user = user_message@;
    initial_msg.push(user_message);
    proof {
        assert(message_views(initial_msg@) =~= head + message_views(ctx) + seq![user]);
        assert(head =~= match sys {
            Some(p) => seq![
                MessageView {
                    role: MessageRole::SYSTEM,
                    content: system_content(p, current_date@, current_time@),
                    tool_calls: None,
                },
            ],
            None => Seq::<MessageView>::empty(),
        });
    }
    AIChatRequest {
        model: ai_model.clone(),
        messages: initial_msg,
        stream: stream_ans,
        tools: tool_list,
    }
}

/// The minimal request text sent when a request cannot be serialized: the
/// model, a dump of the messages, and no streaming.
pub open spec fn degraded_request(model: Seq<char>, messages_dump: Seq<char>) -> Seq<char> {
    "{\"model\": \""@ + model + "\", \"message\": \""@ + messages_dump
        + "\", \"stream\": false}"@
}

/// Builds the minimal request text from the model name and a dump of the
/// messages.
pub fn degraded_request_text(model: &String, messages_dump: &String) -> (r: String)
    ensures
        r@ == degraded_request(model@, messages_dump@),
{
    let mut text = String::from_str("{\"model\": \"");
    text.append(model.as_str());
    text.append("\", \"message\": \"");
    text.append(messages_dump.as_str());
    text.append("\", \"stream\": false}");
    text
}

} // verus!
