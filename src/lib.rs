//! Client-side core of a chat-completion adapter: the message model, the tool
//! catalog and its per-model resolution, platform configuration, request
//! construction and the aggregation of a streamed answer.

pub mod ai_chat_helper;
pub mod ai_config;
pub mod ai_stream_helper;
pub mod ai_tool_to_call;
pub mod ai_tools;
pub mod assoc;
pub mod config_node;
pub mod message;
pub mod model_configs;
pub mod parameter_names;
pub mod text;
