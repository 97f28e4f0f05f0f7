//! A chat service in front of an Azure OpenAI deployment: users ask
//! questions, answers are streamed back as server-sent events and recorded
//! in conversations, and users without an active VIP membership have a
//! daily chat quota.
//!
//! This crate holds the service's rules: the quota decisions, the requests
//! sent to the language model, the rows written for conversations, the
//! page queries of the listings and the error codes.
pub mod api_doc;
pub mod chat;
pub mod chat_error;
pub mod conversation;
pub mod quota;
pub mod requests;
pub mod text;
