//! A chat relay library: a conversation state machine that forwards user
//! messages, together with the running history, to a hosted completion
//! service and prepares the reply for delivery in escaped-markdown form.

pub mod completion;
pub mod engine;
pub mod messages;
pub mod sanitize;
