pub mod message;
pub mod payload;
pub mod queue;
pub mod request_reply_channel;
pub mod signal;
