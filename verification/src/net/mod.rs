pub mod connection;
pub mod frames;
pub mod message_receiver;
pub mod message_sender;
pub mod requester;
pub mod with_send_callback;
