pub mod chat_context;
pub mod chat_message;
pub mod chat_room;
