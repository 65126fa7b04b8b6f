//! A streaming chat client core: raw server-push frames are classified into
//! chat events, answers are accumulated from token fragments, and a shared
//! conversation history is guarded by non-blocking, exclusive access.

pub mod chat;
pub mod classify;
pub mod client;
pub mod error;
pub mod exchange;
pub mod json;
pub mod laws;
pub mod model;
pub mod request;
pub mod session;
pub mod stream;

pub use self::chat::Chat;
pub use self::client::Client;
pub use self::error::Error;
pub use self::model::ChatEvent;
pub use self::model::ChatMessage;
pub use self::stream::ChatResponseStream;
