//! Client core for an anonymous, proof-of-work gated chat-completion
//! endpoint whose replies arrive as cumulative snapshots, and their
//! re-framing as the incremental OpenAI chat-completions wire format.

pub mod bindings;
pub mod config;
pub mod driver;
pub mod error;
pub mod facade;
pub mod request;
pub mod response;
pub mod sentinel;
pub mod session;
pub mod sse;
pub mod stream;
pub mod text;
pub mod transport;

pub use config::{AppState, AppStateRef, Options};
pub use driver::{CompletionResult, Conversation, DriverAction, ReplCommand};
pub use error::Error;
pub use request::{CompletionRequest, ConversationMode, Message};
pub use response::{
    CompletionMessage, CompletionMessageAuthor, CompletionMessageContent,
    CompletionMessageFinishDetails, CompletionMessageMeta, CompletionResponse,
};
pub use session::{alloc_session, ChatRequirements, Session};
pub use stream::{CompletionEvent, CompletionStream, StreamStep, Timestamp};
