//! A terminal chat assistant's core: conversation history, request encoding,
//! stream framing and assembly, and the read-eval-print state machine.

pub mod config;
pub mod message;
pub mod store;
pub mod stream;
pub mod request;
pub mod sse;
pub mod repl;

pub use message::{Message, Role};
pub use store::ConversationStore;
pub use stream::{assemble, Assembly, AssemblyState, ErrorKind, Step, StreamEvent, TurnOutcome};
pub use request::{body_from_parts, join_with_commas, message_object, ChatRequest};
pub use sse::{classify_line, event_from_frame, LineBuffer, SseLine};
pub use repl::{classify_input, classify_trimmed, InputAction, ReplLoop, ReplState};
pub use config::{system_prompt, Config, ConfigError};
