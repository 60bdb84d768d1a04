//! Core of a question-answering chat bot: a streaming chat-completion client
//! (admission control, retries, server-sent-event decoding) and a per-user
//! session store with time-based image cleanup.
pub mod admission;
pub mod commands;
pub mod config;
pub mod error;
pub mod image;
pub mod models;
pub mod paths;
pub mod retry;
pub mod session;
pub mod sse;
pub mod text;

pub use config::Config;
pub use error::ChatError;
pub use image::ImageGenerator;
pub use models::{ChatResponse, FastGPTChatRequest, FastGPTMessage, ImageResponse};
pub use session::{SessionInfo, SessionManager};
pub use sse::StreamDecoder;
pub use text::{safe_truncate, truncate};
