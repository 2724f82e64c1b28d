//! AI assistance: prompt templates, the egress filter, the chat exchange and
//! the planning of an analysis request.

pub mod client;
pub mod egress;
pub mod error;
pub mod prompt;
pub mod service;

pub use client::{ChatMessage, ChatResponse, ClientSettings, Usage};
pub use egress::EgressFilter;
pub use error::AiError;
pub use prompt::PromptTemplate;
pub use service::AiService;
