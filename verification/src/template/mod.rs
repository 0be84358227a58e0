//! MML draft templates for composing, replying to and forwarding messages.

pub mod address;
pub mod cli;
pub mod compose;
pub mod forward;
pub mod message;
pub mod new;
pub mod render;
pub mod reply;
pub mod thread;
pub mod types;

pub use types::{Template, TemplateBody, TemplateCursor};
