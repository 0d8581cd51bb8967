//! The names that most callers need, in one place.

pub use crate::common::errors::AnthropicToolError;
pub use crate::common::json::Json;
pub use crate::common::tool::{CacheControl, JsonSchema, PropertyDef, Tool};
pub use crate::common::usage::Usage;
pub use crate::messages::request::body::{Body, Metadata, Sample, ToolChoice};
pub use crate::messages::request::content::{ContentBlock, DocumentSource, ImageSource, MediaType};
pub use crate::messages::request::message::{Message, SystemBlock, SystemPrompt};
pub use crate::messages::request::role::Role;
pub use crate::messages::request::Messages;
pub use crate::messages::response::{Response, StopReason};
pub use crate::messages::streaming::{Delta, MessageDelta, StreamAccumulator, StreamEvent};
