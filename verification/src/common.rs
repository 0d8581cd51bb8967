//! Types shared by requests, responses and the event stream.

pub mod encode;
pub mod errors;
pub mod json;
pub mod text;
pub mod tool;
pub mod usage;

pub use errors::{AnthropicToolError, ErrorDetail, ErrorResponse};
pub use json::Json;
pub use tool::{CacheControl, JsonSchema, PropertyDef, Tool};
pub use usage::Usage;
