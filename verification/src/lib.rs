//! A client library for the Messages API of a conversational model.
//!
//! The heart of the crate is [`messages::streaming`]. It turns the lines of
//! a server-sent event stream into typed events
//! ([`messages::streaming::parse_sse_line`]) and folds those events, in the
//! order of their arrival, into a reconstruction of the response
//! ([`messages::streaming::StreamAccumulator`]). Around it stand the parts
//! of a request ([`messages::request`]), the response
//! ([`messages::response`]) and what they share ([`common`]).
//!
//! Every function carries a contract that Verus proves. Contracts are
//! stated over the mathematical form of each type, its view: text is a
//! sequence of characters, a list is a sequence, a JSON document is a tree
//! ([`common::json::JsonView`]). What several functions have in common is
//! stated once, as a proof function beside them.
//!
//! A few functions of other crates are called: `serde_json` reads and
//! prints JSON text, `base64` encodes bytes, `image` reads and writes
//! pictures. Each such call stands alone in a function that is marked as
//! trusted and says in its contract what is assumed of the call. Nothing
//! here opens a file or a connection; that is left to the caller.

pub mod common;
pub mod messages;
pub mod prelude;

pub use common::errors::AnthropicToolError;
pub use common::tool::Tool;
pub use common::usage::Usage;
pub use messages::request::Messages;
pub use messages::response::Response;
