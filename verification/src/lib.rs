//! HTTP/1.x message framing for a synchronous HTTP client: request encoding,
//! response decoding and the keep-alive decision.

pub mod body;
pub mod buffer;
pub mod client;
pub mod cookie;
pub mod error;
pub mod header;
pub mod method;
pub mod proto;
pub mod request;
pub mod response;
pub mod status;
pub mod text;
pub mod tokenizer;
pub mod uri;
pub mod version;
