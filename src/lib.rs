//! A client-side model of a provider-neutral conversation-response protocol: the
//! request and response schema as JSON, the streamed events, and the decisions a
//! client makes around them.

use vstd::prelude::*;

pub mod client;
pub mod json;
pub mod laws;
pub mod streaming;
pub mod text;
pub mod types;
pub mod wire;

pub use client::{ClientBuilder, ClientError, StreamingClientBuilder};
pub use json::{DecodeError, Json, JsonNumber};
pub use streaming::{EventDecoder, StreamingError};
pub use text::{decode_text, encode_text};
pub use wire::Wire;

verus! {

} // verus!
