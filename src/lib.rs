//! Twirp RPC over HTTP with protobuf payloads: envelopes, the error model,
//! and the protocol decisions of the client invoker and server dispatcher.
use vstd::prelude::*;

pub mod client;
pub mod codec;
pub mod envelope;
pub mod error;
pub mod headers;
pub mod json;
pub mod server;

pub use client::{prepare_call, prepare_raw_call, root_url, target_uri};
pub use envelope::{json_response, ServiceRequest, ServiceResponse, Version};
pub use error::{ProstTwirpError, TwirpError};
pub use headers::Headers;
pub use json::JsonValue;
pub use server::{check_request, handle_outcome, Reply};

verus! {

} // verus!
