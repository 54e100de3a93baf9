//! An adapter between a provider-neutral conversation and the Z.ai messages
//! API: it builds the vendor request, decides when a failed attempt is tried
//! again, and decodes batch responses and streamed events back into messages
//! and token usage.

pub mod model;
pub mod translate;
pub mod errors;
pub mod retry;
pub mod decode;
pub mod stream;
pub mod decoder;
pub mod provider;
