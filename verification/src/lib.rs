//! A generation-client library: the request envelope and endpoint of a
//! remote text-generation service, extraction of the generated text from its
//! responses, and the taxonomy of everything that can go wrong on the way.

pub mod client;
pub mod json;
pub mod response;
pub mod text;
