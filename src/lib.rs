//! Provider clients for hosted language-model services: how each one is
//! configured and addressed, which capabilities it offers, and how its
//! responses and event streams are read.

pub mod anthropic;
pub mod capability;
pub mod gemini;
pub mod headers;
pub mod merge;
pub mod response;
pub mod stream;
pub mod together;
pub mod urls;
