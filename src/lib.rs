//! A server-side library for the Internet Content Adaptation Protocol (ICAP):
//! decoders for ICAP messages and chunk headers, the per-message request
//! context, and the builders of ICAP responses.

pub mod ascii;
pub mod errors;
pub mod text;
pub mod numbers;
pub mod chunk;
pub mod decoder;
pub mod encapsulated;
pub mod method;
pub mod id;
pub mod header;
pub mod bindings;
pub mod messages;
pub mod request_context;
pub mod response;
pub mod pipeline;
pub mod config;
pub mod service;
