//! Message models for a chat-platform client: limit validation of outbound
//! payloads, a local permission gate, mention-safe rendering, and the
//! decisions that precede each mutating request.
//!
//! The library performs no I/O. Every mutating operation returns the
//! [`request::Request`] that a transport has to submit; the caller commits the
//! answer with [`message::Message::commit`].

pub mod text;
pub mod json;
pub mod id;
pub mod permissions;
pub mod error;
pub mod user;
pub mod embed;
pub mod reaction;
pub mod channel;
pub mod message;
pub mod cache;
pub mod request;
pub mod builder;
pub mod limits;
pub mod gate;
pub mod mutate;
pub mod query;
pub mod render;
pub mod transform;
pub mod collector;
