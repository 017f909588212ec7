//! A chat relay: renders recent chat history into a transcript, talks to a
//! generative text and image service, and shapes the replies that go back
//! into the chat room.
//!
//! The network, the chat platform and JSON encoding stay outside; every
//! decision between them is made here, over plain values.

pub mod text;
pub mod error;
pub mod palette;
pub mod transcript;
pub mod identity;
pub mod chunker;
pub mod invocation;
pub mod gemini_client;
pub mod gemini_imagen_client;
pub mod image_source;
pub mod replies;
pub mod activity;
