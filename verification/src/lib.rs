//! Suggests songs for a playlist: reads the playlist, asks a language model
//! for songs that go with it, looks each suggestion up in the catalogue and
//! adds what was found.
//!
//! The library decides and computes; it sends nothing. Each call to a
//! service is an [`http::HttpRequest`] that the caller sends, and an
//! [`http::HttpReply`] that the caller hands back. [`workflow::Run`] strings
//! the calls together.

pub mod auth;
pub mod http;
pub mod input;
pub mod json;
pub mod models;
pub mod playlist;
pub mod recommend;
pub mod resolve;
pub mod run_laws;
pub mod suggestions;
pub mod text;
pub mod views;
pub mod workflow;
