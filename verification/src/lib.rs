//! Turns a working-tree diff into a Conventional Commits message with the
//! help of a remote text-generation service.
//!
//! The crate holds everything that can be decided without touching the
//! network: the message model and its rendering, the prompt template, the
//! shaping of provider requests, the classification of failures, and the
//! recovery of a structured message from a free-form reply.

pub mod message;
pub mod text;
pub mod json;
pub mod extract;
pub mod prompt;
pub mod transport;
pub mod provider;
pub mod client;
pub mod diff;
pub mod config;
pub mod ui;
