//! Typed requests and replies for hosted machine-learning algorithms.
//!
//! The library decides what is sent to the remote platform and what a reply means; it
//! never touches the network itself. A caller drives a [`dispatch::Job`] and performs
//! the actions that it asks for.

pub mod dispatch;
pub mod error;
pub mod image;
pub mod nlp;
pub mod wire;
