//! Social-preview images served from an object-store cache.
//!
//! The library holds the decisions: how a cache key is derived from a build
//! identifier and a page title, how requests to the object store are shaped,
//! and the state machines that sequence authorization, the existence probe,
//! rendering and the bounded upload retry. The caller performs the network
//! and rendering work that each step asks for and reports back what happened.

pub mod text;
pub mod key;
pub mod http;
pub mod b2;
pub mod generation;
pub mod request;
