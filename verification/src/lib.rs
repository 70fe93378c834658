//! The session engine of a document server that speaks the Model Context
//! Protocol over lines of JSON: the handshake, the dispatch of requests and
//! notifications, the four document tools, and the resolution of resource
//! URIs to files within the active directory.
//!
//! The library neither reads nor writes files. What it needs to know of the
//! file system it is told in plain values (`probe`), and what is to be done
//! there it hands out as a task (`server::Step`).

pub mod config;
pub mod constants;
pub mod extractor;
pub mod json;
pub mod laws;
pub mod paths;
pub mod probe;
pub mod protocol;
pub mod resources;
pub mod server;
pub mod sorting;
pub mod text;
pub mod tools;
pub mod wire;
