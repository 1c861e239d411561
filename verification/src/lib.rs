//! The decisions of a channel thumbnail downloader, without its I/O.
//!
//! The crate turns a channel reference into the requests that find the
//! channel's uploads, gathers the video identifiers page by page, and says for
//! each video what to fetch and where to store it. It never touches the
//! network or the file system: a driver performs each request and hands the
//! answer back.

pub mod endpoints;
pub mod enumerator;
pub mod error;
pub mod fetcher;
pub mod orchestrator;
pub mod reference;
pub mod resolver;
pub mod responses;
pub mod segments;
pub mod text;
pub mod traces;
