//! Resolves a YouTube video or playlist URL into the requests and downloader
//! invocations that fetch it, as verified decisions over plain values.

pub mod error;
pub mod ident;
pub mod invoker;
pub mod metadata;
pub mod orchestrator;
pub mod route;
pub mod text;
