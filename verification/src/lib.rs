//! Coordination layer for rendering static map tile-sets from uploaded world
//! archives: a render-coalescing engine (key derivation, single-flight
//! execution, a staged filesystem pipeline with cleanup-on-failure, atomic
//! publication) and an artifact-resolution layer (path-based lookup with a
//! precompressed-asset fallback and a synthesized settings document).
//!
//! All decisions are made here, over plain values; the filesystem operations,
//! subprocess invocations and HTTP plumbing that carry them out live outside
//! this crate and merely report each operation's outcome back to the state
//! machines defined here.
pub mod config;
pub mod locks;
pub mod map;
pub mod paths;
pub mod pipeline;
pub mod template;
