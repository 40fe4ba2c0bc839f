//! Multi-tenant static file serving, with the filesystem kept outside.
//!
//! A request is resolved in four stages: the `Host` header names a tenant, the
//! maintenance markers are looked up, the file path is built under the tenant's
//! root, and the file's bytes become the response. The library never touches the
//! disk itself: [`pipeline::Pipeline`] asks one question at a time and the caller
//! answers it, until a [`response::Response`] comes out. Paths are plain strings
//! that follow the Unix conventions (`/` separates, a leading `/` is absolute).

pub mod config;
pub mod content;
pub mod maintenance;
pub mod model;
pub mod paths;
pub mod pipeline;
pub mod response;
pub mod tenant;
