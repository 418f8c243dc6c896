//! A small HTTP-like server core: request-line parsing, routing by method and
//! path, resolution of static files under a configured root, and composition of
//! the bytes written back to a client.
//!
//! Everything here is pure: reading sockets and files is left to the caller,
//! which hands the library plain values and writes out what it returns.

pub mod request;
pub mod response;
pub mod text;
pub mod config;
pub mod content;
pub mod routing;
pub mod laws;
