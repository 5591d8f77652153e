//! The decisions behind a small HTTP(S) server: where it listens, what
//! it answers, how its TLS identity is obtained, and how it starts up
//! and shuts down.
//!
//! Nothing here touches a socket, a file or a clock. Each component is
//! a function from plain values to plain values; the program around the
//! library performs the actions it is handed and reports what happened.

pub mod address;
pub mod cli;
pub mod tls;
pub mod route;
pub mod notice;
pub mod server;
pub mod laws;
