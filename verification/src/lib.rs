//! A mailbox-provisioning gateway: authenticates a caller against a shared
//! secret, validates an untrusted mailbox identifier, builds a fixed argument
//! vector for the external provisioning command, classifies the command's
//! outcome, and renders a deterministic HTTP reply.
//!
//! Process launching and HTTP transport live outside this library; the
//! library's functions map plain values (header strings, path segments,
//! captured process output) to plain values (argument vectors, reply bodies).

pub mod auth;
pub mod command;
pub mod error;
pub mod gateway;
pub mod health;
pub mod ident;
pub mod outcome;
pub mod reply;
pub mod text;
