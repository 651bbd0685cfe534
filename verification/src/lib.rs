//! Client-side core of `rsm`, a command-line client for a remote task and
//! reminder service: due-time parsing, task-text resolution, the local
//! credential store, the authentication lifecycle and request framing.
//!
//! Everything here computes on plain values. Reading files, talking to the
//! terminal and sending requests is left to the program around this library.

pub mod api;
pub mod auth;
pub mod calendar;
pub mod config;
pub mod due;
pub mod error;
pub mod input;
pub mod json;
pub mod listing;
pub mod reply;
pub mod session;
pub mod text;
pub mod url;
