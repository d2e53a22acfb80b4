//! Rendering and input core of a terminal chat client.
//!
//! Given a growing log of chat messages and a bounded viewport, the library
//! decides which trailing subsequence of the log fits the available vertical
//! space under word-wrapping, lays those messages out bottom-anchored so the
//! newest is always visible, and maintains a single-line text editor for
//! composing outgoing messages. Terminal I/O, drawing and the network
//! transport stay outside; the core works on plain values and is verified.

pub mod input;
pub mod message_log;
pub mod text_model;
pub mod wrap_fit;
