//! Verified core of a command-line subscriber to an audio-server event bus.
//!
//! The library holds the pure logic of the subscriber: the vocabulary of
//! entity categories and lifecycle actions, the filter set built from the
//! command line, the subscription-mask derivation, the per-event dispatch
//! decision, and the step functions of the connection bring-up and run
//! loops. The surrounding process (argument parsing, the audio-server
//! connection itself, signal handling, printing) drives these functions
//! and performs the I/O they decide on.

pub mod bootstrap;
pub mod dispatch;
pub mod filter;
pub mod mask;
pub mod vocab;
