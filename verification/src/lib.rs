//! Connection-lifecycle manager for a local TCP bridge.
//!
//! The library owns the decisions of a bridge between a UI layer and a
//! backend service listening on a local TCP port: which socket is current,
//! what to shut down on reconnect, what to write on `send`, and which
//! events (`Opened`, `Message`, `Closed`) a reader emits for the bytes it
//! receives. The blocking socket calls themselves are performed by the
//! embedding program, which feeds their outcomes back into these verified
//! state machines.

pub mod event;
pub mod manager;
pub mod reader;
pub mod text;
