//! The decision core of the swim window manager.
//!
//! Everything that talks to the X server lives outside this crate: the
//! library is a state machine that, given an X event or the reply to the
//! request it asked for last, says which request to send next and how its
//! own state changes.
pub mod ewmh;
pub mod geometry;
pub mod ipc;
pub mod laws;
pub mod laws_flow;
pub mod laws_tables;
pub mod model;
pub mod requests;
pub mod setup;
pub mod tags;
pub mod wm;
