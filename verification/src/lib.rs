//! Decision logic for switching a tiling window manager to the first unused
//! workspace from an ordered candidate list.
//!
//! The library is pure: it inspects a layout-tree snapshot, resolves the
//! target workspace under a policy, and synthesizes the command string to
//! submit. Talking to the window manager itself is left to the caller.

pub mod command;
pub mod errors;
pub mod layout;
pub mod resolve;
