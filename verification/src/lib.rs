//! A controllable background auto-click engine.
//!
//! The heart of the crate is the activation state machine in [`autoclicker`]:
//! it guarantees that at most one click loop is active at a time, even when
//! activations race in from several call sites (a direct user action and a
//! hotkey event stream). [`state`] models the user-visible settings and where
//! they are kept on disk. All timing, input injection and file handling is
//! left to the embedding program, which drives the verified transitions here.

pub mod autoclicker;
pub mod state;
