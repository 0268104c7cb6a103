//! Event bridging and input normalisation for a compositor that runs as a
//! guest window inside a host desktop: host key and button codes are mapped
//! to canonical codes, rapid re-presses are debounced, modifier snapshots
//! become key events, frames are paced, and window events become requests to
//! the compositor.

pub mod backend;
pub mod config;
pub mod debounce;
pub mod events;
pub mod input_shim;
pub mod keymap;
pub mod modifiers;
pub mod normalize;
pub mod output;
pub mod pacer;
pub mod screencast;
pub mod surface;
