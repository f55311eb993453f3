//! Core of a recursive filesystem change-notification engine.
//!
//! A caller registers directories and consumes a lazy sequence of semantic
//! events (create / modify / delete / move), each carrying a target path and
//! a file-vs-directory discriminator. Two kernel notification mechanisms are
//! normalized into that single feed: a Linux queue of file-handle records and
//! a macOS stream of coalesced per-path events.
//!
//! This crate holds the verified decision core: the shared event model, the
//! per-platform decoding pipelines, the rename-pairing algorithms, the
//! recursive watch traversal, and the lifecycle state machines. The thin
//! shells that perform kernel I/O, run tasks and release native resources
//! live outside the library and drive these functions.

pub mod errors;
pub mod events;
pub mod fanotify;
pub mod fsevents;
pub mod stream;
pub mod traversal;
