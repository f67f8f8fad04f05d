//! Decision core of a hot-reloading wrapper for audio-plugin bundles.
//!
//! The wrapper sits between a host and a plugin. It watches the plugin's file
//! on disk and, whenever the file changes, swaps every running instance over
//! to the new binary: while audio is running, with a cross-fade, and with the
//! sounding notes, the parameters, the saved state and the window carried
//! over.
//!
//! This crate holds the rules of that mechanism, each function with a
//! contract that is proved of its body:
//!
//! - `watcher`: the chain of links behind the bundle file, the decisions of a
//!   reload attempt, and the fan-out that publishes a new bundle to every
//!   instance;
//! - `wrapper`: what the main thread decides when a new bundle arrives, and
//!   what the audio thread does with the processor it is handed;
//! - `entry`: the plugins on offer and the source of their bundles;
//! - `util`: telling a freshly loaded library from the bundle in force;
//! - `handoff`: the channels and the lock that the threads meet at;
//! - `bytes`: comparing and copying byte strings.
//!
//! Plugin instances, processors, bundles and windows pass through as values of
//! the caller's own types: the crate decides what becomes of them and never
//! looks inside. Reading files, loading libraries and calling plugins is left
//! to the caller, who reports back what came of it.

pub mod bytes;
pub mod entry;
pub mod handoff;
pub mod util;
pub mod watcher;
pub mod wrapper;
