//! A debounce-and-coalesce engine for filesystem change notifications.
//!
//! Raw per-path notifications (create, write, remove, rename, error, stop
//! sentinel) are accumulated over a debounce window, filtered against
//! gitignore-style patterns, and folded into at most one batched event per
//! category per cycle: deletions first, then modifications.

pub mod engine;
pub mod event;
pub mod filter;
pub mod laws;
pub mod watcher;

pub use event::Event;
pub use filter::IgnoreFilter;
pub use watcher::{ConfigError, LifecycleState, StopError, WatcherBuilder, WatcherCore};
