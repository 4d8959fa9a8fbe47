//! Application-side helpers: the shared object store and the window
//! options and event names the platform layer consumes.

/// The store of objects shared with per-frame callbacks.
pub mod shared_objects;
/// Window options and event kinds.
pub mod window;
