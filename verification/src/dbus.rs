//! Shapes of the remote interfaces the engine talks to, and the state of
//! the one it serves.

pub mod dbusmenu_proxy;
pub mod notifier_watcher_service;
