//! Engine logic of a StatusNotifierItem tray: the watcher registry, the
//! per-item tracker, the typed model of items and menus, and the decoders
//! that build that model from D-Bus values.
//!
//! Nothing here talks to the bus: callers perform the calls, and hand the
//! values they received to these functions. The one thing read from the
//! outside is the clock, for the time stamp of a menu event.

pub mod dbus;
pub mod error;
pub mod eww;
pub mod message;
pub mod notifier_host;
pub mod notifier_watcher;
pub mod table;
pub mod text;
pub mod tray_icon;
pub mod value;
