//! A verified hot-reload core: path and alias-name computation, watch-event
//! filtering, the reload state machine of a loaded module handle, and the
//! shared sample state that reloadable modules operate on.

pub mod handle;
pub mod paths;
pub mod shared;
pub mod update;
pub mod view;
pub mod watch;
