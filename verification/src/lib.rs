//! Verified core of a desktop notification daemon.
//!
//! The library owns the notification registry: identifier allocation,
//! create/replace/close bookkeeping, and the pure replies of the remote
//! interface. Bus plumbing, logging and signal handling live outside it.

pub mod daemon;
pub mod hints;
pub mod laws;

pub use daemon::Notification;
pub use daemon::NotificationDaemon;
pub use hints::HintValue;
