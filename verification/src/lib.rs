//! Email notifications about the outcome of a monitored process.
//!
//! An [`EmailNotifier`] holds the settings of a mail account and a tag that
//! names the process. It words three kinds of message (a progress update, a
//! success message and an error message), checks the configured addresses,
//! and hands each finished [`Email`] to a transport that the caller supplies.
//! [`EmailNotifier::capture`] runs a unit of work and then sends exactly one
//! closing message, chosen by how the work ended; the work's own outcome
//! comes back untouched.
//!
//! The library opens no connection and reads no file. What reaches the
//! network is decided here and proved; how it gets there is the caller's
//! business.

pub mod config;
pub mod email;
pub mod mailbox;
pub mod notification;
pub mod send;

pub use config::{Config, ConfigError};
pub use email::Email;
pub use notification::Notification;
pub use send::{CaptureError, Captured, EmailNotifier, SendError};
