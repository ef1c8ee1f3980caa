//! A desktop notification abstraction: one OS-agnostic [`notification::Notification`]
//! value is mapped into the request shape each native notification subsystem
//! expects, and a handle to the submitted notification is handed back to the caller.
//!
//! The mapping layer itself is pure: each backend module exposes functions that
//! build the native request from a `Notification` and functions that turn the native
//! subsystem's verdict into the unified result. The native calls themselves live in
//! the platform glue around this crate.

pub mod error;
pub mod macos;
pub mod notification;
pub mod timeout;
pub mod windows;
