//! A minimal guest module for a host/guest call boundary.
//!
//! The guest depends on one host-supplied capability, the `host_log`
//! notification, and exposes one entry point, `operation`. Invoking
//! `operation(a, b)` notifies the host of `a`, then of `b`, and returns the
//! wrapping 32-bit sum of the two. The contracts here pin down that linkage:
//! exactly which calls the guest makes into the host, in which order, and
//! exactly which value it hands back.

pub mod guest;
pub mod host;

pub use guest::operation;
pub use host::HostLog;
pub use host::RecordingHost;
