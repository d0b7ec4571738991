//! Gracefully shut down a process.
//!
//! A [`Shutdown`] coordinator broadcasts a one-time shutdown signal to any
//! number of [`ShutdownListener`]s and lets an orchestrator [`Wait`] until
//! every listener has been released. It is meant for server processes, which
//! stop accepting work on a signal and let the work in flight finish.
//!
//! A listener is created with [`Shutdown::listen`] and released with
//! [`ShutdownListener::release`]. [`Shutdown::quit`] requests the shutdown;
//! it is what a signal handler calls, through [`terminate`], at the hooks
//! that [`init`] lists.
//!
//! The protocol that the coordinator follows is written down in
//! [`protocol`]. What holds of it is proved in [`laws`], and what survives
//! the interleaving of several callers in [`interleaving`]. What is taken on
//! trust of tokio and std stands in [`sync`].

pub mod interleaving;
pub mod laws;
pub mod protocol;
pub mod shutdown;
pub mod signal;
pub mod sync;

pub use crate::shutdown::terminate;
pub use crate::shutdown::Shutdown;
pub use crate::shutdown::ShutdownListener;
pub use crate::shutdown::Wait;
pub use crate::signal::init;
pub use crate::signal::Hook;
pub use crate::signal::Platform;
