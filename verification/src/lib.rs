//! A native bridge between a compiled library and a managed host runtime.
//!
//! The bridge has two halves. The bootstrap resolves the host handles that
//! later calls need and publishes them, once, into a write-once slot. The call
//! bridge reads that slot on every later entry and calls back into the host.
//! Every failure on either path is a [`HostError`], and every `HostError` has a
//! host exception that stands for it: no failure is silent, and none leaves
//! the library as a panic.
//!
//! - [`error`]: the failures and how each reaches the host.
//! - [`slot`]: the write-once slot.
//! - [`bridge`]: the decisions of both halves, over any kind of handles.
//! - [`lifecycle`]: what holds over sequences of initializations and calls.
//! - [`host`]: the bridge on a Java virtual machine.

pub mod error;
pub mod slot;
pub mod bridge;
pub mod lifecycle;
pub mod host;
