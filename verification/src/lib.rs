//! A bidirectional, asynchronous, multi-module host-call fabric.
//!
//! The crate verifies the core of the fabric: the serialization envelope and
//! argument packer, the RPC node that frames and dispatches messages, the
//! host-side async context with its TX/RX queues and request futures, the
//! guest-side cooperative runtime, and the module registry that resolves
//! call targets and forwards requests between modules.
//!
//! The embedding isolate runtime, the executor that drives the futures and
//! all I/O stay outside the library; they hand plain byte strings in and
//! take plain byte strings and routing decisions out.

pub mod abi;
pub mod adapter;
pub mod args;
pub mod codec;
pub mod context;
pub mod ctx;
pub mod entry;
pub mod errors;
pub mod future;
pub mod lowlevel;
pub mod manager;
pub mod module;
pub mod node;
pub mod pending;
pub mod queue;
pub mod rt;
pub mod serialize;
