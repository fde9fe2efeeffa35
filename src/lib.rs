//! A managed-pointer subsystem over a tracing collector: the finalization
//! decision for each type shape, the capability oracle, the collector context
//! and the copyable `Gc` handle.
pub mod shape;
pub mod collector;
pub mod gc;
