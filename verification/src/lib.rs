//! A safe facade over a just-in-time execution engine.
//!
//! The crate models the lifecycle of a JIT session: a builder accumulates
//! configuration and is consumed by a single engine construction, the engine
//! ingests modules and object buffers by ownership transfer, resolves symbol
//! names to non-null addresses, and lets callers customize the linking and
//! object-transformation pipeline through registered callback objects that
//! are replaced and reclaimed exactly once.

pub mod builder;
pub mod error;
pub mod function;
pub mod handle;
pub mod lljit;
pub mod pool;
pub mod session;
pub mod transform;
pub mod unit;
