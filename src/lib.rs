//! Connection-admission probe logic: decoding of captured socket identities,
//! rendering of network addresses, and the per-invocation hook pipeline
//! (resolve the socket argument, read its identity, read its backlog counters,
//! emit one record).
pub mod address;
pub mod hook;
pub mod record;
pub mod simulate;
pub mod text;
