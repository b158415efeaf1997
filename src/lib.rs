//! A buffered pull adapter that drives a chunk-oriented bzip2 codec from a
//! byte source, stated as a verified state machine.
//!
//! - [`adapter`]: the adapter's state, its transitions as spec functions, and
//!   the executable steps proved to follow them.
//! - [`laws`]: properties that hold across the transitions.
//! - [`status`]: the meaning of the codec's return codes and counters.
//! - [`level`]: compression levels and the parameters they select.
pub mod adapter;
pub mod laws;
pub mod level;
pub mod status;
