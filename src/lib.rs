//! A named, append-only log of output and error lines, and the retrieval
//! policies that let pipeline stages read each other's lines.
pub mod backoff;
pub mod stock;
pub mod pass;
pub mod registry;
pub mod cursor;
pub mod laws;
