//! Non-blocking reads over a blocking byte source.
//!
//! A background reader hands bytes to a foreground handle one at a time
//! through a shared slot: a ready flag and a one-way byte channel kept
//! behind a lock. The reader never stages a second byte before the handle
//! has taken the first.
pub mod handle;
pub mod laws;
pub mod reader;
pub mod slot;
