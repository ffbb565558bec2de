//! A single-threaded cooperative asynchronous core.
//!
//! The library models deferred computations as explicitly polled values:
//! an [`task::AsyncValue`] is advanced step by step until it completes, a
//! race combinator runs two such values in deterministic interleaving and
//! resolves to whichever side completes first, a stream lazily transforms
//! a finite ordered source, and a driver polls one root value to
//! completion on the calling thread.

pub mod driver;
pub mod order;
pub mod race;
pub mod rect;
pub mod stream;
pub mod task;
pub mod text;
