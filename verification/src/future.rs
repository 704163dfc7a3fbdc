//! A single-threaded runtime: an executor that polls the futures whose
//! tokens were woken, a reactor that turns readiness events into wakes, and a
//! future that reads a number of characters from a file.
pub mod executor;
pub mod future;
pub mod reactor;
