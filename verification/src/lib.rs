//! A small event-driven runtime: an epoll-style poller, reactors that map
//! readiness tokens to wakers, executors that schedule woken tasks, and the
//! hand-written futures and generators that run on them.
use vstd::prelude::*;

pub mod clib;
pub mod epoll;
pub mod fd_poll;
pub mod file;
pub mod fut;
pub mod future;
pub mod generator;
pub mod old_world;
pub mod reactor_executor;
pub mod task;
pub mod vtable;

verus! {

} // verus!
