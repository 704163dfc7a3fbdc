//! The C types, constants and record layouts that the poller and the file
//! reader exchange with the kernel and the C library.
use vstd::prelude::*;

verus! {

#[allow(non_camel_case_types)]
pub type size_t = usize;

#[allow(non_camel_case_types)]
pub type ssize_t = isize;

#[allow(non_camel_case_types)]
pub type c_int = i32;

#[allow(non_camel_case_types)]
pub type c_short = i16;

/// What `fgetc` returns at the end of the available input.
pub const EOF: c_int = -1;

pub const O_RDONLY: c_int = 0;

pub const O_RDWR: c_int = 2;

pub const O_NONBLOCK: c_int = 2048;

/// Readiness for reading.
pub const EPOLLIN: u32 = 1;

/// The `epoll_ctl` operation that adds a descriptor to the interest list.
pub const EPOLL_CTL_ADD: c_int = 1;

/// One readiness record: the events that occurred and the data that was
/// registered with the descriptor.
#[allow(non_camel_case_types)]
#[derive(Debug, Clone, Copy, PartialEq, Eq, Structural)]
pub struct epoll_event {
    pub events: u32,
    pub data: u64,
}

/// The `epoll_ctl` operation that removes a descriptor from the interest
/// list.
pub const EPOLL_CTL_DEL: c_int = 2;

/// The arguments of one `epoll_ctl` call.
#[derive(Debug, Clone, Copy, PartialEq, Eq, Structural)]
pub struct EpollCtl {
    pub epfd: c_int,
    pub op: c_int,
    pub fd: c_int,
    pub event: epoll_event,
}

} // verus!
