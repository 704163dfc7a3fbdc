//! The readiness poller: the decisions that it takes on what the kernel
//! answers to `epoll_create`, `epoll_ctl` and `epoll_wait`.
use vstd::prelude::*;
use vstd::string::*;
use crate::clib::{c_int, epoll_event, EpollCtl, EPOLLIN, EPOLL_CTL_ADD, EPOLL_CTL_DEL};
use crate::file::File;

verus! {

/// The identifier that a registration carries and that an event reports back.
pub type Token = u64;

/// Errors of the poller, one for each kernel request that can fail.
#[derive(Debug, Clone, Copy, PartialEq, Eq, Structural)]
pub enum Error {
    ErrorOnCreate,
    ErrorOnAdd,
    ErrorOnWait,
}

/// A poller: the descriptor of an epoll instance.
#[derive(Debug)]
pub struct Poll {
    fd: c_int,
}

/// What `wait` makes of the kernel's answer: an error when fewer than one
/// event arrived, else the data of the first event.
pub open spec fn wait_result(number_of_events: c_int, first: epoll_event) -> Result<Option<Token>, Error> {
    if number_of_events < 1 {
        Err(Error::ErrorOnWait)
    } else {
        Ok(Some(first.data))
    }
}

impl Poll {
    pub closed spec fn spec_fd(&self) -> c_int {
        self.fd
    }

    /// Takes the descriptor that `epoll_create` returned: anything below one
    /// is a failure.
    pub fn new(epoll_fd: c_int) -> (result: Result<Poll, Error>)
        ensures
            epoll_fd < 1 ==> result == Err::<Poll, Error>(Error::ErrorOnCreate),
            epoll_fd >= 1 ==> (result matches Ok(p) && p.spec_fd() == epoll_fd),
    {
        if epoll_fd < 1 {
            Err(Error::ErrorOnCreate)
        } else {
            Ok(Poll { fd: epoll_fd })
        }
    }

    /// The descriptor of the epoll instance.
    pub fn fd(&self) -> (fd: c_int)
        ensures
            fd == self.spec_fd(),
    {
        self.fd
    }

    /// The `epoll_ctl` call that registers `file` for readiness to read,
    /// with `token` as the data that its events report.
    pub fn registration(&self, file: &File, token: Token) -> (request: EpollCtl)
        ensures
            request == (EpollCtl {
                epfd: self.spec_fd(),
                op: EPOLL_CTL_ADD,
                fd: file.file_descriptor,
                event: epoll_event { events: EPOLLIN, data: token },
            }),
    {
        EpollCtl {
            epfd: self.fd,
            op: EPOLL_CTL_ADD,
            fd: file.file_descriptor,
            event: epoll_event { events: EPOLLIN, data: token },
        }
    }

    /// The `epoll_ctl` call that takes `file` off the interest list.
    pub fn deregistration(&self, file: &File) -> (request: EpollCtl)
        ensures
            request == (EpollCtl {
                epfd: self.spec_fd(),
                op: EPOLL_CTL_DEL,
                fd: file.file_descriptor,
                event: epoll_event { events: 0, data: 0 },
            }),
    {
        EpollCtl {
            epfd: self.fd,
            op: EPOLL_CTL_DEL,
            fd: file.file_descriptor,
            event: epoll_event { events: 0, data: 0 },
        }
    }

    /// Adds `file` to the poller, given what `epoll_ctl` returned for its
    /// registration. The file is consumed; on a failure (a negative answer)
    /// it is handed back together with the error.
    pub fn add(&self, file: File, ctl_result: c_int) -> (result: Result<(), (Error, File)>)
        ensures
            ctl_result < 0 ==> result == Err::<(), (Error, File)>((Error::ErrorOnAdd, file)),
            ctl_result >= 0 ==> result == Ok::<(), (Error, File)>(()),
    {
        if ctl_result < 0 {
            Err((Error::ErrorOnAdd, file))
        } else {
            Ok(())
        }
    }

    /// Takes what `epoll_wait` returned for a buffer of one event: the number
    /// of events and the buffer.
    pub fn wait(&self, number_of_events: c_int, events: &[epoll_event; 1]) -> (result: Result<Option<Token>, Error>)
        ensures
            result == wait_result(number_of_events, events@[0]),
    {
        if number_of_events < 1 {
            Err(Error::ErrorOnWait)
        } else if number_of_events == 0 {
            Ok(None)
        } else {
            let token: Token = events[0].data;
            Ok(Some(token))
        }
    }
}

/// A wait never reports that nothing happened: with fewer than one event it
/// fails, and otherwise it reports the token of the first event.
pub proof fn lemma_wait_never_reports_nothing(number_of_events: c_int, first: epoll_event)
    ensures
        wait_result(number_of_events, first) != Ok::<Option<Token>, Error>(None),
        number_of_events >= 1 ==> wait_result(number_of_events, first) == Ok::<Option<Token>, Error>(Some(first.data)),
        number_of_events < 1 ==> wait_result(number_of_events, first) == Err::<Option<Token>, Error>(Error::ErrorOnWait),
{
}

/// Whether a text read from a watched file asks the poller's loop to stop:
/// its bytes begin with those of "exit".
pub fn requests_exit(text: &str) -> (exit: bool)
    ensures
        exit == "exit".spec_bytes().is_prefix_of(text.spec_bytes()),
{
    let prefix = "exit".as_bytes();
    let bytes = text.as_bytes();
    if bytes.len() < prefix.len() {
        return false;
    }
    let mut i: usize = 0;
    while i < prefix.len()
        invariant
            i <= prefix@.len(),
            prefix@.len() <= bytes@.len(),
            prefix@ == "exit".spec_bytes(),
            bytes@ == text.spec_bytes(),
            forall|j: int| 0 <= j < i ==> prefix@[j] == bytes@[j],
        decreases prefix@.len() - i,
    {
        if bytes[i] != prefix[i] {
            return false;
        }
        i = i + 1;
    }
    true
}

} // verus!
