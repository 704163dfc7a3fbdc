//! A poller that remembers the files registered with it, keyed by their
//! descriptors, and reports back the file whose descriptor an event names.
use vstd::prelude::*;
use std::collections::HashMap;
use crate::clib::{c_int, epoll_event, EpollCtl, EPOLLIN, EPOLL_CTL_ADD};
use crate::file::File;
pub use crate::epoll::Error;

verus! {

broadcast use vstd::std_specs::hash::group_hash_axioms;

/// A poller together with the files registered with it.
pub struct Poll {
    file_map: HashMap<c_int, File>,
    fd: c_int,
}

/// The descriptor that an event names: the registered data, read back as a
/// descriptor.
pub open spec fn reported_descriptor(event: epoll_event) -> c_int {
    event.data as c_int
}

/// What `wait` makes of the kernel's answer: an error when fewer than one
/// event arrived or when the event names no registered file, else that file.
pub open spec fn wait_result(files: Map<c_int, File>, number_of_events: c_int, first: epoll_event) -> Result<Option<File>, Error> {
    if number_of_events < 1 {
        Err(Error::ErrorOnWait)
    } else if files.contains_key(reported_descriptor(first)) {
        Ok(Some(files[reported_descriptor(first)]))
    } else {
        Err(Error::ErrorOnWait)
    }
}

impl Poll {
    #[verifier::type_invariant]
    spec fn keyed_by_descriptor(&self) -> bool {
        forall|k: c_int| #[trigger] self.file_map@.contains_key(k) ==> self.file_map@[k].file_descriptor == k
    }

    /// The registered files, by descriptor.
    pub closed spec fn files(&self) -> Map<c_int, File> {
        self.file_map@
    }

    pub closed spec fn spec_fd(&self) -> c_int {
        self.fd
    }

    /// Takes the descriptor that `epoll_create` returned: anything below one
    /// is a failure; a new poller has no files.
    pub fn new(epoll_fd: c_int) -> (result: Result<Poll, Error>)
        ensures
            epoll_fd < 1 ==> result matches Err(Error::ErrorOnCreate),
            epoll_fd >= 1 ==> (result matches Ok(p) && p.spec_fd() == epoll_fd && p.files() == Map::<c_int, File>::empty()),
    {
        if epoll_fd < 1 {
            return Err(Error::ErrorOnCreate);
        }
        let file_map: HashMap<c_int, File> = HashMap::new();
        Ok(Poll { file_map, fd: epoll_fd })
    }

    /// The descriptor of the epoll instance.
    pub fn fd(&self) -> (fd: c_int)
        ensures
            fd == self.spec_fd(),
    {
        self.fd
    }

    /// The `epoll_ctl` call that registers `file` for readiness to read, with
    /// its own descriptor as the data that its events report.
    pub fn registration(&self, file: &File) -> (request: EpollCtl)
        ensures
            request == (EpollCtl {
                epfd: self.spec_fd(),
                op: EPOLL_CTL_ADD,
                fd: file.file_descriptor,
                event: epoll_event { events: EPOLLIN, data: file.file_descriptor as u64 },
            }),
    {
        EpollCtl {
            epfd: self.fd,
            op: EPOLL_CTL_ADD,
            fd: file.file_descriptor,
            event: epoll_event { events: EPOLLIN, data: file.file_descriptor as u64 },
        }
    }

    /// Takes what `epoll_ctl` returned for the registration of `file`: a
    /// negative value is a failure and leaves the poller as it was, else the
    /// file is remembered under its descriptor.
    pub fn add(&mut self, file: File, ctl_result: c_int) -> (result: Result<(), Error>)
        ensures
            final(self).spec_fd() == old(self).spec_fd(),
            ctl_result < 0 ==> (result matches Err(Error::ErrorOnAdd) && final(self).files() == old(self).files()),
            ctl_result >= 0 ==> (result matches Ok(()) && final(self).files() == old(self).files().insert(
                file.file_descriptor,
                file,
            )),
    {
        if ctl_result < 0 {
            return Err(Error::ErrorOnAdd);
        }
        proof {
            use_type_invariant(&*self);
        }
        let file_descriptor = file.file_descriptor;
        let mut file_map: HashMap<c_int, File> = HashMap::new();
        std::mem::swap(&mut file_map, &mut self.file_map);
        file_map.insert(file_descriptor, file);
        self.file_map = file_map;
        Ok(())
    }

    /// Takes what `epoll_wait` returned for a buffer of one event.
    pub fn wait(&self, number_of_events: c_int, events: &[epoll_event; 1]) -> (result: Result<Option<File>, Error>)
        ensures
            result == wait_result(self.files(), number_of_events, events@[0]),
            result matches Ok(Some(f)) ==> f.file_descriptor == reported_descriptor(events@[0]),
    {
        proof {
            use_type_invariant(self);
        }
        if number_of_events < 1 {
            return Err(Error::ErrorOnWait);
        } else if number_of_events == 0 {
            return Ok(None);
        } else {
            let file_descriptor = events[0].data as c_int;
            match self.file_map.get(&file_descriptor) {
                Some(file_from_map) => Ok(Some(*file_from_map)),
                None => Err(Error::ErrorOnWait),
            }
        }
    }
}

/// A file registered with the poller comes back from a wait on the event
/// that its registration asked for.
pub proof fn lemma_registered_file_is_reported(files: Map<c_int, File>, file: File)
    ensures
        wait_result(
            files.insert(file.file_descriptor, file),
            1,
            epoll_event { events: EPOLLIN, data: file.file_descriptor as u64 },
        ) == Ok::<Option<File>, Error>(Some(file)),
{
    let fd = file.file_descriptor;
    assert((fd as u64) as i32 == fd) by (bit_vector);
}

/// A wait fails when fewer than one event arrived or when the event names no
/// registered file, and otherwise reports the file registered under the
/// descriptor that the event names.
pub proof fn lemma_wait_reports_registered_files_only(files: Map<c_int, File>, number_of_events: c_int, first: epoll_event)
    ensures
        number_of_events < 1 ==> wait_result(files, number_of_events, first) == Err::<Option<File>, Error>(
            Error::ErrorOnWait,
        ),
        !files.contains_key(first.data as c_int) ==> wait_result(files, number_of_events, first) == Err::<
            Option<File>,
            Error,
        >(Error::ErrorOnWait),
        number_of_events >= 1 && files.contains_key(first.data as c_int) ==> wait_result(files, number_of_events, first)
            == Ok::<Option<File>, Error>(Some(files[first.data as c_int])),
{
}

} // verus!
