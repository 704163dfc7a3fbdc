//! A runtime whose futures read from files: a context that maps file
//! descriptors to wakers, a future that gathers bytes from a file until it
//! holds enough of them, and an executor with a bounded queue of tasks.
use vstd::prelude::*;
use std::collections::HashMap;
use std::collections::VecDeque;
use crate::clib::{c_int, epoll_event};
use crate::fd_poll::{self, Poll};
use crate::file::{nul_free, File};
use crate::task::TaskPoll;

verus! {

broadcast use vstd::std_specs::hash::group_hash_axioms;

/// The descriptor whose waker a `block` wakes: the one of the file that the
/// poller reports, when a waker is registered for it.
pub open spec fn block_target<W>(
    files: Map<c_int, File>,
    wakers: Map<c_int, W>,
    number_of_events: c_int,
    first: epoll_event,
) -> Option<c_int> {
    match fd_poll::wait_result(files, number_of_events, first) {
        Ok(Some(file)) => if wakers.contains_key(file.file_descriptor) {
            Some(file.file_descriptor)
        } else {
            None
        },
        _ => None,
    }
}

/// When the poller reports a registered file, `block` wakes the waker
/// registered for that file's descriptor, whatever wakers are registered for
/// other descriptors; when it reports nothing usable, or no waker is
/// registered for the file, nothing is woken.
pub proof fn lemma_block_wakes_the_reported_files_waker<W>(
    files: Map<c_int, File>,
    wakers: Map<c_int, W>,
    number_of_events: c_int,
    first: epoll_event,
    other: c_int,
    other_waker: W,
)
    requires
        forall|k: c_int| #[trigger] files.contains_key(k) ==> files[k].file_descriptor == k,
    ensures
        number_of_events >= 1 && files.contains_key(fd_poll::reported_descriptor(first)) && wakers.contains_key(
            fd_poll::reported_descriptor(first),
        ) ==> block_target(files, wakers, number_of_events, first) == Some(fd_poll::reported_descriptor(first)),
        number_of_events < 1 ==> block_target(files, wakers, number_of_events, first) is None,
        !files.contains_key(fd_poll::reported_descriptor(first)) ==> block_target(files, wakers, number_of_events, first) is None,
        !wakers.contains_key(fd_poll::reported_descriptor(first)) ==> block_target(files, wakers, number_of_events, first) is None,
        other != fd_poll::reported_descriptor(first) ==> block_target(files, wakers.insert(other, other_waker), number_of_events, first)
            == block_target(files, wakers, number_of_events, first),
{
}

/// A poller together with the waker to wake for each file descriptor.
pub struct PollWakerContext<W> {
    poll: Poll,
    map: HashMap<c_int, W>,
}

impl<W> PollWakerContext<W> {
    /// The poller.
    pub closed spec fn spec_poll(&self) -> Poll {
        self.poll
    }

    /// The registered wakers, by file descriptor.
    pub closed spec fn wakers(&self) -> Map<c_int, W> {
        self.map@
    }

    /// A context over `poll` with no wakers yet.
    pub fn new(poll: Poll) -> (context: PollWakerContext<W>)
        ensures
            context.spec_poll() == poll,
            context.wakers() == Map::<c_int, W>::empty(),
    {
        PollWakerContext { poll, map: HashMap::new() }
    }

    /// The poller.
    pub fn poll(&self) -> (poll: &Poll)
        ensures
            *poll == self.spec_poll(),
    {
        &self.poll
    }

    /// Registers `waker` for the descriptor of `file`, in place of any
    /// waker registered for it before.
    pub fn add(&mut self, file: &File, waker: W)
        ensures
            final(self).spec_poll() == old(self).spec_poll(),
            final(self).wakers() == old(self).wakers().insert(file.file_descriptor, waker),
    {
        self.map.insert(file.file_descriptor, waker);
    }

    /// Takes what `epoll_wait` returned and gives the waker to wake: the
    /// one registered for the file that the poller reports, if any. The
    /// waker stays registered.
    pub fn block(&self, number_of_events: c_int, events: &[epoll_event; 1]) -> (woken: Option<&W>)
        ensures
            match block_target(self.spec_poll().files(), self.wakers(), number_of_events, events@[0]) {
                Some(fd) => woken matches Some(w) && *w == self.wakers()[fd],
                None => woken is None,
            },
            number_of_events >= 1 && self.spec_poll().files().contains_key(fd_poll::reported_descriptor(events@[0]))
                && self.wakers().contains_key(fd_poll::reported_descriptor(events@[0])) ==> (woken matches Some(w)
                && *w == self.wakers()[fd_poll::reported_descriptor(events@[0])]),
            woken matches Some(w) ==> {
                &&& number_of_events >= 1
                &&& self.spec_poll().files().contains_key(fd_poll::reported_descriptor(events@[0]))
                &&& self.wakers().contains_key(fd_poll::reported_descriptor(events@[0]))
                &&& *w == self.wakers()[fd_poll::reported_descriptor(events@[0])]
            },
    {
        match self.poll.wait(number_of_events, events) {
            Ok(Some(file)) => self.map.get(&file.file_descriptor),
            _ => None,
        }
    }
}

/// The number of bytes after which a file read completes.
pub const READ_TARGET: usize = 100;

/// A future that gathers the bytes of a file until it holds at least
/// `READ_TARGET` of them, and then yields the first `READ_TARGET` of them as
/// a C string.
pub struct FileReadFuture {
    file: File,
    bytes: Vec<u8>,
}

impl FileReadFuture {
    /// The gathered bytes hold no NUL byte, so that they can always become
    /// a C string.
    #[verifier::type_invariant]
    spec fn gathers_c_string(&self) -> bool {
        nul_free(self.bytes@)
    }

    /// The file that is read.
    pub closed spec fn spec_file(&self) -> File {
        self.file
    }

    /// The bytes gathered so far.
    pub closed spec fn received(&self) -> Seq<u8> {
        self.bytes@
    }

    /// A read of `file` that has gathered nothing yet.
    pub fn new(file: File) -> (future: FileReadFuture)
        ensures
            future.spec_file() == file,
            future.received() == Seq::<u8>::empty(),
    {
        FileReadFuture { file, bytes: Vec::new() }
    }

    /// The file that is read.
    pub fn file(&self) -> (file: File)
        ensures
            file == self.spec_file(),
    {
        self.file
    }

    /// One poll, given the C string that this poll read from the file: the
    /// bytes are added to those gathered; with `READ_TARGET` or more the
    /// future is ready with the first `READ_TARGET` of them, else `waker` is registered for the
    /// file in `context` and the future is pending.
    pub fn poll<W>(&mut self, new_bytes: Vec<u8>, context: &mut PollWakerContext<W>, waker: W) -> (result: TaskPoll<Vec<u8>>)
        requires
            nul_free(new_bytes@),
        ensures
            final(self).spec_file() == old(self).spec_file(),
            final(self).received() == old(self).received() + new_bytes@,
            final(self).received().len() >= READ_TARGET ==> {
                &&& result matches TaskPoll::Ready(b) && b@ == final(self).received().take(READ_TARGET as int)
                    && nul_free(b@)
                &&& *final(context) == *old(context)
            },
            final(self).received().len() < READ_TARGET ==> {
                &&& result is Pending
                &&& final(context).spec_poll() == old(context).spec_poll()
                &&& final(context).wakers() == old(context).wakers().insert(
                    old(self).spec_file().file_descriptor,
                    waker,
                )
            },
    {
        proof {
            use_type_invariant(&*self);
        }
        let ghost new_bytes_before = new_bytes@;
        let mut new_bytes = new_bytes;
        let mut bytes: Vec<u8> = Vec::new();
        std::mem::swap(&mut bytes, &mut self.bytes);
        bytes.append(&mut new_bytes);
        assert(bytes@ =~= old(self).received() + new_bytes_before);
        self.bytes = bytes;
        if self.bytes.len() >= READ_TARGET {
            let mut cstring: Vec<u8> = Vec::new();
            let mut i: usize = 0;
            while i < READ_TARGET
                invariant
                    i <= READ_TARGET,
                    READ_TARGET <= self.bytes@.len(),
                    nul_free(self.bytes@),
                    cstring@ == self.bytes@.take(i as int),
                decreases READ_TARGET - i,
            {
                cstring.push(self.bytes[i]);
                assert(self.bytes@.take(i + 1) =~= self.bytes@.take(i as int).push(self.bytes@[i as int]));
                i = i + 1;
            }
            TaskPoll::Ready(cstring)
        } else {
            context.add(&self.file, waker);
            TaskPoll::Pending
        }
    }
}

/// The number of tasks that the queue of an executor holds.
pub const QUEUE_CAPACITY: usize = 10;

/// An executor: the tasks handed to it, the queue of those that are due to
/// be polled, and the blocker that waits for input when the queue is empty.
pub struct Executor<B, F> {
    queue: VecDeque<usize>,
    tasks: Vec<F>,
    io_blocker: B,
}

impl<B, F> Executor<B, F> {
    /// The tasks, by number.
    pub closed spec fn tasks(&self) -> Seq<F> {
        self.tasks@
    }

    /// The numbers of the tasks due to be polled, first the one to poll next.
    pub closed spec fn queued(&self) -> Seq<usize> {
        self.queue@
    }

    pub closed spec fn spec_io_blocker(&self) -> B {
        self.io_blocker
    }

    /// The queue holds no more than its capacity, and only numbers of tasks.
    pub open spec fn wf(&self) -> bool {
        &&& self.queued().len() <= QUEUE_CAPACITY
        &&& forall|i: int| 0 <= i < self.queued().len() ==> #[trigger] self.queued()[i] < self.tasks().len()
    }

    /// An executor with no tasks.
    pub fn new(io_blocker: B) -> (executor: Executor<B, F>)
        ensures
            executor.wf(),
            executor.tasks() == Seq::<F>::empty(),
            executor.queued() == Seq::<usize>::empty(),
            executor.spec_io_blocker() == io_blocker,
    {
        Executor { queue: VecDeque::new(), tasks: Vec::new(), io_blocker }
    }

    /// The blocker.
    pub fn io_blocker(&self) -> (io_blocker: &B)
        ensures
            *io_blocker == self.spec_io_blocker(),
    {
        &self.io_blocker
    }

    /// How many tasks are due to be polled.
    pub fn queued_len(&self) -> (len: usize)
        ensures
            len == self.queued().len(),
    {
        self.queue.len()
    }

    /// Makes `future` a task and queues it. The queue must have room: a full
    /// queue would block the caller for ever.
    pub fn queue(&mut self, future: F) -> (task: usize)
        requires
            old(self).wf(),
            old(self).queued().len() < QUEUE_CAPACITY,
            old(self).tasks().len() < usize::MAX,
        ensures
            final(self).wf(),
            task == old(self).tasks().len(),
            final(self).tasks() == old(self).tasks().push(future),
            final(self).queued() == old(self).queued().push(task),
            final(self).spec_io_blocker() == old(self).spec_io_blocker(),
    {
        let task = self.tasks.len();
        self.tasks.push(future);
        self.queue.push_back(task);
        task
    }

    /// What waking `task` does: queue it again. The queue must have room.
    pub fn wake(&mut self, task: usize)
        requires
            old(self).wf(),
            old(self).queued().len() < QUEUE_CAPACITY,
            task < old(self).tasks().len(),
        ensures
            final(self).wf(),
            final(self).tasks() == old(self).tasks(),
            final(self).queued() == old(self).queued().push(task),
            final(self).spec_io_blocker() == old(self).spec_io_blocker(),
    {
        self.queue.push_back(task);
    }

    /// Takes the next task due to be polled, if any.
    pub fn next_task(&mut self) -> (task: Option<usize>)
        requires
            old(self).wf(),
        ensures
            final(self).wf(),
            final(self).tasks() == old(self).tasks(),
            final(self).spec_io_blocker() == old(self).spec_io_blocker(),
            old(self).queued().len() == 0 ==> task is None && final(self).queued() == old(self).queued(),
            old(self).queued().len() > 0 ==> task == Some(old(self).queued()[0])
                && final(self).queued() == old(self).queued().drop_first(),
    {
        self.queue.pop_front()
    }

    /// The task that `poll_task` polls.
    pub fn task_mut(&mut self, task: usize) -> (future: &mut F)
        requires
            task < old(self).tasks().len(),
        ensures
            *future == old(self).tasks()[task as int],
            final(self).tasks() == old(self).tasks().update(task as int, *final(future)),
            final(self).queued() == old(self).queued(),
            final(self).spec_io_blocker() == old(self).spec_io_blocker(),
    {
        &mut self.tasks[task]
    }
}

} // verus!
