//! The first form of the file-reading runtime: the same context and future
//! as the later one, and an executor that polls one queued task per call and
//! has no way yet to wait for input when nothing is queued.
use vstd::prelude::*;
use std::collections::VecDeque;
pub use crate::old_world::{FileReadFuture, PollWakerContext};

verus! {

/// An executor: the tasks handed to it and the queue of those that are due
/// to be polled.
pub struct Executor<F> {
    queue: VecDeque<usize>,
    tasks: Vec<F>,
}

impl<F> Executor<F> {
    /// The tasks, by number.
    pub closed spec fn tasks(&self) -> Seq<F> {
        self.tasks@
    }

    /// The numbers of the tasks due to be polled, first the one to poll next.
    pub closed spec fn queued(&self) -> Seq<usize> {
        self.queue@
    }

    /// The queue names only tasks that exist.
    pub open spec fn wf(&self) -> bool {
        forall|i: int| 0 <= i < self.queued().len() ==> #[trigger] self.queued()[i] < self.tasks().len()
    }

    /// An executor with no tasks.
    pub fn new() -> (executor: Executor<F>)
        ensures
            executor.wf(),
            executor.tasks() == Seq::<F>::empty(),
            executor.queued() == Seq::<usize>::empty(),
    {
        Executor { queue: VecDeque::new(), tasks: Vec::new() }
    }

    /// How many tasks are due to be polled.
    pub fn queued_len(&self) -> (len: usize)
        ensures
            len == self.queued().len(),
    {
        self.queue.len()
    }

    /// Makes `future` a task and queues it.
    pub fn queue(&mut self, future: F) -> (task: usize)
        requires
            old(self).wf(),
            old(self).tasks().len() < usize::MAX,
        ensures
            final(self).wf(),
            task == old(self).tasks().len(),
            final(self).tasks() == old(self).tasks().push(future),
            final(self).queued() == old(self).queued().push(task),
    {
        let task = self.tasks.len();
        self.tasks.push(future);
        self.queue.push_back(task);
        assert forall|i: int| 0 <= i < self.queued().len() implies #[trigger] self.queued()[i] < self.tasks().len() by {
            if i < old(self).queued().len() {
                assert(self.queued()[i] == old(self).queued()[i]);
            }
        }
        task
    }

    /// One turn: receives the next queued task, to be polled by
    /// `poll_task`. With nothing queued the executor would have to wait for
    /// input, which it cannot do yet, so the queue must not be empty.
    pub fn execute(&mut self) -> (task: usize)
        requires
            old(self).wf(),
            old(self).queued().len() > 0,
        ensures
            final(self).wf(),
            task == old(self).queued()[0],
            task < old(self).tasks().len(),
            final(self).queued() == old(self).queued().drop_first(),
            final(self).tasks() == old(self).tasks(),
    {
        match self.queue.pop_front() {
            Some(task) => task,
            None => {
                proof {
                    assert(false);
                }
                0
            },
        }
    }

    /// The task that a turn polls.
    pub fn poll_task(&mut self, task: usize) -> (future: &mut F)
        requires
            task < old(self).tasks().len(),
        ensures
            *future == old(self).tasks()[task as int],
            final(self).tasks() == old(self).tasks().update(task as int, *final(future)),
            final(self).queued() == old(self).queued(),
    {
        &mut self.tasks[task]
    }
}

} // verus!
