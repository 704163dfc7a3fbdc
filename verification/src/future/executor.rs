//! The executor: the registered futures by token, and the queue of tokens
//! whose futures are due to be polled.
use vstd::prelude::*;
use std::collections::HashMap;
use std::collections::VecDeque;

verus! {

broadcast use vstd::std_specs::hash::group_hash_axioms;

/// The token under which a future is registered, and that its wakers send.
pub type ExecutorToken = u64;

/// An executor: the registered futures, and the tokens sent to it (by
/// registration and by wakers) that it has not yet received.
pub struct Executor<F> {
    queue: VecDeque<ExecutorToken>,
    futures: HashMap<ExecutorToken, F>,
}

impl<F> Executor<F> {
    /// The registered futures, by token.
    pub closed spec fn futures(&self) -> Map<ExecutorToken, F> {
        self.futures@
    }

    /// The tokens sent and not yet received, oldest first.
    pub closed spec fn queued(&self) -> Seq<ExecutorToken> {
        self.queue@
    }

    /// An executor with no futures and nothing queued.
    pub fn new() -> (executor: Executor<F>)
        ensures
            executor.futures() == Map::<ExecutorToken, F>::empty(),
            executor.queued() == Seq::<ExecutorToken>::empty(),
    {
        Executor { queue: VecDeque::new(), futures: HashMap::new() }
    }

    /// Registers `future` under `executor_token` (in place of any future
    /// registered under it before) and sends the token, so that the future is
    /// polled once the tokens sent before it have been received.
    pub fn register(&mut self, future: F, executor_token: ExecutorToken)
        ensures
            final(self).futures() == old(self).futures().insert(executor_token, future),
            final(self).queued() == old(self).queued().push(executor_token),
    {
        self.futures.insert(executor_token, future);
        self.queue.push_back(executor_token);
    }

    /// What a waker for `executor_token` does: send the token.
    pub fn wake(&mut self, executor_token: ExecutorToken)
        ensures
            final(self).futures() == old(self).futures(),
            final(self).queued() == old(self).queued().push(executor_token),
    {
        self.queue.push_back(executor_token);
    }

    /// What the sends of the wakers since the last receive do: each token
    /// joins the queue, in the order sent.
    pub fn wake_all(&mut self, tokens: &Vec<ExecutorToken>)
        ensures
            final(self).futures() == old(self).futures(),
            final(self).queued() == old(self).queued() + tokens@,
    {
        let mut i: usize = 0;
        while i < tokens.len()
            invariant
                i <= tokens@.len(),
                self.futures() == old(self).futures(),
                self.queued() == old(self).queued() + tokens@.take(i as int),
            decreases tokens@.len() - i,
        {
            self.queue.push_back(tokens[i]);
            assert(tokens@.take(i + 1) =~= tokens@.take(i as int).push(tokens@[i as int]));
            i = i + 1;
        }
        assert(tokens@.take(tokens@.len() as int) =~= tokens@);
    }

    /// Receives the oldest token sent, if any.
    pub fn next_token(&mut self) -> (executor_token: Option<ExecutorToken>)
        ensures
            final(self).futures() == old(self).futures(),
            old(self).queued().len() == 0 ==> executor_token is None && final(self).queued() == old(self).queued(),
            old(self).queued().len() > 0 ==> executor_token == Some(old(self).queued()[0])
                && final(self).queued() == old(self).queued().drop_first(),
    {
        self.queue.pop_front()
    }

    /// Takes out the future registered under `executor_token`, to poll it.
    pub fn take_future(&mut self, executor_token: ExecutorToken) -> (future: Option<F>)
        ensures
            final(self).queued() == old(self).queued(),
            final(self).futures() == old(self).futures().remove(executor_token),
            old(self).futures().contains_key(executor_token) ==> future == Some(old(self).futures()[executor_token]),
            !old(self).futures().contains_key(executor_token) ==> future is None,
    {
        self.futures.remove(&executor_token)
    }

    /// Puts a polled future back under its token.
    pub fn restore_future(&mut self, executor_token: ExecutorToken, future: F)
        ensures
            final(self).queued() == old(self).queued(),
            final(self).futures() == old(self).futures().insert(executor_token, future),
    {
        self.futures.insert(executor_token, future);
    }
}

/// A wake is never lost: once the tokens woken since the last receive have
/// joined the queue, the `k`-th of them is the one received next after the
/// tokens queued before it and the `k` woken before it have been received;
/// so its future is polled again.
pub proof fn lemma_wake_is_never_lost(queued: Seq<ExecutorToken>, woken: Seq<ExecutorToken>, k: int)
    requires
        0 <= k < woken.len(),
    ensures
        (queued + woken).skip(queued.len() + k).len() > 0,
        (queued + woken).skip(queued.len() + k)[0] == woken[k],
{
}

} // verus!
