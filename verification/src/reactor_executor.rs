//! A reactor that forwards the tokens of readiness events to an executor,
//! and an executor that runs, for each token it receives, the actions
//! registered for that token.
use vstd::prelude::*;
use std::collections::VecDeque;
use crate::clib::{c_int, epoll_event, EpollCtl, EPOLLIN, EPOLL_CTL_ADD};
use crate::epoll::{self, Error, Poll, Token};
use crate::file::File;

verus! {

/// A poller whose events are forwarded by token.
pub struct Reactor {
    poll: Poll,
}

impl Reactor {
    pub closed spec fn spec_poll(&self) -> Poll {
        self.poll
    }

    /// A reactor over `poll`.
    pub fn new(poll: Poll) -> (reactor: Reactor)
        ensures
            reactor.spec_poll() == poll,
    {
        Reactor { poll }
    }

    /// The poller.
    pub fn poll(&self) -> (poll: &Poll)
        ensures
            *poll == self.spec_poll(),
    {
        &self.poll
    }

    /// Takes what `epoll_wait` returned: the token to forward to the
    /// executor, if an event arrived, or the poller's error.
    pub fn poll_wait(&self, number_of_events: c_int, events: &[epoll_event; 1]) -> (result: Result<Option<Token>, Error>)
        ensures
            result == epoll::wait_result(number_of_events, events@[0]),
    {
        self.poll.wait(number_of_events, events)
    }

    /// The `epoll_ctl` call that registers `file` with the poller under
    /// `token`; a failure of that call is fatal.
    pub fn poll_add(&self, file: &File, token: Token) -> (request: EpollCtl)
        ensures
            request == (EpollCtl {
                epfd: self.spec_poll().spec_fd(),
                op: EPOLL_CTL_ADD,
                fd: file.file_descriptor,
                event: epoll_event { events: EPOLLIN, data: token },
            }),
    {
        self.poll.registration(file, token)
    }
}

/// The positions, among the first `upto` actions, of those registered for
/// `token`, in the order of registration.
pub open spec fn matching_indices<A>(actions: Seq<(Token, A)>, token: Token, upto: int) -> Seq<usize>
    decreases upto,
{
    if upto <= 0 {
        Seq::empty()
    } else if actions[upto - 1].0 == token {
        matching_indices(actions, token, upto - 1).push((upto - 1) as usize)
    } else {
        matching_indices(actions, token, upto - 1)
    }
}

/// The actions registered with an executor, and the tokens forwarded to it
/// that it has not yet received.
pub struct Executor<A> {
    received: VecDeque<Token>,
    actions: Vec<(Token, A)>,
}

impl<A> Executor<A> {
    /// The registered actions with their tokens, in the order of
    /// registration.
    pub closed spec fn actions(&self) -> Seq<(Token, A)> {
        self.actions@
    }

    /// The tokens forwarded and not yet received, oldest first.
    pub closed spec fn pending(&self) -> Seq<Token> {
        self.received@
    }

    /// An executor with no actions and nothing forwarded.
    pub fn new() -> (executor: Executor<A>)
        ensures
            executor.actions() == Seq::<(Token, A)>::empty(),
            executor.pending() == Seq::<Token>::empty(),
    {
        Executor { received: VecDeque::new(), actions: Vec::new() }
    }

    /// Registers `action` to run on each event for `token`, after the actions
    /// registered before it.
    pub fn register(&mut self, token: Token, action: A)
        ensures
            final(self).actions() == old(self).actions().push((token, action)),
            final(self).pending() == old(self).pending(),
    {
        self.actions.push((token, action));
    }

    /// What the reactor's forwarding of `token` does.
    pub fn forward(&mut self, token: Token)
        ensures
            final(self).actions() == old(self).actions(),
            final(self).pending() == old(self).pending().push(token),
    {
        self.received.push_back(token);
    }

    /// Receives the oldest token forwarded, if any, with the positions of the
    /// actions to run for it, in the order of registration.
    pub fn next_event(&mut self) -> (event: Option<(Token, Vec<usize>)>)
        ensures
            final(self).actions() == old(self).actions(),
            old(self).pending().len() == 0 ==> event is None && final(self).pending() == old(self).pending(),
            old(self).pending().len() > 0 ==> {
                &&& final(self).pending() == old(self).pending().drop_first()
                &&& event matches Some((token, indices)) && token == old(self).pending()[0] && indices@
                    == matching_indices(old(self).actions(), token, old(self).actions().len() as int)
            },
    {
        match self.received.pop_front() {
            None => None,
            Some(token) => {
                let mut indices: Vec<usize> = Vec::new();
                let mut i: usize = 0;
                while i < self.actions.len()
                    invariant
                        i <= self.actions@.len(),
                        indices@ == matching_indices(self.actions@, token, i as int),
                    decreases self.actions@.len() - i,
                {
                    if self.actions[i].0 == token {
                        indices.push(i);
                    }
                    i = i + 1;
                }
                Some((token, indices))
            },
        }
    }

    /// The action at `index`, to run it.
    pub fn action_mut(&mut self, index: usize) -> (action: &mut A)
        requires
            index < old(self).actions().len(),
        ensures
            *action == old(self).actions()[index as int].1,
            final(self).actions() == old(self).actions().update(
                index as int,
                (old(self).actions()[index as int].0, *final(action)),
            ),
            final(self).pending() == old(self).pending(),
    {
        &mut self.actions[index].1
    }
}

/// The actions run for a token are exactly those registered for it: each
/// position named is one of an action registered for the token, the
/// positions rise strictly (the order of registration), and every action
/// registered for the token is named.
pub proof fn lemma_matching_indices_exact<A>(actions: Seq<(Token, A)>, token: Token, upto: int)
    requires
        0 <= upto <= actions.len(),
        actions.len() <= usize::MAX,
    ensures
        forall|k: int|
            0 <= k < matching_indices(actions, token, upto).len() ==> {
                let i = #[trigger] matching_indices(actions, token, upto)[k];
                &&& i < upto
                &&& actions[i as int].0 == token
            },
        forall|k: int, l: int|
            0 <= k < l < matching_indices(actions, token, upto).len() ==> #[trigger] matching_indices(
                actions,
                token,
                upto,
            )[k] < #[trigger] matching_indices(actions, token, upto)[l],
        forall|i: int|
            0 <= i < upto && #[trigger] actions[i].0 == token ==> matching_indices(actions, token, upto).contains(
                i as usize,
            ),
    decreases upto,
{
    if upto > 0 {
        lemma_matching_indices_exact(actions, token, upto - 1);
        let prev = matching_indices(actions, token, upto - 1);
        if actions[upto - 1].0 == token {
            let cur = prev.push((upto - 1) as usize);
            assert(cur[cur.len() - 1] == (upto - 1) as usize);
            assert forall|k: int| 0 <= k < cur.len() - 1 implies cur[k] < upto - 1 by {
                assert(cur[k] == prev[k]);
            }
            assert forall|i: int| 0 <= i < upto && #[trigger] actions[i].0 == token implies cur.contains(i as usize) by {
                if i < upto - 1 {
                    let k = choose|k: int| 0 <= k < prev.len() && prev[k] == i as usize;
                    assert(cur[k] == i as usize);
                } else {
                    assert(cur[cur.len() - 1] == i as usize);
                }
            }
        }
    }
}

} // verus!
