//! The reactor: a poller, and the waker to wake for each token that the
//! poller may report.
use vstd::prelude::*;
use std::collections::HashMap;
use crate::clib::{c_int, epoll_event, EpollCtl, EPOLLIN, EPOLL_CTL_ADD, EPOLL_CTL_DEL};
use crate::epoll::{self, Error, Poll, Token};
use crate::file::File;

verus! {

broadcast use vstd::std_specs::hash::group_hash_axioms;

/// What one wait of the reactor came to.
#[derive(Debug)]
pub enum WaitOutcome<W> {
    /// The poller failed.
    Failed(Error),
    /// The poller reported nothing.
    Nothing,
    /// The poller reported a token for which no waker is registered.
    NoWaker(Token),
    /// The poller reported a token; its waker is handed out to be woken and
    /// is no longer registered.
    Woken(Token, W),
}

/// The registered wakers after a wait, and what the wait came to.
pub open spec fn poll_wait_result<W>(wakers: Map<Token, W>, number_of_events: c_int, first: epoll_event) -> (Map<Token, W>, WaitOutcome<W>) {
    match epoll::wait_result(number_of_events, first) {
        Err(e) => (wakers, WaitOutcome::Failed(e)),
        Ok(None) => (wakers, WaitOutcome::Nothing),
        Ok(Some(token)) => if wakers.contains_key(token) {
            (wakers.remove(token), WaitOutcome::Woken(token, wakers[token]))
        } else {
            (wakers, WaitOutcome::NoWaker(token))
        },
    }
}

/// A poller and the wakers registered by token.
pub struct Reactor<W> {
    token_waker_map: HashMap<Token, W>,
    poll: Poll,
}

impl<W> Reactor<W> {
    /// The registered wakers, by token.
    pub closed spec fn wakers(&self) -> Map<Token, W> {
        self.token_waker_map@
    }

    /// The poller.
    pub closed spec fn spec_poll(&self) -> Poll {
        self.poll
    }

    /// A reactor over `poll` with no wakers yet.
    pub fn new(poll: Poll) -> (reactor: Reactor<W>)
        ensures
            reactor.spec_poll() == poll,
            reactor.wakers() == Map::<Token, W>::empty(),
    {
        Reactor { token_waker_map: HashMap::new(), poll }
    }

    /// The poller.
    pub fn poll(&self) -> (poll: &Poll)
        ensures
            *poll == self.spec_poll(),
    {
        &self.poll
    }

    /// The `epoll_ctl` call that registers `file` with the poller under
    /// `token`; a failure of that call is fatal.
    pub fn poll_add(&self, file: &File, token: Token) -> (request: EpollCtl)
        ensures
            request == (EpollCtl {
                epfd: self.spec_poll().spec_fd(),
                op: EPOLL_CTL_ADD,
                fd: file.file_descriptor,
                event: epoll_event { events: EPOLLIN, data: token },
            }),
    {
        self.poll.registration(file, token)
    }

    /// The `epoll_ctl` call that takes `file` off the poller.
    pub fn poll_remove(&self, file: &File) -> (request: EpollCtl)
        ensures
            request == (EpollCtl {
                epfd: self.spec_poll().spec_fd(),
                op: EPOLL_CTL_DEL,
                fd: file.file_descriptor,
                event: epoll_event { events: 0, data: 0 },
            }),
    {
        self.poll.deregistration(file)
    }

    /// Registers `waker` for `token`, in place of any waker registered for
    /// it before.
    pub fn add_waker(&mut self, token: Token, waker: W)
        ensures
            final(self).spec_poll() == old(self).spec_poll(),
            final(self).wakers() == old(self).wakers().insert(token, waker),
    {
        self.token_waker_map.insert(token, waker);
    }

    /// Forgets the waker registered for `token`, if any.
    pub fn remove_waker(&mut self, token: Token)
        ensures
            final(self).spec_poll() == old(self).spec_poll(),
            final(self).wakers() == old(self).wakers().remove(token),
    {
        self.token_waker_map.remove(&token);
    }

    /// Takes what `epoll_wait` returned: the waker of the reported token, if
    /// one is registered, is taken out and handed back to be woken.
    pub fn poll_wait(&mut self, number_of_events: c_int, events: &[epoll_event; 1]) -> (outcome: WaitOutcome<W>)
        ensures
            final(self).spec_poll() == old(self).spec_poll(),
            (final(self).wakers(), outcome) == poll_wait_result(old(self).wakers(), number_of_events, events@[0]),
    {
        match self.poll.wait(number_of_events, events) {
            Err(e) => WaitOutcome::Failed(e),
            Ok(None) => WaitOutcome::Nothing,
            Ok(Some(token)) => match self.token_waker_map.remove(&token) {
                None => WaitOutcome::NoWaker(token),
                Some(waker) => WaitOutcome::Woken(token, waker),
            },
        }
    }
}

/// A waker registered for a token is woken by the first event for that
/// token, and only once: it is no longer registered afterwards, so a second
/// event for the token finds no waker.
pub proof fn lemma_waker_wakes_once<W>(
    wakers: Map<Token, W>,
    token: Token,
    waker: W,
    number_of_events: c_int,
    first: epoll_event,
)
    requires
        number_of_events >= 1,
        first.data == token,
    ensures
        poll_wait_result(wakers.insert(token, waker), number_of_events, first) == (
            wakers.remove(token),
            WaitOutcome::Woken(token, waker),
        ),
        poll_wait_result(wakers.remove(token), number_of_events, first).1 == WaitOutcome::<W>::NoWaker(token),
{
    assert(wakers.insert(token, waker).remove(token) =~= wakers.remove(token));
}

/// What a wait of the reactor comes to, by case: with fewer than one event
/// it fails and keeps every waker; for a token with no waker it says so and
/// keeps every waker; for a token with a waker it hands out exactly that
/// waker and forgets it, keeping every other one.
pub proof fn lemma_poll_wait_cases<W>(wakers: Map<Token, W>, number_of_events: c_int, first: epoll_event)
    ensures
        number_of_events < 1 ==> poll_wait_result(wakers, number_of_events, first) == (
            wakers,
            WaitOutcome::<W>::Failed(Error::ErrorOnWait),
        ),
        number_of_events >= 1 && !wakers.contains_key(first.data) ==> poll_wait_result(wakers, number_of_events, first)
            == (wakers, WaitOutcome::<W>::NoWaker(first.data)),
        number_of_events >= 1 && wakers.contains_key(first.data) ==> {
            let (after, outcome) = poll_wait_result(wakers, number_of_events, first);
            &&& outcome == WaitOutcome::Woken(first.data, wakers[first.data])
            &&& !after.contains_key(first.data)
            &&& forall|t: Token| t != first.data ==> (#[trigger] after.contains_key(t) <==> wakers.contains_key(t))
            &&& forall|t: Token| t != first.data && wakers.contains_key(t) ==> #[trigger] after[t] == wakers[t]
        },
{
}

/// An event for another token, or a failed wait, leaves a registered waker
/// registered.
pub proof fn lemma_other_events_keep_waker<W>(
    wakers: Map<Token, W>,
    token: Token,
    number_of_events: c_int,
    first: epoll_event,
)
    requires
        wakers.contains_key(token),
        number_of_events < 1 || first.data != token,
    ensures
        poll_wait_result(wakers, number_of_events, first).0.contains_key(token),
        poll_wait_result(wakers, number_of_events, first).0[token] == wakers[token],
{
}

} // verus!
