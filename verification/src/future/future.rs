//! A future that reads from a file until it has gathered at least a given
//! number of characters of text, and then yields that text.
use vstd::prelude::*;
use vstd::string::*;
use vstd::utf8::encode_utf8;
use crate::clib::{epoll_event, EpollCtl, EPOLLIN, EPOLL_CTL_ADD, EPOLL_CTL_DEL};
use crate::epoll::Token;
use crate::file::File;
use crate::future::reactor::Reactor;
use crate::task::TaskPoll;

verus! {

/// What one poll of a read came to: its answer, and the `epoll_ctl` call
/// that the poll asks for (the file's registration on the first poll, its
/// removal once ready).
pub struct ReadNCharsPoll {
    pub result: TaskPoll<String>,
    pub request: Option<EpollCtl>,
}

/// Where a read stands.
pub enum ReadNCharsState {
    /// Not polled yet: the file is not registered with the reactor.
    NeverPolled,
    /// Polled: the text gathered so far.
    InProgress(String),
    /// The text was handed out.
    Done,
}

/// A text has no more characters than its UTF-8 encoding has bytes.
proof fn lemma_chars_within_bytes(chars: Seq<char>)
    ensures
        chars.len() <= encode_utf8(chars).len(),
    decreases chars.len(),
{
    if chars.len() > 0 {
        lemma_chars_within_bytes(chars.drop_first());
    }
}

/// The number of characters of a text.
pub fn char_count(text: &str) -> (count: usize)
    ensures
        count == text@.len(),
{
    let byte_count = text.as_bytes().len();
    proof {
        lemma_chars_within_bytes(text@);
    }
    let mut count: usize = 0;
    for c in it: text.chars()
        invariant
            count == it.index(),
            it.seq() == text@,
            text@.len() <= byte_count,
    {
        count = count + 1;
    }
    count
}

/// A read of at least `n` characters of text from a file, registered with the
/// reactor under the token of the file's descriptor.
pub struct ReadNChars {
    file: File,
    token: Token,
    n: usize,
    state: ReadNCharsState,
}

impl ReadNChars {
    pub closed spec fn spec_file(&self) -> File {
        self.file
    }

    pub closed spec fn spec_token(&self) -> Token {
        self.token
    }

    pub closed spec fn spec_n(&self) -> usize {
        self.n
    }

    pub closed spec fn never_polled(&self) -> bool {
        self.state is NeverPolled
    }

    pub closed spec fn done(&self) -> bool {
        self.state is Done
    }

    /// The text gathered so far (empty unless polled and not done).
    pub closed spec fn gathered(&self) -> Seq<char> {
        match self.state {
            ReadNCharsState::InProgress(buf) => buf@,
            _ => Seq::empty(),
        }
    }

    /// A read of at least `n` characters from `file`, not polled yet; its token is
    /// the file's descriptor.
    pub fn new(file: File, n: usize) -> (read: ReadNChars)
        ensures
            read.spec_file() == file,
            read.spec_token() == file.file_descriptor as Token,
            read.spec_n() == n,
            read.never_polled(),
            !read.done(),
    {
        let token = file.file_descriptor as Token;
        ReadNChars { file, token, n, state: ReadNCharsState::NeverPolled }
    }

    /// The file that is read.
    pub fn file(&self) -> (file: File)
        ensures
            file == self.spec_file(),
    {
        self.file
    }

    /// The token under which the file is registered.
    pub fn token(&self) -> (token: Token)
        ensures
            token == self.spec_token(),
    {
        self.token
    }

    /// Whether the next poll consumes what the file holds: once polled and
    /// until done.
    pub fn reads_on_poll(&self) -> (reads: bool)
        ensures
            reads == (!self.never_polled() && !self.done()),
    {
        match self.state {
            ReadNCharsState::InProgress(_) => true,
            _ => false,
        }
    }

    /// Whether the read has handed out its text.
    pub fn is_done(&self) -> (done: bool)
        ensures
            done == self.done(),
    {
        match self.state {
            ReadNCharsState::Done => true,
            _ => false,
        }
    }

    /// One poll, with `chunk` the text that this poll read from the file
    /// (consulted only when `reads_on_poll` held).
    ///
    /// The first poll registers the file with the reactor's poller under the
    /// token (it hands out that request), starts an empty text, registers
    /// `waker` for the token and is pending. A later poll adds the chunk to
    /// the text; while the text holds fewer than `n` characters it registers
    /// `waker` for the token and is pending; else it forgets the token's
    /// waker, takes the file off the poller (it hands out that request) and
    /// is ready with the whole text. A read that is done cannot be polled
    /// again.
    pub fn poll<W>(&mut self, reactor: &mut Reactor<W>, waker: W, chunk: &str) -> (step: ReadNCharsPoll)
        requires
            !old(self).done(),
        ensures
            final(self).spec_file() == old(self).spec_file(),
            final(self).spec_token() == old(self).spec_token(),
            final(self).spec_n() == old(self).spec_n(),
            !final(self).never_polled(),
            final(reactor).spec_poll() == old(reactor).spec_poll(),
            old(self).never_polled() ==> {
                &&& step.result is Pending
                &&& step.request == Some(
                    EpollCtl {
                        epfd: old(reactor).spec_poll().spec_fd(),
                        op: EPOLL_CTL_ADD,
                        fd: old(self).spec_file().file_descriptor,
                        event: epoll_event { events: EPOLLIN, data: old(self).spec_token() },
                    },
                )
                &&& !final(self).done()
                &&& final(self).gathered() == Seq::<char>::empty()
                &&& final(reactor).wakers() == old(reactor).wakers().insert(old(self).spec_token(), waker)
            },
            !old(self).never_polled() ==> ({
                let text = old(self).gathered() + chunk@;
                &&& text.len() < old(self).spec_n() ==> {
                    &&& step.result is Pending
                    &&& step.request is None
                    &&& !final(self).done()
                    &&& final(self).gathered() == text
                    &&& final(reactor).wakers() == old(reactor).wakers().insert(old(self).spec_token(), waker)
                }
                &&& text.len() >= old(self).spec_n() ==> {
                    &&& step.result matches TaskPoll::Ready(s) && s@ == text
                    &&& step.request == Some(
                        EpollCtl {
                            epfd: old(reactor).spec_poll().spec_fd(),
                            op: EPOLL_CTL_DEL,
                            fd: old(self).spec_file().file_descriptor,
                            event: epoll_event { events: 0, data: 0 },
                        },
                    )
                    &&& final(self).done()
                    &&& final(reactor).wakers() == old(reactor).wakers().remove(old(self).spec_token())
                }
            }),
    {
        match &self.state {
            ReadNCharsState::NeverPolled => {
                let request = reactor.poll_add(&self.file, self.token);
                self.state = ReadNCharsState::InProgress(String::new());
                reactor.add_waker(self.token, waker);
                ReadNCharsPoll { result: TaskPoll::Pending, request: Some(request) }
            },
            ReadNCharsState::InProgress(buf) => {
                let mut buf = buf.clone();
                buf.append(chunk);
                if char_count(buf.as_str()) < self.n {
                    self.state = ReadNCharsState::InProgress(buf);
                    reactor.add_waker(self.token, waker);
                    ReadNCharsPoll { result: TaskPoll::Pending, request: None }
                } else {
                    reactor.remove_waker(self.token);
                    let request = reactor.poll_remove(&self.file);
                    self.state = ReadNCharsState::Done;
                    ReadNCharsPoll { result: TaskPoll::Ready(buf), request: Some(request) }
                }
            },
            ReadNCharsState::Done => {
                proof {
                    assert(false);
                }
                ReadNCharsPoll { result: TaskPoll::Pending, request: None }
            },
        }
    }
}

} // verus!
