use lib::clib::{epoll_event, EpollCtl, EPOLLIN, EPOLL_CTL_ADD, EPOLL_CTL_DEL};
use lib::epoll::{self, Poll};
use lib::fd_poll;
use lib::file::File;
use lib::fut;
use lib::future::executor::Executor;
use lib::future::future::{char_count, ReadNChars};
use lib::future::reactor::{Reactor, WaitOutcome};
use lib::old_world::{self, FileReadFuture, PollWakerContext};
use lib::reactor_executor;
use lib::task::TaskPoll;

fn event(data: u64) -> [epoll_event; 1] {
    [epoll_event { events: EPOLLIN, data }]
}

#[test]
fn executor_polls_registered_futures_in_order() {
    let mut executor: Executor<&str> = Executor::new();
    assert_eq!(executor.next_token(), None);
    executor.register("first", 1);
    executor.register("second", 2);
    assert_eq!(executor.next_token(), Some(1));
    assert_eq!(executor.take_future(1), Some("first"));
    assert_eq!(executor.take_future(1), None);
    executor.restore_future(1, "first");
    executor.wake(1);
    assert_eq!(executor.next_token(), Some(2));
    assert_eq!(executor.next_token(), Some(1));
    assert_eq!(executor.take_future(1), Some("first"));
    assert_eq!(executor.next_token(), None);
}

#[test]
fn executor_wake_of_an_unknown_token_finds_no_future() {
    let mut executor: Executor<u8> = Executor::new();
    executor.wake(9);
    assert_eq!(executor.next_token(), Some(9));
    assert_eq!(executor.take_future(9), None);
}

#[test]
fn reactor_wakes_a_waker_once() {
    let mut reactor: Reactor<&str> = Reactor::new(Poll::new(3).unwrap());
    reactor.add_waker(7, "w7");
    reactor.add_waker(8, "w8");
    match reactor.poll_wait(1, &event(7)) {
        WaitOutcome::Woken(token, waker) => {
            assert_eq!(token, 7);
            assert_eq!(waker, "w7");
        }
        other => panic!("unexpected {:?}", other),
    }
    assert!(matches!(reactor.poll_wait(1, &event(7)), WaitOutcome::NoWaker(7)));
    assert!(matches!(reactor.poll_wait(1, &event(8)), WaitOutcome::Woken(8, "w8")));
}

#[test]
fn reactor_failed_wait_keeps_wakers() {
    let mut reactor: Reactor<&str> = Reactor::new(Poll::new(3).unwrap());
    reactor.add_waker(7, "w7");
    assert!(matches!(reactor.poll_wait(0, &event(7)), WaitOutcome::Failed(epoll::Error::ErrorOnWait)));
    assert!(matches!(reactor.poll_wait(1, &event(7)), WaitOutcome::Woken(7, "w7")));
}

#[test]
fn reactor_add_waker_replaces_and_remove_waker_forgets() {
    let mut reactor: Reactor<&str> = Reactor::new(Poll::new(3).unwrap());
    reactor.add_waker(7, "old");
    reactor.add_waker(7, "new");
    assert!(matches!(reactor.poll_wait(1, &event(7)), WaitOutcome::Woken(7, "new")));
    reactor.add_waker(7, "again");
    reactor.remove_waker(7);
    assert!(matches!(reactor.poll_wait(1, &event(7)), WaitOutcome::NoWaker(7)));
}

#[test]
fn reactor_poll_add_registers_the_token() {
    let reactor: Reactor<()> = Reactor::new(Poll::new(3).unwrap());
    let request = reactor.poll_add(&File { file_descriptor: 6 }, 11);
    assert_eq!(request.epfd, 3);
    assert_eq!(request.fd, 6);
    assert_eq!(request.event.data, 11);
    assert_eq!(reactor.poll().fd(), 3);
}

#[test]
fn read_n_chars_is_ready_once_it_holds_n_characters() {
    let mut reactor: Reactor<&str> = Reactor::new(Poll::new(3).unwrap());
    let mut read = ReadNChars::new(File { file_descriptor: 6 }, 5);
    assert_eq!(read.token(), 6);
    assert_eq!(read.file(), File { file_descriptor: 6 });
    assert!(!read.reads_on_poll());
    assert!(!read.is_done());
    let step = read.poll(&mut reactor, "first", "ignored");
    assert!(matches!(step.result, TaskPoll::Pending));
    assert_eq!(
        step.request,
        Some(EpollCtl { epfd: 3, op: EPOLL_CTL_ADD, fd: 6, event: epoll_event { events: EPOLLIN, data: 6 } })
    );
    assert!(read.reads_on_poll());
    assert!(matches!(reactor.poll_wait(1, &event(6)), WaitOutcome::Woken(6, "first")));
    let step = read.poll(&mut reactor, "second", "abc");
    assert!(matches!(step.result, TaskPoll::Pending));
    assert_eq!(step.request, None);
    let step = read.poll(&mut reactor, "third", "defg");
    match step.result {
        TaskPoll::Ready(text) => assert_eq!(text, "abcdefg"),
        TaskPoll::Pending => panic!("still pending"),
    }
    assert_eq!(
        step.request,
        Some(EpollCtl { epfd: 3, op: EPOLL_CTL_DEL, fd: 6, event: epoll_event { events: 0, data: 0 } })
    );
    assert!(!read.reads_on_poll());
    assert!(read.is_done());
    assert!(matches!(reactor.poll_wait(1, &event(6)), WaitOutcome::NoWaker(6)));
}

#[test]
fn read_n_chars_counts_characters_not_bytes() {
    let mut reactor: Reactor<u8> = Reactor::new(Poll::new(3).unwrap());
    let mut read = ReadNChars::new(File { file_descriptor: 2 }, 3);
    assert!(matches!(read.poll(&mut reactor, 0, "").result, TaskPoll::Pending));
    assert!(matches!(read.poll(&mut reactor, 1, "é€").result, TaskPoll::Pending));
    match read.poll(&mut reactor, 2, "x").result {
        TaskPoll::Ready(text) => assert_eq!(text, "é€x"),
        TaskPoll::Pending => panic!("three characters should be enough"),
    }
}

#[test]
fn char_count_counts_characters() {
    assert_eq!(char_count(""), 0);
    assert_eq!(char_count("abc"), 3);
    assert_eq!(char_count("é€"), 2);
}

#[test]
fn read_n_chars_with_n_zero_is_ready_on_the_second_poll() {
    let mut reactor: Reactor<u8> = Reactor::new(Poll::new(3).unwrap());
    let mut read = ReadNChars::new(File { file_descriptor: 2 }, 0);
    assert!(matches!(read.poll(&mut reactor, 0, "x").result, TaskPoll::Pending));
    assert!(matches!(read.poll(&mut reactor, 1, "").result, TaskPoll::Ready(ref t) if t.is_empty()));
}

#[test]
fn reactor_poll_remove_takes_the_file_off() {
    let reactor: Reactor<()> = Reactor::new(Poll::new(3).unwrap());
    let request = reactor.poll_remove(&File { file_descriptor: 6 });
    assert_eq!(request, EpollCtl { epfd: 3, op: EPOLL_CTL_DEL, fd: 6, event: epoll_event { events: 0, data: 0 } });
}

#[test]
fn executor_wake_all_queues_every_woken_token() {
    let mut executor: Executor<u8> = Executor::new();
    executor.register(0, 5);
    executor.wake_all(&vec![7, 5, 7]);
    assert_eq!(executor.next_token(), Some(5));
    assert_eq!(executor.next_token(), Some(7));
    assert_eq!(executor.next_token(), Some(5));
    assert_eq!(executor.next_token(), Some(7));
    assert_eq!(executor.next_token(), None);
}

fn context_with_pipe(fd: i32) -> PollWakerContext<&'static str> {
    let mut poll = fd_poll::Poll::new(5).unwrap();
    assert_eq!(poll.add(File { file_descriptor: fd }, 0), Ok(()));
    PollWakerContext::new(poll)
}

#[test]
fn poll_waker_context_wakes_the_waker_of_the_reported_file_and_keeps_it() {
    let mut context = context_with_pipe(8);
    assert_eq!(context.block(1, &event(8)), None);
    context.add(&File { file_descriptor: 8 }, "w8");
    assert_eq!(context.block(1, &event(8)), Some(&"w8"));
    assert_eq!(context.block(1, &event(8)), Some(&"w8"));
    assert_eq!(context.block(0, &event(8)), None);
    assert_eq!(context.block(1, &event(9)), None);
    assert_eq!(context.poll().fd(), 5);
}

#[test]
fn file_read_future_completes_at_one_hundred_bytes() {
    let mut context = context_with_pipe(8);
    let mut future = FileReadFuture::new(File { file_descriptor: 8 });
    assert_eq!(future.file(), File { file_descriptor: 8 });
    assert_eq!(old_world::READ_TARGET, 100);
    assert!(matches!(future.poll(vec![b'a'; 60], &mut context, "w"), TaskPoll::Pending));
    assert_eq!(context.block(1, &event(8)), Some(&"w"));
    assert!(matches!(future.poll(vec![b'b'; 39], &mut context, "w2"), TaskPoll::Pending));
    assert_eq!(context.block(1, &event(8)), Some(&"w2"));
    match future.poll(vec![b'c'; 1], &mut context, "w3") {
        TaskPoll::Ready(bytes) => {
            let mut expected = vec![b'a'; 60];
            expected.extend(vec![b'b'; 39]);
            expected.push(b'c');
            assert_eq!(bytes, expected);
        }
        TaskPoll::Pending => panic!("one hundred bytes should be enough"),
    }
    assert_eq!(context.block(1, &event(8)), Some(&"w2"));
}

#[test]
fn file_read_future_yields_the_first_one_hundred_bytes() {
    let mut context = context_with_pipe(8);
    let mut future = FileReadFuture::new(File { file_descriptor: 8 });
    assert!(matches!(future.poll(vec![b'a'; 90], &mut context, "w"), TaskPoll::Pending));
    match future.poll(vec![b'b'; 60], &mut context, "w2") {
        TaskPoll::Ready(bytes) => {
            let mut expected = vec![b'a'; 90];
            expected.extend(vec![b'b'; 10]);
            assert_eq!(bytes, expected);
        }
        TaskPoll::Pending => panic!("one hundred and fifty bytes should be enough"),
    }
}

#[test]
fn old_world_executor_queues_tasks_in_order() {
    let mut executor: old_world::Executor<&str, char> = old_world::Executor::new("blocker");
    assert_eq!(*executor.io_blocker(), "blocker");
    assert_eq!(executor.queue('a'), 0);
    assert_eq!(executor.queue('b'), 1);
    assert_eq!(executor.next_task(), Some(0));
    executor.wake(0);
    assert_eq!(executor.next_task(), Some(1));
    assert_eq!(executor.next_task(), Some(0));
    assert_eq!(executor.next_task(), None);
    *executor.task_mut(1) = 'z';
    assert_eq!(*executor.task_mut(1), 'z');
    assert_eq!(old_world::QUEUE_CAPACITY, 10);
}

#[test]
fn first_executor_takes_one_task_per_turn() {
    let mut executor: fut::Executor<u32> = fut::Executor::new();
    assert_eq!(executor.queue(10), 0);
    assert_eq!(executor.queue(20), 1);
    assert_eq!(executor.execute(), 0);
    assert_eq!(*executor.poll_task(0), 10);
    assert_eq!(executor.execute(), 1);
    *executor.poll_task(1) += 1;
    assert_eq!(*executor.poll_task(1), 21);
}

#[test]
fn reactor_executor_runs_the_actions_of_a_token_in_order() {
    let mut executor: reactor_executor::Executor<&str> = reactor_executor::Executor::new();
    executor.register(1, "one-a");
    executor.register(2, "two");
    executor.register(1, "one-b");
    assert_eq!(executor.next_event(), None);
    executor.forward(1);
    executor.forward(3);
    executor.forward(2);
    assert_eq!(executor.next_event(), Some((1, vec![0, 2])));
    assert_eq!(executor.next_event(), Some((3, vec![])));
    assert_eq!(executor.next_event(), Some((2, vec![1])));
    assert_eq!(*executor.action_mut(2), "one-b");
    assert_eq!(executor.next_event(), None);
}

#[test]
fn reactor_forwards_the_reported_token() {
    let reactor = reactor_executor::Reactor::new(Poll::new(3).unwrap());
    assert_eq!(reactor.poll_wait(1, &event(2)), Ok(Some(2)));
    assert_eq!(reactor.poll_wait(0, &event(2)), Err(epoll::Error::ErrorOnWait));
    assert_eq!(reactor.poll_add(&File { file_descriptor: 4 }, 1).event.data, 1);
    assert_eq!(reactor.poll().fd(), 3);
}
