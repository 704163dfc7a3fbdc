use lib::clib::{epoll_event, EpollCtl, EOF, EPOLLIN, EPOLL_CTL_ADD};
use lib::epoll::{requests_exit, Error, Poll};
use lib::fd_poll;
use lib::file::File;

fn event(data: u64) -> [epoll_event; 1] {
    [epoll_event { events: EPOLLIN, data }]
}

#[test]
fn poll_new_rejects_descriptors_below_one() {
    assert!(matches!(Poll::new(0), Err(Error::ErrorOnCreate)));
    assert!(matches!(Poll::new(-1), Err(Error::ErrorOnCreate)));
    let poll = Poll::new(3).unwrap();
    assert_eq!(poll.fd(), 3);
}

#[test]
fn poll_registration_asks_for_readiness_to_read_with_the_token() {
    let poll = Poll::new(4).unwrap();
    let request = poll.registration(&File { file_descriptor: 9 }, 77);
    assert_eq!(
        request,
        EpollCtl { epfd: 4, op: EPOLL_CTL_ADD, fd: 9, event: epoll_event { events: EPOLLIN, data: 77 } }
    );
    assert_eq!(EPOLL_CTL_ADD, 1);
    assert_eq!(EPOLLIN, 1);
}

#[test]
fn poll_add_fails_on_a_negative_answer() {
    let poll = Poll::new(4).unwrap();
    let pipe = File { file_descriptor: 9 };
    assert_eq!(poll.add(pipe, -1), Err((Error::ErrorOnAdd, pipe)));
    assert_eq!(poll.add(pipe, 0), Ok(()));
    assert_eq!(poll.add(pipe, 5), Ok(()));
}

#[test]
fn poll_deregistration_removes_the_file() {
    let poll = Poll::new(4).unwrap();
    let request = poll.deregistration(&File { file_descriptor: 9 });
    assert_eq!(request, EpollCtl { epfd: 4, op: 2, fd: 9, event: epoll_event { events: 0, data: 0 } });
}

#[test]
fn poll_wait_reports_the_token_of_the_first_event() {
    let poll = Poll::new(4).unwrap();
    assert_eq!(poll.wait(1, &event(42)), Ok(Some(42)));
    assert_eq!(poll.wait(3, &event(7)), Ok(Some(7)));
}

#[test]
fn poll_wait_with_no_event_is_an_error_not_nothing() {
    let poll = Poll::new(4).unwrap();
    assert_eq!(poll.wait(0, &event(42)), Err(Error::ErrorOnWait));
    assert_eq!(poll.wait(-1, &event(42)), Err(Error::ErrorOnWait));
}

#[test]
fn exit_requests_are_texts_beginning_with_exit() {
    assert!(requests_exit("exit"));
    assert!(requests_exit("exit now\n"));
    assert!(!requests_exit("exi"));
    assert!(!requests_exit("hello exit"));
    assert!(!requests_exit(""));
    assert!(!requests_exit("Exit"));
}

#[test]
fn file_new_reports_the_failing_step() {
    assert_eq!(File::new(-1, false), Err(lib::file::Error::FileDescriptorError));
    assert_eq!(File::new(-1, true), Err(lib::file::Error::FileDescriptorError));
    assert_eq!(File::new(3, true), Err(lib::file::Error::FileStructError));
    assert_eq!(File::new(3, false), Ok(File { file_descriptor: 3 }));
    assert_eq!(File::new(0, false), Ok(File { file_descriptor: 0 }));
}

#[test]
fn file_open_flags_are_read_write_non_blocking() {
    assert_eq!(File::open_flags(), 2050);
}

#[test]
fn file_read_step_stops_at_eof() {
    let mut bytes = Vec::new();
    assert!(File::read_step(&mut bytes, 104));
    assert!(File::read_step(&mut bytes, 105));
    assert!(!File::read_step(&mut bytes, EOF));
    assert_eq!(bytes, b"hi".to_vec());
}

#[test]
fn file_read_keeps_the_bytes_before_the_first_eof() {
    let file = File { file_descriptor: 3 };
    assert_eq!(file.read(&vec![104, 105, EOF, 120]), Ok(b"hi".to_vec()));
    assert_eq!(file.read(&vec![EOF]), Ok(Vec::new()));
    assert_eq!(file.read(&vec![]), Ok(Vec::new()));
    assert_eq!(file.read(&vec![97, 98]), Ok(b"ab".to_vec()));
}

#[test]
fn file_read_of_a_nul_byte_is_an_error() {
    let file = File { file_descriptor: 3 };
    assert_eq!(file.read(&vec![104, 0, 105, EOF]), Err(lib::file::Error::FileStringNulError));
    assert_eq!(file.read(&vec![104, EOF, 0]), Ok(b"h".to_vec()));
    assert_eq!(File::finish_read(vec![1, 0]), Err(lib::file::Error::FileStringNulError));
    assert_eq!(File::finish_read(vec![1, 2]), Ok(vec![1, 2]));
}

#[test]
fn fd_poll_reports_the_registered_file() {
    let mut poll = fd_poll::Poll::new(5).unwrap();
    assert_eq!(poll.fd(), 5);
    let pipe = File { file_descriptor: 8 };
    let request = poll.registration(&pipe);
    assert_eq!(request.event.data, 8);
    assert_eq!(request.fd, 8);
    assert_eq!(request.epfd, 5);
    assert_eq!(poll.add(pipe, 0), Ok(()));
    assert_eq!(poll.wait(1, &[request.event]), Ok(Some(pipe)));
}

#[test]
fn fd_poll_errors() {
    assert!(matches!(fd_poll::Poll::new(0), Err(Error::ErrorOnCreate)));
    let mut poll = fd_poll::Poll::new(5).unwrap();
    let pipe = File { file_descriptor: 8 };
    assert_eq!(poll.add(pipe, -1), Err(Error::ErrorOnAdd));
    assert_eq!(poll.wait(1, &event(8)), Err(Error::ErrorOnWait));
    assert_eq!(poll.add(pipe, 0), Ok(()));
    assert_eq!(poll.wait(1, &event(9)), Err(Error::ErrorOnWait));
    assert_eq!(poll.wait(0, &event(8)), Err(Error::ErrorOnWait));
}
