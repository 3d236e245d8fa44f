use percore::net::{
    attempted, listener_setup, registration_interests, settle, Async, Readiness, Setup, Step,
    LISTEN_BACKLOG,
};
use std::io::{Error, ErrorKind};

/// A polling context that only counts.
struct CountingPoller {
    next: usize,
    registers: usize,
    deregisters: Vec<usize>,
    refuse: bool,
}

impl CountingPoller {
    fn new(refuse: bool) -> Self {
        CountingPoller { next: 0, registers: 0, deregisters: Vec::new(), refuse }
    }

    fn register(&mut self) -> Result<usize, Error> {
        self.registers += 1;
        if self.refuse {
            return Err(Error::new(ErrorKind::Other, "full"));
        }
        self.next += 1;
        Ok(self.next)
    }

    fn deregister(&mut self, token: usize) {
        self.deregisters.push(token);
    }
}

fn would_block() -> Error {
    Error::from(ErrorKind::WouldBlock)
}

#[test]
fn socket_is_registered_once_and_released_once() {
    let mut poller = CountingPoller::new(false);
    let registration = poller.register();
    let socket = Async::new("handle", registration).unwrap();
    assert_eq!(socket.id(), 1);
    assert_eq!(*socket.as_ref(), "handle");
    let _ = socket.poll_read(Err(Error::from(ErrorKind::ConnectionReset)));
    let (token, handle) = socket.release();
    poller.deregister(token);
    assert_eq!(handle, "handle");
    assert_eq!(poller.registers, 1);
    assert_eq!(poller.deregisters, vec![1]);
}

#[test]
fn refused_registration_builds_no_socket() {
    let mut poller = CountingPoller::new(true);
    let registration = poller.register();
    match Async::new(3u8, registration) {
        Ok(_) => panic!("a socket exists without a registration"),
        Err(e) => {
            assert_eq!(e.kind(), ErrorKind::Other);
            assert_eq!(e.to_string(), "full");
        }
    }
    assert_eq!(poller.registers, 1);
    assert!(poller.deregisters.is_empty());
}

#[test]
fn zero_bytes_read_is_ready_not_pending() {
    let socket = Async::new((), Ok(4)).unwrap();
    match socket.poll_read(Ok(0)) {
        Step::Ready(Ok(n)) => assert_eq!(n, 0),
        _ => panic!("an orderly close was not reported as a read of 0 bytes"),
    }
    match socket.poll_read(Ok(17)) {
        Step::Ready(Ok(n)) => assert_eq!(n, 17),
        _ => panic!("a read of 17 bytes was not reported"),
    }
}

#[test]
fn read_that_would_block_suspends_on_readable() {
    let socket = Async::new((), Ok(4)).unwrap();
    match socket.poll_read(Err(would_block())) {
        Step::Pending { token, interest } => {
            assert_eq!(token, 4);
            assert_eq!(interest, Readiness::Readable);
        }
        Step::Ready(_) => panic!("a would-block was surfaced"),
    }
}

#[test]
fn read_error_is_surfaced_as_it_is() {
    let socket = Async::new((), Ok(4)).unwrap();
    match socket.poll_read(Err(Error::new(ErrorKind::ConnectionReset, "gone"))) {
        Step::Ready(Err(e)) => {
            assert_eq!(e.kind(), ErrorKind::ConnectionReset);
            assert_eq!(e.to_string(), "gone");
        }
        _ => panic!("an error was swallowed"),
    }
}

#[test]
fn write_that_would_block_suspends_on_writable() {
    let socket = Async::new((), Ok(12)).unwrap();
    match socket.poll_write(Err(would_block())) {
        Step::Pending { token, interest } => {
            assert_eq!(token, 12);
            assert_eq!(interest, Readiness::Writable);
        }
        Step::Ready(_) => panic!("a would-block was surfaced"),
    }
    match socket.poll_write_vectored(Err(would_block())) {
        Step::Pending { token, interest } => {
            assert_eq!(token, 12);
            assert_eq!(interest, Readiness::Writable);
        }
        Step::Ready(_) => panic!("a would-block was surfaced"),
    }
}

#[test]
fn write_results_pass_through() {
    let socket = Async::new((), Ok(12)).unwrap();
    assert!(matches!(socket.poll_write(Ok(5)), Step::Ready(Ok(5))));
    assert!(matches!(socket.poll_write_vectored(Ok(9)), Step::Ready(Ok(9))));
    match socket.poll_write(Err(Error::from(ErrorKind::BrokenPipe))) {
        Step::Ready(Err(e)) => assert_eq!(e.kind(), ErrorKind::BrokenPipe),
        _ => panic!("an error was swallowed"),
    }
    match socket.poll_write_vectored(Err(Error::from(ErrorKind::BrokenPipe))) {
        Step::Ready(Err(e)) => assert_eq!(e.kind(), ErrorKind::BrokenPipe),
        _ => panic!("an error was swallowed"),
    }
}

#[test]
fn partial_writes_add_up() {
    let socket = Async::new((), Ok(2)).unwrap();
    let total: usize = 10;
    let attempts: Vec<Result<usize, Error>> =
        vec![Ok(3), Err(would_block()), Ok(4), Err(would_block()), Err(would_block()), Ok(3)];
    let mut written = 0;
    let mut suspensions = 0;
    for attempt in attempts {
        match socket.poll_write(attempt) {
            Step::Ready(Ok(n)) => written += n,
            Step::Ready(Err(e)) => panic!("unexpected error: {}", e),
            Step::Pending { token, interest } => {
                assert_eq!(token, 2);
                assert_eq!(interest, Readiness::Writable);
                suspensions += 1;
            }
        }
    }
    assert_eq!(written, total);
    assert_eq!(suspensions, 3);
}

#[test]
fn accept_yields_one_connection_then_suspends() {
    let mut poller = CountingPoller::new(false);
    let listener = Async::new("listener", poller.register()).unwrap();
    let first = listener.poll_next(Ok(("stream", poller.register())));
    match first {
        Step::Ready(Some(Ok(stream))) => {
            assert_eq!(stream.id(), 2);
            assert_eq!(*stream.as_ref(), "stream");
        }
        _ => panic!("the pending connection was not yielded"),
    }
    let second = listener.poll_next::<&str>(Err(would_block()));
    match second {
        Step::Pending { token, interest } => {
            assert_eq!(token, 1);
            assert_eq!(interest, Readiness::Readable);
        }
        Step::Ready(_) => panic!("the accept sequence did not suspend"),
    }
}

#[test]
fn accept_error_is_an_item_and_the_sequence_goes_on() {
    let listener = Async::new((), Ok(1)).unwrap();
    match listener.poll_next::<u8>(Err(Error::from(ErrorKind::ConnectionAborted))) {
        Step::Ready(Some(Err(e))) => assert_eq!(e.kind(), ErrorKind::ConnectionAborted),
        _ => panic!("an accept error was not yielded"),
    }
    match listener.poll_next(Ok((7u8, Ok(3)))) {
        Step::Ready(Some(Ok(s))) => assert_eq!((s.id(), *s.as_ref()), (3, 7)),
        _ => panic!("the sequence was poisoned"),
    }
}

#[test]
fn accepted_connection_that_fails_to_register_is_an_error_item() {
    let listener = Async::new((), Ok(1)).unwrap();
    let refused: Result<usize, Error> = Err(Error::new(ErrorKind::Other, "no room"));
    match listener.poll_next(Ok((7u8, refused))) {
        Step::Ready(Some(Err(e))) => assert_eq!(e.to_string(), "no room"),
        _ => panic!("a socket exists without a registration"),
    }
}

#[test]
fn flush_and_close_never_suspend() {
    let socket = Async::new((), Ok(8)).unwrap();
    assert!(matches!(socket.poll_flush(Ok(())), Step::Ready(Ok(()))));
    assert!(matches!(socket.poll_close(Ok(())), Step::Ready(Ok(()))));
    match socket.poll_close(Err(Error::from(ErrorKind::NotConnected))) {
        Step::Ready(Err(e)) => assert_eq!(e.kind(), ErrorKind::NotConnected),
        _ => panic!("an error was swallowed"),
    }
    match socket.poll_flush(Err(would_block())) {
        Step::Ready(Err(e)) => assert_eq!(e.kind(), ErrorKind::WouldBlock),
        _ => panic!("a flush suspended"),
    }
}

#[test]
fn settle_follows_the_classification() {
    assert!(matches!(
        settle::<usize, u8>(3, Readiness::Readable, Ok(0), true),
        Step::Ready(Ok(0))
    ));
    assert!(matches!(
        settle::<usize, u8>(3, Readiness::Readable, Err(9), true),
        Step::Pending { token: 3, interest: Readiness::Readable }
    ));
    assert!(matches!(
        settle::<usize, u8>(3, Readiness::Writable, Err(9), false),
        Step::Ready(Err(9))
    ));
    assert!(matches!(
        settle::<usize, u8>(3, Readiness::Writable, Err(9), true),
        Step::Pending { token: 3, interest: Readiness::Writable }
    ));
}

#[test]
fn attempted_asks_the_error_for_its_kind() {
    assert!(matches!(
        attempted::<u8>(6, Readiness::Writable, Err(would_block())),
        Step::Pending { token: 6, interest: Readiness::Writable }
    ));
    assert!(matches!(
        attempted::<u8>(6, Readiness::Writable, Err(Error::from(ErrorKind::TimedOut))),
        Step::Ready(Err(_))
    ));
    assert!(matches!(attempted(6, Readiness::Readable, Ok(1u8)), Step::Ready(Ok(1))));
}

#[test]
fn listener_setup_in_order() {
    assert_eq!(LISTEN_BACKLOG, 32768);
    assert_eq!(
        listener_setup(true),
        vec![
            Setup::Nonblocking,
            Setup::ReuseAddress,
            Setup::ReusePort,
            Setup::NoDelay,
            Setup::Bind,
            Setup::Listen { backlog: 32768 },
        ]
    );
    assert_eq!(
        listener_setup(false),
        vec![
            Setup::Nonblocking,
            Setup::ReuseAddress,
            Setup::NoDelay,
            Setup::Bind,
            Setup::Listen { backlog: 32768 },
        ]
    );
}

#[test]
fn registration_covers_both_interests() {
    let both = registration_interests();
    assert!(both.is_readable());
    assert!(both.is_writable());
    assert_eq!(both, mio::Interest::READABLE | mio::Interest::WRITABLE);
}

#[test]
fn one_interest_is_armed_alone() {
    let r = Readiness::Readable.to_mio();
    assert!(r.is_readable());
    assert!(!r.is_writable());
    assert_eq!(r, mio::Interest::READABLE);
    let w = Readiness::Writable.to_mio();
    assert!(w.is_writable());
    assert!(!w.is_readable());
    assert_eq!(w, mio::Interest::WRITABLE);
}

#[test]
fn write_resumes_from_the_sum_so_far() {
    let socket = Async::new((), Ok(5)).unwrap();
    let data: Vec<u8> = (0u8..23).collect();
    let grants: Vec<Option<usize>> =
        vec![None, Some(8), None, None, Some(1), Some(10), None, Some(4)];
    let mut taken: Vec<u8> = Vec::new();
    let mut k = 0;
    for grant in grants {
        assert!(k < data.len());
        let rest = &data[k..];
        let attempt = match grant {
            Some(n) => {
                taken.extend_from_slice(&rest[..n]);
                Ok(n)
            }
            None => Err(would_block()),
        };
        match socket.poll_write(attempt) {
            Step::Ready(Ok(n)) => {
                assert_eq!(Some(n), grant);
                k += n;
            }
            Step::Ready(Err(e)) => panic!("a would-block was surfaced: {}", e),
            Step::Pending { token, interest } => {
                assert_eq!(grant, None);
                assert_eq!((token, interest), (5, Readiness::Writable));
            }
        }
    }
    assert_eq!(k, 23);
    assert_eq!(taken, data);
}
