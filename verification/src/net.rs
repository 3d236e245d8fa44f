//! The decisions of a reactor-backed socket.
//!
//! A socket here is a pollable handle together with the token under which a
//! polling context registered it. Every operation on it is tried at once,
//! without blocking. The caller makes the attempt and hands the outcome to
//! the socket, which answers with a [`Step`]: the result is ready, or the
//! task has to arm an interest for the socket's token and suspend until the
//! polling context wakes it. An attempt that would block is never surfaced
//! as an error and nothing else is ever turned into a suspension.

use vstd::prelude::*;

verus! {

/// The readiness a suspended task waits for.
#[derive(Clone, Copy, Debug, PartialEq, Eq, Structural)]
pub enum Readiness {
    Readable,
    Writable,
}

/// What a task does after one attempt.
pub enum Step<T> {
    /// The operation is over, with this result.
    Ready(T),
    /// The operation would have blocked: hand the task's wakeup handle to the
    /// polling context for `token` and `interest`, suspend, and attempt again
    /// when woken. An earlier registration never counts.
    Pending { token: usize, interest: Readiness },
}

/// One step in the making of a listening socket, after the socket itself
/// was created and before it is registered.
#[derive(Clone, Copy, Debug, PartialEq, Eq, Structural)]
pub enum Setup {
    Nonblocking,
    ReuseAddress,
    ReusePort,
    NoDelay,
    Bind,
    Listen { backlog: i32 },
}

/// The length of the queue of connections that wait to be accepted.
pub const LISTEN_BACKLOG: i32 = 32768;

/// `std::io::Error`: carried through as it came, never looked into.
#[verifier::external_type_specification]
#[verifier::external_body]
pub struct ExIoError(std::io::Error);

/// `mio::Interest`, the polling library's set of interests. What a set holds
/// is spoken of through [`armed`] alone.
#[verifier::external_type_specification]
#[verifier::external_body]
pub struct ExInterestSet(mio::Interest);

/// Which of the two interests a set of the polling library holds: the
/// readable one where its `is_readable` says so, the writable one where its
/// `is_writable` says so.
pub uninterp spec fn armed(set: mio::Interest) -> Set<Readiness>;

/// `mio::Interest::READABLE`: the set that holds the readable interest and
/// not the writable one.
#[verifier::external_body]
fn readable_set() -> (res: mio::Interest)
    ensures
        armed(res) == set![Readiness::Readable],
{
    mio::Interest::READABLE
}

/// `mio::Interest::WRITABLE`: the set that holds the writable interest and
/// not the readable one.
#[verifier::external_body]
fn writable_set() -> (res: mio::Interest)
    ensures
        armed(res) == set![Readiness::Writable],
{
    mio::Interest::WRITABLE
}

/// `mio::Interest::add`: the set that holds what either of the two holds.
#[verifier::external_body]
fn joined_sets(a: mio::Interest, b: mio::Interest) -> (res: mio::Interest)
    ensures
        armed(res) == armed(a).union(armed(b)),
{
    a.add(b)
}

impl Readiness {
    /// This interest alone, as the polling library takes it.
    pub fn to_mio(self) -> (res: mio::Interest)
        ensures
            armed(res) == set![self],
    {
        match self {
            Readiness::Readable => readable_set(),
            Readiness::Writable => writable_set(),
        }
    }
}

/// The interests every socket is registered for: readable and writable.
pub fn registration_interests() -> (res: mio::Interest)
    ensures
        armed(res) == set![Readiness::Readable, Readiness::Writable],
{
    let both = joined_sets(readable_set(), writable_set());
    assert(armed(both) =~= set![Readiness::Readable, Readiness::Writable]);
    both
}

/// Whether an error of the operating system says that the operation could
/// not go on without blocking: whether its kind is `ErrorKind::WouldBlock`.
pub uninterp spec fn blocks(e: std::io::Error) -> bool;

/// `std::io::Error::kind`, told apart as `ErrorKind::WouldBlock` or anything
/// else. The kind is a function of the error alone; the contract gives the
/// answer its name and claims nothing of its value.
#[verifier::external_body]
fn would_block(e: &std::io::Error) -> (blocked: bool)
    ensures
        blocked == blocks(*e),
{
    match e.kind() {
        std::io::ErrorKind::WouldBlock => true,
        _ => false,
    }
}

/// The steps that make a listening socket, in their order: the options
/// first, port reuse among them only where the platform has it (`unix`),
/// then the bind, then the listen with the fixed backlog.
pub open spec fn listener_steps(unix: bool) -> Seq<Setup> {
    let head = seq![Setup::Nonblocking, Setup::ReuseAddress];
    let port = if unix {
        seq![Setup::ReusePort]
    } else {
        Seq::<Setup>::empty()
    };
    let tail = seq![Setup::NoDelay, Setup::Bind, Setup::Listen { backlog: LISTEN_BACKLOG }];
    head + port + tail
}

/// The steps that make a listening socket. The first one that fails ends
/// the construction with its error.
pub fn listener_setup(unix: bool) -> (res: Vec<Setup>)
    ensures
        res@ == listener_steps(unix),
{
    let mut steps: Vec<Setup> = Vec::new();
    steps.push(Setup::Nonblocking);
    steps.push(Setup::ReuseAddress);
    if unix {
        steps.push(Setup::ReusePort);
    }
    steps.push(Setup::NoDelay);
    steps.push(Setup::Bind);
    steps.push(Setup::Listen { backlog: LISTEN_BACKLOG });
    assert(steps@ =~= listener_steps(unix));
    steps
}

/// The step that follows an attempt whose failure `blocked` classifies.
pub open spec fn settled<T, E>(
    token: usize,
    interest: Readiness,
    attempt: Result<T, E>,
    blocked: bool,
) -> Step<Result<T, E>> {
    match attempt {
        Ok(v) => Step::Ready(Ok(v)),
        Err(e) => if blocked {
            Step::Pending { token, interest }
        } else {
            Step::Ready(Err(e))
        },
    }
}

/// Whether an attempt on the operating system ended in a would-block.
pub open spec fn suspends<T>(attempt: Result<T, std::io::Error>) -> bool {
    match attempt {
        Ok(_) => false,
        Err(e) => blocks(e),
    }
}

/// The step that follows an attempt on the operating system: a success is
/// ready, a would-block suspends on `interest`, and any other error is ready
/// unchanged.
pub open spec fn polled<T>(token: usize, interest: Readiness, attempt: Result<T, std::io::Error>) -> Step<
    Result<T, std::io::Error>,
> {
    settled(token, interest, attempt, suspends(attempt))
}

/// Turns the outcome of one non-blocking attempt into the next step, given
/// whether its failure, if it failed, was a would-block. A success is ready
/// whatever it holds, zero bytes included; a would-block suspends on
/// `interest`; any other failure is ready as it is.
pub fn settle<T, E>(token: usize, interest: Readiness, attempt: Result<T, E>, blocked: bool) -> (res:
    Step<Result<T, E>>)
    ensures
        res == settled(token, interest, attempt, blocked),
{
    match attempt {
        Ok(v) => Step::Ready(Ok(v)),
        Err(e) => {
            if blocked {
                Step::Pending { token, interest }
            } else {
                Step::Ready(Err(e))
            }
        },
    }
}

/// Turns the outcome of one non-blocking attempt on the operating system
/// into the next step: a would-block is absorbed into a suspension and never
/// surfaced, and nothing else is.
pub fn attempted<T>(token: usize, interest: Readiness, attempt: Result<T, std::io::Error>) -> (res:
    Step<Result<T, std::io::Error>>)
    ensures
        res == polled(token, interest, attempt),
{
    let blocked = match &attempt {
        Ok(_) => false,
        Err(e) => would_block(e),
    };
    settle(token, interest, attempt, blocked)
}

/// A pollable handle and the token it is registered under.
pub struct Async<T> {
    io: T,
    id: usize,
}

impl<T> Async<T> {
    /// The token the polling context issued for this socket.
    pub closed spec fn token(&self) -> usize {
        self.id
    }

    /// The handle this socket wraps.
    pub closed spec fn handle(&self) -> T {
        self.io
    }

    /// The socket that wraps `io` under the registration `token`.
    pub closed spec fn registered(io: T, token: usize) -> Self {
        Async { io, id: token }
    }

    /// Wraps `io` after the polling context answered its registration for
    /// [`registration_interests`]. A failed registration fails the
    /// construction with the same error, and no socket exists.
    pub fn new(io: T, registration: Result<usize, std::io::Error>) -> (res: Result<
        Self,
        std::io::Error,
    >)
        ensures
            res == match registration {
                Ok(token) => Ok::<Self, std::io::Error>(Self::registered(io, token)),
                Err(e) => Err::<Self, std::io::Error>(e),
            },
            res matches Ok(s) ==> registration == Ok::<usize, std::io::Error>(s.token())
                && s.handle() == io,
    {
        match registration {
            Ok(id) => Ok(Async { io, id }),
            Err(e) => Err(e),
        }
    }

    /// The token this socket is registered under.
    pub fn id(&self) -> (res: usize)
        ensures
            res == self.token(),
    {
        self.id
    }

    /// The handle, for the caller to make its attempts on.
    pub fn as_ref(&self) -> (res: &T)
        ensures
            *res == self.handle(),
    {
        &self.io
    }

    /// Ends the socket's life: gives up the token and the handle, which the
    /// caller hands to the polling context to deregister. The socket is
    /// consumed, so this happens once.
    pub fn release(self) -> (res: (usize, T))
        ensures
            res == (self.token(), self.handle()),
    {
        (self.id, self.io)
    }

    /// One step of the accept sequence. `attempt` is the outcome of a
    /// non-blocking accept and, where a connection came, of its registration.
    /// A connection is yielded as a new socket, or as the error that refused
    /// its registration; a would-block suspends on readability; any other
    /// error is yielded as an item. The sequence never ends.
    pub fn poll_next<S>(
        &self,
        attempt: Result<(S, Result<usize, std::io::Error>), std::io::Error>,
    ) -> (res: Step<Option<Result<Async<S>, std::io::Error>>>)
        ensures
            res == yielded(polled(self.token(), Readiness::Readable, attempt)),
            !(res matches Step::Ready(None)),
            res matches Step::Ready(Some(Ok(s))) ==> attempt matches Ok((stream, Ok(token)))
                && s.token() == token && s.handle() == stream,
    {
        match attempted(self.id, Readiness::Readable, attempt) {
            Step::Ready(Ok((stream, registration))) => Step::Ready(
                Some(Async::new(stream, registration)),
            ),
            Step::Ready(Err(e)) => Step::Ready(Some(Err(e))),
            Step::Pending { token, interest } => Step::Pending { token, interest },
        }
    }

    /// One poll of a read, given the outcome of a non-blocking read. A count
    /// of zero is the peer's orderly close and is ready like any other count.
    pub fn poll_read(&self, attempt: Result<usize, std::io::Error>) -> (res: Step<
        Result<usize, std::io::Error>,
    >)
        ensures
            res == polled(self.token(), Readiness::Readable, attempt),
    {
        attempted(self.id, Readiness::Readable, attempt)
    }

    /// One poll of a write, given the outcome of a non-blocking write.
    pub fn poll_write(&self, attempt: Result<usize, std::io::Error>) -> (res: Step<
        Result<usize, std::io::Error>,
    >)
        ensures
            res == polled(self.token(), Readiness::Writable, attempt),
    {
        attempted(self.id, Readiness::Writable, attempt)
    }

    /// One poll of a write from several buffers, given the outcome of a
    /// non-blocking vectored write.
    pub fn poll_write_vectored(&self, attempt: Result<usize, std::io::Error>) -> (res: Step<
        Result<usize, std::io::Error>,
    >)
        ensures
            res == polled(self.token(), Readiness::Writable, attempt),
    {
        attempted(self.id, Readiness::Writable, attempt)
    }

    /// A flush never suspends: its outcome is ready as it is.
    pub fn poll_flush(&self, outcome: Result<(), std::io::Error>) -> (res: Step<
        Result<(), std::io::Error>,
    >)
        ensures
            res == Step::Ready(outcome),
    {
        Step::Ready(outcome)
    }

    /// Closing shuts both directions down and never suspends: the outcome of
    /// the shutdown is ready as it is.
    pub fn poll_close(&self, outcome: Result<(), std::io::Error>) -> (res: Step<
        Result<(), std::io::Error>,
    >)
        ensures
            res == Step::Ready(outcome),
    {
        Step::Ready(outcome)
    }
}

/// The item of the accept sequence that a settled accept amounts to: a
/// connection whose registration succeeded is a socket, every failure is an
/// error item, and a suspension stays one.
pub open spec fn yielded<S>(
    step: Step<Result<(S, Result<usize, std::io::Error>), std::io::Error>>,
) -> Step<Option<Result<Async<S>, std::io::Error>>> {
    match step {
        Step::Ready(Ok((stream, Ok(token)))) => Step::Ready(
            Some(Ok(Async::registered(stream, token))),
        ),
        Step::Ready(Ok((_, Err(e)))) => Step::Ready(Some(Err(e))),
        Step::Ready(Err(e)) => Step::Ready(Some(Err(e))),
        Step::Pending { token, interest } => Step::Pending { token, interest },
    }
}

/// A read of zero bytes is never taken for a would-block: whatever the
/// classification of failures says, a successful attempt is ready with the
/// count it reported.
pub proof fn lemma_success_never_suspends<E>(
    token: usize,
    interest: Readiness,
    count: usize,
    blocked: bool,
)
    ensures
        settled::<usize, E>(token, interest, Ok(count), blocked) == Step::Ready(
            Ok::<usize, E>(count),
        ),
        !(settled::<usize, E>(token, interest, Ok(0), blocked) is Pending),
{
}

/// A suspension comes from a would-block and from nothing else, and it names
/// the token and the interest it was asked for.
pub proof fn lemma_suspends_only_on_would_block<T, E>(
    token: usize,
    interest: Readiness,
    attempt: Result<T, E>,
    blocked: bool,
)
    ensures
        settled(token, interest, attempt, blocked) is Pending <==> attempt is Err && blocked,
        settled(token, interest, attempt, blocked) is Pending ==> settled(
            token,
            interest,
            attempt,
            blocked,
        ) == (Step::<Result<T, E>>::Pending { token, interest }),
{
}

/// A socket is its registration and nothing more: built around a handle
/// under a token, it gives back that token and that handle when it is
/// released, so what is deregistered is what was registered; and two sockets
/// with the same token and handle are the same socket.
pub proof fn lemma_release_matches_registration<T>(s: Async<T>, io: T, token: usize)
    ensures
        Async::registered(io, token).token() == token,
        Async::registered(io, token).handle() == io,
        s == Async::registered(s.handle(), s.token()),
{
}

/// The bytes that a run of write attempts was granted: the sum of the counts
/// of those that succeeded.
pub open spec fn granted(attempts: Seq<Result<usize, std::io::Error>>) -> nat
    decreases attempts.len(),
{
    if attempts.len() == 0 {
        0
    } else {
        granted(attempts.drop_last()) + match attempts.last() {
            Ok(n) => n as nat,
            Err(_) => 0,
        }
    }
}

/// The bytes that a run of steps reported to the task: the sum of the counts
/// of the ready successes. A suspension and an error report none.
pub open spec fn reported(steps: Seq<Step<Result<usize, std::io::Error>>>) -> nat
    decreases steps.len(),
{
    if steps.len() == 0 {
        0
    } else {
        reported(steps.drop_last()) + match steps.last() {
            Step::Ready(Ok(n)) => n as nat,
            _ => 0,
        }
    }
}

/// The steps that the polls of a write make of a run of attempts on the
/// socket registered under `token`, in their order.
pub open spec fn write_steps(token: usize, attempts: Seq<Result<usize, std::io::Error>>) -> Seq<
    Step<Result<usize, std::io::Error>>,
> {
    attempts.map_values(|a: Result<usize, std::io::Error>| polled(token, Readiness::Writable, a))
}

/// A write that goes through any number of would-blocks and resumptions
/// loses and invents no byte: the counts that the polls report add up to the
/// counts that the attempts were granted, so a task that writes on from the
/// sum so far is done exactly when the socket has taken all of its bytes.
/// Every suspension in between waits for writability under the socket's
/// token and reports nothing.
pub proof fn lemma_partial_writes_add_up(
    token: usize,
    attempts: Seq<Result<usize, std::io::Error>>,
)
    ensures
        write_steps(token, attempts).len() == attempts.len(),
        reported(write_steps(token, attempts)) == granted(attempts),
        forall|i: int|
            0 <= i < attempts.len() && (#[trigger] write_steps(token, attempts)[i]) is Pending
                ==> write_steps(token, attempts)[i] == (Step::<
                Result<usize, std::io::Error>,
            >::Pending { token, interest: Readiness::Writable }) && attempts[i] is Err,
    decreases attempts.len(),
{
    if attempts.len() > 0 {
        lemma_partial_writes_add_up(token, attempts.drop_last());
        assert(write_steps(token, attempts).drop_last() =~= write_steps(
            token,
            attempts.drop_last(),
        ));
    }
}

} // verus!
