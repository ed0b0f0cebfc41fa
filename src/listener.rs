use vstd::prelude::*;

use crate::builder::UdtSockOpt;
use crate::error::UdtError;
use crate::socket::{Interest, UdtSocket};
use crate::stream::{UdtAsyncStream, UdtStream};

verus! {

/// A listening socket used with blocking calls.
pub struct UdtListener {
    socket: UdtSocket,
}

impl UdtListener {
    /// The listener over a listening socket.
    pub fn new(socket: UdtSocket) -> (r: UdtListener)
        ensures
            r.socket() == socket,
    {
        UdtListener { socket }
    }

    pub closed spec fn socket(&self) -> UdtSocket {
        self.socket
    }

    /// The listening socket.
    pub fn get_socket(&self) -> (r: UdtSocket)
        ensures
            r == self.socket(),
    {
        self.socket
    }

    /// The stream over a socket this listener accepted, with its peer's address,
    /// given the outcome of the native accept.
    pub fn accept<A>(&self, accepted: Result<(UdtSocket, A), UdtError>) -> (r: Result<
        (UdtStream, A),
        UdtError,
    >)
        ensures
            accepted matches Ok(p) ==> (r matches Ok(q) && q.0.socket() == p.0 && q.1 == p.1),
            accepted matches Err(e) ==> r == Err::<(UdtStream, A), UdtError>(e),
    {
        match accepted {
            Ok((socket, addr)) => Ok((UdtStream::new(socket), addr)),
            Err(e) => Err(e),
        }
    }
}

/// A listening socket whose accepts suspend a task rather than block.
pub struct UdtAsyncListener {
    socket: UdtSocket,
}

impl UdtAsyncListener {
    /// The asynchronous listener over a listening non-blocking socket.
    pub fn new(socket: UdtSocket) -> (r: UdtAsyncListener)
        ensures
            r.socket() == socket,
    {
        UdtAsyncListener { socket }
    }

    pub closed spec fn socket(&self) -> UdtSocket {
        self.socket
    }

    /// The listening socket.
    pub fn get_socket(&self) -> (r: UdtSocket)
        ensures
            r == self.socket(),
    {
        self.socket
    }

    /// A future for the next incoming connection.
    pub fn accept(&self) -> (r: AcceptFuture)
        ensures
            r.socket() == self.socket(),
    {
        AcceptFuture { socket: self.socket }
    }
}

/// The options an accepted socket gets before it is handed out: receive and
/// send both non-blocking.
pub open spec fn nonblocking_opts() -> Seq<UdtSockOpt> {
    seq![UdtSockOpt::RcvSyn(false), UdtSockOpt::SndSyn(false)]
}

/// What an accept poll does next.
pub enum AcceptStep<A> {
    /// Apply these options, in order, to the accepted socket, then hand their
    /// outcomes to `AcceptFuture::resolve`.
    Configure(UdtSocket, A, Vec<UdtSockOpt>),
    /// Suspend until the listening socket is readable.
    Suspend(Interest),
    /// Resolve the future with this error.
    Failed(UdtError),
}

/// The first failure among option outcomes, if any.
pub open spec fn first_failure(outcomes: Seq<Result<(), UdtError>>) -> Option<UdtError>
    decreases outcomes.len(),
{
    if outcomes.len() == 0 {
        None
    } else if outcomes[0] is Err {
        Some(outcomes[0]->Err_0)
    } else {
        first_failure(outcomes.drop_first())
    }
}

/// A future for an incoming connection on a listening socket.
pub struct AcceptFuture {
    socket: UdtSocket,
}

impl AcceptFuture {
    pub closed spec fn socket(&self) -> UdtSocket {
        self.socket
    }

    /// The listening socket.
    pub fn get_socket(&self) -> (r: UdtSocket)
        ensures
            r == self.socket(),
    {
        self.socket
    }

    /// Decides an accept poll from the outcome of the non-blocking accept: an
    /// accepted socket is to be made non-blocking both ways, whatever the
    /// listening socket's own flags; a would-block suspends on the listening
    /// socket's read readiness; any other error resolves the future.
    pub fn poll<A>(&self, accepted: Result<(UdtSocket, A), UdtError>) -> (r: AcceptStep<A>)
        ensures
            accepted matches Ok(p) ==> (r matches AcceptStep::Configure(s, a, opts) && s == p.0 && a
                == p.1 && opts@ == nonblocking_opts()),
            accepted matches Err(e) ==> (if e is AsyncRcv {
                r == AcceptStep::<A>::Suspend(Interest::Read)
            } else {
                r == AcceptStep::<A>::Failed(e)
            }),
    {
        match accepted {
            Ok((socket, addr)) => {
                let mut opts: Vec<UdtSockOpt> = Vec::new();
                opts.push(UdtSockOpt::RcvSyn(false));
                opts.push(UdtSockOpt::SndSyn(false));
                assert(opts@ =~= nonblocking_opts());
                AcceptStep::Configure(socket, addr, opts)
            },
            Err(e) => match e {
                UdtError::AsyncRcv(_) => AcceptStep::Suspend(Interest::Read),
                e => AcceptStep::Failed(e),
            },
        }
    }

    /// Resolves an accept from the outcomes of configuring the accepted
    /// socket: the first failure, in the order the options were applied, or
    /// the stream with its peer's address.
    pub fn resolve<A>(socket: UdtSocket, addr: A, outcomes: Vec<Result<(), UdtError>>) -> (r: Result<
        (UdtAsyncStream, A),
        UdtError,
    >)
        ensures
            first_failure(outcomes@) matches Some(e) ==> r == Err::<(UdtAsyncStream, A), UdtError>(e),
            first_failure(outcomes@) is None ==> (r matches Ok(p) && p.0.socket() == socket && p.1 == addr),
    {
        let ghost old_outcomes = outcomes@;
        let mut work = outcomes;
        let mut i: usize = 0;
        assert(work@.skip(0) =~= outcomes@);
        while i < work.len()
            invariant
                i <= work.len(),
                first_failure(old_outcomes) == first_failure(work@.skip(i as int)),
                work@ == old_outcomes,
                outcomes@ == old_outcomes,
            decreases work.len() - i,
        {
            let ghost rest = work@.skip(i as int);
            assert(rest.drop_first() =~= work@.skip(i + 1));
            assert(rest.len() > 0 && rest[0] == old_outcomes[i as int]);
            if work[i].is_err() {
                match work.remove(i) {
                    Err(e) => {
                        return Err(e);
                    },
                    Ok(()) => {},
                }
            }
            i = i + 1;
        }
        assert(work@.skip(i as int) =~= Seq::<Result<(), UdtError>>::empty());
        Ok((UdtAsyncStream::new(socket), addr))
    }
}

/// An accept that finds a connection resolves with a socket made non-blocking
/// for both receive and send, whatever the listening socket: every listener
/// asks for the same two options, and the future resolves with the stream
/// exactly when both were applied.
pub proof fn lemma_accepted_socket_is_nonblocking(rcv: Result<(), UdtError>, snd: Result<(), UdtError>)
    ensures
        nonblocking_opts()[0] == UdtSockOpt::RcvSyn(false),
        nonblocking_opts()[1] == UdtSockOpt::SndSyn(false),
        first_failure(seq![rcv, snd]) is None <==> (rcv is Ok && snd is Ok),
{
    reveal_with_fuel(first_failure, 3);
    let s = seq![rcv, snd];
    assert(s.drop_first() =~= seq![snd]);
    assert(seq![snd].drop_first() =~= Seq::<Result<(), UdtError>>::empty());
}

} // verus!
