use vstd::prelude::*;

use crate::error::{code_of, message_of, UdtError};
use crate::socket::{UdtSocket, UdtStatus};
use crate::step::{resolves_first_at, Step};
use crate::stream::{UdtAsyncStream, UdtStream};

verus! {

/// How long a connect future sleeps between two looks at the socket's status.
pub const CONNECT_POLL_MS: u64 = 500;

/// A bound socket used with blocking calls.
pub struct UdtBoundSocket {
    socket: UdtSocket,
}

impl UdtBoundSocket {
    /// The bound socket over a socket the native library bound.
    pub fn new(socket: UdtSocket) -> (r: UdtBoundSocket)
        ensures
            r.socket() == socket,
    {
        UdtBoundSocket { socket }
    }

    pub closed spec fn socket(&self) -> UdtSocket {
        self.socket
    }

    /// The bound socket.
    pub fn get_socket(&self) -> (r: UdtSocket)
        ensures
            r == self.socket(),
    {
        self.socket
    }

    /// The stream a connect makes of this socket, given the native connect's
    /// outcome.
    pub fn connect(self, outcome: Result<(), UdtError>) -> (r: Result<UdtStream, UdtError>)
        ensures
            outcome is Ok ==> (r matches Ok(s) && s.socket() == self.socket()),
            outcome matches Err(e) ==> r == Err::<UdtStream, UdtError>(e),
    {
        match outcome {
            Ok(()) => Ok(UdtStream::new(self.socket)),
            Err(e) => Err(e),
        }
    }
}

/// A bound socket whose connect suspends a task rather than block.
pub struct UdtBoundAsyncSocket {
    socket: UdtSocket,
}

impl UdtBoundAsyncSocket {
    /// The bound socket over a non-blocking socket the native library bound.
    pub fn new(socket: UdtSocket) -> (r: UdtBoundAsyncSocket)
        ensures
            r.socket() == socket,
    {
        UdtBoundAsyncSocket { socket }
    }

    pub closed spec fn socket(&self) -> UdtSocket {
        self.socket
    }

    /// The bound socket.
    pub fn get_socket(&self) -> (r: UdtSocket)
        ensures
            r == self.socket(),
    {
        self.socket
    }

    /// The future that waits for a connect to complete, given the outcome of
    /// starting it natively.
    pub fn connect(self, outcome: Result<(), UdtError>) -> (r: Result<ConnectFuture, UdtError>)
        ensures
            outcome is Ok ==> (r matches Ok(f) && f.socket() == self.socket()),
            outcome matches Err(e) ==> r == Err::<ConnectFuture, UdtError>(e),
    {
        match outcome {
            Ok(()) => Ok(ConnectFuture::new(self.socket)),
            Err(e) => Err(e),
        }
    }
}

/// The error code and description a connect resolves with when it finds the
/// socket in `status`; a broken connection is lost, and every other status
/// but connecting and connected is a misuse that is never retried.
pub open spec fn status_error(status: UdtStatus) -> (i32, Seq<char>) {
    match status {
        UdtStatus::Broken => (2001, "connection broken"@),
        UdtStatus::Init => (5005, "socket not bound"@),
        UdtStatus::Opened => (5000, "already connected"@),
        UdtStatus::Listening => (5000, "socket is listening"@),
        UdtStatus::Closing => (5004, "socket is being closed"@),
        UdtStatus::Closed => (5004, "socket already closed"@),
        UdtStatus::NonExist => (5004, "socket do not exist"@),
        _ => (0, Seq::empty()),
    }
}

/// `step` is what a connect poll on `socket` does when it finds `status`:
/// sleep and look again while connecting, resolve with the stream once
/// connected, resolve with the status's error otherwise.
pub open spec fn is_connect_step(socket: UdtSocket, status: UdtStatus, step: Step<UdtAsyncStream>) -> bool {
    if status == UdtStatus::Connecting {
        step == Step::<UdtAsyncStream>::Sleep(CONNECT_POLL_MS)
    } else if status == UdtStatus::Connected {
        step matches Step::Ready(Ok(s)) && s.socket() == socket
    } else {
        step matches Step::Ready(Err(e)) && code_of(e) == status_error(status).0 && message_of(e)
            == status_error(status).1
    }
}

/// A future for a connect in progress. The native library gives no
/// readiness notice for a completed connect, so the future looks at the
/// socket's status at a fixed interval.
pub struct ConnectFuture {
    socket: UdtSocket,
}

impl ConnectFuture {
    /// The future over a socket whose connect was started.
    pub fn new(socket: UdtSocket) -> (r: ConnectFuture)
        ensures
            r.socket() == socket,
    {
        ConnectFuture { socket }
    }

    pub closed spec fn socket(&self) -> UdtSocket {
        self.socket
    }

    /// The socket being connected.
    pub fn get_socket(&self) -> (r: UdtSocket)
        ensures
            r == self.socket(),
    {
        self.socket
    }

    /// Decides a connect poll from the socket's status.
    pub fn poll(&self, status: UdtStatus) -> (r: Step<UdtAsyncStream>)
        ensures
            is_connect_step(self.socket(), status, r),
    {
        match status {
            UdtStatus::Connecting => Step::Sleep(CONNECT_POLL_MS),
            UdtStatus::Connected => Step::Ready(Ok(UdtAsyncStream::new(self.socket))),
            UdtStatus::Broken => Step::Ready(Err(UdtError::ConnLost("connection broken".to_owned()))),
            UdtStatus::Init => Step::Ready(Err(UdtError::UnboundSock("socket not bound".to_owned()))),
            UdtStatus::Opened => Step::Ready(Err(UdtError::InvOp("already connected".to_owned()))),
            UdtStatus::Listening => Step::Ready(Err(UdtError::InvOp("socket is listening".to_owned()))),
            UdtStatus::Closing => Step::Ready(
                Err(UdtError::InvSock("socket is being closed".to_owned())),
            ),
            UdtStatus::Closed => Step::Ready(Err(UdtError::InvSock("socket already closed".to_owned()))),
            UdtStatus::NonExist => Step::Ready(Err(UdtError::InvSock("socket do not exist".to_owned()))),
        }
    }
}

/// A connect that finds the socket still connecting at its first `k` polls
/// sleeps at each of them and resolves with the stream at the first poll that
/// finds it connected.
pub proof fn lemma_connect_resolves_once_connected(
    socket: UdtSocket,
    statuses: Seq<UdtStatus>,
    steps: Seq<Step<UdtAsyncStream>>,
    k: int,
)
    requires
        steps.len() == statuses.len(),
        forall|i: int| 0 <= i < steps.len() ==> is_connect_step(socket, #[trigger] statuses[i], steps[i]),
        0 <= k < statuses.len(),
        forall|i: int| 0 <= i < k ==> #[trigger] statuses[i] == UdtStatus::Connecting,
        statuses[k] == UdtStatus::Connected,
    ensures
        resolves_first_at(steps, k),
        forall|i: int| 0 <= i < k ==> #[trigger] steps[i] == Step::<UdtAsyncStream>::Sleep(CONNECT_POLL_MS),
        steps[k] matches Step::Ready(Ok(s)) && s.socket() == socket,
{
    assert forall|i: int| 0 <= i < k implies #[trigger] steps[i] == Step::<UdtAsyncStream>::Sleep(
        CONNECT_POLL_MS,
    ) by {
        assert(is_connect_step(socket, statuses[i], steps[i]));
    }
    assert(is_connect_step(socket, statuses[k], steps[k]));
}

/// A connect that finds the connection broken resolves at that poll with a
/// connection-lost error, and one that finds a socket never bound or
/// otherwise unfit resolves at that poll with a usage error.
pub proof fn lemma_connect_fails_at_once(socket: UdtSocket, status: UdtStatus, step: Step<UdtAsyncStream>)
    requires
        is_connect_step(socket, status, step),
        status != UdtStatus::Connecting,
        status != UdtStatus::Connected,
    ensures
        resolves_first_at(seq![step], 0),
        status == UdtStatus::Broken ==> (step matches Step::Ready(Err(e)) && e is ConnLost),
        status == UdtStatus::Opened ==> (step matches Step::Ready(Err(e)) && e is InvOp),
        status == UdtStatus::Init ==> (step matches Step::Ready(Err(e)) && e is UnboundSock),
{
}

} // verus!
