use vstd::prelude::*;

use crate::error::UdtError;
use crate::socket::{Interest, UdtSocket};
use crate::step::{is_suspension, resolves_first_at, Step};

verus! {

/// A connected socket used with blocking calls.
pub struct UdtStream {
    socket: UdtSocket,
}

impl UdtStream {
    /// The stream over a connected socket.
    pub fn new(socket: UdtSocket) -> (r: UdtStream)
        ensures
            r.socket() == socket,
    {
        UdtStream { socket }
    }

    pub closed spec fn socket(&self) -> UdtSocket {
        self.socket
    }

    /// The socket under the stream.
    pub fn get_socket(&self) -> (r: UdtSocket)
        ensures
            r == self.socket(),
    {
        self.socket
    }
}

/// A connected socket whose reads and writes suspend a task rather than block.
pub struct UdtAsyncStream {
    socket: UdtSocket,
}

/// The step of a read poll, given the outcome of the non-blocking receive:
/// bytes received (none when the peer closed) resolve it, a would-block
/// suspends it until the socket is readable, any other error resolves it.
pub open spec fn read_step(recv: Result<usize, UdtError>) -> Step<usize> {
    match recv {
        Ok(n) => Step::Ready(Ok(n)),
        Err(e) => if e is AsyncRcv {
            Step::Suspend(Interest::Read)
        } else {
            Step::Ready(Err(e))
        },
    }
}

/// The step of a write poll, given the outcome of the non-blocking send: a
/// would-block asks for the count of bytes still waiting to be sent.
pub open spec fn write_step(sent: Result<usize, UdtError>) -> Step<usize> {
    match sent {
        Ok(n) => Step::Ready(Ok(n)),
        Err(e) => if e is AsyncSnd {
            Step::QueryPending
        } else {
            Step::Ready(Err(e))
        },
    }
}

/// The step of a write poll whose send would block, given the count of bytes
/// still waiting to be sent: with none, there is nothing to retry and it
/// resolves with 0; otherwise it suspends until the socket is writable.
pub open spec fn write_pending_step(pending: Result<i32, UdtError>) -> Step<usize> {
    match pending {
        Ok(n) => if n == 0 {
            Step::Ready(Ok(0))
        } else {
            Step::Suspend(Interest::Write)
        },
        Err(e) => Step::Ready(Err(e)),
    }
}

/// A whole write poll: the send's outcome and, when it would block, the
/// count of bytes still waiting.
pub open spec fn write_poll(sent: Result<usize, UdtError>, pending: Result<i32, UdtError>) -> Step<usize> {
    if write_step(sent) is QueryPending {
        write_pending_step(pending)
    } else {
        write_step(sent)
    }
}

/// The step of a flush poll, given the count of bytes still waiting to be sent.
pub open spec fn flush_step(pending: Result<i32, UdtError>) -> Step<()> {
    match pending {
        Ok(n) => if n == 0 {
            Step::Ready(Ok(()))
        } else {
            Step::Suspend(Interest::Write)
        },
        Err(e) => Step::Ready(Err(e)),
    }
}

/// The step of a close poll, given the count of bytes still waiting to be
/// sent: it flushes first, and closes once nothing waits.
pub open spec fn close_step(pending: Result<i32, UdtError>) -> Step<()> {
    match pending {
        Ok(n) => if n == 0 {
            Step::Close
        } else {
            Step::Suspend(Interest::Write)
        },
        Err(e) => Step::Ready(Err(e)),
    }
}

impl UdtAsyncStream {
    /// The asynchronous stream over a connected non-blocking socket.
    pub fn new(socket: UdtSocket) -> (r: UdtAsyncStream)
        ensures
            r.socket() == socket,
    {
        UdtAsyncStream { socket }
    }

    pub closed spec fn socket(&self) -> UdtSocket {
        self.socket
    }

    /// The socket under the stream.
    pub fn get_socket(&self) -> (r: UdtSocket)
        ensures
            r == self.socket(),
    {
        self.socket
    }

    /// Decides a read poll from the outcome of the non-blocking receive.
    pub fn poll_read(&self, recv: Result<usize, UdtError>) -> (r: Step<usize>)
        ensures
            r == read_step(recv),
    {
        match recv {
            Ok(n) => Step::Ready(Ok(n)),
            Err(e) => match e {
                UdtError::AsyncRcv(_) => Step::Suspend(Interest::Read),
                e => Step::Ready(Err(e)),
            },
        }
    }

    /// Decides a write poll from the outcome of the non-blocking send.
    pub fn poll_write(&self, sent: Result<usize, UdtError>) -> (r: Step<usize>)
        ensures
            r == write_step(sent),
    {
        match sent {
            Ok(n) => Step::Ready(Ok(n)),
            Err(e) => match e {
                UdtError::AsyncSnd(_) => Step::QueryPending,
                e => Step::Ready(Err(e)),
            },
        }
    }

    /// Decides a write poll whose send would block, from the count of bytes
    /// still waiting to be sent.
    pub fn poll_write_pending(&self, pending: Result<i32, UdtError>) -> (r: Step<usize>)
        ensures
            r == write_pending_step(pending),
    {
        match pending {
            Ok(bytes) => if bytes == 0 {
                Step::Ready(Ok(0))
            } else {
                Step::Suspend(Interest::Write)
            },
            Err(e) => Step::Ready(Err(e)),
        }
    }

    /// Decides a flush poll from the count of bytes still waiting to be sent.
    pub fn poll_flush(&self, pending: Result<i32, UdtError>) -> (r: Step<()>)
        ensures
            r == flush_step(pending),
    {
        match pending {
            Ok(bytes) => if bytes == 0 {
                Step::Ready(Ok(()))
            } else {
                Step::Suspend(Interest::Write)
            },
            Err(e) => Step::Ready(Err(e)),
        }
    }

    /// Decides a close poll from the count of bytes still waiting to be sent.
    pub fn poll_close(&self, pending: Result<i32, UdtError>) -> (r: Step<()>)
        ensures
            r == close_step(pending),
    {
        match pending {
            Ok(bytes) => if bytes == 0 {
                Step::Close
            } else {
                Step::Suspend(Interest::Write)
            },
            Err(e) => Step::Ready(Err(e)),
        }
    }
}

/// A read on a socket with data queued resolves at its first poll, without
/// suspending, with exactly the byte count the receive reported.
pub proof fn lemma_read_with_data_resolves_at_once(n: usize)
    ensures
        resolves_first_at(seq![read_step(Ok(n))], 0),
        read_step(Ok(n)) == Step::<usize>::Ready(Ok(n)),
{
}

/// A read on a socket with nothing queued suspends on its first poll, waiting
/// for read readiness, and the poll after the wake resolves with the byte
/// count the receive then reports.
pub proof fn lemma_read_waits_for_data(would_block: UdtError, n: usize)
    requires
        would_block is AsyncRcv,
    ensures
        read_step(Err(would_block)) == Step::<usize>::Suspend(Interest::Read),
        resolves_first_at(seq![read_step(Err(would_block)), read_step(Ok(n))], 1),
        read_step(Ok(n)) == Step::<usize>::Ready(Ok(n)),
{
    let steps = seq![read_step(Err(would_block)), read_step(Ok(n))];
    assert(is_suspension(steps[0]));
}

/// A write whose send keeps finding the buffer full, with bytes still waiting,
/// suspends on write readiness at each of those polls and resolves only at the
/// first poll whose send goes through, with the count it accepted.
pub proof fn lemma_write_waits_for_room(
    sent: Seq<Result<usize, UdtError>>,
    pending: Seq<Result<i32, UdtError>>,
    k: int,
)
    requires
        0 <= k < sent.len(),
        pending.len() == sent.len(),
        forall|i: int| 0 <= i < k ==> (#[trigger] sent[i] matches Err(e) && e is AsyncSnd),
        forall|i: int| 0 <= i < k ==> (#[trigger] pending[i] matches Ok(n) && n != 0),
        sent[k] is Ok,
    ensures
        forall|i: int|
            0 <= i < k ==> write_poll(#[trigger] sent[i], pending[i]) == Step::<usize>::Suspend(
                Interest::Write,
            ),
        resolves_first_at(Seq::new(sent.len(), |i: int| write_poll(sent[i], pending[i])), k),
        write_poll(sent[k], pending[k]) == Step::<usize>::Ready(Ok(sent[k]->Ok_0)),
{
    let steps = Seq::new(sent.len(), |i: int| write_poll(sent[i], pending[i]));
    assert forall|i: int| 0 <= i < k implies is_suspension(#[trigger] steps[i]) by {
        assert(sent[i] matches Err(e) && e is AsyncSnd);
        assert(pending[i] matches Ok(n) && n != 0);
    }
}

/// A flush does not resolve while bytes wait to be sent, however many wakes
/// come, and resolves at the first poll that finds none waiting.
pub proof fn lemma_flush_waits_for_drain(pending: Seq<i32>, k: int)
    requires
        0 <= k < pending.len(),
        forall|i: int| 0 <= i < k ==> #[trigger] pending[i] != 0,
        pending[k] == 0,
    ensures
        resolves_first_at(Seq::new(pending.len(), |i: int| flush_step(Ok(pending[i]))), k),
        flush_step(Ok(pending[k])) == Step::<()>::Ready(Ok(())),
        forall|i: int| 0 <= i < k ==> flush_step(Ok(#[trigger] pending[i])) == Step::<()>::Suspend(Interest::Write),
{
    let steps = Seq::new(pending.len(), |i: int| flush_step(Ok(pending[i])));
    assert forall|i: int| 0 <= i < k implies is_suspension(#[trigger] steps[i]) by {}
}

/// A close waits exactly as a flush does, and closes the socket at the first
/// poll that finds no bytes waiting.
pub proof fn lemma_close_waits_for_drain(pending: Seq<i32>, k: int)
    requires
        0 <= k < pending.len(),
        forall|i: int| 0 <= i < k ==> #[trigger] pending[i] != 0,
        pending[k] == 0,
    ensures
        close_step(Ok(pending[k])) == Step::<()>::Close,
        forall|i: int| 0 <= i < k ==> close_step(Ok(#[trigger] pending[i])) == Step::<()>::Suspend(Interest::Write),
{
}

} // verus!
