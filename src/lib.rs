//! Asynchronous adapters over a non-blocking, readiness-polled transport socket
//! API: the readiness multiplexer's bookkeeping and the decision steps of the
//! read, write, flush, close, accept and connect futures.
//!
//! Each future is polled by a driver that makes the non-blocking call on the
//! socket and hands its outcome to the step function here; the step says
//! whether to resolve, to suspend on a readiness wait, or to sleep and look
//! again.
pub mod builder;
pub mod connect;
pub mod epoll;
pub mod error;
pub mod listener;
pub mod socket;
pub mod step;
pub mod stream;

pub use builder::{async_builder, builder, ConfigStep, UdtAsyncBuilder, UdtBuilder, UdtSockOpt};
pub use connect::{ConnectFuture, UdtBoundAsyncSocket, UdtBoundSocket};
pub use epoll::Epoll;
pub use error::{get_error, IoKind, UdtError};
pub use listener::{AcceptFuture, AcceptStep, UdtAsyncListener, UdtListener};
pub use socket::{linger_enabled, Interest, UdtSocket, UdtStatus, INVALID_SOCK};
pub use step::{suspension_outcome, PollState, Step};
pub use stream::{UdtAsyncStream, UdtStream};
