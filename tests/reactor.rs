use udt::epoll::Epoll;
use udt::error::{get_error, IoKind, UdtError};
use udt::listener::AcceptStep;
use udt::step::{suspension_outcome, PollState, Step};
use udt::{
    linger_enabled, async_builder, builder, ConfigStep, ConnectFuture, Interest, UdtAsyncListener, UdtAsyncStream,
    UdtBoundAsyncSocket, UdtBoundSocket, UdtListener, UdtSockOpt, UdtSocket, UdtStatus,
    INVALID_SOCK,
};

fn stream() -> UdtAsyncStream {
    UdtAsyncStream::new(UdtSocket::from_id(7))
}

fn would_block_rcv() -> UdtError {
    UdtError::AsyncRcv("no data available for reading".to_string())
}

fn would_block_snd() -> UdtError {
    UdtError::AsyncSnd("no buffer available for sending".to_string())
}

#[test]
fn error_from_code_keeps_code_and_description() {
    let e = UdtError::from_code(2001, "Connection was broken.".to_string());
    assert!(matches!(e, UdtError::ConnLost(_)));
    assert_eq!(e.code(), 2001);
    assert_eq!(e.message(), "Connection was broken.");
    assert!(matches!(UdtError::from_code(6002, String::new()), UdtError::AsyncRcv(_)));
    assert!(matches!(UdtError::from_code(7000, String::new()), UdtError::PeerErr(_)));
    assert!(matches!(UdtError::from_code(5005, String::new()), UdtError::UnboundSock(_)));
}

#[test]
fn error_io_kinds() {
    assert_eq!(UdtError::ConnLost(String::new()).io_kind(), IoKind::ConnectionAborted);
    assert_eq!(UdtError::AsyncSnd(String::new()).io_kind(), IoKind::WouldBlock);
    assert_eq!(UdtError::Timeout(String::new()).io_kind(), IoKind::TimedOut);
    assert_eq!(UdtError::BoundSock(String::new()).io_kind(), IoKind::AddrInUse);
    assert_eq!(UdtError::InvSock(String::new()).io_kind(), IoKind::AddrNotAvailable);
    assert_eq!(UdtError::Success(String::new()).io_kind(), IoKind::Other);
}

#[test]
fn get_error_success_code_returns_value() {
    assert_eq!(get_error(41, 0, "Success.".to_string()).unwrap(), 41);
    let r = get_error(41, 3000, "System resource failure.".to_string());
    match r {
        Err(e) => {
            assert_eq!(e.code(), 3000);
            assert_eq!(e.message(), "System resource failure.");
        }
        Ok(_) => panic!("expected an error"),
    }
}

#[test]
fn epoll_counts_follow_registrations() {
    let mut ep = Epoll::new(3);
    assert_eq!(ep.id(), 3);
    assert_eq!(ep.num_registered(Interest::Read), 0);
    assert!(ep.add(&UdtSocket::from_id(10), Interest::Read, Ok(())).is_ok());
    assert!(ep.add(&UdtSocket::from_id(11), Interest::Read, Ok(())).is_ok());
    assert!(ep.add(&UdtSocket::from_id(10), Interest::Write, Ok(())).is_ok());
    assert_eq!(ep.num_registered(Interest::Read), 2);
    assert_eq!(ep.num_registered(Interest::Write), 1);
    // registering the same socket again for the same interest counts it once
    assert!(ep.add(&UdtSocket::from_id(11), Interest::Read, Ok(())).is_ok());
    assert_eq!(ep.num_registered(Interest::Read), 2);
    assert!(ep.remove(&UdtSocket::from_id(10), Ok(())).is_ok());
    assert_eq!(ep.num_registered(Interest::Read), 1);
    assert_eq!(ep.num_registered(Interest::Write), 0);
    // removing what is not registered changes nothing
    assert!(ep.remove(&UdtSocket::from_id(99), Ok(())).is_ok());
    assert_eq!(ep.num_registered(Interest::Read), 1);
    assert!(ep.add(&UdtSocket::from_id(12), Interest::Write, Ok(())).is_ok());
    assert_eq!(ep.num_registered(Interest::Write), 1);
}

#[test]
fn epoll_failed_native_call_changes_nothing() {
    let mut ep = Epoll::new(1);
    let r = ep.add(&UdtSocket::from_id(5), Interest::Read, Err(UdtError::InvSock("x".to_string())));
    assert!(matches!(r, Err(UdtError::InvSock(_))));
    assert_eq!(ep.num_registered(Interest::Read), 0);
    assert!(ep.add(&UdtSocket::from_id(5), Interest::Read, Ok(())).is_ok());
    let r = ep.remove(&UdtSocket::from_id(5), Err(UdtError::InvSock("x".to_string())));
    assert!(r.is_err());
    assert_eq!(ep.num_registered(Interest::Read), 1);
}

#[test]
fn epoll_wait_buffers_and_result() {
    let mut ep = Epoll::new(1);
    let _ = ep.add(&UdtSocket::from_id(5), Interest::Read, Ok(()));
    let _ = ep.add(&UdtSocket::from_id(6), Interest::Read, Ok(()));
    let _ = ep.add(&UdtSocket::from_id(6), Interest::Write, Ok(()));
    let (rd, wr) = ep.wait_buffers();
    assert_eq!(rd, vec![INVALID_SOCK, INVALID_SOCK]);
    assert_eq!(wr, vec![INVALID_SOCK]);
    let (rd, wr) = ep.wait_result(Ok(()), vec![6, INVALID_SOCK], 1, vec![6], 1).unwrap();
    assert_eq!(rd, vec![6]);
    assert_eq!(wr, vec![6]);
    let (rd, wr) = ep.wait_result(Ok(()), vec![5, 6], 2, vec![INVALID_SOCK], 0).unwrap();
    assert_eq!(rd, vec![5, 6]);
    assert!(wr.is_empty());
    let r = ep.wait_result(Err(UdtError::Timeout("t".to_string())), vec![5], 1, vec![], 0);
    assert!(matches!(r, Err(UdtError::Timeout(_))));
}

#[test]
fn read_with_data_resolves_at_once() {
    let s = stream();
    assert!(matches!(s.poll_read(Ok(7)), Step::Ready(Ok(7))));
    assert!(matches!(s.poll_read(Ok(0)), Step::Ready(Ok(0))));
}

#[test]
fn read_without_data_suspends_once_then_resolves() {
    let s = stream();
    assert!(matches!(s.poll_read(Err(would_block_rcv())), Step::Suspend(Interest::Read)));
    assert!(matches!(s.poll_read(Ok(7)), Step::Ready(Ok(7))));
}

#[test]
fn read_error_resolves() {
    let s = stream();
    let r = s.poll_read(Err(UdtError::ConnLost("lost".to_string())));
    assert!(matches!(r, Step::Ready(Err(UdtError::ConnLost(_)))));
    // a send-side would-block is not a read suspension
    assert!(matches!(s.poll_read(Err(would_block_snd())), Step::Ready(Err(UdtError::AsyncSnd(_)))));
}

#[test]
fn write_on_full_buffer_suspends_then_resolves() {
    let s = stream();
    assert!(matches!(s.poll_write(Err(would_block_snd())), Step::QueryPending));
    assert!(matches!(s.poll_write_pending(Ok(8192)), Step::Suspend(Interest::Write)));
    assert!(matches!(s.poll_write(Ok(5)), Step::Ready(Ok(5))));
}

#[test]
fn write_would_block_with_nothing_pending_resolves_zero() {
    let s = stream();
    assert!(matches!(s.poll_write_pending(Ok(0)), Step::Ready(Ok(0))));
    let r = s.poll_write_pending(Err(UdtError::InvSock("gone".to_string())));
    assert!(matches!(r, Step::Ready(Err(UdtError::InvSock(_)))));
    let r = s.poll_write(Err(UdtError::Timeout("t".to_string())));
    assert!(matches!(r, Step::Ready(Err(UdtError::Timeout(_)))));
}

#[test]
fn flush_waits_until_nothing_pending() {
    let s = stream();
    for pending in [300, 120, 1] {
        assert!(matches!(s.poll_flush(Ok(pending)), Step::Suspend(Interest::Write)));
    }
    assert!(matches!(s.poll_flush(Ok(0)), Step::Ready(Ok(()))));
    let r = s.poll_flush(Err(UdtError::ConnLost("lost".to_string())));
    assert!(matches!(r, Step::Ready(Err(UdtError::ConnLost(_)))));
}

#[test]
fn close_flushes_then_closes() {
    let s = stream();
    assert!(matches!(s.poll_close(Ok(64)), Step::Suspend(Interest::Write)));
    assert!(matches!(s.poll_close(Ok(64)), Step::Suspend(Interest::Write)));
    assert!(matches!(s.poll_close(Ok(0)), Step::Close));
    let r = s.poll_close(Err(UdtError::NoConn("none".to_string())));
    assert!(matches!(r, Step::Ready(Err(UdtError::NoConn(_)))));
}

#[test]
fn suspension_setup_failure_resolves() {
    assert!(matches!(suspension_outcome::<usize>(Ok(())), PollState::Pending));
    let r = suspension_outcome::<usize>(Err(UdtError::Resource("no epoll".to_string())));
    assert!(matches!(r, PollState::Ready(Err(UdtError::Resource(_)))));
}

#[test]
fn accept_makes_socket_nonblocking() {
    let listener = UdtAsyncListener::new(UdtSocket::from_id(2));
    assert_eq!(listener.get_socket(), UdtSocket::from_id(2));
    let fut = listener.accept();
    assert_eq!(fut.get_socket(), UdtSocket::from_id(2));
    match fut.poll(Ok((UdtSocket::from_id(9), "peer"))) {
        AcceptStep::Configure(s, addr, opts) => {
            assert_eq!(s, UdtSocket::from_id(9));
            assert_eq!(addr, "peer");
            assert_eq!(opts, vec![UdtSockOpt::RcvSyn(false), UdtSockOpt::SndSyn(false)]);
        }
        _ => panic!("expected the accepted socket to be configured"),
    }
    let r = udt::AcceptFuture::resolve(UdtSocket::from_id(9), "peer", vec![Ok(()), Ok(())]);
    let (stream, addr) = r.unwrap();
    assert_eq!(stream.get_socket(), UdtSocket::from_id(9));
    assert_eq!(addr, "peer");
}

#[test]
fn accept_reports_first_configuration_failure() {
    let r = udt::AcceptFuture::resolve(
        UdtSocket::from_id(9),
        (),
        vec![Err(UdtError::InvParam("rcv".to_string())), Err(UdtError::InvOp("snd".to_string()))],
    );
    assert!(matches!(r, Err(UdtError::InvParam(_))));
    let r = udt::AcceptFuture::resolve(
        UdtSocket::from_id(9),
        (),
        vec![Ok(()), Err(UdtError::InvOp("snd".to_string()))],
    );
    assert!(matches!(r, Err(UdtError::InvOp(_))));
}

#[test]
fn accept_would_block_suspends_on_read() {
    let fut = UdtAsyncListener::new(UdtSocket::from_id(2)).accept();
    assert!(matches!(fut.poll::<()>(Err(would_block_rcv())), AcceptStep::Suspend(Interest::Read)));
    let r = fut.poll::<()>(Err(UdtError::NoListen("not listening".to_string())));
    assert!(matches!(r, AcceptStep::Failed(UdtError::NoListen(_))));
}

#[test]
fn connect_resolves_after_two_sleeps() {
    let fut = ConnectFuture::new(UdtSocket::from_id(4));
    let statuses = [UdtStatus::Connecting, UdtStatus::Connecting, UdtStatus::Connected];
    let steps: Vec<Step<UdtAsyncStream>> = statuses.iter().map(|s| fut.poll(*s)).collect();
    assert!(matches!(steps[0], Step::Sleep(500)));
    assert!(matches!(steps[1], Step::Sleep(500)));
    match &steps[2] {
        Step::Ready(Ok(s)) => assert_eq!(s.get_socket(), UdtSocket::from_id(4)),
        _ => panic!("expected a connected stream"),
    }
}

#[test]
fn connect_broken_is_connection_lost() {
    let fut = ConnectFuture::new(UdtSocket::from_id(4));
    match fut.poll(UdtStatus::Broken) {
        Step::Ready(Err(e)) => {
            assert!(matches!(e, UdtError::ConnLost(_)));
            assert_eq!(e.message(), "connection broken");
        }
        _ => panic!("expected connection lost"),
    }
}

#[test]
fn connect_misuse_is_usage_error() {
    let fut = ConnectFuture::new(UdtSocket::from_id(4));
    let cases = [
        (UdtStatus::Opened, 5000, "already connected"),
        (UdtStatus::Init, 5005, "socket not bound"),
        (UdtStatus::Listening, 5000, "socket is listening"),
        (UdtStatus::Closing, 5004, "socket is being closed"),
        (UdtStatus::Closed, 5004, "socket already closed"),
        (UdtStatus::NonExist, 5004, "socket do not exist"),
    ];
    for (status, code, msg) in cases {
        match fut.poll(status) {
            Step::Ready(Err(e)) => {
                assert_eq!(e.code(), code);
                assert_eq!(e.message(), msg);
            }
            _ => panic!("expected a usage error"),
        }
    }
}

#[test]
fn bound_sockets_connect() {
    let s = UdtBoundSocket::new(UdtSocket::from_id(3)).connect(Ok(())).unwrap();
    assert_eq!(s.get_socket(), UdtSocket::from_id(3));
    let r = UdtBoundSocket::new(UdtSocket::from_id(3)).connect(Err(UdtError::NoServer("x".to_string())));
    assert!(matches!(r, Err(UdtError::NoServer(_))));
    let f = UdtBoundAsyncSocket::new(UdtSocket::from_id(3)).connect(Ok(())).unwrap();
    assert_eq!(f.get_socket(), UdtSocket::from_id(3));
    let r = UdtBoundAsyncSocket::new(UdtSocket::from_id(3)).connect(Err(UdtError::ConnRej("x".to_string())));
    assert!(matches!(r, Err(UdtError::ConnRej(_))));
}

#[test]
fn blocking_listener_accepts() {
    let l = UdtListener::new(UdtSocket::from_id(2));
    let (s, addr) = l.accept(Ok((UdtSocket::from_id(8), 1234))).unwrap();
    assert_eq!(s.get_socket(), UdtSocket::from_id(8));
    assert_eq!(addr, 1234);
    assert!(matches!(l.accept::<u16>(Err(would_block_rcv())), Err(UdtError::AsyncRcv(_))));
}

fn collect_options(step: impl Fn(usize, Result<(), UdtError>) -> ConfigStep) -> Vec<UdtSockOpt> {
    let mut opts = Vec::new();
    let mut applied = 0;
    loop {
        match step(applied, Ok(())) {
            ConfigStep::Apply(o) => {
                opts.push(o);
                applied += 1;
            }
            ConfigStep::Done(r) => {
                assert!(r.is_ok());
                return opts;
            }
        }
    }
}

#[test]
fn builder_applies_options_in_order() {
    let b = builder().set_reuse_addr(false).set_mss(1400).set_rendezvous(true).set_max_bw(-1);
    let opts = collect_options(|i, last| b.config_socket(i, last));
    assert_eq!(
        opts,
        vec![
            UdtSockOpt::ReuseAddr(false),
            UdtSockOpt::Mss(1400),
            UdtSockOpt::Rendezvous(true),
            UdtSockOpt::MaxBW(-1)
        ]
    );
    assert!(collect_options(|i, last| builder().config_socket(i, last)).is_empty());
}

#[test]
fn builder_stops_at_first_failure() {
    let b = builder().set_linger(10).set_fc(25600);
    let r = b.config_socket(1, Err(UdtError::InvParam("bad linger".to_string())));
    assert!(matches!(r, ConfigStep::Done(Err(UdtError::InvParam(_)))));
}

#[test]
fn async_builder_starts_nonblocking() {
    let b = async_builder().set_reuse_addr(false).set_snd_timeo(100);
    let opts = collect_options(|i, last| b.config_socket(i, last));
    assert_eq!(
        opts,
        vec![
            UdtSockOpt::RcvSyn(false),
            UdtSockOpt::SndSyn(false),
            UdtSockOpt::ReuseAddr(false),
            UdtSockOpt::SndTimeo(100)
        ]
    );
}

#[test]
fn linger_only_for_positive_time() {
    assert!(linger_enabled(180));
    assert!(!linger_enabled(0));
    assert!(!linger_enabled(-5));
}
