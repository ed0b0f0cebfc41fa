use vstd::prelude::*;

verus! {

/// An error reported by the transport library, tagged by its native error code
/// and carrying the library's description of it.
#[derive(Clone, Debug)]
pub enum UdtError {
    Success(String),
    ConnSetup(String),
    NoServer(String),
    ConnRej(String),
    SockFail(String),
    SecFail(String),
    ConnFail(String),
    ConnLost(String),
    NoConn(String),
    Resource(String),
    Thread(String),
    NoBuf(String),
    File(String),
    InvRdOff(String),
    RdPerm(String),
    InvWrOff(String),
    WrPerm(String),
    InvOp(String),
    BoundSock(String),
    ConnSock(String),
    InvParam(String),
    InvSock(String),
    UnboundSock(String),
    NoListen(String),
    RdvNoServ(String),
    RdvUnbound(String),
    StreamIll(String),
    DgramIll(String),
    DupListen(String),
    LargeMsg(String),
    AsyncFail(String),
    AsyncSnd(String),
    AsyncRcv(String),
    Timeout(String),
    PeerErr(String),
}

/// The broad class of I/O failure that an error belongs to; it mirrors the
/// kinds of `std::io::ErrorKind` that transport errors are reported under.
#[derive(Clone, Copy, Debug, PartialEq, Eq, Structural)]
pub enum IoKind {
    Other,
    ConnectionRefused,
    AddrNotAvailable,
    ConnectionAborted,
    NotConnected,
    NotFound,
    InvalidInput,
    PermissionDenied,
    AddrInUse,
    WouldBlock,
    TimedOut,
}

/// The native error codes the transport library defines.
pub open spec fn is_known_code(code: i32) -> bool {
    code == 0
        || code == 1000
        || code == 1001
        || code == 1002
        || code == 1003
        || code == 1004
        || code == 2000
        || code == 2001
        || code == 2002
        || code == 3000
        || code == 3001
        || code == 3002
        || code == 4000
        || code == 4001
        || code == 4002
        || code == 4003
        || code == 4004
        || code == 5000
        || code == 5001
        || code == 5002
        || code == 5003
        || code == 5004
        || code == 5005
        || code == 5006
        || code == 5007
        || code == 5008
        || code == 5009
        || code == 5010
        || code == 5011
        || code == 5012
        || code == 6000
        || code == 6001
        || code == 6002
        || code == 6003
        || code == 7000
}

/// The native error code of an error.
pub open spec fn code_of(e: UdtError) -> i32 {
    match e {
        UdtError::Success(_) => 0,
        UdtError::ConnSetup(_) => 1000,
        UdtError::NoServer(_) => 1001,
        UdtError::ConnRej(_) => 1002,
        UdtError::SockFail(_) => 1003,
        UdtError::SecFail(_) => 1004,
        UdtError::ConnFail(_) => 2000,
        UdtError::ConnLost(_) => 2001,
        UdtError::NoConn(_) => 2002,
        UdtError::Resource(_) => 3000,
        UdtError::Thread(_) => 3001,
        UdtError::NoBuf(_) => 3002,
        UdtError::File(_) => 4000,
        UdtError::InvRdOff(_) => 4001,
        UdtError::RdPerm(_) => 4002,
        UdtError::InvWrOff(_) => 4003,
        UdtError::WrPerm(_) => 4004,
        UdtError::InvOp(_) => 5000,
        UdtError::BoundSock(_) => 5001,
        UdtError::ConnSock(_) => 5002,
        UdtError::InvParam(_) => 5003,
        UdtError::InvSock(_) => 5004,
        UdtError::UnboundSock(_) => 5005,
        UdtError::NoListen(_) => 5006,
        UdtError::RdvNoServ(_) => 5007,
        UdtError::RdvUnbound(_) => 5008,
        UdtError::StreamIll(_) => 5009,
        UdtError::DgramIll(_) => 5010,
        UdtError::DupListen(_) => 5011,
        UdtError::LargeMsg(_) => 5012,
        UdtError::AsyncFail(_) => 6000,
        UdtError::AsyncSnd(_) => 6001,
        UdtError::AsyncRcv(_) => 6002,
        UdtError::Timeout(_) => 6003,
        UdtError::PeerErr(_) => 7000,
    }
}

/// The description an error carries.
pub open spec fn message_of(e: UdtError) -> Seq<char> {
    match e {
        UdtError::Success(m) => m@,
        UdtError::ConnSetup(m) => m@,
        UdtError::NoServer(m) => m@,
        UdtError::ConnRej(m) => m@,
        UdtError::SockFail(m) => m@,
        UdtError::SecFail(m) => m@,
        UdtError::ConnFail(m) => m@,
        UdtError::ConnLost(m) => m@,
        UdtError::NoConn(m) => m@,
        UdtError::Resource(m) => m@,
        UdtError::Thread(m) => m@,
        UdtError::NoBuf(m) => m@,
        UdtError::File(m) => m@,
        UdtError::InvRdOff(m) => m@,
        UdtError::RdPerm(m) => m@,
        UdtError::InvWrOff(m) => m@,
        UdtError::WrPerm(m) => m@,
        UdtError::InvOp(m) => m@,
        UdtError::BoundSock(m) => m@,
        UdtError::ConnSock(m) => m@,
        UdtError::InvParam(m) => m@,
        UdtError::InvSock(m) => m@,
        UdtError::UnboundSock(m) => m@,
        UdtError::NoListen(m) => m@,
        UdtError::RdvNoServ(m) => m@,
        UdtError::RdvUnbound(m) => m@,
        UdtError::StreamIll(m) => m@,
        UdtError::DgramIll(m) => m@,
        UdtError::DupListen(m) => m@,
        UdtError::LargeMsg(m) => m@,
        UdtError::AsyncFail(m) => m@,
        UdtError::AsyncSnd(m) => m@,
        UdtError::AsyncRcv(m) => m@,
        UdtError::Timeout(m) => m@,
        UdtError::PeerErr(m) => m@,
    }
}

/// The I/O class an error is reported under.
pub open spec fn kind_of(e: UdtError) -> IoKind {
    match e {
        UdtError::Success(_) => IoKind::Other,
        UdtError::ConnSetup(_) => IoKind::ConnectionRefused,
        UdtError::NoServer(_) => IoKind::ConnectionRefused,
        UdtError::ConnRej(_) => IoKind::ConnectionRefused,
        UdtError::SockFail(_) => IoKind::AddrNotAvailable,
        UdtError::SecFail(_) => IoKind::ConnectionRefused,
        UdtError::ConnFail(_) => IoKind::ConnectionRefused,
        UdtError::ConnLost(_) => IoKind::ConnectionAborted,
        UdtError::NoConn(_) => IoKind::NotConnected,
        UdtError::Resource(_) => IoKind::Other,
        UdtError::Thread(_) => IoKind::Other,
        UdtError::NoBuf(_) => IoKind::Other,
        UdtError::File(_) => IoKind::NotFound,
        UdtError::InvRdOff(_) => IoKind::InvalidInput,
        UdtError::RdPerm(_) => IoKind::PermissionDenied,
        UdtError::InvWrOff(_) => IoKind::InvalidInput,
        UdtError::WrPerm(_) => IoKind::PermissionDenied,
        UdtError::InvOp(_) => IoKind::InvalidInput,
        UdtError::BoundSock(_) => IoKind::AddrInUse,
        UdtError::ConnSock(_) => IoKind::AddrInUse,
        UdtError::InvParam(_) => IoKind::InvalidInput,
        UdtError::InvSock(_) => IoKind::AddrNotAvailable,
        UdtError::UnboundSock(_) => IoKind::NotConnected,
        UdtError::NoListen(_) => IoKind::InvalidInput,
        UdtError::RdvNoServ(_) => IoKind::ConnectionRefused,
        UdtError::RdvUnbound(_) => IoKind::ConnectionRefused,
        UdtError::StreamIll(_) => IoKind::InvalidInput,
        UdtError::DgramIll(_) => IoKind::InvalidInput,
        UdtError::DupListen(_) => IoKind::AddrInUse,
        UdtError::LargeMsg(_) => IoKind::Other,
        UdtError::AsyncFail(_) => IoKind::WouldBlock,
        UdtError::AsyncSnd(_) => IoKind::WouldBlock,
        UdtError::AsyncRcv(_) => IoKind::WouldBlock,
        UdtError::Timeout(_) => IoKind::TimedOut,
        UdtError::PeerErr(_) => IoKind::Other,
    }
}

/// The error a would-block signal from a non-blocking operation arrives as.
pub open spec fn is_would_block(e: UdtError) -> bool {
    e is AsyncSnd || e is AsyncRcv
}

impl UdtError {
    /// Whether `code` is one of the native error codes.
    pub fn is_known_code(code: i32) -> (r: bool)
        ensures
            r == is_known_code(code),
    {
        match code {
            0 | 1000..=1004 | 2000..=2002 | 3000..=3002 | 4000..=4004 | 5000..=5012 | 6000..=6003
            | 7000 => true,
            _ => false,
        }
    }

    /// Builds the error for a native error code and its description.
    pub fn from_code(code: i32, desc: String) -> (r: UdtError)
        requires
            is_known_code(code),
        ensures
            code_of(r) == code,
            message_of(r) == desc@,
    {
        match code {
            0 => UdtError::Success(desc),
            1000 => UdtError::ConnSetup(desc),
            1001 => UdtError::NoServer(desc),
            1002 => UdtError::ConnRej(desc),
            1003 => UdtError::SockFail(desc),
            1004 => UdtError::SecFail(desc),
            2000 => UdtError::ConnFail(desc),
            2001 => UdtError::ConnLost(desc),
            2002 => UdtError::NoConn(desc),
            3000 => UdtError::Resource(desc),
            3001 => UdtError::Thread(desc),
            3002 => UdtError::NoBuf(desc),
            4000 => UdtError::File(desc),
            4001 => UdtError::InvRdOff(desc),
            4002 => UdtError::RdPerm(desc),
            4003 => UdtError::InvWrOff(desc),
            4004 => UdtError::WrPerm(desc),
            5000 => UdtError::InvOp(desc),
            5001 => UdtError::BoundSock(desc),
            5002 => UdtError::ConnSock(desc),
            5003 => UdtError::InvParam(desc),
            5004 => UdtError::InvSock(desc),
            5005 => UdtError::UnboundSock(desc),
            5006 => UdtError::NoListen(desc),
            5007 => UdtError::RdvNoServ(desc),
            5008 => UdtError::RdvUnbound(desc),
            5009 => UdtError::StreamIll(desc),
            5010 => UdtError::DgramIll(desc),
            5011 => UdtError::DupListen(desc),
            5012 => UdtError::LargeMsg(desc),
            6000 => UdtError::AsyncFail(desc),
            6001 => UdtError::AsyncSnd(desc),
            6002 => UdtError::AsyncRcv(desc),
            6003 => UdtError::Timeout(desc),
            _ => UdtError::PeerErr(desc),
        }
    }

    /// The native error code of this error.
    pub fn code(&self) -> (r: i32)
        ensures
            r == code_of(*self),
            is_known_code(r),
    {
        match self {
            UdtError::Success(_) => 0,
            UdtError::ConnSetup(_) => 1000,
            UdtError::NoServer(_) => 1001,
            UdtError::ConnRej(_) => 1002,
            UdtError::SockFail(_) => 1003,
            UdtError::SecFail(_) => 1004,
            UdtError::ConnFail(_) => 2000,
            UdtError::ConnLost(_) => 2001,
            UdtError::NoConn(_) => 2002,
            UdtError::Resource(_) => 3000,
            UdtError::Thread(_) => 3001,
            UdtError::NoBuf(_) => 3002,
            UdtError::File(_) => 4000,
            UdtError::InvRdOff(_) => 4001,
            UdtError::RdPerm(_) => 4002,
            UdtError::InvWrOff(_) => 4003,
            UdtError::WrPerm(_) => 4004,
            UdtError::InvOp(_) => 5000,
            UdtError::BoundSock(_) => 5001,
            UdtError::ConnSock(_) => 5002,
            UdtError::InvParam(_) => 5003,
            UdtError::InvSock(_) => 5004,
            UdtError::UnboundSock(_) => 5005,
            UdtError::NoListen(_) => 5006,
            UdtError::RdvNoServ(_) => 5007,
            UdtError::RdvUnbound(_) => 5008,
            UdtError::StreamIll(_) => 5009,
            UdtError::DgramIll(_) => 5010,
            UdtError::DupListen(_) => 5011,
            UdtError::LargeMsg(_) => 5012,
            UdtError::AsyncFail(_) => 6000,
            UdtError::AsyncSnd(_) => 6001,
            UdtError::AsyncRcv(_) => 6002,
            UdtError::Timeout(_) => 6003,
            UdtError::PeerErr(_) => 7000,
        }
    }

    /// The description this error carries, as its displayed text.
    pub fn message(&self) -> (r: String)
        ensures
            r@ == message_of(*self),
    {
        match self {
            UdtError::Success(m) => m.clone(),
            UdtError::ConnSetup(m) => m.clone(),
            UdtError::NoServer(m) => m.clone(),
            UdtError::ConnRej(m) => m.clone(),
            UdtError::SockFail(m) => m.clone(),
            UdtError::SecFail(m) => m.clone(),
            UdtError::ConnFail(m) => m.clone(),
            UdtError::ConnLost(m) => m.clone(),
            UdtError::NoConn(m) => m.clone(),
            UdtError::Resource(m) => m.clone(),
            UdtError::Thread(m) => m.clone(),
            UdtError::NoBuf(m) => m.clone(),
            UdtError::File(m) => m.clone(),
            UdtError::InvRdOff(m) => m.clone(),
            UdtError::RdPerm(m) => m.clone(),
            UdtError::InvWrOff(m) => m.clone(),
            UdtError::WrPerm(m) => m.clone(),
            UdtError::InvOp(m) => m.clone(),
            UdtError::BoundSock(m) => m.clone(),
            UdtError::ConnSock(m) => m.clone(),
            UdtError::InvParam(m) => m.clone(),
            UdtError::InvSock(m) => m.clone(),
            UdtError::UnboundSock(m) => m.clone(),
            UdtError::NoListen(m) => m.clone(),
            UdtError::RdvNoServ(m) => m.clone(),
            UdtError::RdvUnbound(m) => m.clone(),
            UdtError::StreamIll(m) => m.clone(),
            UdtError::DgramIll(m) => m.clone(),
            UdtError::DupListen(m) => m.clone(),
            UdtError::LargeMsg(m) => m.clone(),
            UdtError::AsyncFail(m) => m.clone(),
            UdtError::AsyncSnd(m) => m.clone(),
            UdtError::AsyncRcv(m) => m.clone(),
            UdtError::Timeout(m) => m.clone(),
            UdtError::PeerErr(m) => m.clone(),
        }
    }

    /// The I/O class this error is reported under.
    pub fn io_kind(&self) -> (r: IoKind)
        ensures
            r == kind_of(*self),
    {
        match self {
            UdtError::Success(_) => IoKind::Other,
            UdtError::ConnSetup(_) => IoKind::ConnectionRefused,
            UdtError::NoServer(_) => IoKind::ConnectionRefused,
            UdtError::ConnRej(_) => IoKind::ConnectionRefused,
            UdtError::SockFail(_) => IoKind::AddrNotAvailable,
            UdtError::SecFail(_) => IoKind::ConnectionRefused,
            UdtError::ConnFail(_) => IoKind::ConnectionRefused,
            UdtError::ConnLost(_) => IoKind::ConnectionAborted,
            UdtError::NoConn(_) => IoKind::NotConnected,
            UdtError::Resource(_) => IoKind::Other,
            UdtError::Thread(_) => IoKind::Other,
            UdtError::NoBuf(_) => IoKind::Other,
            UdtError::File(_) => IoKind::NotFound,
            UdtError::InvRdOff(_) => IoKind::InvalidInput,
            UdtError::RdPerm(_) => IoKind::PermissionDenied,
            UdtError::InvWrOff(_) => IoKind::InvalidInput,
            UdtError::WrPerm(_) => IoKind::PermissionDenied,
            UdtError::InvOp(_) => IoKind::InvalidInput,
            UdtError::BoundSock(_) => IoKind::AddrInUse,
            UdtError::ConnSock(_) => IoKind::AddrInUse,
            UdtError::InvParam(_) => IoKind::InvalidInput,
            UdtError::InvSock(_) => IoKind::AddrNotAvailable,
            UdtError::UnboundSock(_) => IoKind::NotConnected,
            UdtError::NoListen(_) => IoKind::InvalidInput,
            UdtError::RdvNoServ(_) => IoKind::ConnectionRefused,
            UdtError::RdvUnbound(_) => IoKind::ConnectionRefused,
            UdtError::StreamIll(_) => IoKind::InvalidInput,
            UdtError::DgramIll(_) => IoKind::InvalidInput,
            UdtError::DupListen(_) => IoKind::AddrInUse,
            UdtError::LargeMsg(_) => IoKind::Other,
            UdtError::AsyncFail(_) => IoKind::WouldBlock,
            UdtError::AsyncSnd(_) => IoKind::WouldBlock,
            UdtError::AsyncRcv(_) => IoKind::WouldBlock,
            UdtError::Timeout(_) => IoKind::TimedOut,
            UdtError::PeerErr(_) => IoKind::Other,
        }
    }
}

/// Turns the transport library's last error code into a result: code 0 means
/// that the failed-looking call succeeded after all, and `ok` is returned.
pub fn get_error<T>(ok: T, code: i32, desc: String) -> (r: Result<T, UdtError>)
    requires
        is_known_code(code),
    ensures
        code == 0 ==> r == Ok::<T, UdtError>(ok),
        code != 0 ==> (r matches Err(e) && code_of(e) == code && message_of(e) == desc@),
{
    match UdtError::from_code(code, desc) {
        UdtError::Success(_) => Ok(ok),
        e => Err(e),
    }
}

} // verus!
