use vstd::prelude::*;

use crate::error::UdtError;

verus! {

/// A socket option a builder applies to the sockets it makes.
#[derive(Clone, Copy, Debug, PartialEq, Eq, Structural)]
pub enum UdtSockOpt {
    Mss(i32),
    SndSyn(bool),
    RcvSyn(bool),
    Fc(i32),
    SndBuf(i32),
    RcvBuf(i32),
    Linger(i32),
    Rendezvous(bool),
    SndTimeo(i32),
    RcvTimeo(i32),
    ReuseAddr(bool),
    MaxBW(i64),
}

/// What configuring a socket does next.
pub enum ConfigStep {
    /// Apply this option to the socket, then ask again with one more applied.
    Apply(UdtSockOpt),
    /// Configuring is over, with this outcome.
    Done(Result<(), UdtError>),
}

/// The step of configuring a socket with `opts` once `applied` of them went
/// through and the latest attempt had outcome `last`: options are applied in
/// order, and the first failure ends it.
pub open spec fn config_step(opts: Seq<UdtSockOpt>, applied: int, last: Result<(), UdtError>) -> ConfigStep {
    match last {
        Err(e) => ConfigStep::Done(Err(e)),
        Ok(()) => if 0 <= applied < opts.len() {
            ConfigStep::Apply(opts[applied])
        } else {
            ConfigStep::Done(Ok(()))
        },
    }
}

/// The next option to apply, from a list of them.
fn next_option(opts: &Vec<UdtSockOpt>, applied: usize, last: Result<(), UdtError>) -> (r: ConfigStep)
    ensures
        r == config_step(opts@, applied as int, last),
{
    match last {
        Err(e) => ConfigStep::Done(Err(e)),
        Ok(()) => if applied < opts.len() {
            ConfigStep::Apply(opts[applied])
        } else {
            ConfigStep::Done(Ok(()))
        },
    }
}

/// Makes blocking sockets, with the options given to it applied in the order
/// they were given.
pub struct UdtBuilder {
    opt_vec: Vec<UdtSockOpt>,
}

/// Makes non-blocking sockets for use with futures: receive and send are made
/// non-blocking first, then the options given to it are applied in order.
pub struct UdtAsyncBuilder {
    opt_vec: Vec<UdtSockOpt>,
}

/// A builder with no options.
pub fn builder() -> (r: UdtBuilder)
    ensures
        r@ == Seq::<UdtSockOpt>::empty(),
{
    UdtBuilder { opt_vec: Vec::new() }
}

/// A builder whose sockets have non-blocking receive and send.
pub fn async_builder() -> (r: UdtAsyncBuilder)
    ensures
        r@ == seq![UdtSockOpt::RcvSyn(false), UdtSockOpt::SndSyn(false)],
{
    let mut opt_vec: Vec<UdtSockOpt> = Vec::new();
    opt_vec.push(UdtSockOpt::RcvSyn(false));
    opt_vec.push(UdtSockOpt::SndSyn(false));
    assert(opt_vec@ =~= seq![UdtSockOpt::RcvSyn(false), UdtSockOpt::SndSyn(false)]);
    UdtAsyncBuilder { opt_vec }
}

impl View for UdtBuilder {
    type V = Seq<UdtSockOpt>;

    /// The options, in the order they are applied.
    closed spec fn view(&self) -> Seq<UdtSockOpt> {
        self.opt_vec@
    }
}

impl UdtBuilder {
    /// Adds the maximum segment size to the options.
    pub fn set_mss(self, val: i32) -> (r: Self)
        ensures
            r@ == self@.push(UdtSockOpt::Mss(val)),
    {
        let mut opt_vec = self.opt_vec;
        opt_vec.push(UdtSockOpt::Mss(val));
        Self { opt_vec }
    }

    /// Adds whether sends block to the options.
    pub fn set_snd_syn(self, val: bool) -> (r: Self)
        ensures
            r@ == self@.push(UdtSockOpt::SndSyn(val)),
    {
        let mut opt_vec = self.opt_vec;
        opt_vec.push(UdtSockOpt::SndSyn(val));
        Self { opt_vec }
    }

    /// Adds whether receives block to the options.
    pub fn set_rcv_syn(self, val: bool) -> (r: Self)
        ensures
            r@ == self@.push(UdtSockOpt::RcvSyn(val)),
    {
        let mut opt_vec = self.opt_vec;
        opt_vec.push(UdtSockOpt::RcvSyn(val));
        Self { opt_vec }
    }

    /// Adds the flow-control window to the options.
    pub fn set_fc(self, val: i32) -> (r: Self)
        ensures
            r@ == self@.push(UdtSockOpt::Fc(val)),
    {
        let mut opt_vec = self.opt_vec;
        opt_vec.push(UdtSockOpt::Fc(val));
        Self { opt_vec }
    }

    /// Adds the send buffer size to the options.
    pub fn set_snd_fuf(self, val: i32) -> (r: Self)
        ensures
            r@ == self@.push(UdtSockOpt::SndBuf(val)),
    {
        let mut opt_vec = self.opt_vec;
        opt_vec.push(UdtSockOpt::SndBuf(val));
        Self { opt_vec }
    }

    /// Adds the receive buffer size to the options.
    pub fn set_rcv_buf(self, val: i32) -> (r: Self)
        ensures
            r@ == self@.push(UdtSockOpt::RcvBuf(val)),
    {
        let mut opt_vec = self.opt_vec;
        opt_vec.push(UdtSockOpt::RcvBuf(val));
        Self { opt_vec }
    }

    /// Adds the linger time on close to the options.
    pub fn set_linger(self, val: i32) -> (r: Self)
        ensures
            r@ == self@.push(UdtSockOpt::Linger(val)),
    {
        let mut opt_vec = self.opt_vec;
        opt_vec.push(UdtSockOpt::Linger(val));
        Self { opt_vec }
    }

    /// Adds rendezvous connection setup to the options.
    pub fn set_rendezvous(self, val: bool) -> (r: Self)
        ensures
            r@ == self@.push(UdtSockOpt::Rendezvous(val)),
    {
        let mut opt_vec = self.opt_vec;
        opt_vec.push(UdtSockOpt::Rendezvous(val));
        Self { opt_vec }
    }

    /// Adds the send timeout to the options.
    pub fn set_snd_timeo(self, val: i32) -> (r: Self)
        ensures
            r@ == self@.push(UdtSockOpt::SndTimeo(val)),
    {
        let mut opt_vec = self.opt_vec;
        opt_vec.push(UdtSockOpt::SndTimeo(val));
        Self { opt_vec }
    }

    /// Adds the receive timeout to the options.
    pub fn set_rcv_timeo(self, val: i32) -> (r: Self)
        ensures
            r@ == self@.push(UdtSockOpt::RcvTimeo(val)),
    {
        let mut opt_vec = self.opt_vec;
        opt_vec.push(UdtSockOpt::RcvTimeo(val));
        Self { opt_vec }
    }

    /// Adds address reuse to the options.
    pub fn set_reuse_addr(self, val: bool) -> (r: Self)
        ensures
            r@ == self@.push(UdtSockOpt::ReuseAddr(val)),
    {
        let mut opt_vec = self.opt_vec;
        opt_vec.push(UdtSockOpt::ReuseAddr(val));
        Self { opt_vec }
    }

    /// Adds the bandwidth cap to the options.
    pub fn set_max_bw(self, val: i64) -> (r: Self)
        ensures
            r@ == self@.push(UdtSockOpt::MaxBW(val)),
    {
        let mut opt_vec = self.opt_vec;
        opt_vec.push(UdtSockOpt::MaxBW(val));
        Self { opt_vec }
    }

    /// Decides the next step of configuring a new socket, given how many
    /// options were applied so far and the outcome of the latest attempt.
    pub fn config_socket(&self, applied: usize, last: Result<(), UdtError>) -> (r: ConfigStep)
        ensures
            r == config_step(self@, applied as int, last),
    {
        next_option(&self.opt_vec, applied, last)
    }
}

impl View for UdtAsyncBuilder {
    type V = Seq<UdtSockOpt>;

    /// The options, in the order they are applied.
    closed spec fn view(&self) -> Seq<UdtSockOpt> {
        self.opt_vec@
    }
}

impl UdtAsyncBuilder {
    /// Adds the maximum segment size to the options.
    pub fn set_mss(self, val: i32) -> (r: Self)
        ensures
            r@ == self@.push(UdtSockOpt::Mss(val)),
    {
        let mut opt_vec = self.opt_vec;
        opt_vec.push(UdtSockOpt::Mss(val));
        Self { opt_vec }
    }

    /// Adds the flow-control window to the options.
    pub fn set_fc(self, val: i32) -> (r: Self)
        ensures
            r@ == self@.push(UdtSockOpt::Fc(val)),
    {
        let mut opt_vec = self.opt_vec;
        opt_vec.push(UdtSockOpt::Fc(val));
        Self { opt_vec }
    }

    /// Adds the send buffer size to the options.
    pub fn set_snd_fuf(self, val: i32) -> (r: Self)
        ensures
            r@ == self@.push(UdtSockOpt::SndBuf(val)),
    {
        let mut opt_vec = self.opt_vec;
        opt_vec.push(UdtSockOpt::SndBuf(val));
        Self { opt_vec }
    }

    /// Adds the receive buffer size to the options.
    pub fn set_rcv_buf(self, val: i32) -> (r: Self)
        ensures
            r@ == self@.push(UdtSockOpt::RcvBuf(val)),
    {
        let mut opt_vec = self.opt_vec;
        opt_vec.push(UdtSockOpt::RcvBuf(val));
        Self { opt_vec }
    }

    /// Adds the linger time on close to the options.
    pub fn set_linger(self, val: i32) -> (r: Self)
        ensures
            r@ == self@.push(UdtSockOpt::Linger(val)),
    {
        let mut opt_vec = self.opt_vec;
        opt_vec.push(UdtSockOpt::Linger(val));
        Self { opt_vec }
    }

    /// Adds rendezvous connection setup to the options.
    pub fn set_rendezvous(self, val: bool) -> (r: Self)
        ensures
            r@ == self@.push(UdtSockOpt::Rendezvous(val)),
    {
        let mut opt_vec = self.opt_vec;
        opt_vec.push(UdtSockOpt::Rendezvous(val));
        Self { opt_vec }
    }

    /// Adds the send timeout to the options.
    pub fn set_snd_timeo(self, val: i32) -> (r: Self)
        ensures
            r@ == self@.push(UdtSockOpt::SndTimeo(val)),
    {
        let mut opt_vec = self.opt_vec;
        opt_vec.push(UdtSockOpt::SndTimeo(val));
        Self { opt_vec }
    }

    /// Adds the receive timeout to the options.
    pub fn set_rcv_timeo(self, val: i32) -> (r: Self)
        ensures
            r@ == self@.push(UdtSockOpt::RcvTimeo(val)),
    {
        let mut opt_vec = self.opt_vec;
        opt_vec.push(UdtSockOpt::RcvTimeo(val));
        Self { opt_vec }
    }

    /// Adds address reuse to the options.
    pub fn set_reuse_addr(self, val: bool) -> (r: Self)
        ensures
            r@ == self@.push(UdtSockOpt::ReuseAddr(val)),
    {
        let mut opt_vec = self.opt_vec;
        opt_vec.push(UdtSockOpt::ReuseAddr(val));
        Self { opt_vec }
    }

    /// Adds the bandwidth cap to the options.
    pub fn set_max_bw(self, val: i64) -> (r: Self)
        ensures
            r@ == self@.push(UdtSockOpt::MaxBW(val)),
    {
        let mut opt_vec = self.opt_vec;
        opt_vec.push(UdtSockOpt::MaxBW(val));
        Self { opt_vec }
    }

    /// Decides the next step of configuring a new socket, given how many
    /// options were applied so far and the outcome of the latest attempt.
    pub fn config_socket(&self, applied: usize, last: Result<(), UdtError>) -> (r: ConfigStep)
        ensures
            r == config_step(self@, applied as int, last),
    {
        next_option(&self.opt_vec, applied, last)
    }
}

} // verus!
