use vstd::prelude::*;

use crate::error::UdtError;
use crate::socket::{Interest, UdtSocket, INVALID_SOCK};

verus! {

/// What a multiplexer holds: its native handle and the sockets registered
/// under each interest.
pub struct EpollView {
    pub id: i32,
    pub read: Set<i32>,
    pub write: Set<i32>,
}

/// The bookkeeping of a native readiness set: which sockets are registered for
/// read and for write readiness, and how many of each, since a wait sizes its
/// result buffers from those two counters.
pub struct Epoll {
    id: i32,
    num_rd_sock: usize,
    num_wr_sock: usize,
    rd_socks: Vec<i32>,
    wr_socks: Vec<i32>,
}

impl View for Epoll {
    type V = EpollView;

    closed spec fn view(&self) -> EpollView {
        EpollView { id: self.id, read: self.rd_socks@.to_set(), write: self.wr_socks@.to_set() }
    }
}

/// The sockets registered under `interest`.
pub open spec fn registered(v: EpollView, interest: Interest) -> Set<i32> {
    match interest {
        Interest::Read => v.read,
        Interest::Write => v.write,
    }
}

/// What a wait hands back of a result buffer: the entries the native call
/// reported as filled.
pub open spec fn ready_prefix(buf: Seq<i32>, len: i32) -> Seq<i32> {
    if 0 <= len && len < buf.len() {
        buf.subrange(0, len as int)
    } else {
        buf
    }
}

/// Position of `x` in `v`, if it is there.
fn position(v: &Vec<i32>, x: i32) -> (r: Option<usize>)
    ensures
        r matches Some(i) ==> i < v.len() && v@[i as int] == x,
        r is None ==> !v@.contains(x),
{
    let mut i: usize = 0;
    while i < v.len()
        invariant
            i <= v.len(),
            forall|j: int| 0 <= j < i ==> v@[j] != x,
        decreases v.len() - i,
    {
        if v[i] == x {
            return Some(i);
        }
        i = i + 1;
    }
    None
}

/// A buffer of `n` entries, each the invalid socket identifier.
fn invalid_buffer(n: usize) -> (r: Vec<i32>)
    ensures
        r@ == Seq::new(n as nat, |_i: int| INVALID_SOCK),
{
    let mut v: Vec<i32> = Vec::new();
    let mut i: usize = 0;
    while i < n
        invariant
            i <= n,
            v@ == Seq::new(i as nat, |_i: int| INVALID_SOCK),
        decreases n - i,
    {
        v.push(INVALID_SOCK);
        i = i + 1;
        assert(v@ =~= Seq::new(i as nat, |_i: int| INVALID_SOCK));
    }
    v
}

/// Adds `x` to a duplicate-free list unless it is already there.
fn insert_unique(v: &mut Vec<i32>, x: i32) -> (added: bool)
    requires
        old(v)@.no_duplicates(),
        old(v).len() < usize::MAX,
    ensures
        final(v)@.no_duplicates(),
        final(v)@.to_set() == old(v)@.to_set().insert(x),
        added == !old(v)@.contains(x),
        final(v).len() == if added { (old(v).len() + 1) as usize } else { old(v).len() },
{
    match position(v, x) {
        Some(_) => {
            assert(old(v)@.to_set().insert(x) =~= old(v)@.to_set());
            false
        },
        None => {
            v.push(x);
            assert(final(v)@ == old(v)@.push(x));
            proof {
                old(v)@.lemma_push_to_set_commute(x);
            }
            assert forall|i: int, j: int|
                0 <= i < final(v).len() && 0 <= j < final(v).len() && i != j implies final(v)@[i]
                != final(v)@[j] by {
                if i == old(v).len() as int {
                    assert(old(v)@.contains(final(v)@[j]));
                } else if j == old(v).len() as int {
                    assert(old(v)@.contains(final(v)@[i]));
                }
            }
            true
        },
    }
}

/// Takes `x` out of a duplicate-free list if it is there.
fn remove_unique(v: &mut Vec<i32>, x: i32) -> (removed: bool)
    requires
        old(v)@.no_duplicates(),
    ensures
        final(v)@.no_duplicates(),
        final(v)@.to_set() == old(v)@.to_set().remove(x),
        removed == old(v)@.contains(x),
        final(v).len() == if removed { (old(v).len() - 1) as usize } else { old(v).len() },
{
    match position(v, x) {
        Some(i) => {
            let ghost s = v@;
            v.remove(i);
            assert(final(v)@ == s.remove(i as int));
            assert(old(v)@.contains(x));
            assert forall|y: i32| final(v)@.contains(y) <==> s.to_set().remove(x).contains(y) by {
                if final(v)@.contains(y) {
                    let k = choose|k: int| 0 <= k < final(v).len() && final(v)@[k] == y;
                    if k < i {
                        assert(s[k] == y);
                    } else {
                        assert(s[k + 1] == y);
                    }
                    assert(s.contains(y));
                }
                if s.to_set().remove(x).contains(y) {
                    let k = choose|k: int| 0 <= k < s.len() && s[k] == y;
                    assert(k != i);
                    if k < i {
                        assert(final(v)@[k] == y);
                    } else {
                        assert(final(v)@[k - 1] == y);
                    }
                }
            }
            assert(final(v)@.to_set() =~= s.to_set().remove(x));
            true
        },
        None => {
            assert(old(v)@.to_set().remove(x) =~= old(v)@.to_set());
            false
        },
    }
}

impl Epoll {
    /// The multiplexer holds a counter per interest equal to the number of
    /// sockets registered under it.
    pub closed spec fn wf(&self) -> bool {
        &&& self.rd_socks@.no_duplicates()
        &&& self.wr_socks@.no_duplicates()
        &&& self.num_rd_sock == self.rd_socks.len()
        &&& self.num_wr_sock == self.wr_socks.len()
    }

    /// The counter of sockets registered for `interest`.
    pub closed spec fn counter(&self, interest: Interest) -> nat {
        match interest {
            Interest::Read => self.num_rd_sock as nat,
            Interest::Write => self.num_wr_sock as nat,
        }
    }

    /// For every interleaving of registrations and deregistrations, each
    /// counter equals the number of sockets currently registered under its
    /// interest.
    pub proof fn lemma_counters_match_registrations(&self, interest: Interest)
        requires
            self.wf(),
        ensures
            self.counter(interest) == registered(self@, interest).len(),
            registered(self@, interest).finite(),
    {
        self.rd_socks@.unique_seq_to_set();
        self.wr_socks@.unique_seq_to_set();
    }

    /// A multiplexer over the native readiness set `id`, with nothing registered.
    pub fn new(id: i32) -> (r: Epoll)
        ensures
            r.wf(),
            r@.id == id,
            r@.read == Set::<i32>::empty(),
            r@.write == Set::<i32>::empty(),
            r.counter(Interest::Read) == 0,
            r.counter(Interest::Write) == 0,
    {
        let r = Epoll { id, num_rd_sock: 0, num_wr_sock: 0, rd_socks: Vec::new(), wr_socks: Vec::new() };
        assert(r@.read =~= Set::<i32>::empty());
        assert(r@.write =~= Set::<i32>::empty());
        r
    }

    /// The native readiness set's handle.
    pub fn id(&self) -> (r: i32)
        ensures
            r == self@.id,
    {
        self.id
    }

    /// How many sockets are registered for `interest`.
    pub fn num_registered(&self, interest: Interest) -> (r: usize)
        requires
            self.wf(),
        ensures
            r == self.counter(interest),
            r == registered(self@, interest).len(),
    {
        proof {
            self.lemma_counters_match_registrations(interest);
        }
        match interest {
            Interest::Read => self.num_rd_sock,
            Interest::Write => self.num_wr_sock,
        }
    }

    /// Records the native registration of `socket` for `interest`, given the
    /// native call's outcome: on success the socket joins that interest's set
    /// and the counter follows; on failure nothing changes and the error is
    /// returned.
    pub fn add(&mut self, socket: &UdtSocket, interest: Interest, outcome: Result<(), UdtError>) -> (r:
        Result<(), UdtError>)
        requires
            old(self).wf(),
            old(self).counter(interest) < usize::MAX,
        ensures
            final(self).wf(),
            r == outcome,
            final(self)@.id == old(self)@.id,
            outcome is Err ==> final(self)@ == old(self)@,
            outcome is Ok ==> registered(final(self)@, interest) == registered(old(self)@, interest).insert(
                socket.id,
            ),
            outcome is Ok ==> registered(final(self)@, other(interest)) == registered(
                old(self)@,
                other(interest),
            ),
            final(self).counter(interest) == registered(final(self)@, interest).len(),
            final(self).counter(other(interest)) == registered(final(self)@, other(interest)).len(),
    {
        if outcome.is_ok() {
            match interest {
                Interest::Read => {
                    if insert_unique(&mut self.rd_socks, socket.id) {
                        self.num_rd_sock = self.num_rd_sock + 1;
                    }
                },
                Interest::Write => {
                    if insert_unique(&mut self.wr_socks, socket.id) {
                        self.num_wr_sock = self.num_wr_sock + 1;
                    }
                },
            }
        }
        proof {
            self.lemma_counters_match_registrations(interest);
            self.lemma_counters_match_registrations(other(interest));
        }
        outcome
    }

    /// Records the native deregistration of `socket`, given the native call's
    /// outcome: on success the socket leaves both sets and each counter it was
    /// counted in drops by one; on failure nothing changes.
    pub fn remove(&mut self, socket: &UdtSocket, outcome: Result<(), UdtError>) -> (r: Result<(), UdtError>)
        requires
            old(self).wf(),
        ensures
            final(self).wf(),
            r == outcome,
            final(self)@.id == old(self)@.id,
            outcome is Err ==> final(self)@ == old(self)@,
            outcome is Ok ==> final(self)@.read == old(self)@.read.remove(socket.id),
            outcome is Ok ==> final(self)@.write == old(self)@.write.remove(socket.id),
            final(self).counter(Interest::Read) == final(self)@.read.len(),
            final(self).counter(Interest::Write) == final(self)@.write.len(),
    {
        if outcome.is_ok() {
            if remove_unique(&mut self.rd_socks, socket.id) {
                self.num_rd_sock = self.num_rd_sock - 1;
            }
            if remove_unique(&mut self.wr_socks, socket.id) {
                self.num_wr_sock = self.num_wr_sock - 1;
            }
        }
        proof {
            self.lemma_counters_match_registrations(Interest::Read);
            self.lemma_counters_match_registrations(Interest::Write);
        }
        outcome
    }

    /// The result buffers for a wait: one entry per socket registered for
    /// read, one per socket registered for write, each preset to the invalid
    /// identifier.
    pub fn wait_buffers(&self) -> (r: (Vec<i32>, Vec<i32>))
        requires
            self.wf(),
        ensures
            r.0@ == Seq::new(self@.read.len(), |_i: int| INVALID_SOCK),
            r.1@ == Seq::new(self@.write.len(), |_i: int| INVALID_SOCK),
    {
        proof {
            self.lemma_counters_match_registrations(Interest::Read);
            self.lemma_counters_match_registrations(Interest::Write);
        }
        (invalid_buffer(self.num_rd_sock), invalid_buffer(self.num_wr_sock))
    }

    /// The readiness sets a wait produced, given the native call's outcome and
    /// how many entries of each buffer it filled.
    pub fn wait_result(
        &self,
        outcome: Result<(), UdtError>,
        rd: Vec<i32>,
        rd_len: i32,
        wr: Vec<i32>,
        wr_len: i32,
    ) -> (r: Result<(Vec<i32>, Vec<i32>), UdtError>)
        ensures
            outcome matches Err(e) ==> r == Err::<(Vec<i32>, Vec<i32>), UdtError>(e),
            outcome is Ok ==> (r matches Ok(sets) && sets.0@ == ready_prefix(rd@, rd_len) && sets.1@
                == ready_prefix(wr@, wr_len)),
    {
        match outcome {
            Err(e) => Err(e),
            Ok(()) => {
                let mut rd = rd;
                let mut wr = wr;
                if 0 <= rd_len {
                    rd.truncate(rd_len as usize);
                }
                if 0 <= wr_len {
                    wr.truncate(wr_len as usize);
                }
                Ok((rd, wr))
            },
        }
    }
}

/// The interest that is not `interest`.
pub open spec fn other(interest: Interest) -> Interest {
    match interest {
        Interest::Read => Interest::Write,
        Interest::Write => Interest::Read,
    }
}

} // verus!
