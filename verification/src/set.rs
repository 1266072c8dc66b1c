//! Socket management by a socket set: timeout-bounded readiness multiplexing
//! over a collection of TCP and UDP sockets.

use vstd::prelude::*;
use vstd::assert_seqs_equal;
use vstd::pervasive::unreached;
use crate::Net;
use crate::NetError;
use crate::SocketAddress;
use crate::sock::TcpSocket;
use crate::sock::UdpSocket;

verus! {

/// The most sockets a set's multiplexing storage can ever hold: the
/// underlying allocation call takes a signed 32-bit count.
pub const MAX_SET_CAPACITY: usize = 0x7fff_ffff;

/// A socket registered in a set, tagged by transport.
#[derive(Debug)]
pub enum GeneralSocket {
    /// A TCP socket.
    Tcp(TcpSocket),
    /// A UDP socket.
    Udp(UdpSocket),
}

impl GeneralSocket {
    /// The identity of the socket's transport handle.
    pub open spec fn spec_handle(self) -> u64 {
        match self {
            GeneralSocket::Tcp(t) => t.handle,
            GeneralSocket::Udp(u) => u.handle,
        }
    }

    /// Whether the socket has something waiting to be read: a pending
    /// connection attempt for TCP, a waiting datagram for UDP.
    pub open spec fn spec_ready(self) -> bool {
        match self {
            GeneralSocket::Tcp(t) => t.pending@.len() > 0,
            GeneralSocket::Udp(u) => u.inbox@.len() > 0,
        }
    }

    /// The identity of the socket's transport handle.
    pub fn handle(&self) -> (h: u64)
        ensures
            h == self.spec_handle(),
    {
        match self {
            GeneralSocket::Tcp(t) => t.handle,
            GeneralSocket::Udp(u) => u.handle,
        }
    }

    /// Whether the socket has something waiting to be read.
    pub fn ready(&self) -> (r: bool)
        ensures
            r == self.spec_ready(),
    {
        match self {
            GeneralSocket::Tcp(t) => t.pending.len() > 0,
            GeneralSocket::Udp(u) => u.inbox.len() > 0,
        }
    }
}

/// Whether `g` is a TCP socket whose transport handle is `h`.
pub open spec fn is_tcp_handle(g: GeneralSocket, h: u64) -> bool {
    g matches GeneralSocket::Tcp(t) && t.handle == h
}

/// Whether `g` is a UDP socket whose transport handle is `h`.
pub open spec fn is_udp_handle(g: GeneralSocket, h: u64) -> bool {
    g matches GeneralSocket::Udp(u) && u.handle == h
}

/// How many sockets of `s` have something waiting to be read.
pub open spec fn ready_count(s: Seq<GeneralSocket>) -> nat
    decreases s.len(),
{
    if s.len() == 0 {
        0
    } else {
        ready_count(s.drop_last()) + if s.last().spec_ready() {
            1nat
        } else {
            0nat
        }
    }
}

/// A socket set: multiplexing storage of a fixed capacity, together with the
/// sockets registered in it.  The set owns its registered sockets — they are
/// moved in by push and moved back out by remove — so no other owner can
/// close a socket while the multiplexing storage still refers to it.
#[derive(Debug)]
pub struct SocketSet {
    /// How many sockets the multiplexing storage has room for.
    pub cap: usize,
    /// The handle identities registered in the multiplexing storage, in
    /// registration order.  Kept equal, slot for slot, to the handles of
    /// `sockets`: that equality is what makes readiness reports trustworthy.
    pub mux: Vec<u64>,
    /// The registered sockets, in registration order.
    pub sockets: Vec<GeneralSocket>,
}

/// The relation a grown set bears to the set before [`SocketSet::reserve`]:
/// same sockets, same registrations, capacity raised to hold `needed`.
pub open spec fn reserve_post(pre: SocketSet, needed: int, post: SocketSet) -> bool {
    &&& post.sockets@ == pre.sockets@
    &&& post.mux@ == pre.mux@
    &&& post.cap == if needed <= pre.cap {
        pre.cap as int
    } else {
        needed
    }
}

/// The relation [`SocketSet::push_tcp`] establishes between the set before
/// and after: the socket is appended to the registry and registered in the
/// multiplexing storage, which grows first when it was full.
pub open spec fn push_tcp_post(pre: SocketSet, t: TcpSocket, post: SocketSet) -> bool {
    &&& post.sockets@ == pre.sockets@.push(GeneralSocket::Tcp(t))
    &&& post.mux@ == pre.mux@.push(t.handle)
    &&& post.cap == if pre.sockets@.len() < pre.cap {
        pre.cap as int
    } else {
        pre.sockets@.len() + 1int
    }
}

/// The relation [`SocketSet::push_udp`] establishes between the set before
/// and after; the counterpart of [`push_tcp_post`].
pub open spec fn push_udp_post(pre: SocketSet, u: UdpSocket, post: SocketSet) -> bool {
    &&& post.sockets@ == pre.sockets@.push(GeneralSocket::Udp(u))
    &&& post.mux@ == pre.mux@.push(u.handle)
    &&& post.cap == if pre.sockets@.len() < pre.cap {
        pre.cap as int
    } else {
        pre.sockets@.len() + 1int
    }
}

/// The relation [`SocketSet::remove_tcp`] establishes: the first registered
/// TCP socket with handle `h`, if any, leaves both the registry and the
/// multiplexing storage and is handed back; otherwise nothing changes.
pub open spec fn remove_tcp_post(
    pre: SocketSet,
    h: u64,
    post: SocketSet,
    r: Option<TcpSocket>,
) -> bool {
    &&& post.cap == pre.cap
    &&& (r is Some <==> exists|j: int|
        0 <= j < pre.sockets@.len() && is_tcp_handle(pre.sockets@[j], h))
    &&& (r is None ==> post.sockets@ == pre.sockets@ && post.mux@ == pre.mux@)
    &&& (r matches Some(t) ==> exists|i: int|
        {
            &&& 0 <= i < pre.sockets@.len()
            &&& is_tcp_handle(pre.sockets@[i], h)
            &&& forall|j: int| 0 <= j < i ==> !is_tcp_handle(pre.sockets@[j], h)
            &&& pre.sockets@[i] == GeneralSocket::Tcp(t)
            &&& post.sockets@ == pre.sockets@.remove(i)
            &&& post.mux@ == pre.mux@.remove(i)
        })
}

/// The relation [`SocketSet::remove_udp`] establishes; the counterpart of
/// [`remove_tcp_post`].
pub open spec fn remove_udp_post(
    pre: SocketSet,
    h: u64,
    post: SocketSet,
    r: Option<UdpSocket>,
) -> bool {
    &&& post.cap == pre.cap
    &&& (r is Some <==> exists|j: int|
        0 <= j < pre.sockets@.len() && is_udp_handle(pre.sockets@[j], h))
    &&& (r is None ==> post.sockets@ == pre.sockets@ && post.mux@ == pre.mux@)
    &&& (r matches Some(u) ==> exists|i: int|
        {
            &&& 0 <= i < pre.sockets@.len()
            &&& is_udp_handle(pre.sockets@[i], h)
            &&& forall|j: int| 0 <= j < i ==> !is_udp_handle(pre.sockets@[j], h)
            &&& pre.sockets@[i] == GeneralSocket::Udp(u)
            &&& post.sockets@ == pre.sockets@.remove(i)
            &&& post.mux@ == pre.mux@.remove(i)
        })
}

impl SocketSet {
    /// The set's invariant: the multiplexing storage holds exactly the
    /// handles of the registered sockets, slot for slot; the registry fits
    /// the capacity; the capacity fits the allocation call; and every
    /// registered UDP socket has its full channel table.
    pub open spec fn wf(self) -> bool {
        &&& self.mux@.len() == self.sockets@.len()
        &&& forall|i: int|
            0 <= i < self.sockets@.len() ==> self.mux@[i] == self.sockets@[i].spec_handle()
        &&& self.sockets@.len() <= self.cap
        &&& self.cap <= MAX_SET_CAPACITY
        &&& forall|i: int|
            0 <= i < self.sockets@.len() ==> (#[trigger] self.sockets@[i] matches
            GeneralSocket::Udp(u) ==> u.wf())
    }

    /// A set with room for one socket.
    pub fn new(net: &Net) -> (s: SocketSet)
        ensures
            s.wf(),
            s.cap == 1,
            s.sockets@ == Seq::<GeneralSocket>::empty(),
            s.mux@ == Seq::<u64>::empty(),
    {
        let _ = net;
        SocketSet { cap: 1, mux: Vec::new(), sockets: Vec::new() }
    }

    /// A set with room for `cap` sockets.  Fails exactly when the capacity
    /// exceeds what the allocation call can be asked for.
    pub fn with_capacity(net: &Net, cap: usize) -> (r: Result<SocketSet, NetError>)
        ensures
            cap <= MAX_SET_CAPACITY ==> (r matches Ok(s) && s.wf() && s.cap == cap && s.sockets@
                == Seq::<GeneralSocket>::empty() && s.mux@ == Seq::<u64>::empty()),
            cap > MAX_SET_CAPACITY ==> r == Err::<SocketSet, NetError>(NetError::AllocFailed),
    {
        let _ = net;
        if cap > MAX_SET_CAPACITY {
            Err(NetError::AllocFailed)
        } else {
            Ok(SocketSet { cap, mux: Vec::new(), sockets: Vec::new() })
        }
    }

    /// Makes room for at least `additional` sockets beyond those registered:
    /// the multiplexing storage is reallocated at the larger capacity and
    /// every registered socket is registered anew in it, so readiness keeps
    /// being reported for all of them.
    pub fn reserve(&mut self, additional: usize)
        requires
            old(self).wf(),
            old(self).sockets@.len() + additional <= MAX_SET_CAPACITY,
        ensures
            final(self).wf(),
            reserve_post(*old(self), old(self).sockets@.len() + additional, *final(self)),
    {
        let needed = self.sockets.len() + additional;
        if needed > self.cap {
            self.cap = needed;
        }
        let mut fresh: Vec<u64> = Vec::new();
        let mut i: usize = 0;
        while i < self.sockets.len()
            invariant
                i <= self.sockets@.len(),
                fresh@.len() == i,
                forall|j: int| 0 <= j < i ==> fresh@[j] == self.sockets@[j].spec_handle(),
            decreases self.sockets@.len() - i,
        {
            let h = self.sockets[i].handle();
            fresh.push(h);
            i = i + 1;
        }
        proof {
            assert_seqs_equal!(fresh@ == old(self).mux@);
        }
        self.mux = fresh;
    }

    /// Registers a TCP socket, growing the set first when it is full.  The
    /// set owns the socket until [`SocketSet::remove_tcp`] hands it back.
    pub fn push_tcp(&mut self, tcp: TcpSocket)
        requires
            old(self).wf(),
            old(self).sockets@.len() < MAX_SET_CAPACITY,
        ensures
            final(self).wf(),
            push_tcp_post(*old(self), tcp, *final(self)),
    {
        if self.sockets.len() == self.cap {
            self.reserve(1);
        }
        self.mux.push(tcp.handle);
        self.sockets.push(GeneralSocket::Tcp(tcp));
    }

    /// Registers a UDP socket, growing the set first when it is full.  The
    /// set owns the socket until [`SocketSet::remove_udp`] hands it back.
    pub fn push_udp(&mut self, udp: UdpSocket)
        requires
            old(self).wf(),
            old(self).sockets@.len() < MAX_SET_CAPACITY,
            udp.wf(),
        ensures
            final(self).wf(),
            push_udp_post(*old(self), udp, *final(self)),
    {
        if self.sockets.len() == self.cap {
            self.reserve(1);
        }
        self.mux.push(udp.handle);
        self.sockets.push(GeneralSocket::Udp(udp));
    }

    /// Deregisters the first registered TCP socket whose transport handle is
    /// `handle` and hands it back to the caller, who owns it again; a handle
    /// not found is a no-op.
    pub fn remove_tcp(&mut self, handle: u64) -> (r: Option<TcpSocket>)
        requires
            old(self).wf(),
        ensures
            final(self).wf(),
            remove_tcp_post(*old(self), handle, *final(self), r),
    {
        let mut i: usize = 0;
        while i < self.sockets.len()
            invariant
                self == old(self),
                old(self).wf(),
                i <= self.sockets@.len(),
                forall|j: int| 0 <= j < i ==> !is_tcp_handle(self.sockets@[j], handle),
            decreases self.sockets@.len() - i,
        {
            let hit = match &self.sockets[i] {
                GeneralSocket::Tcp(t) => t.handle == handle,
                GeneralSocket::Udp(_) => false,
            };
            if hit {
                let g = self.sockets.remove(i);
                self.mux.remove(i);
                match g {
                    GeneralSocket::Tcp(t) => {
                        return Some(t);
                    },
                    GeneralSocket::Udp(_) => {
                        return unreached();
                    },
                }
            }
            i = i + 1;
        }
        None
    }

    /// Deregisters the first registered UDP socket whose transport handle is
    /// `handle` and hands it back to the caller, who owns it again; a handle
    /// not found is a no-op.
    pub fn remove_udp(&mut self, handle: u64) -> (r: Option<UdpSocket>)
        requires
            old(self).wf(),
        ensures
            final(self).wf(),
            remove_udp_post(*old(self), handle, *final(self), r),
    {
        let mut i: usize = 0;
        while i < self.sockets.len()
            invariant
                self == old(self),
                old(self).wf(),
                i <= self.sockets@.len(),
                forall|j: int| 0 <= j < i ==> !is_udp_handle(self.sockets@[j], handle),
            decreases self.sockets@.len() - i,
        {
            let hit = match &self.sockets[i] {
                GeneralSocket::Udp(u) => u.handle == handle,
                GeneralSocket::Tcp(_) => false,
            };
            if hit {
                let g = self.sockets.remove(i);
                self.mux.remove(i);
                match g {
                    GeneralSocket::Udp(u) => {
                        return Some(u);
                    },
                    GeneralSocket::Tcp(_) => {
                        return unreached();
                    },
                }
            }
            i = i + 1;
        }
        None
    }

    /// How many registered sockets have something waiting to be read.  Zero
    /// means nothing was ready within the timeout; the wait itself belongs to
    /// the effectful edge, which reports arrivals through
    /// [`SocketSet::deliver_udp`] and [`SocketSet::incoming_tcp`] before this
    /// is called, so the count here is over the state as delivered.
    pub fn active_sockets_num(&self, timeout: u32) -> (r: usize)
        requires
            self.wf(),
        ensures
            r == ready_count(self.sockets@),
    {
        let _ = timeout;
        let mut count: usize = 0;
        let mut i: usize = 0;
        while i < self.sockets.len()
            invariant
                self.wf(),
                i <= self.sockets@.len(),
                count <= i,
                count == ready_count(self.sockets@.take(i as int)),
            decreases self.sockets@.len() - i,
        {
            let rdy = self.sockets[i].ready();
            if rdy {
                count = count + 1;
            }
            proof {
                assert(self.sockets@.take(i + 1int).drop_last() =~= self.sockets@.take(i as int));
                assert(self.sockets@.take(i + 1int).last() == self.sockets@[i as int]);
            }
            i = i + 1;
        }
        proof {
            assert(self.sockets@.take(self.sockets@.len() as int) =~= self.sockets@);
        }
        count
    }

    /// Reports the arrival of a datagram from `from` at the first registered
    /// UDP socket whose transport handle is `handle`, and tells whether such
    /// a socket was found.  This is how the effectful edge reaches a socket
    /// the set owns.
    pub fn deliver_udp(&mut self, handle: u64, from: SocketAddress) -> (r: bool)
        requires
            old(self).wf(),
        ensures
            final(self).wf(),
            final(self).cap == old(self).cap,
            final(self).mux@ == old(self).mux@,
            r <==> exists|j: int|
                0 <= j < old(self).sockets@.len() && is_udp_handle(old(self).sockets@[j], handle),
            !r ==> final(self).sockets@ == old(self).sockets@,
            r ==> exists|i: int|
                {
                    &&& 0 <= i < old(self).sockets@.len()
                    &&& is_udp_handle(old(self).sockets@[i], handle)
                    &&& forall|j: int| 0 <= j < i ==> !is_udp_handle(old(self).sockets@[j], handle)
                    &&& final(self).sockets@.len() == old(self).sockets@.len()
                    &&& forall|j: int|
                        0 <= j < old(self).sockets@.len() && j != i ==> final(self).sockets@[j]
                            == old(self).sockets@[j]
                    &&& old(self).sockets@[i] matches GeneralSocket::Udp(u0) && final(self).sockets@[i] matches GeneralSocket::Udp(u1) && u1.handle == u0.handle
                        && u1.port == u0.port && u1.table@ == u0.table@ && u1.inbox@
                        == u0.inbox@.push(from)
                },
    {
        let mut i: usize = 0;
        while i < self.sockets.len()
            invariant
                self == old(self),
                old(self).wf(),
                i <= self.sockets@.len(),
                forall|j: int| 0 <= j < i ==> !is_udp_handle(self.sockets@[j], handle),
            decreases self.sockets@.len() - i,
        {
            let hit = match &self.sockets[i] {
                GeneralSocket::Udp(u) => u.handle == handle,
                GeneralSocket::Tcp(_) => false,
            };
            if hit {
                match &mut self.sockets[i] {
                    GeneralSocket::Udp(u) => {
                        u.deliver(from);
                    },
                    GeneralSocket::Tcp(_) => {
                    },
                }
                return true;
            }
            i = i + 1;
        }
        false
    }

    /// Reports an inbound connection attempt from `peer` at the first
    /// registered TCP socket whose transport handle is `handle`, and tells
    /// whether such a socket was found.  This is how the effectful edge
    /// reaches a socket the set owns.
    pub fn incoming_tcp(&mut self, handle: u64, peer: SocketAddress) -> (r: bool)
        requires
            old(self).wf(),
        ensures
            final(self).wf(),
            final(self).cap == old(self).cap,
            final(self).mux@ == old(self).mux@,
            r <==> exists|j: int|
                0 <= j < old(self).sockets@.len() && is_tcp_handle(old(self).sockets@[j], handle),
            !r ==> final(self).sockets@ == old(self).sockets@,
            r ==> exists|i: int|
                {
                    &&& 0 <= i < old(self).sockets@.len()
                    &&& is_tcp_handle(old(self).sockets@[i], handle)
                    &&& forall|j: int| 0 <= j < i ==> !is_tcp_handle(old(self).sockets@[j], handle)
                    &&& final(self).sockets@.len() == old(self).sockets@.len()
                    &&& forall|j: int|
                        0 <= j < old(self).sockets@.len() && j != i ==> final(self).sockets@[j]
                            == old(self).sockets@[j]
                    &&& old(self).sockets@[i] matches GeneralSocket::Tcp(t0) && final(self).sockets@[i] matches GeneralSocket::Tcp(t1) && t1.handle == t0.handle
                        && t1.local == t0.local && t1.pending@ == t0.pending@.push(peer)
                },
    {
        let mut i: usize = 0;
        while i < self.sockets.len()
            invariant
                self == old(self),
                old(self).wf(),
                i <= self.sockets@.len(),
                forall|j: int| 0 <= j < i ==> !is_tcp_handle(self.sockets@[j], handle),
            decreases self.sockets@.len() - i,
        {
            let hit = match &self.sockets[i] {
                GeneralSocket::Tcp(t) => t.handle == handle,
                GeneralSocket::Udp(_) => false,
            };
            if hit {
                match &mut self.sockets[i] {
                    GeneralSocket::Tcp(t) => {
                        t.incoming(peer);
                    },
                    GeneralSocket::Udp(_) => {
                    },
                }
                return true;
            }
            i = i + 1;
        }
        false
    }
}

/// Law: a push followed immediately by a remove of the same socket restores
/// the set's registered count and its capacity, provided the push found room
/// and did not grow the set.
pub proof fn lemma_push_then_remove_restores_tcp(
    s0: SocketSet,
    t: TcpSocket,
    s1: SocketSet,
    s2: SocketSet,
    r: Option<TcpSocket>,
)
    requires
        s0.wf(),
        s0.sockets@.len() < s0.cap,
        push_tcp_post(s0, t, s1),
        remove_tcp_post(s1, t.handle, s2, r),
    ensures
        s2.sockets@.len() == s0.sockets@.len(),
        s2.cap == s0.cap,
{
    assert(is_tcp_handle(s1.sockets@[s0.sockets@.len() as int], t.handle));
}

/// Law: a push followed immediately by a remove of the same socket restores
/// the set's registered count and its capacity, provided the push found room
/// and did not grow the set; the counterpart of
/// [`lemma_push_then_remove_restores_tcp`].
pub proof fn lemma_push_then_remove_restores_udp(
    s0: SocketSet,
    u: UdpSocket,
    s1: SocketSet,
    s2: SocketSet,
    r: Option<UdpSocket>,
)
    requires
        s0.wf(),
        s0.sockets@.len() < s0.cap,
        push_udp_post(s0, u, s1),
        remove_udp_post(s1, u.handle, s2, r),
    ensures
        s2.sockets@.len() == s0.sockets@.len(),
        s2.cap == s0.cap,
{
    assert(is_udp_handle(s1.sockets@[s0.sockets@.len() as int], u.handle));
}

/// Law: growing a set re-registers every socket it held, so the readiness
/// report over the previously registered sockets is unchanged.
pub proof fn lemma_growth_preserves_readiness(pre: SocketSet, needed: int, post: SocketSet)
    requires
        pre.wf(),
        reserve_post(pre, needed, post),
    ensures
        ready_count(post.sockets@) == ready_count(pre.sockets@),
        post.mux@ == pre.mux@,
{
}

/// Law: appending a socket changes the readiness count by exactly that
/// socket's own readiness — so growing the set to admit it leaves the count
/// over the sockets already registered intact.
pub proof fn lemma_push_preserves_ready_count(s: Seq<GeneralSocket>, g: GeneralSocket)
    ensures
        ready_count(s.push(g)) == ready_count(s) + if g.spec_ready() {
            1nat
        } else {
            0nat
        },
{
    assert(s.push(g).drop_last() =~= s);
    assert(s.push(g).last() == g);
}

} // verus!
