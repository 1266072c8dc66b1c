//! Sockets that create connections or classify datagrams.

use vstd::prelude::*;
use crate::Net;
use crate::NetError;
use crate::SocketAddress;
use crate::EPHEMERAL_FIRST;
use crate::claim_port;
use crate::release_port;
use crate::conn::TcpConnection;

verus! {

/// The fixed number of address-filter channels of a UDP socket.
pub const MAX_UDP_CHANNELS: usize = 4;

/// A bound TCP socket.  It owns one transport handle, holds the queue of
/// inbound connection attempts not yet accepted, and is consumed by
/// [`TcpSocket::close`], which returns its port to the token.
#[derive(Debug)]
pub struct TcpSocket {
    /// The identity of the owned transport handle.
    pub handle: u64,
    /// The address the socket is bound to.
    pub local: SocketAddress,
    /// The peers whose connection attempts wait to be accepted, oldest first.
    /// The driver of the effectful edge fills it through
    /// [`TcpSocket::incoming`].
    pub pending: Vec<SocketAddress>,
}

impl TcpSocket {
    /// Binds a TCP socket at `address`.  A nonzero port is granted exactly
    /// when no other TCP socket of this token holds it; port 0 is granted the
    /// first free ephemeral port.  On failure the token is unchanged.
    pub fn open(net: &mut Net, address: SocketAddress) -> (r: Result<TcpSocket, NetError>)
        requires
            old(net).wf(),
            old(net).next_handle < u64::MAX,
        ensures
            final(net).wf(),
            final(net).udp_ports@ == old(net).udp_ports@,
            address.port != 0 ==> (r is Err <==> old(net).tcp_ports@.contains(address.port)),
            address.port == 0 ==> (r is Err ==> forall|q: u16|
                q >= EPHEMERAL_FIRST ==> old(net).tcp_ports@.contains(q)),
            r matches Err(e) ==> e == NetError::BindFailed,
            r is Err ==> ({
                &&& final(net).tcp_ports@ == old(net).tcp_ports@
                &&& final(net).live@ == old(net).live@
                &&& final(net).next_handle == old(net).next_handle
            }),
            r matches Ok(s) ==> ({
                &&& s.local.host == address.host
                &&& (address.port != 0 ==> s.local.port == address.port)
                &&& (address.port == 0 ==> EPHEMERAL_FIRST <= s.local.port && (forall|q: u16|
                    EPHEMERAL_FIRST <= q < s.local.port ==> old(net).tcp_ports@.contains(q)))
                &&& !old(net).tcp_ports@.contains(s.local.port)
                &&& s.pending@ == Seq::<SocketAddress>::empty()
                &&& s.handle == old(net).next_handle
                &&& !old(net).live@.contains(s.handle)
                &&& final(net).tcp_ports@ == old(net).tcp_ports@.push(s.local.port)
                &&& final(net).live@ == old(net).live@.insert(s.handle)
                &&& final(net).next_handle == old(net).next_handle + 1
            }),
    {
        match claim_port(&mut net.tcp_ports, address.port) {
            Ok(p) => {
                let h = net.fresh_handle();
                Ok(TcpSocket {
                    handle: h,
                    local: SocketAddress { host: address.host, port: p },
                    pending: Vec::new(),
                })
            },
            Err(e) => Err(e),
        }
    }

    /// The address the socket is bound to.
    pub fn local_address(&self) -> (a: SocketAddress)
        ensures
            a == self.local,
    {
        self.local
    }

    /// Records an inbound connection attempt from `peer`.  This is the event
    /// the effectful edge reports when the underlying library has a
    /// connection waiting.
    pub fn incoming(&mut self, peer: SocketAddress)
        ensures
            final(self).pending@ == old(self).pending@.push(peer),
            final(self).handle == old(self).handle,
            final(self).local == old(self).local,
    {
        self.pending.push(peer);
    }

    /// Polls for one pending connection attempt: returns nothing when none is
    /// pending, and exactly one connection — to the oldest waiting peer —
    /// when one is.  The accept detaches a fresh transport handle for the
    /// connection; the listener keeps its own.
    pub fn try_ack(&mut self, net: &mut Net) -> (r: Option<TcpConnection>)
        requires
            old(net).wf(),
            old(net).next_handle < u64::MAX,
        ensures
            final(net).wf(),
            final(self).handle == old(self).handle,
            final(self).local == old(self).local,
            old(self).pending@.len() == 0 ==> ({
                &&& r is None
                &&& final(self).pending@ == old(self).pending@
                &&& final(net).live@ == old(net).live@
                &&& final(net).next_handle == old(net).next_handle
                &&& final(net).tcp_ports@ == old(net).tcp_ports@
                &&& final(net).udp_ports@ == old(net).udp_ports@
            }),
            old(self).pending@.len() > 0 ==> ({
                &&& r matches Some(c)
                &&& r matches Some(c) ==> ({
                    &&& c.peer == old(self).pending@[0]
                    &&& c.handle == old(net).next_handle
                    &&& !old(net).live@.contains(c.handle)
                })
                &&& final(self).pending@ == old(self).pending@.subrange(
                    1,
                    old(self).pending@.len() as int,
                )
                &&& final(net).live@ == old(net).live@.insert(old(net).next_handle)
                &&& final(net).next_handle == old(net).next_handle + 1
                &&& final(net).tcp_ports@ == old(net).tcp_ports@
                &&& final(net).udp_ports@ == old(net).udp_ports@
            }),
    {
        if self.pending.len() == 0 {
            None
        } else {
            let peer = self.pending.remove(0);
            let h = net.fresh_handle();
            Some(TcpConnection::new(h, peer))
        }
    }

    /// Releases the transport handle and gives the bound port back to the
    /// token.  Consumes the socket: no further operation on it can be
    /// written, and a socket registered in a set cannot reach this, because
    /// the set owns it.
    pub fn close(self, net: &mut Net)
        requires
            old(net).wf(),
        ensures
            final(net).wf(),
            final(net).live@ == old(net).live@.remove(self.handle),
            final(net).next_handle == old(net).next_handle,
            final(net).udp_ports@ == old(net).udp_ports@,
            !old(net).tcp_ports@.contains(self.local.port) ==> final(net).tcp_ports@ == old(net).tcp_ports@,
            old(net).tcp_ports@.contains(self.local.port) ==> exists|i: int|
                0 <= i < old(net).tcp_ports@.len() && old(net).tcp_ports@[i] == self.local.port
                    && final(net).tcp_ports@ == old(net).tcp_ports@.remove(i),
    {
        release_port(&mut net.tcp_ports, self.local.port);
        net.release_handle(self.handle);
    }
}

/// A bound UDP socket.  It owns one transport handle, a fixed table of
/// [`MAX_UDP_CHANNELS`] address-filter channels, and the queue of datagram
/// arrivals not yet read.
#[derive(Debug)]
pub struct UdpSocket {
    /// The identity of the owned transport handle.
    pub handle: u64,
    /// The local port the socket is bound to.
    pub port: u16,
    /// The channel table: each slot is unbound or bound to one peer address.
    /// Always exactly [`MAX_UDP_CHANNELS`] slots.
    pub table: Vec<Option<SocketAddress>>,
    /// The source addresses of datagrams waiting to be read, oldest first.
    /// The driver of the effectful edge fills it through
    /// [`UdpSocket::deliver`].
    pub inbox: Vec<SocketAddress>,
}

/// The channel that tags a datagram arriving from `from`: the first slot of
/// `table` bound to that address, if any.
pub open spec fn classify_spec(table: Seq<Option<SocketAddress>>, from: SocketAddress) -> Option<
    usize,
> {
    if table.len() >= 1 && table[0] == Some(from) {
        Some(0usize)
    } else if table.len() >= 2 && table[1] == Some(from) {
        Some(1usize)
    } else if table.len() >= 3 && table[2] == Some(from) {
        Some(2usize)
    } else if table.len() >= 4 && table[3] == Some(from) {
        Some(3usize)
    } else {
        None
    }
}

impl UdpSocket {
    /// The channel table always has exactly [`MAX_UDP_CHANNELS`] slots.
    pub open spec fn wf(self) -> bool {
        self.table@.len() == MAX_UDP_CHANNELS
    }

    /// Binds a UDP socket to `port`.  A nonzero port is granted exactly when
    /// no other UDP socket of this token holds it; port 0 is granted the
    /// first free ephemeral port.  Every channel starts unbound.  On failure
    /// the token is unchanged.
    pub fn open(net: &mut Net, port: u16) -> (r: Result<UdpSocket, NetError>)
        requires
            old(net).wf(),
            old(net).next_handle < u64::MAX,
        ensures
            final(net).wf(),
            final(net).tcp_ports@ == old(net).tcp_ports@,
            port != 0 ==> (r is Err <==> old(net).udp_ports@.contains(port)),
            port == 0 ==> (r is Err ==> forall|q: u16|
                q >= EPHEMERAL_FIRST ==> old(net).udp_ports@.contains(q)),
            r matches Err(e) ==> e == NetError::BindFailed,
            r is Err ==> ({
                &&& final(net).udp_ports@ == old(net).udp_ports@
                &&& final(net).live@ == old(net).live@
                &&& final(net).next_handle == old(net).next_handle
            }),
            r matches Ok(s) ==> ({
                &&& s.wf()
                &&& (port != 0 ==> s.port == port)
                &&& (port == 0 ==> EPHEMERAL_FIRST <= s.port && (forall|q: u16|
                    EPHEMERAL_FIRST <= q < s.port ==> old(net).udp_ports@.contains(q)))
                &&& !old(net).udp_ports@.contains(s.port)
                &&& (forall|i: int| 0 <= i < MAX_UDP_CHANNELS ==> s.table@[i] is None)
                &&& s.inbox@ == Seq::<SocketAddress>::empty()
                &&& s.handle == old(net).next_handle
                &&& !old(net).live@.contains(s.handle)
                &&& final(net).udp_ports@ == old(net).udp_ports@.push(s.port)
                &&& final(net).live@ == old(net).live@.insert(s.handle)
                &&& final(net).next_handle == old(net).next_handle + 1
            }),
    {
        match claim_port(&mut net.udp_ports, port) {
            Ok(p) => {
                let h = net.fresh_handle();
                let mut table: Vec<Option<SocketAddress>> = Vec::new();
                table.push(None);
                table.push(None);
                table.push(None);
                table.push(None);
                Ok(UdpSocket { handle: h, port: p, table, inbox: Vec::new() })
            },
            Err(e) => Err(e),
        }
    }

    /// Handles to the fixed channel slots, in slot order.  Channels are views
    /// into the socket's table, never owners: mutating the table through one
    /// is visible through all.
    pub fn channels(&self) -> (r: Vec<UdpChannel>)
        ensures
            r@.len() == MAX_UDP_CHANNELS,
            forall|i: int| 0 <= i < MAX_UDP_CHANNELS ==> r@[i].id == i,
    {
        let mut r: Vec<UdpChannel> = Vec::new();
        r.push(UdpChannel { id: 0 });
        r.push(UdpChannel { id: 1 });
        r.push(UdpChannel { id: 2 });
        r.push(UdpChannel { id: 3 });
        r
    }

    /// Records the arrival of a datagram from `from`.  This is the event the
    /// effectful edge reports when the underlying library has a datagram
    /// waiting.
    pub fn deliver(&mut self, from: SocketAddress)
        ensures
            final(self).inbox@ == old(self).inbox@.push(from),
            final(self).handle == old(self).handle,
            final(self).port == old(self).port,
            final(self).table@ == old(self).table@,
    {
        self.inbox.push(from);
    }

    /// The channel that tags a datagram from `from`: the first channel bound
    /// to that address, or `None` when no channel is, in which case the
    /// datagram is accepted untagged.
    pub fn classify(&self, from: SocketAddress) -> (r: Option<usize>)
        requires
            self.wf(),
        ensures
            r == classify_spec(self.table@, from),
    {
        let mut i: usize = 0;
        while i < MAX_UDP_CHANNELS
            invariant
                self.wf(),
                i <= MAX_UDP_CHANNELS,
                forall|j: int| 0 <= j < i ==> self.table@[j] != Some(from),
            decreases MAX_UDP_CHANNELS - i,
        {
            let hit = match &self.table[i] {
                Some(a) => a.host == from.host && a.port == from.port,
                None => false,
            };
            if hit {
                return Some(i);
            }
            i = i + 1;
        }
        None
    }

    /// Releases the transport handle and gives the bound port back to the
    /// token.  Consumes the socket: no further operation on it can be
    /// written, and a socket registered in a set cannot reach this, because
    /// the set owns it.
    pub fn close(self, net: &mut Net)
        requires
            old(net).wf(),
        ensures
            final(net).wf(),
            final(net).live@ == old(net).live@.remove(self.handle),
            final(net).next_handle == old(net).next_handle,
            final(net).tcp_ports@ == old(net).tcp_ports@,
            !old(net).udp_ports@.contains(self.port) ==> final(net).udp_ports@ == old(net).udp_ports@,
            old(net).udp_ports@.contains(self.port) ==> exists|i: int|
                0 <= i < old(net).udp_ports@.len() && old(net).udp_ports@[i] == self.port && final(net).udp_ports@ == old(net).udp_ports@.remove(i),
    {
        release_port(&mut net.udp_ports, self.port);
        net.release_handle(self.handle);
    }
}

/// A view on one channel slot of a UDP socket: the slot index alone.  It owns
/// nothing; binding and unbinding mutate the table of the socket it is
/// applied to.
#[derive(Clone, Copy, Debug, PartialEq, Eq, Structural)]
pub struct UdpChannel {
    /// The slot index in the channel table.
    pub id: usize,
}

impl UdpChannel {
    /// Binds this channel slot of `sock` to `address`: datagrams from that
    /// peer are tagged with this channel's id from now on.  Binding an
    /// already-bound slot reassigns it, so at most one binding per slot ever
    /// holds.  A slot index outside the table fails and changes nothing.
    pub fn bind_channel(&self, sock: &mut UdpSocket, address: SocketAddress) -> (r: Result<
        (),
        NetError,
    >)
        requires
            old(sock).wf(),
        ensures
            final(sock).wf(),
            final(sock).handle == old(sock).handle,
            final(sock).port == old(sock).port,
            final(sock).inbox@ == old(sock).inbox@,
            self.id < MAX_UDP_CHANNELS ==> r == Ok::<(), NetError>(()) && final(sock).table@ == old(sock).table@.update(self.id as int, Some(address)),
            self.id >= MAX_UDP_CHANNELS ==> r == Err::<(), NetError>(NetError::BindFailed) && final(sock).table@ == old(sock).table@,
    {
        if self.id < MAX_UDP_CHANNELS {
            sock.table[self.id] = Some(address);
            Ok(())
        } else {
            Err(NetError::BindFailed)
        }
    }

    /// Clears this channel slot of `sock`: datagrams from the formerly bound
    /// peer are no longer tagged with this channel's id.  A slot index
    /// outside the table changes nothing.
    pub fn unbind(&self, sock: &mut UdpSocket)
        requires
            old(sock).wf(),
        ensures
            final(sock).wf(),
            final(sock).handle == old(sock).handle,
            final(sock).port == old(sock).port,
            final(sock).inbox@ == old(sock).inbox@,
            self.id < MAX_UDP_CHANNELS ==> final(sock).table@ == old(sock).table@.update(
                self.id as int,
                None,
            ),
            self.id >= MAX_UDP_CHANNELS ==> final(sock).table@ == old(sock).table@,
    {
        if self.id < MAX_UDP_CHANNELS {
            sock.table[self.id] = None;
        }
    }
}

/// Law: binding the same channel slot twice leaves exactly one active
/// binding, the most recent one, and touches no other slot.
pub proof fn lemma_rebind_latest_wins(
    table: Seq<Option<SocketAddress>>,
    id: int,
    a1: SocketAddress,
    a2: SocketAddress,
)
    requires
        0 <= id < table.len(),
    ensures
        table.update(id, Some(a1)).update(id, Some(a2))[id] == Some(a2),
        forall|j: int|
            0 <= j < table.len() && j != id ==> table.update(id, Some(a1)).update(id, Some(a2))[j]
                == table[j],
{
}

/// Law: after unbinding a channel, a datagram from the peer it held is no
/// longer tagged with any channel, provided no other slot is bound to that
/// peer.
pub proof fn lemma_unbind_clears_classification(
    table: Seq<Option<SocketAddress>>,
    id: int,
    peer: SocketAddress,
)
    requires
        table.len() == MAX_UDP_CHANNELS,
        0 <= id < MAX_UDP_CHANNELS,
        forall|j: int| 0 <= j < MAX_UDP_CHANNELS && j != id ==> table[j] != Some(peer),
    ensures
        classify_spec(table.update(id, None), peer) is None,
{
}

} // verus!
