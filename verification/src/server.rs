//! Servers for receiving connections.

use vstd::prelude::*;
use crate::Net;
use crate::NetError;
use crate::SocketAddress;
use crate::EPHEMERAL_FIRST;
use crate::claim_port;
use crate::release_port;

verus! {

/// A server: the wildcard address a listening socket will be opened at.
#[derive(Debug)]
pub struct NetServer {
    /// The bind address: the wildcard host, with the chosen port.
    pub address: SocketAddress,
}

impl NetServer {
    /// Prepares a server at the wildcard bind address with `port`.  Turning a
    /// port into the local wildcard address needs no lookup, so this always
    /// succeeds; the fallible step is [`NetServer::open_tcp`].
    pub fn new(net: &Net, port: u16) -> (r: Result<NetServer, NetError>)
        ensures
            r matches Ok(s) && s.address == (SocketAddress { host: 0, port }),
    {
        let _ = net;
        Ok(NetServer { address: SocketAddress { host: 0, port } })
    }

    /// Opens a listening TCP socket at the server's address.  The port is
    /// granted exactly when no other TCP socket of the token holds it; port 0
    /// is granted the first free ephemeral port.  On failure the token is
    /// unchanged.
    pub fn open_tcp(&mut self, net: &mut Net) -> (r: Result<TcpSocket, NetError>)
        requires
            old(net).wf(),
            old(net).next_handle < u64::MAX,
        ensures
            final(self).address == old(self).address,
            final(net).wf(),
            final(net).udp_ports@ == old(net).udp_ports@,
            old(self).address.port != 0 ==> (r is Err <==> old(net).tcp_ports@.contains(
                old(self).address.port,
            )),
            old(self).address.port == 0 ==> (r is Err ==> forall|q: u16|
                q >= EPHEMERAL_FIRST ==> old(net).tcp_ports@.contains(q)),
            r matches Err(e) ==> e == NetError::BindFailed,
            r is Err ==> ({
                &&& final(net).tcp_ports@ == old(net).tcp_ports@
                &&& final(net).live@ == old(net).live@
                &&& final(net).next_handle == old(net).next_handle
            }),
            r matches Ok(s) ==> ({
                &&& s.local.host == old(self).address.host
                &&& (old(self).address.port != 0 ==> s.local.port == old(self).address.port)
                &&& (old(self).address.port == 0 ==> EPHEMERAL_FIRST <= s.local.port && (forall|
                    q: u16,
                |
                    EPHEMERAL_FIRST <= q < s.local.port ==> old(net).tcp_ports@.contains(q)))
                &&& !old(net).tcp_ports@.contains(s.local.port)
                &&& s.pending@ == Seq::<SocketAddress>::empty()
                &&& s.handle == old(net).next_handle
                &&& !old(net).live@.contains(s.handle)
                &&& final(net).tcp_ports@ == old(net).tcp_ports@.push(s.local.port)
                &&& final(net).live@ == old(net).live@.insert(s.handle)
                &&& final(net).next_handle == old(net).next_handle + 1
            }),
    {
        TcpSocket::new(net, self.address)
    }
}

/// A listening TCP socket serving inbound requests.  It owns one transport
/// handle, holds the queue of requests not yet polled, and is consumed by
/// [`TcpSocket::close`], which returns its port to the token.
#[derive(Debug)]
pub struct TcpSocket {
    /// The identity of the owned transport handle.
    pub handle: u64,
    /// The address the socket is bound to.
    pub local: SocketAddress,
    /// The peers whose connection attempts wait to be polled, oldest first.
    /// The driver of the effectful edge fills it through
    /// [`TcpSocket::incoming`].
    pub pending: Vec<SocketAddress>,
}

impl TcpSocket {
    /// Binds a listening TCP socket at `address`; see
    /// [`NetServer::open_tcp`] for when the bind is granted.
    pub(crate) fn new(net: &mut Net, address: SocketAddress) -> (r: Result<TcpSocket, NetError>)
        requires
            old(net).wf(),
            old(net).next_handle < u64::MAX,
        ensures
            final(net).wf(),
            final(net).udp_ports@ == old(net).udp_ports@,
            address.port != 0 ==> (r is Err <==> old(net).tcp_ports@.contains(address.port)),
            address.port == 0 ==> (r is Err ==> forall|q: u16|
                q >= EPHEMERAL_FIRST ==> old(net).tcp_ports@.contains(q)),
            r matches Err(e) ==> e == NetError::BindFailed,
            r is Err ==> ({
                &&& final(net).tcp_ports@ == old(net).tcp_ports@
                &&& final(net).live@ == old(net).live@
                &&& final(net).next_handle == old(net).next_handle
            }),
            r matches Ok(s) ==> ({
                &&& s.local.host == address.host
                &&& (address.port != 0 ==> s.local.port == address.port)
                &&& (address.port == 0 ==> EPHEMERAL_FIRST <= s.local.port && (forall|q: u16|
                    EPHEMERAL_FIRST <= q < s.local.port ==> old(net).tcp_ports@.contains(q)))
                &&& !old(net).tcp_ports@.contains(s.local.port)
                &&& s.pending@ == Seq::<SocketAddress>::empty()
                &&& s.handle == old(net).next_handle
                &&& !old(net).live@.contains(s.handle)
                &&& final(net).tcp_ports@ == old(net).tcp_ports@.push(s.local.port)
                &&& final(net).live@ == old(net).live@.insert(s.handle)
                &&& final(net).next_handle == old(net).next_handle + 1
            }),
    {
        match claim_port(&mut net.tcp_ports, address.port) {
            Ok(p) => {
                let h = net.fresh_handle();
                Ok(TcpSocket {
                    handle: h,
                    local: SocketAddress { host: address.host, port: p },
                    pending: Vec::new(),
                })
            },
            Err(e) => Err(e),
        }
    }

    /// Records an inbound connection attempt from `peer`.  This is the event
    /// the effectful edge reports when the underlying library has a
    /// connection waiting.
    pub fn incoming(&mut self, peer: SocketAddress)
        ensures
            final(self).pending@ == old(self).pending@.push(peer),
            final(self).handle == old(self).handle,
            final(self).local == old(self).local,
    {
        self.pending.push(peer);
    }

    /// Polls for one request: returns nothing when none is pending, and
    /// exactly one request — from the oldest waiting peer — when one is.
    /// The accepted request gets a fresh transport handle of its own.
    pub fn poll_req(&mut self, net: &mut Net) -> (r: Option<Request>)
        requires
            old(net).wf(),
            old(net).next_handle < u64::MAX,
        ensures
            final(net).wf(),
            final(self).handle == old(self).handle,
            final(self).local == old(self).local,
            old(self).pending@.len() == 0 ==> ({
                &&& r is None
                &&& final(self).pending@ == old(self).pending@
                &&& final(net).live@ == old(net).live@
                &&& final(net).next_handle == old(net).next_handle
                &&& final(net).tcp_ports@ == old(net).tcp_ports@
                &&& final(net).udp_ports@ == old(net).udp_ports@
            }),
            old(self).pending@.len() > 0 ==> ({
                &&& r matches Some(q)
                &&& r matches Some(q) ==> ({
                    &&& q.peer == old(self).pending@[0]
                    &&& q.handle == old(net).next_handle
                    &&& !old(net).live@.contains(q.handle)
                })
                &&& final(self).pending@ == old(self).pending@.subrange(
                    1,
                    old(self).pending@.len() as int,
                )
                &&& final(net).live@ == old(net).live@.insert(old(net).next_handle)
                &&& final(net).next_handle == old(net).next_handle + 1
                &&& final(net).tcp_ports@ == old(net).tcp_ports@
                &&& final(net).udp_ports@ == old(net).udp_ports@
            }),
    {
        if self.pending.len() == 0 {
            None
        } else {
            let peer = self.pending.remove(0);
            let h = net.fresh_handle();
            Some(Request { handle: h, peer })
        }
    }

    /// Releases the transport handle and gives the bound port back to the
    /// token.  Consumes the socket: no further operation on it can be
    /// written.
    pub fn close(self, net: &mut Net)
        requires
            old(net).wf(),
        ensures
            final(net).wf(),
            final(net).live@ == old(net).live@.remove(self.handle),
            final(net).next_handle == old(net).next_handle,
            final(net).udp_ports@ == old(net).udp_ports@,
            !old(net).tcp_ports@.contains(self.local.port) ==> final(net).tcp_ports@ == old(
                net,
            ).tcp_ports@,
            old(net).tcp_ports@.contains(self.local.port) ==> exists|i: int|
                0 <= i < old(net).tcp_ports@.len() && old(net).tcp_ports@[i] == self.local.port
                    && final(net).tcp_ports@ == old(net).tcp_ports@.remove(i),
    {
        release_port(&mut net.tcp_ports, self.local.port);
        net.release_handle(self.handle);
    }
}

/// A request accepted from a [`TcpSocket`].  It owns the detached transport
/// handle of the accepted connection and is consumed by [`Request::close`].
#[derive(Debug)]
pub struct Request {
    /// The identity of the owned transport handle.
    pub handle: u64,
    /// The peer the request came from.
    pub peer: SocketAddress,
}

impl Request {
    /// Releases the transport handle.  Consumes the request: no further
    /// operation on it can be written.
    pub fn close(self, net: &mut Net)
        requires
            old(net).wf(),
        ensures
            final(net).wf(),
            final(net).live@ == old(net).live@.remove(self.handle),
            final(net).next_handle == old(net).next_handle,
            final(net).tcp_ports@ == old(net).tcp_ports@,
            final(net).udp_ports@ == old(net).udp_ports@,
    {
        net.release_handle(self.handle);
    }
}

} // verus!
