//! Connections between client and server.

use vstd::prelude::*;
use crate::Net;
use crate::SocketAddress;

verus! {

/// An established TCP connection.  It is produced only by a successful accept
/// ([`crate::sock::TcpSocket::try_ack`]), owns its transport handle alone —
/// the accept detaches a fresh handle from the listener — and is consumed by
/// [`TcpConnection::close`], so the handle is released exactly once and no
/// operation can reach it afterwards.
#[derive(Debug)]
pub struct TcpConnection {
    /// The identity of the owned transport handle.
    pub handle: u64,
    /// The remote endpoint of the connection.
    pub peer: SocketAddress,
}

impl TcpConnection {
    /// Wraps a detached transport handle connected to `peer`.
    pub fn new(handle: u64, peer: SocketAddress) -> (c: TcpConnection)
        ensures
            c.handle == handle,
            c.peer == peer,
    {
        TcpConnection { handle, peer }
    }

    /// The socket address of the connected party.
    pub fn address(&self) -> (a: SocketAddress)
        ensures
            a == self.peer,
    {
        self.peer
    }

    /// Releases the transport handle.  Consumes the connection: no further
    /// operation on it can be written.
    pub fn close(self, net: &mut Net)
        requires
            old(net).wf(),
        ensures
            final(net).wf(),
            final(net).live@ == old(net).live@.remove(self.handle),
            final(net).next_handle == old(net).next_handle,
            final(net).tcp_ports@ == old(net).tcp_ports@,
            final(net).udp_ports@ == old(net).udp_ports@,
    {
        net.release_handle(self.handle);
    }
}

} // verus!
