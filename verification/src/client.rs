//! Clients for creating connections.

use vstd::prelude::*;
use crate::Net;
use crate::NetError;
use crate::SocketAddress;

verus! {

/// A client: the resolved address it is ready to connect to.
#[derive(Debug)]
pub struct NetClient {
    /// The resolved remote endpoint.
    pub socket: SocketAddress,
}

impl NetClient {
    /// Readies a client for the numeric address `address` with `port` (absent
    /// means 0).  A numeric address resolves to itself, so this always
    /// succeeds.
    pub fn new(net: &Net, address: u32, port: Option<u16>) -> (r: Result<NetClient, NetError>)
        ensures
            r matches Ok(c) && c.socket == (SocketAddress {
                host: address,
                port: match port {
                    Some(p) => p,
                    None => 0,
                },
            }),
    {
        let _ = net;
        let p = match port {
            Some(p) => p,
            None => 0,
        };
        Ok(NetClient { socket: SocketAddress { host: address, port: p } })
    }

    /// Readies a client for a hostname with `port` (absent means 0).  The
    /// hostname lookup belongs to the external resolver; `looked_up` is the
    /// address it reported, or nothing when the lookup failed, and exactly
    /// then this fails with [`NetError::ResolveFailed`].
    pub fn with_hostname(net: &Net, looked_up: Option<u32>, port: Option<u16>) -> (r: Result<
        NetClient,
        NetError,
    >)
        ensures
            looked_up matches Some(host) ==> r matches Ok(c) && c.socket == (SocketAddress {
                host,
                port: match port {
                    Some(p) => p,
                    None => 0,
                },
            }),
            looked_up is None ==> r == Err::<NetClient, NetError>(NetError::ResolveFailed),
    {
        let _ = net;
        match looked_up {
            Some(host) => {
                let p = match port {
                    Some(p) => p,
                    None => 0,
                };
                Ok(NetClient { socket: SocketAddress { host, port: p } })
            },
            None => Err(NetError::ResolveFailed),
        }
    }
}

} // verus!
