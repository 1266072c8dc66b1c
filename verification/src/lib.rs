//! A verified socket-management core: typed handles for TCP and UDP sockets,
//! address-filter channels, and a multiplexed readiness set.
//!
//! The layer models the state the underlying networking library keeps for each
//! transport handle — which ports are bound, which handles are live, which
//! connection attempts and datagrams are waiting — as plain values, so that the
//! ownership and lifetime rules (release exactly once, no use after close, a
//! set owns its registered sockets) are enforced by the type system and proved
//! in the contracts. The effectful edge — the actual system calls, the
//! hostname resolver, the wait for readiness — lives outside this crate; its
//! outcomes enter through event methods such as [`sock::TcpSocket::incoming`]
//! and [`sock::UdpSocket::deliver`].

use vstd::prelude::*;
use vstd::pervasive::unreached;
use vstd::string::StringExecFns;

pub mod client;
pub mod conn;
pub mod server;
pub mod sock;
pub mod set;

verus! {

/// The first port of the range handed out for an ephemeral (port 0) bind.
pub const EPHEMERAL_FIRST: u16 = 49152;

/// An IPv4 endpoint: a 32-bit host address (first octet in the high byte) and
/// a 16-bit port.
#[derive(Clone, Copy, Debug, PartialEq, Eq, Structural)]
pub struct SocketAddress {
    pub host: u32,
    pub port: u16,
}

/// The ways an operation of this layer can fail.
#[derive(Clone, Copy, Debug, PartialEq, Eq, Structural)]
pub enum NetError {
    /// Address resolution could not complete; the caller may retry.
    ResolveFailed,
    /// The underlying bind or listen call failed (port unavailable).
    BindFailed,
    /// Multiplexing storage could not be allocated; not recoverable.
    AllocFailed,
}

/// The capability token: witnesses that the networking subsystem is
/// initialized, and owns the model of its bookkeeping — the bound ports of
/// each protocol, and a counter from which every transport handle takes a
/// fresh identity.  Every socket is derived from a token and returns its
/// resources to it on close.
pub struct Net {
    /// The identity the next transport handle will get.
    pub next_handle: u64,
    /// TCP ports currently bound, each by exactly one socket.
    pub tcp_ports: Vec<u16>,
    /// UDP ports currently bound, each by exactly one socket.
    pub udp_ports: Vec<u16>,
    /// The identities of the transport handles not yet released.
    pub live: Ghost<Set<u64>>,
}

/// Whether no port is recorded twice: each bound port has exactly one owner.
pub open spec fn ports_distinct(ports: Seq<u16>) -> bool {
    forall|i: int, j: int| #![trigger ports[i], ports[j]]
        0 <= i < j < ports.len() ==> ports[i] != ports[j]
}

impl Net {
    /// Every live handle was taken from the counter, so the next value is
    /// fresh; and a bound port is recorded once, for its one owner.
    pub open spec fn wf(self) -> bool {
        &&& forall|h: u64| self.live@.contains(h) ==> h < self.next_handle
        &&& ports_distinct(self.tcp_ports@)
        &&& ports_distinct(self.udp_ports@)
    }

    /// Initializes the subsystem: no port bound, no handle live.
    pub fn new() -> (net: Net)
        ensures
            net.wf(),
            net.next_handle == 0,
            net.tcp_ports@ =~= Seq::<u16>::empty(),
            net.udp_ports@ =~= Seq::<u16>::empty(),
            net.live@ =~= Set::<u64>::empty(),
    {
        Net {
            next_handle: 0,
            tcp_ports: Vec::new(),
            udp_ports: Vec::new(),
            live: Ghost(Set::empty()),
        }
    }

    /// Tears the subsystem down, consuming the token; no component derived
    /// from it can be used afterwards, because each one borrows the token for
    /// every operation.
    pub fn teardown(self) {
    }

    /// Takes a fresh handle identity and marks it live.
    pub(crate) fn fresh_handle(&mut self) -> (h: u64)
        requires
            old(self).wf(),
            old(self).next_handle < u64::MAX,
        ensures
            final(self).wf(),
            h == old(self).next_handle,
            !old(self).live@.contains(h),
            final(self).next_handle == old(self).next_handle + 1,
            final(self).live@ == old(self).live@.insert(h),
            final(self).tcp_ports@ == old(self).tcp_ports@,
            final(self).udp_ports@ == old(self).udp_ports@,
    {
        let h = self.next_handle;
        self.next_handle = self.next_handle + 1;
        proof {
            self.live@ = self.live@.insert(h);
        }
        h
    }

    /// The dotted-quad rendering of the IPv4 address `host`, highest octet
    /// first.  A reverse lookup of the name behind the address would belong
    /// to the external resolver; this layer renders the canonical numeric
    /// form, which is what the lookup falls back to.
    pub fn resolve_ipv4(host: u32) -> (r: String)
        ensures
            r@ == ipv4_chars(host),
    {
        let mut out = String::from_str("");
        proof {
            reveal_strlit("");
            assert(out@ =~= Seq::<char>::empty());
        }
        push_decimal(&mut out, host / 0x100_0000);
        out.append(".");
        push_decimal(&mut out, (host / 0x1_0000) % 256);
        out.append(".");
        push_decimal(&mut out, (host / 0x100) % 256);
        out.append(".");
        push_decimal(&mut out, host % 256);
        proof {
            reveal_strlit(".");
            assert(out@ =~= ipv4_chars(host));
        }
        out
    }

    /// Marks a handle released.
    pub(crate) fn release_handle(&mut self, h: u64)
        requires
            old(self).wf(),
        ensures
            final(self).wf(),
            final(self).live@ == old(self).live@.remove(h),
            final(self).next_handle == old(self).next_handle,
            final(self).tcp_ports@ == old(self).tcp_ports@,
            final(self).udp_ports@ == old(self).udp_ports@,
    {
        proof {
            self.live@ = self.live@.remove(h);
        }
    }
}

/// The decimal digit `d` as a character.
pub open spec fn digit_char(d: int) -> char {
    if d == 0 {
        '0'
    } else if d == 1 {
        '1'
    } else if d == 2 {
        '2'
    } else if d == 3 {
        '3'
    } else if d == 4 {
        '4'
    } else if d == 5 {
        '5'
    } else if d == 6 {
        '6'
    } else if d == 7 {
        '7'
    } else if d == 8 {
        '8'
    } else {
        '9'
    }
}

/// The decimal rendering of `n`, without leading zeroes.
pub open spec fn dec_chars(n: int) -> Seq<char>
    decreases n,
{
    if n < 10 {
        seq![digit_char(n)]
    } else {
        dec_chars(n / 10).push(digit_char(n % 10))
    }
}

/// The dotted-quad rendering of `host`, highest octet first.
pub open spec fn ipv4_chars(host: u32) -> Seq<char> {
    dec_chars(host as int / 0x1000000) + seq!['.'] + dec_chars((host as int / 0x10000) % 256)
        + seq!['.'] + dec_chars((host as int / 0x100) % 256) + seq!['.'] + dec_chars(
        host as int % 256,
    )
}

/// The decimal digit `d` as a one-character string.
fn digit_str(d: u32) -> (r: &'static str)
    requires
        d < 10,
    ensures
        r@ == seq![digit_char(d as int)],
{
    let r: &'static str = match d {
        0 => "0",
        1 => "1",
        2 => "2",
        3 => "3",
        4 => "4",
        5 => "5",
        6 => "6",
        7 => "7",
        8 => "8",
        9 => "9",
        _ => unreached(),
    };
    proof {
        reveal_strlit("0");
        reveal_strlit("1");
        reveal_strlit("2");
        reveal_strlit("3");
        reveal_strlit("4");
        reveal_strlit("5");
        reveal_strlit("6");
        reveal_strlit("7");
        reveal_strlit("8");
        reveal_strlit("9");
        assert(r@ =~= seq![digit_char(d as int)]);
    }
    r
}

/// Appends the decimal rendering of `n` to `out`.
fn push_decimal(out: &mut String, n: u32)
    requires
        n < 256,
    ensures
        final(out)@ == old(out)@ + dec_chars(n as int),
{
    if n >= 100 {
        out.append(digit_str(n / 100));
        out.append(digit_str((n / 10) % 10));
        out.append(digit_str(n % 10));
        proof {
            vstd::arithmetic::div_mod::lemma_div_denominator(n as int, 10, 10);
            reveal_with_fuel(dec_chars, 3);
            assert(out@ =~= old(out)@ + dec_chars(n as int));
        }
    } else if n >= 10 {
        out.append(digit_str(n / 10));
        out.append(digit_str(n % 10));
        proof {
            reveal_with_fuel(dec_chars, 2);
            assert(out@ =~= old(out)@ + dec_chars(n as int));
        }
    } else {
        out.append(digit_str(n));
        proof {
            assert(out@ =~= old(out)@ + dec_chars(n as int));
        }
    }
}

/// Whether `p` is recorded in `ports`.
pub(crate) fn port_taken(ports: &Vec<u16>, p: u16) -> (r: bool)
    ensures
        r == ports@.contains(p),
{
    let mut i: usize = 0;
    while i < ports.len()
        invariant
            i <= ports@.len(),
            forall|j: int| 0 <= j < i ==> ports@[j] != p,
        decreases ports@.len() - i,
    {
        if ports[i] == p {
            return true;
        }
        i = i + 1;
    }
    false
}

/// Records a bind of `port` in `ports`.  A nonzero port is granted exactly
/// when it is not yet taken; port 0 asks for an ephemeral port, and is granted
/// the first free one of the ephemeral range.  The granted port is returned
/// and recorded; on failure nothing changes.
pub(crate) fn claim_port(ports: &mut Vec<u16>, port: u16) -> (r: Result<u16, NetError>)
    requires
        ports_distinct(old(ports)@),
    ensures
        ports_distinct(final(ports)@),
        port != 0 && old(ports)@.contains(port) ==> r == Err::<u16, NetError>(NetError::BindFailed),
        port != 0 && !old(ports)@.contains(port) ==> r == Ok::<u16, NetError>(port),
        port == 0 ==> match r {
            Ok(p) => EPHEMERAL_FIRST <= p && !old(ports)@.contains(p) && (forall|q: u16|
                EPHEMERAL_FIRST <= q < p ==> old(ports)@.contains(q)),
            Err(e) => e == NetError::BindFailed && (forall|q: u16|
                q >= EPHEMERAL_FIRST ==> old(ports)@.contains(q)),
        },
        r matches Ok(p) ==> final(ports)@ == old(ports)@.push(p),
        r is Err ==> final(ports)@ == old(ports)@,
{
    if port != 0 {
        if port_taken(ports, port) {
            Err(NetError::BindFailed)
        } else {
            ports.push(port);
            Ok(port)
        }
    } else {
        match free_port(ports) {
            Some(p) => {
                ports.push(p);
                Ok(p)
            },
            None => Err(NetError::BindFailed),
        }
    }
}

/// Takes the first record of `p` out of `ports`; a port not recorded is a
/// no-op.
pub(crate) fn release_port(ports: &mut Vec<u16>, p: u16)
    requires
        ports_distinct(old(ports)@),
    ensures
        ports_distinct(final(ports)@),
        !old(ports)@.contains(p) ==> final(ports)@ == old(ports)@,
        old(ports)@.contains(p) ==> exists|i: int|
            0 <= i < old(ports)@.len() && old(ports)@[i] == p && (forall|j: int|
                0 <= j < i ==> old(ports)@[j] != p) && final(ports)@ == old(ports)@.remove(i),
{
    let mut i: usize = 0;
    while i < ports.len()
        invariant
            i <= ports@.len(),
            ports@ == old(ports)@,
            ports_distinct(old(ports)@),
            forall|j: int| 0 <= j < i ==> ports@[j] != p,
        decreases ports@.len() - i,
    {
        if ports[i] == p {
            ports.remove(i);
            proof {
                let pre = old(ports)@;
                assert forall|a: int, b: int|
                    0 <= a < b < ports@.len() implies ports@[a] != ports@[b] by {
                    let a0: int = if a < i {
                        a
                    } else {
                        a + 1
                    };
                    let b0: int = if b < i {
                        b
                    } else {
                        b + 1
                    };
                    assert(0 <= a0 < b0 < pre.len());
                    assert(pre[a0] != pre[b0]);
                    assert(ports@[a] == pre[a0]);
                    assert(ports@[b] == pre[b0]);
                }
            }
            return ;
        }
        i = i + 1;
    }
}

/// The first free port of the ephemeral range, or `None` when every port of
/// the range is taken.
pub(crate) fn free_port(ports: &Vec<u16>) -> (r: Option<u16>)
    ensures
        r matches Some(p) ==> EPHEMERAL_FIRST <= p && !ports@.contains(p) && (forall|q: u16|
            EPHEMERAL_FIRST <= q < p ==> ports@.contains(q)),
        r is None ==> forall|q: u16| q >= EPHEMERAL_FIRST ==> ports@.contains(q),
{
    let mut p: u32 = EPHEMERAL_FIRST as u32;
    while p <= 65535
        invariant
            EPHEMERAL_FIRST <= p <= 65536,
            forall|q: u16| EPHEMERAL_FIRST <= q < p ==> ports@.contains(q),
        decreases 65536 - p,
    {
        if !port_taken(ports, p as u16) {
            return Some(p as u16);
        }
        p = p + 1;
    }
    None
}

} // verus!
