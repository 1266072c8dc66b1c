use netcore::client::NetClient;
use netcore::conn::TcpConnection;
use netcore::server::NetServer;
use netcore::set::SocketSet;
use netcore::set::MAX_SET_CAPACITY;
use netcore::sock::TcpSocket;
use netcore::sock::UdpChannel;
use netcore::sock::UdpSocket;
use netcore::Net;
use netcore::NetError;
use netcore::SocketAddress;
use netcore::EPHEMERAL_FIRST;

fn addr(host: u32, port: u16) -> SocketAddress {
    SocketAddress { host, port }
}

#[test]
fn token_starts_empty() {
    let net = Net::new();
    assert_eq!(net.next_handle, 0);
    assert_eq!(net.tcp_ports.len(), 0);
    assert_eq!(net.udp_ports.len(), 0);
    net.teardown();
}

#[test]
fn tcp_open_grants_fresh_port_and_handle() {
    let mut net = Net::new();
    let s = TcpSocket::open(&mut net, addr(0x7F000001, 9000)).unwrap();
    assert_eq!(s.local, addr(0x7F000001, 9000));
    assert_eq!(s.handle, 0);
    assert_eq!(net.tcp_ports, vec![9000]);
    s.close(&mut net);
    assert_eq!(net.tcp_ports.len(), 0);
}

#[test]
fn tcp_open_same_port_twice_fails() {
    let mut net = Net::new();
    let s = TcpSocket::open(&mut net, addr(0, 8080)).unwrap();
    let e = TcpSocket::open(&mut net, addr(0, 8080)).unwrap_err();
    assert_eq!(e, NetError::BindFailed);
    s.close(&mut net);
}

#[test]
fn tcp_port_reusable_after_close() {
    let mut net = Net::new();
    let s = TcpSocket::open(&mut net, addr(0, 8080)).unwrap();
    s.close(&mut net);
    let s2 = TcpSocket::open(&mut net, addr(0, 8080)).unwrap();
    assert_eq!(s2.local.port, 8080);
    s2.close(&mut net);
}

#[test]
fn udp_same_port_twice_fails_but_tcp_space_is_separate() {
    let mut net = Net::new();
    let u = UdpSocket::open(&mut net, 7000).unwrap();
    assert_eq!(UdpSocket::open(&mut net, 7000).unwrap_err(), NetError::BindFailed);
    let t = TcpSocket::open(&mut net, addr(0, 7000)).unwrap();
    u.close(&mut net);
    t.close(&mut net);
}

#[test]
fn ephemeral_binds_get_distinct_ports() {
    let mut net = Net::new();
    let a = UdpSocket::open(&mut net, 0).unwrap();
    let b = UdpSocket::open(&mut net, 0).unwrap();
    assert!(a.port >= EPHEMERAL_FIRST);
    assert!(b.port >= EPHEMERAL_FIRST);
    assert_ne!(a.port, b.port);
    a.close(&mut net);
    b.close(&mut net);
}

#[test]
fn accept_returns_nothing_without_pending_and_one_per_attempt() {
    let mut net = Net::new();
    let mut s = TcpSocket::open(&mut net, addr(0, 4000)).unwrap();
    assert!(s.try_ack(&mut net).is_none());
    let peer = addr(0x0A000002, 50001);
    s.incoming(peer);
    let c = s.try_ack(&mut net).unwrap();
    assert_eq!(c.address(), peer);
    assert!(s.try_ack(&mut net).is_none());
    c.close(&mut net);
    s.close(&mut net);
}

#[test]
fn accepts_come_in_arrival_order() {
    let mut net = Net::new();
    let mut s = TcpSocket::open(&mut net, addr(0, 4001)).unwrap();
    s.incoming(addr(1, 11));
    s.incoming(addr(2, 22));
    let c1 = s.try_ack(&mut net).unwrap();
    let c2 = s.try_ack(&mut net).unwrap();
    assert_eq!(c1.address(), addr(1, 11));
    assert_eq!(c2.address(), addr(2, 22));
    assert_ne!(c1.handle, c2.handle);
    c1.close(&mut net);
    c2.close(&mut net);
    s.close(&mut net);
}

#[test]
fn listener_and_peer_scenario_end_to_end() {
    // Host A opens an ephemeral listener and learns its port; host B aims at
    // it; the accepted connection reports B's outbound address; closing the
    // listener leaves the accepted connection intact.
    let mut net = Net::new();
    let mut listener = TcpSocket::open(&mut net, addr(0, 0)).unwrap();
    let local = listener.local_address();
    assert!(local.port >= EPHEMERAL_FIRST);
    let client = NetClient::new(&net, 0x0A000001, Some(local.port)).unwrap();
    assert_eq!(client.socket.port, local.port);
    let b_outbound = addr(0x0A000001, 49999);
    listener.incoming(b_outbound);
    let conn = listener.try_ack(&mut net).unwrap();
    assert_eq!(conn.address(), b_outbound);
    listener.close(&mut net);
    assert_eq!(conn.address(), b_outbound);
    conn.close(&mut net);
}

#[test]
fn connection_new_keeps_what_it_was_given() {
    let c = TcpConnection::new(7, addr(9, 99));
    assert_eq!(c.handle, 7);
    assert_eq!(c.address(), addr(9, 99));
}

#[test]
fn channels_are_four_views_in_slot_order() {
    let mut net = Net::new();
    let u = UdpSocket::open(&mut net, 6000).unwrap();
    let chans = u.channels();
    assert_eq!(chans.len(), 4);
    for (i, c) in chans.iter().enumerate() {
        assert_eq!(c.id, i);
    }
    u.close(&mut net);
}

#[test]
fn rebinding_a_channel_keeps_only_the_latest_peer() {
    let mut net = Net::new();
    let mut u = UdpSocket::open(&mut net, 6001).unwrap();
    let chans = u.channels();
    let a1 = addr(0x0B000001, 1111);
    let a2 = addr(0x0B000002, 2222);
    chans[1].bind_channel(&mut u, a1).unwrap();
    chans[1].bind_channel(&mut u, a2).unwrap();
    assert_eq!(u.classify(a2), Some(1));
    assert_eq!(u.classify(a1), None);
    chans[1].unbind(&mut u);
    assert_eq!(u.classify(a2), None);
    u.close(&mut net);
}

#[test]
fn classification_prefers_the_first_matching_slot() {
    let mut net = Net::new();
    let mut u = UdpSocket::open(&mut net, 6002).unwrap();
    let chans = u.channels();
    let peer = addr(0x0C000001, 3333);
    chans[2].bind_channel(&mut u, peer).unwrap();
    chans[0].bind_channel(&mut u, peer).unwrap();
    assert_eq!(u.classify(peer), Some(0));
    chans[0].unbind(&mut u);
    assert_eq!(u.classify(peer), Some(2));
    u.close(&mut net);
}

#[test]
fn binding_a_slot_outside_the_table_fails() {
    let mut net = Net::new();
    let mut u = UdpSocket::open(&mut net, 6003).unwrap();
    let stray = UdpChannel { id: 7 };
    assert_eq!(stray.bind_channel(&mut u, addr(1, 1)).unwrap_err(), NetError::BindFailed);
    assert_eq!(u.classify(addr(1, 1)), None);
    u.close(&mut net);
}

#[test]
fn push_then_remove_restores_count_and_capacity() {
    let mut net = Net::new();
    let mut set = SocketSet::with_capacity(&net, 2).unwrap();
    let t = TcpSocket::open(&mut net, addr(0, 5000)).unwrap();
    let h = t.handle;
    assert_eq!(set.sockets.len(), 0);
    assert_eq!(set.cap, 2);
    set.push_tcp(t);
    assert_eq!(set.sockets.len(), 1);
    let t = set.remove_tcp(h).unwrap();
    assert_eq!(set.sockets.len(), 0);
    assert_eq!(set.cap, 2);
    t.close(&mut net);
}

#[test]
fn removing_an_absent_socket_is_a_no_op() {
    let net = Net::new();
    let mut set = SocketSet::new(&net);
    assert!(set.remove_tcp(42).is_none());
    assert!(set.remove_udp(42).is_none());
    assert_eq!(set.sockets.len(), 0);
}

#[test]
fn remove_gives_the_socket_back_with_its_state() {
    let mut net = Net::new();
    let mut set = SocketSet::new(&net);
    let mut t = TcpSocket::open(&mut net, addr(0, 5001)).unwrap();
    t.incoming(addr(3, 33));
    let h = t.handle;
    set.push_tcp(t);
    let t = set.remove_tcp(h).unwrap();
    assert_eq!(t.pending.len(), 1);
    let mut t = t;
    let c = t.try_ack(&mut net).unwrap();
    assert_eq!(c.address(), addr(3, 33));
    c.close(&mut net);
    t.close(&mut net);
}

#[test]
fn growth_keeps_readiness_reporting_for_all_registered_sockets() {
    // Three sockets pushed into a set of capacity two: the third push grows
    // the set, and readiness is still reported over all three.
    let mut net = Net::new();
    let mut set = SocketSet::with_capacity(&net, 2).unwrap();
    let mut a = TcpSocket::open(&mut net, addr(0, 5100)).unwrap();
    let b = TcpSocket::open(&mut net, addr(0, 5101)).unwrap();
    let c = TcpSocket::open(&mut net, addr(0, 5102)).unwrap();
    a.incoming(addr(1, 1));
    let (ha, hb, hc) = (a.handle, b.handle, c.handle);
    set.push_tcp(a);
    set.push_tcp(b);
    assert_eq!(set.cap, 2);
    set.push_tcp(c);
    assert!(set.cap >= 3);
    assert_eq!(set.active_sockets_num(0), 1);
    assert!(set.incoming_tcp(hb, addr(2, 2)));
    assert!(set.incoming_tcp(hc, addr(3, 3)));
    assert_eq!(set.active_sockets_num(0), 3);
    for h in [ha, hb, hc] {
        set.remove_tcp(h).unwrap().close(&mut net);
    }
}

#[test]
fn reserve_raises_capacity_and_keeps_registrations() {
    let mut net = Net::new();
    let mut set = SocketSet::new(&net);
    let t = TcpSocket::open(&mut net, addr(0, 5200)).unwrap();
    let h = t.handle;
    set.push_tcp(t);
    set.reserve(8);
    assert_eq!(set.cap, 9);
    assert_eq!(set.sockets.len(), 1);
    assert_eq!(set.mux, vec![h]);
    set.remove_tcp(h).unwrap().close(&mut net);
}

#[test]
fn udp_readiness_scenario_with_capacity_one() {
    // A set of capacity one with one UDP socket: nothing in flight reports
    // zero; after one datagram arrives the count is at least one.
    let mut net = Net::new();
    let mut set = SocketSet::with_capacity(&net, 1).unwrap();
    let u = UdpSocket::open(&mut net, 0).unwrap();
    let h = u.handle;
    set.push_udp(u);
    assert_eq!(set.active_sockets_num(0), 0);
    assert!(set.deliver_udp(h, addr(0x0D000001, 4444)));
    assert!(set.active_sockets_num(1000) >= 1);
    let u = set.remove_udp(h).unwrap();
    assert_eq!(u.inbox.len(), 1);
    u.close(&mut net);
}

#[test]
fn delivery_to_an_unregistered_handle_reports_failure() {
    let net = Net::new();
    let mut set = SocketSet::new(&net);
    assert!(!set.deliver_udp(5, addr(1, 1)));
    assert!(!set.incoming_tcp(5, addr(1, 1)));
}

#[test]
fn with_capacity_beyond_the_allocation_limit_fails() {
    let net = Net::new();
    assert_eq!(
        SocketSet::with_capacity(&net, MAX_SET_CAPACITY + 1).unwrap_err(),
        NetError::AllocFailed
    );
}

#[test]
fn server_prepares_wildcard_address_and_opens_once() {
    let mut net = Net::new();
    let mut server = NetServer::new(&net, 8088).unwrap();
    assert_eq!(server.address, addr(0, 8088));
    let s = server.open_tcp(&mut net).unwrap();
    assert_eq!(s.local.port, 8088);
    assert_eq!(server.open_tcp(&mut net).unwrap_err(), NetError::BindFailed);
    s.close(&mut net);
}

#[test]
fn server_poll_req_hands_out_requests_in_order() {
    let mut net = Net::new();
    let mut server = NetServer::new(&net, 8089).unwrap();
    let mut s = server.open_tcp(&mut net).unwrap();
    assert!(s.poll_req(&mut net).is_none());
    s.incoming(addr(4, 44));
    let q = s.poll_req(&mut net).unwrap();
    assert_eq!(q.peer, addr(4, 44));
    assert!(s.poll_req(&mut net).is_none());
    q.close(&mut net);
    s.close(&mut net);
}

#[test]
fn client_resolves_numeric_addresses_itself() {
    let net = Net::new();
    let c = NetClient::new(&net, 0xC0A80001, Some(443)).unwrap();
    assert_eq!(c.socket, addr(0xC0A80001, 443));
    let c = NetClient::new(&net, 0xC0A80001, None).unwrap();
    assert_eq!(c.socket.port, 0);
}

#[test]
fn client_with_hostname_follows_the_resolver_outcome() {
    let net = Net::new();
    let c = NetClient::with_hostname(&net, Some(0x08080808), Some(53)).unwrap();
    assert_eq!(c.socket, addr(0x08080808, 53));
    assert_eq!(
        NetClient::with_hostname(&net, None, Some(53)).unwrap_err(),
        NetError::ResolveFailed
    );
}

#[test]
fn resolve_ipv4_renders_dotted_quads() {
    assert_eq!(Net::resolve_ipv4(0x01020304), "1.2.3.4");
    assert_eq!(Net::resolve_ipv4(0), "0.0.0.0");
    assert_eq!(Net::resolve_ipv4(0xFFFFFFFF), "255.255.255.255");
    assert_eq!(Net::resolve_ipv4(0x7F000001), "127.0.0.1");
    assert_eq!(Net::resolve_ipv4(0xC0A8000A), "192.168.0.10");
}
