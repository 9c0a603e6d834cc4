use flowcontrol::network::{
    resolve_connect_target, service_host_name, trim_trailing_dots, ConnectTarget, DiscoveryEvent, HostAddress,
    NetworkError, Peer, PeerAddr, PeerRegistry, PORT,
};

fn resolved(fullname: &str, host: &str, addresses: Vec<HostAddress>, port: u16) -> DiscoveryEvent {
    DiscoveryEvent::Resolved {
        fullname: fullname.to_string(),
        hostname: host.to_string(),
        addresses,
        port,
    }
}

#[test]
fn resolved_peer_is_listed_and_reachable() {
    let mut reg = PeerRegistry::new();
    let all = reg
        .apply(resolved("desk._flowcontrol._tcp.local.", "desk.local.", vec![HostAddress::V6, HostAddress::V4([192, 168, 1, 5])], 7878))
        .expect("peer list");
    assert_eq!(all.len(), 1);
    assert_eq!(all[0].id, "desk._flowcontrol._tcp.local.");
    assert_eq!(all[0].name, "desk.local");
    assert_eq!(
        reg.addr_of(&"desk._flowcontrol._tcp.local.".to_string()),
        Some(PeerAddr { ip: [192, 168, 1, 5], port: 7878 })
    );
}

#[test]
fn resolved_without_ipv4_is_skipped() {
    let mut reg = PeerRegistry::new();
    assert!(reg.apply(resolved("a", "a.local.", vec![HostAddress::V6], 1)).is_none());
    assert!(reg.peers().is_empty());
}

#[test]
fn first_ipv4_address_wins() {
    let mut reg = PeerRegistry::new();
    reg.apply(resolved("a", "a.", vec![HostAddress::V4([10, 0, 0, 1]), HostAddress::V4([10, 0, 0, 2])], 5));
    assert_eq!(reg.addr_of(&"a".to_string()), Some(PeerAddr { ip: [10, 0, 0, 1], port: 5 }));
}

#[test]
fn re_resolving_updates_address_and_lists_twice() {
    let mut reg = PeerRegistry::new();
    reg.apply(resolved("a", "a.", vec![HostAddress::V4([10, 0, 0, 1])], 5));
    let all = reg.apply(resolved("a", "a.", vec![HostAddress::V4([10, 0, 0, 9])], 6)).unwrap();
    assert_eq!(all.len(), 2);
    assert_eq!(reg.addr_of(&"a".to_string()), Some(PeerAddr { ip: [10, 0, 0, 9], port: 6 }));
}

#[test]
fn removed_peer_disappears() {
    let mut reg = PeerRegistry::new();
    reg.apply(resolved("a", "a.", vec![HostAddress::V4([10, 0, 0, 1])], 5));
    reg.apply(resolved("b", "b.", vec![HostAddress::V4([10, 0, 0, 2])], 5));
    let all = reg.apply(DiscoveryEvent::Removed { fullname: "a".to_string() }).unwrap();
    assert_eq!(all.len(), 1);
    assert_eq!(all[0].id, "b");
    assert_eq!(reg.addr_of(&"a".to_string()), None);
    assert_eq!(reg.addr_of(&"b".to_string()), Some(PeerAddr { ip: [10, 0, 0, 2], port: 5 }));
    assert!(reg.apply(DiscoveryEvent::Other).is_none());
    reg.clear();
    assert!(reg.peers().is_empty());
}

#[test]
fn trailing_dots_are_trimmed() {
    assert_eq!(trim_trailing_dots("host.local..."), "host.local");
    assert_eq!(trim_trailing_dots("..."), "");
    assert_eq!(trim_trailing_dots("a.b"), "a.b");
}

#[test]
fn connect_target_prefers_discovered_peer() {
    let peers = vec![
        Peer { id: "x".to_string(), name: "X".to_string() },
        Peer { id: "y".to_string(), name: "Y".to_string() },
    ];
    match resolve_connect_target(&peers, &"y".to_string()) {
        ConnectTarget::Discovered(p) => assert_eq!(p.name, "Y"),
        ConnectTarget::Direct(_) => panic!("expected a discovered peer"),
    }
}

#[test]
fn connect_target_adds_default_port() {
    match resolve_connect_target(&vec![], &"192.168.1.20".to_string()) {
        ConnectTarget::Direct(addr) => assert_eq!(addr, "192.168.1.20:7878"),
        ConnectTarget::Discovered(_) => panic!("expected a direct address"),
    }
    match resolve_connect_target(&vec![], &"192.168.1.20:9000".to_string()) {
        ConnectTarget::Direct(addr) => assert_eq!(addr, "192.168.1.20:9000"),
        ConnectTarget::Discovered(_) => panic!("expected a direct address"),
    }
    assert_eq!(PORT, 7878);
}

#[test]
fn host_name_replaces_non_alphanumerics() {
    assert_eq!(service_host_name("My Mac's Air"), "My-Mac-s-Air.local.");
    assert_eq!(service_host_name("pc2"), "pc2.local.");
}

#[test]
fn network_error_messages() {
    assert_eq!(NetworkError::ConnectionFailed("x".to_string()).message(), "connection failed: x");
    assert_eq!(NetworkError::SendFailed("not connected".to_string()).message(), "send failed: not connected");
    assert_eq!(NetworkError::Io("boom".to_string()).message(), "io error: boom");
}
