use roommate::status::{classify, peer_to_view, status_from_raw, ConnKind, RawPeer, RawStatus};

#[test]
fn classify_p2p() {
    let peer = RawPeer {
        online: Some(true),
        cur_addr: Some("1.2.3.4:41641".into()),
        relay: Some("txy".into()),
        ..Default::default()
    };
    assert_eq!(classify(&peer), ConnKind::P2p);
}

#[test]
fn classify_derp() {
    let peer = RawPeer {
        online: Some(true),
        cur_addr: Some("".into()),
        relay: Some("txy".into()),
        ..Default::default()
    };
    assert_eq!(classify(&peer), ConnKind::DerpRelay);
}

#[test]
fn classify_offline() {
    let peer = RawPeer {
        online: Some(false),
        relay: Some("txy".into()),
        ..Default::default()
    };
    assert_eq!(classify(&peer), ConnKind::Offline);
}

#[test]
fn classify_other_kinds() {
    let mut peer = RawPeer { online: Some(true), ..Default::default() };
    assert_eq!(classify(&peer), ConnKind::Idle);
    peer.active = Some(true);
    assert_eq!(classify(&peer), ConnKind::Unknown);
    peer.relay = Some("txy".into());
    peer.peer_relay = Some("10.0.0.1:7777".into());
    assert_eq!(classify(&peer), ConnKind::PeerRelay);
    peer.online = None;
    assert_eq!(classify(&peer), ConnKind::Offline);
}

/// A small `tailscale status --json` document with one peer, decoded.
fn fixture() -> RawStatus {
    RawStatus {
        backend_state: Some("Running".into()),
        self_node: Some(RawPeer {
            id: Some("n1".into()),
            host_name: Some("roommate-alice".into()),
            tailscale_ips: Some(vec!["100.64.0.1".into()]),
            online: Some(true),
            ..Default::default()
        }),
        peers: vec![(
            "n2".into(),
            RawPeer {
                id: Some("n2".into()),
                host_name: Some("roommate-bob".into()),
                tailscale_ips: Some(vec!["100.64.0.2".into()]),
                online: Some(true),
                active: Some(true),
                cur_addr: Some("".into()),
                relay: Some("txy".into()),
                tx_bytes: Some(1024),
                rx_bytes: Some(2048),
                ..Default::default()
            },
        )],
    }
}

#[test]
fn parse_fixture() {
    let status = status_from_raw(&fixture());
    assert_eq!(status.backend_state, "Running");
    assert_eq!(status.self_id, "n1");
    assert_eq!(status.self_ips, vec!["100.64.0.1"]);
    assert_eq!(status.peers.len(), 1);
    assert_eq!(status.peers[0].conn, ConnKind::DerpRelay);
    assert_eq!(status.peers[0].hostname, "roommate-bob");
    assert_eq!(status.peers[0].tx_bytes, 1024);
    assert_eq!(status.peers[0].rx_bytes, 2048);
}

#[test]
fn peer_view_fallbacks() {
    let peer = RawPeer { dns_name: Some("bob.tail.example.".into()), relay: Some("".into()), ..Default::default() };
    let v = peer_to_view("key7", &peer);
    assert_eq!(v.hostname, "bob.tail.example");
    assert_eq!(v.id, "key7");
    assert!(v.ips.is_empty());
    assert_eq!(v.relay, None);
    assert_eq!(v.cur_addr, None);
    assert_eq!(v.latency_ms, None);
    assert_eq!(v.tx_bytes, 0);
    assert!(!v.online);
    let bare = peer_to_view("key8", &RawPeer::default());
    assert_eq!(bare.hostname, "key8");
    assert_eq!(bare.conn, ConnKind::Offline);
}

#[test]
fn status_defaults_and_order() {
    let raw = RawStatus {
        backend_state: None,
        self_node: None,
        peers: vec![
            ("k1".into(), RawPeer { host_name: Some("zed".into()), ..Default::default() }),
            ("k2".into(), RawPeer { host_name: Some("Alpha".into()), ..Default::default() }),
            ("k3".into(), RawPeer { host_name: Some("beta".into()), ..Default::default() }),
            ("k4".into(), RawPeer { host_name: Some("ALPHA".into()), ..Default::default() }),
        ],
    };
    let st = status_from_raw(&raw);
    assert_eq!(st.backend_state, "Unknown");
    assert_eq!(st.self_id, "");
    assert!(st.self_ips.is_empty());
    assert_eq!(st.self_hostname, "local");
    let names: Vec<&str> = st.peers.iter().map(|p| p.hostname.as_str()).collect();
    assert_eq!(names, vec!["Alpha", "ALPHA", "beta", "zed"]);
    let self_dns = RawStatus {
        backend_state: Some("NeedsLogin".into()),
        self_node: Some(RawPeer { dns_name: Some("me.tail.".into()), ..Default::default() }),
        peers: vec![],
    };
    assert_eq!(status_from_raw(&self_dns).self_hostname, "me.tail.");
}
