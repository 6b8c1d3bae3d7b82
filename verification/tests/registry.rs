use rendezvous::{
    Action, Delivery, Endpoint, Incoming, IpAddress, Outgoing, Peer, PeerMap, Pending,
    PersistedPeerRecord, RegisterPkResult, RendezvousServer, Step, StoreWrite, REG_TIMEOUT,
};

fn v4(a: u8, b: u8, c: u8, d: u8, port: u16) -> Endpoint {
    Endpoint { ip: IpAddress::V4(u32::from_be_bytes([a, b, c, d])), port }
}

fn pk_answer<S>(step: &Step<S>) -> RegisterPkResult {
    match step {
        Step::Done(Action {
            send: Some(Delivery::Datagram { msg: Outgoing::RegisterPkResponse { result }, .. }),
            ..
        }) => *result,
        _ => panic!("no answer to a key registration"),
    }
}

#[test]
fn liveness_threshold_is_thirty_seconds() {
    assert_eq!(REG_TIMEOUT, 30_000);
}

#[test]
fn placeholder_has_no_address_no_key_and_is_always_stale() {
    let p = Peer::default();
    assert_eq!(p.socket_addr, v4(0, 0, 0, 0, 0));
    assert_eq!(p.socket_addr, Endpoint::unspecified());
    assert_eq!(p.last_reg_time, None);
    assert!(p.pk.is_empty());
    assert!(p.is_stale(0));
    assert!(p.is_stale(u64::MAX));
}

#[test]
fn staleness_starts_at_the_threshold() {
    let p = Peer { socket_addr: v4(1, 2, 3, 4, 5000), last_reg_time: Some(1_000), pk: vec![] };
    assert!(!p.is_stale(1_000));
    assert!(!p.is_stale(30_999));
    assert!(p.is_stale(31_000));
    assert!(p.is_stale(u64::MAX));
}

#[test]
fn a_clock_reading_before_the_refresh_is_not_stale() {
    let p = Peer { socket_addr: v4(1, 2, 3, 4, 5000), last_reg_time: Some(50_000), pk: vec![] };
    assert!(!p.is_stale(0));
    assert!(!p.is_stale(49_999));
}

#[test]
fn duplicate_copies_every_field() {
    let p = Peer { socket_addr: v4(1, 2, 3, 4, 5000), last_reg_time: Some(7), pk: vec![4, 5] };
    assert_eq!(p.duplicate(), p);
}

#[test]
fn same_ip_ignores_ports_and_tells_families_apart() {
    let a = v4(1, 2, 3, 4, 1);
    assert!(a.same_ip(&v4(1, 2, 3, 4, 2)));
    assert!(!a.same_ip(&v4(1, 2, 3, 5, 1)));
    let six = Endpoint { ip: IpAddress::V6(0x0102_0304), port: 1 };
    assert!(!a.same_ip(&six));
    assert!(!six.same_ip(&a));
    assert!(six.same_ip(&Endpoint { ip: IpAddress::V6(0x0102_0304), port: 9 }));
    assert!(!six.same_ip(&Endpoint { ip: IpAddress::V6(0x0102_0305), port: 1 }));
}

#[test]
fn empty_registry_knows_nobody() {
    let peers = PeerMap::new();
    assert!(!peers.is_in_memory("b1"));
    assert_eq!(peers.get("b1"), None);
}

#[test]
fn update_pk_overwrites_and_returns_what_to_persist() {
    let mut peers = PeerMap::new();
    let b = v4(1, 2, 3, 4, 5000);
    let record = peers.update_pk("b1".to_string(), b, vec![1, 2, 3], 77);
    assert_eq!(record, PersistedPeerRecord { ip: IpAddress::V4(0x0102_0304), pk: vec![1, 2, 3] });
    assert!(peers.is_in_memory("b1"));
    assert_eq!(
        peers.get("b1"),
        Some(Peer { socket_addr: b, last_reg_time: Some(77), pk: vec![1, 2, 3] })
    );

    let c = v4(5, 6, 7, 8, 9);
    let record = peers.update_pk("b1".to_string(), c, vec![9], 99);
    assert_eq!(record, PersistedPeerRecord { ip: c.ip, pk: vec![9] });
    assert_eq!(peers.get("b1"), Some(Peer { socket_addr: c, last_reg_time: Some(99), pk: vec![9] }));
}

#[test]
fn refresh_moves_the_peer_and_keeps_its_key() {
    let mut peers = PeerMap::new();
    assert_eq!(peers.refresh("b1", v4(1, 1, 1, 1, 1), 5), None);
    assert!(!peers.is_in_memory("b1"));

    peers.insert("b1".to_string(), Peer { socket_addr: v4(1, 1, 1, 1, 1), last_reg_time: None, pk: vec![] });
    assert_eq!(peers.refresh("b1", v4(2, 2, 2, 2, 2), 10), Some(true));
    assert_eq!(
        peers.get("b1"),
        Some(Peer { socket_addr: v4(2, 2, 2, 2, 2), last_reg_time: Some(10), pk: vec![] })
    );

    peers.update_pk("b1".to_string(), v4(2, 2, 2, 2, 2), vec![8], 11);
    assert_eq!(peers.refresh("b1", v4(3, 3, 3, 3, 3), 20), Some(false));
    assert_eq!(
        peers.get("b1"),
        Some(Peer { socket_addr: v4(3, 3, 3, 3, 3), last_reg_time: Some(20), pk: vec![8] })
    );
}

#[test]
fn restore_caches_the_persisted_key_but_yields_the_bare_placeholder() {
    let mut peers = PeerMap::new();
    let found = peers.restore("b1".to_string(), Some(vec![1, 2, 3]));
    assert_eq!(found, Some(Peer::default()));
    assert_eq!(
        peers.get("b1"),
        Some(Peer { socket_addr: Endpoint::unspecified(), last_reg_time: None, pk: vec![1, 2, 3] })
    );
}

#[test]
fn restore_without_a_persisted_record_finds_nothing() {
    let mut peers = PeerMap::new();
    assert_eq!(peers.restore("b1".to_string(), None), None);
    assert!(!peers.is_in_memory("b1"));
}

#[test]
fn register_pk_without_a_record_accepts() {
    let mut peers = PeerMap::new();
    let b = v4(1, 2, 3, 4, 5000);
    let (result, record) = peers.register_pk(None, "b1".to_string(), b, vec![1, 2, 3], 40);
    assert_eq!(result, RegisterPkResult::Okay);
    assert_eq!(record, Some(PersistedPeerRecord { ip: b.ip, pk: vec![1, 2, 3] }));
    assert_eq!(
        peers.get("b1"),
        Some(Peer { socket_addr: b, last_reg_time: Some(40), pk: vec![1, 2, 3] })
    );
}

#[test]
fn register_pk_twice_is_okay_twice_and_keeps_the_key() {
    let mut server: RendezvousServer<u8> = RendezvousServer::new();
    let b = v4(1, 2, 3, 4, 5000);
    let step = server.handle_msg(Incoming::RegisterPk { id: "b1".to_string(), pk: vec![7, 7] }, b, 10);
    let waiting = Pending::RegisterPk { id: "b1".to_string(), socket_addr: b, pk: vec![7, 7] };
    assert_eq!(step, Step::Lookup(waiting.clone()));
    assert!(!waiting.runs_detached());

    let action = server.resume(waiting, None, 12);
    assert_eq!(
        action,
        Action {
            store: Some(StoreWrite {
                id: "b1".to_string(),
                record: PersistedPeerRecord { ip: b.ip, pk: vec![7, 7] },
            }),
            send: Some(Delivery::Datagram {
                msg: Outgoing::RegisterPkResponse { result: RegisterPkResult::Okay },
                to: b,
            }),
        }
    );
    let stored = server.pm.get("b1");
    assert_eq!(stored, Some(Peer { socket_addr: b, last_reg_time: Some(12), pk: vec![7, 7] }));

    let elsewhere = v4(5, 5, 5, 5, 5);
    let step =
        server.handle_msg(Incoming::RegisterPk { id: "b1".to_string(), pk: vec![7, 7] }, elsewhere, 20);
    assert_eq!(
        step,
        Step::Done(Action {
            store: None,
            send: Some(Delivery::Datagram {
                msg: Outgoing::RegisterPkResponse { result: RegisterPkResult::Okay },
                to: elsewhere,
            }),
        })
    );
    assert_eq!(server.pm.get("b1"), stored);
}

#[test]
fn register_pk_with_another_key_is_a_mismatch_and_changes_nothing() {
    let mut server: RendezvousServer<u8> = RendezvousServer::new();
    let b = v4(1, 2, 3, 4, 5000);
    server.pm.update_pk("b1".to_string(), b, vec![1], 10);
    let before = server.pm.get("b1");

    let thief = v4(6, 6, 6, 6, 6);
    let step = server.handle_msg(Incoming::RegisterPk { id: "b1".to_string(), pk: vec![2] }, thief, 20);
    assert_eq!(
        step,
        Step::Done(Action {
            store: None,
            send: Some(Delivery::Datagram {
                msg: Outgoing::RegisterPkResponse { result: RegisterPkResult::PkMismatch },
                to: thief,
            }),
        })
    );
    assert_eq!(server.pm.get("b1"), before);

    let step = server.handle_msg(Incoming::RegisterPk { id: "b1".to_string(), pk: vec![] }, thief, 21);
    assert_eq!(pk_answer(&step), RegisterPkResult::PkMismatch);
    assert_eq!(server.pm.get("b1"), before);
}

#[test]
fn register_pk_on_an_unset_key_writes_it() {
    let mut server: RendezvousServer<u8> = RendezvousServer::new();
    let b = v4(1, 2, 3, 4, 5000);
    server.pm.insert("b1".to_string(), Peer { socket_addr: b, last_reg_time: Some(1), pk: vec![] });
    let step = server.handle_msg(Incoming::RegisterPk { id: "b1".to_string(), pk: vec![3] }, b, 30);
    assert_eq!(
        step,
        Step::Done(Action {
            store: Some(StoreWrite {
                id: "b1".to_string(),
                record: PersistedPeerRecord { ip: b.ip, pk: vec![3] },
            }),
            send: Some(Delivery::Datagram {
                msg: Outgoing::RegisterPkResponse { result: RegisterPkResult::Okay },
                to: b,
            }),
        })
    );
    assert_eq!(server.pm.get("b1"), Some(Peer { socket_addr: b, last_reg_time: Some(30), pk: vec![3] }));
}

#[test]
fn register_pk_after_a_cold_lookup_is_accepted_over_the_persisted_key() {
    let mut server: RendezvousServer<u8> = RendezvousServer::new();
    let b = v4(1, 2, 3, 4, 5000);
    let step = server.handle_msg(Incoming::RegisterPk { id: "b1".to_string(), pk: vec![2] }, b, 10);
    let waiting = match step {
        Step::Lookup(waiting) => waiting,
        Step::Done(_) => panic!("the registry was empty"),
    };
    let action = server.resume(waiting, Some(vec![1]), 11);
    assert_eq!(
        action,
        Action {
            store: Some(StoreWrite {
                id: "b1".to_string(),
                record: PersistedPeerRecord { ip: b.ip, pk: vec![2] },
            }),
            send: Some(Delivery::Datagram {
                msg: Outgoing::RegisterPkResponse { result: RegisterPkResult::Okay },
                to: b,
            }),
        }
    );
    assert_eq!(server.pm.get("b1"), Some(Peer { socket_addr: b, last_reg_time: Some(11), pk: vec![2] }));
}

#[test]
fn registration_with_an_empty_id_is_ignored() {
    let mut server: RendezvousServer<u8> = RendezvousServer::new();
    let step = server.handle_msg(Incoming::RegisterPeer { id: String::new() }, v4(1, 2, 3, 4, 5), 10);
    assert_eq!(step, Step::Done(Action { store: None, send: None }));
    assert!(!server.pm.is_in_memory(""));
}

#[test]
fn registration_of_a_known_peer_refreshes_it_and_answers_at_once() {
    let mut server: RendezvousServer<u8> = RendezvousServer::new();
    let old = v4(1, 2, 3, 4, 5000);
    let new = v4(1, 2, 3, 9, 6000);
    server.pm.insert("b1".to_string(), Peer { socket_addr: old, last_reg_time: Some(1), pk: vec![] });

    let step = server.handle_msg(Incoming::RegisterPeer { id: "b1".to_string() }, new, 500);
    assert_eq!(
        step,
        Step::Done(Action {
            store: None,
            send: Some(Delivery::Datagram {
                msg: Outgoing::RegisterPeerResponse { request_pk: true },
                to: new,
            }),
        })
    );
    assert_eq!(server.pm.get("b1"), Some(Peer { socket_addr: new, last_reg_time: Some(500), pk: vec![] }));

    server.pm.update_pk("b1".to_string(), new, vec![1], 600);
    let step = server.update_addr("b1".to_string(), old, 700);
    assert_eq!(
        step,
        Step::Done(Action {
            store: None,
            send: Some(Delivery::Datagram {
                msg: Outgoing::RegisterPeerResponse { request_pk: false },
                to: old,
            }),
        })
    );
    assert_eq!(server.pm.get("b1"), Some(Peer { socket_addr: old, last_reg_time: Some(700), pk: vec![1] }));
}

#[test]
fn cold_registration_enters_with_the_persisted_key_and_the_real_endpoint() {
    let mut server: RendezvousServer<u8> = RendezvousServer::new();
    let b = v4(1, 2, 3, 4, 5000);
    let waiting = Pending::RegisterPeer { id: "b1".to_string(), socket_addr: b, last_reg_time: 100 };
    let action = server.resume(waiting, Some(vec![1, 2, 3]), 900);
    assert_eq!(
        action,
        Action {
            store: None,
            send: Some(Delivery::Queue {
                msg: Outgoing::RegisterPeerResponse { request_pk: false },
                to: b,
            }),
        }
    );
    assert_eq!(
        server.pm.get("b1"),
        Some(Peer { socket_addr: b, last_reg_time: Some(100), pk: vec![1, 2, 3] })
    );
}

#[test]
fn log_messages_and_unknown_messages_do_nothing() {
    let mut server: RendezvousServer<u8> = RendezvousServer::new();
    let a = v4(1, 2, 3, 4, 5);
    let step = server.handle_msg(Incoming::SystemInfo { value: "hello".to_string() }, a, 1);
    assert_eq!(step, Step::Done(Action { store: None, send: None }));
    let step = server.handle_msg(Incoming::Unrecognized, a, 2);
    assert_eq!(step, Step::Done(Action { store: None, send: None }));
    assert!(!server.tcp_punch.contains(&a));
}

#[test]
fn an_answer_of_the_durable_store_touches_no_other_peer() {
    let mut server: RendezvousServer<u8> = RendezvousServer::new();
    let c = v4(8, 8, 8, 8, 8);
    server.pm.update_pk("c1".to_string(), c, vec![9], 5);
    let before = server.pm.get("c1");

    let b = v4(1, 2, 3, 4, 5000);
    let waiting = Pending::RegisterPeer { id: "b1".to_string(), socket_addr: b, last_reg_time: 7 };
    server.resume(waiting, None, 8);
    let waiting = Pending::RegisterPk { id: "b2".to_string(), socket_addr: b, pk: vec![1] };
    server.resume(waiting, Some(vec![2]), 9);
    assert_eq!(server.pm.get("c1"), before);
    assert_eq!(server.pm.get("b1"), Some(Peer { socket_addr: b, last_reg_time: Some(7), pk: vec![] }));
    assert!(server.pm.is_in_memory("b2"));
}
