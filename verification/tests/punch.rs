use rendezvous::{
    handle_punch_hole_request, Action, AddrPayload, Delivery, Endpoint, Failure, Incoming,
    IpAddress, Outgoing, Peer, Pending, RendezvousServer, Step, Transport,
};

fn v4(a: u8, b: u8, c: u8, d: u8, port: u16) -> Endpoint {
    Endpoint { ip: IpAddress::V4(u32::from_be_bytes([a, b, c, d])), port }
}

fn failed(failure: Failure) -> Outgoing {
    Outgoing::PunchHoleResponse { address: AddrPayload::Raw(vec![]), failure: Some(failure) }
}

fn send<S>(delivery: Delivery<S>) -> Step<S> {
    Step::Done(Action { store: None, send: Some(delivery) })
}

#[test]
fn failure_responses_carry_no_address() {
    assert_eq!(Outgoing::failed(Failure::Offline), failed(Failure::Offline));
    assert_eq!(Outgoing::failed(Failure::IdNotExist), failed(Failure::IdNotExist));
}

#[test]
fn decision_for_an_absent_peer_is_id_not_exist() {
    let a = v4(9, 9, 9, 9, 4000);
    assert_eq!(handle_punch_hole_request(None, a, 5), (failed(Failure::IdNotExist), None));
}

#[test]
fn decision_for_a_stale_peer_is_offline() {
    let a = v4(9, 9, 9, 9, 4000);
    let b = Peer { socket_addr: v4(1, 2, 3, 4, 5000), last_reg_time: Some(1_000), pk: vec![1] };
    assert_eq!(
        handle_punch_hole_request(Some(b.clone()), a, 31_000),
        (failed(Failure::Offline), None)
    );
    assert_eq!(
        handle_punch_hole_request(Some(b), a, 30_999),
        (Outgoing::PunchHole { socket_addr: a }, Some(v4(1, 2, 3, 4, 5000)))
    );
    assert_eq!(
        handle_punch_hole_request(Some(Peer::default()), a, 0),
        (failed(Failure::Offline), None)
    );
}

#[test]
fn decision_compares_addresses_within_one_family() {
    let target = v4(1, 2, 3, 4, 5000);
    let b = Peer { socket_addr: target, last_reg_time: Some(0), pk: vec![] };

    let same = v4(1, 2, 3, 4, 4000);
    assert_eq!(
        handle_punch_hole_request(Some(b.clone()), same, 1),
        (Outgoing::FetchLocalAddr { socket_addr: same }, Some(target))
    );
    let other = v4(1, 2, 3, 5, 5000);
    assert_eq!(
        handle_punch_hole_request(Some(b.clone()), other, 1),
        (Outgoing::PunchHole { socket_addr: other }, Some(target))
    );
    let six = Endpoint { ip: IpAddress::V6(0x0102_0304), port: 5000 };
    assert_eq!(
        handle_punch_hole_request(Some(b), six, 1),
        (Outgoing::PunchHole { socket_addr: six }, Some(target))
    );

    let target6 = Endpoint { ip: IpAddress::V6(1), port: 80 };
    let b6 = Peer { socket_addr: target6, last_reg_time: Some(0), pk: vec![] };
    let same6 = Endpoint { ip: IpAddress::V6(1), port: 81 };
    assert_eq!(
        handle_punch_hole_request(Some(b6.clone()), same6, 1),
        (Outgoing::FetchLocalAddr { socket_addr: same6 }, Some(target6))
    );
    let four = Endpoint { ip: IpAddress::V4(1), port: 80 };
    assert_eq!(
        handle_punch_hole_request(Some(b6), four, 1),
        (Outgoing::PunchHole { socket_addr: four }, Some(target6))
    );
}

#[test]
fn unknown_id_by_datagram_is_answered_to_the_requester_through_the_queue() {
    let a = v4(9, 9, 9, 9, 4000);
    let mut server: RendezvousServer<u8> = RendezvousServer::new();
    let step = server.handle_msg(Incoming::PunchHoleRequest { id: "nobody".to_string() }, a, 10);
    let waiting = match step {
        Step::Lookup(waiting) => waiting,
        Step::Done(_) => panic!("the registry was empty"),
    };
    let action = server.resume(waiting, None, 11);
    assert_eq!(
        action,
        Action { store: None, send: Some(Delivery::Queue { msg: failed(Failure::IdNotExist), to: a }) }
    );
    assert!(!server.pm.is_in_memory("nobody"));
}

#[test]
fn unknown_id_on_a_stream_is_answered_on_the_requesters_connection() {
    let a = v4(9, 9, 9, 9, 4000);
    let mut server: RendezvousServer<&str> = RendezvousServer::new();
    let mut conn = server.accept(a, "sink of a");
    let step =
        server.handle_tcp_msg(&mut conn, Incoming::PunchHoleRequest { id: "nobody".to_string() }, 10);
    let waiting = Pending::PunchHole { id: "nobody".to_string(), addr: a, transport: Transport::Tcp };
    assert_eq!(step, Step::Lookup(waiting.clone()));
    assert!(!waiting.runs_detached());
    assert!(server.tcp_punch.contains(&a));

    let action = server.resume(waiting, None, 11);
    assert_eq!(
        action,
        Action {
            store: None,
            send: Some(Delivery::Stream {
                msg: failed(Failure::IdNotExist),
                sink: "sink of a",
                wait: true,
            }),
        }
    );
    assert!(!server.tcp_punch.contains(&a));
    assert!(conn.is_reading());
}

#[test]
fn a_failure_for_a_stream_that_is_gone_is_dropped() {
    let a = v4(9, 9, 9, 9, 4000);
    let mut server: RendezvousServer<&str> = RendezvousServer::new();
    let waiting = Pending::PunchHole { id: "nobody".to_string(), addr: a, transport: Transport::Tcp };
    assert_eq!(server.resume(waiting, None, 11), Action { store: None, send: None });
}

#[test]
fn stale_peer_is_offline_and_stays_in_the_registry() {
    let a = v4(9, 9, 9, 9, 4000);
    let b = v4(1, 2, 3, 4, 5000);
    let mut server: RendezvousServer<&str> = RendezvousServer::new();
    server.pm.update_pk("b1".to_string(), b, vec![1], 1_000);
    let before = server.pm.get("b1");

    let step = server.handle_msg(Incoming::PunchHoleRequest { id: "b1".to_string() }, a, 31_000);
    assert_eq!(step, send(Delivery::Queue { msg: failed(Failure::Offline), to: a }));
    assert_eq!(server.pm.get("b1"), before);

    let mut conn = server.accept(a, "sink of a");
    let step =
        server.handle_tcp_msg(&mut conn, Incoming::PunchHoleRequest { id: "b1".to_string() }, 31_000);
    assert_eq!(
        step,
        send(Delivery::Stream { msg: failed(Failure::Offline), sink: "sink of a", wait: true })
    );
    assert_eq!(server.pm.get("b1"), before);
    assert!(!server.tcp_punch.contains(&a));

    let step = server.handle_msg(Incoming::PunchHoleRequest { id: "b1".to_string() }, a, 30_999);
    assert_eq!(step, send(Delivery::Queue { msg: Outgoing::PunchHole { socket_addr: a }, to: b }));
}

#[test]
fn a_peer_known_only_to_the_durable_store_is_offline() {
    let a = v4(9, 9, 9, 9, 4000);
    let mut server: RendezvousServer<u8> = RendezvousServer::new();
    let waiting = Pending::PunchHole { id: "b1".to_string(), addr: a, transport: Transport::Udp };
    let action = server.resume(waiting, Some(vec![1, 2, 3]), 50);
    assert_eq!(
        action,
        Action { store: None, send: Some(Delivery::Queue { msg: failed(Failure::Offline), to: a }) }
    );
    assert_eq!(
        server.pm.get("b1"),
        Some(Peer { socket_addr: Endpoint::unspecified(), last_reg_time: None, pk: vec![1, 2, 3] })
    );

    let step = server.handle_msg(Incoming::PunchHoleRequest { id: "b1".to_string() }, a, 51);
    assert_eq!(step, send(Delivery::Queue { msg: failed(Failure::Offline), to: a }));
}

#[test]
fn the_two_punch_entry_points_differ_only_in_routing() {
    let a = v4(9, 9, 9, 9, 4000);
    let b = v4(1, 2, 3, 4, 5000);
    let mut server: RendezvousServer<&str> = RendezvousServer::new();
    server.pm.update_pk("b1".to_string(), b, vec![1], 0);
    let forward = send(Delivery::Queue { msg: Outgoing::PunchHole { socket_addr: a }, to: b });
    assert_eq!(server.handle_udp_punch_hole_request(a, "b1".to_string(), 5), forward);
    assert_eq!(server.handle_tcp_punch_hole_request(a, "b1".to_string(), 5), forward);

    let _conn = server.accept(a, "sink of a");
    assert_eq!(
        server.handle_udp_punch_hole_request(a, "b1".to_string(), 40_000),
        send(Delivery::Queue { msg: failed(Failure::Offline), to: a })
    );
    assert!(server.tcp_punch.contains(&a));
    assert_eq!(
        server.handle_tcp_punch_hole_request(a, "b1".to_string(), 40_000),
        send(Delivery::Stream { msg: failed(Failure::Offline), sink: "sink of a", wait: true })
    );
    assert!(!server.tcp_punch.contains(&a));
}
