use w_network::{
    feed_outcome, serialize_command, websocket_url, Arrival, BroadcastStep, Command, DecodeError,
    Delivery, Encoded, Fault, FrameKind, Incoming, KeepAlive, ListenAction, Lookup, NetworkError,
    PubKey, Session, SessionAction, SessionEvent, SocketAddr, WNetwork, WNetworkInner,
    MESSAGE_OFFSET,
};

#[derive(Clone, Debug, PartialEq, Eq)]
struct Test {
    message: u64,
}

fn key(nonce: u64) -> PubKey {
    PubKey::new(nonce.to_le_bytes().to_vec())
}

fn localhost(port: u16) -> SocketAddr {
    SocketAddr::V4 {
        ipv4: 0x7f00_0001,
        port,
    }
}

fn encode(test: &Test) -> Encoded {
    bincode::serialize(&test.message).map_err(|error| error.to_string())
}

fn node(own_key: PubKey, port: u16) -> WNetwork<Test> {
    WNetwork::new_from_strings(own_key, vec![], port, None).unwrap()
}

/// The event of a frame that arrives, with its message decoded.
fn arrival(frame: Vec<u8>) -> SessionEvent<Test> {
    let message = match w_network::frame_kind(&frame) {
        Ok(FrameKind::Broadcast) | Ok(FrameKind::Direct) => {
            let rest = &frame[MESSAGE_OFFSET..];
            bincode::deserialize::<u64>(rest)
                .ok()
                .map(|message| (Test { message }, 8))
        }
        _ => None,
    };
    SessionEvent::Received(Incoming::Binary {
        bytes: frame,
        message,
    })
}

/// Connects `from` to the node `to` that listens at `to_addr`; `from_addr` is the other end.
fn connect(
    from: &mut WNetwork<Test>,
    from_addr: SocketAddr,
    to: &mut WNetwork<Test>,
    to_addr: SocketAddr,
) -> (Session, Session) {
    let dialed = from
        .connect_to(to.own_key().clone(), Ok(to_addr))
        .expect("Failed to connect to node");
    let mut accepted = to.accepted(from_addr, true).unwrap();
    let upgraded = dialed.upgraded(Ok(())).unwrap();
    let ident = upgraded.ident.clone();
    let opened = from.introduced(upgraded, Ok(())).unwrap();
    let action = to.session_step(&mut accepted, arrival(ident));
    assert_eq!(action, SessionAction::AwaitNext);
    (opened, accepted)
}

/// The frame of a delivery over an open connection.
fn frame_to(delivery: Result<Delivery, NetworkError>, addr: SocketAddr) -> Vec<u8> {
    match delivery {
        Ok(Delivery::Feed { addr: to, frame }) => {
            assert_eq!(to, addr);
            frame
        }
        other => panic!("no open connection: {:?}", other),
    }
}

fn lookup(key: PubKey, input: &str, addrs: Vec<SocketAddr>) -> Lookup {
    Lookup {
        key,
        input: input.to_string(),
        outcome: Ok(addrs),
    }
}

#[test]
fn w_network_inner_address_smoke() {
    // Give ourselves an arbitrary pub key
    let own_key = key(1234);
    // Make some key/address pairs
    let pub_keys: Vec<PubKey> = (0..3).map(key).collect();
    let inputs = vec!["localhost:8080", "localhost:8081", "localhost:8082"];
    let sockets = vec![localhost(8080), localhost(8081), localhost(8082)];
    let mut input_strings = vec![];
    let mut input_sockets = vec![];
    for i in 0..3 {
        input_strings.push(lookup(pub_keys[i].clone(), inputs[i], vec![sockets[i]]));
        input_sockets.push((pub_keys[i].clone(), sockets[i]));
    }

    let x: WNetworkInner<Test> = WNetworkInner::new(own_key.clone(), input_sockets);
    let y: WNetworkInner<Test> =
        WNetworkInner::new_from_strings(own_key.clone(), input_strings).unwrap();

    // Compare the nodes tables for equality
    assert!(x.same_nodes(&y));

    // Ensure that we can construct an outer WNetwork with the same strings
    let mut input_strings = vec![];
    for i in 0..3 {
        input_strings.push(lookup(pub_keys[i].clone(), inputs[i], vec![sockets[i]]));
    }
    let z: WNetwork<Test> =
        WNetwork::new_from_strings(own_key, input_strings, 1234, None).unwrap();
    assert_eq!(z.known_nodes().len(), 3);
}

#[test]
fn process_generates_once() {
    let own_key = key(1234);
    let port = 8087;
    let mut y: WNetwork<Test> =
        WNetwork::new_from_strings(own_key, vec![], port, None).expect("Creating WNetwork");

    // First call
    let first = y.generate_task();
    assert!(first.is_some());
    assert_eq!(first.unwrap().port, 8087);

    // Second call
    let second = y.generate_task();
    assert!(second.is_none());

    // Whatever happens in between
    y.accepted(localhost(1), true).unwrap();
    assert!(y.generate_task().is_none());
}

#[test]
fn verify_single_message() {
    let node_a_key = key(1000);
    let node_b_key = key(1001);
    // Construct the nodes
    let mut node_a = node(node_a_key, 10000);
    let mut node_b = node(node_b_key.clone(), 10001);
    // Launch the tasks
    node_a
        .generate_task()
        .expect("Failed to open task for node a");
    node_b
        .generate_task()
        .expect("Failed to open task for node b");
    // Manually connect the nodes
    let b_addr = localhost(10001);
    let (_, mut b_session) = connect(&mut node_a, localhost(50000), &mut node_b, b_addr);
    // Send message from a to b
    let message = Test { message: 42 };
    let frame = frame_to(node_a.message_node(encode(&message), node_b_key), b_addr);
    let action = node_b.session_step(&mut b_session, arrival(frame));
    assert_eq!(action, SessionAction::AwaitNext);
    // attempt to pick it back up from node b
    let recieved_messages = node_b.direct_queue().unwrap();
    assert_eq!(recieved_messages[0], message);
    assert_eq!(recieved_messages.len(), 1);
    assert_eq!(node_b.direct_queue().unwrap(), vec![]);
    assert_eq!(node_b.broadcast_queue().unwrap(), vec![]);
}

#[test]
fn verify_double_message() {
    let node_a_key = key(1002);
    let node_b_key = key(1003);
    // Construct the nodes
    let mut node_a = node(node_a_key.clone(), 10002);
    let mut node_b = node(node_b_key.clone(), 10003);
    // Launch the tasks
    node_a
        .generate_task()
        .expect("Failed to open task for node a");
    node_b
        .generate_task()
        .expect("Failed to open task for node b");
    let a_addr = localhost(50001);
    let b_addr = localhost(10003);
    let (mut a_session, mut b_session) = connect(&mut node_a, a_addr, &mut node_b, b_addr);
    // Send message from a to b
    let message = Test { message: 42 };
    let frame = frame_to(node_a.message_node(encode(&message), node_b_key), b_addr);
    node_b.session_step(&mut b_session, arrival(frame));
    let recieved_messages = node_b.direct_queue().unwrap();
    assert_eq!(recieved_messages[0], message);
    // Send message from b to a, over the connection that a identified itself on
    let message2 = Test { message: 43 };
    let frame = frame_to(node_b.message_node(encode(&message2), node_a_key), a_addr);
    node_a.session_step(&mut a_session, arrival(frame));
    let recieved_messages = node_a.direct_queue().unwrap();
    assert_eq!(recieved_messages[0], message2);
}

#[test]
fn twenty_messsages() {
    let node_a_key = key(1004);
    let node_b_key = key(1005);
    // Construct the nodes
    let mut node_a = node(node_a_key.clone(), 10004);
    let mut node_b = node(node_b_key.clone(), 10005);
    // Launch the tasks
    node_a
        .generate_task()
        .expect("Failed to open task for node a");
    node_b
        .generate_task()
        .expect("Failed to open task for node b");
    let a_addr = localhost(50002);
    let b_addr = localhost(10005);
    let (mut a_session, mut b_session) = connect(&mut node_a, a_addr, &mut node_b, b_addr);
    // Fire off 20 messages
    for i in 0..20 {
        // a -> b
        let message_a = Test { message: i };
        assert_eq!(node_b.next_direct().unwrap(), None);
        let delivery = node_a.message_node(encode(&message_a), node_b_key.clone());
        node_b.session_step(&mut b_session, arrival(frame_to(delivery, b_addr)));
        let rec = node_b
            .next_direct()
            .expect("Failed to check b for pending message");
        assert_eq!(rec.unwrap(), message_a);
        // b -> a
        let message_b = Test { message: i + 1000 };
        let delivery = node_b.message_node(encode(&message_b), node_a_key.clone());
        node_a.session_step(&mut a_session, arrival(frame_to(delivery, a_addr)));
        let rec = node_a
            .next_direct()
            .expect("Failed to check b for pending message");
        assert_eq!(rec.unwrap(), message_b);
    }
}

#[test]
fn of_two_entries_the_later_one_counts() {
    let twice = vec![(key(1), localhost(1)), (key(1), localhost(2))];
    let once = vec![(key(1), localhost(2))];
    let x: WNetworkInner<Test> = WNetworkInner::new(key(0), twice);
    let y: WNetworkInner<Test> = WNetworkInner::new(key(0), once);
    let z: WNetworkInner<Test> = WNetworkInner::new(key(0), vec![(key(1), localhost(1))]);
    let none: WNetworkInner<Test> = WNetworkInner::new(key(0), vec![]);
    assert!(x.same_nodes(&y));
    assert!(!x.same_nodes(&z));
    assert!(!x.same_nodes(&none));
    assert!(!none.same_nodes(&x));
}

#[test]
fn first_name_without_address_is_the_error() {
    let failed = |nonce| Lookup {
        key: key(nonce),
        input: "nowhere".to_string(),
        outcome: Err("no such host".to_string()),
    };
    let fine = |nonce| lookup(key(nonce), "here", vec![localhost(1), localhost(2)]);
    let empty = |nonce| lookup(key(nonce), "void", vec![]);
    assert!(fine(0).usable());
    assert!(!failed(0).usable());
    assert!(!empty(0).usable());

    let r: Result<WNetwork<Test>, _> =
        WNetwork::new_from_strings(key(9), vec![fine(0), empty(1), failed(2)], 1, None);
    assert_eq!(
        r.err(),
        Some(NetworkError::NoSocketsError {
            input: "void".to_string()
        })
    );
    let r: Result<WNetwork<Test>, _> =
        WNetwork::new_from_strings(key(9), vec![fine(0), failed(2), empty(1)], 1, None);
    assert_eq!(
        r.err(),
        Some(NetworkError::SocketDecodeError {
            input: "nowhere".to_string(),
            source: "no such host".to_string()
        })
    );
    // The first of several addresses is used
    let r: WNetwork<Test> = WNetwork::new_from_strings(key(9), vec![fine(0)], 1, None).unwrap();
    assert!(matches!(
        r.message_node(encode(&Test { message: 1 }), key(0)),
        Ok(Delivery::Connect { addr, .. }) if addr == localhost(1)
    ));
}

#[test]
fn fresh_node() {
    let own = node(key(3), 77);
    assert_eq!(own.port(), 77);
    assert_eq!(own.own_key(), &key(3));
    let standard = own.keep_alive_duration();
    assert_eq!(standard.secs(), 0);
    assert_eq!(standard.nanos(), 100_000_000);
    assert_eq!(KeepAlive::default(), standard);
    assert_eq!(own.ping_count(), 0);
    assert_eq!(own.pong_count(), 0);
    assert_eq!(own.known_nodes(), vec![]);
    assert!(!own.is_connected(localhost(1)));
    let period = KeepAlive::new(5, 1).unwrap();
    let slow: WNetwork<Test> =
        WNetwork::new_from_strings(key(3), vec![], 77, Some(period)).unwrap();
    assert_eq!(slow.keep_alive_duration(), period);
    assert_eq!(slow.keep_alive_duration().secs(), 5);
    assert_eq!(slow.keep_alive_duration().nanos(), 1);
    assert_eq!(KeepAlive::new(5, 1_000_000_000), None);
    assert!(KeepAlive::new(5, 999_999_999).is_some());
}

#[test]
fn messages_for_others_are_discarded() {
    let mut own = node(key(1), 1);
    let action = own.receive(
        localhost(9),
        Command::Direct {
            inner: Test { message: 5 },
            from: key(2),
            to: key(3),
        },
    );
    assert_eq!(action, SessionAction::AwaitNext);
    assert_eq!(own.next_direct().unwrap(), None);
    assert_eq!(own.next_broadcast().unwrap(), None);
}

#[test]
fn messages_are_taken_in_order() {
    let mut own = node(key(1), 1);
    for message in 0..4 {
        own.receive(
            localhost(9),
            Command::Broadcast {
                inner: Test { message },
                from: key(2),
            },
        );
        own.receive(
            localhost(9),
            Command::Direct {
                inner: Test {
                    message: message + 100,
                },
                from: key(2),
                to: key(1),
            },
        );
    }
    assert_eq!(own.next_broadcast().unwrap(), Some(Test { message: 0 }));
    assert_eq!(
        own.broadcast_queue().unwrap(),
        vec![
            Test { message: 1 },
            Test { message: 2 },
            Test { message: 3 }
        ]
    );
    assert_eq!(own.next_broadcast().unwrap(), None);
    assert_eq!(own.next_direct().unwrap(), Some(Test { message: 100 }));
    assert_eq!(own.next_direct().unwrap(), Some(Test { message: 101 }));
    assert_eq!(own.direct_queue().unwrap().len(), 2);
    assert_eq!(own.next_direct().unwrap(), None);
}

#[test]
fn identified_nodes_are_known() {
    let mut own = node(key(1), 1);
    own.accepted(localhost(9), true).unwrap();
    own.receive(localhost(9), Command::Identify { from: key(2) });
    own.receive(localhost(9), Command::Identify { from: key(3) });
    own.receive(localhost(9), Command::Identify { from: key(2) });
    let known = own.known_nodes();
    assert_eq!(known.len(), 2);
    assert!(known.contains(&key(2)));
    assert!(known.contains(&key(3)));
    frame_to(
        own.message_node(encode(&Test { message: 1 }), key(3)),
        localhost(9),
    );
}

#[test]
fn ping_comes_back_as_pong() {
    let mut node_a = node(key(1), 1);
    let mut node_b = node(key(2), 2);
    let (mut a, mut b) = connect(&mut node_a, localhost(8), &mut node_b, localhost(9));
    let ping = match node_a.session_step(&mut a, SessionEvent::TimerFired) {
        SessionAction::FeedPing(frame) => frame,
        other => panic!("no ping: {:?}", other),
    };
    assert_eq!(ping, vec![3, 0, 0, 0]);
    assert_eq!(node_a.ping_count(), 0);
    assert!(!a.expects::<Test>(&SessionEvent::TimerFired));
    let action = node_a.session_step(&mut a, SessionEvent::PingFed(true));
    assert_eq!(action, SessionAction::RestartTimer);
    assert_eq!(node_a.ping_count(), 1);

    let pong = match node_b.session_step(&mut b, arrival(ping)) {
        SessionAction::FeedPong(frame) => frame,
        other => panic!("no pong: {:?}", other),
    };
    assert_eq!(pong, vec![4, 0, 0, 0]);
    assert!(!b.expects(&arrival(vec![3, 0, 0, 0])));
    assert!(b.expects::<Test>(&SessionEvent::TimerFired));
    let action = node_b.session_step(&mut b, SessionEvent::PongFed(true));
    assert_eq!(action, SessionAction::AwaitNext);

    let action = node_a.session_step(&mut a, arrival(pong));
    assert_eq!(action, SessionAction::AwaitNext);
    assert_eq!(node_a.pong_count(), 1);
    assert_eq!(node_b.pong_count(), 0);
}

#[test]
fn session_ends() {
    let mut own = node(key(1), 1);
    let event = |incoming| SessionEvent::Received(incoming);
    let mut session = own.accepted(localhost(9), true).unwrap();
    assert_eq!(session.peer(), localhost(9));
    let action = own.session_step(&mut session, event(Incoming::Other));
    assert_eq!(action, SessionAction::AwaitNext);
    let action = own.session_step(&mut session, event(Incoming::Close));
    assert_eq!(action, SessionAction::Stop);
    assert!(!session.expects::<Test>(&SessionEvent::TimerFired));
    assert!(!session.expects::<Test>(&SessionEvent::PingFed(true)));

    let mut session = own.accepted(localhost(9), true).unwrap();
    let action = own.session_step(&mut session, event(Incoming::Ended));
    assert_eq!(action, SessionAction::Fail(Fault::StreamEnded));

    let mut session = own.accepted(localhost(9), true).unwrap();
    let action = own.session_step(&mut session, event(Incoming::Failed));
    assert_eq!(action, SessionAction::Fail(Fault::StreamError));

    let mut session = own.accepted(localhost(9), true).unwrap();
    let action = own.session_step(&mut session, arrival(vec![0xff]));
    assert_eq!(
        action,
        SessionAction::Fail(Fault::Undecodable(DecodeError::Truncated))
    );
    assert!(!session.expects::<Test>(&SessionEvent::TimerFired));
}

#[test]
fn feeding_can_fail() {
    let mut own = node(key(1), 1);
    let mut session = own.accepted(localhost(9), true).unwrap();
    own.session_step(&mut session, SessionEvent::TimerFired);
    let action = own.session_step(&mut session, SessionEvent::PingFed(false));
    assert_eq!(action, SessionAction::Fail(Fault::PingNotSent));
    assert_eq!(own.ping_count(), 0);

    let mut session = own.accepted(localhost(9), true).unwrap();
    own.session_step(&mut session, arrival(vec![3, 0, 0, 0]));
    let action = own.session_step(&mut session, SessionEvent::PongFed(false));
    assert_eq!(action, SessionAction::Fail(Fault::PongNotSent));
}

#[test]
fn sessions_off_the_record_fail() {
    let mut own = node(key(1), 1);
    let mut session = own.register_incoming_connection(localhost(9));
    let action = own.session_step(&mut session, SessionEvent::TimerFired);
    assert_eq!(action, SessionAction::Fail(Fault::NoPingSocket));
    let mut session = own.register_incoming_connection(localhost(9));
    let action = own.session_step(&mut session, arrival(vec![3, 0, 0, 0]));
    assert_eq!(action, SessionAction::Fail(Fault::UnknownSocket));
}

#[test]
fn connecting_can_fail_at_each_step() {
    let mut own = node(key(1), 1);
    let cause = || "refused".to_string();
    assert_eq!(
        own.connect_to(key(2), Err(cause())).err(),
        Some(NetworkError::ExecutorError { source: cause() })
    );
    let dialed = own.connect_to(key(2), Ok(localhost(9))).unwrap();
    assert_eq!(
        dialed.ident,
        vec![2, 0, 0, 0, 8, 0, 0, 0, 0, 0, 0, 0, 1, 0, 0, 0, 0, 0, 0, 0]
    );
    assert_eq!(
        dialed.upgraded(Err(cause())).err(),
        Some(NetworkError::WError { source: cause() })
    );
    let dialed = own.connect_to(key(2), Ok(localhost(9))).unwrap();
    let upgraded = dialed.upgraded(Ok(())).unwrap();
    assert_eq!(
        own.introduced(upgraded, Err(cause())).err(),
        Some(NetworkError::WError { source: cause() })
    );
    assert_eq!(own.known_nodes(), vec![]);
    assert!(!own.is_connected(localhost(9)));

    let dialed = own.connect_to(key(2), Ok(localhost(9))).unwrap();
    let upgraded = dialed.upgraded(Ok(())).unwrap();
    let session = own.introduced(upgraded, Ok(())).unwrap();
    assert_eq!(session.peer(), localhost(9));
    assert_eq!(own.known_nodes(), vec![key(2)]);
    assert!(own.is_connected(localhost(9)));
}

#[test]
fn url_of_a_server() {
    assert_eq!(websocket_url("127.0.0.1:10001"), "ws://127.0.0.1:10001");
}

#[test]
fn unknown_nodes_are_refused_first() {
    let own = node(key(1), 1);
    assert_eq!(
        own.message_node(Err("odd".to_string()), key(2)),
        Err(NetworkError::NoSuchNode)
    );
    let known: WNetwork<Test> = WNetwork::new_from_strings(
        key(1),
        vec![lookup(key(2), "b", vec![localhost(9)])],
        1,
        None,
    )
    .unwrap();
    assert_eq!(
        known.message_node(Err("odd".to_string()), key(2)),
        Err(NetworkError::FailedToSerialize {
            source: "odd".to_string()
        })
    );
}

#[test]
fn sending_connects_where_needed() {
    let mut own: WNetwork<Test> = WNetwork::new_from_strings(
        key(1),
        vec![lookup(key(2), "b", vec![localhost(9)])],
        1,
        None,
    )
    .unwrap();
    let ping: Command<Encoded> = Command::Ping;
    let frame = serialize_command(&ping).unwrap();
    assert_eq!(
        own.send_raw_message(&key(2), &ping),
        Ok(Delivery::Connect {
            addr: localhost(9),
            frame: frame.clone()
        })
    );
    assert_eq!(own.opened(localhost(9)), Err(Fault::ConnectionMissing));
    assert_eq!(
        own.resumed(localhost(9), frame.clone(), Ok(())),
        Ok(Err(Fault::ConnectionMissing))
    );
    let refused = || NetworkError::ExecutorError {
        source: "refused".to_string(),
    };
    assert_eq!(
        own.resumed(localhost(9), frame.clone(), Err(refused())),
        Err(refused())
    );
    let dialed = own.connect_to(key(2), Ok(localhost(9))).unwrap();
    let upgraded = dialed.upgraded(Ok(())).unwrap();
    own.introduced(upgraded, Ok(())).unwrap();
    assert_eq!(own.opened(localhost(9)), Ok(localhost(9)));
    assert_eq!(
        own.resumed(localhost(9), frame.clone(), Ok(())),
        Ok(Ok(Delivery::Feed {
            addr: localhost(9),
            frame: frame.clone()
        }))
    );
    assert_eq!(
        own.resumed(localhost(9), frame.clone(), Err(refused())),
        Err(refused())
    );
    assert_eq!(
        own.send_raw_message(&key(2), &ping),
        Ok(Delivery::Feed {
            addr: localhost(9),
            frame
        })
    );
    assert_eq!(feed_outcome(Ok(())), Ok(()));
    assert_eq!(
        feed_outcome(Err("gone".to_string())),
        Err(NetworkError::WError {
            source: "gone".to_string()
        })
    );
}

#[test]
fn broadcast_goes_to_all() {
    let nodes = vec![
        lookup(key(2), "b", vec![localhost(2)]),
        lookup(key(3), "c", vec![localhost(3)]),
        lookup(key(4), "d", vec![localhost(4)]),
    ];
    let own: WNetwork<Test> = WNetwork::new_from_strings(key(1), nodes, 1, None).unwrap();
    let message = Test { message: 6 };
    let mut broadcast = own.broadcast_message(encode(&message));
    assert_eq!(
        broadcast.command(),
        &Command::Broadcast {
            inner: encode(&message),
            from: key(1)
        }
    );
    let mut sent = vec![];
    let result = loop {
        match broadcast.step(Ok(())) {
            BroadcastStep::Send(to) => {
                assert!(own.send_raw_message(&to, broadcast.command()).is_ok());
                sent.push(to);
            }
            BroadcastStep::Done(result) => break result,
        }
    };
    assert_eq!(result, Ok(()));
    assert_eq!(sent.len(), 3);
    for nonce in 2..5 {
        assert!(sent.contains(&key(nonce)));
    }

    let frame = serialize_command(broadcast.command()).unwrap();
    let mut other = node(key(7), 7);
    let mut session = other.accepted(localhost(8), true).unwrap();
    other.session_step(&mut session, arrival(frame));
    assert_eq!(other.next_broadcast().unwrap(), Some(message));
    assert_eq!(other.next_direct().unwrap(), None);
}

#[test]
fn broadcast_stops_at_the_first_failure() {
    let nodes = vec![
        lookup(key(2), "b", vec![localhost(2)]),
        lookup(key(3), "c", vec![localhost(3)]),
    ];
    let own: WNetwork<Test> = WNetwork::new_from_strings(key(1), nodes, 1, None).unwrap();
    let mut broadcast = own.broadcast_message(encode(&Test { message: 6 }));
    assert!(matches!(broadcast.step(Ok(())), BroadcastStep::Send(_)));
    assert_eq!(
        broadcast.step(Err(NetworkError::NoSuchNode)),
        BroadcastStep::Done(Err(NetworkError::NoSuchNode))
    );
}

#[test]
fn listening() {
    let mut own = node(key(1), 8087);
    let task = own.generate_task().unwrap();
    assert_eq!(task.host(), "0.0.0.0");
    assert_eq!(
        task.listen_address(&Ok(vec![localhost(5), localhost(6)])),
        Ok(localhost(5))
    );
    assert_eq!(
        task.listen_address(&Ok(vec![])),
        Err(NetworkError::NoSocketsError {
            input: "8087".to_string()
        })
    );
    assert_eq!(
        task.listen_address(&Err("odd".to_string())),
        Err(NetworkError::SocketDecodeError {
            input: "8087".to_string(),
            source: "odd".to_string()
        })
    );
    assert_eq!(task.bound(Ok(())), Ok(()));
    assert_eq!(
        task.bound(Err("taken".to_string())),
        Err(NetworkError::FailedToBindListener {
            source: "taken".to_string()
        })
    );
    assert_eq!(task.arrived(Arrival::Exhausted), ListenAction::Finish);
    assert_eq!(task.arrived(Arrival::Stream), ListenAction::Handshake);
    assert_eq!(
        task.arrived(Arrival::Failed),
        ListenAction::Fail(Fault::IncomingFailed)
    );
    assert_eq!(
        own.accepted(localhost(9), false).err(),
        Some(Fault::HandshakeFailed)
    );
    assert!(!own.is_connected(localhost(9)));
    own.accepted(localhost(9), true).unwrap();
    assert!(own.is_connected(localhost(9)));
}

#[test]
fn ports_in_errors() {
    for (port, input) in vec![(0u16, "0"), (9, "9"), (10, "10"), (65535, "65535")] {
        let task = node(key(1), port).generate_task().unwrap();
        assert_eq!(
            task.listen_address(&Ok(vec![])),
            Err(NetworkError::NoSocketsError {
                input: input.to_string()
            })
        );
    }
}

#[test]
fn fault_messages() {
    assert_eq!(Fault::StreamEnded.message(), "Stream Ended");
    assert_eq!(Fault::StreamError.message(), "Stream Error");
    assert_eq!(
        Fault::Undecodable(DecodeError::Truncated).message(),
        "Failed to deserialize incoming message"
    );
    assert_eq!(
        Fault::UnknownSocket.message(),
        "Received on a socket we have no record of."
    );
    assert_eq!(Fault::PongNotSent.message(), "Failed to send pong");
    assert_eq!(Fault::PingNotSent.message(), "failed to send ping");
    assert_eq!(
        Fault::ConnectionMissing.message(),
        "Newly opened connection missing"
    );
    assert_eq!(
        Fault::IncomingFailed.message(),
        "Failed to bind incoming connection."
    );
    assert_eq!(Fault::HandshakeFailed.message(), "Error during handshake");
}
