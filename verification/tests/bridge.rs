use actors_interop::actor_ref::SendAction;
use actors_interop::bridge::{
    actor_exists, cpp_actor_lookup, create_rust_manager, deliver, get_actor_ref, get_rust_manager,
    init_cpp_actor_lookup, register_actor, register_rust_ping_actor, register_rust_pong_actor,
    register_rust_publisher, register_rust_subscriber, resolve, rust_manager_end,
    rust_manager_init, Bridge, Delivery, Phase, Resolution,
};
use actors_interop::dispatch::{dispatch, Envelope, OutboundCall};
use actors_interop::messages::{Message, MSG_PING, MSG_PONG, MSG_SUBSCRIBE};
use actors_interop::registry::Registry;
use actors_interop::status::{
    STATUS_MANAGER_NOT_CREATED, STATUS_OK, STATUS_TARGET_NOT_FOUND, STATUS_TYPE_MISMATCH,
    STATUS_UNKNOWN_MESSAGE_TYPE,
};

fn running_bridge(names: &[&[u8]]) -> Bridge {
    let mut bridge = Bridge::new();
    assert!(create_rust_manager(&mut bridge));
    for (i, name) in names.iter().enumerate() {
        assert_eq!(register_actor(&mut bridge, name), Some(i));
    }
    assert_eq!(rust_manager_init(&mut bridge), Some(names.len()));
    bridge
}

#[test]
fn status_codes_are_distinct() {
    let codes = [
        STATUS_OK,
        STATUS_TARGET_NOT_FOUND,
        STATUS_UNKNOWN_MESSAGE_TYPE,
        STATUS_TYPE_MISMATCH,
        STATUS_MANAGER_NOT_CREATED,
    ];
    assert_eq!(STATUS_OK, 0);
    for (i, a) in codes.iter().enumerate() {
        for b in codes.iter().skip(i + 1) {
            assert_ne!(a, b);
        }
        if i > 0 {
            assert!(*a < 0);
        }
    }
}

#[test]
fn deliver_ping_and_reply() {
    let mut bridge = Bridge::new();
    assert!(create_rust_manager(&mut bridge));
    assert_eq!(register_actor(&mut bridge, b"X"), Some(0));
    init_cpp_actor_lookup(&mut bridge);
    assert_eq!(rust_manager_init(&mut bridge), Some(1));

    let wire = Message::Ping { count: 1 }.to_wire();
    let delivery = deliver(&bridge, b"X", b"ext", MSG_PING, &wire);
    assert_eq!(delivery.status(), STATUS_OK);
    let (handle, from, message) = match delivery {
        Delivery::Enqueue { handle, sender, message } => (handle, sender, message),
        other => panic!("unexpected {:?}", other),
    };
    assert_eq!(handle, 0);
    assert_eq!(from, b"ext".to_vec());
    assert_eq!(message, Message::Ping { count: 1 });

    let count = match message {
        Message::Ping { count } => count,
        other => panic!("unexpected {:?}", other),
    };
    let peer = resolve(&bridge, &from, b"X", true).expect("the peer knows the sender");
    assert!(!peer.is_local());
    let action = peer.send(Envelope::new(Message::Pong { count }));
    assert_eq!(action.status(0), STATUS_OK);
    assert_eq!(action.status(-1), -1);
    assert_eq!(
        action,
        SendAction::Call(OutboundCall {
            target: b"ext".to_vec(),
            sender: b"X".to_vec(),
            type_id: MSG_PONG,
            wire: vec![1, 0, 0, 0],
        })
    );
}

#[test]
fn operations_before_creation_fail_quietly() {
    let mut bridge = Bridge::new();
    assert_eq!(bridge.current_phase(), Phase::Uninitialized);
    let wire = Message::Ping { count: 1 }.to_wire();
    assert_eq!(
        deliver(&bridge, b"X", b"ext", MSG_PING, &wire),
        Delivery::Rejected { status: STATUS_MANAGER_NOT_CREATED }
    );
    assert!(!actor_exists(&bridge, b"X"));
    assert_eq!(register_actor(&mut bridge, b"X"), None);
    assert_eq!(register_rust_ping_actor(&mut bridge), None);
    assert_eq!(rust_manager_init(&mut bridge), None);
    assert_eq!(rust_manager_end(&mut bridge), None);
    assert!(get_rust_manager(&bridge).is_none());
    assert_eq!(get_actor_ref(&bridge, b"X", b"me"), Resolution::NotFound);
    init_cpp_actor_lookup(&mut bridge);
    assert_eq!(resolve(&bridge, b"X", b"me", true), None);
    assert_eq!(bridge.current_phase(), Phase::Uninitialized);
    assert_eq!(bridge.actor_count(), 0);
}

#[test]
fn shutdown_twice_succeeds() {
    let mut bridge = running_bridge(&[b"a", b"b"]);
    assert_eq!(rust_manager_end(&mut bridge), Some(2));
    assert_eq!(bridge.current_phase(), Phase::ShutDown);
    assert_eq!(bridge.actor_count(), 0);
    assert_eq!(rust_manager_end(&mut bridge), Some(0));
    assert_eq!(bridge.current_phase(), Phase::ShutDown);
    assert!(!actor_exists(&bridge, b"a"));
    assert!(get_rust_manager(&bridge).is_none());
    assert!(!create_rust_manager(&mut bridge));
    assert_eq!(register_actor(&mut bridge, b"c"), None);
    assert_eq!(
        deliver(&bridge, b"a", b"", MSG_PING, &[1, 0, 0, 0]).status(),
        STATUS_MANAGER_NOT_CREATED
    );
}

#[test]
fn shutdown_before_init_joins_the_registered() {
    let mut bridge = Bridge::new();
    assert!(create_rust_manager(&mut bridge));
    assert_eq!(register_actor(&mut bridge, b"a"), Some(0));
    assert_eq!(rust_manager_end(&mut bridge), Some(1));
    assert_eq!(rust_manager_init(&mut bridge), None);
}

#[test]
fn unknown_message_type_on_send() {
    let mut bridge = running_bridge(&[b"here"]);
    init_cpp_actor_lookup(&mut bridge);
    let remote = resolve(&bridge, b"there", b"here", true).expect("remote");
    let unknown = Envelope { type_id: 99, body: Message::Ping { count: 1 } };
    let action = remote.send(unknown);
    assert_eq!(action, SendAction::Fail(STATUS_UNKNOWN_MESSAGE_TYPE));
    assert_eq!(action.status(0), STATUS_UNKNOWN_MESSAGE_TYPE);
    assert_ne!(action.status(0), STATUS_TARGET_NOT_FOUND);
    assert_ne!(action.status(0), STATUS_TYPE_MISMATCH);
}

#[test]
fn dispatch_tells_mismatch_from_unknown() {
    let mismatch = Envelope { type_id: MSG_PONG, body: Message::Ping { count: 1 } };
    assert_eq!(dispatch(b"t", b"s", &mismatch), Err(STATUS_TYPE_MISMATCH));
    let unknown = Envelope { type_id: 0, body: Message::Ping { count: 1 } };
    assert_eq!(dispatch(b"t", b"s", &unknown), Err(STATUS_UNKNOWN_MESSAGE_TYPE));
    let good = Envelope::new(Message::Subscribe { topic: b"AAPL".to_vec() });
    assert_eq!(good.type_id, MSG_SUBSCRIBE);
    let call = dispatch(b"cpp_price_feed", b"", &good).expect("a call");
    assert_eq!(call.target, b"cpp_price_feed".to_vec());
    assert_eq!(call.sender, Vec::<u8>::new());
    assert_eq!(call.type_id, MSG_SUBSCRIBE);
    assert_eq!(call.wire.len(), 32);
    assert_eq!(&call.wire[..5], &[b'A', b'A', b'P', b'L', 0]);
}

#[test]
fn deliver_reports_each_refusal() {
    let bridge = running_bridge(&[b"X"]);
    assert_eq!(
        deliver(&bridge, b"Y", b"ext", MSG_PING, &[1, 0, 0, 0]),
        Delivery::Rejected { status: STATUS_TARGET_NOT_FOUND }
    );
    assert_eq!(
        deliver(&bridge, b"X", b"ext", 77, &[1, 0, 0, 0]),
        Delivery::Rejected { status: STATUS_UNKNOWN_MESSAGE_TYPE }
    );
    assert_eq!(
        deliver(&bridge, b"X", b"ext", MSG_PING, &[1, 0, 0]),
        Delivery::Rejected { status: STATUS_TYPE_MISMATCH }
    );
    assert_eq!(
        deliver(&bridge, b"Y", b"ext", 77, &[]),
        Delivery::Rejected { status: STATUS_TARGET_NOT_FOUND }
    );
    assert_eq!(
        deliver(&bridge, b"X", b"", MSG_PING, &[5, 0, 0, 0]),
        Delivery::Enqueue { handle: 0, sender: vec![], message: Message::Ping { count: 5 } }
    );
}

#[test]
fn deliver_finds_the_right_handle() {
    let bridge = running_bridge(&[b"a", b"b", b"c"]);
    match deliver(&bridge, b"c", b"ext", MSG_PONG, &[9, 0, 0, 0]) {
        Delivery::Enqueue { handle, message, .. } => {
            assert_eq!(handle, 2);
            assert_eq!(message, Message::Pong { count: 9 });
        }
        other => panic!("unexpected {:?}", other),
    }
}

#[test]
fn resolution_is_repeatable() {
    let mut bridge = running_bridge(&[b"a", b"b"]);
    init_cpp_actor_lookup(&mut bridge);
    let first = resolve(&bridge, b"b", b"me", false).expect("local");
    let second = resolve(&bridge, b"b", b"me", true).expect("local");
    assert_eq!(first, second);
    assert_eq!(first.local_handle(), Some(1));
    assert!(first.is_local());
    assert_eq!(first.duplicate(), second);

    let far = resolve(&bridge, b"z", b"me", true).expect("remote");
    let far_again = resolve(&bridge, b"z", b"me", true).expect("remote");
    assert_eq!(far, far_again);
    assert!(!far.is_local());
    assert_eq!(far.local_handle(), None);
    assert_eq!(resolve(&bridge, b"z", b"me", false), None);
}

#[test]
fn local_route_survives_later_registrations() {
    let mut bridge = Bridge::new();
    assert!(create_rust_manager(&mut bridge));
    assert_eq!(register_actor(&mut bridge, b"a"), Some(0));
    let before = resolve(&bridge, b"a", b"me", false).expect("local");
    assert_eq!(register_actor(&mut bridge, b"b"), Some(1));
    init_cpp_actor_lookup(&mut bridge);
    let after = resolve(&bridge, b"a", b"me", true).expect("local");
    assert_eq!(before, after);
}

#[test]
fn lookup_before_installation_finds_nothing() {
    let mut bridge = running_bridge(&[b"a"]);
    assert!(!bridge.has_peer_lookup());
    assert_eq!(get_actor_ref(&bridge, b"cpp_pong", b"a"), Resolution::NotFound);
    assert_eq!(resolve(&bridge, b"cpp_pong", b"a", true), None);
    init_cpp_actor_lookup(&mut bridge);
    assert!(bridge.has_peer_lookup());
    assert_eq!(get_actor_ref(&bridge, b"cpp_pong", b"a"), Resolution::AskPeer);
    assert!(resolve(&bridge, b"cpp_pong", b"a", true).is_some());
}

#[test]
fn peer_answer_becomes_a_remote_ref() {
    assert_eq!(cpp_actor_lookup(b"cpp_pong", b"rust_ping", false), None);
    let actor = cpp_actor_lookup(b"cpp_pong", b"rust_ping", true).expect("remote");
    assert!(!actor.is_local());
    match actor.send(Envelope::new(Message::Ping { count: 3 })) {
        SendAction::Call(call) => {
            assert_eq!(call.target, b"cpp_pong".to_vec());
            assert_eq!(call.sender, b"rust_ping".to_vec());
            assert_eq!(call.type_id, MSG_PING);
            assert_eq!(call.wire, vec![3, 0, 0, 0]);
        }
        other => panic!("unexpected {:?}", other),
    }
}

#[test]
fn local_send_enqueues_unchanged() {
    let bridge = running_bridge(&[b"a"]);
    let local = resolve(&bridge, b"a", b"me", false).expect("local");
    let odd = Envelope { type_id: 99, body: Message::Pong { count: 4 } };
    let action = local.send(odd);
    assert_eq!(action.status(-9), STATUS_OK);
    assert_eq!(
        action,
        SendAction::Enqueue {
            handle: 0,
            envelope: Envelope { type_id: 99, body: Message::Pong { count: 4 } }
        }
    );
}

#[test]
fn duplicate_names_are_rejected() {
    let mut bridge = Bridge::new();
    assert!(create_rust_manager(&mut bridge));
    assert_eq!(register_actor(&mut bridge, b"a"), Some(0));
    assert_eq!(register_actor(&mut bridge, b"a"), None);
    assert_eq!(bridge.actor_count(), 1);
    assert_eq!(register_actor(&mut bridge, b"b"), Some(1));
    assert_eq!(register_actor(&mut bridge, b"a"), None);
    assert_eq!(bridge.actor_count(), 2);
    assert_eq!(resolve(&bridge, b"a", b"", false).and_then(|r| r.local_handle()), Some(0));
}

#[test]
fn registration_closes_at_init() {
    let mut bridge = running_bridge(&[b"a"]);
    assert_eq!(bridge.current_phase(), Phase::Running);
    assert_eq!(register_actor(&mut bridge, b"late"), None);
    assert_eq!(rust_manager_init(&mut bridge), None);
    assert_eq!(bridge.actor_count(), 1);
    assert!(!actor_exists(&bridge, b"late"));
}

#[test]
fn create_takes_effect_once() {
    let mut bridge = Bridge::new();
    assert!(create_rust_manager(&mut bridge));
    assert_eq!(bridge.current_phase(), Phase::Registering);
    assert_eq!(register_actor(&mut bridge, b"a"), Some(0));
    assert!(!create_rust_manager(&mut bridge));
    assert_eq!(bridge.actor_count(), 1);
    assert!(actor_exists(&bridge, b"a"));
}

#[test]
fn fixed_actor_names() {
    let mut bridge = Bridge::new();
    assert!(create_rust_manager(&mut bridge));
    assert_eq!(register_rust_ping_actor(&mut bridge), Some(0));
    assert_eq!(register_rust_pong_actor(&mut bridge), Some(1));
    assert_eq!(register_rust_publisher(&mut bridge), Some(2));
    assert_eq!(register_rust_subscriber(&mut bridge), Some(3));
    assert_eq!(register_rust_ping_actor(&mut bridge), None);
    assert!(actor_exists(&bridge, b"rust_ping"));
    assert!(actor_exists(&bridge, b"rust_pong"));
    assert!(actor_exists(&bridge, b"rust_publisher"));
    assert!(actor_exists(&bridge, b"rust_price_monitor"));
    let registry = get_rust_manager(&bridge).expect("a manager");
    assert_eq!(registry.len(), 4);
    assert_eq!(registry.find(b"rust_publisher"), Some(2));
    assert_eq!(registry.find(b"rust_subscriber"), None);
}

#[test]
fn registry_alone() {
    let mut registry = Registry::new();
    assert_eq!(registry.len(), 0);
    assert_eq!(registry.find(b"a"), None);
    assert_eq!(registry.register(b"a"), Some(0));
    assert_eq!(registry.register(b""), Some(1));
    assert_eq!(registry.register(b"a"), None);
    assert_eq!(registry.register(b""), None);
    assert_eq!(registry.len(), 2);
    assert_eq!(registry.find(b""), Some(1));
    assert_eq!(registry.find(b"ab"), None);
}
