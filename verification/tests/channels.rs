use ironverse::net::{bootstrap, bootstrap_actions, read_network, write_network};
use ironverse::ui::{ChatEvent, ChatResource};
use ironverse::{
    bootstrap_addresses, default_topic, setup, Lifecycle, NetAction, NetEvent, Recv,
};

#[test]
fn default_topic_is_fixed() {
    assert_eq!(default_topic(), "test-topic");
}

#[test]
fn five_rendezvous_addresses_in_order() {
    let addrs = bootstrap_addresses();
    assert_eq!(addrs.len(), 5);
    assert_eq!(addrs[0], "/dns/1.node.ironverse.net/tcp/8000");
    assert_eq!(addrs[4], "/dns/5.node.ironverse.net/tcp/8000");
}

#[test]
fn bootstrap_actions_dial_each_then_subscribe() {
    let addrs = vec![
        "/ip4/10.0.0.1/tcp/8000".to_string(),
        "/ip4/10.0.0.2/tcp/8000".to_string(),
    ];
    let acts = bootstrap_actions(&addrs);
    assert_eq!(acts.len(), 3);
    assert!(matches!(&acts[0], NetAction::Dial(a) if a == "/ip4/10.0.0.1/tcp/8000"));
    assert!(matches!(&acts[1], NetAction::Dial(a) if a == "/ip4/10.0.0.2/tcp/8000"));
    assert!(matches!(&acts[2], NetAction::Subscribe(t) if t == "test-topic"));
}

#[test]
fn bootstrap_with_two_addresses_enqueues_two_dials_one_subscribe() {
    let (client, mut config) = setup(8);
    let addrs = vec![
        "/ip4/10.0.0.1/tcp/8000".to_string(),
        "/ip4/10.0.0.2/tcp/8000".to_string(),
    ];
    let reports = bootstrap(&client, &"QmLocal".to_string(), &addrs);
    assert_eq!(reports[0].message, "QmLocal");
    assert_eq!(reports[0].sender, "System");

    assert!(matches!(
        config.try_next_action(),
        Recv::Item(NetAction::Dial(a)) if a == "/ip4/10.0.0.1/tcp/8000"
    ));
    assert!(matches!(
        config.try_next_action(),
        Recv::Item(NetAction::Dial(a)) if a == "/ip4/10.0.0.2/tcp/8000"
    ));
    assert!(matches!(
        config.try_next_action(),
        Recv::Item(NetAction::Subscribe(t)) if t == "test-topic"
    ));
    assert!(matches!(config.try_next_action(), Recv::Empty));
}

#[test]
fn lifecycle_starts_exactly_once() {
    let mut state = Lifecycle::NotStarted;
    assert!(state.begin());
    assert!(!state.begin());
    assert!(!state.begin());
}

#[test]
fn sent_action_reaches_the_actor_side() {
    let (client, mut config) = setup(2);
    assert!(client.send(NetAction::Dial("/ip4/1.2.3.4/tcp/1".to_string())).is_ok());
    match config.next_action() {
        Some(NetAction::Dial(a)) => assert_eq!(a, "/ip4/1.2.3.4/tcp/1"),
        other => panic!("expected the dial back, got {:?}", other.is_some()),
    }
}

#[test]
fn send_after_actor_gone_hands_the_action_back() {
    let (client, config) = setup(2);
    drop(config);
    match client.send(NetAction::Subscribe("t".to_string())) {
        Err(NetAction::Subscribe(t)) => assert_eq!(t, "t"),
        _ => panic!("expected the action back"),
    }
}

#[test]
fn emitted_event_reaches_the_consumer_side() {
    let (mut client, config) = setup(2);
    assert!(matches!(client.try_receive(), Recv::Empty));
    assert!(config.emit(NetEvent::DialError("refused".to_string())).is_ok());
    assert!(matches!(
        client.try_receive(),
        Recv::Item(NetEvent::DialError(c)) if c == "refused"
    ));
    assert!(matches!(client.try_receive(), Recv::Empty));
}

#[test]
fn write_network_sends_outgoing_commands_only() {
    let (client, mut config) = setup(4);
    let events = vec![
        ChatEvent {
            is_outgoing: true,
            sender: "me".to_string(),
            message: "/sub games".to_string(),
        },
        ChatEvent {
            is_outgoing: false,
            sender: "QmPeer".to_string(),
            message: "/sub spied".to_string(),
        },
    ];
    let reports = write_network(&client, &events);
    assert_eq!(reports.len(), 0);
    assert!(matches!(
        config.try_next_action(),
        Recv::Item(NetAction::Subscribe(t)) if t == "games"
    ));
    assert!(matches!(config.try_next_action(), Recv::Empty));
}

#[test]
fn invalid_dial_leaves_the_queue_unchanged() {
    let (client, mut config) = setup(4);
    let events = vec![ChatEvent {
        is_outgoing: true,
        sender: "me".to_string(),
        message: "/dial gibberish".to_string(),
    }];
    let reports = write_network(&client, &events);
    assert_eq!(reports.len(), 1);
    assert_eq!(reports[0].sender, "System");
    assert_eq!(reports[0].message, "could not parse address: gibberish");
    assert!(matches!(config.try_next_action(), Recv::Empty));
}

#[test]
fn read_network_notes_a_closed_actor() {
    let (mut client, config) = setup(2);
    let mut local = ChatResource::new();
    read_network(&mut client, &mut local);
    assert_eq!(local.chat_history.len(), 0);
    drop(config);
    read_network(&mut client, &mut local);
    assert_eq!(local.chat_history.len(), 1);
    assert_eq!(local.chat_history.get(0).message, "the network actor is gone");
}

#[test]
fn read_network_consumes_one_event_per_tick() {
    let (mut client, config) = setup(4);
    let mut local = ChatResource::new();
    assert!(config.emit(NetEvent::DialError("a".to_string())).is_ok());
    assert!(config.emit(NetEvent::DialError("b".to_string())).is_ok());
    read_network(&mut client, &mut local);
    assert_eq!(local.chat_history.len(), 1);
    read_network(&mut client, &mut local);
    assert_eq!(local.chat_history.len(), 2);
    assert_eq!(local.chat_history.get(0).message, "DialError: a");
    assert_eq!(local.chat_history.get(1).message, "DialError: b");
}
