use ironverse::net::actions_for_line;
use ironverse::ui::{submit_input, ChatResource};
use ironverse::NetAction;

#[test]
fn valid_dial_enqueues_exactly_one_dial() {
    let (actions, reports) = actions_for_line(&"/dial /ip4/127.0.0.1/tcp/8000".to_string());
    assert_eq!(actions.len(), 1);
    assert!(matches!(&actions[0], NetAction::Dial(a) if a == "/ip4/127.0.0.1/tcp/8000"));
    assert_eq!(reports.len(), 0);
}

#[test]
fn invalid_dial_reports_and_enqueues_nothing() {
    let (actions, reports) = actions_for_line(&"/dial not-an-address".to_string());
    assert_eq!(actions.len(), 0);
    assert_eq!(reports.len(), 1);
    assert!(!reports[0].is_outgoing);
    assert_eq!(reports[0].sender, "System");
    assert_eq!(reports[0].message, "could not parse address: not-an-address");
}

#[test]
fn dial_with_no_argument_is_ignored() {
    let (actions, reports) = actions_for_line(&"/dial".to_string());
    assert_eq!(actions.len(), 0);
    assert_eq!(reports.len(), 0);
}

#[test]
fn dial_with_two_arguments_is_ignored() {
    let (actions, reports) =
        actions_for_line(&"/dial /ip4/1.2.3.4/tcp/1 /ip4/5.6.7.8/tcp/2".to_string());
    assert_eq!(actions.len(), 0);
    assert_eq!(reports.len(), 0);
}

#[test]
fn sub_enqueues_subscribe() {
    let (actions, reports) = actions_for_line(&"/sub games".to_string());
    assert_eq!(actions.len(), 1);
    assert!(matches!(&actions[0], NetAction::Subscribe(t) if t == "games"));
    assert_eq!(reports.len(), 0);
}

#[test]
fn unsub_enqueues_unsubscribe() {
    let (actions, reports) = actions_for_line(&"/unsub games".to_string());
    assert_eq!(actions.len(), 1);
    assert!(matches!(&actions[0], NetAction::Unsubscribe(t) if t == "games"));
    assert_eq!(reports.len(), 0);
}

#[test]
fn sub_without_topic_is_ignored() {
    let (actions, reports) = actions_for_line(&"/sub".to_string());
    assert_eq!(actions.len(), 0);
    assert_eq!(reports.len(), 0);
}

#[test]
fn rename_is_published_verbatim_on_the_default_topic() {
    let (actions, reports) = actions_for_line(&"/name Bob".to_string());
    assert_eq!(actions.len(), 1);
    assert!(matches!(
        &actions[0],
        NetAction::Publish(t, p) if t == "test-topic" && p == "/name Bob".as_bytes()
    ));
    assert_eq!(reports.len(), 0);
}

#[test]
fn anything_else_is_published_verbatim() {
    let (actions, reports) = actions_for_line(&"/pub hello".to_string());
    assert_eq!(actions.len(), 1);
    assert!(matches!(
        &actions[0],
        NetAction::Publish(t, p) if t == "test-topic" && p == "/pub hello".as_bytes()
    ));
    assert_eq!(reports.len(), 0);
}

#[test]
fn typed_line_without_slash_becomes_pub_from_me() {
    let mut local = ChatResource::new();
    local.chat_input_text = "hello".to_string();
    let e = submit_input(&mut local);
    assert!(e.is_outgoing);
    assert_eq!(e.sender, "me");
    assert_eq!(e.message, "/pub hello");
    assert_eq!(local.chat_input_text, "");
}

#[test]
fn empty_typed_line_still_becomes_a_pub() {
    let mut local = ChatResource::new();
    local.chat_input_text = String::new();
    let e = submit_input(&mut local);
    assert_eq!(e.message, "/pub ");
    let events = vec![e];
    ironverse::ui::chat_event_reader(&mut local, &events);
    assert_eq!(local.chat_history.get(0).message, "");
    assert_eq!(local.chat_history.get(0).sender, "me");
}

#[test]
fn typed_command_is_forwarded_unchanged() {
    let mut local = ChatResource::new();
    local.chat_input_text = "/sub games".to_string();
    let e = submit_input(&mut local);
    assert!(e.is_outgoing);
    assert_eq!(e.message, "/sub games");
}

#[test]
fn typed_hello_lands_in_history_as_me() {
    let mut local = ChatResource::new();
    local.chat_input_text = "hello".to_string();
    let e = submit_input(&mut local);
    let events = vec![e];
    ironverse::ui::chat_event_reader(&mut local, &events);
    assert_eq!(local.chat_history.len(), 1);
    let line = local.chat_history.get(0);
    assert!(line.is_outgoing);
    assert_eq!(line.sender, "me");
    assert_eq!(line.message, "hello");
}
