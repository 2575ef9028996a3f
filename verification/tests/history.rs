use ironverse::ui::{ChatEvent, HistoryBuffer};

fn line(sender: &str, text: &str) -> ChatEvent {
    ChatEvent {
        is_outgoing: false,
        sender: sender.to_string(),
        message: text.to_string(),
    }
}

#[test]
fn append_under_capacity_keeps_everything() {
    let mut h = HistoryBuffer::with_capacity(3);
    h.add_line(line("a", "one"));
    h.add_line(line("b", "two"));
    assert_eq!(h.len(), 2);
    assert_eq!(h.get(0).message, "one");
    assert_eq!(h.get(1).message, "two");
}

#[test]
fn append_at_capacity_evicts_oldest_first() {
    let mut h = HistoryBuffer::with_capacity(2);
    h.add_line(line("a", "one"));
    h.add_line(line("b", "two"));
    h.add_line(line("c", "three"));
    assert_eq!(h.len(), 2);
    assert_eq!(h.get(0).message, "two");
    assert_eq!(h.get(1).message, "three");
}

#[test]
fn hundred_one_appends_drop_only_the_first() {
    let mut h = HistoryBuffer::new();
    for i in 0..101 {
        h.add_line(line("peer", &format!("line {}", i)));
        assert!(h.len() <= 100);
    }
    assert_eq!(h.len(), 100);
    assert_eq!(h.get(0).message, "line 1");
    assert_eq!(h.get(99).message, "line 100");
}

#[test]
fn length_stays_bounded_through_many_appends() {
    let mut h = HistoryBuffer::with_capacity(5);
    for i in 0..57 {
        h.add_line(line("peer", &format!("{}", i)));
        assert!(h.len() <= 5);
    }
    assert_eq!(h.len(), 5);
    assert_eq!(h.get(0).message, "52");
    assert_eq!(h.get(4).message, "56");
}

#[test]
fn render_joins_lines_with_newlines() {
    let mut h = HistoryBuffer::with_capacity(4);
    assert_eq!(h.to_string(), "");
    h.add_line(line("a", "x"));
    assert_eq!(h.to_string(), "a: x");
    h.add_line(line("b", "y"));
    assert_eq!(h.to_string(), "a: x\nb: y");
}

#[test]
fn chat_event_renders_as_sender_colon_message() {
    let e = line("alice", "hi there");
    assert_eq!(e.to_string(), "alice: hi there");
}

#[test]
fn system_msg_is_incoming_from_system() {
    let e = ChatEvent::new_system_msg("note");
    assert!(!e.is_outgoing);
    assert_eq!(e.sender, "System");
    assert_eq!(e.message, "note");
}
