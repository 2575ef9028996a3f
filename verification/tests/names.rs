use ironverse::ui::{get_username, ChatEvent, ChatResource, NameMap};

#[test]
fn unknown_identity_shows_bare_suffix() {
    let names = NameMap::new();
    let shown = get_username(&names, &"QmYYabcd".to_string());
    assert_eq!(shown, "abcd");
}

#[test]
fn known_alias_shows_alias_hash_suffix() {
    let mut names = NameMap::new();
    names.set_alias("abcd".to_string(), "Alice".to_string());
    let shown = get_username(&names, &"QmYYabcd".to_string());
    assert_eq!(shown, "Alice#abcd");
}

#[test]
fn short_identity_is_its_own_suffix() {
    let names = NameMap::new();
    assert_eq!(get_username(&names, &"me".to_string()), "me");
}

#[test]
fn last_write_wins() {
    let mut names = NameMap::new();
    names.set_alias("abcd".to_string(), "Alice".to_string());
    names.set_alias("abcd".to_string(), "Bob".to_string());
    assert_eq!(names.get_alias(&"abcd".to_string()), Some(&"Bob".to_string()));
}

#[test]
fn reading_an_alias_changes_nothing() {
    let mut names = NameMap::new();
    names.set_alias("abcd".to_string(), "Alice".to_string());
    let first = get_username(&names, &"QmYYabcd".to_string());
    let second = get_username(&names, &"QmYYabcd".to_string());
    assert_eq!(first, second);
    assert_eq!(names.get_alias(&"abcd".to_string()), Some(&"Alice".to_string()));
}

#[test]
fn outgoing_rename_updates_no_alias() {
    let mut local = ChatResource::new();
    local.name_map.set_alias("abcd".to_string(), "Alice".to_string());
    let spoof = ChatEvent {
        is_outgoing: true,
        sender: "QmYYabcd".to_string(),
        message: "/name Evil".to_string(),
    };
    let events = vec![spoof];
    ironverse::ui::chat_event_reader(&mut local, &events);
    // The rename still shows as a notice line, but no stored alias moved.
    assert_eq!(local.name_map.get_alias(&"abcd".to_string()), Some(&"Alice".to_string()));
    assert_eq!(local.chat_history.len(), 1);
    assert_eq!(local.chat_history.get(0).message, "changed their name to Evil");
}

#[test]
fn incoming_rename_updates_only_the_sender() {
    let mut local = ChatResource::new();
    local.name_map.set_alias("zzzz".to_string(), "Zoe".to_string());
    let rename = ChatEvent {
        is_outgoing: false,
        sender: "QmYYabcd".to_string(),
        message: "/name Alice".to_string(),
    };
    let events = vec![rename];
    ironverse::ui::chat_event_reader(&mut local, &events);
    assert_eq!(local.name_map.get_alias(&"abcd".to_string()), Some(&"Alice".to_string()));
    assert_eq!(local.name_map.get_alias(&"zzzz".to_string()), Some(&"Zoe".to_string()));
}
