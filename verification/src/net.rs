//! The network-facing half of the bridge: the command protocol that turns
//! consumer-authored lines into actions, the consumer of network events,
//! and the one-time bootstrap sequence.

use vstd::prelude::*;
use vstd::string::*;
use vstd::utf8::{decode_utf8, valid_utf8};

use crate::strutil::{
    spec_arg, spec_one_space, spec_starts_with, split_once_space, starts_with_str,
};
use crate::ui::{
    apply_chat_event, spec_add, spec_event_line, spec_event_names, ChatEvent, ChatEventV,
    ChatResource,
};
use crate::{
    default_topic, spec_default_topic, Client, EngineEvent, EngineEventV, NetAction, NetActionV,
    NetEvent, NetEventV, Recv,
};

verus! {

/// Whether the overlay engine's address parser accepts a dial argument.
/// The answer is a function of the characters alone.
pub uninterp spec fn multiaddr_ok(s: Seq<char>) -> bool;

/// Relies on multiaddr::Multiaddr's string parser (the engine's address
/// notation): acceptance depends only on the characters of the input.
#[verifier::external_body]
fn parse_multiaddr(s: &str) -> (r: bool)
    ensures
        r == multiaddr_ok(s@),
{
    s.parse::<multiaddr::Multiaddr>().is_ok()
}

/// The text a peer published, decoded as UTF-8 with invalid bytes replaced:
/// a function of the bytes alone.
pub uninterp spec fn lossy_decode(b: Seq<u8>) -> Seq<char>;

/// Relies on String::from_utf8_lossy: the decoded text depends on the
/// bytes alone, and valid UTF-8 decodes exactly, with nothing lost.
#[verifier::external_body]
fn decode_utf8_lossy(bytes: &Vec<u8>) -> (s: String)
    ensures
        s@ == lossy_decode(bytes@),
        valid_utf8(bytes@) ==> s@ == decode_utf8(bytes@),
{
    String::from_utf8_lossy(bytes).into_owned()
}

/// What one consumer-authored line decides. A `/dial`, `/sub` or `/unsub`
/// with any argument count other than one is silently ignored; everything
/// that is not one of those commands — a rename included — is published
/// verbatim on the default topic.
pub enum Decision {
    /// Publish the whole line's bytes on the default topic.
    Publish,
    /// Enqueue a dial of this parsed address.
    Dial(Seq<char>),
    /// Report that this dial argument does not parse; enqueue nothing.
    AddressParseError(Seq<char>),
    /// Enqueue joining this topic.
    Subscribe(Seq<char>),
    /// Enqueue leaving this topic.
    Unsubscribe(Seq<char>),
    /// A malformed command: no action, no report.
    Ignored,
}

/// The decision the command grammar takes on one outgoing line.
pub open spec fn spec_decision(msg: Seq<char>) -> Decision {
    if spec_starts_with(msg, "/name"@) {
        Decision::Publish
    } else if spec_starts_with(msg, "/dial"@) {
        if spec_one_space(msg) {
            if multiaddr_ok(spec_arg(msg)) {
                Decision::Dial(spec_arg(msg))
            } else {
                Decision::AddressParseError(spec_arg(msg))
            }
        } else {
            Decision::Ignored
        }
    } else if spec_starts_with(msg, "/sub"@) {
        if spec_one_space(msg) {
            Decision::Subscribe(spec_arg(msg))
        } else {
            Decision::Ignored
        }
    } else if spec_starts_with(msg, "/unsub"@) {
        if spec_one_space(msg) {
            Decision::Unsubscribe(spec_arg(msg))
        } else {
            Decision::Ignored
        }
    } else {
        Decision::Publish
    }
}

/// A system notice as the consumer sees it in the history.
pub open spec fn spec_notice(text: Seq<char>) -> ChatEventV {
    ChatEventV { is_outgoing: false, sender: "System"@, message: text }
}

/// Turns one outgoing line into the actions to enqueue and the in-band
/// reports owed for it, exactly as [`spec_decision`] rules: one publish,
/// dial, subscribe or unsubscribe action — or none, with a parse-error
/// report exactly when the dial argument does not parse.
pub fn actions_for_line(message: &String) -> (r: (Vec<NetAction>, Vec<ChatEvent>))
    ensures
        ({
            let d = spec_decision(message@);
            &&& d == Decision::Publish ==> r.0@.len() == 1 && r.0@[0]@ == NetActionV::Publish(
                spec_default_topic(),
                vstd::utf8::encode_utf8(message@),
            ) && r.1@.len() == 0
            &&& (d matches Decision::Dial(a) ==> r.0@.len() == 1 && r.0@[0]@ == NetActionV::Dial(a)
                && r.1@.len() == 0)
            &&& (d matches Decision::AddressParseError(a) ==> r.0@.len() == 0 && r.1@.len() == 1
                && r.1@[0]@ == spec_notice("could not parse address: "@ + a))
            &&& (d matches Decision::Subscribe(t) ==> r.0@.len() == 1 && r.0@[0]@
                == NetActionV::Subscribe(t) && r.1@.len() == 0)
            &&& (d matches Decision::Unsubscribe(t) ==> r.0@.len() == 1 && r.0@[0]@
                == NetActionV::Unsubscribe(t) && r.1@.len() == 0)
            &&& d == Decision::Ignored ==> r.0@.len() == 0 && r.1@.len() == 0
        }),
        forall|i: int|
            0 <= i < r.1@.len() ==> !r.1@[i]@.is_outgoing && r.1@[i]@.sender == "System"@,
{
    let mut actions: Vec<NetAction> = Vec::new();
    let mut reports: Vec<ChatEvent> = Vec::new();
    if starts_with_str(message.as_str(), "/name") {
        let payload = message.as_str().as_bytes_vec();
        actions.push(NetAction::Publish(default_topic(), payload));
    } else if starts_with_str(message.as_str(), "/dial") {
        match split_once_space(message.as_str()) {
            Some(parts) => {
                let addr = parts.1;
                if parse_multiaddr(addr.as_str()) {
                    actions.push(NetAction::Dial(addr));
                } else {
                    let text = "could not parse address: ".to_owned().concat(addr.as_str());
                    reports.push(ChatEvent::new_system_msg(text.as_str()));
                }
            },
            None => {},
        }
    } else if starts_with_str(message.as_str(), "/sub") {
        match split_once_space(message.as_str()) {
            Some(parts) => {
                actions.push(NetAction::Subscribe(parts.1));
            },
            None => {},
        }
    } else if starts_with_str(message.as_str(), "/unsub") {
        match split_once_space(message.as_str()) {
            Some(parts) => {
                actions.push(NetAction::Unsubscribe(parts.1));
            },
            None => {},
        }
    } else {
        let payload = message.as_str().as_bytes_vec();
        actions.push(NetAction::Publish(default_topic(), payload));
    }
    (actions, reports)
}

/// Some report in `reports` is the system notice with this text.
pub open spec fn spec_has_notice(reports: Seq<ChatEvent>, text: Seq<char>) -> bool {
    exists|k: int| 0 <= k < reports.len() && reports[k]@ == spec_notice(text)
}

/// Interprets every outgoing event in turn and enqueues the actions each
/// one decides. Failures stay in-band: every parse error that
/// [`actions_for_line`] owes appears among the reports, as does a notice
/// for every action the actor side could no longer take. Incoming events
/// are not the consumer's to send and pass through untouched.
pub fn write_network(client: &Client, events: &Vec<ChatEvent>) -> (reports: Vec<ChatEvent>)
    ensures
        forall|i: int|
            0 <= i < reports@.len() ==> !reports@[i]@.is_outgoing && reports@[i]@.sender
                == "System"@,
        forall|j: int|
            0 <= j < events@.len() && events@[j].is_outgoing ==> (spec_decision(
                events@[j].message@,
            ) matches Decision::AddressParseError(a) ==> spec_has_notice(
                reports@,
                "could not parse address: "@ + a,
            )),
{
    let mut reports: Vec<ChatEvent> = Vec::new();
    let n = events.len();
    let mut i: usize = 0;
    while i < n
        invariant
            i <= n,
            n == events@.len(),
            forall|j: int|
                0 <= j < reports@.len() ==> !reports@[j]@.is_outgoing && reports@[j]@.sender
                    == "System"@,
            forall|j: int|
                0 <= j < i && events@[j].is_outgoing ==> (spec_decision(events@[j].message@)
                    matches Decision::AddressParseError(a) ==> spec_has_notice(
                    reports@,
                    "could not parse address: "@ + a,
                )),
        decreases n - i,
    {
        let ghost reports_seen = reports@;
        if events[i].is_outgoing {
            let (actions, mut line_reports) = actions_for_line(&events[i].message);
            let mut actions = actions;
            proof {
                assert(reports@.subrange(0, reports_seen.len() as int) =~= reports_seen);
            }
            while actions.len() > 0
                invariant
                    reports_seen.is_prefix_of(reports@),
                    forall|j: int|
                        0 <= j < reports@.len() ==> !reports@[j]@.is_outgoing
                            && reports@[j]@.sender == "System"@,
                decreases actions@.len(),
            {
                let ghost at_entry = reports@;
                let action = actions.remove(0);
                match client.send(action) {
                    Ok(()) => {},
                    Err(_) => {
                        reports.push(
                            ChatEvent::new_system_msg("message not sent: the network actor is gone"),
                        );
                    },
                }
                proof {
                    assert(reports@.subrange(0, reports_seen.len() as int)
                        =~= at_entry.subrange(0, reports_seen.len() as int));
                }
            }
            let ghost before = reports@;
            reports.append(&mut line_reports);
            proof {
                let d = spec_decision(events@[i as int].message@);
                if d is AddressParseError {
                    let a = d->AddressParseError_0;
                    assert(reports@[before.len() as int]@ == spec_notice(
                        "could not parse address: "@ + a,
                    ));
                }
            }
        }
        proof {
            assert forall|j: int|
                0 <= j < i + 1 && events@[j].is_outgoing implies (spec_decision(
                events@[j].message@,
            ) matches Decision::AddressParseError(a) ==> spec_has_notice(
                reports@,
                "could not parse address: "@ + a,
            )) by {
                if j < i && events@[j].is_outgoing {
                    let d = spec_decision(events@[j].message@);
                    if d is AddressParseError {
                        let a = d->AddressParseError_0;
                        if spec_has_notice(reports_seen, "could not parse address: "@ + a) {
                            let k = choose|k: int|
                                0 <= k < reports_seen.len() && reports_seen[k]@ == spec_notice(
                                    "could not parse address: "@ + a,
                                );
                            assert(reports@.len() >= reports_seen.len());
                            assert(reports@[k]@ == spec_notice("could not parse address: "@ + a));
                        }
                    }
                }
            }
        }
        i += 1;
    }
    reports
}

/// Decodes an inbound payload (lossily, never fatally) into an incoming
/// chat event from the sending peer. A payload that is valid UTF-8 — in
/// particular, anything published through [`actions_for_line`] — decodes
/// back to exactly the text it encodes: the byte round trip loses nothing.
pub fn parse_message(peer_id: String, data: Vec<u8>) -> (r: ChatEvent)
    ensures
        !r.is_outgoing,
        r.sender@ == peer_id@,
        r.message@ == lossy_decode(data@),
        valid_utf8(data@) ==> r.message@ == decode_utf8(data@),
{
    let message = decode_utf8_lossy(&data);
    ChatEvent { is_outgoing: false, sender: peer_id, message }
}

/// What one network event leaves in the chat state: an inbound message is
/// decoded and interpreted like any incoming line; a connection or listen
/// report becomes a notice; each error event becomes exactly one notice
/// naming its kind — no other line is fabricated and no alias moves.
pub open spec fn spec_consume(
    h: Seq<ChatEventV>,
    m: Seq<(Seq<char>, Seq<char>)>,
    cap: nat,
    e: NetEventV,
) -> (Seq<ChatEventV>, Seq<(Seq<char>, Seq<char>)>) {
    match e {
        NetEventV::SwarmEvent(EngineEventV::InboundMessage(peer, data)) => {
            let line = ChatEventV { is_outgoing: false, sender: peer, message: lossy_decode(data) };
            (spec_add(h, spec_event_line(m, line), cap), spec_event_names(m, line))
        },
        NetEventV::SwarmEvent(EngineEventV::ConnectionEstablished(p)) => (
            spec_add(h, spec_notice("ConnectionEstablished with "@ + p), cap),
            m,
        ),
        NetEventV::SwarmEvent(EngineEventV::NewListenAddr(a)) => (
            spec_add(h, spec_notice("Listening on "@ + a), cap),
            m,
        ),
        NetEventV::SwarmEvent(EngineEventV::Other) => (h, m),
        NetEventV::SubscriptionError(c) => (spec_add(h, spec_notice("SubscriptionError: "@ + c), cap), m),
        NetEventV::PublishError(c) => (spec_add(h, spec_notice("PublishError: "@ + c), cap), m),
        NetEventV::DialError(c) => (spec_add(h, spec_notice("DialError: "@ + c), cap), m),
    }
}

/// Applies one network event to the chat state, exactly as
/// [`spec_consume`] says.
pub fn consume_event(local: &mut ChatResource, event: NetEvent)
    requires
        old(local).wf(),
    ensures
        final(local).wf(),
        (final(local).chat_history@, final(local).name_map@) == spec_consume(
            old(local).chat_history@,
            old(local).name_map@,
            old(local).chat_history.spec_capacity(),
            event@,
        ),
        final(local).chat_input_text == old(local).chat_input_text,
        final(local).chat_history.spec_capacity() == old(local).chat_history.spec_capacity(),
{
    match event {
        NetEvent::SwarmEvent(EngineEvent::InboundMessage(peer, data)) => {
            let line = parse_message(peer, data);
            apply_chat_event(local, &line);
        },
        NetEvent::SwarmEvent(EngineEvent::ConnectionEstablished(p)) => {
            let text = "ConnectionEstablished with ".to_owned().concat(p.as_str());
            local.chat_history.add_line(ChatEvent::new_system_msg(text.as_str()));
        },
        NetEvent::SwarmEvent(EngineEvent::NewListenAddr(a)) => {
            let text = "Listening on ".to_owned().concat(a.as_str());
            local.chat_history.add_line(ChatEvent::new_system_msg(text.as_str()));
        },
        NetEvent::SwarmEvent(EngineEvent::Other) => {},
        NetEvent::SubscriptionError(c) => {
            let text = "SubscriptionError: ".to_owned().concat(c.as_str());
            local.chat_history.add_line(ChatEvent::new_system_msg(text.as_str()));
        },
        NetEvent::PublishError(c) => {
            let text = "PublishError: ".to_owned().concat(c.as_str());
            local.chat_history.add_line(ChatEvent::new_system_msg(text.as_str()));
        },
        NetEvent::DialError(c) => {
            let text = "DialError: ".to_owned().concat(c.as_str());
            local.chat_history.add_line(ChatEvent::new_system_msg(text.as_str()));
        },
    }
}

/// One consumer tick of the receive side: polls at most one pending event
/// without blocking. The tick leaves the chat state as it stood, or
/// interprets exactly one event as [`spec_consume`] says, or — once the
/// actor side is gone — appends one closing notice.
pub fn read_network(client: &mut Client, local: &mut ChatResource)
    requires
        old(local).wf(),
    ensures
        final(local).wf(),
        final(local).chat_input_text == old(local).chat_input_text,
        final(local).chat_history.spec_capacity() == old(local).chat_history.spec_capacity(),
        ({
            let h0 = old(local).chat_history@;
            let m0 = old(local).name_map@;
            let cap = old(local).chat_history.spec_capacity();
            let after = (final(local).chat_history@, final(local).name_map@);
            ||| after == (h0, m0)
            ||| exists|e: NetEventV| after == spec_consume(h0, m0, cap, e)
            ||| after == (spec_add(h0, spec_notice("the network actor is gone"@), cap), m0)
        }),
{
    match client.try_receive() {
        Recv::Item(event) => {
            let ghost ev = event@;
            consume_event(local, event);
            proof {
                assert(exists|e: NetEventV|
                    (final(local).chat_history@, final(local).name_map@) == spec_consume(
                        old(local).chat_history@,
                        old(local).name_map@,
                        old(local).chat_history.spec_capacity(),
                        e,
                    )) by {
                    assert((final(local).chat_history@, final(local).name_map@) == spec_consume(
                        old(local).chat_history@,
                        old(local).name_map@,
                        old(local).chat_history.spec_capacity(),
                        ev,
                    ));
                }
            }
        },
        Recv::Empty => {},
        Recv::Closed => {
            local.chat_history.add_line(
                ChatEvent::new_system_msg("the network actor is gone"),
            );
        },
    }
}

/// The actions the bootstrap sequencer enqueues before any consumer-made
/// action: one dial per rendezvous address, in their order, then exactly
/// one subscribe to the default topic.
pub fn bootstrap_actions(addresses: &Vec<String>) -> (acts: Vec<NetAction>)
    ensures
        acts@.len() == addresses@.len() + 1,
        forall|i: int| 0 <= i < addresses@.len() ==> acts@[i]@ == NetActionV::Dial(addresses@[i]@),
        acts@[addresses@.len() as int]@ == NetActionV::Subscribe(spec_default_topic()),
{
    let mut acts: Vec<NetAction> = Vec::new();
    let n = addresses.len();
    let mut i: usize = 0;
    while i < n
        invariant
            i <= n,
            n == addresses@.len(),
            acts@.len() == i,
            forall|j: int| 0 <= j < i ==> acts@[j]@ == NetActionV::Dial(addresses@[j]@),
        decreases n - i,
    {
        acts.push(NetAction::Dial(addresses[i].clone()));
        i += 1;
    }
    acts.push(NetAction::Subscribe(default_topic()));
    acts
}

/// Enqueues the whole bootstrap sequence and reports the local identity to
/// the consumer, in-band, before anything else. Every enqueue failure is
/// reported the same way and is not fatal to the session.
pub fn bootstrap(client: &Client, local_identity: &String, addresses: &Vec<String>) -> (reports:
    Vec<ChatEvent>)
    ensures
        reports@.len() >= 1,
        reports@[0]@ == spec_notice(local_identity@),
        forall|i: int|
            0 <= i < reports@.len() ==> !reports@[i]@.is_outgoing && reports@[i]@.sender
                == "System"@,
{
    let mut reports: Vec<ChatEvent> = Vec::new();
    reports.push(ChatEvent::new_system_msg(local_identity.as_str()));
    let mut acts = bootstrap_actions(addresses);
    while acts.len() > 0
        invariant
            reports@.len() >= 1,
            reports@[0]@ == spec_notice(local_identity@),
            forall|i: int|
                0 <= i < reports@.len() ==> !reports@[i]@.is_outgoing && reports@[i]@.sender
                    == "System"@,
        decreases acts@.len(),
    {
        let action = acts.remove(0);
        match client.send(action) {
            Ok(()) => {},
            Err(_) => {
                reports.push(
                    ChatEvent::new_system_msg("could not enqueue a bootstrap action"),
                );
            },
        }
    }
    reports
}

} // verus!
