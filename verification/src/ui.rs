//! The consumer-facing chat state: chat lines, the capacity-bounded history
//! that the rendering collaborator shows, the alias map, and the command
//! interpretation applied to every line before it reaches the history.

use vstd::prelude::*;
use vstd::string::*;
use std::collections::VecDeque;

use crate::strutil::{spec_starts_with, spec_suffix, starts_with_str, string_tail, suffix_of};

verus! {

/// How many lines the chat history keeps before evicting the oldest.
pub const MAX_LINES: usize = 100;

/// One line of chat: its direction, who it is shown as coming from, and its
/// text. Immutable once appended to the history.
#[derive(Clone, Debug)]
pub struct ChatEvent {
    pub is_outgoing: bool,
    pub sender: String,
    pub message: String,
}

/// The mathematical image of a [`ChatEvent`]: the same fields over
/// character sequences.
pub struct ChatEventV {
    pub is_outgoing: bool,
    pub sender: Seq<char>,
    pub message: Seq<char>,
}

impl View for ChatEvent {
    type V = ChatEventV;

    open spec fn view(&self) -> ChatEventV {
        ChatEventV { is_outgoing: self.is_outgoing, sender: self.sender@, message: self.message@ }
    }
}

impl ChatEvent {
    /// The rendered form of the line: `sender: message`.
    pub fn to_string(&self) -> (r: String)
        ensures
            r@ == self.sender@ + ": "@ + self.message@,
    {
        self.sender.clone().concat(": ").concat(self.message.as_str())
    }

    /// A system-originated notice: not outgoing, sender `System`.
    pub fn new_system_msg(message: &str) -> (r: ChatEvent)
        ensures
            !r.is_outgoing,
            r.sender@ == "System"@,
            r.message@ == message@,
    {
        ChatEvent {
            is_outgoing: false,
            sender: "System".to_owned(),
            message: message.to_owned(),
        }
    }

    /// A fresh line with the same fields.
    pub fn duplicate(&self) -> (r: ChatEvent)
        ensures
            r == *self,
    {
        ChatEvent {
            is_outgoing: self.is_outgoing,
            sender: self.sender.clone(),
            message: self.message.clone(),
        }
    }
}

/// One append to a bounded history: push at the tail, and when the capacity
/// is exceeded drop the head.
pub open spec fn spec_add(s: Seq<ChatEventV>, e: ChatEventV, cap: nat) -> Seq<ChatEventV> {
    if s.len() < cap {
        s.push(e)
    } else {
        s.subrange(1, s.len() as int).push(e)
    }
}

/// The history that a whole sequence of appends leaves, starting empty.
pub open spec fn history_run(entries: Seq<ChatEventV>, cap: nat) -> Seq<ChatEventV>
    decreases entries.len(),
{
    if entries.len() == 0 {
        Seq::empty()
    } else {
        spec_add(history_run(entries.drop_last(), cap), entries.last(), cap)
    }
}

/// After any sequence of appends to an empty history of capacity `cap`, the
/// history holds exactly the most recent `min(n, cap)` appended lines, in
/// append order; in particular its length never exceeds `cap`.
pub proof fn lemma_history_window(entries: Seq<ChatEventV>, cap: nat)
    requires
        cap >= 1,
    ensures
        history_run(entries, cap) == if entries.len() <= cap {
            entries
        } else {
            entries.subrange(entries.len() - cap, entries.len() as int)
        },
        history_run(entries, cap).len() <= cap,
    decreases entries.len(),
{
    if entries.len() > 0 {
        lemma_history_window(entries.drop_last(), cap);
        let prev = history_run(entries.drop_last(), cap);
        if entries.len() <= cap {
            assert(prev.push(entries.last()) =~= entries);
        } else {
            assert(prev.subrange(1, prev.len() as int).push(entries.last()) =~= entries.subrange(
                entries.len() - cap,
                entries.len() as int,
            ));
        }
    }
}

/// An append-only log of chat lines, bounded at a fixed capacity: appends go
/// at the tail, and once the capacity is exceeded the oldest line is
/// silently dropped from the head.
pub struct HistoryBuffer {
    lines: VecDeque<ChatEvent>,
    capacity: usize,
}

impl View for HistoryBuffer {
    type V = Seq<ChatEventV>;

    closed spec fn view(&self) -> Seq<ChatEventV> {
        self.lines@.map_values(|e: ChatEvent| e@)
    }
}

impl HistoryBuffer {
    /// The fixed bound on how many lines are kept.
    pub closed spec fn spec_capacity(&self) -> nat {
        self.capacity as nat
    }

    /// The buffer never holds more lines than its capacity, and the
    /// capacity is positive.
    pub open spec fn wf(&self) -> bool {
        self@.len() <= self.spec_capacity() && self.spec_capacity() >= 1
    }

    /// An empty history with the default capacity.
    pub fn new() -> (r: HistoryBuffer)
        ensures
            r@ == Seq::<ChatEventV>::empty(),
            r.spec_capacity() == MAX_LINES,
            r.wf(),
    {
        let r = HistoryBuffer { lines: VecDeque::new(), capacity: MAX_LINES };
        proof {
            assert(r@ =~= Seq::<ChatEventV>::empty());
        }
        r
    }

    /// An empty history bounded at `capacity` lines.
    pub fn with_capacity(capacity: usize) -> (r: HistoryBuffer)
        requires
            capacity >= 1,
        ensures
            r@ == Seq::<ChatEventV>::empty(),
            r.spec_capacity() == capacity,
            r.wf(),
    {
        let r = HistoryBuffer { lines: VecDeque::new(), capacity };
        proof {
            assert(r@ =~= Seq::<ChatEventV>::empty());
        }
        r
    }

    /// How many lines are held.
    pub fn len(&self) -> (n: usize)
        ensures
            n == self@.len(),
    {
        self.lines.len()
    }

    /// Appends a line at the tail; when the capacity is exceeded the oldest
    /// line leaves at the head, so the length stays within the capacity.
    pub fn add_line(&mut self, line: ChatEvent)
        requires
            old(self).wf(),
        ensures
            final(self).wf(),
            final(self)@ == spec_add(old(self)@, line@, old(self).spec_capacity()),
            final(self).spec_capacity() == old(self).spec_capacity(),
    {
        let ghost pre = self.lines@;
        self.lines.push_back(line);
        proof {
            assert(self.lines@.map_values(|e: ChatEvent| e@) =~= pre.map_values(
                |e: ChatEvent| e@,
            ).push(line@));
        }
        if self.lines.len() > self.capacity {
            let ghost mid = self.lines@;
            self.lines.pop_front();
            proof {
                assert(self.lines@.map_values(|e: ChatEvent| e@) =~= mid.map_values(
                    |e: ChatEvent| e@,
                ).subrange(1, mid.len() as int));
                assert(mid.map_values(|e: ChatEvent| e@).subrange(1, mid.len() as int).drop_last()
                    =~= pre.map_values(|e: ChatEvent| e@).subrange(1, pre.len() as int));
                assert(final(self)@ =~= spec_add(pre.map_values(|e: ChatEvent| e@), line@,
                    self.capacity as nat));
            }
        }
    }

    /// The line at position `i`, oldest first.
    pub fn get(&self, i: usize) -> (r: &ChatEvent)
        requires
            i < self@.len(),
        ensures
            r@ == self@[i as int],
    {
        &self.lines[i]
    }

    /// The whole history rendered for display, one `sender: message` line
    /// per entry, joined with newlines.
    pub fn to_string(&self) -> (r: String)
        ensures
            r@ == spec_render(self@),
    {
        let mut out = String::new();
        let n = self.lines.len();
        let mut i: usize = 0;
        while i < n
            invariant
                i <= n,
                n == self@.len(),
                self@ == self.lines@.map_values(|e: ChatEvent| e@),
                out@ == spec_render(self@.subrange(0, i as int)),
            decreases n - i,
        {
            if i > 0 {
                out.append("\n");
            }
            let line = self.lines[i].to_string();
            out.append(line.as_str());
            proof {
                assert(self@.subrange(0, i + 1).drop_last() =~= self@.subrange(0, i as int));
                assert(self@.subrange(0, i + 1).last() == self@[i as int]);
            }
            i += 1;
        }
        proof {
            assert(self@.subrange(0, n as int) =~= self@);
        }
        out
    }
}

/// The rendered form of a history: `sender: message` lines joined by `\n`.
pub open spec fn spec_render(s: Seq<ChatEventV>) -> Seq<char>
    decreases s.len(),
{
    if s.len() == 0 {
        Seq::empty()
    } else if s.len() == 1 {
        s[0].sender + ": "@ + s[0].message
    } else {
        spec_render(s.drop_last()) + "\n"@ + s.last().sender + ": "@ + s.last().message
    }
}

/// The alias that an association list records for `key`: the first pair
/// whose key matches, scanning from the front.
pub open spec fn spec_get(m: Seq<(Seq<char>, Seq<char>)>, key: Seq<char>) -> Option<Seq<char>>
    decreases m.len(),
{
    if m.len() == 0 {
        None
    } else if m[0].0 == key {
        Some(m[0].1)
    } else {
        spec_get(m.drop_first(), key)
    }
}

/// Recording an alias: the first pair for `key` is replaced, or a new pair
/// is appended when none exists — last write wins.
pub open spec fn spec_set(
    m: Seq<(Seq<char>, Seq<char>)>,
    key: Seq<char>,
    alias: Seq<char>,
) -> Seq<(Seq<char>, Seq<char>)>
    decreases m.len(),
{
    if m.len() == 0 {
        seq![(key, alias)]
    } else if m[0].0 == key {
        seq![(key, alias)] + m.drop_first()
    } else {
        seq![m[0]] + spec_set(m.drop_first(), key, alias)
    }
}

/// What a recorded alias does to every lookup: the written key now maps to
/// the alias, and no other key's alias moves.
pub proof fn lemma_get_set(
    m: Seq<(Seq<char>, Seq<char>)>,
    key: Seq<char>,
    alias: Seq<char>,
    probe: Seq<char>,
)
    ensures
        spec_get(spec_set(m, key, alias), probe) == if probe == key {
            Some(alias)
        } else {
            spec_get(m, probe)
        },
    decreases m.len(),
{
    let s = spec_set(m, key, alias);
    if m.len() == 0 {
        assert(s == seq![(key, alias)]);
        assert(s[0] == (key, alias));
        if probe == key {
            assert(spec_get(s, probe) == Some(alias));
        } else {
            assert(s.drop_first() =~= Seq::<(Seq<char>, Seq<char>)>::empty());
            assert(spec_get(s, probe) == spec_get(s.drop_first(), probe));
            assert(spec_get(s.drop_first(), probe) is None);
        }
    } else if m[0].0 == key {
        assert(s == seq![(key, alias)] + m.drop_first());
        assert(s[0] == (key, alias));
        assert(s.drop_first() =~= m.drop_first());
        if probe == key {
            assert(spec_get(s, probe) == Some(alias));
        } else {
            assert(spec_get(s, probe) == spec_get(m.drop_first(), probe));
            assert(spec_get(m, probe) == spec_get(m.drop_first(), probe));
        }
    } else {
        lemma_get_set(m.drop_first(), key, alias, probe);
        assert(s == seq![m[0]] + spec_set(m.drop_first(), key, alias));
        assert(s[0] == m[0]);
        assert(s.len() > 0);
        assert(s.drop_first() =~= spec_set(m.drop_first(), key, alias));
        if probe == m[0].0 {
            assert(spec_get(s, probe) == Some(m[0].1));
            assert(spec_get(m, probe) == Some(m[0].1));
        } else {
            assert(spec_get(s, probe) == spec_get(spec_set(m.drop_first(), key, alias), probe));
            assert(spec_get(m, probe) == spec_get(m.drop_first(), probe));
        }
    }
}

/// When the first `i` keys of `m` differ from `key`, recording `key` leaves
/// that prefix standing and works on the rest.
proof fn lemma_set_skip(m: Seq<(Seq<char>, Seq<char>)>, key: Seq<char>, alias: Seq<char>, i: int)
    requires
        0 <= i <= m.len(),
        forall|j: int| 0 <= j < i ==> m[j].0 != key,
    ensures
        spec_set(m, key, alias) == m.subrange(0, i) + spec_set(
            m.subrange(i, m.len() as int),
            key,
            alias,
        ),
    decreases i,
{
    if i == 0 {
        assert(m.subrange(0, m.len() as int) =~= m);
        assert(m.subrange(0, 0) + spec_set(m.subrange(0, m.len() as int), key, alias) =~= spec_set(
            m,
            key,
            alias,
        ));
    } else {
        lemma_set_skip(m.drop_first(), key, alias, i - 1);
        assert(m.drop_first().subrange(0, i - 1) =~= m.subrange(1, i));
        assert(m.drop_first().subrange(i - 1, m.drop_first().len() as int) =~= m.subrange(
            i,
            m.len() as int,
        ));
        assert(spec_set(m, key, alias) == seq![m[0]] + spec_set(m.drop_first(), key, alias));
        assert(seq![m[0]] + (m.subrange(1, i) + spec_set(m.subrange(i, m.len() as int), key, alias))
            =~= m.subrange(0, i) + spec_set(m.subrange(i, m.len() as int), key, alias));
    }
}

/// The aliases chosen by peers, keyed by the short suffix of their identity;
/// last write wins. It is populated only from incoming rename commands.
pub struct NameMap {
    entries: Vec<(String, String)>,
}

impl View for NameMap {
    type V = Seq<(Seq<char>, Seq<char>)>;

    closed spec fn view(&self) -> Seq<(Seq<char>, Seq<char>)> {
        self.entries@.map_values(|p: (String, String)| (p.0@, p.1@))
    }
}

impl NameMap {
    /// An empty map: no identity has an alias yet.
    pub fn new() -> (r: NameMap)
        ensures
            r@ == Seq::<(Seq<char>, Seq<char>)>::empty(),
    {
        let r = NameMap { entries: Vec::new() };
        proof {
            assert(r@ =~= Seq::<(Seq<char>, Seq<char>)>::empty());
        }
        r
    }

    /// The alias recorded for `key`, if any. Reading never changes the map.
    pub fn get_alias(&self, key: &String) -> (r: Option<&String>)
        ensures
            match r {
                Some(alias) => spec_get(self@, key@) == Some(alias@),
                None => spec_get(self@, key@) is None,
            },
    {
        let n = self.entries.len();
        let mut i: usize = 0;
        proof {
            assert(self@.subrange(0, n as int) =~= self@);
        }
        while i < n
            invariant
                i <= n,
                n == self@.len(),
                self@ == self.entries@.map_values(|p: (String, String)| (p.0@, p.1@)),
                spec_get(self@, key@) == spec_get(self@.subrange(i as int, n as int), key@),
            decreases n - i,
        {
            proof {
                assert(self@.subrange(i as int, n as int)[0] == self@[i as int]);
                assert(self@.subrange(i as int, n as int).drop_first() =~= self@.subrange(
                    i + 1,
                    n as int,
                ));
            }
            if self.entries[i].0 == *key {
                return Some(&self.entries[i].1);
            }
            i += 1;
        }
        proof {
            assert(self@.subrange(n as int, n as int) =~= Seq::<(Seq<char>, Seq<char>)>::empty());
        }
        None
    }

    /// Records `alias` for `key`, replacing any earlier record.
    pub fn set_alias(&mut self, key: String, alias: String)
        ensures
            final(self)@ == spec_set(old(self)@, key@, alias@),
    {
        let ghost m = self@;
        let n = self.entries.len();
        let mut i: usize = 0;
        while i < n
            invariant
                i <= n,
                n == m.len(),
                self@ == m,
                old(self)@ == m,
                self@ == self.entries@.map_values(|p: (String, String)| (p.0@, p.1@)),
                forall|j: int| 0 <= j < i ==> m[j].0 != key@,
            decreases n - i,
        {
            if self.entries[i].0 == key {
                proof {
                    lemma_set_skip(m, key@, alias@, i as int);
                    let rest = m.subrange(i as int, n as int);
                    assert(rest[0].0 == key@);
                    assert(rest.drop_first() =~= m.subrange(i + 1, n as int));
                    assert(spec_set(rest, key@, alias@) == seq![(key@, alias@)]
                        + m.subrange(i + 1, n as int));
                    assert(spec_set(m, key@, alias@) == m.subrange(0, i as int) + (seq![
                        (key@, alias@),
                    ] + m.subrange(i + 1, n as int)));
                }
                self.entries[i] = (key, alias);
                proof {
                    assert(self.entries@.map_values(|p: (String, String)| (p.0@, p.1@)) =~= m
                        .subrange(0, i as int) + (seq![(key@, alias@)] + m.subrange(i + 1, n as int)));
                }
                return ;
            }
            i += 1;
        }
        proof {
            lemma_set_skip(m, key@, alias@, n as int);
            assert(m.subrange(n as int, n as int) =~= Seq::<(Seq<char>, Seq<char>)>::empty());
        }
        self.entries.push((key, alias));
        proof {
            assert(self.entries@.map_values(|p: (String, String)| (p.0@, p.1@)) =~= m.subrange(
                0,
                n as int,
            ) + seq![(key@, alias@)]);
            assert(m.subrange(0, n as int) =~= m);
        }
    }
}

/// The display form of an identity: `alias#suffix` when an alias is known
/// for its short suffix, else the bare suffix.
pub open spec fn spec_display(m: Seq<(Seq<char>, Seq<char>)>, id: Seq<char>) -> Seq<char> {
    let sfx = spec_suffix(id);
    match spec_get(m, sfx) {
        Some(alias) => alias + "#"@ + sfx,
        None => sfx,
    }
}

/// Resolves the display form of `sender`. Reading an alias is deterministic
/// in the map and the identity, and leaves the map untouched.
pub fn get_username(name_map: &NameMap, sender: &String) -> (r: String)
    ensures
        r@ == spec_display(name_map@, sender@),
{
    let sfx = suffix_of(sender.as_str());
    match name_map.get_alias(&sfx) {
        Some(alias) => alias.clone().concat("#").concat(sfx.as_str()),
        None => sfx,
    }
}

/// Two reads of the display form agree whenever the map and the identity
/// agree: resolving an alias is a function of the two, with no side channel.
pub proof fn lemma_display_deterministic(
    m1: Seq<(Seq<char>, Seq<char>)>,
    m2: Seq<(Seq<char>, Seq<char>)>,
    id1: Seq<char>,
    id2: Seq<char>,
)
    requires
        m1 == m2,
        id1 == id2,
    ensures
        spec_display(m1, id1) == spec_display(m2, id2),
{
}

/// The chat state the consumer owns: the bounded history, the text being
/// typed, and the aliases learned from peers.
pub struct ChatResource {
    pub chat_history: HistoryBuffer,
    pub chat_input_text: String,
    pub name_map: NameMap,
}

impl ChatResource {
    /// The history respects its bound.
    pub open spec fn wf(&self) -> bool {
        self.chat_history.wf()
    }

    /// A fresh chat state: empty history at the default capacity, empty
    /// input, no aliases.
    pub fn new() -> (r: ChatResource)
        ensures
            r.wf(),
            r.chat_history@ == Seq::<ChatEventV>::empty(),
            r.chat_history.spec_capacity() == MAX_LINES,
            r.chat_input_text@ == Seq::<char>::empty(),
            r.name_map@ == Seq::<(Seq<char>, Seq<char>)>::empty(),
    {
        ChatResource {
            chat_history: HistoryBuffer::new(),
            chat_input_text: String::new(),
            name_map: NameMap::new(),
        }
    }
}

impl Default for ChatResource {
    /// The same fresh state as [`ChatResource::new`].
    fn default() -> (r: ChatResource)
        ensures
            r.wf(),
            r.chat_history@ == Seq::<ChatEventV>::empty(),
            r.chat_history.spec_capacity() == MAX_LINES,
            r.chat_input_text@ == Seq::<char>::empty(),
            r.name_map@ == Seq::<(Seq<char>, Seq<char>)>::empty(),
    {
        ChatResource::new()
    }
}

/// The line a chat event leaves in the history. A rename shows as a notice
/// under the sender's display form before the rename; an explicit public
/// message loses its prefix and shows the sender's display form; anything
/// else is appended verbatim.
pub open spec fn spec_event_line(m: Seq<(Seq<char>, Seq<char>)>, e: ChatEventV) -> ChatEventV {
    if spec_starts_with(e.message, "/name "@) {
        ChatEventV {
            is_outgoing: e.is_outgoing,
            sender: spec_display(m, e.sender),
            message: "changed their name to "@ + e.message.subrange(6, e.message.len() as int),
        }
    } else if spec_starts_with(e.message, "/pub "@) {
        ChatEventV {
            is_outgoing: e.is_outgoing,
            sender: spec_display(m, e.sender),
            message: e.message.subrange(5, e.message.len() as int),
        }
    } else {
        e
    }
}

/// What a chat event does to the alias map: only a rename received from a
/// peer records an alias, under that peer's own identity suffix; an
/// outgoing rename, and every other event, leaves the map as it stands.
pub open spec fn spec_event_names(
    m: Seq<(Seq<char>, Seq<char>)>,
    e: ChatEventV,
) -> Seq<(Seq<char>, Seq<char>)> {
    if spec_starts_with(e.message, "/name "@) && !e.is_outgoing {
        spec_set(m, spec_suffix(e.sender), e.message.subrange(6, e.message.len() as int))
    } else {
        m
    }
}

/// An outgoing rename never changes any recorded alias, and an incoming
/// rename from a peer changes at most the alias recorded for that peer's
/// own identity suffix: no event moves the alias under any other key.
pub proof fn lemma_rename_isolation(
    m: Seq<(Seq<char>, Seq<char>)>,
    e: ChatEventV,
    probe: Seq<char>,
)
    requires
        e.is_outgoing || probe != spec_suffix(e.sender),
    ensures
        spec_get(spec_event_names(m, e), probe) == spec_get(m, probe),
{
    if spec_starts_with(e.message, "/name "@) && !e.is_outgoing {
        lemma_get_set(m, spec_suffix(e.sender), e.message.subrange(6, e.message.len() as int),
            probe);
    }
}

/// Interprets one chat event: updates the alias map as
/// [`spec_event_names`] says and appends the line that
/// [`spec_event_line`] says, evicting the oldest line when the history
/// is full.
pub fn apply_chat_event(local: &mut ChatResource, event: &ChatEvent)
    requires
        old(local).wf(),
    ensures
        final(local).wf(),
        final(local).chat_history@ == spec_add(
            old(local).chat_history@,
            spec_event_line(old(local).name_map@, event@),
            old(local).chat_history.spec_capacity(),
        ),
        final(local).name_map@ == spec_event_names(old(local).name_map@, event@),
        final(local).chat_input_text == old(local).chat_input_text,
        final(local).chat_history.spec_capacity() == old(local).chat_history.spec_capacity(),
{
    proof {
        reveal_strlit("/name ");
        reveal_strlit("/pub ");
    }
    if starts_with_str(event.message.as_str(), "/name ") {
        let name = string_tail(event.message.as_str(), 6);
        let display = get_username(&local.name_map, &event.sender);
        if !event.is_outgoing {
            let key = suffix_of(event.sender.as_str());
            local.name_map.set_alias(key, name.clone());
        }
        let text = "changed their name to ".to_owned().concat(name.as_str());
        local.chat_history.add_line(
            ChatEvent { is_outgoing: event.is_outgoing, sender: display, message: text },
        );
    } else if starts_with_str(event.message.as_str(), "/pub ") {
        let text = string_tail(event.message.as_str(), 5);
        let display = get_username(&local.name_map, &event.sender);
        local.chat_history.add_line(
            ChatEvent { is_outgoing: event.is_outgoing, sender: display, message: text },
        );
    } else {
        local.chat_history.add_line(event.duplicate());
    }
}

/// The chat state that a sequence of events leaves behind: each event is
/// interpreted in turn against the state the earlier ones left.
pub open spec fn spec_reader(
    h: Seq<ChatEventV>,
    m: Seq<(Seq<char>, Seq<char>)>,
    cap: nat,
    events: Seq<ChatEventV>,
) -> (Seq<ChatEventV>, Seq<(Seq<char>, Seq<char>)>)
    decreases events.len(),
{
    if events.len() == 0 {
        (h, m)
    } else {
        spec_reader(
            spec_add(h, spec_event_line(m, events[0]), cap),
            spec_event_names(m, events[0]),
            cap,
            events.drop_first(),
        )
    }
}

/// Interprets every event in order, as [`spec_reader`] says.
pub fn chat_event_reader(local: &mut ChatResource, events: &Vec<ChatEvent>)
    requires
        old(local).wf(),
    ensures
        final(local).wf(),
        (final(local).chat_history@, final(local).name_map@) == spec_reader(
            old(local).chat_history@,
            old(local).name_map@,
            old(local).chat_history.spec_capacity(),
            events@.map_values(|e: ChatEvent| e@),
        ),
        final(local).chat_input_text == old(local).chat_input_text,
        final(local).chat_history.spec_capacity() == old(local).chat_history.spec_capacity(),
{
    let ghost evs = events@.map_values(|e: ChatEvent| e@);
    let ghost h0 = local.chat_history@;
    let ghost m0 = local.name_map@;
    let ghost cap = local.chat_history.spec_capacity();
    let n = events.len();
    let mut i: usize = 0;
    proof {
        assert(evs.subrange(0, n as int) =~= evs);
    }
    while i < n
        invariant
            i <= n,
            n == evs.len(),
            evs == events@.map_values(|e: ChatEvent| e@),
            local.wf(),
            local.chat_history.spec_capacity() == cap,
            local.chat_input_text == old(local).chat_input_text,
            spec_reader(h0, m0, cap, evs) == spec_reader(
                local.chat_history@,
                local.name_map@,
                cap,
                evs.subrange(i as int, n as int),
            ),
        decreases n - i,
    {
        proof {
            assert(evs.subrange(i as int, n as int)[0] == evs[i as int]);
            assert(evs.subrange(i as int, n as int).drop_first() =~= evs.subrange(
                i + 1,
                n as int,
            ));
        }
        apply_chat_event(local, &events[i]);
        i += 1;
    }
    proof {
        assert(evs.subrange(n as int, n as int) =~= Seq::<ChatEventV>::empty());
    }
}

/// Takes the typed line as an outgoing chat event from the local label
/// `me`, prefixing `/pub ` when the line names no command, and clears the
/// input field. The history and the alias map do not move.
pub fn submit_input(local: &mut ChatResource) -> (r: ChatEvent)
    requires
        old(local).wf(),
    ensures
        final(local).wf(),
        r.is_outgoing,
        r.sender@ == "me"@,
        r.message@ == if spec_starts_with(old(local).chat_input_text@, "/"@) {
            old(local).chat_input_text@
        } else {
            "/pub "@ + old(local).chat_input_text@
        },
        final(local).chat_input_text@ == Seq::<char>::empty(),
        final(local).chat_history == old(local).chat_history,
        final(local).name_map == old(local).name_map,
{
    let typed = local.chat_input_text.clone();
    local.chat_input_text = String::new();
    let message = if starts_with_str(typed.as_str(), "/") {
        typed
    } else {
        "/pub ".to_owned().concat(typed.as_str())
    };
    ChatEvent { is_outgoing: true, sender: "me".to_owned(), message }
}

} // verus!
