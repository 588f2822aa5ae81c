//! An in-memory store implementing the core and the extended storage ports.

use crate::domain::entities::{Message, SessionId, UserId};
use crate::domain::errors::DomainError;
use crate::domain::events::DomainEvent;
use crate::message_order::{insert_by_sequence, lemma_insert_contents, sorted_by_sequence};
use crate::ports::StoragePort;
use crate::registry::Registry;
use crate::storage::ports::ExtendedStoragePort;
use crate::storage::schema::{Contact, Conversation};
use crate::text::{
    hex_encode,
    lemma_hex_encode_injective,
    lemma_hex_encode_len,
    lemma_lex_lt_asymmetric,
    lemma_lex_lt_total,
    lex_lt,
    str_lt,
};
use vstd::prelude::*;
use vstd::string::StringExecFns;

verus! {

broadcast use vstd::seq_lib::group_seq_properties;

/// The key of the conversation between two users: the two hexadecimal user
/// identifiers, the smaller first, joined by `-`.
pub open spec fn conversation_key(a: Seq<u8>, b: Seq<u8>) -> Seq<char> {
    let ha = hex_encode(a);
    let hb = hex_encode(b);
    if lex_lt(ha, hb) {
        ha + "-"@ + hb
    } else {
        hb + "-"@ + ha
    }
}

/// The conversation key does not depend on the order of the two users.
pub proof fn law_conversation_key_symmetric(a: Seq<u8>, b: Seq<u8>)
    ensures
        conversation_key(a, b) == conversation_key(b, a),
{
    let ha = hex_encode(a);
    let hb = hex_encode(b);
    lemma_lex_lt_asymmetric(ha, hb);
    lemma_lex_lt_total(ha, hb);
}

/// Two texts joined by `-`, each free of `-` and of equal length within a
/// pair, split back into the same two parts.
proof fn lemma_split_joined(x: Seq<char>, y: Seq<char>, u: Seq<char>, w: Seq<char>)
    requires
        x.len() == y.len(),
        u.len() == w.len(),
        x + "-"@ + y == u + "-"@ + w,
    ensures
        x == u,
        y == w,
{
    reveal_strlit("-");
    let k = x + "-"@ + y;
    assert(k.len() == 2 * x.len() + 1);
    assert(k.len() == 2 * u.len() + 1);
    assert forall|i: int| 0 <= i < x.len() implies x[i] == u[i] by {
        assert(k[i] == x[i]);
        assert((u + "-"@ + w)[i] == u[i]);
    }
    assert forall|i: int| 0 <= i < y.len() implies y[i] == w[i] by {
        assert(k[x.len() + 1 + i] == y[i]);
        assert((u + "-"@ + w)[u.len() + 1 + i] == w[i]);
    }
    assert(x =~= u);
    assert(y =~= w);
}

/// Distinct pairs of users get distinct conversation keys: the key of a
/// pair determines the pair, up to order.
pub proof fn law_conversation_key_injective(a: Seq<u8>, b: Seq<u8>, c: Seq<u8>, d: Seq<u8>)
    requires
        a.len() == b.len(),
        c.len() == d.len(),
        conversation_key(a, b) == conversation_key(c, d),
    ensures
        (a == c && b == d) || (a == d && b == c),
{
    lemma_hex_encode_len(a);
    lemma_hex_encode_len(b);
    lemma_hex_encode_len(c);
    lemma_hex_encode_len(d);
    let (ha, hb, hc, hd) = (hex_encode(a), hex_encode(b), hex_encode(c), hex_encode(d));
    let (x, y) = if lex_lt(ha, hb) { (ha, hb) } else { (hb, ha) };
    let (u, w) = if lex_lt(hc, hd) { (hc, hd) } else { (hd, hc) };
    assert(conversation_key(a, b) == x + "-"@ + y);
    assert(conversation_key(c, d) == u + "-"@ + w);
    lemma_split_joined(x, y, u, w);
    if lex_lt(ha, hb) {
        if lex_lt(hc, hd) {
            lemma_hex_encode_injective(a, c);
            lemma_hex_encode_injective(b, d);
        } else {
            lemma_hex_encode_injective(a, d);
            lemma_hex_encode_injective(b, c);
        }
    } else {
        if lex_lt(hc, hd) {
            lemma_hex_encode_injective(b, c);
            lemma_hex_encode_injective(a, d);
        } else {
            lemma_hex_encode_injective(b, d);
            lemma_hex_encode_injective(a, c);
        }
    }
}

/// The conversation returned for two users is theirs: a conversation filed
/// under the key of a pair has exactly that pair as participants, in one
/// order or the other.
pub proof fn law_conversation_belongs_to_pair(a: UserId, b: UserId, c: Conversation)
    requires
        is_keyed_conversation(c),
        c.id@ == conversation_key(a@, b@),
    ensures
        (c.participants.0@ == a@ && c.participants.1@ == b@) || (c.participants.0@ == b@
            && c.participants.1@ == a@),
{
    vstd::array::array_len_matches_n(&a.0);
    vstd::array::array_len_matches_n(&b.0);
    vstd::array::array_len_matches_n(&c.participants.0 .0);
    vstd::array::array_len_matches_n(&c.participants.1 .0);
    law_conversation_key_injective(a@, b@, c.participants.0@, c.participants.1@);
}

/// Whether `c` is the conversation created for the users `a` and `b`.
pub open spec fn is_new_conversation(a: UserId, b: UserId, c: Conversation) -> bool {
    &&& c.id@ == conversation_key(a@, b@)
    &&& c.participants == (a, b)
    &&& c.session_id@ == "conv-"@ + conversation_key(a@, b@)
    &&& c.last_activity_ms == 0
    &&& c.message_count == 0
}

/// What asking for the conversation of `a` and `b` does to the stored
/// conversations `before`: the stored one under their key is returned and
/// nothing changes, or a new one is created, stored under the key and returned.
pub open spec fn get_or_create_outcome(
    before: Map<Seq<char>, Conversation>,
    a: UserId,
    b: UserId,
    r: Result<Conversation, DomainError>,
    after: Map<Seq<char>, Conversation>,
) -> bool {
    let key = conversation_key(a@, b@);
    if before.contains_key(key) {
        &&& r == Ok::<Conversation, DomainError>(before[key])
        &&& after == before
    } else {
        &&& r matches Ok(c) && is_new_conversation(a, b, c)
        &&& after == before.insert(key, r->Ok_0)
    }
}

/// Asking again for the conversation of the same two users, in either order,
/// gives the same conversation and changes nothing.
pub proof fn law_get_or_create_idempotent(
    before: Map<Seq<char>, Conversation>,
    a: UserId,
    b: UserId,
    first: Result<Conversation, DomainError>,
    mid: Map<Seq<char>, Conversation>,
    second: Result<Conversation, DomainError>,
    after: Map<Seq<char>, Conversation>,
)
    requires
        get_or_create_outcome(before, a, b, first, mid),
        get_or_create_outcome(mid, b, a, second, after),
    ensures
        first is Ok,
        second == first,
        after == mid,
{
    law_conversation_key_symmetric(a@, b@);
}

/// Asking for the conversation of a pair stores one more conversation only
/// when the pair had none, so the store holds one conversation per pair that
/// asked for one.
pub proof fn law_get_or_create_count(
    before: Map<Seq<char>, Conversation>,
    a: UserId,
    b: UserId,
    r: Result<Conversation, DomainError>,
    after: Map<Seq<char>, Conversation>,
)
    requires
        before.dom().finite(),
        get_or_create_outcome(before, a, b, r, after),
    ensures
        after.dom().finite(),
        after.dom().len() == before.dom().len() + if before.contains_key(conversation_key(a@, b@)) {
            0int
        } else {
            1int
        },
{
    let key = conversation_key(a@, b@);
    if !before.contains_key(key) {
        assert(after.dom() =~= before.dom().insert(key));
    }
}

/// Starting from no conversations, asking twice for the conversation of the
/// same two users, in either order, stores exactly one conversation.
pub proof fn law_one_stored_conversation_per_pair(
    a: UserId,
    b: UserId,
    first: Result<Conversation, DomainError>,
    mid: Map<Seq<char>, Conversation>,
    second: Result<Conversation, DomainError>,
    after: Map<Seq<char>, Conversation>,
)
    requires
        get_or_create_outcome(Map::empty(), a, b, first, mid),
        get_or_create_outcome(mid, b, a, second, after),
    ensures
        after.dom().len() == 1,
{
    law_get_or_create_idempotent(Map::empty(), a, b, first, mid, second, after);
    law_get_or_create_count(Map::empty(), a, b, first, mid);
}

/// Deleting a conversation that was just created restores the stored
/// conversations.
pub proof fn law_delete_undoes_create(
    before: Map<Seq<char>, Conversation>,
    a: UserId,
    b: UserId,
    r: Result<Conversation, DomainError>,
    mid: Map<Seq<char>, Conversation>,
)
    requires
        !before.contains_key(conversation_key(a@, b@)),
        get_or_create_outcome(before, a, b, r, mid),
    ensures
        r matches Ok(c) && mid.remove(c.id@) == before,
{
    assert(mid.remove(r->Ok_0.id@) =~= before);
}

/// What looking a message up answers: the message stored under the
/// identifier, or `MessageNotFound` naming it.
pub open spec fn message_lookup(
    stored: Map<Seq<char>, Message>,
    id: Seq<char>,
    r: Result<Message, DomainError>,
) -> bool {
    if stored.contains_key(id) {
        r == Ok::<Message, DomainError>(stored[id])
    } else {
        r matches Err(DomainError::MessageNotFound(x)) && x@ == id
    }
}

/// What looking a contact up answers: the contact saved for the user, or none.
pub open spec fn contact_lookup(
    stored: Map<Seq<u8>, Contact>,
    user: Seq<u8>,
    r: Result<Option<Contact>, DomainError>,
) -> bool {
    r == Ok::<Option<Contact>, DomainError>(
        if stored.contains_key(user) {
            Some(stored[user])
        } else {
            None
        },
    )
}

/// Looking a message up right after storing it gives exactly the stored
/// message: `store_message` files it under its identifier and `get_message`
/// answers with what is filed there.
pub proof fn law_get_message_after_store(before: Map<Seq<char>, Message>, m: Message)
    ensures
        forall|r: Result<Message, DomainError>|
            message_lookup(before.insert(m.id@, m), m.id@, r) <==> r == Ok::<Message, DomainError>(m),
{
}

/// Looking a contact up right after saving it gives exactly the saved
/// contact: `save_contact` files it under its user and `get_contact` answers
/// with what is filed there.
pub proof fn law_get_contact_after_save(before: Map<Seq<u8>, Contact>, c: Contact)
    ensures
        forall|r: Result<Option<Contact>, DomainError>|
            contact_lookup(before.insert(c.user_id@, c), c.user_id@, r) <==> r == Ok::<
                Option<Contact>,
                DomainError,
            >(Some(c)),
{
}

/// Whether a conversation is filed under the key of its two participants,
/// with the session `conv-` followed by that key.
pub open spec fn is_keyed_conversation(c: Conversation) -> bool {
    &&& c.id@ == conversation_key(c.participants.0@, c.participants.1@)
    &&& c.session_id@ == "conv-"@ + c.id@
}

/// Whether `c` is the conversation stored under its own identifier.
pub open spec fn is_filed_under_id(stored: Map<Seq<char>, Conversation>, c: Conversation) -> bool {
    stored.contains_key(c.id@) && stored[c.id@] == c
}

/// Once a conversation is deleted, no listed conversation carries its
/// identifier: the listing only holds conversations filed under their own
/// identifier, and the deleted one is no longer filed.
pub proof fn law_deleted_conversation_is_not_listed(
    before: Map<Seq<char>, Conversation>,
    id: Seq<char>,
    listed: Seq<Conversation>,
)
    requires
        forall|i: int| 0 <= i < listed.len() ==> is_filed_under_id(before.remove(id), #[trigger] listed[i]),
    ensures
        forall|i: int| 0 <= i < listed.len() ==> (#[trigger] listed[i]).id@ != id,
{
}

/// Among conversations filed under their participants' key with distinct
/// identifiers, no two belong to the same pair of users, in either order.
pub proof fn law_one_conversation_per_pair(v: Seq<Conversation>, i: int, j: int)
    requires
        forall|k: int| 0 <= k < v.len() ==> is_keyed_conversation(#[trigger] v[k]),
        forall|a: int, b: int| 0 <= a < b < v.len() ==> (#[trigger] v[a]).id@ != (#[trigger] v[b]).id@,
        0 <= i < j < v.len(),
    ensures
        !(v[i].participants.0@ == v[j].participants.0@ && v[i].participants.1@
            == v[j].participants.1@),
        !(v[i].participants.0@ == v[j].participants.1@ && v[i].participants.1@
            == v[j].participants.0@),
{
    law_conversation_key_symmetric(v[j].participants.0@, v[j].participants.1@);
}

/// Inserting a keyed conversation whose identifier is new keeps a sequence of
/// keyed conversations with distinct identifiers.
proof fn lemma_insert_distinct_ids(s: Seq<Conversation>, p: int, c: Conversation)
    requires
        0 <= p <= s.len(),
        is_keyed_conversation(c),
        forall|a: int| 0 <= a < s.len() ==> is_keyed_conversation(#[trigger] s[a]),
        forall|a: int, b: int| 0 <= a < b < s.len() ==> (#[trigger] s[a]).id@ != (#[trigger] s[b]).id@,
        forall|a: int| 0 <= a < s.len() ==> (#[trigger] s[a]).id@ != c.id@,
    ensures
        forall|a: int| 0 <= a < s.insert(p, c).len() ==> is_keyed_conversation(#[trigger] s.insert(p, c)[a]),
        forall|a: int, b: int|
            0 <= a < b < s.insert(p, c).len() ==> (#[trigger] s.insert(p, c)[a]).id@ != (#[trigger] s.insert(
                p,
                c,
            )[b]).id@,
{
    let t = s.insert(p, c);
    assert forall|a: int| 0 <= a < t.len() implies is_keyed_conversation(#[trigger] t[a]) by {
        if a < p {
            assert(t[a] == s[a]);
        } else if a > p {
            assert(t[a] == s[a - 1]);
        }
    }
    assert forall|a: int, b: int| 0 <= a < b < t.len() implies (#[trigger] t[a]).id@ != (#[trigger] t[b]).id@ by {
        if b < p {
            assert(t[a] == s[a] && t[b] == s[b]);
        } else if b == p {
            assert(t[a] == s[a]);
        } else if a < p {
            assert(t[a] == s[a] && t[b] == s[b - 1]);
        } else if a == p {
            assert(t[b] == s[b - 1]);
        } else {
            assert(t[a] == s[a - 1] && t[b] == s[b - 1]);
        }
    }
}

/// Whether conversations are ordered from the most to the least recently active.
pub open spec fn sorted_by_recent_activity(s: Seq<Conversation>) -> bool {
    forall|i: int, j: int| 0 <= i < j < s.len() ==> s[i].last_activity_ms >= s[j].last_activity_ms
}

fn insert_by_activity(r: &mut Vec<Conversation>, c: Conversation) -> (p: usize)
    requires
        sorted_by_recent_activity(old(r)@),
    ensures
        p <= old(r)@.len(),
        final(r)@ == old(r)@.insert(p as int, c),
        sorted_by_recent_activity(final(r)@),
{
    let mut p: usize = 0;
    while p < r.len() && r[p].last_activity_ms >= c.last_activity_ms
        invariant
            p <= r@.len(),
            forall|i: int| 0 <= i < p ==> r@[i].last_activity_ms >= c.last_activity_ms,
        decreases r@.len() - p,
    {
        p += 1;
    }
    let ghost old_r = r@;
    let ghost cc = c;
    r.insert(p, c);
    proof {
        assert forall|i: int, j: int| 0 <= i < j < r@.len() implies r@[i].last_activity_ms
            >= r@[j].last_activity_ms by {
            if j < p {
            } else if i > p {
                assert(r@[i] == old_r[i - 1]);
                assert(r@[j] == old_r[j - 1]);
            } else if i == p {
                assert(r@[j] == old_r[j - 1]);
                assert(old_r[p as int].last_activity_ms < cc.last_activity_ms);
            } else if j == p {
            } else {
                assert(r@[j] == old_r[j - 1]);
                assert(old_r[p as int].last_activity_ms < cc.last_activity_ms);
            }
        }
    }
    p
}

/// The stored messages that do not belong to the session `sid`.
pub open spec fn messages_outside(stored: Map<Seq<char>, Message>, sid: Seq<char>) -> Map<
    Seq<char>,
    Message,
> {
    Map::new(|k: Seq<char>| stored.contains_key(k) && stored[k].session_id@ != sid, |k: Seq<char>| stored[k])
}

/// Keeps the messages that do not belong to the session `sid`.
fn messages_outside_session(reg: &Registry<String, Message>, sid: &SessionId) -> (r: Registry<
    String,
    Message,
>)
    requires
        reg.wf(),
    ensures
        r.wf(),
        forall|k: Seq<char>| #[trigger]
            r.as_map().contains_key(k) == (reg.as_map().contains_key(k) && reg.as_map()[k].session_id@
                != sid@),
        forall|k: Seq<char>| #[trigger] r.as_map().contains_key(k) ==> r.as_map()[k] == reg.as_map()[k],
{
    let mut out: Registry<String, Message> = Registry::new();
    let n = reg.len();
    let mut i: usize = 0;
    while i < n
        invariant
            reg.wf(),
            out.wf(),
            n == reg.entries().len(),
            i <= n,
            forall|k: Seq<char>| #[trigger]
                out.as_map().contains_key(k) == (exists|j: int|
                    0 <= j < i && (#[trigger] reg.entries()[j]).0@ == k && reg.entries()[j].1.session_id@
                        != sid@),
            forall|k: Seq<char>| #[trigger]
                out.as_map().contains_key(k) ==> out.as_map()[k] == reg.as_map()[k],
        decreases n - i,
    {
        let e = reg.entry(i);
        proof {
            reg.lemma_entry_in_map(i as int);
            reg.lemma_unique();
        }
        if !(e.1.session_id == *sid) {
            let ghost before = out.as_map();
            out.insert(e.0.clone(), e.1.clone());
            assert forall|k: Seq<char>| #[trigger]
                out.as_map().contains_key(k) == (exists|j: int|
                    0 <= j < i + 1 && (#[trigger] reg.entries()[j]).0@ == k && reg.entries()[j].1.session_id@
                        != sid@) by {
                if k == e.0@ {
                    assert(reg.entries()[i as int].0@ == k);
                } else if out.as_map().contains_key(k) {
                    assert(before.contains_key(k));
                } else {
                    if exists|j: int|
                        0 <= j < i + 1 && (#[trigger] reg.entries()[j]).0@ == k
                            && reg.entries()[j].1.session_id@ != sid@ {
                        let j = choose|j: int|
                            0 <= j < i + 1 && (#[trigger] reg.entries()[j]).0@ == k
                                && reg.entries()[j].1.session_id@ != sid@;
                        assert(j < i);
                    }
                }
            }
        } else {
            assert forall|k: Seq<char>| #[trigger]
                out.as_map().contains_key(k) == (exists|j: int|
                    0 <= j < i + 1 && (#[trigger] reg.entries()[j]).0@ == k && reg.entries()[j].1.session_id@
                        != sid@) by {
                if exists|j: int|
                    0 <= j < i + 1 && (#[trigger] reg.entries()[j]).0@ == k && reg.entries()[j].1.session_id@
                        != sid@ {
                    let j = choose|j: int|
                        0 <= j < i + 1 && (#[trigger] reg.entries()[j]).0@ == k
                            && reg.entries()[j].1.session_id@ != sid@;
                    assert(j < i);
                }
            }
        }
        i += 1;
    }
    assert forall|k: Seq<char>| #[trigger]
        out.as_map().contains_key(k) == (reg.as_map().contains_key(k) && reg.as_map()[k].session_id@
            != sid@) by {
        if reg.as_map().contains_key(k) {
            let j = reg.index_of(k);
            reg.lemma_entry_in_map(j);
        }
        if out.as_map().contains_key(k) {
            let j = choose|j: int|
                0 <= j < n && (#[trigger] reg.entries()[j]).0@ == k && reg.entries()[j].1.session_id@ != sid@;
            reg.lemma_entry_in_map(j);
        }
    }
    out
}

/// A store that keeps messages, events, conversations and contacts in memory.
pub struct InMemoryStorageAdapter {
    messages: Registry<String, Message>,
    events: Vec<DomainEvent>,
    conversations: Registry<String, Conversation>,
    contacts: Registry<UserId, Contact>,
}

impl InMemoryStorageAdapter {
    #[verifier::type_invariant]
    spec fn inv(self) -> bool {
        &&& self.messages.wf()
        &&& self.conversations.wf()
        &&& self.contacts.wf()
        &&& forall|k: Seq<char>| #[trigger]
            self.messages.as_map().contains_key(k) ==> self.messages.as_map()[k].id@ == k
        &&& forall|k: Seq<char>| #[trigger]
            self.conversations.as_map().contains_key(k) ==> self.conversations.as_map()[k].id@
                == k && is_keyed_conversation(self.conversations.as_map()[k])
        &&& forall|k: Seq<u8>| #[trigger]
            self.contacts.as_map().contains_key(k) ==> self.contacts.as_map()[k].user_id@ == k
    }

    /// Stored messages by identifier.
    pub closed spec fn messages(self) -> Map<Seq<char>, Message> {
        self.messages.as_map()
    }

    /// Recorded events, oldest first.
    pub closed spec fn events(self) -> Seq<DomainEvent> {
        self.events@
    }

    /// Conversations by identifier.
    pub closed spec fn conversations(self) -> Map<Seq<char>, Conversation> {
        self.conversations.as_map()
    }

    /// Contacts by the bytes of their user identifier.
    pub closed spec fn contacts(self) -> Map<Seq<u8>, Contact> {
        self.contacts.as_map()
    }

    /// An empty store.
    pub fn new() -> (r: Self)
        ensures
            r.messages() == Map::<Seq<char>, Message>::empty(),
            r.events() == Seq::<DomainEvent>::empty(),
            r.conversations() == Map::<Seq<char>, Conversation>::empty(),
            r.contacts() == Map::<Seq<u8>, Contact>::empty(),
    {
        InMemoryStorageAdapter {
            messages: Registry::new(),
            events: Vec::new(),
            conversations: Registry::new(),
            contacts: Registry::new(),
        }
    }

    /// The conversation key of two users.
    fn conv_key(a: &UserId, b: &UserId) -> (r: String)
        ensures
            r@ == conversation_key(a@, b@),
    {
        let ha = a.to_hex();
        let hb = b.to_hex();
        if str_lt(ha.as_str(), hb.as_str()) {
            let mut s = ha;
            s.append("-");
            s.append(hb.as_str());
            s
        } else {
            let mut s = hb;
            s.append("-");
            s.append(ha.as_str());
            s
        }
    }
}

} // verus!

verus! {

/// Whether `m` is one of the stored messages and belongs to the session.
pub open spec fn stored_in_session(
    stored: Map<Seq<char>, Message>,
    sid: Seq<char>,
    m: Message,
) -> bool {
    &&& exists|k: Seq<char>| #[trigger] stored.contains_key(k) && stored[k] == m
    &&& m.session_id@ == sid
}

/// Whether `c` is one of the stored conversations.
pub open spec fn is_stored_conversation(stored: Map<Seq<char>, Conversation>, c: Conversation) -> bool {
    exists|k: Seq<char>| #[trigger] stored.contains_key(k) && stored[k] == c
}

impl Default for InMemoryStorageAdapter {
    fn default() -> (r: Self)
        ensures
            r.messages() == Map::<Seq<char>, Message>::empty(),
            r.events() == Seq::<DomainEvent>::empty(),
            r.conversations() == Map::<Seq<char>, Conversation>::empty(),
            r.contacts() == Map::<Seq<u8>, Contact>::empty(),
    {
        Self::new()
    }
}

impl StoragePort for InMemoryStorageAdapter {
    fn store_message(&mut self, message: &Message) -> (r: Result<(), DomainError>)
        ensures
            r is Ok,
            final(self).messages() == old(self).messages().insert(message.id@, *message),
            final(self).events() == old(self).events(),
            final(self).conversations() == old(self).conversations(),
            final(self).contacts() == old(self).contacts(),
    {
        proof {
            use_type_invariant(&*self);
        }
        let mut reg = Registry::new();
        std::mem::swap(&mut reg, &mut self.messages);
        reg.insert(message.id.clone(), message.clone());
        self.messages = reg;
        Ok(())
    }

    fn get_message(&self, message_id: &str) -> (r: Result<Message, DomainError>)
        ensures
            message_lookup(self.messages(), message_id@, r),
    {
        proof {
            use_type_invariant(self);
        }
        let key = String::from_str(message_id);
        match self.messages.get(&key) {
            Some(m) => Ok(m.clone()),
            None => Err(DomainError::MessageNotFound(key)),
        }
    }

    fn get_session_messages(&self, session_id: &SessionId) -> (r: Result<Vec<Message>, DomainError>)
        ensures
            r matches Ok(v) && {
                &&& sorted_by_sequence(v@)
                &&& v@.no_duplicates()
                &&& forall|m: Message| #[trigger]
                    v@.contains(m) <==> stored_in_session(self.messages(), session_id@, m)
            },
    {
        proof {
            use_type_invariant(self);
        }
        let reg = &self.messages;
        let n = reg.len();
        let mut r: Vec<Message> = Vec::new();
        let mut i: usize = 0;
        while i < n
            invariant
                reg == &self.messages,
                reg.wf(),
                n == reg.entries().len(),
                i <= n,
                forall|k: Seq<char>| #[trigger]
                    reg.as_map().contains_key(k) ==> reg.as_map()[k].id@ == k,
                sorted_by_sequence(r@),
                r@.no_duplicates(),
                forall|m: Message| #[trigger]
                    r@.contains(m) <==> exists|j: int|
                        0 <= j < i && (#[trigger] reg.entries()[j]).1 == m && m.session_id@
                            == session_id@,
            decreases n - i,
        {
            let e = reg.entry(i);
            proof {
                reg.lemma_entry_in_map(i as int);
                reg.lemma_unique();
            }
            if e.1.session_id == *session_id {
                let c = e.1.clone();
                let ghost before = r@;
                proof {
                    if before.contains(c) {
                        let j = choose|j: int|
                            0 <= j < i && (#[trigger] reg.entries()[j]).1 == c && c.session_id@
                                == session_id@;
                        reg.lemma_entry_in_map(j);
                        assert(reg.entries()[j].0@ == reg.entries()[i as int].0@);
                    }
                }
                let p = insert_by_sequence(&mut r, c);
                proof {
                    lemma_insert_contents(before, p as int, c);
                    assert forall|m: Message| #[trigger]
                        r@.contains(m) <==> exists|j: int|
                            0 <= j < i + 1 && (#[trigger] reg.entries()[j]).1 == m
                                && m.session_id@ == session_id@ by {
                        if m == c {
                            assert(reg.entries()[i as int].1 == m);
                        }
                        if exists|j: int|
                            0 <= j < i + 1 && (#[trigger] reg.entries()[j]).1 == m
                                && m.session_id@ == session_id@ {
                            let j = choose|j: int|
                                0 <= j < i + 1 && (#[trigger] reg.entries()[j]).1 == m
                                    && m.session_id@ == session_id@;
                            if j < i {
                                assert(before.contains(m));
                            }
                        }
                    }
                }
            } else {
                proof {
                    assert forall|m: Message| #[trigger]
                        r@.contains(m) <==> exists|j: int|
                            0 <= j < i + 1 && (#[trigger] reg.entries()[j]).1 == m
                                && m.session_id@ == session_id@ by {
                        if exists|j: int|
                            0 <= j < i + 1 && (#[trigger] reg.entries()[j]).1 == m
                                && m.session_id@ == session_id@ {
                            let j = choose|j: int|
                                0 <= j < i + 1 && (#[trigger] reg.entries()[j]).1 == m
                                    && m.session_id@ == session_id@;
                            assert(j < i);
                        }
                    }
                }
            }
            i += 1;
        }
        proof {
            assert forall|m: Message| #[trigger]
                r@.contains(m) <==> stored_in_session(self.messages(), session_id@, m) by {
                if r@.contains(m) {
                    let j = choose|j: int|
                        0 <= j < n && (#[trigger] reg.entries()[j]).1 == m && m.session_id@
                            == session_id@;
                    reg.lemma_entry_in_map(j);
                    assert(self.messages().contains_key(reg.entries()[j].0@));
                }
                if stored_in_session(self.messages(), session_id@, m) {
                    let k = choose|k: Seq<char>| #[trigger]
                        self.messages().contains_key(k) && self.messages()[k] == m;
                    let j = reg.index_of(k);
                    assert(reg.entries()[j].1 == m);
                }
            }
        }
        Ok(r)
    }

    fn store_event(&mut self, event: &DomainEvent) -> (r: Result<(), DomainError>)
        ensures
            r is Ok,
            final(self).events() == old(self).events().push(*event),
            final(self).messages() == old(self).messages(),
            final(self).conversations() == old(self).conversations(),
            final(self).contacts() == old(self).contacts(),
    {
        proof {
            use_type_invariant(&*self);
        }
        let mut events = Vec::new();
        std::mem::swap(&mut events, &mut self.events);
        events.push(event.clone());
        self.events = events;
        Ok(())
    }
}

} // verus!

verus! {

impl ExtendedStoragePort for InMemoryStorageAdapter {
    fn get_or_create_conversation(&mut self, user_a: &UserId, user_b: &UserId) -> (r: Result<
        Conversation,
        DomainError,
    >)
        ensures
            get_or_create_outcome(
                old(self).conversations(),
                *user_a,
                *user_b,
                r,
                final(self).conversations(),
            ),
            r matches Ok(c) && is_keyed_conversation(c) && c.id@ == conversation_key(
                user_a@,
                user_b@,
            ),
            final(self).messages() == old(self).messages(),
            final(self).events() == old(self).events(),
            final(self).contacts() == old(self).contacts(),
    {
        proof {
            use_type_invariant(&*self);
        }
        let key = Self::conv_key(user_a, user_b);
        if let Some(c) = self.conversations.get(&key) {
            return Ok(c.clone());
        }
        let mut sid = String::from_str("conv-");
        sid.append(key.as_str());
        let conv = Conversation {
            id: key.clone(),
            participants: (*user_a, *user_b),
            session_id: SessionId(sid),
            last_activity_ms: 0,
            message_count: 0,
        };
        let mut reg = Registry::new();
        std::mem::swap(&mut reg, &mut self.conversations);
        reg.insert(key, conv.clone());
        self.conversations = reg;
        Ok(conv)
    }

    fn list_conversations(&self) -> (r: Result<Vec<Conversation>, DomainError>)
        ensures
            r matches Ok(v) && {
                &&& sorted_by_recent_activity(v@)
                &&& v@.no_duplicates()
                &&& v@.len() == self.conversations().dom().len()
                &&& forall|i: int| 0 <= i < v@.len() ==> is_keyed_conversation(#[trigger] v@[i])
                &&& forall|i: int|
                    0 <= i < v@.len() ==> is_filed_under_id(self.conversations(), #[trigger] v@[i])
                &&& forall|a: int, b: int|
                    0 <= a < b < v@.len() ==> (#[trigger] v@[a]).id@ != (#[trigger] v@[b]).id@
                &&& forall|c: Conversation| #[trigger]
                    v@.contains(c) <==> is_stored_conversation(self.conversations(), c)
            },
    {
        proof {
            use_type_invariant(self);
        }
        let reg = &self.conversations;
        let n = reg.len();
        let mut r: Vec<Conversation> = Vec::new();
        let mut i: usize = 0;
        while i < n
            invariant
                reg == &self.conversations,
                reg.wf(),
                n == reg.entries().len(),
                i <= n,
                forall|k: Seq<char>| #[trigger]
                    reg.as_map().contains_key(k) ==> reg.as_map()[k].id@ == k
                        && is_keyed_conversation(reg.as_map()[k]),
                sorted_by_recent_activity(r@),
                r@.no_duplicates(),
                r@.len() == i,
                forall|a: int| 0 <= a < r@.len() ==> is_keyed_conversation(#[trigger] r@[a]),
                forall|a: int, b: int|
                    0 <= a < b < r@.len() ==> (#[trigger] r@[a]).id@ != (#[trigger] r@[b]).id@,
                forall|c: Conversation| #[trigger]
                    r@.contains(c) <==> exists|j: int| 0 <= j < i && (#[trigger] reg.entries()[j]).1 == c,
            decreases n - i,
        {
            let e = reg.entry(i);
            proof {
                reg.lemma_entry_in_map(i as int);
                reg.lemma_unique();
            }
            let c = e.1.clone();
            let ghost before = r@;
            proof {
                if before.contains(c) {
                    let j = choose|j: int| 0 <= j < i && (#[trigger] reg.entries()[j]).1 == c;
                    reg.lemma_entry_in_map(j);
                    assert(reg.entries()[j].0@ == reg.entries()[i as int].0@);
                }
            }
            proof {
                assert forall|a: int| 0 <= a < before.len() implies (#[trigger] before[a]).id@
                    != c.id@ by {
                    assert(before.contains(before[a]));
                    let j = choose|j: int| 0 <= j < i && (#[trigger] reg.entries()[j]).1 == before[a];
                    reg.lemma_entry_in_map(j);
                }
            }
            let p = insert_by_activity(&mut r, c);
            proof {
                lemma_insert_distinct_ids(before, p as int, c);
                lemma_insert_contents(before, p as int, c);
                assert forall|x: Conversation| #[trigger]
                    r@.contains(x) <==> exists|j: int|
                        0 <= j < i + 1 && (#[trigger] reg.entries()[j]).1 == x by {
                    if x == c {
                        assert(reg.entries()[i as int].1 == x);
                    }
                    if exists|j: int| 0 <= j < i + 1 && (#[trigger] reg.entries()[j]).1 == x {
                        let j = choose|j: int| 0 <= j < i + 1 && (#[trigger] reg.entries()[j]).1 == x;
                        if j < i {
                            assert(before.contains(x));
                        }
                    }
                }
            }
            i += 1;
        }
        proof {
            reg.lemma_len();
            assert forall|a: int| 0 <= a < r@.len() implies is_filed_under_id(
                self.conversations(),
                #[trigger] r@[a],
            ) by {
                assert(r@.contains(r@[a]));
                let j = choose|j: int| 0 <= j < n && (#[trigger] reg.entries()[j]).1 == r@[a];
                reg.lemma_entry_in_map(j);
            }
            assert forall|c: Conversation| #[trigger]
                r@.contains(c) <==> is_stored_conversation(self.conversations(), c) by {
                if r@.contains(c) {
                    let j = choose|j: int| 0 <= j < n && (#[trigger] reg.entries()[j]).1 == c;
                    reg.lemma_entry_in_map(j);
                    assert(self.conversations().contains_key(reg.entries()[j].0@));
                }
                if is_stored_conversation(self.conversations(), c) {
                    let k = choose|k: Seq<char>| #[trigger]
                        self.conversations().contains_key(k) && self.conversations()[k] == c;
                    let j = reg.index_of(k);
                    assert(reg.entries()[j].1 == c);
                }
            }
        }
        Ok(r)
    }

    fn save_contact(&mut self, contact: &Contact) -> (r: Result<(), DomainError>)
        ensures
            r is Ok,
            final(self).contacts() == old(self).contacts().insert(contact.user_id@, *contact),
            final(self).messages() == old(self).messages(),
            final(self).events() == old(self).events(),
            final(self).conversations() == old(self).conversations(),
    {
        proof {
            use_type_invariant(&*self);
        }
        let mut reg = Registry::new();
        std::mem::swap(&mut reg, &mut self.contacts);
        reg.insert(contact.user_id, contact.clone());
        self.contacts = reg;
        Ok(())
    }

    fn get_contact(&self, user_id: &UserId) -> (r: Result<Option<Contact>, DomainError>)
        ensures
            contact_lookup(self.contacts(), user_id@, r),
    {
        proof {
            use_type_invariant(self);
        }
        match self.contacts.get(user_id) {
            Some(c) => Ok(Some(c.clone())),
            None => Ok(None),
        }
    }

    fn delete_conversation(&mut self, conversation_id: &str) -> (r: Result<(), DomainError>)
        ensures
            r is Ok,
            final(self).conversations() == old(self).conversations().remove(conversation_id@),
            final(self).messages() == if old(self).conversations().contains_key(conversation_id@) {
                messages_outside(
                    old(self).messages(),
                    old(self).conversations()[conversation_id@].session_id@,
                )
            } else {
                old(self).messages()
            },
            final(self).events() == old(self).events(),
            final(self).contacts() == old(self).contacts(),
    {
        proof {
            use_type_invariant(&*self);
        }
        let key = String::from_str(conversation_id);
        let sid = match self.conversations.get(&key) {
            Some(c) => Some(c.session_id.clone()),
            None => None,
        };
        if let Some(sid) = sid {
            let kept = messages_outside_session(&self.messages, &sid);
            assert(kept.as_map() =~= messages_outside(old(self).messages(), sid@));
            self.messages = kept;
        }
        let mut reg = Registry::new();
        std::mem::swap(&mut reg, &mut self.conversations);
        reg.remove(&key);
        self.conversations = reg;
        Ok(())
    }
}

} // verus!
