//! In-memory adapters for the core ports, used in development and tests.

use crate::bytes::{zero_bytes, zeros};
use crate::domain::entities::{Message, SessionId, UserId};
use crate::domain::errors::DomainError;
use crate::domain::events::DomainEvent;
use crate::domain::value_objects::ModerationResult;
use crate::message_order::{in_session, insert_by_sequence, stably_sorted_from, has_sequence};
use crate::ports::{CryptoPort, MessageTransportPort, ModerationPort, PreKeyBundle, StoragePort};
use crate::registry::Registry;
use crate::text::{hex_encode, push_hex};
use vstd::prelude::*;
use vstd::string::StringExecFns;

verus! {

broadcast use vstd::seq_lib::group_seq_properties;

/// Whether a bundle is the placeholder bundle of the stub adapter: all-zero
/// keys of 32 bytes, an all-zero signature of 64 bytes, and a one-time key.
pub open spec fn is_placeholder_bundle(b: PreKeyBundle) -> bool {
    &&& b.identity_key@ == zeros(32)
    &&& b.signed_pre_key@ == zeros(32)
    &&& b.signed_pre_key_signature@ == zeros(64)
    &&& b.one_time_pre_key matches Some(k) && k@ == zeros(32)
}

/// The session name the stub adapter gives a session with a user.
pub open spec fn stub_session_name(user: Seq<u8>) -> Seq<char> {
    "stub-session-"@ + hex_encode(user)
}

/// The ciphertext the development adapters produce for a plaintext: they do
/// not encrypt, so it is the plaintext itself.
pub open spec fn stub_ciphertext(plaintext: Seq<u8>) -> Seq<u8> {
    plaintext
}

/// The plaintext the development adapters recover from a ciphertext: the
/// ciphertext itself.
pub open spec fn stub_plaintext(ciphertext: Seq<u8>) -> Seq<u8> {
    ciphertext
}

/// Decrypting what the development adapters encrypted gives the plaintext back.
pub proof fn law_stub_cipher_roundtrip(plaintext: Seq<u8>)
    ensures
        stub_plaintext(stub_ciphertext(plaintext)) == plaintext,
{
}

/// Whether `after` is what closing the session `sid` leaves of `before`: the
/// sessions with other identifiers, unchanged.
pub open spec fn sessions_after_close(
    before: Map<Seq<u8>, SessionId>,
    sid: Seq<char>,
    after: Map<Seq<u8>, SessionId>,
) -> bool {
    &&& forall|k: Seq<u8>| #[trigger]
        after.contains_key(k) == (before.contains_key(k) && before[k]@ != sid)
    &&& forall|k: Seq<u8>| #[trigger] after.contains_key(k) ==> after[k] == before[k]
}

/// Closing the session just established with a user leaves no session with
/// that user, and keeps every session with another identifier.
pub proof fn law_close_after_establish(
    before: Map<Seq<u8>, SessionId>,
    user: Seq<u8>,
    sid: SessionId,
    after: Map<Seq<u8>, SessionId>,
)
    requires
        sessions_after_close(before.insert(user, sid), sid@, after),
    ensures
        !after.contains_key(user),
        forall|k: Seq<u8>|
            k != user && #[trigger] before.contains_key(k) && before[k]@ != sid@ ==> after.contains_key(k)
                && after[k] == before[k],
{
    assert(before.insert(user, sid).contains_key(user));
}

/// A session identifier `prefix` + hex of the user.
pub(crate) fn session_for(prefix: &str, user: &UserId) -> (r: SessionId)
    ensures
        r@ == prefix@ + hex_encode(user@),
{
    let mut s = String::from_str(prefix);
    push_hex(&mut s, user.0.as_slice());
    SessionId(s)
}

/// Keeps the sessions whose identifier differs from `sid`.
pub(crate) fn without_session(reg: &Registry<UserId, SessionId>, sid: &SessionId) -> (r: Registry<
    UserId,
    SessionId,
>)
    requires
        reg.wf(),
    ensures
        r.wf(),
        forall|k: Seq<u8>| #[trigger]
            r.as_map().contains_key(k) == (reg.as_map().contains_key(k) && reg.as_map()[k]@
                != sid@),
        forall|k: Seq<u8>| #[trigger] r.as_map().contains_key(k) ==> r.as_map()[k] == reg.as_map()[k],
{
    let mut out: Registry<UserId, SessionId> = Registry::new();
    let n = reg.len();
    let mut i: usize = 0;
    while i < n
        invariant
            reg.wf(),
            out.wf(),
            n == reg.entries().len(),
            i <= n,
            forall|k: Seq<u8>| #[trigger]
                out.as_map().contains_key(k) == (exists|j: int|
                    0 <= j < i && (#[trigger] reg.entries()[j]).0@ == k && reg.entries()[j].1@
                        != sid@),
            forall|k: Seq<u8>| #[trigger]
                out.as_map().contains_key(k) ==> out.as_map()[k] == reg.as_map()[k],
        decreases n - i,
    {
        let e = reg.entry(i);
        proof {
            reg.lemma_entry_in_map(i as int);
            reg.lemma_unique();
        }
        if !(e.1 == *sid) {
            let ghost before = out.as_map();
            out.insert(e.0, e.1.clone());
            assert forall|k: Seq<u8>| #[trigger]
                out.as_map().contains_key(k) == (exists|j: int|
                    0 <= j < i + 1 && (#[trigger] reg.entries()[j]).0@ == k && reg.entries()[j].1@
                        != sid@) by {
                if k == e.0@ {
                    assert(reg.entries()[i as int].0@ == k);
                } else if out.as_map().contains_key(k) {
                    assert(before.contains_key(k));
                } else {
                    if exists|j: int|
                        0 <= j < i + 1 && (#[trigger] reg.entries()[j]).0@ == k
                            && reg.entries()[j].1@ != sid@ {
                        let j = choose|j: int|
                            0 <= j < i + 1 && (#[trigger] reg.entries()[j]).0@ == k
                                && reg.entries()[j].1@ != sid@;
                        assert(j < i);
                    }
                }
            }
        } else {
            assert forall|k: Seq<u8>| #[trigger]
                out.as_map().contains_key(k) == (exists|j: int|
                    0 <= j < i + 1 && (#[trigger] reg.entries()[j]).0@ == k && reg.entries()[j].1@
                        != sid@) by {
                if exists|j: int|
                    0 <= j < i + 1 && (#[trigger] reg.entries()[j]).0@ == k && reg.entries()[j].1@
                        != sid@ {
                    let j = choose|j: int|
                        0 <= j < i + 1 && (#[trigger] reg.entries()[j]).0@ == k
                            && reg.entries()[j].1@ != sid@;
                    assert(j < i);
                }
            }
        }
        i += 1;
    }
    assert forall|k: Seq<u8>| #[trigger]
        out.as_map().contains_key(k) == (reg.as_map().contains_key(k) && reg.as_map()[k]@
            != sid@) by {
        if reg.as_map().contains_key(k) {
            let j = reg.index_of(k);
            reg.lemma_entry_in_map(j);
        }
        if out.as_map().contains_key(k) {
            let j = choose|j: int|
                0 <= j < n && (#[trigger] reg.entries()[j]).0@ == k && reg.entries()[j].1@ != sid@;
            reg.lemma_entry_in_map(j);
        }
    }
    out
}

/// A crypto adapter that performs no encryption: ciphertext is plaintext.
/// It keeps a registry of the sessions it established, by remote user.
pub struct StubCryptoAdapter {
    sessions: Registry<UserId, SessionId>,
}

impl StubCryptoAdapter {
    #[verifier::type_invariant]
    spec fn inv(self) -> bool {
        self.sessions.wf()
    }

    /// The established sessions, by the bytes of the remote user.
    pub closed spec fn sessions(self) -> Map<Seq<u8>, SessionId> {
        self.sessions.as_map()
    }

    /// An adapter with no sessions.
    pub fn new() -> (r: Self)
        ensures
            r.sessions() == Map::<Seq<u8>, SessionId>::empty(),
    {
        StubCryptoAdapter { sessions: Registry::new() }
    }
}

impl Default for StubCryptoAdapter {
    fn default() -> (r: Self)
        ensures
            r.sessions() == Map::<Seq<u8>, SessionId>::empty(),
    {
        Self::new()
    }
}

impl CryptoPort for StubCryptoAdapter {
    fn create_pre_key_bundle(&mut self) -> (r: Result<PreKeyBundle, DomainError>)
        ensures
            r matches Ok(b) && is_placeholder_bundle(b),
            final(self).sessions() == old(self).sessions(),
    {
        Ok(
            PreKeyBundle {
                identity_key: zero_bytes(32),
                signed_pre_key: zero_bytes(32),
                signed_pre_key_signature: zero_bytes(64),
                one_time_pre_key: Some(zero_bytes(32)),
            },
        )
    }

    fn establish_session(&mut self, remote_user: &UserId, bundle: &PreKeyBundle) -> (r: Result<
        SessionId,
        DomainError,
    >)
        ensures
            r matches Ok(s) && s@ == stub_session_name(remote_user@),
            final(self).sessions() == old(self).sessions().insert(remote_user@, r->Ok_0),
    {
        proof {
            use_type_invariant(&*self);
        }
        let sid = session_for("stub-session-", remote_user);
        let mut reg = Registry::new();
        std::mem::swap(&mut reg, &mut self.sessions);
        reg.insert(*remote_user, sid.clone());
        self.sessions = reg;
        Ok(sid)
    }

    fn encrypt_message(&mut self, session_id: &SessionId, plaintext: &[u8]) -> (r: Result<
        Vec<u8>,
        DomainError,
    >)
        ensures
            r matches Ok(c) && c@ == stub_ciphertext(plaintext@),
            final(self).sessions() == old(self).sessions(),
    {
        Ok(vstd::slice::slice_to_vec(plaintext))
    }

    fn decrypt_message(&mut self, session_id: &SessionId, ciphertext: &[u8]) -> (r: Result<
        Vec<u8>,
        DomainError,
    >)
        ensures
            r matches Ok(p) && p@ == stub_plaintext(ciphertext@),
            final(self).sessions() == old(self).sessions(),
    {
        Ok(vstd::slice::slice_to_vec(ciphertext))
    }

    fn close_session(&mut self, session_id: &SessionId) -> (r: Result<(), DomainError>)
        ensures
            r is Ok,
            sessions_after_close(old(self).sessions(), session_id@, final(self).sessions()),
    {
        proof {
            use_type_invariant(&*self);
        }
        let kept = without_session(&self.sessions, session_id);
        self.sessions = kept;
        Ok(())
    }
}

} // verus!

verus! {

/// The inbox after a payload for `recipient` was sent.
pub open spec fn inbox_after_send(inbox: Seq<(UserId, Seq<u8>)>, recipient: UserId, payload: Seq<
    u8,
>) -> Seq<(UserId, Seq<u8>)> {
    inbox.push((recipient, payload))
}

/// What receiving takes from an inbox: the oldest entry, if any, and the
/// inbox that remains.
pub open spec fn receive_from(inbox: Seq<(UserId, Seq<u8>)>) -> (Option<(UserId, Seq<u8>)>, Seq<
    (UserId, Seq<u8>),
>) {
    if inbox.len() == 0 {
        (None, inbox)
    } else {
        (Some(inbox.first()), inbox.drop_first())
    }
}

/// A transport adapter that keeps sent payloads in an in-memory inbox;
/// receiving takes them in the order they were sent.
pub struct StubTransportAdapter {
    inbox: Vec<(UserId, Vec<u8>)>,
}

impl StubTransportAdapter {
    /// The payloads in the inbox, oldest first.
    pub closed spec fn inbox(self) -> Seq<(UserId, Seq<u8>)> {
        self.inbox@.map_values(|p: (UserId, Vec<u8>)| (p.0, p.1@))
    }

    /// An adapter with an empty inbox.
    pub fn new() -> (r: Self)
        ensures
            r.inbox() == Seq::<(UserId, Seq<u8>)>::empty(),
    {
        let r = StubTransportAdapter { inbox: Vec::new() };
        assert(r.inbox() =~= Seq::<(UserId, Seq<u8>)>::empty());
        r
    }
}

impl Default for StubTransportAdapter {
    fn default() -> (r: Self)
        ensures
            r.inbox() == Seq::<(UserId, Seq<u8>)>::empty(),
    {
        Self::new()
    }
}

impl MessageTransportPort for StubTransportAdapter {
    fn send(&mut self, recipient: &UserId, payload: &[u8]) -> (r: Result<(), DomainError>)
        ensures
            r is Ok,
            final(self).inbox() == inbox_after_send(old(self).inbox(), *recipient, payload@),
    {
        self.inbox.push((*recipient, vstd::slice::slice_to_vec(payload)));
        assert(self.inbox() =~= inbox_after_send(old(self).inbox(), *recipient, payload@));
        Ok(())
    }

    fn receive(&mut self) -> (r: Result<(UserId, Vec<u8>), DomainError>)
        ensures
            final(self).inbox() == receive_from(old(self).inbox()).1,
            match receive_from(old(self).inbox()).0 {
                Some(e) => r matches Ok(p) && p.0 == e.0 && p.1@ == e.1,
                None => r matches Err(DomainError::ResourceUnavailable(s)) && s@
                    == "no messages in stub inbox"@,
            },
    {
        if self.inbox.len() == 0 {
            return Err(DomainError::ResourceUnavailable(String::from_str("no messages in stub inbox")));
        }
        let p = self.inbox.remove(0);
        assert(self.inbox() =~= old(self).inbox().drop_first());
        Ok(p)
    }
}

/// Payloads come out in the order they were sent: a payload sent to an empty
/// inbox is the next one received, and sending behind others does not change
/// which one comes out first.
pub proof fn law_transport_first_in_first_out(
    inbox: Seq<(UserId, Seq<u8>)>,
    recipient: UserId,
    payload: Seq<u8>,
)
    ensures
        inbox.len() == 0 ==> receive_from(inbox_after_send(inbox, recipient, payload)) == (
            Some((recipient, payload)),
            inbox,
        ),
        inbox.len() > 0 ==> receive_from(inbox_after_send(inbox, recipient, payload)) == (
            receive_from(inbox).0,
            inbox_after_send(receive_from(inbox).1, recipient, payload),
        ),
{
    let s = inbox.push((recipient, payload));
    if inbox.len() == 0 {
        assert(s.drop_first() =~= inbox);
    } else {
        assert(s.drop_first() =~= inbox.drop_first().push((recipient, payload)));
    }
}

/// Whether `i` is the first position of a message with the identifier.
pub open spec fn is_first_with_id(s: Seq<Message>, id: Seq<char>, i: int) -> bool {
    &&& 0 <= i < s.len()
    &&& s[i].id@ == id
    &&& forall|j: int| 0 <= j < i ==> s[j].id@ != id
}

/// The outcome of looking a message up by identifier among stored messages:
/// the first message with it, or `MessageNotFound` naming the identifier.
pub open spec fn lookup_outcome(s: Seq<Message>, id: Seq<char>, r: Result<Message, DomainError>) -> bool {
    match r {
        Ok(m) => exists|i: int| is_first_with_id(s, id, i) && m == s[i],
        Err(e) => {
            &&& forall|i: int| 0 <= i < s.len() ==> s[i].id@ != id
            &&& e matches DomainError::MessageNotFound(x) && x@ == id
        },
    }
}

/// After storing a message whose identifier was not stored before, looking
/// that identifier up gives exactly the stored message.
pub proof fn law_stub_get_after_store(stored: Seq<Message>, m: Message)
    requires
        forall|i: int| 0 <= i < stored.len() ==> stored[i].id@ != m.id@,
    ensures
        forall|r: Result<Message, DomainError>|
            lookup_outcome(stored.push(m), m.id@, r) <==> r == Ok::<Message, DomainError>(m),
{
    let s = stored.push(m);
    let n = stored.len() as int;
    assert(is_first_with_id(s, m.id@, n));
    assert forall|r: Result<Message, DomainError>|
        lookup_outcome(s, m.id@, r) implies r == Ok::<Message, DomainError>(m) by {
        match r {
            Ok(x) => {
                let i = choose|i: int| is_first_with_id(s, m.id@, i) && x == s[i];
                assert(i == n);
            },
            Err(_) => {
                assert(s[n].id@ == m.id@);
            },
        }
    }
}

/// A storage adapter that keeps messages and events in memory, in the order
/// they were stored.
pub struct StubStorageAdapter {
    messages: Vec<Message>,
    events: Vec<DomainEvent>,
}

impl StubStorageAdapter {
    /// The stored messages, oldest first.
    pub closed spec fn messages(self) -> Seq<Message> {
        self.messages@
    }

    /// The stored events, oldest first.
    pub closed spec fn events(self) -> Seq<DomainEvent> {
        self.events@
    }

    /// An empty store.
    pub fn new() -> (r: Self)
        ensures
            r.messages() == Seq::<Message>::empty(),
            r.events() == Seq::<DomainEvent>::empty(),
    {
        StubStorageAdapter { messages: Vec::new(), events: Vec::new() }
    }
}

impl Default for StubStorageAdapter {
    fn default() -> (r: Self)
        ensures
            r.messages() == Seq::<Message>::empty(),
            r.events() == Seq::<DomainEvent>::empty(),
    {
        Self::new()
    }
}

impl StoragePort for StubStorageAdapter {
    fn store_message(&mut self, message: &Message) -> (r: Result<(), DomainError>)
        ensures
            r is Ok,
            final(self).messages() == old(self).messages().push(*message),
            final(self).events() == old(self).events(),
    {
        self.messages.push(message.clone());
        Ok(())
    }

    fn get_message(&self, message_id: &str) -> (r: Result<Message, DomainError>)
        ensures
            lookup_outcome(self.messages(), message_id@, r),
    {
        let mut i: usize = 0;
        while i < self.messages.len()
            invariant
                i <= self.messages@.len(),
                forall|j: int| 0 <= j < i ==> self.messages@[j].id@ != message_id@,
            decreases self.messages@.len() - i,
        {
            if crate::text::str_eq(self.messages[i].id.as_str(), message_id) {
                let m = self.messages[i].clone();
                assert(is_first_with_id(self.messages@, message_id@, i as int));
                return Ok(m);
            }
            i += 1;
        }
        Err(DomainError::MessageNotFound(String::from_str(message_id)))
    }

    fn get_session_messages(&self, session_id: &SessionId) -> (r: Result<Vec<Message>, DomainError>)
        ensures
            r matches Ok(v) && stably_sorted_from(
                v@,
                self.messages().filter(in_session(session_id@)),
            ),
    {
        let mut r: Vec<Message> = Vec::new();
        let mut i: usize = 0;
        let ghost sid = session_id@;
        assert(self.messages@.take(0).filter(in_session(sid)) =~= Seq::<Message>::empty());
        while i < self.messages.len()
            invariant
                i <= self.messages@.len(),
                sid == session_id@,
                stably_sorted_from(r@, self.messages@.take(i as int).filter(in_session(sid))),
            decreases self.messages@.len() - i,
        {
            let ghost base = self.messages@.take(i as int);
            let ghost m = self.messages@[i as int];
            proof {
                assert(self.messages@.take(i + 1) == base.push(m));
                base.lemma_filter_push(m, in_session(sid));
            }
            if self.messages[i].session_id == *session_id {
                let c = self.messages[i].clone();
                let ghost before = r@;
                let _ = insert_by_sequence(&mut r, c);
                assert forall|k: u64| #[trigger]
                    r@.filter(has_sequence(k)) == self.messages@.take(i + 1).filter(
                        in_session(sid),
                    ).filter(has_sequence(k)) by {
                    base.filter(in_session(sid)).lemma_filter_push(m, has_sequence(k));
                }
            }
            i += 1;
        }
        assert(self.messages@.take(self.messages@.len() as int) == self.messages@);
        Ok(r)
    }

    fn store_event(&mut self, event: &DomainEvent) -> (r: Result<(), DomainError>)
        ensures
            r is Ok,
            final(self).events() == old(self).events().push(*event),
            final(self).messages() == old(self).messages(),
    {
        self.events.push(event.clone());
        Ok(())
    }
}

/// A moderation adapter that finds every text safe.
pub struct StubModerationAdapter;

impl StubModerationAdapter {
    /// Creates the adapter.
    pub fn new() -> (r: Self) {
        StubModerationAdapter
    }
}

impl Default for StubModerationAdapter {
    fn default() -> (r: Self) {
        StubModerationAdapter
    }
}

impl ModerationPort for StubModerationAdapter {
    fn moderate(&mut self, content: &str) -> (r: Result<ModerationResult, DomainError>)
        ensures
            r matches Ok(ModerationResult::Safe),
    {
        Ok(ModerationResult::Safe)
    }
}

} // verus!
