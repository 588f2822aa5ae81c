//! Ordering of messages by sequence number.
//!
//! A sequence of messages is *stably sorted* from another when it is sorted
//! by sequence number and, for every sequence number, holds the messages
//! with that number in the same order as the other sequence does. This
//! determines the result entirely: it is what a stable sort yields.

use crate::domain::entities::Message;
use vstd::multiset::Multiset;
use vstd::prelude::*;

verus! {

broadcast use vstd::seq_lib::group_seq_properties;

/// Whether a message belongs to the session.
pub open spec fn in_session(sid: Seq<char>) -> spec_fn(Message) -> bool {
    |m: Message| m.session_id@ == sid
}

/// Whether a message has the sequence number.
pub open spec fn has_sequence(k: u64) -> spec_fn(Message) -> bool {
    |m: Message| m.sequence == k
}

/// Whether the messages are in non-decreasing sequence order.
pub open spec fn sorted_by_sequence(s: Seq<Message>) -> bool {
    forall|i: int, j: int| 0 <= i < j < s.len() ==> s[i].sequence <= s[j].sequence
}

/// `r` is the stable sort of `base` by sequence number.
pub open spec fn stably_sorted_from(r: Seq<Message>, base: Seq<Message>) -> bool {
    &&& sorted_by_sequence(r)
    &&& forall|k: u64| #[trigger] r.filter(has_sequence(k)) == base.filter(has_sequence(k))
}

/// The position before the first message whose sequence number exceeds `k`.
fn insertion_point(r: &Vec<Message>, k: u64) -> (p: usize)
    requires
        sorted_by_sequence(r@),
    ensures
        p <= r@.len(),
        forall|i: int| 0 <= i < p ==> r@[i].sequence <= k,
        forall|i: int| p <= i < r@.len() ==> r@[i].sequence > k,
{
    let mut p: usize = 0;
    while p < r.len() && r[p].sequence <= k
        invariant
            p <= r@.len(),
            sorted_by_sequence(r@),
            forall|i: int| 0 <= i < p ==> r@[i].sequence <= k,
        decreases r@.len() - p,
    {
        p += 1;
    }
    p
}

/// Inserts a message after every message with a sequence number not above its own.
pub fn insert_by_sequence(r: &mut Vec<Message>, m: Message) -> (p: usize)
    requires
        sorted_by_sequence(old(r)@),
    ensures
        p <= old(r)@.len(),
        final(r)@ == old(r)@.insert(p as int, m),
        sorted_by_sequence(final(r)@),
        forall|k: u64| #[trigger]
            final(r)@.filter(has_sequence(k)) == if m.sequence == k {
                old(r)@.filter(has_sequence(k)).push(m)
            } else {
                old(r)@.filter(has_sequence(k))
            },
        final(r)@.to_multiset() == old(r)@.to_multiset().insert(m),
{
    let p = insertion_point(r, m.sequence);
    let ghost old_r = r@;
    let ghost mm = m;
    r.insert(p, m);
    proof {
        let a = old_r.take(p as int);
        let b = old_r.skip(p as int);
        assert(old_r == a + b);
        assert(r@ == a + seq![mm] + b);
        assert forall|k: u64| #[trigger]
            r@.filter(has_sequence(k)) == if mm.sequence == k {
                old_r.filter(has_sequence(k)).push(mm)
            } else {
                old_r.filter(has_sequence(k))
            } by {
            Seq::filter_distributes_over_add(a + seq![mm], b, has_sequence(k));
            Seq::filter_distributes_over_add(a, seq![mm], has_sequence(k));
            Seq::filter_distributes_over_add(a, b, has_sequence(k));
            reveal_with_fuel(Seq::filter, 2);
            if mm.sequence == k {
                assert forall|i: int| 0 <= i < b.len() implies !has_sequence(k)(b[i]) by {
                    assert(b[i] == old_r[p + i]);
                }
                b.lemma_all_neg_filter_empty(has_sequence(k));
                assert(b.filter(has_sequence(k)) =~= Seq::<Message>::empty());
                assert(seq![mm].filter(has_sequence(k)) =~= seq![mm]);
            } else {
                assert(seq![mm].filter(has_sequence(k)) =~= Seq::<Message>::empty());
            }
        }
        assert forall|i: int, j: int| 0 <= i < j < r@.len() implies r@[i].sequence
            <= r@[j].sequence by {
            if j < p {
            } else if i > p {
                assert(r@[i] == old_r[i - 1]);
                assert(r@[j] == old_r[j - 1]);
            } else if i == p {
                assert(r@[j] == old_r[j - 1]);
            } else {
                if j == p {
                } else {
                    assert(r@[j] == old_r[j - 1]);
                }
            }
        }
        old_r.insert_ensures(p as int, mm);
        vstd::seq_lib::lemma_seq_union_to_multiset_commutative(a, b);
        assert(r@ == old_r.insert(p as int, mm));
        assert(r@.to_multiset() =~= old_r.to_multiset().insert(mm)) by {
            vstd::seq_lib::lemma_multiset_commutative(a + seq![mm], b);
            vstd::seq_lib::lemma_multiset_commutative(a, seq![mm]);
            vstd::seq_lib::lemma_multiset_commutative(a, b);
            assert(seq![mm].to_multiset() =~= Multiset::empty().insert(mm)) by {
                assert(seq![mm] =~= Seq::<Message>::empty().push(mm));
                Seq::<Message>::empty().to_multiset_ensures();
            }
        }
    }
    p
}

} // verus!

verus! {

/// Inserting an element into a sequence adds exactly that element, and keeps a
/// sequence without duplicates so when the element was absent.
pub proof fn lemma_insert_contents<T>(s: Seq<T>, p: int, x: T)
    requires
        0 <= p <= s.len(),
    ensures
        forall|y: T| #[trigger] s.insert(p, x).contains(y) <==> s.contains(y) || y == x,
        s.no_duplicates() && !s.contains(x) ==> s.insert(p, x).no_duplicates(),
{
    let t = s.insert(p, x);
    s.insert_ensures(p, x);
    assert forall|y: T| #[trigger] t.contains(y) <==> s.contains(y) || y == x by {
        if t.contains(y) {
            let i = choose|i: int| 0 <= i < t.len() && t[i] == y;
            if i < p {
                assert(s[i] == y);
            } else if i > p {
                assert(s[i - 1] == y);
            }
        }
        if s.contains(y) {
            let i = choose|i: int| 0 <= i < s.len() && s[i] == y;
            if i < p {
                assert(t[i] == y);
            } else {
                assert(t[i + 1] == y);
            }
        }
        if y == x {
            assert(t[p] == x);
        }
    }
    if s.no_duplicates() && !s.contains(x) {
        assert forall|i: int, j: int| 0 <= i < t.len() && 0 <= j < t.len() && i != j implies t[i]
            != t[j] by {
            let si = if i < p {
                i
            } else {
                i - 1
            };
            let sj = if j < p {
                j
            } else {
                j - 1
            };
            if i == p {
                assert(t[j] == s[sj]);
            } else if j == p {
                assert(t[i] == s[si]);
            } else {
                assert(t[i] == s[si]);
                assert(t[j] == s[sj]);
            }
        }
    }
}

} // verus!
