//! Nonces, and the store that holds the one pending nonce of each account
//! identity. A new nonce for an identity replaces the one before it: that is
//! what prevents replay.

use crate::address::{hex_digit, lemma_hex_digit_injective, Address};
use vstd::arithmetic::div_mod::{lemma_mod_breakdown, lemma_small_mod};
use vstd::arithmetic::power::{lemma_pow_adds, lemma_pow_positive, pow};
use vstd::prelude::*;

verus! {

/// A 128-bit challenge value. Its canonical text is that of a UUID.
#[derive(Clone, Copy, Debug, PartialEq, Eq, Hash, Structural)]
pub struct Nonce(pub u128);

/// The hex digit at `position` among the 32 of a 128-bit value, the most
/// significant first.
pub open spec fn uuid_digit(value: u128, position: int) -> char {
    hex_digit((value as int / pow(16, (31 - position) as nat)) % 16)
}

/// How many hyphens stand before a place of a UUID's text.
pub open spec fn hyphens_before(place: int) -> int {
    if place < 8 {
        0
    } else if place < 13 {
        1
    } else if place < 18 {
        2
    } else if place < 23 {
        3
    } else {
        4
    }
}

/// The canonical text of a 128-bit value read as a UUID: its 32 lowercase
/// hex digits in groups of 8, 4, 4, 4 and 12, joined by hyphens.
pub open spec fn nonce_text(value: u128) -> Seq<char> {
    Seq::new(
        36,
        |place: int|
            if place == 8 || place == 13 || place == 18 || place == 23 {
                '-'
            } else {
                uuid_digit(value, place - hyphens_before(place))
            },
    )
}

/// A value below 16 to the power of `count` is told by its `count` lowest
/// hex digits.
proof fn lemma_digits_tell_value(a: int, b: int, count: nat)
    requires
        0 <= a,
        0 <= b,
        forall|k: nat| k < count ==> (a / pow(16, k)) % 16 == (b / #[trigger] pow(16, k)) % 16,
    ensures
        a % pow(16, count) == b % pow(16, count),
    decreases count,
{
    if count == 0 {
        assert(pow(16, 0) == 1) by {
            reveal_with_fuel(pow, 1);
        }
    } else {
        let lower = (count - 1) as nat;
        lemma_digits_tell_value(a, b, lower);
        lemma_pow_positive(16, lower);
        assert(pow(16, count) == pow(16, lower) * 16) by {
            lemma_pow_adds(16, lower, 1);
            reveal_with_fuel(pow, 2);
        }
        lemma_mod_breakdown(a, pow(16, lower), 16);
        lemma_mod_breakdown(b, pow(16, lower), 16);
        assert((a / pow(16, lower)) % 16 == (b / pow(16, lower)) % 16);
    }
}

/// Different nonces have different canonical texts: a signature over the
/// text of one nonce is a signature over the text of no other.
pub proof fn lemma_nonce_text_injective(a: u128, b: u128)
    requires
        nonce_text(a) == nonce_text(b),
    ensures
        a == b,
{
    assert forall|k: nat| k < 32 implies (a as int / pow(16, k)) % 16 == (b as int / #[trigger] pow(
        16,
        k,
    )) % 16 by {
        let position = 31 - k;
        let place = if position < 8 {
            position
        } else if position < 12 {
            position + 1
        } else if position < 16 {
            position + 2
        } else if position < 20 {
            position + 3
        } else {
            position + 4
        };
        assert(nonce_text(a)[place] == uuid_digit(a, position));
        assert(nonce_text(b)[place] == uuid_digit(b, position));
        lemma_pow_positive(16, k);
        lemma_hex_digit_injective((a as int / pow(16, k)) % 16, (b as int / pow(16, k)) % 16);
    }
    lemma_digits_tell_value(a as int, b as int, 32);
    assert(pow(16, 8) == 0x1_0000_0000int) by {
        reveal_with_fuel(pow, 9);
    }
    assert(pow(16, 16) == 0x1_0000_0000_0000_0000int) by {
        lemma_pow_adds(16, 8, 8);
    }
    assert(pow(16, 32) == 0x1_0000_0000_0000_0000_0000_0000_0000_0000int) by {
        lemma_pow_adds(16, 16, 16);
    }
    lemma_small_mod(a as nat, pow(16, 32) as nat);
    lemma_small_mod(b as nat, pow(16, 32) as nat);
}

/// Whether a value carries the version and variant marks of a random UUID.
pub open spec fn is_random_uuid(value: u128) -> bool {
    value & 0x0000_0000_0000_f000_c000_0000_0000_0000u128
        == 0x0000_0000_0000_4000_8000_0000_0000_0000u128
}

/// `uuid::Uuid::new_v4`, taken as its 128-bit value. The value is random;
/// only its version and variant marks are the same each time. The outside
/// function panics where the system hands out no random bytes.
#[verifier::external_body]
fn random_uuid() -> (value: u128)
    ensures
        is_random_uuid(value),
{
    uuid::Uuid::new_v4().as_u128()
}

/// `to_string` of the `uuid::Uuid` made by `uuid::Uuid::from_u128`: the
/// result is the hyphenated lowercase text of the value.
#[verifier::external_body]
fn uuid_text(value: u128) -> (text: String)
    ensures
        text@ == nonce_text(value),
{
    uuid::Uuid::from_u128(value).to_string()
}

impl Nonce {
    /// A fresh, unpredictable nonce.
    pub fn generate() -> (nonce: Nonce)
        ensures
            is_random_uuid(nonce.0),
    {
        Nonce(random_uuid())
    }

    /// The canonical text of the nonce: the exact message that a client
    /// signs.
    pub fn to_string(&self) -> (text: String)
        ensures
            text@ == nonce_text(self.0),
    {
        uuid_text(self.0)
    }
}

/// No nonce has been issued for the identity.
#[derive(Clone, Copy, Debug, PartialEq, Eq, Structural)]
pub struct NotFound;

/// An identity and its pending nonce.
#[derive(Clone, Copy, Debug)]
pub struct NonceEntry {
    pub identity: Address,
    pub nonce: Nonce,
}

/// Whether the entry at `i` belongs to the identity `key`.
spec fn holds_at(entries: Seq<NonceEntry>, key: Seq<u8>, i: int) -> bool {
    0 <= i < entries.len() && entries[i].identity@ == key
}

/// No identity has two entries.
spec fn distinct(entries: Seq<NonceEntry>) -> bool {
    forall|i: int, j: int|
        0 <= i < entries.len() && 0 <= j < entries.len() && i != j
            ==> entries[i].identity@ != entries[j].identity@
}

/// The mapping from identity to pending nonce that a list of entries stands
/// for.
spec fn model(entries: Seq<NonceEntry>) -> Map<Seq<u8>, Nonce> {
    Map::new(
        |key: Seq<u8>| exists|i: int| holds_at(entries, key, i),
        |key: Seq<u8>| entries[choose|i: int| holds_at(entries, key, i)].nonce,
    )
}

/// The mapping holds, for the identity of each entry, the nonce of that
/// entry.
proof fn lemma_model_at(entries: Seq<NonceEntry>, i: int)
    requires
        distinct(entries),
        0 <= i < entries.len(),
    ensures
        model(entries).contains_key(entries[i].identity@),
        model(entries)[entries[i].identity@] == entries[i].nonce,
{
    let key = entries[i].identity@;
    assert(holds_at(entries, key, i));
    let chosen = choose|j: int| holds_at(entries, key, j);
    assert(holds_at(entries, key, chosen));
    assert(chosen == i);
}

/// Putting another entry of the same identity in an entry's place is an
/// insertion into the mapping.
proof fn lemma_model_replace(entries: Seq<NonceEntry>, i: int, entry: NonceEntry)
    requires
        distinct(entries),
        0 <= i < entries.len(),
        entry.identity@ == entries[i].identity@,
    ensures
        distinct(entries.update(i, entry)),
        model(entries.update(i, entry)) == model(entries).insert(entry.identity@, entry.nonce),
{
    let after = entries.update(i, entry);
    assert(distinct(after)) by {
        assert forall|a: int, b: int|
            0 <= a < after.len() && 0 <= b < after.len() && a != b implies after[a].identity@
            != after[b].identity@ by {
            assert(after[a].identity@ == entries[a].identity@);
            assert(after[b].identity@ == entries[b].identity@);
        }
    }
    let expected = model(entries).insert(entry.identity@, entry.nonce);
    assert forall|key: Seq<u8>| model(after).contains_key(key) == expected.contains_key(key) by {
        if model(after).contains_key(key) {
            let j = choose|j: int| holds_at(after, key, j);
            assert(holds_at(entries, key, j));
        }
        if expected.contains_key(key) {
            if key == entry.identity@ {
                assert(holds_at(after, key, i));
            } else {
                let j = choose|j: int| holds_at(entries, key, j);
                assert(holds_at(after, key, j));
            }
        }
    }
    assert forall|key: Seq<u8>| model(after).contains_key(key) implies model(after)[key]
        == expected[key] by {
        let j = choose|j: int| holds_at(after, key, j);
        lemma_model_at(after, j);
        if j != i {
            lemma_model_at(entries, j);
        }
    }
    assert(model(after) =~= expected);
}

/// Appending an entry of an identity that has none is an insertion into
/// the mapping.
proof fn lemma_model_push(entries: Seq<NonceEntry>, entry: NonceEntry)
    requires
        distinct(entries),
        forall|i: int| !holds_at(entries, entry.identity@, i),
    ensures
        distinct(entries.push(entry)),
        model(entries.push(entry)) == model(entries).insert(entry.identity@, entry.nonce),
{
    let after = entries.push(entry);
    assert(distinct(after)) by {
        assert forall|a: int, b: int|
            0 <= a < after.len() && 0 <= b < after.len() && a != b implies after[a].identity@
            != after[b].identity@ by {
            assert(!holds_at(entries, entry.identity@, a));
            assert(!holds_at(entries, entry.identity@, b));
        }
    }
    let expected = model(entries).insert(entry.identity@, entry.nonce);
    assert forall|key: Seq<u8>| model(after).contains_key(key) == expected.contains_key(key) by {
        if model(after).contains_key(key) {
            let j = choose|j: int| holds_at(after, key, j);
            if j < entries.len() {
                assert(holds_at(entries, key, j));
            }
        }
        if expected.contains_key(key) {
            if key == entry.identity@ {
                assert(holds_at(after, key, entries.len() as int));
            } else {
                let j = choose|j: int| holds_at(entries, key, j);
                assert(holds_at(after, key, j));
            }
        }
    }
    assert forall|key: Seq<u8>| model(after).contains_key(key) implies model(after)[key]
        == expected[key] by {
        let j = choose|j: int| holds_at(after, key, j);
        lemma_model_at(after, j);
        if j < entries.len() {
            lemma_model_at(entries, j);
        }
    }
    assert(model(after) =~= expected);
}

/// Taking an entry out takes its identity out of the mapping.
proof fn lemma_model_remove(entries: Seq<NonceEntry>, i: int)
    requires
        distinct(entries),
        0 <= i < entries.len(),
    ensures
        distinct(entries.remove(i)),
        model(entries.remove(i)) == model(entries).remove(entries[i].identity@),
{
    let after = entries.remove(i);
    let gone = entries[i].identity@;
    assert forall|a: int| 0 <= a < after.len() implies after[a] == entries[if a < i {
        a
    } else {
        a + 1
    }] by {}
    assert(distinct(after)) by {
        assert forall|a: int, b: int|
            0 <= a < after.len() && 0 <= b < after.len() && a != b implies after[a].identity@
            != after[b].identity@ by {
            let a0 = if a < i { a } else { a + 1 };
            let b0 = if b < i { b } else { b + 1 };
            assert(after[a] == entries[a0]);
            assert(after[b] == entries[b0]);
        }
    }
    let expected = model(entries).remove(gone);
    assert forall|key: Seq<u8>| model(after).contains_key(key) == expected.contains_key(key) by {
        if model(after).contains_key(key) {
            let j = choose|j: int| holds_at(after, key, j);
            let j0 = if j < i { j } else { j + 1 };
            assert(after[j] == entries[j0]);
            assert(holds_at(entries, key, j0));
        }
        if expected.contains_key(key) {
            let j0 = choose|j: int| holds_at(entries, key, j);
            assert(j0 != i);
            let j = if j0 < i { j0 } else { j0 - 1 };
            assert(after[j] == entries[j0]);
            assert(holds_at(after, key, j));
        }
    }
    assert forall|key: Seq<u8>| model(after).contains_key(key) implies model(after)[key]
        == expected[key] by {
        let j = choose|j: int| holds_at(after, key, j);
        let j0 = if j < i { j } else { j + 1 };
        assert(after[j] == entries[j0]);
        lemma_model_at(after, j);
        lemma_model_at(entries, j0);
    }
    assert(model(after) =~= expected);
}

/// The nonce that a mapping holds for an identity.
pub open spec fn pending(store: Map<Seq<u8>, Nonce>, identity: Seq<u8>) -> Result<Nonce, NotFound> {
    if store.contains_key(identity) {
        Ok(store[identity])
    } else {
        Err(NotFound)
    }
}

/// The mapping after `nonce` was issued for `identity`.
pub open spec fn issued(store: Map<Seq<u8>, Nonce>, identity: Seq<u8>, nonce: Nonce) -> Map<
    Seq<u8>,
    Nonce,
> {
    store.insert(identity, nonce)
}

/// The nonce that was issued last for an identity is the one that is
/// pending for it.
pub proof fn lemma_issued_is_pending(store: Map<Seq<u8>, Nonce>, identity: Seq<u8>, nonce: Nonce)
    ensures
        pending(issued(store, identity, nonce), identity) == Ok::<Nonce, NotFound>(nonce),
{
}

/// A second issuance for an identity leaves no trace of the first: the store
/// is as if only the second had happened, and only the second nonce is
/// pending.
pub proof fn lemma_reissue_replaces(
    store: Map<Seq<u8>, Nonce>,
    identity: Seq<u8>,
    first: Nonce,
    second: Nonce,
)
    ensures
        issued(issued(store, identity, first), identity, second) == issued(
            store,
            identity,
            second,
        ),
        pending(issued(issued(store, identity, first), identity, second), identity) == Ok::<
            Nonce,
            NotFound,
        >(second),
{
    assert(issued(issued(store, identity, first), identity, second) =~= issued(
        store,
        identity,
        second,
    ));
}

/// Issuing a nonce for one identity leaves the pending nonce of every other
/// identity as it was.
pub proof fn lemma_issue_keeps_others(
    store: Map<Seq<u8>, Nonce>,
    identity: Seq<u8>,
    nonce: Nonce,
    other: Seq<u8>,
)
    requires
        other != identity,
    ensures
        pending(issued(store, identity, nonce), other) == pending(store, other),
{
}

/// The pending nonce of each identity, at most one per identity.
pub struct NonceStore {
    entries: Vec<NonceEntry>,
}

impl View for NonceStore {
    type V = Map<Seq<u8>, Nonce>;

    closed spec fn view(&self) -> Map<Seq<u8>, Nonce> {
        model(self.entries@)
    }
}

impl NonceStore {
    #[verifier::type_invariant]
    spec fn well_formed(self) -> bool {
        distinct(self.entries@)
    }

    /// A store in which no nonce is pending.
    pub fn new() -> (store: Self)
        ensures
            store@ == Map::<Seq<u8>, Nonce>::empty(),
    {
        let store = NonceStore { entries: Vec::new() };
        assert(store@ =~= Map::<Seq<u8>, Nonce>::empty());
        store
    }

    /// Where the entry of `identity` stands, if it has one.
    fn position(entries: &Vec<NonceEntry>, identity: &Address) -> (found: Option<usize>)
        ensures
            match found {
                Some(i) => holds_at(entries@, identity@, i as int),
                None => forall|i: int| !holds_at(entries@, identity@, i),
            },
    {
        let mut i: usize = 0;
        while i < entries.len()
            invariant
                i <= entries.len(),
                forall|k: int| 0 <= k < i ==> !holds_at(entries@, identity@, k),
            decreases entries.len() - i,
        {
            if entries[i].identity.same(identity) {
                return Some(i);
            }
            i = i + 1;
        }
        None
    }

    /// Associates `nonce` with `identity`, in place of any nonce that was
    /// pending for it.
    pub fn upsert(&mut self, identity: &Address, nonce: Nonce)
        ensures
            final(self)@ == issued(old(self)@, identity@, nonce),
    {
        proof {
            use_type_invariant(&*self);
        }
        let mut entries = Vec::new();
        core::mem::swap(&mut entries, &mut self.entries);
        let entry = NonceEntry { identity: *identity, nonce };
        match Self::position(&entries, identity) {
            Some(i) => {
                proof {
                    lemma_model_replace(entries@, i as int, entry);
                }
                entries.set(i, entry);
            },
            None => {
                proof {
                    lemma_model_push(entries@, entry);
                }
                entries.push(entry);
            },
        }
        self.entries = entries;
    }

    /// Issues a fresh nonce for `identity`, in place of any nonce that was
    /// pending for it, and returns it.
    pub fn issue(&mut self, identity: &Address) -> (nonce: Nonce)
        ensures
            final(self)@ == issued(old(self)@, identity@, nonce),
            is_random_uuid(nonce.0),
    {
        let nonce = Nonce::generate();
        self.upsert(identity, nonce);
        nonce
    }

    /// The nonce that is pending for `identity`.
    pub fn current(&self, identity: &Address) -> (res: Result<Nonce, NotFound>)
        ensures
            res == pending(self@, identity@),
    {
        proof {
            use_type_invariant(self);
        }
        match Self::position(&self.entries, identity) {
            Some(i) => {
                proof {
                    lemma_model_at(self.entries@, i as int);
                }
                Ok(self.entries[i].nonce)
            },
            None => Err(NotFound),
        }
    }

    /// Takes the pending nonce of `identity` out of the store, so that it
    /// cannot be answered twice.
    pub fn consume(&mut self, identity: &Address) -> (res: Result<Nonce, NotFound>)
        ensures
            res == pending(old(self)@, identity@),
            final(self)@ == old(self)@.remove(identity@),
    {
        proof {
            use_type_invariant(&*self);
        }
        let mut entries = Vec::new();
        core::mem::swap(&mut entries, &mut self.entries);
        let res = match Self::position(&entries, identity) {
            Some(i) => {
                proof {
                    lemma_model_at(entries@, i as int);
                    lemma_model_remove(entries@, i as int);
                }
                let entry = entries.remove(i);
                Ok(entry.nonce)
            },
            None => Err(NotFound),
        };
        self.entries = entries;
        res
    }
}

} // verus!
