//! The public keys of the peers a node has heard from.
use std::collections::BTreeMap;
use vstd::prelude::*;
use vstd::set_lib::lemma_map_size;
use vstd::std_specs::iter::IteratorSpec;

use crate::keys::PublicKey;
use crate::util::HashId;

verus! {

/// The number of keys that a ring holds at most.
pub const MAX_KEYS: usize = 64;

/// What a ring knows of a peer: modulus and exponent of its key, and when the
/// key was put in.
pub type Known = ((Seq<u8>, Seq<u8>), u64);

/// Whether `id` names the oldest key of `ring`: the one put in first, and of
/// several with the same time the one with the smallest identifier.
pub open spec fn is_oldest(ring: Map<HashId, Known>, id: HashId) -> bool {
    &&& ring.contains_key(id)
    &&& forall|other: HashId| #[trigger]
        ring.contains_key(other) && other != id ==> ring[id].1 < ring[other].1 || (ring[id].1
            == ring[other].1 && id.value() < other.value())
}

/// The name of the oldest key of `ring`.
pub open spec fn oldest(ring: Map<HashId, Known>) -> HashId {
    choose|id: HashId| is_oldest(ring, id)
}

/// `ring` without its oldest key, where it holds more keys than it may.
pub open spec fn pruned(ring: Map<HashId, Known>) -> Map<HashId, Known> {
    if ring.len() > MAX_KEYS {
        ring.remove(oldest(ring))
    } else {
        ring
    }
}

/// The identifier that a key of the map stands for: its two halves, the high one
/// first, so that the map is in the order of the identifiers.
spec fn id_of(halves: (u128, u128)) -> HashId {
    HashId { hi: halves.0, lo: halves.1 }
}

spec fn as_ring(entries: Map<(u128, u128), (PublicKey, u64)>) -> Map<HashId, Known> {
    Map::new(
        |id: HashId| entries.contains_key((id.hi, id.lo)),
        |id: HashId| (entries[(id.hi, id.lo)].0@, entries[(id.hi, id.lo)].1),
    )
}

/// Keys by the identifier of their owner.
pub struct Keyring {
    entries: BTreeMap<(u128, u128), (PublicKey, u64)>,
}

impl View for Keyring {
    type V = Map<HashId, Known>;

    closed spec fn view(&self) -> Map<HashId, Known> {
        as_ring(self.entries@)
    }
}

proof fn lemma_len(entries: Map<(u128, u128), (PublicKey, u64)>)
    requires
        entries.dom().finite(),
    ensures
        as_ring(entries).dom().finite(),
        as_ring(entries).len() == entries.len(),
{
    let named = |halves: (u128, u128)| id_of(halves);
    assert forall|id: HashId| #[trigger] as_ring(entries).dom().contains(id) implies entries.dom().map(
        named,
    ).contains(id) by {
        assert(named((id.hi, id.lo)) == id);
    }
    assert(entries.dom().map(named) =~= as_ring(entries).dom());
    lemma_map_size(entries.dom(), as_ring(entries).dom(), named);
}

proof fn lemma_oldest_unique(ring: Map<HashId, Known>, id: HashId)
    requires
        is_oldest(ring, id),
    ensures
        oldest(ring) == id,
{
    let chosen = oldest(ring);
    assert(is_oldest(ring, chosen));
    assert(ring.contains_key(chosen) && ring.contains_key(id));
}

/// The name of the oldest key.
fn find_oldest(entries: &BTreeMap<(u128, u128), (PublicKey, u64)>) -> (res: Option<HashId>)
    ensures
        res is Some <==> entries@.len() > 0,
        res matches Some(id) ==> id == oldest(as_ring(entries@)),
{
    let mut best: Option<(HashId, u64)> = None;
    for entry in it: entries.iter()
        invariant
            it.seq() == entries.iter().remaining(),
            best is Some <==> it.index() > 0,
            best matches Some(b) ==> as_ring(entries@).contains_key(b.0) && as_ring(entries@)[b.0].1
                == b.1,
            best matches Some(b) ==> forall|i: int|
                0 <= i < it.index() ==> {
                    let id = id_of(*(#[trigger] it.seq()[i]).0);
                    let seen = it.seq()[i].1.1;
                    id == b.0 || b.1 < seen || (b.1 == seen && b.0.value() < id.value())
                },
    {
        let id = HashId { hi: entry.0.0, lo: entry.0.1 };
        let seen: u64 = entry.1.1;
        best = match best {
            Some(b) if b.1 < seen || (b.1 == seen && b.0.is_below(&id)) => Some(b),
            _ => Some((id, seen)),
        };
    }
    match best {
        Some(b) => {
            proof {
                let ring = as_ring(entries@);
                let walked = entries.iter().remaining();
                assert forall|other: HashId| #[trigger]
                    ring.contains_key(other) && other != b.0 implies ring[b.0].1 < ring[other].1
                    || (ring[b.0].1 == ring[other].1 && b.0.value() < other.value()) by {
                    let halves = (other.hi, other.lo);
                    assert(entries@.contains_key(halves));
                    let i = walked.index_of((&halves, &entries@[halves]));
                    assert(id_of(*walked[i].0) == other);
                }
                lemma_oldest_unique(ring, b.0);
            }
            Some(b.0)
        },
        None => None,
    }
}

impl Keyring {
    #[verifier::type_invariant]
    spec fn inv(self) -> bool {
        self.entries@.len() <= MAX_KEYS
    }

    /// A ring without keys.
    pub fn new() -> (res: Keyring)
        ensures
            res@ == Map::<HashId, Known>::empty(),
    {
        let entries: BTreeMap<(u128, u128), (PublicKey, u64)> = BTreeMap::new();
        assert(as_ring(entries@) =~= Map::empty());
        Keyring { entries }
    }

    /// The number of keys, which never exceeds `MAX_KEYS`.
    pub fn len(&self) -> (res: usize)
        ensures
            res == self@.len(),
            self@.dom().finite(),
            res <= MAX_KEYS,
    {
        proof {
            use_type_invariant(self);
            lemma_len(self.entries@);
        }
        self.entries.len()
    }

    /// The key of `id` and when it was put in.
    pub fn get(&self, id: HashId) -> (res: Option<(&PublicKey, u64)>)
        ensures
            res is Some <==> self@.contains_key(id),
            res matches Some(known) ==> (known.0@, known.1) == self@[id],
    {
        match self.entries.get(&(id.hi, id.lo)) {
            Some(known) => Some((&known.0, known.1)),
            None => None,
        }
    }

    /// Whether the key of `id` is known.
    pub fn contains(&self, id: HashId) -> (res: bool)
        ensures
            res == self@.contains_key(id),
    {
        self.entries.contains_key(&(id.hi, id.lo))
    }

    /// Puts in the key of `id`, in place of an earlier one, and lets go of the
    /// oldest key where there are then too many.
    pub fn insert(&mut self, id: HashId, key: PublicKey, now: u64)
        ensures
            final(self)@ == pruned(old(self)@.insert(id, (key@, now))),
            old(self)@.dom().finite(),
            old(self)@.insert(id, (key@, now)).len() <= 64 ==> final(self)@ == old(self)@.insert(
                id,
                (key@, now),
            ),
            final(self)@.dom().finite(),
            final(self)@.len() <= MAX_KEYS == 64,
    {
        proof {
            use_type_invariant(&*self);
        }
        let mut entries: BTreeMap<(u128, u128), (PublicKey, u64)> = BTreeMap::new();
        std::mem::swap(&mut entries, &mut self.entries);
        proof {
            lemma_len(entries@);
        }
        entries.insert((id.hi, id.lo), (key, now));
        assert(as_ring(entries@) =~= old(self)@.insert(id, (key@, now)));
        proof {
            lemma_len(entries@);
        }
        if entries.len() > MAX_KEYS {
            if let Some(first) = find_oldest(&entries) {
                let ghost grown = entries@;
                proof {
                    some_key_is_oldest(as_ring(grown));
                }
                entries.remove(&(first.hi, first.lo));
                assert(as_ring(entries@) =~= as_ring(grown).remove(first));
            }
        }
        proof {
            lemma_len(entries@);
        }
        self.entries = entries;
    }

    /// Lets go of the key of `id`, if there is one.
    pub fn remove(&mut self, id: HashId)
        ensures
            final(self)@ == old(self)@.remove(id),
    {
        proof {
            use_type_invariant(&*self);
        }
        let mut entries: BTreeMap<(u128, u128), (PublicKey, u64)> = BTreeMap::new();
        std::mem::swap(&mut entries, &mut self.entries);
        entries.remove(&(id.hi, id.lo));
        assert(as_ring(entries@) =~= old(self)@.remove(id));
        self.entries = entries;
    }
}

/// Every ring that holds keys has an oldest one.
pub proof fn some_key_is_oldest(ring: Map<HashId, Known>)
    requires
        ring.dom().finite(),
        ring.len() > 0,
    ensures
        is_oldest(ring, oldest(ring)),
    decreases ring.len(),
{
    let id = ring.dom().choose();
    let rest = ring.remove(id);
    assert(rest.dom() =~= ring.dom().remove(id));
    if rest.len() == 0 {
        assert forall|other: HashId| #[trigger] ring.contains_key(other) implies other == id by {
            if other != id {
                assert(rest.dom().contains(other));
            }
        }
        assert(is_oldest(ring, id));
    } else {
        some_key_is_oldest(rest);
        let best = oldest(rest);
        assert forall|other: HashId| #[trigger]
            ring.contains_key(other) && other != id implies rest.contains_key(other) && rest[other]
            == ring[other] by {}
        if ring[id].1 < ring[best].1 || (ring[id].1 == ring[best].1 && id.value() < best.value()) {
            assert(is_oldest(ring, id));
        } else {
            if id.value() == best.value() {
                HashId::value_is_injective(id, best);
            }
            assert(is_oldest(ring, best));
        }
    }
}

/// A ring that holds too many keys loses exactly its oldest one: every other
/// key stays as it was, and none that stays is older.
pub proof fn pruning_drops_the_oldest(ring: Map<HashId, Known>)
    requires
        ring.dom().finite(),
        ring.len() > MAX_KEYS,
    ensures
        is_oldest(ring, oldest(ring)),
        pruned(ring).dom() == ring.dom().remove(oldest(ring)),
        pruned(ring).len() == ring.len() - 1,
        forall|id: HashId| #[trigger]
            pruned(ring).contains_key(id) ==> pruned(ring)[id] == ring[id] && ring[oldest(ring)].1
                <= ring[id].1,
{
    some_key_is_oldest(ring);
    assert(pruned(ring).dom() =~= ring.dom().remove(oldest(ring)));
    assert forall|id: HashId| #[trigger] pruned(ring).contains_key(id) implies pruned(ring)[id]
        == ring[id] && ring[oldest(ring)].1 <= ring[id].1 by {
        assert(ring.contains_key(id));
    }
}

/// Putting in a key keeps the bound on the number of keys.
pub proof fn inserting_keeps_the_bound(ring: Map<HashId, Known>, id: HashId, known: Known)
    requires
        ring.dom().finite(),
        ring.len() <= MAX_KEYS,
    ensures
        pruned(ring.insert(id, known)).dom().finite(),
        pruned(ring.insert(id, known)).len() <= MAX_KEYS,
{
    let grown = ring.insert(id, known);
    assert(grown.dom() =~= ring.dom().insert(id));
    if grown.len() > MAX_KEYS {
        pruning_drops_the_oldest(grown);
    }
}

/// A key that was just put in is there, with its time, unless the ring is then
/// over-full and that very key is its oldest.
pub proof fn inserted_key_is_kept(ring: Map<HashId, Known>, id: HashId, known: Known)
    requires
        ring.dom().finite(),
        ring.insert(id, known).len() <= MAX_KEYS || !is_oldest(ring.insert(id, known), id),
    ensures
        pruned(ring.insert(id, known)).contains_key(id),
        pruned(ring.insert(id, known))[id] == known,
{
    let grown = ring.insert(id, known);
    assert(grown.dom() =~= ring.dom().insert(id));
    if grown.len() > MAX_KEYS {
        pruning_drops_the_oldest(grown);
    }
}

/// Putting in a key changes no other key: each is as it was, and at most the
/// oldest is gone.
pub proof fn inserting_leaves_other_keys(
    ring: Map<HashId, Known>,
    id: HashId,
    known: Known,
    other: HashId,
)
    requires
        other != id,
    ensures
        pruned(ring.insert(id, known)).contains_key(other) <==> ring.contains_key(other) && !(
        ring.insert(id, known).len() > MAX_KEYS && other == oldest(ring.insert(id, known))),
        pruned(ring.insert(id, known)).contains_key(other) ==> pruned(
            ring.insert(id, known),
        )[other] == ring[other],
{
}

/// Which keys are left of a ring that may hold too many: each is there, as it
/// was, unless there are more than 64 and every other one is younger. Of keys of
/// one time the one with the greater identifier counts as the younger.
pub proof fn all_but_the_oldest_are_left(ring: Map<HashId, Known>, id: HashId)
    requires
        ring.dom().finite(),
    ensures
        pruned(ring).contains_key(id) <==> ring.contains_key(id) && !(ring.len() > 64 && forall|
            other: HashId,
        | #[trigger]
            ring.contains_key(other) && other != id ==> ring[id].1 < ring[other].1 || (ring[id].1
                == ring[other].1 && (id.hi < other.hi || (id.hi == other.hi && id.lo < other.lo)))),
        pruned(ring).contains_key(id) ==> pruned(ring)[id] == ring[id],
        pruned(ring).len() == if ring.len() > 64 {
            ring.len() - 1
        } else {
            ring.len() as int
        },
{
    if ring.len() > 64 {
        some_key_is_oldest(ring);
        let gone = oldest(ring);
        assert(pruned(ring).dom() =~= ring.dom().remove(gone));
        assert forall|other: HashId| #[trigger] ring.contains_key(other) && other != gone implies (
        ring[gone].1 < ring[other].1 || (ring[gone].1 == ring[other].1 && (gone.hi < other.hi || (
        gone.hi == other.hi && gone.lo < other.lo)))) by {
            HashId::high_half_decides(gone, other);
        }
        if ring.contains_key(id) && id != gone {
            assert(ring.contains_key(gone) && gone != id);
            HashId::high_half_decides(gone, id);
        }
    }
}

} // verus!
