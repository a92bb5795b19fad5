//! The type-erased keyed store that carries widget state across frames.
//!
//! Values are kept encoded: every slot holds a type key and the encoded
//! bytes of one value of that type. A slot whose bytes fail to decode (for
//! example after loading corrupt persisted data) is treated as absent and
//! replaced by the type's default on the next access — a corrupt entry must
//! never take the UI down, only reset that one widget's memory.
//!
//! [`InstanceStore`] is keyed by a 64-bit instance identifier that the
//! widget-tree layer derives for each logical widget; [`TypeStore`] is keyed
//! by the stored type itself, at most one value per type.

use vstd::prelude::*;
use vstd::map::*;
use vstd::pervasive::VecAdditionalExecFns;

verus! {

/// A value the store can hold: it names its slot ([`StoreItem::spec_key`]),
/// has a default, and encodes to bytes that decode back to the same value.
/// Contracts speak of the value's view (`@`), so a type whose view is
/// itself gets exact statements.
pub trait StoreItem: View + Sized {
    /// The type key naming this type's slots.
    spec fn spec_key() -> u64;

    /// The view of the value a fresh or reset slot holds.
    spec fn spec_default() -> Self::V;

    /// Well-formed views: those the type's own operations produce and the
    /// encoding can carry.
    spec fn spec_wf_view(v: Self::V) -> bool;

    /// The bytes that stand for a value with view `v`.
    spec fn spec_encode(v: Self::V) -> Seq<u8>;

    /// The view a byte string stands for, or `None` for corrupt bytes.
    spec fn spec_decode(b: Seq<u8>) -> Option<Self::V>;

    /// The default is well formed.
    proof fn lemma_default_wf()
        ensures
            Self::spec_wf_view(Self::spec_default()),
    ;

    /// Whatever decodes is well formed.
    proof fn lemma_decode_wf(b: Seq<u8>)
        ensures
            Self::spec_decode(b) matches Some(v) ==> Self::spec_wf_view(v),
    ;

    /// Encoding a well-formed view decodes back to it.
    proof fn lemma_round_trip(v: Self::V)
        requires
            Self::spec_wf_view(v),
        ensures
            Self::spec_decode(Self::spec_encode(v)) == Some(v),
    ;

    /// The type key, as a runtime value.
    fn type_key() -> (k: u64)
        ensures
            k == Self::spec_key(),
    ;

    /// The default, as a runtime value.
    fn default_item() -> (r: Self)
        ensures
            r@ == Self::spec_default(),
    ;

    /// Encode `self` to bytes.
    fn encode(&self) -> (b: Vec<u8>)
        requires
            Self::spec_wf_view(self@),
        ensures
            b@ == Self::spec_encode(self@),
    ;

    /// Decode a value from bytes.
    fn decode(b: &[u8]) -> (r: Option<Self>)
        ensures
            match (r, Self::spec_decode(b@)) {
                (Some(x), Some(v)) => x@ == v,
                (None, None) => true,
                _ => false,
            },
    ;
}

/// One slot: the instance key it is stored under, the key of the type whose
/// value it holds, and that value's encoding.
struct Slot {
    key: u64,
    type_key: u64,
    bytes: Vec<u8>,
}

/// What a sequence of slots says: a map from instance key to the pair of
/// type key and encoded bytes. Later slots would win, but the stores keep
/// keys distinct.
spec fn slots_view(s: Seq<Slot>) -> Map<u64, (u64, Seq<u8>)>
    decreases s.len(),
{
    if s.len() == 0 {
        Map::empty()
    } else {
        slots_view(s.drop_last()).insert(s.last().key, (s.last().type_key, s.last().bytes@))
    }
}

/// No two slots share a key.
spec fn slots_distinct(s: Seq<Slot>) -> bool {
    forall|i: int, j: int| 0 <= i < j < s.len() ==> s[i].key != s[j].key
}

/// Is some slot stored under `k`?
spec fn has_key(s: Seq<Slot>, k: u64) -> bool {
    exists|j: int| 0 <= j < s.len() && #[trigger] s[j].key == k
}

/// The slot view contains exactly the slot keys, and under distinct keys
/// each slot's key maps to that slot's contents.
proof fn lemma_slots_view(s: Seq<Slot>)
    ensures
        forall|k: u64| #[trigger] slots_view(s).contains_key(k) <==> has_key(s, k),
        slots_distinct(s) ==> forall|j: int|
            0 <= j < s.len() ==> slots_view(s)[#[trigger] s[j].key] == (
            s[j].type_key,
            s[j].bytes@,
            ),
    decreases s.len(),
{
    if s.len() > 0 {
        let head = s.drop_last();
        lemma_slots_view(head);
        assert forall|k: u64| #[trigger] slots_view(s).contains_key(k) implies has_key(s, k) by {
            if k == s.last().key {
                assert(s[s.len() - 1].key == k);
            } else {
                assert(slots_view(head).contains_key(k));
                assert(has_key(head, k));
                let j = choose|j: int| 0 <= j < head.len() && #[trigger] head[j].key == k;
                assert(s[j].key == k);
            }
        }
        assert forall|k: u64| has_key(s, k) implies slots_view(s).contains_key(k) by {
            let j = choose|j: int| 0 <= j < s.len() && #[trigger] s[j].key == k;
            if j < s.len() - 1 {
                assert(head[j].key == k);
                assert(has_key(head, k));
                assert(slots_view(head).contains_key(k));
            }
        }
        if slots_distinct(s) {
            assert(slots_distinct(head));
            assert forall|j: int| 0 <= j < s.len() implies slots_view(s)[#[trigger] s[j].key]
                == (s[j].type_key, s[j].bytes@) by {
                if j < s.len() - 1 {
                    assert(head[j].key == s[j].key);
                    assert(s[j].key != s.last().key);
                }
            }
        }
    }
}

/// What looking a type `T` up under `key` yields: the decoded value when
/// the slot exists, belongs to `T`, and its bytes are intact.
pub open spec fn spec_lookup<T: StoreItem>(m: Map<u64, (u64, Seq<u8>)>, key: u64) -> Option<
    T::V,
> {
    if m.contains_key(key) && m[key].0 == T::spec_key() {
        T::spec_decode(m[key].1)
    } else {
        None
    }
}

/// What `get_or_default` returns: the stored value, or the default when the
/// slot is absent, of another type, or corrupt.
pub open spec fn spec_got<T: StoreItem>(m: Map<u64, (u64, Seq<u8>)>, key: u64) -> T::V {
    match spec_lookup::<T>(m, key) {
        Some(v) => v,
        None => T::spec_default(),
    }
}

/// The store contents after `get_or_default`: unchanged when the lookup
/// succeeded, otherwise the slot is re-seeded with the encoded default.
pub open spec fn spec_after_get<T: StoreItem>(m: Map<u64, (u64, Seq<u8>)>, key: u64) -> Map<
    u64,
    (u64, Seq<u8>),
> {
    if spec_lookup::<T>(m, key) is Some {
        m
    } else {
        m.insert(key, (T::spec_key(), T::spec_encode(T::spec_default())))
    }
}

/// Keyed storage for per-widget-instance state.
pub struct InstanceStore {
    slots: Vec<Slot>,
}

impl View for InstanceStore {
    type V = Map<u64, (u64, Seq<u8>)>;

    closed spec fn view(&self) -> Map<u64, (u64, Seq<u8>)> {
        slots_view(self.slots@)
    }
}

impl InstanceStore {
    /// The store keeps one slot per key.
    pub closed spec fn wf(self) -> bool {
        slots_distinct(self.slots@)
    }

    /// An empty store.
    pub fn new() -> (r: InstanceStore)
        ensures
            r.wf(),
            r@ == Map::<u64, (u64, Seq<u8>)>::empty(),
    {
        InstanceStore { slots: Vec::new() }
    }

    /// The position of the slot stored under `key`, if any.
    fn find(&self, key: u64) -> (r: Option<usize>)
        ensures
            match r {
                Some(i) => i < self.slots@.len() && self.slots@[i as int].key == key,
                None => !has_key(self.slots@, key),
            },
    {
        let mut i: usize = 0;
        while i < self.slots.len()
            invariant
                i <= self.slots@.len(),
                forall|j: int| 0 <= j < i ==> #[trigger] self.slots@[j].key != key,
            decreases self.slots@.len() - i,
        {
            if self.slots[i].key == key {
                return Some(i);
            }
            i = i + 1;
        }
        None
    }

    /// Is anything stored under `key`?
    pub fn contains_key(&self, key: u64) -> (r: bool)
        ensures
            r == self@.contains_key(key),
    {
        proof {
            lemma_slots_view(self.slots@);
        }
        self.find(key).is_some()
    }

    /// The value of type `T` stored under `key`: `None` when the slot is
    /// absent, holds another type, or holds corrupt bytes.
    pub fn get<T: StoreItem>(&self, key: u64) -> (r: Option<T>)
        requires
            self.wf(),
        ensures
            match (r, spec_lookup::<T>(self@, key)) {
                (Some(x), Some(v)) => x@ == v && T::spec_wf_view(v),
                (None, None) => true,
                _ => false,
            },
    {
        proof {
            lemma_slots_view(self.slots@);
            T::lemma_decode_wf(
                if self@.contains_key(key) {
                    self@[key].1
                } else {
                    Seq::empty()
                },
            );
        }
        match self.find(key) {
            Some(i) => {
                let slot = &self.slots[i];
                if slot.type_key == T::type_key() {
                    T::decode(slot.bytes.as_slice())
                } else {
                    None
                }
            },
            None => None,
        }
    }

    /// Store the raw parts of a slot, replacing whatever was there.
    fn put(&mut self, key: u64, type_key: u64, bytes: Vec<u8>)
        requires
            old(self).wf(),
        ensures
            final(self).wf(),
            final(self)@ == old(self)@.insert(key, (type_key, bytes@)),
    {
        let ghost bv = bytes@;
        let slot = Slot { key, type_key, bytes };
        let ghost s0 = self.slots@;
        match self.find(key) {
            Some(i) => {
                self.slots.set(i, slot);
                proof {
                    let s1 = self.slots@;
                    lemma_slots_view(s0);
                    lemma_slots_view(s1);
                    assert forall|k: u64| #[trigger] slots_view(s1).contains_key(k)
                        <==> slots_view(s0).insert(key, (type_key, bv)).contains_key(k) by {
                        if k != key {
                            assert(has_key(s1, k) <==> has_key(s0, k)) by {
                                if has_key(s1, k) {
                                    let j = choose|j: int|
                                        0 <= j < s1.len() && #[trigger] s1[j].key == k;
                                    assert(s0[j].key == k);
                                }
                                if has_key(s0, k) {
                                    let j = choose|j: int|
                                        0 <= j < s0.len() && #[trigger] s0[j].key == k;
                                    assert(s1[j].key == k);
                                }
                            }
                        } else {
                            assert(s1[i as int].key == key);
                        }
                    }
                    assert(slots_view(s1) =~= slots_view(s0).insert(key, (type_key, bv)));
                }
            },
            None => {
                self.slots.push(slot);
                proof {
                    let s1 = self.slots@;
                    assert(s1.drop_last() =~= s0);
                }
            },
        }
    }

    /// Store `v` under `key`, replacing whatever was there.
    pub fn insert<T: StoreItem>(&mut self, key: u64, v: &T)
        requires
            old(self).wf(),
            T::spec_wf_view(v@),
        ensures
            final(self).wf(),
            final(self)@ == old(self)@.insert(key, (T::spec_key(), T::spec_encode(v@))),
    {
        let bytes = v.encode();
        self.put(key, T::type_key(), bytes);
    }

    /// Store already-encoded bytes under `key`, as when persisted
    /// contents are loaded back. The bytes are not validated here: a
    /// corrupt entry surfaces as the type's default on its next access.
    pub fn insert_raw(&mut self, key: u64, type_key: u64, bytes: Vec<u8>)
        requires
            old(self).wf(),
        ensures
            final(self).wf(),
            final(self)@ == old(self)@.insert(key, (type_key, bytes@)),
    {
        self.put(key, type_key, bytes);
    }

    /// Drop whatever is stored under `key`.
    pub fn remove(&mut self, key: u64)
        requires
            old(self).wf(),
        ensures
            final(self).wf(),
            final(self)@ == old(self)@.remove(key),
    {
        let ghost s0 = self.slots@;
        match self.find(key) {
            Some(i) => {
                self.slots.remove(i);
                proof {
                    let s1 = self.slots@;
                    assert forall|a: int, b: int| 0 <= a < b < s1.len() implies s1[a].key
                        != s1[b].key by {
                        assert(s1[a] == if a < i {
                            s0[a]
                        } else {
                            s0[a + 1]
                        });
                        assert(s1[b] == if b < i {
                            s0[b]
                        } else {
                            s0[b + 1]
                        });
                    }
                    lemma_slots_view(s0);
                    lemma_slots_view(s1);
                    assert forall|k: u64| #[trigger] slots_view(s1).contains_key(k) implies (
                    slots_view(s0).contains_key(k) && k != key) by {
                        let j = choose|j: int| 0 <= j < s1.len() && #[trigger] s1[j].key == k;
                        let j0 = if j < i {
                            j
                        } else {
                            j + 1
                        };
                        assert(s0[j0].key == k);
                    }
                    assert forall|k: u64| slots_view(s0).contains_key(k) && k != key implies (
                    #[trigger] slots_view(s1).contains_key(k)) by {
                        let j = choose|j: int| 0 <= j < s0.len() && #[trigger] s0[j].key == k;
                        if j < i {
                            assert(s1[j].key == k);
                        } else {
                            assert(s1[j - 1] == s0[j]);
                        }
                    }
                    assert forall|k: u64| #[trigger] slots_view(s1).contains_key(k) implies
                        slots_view(s1)[k] == slots_view(s0)[k] by {
                        let j = choose|j: int| 0 <= j < s1.len() && #[trigger] s1[j].key == k;
                        let j0 = if j < i {
                            j
                        } else {
                            j + 1
                        };
                        assert(s0[j0].key == k);
                        assert(s1[j] == s0[j0]);
                    }
                    assert(slots_view(s1) =~= slots_view(s0).remove(key));
                }
            },
            None => {
                proof {
                    lemma_slots_view(s0);
                    assert(slots_view(s0) =~= slots_view(s0).remove(key));
                }
            },
        }
    }

    /// The value of type `T` under `key`, or `T`'s default when the slot is
    /// absent, of another type, or corrupt — in which case the default is
    /// also written back, so the next access finds it.
    pub fn get_or_default<T: StoreItem>(&mut self, key: u64) -> (r: T)
        requires
            old(self).wf(),
        ensures
            final(self).wf(),
            r@ == spec_got::<T>(old(self)@, key),
            final(self)@ == spec_after_get::<T>(old(self)@, key),
            T::spec_wf_view(r@),
    {
        match self.get::<T>(key) {
            Some(v) => v,
            None => {
                let d = T::default_item();
                proof {
                    T::lemma_default_wf();
                }
                self.insert::<T>(key, &d);
                d
            },
        }
    }

    /// Every slot's raw contents — instance key, type key and encoded
    /// bytes — for persistence. Loading each triple back with
    /// [`InstanceStore::insert_raw`] rebuilds an equivalent store.
    pub fn export(&self) -> (r: Vec<(u64, u64, Vec<u8>)>)
        requires
            self.wf(),
        ensures
            forall|j: int| 0 <= j < r@.len() ==> self@.contains_key((#[trigger] r@[j]).0)
                && self@[r@[j].0].0 == r@[j].1 && self@[r@[j].0].1 == r@[j].2@,
            forall|k: u64| self@.contains_key(k) ==> exists|j: int|
                0 <= j < r@.len() && (#[trigger] r@[j]).0 == k,
    {
        proof {
            lemma_slots_view(self.slots@);
        }
        let mut out: Vec<(u64, u64, Vec<u8>)> = Vec::new();
        let mut i: usize = 0;
        while i < self.slots.len()
            invariant
                i <= self.slots@.len(),
                self.wf(),
                forall|j: int| 0 <= j < out@.len() ==> self@.contains_key((#[trigger] out@[j]).0)
                    && self@[out@[j].0].0 == out@[j].1 && self@[out@[j].0].1 == out@[j].2@,
                forall|j: int|
                    #![trigger self.slots@[j]]
                    0 <= j < i ==> exists|l: int|
                        0 <= l < out@.len() && (#[trigger] out@[l]).0 == self.slots@[j].key,
            decreases self.slots@.len() - i,
        {
            let ghost prev = out@;
            let slot = &self.slots[i];
            let entry = (slot.key, slot.type_key, slot.bytes.clone());
            proof {
                lemma_slots_view(self.slots@);
                assert(self.slots@[i as int].key == entry.0);
                assert(has_key(self.slots@, entry.0));
            }
            out.push(entry);
            proof {
                assert forall|j: int|
                    #![trigger self.slots@[j]]
                    0 <= j < i + 1 implies exists|l: int|
                    0 <= l < out@.len() && (#[trigger] out@[l]).0 == self.slots@[j].key by {
                    if j < i {
                        let l = choose|l: int|
                            0 <= l < prev.len() && (#[trigger] prev[l]).0 == self.slots@[j].key;
                        assert(out@[l].0 == self.slots@[j].key);
                    } else {
                        assert(out@[out@.len() - 1].0 == self.slots@[j].key);
                    }
                }
            }
            i = i + 1;
        }
        proof {
            assert forall|k: u64| self@.contains_key(k) implies exists|j: int|
                0 <= j < out@.len() && (#[trigger] out@[j]).0 == k by {
                let j = choose|j: int|
                    0 <= j < self.slots@.len() && #[trigger] self.slots@[j].key == k;
                let l = choose|l: int|
                    0 <= l < out@.len() && (#[trigger] out@[l]).0 == self.slots@[j].key;
            }
        }
        out
    }

    /// The instance keys currently holding a value of type `T` — a
    /// diagnostic, subject to the usual type-key collision caveat.
    pub fn instances_of<T: StoreItem>(&self) -> (r: Vec<u64>)
        requires
            self.wf(),
        ensures
            forall|j: int| 0 <= j < r@.len() ==> self@.contains_key(#[trigger] r@[j])
                && self@[r@[j]].0 == T::spec_key(),
            forall|k: u64| self@.contains_key(k) && self@[k].0 == T::spec_key() ==> r@.contains(
                k,
            ),
    {
        proof {
            lemma_slots_view(self.slots@);
        }
        let tk = T::type_key();
        let mut out: Vec<u64> = Vec::new();
        let mut i: usize = 0;
        while i < self.slots.len()
            invariant
                i <= self.slots@.len(),
                self.wf(),
                tk == T::spec_key(),
                forall|j: int| 0 <= j < out@.len() ==> self@.contains_key(#[trigger] out@[j])
                    && self@[out@[j]].0 == T::spec_key(),
                forall|j: int|
                    0 <= j < i && #[trigger] self.slots@[j].type_key == T::spec_key()
                        ==> out@.contains(self.slots@[j].key),
            decreases self.slots@.len() - i,
        {
            let ghost prev = out@;
            let hit = self.slots[i].type_key == tk;
            let k = self.slots[i].key;
            if hit {
                proof {
                    lemma_slots_view(self.slots@);
                    assert(self.slots@[i as int].key == k);
                    assert(has_key(self.slots@, k));
                }
                out.push(k);
            }
            proof {
                assert forall|j: int|
                    0 <= j < i + 1 && #[trigger] self.slots@[j].type_key
                        == T::spec_key() implies out@.contains(self.slots@[j].key) by {
                    if j < i {
                        assert(prev.contains(self.slots@[j].key));
                        let idx = choose|idx: int|
                            0 <= idx < prev.len() && prev[idx] == self.slots@[j].key;
                        assert(out@[idx] == self.slots@[j].key);
                    } else {
                        assert(out@.last() == k);
                    }
                }
            }
            i = i + 1;
        }
        proof {
            assert forall|k: u64| self@.contains_key(k) && self@[k].0 == T::spec_key() implies
                out@.contains(k) by {
                let j = choose|j: int|
                    0 <= j < self.slots@.len() && #[trigger] self.slots@[j].key == k;
                assert(self.slots@[j].type_key == T::spec_key());
            }
        }
        out
    }
}

/// Two calls of `get_or_default` with no intervening write return the same
/// value, and the second call leaves the store as it was: the access is
/// idempotent.
pub proof fn lemma_get_or_default_idempotent<T: StoreItem>(
    m: Map<u64, (u64, Seq<u8>)>,
    key: u64,
)
    ensures
        spec_got::<T>(spec_after_get::<T>(m, key), key) == spec_got::<T>(m, key),
        spec_after_get::<T>(spec_after_get::<T>(m, key), key) == spec_after_get::<T>(m, key),
{
    if spec_lookup::<T>(m, key) is None {
        T::lemma_default_wf();
        T::lemma_round_trip(T::spec_default());
    }
}

/// Storage keyed by the stored type itself: at most one value per type.
pub struct TypeStore {
    inner: InstanceStore,
}

/// What looking type `T` up in the by-type store yields.
pub open spec fn spec_type_lookup<T: StoreItem>(m: Map<u64, (u64, Seq<u8>)>) -> Option<T::V> {
    spec_lookup::<T>(m, T::spec_key())
}

/// What the by-type `get_or_default` returns.
pub open spec fn spec_type_got<T: StoreItem>(m: Map<u64, (u64, Seq<u8>)>) -> T::V {
    spec_got::<T>(m, T::spec_key())
}

/// The by-type store contents after `get_or_default`.
pub open spec fn spec_type_after_get<T: StoreItem>(m: Map<u64, (u64, Seq<u8>)>) -> Map<
    u64,
    (u64, Seq<u8>),
> {
    spec_after_get::<T>(m, T::spec_key())
}

impl View for TypeStore {
    type V = Map<u64, (u64, Seq<u8>)>;

    closed spec fn view(&self) -> Map<u64, (u64, Seq<u8>)> {
        self.inner@
    }
}

impl TypeStore {
    pub closed spec fn wf(self) -> bool {
        self.inner.wf()
    }

    /// An empty store.
    pub fn new() -> (r: TypeStore)
        ensures
            r.wf(),
            r@ == Map::<u64, (u64, Seq<u8>)>::empty(),
    {
        TypeStore { inner: InstanceStore::new() }
    }

    /// The stored value of type `T`, or `None` when it is absent or its
    /// bytes are corrupt.
    pub fn get<T: StoreItem>(&self) -> (r: Option<T>)
        requires
            self.wf(),
        ensures
            match (r, spec_type_lookup::<T>(self@)) {
                (Some(x), Some(v)) => x@ == v && T::spec_wf_view(v),
                (None, None) => true,
                _ => false,
            },
    {
        self.inner.get::<T>(T::type_key())
    }

    /// Store `v` in the slot of its type.
    pub fn insert<T: StoreItem>(&mut self, v: &T)
        requires
            old(self).wf(),
            T::spec_wf_view(v@),
        ensures
            final(self).wf(),
            final(self)@ == old(self)@.insert(T::spec_key(), (T::spec_key(), T::spec_encode(v@))),
    {
        self.inner.insert::<T>(T::type_key(), v);
    }

    /// Store already-encoded bytes in the slot of the type with key
    /// `type_key`, as when persisted contents are loaded back.
    pub fn insert_raw(&mut self, type_key: u64, bytes: Vec<u8>)
        requires
            old(self).wf(),
        ensures
            final(self).wf(),
            final(self)@ == old(self)@.insert(type_key, (type_key, bytes@)),
    {
        self.inner.insert_raw(type_key, type_key, bytes);
    }

    /// Drop the stored value of type `T`.
    pub fn remove<T: StoreItem>(&mut self)
        requires
            old(self).wf(),
        ensures
            final(self).wf(),
            final(self)@ == old(self)@.remove(T::spec_key()),
    {
        self.inner.remove(T::type_key());
    }

    /// The stored value of type `T`, or its default when the slot is
    /// absent or corrupt, in which case the default is written back.
    pub fn get_or_default<T: StoreItem>(&mut self) -> (r: T)
        requires
            old(self).wf(),
        ensures
            final(self).wf(),
            r@ == spec_type_got::<T>(old(self)@),
            final(self)@ == spec_type_after_get::<T>(old(self)@),
            T::spec_wf_view(r@),
    {
        self.inner.get_or_default::<T>(T::type_key())
    }
}

/// Two types whose type keys do not collide never alias one storage slot:
/// reading or seeding `T1`'s slot leaves every observation of `T2`'s slot
/// unchanged, and so does writing a `T1` value.
pub proof fn lemma_type_slots_disjoint<T1: StoreItem, T2: StoreItem>(
    m: Map<u64, (u64, Seq<u8>)>,
    v: T1::V,
)
    requires
        T1::spec_key() != T2::spec_key(),
    ensures
        spec_type_lookup::<T2>(spec_type_after_get::<T1>(m)) == spec_type_lookup::<T2>(m),
        spec_type_got::<T2>(spec_type_after_get::<T1>(m)) == spec_type_got::<T2>(m),
        spec_type_lookup::<T2>(m.insert(T1::spec_key(), (T1::spec_key(), T1::spec_encode(v))))
            == spec_type_lookup::<T2>(m),
{
}

/// The same, for two different instance keys of the by-instance store:
/// distinct keys name distinct slots, whatever the stored types.
pub proof fn lemma_instance_slots_disjoint<T1: StoreItem, T2: StoreItem>(
    m: Map<u64, (u64, Seq<u8>)>,
    k1: u64,
    k2: u64,
    v: T1::V,
)
    requires
        k1 != k2,
    ensures
        spec_lookup::<T2>(spec_after_get::<T1>(m, k1), k2) == spec_lookup::<T2>(m, k2),
        spec_got::<T2>(spec_after_get::<T1>(m, k1), k2) == spec_got::<T2>(m, k2),
        spec_lookup::<T2>(m.insert(k1, (T1::spec_key(), T1::spec_encode(v))), k2)
            == spec_lookup::<T2>(m, k2),
{
}

} // verus!
