//! The slot maps behind the scene: one primary map that hands out entity
//! keys, and secondary maps that hold one component per entity key.
//!
//! Keys cross into verified code as their 64-bit form (`KeyData::as_ffi`):
//! the slot index in the low 32 bits, the slot version in the high 32 bits.
use vstd::prelude::*;
use slotmap::{DefaultKey, Key, KeyData, SecondaryMap, SlotMap};

use crate::scene::components::Component;

verus! {

/// The primary slot map of a scene: one slot per live entity.
#[verifier::external_body]
pub struct EntityMap {
    inner: SlotMap<DefaultKey, ()>,
}

/// A secondary slot map holding one component per entity key.
#[verifier::external_body]
pub struct ComponentMap {
    inner: SecondaryMap<DefaultKey, Component>,
}

/// Slot index of a key in its 64-bit form.
pub open spec fn key_index(bits: u64) -> u32 {
    (bits % 0x1_0000_0000) as u32
}

/// Slot version of a key in its 64-bit form.
pub open spec fn key_version(bits: u64) -> u32 {
    (bits / 0x1_0000_0000) as u32
}

/// A key that a slot map can have handed out: an odd version and an index
/// below the reserved null index.
pub open spec fn key_valid(bits: u64) -> bool {
    key_version(bits) % 2 == 1 && key_index(bits) < u32::MAX
}

/// slotmap's wrapping version comparison: `a` is older than `b`.
pub open spec fn is_older_version(a: u32, b: u32) -> bool {
    (a as int - b as int) % 0x1_0000_0000 >= 0x8000_0000
}

/// Occupied slots of the entity map: slot index to the version living there.
pub uninterp spec fn entity_slots(m: EntityMap) -> Map<u32, u32>;

/// Occupied slots of a component map: slot index to the version of the key
/// that was stored there and the component.
pub uninterp spec fn component_slots(m: ComponentMap) -> Map<u32, (u32, Component)>;

/// A slot map model holds the key `bits` (same slot, same version).
pub open spec fn holds_key<V>(m: Map<u32, V>, bits: u64, version_of: spec_fn(V) -> u32) -> bool {
    m.contains_key(key_index(bits)) && version_of(m[key_index(bits)]) == key_version(bits)
}

pub open spec fn live_version(v: u32) -> u32 {
    v
}

pub open spec fn stored_version(p: (u32, Component)) -> u32 {
    p.0
}

/// The component stored under key `bits`, if the map holds that key.
pub open spec fn stored_under(m: Map<u32, (u32, Component)>, bits: u64) -> Option<Component> {
    if holds_key(m, bits, |p: (u32, Component)| stored_version(p)) {
        Some(m[key_index(bits)].1)
    } else {
        None
    }
}

/// A secondary map after `insert(key, c)`: the slot takes the key and the
/// component unless it already holds a newer version of that slot.
pub open spec fn stored_after_insert(m: Map<u32, (u32, Component)>, bits: u64, c: Component) -> Map<u32, (u32, Component)> {
    let i = key_index(bits);
    let v = key_version(bits);
    if m.contains_key(i) && m[i].0 != v && is_older_version(v, m[i].0) {
        m
    } else {
        m.insert(i, (v, c))
    }
}

/// A secondary map after `remove(key)`.
pub open spec fn stored_after_remove(m: Map<u32, (u32, Component)>, bits: u64) -> Map<u32, (u32, Component)> {
    if holds_key(m, bits, |p: (u32, Component)| stored_version(p)) {
        m.remove(key_index(bits))
    } else {
        m
    }
}

/// `keys` lists the occupied slots of `m` in increasing slot order, each
/// with the version of its slot.
pub open spec fn lists_slots<V>(keys: Seq<u64>, m: Map<u32, V>, version_of: spec_fn(V) -> u32) -> bool {
    &&& forall|a: int, b: int| 0 <= a < b < keys.len() ==> key_index(#[trigger] keys[a]) < key_index(#[trigger] keys[b])
    &&& forall|j: int| 0 <= j < keys.len() ==> holds_key(m, #[trigger] keys[j], version_of)
    &&& forall|i: u32| #[trigger] m.contains_key(i) ==> exists|j: int| 0 <= j < keys.len() && key_index(keys[j]) == i
}

/// Every occupied slot of a model carries a valid key.
pub open spec fn slots_valid<V>(m: Map<u32, V>, version_of: spec_fn(V) -> u32) -> bool {
    &&& m.dom().finite()
    &&& forall|i: u32| #[trigger] m.contains_key(i) ==> i < u32::MAX && version_of(m[i]) % 2 == 1
}

/// `lists_slots` for a component storage.
pub open spec fn lists_stored(keys: Seq<u64>, m: Map<u32, (u32, Component)>) -> bool {
    lists_slots(keys, m, |p: (u32, Component)| stored_version(p))
}

/// `lists_slots` for the entity map.
pub open spec fn lists_live(keys: Seq<u64>, m: Map<u32, u32>) -> bool {
    lists_slots(keys, m, |v: u32| live_version(v))
}

/// `holds_key` for a component storage.
pub open spec fn holds_stored(m: Map<u32, (u32, Component)>, bits: u64) -> bool {
    holds_key(m, bits, |p: (u32, Component)| stored_version(p))
}

/// `holds_key` for the entity map.
pub open spec fn holds_live(m: Map<u32, u32>, bits: u64) -> bool {
    holds_key(m, bits, |v: u32| live_version(v))
}

/// `slots_valid` for a component storage.
pub open spec fn stored_valid(m: Map<u32, (u32, Component)>) -> bool {
    slots_valid(m, |p: (u32, Component)| stored_version(p))
}

/// `slots_valid` for the entity map.
pub open spec fn live_valid(m: Map<u32, u32>) -> bool {
    slots_valid(m, |v: u32| live_version(v))
}

/// A key is fixed by its slot index and version.
pub proof fn lemma_key_parts(a: u64, b: u64)
    requires
        key_index(a) == key_index(b),
        key_version(a) == key_version(b),
    ensures
        a == b,
{
}

/// There is only one slot-ordered key list of a slot map model.
pub proof fn lemma_lists_slots_unique<V>(s1: Seq<u64>, s2: Seq<u64>, m: Map<u32, V>, version_of: spec_fn(V) -> u32)
    requires
        lists_slots(s1, m, version_of),
        lists_slots(s2, m, version_of),
    ensures
        s1 == s2,
{
    let n = if s1.len() < s2.len() { s1.len() } else { s2.len() };
    assert forall|j: int| 0 <= j < n implies key_index(s1[j]) == key_index(s2[j]) by {
        lemma_lists_slots_prefix(s1, s2, m, version_of, j);
    }
    if s1.len() < s2.len() {
        let x = key_index(s2[s1.len() as int]);
        assert(holds_key(m, s2[s1.len() as int], version_of));
        assert(m.contains_key(x));
        let k = choose|k: int| 0 <= k < s1.len() && key_index(s1[k]) == x;
        assert(key_index(s1[k]) == key_index(s2[k]));
        assert(key_index(s2[k]) < key_index(s2[s1.len() as int]));
        assert(false);
    }
    if s2.len() < s1.len() {
        let x = key_index(s1[s2.len() as int]);
        assert(holds_key(m, s1[s2.len() as int], version_of));
        assert(m.contains_key(x));
        let k = choose|k: int| 0 <= k < s2.len() && key_index(s2[k]) == x;
        assert(key_index(s1[k]) == key_index(s2[k]));
        assert(key_index(s1[k]) < key_index(s1[s2.len() as int]));
        assert(false);
    }
    assert forall|j: int| 0 <= j < s1.len() implies s1[j] == s2[j] by {
        assert(holds_key(m, s1[j], version_of));
        assert(holds_key(m, s2[j], version_of));
        lemma_key_parts(s1[j], s2[j]);
    }
    assert(s1 =~= s2);
}

proof fn lemma_lists_slots_prefix<V>(s1: Seq<u64>, s2: Seq<u64>, m: Map<u32, V>, version_of: spec_fn(V) -> u32, j: int)
    requires
        lists_slots(s1, m, version_of),
        lists_slots(s2, m, version_of),
        0 <= j < s1.len(),
        j < s2.len(),
    ensures
        key_index(s1[j]) == key_index(s2[j]),
    decreases j,
{
    if j > 0 {
        lemma_lists_slots_prefix(s1, s2, m, version_of, j - 1);
    }
    let a = key_index(s1[j]);
    let b = key_index(s2[j]);
    if a < b {
        assert(holds_key(m, s1[j], version_of));
        assert(m.contains_key(a));
        let k = choose|k: int| 0 <= k < s2.len() && key_index(s2[k]) == a;
        if k < j {
            lemma_lists_slots_below(s1, s2, m, version_of, k, j);
            assert(key_index(s1[k]) < key_index(s1[j]));
        } else if k > j {
            assert(key_index(s2[j]) < key_index(s2[k]));
        }
    } else if b < a {
        assert(holds_key(m, s2[j], version_of));
        assert(m.contains_key(b));
        let k = choose|k: int| 0 <= k < s1.len() && key_index(s1[k]) == b;
        if k < j {
            lemma_lists_slots_below(s1, s2, m, version_of, k, j);
            assert(key_index(s2[k]) < key_index(s2[j]));
        } else if k > j {
            assert(key_index(s1[j]) < key_index(s1[k]));
        }
    }
}

proof fn lemma_lists_slots_below<V>(s1: Seq<u64>, s2: Seq<u64>, m: Map<u32, V>, version_of: spec_fn(V) -> u32, k: int, j: int)
    requires
        lists_slots(s1, m, version_of),
        lists_slots(s2, m, version_of),
        0 <= k < j,
        j < s1.len(),
        j < s2.len(),
    ensures
        key_index(s1[k]) == key_index(s2[k]),
    decreases j,
{
    lemma_lists_slots_prefix(s1, s2, m, version_of, k);
}

/// The 64-bit key of a slot index and version.
pub open spec fn key_of(index: u32, version: u32) -> u64 {
    (version as int * 0x1_0000_0000 + index as int) as u64
}

proof fn lemma_key_of(index: u32, version: u32)
    ensures
        key_index(key_of(index, version)) == index,
        key_version(key_of(index, version)) == version,
{
    let x: int = version as int * 0x1_0000_0000 + index as int;
    assert(0 <= x <= u64::MAX) by (nonlinear_arith)
        requires
            x == version as int * 0x1_0000_0000 + index as int,
            index <= u32::MAX,
            version <= u32::MAX,
    ;
    vstd::arithmetic::div_mod::lemma_fundamental_div_mod_converse(x, 0x1_0000_0000, version as int, index as int);
}

/// The keys of the occupied slots below `n` of a component storage, by
/// increasing slot.
pub open spec fn stored_keys_below(m: Map<u32, (u32, Component)>, n: nat) -> Seq<u64>
    decreases n,
{
    if n == 0 {
        Seq::empty()
    } else {
        let rest = stored_keys_below(m, (n - 1) as nat);
        let i = (n - 1) as u32;
        if m.contains_key(i) {
            rest.push(key_of(i, m[i].0))
        } else {
            rest
        }
    }
}

proof fn lemma_stored_keys_below(m: Map<u32, (u32, Component)>, n: nat)
    requires
        n <= u32::MAX,
    ensures
        forall|j: int| 0 <= j < stored_keys_below(m, n).len() ==> key_index(#[trigger] stored_keys_below(m, n)[j]) < n,
        forall|a: int, b: int| 0 <= a < b < stored_keys_below(m, n).len()
            ==> key_index(#[trigger] stored_keys_below(m, n)[a]) < key_index(#[trigger] stored_keys_below(m, n)[b]),
        forall|j: int| 0 <= j < stored_keys_below(m, n).len() ==> holds_stored(m, #[trigger] stored_keys_below(m, n)[j]),
        forall|i: u32| i < n && #[trigger] m.contains_key(i) ==> exists|j: int|
            0 <= j < stored_keys_below(m, n).len() && key_index(stored_keys_below(m, n)[j]) == i,
    decreases n,
{
    if n > 0 {
        let rest = stored_keys_below(m, (n - 1) as nat);
        lemma_stored_keys_below(m, (n - 1) as nat);
        let i = (n - 1) as u32;
        let s = stored_keys_below(m, n);
        if m.contains_key(i) {
            let k = key_of(i, m[i].0);
            lemma_key_of(i, m[i].0);
            assert(s == rest.push(k));
            assert forall|j: int| 0 <= j < rest.len() implies #[trigger] s[j] == rest[j] by {}
            assert(s[rest.len() as int] == k);
            assert forall|j: int| 0 <= j < s.len() implies key_index(#[trigger] s[j]) < n by {
                if j < rest.len() {
                    assert(s[j] == rest[j]);
                }
            }
            assert forall|a: int, b: int| 0 <= a < b < s.len() implies key_index(#[trigger] s[a]) < key_index(#[trigger] s[b]) by {
                assert(s[a] == rest[a]);
                if b < rest.len() {
                    assert(s[b] == rest[b]);
                }
            }
            assert forall|j: int| 0 <= j < s.len() implies holds_stored(m, #[trigger] s[j]) by {
                if j < rest.len() {
                    assert(s[j] == rest[j]);
                }
            }
            assert forall|x: u32| x < n && #[trigger] m.contains_key(x) implies exists|j: int|
                0 <= j < s.len() && key_index(s[j]) == x by {
                if x < n - 1 {
                    let j = choose|j: int| 0 <= j < rest.len() && key_index(rest[j]) == x;
                    assert(s[j] == rest[j]);
                } else {
                    assert(key_index(s[rest.len() as int]) == x);
                }
            }
        } else {
            assert(s == rest);
        }
    }
}

/// Every storage whose slots carry valid keys has its slot-ordered key list.
pub proof fn lemma_stored_listing_exists(m: Map<u32, (u32, Component)>)
    requires
        stored_valid(m),
    ensures
        lists_stored(stored_keys_below(m, u32::MAX as nat), m),
        exists|keys: Seq<u64>| lists_stored(keys, m),
{
    let s = stored_keys_below(m, u32::MAX as nat);
    lemma_stored_keys_below(m, u32::MAX as nat);
    assert forall|i: u32| #[trigger] m.contains_key(i) implies exists|j: int| 0 <= j < s.len() && key_index(s[j]) == i by {
        assert(i < u32::MAX);
    }
    assert(lists_stored(s, m));
}

/// `SlotMap::new`: an empty entity map.
#[verifier::external_body]
pub(crate) fn entity_map_new() -> (fresh: EntityMap)
    ensures
        entity_slots(fresh).dom() == Set::<u32>::empty(),
{
    EntityMap { inner: SlotMap::new() }
}

/// `SlotMap::insert`: takes a vacant slot (or a new one) and returns its
/// key, with an odd version. It panics only when every one of the `u32::MAX`
/// slots is occupied, which the bound on the live count rules out.
#[verifier::external_body]
pub(crate) fn entity_map_insert(m: &mut EntityMap) -> (bits: u64)
    requires
        entity_slots(*old(m)).dom().finite(),
        entity_slots(*old(m)).dom().len() + 2 < u32::MAX,
    ensures
        key_valid(bits),
        !entity_slots(*old(m)).contains_key(key_index(bits)),
        entity_slots(*final(m)) == entity_slots(*old(m)).insert(key_index(bits), key_version(bits)),
{
    m.inner.insert(()).data().as_ffi()
}

/// `SlotMap::remove`: frees the slot if the map holds this exact key.
#[verifier::external_body]
pub(crate) fn entity_map_remove(m: &mut EntityMap, bits: u64) -> (removed: bool)
    requires
        key_valid(bits),
    ensures
        removed == holds_key(entity_slots(*old(m)), bits, |v: u32| live_version(v)),
        entity_slots(*final(m)) == if removed {
            entity_slots(*old(m)).remove(key_index(bits))
        } else {
            entity_slots(*old(m))
        },
{
    m.inner.remove(DefaultKey::from(KeyData::from_ffi(bits))).is_some()
}

/// `SlotMap::contains_key`.
#[verifier::external_body]
pub(crate) fn entity_map_contains(m: &EntityMap, bits: u64) -> (present: bool)
    requires
        key_valid(bits),
    ensures
        present == holds_key(entity_slots(*m), bits, |v: u32| live_version(v)),
{
    m.inner.contains_key(DefaultKey::from(KeyData::from_ffi(bits)))
}

/// `SlotMap::keys`: the live keys in increasing slot order. The documentation
/// calls the order arbitrary; the source walks the slot vector from the
/// front, and the contract states that order.
#[verifier::external_body]
pub(crate) fn entity_map_keys(m: &EntityMap) -> (keys: Vec<u64>)
    ensures
        lists_live(keys@, entity_slots(*m)),
{
    let mut keys = Vec::new();
    for key in m.inner.keys() {
        keys.push(key.data().as_ffi());
    }
    keys
}

/// `SecondaryMap::new`: an empty component map.
#[verifier::external_body]
pub(crate) fn component_map_new() -> (fresh: ComponentMap)
    ensures
        component_slots(fresh).dom() == Set::<u32>::empty(),
{
    ComponentMap { inner: SecondaryMap::new() }
}

/// `SecondaryMap::insert`: stores `c` under the key unless the slot holds a
/// newer version; returns the replaced component when the slot held this
/// very key.
#[verifier::external_body]
pub(crate) fn component_map_insert(m: &mut ComponentMap, bits: u64, c: Component) -> (replaced: Option<Component>)
    requires
        key_valid(bits),
    ensures
        component_slots(*final(m)) == stored_after_insert(component_slots(*old(m)), bits, c),
        replaced == stored_under(component_slots(*old(m)), bits),
{
    m.inner.insert(DefaultKey::from(KeyData::from_ffi(bits)), c)
}

/// `SecondaryMap::remove`: empties the slot if it holds this exact key.
#[verifier::external_body]
pub(crate) fn component_map_remove(m: &mut ComponentMap, bits: u64) -> (removed: Option<Component>)
    requires
        key_valid(bits),
    ensures
        component_slots(*final(m)) == stored_after_remove(component_slots(*old(m)), bits),
        removed == stored_under(component_slots(*old(m)), bits),
{
    m.inner.remove(DefaultKey::from(KeyData::from_ffi(bits)))
}

/// `SecondaryMap::get`.
#[verifier::external_body]
pub(crate) fn component_map_get(m: &ComponentMap, bits: u64) -> (found: Option<&Component>)
    requires
        key_valid(bits),
    ensures
        found matches Some(c) ==> stored_under(component_slots(*m), bits) == Some(*c),
        found is None ==> stored_under(component_slots(*m), bits) is None,
{
    m.inner.get(DefaultKey::from(KeyData::from_ffi(bits)))
}

/// `SecondaryMap::get_mut` on a key the map holds: a reference to the stored
/// component; what it holds when the borrow ends is what the slot holds.
#[verifier::external_body]
pub(crate) fn component_map_get_mut(m: &mut ComponentMap, bits: u64) -> (slot: &mut Component)
    requires
        key_valid(bits),
        stored_under(component_slots(*old(m)), bits) is Some,
    ensures
        stored_under(component_slots(*old(m)), bits) == Some(*slot),
        component_slots(*final(m)) == component_slots(*old(m)).insert(key_index(bits), (key_version(bits), *final(slot))),
{
    m.inner.get_mut(DefaultKey::from(KeyData::from_ffi(bits))).unwrap()
}

/// `SecondaryMap::keys`: the stored keys in increasing slot order. The
/// documentation calls the order arbitrary; the source walks the slot vector
/// from the front, and the contract states that order.
#[verifier::external_body]
pub(crate) fn component_map_keys(m: &ComponentMap) -> (keys: Vec<u64>)
    ensures
        lists_stored(keys@, component_slots(*m)),
{
    let mut keys = Vec::new();
    for key in m.inner.keys() {
        keys.push(key.data().as_ffi());
    }
    keys
}

} // verus!
