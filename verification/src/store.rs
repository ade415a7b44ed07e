use vstd::prelude::*;

use crate::module::AppModTask;

verus! {

broadcast use vstd::std_specs::hash::group_hash_axioms;

/// Identity hasher for pre-hashed 64-bit keys: it stores the eight bytes it
/// is given and hands them back unchanged, composed little-endian.
#[derive(Default)]
pub struct TypeIdHasherDoNotUse {
    pub value: u64,
}

/// The 64-bit value encoded little-endian by a sequence of exactly 8 bytes.
pub open spec fn le_bytes_to_u64(bytes: Seq<u8>) -> int
    decreases bytes.len(),
{
    if bytes.len() == 0 {
        0
    } else {
        bytes[0] + 256 * le_bytes_to_u64(bytes.drop_first())
    }
}

impl TypeIdHasherDoNotUse {
    pub fn finish(&self) -> (r: u64)
        ensures
            r == self.value,
    {
        self.value
    }

    pub fn write(&mut self, bytes: &[u8])
        requires
            bytes@.len() == 8,
        ensures
            final(self).value == le_bytes_to_u64(bytes@),
    {
        proof {
            lemma_le_bytes_to_u64_bound(bytes@);
        }
        let b0 = bytes[0] as u64;
        let b1 = bytes[1] as u64;
        let b2 = bytes[2] as u64;
        let b3 = bytes[3] as u64;
        let b4 = bytes[4] as u64;
        let b5 = bytes[5] as u64;
        let b6 = bytes[6] as u64;
        let b7 = bytes[7] as u64;
        let v: u64 = b0 + 256 * (b1 + 256 * (b2 + 256 * (b3 + 256 * (b4 + 256 * (b5 + 256 * (b6
            + 256 * b7))))));
        proof {
            assert(bytes@ =~= seq![bytes@[0], bytes@[1], bytes@[2], bytes@[3], bytes@[4], bytes@[5], bytes@[6], bytes@[7]]);
            reveal_with_fuel(le_bytes_to_u64, 10);
        }
        self.value = v;
    }
}

proof fn lemma_le_bytes_to_u64_bound(bytes: Seq<u8>)
    requires
        bytes.len() <= 8,
    ensures
        0 <= le_bytes_to_u64(bytes) < 0x1_0000_0000_0000_0000,
{
    lemma_le_bytes_bound_smaller(bytes, 8);
    assert(pow256(8) == 0x1_0000_0000_0000_0000) by {
        reveal_with_fuel(pow256, 9);
    }
}

/// `le_bytes_to_u64` of at most `k` bytes is below `256^k`.
proof fn lemma_le_bytes_bound_smaller(bytes: Seq<u8>, k: nat)
    requires
        bytes.len() <= k,
        k <= 8,
    ensures
        0 <= le_bytes_to_u64(bytes) < pow256(k),
    decreases k,
{
    if bytes.len() == 0 {
        lemma_pow256_pos(k);
    } else {
        lemma_le_bytes_bound_smaller(bytes.drop_first(), (k - 1) as nat);
    }
}

pub open spec fn pow256(k: nat) -> int
    decreases k,
{
    if k == 0 {
        1
    } else {
        256 * pow256((k - 1) as nat)
    }
}

proof fn lemma_pow256_pos(k: nat)
    ensures
        pow256(k) >= 1,
    decreases k,
{
    if k > 0 {
        lemma_pow256_pos((k - 1) as nat);
    }
}

/// Registry of singleton module instances, keyed by the 64-bit identity of
/// the pointer symbol they were requested under. Populated once per symbol
/// during the build phase and read-only afterwards.
pub struct AnyMapByKey<V> {
    pub raw: std::collections::HashMap<u64, V>,
}

impl<V> View for AnyMapByKey<V> {
    type V = Map<u64, V>;

    open spec fn view(&self) -> Map<u64, V> {
        self.raw@
    }
}

impl<V> AnyMapByKey<V> {
    pub fn new() -> (r: AnyMapByKey<V>)
        ensures
            r@ == Map::<u64, V>::empty(),
    {
        AnyMapByKey { raw: std::collections::HashMap::new() }
    }

    pub fn get(&self, key: u64) -> (r: Option<&V>)
        ensures
            match r {
                Some(v) => self@.contains_key(key) && *v == self@[key],
                None => !self@.contains_key(key),
            },
    {
        self.raw.get(&key)
    }

    pub fn insert(&mut self, key: u64, value: V) -> (r: Option<V>)
        ensures
            final(self)@ == old(self)@.insert(key, value),
            match r {
                Some(v) => old(self)@.contains_key(key) && v == old(self)@[key],
                None => !old(self)@.contains_key(key),
            },
    {
        self.raw.insert(key, value)
    }

    pub fn contains(&self, key: u64) -> (r: bool)
        ensures
            r == self@.contains_key(key),
    {
        self.raw.contains_key(&key)
    }

    pub fn len(&self) -> (r: usize)
        ensures
            r == self@.dom().len(),
    {
        self.raw.len()
    }
}

impl<V> Default for AnyMapByKey<V> {
    fn default() -> (r: AnyMapByKey<V>)
        ensures
            r@ == Map::<u64, V>::empty(),
    {
        AnyMapByKey::new()
    }
}

/// Auxiliary type-keyed store: same shape as `AnyMapByKey` but with removal,
/// used for bookkeeping that is torn down again (the build-time dedup cache).
pub struct AnyMap<V> {
    pub raw: std::collections::HashMap<u64, V>,
}

impl<V> View for AnyMap<V> {
    type V = Map<u64, V>;

    open spec fn view(&self) -> Map<u64, V> {
        self.raw@
    }
}

impl<V> AnyMap<V> {
    pub fn new() -> (r: AnyMap<V>)
        ensures
            r@ == Map::<u64, V>::empty(),
    {
        AnyMap { raw: std::collections::HashMap::new() }
    }

    pub fn get(&self, key: u64) -> (r: Option<&V>)
        ensures
            match r {
                Some(v) => self@.contains_key(key) && *v == self@[key],
                None => !self@.contains_key(key),
            },
    {
        self.raw.get(&key)
    }

    pub fn insert(&mut self, key: u64, value: V) -> (r: Option<V>)
        ensures
            final(self)@ == old(self)@.insert(key, value),
            match r {
                Some(v) => old(self)@.contains_key(key) && v == old(self)@[key],
                None => !old(self)@.contains_key(key),
            },
    {
        self.raw.insert(key, value)
    }

    pub fn remove(&mut self, key: u64) -> (r: Option<V>)
        ensures
            final(self)@ == old(self)@.remove(key),
            match r {
                Some(v) => old(self)@.contains_key(key) && v == old(self)@[key],
                None => !old(self)@.contains_key(key),
            },
    {
        self.raw.remove(&key)
    }
}

impl<V> Default for AnyMap<V> {
    fn default() -> (r: AnyMap<V>)
        ensures
            r@ == Map::<u64, V>::empty(),
    {
        AnyMap::new()
    }
}

/// All per-process module bookkeeping: the symbol-keyed singleton registry,
/// the ordered list of runtime-capable instances (registration order drives
/// the lifecycle hooks), the build-time dedup cache keyed by target type and
/// resolved configuration, and the tracked background tasks.
pub struct ModuleStore {
    pub modules: AnyMapByKey<u64>,
    pub modules_refs: Vec<(String, u64)>,
    pub modules_targets_cache: std::collections::HashMap<u128, u64>,
    pub handles: Vec<AppModTask>,
}

impl ModuleStore {
    pub fn new() -> (r: ModuleStore)
        ensures
            r.modules@ == Map::<u64, u64>::empty(),
            r.modules_refs@ == Seq::<(String, u64)>::empty(),
            r.modules_targets_cache@ == Map::<u128, u64>::empty(),
            r.handles@ == Seq::<AppModTask>::empty(),
    {
        ModuleStore {
            modules: AnyMapByKey::new(),
            modules_refs: Vec::new(),
            modules_targets_cache: std::collections::HashMap::new(),
            handles: Vec::new(),
        }
    }

    /// Track one background task; append-only.
    pub fn register_task(&mut self, task: AppModTask)
        ensures
            final(self).handles@ == old(self).handles@.push(task),
            final(self).modules == old(self).modules,
            final(self).modules_refs == old(self).modules_refs,
            final(self).modules_targets_cache == old(self).modules_targets_cache,
    {
        self.handles.push(task);
    }
}

} // verus!
