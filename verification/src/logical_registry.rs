//! Per-application manifest and the mapping of logical names to 16-bit identifiers.

use vstd::prelude::*;
use vstd::set_lib::*;
use vstd::relations::injective_on;
use crate::text::{spec_trim, trim};
use crate::error::PacomError;
use crate::names::{NameMap, NameSet};

verus! {

/// Initial value of the 32-bit FNV-1a hash.
pub open spec fn fnv_offset_basis() -> u32 {
    0x811c9dc5u32
}

/// One FNV-1a round: xor in the byte, then multiply by the FNV prime modulo 2^32.
pub open spec fn fnv_round(hash: u32, byte: u8) -> u32 {
    (((hash ^ (byte as u32)) as nat * 0x01000193nat) % 0x1_0000_0000nat) as u32
}

/// The 32-bit FNV-1a hash of a byte sequence.
pub open spec fn fnv1a32(bytes: Seq<u8>) -> u32
    decreases bytes.len(),
{
    if bytes.len() == 0 {
        fnv_offset_basis()
    } else {
        fnv_round(fnv1a32(bytes.drop_last()), bytes.last())
    }
}

/// The 32-bit hash folded onto 16 bits, with 0 replaced by 1.
pub open spec fn fold16(hash: u32) -> u16 {
    let folded = (hash ^ (hash >> 16u32)) as u16;
    if folded == 0 {
        1u16
    } else {
        folded
    }
}

/// The deterministic identifier of `(namespace, name)`: FNV-1a over the UTF-8 bytes of the
/// namespace followed by those of the name, folded to 16 bits, never 0.
pub open spec fn spec_stable_id16(namespace: Seq<char>, name: Seq<char>) -> u16 {
    fold16(fnv1a32(vstd::utf8::encode_utf8(namespace) + vstd::utf8::encode_utf8(name)))
}

pub(crate) fn fnv_absorb(hash: u32, bytes: &[u8], Ghost(prefix): Ghost<Seq<u8>>) -> (out: u32)
    requires
        hash == fnv1a32(prefix),
    ensures
        out == fnv1a32(prefix + bytes@),
{
    let mut h = hash;
    let mut i: usize = 0;
    while i < bytes.len()
        invariant
            i <= bytes@.len(),
            h == fnv1a32(prefix + bytes@.take(i as int)),
        decreases bytes@.len() - i,
    {
        let b = bytes[i];
        assert((prefix + bytes@.take(i + 1)).drop_last() =~= prefix + bytes@.take(i as int));
        h = (h ^ (b as u32)).wrapping_mul(0x01000193u32);
        i = i + 1;
    }
    assert(bytes@.take(bytes@.len() as int) =~= bytes@);
    h
}

/// FNV-1a hash folded to 16 bits, a deterministic mapping from `(namespace, logical_name)`
/// to a non-zero `u16`.
pub fn stable_id16(namespace: &str, logical_name: &str) -> (id: u16)
    ensures
        id == spec_stable_id16(namespace@, logical_name@),
        id != 0,
{
    let ns = namespace.as_bytes();
    let nm = logical_name.as_bytes();
    assert(Seq::<u8>::empty() + ns@ =~= ns@);
    let h1 = fnv_absorb(0x811c9dc5u32, ns, Ghost(Seq::empty()));
    let h = fnv_absorb(h1, nm, Ghost(ns@));
    let folded = (h ^ (h >> 16u32)) as u16;
    if folded == 0 {
        1
    } else {
        folded
    }
}


// ── Identifier spaces ──────────────────────────────────────────────

/// Lowest identifier of the RPC method space.
pub open spec fn rpc_lo() -> int {
    1
}

/// Highest identifier of the RPC method space.
pub open spec fn rpc_hi() -> int {
    0x7FFF
}

/// Lowest identifier of the topic resource space.
pub open spec fn topic_lo() -> int {
    0x8000
}

/// Highest identifier of the topic resource space.
pub open spec fn topic_hi() -> int {
    0xFFFF
}

/// The identifier reached from `start` after `k` cyclic increments inside `[lo, hi]`.
pub open spec fn cyc(lo: int, hi: int, start: int, k: int) -> int {
    if start + k <= hi {
        start + k
    } else {
        start + k - (hi - lo + 1)
    }
}

/// The first identifier, probing cyclically from the `k`-th step after `start`,
/// that is not in `used`.
pub open spec fn probe(used: Set<u16>, lo: int, hi: int, start: int, k: int) -> u16
    decreases hi - lo + 1 - k,
{
    if k < 0 || k >= hi - lo + 1 {
        start as u16
    } else if !used.contains(cyc(lo, hi, start, k) as u16) {
        cyc(lo, hi, start, k) as u16
    } else {
        probe(used, lo, hi, start, k + 1)
    }
}

/// The hash-derived candidate method identifier of an RPC name: bit 15 cleared, 0 replaced by 1.
pub open spec fn rpc_base(name: Seq<char>) -> u16 {
    let b = spec_stable_id16("rpc"@, name) & 0x7FFFu16;
    if b == 0 {
        1u16
    } else {
        b
    }
}

/// The hash-derived candidate resource identifier of a topic name: bit 15 set.
pub open spec fn topic_base(name: Seq<char>) -> u16 {
    spec_stable_id16("topic"@, name) | 0x8000u16
}

/// The identifiers that resolution hands out, in order, to `names`: each name gets the
/// first free identifier probing upwards (cyclically) from its hash-derived candidate.
pub open spec fn assign_ids(names: Seq<Seq<char>>, rpc: bool) -> Seq<u16>
    decreases names.len(),
{
    if names.len() == 0 {
        Seq::empty()
    } else {
        let prev = assign_ids(names.drop_last(), rpc);
        let id = if rpc {
            probe(prev.to_set(), rpc_lo(), rpc_hi(), rpc_base(names.last()) as int, 0)
        } else {
            probe(prev.to_set(), topic_lo(), topic_hi(), topic_base(names.last()) as int, 0)
        };
        prev.push(id)
    }
}

/// `m` after inserting `names[i] -> ids[i]` for each `i` in order.
pub open spec fn insert_all(m: Map<Seq<char>, u16>, names: Seq<Seq<char>>, ids: Seq<u16>) -> Map<
    Seq<char>,
    u16,
>
    decreases names.len(),
{
    if names.len() == 0 || ids.len() == 0 {
        m
    } else {
        insert_all(m, names.drop_last(), ids.drop_last()).insert(names.last(), ids.last())
    }
}

proof fn lemma_cyc_range(lo: int, hi: int, start: int, k: int)
    requires
        lo <= start <= hi,
        0 <= k < hi - lo + 1,
    ensures
        lo <= cyc(lo, hi, start, k) <= hi,
{
}

proof fn lemma_probe_count(used: Set<u16>, lo: int, hi: int, start: int, k: int)
    requires
        used.finite(),
        0 <= lo <= start <= hi <= 0xFFFF,
        0 <= k <= hi - lo + 1,
        forall|j: int| 0 <= j < k ==> used.contains(#[trigger] cyc(lo, hi, start, j) as u16),
    ensures
        k <= used.len(),
{
    let f = |j: int| cyc(lo, hi, start, j) as u16;
    let dom = set_int_range(0, k);
    lemma_int_range(0, k);
    assert(injective_on(f, dom)) by {
        assert forall|a: int, b: int| dom.contains(a) && dom.contains(b) && #[trigger] f(a) == #[trigger] f(
            b,
        ) implies a == b by {
            lemma_cyc_range(lo, hi, start, a);
            lemma_cyc_range(lo, hi, start, b);
        }
    }
    lemma_map_size(dom, dom.map(f), f);
    assert(dom.map(f).subset_of(used)) by {
        assert forall|x: u16| dom.map(f).contains(x) implies used.contains(x) by {
            let j = choose|j: int| dom.contains(j) && f(j) == x;
        }
    }
    lemma_len_subset(dom.map(f), used);
}

proof fn lemma_probe_fresh(used: Set<u16>, lo: int, hi: int, start: int, k: int)
    requires
        used.finite(),
        used.len() < hi - lo + 1,
        0 <= lo <= start <= hi <= 0xFFFF,
        0 <= k <= hi - lo + 1,
        forall|j: int| 0 <= j < k ==> used.contains(#[trigger] cyc(lo, hi, start, j) as u16),
    ensures
        !used.contains(probe(used, lo, hi, start, k)),
        lo <= probe(used, lo, hi, start, k) <= hi,
        probe(used, lo, hi, start, k) == probe(used, lo, hi, start, 0) || k > 0,
    decreases hi - lo + 1 - k,
{
    if k == hi - lo + 1 {
        lemma_probe_count(used, lo, hi, start, k);
    } else {
        lemma_cyc_range(lo, hi, start, k);
        if used.contains(cyc(lo, hi, start, k) as u16) {
            lemma_probe_fresh(used, lo, hi, start, k + 1);
        }
    }
}

/// Resolution hands out pairwise distinct identifiers, all inside the space, one per name,
/// as long as there are no more names than identifiers in the space.
pub proof fn lemma_assign_ids_distinct_in_range(names: Seq<Seq<char>>, rpc: bool)
    requires
        names.len() <= (if rpc {
            rpc_hi() - rpc_lo() + 1
        } else {
            topic_hi() - topic_lo() + 1
        }),
    ensures
        assign_ids(names, rpc).len() == names.len(),
        assign_ids(names, rpc).no_duplicates(),
        forall|i: int|
            0 <= i < names.len() ==> (if rpc {
                rpc_lo() <= #[trigger] assign_ids(names, rpc)[i] <= rpc_hi()
            } else {
                topic_lo() <= assign_ids(names, rpc)[i] <= topic_hi()
            }),
    decreases names.len(),
{
    if names.len() > 0 {
        let prev = assign_ids(names.drop_last(), rpc);
        lemma_assign_ids_distinct_in_range(names.drop_last(), rpc);
        prev.lemma_cardinality_of_set();
        let (lo, hi, start) = if rpc {
            (rpc_lo(), rpc_hi(), rpc_base(names.last()) as int)
        } else {
            (topic_lo(), topic_hi(), topic_base(names.last()) as int)
        };
        let b = spec_stable_id16("rpc"@, names.last());
        let t = spec_stable_id16("topic"@, names.last());
        assert(b & 0x7FFFu16 <= 0x7FFF) by (bit_vector);
        assert(t | 0x8000u16 >= 0x8000) by (bit_vector);
        lemma_probe_fresh(prev.to_set(), lo, hi, start, 0);
        let id = probe(prev.to_set(), lo, hi, start, 0);
        let ids = prev.push(id);
        assert(!prev.contains(id));
        assert(ids.no_duplicates()) by {
            assert forall|i: int, j: int| 0 <= i < j < ids.len() implies ids[i] != ids[j] by {
                if j == ids.len() - 1 {
                    assert(prev.contains(ids[i]));
                }
            }
        }
    }
}

/// When no two names share a hash-derived candidate, each name gets its candidate.
proof fn lemma_assign_ids_no_collision(names: Seq<Seq<char>>, rpc: bool)
    requires
        forall|i: int, j: int|
            0 <= i < names.len() && 0 <= j < names.len() && i != j ==> (if rpc {
                rpc_base(#[trigger] names[i]) != rpc_base(#[trigger] names[j])
            } else {
                topic_base(names[i]) != topic_base(names[j])
            }),
    ensures
        assign_ids(names, rpc).len() == names.len(),
        forall|i: int|
            0 <= i < names.len() ==> #[trigger] assign_ids(names, rpc)[i] == (if rpc {
                rpc_base(names[i])
            } else {
                topic_base(names[i])
            }),
    decreases names.len(),
{
    if names.len() > 0 {
        let init = names.drop_last();
        lemma_assign_ids_no_collision(init, rpc);
        let prev = assign_ids(init, rpc);
        let last = names.last();
        let n = names.len() - 1;
        let (lo, hi, start) = if rpc {
            (rpc_lo(), rpc_hi(), rpc_base(last) as int)
        } else {
            (topic_lo(), topic_hi(), topic_base(last) as int)
        };
        let b = spec_stable_id16("rpc"@, last);
        let t = spec_stable_id16("topic"@, last);
        assert(b & 0x7FFFu16 <= 0x7FFF) by (bit_vector);
        assert(t | 0x8000u16 >= 0x8000) by (bit_vector);
        assert(lo <= start <= hi);
        assert(!prev.to_set().contains(start as u16)) by {
            if prev.to_set().contains(start as u16) {
                assert(prev.contains(start as u16));
                let k = choose|k: int| 0 <= k < prev.len() && prev[k] == start as u16;
                assert(names[k] == init[k]);
                assert(prev[k] == (if rpc { rpc_base(names[k]) } else { topic_base(names[k]) }));
                assert(names[n] == last);
            }
        }
        assert(cyc(lo, hi, start, 0) == start);
        let ids = assign_ids(names, rpc);
        assert forall|i: int| 0 <= i < names.len() implies #[trigger] ids[i] == (if rpc {
            rpc_base(names[i])
        } else {
            topic_base(names[i])
        }) by {
            if i < n {
                assert(names[i] == init[i]);
                assert(ids[i] == prev[i]);
            }
        }
    }
}

/// After `insert_all`, each of the (distinct) names maps to its own identifier.
pub proof fn lemma_insert_all_lookup(
    m: Map<Seq<char>, u16>,
    names: Seq<Seq<char>>,
    ids: Seq<u16>,
    i: int,
)
    requires
        names.no_duplicates(),
        names.len() == ids.len(),
        0 <= i < names.len(),
    ensures
        insert_all(m, names, ids).dom().contains(names[i]),
        insert_all(m, names, ids)[names[i]] == ids[i],
    decreases names.len(),
{
    if i < names.len() - 1 {
        lemma_insert_all_lookup(m, names.drop_last(), ids.drop_last(), i);
        assert(names[i] != names.last());
    }
}


/// Each of `names` has an identifier in `m` inside `[lo, hi]`, and distinct names have
/// distinct identifiers.
pub open spec fn all_resolved_distinct(m: Map<Seq<char>, u16>, names: Seq<Seq<char>>, lo: int, hi: int) -> bool {
    &&& forall|i: int|
        0 <= i < names.len() ==> #[trigger] m.dom().contains(names[i]) && lo <= m[names[i]] <= hi
    &&& forall|i: int, j: int|
        0 <= i < names.len() && 0 <= j < names.len() && i != j ==> m[#[trigger] names[i]]
            != m[#[trigger] names[j]]
}

proof fn lemma_insert_all_range(m: Map<Seq<char>, u16>, names: Seq<Seq<char>>, ids: Seq<u16>, lo: int, hi: int)
    requires
        forall|k: Seq<char>| #[trigger] m.dom().contains(k) ==> lo <= m[k] <= hi,
        forall|i: int| 0 <= i < ids.len() ==> lo <= #[trigger] ids[i] <= hi,
    ensures
        forall|k: Seq<char>|
            #[trigger] insert_all(m, names, ids).dom().contains(k) ==> lo <= insert_all(m, names, ids)[k] <= hi,
    decreases names.len(),
{
    if names.len() > 0 && ids.len() > 0 {
        lemma_insert_all_range(m, names.drop_last(), ids.drop_last(), lo, hi);
        assert(lo <= ids[ids.len() - 1] <= hi);
        let prev = insert_all(m, names.drop_last(), ids.drop_last());
        assert forall|k: Seq<char>| #[trigger] insert_all(m, names, ids).dom().contains(k) implies lo
            <= insert_all(m, names, ids)[k] <= hi by {
            if k != names.last() {
                assert(prev.dom().contains(k));
            }
        }
    }
}

fn vec_contains(v: &Vec<u16>, x: u16) -> (b: bool)
    ensures
        b == v@.contains(x),
{
    let mut i: usize = 0;
    while i < v.len()
        invariant
            i <= v@.len(),
            forall|k: int| 0 <= k < i ==> v@[k] != x,
        decreases v@.len() - i,
    {
        if v[i] == x {
            assert(v@[i as int] == x);
            return true;
        }
        i = i + 1;
    }
    false
}

/// RPC methods an application provides and consumes.
pub struct RpcManifest {
    /// Methods served by this application.
    pub provide: NameSet,
    /// Methods this application invokes.
    pub consume: NameSet,
}

/// Topics an application publishes and subscribes to.
pub struct TopicManifest {
    /// Topics published by this application.
    pub publish: NameSet,
    /// Topics this application listens to.
    pub subscribe: NameSet,
}

impl Default for RpcManifest {
    fn default() -> (m: Self)
        ensures
            m.provide.elems().len() == 0,
            m.consume.elems().len() == 0,
    {
        RpcManifest { provide: NameSet::new(), consume: NameSet::new() }
    }
}

impl Default for TopicManifest {
    fn default() -> (m: Self)
        ensures
            m.publish.elems().len() == 0,
            m.subscribe.elems().len() == 0,
    {
        TopicManifest { publish: NameSet::new(), subscribe: NameSet::new() }
    }
}

/// Per-instance manifest describing which RPC methods and event topics
/// this application provides, consumes, publishes or subscribes to.
pub struct ManifestConfig {
    /// RPC methods provided and consumed by the application.
    pub rpc: RpcManifest,
    /// Topics published and subscribed to by the application.
    pub topics: TopicManifest,
    /// Resolved numeric method IDs for RPCs declared in `rpc.provide`.
    pub resolved_rpc_ids: NameMap<u16>,
    /// Resolved numeric resource IDs for topics declared in `topics.publish`.
    pub resolved_topic_ids: NameMap<u16>,
}

impl Default for ManifestConfig {
    fn default() -> (m: Self)
        ensures
            m.rpc.provide.elems().len() == 0,
            m.rpc.consume.elems().len() == 0,
            m.topics.publish.elems().len() == 0,
            m.topics.subscribe.elems().len() == 0,
            m.resolved_rpc_ids.map() == Map::<Seq<char>, u16>::empty(),
            m.resolved_topic_ids.map() == Map::<Seq<char>, u16>::empty(),
    {
        ManifestConfig {
            rpc: RpcManifest::default(),
            topics: TopicManifest::default(),
            resolved_rpc_ids: NameMap::new(),
            resolved_topic_ids: NameMap::new(),
        }
    }
}

/// What `method_id_for` returns: the resolved identifier when the name has one,
/// otherwise the hash-derived candidate.
pub open spec fn spec_method_id(resolved: Map<Seq<char>, u16>, name: Seq<char>) -> u16 {
    if resolved.dom().contains(name) {
        resolved[name]
    } else {
        rpc_base(name)
    }
}

/// What `resource_id_for` returns: the resolved identifier when the name has one,
/// otherwise the hash-derived candidate.
pub open spec fn spec_resource_id(resolved: Map<Seq<char>, u16>, name: Seq<char>) -> u16 {
    if resolved.dom().contains(name) {
        resolved[name]
    } else {
        topic_base(name)
    }
}

impl ManifestConfig {
    /// Every stored method identifier lies in `[0x0001, 0x7FFF]`.
    pub open spec fn rpc_ids_in_range(&self) -> bool {
        forall|k: Seq<char>|
            #[trigger] self.resolved_rpc_ids.map().dom().contains(k) ==> 1
                <= self.resolved_rpc_ids.map()[k] <= 0x7FFF
    }

    /// Every stored resource identifier lies in `[0x8000, 0xFFFF]`.
    pub open spec fn topic_ids_in_range(&self) -> bool {
        forall|k: Seq<char>|
            #[trigger] self.resolved_topic_ids.map().dom().contains(k) ==> 0x8000
                <= self.resolved_topic_ids.map()[k]
    }

    /// Every stored method identifier lies in `[0x0001, 0x7FFF]` and every stored
    /// resource identifier in `[0x8000, 0xFFFF]`.
    pub open spec fn ids_in_range(&self) -> bool {
        &&& self.rpc_ids_in_range()
        &&& self.topic_ids_in_range()
    }

    fn resolve_space(names: &NameSet, table: &mut NameMap<u16>, rpc: bool)
        requires
            names.elems().len() <= (if rpc {
                rpc_hi() - rpc_lo() + 1
            } else {
                topic_hi() - topic_lo() + 1
            }),
        ensures
            final(table).map() == insert_all(
                old(table).map(),
                names.elems(),
                assign_ids(names.elems(), rpc),
            ),
    {
        let ghost elems = names.elems();
        let ghost lo: int = if rpc { rpc_lo() } else { topic_lo() };
        let ghost hi: int = if rpc { rpc_hi() } else { topic_hi() };
        let n = names.len();
        let mut used: Vec<u16> = Vec::new();
        let mut i: usize = 0;
        while i < n
            invariant
                n == elems.len(),
                n <= hi - lo + 1,
                i <= n,
                lo == (if rpc { rpc_lo() } else { topic_lo() }),
                hi == (if rpc { rpc_hi() } else { topic_hi() }),
                elems == names.elems(),
                used@ == assign_ids(elems.take(i as int), rpc),
                table.map() == insert_all(old(table).map(), elems.take(i as int), used@),
            decreases n - i,
        {
            let name = names.get(i);
            let mut id: u16;
            if rpc {
                id = stable_id16("rpc", name.as_str()) & 0x7FFF;
                if id == 0 {
                    id = 1;
                }
            } else {
                id = stable_id16("topic", name.as_str()) | 0x8000;
            }
            let ghost start = id as int;
            let ghost prefix = elems.take(i as int);
            assert(elems.take(i + 1).drop_last() =~= prefix);
            assert(elems.take(i + 1).last() == elems[i as int]);
            proof {
                let x = spec_stable_id16("rpc"@, elems[i as int]);
                let y = spec_stable_id16("topic"@, elems[i as int]);
                assert(x & 0x7FFFu16 <= 0x7FFF) by (bit_vector);
                assert(y | 0x8000u16 >= 0x8000) by (bit_vector);
                used@.lemma_cardinality_of_set();
                lemma_assign_ids_distinct_in_range(prefix, rpc);
            }
            assert(lo <= start <= hi);
            let ghost mut k: int = 0;
            while vec_contains(&used, id)
                invariant
                    0 <= lo <= start <= hi <= 0xFFFF,
                    lo == (if rpc { rpc_lo() } else { topic_lo() }),
                    hi == (if rpc { rpc_hi() } else { topic_hi() }),
                    0 <= k < hi - lo + 1,
                    id as int == cyc(lo, hi, start, k),
                    used@.len() == i,
                    i < hi - lo + 1,
                    forall|j: int|
                        0 <= j < k ==> used@.to_set().contains(#[trigger] cyc(lo, hi, start, j) as u16),
                    probe(used@.to_set(), lo, hi, start, 0) == probe(used@.to_set(), lo, hi, start, k),
                decreases hi - lo + 1 - k,
            {
                proof {
                    assert(used@.to_set().contains(cyc(lo, hi, start, k) as u16));
                    used@.lemma_cardinality_of_set();
                    lemma_probe_count(used@.to_set(), lo, hi, start, k + 1);
                }
                let old_id = id;
                if rpc {
                    id = old_id.wrapping_add(1) & 0x7FFF;
                    if id == 0 {
                        id = 1;
                    }
                    assert(1 <= old_id <= 0x7FFF ==> (((old_id + 1) as u16) & 0x7FFFu16) == (if old_id
                        == 0x7FFF {
                        0u16
                    } else {
                        (old_id + 1) as u16
                    })) by (bit_vector);
                } else {
                    id = old_id.wrapping_add(1) | 0x8000;
                    assert(0x8000 <= old_id ==> (((if old_id == 0xFFFF { 0u16 } else { (old_id + 1) as u16 })
                        | 0x8000u16) == (if old_id == 0xFFFF {
                        0x8000u16
                    } else {
                        (old_id + 1) as u16
                    }))) by (bit_vector);
                }
                proof {
                    k = k + 1;
                }
            }
            assert(probe(used@.to_set(), lo, hi, start, k) == id);
            let ghost prev_used = used@;
            used.push(id);
            table.insert(name.clone(), id);
            assert(used@ =~= assign_ids(elems.take(i + 1), rpc));
            assert(used@.drop_last() =~= prev_used);
            assert(insert_all(old(table).map(), elems.take(i + 1), used@) == insert_all(
                old(table).map(),
                prefix,
                prev_used,
            ).insert(elems[i as int], id));
            i = i + 1;
        }
        assert(elems.take(n as int) =~= elems);
    }

    /// Resolves and stores deterministic IDs for locally provided RPCs and published topics.
    ///
    /// Each provided method (in `rpc.provide` order) gets the first identifier not taken by an
    /// earlier one, probing upwards from its hash-derived candidate and wrapping inside
    /// `[0x0001, 0x7FFF]`; published topics likewise inside `[0x8000, 0xFFFF]`.
    pub fn resolve_and_store_ids(&mut self)
        requires
            old(self).rpc.provide.elems().len() <= 0x7FFF,
            old(self).topics.publish.elems().len() <= 0x8000,
        ensures
            final(self).rpc == old(self).rpc,
            final(self).topics == old(self).topics,
            final(self).resolved_rpc_ids.map() == insert_all(
                old(self).resolved_rpc_ids.map(),
                old(self).rpc.provide.elems(),
                assign_ids(old(self).rpc.provide.elems(), true),
            ),
            final(self).resolved_topic_ids.map() == insert_all(
                old(self).resolved_topic_ids.map(),
                old(self).topics.publish.elems(),
                assign_ids(old(self).topics.publish.elems(), false),
            ),
            // every provided method gets an identifier of the method space, no two the same
            all_resolved_distinct(final(self).resolved_rpc_ids.map(), final(self).rpc.provide.elems(), 1, 0x7FFF),
            // every published topic gets an identifier of the topic space, no two the same
            all_resolved_distinct(final(self).resolved_topic_ids.map(), final(self).topics.publish.elems(), 0x8000, 0xFFFF),
            old(self).ids_in_range() ==> final(self).ids_in_range(),
    {
        proof {
            use_type_invariant(&self.rpc.provide);
            use_type_invariant(&self.topics.publish);
        }
        Self::resolve_space(&self.rpc.provide, &mut self.resolved_rpc_ids, true);
        Self::resolve_space(&self.topics.publish, &mut self.resolved_topic_ids, false);
        proof {
            let pn = self.rpc.provide.elems();
            let pi = assign_ids(pn, true);
            let tn = self.topics.publish.elems();
            let ti = assign_ids(tn, false);
            lemma_assign_ids_distinct_in_range(pn, true);
            lemma_assign_ids_distinct_in_range(tn, false);
            assert forall|i: int| 0 <= i < pn.len() implies #[trigger] self.resolved_rpc_ids.map().dom().contains(
                pn[i],
            ) && self.resolved_rpc_ids.map()[pn[i]] == pi[i] by {
                lemma_insert_all_lookup(old(self).resolved_rpc_ids.map(), pn, pi, i);
            }
            assert forall|i: int| 0 <= i < tn.len() implies #[trigger] self.resolved_topic_ids.map().dom().contains(
                tn[i],
            ) && self.resolved_topic_ids.map()[tn[i]] == ti[i] by {
                lemma_insert_all_lookup(old(self).resolved_topic_ids.map(), tn, ti, i);
            }
            assert forall|i: int, j: int|
                0 <= i < pn.len() && 0 <= j < pn.len() && i != j implies self.resolved_rpc_ids.map()[#[trigger] pn[i]]
                != self.resolved_rpc_ids.map()[#[trigger] pn[j]] by {
                assert(self.resolved_rpc_ids.map().dom().contains(pn[i]));
                assert(self.resolved_rpc_ids.map().dom().contains(pn[j]));
            }
            assert forall|i: int, j: int|
                0 <= i < tn.len() && 0 <= j < tn.len() && i != j implies self.resolved_topic_ids.map()[#[trigger] tn[i]]
                != self.resolved_topic_ids.map()[#[trigger] tn[j]] by {
                assert(self.resolved_topic_ids.map().dom().contains(tn[i]));
                assert(self.resolved_topic_ids.map().dom().contains(tn[j]));
            }
            assert forall|i: int| 0 <= i < pn.len() implies #[trigger] self.resolved_rpc_ids.map().dom().contains(pn[i])
                && 1 <= self.resolved_rpc_ids.map()[pn[i]] <= 0x7FFF by {
                lemma_insert_all_lookup(old(self).resolved_rpc_ids.map(), pn, pi, i);
                assert(rpc_lo() <= pi[i] <= rpc_hi());
            }
            assert(all_resolved_distinct(self.resolved_rpc_ids.map(), pn, 1, 0x7FFF));
            assert forall|i: int| 0 <= i < tn.len() implies #[trigger] self.resolved_topic_ids.map().dom().contains(tn[i])
                && 0x8000 <= self.resolved_topic_ids.map()[tn[i]] <= 0xFFFF by {
                lemma_insert_all_lookup(old(self).resolved_topic_ids.map(), tn, ti, i);
                assert(topic_lo() <= ti[i]);
            }
            assert(all_resolved_distinct(self.resolved_topic_ids.map(), tn, 0x8000, 0xFFFF));
            if old(self).ids_in_range() {
                lemma_insert_all_range(old(self).resolved_rpc_ids.map(), pn, pi, 1, 0x7FFF);
                lemma_insert_all_range(old(self).resolved_topic_ids.map(), tn, ti, 0x8000, 0xFFFF);
            }
        }
    }
}

impl ManifestConfig {
    // ── Lookup helpers ─────────────────────────────────────────

    /// Checks if a given RPC method name (trimmed) is declared in the `provide` section.
    pub fn is_rpc_provided(&self, name: &str) -> (b: bool)
        ensures
            b == self.rpc.provide.to_set().contains(spec_trim(name@)),
    {
        let t = trim(name);
        self.rpc.provide.contains(t.as_str())
    }

    /// Checks if a given RPC method name (trimmed) is declared in the `consume` section.
    pub fn is_rpc_consumed(&self, name: &str) -> (b: bool)
        ensures
            b == self.rpc.consume.to_set().contains(spec_trim(name@)),
    {
        let t = trim(name);
        self.rpc.consume.contains(t.as_str())
    }

    /// Checks if a given topic name (trimmed) is declared in the `publish` section.
    pub fn is_topic_published(&self, name: &str) -> (b: bool)
        ensures
            b == self.topics.publish.to_set().contains(spec_trim(name@)),
    {
        let t = trim(name);
        self.topics.publish.contains(t.as_str())
    }

    /// Checks if a given topic name (trimmed) is declared in the `subscribe` section.
    pub fn is_topic_subscribed(&self, name: &str) -> (b: bool)
        ensures
            b == self.topics.subscribe.to_set().contains(spec_trim(name@)),
    {
        let t = trim(name);
        self.topics.subscribe.contains(t.as_str())
    }

    // ── ID generation ──────────────────────────────────────────

    /// Returns the method ID of an RPC name: the resolved one if the name has one,
    /// otherwise the hash-derived candidate in `[0x0001, 0x7FFF]`.
    pub fn method_id_for(&self, logical_method: &str) -> (id: u16)
        ensures
            id == spec_method_id(self.resolved_rpc_ids.map(), logical_method@),
            self.rpc_ids_in_range() ==> 1 <= id <= 0x7FFF,
    {
        if let Some(id) = self.resolved_rpc_ids.get(logical_method) {
            return *id;
        }
        let id = stable_id16("rpc", logical_method) & 0x7FFF;
        proof {
            let x = spec_stable_id16("rpc"@, logical_method@);
            assert(x & 0x7FFFu16 <= 0x7FFF) by (bit_vector);
        }
        if id == 0 {
            1
        } else {
            id
        }
    }

    /// Returns the resource ID of a topic name: the resolved one if the name has one,
    /// otherwise the hash-derived candidate in `[0x8000, 0xFFFF]`.
    pub fn resource_id_for(&self, logical_topic: &str) -> (id: u16)
        ensures
            id == spec_resource_id(self.resolved_topic_ids.map(), logical_topic@),
            self.topic_ids_in_range() ==> 0x8000 <= id,
    {
        if let Some(id) = self.resolved_topic_ids.get(logical_topic) {
            return *id;
        }
        proof {
            let x = spec_stable_id16("topic"@, logical_topic@);
            assert(x | 0x8000u16 >= 0x8000) by (bit_vector);
        }
        stable_id16("topic", logical_topic) | 0x8000
    }

    // ── Collision detection ────────────────────────────────────

    /// Kept for the start-up flow: collisions are resolved when identifiers are stored,
    /// so this check always succeeds.
    pub fn validate_no_collisions(&self) -> (r: Result<(), PacomError>)
        ensures
            r is Ok,
    {
        Ok(())
    }
}

/// Pairwise distinct values inside `[lo, hi]` are at most `hi - lo + 1`.
proof fn lemma_distinct_in_range_len(ids: Seq<int>, lo: int, hi: int)
    requires
        lo <= hi,
        forall|i: int, j: int| 0 <= i < ids.len() && 0 <= j < ids.len() && i != j ==> ids[i] != ids[j],
        forall|i: int| 0 <= i < ids.len() ==> lo <= #[trigger] ids[i] <= hi,
    ensures
        ids.len() <= hi - lo + 1,
{
    assert(ids.no_duplicates());
    ids.unique_seq_to_set();
    let r = set_int_range(lo, hi + 1);
    lemma_int_range(lo, hi + 1);
    assert(ids.to_set().subset_of(r)) by {
        assert forall|x: int| ids.to_set().contains(x) implies r.contains(x) by {
            let k = choose|k: int| 0 <= k < ids.len() && ids[k] == x;
        }
    }
    lemma_len_subset(ids.to_set(), r);
}

/// Without collisions, resolution keeps every name's hash-derived identifier: when no two
/// provided methods share a hash-derived candidate, there are few enough of them for
/// resolution to run, and each keeps its candidate after resolution (`method_id_for` gives
/// what it gave before anything was resolved); likewise for published topics.
pub proof fn law_no_collision_keeps_hash_ids(m: ManifestConfig)
    requires
        m.rpc.provide.inv(),
        m.topics.publish.inv(),
        forall|i: int, j: int|
            0 <= i < m.rpc.provide.elems().len() && 0 <= j < m.rpc.provide.elems().len() && i != j
                ==> spec_method_id(Map::empty(), #[trigger] m.rpc.provide.elems()[i]) != spec_method_id(
                Map::empty(),
                #[trigger] m.rpc.provide.elems()[j],
            ),
        forall|i: int, j: int|
            0 <= i < m.topics.publish.elems().len() && 0 <= j < m.topics.publish.elems().len() && i != j
                ==> spec_resource_id(Map::empty(), #[trigger] m.topics.publish.elems()[i])
                != spec_resource_id(Map::empty(), #[trigger] m.topics.publish.elems()[j]),
    ensures
        m.rpc.provide.elems().len() <= 0x7FFF,
        m.topics.publish.elems().len() <= 0x8000,
        forall|i: int|
            0 <= i < m.rpc.provide.elems().len() ==> spec_method_id(
                insert_all(
                    m.resolved_rpc_ids.map(),
                    m.rpc.provide.elems(),
                    assign_ids(m.rpc.provide.elems(), true),
                ),
                #[trigger] m.rpc.provide.elems()[i],
            ) == spec_method_id(Map::empty(), m.rpc.provide.elems()[i]),
        forall|i: int|
            0 <= i < m.topics.publish.elems().len() ==> spec_resource_id(
                insert_all(
                    m.resolved_topic_ids.map(),
                    m.topics.publish.elems(),
                    assign_ids(m.topics.publish.elems(), false),
                ),
                #[trigger] m.topics.publish.elems()[i],
            ) == spec_resource_id(Map::empty(), m.topics.publish.elems()[i]),
{
    let p = m.rpc.provide.elems();
    let t = m.topics.publish.elems();
    assert forall|i: int, j: int| 0 <= i < p.len() && 0 <= j < p.len() && i != j implies rpc_base(
        #[trigger] p[i],
    ) != rpc_base(#[trigger] p[j]) by {
        assert(spec_method_id(Map::empty(), p[i]) == rpc_base(p[i]));
        assert(spec_method_id(Map::empty(), p[j]) == rpc_base(p[j]));
    }
    assert forall|i: int, j: int| 0 <= i < t.len() && 0 <= j < t.len() && i != j implies topic_base(
        #[trigger] t[i],
    ) != topic_base(#[trigger] t[j]) by {
        assert(spec_resource_id(Map::empty(), t[i]) == topic_base(t[i]));
        assert(spec_resource_id(Map::empty(), t[j]) == topic_base(t[j]));
    }
    lemma_assign_ids_no_collision(p, true);
    lemma_assign_ids_no_collision(t, false);
    let pi = p.map_values(|n: Seq<char>| rpc_base(n) as int);
    assert forall|i: int| 0 <= i < pi.len() implies 1 <= #[trigger] pi[i] <= 0x7FFF by {
        let b = spec_stable_id16("rpc"@, p[i]);
        assert(b & 0x7FFFu16 <= 0x7FFF) by (bit_vector);
    }
    lemma_distinct_in_range_len(pi, 1, 0x7FFF);
    let ti = t.map_values(|n: Seq<char>| topic_base(n) as int);
    assert forall|i: int| 0 <= i < ti.len() implies 0x8000 <= #[trigger] ti[i] <= 0xFFFF by {
        let b = spec_stable_id16("topic"@, t[i]);
        assert(b | 0x8000u16 >= 0x8000) by (bit_vector);
    }
    lemma_distinct_in_range_len(ti, 0x8000, 0xFFFF);
    assert forall|i: int| 0 <= i < p.len() implies spec_method_id(
        insert_all(m.resolved_rpc_ids.map(), p, assign_ids(p, true)),
        #[trigger] p[i],
    ) == spec_method_id(Map::empty(), p[i]) by {
        lemma_insert_all_lookup(m.resolved_rpc_ids.map(), p, assign_ids(p, true), i);
    }
    assert forall|i: int| 0 <= i < t.len() implies spec_resource_id(
        insert_all(m.resolved_topic_ids.map(), t, assign_ids(t, false)),
        #[trigger] t[i],
    ) == spec_resource_id(Map::empty(), t[i]) by {
        lemma_insert_all_lookup(m.resolved_topic_ids.map(), t, assign_ids(t, false), i);
    }
}

/// The method and topic identifier spaces never meet: whatever the names, the identifier
/// `method_id_for` gives a method differs from the one `resource_id_for` gives a topic, as
/// long as the stored identifiers lie in their spaces.
pub proof fn law_id_spaces_disjoint(m: ManifestConfig, method: Seq<char>, topic: Seq<char>)
    requires
        m.ids_in_range(),
    ensures
        1 <= spec_method_id(m.resolved_rpc_ids.map(), method) <= 0x7FFF,
        0x8000 <= spec_resource_id(m.resolved_topic_ids.map(), topic),
        spec_method_id(m.resolved_rpc_ids.map(), method) != spec_resource_id(
            m.resolved_topic_ids.map(),
            topic,
        ),
{
    let x = spec_stable_id16("rpc"@, method);
    let y = spec_stable_id16("topic"@, topic);
    assert(x & 0x7FFFu16 <= 0x7FFF) by (bit_vector);
    assert(y | 0x8000u16 >= 0x8000) by (bit_vector);
    if m.resolved_rpc_ids.map().dom().contains(method) {
        assert(1 <= m.resolved_rpc_ids.map()[method] <= 0x7FFF);
    }
    if m.resolved_topic_ids.map().dom().contains(topic) {
        assert(0x8000 <= m.resolved_topic_ids.map()[topic]);
    }
}

} // verus!
