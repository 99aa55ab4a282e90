//! Ordered symbol tables keyed by lowercase identifiers, and the
//! two-level lookup that resolves a symbol for an identifier.

use indexmap::IndexMap;
use std::collections::hash_map::RandomState;
use vstd::prelude::*;

verus! {

#[verifier::external_type_specification]
#[verifier::external_body]
#[verifier::reject_recursive_types(K)]
#[verifier::reject_recursive_types(V)]
#[verifier::reject_recursive_types(S)]
pub struct ExIndexMap<K, V, S>(IndexMap<K, V, S>);

/// A symbol table: identifier to display symbol, in insertion order.
pub type SymbolMap = IndexMap<String, String, RandomState>;

/// What a symbol table holds, key to value.
pub uninterp spec fn map_contents(m: SymbolMap) -> Map<Seq<char>, Seq<char>>;

/// The keys of a symbol table, in the table's order.
pub uninterp spec fn map_keys(m: SymbolMap) -> Seq<Seq<char>>;

/// The lowercase form of a string, as `str::to_lowercase` computes it.
pub uninterp spec fn lower_of(s: Seq<char>) -> Seq<char>;

/// Keys are distinct, and exactly the keys of the contents.
pub open spec fn map_wf(m: SymbolMap) -> bool {
    &&& map_keys(m).no_duplicates()
    &&& forall|k: Seq<char>| #[trigger] map_contents(m).contains_key(k) <==> map_keys(m).contains(k)
}

/// The table's entries as (key, value) pairs, in the table's order.
pub open spec fn map_pairs(m: SymbolMap) -> Seq<(Seq<char>, Seq<char>)> {
    map_keys(m).map_values(|k: Seq<char>| (k, map_contents(m)[k]))
}

/// The view of an optional string.
pub open spec fn opt_view(o: Option<String>) -> Option<Seq<char>> {
    match o {
        Some(s) => Some(s@),
        None => None,
    }
}

/// The view of an optional pair of strings.
pub open spec fn pair_view(o: Option<(String, String)>) -> Option<(Seq<char>, Seq<char>)> {
    match o {
        Some(p) => Some((p.0@, p.1@)),
        None => None,
    }
}

/// The table that results from inserting each pair in turn under the
/// lowercase form of its key: a later pair replaces an earlier one whose
/// key has the same lowercase form.
pub open spec fn lowered(pairs: Seq<(Seq<char>, Seq<char>)>) -> Map<Seq<char>, Seq<char>>
    decreases pairs.len(),
{
    if pairs.len() == 0 {
        Map::empty()
    } else {
        let last = pairs.last();
        lowered(pairs.drop_last()).insert(lower_of(last.0), last.1)
    }
}

/// The keys of `lowered(pairs)` in table order: each lowercase form where
/// it first occurs.
pub open spec fn lowered_keys(pairs: Seq<(Seq<char>, Seq<char>)>) -> Seq<Seq<char>>
    decreases pairs.len(),
{
    if pairs.len() == 0 {
        Seq::empty()
    } else {
        let rest = pairs.drop_last();
        let k = lower_of(pairs.last().0);
        if lowered(rest).contains_key(k) {
            lowered_keys(rest)
        } else {
            lowered_keys(rest).push(k)
        }
    }
}

/// The value looked up in `m` under `k`, if any.
pub open spec fn lookup(m: Map<Seq<char>, Seq<char>>, k: Seq<char>) -> Option<Seq<char>> {
    if m.contains_key(k) {
        Some(m[k])
    } else {
        None
    }
}

/// The symbol for `id`: the user's entry under its lowercase form if there
/// is one (an empty symbol included), else the default entry, else none.
pub open spec fn resolve(
    id: Seq<char>,
    user: Map<Seq<char>, Seq<char>>,
    defaults: Map<Seq<char>, Seq<char>>,
) -> Option<Seq<char>> {
    let k = lower_of(id);
    if user.contains_key(k) {
        Some(user[k])
    } else {
        lookup(defaults, k)
    }
}

/// Relies on `str::to_lowercase`: the result depends on the characters alone.
#[verifier::external_body]
pub(crate) fn lowercase(s: &str) -> (r: String)
    ensures
        r@ == lower_of(s@),
{
    s.to_lowercase()
}

/// Relies on `IndexMap::new`: the new map is empty.
#[verifier::external_body]
pub(crate) fn map_new() -> (r: SymbolMap)
    ensures
        map_contents(r) =~= Map::empty(),
        map_keys(r) =~= Seq::empty(),
{
    IndexMap::new()
}

/// Relies on `IndexMap::insert`: an existing key keeps its place and takes
/// the new value; a new key goes last.
#[verifier::external_body]
pub(crate) fn map_insert(m: &mut SymbolMap, k: String, v: String)
    ensures
        map_contents(*final(m)) == map_contents(*old(m)).insert(k@, v@),
        map_keys(*final(m)) == if map_contents(*old(m)).contains_key(k@) {
            map_keys(*old(m))
        } else {
            map_keys(*old(m)).push(k@)
        },
        map_wf(*old(m)) ==> map_wf(*final(m)),
{
    m.insert(k, v);
}

/// Relies on `IndexMap::get`: the value stored under the key, if any.
#[verifier::external_body]
pub(crate) fn map_get(m: &SymbolMap, k: &str) -> (r: Option<String>)
    ensures
        opt_view(r) == lookup(map_contents(*m), k@),
{
    m.get(k).cloned()
}

/// Relies on `IndexMap::len`: the number of entries.
#[verifier::external_body]
pub(crate) fn map_len(m: &SymbolMap) -> (r: usize)
    ensures
        r == map_keys(*m).len(),
{
    m.len()
}

/// Relies on `IndexMap::get_index`: the entry at a position in the order.
#[verifier::external_body]
pub(crate) fn map_get_index(m: &SymbolMap, i: usize) -> (r: Option<(String, String)>)
    ensures
        i < map_keys(*m).len() ==> pair_view(r) == Some(map_pairs(*m)[i as int]),
        r.is_some() == (i < map_keys(*m).len()),
{
    m.get_index(i).map(|(k, v)| (k.clone(), v.clone()))
}

/// A new table holding every entry of `raw` under the lowercase form of its
/// key, with the value unchanged. Where two keys of `raw` have the same
/// lowercase form, the one later in `raw`'s order gives the value.
pub fn normalize_symbols(raw: &SymbolMap) -> (r: SymbolMap)
    ensures
        map_contents(r) == lowered(map_pairs(*raw)),
        map_keys(r) == lowered_keys(map_pairs(*raw)),
        map_wf(r),
{
    let n = map_len(raw);
    let mut out = map_new();
    let mut i: usize = 0;
    while i < n
        invariant
            n == map_keys(*raw).len(),
            i <= n,
            map_contents(out) == lowered(map_pairs(*raw).take(i as int)),
            map_keys(out) == lowered_keys(map_pairs(*raw).take(i as int)),
            map_wf(out),
        decreases n - i,
    {
        let entry = map_get_index(raw, i);
        let (k, v) = match entry {
            Some(p) => p,
            None => {
                assert(false);
                return out;
            }
        };
        let key = lowercase(k.as_str());
        map_insert(&mut out, key, v);
        proof {
            let ps = map_pairs(*raw);
            assert(ps.take(i as int + 1).drop_last() =~= ps.take(i as int));
        }
        i = i + 1;
    }
    proof {
        assert(map_pairs(*raw).take(n as int) =~= map_pairs(*raw));
    }
    out
}

/// Among pairs whose keys have the same lowercase form, the last one gives
/// the value that the built table holds under that form.
pub proof fn lemma_last_write_wins(pairs: Seq<(Seq<char>, Seq<char>)>, j: int)
    requires
        0 <= j < pairs.len(),
        forall|l: int| j < l < pairs.len() ==> lower_of(#[trigger] pairs[l].0) != lower_of(pairs[j].0),
    ensures
        lowered(pairs).contains_key(lower_of(pairs[j].0)),
        lowered(pairs)[lower_of(pairs[j].0)] == pairs[j].1,
    decreases pairs.len(),
{
    if j < pairs.len() - 1 {
        let rest = pairs.drop_last();
        assert forall|l: int| j < l < rest.len() implies lower_of(#[trigger] rest[l].0) != lower_of(rest[j].0) by {
            assert(rest[l] == pairs[l]);
        }
        lemma_last_write_wins(rest, j);
        assert(rest[j] == pairs[j]);
    }
}

/// When two keys of a raw table have the same lowercase form (such as `Arch`
/// and `arch`), the normalized table holds one entry under that form, with
/// the value of the key that comes later in the raw table's order (given
/// that no key after it has that form too).
pub proof fn lemma_collision_later_wins(raw: SymbolMap, i: int, j: int)
    requires
        0 <= i < j < map_keys(raw).len(),
        lower_of(map_keys(raw)[i]) == lower_of(map_keys(raw)[j]),
        forall|l: int| j < l < map_keys(raw).len() ==> lower_of(#[trigger] map_keys(raw)[l]) != lower_of(map_keys(raw)[j]),
    ensures
        lowered(map_pairs(raw)).contains_key(lower_of(map_keys(raw)[i])),
        lowered(map_pairs(raw))[lower_of(map_keys(raw)[i])] == map_contents(raw)[map_keys(raw)[j]],
{
    let ps = map_pairs(raw);
    assert forall|l: int| j < l < ps.len() implies lower_of(#[trigger] ps[l].0) != lower_of(ps[j].0) by {
        assert(ps[l].0 == map_keys(raw)[l]);
    }
    lemma_last_write_wins(ps, j);
}

/// Tables built from pairs that differ only in the casing of their keys are
/// the same table, and give the same symbol for every identifier, in any
/// casing of it.
pub proof fn lemma_casing_irrelevant(
    p1: Seq<(Seq<char>, Seq<char>)>,
    p2: Seq<(Seq<char>, Seq<char>)>,
    id1: Seq<char>,
    id2: Seq<char>,
    defaults: Map<Seq<char>, Seq<char>>,
)
    requires
        p1.len() == p2.len(),
        forall|i: int| 0 <= i < p1.len() ==> lower_of(#[trigger] p1[i].0) == lower_of(p2[i].0) && p1[i].1 == p2[i].1,
        lower_of(id1) == lower_of(id2),
    ensures
        lowered(p1) == lowered(p2),
        resolve(id1, lowered(p1), defaults) == resolve(id2, lowered(p2), defaults),
    decreases p1.len(),
{
    if p1.len() > 0 {
        let (r1, r2) = (p1.drop_last(), p2.drop_last());
        assert forall|i: int| 0 <= i < r1.len() implies lower_of(#[trigger] r1[i].0) == lower_of(r2[i].0) && r1[i].1 == r2[i].1 by {
            assert(r1[i] == p1[i] && r2[i] == p2[i]);
        }
        lemma_casing_irrelevant(r1, r2, id1, id2, defaults);
        assert(lower_of(p1.last().0) == lower_of(p2.last().0));
    }
}

/// A user entry for an identifier wins over the default entry, an empty
/// symbol included.
pub proof fn lemma_override_precedence(
    id: Seq<char>,
    user: Map<Seq<char>, Seq<char>>,
    defaults: Map<Seq<char>, Seq<char>>,
)
    requires
        user.contains_key(lower_of(id)),
    ensures
        resolve(id, user, defaults) == Some(user[lower_of(id)]),
{
}

} // verus!
