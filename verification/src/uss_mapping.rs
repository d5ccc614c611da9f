//! The field-id → USS-id mapping cache.
//!
//! A player answers a dropdown question with the option's name; USS stores
//! the option's numeric id. The cache maps `"{FIELD_ID}:{FIELD_NAME}"` to that
//! id, as text, and is refreshed from the mapping table.
use vstd::prelude::*;
use dashmap::DashMap;
use crate::text::{concat, contains_text, push_char, i64_text, int_text};

verus! {

#[verifier::external_type_specification]
#[verifier::external_body]
#[verifier::reject_recursive_types(K)]
#[verifier::reject_recursive_types(V)]
#[verifier::reject_recursive_types(S)]
pub struct ExDashMap<K, V, S>(DashMap<K, V, S>);

/// What a `DashMap<String, String>` holds, keys and values by their text.
pub uninterp spec fn text_map_contents(m: DashMap<String, String>) -> Map<Seq<char>, Seq<char>>;

/// `DashMap::new`: an empty map.
#[verifier::external_body]
fn text_map_new() -> (r: DashMap<String, String>)
    ensures
        text_map_contents(r) =~= Map::empty(),
{
    DashMap::new()
}

/// `DashMap::insert`: afterwards `key` maps to `value`, other keys keep theirs.
#[verifier::external_body]
fn text_map_insert(m: &mut DashMap<String, String>, key: String, value: String)
    ensures
        text_map_contents(*final(m)) == text_map_contents(*old(m)).insert(key@, value@),
{
    m.insert(key, value);
}

/// `DashMap::remove`: afterwards `key` maps to nothing, other keys keep theirs.
#[verifier::external_body]
fn text_map_remove(m: &mut DashMap<String, String>, key: &str)
    ensures
        text_map_contents(*final(m)) == text_map_contents(*old(m)).remove(key@),
{
    m.remove(key);
}

/// `DashMap::get`, the value copied out.
#[verifier::external_body]
fn text_map_get(m: &DashMap<String, String>, key: &str) -> (r: Option<String>)
    ensures
        match r {
            Some(v) => text_map_contents(*m).dom().contains(key@) && v@ == text_map_contents(
                *m,
            )[key@],
            None => !text_map_contents(*m).dom().contains(key@),
        },
{
    m.get(key).map(|v| v.value().clone())
}

/// `DashMap::iter`, each entry's key copied out, in the map's own order.
#[verifier::external_body]
fn text_map_keys(m: &DashMap<String, String>) -> (r: Vec<String>)
    ensures
        forall|i: int| 0 <= i < r.len() ==> text_map_contents(*m).dom().contains(#[trigger] r@[i]@),
        forall|k: Seq<char>|
            text_map_contents(*m).dom().contains(k) ==> exists|i: int|
                0 <= i < r.len() && #[trigger] r@[i]@ == k,
{
    m.iter().map(|e| e.key().clone()).collect()
}

/// A row of the field-id → USS-id mapping table.
pub struct FieldIdUssMapping {
    pub id: i64,
    pub mcs_id: i64,
    pub field_id: String,
    pub field_name: String,
    pub uss_id: i32,
}

/// The cache key `"{field_id}:{field_name}"`.
pub open spec fn mapping_key(field_id: Seq<char>, field_name: Seq<char>) -> Seq<char> {
    field_id + seq![':'] + field_name
}

/// What the cache holds after loading `rows`, later rows winning.
pub open spec fn rows_map(rows: Seq<FieldIdUssMapping>) -> Map<Seq<char>, Seq<char>>
    decreases rows.len(),
{
    if rows.len() == 0 {
        Map::empty()
    } else {
        let r = rows.last();
        rows_map(rows.drop_last()).insert(
            mapping_key(r.field_id@, r.field_name@),
            int_text(r.uss_id as int),
        )
    }
}

fn mapping_key_text(field_id: &str, field_name: &str) -> (r: String)
    ensures
        r@ == mapping_key(field_id@, field_name@),
{
    let mut r = concat(field_id, "");
    push_char(&mut r, ':');
    r.append(field_name);
    proof {
        reveal_strlit("");
        assert(r@ =~= mapping_key(field_id@, field_name@));
    }
    r
}

/// The key under which the loader stores a mapping row.
fn build_uss_mapping_key(field_id: &str, field_name: &str) -> (r: String)
    ensures
        r@ == mapping_key(field_id@, field_name@),
{
    mapping_key_text(field_id, field_name)
}

/// The key under which scoring looks up a submitted answer.
pub fn build_field_id_uss_id_mapping_key(field_id: &str, field_name: &str) -> (r: String)
    ensures
        r@ == mapping_key(field_id@, field_name@),
{
    mapping_key_text(field_id, field_name)
}

/// The cache, shared by the loader and by scoring.
pub struct UssMappingCache {
    map: DashMap<String, String>,
}

impl UssMappingCache {
    /// What the cache holds, by key.
    pub closed spec fn contents(&self) -> Map<Seq<char>, Seq<char>> {
        text_map_contents(self.map)
    }

    /// An empty cache.
    pub fn new() -> (r: UssMappingCache)
        ensures
            r.contents() == Map::<Seq<char>, Seq<char>>::empty(),
    {
        UssMappingCache { map: text_map_new() }
    }

    /// Loads all `rows` and drops every key that none of them has.
    pub fn refresh(&mut self, rows: &Vec<FieldIdUssMapping>)
        ensures
            final(self).contents() == rows_map(rows@),
    {
        let mut fresh: Vec<String> = Vec::new();
        let mut i: usize = 0;
        while i < rows.len()
            invariant
                i <= rows.len(),
                forall|k: Seq<char>|
                    rows_map(rows@.subrange(0, i as int)).dom().contains(k) ==> #[trigger] text_map_contents(self.map).dom().contains(k)
                        && text_map_contents(self.map)[k] == rows_map(rows@.subrange(0, i as int))[k],
                forall|k: Seq<char>|
                    rows_map(rows@.subrange(0, i as int)).dom().contains(k) <==> exists|j: int|
                        0 <= j < fresh.len() && #[trigger] fresh@[j]@ == k,
            decreases rows.len() - i,
        {
            let row = &rows[i];
            let key = build_uss_mapping_key(row.field_id.as_str(), row.field_name.as_str());
            let value = i64_text(row.uss_id as i64);
            let key2 = key.clone();
            let ghost pre = rows_map(rows@.subrange(0, i as int));
            let ghost old_fresh = fresh@;
            let ghost old_contents = text_map_contents(self.map);
            proof {
                assert(rows@.subrange(0, (i + 1) as int).drop_last() =~= rows@.subrange(0, i as int));
                assert(rows@.subrange(0, (i + 1) as int).last() == rows@[i as int]);
            }
            let ghost post = rows_map(rows@.subrange(0, (i + 1) as int));
            assert(post == pre.insert(key2@, value@));
            text_map_insert(&mut self.map, key, value);
            fresh.push(key2);
            proof {
                assert forall|k: Seq<char>| post.dom().contains(k) implies #[trigger] text_map_contents(self.map).dom().contains(k)
                    && text_map_contents(self.map)[k] == post[k] by {
                    if k != key2@ {
                        assert(pre.dom().contains(k));
                        assert(old_contents.dom().contains(k));
                    }
                }
                assert forall|k: Seq<char>| post.dom().contains(k) <==> exists|j: int|
                    0 <= j < fresh.len() && #[trigger] fresh@[j]@ == k by {
                    if post.dom().contains(k) {
                        if k == key2@ {
                            assert(fresh@[fresh.len() - 1]@ == k);
                        } else {
                            assert(pre.dom().contains(k));
                            let j = choose|j: int| 0 <= j < old_fresh.len() && #[trigger] old_fresh[j]@ == k;
                            assert(fresh@[j] == old_fresh[j]);
                            assert(fresh@[j]@ == k);
                        }
                    }
                    if exists|j: int| 0 <= j < fresh.len() && #[trigger] fresh@[j]@ == k {
                        let j = choose|j: int| 0 <= j < fresh.len() && #[trigger] fresh@[j]@ == k;
                        if j < old_fresh.len() {
                            assert(fresh@[j] == old_fresh[j]);
                            assert(pre.dom().contains(k));
                        }
                    }
                }
            }
            i = i + 1;
        }
        assert(rows@.subrange(0, rows.len() as int) =~= rows@);
        let ghost target = rows_map(rows@);
        let keys = text_map_keys(&self.map);
        let mut j: usize = 0;
        while j < keys.len()
            invariant
                j <= keys.len(),
                target == rows_map(rows@),
                forall|k: Seq<char>| target.dom().contains(k) <==> exists|m: int|
                    0 <= m < fresh.len() && #[trigger] fresh@[m]@ == k,
                forall|k: Seq<char>|
                    target.dom().contains(k) ==> #[trigger] text_map_contents(self.map).dom().contains(k)
                        && text_map_contents(self.map)[k] == target[k],
                forall|k: Seq<char>|
                    #[trigger] text_map_contents(self.map).dom().contains(k) ==> target.dom().contains(k)
                        || exists|m: int| j <= m < keys.len() && keys@[m]@ == k,
            decreases keys.len() - j,
        {
            let k = &keys[j];
            let ghost before = text_map_contents(self.map);
            if !contains_text(&fresh, k.as_str()) {
                assert(!target.dom().contains(k@));
                text_map_remove(&mut self.map, k.as_str());
                assert forall|q: Seq<char>| target.dom().contains(q) implies #[trigger] text_map_contents(self.map).dom().contains(q)
                    && text_map_contents(self.map)[q] == target[q] by {
                    assert(q != k@);
                    assert(before.dom().contains(q));
                }
            }
            assert(forall|q: Seq<char>|
                target.dom().contains(q) ==> #[trigger] text_map_contents(self.map).dom().contains(q)
                    && text_map_contents(self.map)[q] == target[q]);
            proof {
                assert forall|q: Seq<char>|
                    #[trigger] text_map_contents(self.map).dom().contains(q) implies target.dom().contains(q)
                        || exists|m: int| j + 1 <= m < keys.len() && keys@[m]@ == q by {
                    if !target.dom().contains(q) {
                        let m = choose|m: int| j <= m < keys.len() && keys@[m]@ == q;
                        if m == j {
                            assert(false);
                        }
                    }
                }
            }
            j = j + 1;
        }
        assert(text_map_contents(self.map) =~= target);
    }

    /// Stores one mapping.
    pub fn set(&mut self, field_id: &str, field_name: &str, uss_id: i32)
        ensures
            final(self).contents() == old(self).contents().insert(
                mapping_key(field_id@, field_name@),
                int_text(uss_id as int),
            ),
    {
        let key = build_uss_mapping_key(field_id, field_name);
        let value = i64_text(uss_id as i64);
        text_map_insert(&mut self.map, key, value);
    }

    /// The USS id stored for the answer `field_name` to `field_id`.
    pub fn get(&self, field_id: &str, field_name: &str) -> (r: Option<String>)
        ensures
            match r {
                Some(v) => self.contents().dom().contains(mapping_key(field_id@, field_name@))
                    && v@ == self.contents()[mapping_key(field_id@, field_name@)],
                None => !self.contents().dom().contains(mapping_key(field_id@, field_name@)),
            },
    {
        let key = build_field_id_uss_id_mapping_key(field_id, field_name);
        text_map_get(&self.map, key.as_str())
    }
}

/// After a mapping is stored, the cache answers its key with the USS id and
/// every other key as before.
pub proof fn lemma_uss_mapping_read_back(before: UssMappingCache, after: UssMappingCache, field_id: Seq<char>, field_name: Seq<char>, uss_id: i32)
    requires
        after.contents() == before.contents().insert(mapping_key(field_id, field_name), int_text(uss_id as int)),
    ensures
        after.contents().dom().contains(mapping_key(field_id, field_name)),
        after.contents()[mapping_key(field_id, field_name)] == int_text(uss_id as int),
        forall|k: Seq<char>|
            k != mapping_key(field_id, field_name) ==> (#[trigger] after.contents().dom().contains(k) <==> before.contents().dom().contains(k)),
        forall|k: Seq<char>|
            k != mapping_key(field_id, field_name) && before.contents().dom().contains(k) ==> #[trigger] after.contents()[k]
                == before.contents()[k],
{
}

/// What the cache holds after storing each of `stores` in turn, each a
/// field id, an answer and a USS id, as `set` stores them.
pub open spec fn after_stores(
    contents: Map<Seq<char>, Seq<char>>,
    stores: Seq<(Seq<char>, Seq<char>, i32)>,
) -> Map<Seq<char>, Seq<char>>
    decreases stores.len(),
{
    if stores.len() == 0 {
        contents
    } else {
        let w = stores.last();
        after_stores(contents, stores.drop_last()).insert(mapping_key(w.0, w.1), int_text(w.2 as int))
    }
}

/// Once a mapping is stored, later stores under other keys leave it in
/// place: a lookup of its key still gives the stored USS id.
pub proof fn lemma_stored_mapping_survives_other_stores(
    before: UssMappingCache,
    stored: UssMappingCache,
    last: UssMappingCache,
    field_id: Seq<char>,
    field_name: Seq<char>,
    uss_id: i32,
    stores: Seq<(Seq<char>, Seq<char>, i32)>,
)
    requires
        stored.contents() == before.contents().insert(mapping_key(field_id, field_name), int_text(uss_id as int)),
        forall|i: int| 0 <= i < stores.len() ==> mapping_key(#[trigger] stores[i].0, stores[i].1) != mapping_key(field_id, field_name),
        last.contents() == after_stores(stored.contents(), stores),
    ensures
        last.contents().dom().contains(mapping_key(field_id, field_name)),
        last.contents()[mapping_key(field_id, field_name)] == int_text(uss_id as int),
{
    lemma_after_stores_keeps(stored.contents(), mapping_key(field_id, field_name), int_text(uss_id as int), stores);
}

proof fn lemma_after_stores_keeps(
    contents: Map<Seq<char>, Seq<char>>,
    k: Seq<char>,
    v: Seq<char>,
    stores: Seq<(Seq<char>, Seq<char>, i32)>,
)
    requires
        contents.dom().contains(k),
        contents[k] == v,
        forall|i: int| 0 <= i < stores.len() ==> mapping_key(#[trigger] stores[i].0, stores[i].1) != k,
    ensures
        after_stores(contents, stores).dom().contains(k),
        after_stores(contents, stores)[k] == v,
    decreases stores.len(),
{
    if stores.len() > 0 {
        let rest = stores.drop_last();
        assert forall|i: int| 0 <= i < rest.len() implies mapping_key(#[trigger] rest[i].0, rest[i].1) != k by {
            assert(rest[i] == stores[i]);
        }
        lemma_after_stores_keeps(contents, k, v, rest);
        let w = stores[stores.len() - 1];
        assert(mapping_key(w.0, w.1) != k);
    }
}

/// After a reload, the cache holds exactly the keys of the loaded rows, each
/// with the USS id of its last row: keys no longer loaded are gone.
pub proof fn lemma_mapping_reload_keeps_only_loaded(rows: Seq<FieldIdUssMapping>, k: Seq<char>)
    ensures
        rows_map(rows).dom().contains(k) <==> exists|i: int|
            0 <= i < rows.len() && #[trigger] mapping_key(rows[i].field_id@, rows[i].field_name@) == k,
        rows_map(rows).dom().contains(k) ==> exists|i: int|
            0 <= i < rows.len() && #[trigger] mapping_key(rows[i].field_id@, rows[i].field_name@) == k
                && rows_map(rows)[k] == int_text(rows[i].uss_id as int)
                && forall|j: int| i < j < rows.len() ==> mapping_key(rows[j].field_id@, rows[j].field_name@) != k,
    decreases rows.len(),
{
    if rows.len() > 0 {
        let rest = rows.drop_last();
        lemma_mapping_reload_keeps_only_loaded(rest, k);
        let last = rows.len() - 1;
        if mapping_key(rows[last].field_id@, rows[last].field_name@) != k {
            if rows_map(rows).dom().contains(k) {
                let i = choose|i: int|
                    0 <= i < rest.len() && #[trigger] mapping_key(rest[i].field_id@, rest[i].field_name@) == k
                        && rows_map(rest)[k] == int_text(rest[i].uss_id as int)
                        && forall|j: int| i < j < rest.len() ==> mapping_key(rest[j].field_id@, rest[j].field_name@) != k;
                assert(rows[i] == rest[i]);
                assert forall|j: int| i < j < rows.len() implies mapping_key(rows[j].field_id@, rows[j].field_name@) != k by {
                    if j < rest.len() {
                        assert(rows[j] == rest[j]);
                    }
                }
            }
            if exists|i: int| 0 <= i < rows.len() && #[trigger] mapping_key(rows[i].field_id@, rows[i].field_name@) == k {
                let i = choose|i: int| 0 <= i < rows.len() && #[trigger] mapping_key(rows[i].field_id@, rows[i].field_name@) == k;
                assert(i < rest.len());
                assert(rest[i] == rows[i]);
            }
        }
    }
}

/// Stores one mapping in `cache`.
pub fn set_uss_mapping_config(cache: &mut UssMappingCache, field_id: &str, field_name: &str, uss_id: i32)
    ensures
        final(cache).contents() == old(cache).contents().insert(
            mapping_key(field_id@, field_name@),
            int_text(uss_id as int),
        ),
{
    cache.set(field_id, field_name, uss_id)
}

/// Looks up the USS id stored for the answer `field_name` to `field_id`.
pub fn get_uss_mapping_config_sync(cache: &UssMappingCache, field_id: &str, field_name: &str) -> (r: Option<String>)
    ensures
        match r {
            Some(v) => cache.contents().dom().contains(mapping_key(field_id@, field_name@))
                && v@ == cache.contents()[mapping_key(field_id@, field_name@)],
            None => !cache.contents().dom().contains(mapping_key(field_id@, field_name@)),
        },
{
    cache.get(field_id, field_name)
}

/// Whether `entries` lists exactly what `contents` holds: each entry is a
/// key of `contents` with its value, and each key has an entry.
pub open spec fn lists_mappings(entries: Seq<(String, String)>, contents: Map<Seq<char>, Seq<char>>) -> bool {
    &&& forall|i: int| 0 <= i < entries.len() ==> contents.dom().contains(#[trigger] entries[i].0@)
        && entries[i].1@ == contents[entries[i].0@]
    &&& forall|k: Seq<char>| contents.dom().contains(k) ==> exists|i: int| 0 <= i < entries.len() && #[trigger] entries[i].0@ == k
}

impl UssMappingCache {
    /// Every key with its USS id, in the map's own order.
    pub fn all(&self) -> (r: Vec<(String, String)>)
        ensures
            lists_mappings(r@, self.contents()),
    {
        let keys = text_map_keys(&self.map);
        let mut r: Vec<(String, String)> = Vec::new();
        let mut i: usize = 0;
        while i < keys.len()
            invariant
                i <= keys.len(),
                r.len() == i,
                forall|j: int| 0 <= j < keys.len() ==> text_map_contents(self.map).dom().contains(#[trigger] keys@[j]@),
                forall|j: int| 0 <= j < i ==> (#[trigger] r@[j]).0@ == keys@[j]@
                    && r@[j].1@ == text_map_contents(self.map)[keys@[j]@],
            decreases keys.len() - i,
        {
            let k = keys[i].clone();
            assert(text_map_contents(self.map).dom().contains(keys@[i as int]@));
            match text_map_get(&self.map, k.as_str()) {
                Some(v) => {
                    r.push((k, v));
                },
                None => {
                    assert(false);
                },
            }
            i = i + 1;
        }
        assert forall|k: Seq<char>| text_map_contents(self.map).dom().contains(k) implies exists|i: int|
            0 <= i < r.len() && #[trigger] r@[i].0@ == k by {
            let j = choose|j: int| 0 <= j < keys.len() && #[trigger] keys@[j]@ == k;
            assert(r@[j].0@ == k);
        }
        r
    }
}

/// A copy of the whole cache: every key with its USS id.
pub fn get_all_uss_mapping_configs(cache: &UssMappingCache) -> (r: Vec<(String, String)>)
    ensures
        lists_mappings(r@, cache.contents()),
{
    cache.all()
}

/// The handle of the start-up load of the mapping cache.
pub struct FieldIdUssMappingLoader {}

impl FieldIdUssMappingLoader {
    /// Stops the loader; later refreshes are driven by the scheduled jobs.
    pub fn stop(&self) {
    }
}

} // verus!
