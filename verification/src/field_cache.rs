//! The cache of each merchant's dropdown options, refreshed from the merchant
//! rules' template fields.
use vstd::prelude::*;
use std::sync::Arc;
use dashmap::DashMap;
use crate::questions::DropdownTable;
use crate::text::contains_text;

verus! {

/// What a dropdown cache holds: each merchant code's dropdown table.
pub uninterp spec fn dropdown_cache_contents(m: DashMap<String, Arc<DropdownTable>>) -> Map<Seq<char>, DropdownTable>;

/// `DashMap::new`: an empty map.
#[verifier::external_body]
fn dropdown_map_new() -> (r: DashMap<String, Arc<DropdownTable>>)
    ensures
        dropdown_cache_contents(r) =~= Map::empty(),
{
    DashMap::new()
}

/// `DashMap::insert`: afterwards `key` maps to the table, other keys keep theirs.
#[verifier::external_body]
fn dropdown_map_insert(m: &mut DashMap<String, Arc<DropdownTable>>, key: String, value: Arc<DropdownTable>)
    ensures
        dropdown_cache_contents(*final(m)) == dropdown_cache_contents(*old(m)).insert(key@, *value),
{
    m.insert(key, value);
}

/// `DashMap::remove`: afterwards `key` maps to nothing, other keys keep theirs.
#[verifier::external_body]
fn dropdown_map_remove(m: &mut DashMap<String, Arc<DropdownTable>>, key: &str)
    ensures
        dropdown_cache_contents(*final(m)) == dropdown_cache_contents(*old(m)).remove(key@),
{
    m.remove(key);
}

/// `DashMap::get`, the shared table handed out.
#[verifier::external_body]
fn dropdown_map_get(m: &DashMap<String, Arc<DropdownTable>>, key: &str) -> (r: Option<Arc<DropdownTable>>)
    ensures
        match r {
            Some(t) => dropdown_cache_contents(*m).dom().contains(key@) && *t == dropdown_cache_contents(
                *m,
            )[key@],
            None => !dropdown_cache_contents(*m).dom().contains(key@),
        },
{
    m.get(key).map(|v| Arc::clone(v.value()))
}

/// `DashMap::iter`, each entry's key copied out, in the map's own order.
#[verifier::external_body]
fn dropdown_map_keys(m: &DashMap<String, Arc<DropdownTable>>) -> (r: Vec<String>)
    ensures
        forall|i: int| 0 <= i < r.len() ==> dropdown_cache_contents(*m).dom().contains(#[trigger] r@[i]@),
        forall|k: Seq<char>|
            dropdown_cache_contents(*m).dom().contains(k) ==> exists|i: int|
                0 <= i < r.len() && #[trigger] r@[i]@ == k,
{
    m.iter().map(|e| e.key().clone()).collect()
}

/// What the cache holds after loading `configs`, later entries winning.
pub open spec fn configs_map(configs: Seq<(String, Arc<DropdownTable>)>) -> Map<Seq<char>, DropdownTable>
    decreases configs.len(),
{
    if configs.len() == 0 {
        Map::empty()
    } else {
        configs_map(configs.drop_last()).insert(configs.last().0@, *configs.last().1)
    }
}

/// Each merchant's dropdown options.
pub struct FieldConfigCache {
    map: DashMap<String, Arc<DropdownTable>>,
}

impl FieldConfigCache {
    /// What the cache holds, by merchant code.
    pub closed spec fn contents(&self) -> Map<Seq<char>, DropdownTable> {
        dropdown_cache_contents(self.map)
    }

    /// An empty cache.
    pub fn new() -> (r: FieldConfigCache)
        ensures
            r.contents() == Map::<Seq<char>, DropdownTable>::empty(),
    {
        FieldConfigCache { map: dropdown_map_new() }
    }

    /// The options of a merchant.
    pub fn get(&self, merchant_code: &str) -> (r: Option<Arc<DropdownTable>>)
        ensures
            match r {
                Some(t) => self.contents().dom().contains(merchant_code@) && *t == self.contents()[merchant_code@],
                None => !self.contents().dom().contains(merchant_code@),
            },
    {
        dropdown_map_get(&self.map, merchant_code)
    }

    /// Stores the options of a merchant.
    pub fn set(&mut self, key: String, value: DropdownTable)
        ensures
            final(self).contents() == old(self).contents().insert(key@, value),
    {
        dropdown_map_insert(&mut self.map, key, Arc::new(value));
    }

    /// Loads every merchant's options and drops the merchants none of them has.
    pub fn refresh(&mut self, configs: Vec<(String, Arc<DropdownTable>)>)
        ensures
            final(self).contents() == configs_map(configs@),
    {
        let ghost target = configs_map(configs@);
        let mut fresh: Vec<String> = Vec::new();
        let mut i: usize = 0;
        while i < configs.len()
            invariant
                i <= configs.len(),
                target == configs_map(configs@),
                forall|k: Seq<char>|
                    configs_map(configs@.subrange(0, i as int)).dom().contains(k) ==> #[trigger] dropdown_cache_contents(self.map).dom().contains(k)
                        && dropdown_cache_contents(self.map)[k] == configs_map(configs@.subrange(0, i as int))[k],
                forall|k: Seq<char>|
                    configs_map(configs@.subrange(0, i as int)).dom().contains(k) <==> exists|j: int|
                        0 <= j < fresh.len() && #[trigger] fresh@[j]@ == k,
            decreases configs.len() - i,
        {
            let key = configs[i].0.clone();
            let key2 = configs[i].0.clone();
            let value = Arc::clone(&configs[i].1);
            let ghost pre = configs_map(configs@.subrange(0, i as int));
            let ghost old_fresh = fresh@;
            let ghost old_contents = dropdown_cache_contents(self.map);
            proof {
                assert(configs@.subrange(0, (i + 1) as int).drop_last() =~= configs@.subrange(0, i as int));
                assert(configs@.subrange(0, (i + 1) as int).last() == configs@[i as int]);
            }
            let ghost post = configs_map(configs@.subrange(0, (i + 1) as int));
            assert(post == pre.insert(key2@, *value));
            dropdown_map_insert(&mut self.map, key, value);
            fresh.push(key2);
            proof {
                assert forall|k: Seq<char>| post.dom().contains(k) implies #[trigger] dropdown_cache_contents(self.map).dom().contains(k)
                    && dropdown_cache_contents(self.map)[k] == post[k] by {
                    if k != key2@ {
                        assert(pre.dom().contains(k));
                        assert(old_contents.dom().contains(k));
                    }
                }
                assert forall|k: Seq<char>| post.dom().contains(k) <==> exists|j: int|
                    0 <= j < fresh.len() && #[trigger] fresh@[j]@ == k by {
                    if post.dom().contains(k) {
                        if k == key2@ {
                            assert(fresh@[fresh.len() - 1]@ == k);
                        } else {
                            assert(pre.dom().contains(k));
                            let j = choose|j: int| 0 <= j < old_fresh.len() && #[trigger] old_fresh[j]@ == k;
                            assert(fresh@[j] == old_fresh[j]);
                            assert(fresh@[j]@ == k);
                        }
                    }
                    if exists|j: int| 0 <= j < fresh.len() && #[trigger] fresh@[j]@ == k {
                        let j = choose|j: int| 0 <= j < fresh.len() && #[trigger] fresh@[j]@ == k;
                        if j < old_fresh.len() {
                            assert(fresh@[j] == old_fresh[j]);
                            assert(pre.dom().contains(k));
                        }
                    }
                }
            }
            i = i + 1;
        }
        assert(configs@.subrange(0, configs.len() as int) =~= configs@);
        let keys = dropdown_map_keys(&self.map);
        let mut j: usize = 0;
        while j < keys.len()
            invariant
                j <= keys.len(),
                target == configs_map(configs@),
                forall|k: Seq<char>| target.dom().contains(k) <==> exists|m: int|
                    0 <= m < fresh.len() && #[trigger] fresh@[m]@ == k,
                forall|k: Seq<char>|
                    target.dom().contains(k) ==> #[trigger] dropdown_cache_contents(self.map).dom().contains(k)
                        && dropdown_cache_contents(self.map)[k] == target[k],
                forall|k: Seq<char>|
                    #[trigger] dropdown_cache_contents(self.map).dom().contains(k) ==> target.dom().contains(k)
                        || exists|m: int| j <= m < keys.len() && keys@[m]@ == k,
            decreases keys.len() - j,
        {
            let k = &keys[j];
            let ghost before = dropdown_cache_contents(self.map);
            if !contains_text(&fresh, k.as_str()) {
                assert(!target.dom().contains(k@));
                dropdown_map_remove(&mut self.map, k.as_str());
                assert forall|q: Seq<char>| target.dom().contains(q) implies #[trigger] dropdown_cache_contents(self.map).dom().contains(q)
                    && dropdown_cache_contents(self.map)[q] == target[q] by {
                    assert(q != k@);
                    assert(before.dom().contains(q));
                }
            }
            assert(forall|q: Seq<char>|
                target.dom().contains(q) ==> #[trigger] dropdown_cache_contents(self.map).dom().contains(q)
                    && dropdown_cache_contents(self.map)[q] == target[q]);
            proof {
                assert forall|q: Seq<char>|
                    #[trigger] dropdown_cache_contents(self.map).dom().contains(q) implies target.dom().contains(q)
                        || exists|m: int| j + 1 <= m < keys.len() && keys@[m]@ == q by {
                    if !target.dom().contains(q) {
                        let m = choose|m: int| j <= m < keys.len() && keys@[m]@ == q;
                        if m == j {
                            assert(false);
                        }
                    }
                }
            }
            j = j + 1;
        }
        assert(dropdown_cache_contents(self.map) =~= target);
    }
}

/// Whether `entries` lists exactly what `contents` holds: each entry is a
/// merchant of `contents` with its table, and each merchant has an entry.
pub open spec fn lists_tables(entries: Seq<(String, Arc<DropdownTable>)>, contents: Map<Seq<char>, DropdownTable>) -> bool {
    &&& forall|i: int| 0 <= i < entries.len() ==> contents.dom().contains(#[trigger] entries[i].0@)
        && *entries[i].1 == contents[entries[i].0@]
    &&& forall|k: Seq<char>| contents.dom().contains(k) ==> exists|i: int| 0 <= i < entries.len() && #[trigger] entries[i].0@ == k
}

impl FieldConfigCache {
    /// Every merchant with its options, in the map's own order.
    pub fn all(&self) -> (r: Vec<(String, Arc<DropdownTable>)>)
        ensures
            lists_tables(r@, self.contents()),
    {
        let keys = dropdown_map_keys(&self.map);
        let mut r: Vec<(String, Arc<DropdownTable>)> = Vec::new();
        let mut i: usize = 0;
        while i < keys.len()
            invariant
                i <= keys.len(),
                r.len() == i,
                forall|j: int| 0 <= j < keys.len() ==> dropdown_cache_contents(self.map).dom().contains(#[trigger] keys@[j]@),
                forall|j: int| 0 <= j < i ==> (#[trigger] r@[j]).0@ == keys@[j]@
                    && *r@[j].1 == dropdown_cache_contents(self.map)[keys@[j]@],
            decreases keys.len() - i,
        {
            let k = keys[i].clone();
            assert(dropdown_cache_contents(self.map).dom().contains(keys@[i as int]@));
            match dropdown_map_get(&self.map, k.as_str()) {
                Some(t) => {
                    r.push((k, t));
                },
                None => {
                    assert(false);
                },
            }
            i = i + 1;
        }
        assert forall|k: Seq<char>| dropdown_cache_contents(self.map).dom().contains(k) implies exists|i: int|
            0 <= i < r.len() && #[trigger] r@[i].0@ == k by {
            let j = choose|j: int| 0 <= j < keys.len() && #[trigger] keys@[j]@ == k;
            assert(r@[j].0@ == k);
        }
        r
    }
}

/// The options of a merchant in `cache`, when it has any.
pub fn get_field_config(cache: &FieldConfigCache, merchant_code: &str) -> (r: Option<Arc<DropdownTable>>)
    ensures
        match r {
            Some(t) => cache.contents().dom().contains(merchant_code@) && *t == cache.contents()[merchant_code@],
            None => !cache.contents().dom().contains(merchant_code@),
        },
{
    cache.get(merchant_code)
}

/// A copy of the whole cache: every merchant with its options.
pub fn get_all_field_configs(cache: &FieldConfigCache) -> (r: Vec<(String, Arc<DropdownTable>)>)
    ensures
        lists_tables(r@, cache.contents()),
{
    cache.all()
}

/// After a merchant's options are stored, the cache answers that merchant
/// with them and every other merchant as before.
pub proof fn lemma_field_config_read_back(before: FieldConfigCache, after: FieldConfigCache, key: Seq<char>, value: DropdownTable)
    requires
        after.contents() == before.contents().insert(key, value),
    ensures
        after.contents().dom().contains(key),
        after.contents()[key] == value,
        forall|k: Seq<char>| k != key ==> (#[trigger] after.contents().dom().contains(k) <==> before.contents().dom().contains(k)),
        forall|k: Seq<char>| k != key && before.contents().dom().contains(k) ==> #[trigger] after.contents()[k] == before.contents()[k],
{
}

/// After a reload, the cache holds exactly the merchants that were loaded,
/// each with the options of its last entry: merchants no longer loaded are
/// gone.
pub proof fn lemma_reload_keeps_only_loaded(configs: Seq<(String, Arc<DropdownTable>)>, k: Seq<char>)
    ensures
        configs_map(configs).dom().contains(k) <==> exists|i: int| 0 <= i < configs.len() && #[trigger] configs[i].0@ == k,
        configs_map(configs).dom().contains(k) ==> exists|i: int|
            0 <= i < configs.len() && #[trigger] configs[i].0@ == k && configs_map(configs)[k] == *configs[i].1
                && forall|j: int| i < j < configs.len() ==> configs[j].0@ != k,
    decreases configs.len(),
{
    if configs.len() > 0 {
        let rest = configs.drop_last();
        lemma_reload_keeps_only_loaded(rest, k);
        let last = configs.len() - 1;
        if configs[last].0@ == k {
            assert(configs[last].0@ == k);
        } else {
            assert forall|i: int| 0 <= i < rest.len() implies #[trigger] rest[i] == configs[i] by {}
            if configs_map(configs).dom().contains(k) {
                let i = choose|i: int| 0 <= i < rest.len() && #[trigger] rest[i].0@ == k && configs_map(rest)[k] == *rest[i].1
                    && forall|j: int| i < j < rest.len() ==> rest[j].0@ != k;
                assert(configs[i] == rest[i]);
                assert forall|j: int| i < j < configs.len() implies configs[j].0@ != k by {
                    if j < rest.len() {
                        assert(configs[j] == rest[j]);
                    }
                }
            }
            if exists|i: int| 0 <= i < configs.len() && #[trigger] configs[i].0@ == k {
                let i = choose|i: int| 0 <= i < configs.len() && #[trigger] configs[i].0@ == k;
                assert(i < rest.len());
                assert(rest[i] == configs[i]);
            }
        }
    }
}

/// Stores the options of a merchant in `cache`.
pub fn set_field_config(cache: &mut FieldConfigCache, key: String, value: DropdownTable)
    ensures
        final(cache).contents() == old(cache).contents().insert(key@, value),
{
    cache.set(key, value)
}

/// The handle of the start-up load of the dropdown options.
pub struct InitLoadingData {}

impl InitLoadingData {
    /// Stops the loader; later refreshes are driven by the scheduled jobs.
    pub fn stop(&self) {
    }
}

} // verus!
