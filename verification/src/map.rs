//! The string-to-string map that sources use for headers, cookies and extras.
use vstd::prelude::*;

verus! {

/// A map from `String` keys to `String` values, backed by `hashbrown::HashMap`.
///
/// Verus sees the map only through [`string_map_contents`], the mathematical map of
/// key views to value views that it holds.
#[verifier::external_body]
#[derive(Debug, PartialEq, Eq)]
pub struct StringMap {
    inner: hashbrown::HashMap<String, String>,
}

/// What a [`StringMap`] holds: each key's characters mapped to its value's characters.
pub uninterp spec fn string_map_contents(m: StringMap) -> Map<Seq<char>, Seq<char>>;

impl View for StringMap {
    type V = Map<Seq<char>, Seq<char>>;

    open spec fn view(&self) -> Map<Seq<char>, Seq<char>> {
        string_map_contents(*self)
    }
}

/// The map with no keys.
pub open spec fn no_entries() -> Map<Seq<char>, Seq<char>> {
    Map::empty()
}

/// True when no two pairs of `entries` share a key.
pub open spec fn distinct_keys(entries: Seq<(String, String)>) -> bool {
    forall|i: int, j: int|
        0 <= i < j < entries.len() ==> #[trigger] entries[i].0@ != #[trigger] entries[j].0@
}

impl StringMap {
    /// Calls `hashbrown::HashMap::new`: the new map is empty.
    #[verifier::external_body]
    pub fn new() -> (m: StringMap)
        ensures
            string_map_contents(m) == no_entries(),
    {
        StringMap { inner: hashbrown::HashMap::new() }
    }

    /// Calls `hashbrown::HashMap::insert`: afterwards `key` maps to `value` and every
    /// other key keeps its value; the value that `key` had before, if any, is returned.
    #[verifier::external_body]
    pub fn insert(&mut self, key: String, value: String) -> (previous: Option<String>)
        ensures
            string_map_contents(*final(self)) == string_map_contents(*old(self)).insert(
                key@,
                value@,
            ),
            previous is Some <==> string_map_contents(*old(self)).contains_key(key@),
            previous matches Some(p) ==> p@ == string_map_contents(*old(self))[key@],
    {
        self.inner.insert(key, value)
    }

    /// Calls `hashbrown::HashMap::get` with a `&str` key: the value stored under the
    /// key with the same characters, if there is one.
    #[verifier::external_body]
    pub fn get(&self, key: &str) -> (value: Option<&String>)
        ensures
            value is Some <==> string_map_contents(*self).contains_key(key@),
            value matches Some(v) ==> v@ == string_map_contents(*self)[key@],
    {
        self.inner.get(key)
    }

    /// Calls `hashbrown::HashMap::into_iter` and collects the pairs it yields.
    ///
    /// The pairs come out in the map's internal order, which depends on a hasher seeded
    /// per process; the contract says only what holds for every order: each key
    /// appears once and the pairs describe exactly the map's contents.
    #[verifier::external_body]
    pub fn into_entries(self) -> (entries: Vec<(String, String)>)
        ensures
            distinct_keys(entries@),
            forall|i: int|
                0 <= i < entries@.len() ==> #[trigger] string_map_contents(self).contains_key(
                    entries@[i].0@,
                ) && string_map_contents(self)[entries@[i].0@] == entries@[i].1@,
            forall|k: Seq<char>|
                #[trigger] string_map_contents(self).contains_key(k) ==> exists|i: int|
                    0 <= i < entries@.len() && #[trigger] entries@[i].0@ == k,
    {
        self.inner.into_iter().collect()
    }
}

impl Clone for StringMap {
    /// Calls `hashbrown::HashMap::clone`: the copy holds the same keys and values.
    #[verifier::external_body]
    fn clone(&self) -> (copy: Self)
        ensures
            string_map_contents(copy) == string_map_contents(*self),
    {
        StringMap { inner: self.inner.clone() }
    }
}

impl Default for StringMap {
    fn default() -> (m: Self)
        ensures
            m@ == no_entries(),
    {
        StringMap::new()
    }
}

/// The keys of the pairs in `entries`.
pub open spec fn entry_keys(entries: Seq<(String, String)>) -> Set<Seq<char>> {
    Set::new(|k: Seq<char>| exists|i: int| 0 <= i < entries.len() && #[trigger] entries[i].0@ == k)
}

/// Inserts every pair of `incoming` into `target`; a key present in both ends with the
/// value from `incoming`.
pub fn merge_into(target: &mut StringMap, incoming: StringMap)
    ensures
        final(target)@ == old(target)@.union_prefer_right(incoming@),
{
    let ghost base = target@;
    let ghost inc = incoming@;
    let mut entries = incoming.into_entries();
    let ghost all = entries@;
    loop
        invariant
            distinct_keys(all),
            forall|i: int|
                0 <= i < all.len() ==> #[trigger] inc.contains_key(all[i].0@) && inc[all[i].0@]
                    == all[i].1@,
            forall|k: Seq<char>|
                #[trigger] inc.contains_key(k) ==> exists|i: int|
                    0 <= i < all.len() && #[trigger] all[i].0@ == k,
            entries@.len() <= all.len(),
            entries@ == all.take(entries@.len() as int),
            target@ == base.union_prefer_right(
                inc.restrict(entry_keys(all.skip(entries@.len() as int))),
            ),
        ensures
            target@ == base.union_prefer_right(inc),
        decreases entries@.len(),
    {
        let ghost r = entries@.len() as int;
        match entries.pop() {
            Some((key, value)) => {
                let ghost k = key@;
                assert(all[r - 1] == (key, value));
                target.insert(key, value);
                assert(entry_keys(all.skip(r - 1)) == entry_keys(all.skip(r)).insert(k)) by {
                    assert forall|x: Seq<char>|
                        entry_keys(all.skip(r - 1)).contains(x) implies entry_keys(
                            all.skip(r),
                        ).insert(k).contains(x) by {
                        let j = choose|j: int|
                            0 <= j < all.skip(r - 1).len() && #[trigger] all.skip(r - 1)[j].0@
                                == x;
                        if j > 0 {
                            assert(all.skip(r)[j - 1] == all.skip(r - 1)[j]);
                        }
                    }
                    assert forall|x: Seq<char>|
                        entry_keys(all.skip(r)).insert(k).contains(x) implies entry_keys(
                            all.skip(r - 1),
                        ).contains(x) by {
                        if x == k {
                            assert(all.skip(r - 1)[0].0@ == k);
                        } else {
                            let j = choose|j: int|
                                0 <= j < all.skip(r).len() && #[trigger] all.skip(r)[j].0@ == x;
                            assert(all.skip(r - 1)[j + 1] == all.skip(r)[j]);
                        }
                    }
                }
                assert(target@ =~= base.union_prefer_right(
                    inc.restrict(entry_keys(all.skip(r - 1))),
                ));
            },
            None => {
                assert(entry_keys(all.skip(0)) =~= inc.dom()) by {
                    assert forall|x: Seq<char>| #[trigger]
                        inc.dom().contains(x) implies entry_keys(all.skip(0)).contains(x) by {
                        let j = choose|j: int| 0 <= j < all.len() && #[trigger] all[j].0@ == x;
                        assert(all.skip(0)[j] == all[j]);
                    }
                }
                assert(inc.restrict(entry_keys(all.skip(0))) =~= inc);
                break ;
            },
        }
    }
}

} // verus!
