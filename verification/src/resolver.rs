//! The folder-root cache: an append-only map from opaque folder identifiers
//! to local filesystem roots, viewed as a `Map<Seq<char>, Seq<char>>`.
//!
//! A folder identifier is resolved over the network at most once per process
//! lifetime: once an identifier is in the cache, lookups answer from it with
//! no further I/O, and nothing ever removes or revises an entry. A failed
//! fetch leaves the cache untouched (no negative caching), so a later event
//! for the same folder retries the fetch.

use vstd::prelude::*;

use crate::events::str_eq;

verus! {

/// Keys of the entry list are pairwise distinct.
pub open spec fn keys_unique(s: Seq<(String, String)>) -> bool {
    forall|i: int, j: int|
        0 <= i < j < s.len() ==> (#[trigger] s[i]).0@ != (#[trigger] s[j]).0@
}

/// The map an entry list denotes: later entries would win, but the cache
/// keeps its keys unique, so each key has the one value it was inserted with.
pub open spec fn map_of(s: Seq<(String, String)>) -> Map<Seq<char>, Seq<char>>
    decreases s.len(),
{
    if s.len() == 0 {
        Map::empty()
    } else {
        map_of(s.drop_last()).insert(s.last().0@, s.last().1@)
    }
}

/// A key is in the denoted map exactly when some entry holds it.
proof fn lemma_map_of_contains(s: Seq<(String, String)>, k: Seq<char>)
    ensures
        map_of(s).contains_key(k) <==> (exists|i: int|
            0 <= i < s.len() && (#[trigger] s[i]).0@ == k),
    decreases s.len(),
{
    if s.len() > 0 {
        lemma_map_of_contains(s.drop_last(), k);
        if s.last().0@ == k {
            assert(s[s.len() - 1].0@ == k);
        } else if map_of(s).contains_key(k) {
            let i = choose|i: int| 0 <= i < s.drop_last().len() && (#[trigger] s.drop_last()[i]).0@ == k;
            assert(s[i].0@ == k);
        } else if exists|i: int| 0 <= i < s.len() && (#[trigger] s[i]).0@ == k {
            let i = choose|i: int| 0 <= i < s.len() && (#[trigger] s[i]).0@ == k;
            assert(s.drop_last()[i].0@ == k);
        }
    }
}

/// With unique keys, the entry holding a key gives the key's value in the
/// denoted map.
proof fn lemma_map_of_value(s: Seq<(String, String)>, k: Seq<char>, i: int)
    requires
        keys_unique(s),
        0 <= i < s.len(),
        s[i].0@ == k,
    ensures
        map_of(s).contains_key(k),
        map_of(s)[k] == s[i].1@,
    decreases s.len(),
{
    if i == s.len() - 1 {
    } else {
        assert(keys_unique(s.drop_last())) by {
            assert forall|p: int, q: int|
                0 <= p < q < s.drop_last().len() implies (#[trigger] s.drop_last()[p]).0@ != (
            #[trigger] s.drop_last()[q]).0@ by {
                assert(s[p].0@ != s[q].0@);
            }
        }
        assert(s.drop_last()[i] == s[i]);
        lemma_map_of_value(s.drop_last(), k, i);
        assert(s.last().0@ != k);
    }
}

/// The folder-root cache. Entries are only ever appended, never removed or
/// revised, and each folder identifier occurs at most once.
pub struct Resolver {
    entries: Vec<(String, String)>,
}

impl View for Resolver {
    type V = Map<Seq<char>, Seq<char>>;

    closed spec fn view(&self) -> Map<Seq<char>, Seq<char>> {
        map_of(self.entries@)
    }
}

impl Resolver {
    #[verifier::type_invariant]
    spec fn wf(&self) -> bool {
        keys_unique(self.entries@)
    }

    /// An empty cache.
    pub fn new() -> (r: Resolver)
        ensures
            r@ == Map::<Seq<char>, Seq<char>>::empty(),
    {
        Resolver { entries: Vec::new() }
    }

    /// The cached root for a folder identifier: `Some` exactly when the
    /// identifier was resolved before, and then the root it was resolved to.
    /// A hit involves no I/O of any kind.
    pub fn lookup(&self, folder_id: &str) -> (r: Option<&String>)
        ensures
            match r {
                Some(root) => self@.contains_key(folder_id@) && root@ == self@[folder_id@],
                None => !self@.contains_key(folder_id@),
            },
    {
        proof {
            use_type_invariant(&*self);
        }
        let n = self.entries.len();
        let mut i: usize = 0;
        while i < n
            invariant
                i <= n,
                n == self.entries@.len(),
                keys_unique(self.entries@),
                forall|j: int| 0 <= j < i ==> (#[trigger] self.entries@[j]).0@ != folder_id@,
            decreases n - i,
        {
            let hit = str_eq(self.entries[i].0.as_str(), folder_id);
            if hit {
                proof {
                    lemma_map_of_value(self.entries@, folder_id@, i as int);
                }
                return Some(&self.entries[i].1);
            }
            i = i + 1;
        }
        proof {
            lemma_map_of_contains(self.entries@, folder_id@);
        }
        None
    }

    /// Record a resolved root. Append-only: a folder identifier that is
    /// already cached keeps the root it was first resolved to, and no other
    /// key is touched.
    pub fn insert(&mut self, folder_id: String, root: String)
        ensures
            old(self)@.contains_key(folder_id@) ==> final(self)@ == old(self)@,
            !old(self)@.contains_key(folder_id@) ==> final(self)@ == old(self)@.insert(
                folder_id@,
                root@,
            ),
    {
        proof {
            use_type_invariant(&*self);
        }
        if self.lookup(folder_id.as_str()).is_some() {
            return ;
        }
        proof {
            lemma_map_of_contains(self.entries@, folder_id@);
        }
        let ghost before = self.entries@;
        let mut entries: Vec<(String, String)> = Vec::new();
        core::mem::swap(&mut entries, &mut self.entries);
        entries.push((folder_id, root));
        proof {
            assert(entries@.drop_last() =~= before);
        }
        core::mem::swap(&mut entries, &mut self.entries);
    }
}

} // verus!
