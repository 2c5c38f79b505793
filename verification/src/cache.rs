//! Process-lifetime cache of position statistics: a map from exact position
//! encoding to a shared, immutable statistics instance. Entries are never
//! mutated and never evicted; fetch failures are never stored, so a later
//! query for the same position re-attempts the fetch.

use std::rc::Rc;
use vstd::prelude::*;
use crate::stats::PositionInfo;

verus! {

/// Relies on Rc::clone: the clone is a new handle to the same allocation
/// and equal to the original.
#[verifier::external_body]
fn rc_clone(p: &Rc<PositionInfo>) -> (r: Rc<PositionInfo>)
    ensures
        r == *p,
{
    Rc::clone(p)
}

pub open spec fn entries_map(s: Seq<(String, Rc<PositionInfo>)>) -> Map<Seq<char>, Rc<
    PositionInfo,
>>
    decreases s.len(),
{
    if s.len() == 0 {
        Map::empty()
    } else {
        entries_map(s.drop_last()).insert(s.last().0@, s.last().1)
    }
}

/// The statistics cache, keyed by the full position encoding.
pub struct Cache {
    entries: Vec<(String, Rc<PositionInfo>)>,
}

impl View for Cache {
    type V = Map<Seq<char>, Rc<PositionInfo>>;

    closed spec fn view(&self) -> Map<Seq<char>, Rc<PositionInfo>> {
        entries_map(self.entries@)
    }
}

proof fn lemma_entries_map_index(s: Seq<(String, Rc<PositionInfo>)>, i: int)
    requires
        forall|a: int, b: int| 0 <= a < b < s.len() ==> (#[trigger] s[a]).0@ != (#[trigger] s[b]).0@,
        0 <= i < s.len(),
    ensures
        entries_map(s).contains_key(s[i].0@),
        entries_map(s)[s[i].0@] == s[i].1,
    decreases s.len(),
{
    if i == s.len() - 1 {
    } else {
        lemma_entries_map_index(s.drop_last(), i);
        assert(s.drop_last()[i] == s[i]);
        assert(s.last().0@ != s[i].0@);
    }
}

proof fn lemma_entries_map_absent(s: Seq<(String, Rc<PositionInfo>)>, k: Seq<char>)
    requires
        forall|i: int| 0 <= i < s.len() ==> (#[trigger] s[i]).0@ != k,
    ensures
        !entries_map(s).contains_key(k),
    decreases s.len(),
{
    if s.len() > 0 {
        lemma_entries_map_absent(s.drop_last(), k);
    }
}

impl Cache {
    /// Keys are pairwise distinct, so each position has one shared entry.
    pub closed spec fn wf(self) -> bool {
        forall|a: int, b: int|
            0 <= a < b < self.entries.len() ==> (#[trigger] self.entries[a]).0@
                != (#[trigger] self.entries[b]).0@
    }

    pub fn new() -> (r: Cache)
        ensures
            r@ == Map::<Seq<char>, Rc<PositionInfo>>::empty(),
            r.wf(),
    {
        Cache { entries: Vec::new() }
    }

    fn find(&self, fen: &String) -> (r: Option<usize>)
        ensures
            match r {
                Some(i) => i < self.entries@.len() && self.entries@[i as int].0@ == fen@,
                None => forall|i: int|
                    0 <= i < self.entries@.len() ==> (#[trigger] self.entries@[i]).0@ != fen@,
            },
    {
        let n = self.entries.len();
        let mut i: usize = 0;
        while i < n
            invariant
                0 <= i <= n,
                n == self.entries@.len(),
                forall|j: int| 0 <= j < i ==> (#[trigger] self.entries@[j]).0@ != fen@,
            decreases n - i,
        {
            let e = &self.entries[i];
            if e.0 == *fen {
                return Some(i);
            }
            i = i + 1;
        }
        None
    }

    /// Whether the cache holds an entry for this position encoding; when it
    /// does not, resolving the position requires a fetch.
    pub fn contains(&self, fen: &String) -> (r: bool)
        requires
            self.wf(),
        ensures
            r == self@.contains_key(fen@),
    {
        let found = self.find(fen);
        proof {
            match found {
                Some(i) => lemma_entries_map_index(self.entries@, i as int),
                None => lemma_entries_map_absent(self.entries@, fen@),
            }
        }
        match found {
            Some(_) => true,
            None => false,
        }
    }

    /// A hit returns a handle to the shared entry; a miss returns nothing.
    pub fn lookup(&self, fen: &String) -> (r: Option<Rc<PositionInfo>>)
        requires
            self.wf(),
        ensures
            match r {
                Some(p) => self@.contains_key(fen@) && p == self@[fen@],
                None => !self@.contains_key(fen@),
            },
    {
        let found = self.find(fen);
        proof {
            match found {
                Some(i) => lemma_entries_map_index(self.entries@, i as int),
                None => lemma_entries_map_absent(self.entries@, fen@),
            }
        }
        match found {
            Some(i) => Some(rc_clone(&self.entries[i].1)),
            None => None,
        }
    }
}

/// Cache-or-fetch decision step. A hit returns the shared entry and leaves
/// the cache untouched, ignoring any fetched value; on a miss, successfully
/// fetched statistics are stored under the position encoding and a handle to
/// the new shared entry is returned, while a failed fetch (`fetched` is
/// `None`) changes nothing and yields nothing, so the failure is not cached.
pub fn get_position_info_cached(
    cache: &mut Cache,
    fen: &String,
    fetched: Option<PositionInfo>,
) -> (r: Option<Rc<PositionInfo>>)
    requires
        old(cache).wf(),
    ensures
        final(cache).wf(),
        old(cache)@.contains_key(fen@) ==> {
            &&& final(cache)@ == old(cache)@
            &&& r matches Some(p) && p == old(cache)@[fen@]
        },
        !old(cache)@.contains_key(fen@) ==> match fetched {
            Some(info) => {
                &&& r matches Some(p) && p == info && final(cache)@ == old(cache)@.insert(fen@, p)
            },
            None => {
                &&& final(cache)@ == old(cache)@
                &&& r is None
            },
        },
{
    let hit = cache.lookup(fen);
    match hit {
        Some(p) => Some(p),
        None => {
            match fetched {
                Some(info) => {
                    let p = Rc::new(info);
                    let result = rc_clone(&p);
                    let ghost epre = cache.entries@;
                    cache.entries.push((fen.clone(), p));
                    proof {
                        assert(cache.entries@.drop_last() =~= epre);
                        assert forall|a: int, b: int|
                            0 <= a < b < cache.entries@.len() implies (
                        #[trigger] cache.entries@[a]).0@ != (#[trigger] cache.entries@[b]).0@ by {
                            if b == cache.entries@.len() - 1 {
                                if epre[a].0@ == fen@ {
                                    lemma_entries_map_index(epre, a);
                                }
                            }
                        }
                    }
                    Some(result)
                },
                None => None,
            }
        },
    }
}

/// Two cache-or-fetch steps with the same position key touch the network at
/// most once: after a first step that stored fetched statistics, the key is
/// present and maps to that same shared entry, so by the contract of
/// `get_position_info_cached` a second step with the same key is a hit that
/// needs no fetched value, changes nothing, and returns the identical
/// shared instance.
pub proof fn lemma_second_query_is_hit(
    m: Map<Seq<char>, Rc<PositionInfo>>,
    k: Seq<char>,
    q: Rc<PositionInfo>,
)
    ensures
        m.insert(k, q).contains_key(k),
        m.insert(k, q)[k] == q,
{
}

} // verus!
