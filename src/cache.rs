//! Responses kept under the normalized text of the request that produced them.
use vstd::prelude::*;

verus! {

/// One stored response and the normalized request it answers.
pub struct CacheEntry {
    pub key: String,
    pub response: String,
}

/// The response last stored under `key` among `entries`, if any.
pub open spec fn latest_for(entries: Seq<(Seq<char>, Seq<char>)>, key: Seq<char>) -> Option<
    Seq<char>,
>
    decreases entries.len(),
{
    if entries.len() == 0 {
        None
    } else if entries.last().0 == key {
        Some(entries.last().1)
    } else {
        latest_for(entries.drop_last(), key)
    }
}

/// A store of responses keyed by normalized request text. The key carries no
/// trace of the wire shape, so equal requests of either shape share entries.
pub struct ResponseCache {
    entries: Vec<CacheEntry>,
}

impl ResponseCache {
    /// The stored pairs, oldest first.
    pub closed spec fn entries_view(&self) -> Seq<(Seq<char>, Seq<char>)> {
        self.entries@.map_values(|e: CacheEntry| (e.key@, e.response@))
    }
}

impl View for ResponseCache {
    type V = Map<Seq<char>, Seq<char>>;

    /// Each key mapped to the response stored for it most recently.
    closed spec fn view(&self) -> Map<Seq<char>, Seq<char>> {
        Map::new(
            |k: Seq<char>| latest_for(self.entries_view(), k) is Some,
            |k: Seq<char>| latest_for(self.entries_view(), k)->Some_0,
        )
    }
}

impl ResponseCache {
    /// An empty cache.
    pub fn new() -> (r: ResponseCache)
        ensures
            r@ == Map::<Seq<char>, Seq<char>>::empty(),
    {
        let r = ResponseCache { entries: Vec::new() };
        assert(r.entries_view() =~= Seq::<(Seq<char>, Seq<char>)>::empty());
        assert(r@ =~= Map::<Seq<char>, Seq<char>>::empty());
        r
    }

    /// The response stored under `key`, if there is one.
    pub fn lookup(&self, key: &String) -> (r: Option<String>)
        ensures
            match r {
                Some(v) => self@.contains_key(key@) && v@ == self@[key@],
                None => !self@.contains_key(key@),
            },
    {
        let ghost all = self.entries_view();
        let mut i: usize = self.entries.len();
        assert(all.take(i as int) =~= all);
        while i > 0
            invariant
                i <= self.entries@.len(),
                all == self.entries_view(),
                latest_for(all.take(i as int), key@) == latest_for(all, key@),
            decreases i,
        {
            assert(all.take(i as int).drop_last() =~= all.take(i - 1));
            if self.entries[i - 1].key == *key {
                return Some(self.entries[i - 1].response.clone());
            }
            i = i - 1;
        }
        None
    }

    /// Stores `response` under `key`, replacing what that key held.
    pub fn record(&mut self, key: String, response: String)
        ensures
            final(self)@ == old(self)@.insert(key@, response@),
    {
        let ghost before = self.entries_view();
        self.entries.push(CacheEntry { key, response });
        proof {
            let after = self.entries_view();
            assert(after.drop_last() =~= before);
            assert(self@ =~= old(self)@.insert(key@, response@));
        }
    }
}

} // verus!
