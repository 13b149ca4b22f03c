use vstd::prelude::*;

use crate::feed::FeedConfig;

verus! {

// ---------------------------------------------------------------------------
// The process-wide mapping from service id to feed configuration: built once
// at startup, read-only afterwards.  Its view is a mathematical map from id
// to configuration.
// ---------------------------------------------------------------------------

/// The read-only mapping from service id to feed configuration.
#[derive(Debug)]
pub struct ServiceMap {
    services: Vec<(String, FeedConfig)>,
}

/// The map described by a sequence of (id, configuration) pairs, later pairs
/// overriding earlier ones.
pub open spec fn map_of(s: Seq<(String, FeedConfig)>) -> Map<Seq<char>, FeedConfig>
    decreases s.len(),
{
    if s.len() == 0 {
        Map::empty()
    } else {
        map_of(s.drop_last()).insert(s.last().0@, s.last().1)
    }
}

proof fn lemma_map_of_contains(s: Seq<(String, FeedConfig)>, k: Seq<char>)
    ensures
        map_of(s).contains_key(k) <==> exists|i: int| 0 <= i < s.len() && s[i].0@ == k,
    decreases s.len(),
{
    if s.len() > 0 {
        lemma_map_of_contains(s.drop_last(), k);
        if s.last().0@ == k {
            assert(s[s.len() - 1].0@ == k);
        } else if map_of(s).contains_key(k) {
            let i = choose|i: int| 0 <= i < s.drop_last().len() && s.drop_last()[i].0@ == k;
            assert(s[i].0@ == k);
        } else if exists|i: int| 0 <= i < s.len() && s[i].0@ == k {
            let i = choose|i: int| 0 <= i < s.len() && s[i].0@ == k;
            assert(s.drop_last()[i].0@ == k);
        }
    }
}

proof fn lemma_map_of_get(s: Seq<(String, FeedConfig)>, i: int)
    requires
        0 <= i < s.len(),
        forall|j: int, k: int| 0 <= j < k < s.len() ==> s[j].0@ != s[k].0@,
    ensures
        map_of(s).contains_key(s[i].0@),
        map_of(s)[s[i].0@] == s[i].1,
    decreases s.len(),
{
    lemma_map_of_contains(s, s[i].0@);
    if i == s.len() - 1 {
    } else {
        assert(s[i].0@ != s.last().0@);
        assert(s.drop_last()[i] == s[i]);
        lemma_map_of_get(s.drop_last(), i);
    }
}

impl View for ServiceMap {
    type V = Map<Seq<char>, FeedConfig>;

    closed spec fn view(&self) -> Map<Seq<char>, FeedConfig> {
        map_of(self.services@)
    }
}

impl ServiceMap {
    /// Service ids are pairwise distinct.
    pub closed spec fn wf(&self) -> bool {
        forall|j: int, k: int|
            0 <= j < k < self.services@.len() ==> self.services@[j].0@ != self.services@[k].0@
    }

    /// Builds the mapping from (id, configuration) pairs, refusing duplicate
    /// service ids.
    pub fn new(services: Vec<(String, FeedConfig)>) -> (r: Option<ServiceMap>)
        ensures
            r matches Some(m) ==> m.wf() && m@ == map_of(services@),
            r is Some <==> (forall|j: int, k: int|
                0 <= j < k < services@.len() ==> services@[j].0@ != services@[k].0@),
    {
        let n = services.len();
        let mut j: usize = 0;
        while j < n
            invariant
                n == services@.len(),
                j <= n,
                forall|a: int, b: int| 0 <= a < b < services@.len() && a < j ==> services@[a].0@
                    != services@[b].0@,
            decreases n - j,
        {
            let mut k: usize = j + 1;
            while k < n
                invariant
                    n == services@.len(),
                    j < k,
                    k <= n,
                    j < n,
                    forall|b: int| j < b < k ==> services@[j as int].0@ != services@[b].0@,
                decreases n - k,
            {
                if services[j].0 == services[k].0 {
                    return None;
                }
                k += 1;
            }
            j += 1;
        }
        Some(ServiceMap { services })
    }

    /// Looks one service id up; absence is exactly "this id is not
    /// configured", the case the surrounding service answers with "not
    /// found" and for which no fetch happens.
    pub fn lookup(&self, id: &String) -> (r: Option<&FeedConfig>)
        requires
            self.wf(),
        ensures
            r is Some <==> self@.contains_key(id@),
            r matches Some(c) ==> *c == self@[id@],
    {
        proof {
            lemma_map_of_contains(self.services@, id@);
        }
        let n = self.services.len();
        let mut i: usize = 0;
        while i < n
            invariant
                self.wf(),
                n == self.services@.len(),
                i <= n,
                forall|j: int| 0 <= j < i ==> self.services@[j].0@ != id@,
            decreases n - i,
        {
            if self.services[i].0 == *id {
                proof {
                    lemma_map_of_get(self.services@, i as int);
                }
                return Some(&self.services[i].1);
            }
            i += 1;
        }
        None
    }
}

} // verus!
