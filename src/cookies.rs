//! The cookie map that a successful login hands back.
use vstd::prelude::*;

verus! {

/// The map that a list of `(name, value)` cookies folds into, read left to
/// right: a name seen twice keeps its last value.
pub open spec fn pairs_map(s: Seq<(String, String)>) -> Map<Seq<char>, Seq<char>>
    decreases s.len(),
{
    if s.len() == 0 {
        Map::empty()
    } else {
        pairs_map(s.drop_last()).insert(s.last().0@, s.last().1@)
    }
}

/// No name occurs twice.
pub open spec fn unique_names(s: Seq<(String, String)>) -> bool {
    forall|i: int, j: int| 0 <= i < j < s.len() ==> s[i].0@ != s[j].0@
}

proof fn lemma_pairs_map_facts(s: Seq<(String, String)>)
    requires
        unique_names(s),
    ensures
        pairs_map(s).dom().finite(),
        pairs_map(s).dom().len() == s.len(),
        forall|i: int|
            0 <= i < s.len() ==> #[trigger] pairs_map(s).contains_key(s[i].0@) && pairs_map(s)[s[i].0@]
                == s[i].1@,
        forall|k: Seq<char>|
            #[trigger] pairs_map(s).contains_key(k) ==> exists|i: int| 0 <= i < s.len() && s[i].0@ == k,
    decreases s.len(),
{
    if s.len() > 0 {
        let p = s.drop_last();
        assert(unique_names(p));
        lemma_pairs_map_facts(p);
        assert(!pairs_map(p).contains_key(s.last().0@)) by {
            if pairs_map(p).contains_key(s.last().0@) {
                let i = choose|i: int| 0 <= i < p.len() && p[i].0@ == s.last().0@;
                assert(s[i].0@ == s[s.len() - 1].0@);
            }
        }
        assert forall|i: int| 0 <= i < s.len() implies #[trigger] pairs_map(s).contains_key(s[i].0@)
            && pairs_map(s)[s[i].0@] == s[i].1@ by {
            if i < s.len() - 1 {
                assert(p[i] == s[i]);
                assert(s[i].0@ != s[s.len() - 1].0@);
            }
        }
        assert forall|k: Seq<char>| #[trigger] pairs_map(s).contains_key(k) implies exists|i: int|
            0 <= i < s.len() && s[i].0@ == k by {
            if k != s.last().0@ {
                let i = choose|i: int| 0 <= i < p.len() && p[i].0@ == k;
                assert(s[i] == p[i]);
            }
        }
    }
}

proof fn lemma_pairs_map_update(s: Seq<(String, String)>, j: int, c: (String, String))
    requires
        unique_names(s),
        0 <= j < s.len(),
        s[j].0@ == c.0@,
    ensures
        pairs_map(s.update(j, c)) == pairs_map(s).insert(c.0@, c.1@),
    decreases s.len(),
{
    let t = s.update(j, c);
    let p = s.drop_last();
    if j == s.len() - 1 {
        assert(t.drop_last() =~= p);
        assert(pairs_map(t) =~= pairs_map(s).insert(c.0@, c.1@));
    } else {
        assert(t.drop_last() =~= p.update(j, c));
        assert(unique_names(p));
        lemma_pairs_map_update(p, j, c);
        assert(s[j].0@ != s[s.len() - 1].0@);
        assert(pairs_map(t) =~= pairs_map(s).insert(c.0@, c.1@));
    }
}

/// A name is in the map of every list it occurs in, with the value of its last
/// occurrence.
pub proof fn lemma_pairs_map_last_occurrence(s: Seq<(String, String)>, i: int)
    requires
        0 <= i < s.len(),
        forall|j: int| i < j < s.len() ==> s[j].0@ != s[i].0@,
    ensures
        pairs_map(s).contains_key(s[i].0@),
        pairs_map(s)[s[i].0@] == s[i].1@,
    decreases s.len(),
{
    if i < s.len() - 1 {
        let p = s.drop_last();
        assert(p[i] == s[i]);
        assert forall|j: int| i < j < p.len() implies p[j].0@ != p[i].0@ by {
            assert(p[j] == s[j]);
        }
        lemma_pairs_map_last_occurrence(p, i);
        assert(s[s.len() - 1].0@ != s[i].0@);
    }
}

/// Cookies by name: each name once, with its value.
pub struct CookieMap {
    entries: Vec<(String, String)>,
}

impl View for CookieMap {
    type V = Map<Seq<char>, Seq<char>>;

    closed spec fn view(&self) -> Map<Seq<char>, Seq<char>> {
        pairs_map(self.entries@)
    }
}

impl CookieMap {
    /// Each name is stored once.
    pub closed spec fn wf(&self) -> bool {
        unique_names(self.entries@)
    }

    /// A map with no cookie.
    pub fn new() -> (r: Self)
        ensures
            r.wf(),
            r@ == Map::<Seq<char>, Seq<char>>::empty(),
    {
        CookieMap { entries: Vec::new() }
    }

    /// How many cookies the map holds.
    pub fn len(&self) -> (r: usize)
        requires
            self.wf(),
        ensures
            self@.dom().finite(),
            r == self@.dom().len(),
    {
        proof {
            lemma_pairs_map_facts(self.entries@);
        }
        self.entries.len()
    }

    /// Does the map hold no cookie?
    pub fn is_empty(&self) -> (r: bool)
        requires
            self.wf(),
        ensures
            r == (self@.dom() == Set::<Seq<char>>::empty()),
    {
        proof {
            lemma_pairs_map_facts(self.entries@);
            if self.entries.len() > 0 {
                assert(self@.contains_key(self.entries@[0].0@));
            }
        }
        self.entries.len() == 0
    }

    /// The value of the cookie called `name`, if there is one.
    pub fn get(&self, name: &String) -> (r: Option<&String>)
        requires
            self.wf(),
        ensures
            r is Some <==> self@.contains_key(name@),
            r is Some ==> r->0@ == self@[name@],
    {
        proof {
            lemma_pairs_map_facts(self.entries@);
        }
        let mut j: usize = 0;
        while j < self.entries.len()
            invariant
                self.wf(),
                0 <= j <= self.entries@.len(),
                forall|i: int| 0 <= i < j ==> self.entries@[i].0@ != name@,
            decreases self.entries@.len() - j,
        {
            if self.entries[j].0 == *name {
                proof {
                    lemma_pairs_map_facts(self.entries@);
                    assert(pairs_map(self.entries@).contains_key(self.entries@[j as int].0@));
                }
                return Some(&self.entries[j].1);
            }
            j = j + 1;
        }
        proof {
            if self@.contains_key(name@) {
                let i = choose|i: int| 0 <= i < self.entries@.len() && self.entries@[i].0@ == name@;
            }
        }
        None
    }

    /// Sets the cookie called `name` to `value`, replacing an earlier value.
    pub fn insert(&mut self, name: String, value: String)
        requires
            old(self).wf(),
        ensures
            final(self).wf(),
            final(self)@ == old(self)@.insert(name@, value@),
    {
        let mut j: usize = 0;
        while j < self.entries.len()
            invariant
                self.entries@ == old(self).entries@,
                unique_names(self.entries@),
                0 <= j <= self.entries@.len(),
                forall|i: int| 0 <= i < j ==> self.entries@[i].0@ != name@,
            decreases self.entries@.len() - j,
        {
            if self.entries[j].0 == name {
                proof {
                    lemma_pairs_map_update(self.entries@, j as int, (name, value));
                }
                let ghost before = self.entries@;
                self.entries.set(j, (name, value));
                assert(self.entries@ == before.update(j as int, (name, value)));
                assert(unique_names(self.entries@)) by {
                    assert forall|a: int, b: int| 0 <= a < b < self.entries@.len() implies self.entries@[a].0@
                        != self.entries@[b].0@ by {
                        assert(before[a].0@ != before[b].0@);
                    }
                }
                return;
            }
            j = j + 1;
        }
        let ghost before = self.entries@;
        self.entries.push((name, value));
        assert(self.entries@.drop_last() =~= before);
        assert(unique_names(self.entries@)) by {
            assert forall|a: int, b: int| 0 <= a < b < self.entries@.len() implies self.entries@[a].0@
                != self.entries@[b].0@ by {
                if b < before.len() {
                    assert(before[a].0@ != before[b].0@);
                } else {
                    assert(before[a].0@ != name@);
                }
            }
        }
    }

    /// The cookies as `(name, value)` pairs, each name once, in no given order.
    pub fn into_pairs(self) -> (r: Vec<(String, String)>)
        requires
            self.wf(),
        ensures
            unique_names(r@),
            pairs_map(r@) == self@,
    {
        self.entries
    }
}

/// Reading the same cookies twice gives the same map: the map depends on the
/// cookies alone, and on nothing that the first reading left behind.
pub proof fn lemma_harvest_repeatable(
    first: Seq<(String, String)>,
    second: Seq<(String, String)>,
    m1: CookieMap,
    m2: CookieMap,
)
    requires
        first == second,
        m1@ == pairs_map(first),
        m2@ == pairs_map(second),
    ensures
        m1@ == m2@,
{
}

/// Folds the cookies that a page shows into a map by name. Where a name comes
/// twice (two scopes, say), the later value wins.
pub fn harvest(cookies: &Vec<(String, String)>) -> (r: CookieMap)
    ensures
        r.wf(),
        r@ == pairs_map(cookies@),
{
    let mut m = CookieMap::new();
    let mut i: usize = 0;
    while i < cookies.len()
        invariant
            0 <= i <= cookies@.len(),
            m.wf(),
            m@ == pairs_map(cookies@.take(i as int)),
        decreases cookies@.len() - i,
    {
        let name = cookies[i].0.clone();
        let value = cookies[i].1.clone();
        m.insert(name, value);
        assert(cookies@.take(i + 1).drop_last() =~= cookies@.take(i as int));
        i = i + 1;
    }
    assert(cookies@.take(cookies@.len() as int) =~= cookies@);
    m
}

} // verus!
