//! Tables of pending requests keyed by request id.
use vstd::prelude::*;

verus! {

/// A value that belongs to one connected client.
pub trait Owned {
    spec fn owner(&self) -> usize;

    fn owner_id(&self) -> (r: usize)
        ensures
            r == self.owner(),
    ;
}

pub open spec fn entry_views<V>(s: Seq<(String, V)>) -> Seq<(Seq<char>, V)> {
    s.map_values(|e: (String, V)| (e.0@, e.1))
}

/// The map an entry list describes; a later entry wins over an earlier one.
pub open spec fn to_map<V>(s: Seq<(Seq<char>, V)>) -> Map<Seq<char>, V>
    decreases s.len(),
{
    if s.len() == 0 {
        Map::empty()
    } else {
        to_map(s.drop_last()).insert(s.last().0, s.last().1)
    }
}

pub open spec fn unique_keys<V>(s: Seq<(Seq<char>, V)>) -> bool {
    forall|i: int, j: int| 0 <= i < j < s.len() ==> s[i].0 != s[j].0
}

proof fn lemma_to_map_dom<V>(s: Seq<(Seq<char>, V)>, k: Seq<char>)
    ensures
        to_map(s).dom().contains(k) <==> exists|i: int| 0 <= i < s.len() && #[trigger] s[i].0 == k,
    decreases s.len(),
{
    if s.len() > 0 {
        let t = s.drop_last();
        lemma_to_map_dom(t, k);
        if to_map(s).dom().contains(k) {
            if k == s.last().0 {
                assert(s[s.len() - 1].0 == k);
            } else {
                let i = choose|i: int| 0 <= i < t.len() && #[trigger] t[i].0 == k;
                assert(s[i].0 == k);
            }
        }
        if exists|i: int| 0 <= i < s.len() && #[trigger] s[i].0 == k {
            let i = choose|i: int| 0 <= i < s.len() && #[trigger] s[i].0 == k;
            if i < s.len() - 1 {
                assert(t[i].0 == k);
            }
        }
    }
}

proof fn lemma_to_map_value<V>(s: Seq<(Seq<char>, V)>, i: int)
    requires
        unique_keys(s),
        0 <= i < s.len(),
    ensures
        to_map(s).dom().contains(s[i].0),
        to_map(s)[s[i].0] == s[i].1,
    decreases s.len(),
{
    let t = s.drop_last();
    if i < s.len() - 1 {
        assert(s[i].0 != s[s.len() - 1].0);
        assert(t[i] == s[i]);
        lemma_to_map_value(t, i);
    }
}

proof fn lemma_to_map_remove<V>(s: Seq<(Seq<char>, V)>, i: int)
    requires
        unique_keys(s),
        0 <= i < s.len(),
    ensures
        unique_keys(s.remove(i)),
        to_map(s.remove(i)) == to_map(s).remove(s[i].0),
{
    let r = s.remove(i);
    let k = s[i].0;
    assert forall|a: int, b: int| 0 <= a < b < r.len() implies r[a].0 != r[b].0 by {
        let a2 = if a < i { a } else { a + 1 };
        let b2 = if b < i { b } else { b + 1 };
        assert(r[a] == s[a2] && r[b] == s[b2]);
    }
    assert forall|key: Seq<char>| #[trigger] to_map(r).dom().contains(key) <==> to_map(s).remove(
        k,
    ).dom().contains(key) by {
        lemma_to_map_dom(r, key);
        lemma_to_map_dom(s, key);
        if to_map(r).dom().contains(key) {
            let j = choose|j: int| 0 <= j < r.len() && #[trigger] r[j].0 == key;
            let j2 = if j < i { j } else { j + 1 };
            assert(s[j2].0 == key);
            assert(key != k);
        }
        if to_map(s).remove(k).dom().contains(key) {
            let j = choose|j: int| 0 <= j < s.len() && #[trigger] s[j].0 == key;
            assert(j != i);
            let j2 = if j < i { j } else { j - 1 };
            assert(r[j2].0 == key);
        }
    }
    assert forall|key: Seq<char>| #[trigger] to_map(r).dom().contains(key) implies to_map(r)[key]
        == to_map(s).remove(k)[key] by {
        lemma_to_map_dom(r, key);
        let j = choose|j: int| 0 <= j < r.len() && #[trigger] r[j].0 == key;
        let j2 = if j < i { j } else { j + 1 };
        assert(r[j] == s[j2]);
        lemma_to_map_value(r, j);
        lemma_to_map_value(s, j2);
    }
    assert(to_map(r) =~= to_map(s).remove(k));
}

/// A table of pending requests: request id to what is waiting for the answer.
pub struct PendingTable<V> {
    entries: Vec<(String, V)>,
}

impl<V> View for PendingTable<V> {
    type V = Map<Seq<char>, V>;

    closed spec fn view(&self) -> Map<Seq<char>, V> {
        to_map(entry_views(self.entries@))
    }
}

impl<V> PendingTable<V> {
    /// Each request id appears once.
    pub closed spec fn wf(&self) -> bool {
        unique_keys(entry_views(self.entries@))
    }

    /// An empty table.
    pub fn new() -> (r: Self)
        ensures
            r.wf(),
            r@ == Map::<Seq<char>, V>::empty(),
    {
        let r = PendingTable { entries: Vec::new() };
        assert(entry_views(r.entries@) =~= Seq::<(Seq<char>, V)>::empty());
        r
    }

    fn find(&self, key: &str) -> (r: Option<usize>)
        requires
            self.wf(),
        ensures
            match r {
                Some(i) => i < self.entries@.len() && self.entries@[i as int].0@ == key@,
                None => !self@.dom().contains(key@),
            },
    {
        let ghost ev = entry_views(self.entries@);
        let mut i: usize = 0;
        while i < self.entries.len()
            invariant
                i <= self.entries.len(),
                ev == entry_views(self.entries@),
                forall|j: int| 0 <= j < i ==> #[trigger] ev[j].0 != key@,
            decreases self.entries.len() - i,
        {
            if str_eq(self.entries[i].0.as_str(), key) {
                return Some(i);
            }
            assert(ev[i as int].0 == self.entries@[i as int].0@);
            i = i + 1;
        }
        proof {
            lemma_to_map_dom(ev, key@);
        }
        None
    }

    /// The value waiting under `key`.
    pub fn get(&self, key: &str) -> (r: Option<&V>)
        requires
            self.wf(),
        ensures
            match r {
                Some(v) => self@.dom().contains(key@) && self@[key@] == *v,
                None => !self@.dom().contains(key@),
            },
    {
        match self.find(key) {
            Some(i) => {
                proof {
                    let ev = entry_views(self.entries@);
                    assert(ev[i as int] == (self.entries@[i as int].0@, self.entries@[i as int].1));
                    lemma_to_map_value(ev, i as int);
                }
                Some(&self.entries[i].1)
            },
            None => None,
        }
    }

    /// Removes and returns the value waiting under `key`.
    pub fn remove(&mut self, key: &str) -> (r: Option<V>)
        requires
            old(self).wf(),
        ensures
            final(self).wf(),
            match r {
                Some(v) => old(self)@.dom().contains(key@) && old(self)@[key@] == v,
                None => !old(self)@.dom().contains(key@),
            },
            final(self)@ == old(self)@.remove(key@),
    {
        match self.find(key) {
            Some(i) => {
                let ghost ev = entry_views(self.entries@);
                proof {
                    assert(ev[i as int] == (self.entries@[i as int].0@, self.entries@[i as int].1));
                    lemma_to_map_value(ev, i as int);
                    lemma_to_map_remove(ev, i as int);
                    assert(entry_views(self.entries@.remove(i as int)) =~= ev.remove(i as int));
                }
                let e = self.entries.remove(i);
                Some(e.1)
            },
            None => {
                proof {
                    assert(old(self)@.remove(key@) =~= old(self)@);
                }
                None
            },
        }
    }

    /// Sets the value waiting under `key`, replacing any earlier one.
    pub fn insert(&mut self, key: String, value: V)
        requires
            old(self).wf(),
        ensures
            final(self).wf(),
            final(self)@ == old(self)@.insert(key@, value),
    {
        let _ = self.remove(key.as_str());
        let ghost ev = entry_views(self.entries@);
        let ghost k = key@;
        proof {
            lemma_to_map_dom(ev, k);
        }
        self.entries.push((key, value));
        proof {
            let nv = entry_views(self.entries@);
            assert(nv =~= ev.push((k, value)));
            assert(nv.drop_last() =~= ev);
            assert forall|a: int, b: int| 0 <= a < b < nv.len() implies nv[a].0 != nv[b].0 by {
                if b == nv.len() - 1 {
                    assert(nv[a] == ev[a]);
                    assert(ev[a].0 != k);
                }
            }
        }
    }

    /// Removes every pending request.
    pub fn clear(&mut self)
        ensures
            final(self).wf(),
            final(self)@ == Map::<Seq<char>, V>::empty(),
    {
        self.entries.clear();
        assert(entry_views(self.entries@) =~= Seq::<(Seq<char>, V)>::empty());
    }

    /// Whether nothing is pending.
    pub fn is_empty(&self) -> (r: bool)
        ensures
            r == (self@ == Map::<Seq<char>, V>::empty()),
    {
        proof {
            let ev = entry_views(self.entries@);
            if ev.len() > 0 {
                lemma_to_map_dom(ev, ev[0].0);
                assert(self@.dom().contains(ev[0].0));
            } else {
                assert(self@ =~= Map::<Seq<char>, V>::empty());
            }
        }
        self.entries.len() == 0
    }

    /// Whether something waits under `key`.
    pub fn contains_key(&self, key: &str) -> (r: bool)
        requires
            self.wf(),
        ensures
            r == self@.dom().contains(key@),
    {
        match self.find(key) {
            Some(i) => {
                proof {
                    let ev = entry_views(self.entries@);
                    assert(ev[i as int].0 == key@);
                    lemma_to_map_value(ev, i as int);
                }
                true
            },
            None => false,
        }
    }
}

/// `m` without the entries owned by `client`.
pub open spec fn without_client<V: Owned>(m: Map<Seq<char>, V>, client: usize) -> Map<
    Seq<char>,
    V,
> {
    Map::new(|k: Seq<char>| m.dom().contains(k) && m[k].owner() != client, |k: Seq<char>| m[k])
}

impl<V: Owned> PendingTable<V> {
    /// Drops every pending request owned by `client`.
    pub fn remove_client(&mut self, client: usize)
        requires
            old(self).wf(),
        ensures
            final(self).wf(),
            final(self)@ == without_client(old(self)@, client),
    {
        let ghost old_map = self@;
        let mut i: usize = 0;
        while i < self.entries.len()
            invariant
                i <= self.entries.len(),
                unique_keys(entry_views(self.entries@)),
                forall|k: Seq<char>| #[trigger]
                    to_map(entry_views(self.entries@)).dom().contains(k) ==> old_map.dom().contains(
                        k,
                    ) && to_map(entry_views(self.entries@))[k] == old_map[k],
                forall|k: Seq<char>|
                    old_map.dom().contains(k) && #[trigger] old_map[k].owner() != client ==> to_map(
                        entry_views(self.entries@),
                    ).dom().contains(k),
                forall|j: int| 0 <= j < i ==> (#[trigger] self.entries@[j]).1.owner() != client,
            decreases self.entries.len() - i,
        {
            let ghost ev = entry_views(self.entries@);
            if self.entries[i].1.owner_id() == client {
                proof {
                    assert(ev[i as int] == (self.entries@[i as int].0@, self.entries@[i as int].1));
                    lemma_to_map_value(ev, i as int);
                    lemma_to_map_remove(ev, i as int);
                    assert(entry_views(self.entries@.remove(i as int)) =~= ev.remove(i as int));
                }
                let _ = self.entries.remove(i);
                proof {
                    assert(entry_views(self.entries@) =~= ev.remove(i as int));
                }
            } else {
                i = i + 1;
            }
        }
        proof {
            let ev = entry_views(self.entries@);
            assert forall|k: Seq<char>| #[trigger] to_map(ev).dom().contains(k) <==> without_client(
                old_map,
                client,
            ).dom().contains(k) by {
                lemma_to_map_dom(ev, k);
                if to_map(ev).dom().contains(k) {
                    let j = choose|j: int| 0 <= j < ev.len() && #[trigger] ev[j].0 == k;
                    assert(ev[j] == (self.entries@[j].0@, self.entries@[j].1));
                    lemma_to_map_value(ev, j);
                    assert(self.entries@[j].1.owner() != client);
                }
            }
            assert(to_map(ev) =~= without_client(old_map, client));
        }
    }
}

/// String equality.
pub fn str_eq(a: &str, b: &str) -> (r: bool)
    ensures
        r == (a@ == b@),
{
    let x = crate::text::to_chars(a);
    let y = crate::text::to_chars(b);
    crate::text::chars_eq(x.as_slice(), y.as_slice())
}

} // verus!
