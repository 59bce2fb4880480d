//! The registry: an ordered identifier-to-endpoint mapping, built once and
//! then read-only.  Its mathematical content is a `Map<Seq<char>,
//! EndpointView>`; insertion order is kept for deterministic diagnostics
//! but determines no lookup behavior.

use vstd::prelude::*;
use vstd::pervasive::VecAdditionalExecFns;

use crate::endpoint::{Endpoint, EndpointView};

verus! {

/// Each entry's image sits at the entry's own index.
proof fn lemma_kv_index(s: Seq<(String, Endpoint)>)
    ensures
        kv(s).len() == s.len(),
        forall|j: int| 0 <= j < s.len() ==> #[trigger] kv(s)[j] == (s[j].0@, s[j].1@),
{
}

/// The key/value image of the backing entry list.
spec fn kv(entries: Seq<(String, Endpoint)>) -> Seq<(Seq<char>, EndpointView)> {
    entries.map_values(|p: (String, Endpoint)| (p.0@, p.1@))
}

/// No identifier occurs twice.
spec fn unique_keys(s: Seq<(Seq<char>, EndpointView)>) -> bool {
    forall|i: int, j: int| 0 <= i < j < s.len() ==> s[i].0 != s[j].0
}

/// The mapping an entry list denotes: later entries override earlier ones
/// (under `unique_keys` there is nothing to override).
spec fn assoc_map(s: Seq<(Seq<char>, EndpointView)>) -> Map<Seq<char>, EndpointView>
    decreases s.len(),
{
    if s.len() == 0 {
        Map::empty()
    } else {
        assoc_map(s.drop_last()).insert(s.last().0, s.last().1)
    }
}

proof fn lemma_assoc_contains(s: Seq<(Seq<char>, EndpointView)>, k: Seq<char>)
    ensures
        assoc_map(s).dom().contains(k) <==> (exists|i: int| 0 <= i < s.len() && s[i].0 == k),
    decreases s.len(),
{
    if s.len() > 0 {
        lemma_assoc_contains(s.drop_last(), k);
        if assoc_map(s).dom().contains(k) {
            if s.last().0 == k {
                assert(s[s.len() - 1].0 == k);
            } else {
                let i = choose|i: int| 0 <= i < s.drop_last().len() && s.drop_last()[i].0 == k;
                assert(s[i].0 == k);
            }
        }
        if exists|i: int| 0 <= i < s.len() && s[i].0 == k {
            let i = choose|i: int| 0 <= i < s.len() && s[i].0 == k;
            if i < s.len() - 1 {
                assert(s.drop_last()[i].0 == k);
            }
        }
    }
}

proof fn lemma_assoc_get(s: Seq<(Seq<char>, EndpointView)>, i: int)
    requires
        unique_keys(s),
        0 <= i < s.len(),
    ensures
        assoc_map(s).dom().contains(s[i].0),
        assoc_map(s)[s[i].0] == s[i].1,
    decreases s.len(),
{
    if i < s.len() - 1 {
        assert(unique_keys(s.drop_last()));
        lemma_assoc_get(s.drop_last(), i);
        assert(s[i].0 != s.last().0);
    }
}

proof fn lemma_assoc_push(s: Seq<(Seq<char>, EndpointView)>, p: (Seq<char>, EndpointView))
    ensures
        assoc_map(s.push(p)) == assoc_map(s).insert(p.0, p.1),
{
    assert(s.push(p).drop_last() =~= s);
}

proof fn lemma_assoc_update(s: Seq<(Seq<char>, EndpointView)>, i: int, v: EndpointView)
    requires
        unique_keys(s),
        0 <= i < s.len(),
    ensures
        assoc_map(s.update(i, (s[i].0, v))) == assoc_map(s).insert(s[i].0, v),
    decreases s.len(),
{
    let s2 = s.update(i, (s[i].0, v));
    if i == s.len() - 1 {
        assert(s2.drop_last() =~= s.drop_last());
        assert(assoc_map(s2) =~= assoc_map(s).insert(s[i].0, v));
    } else {
        assert(unique_keys(s.drop_last()));
        lemma_assoc_update(s.drop_last(), i, v);
        assert(s2.drop_last() =~= s.drop_last().update(i, (s[i].0, v)));
        assert(s2.last() == s.last());
        assert(s[i].0 != s.last().0);
        assert(assoc_map(s2) =~= assoc_map(s).insert(s[i].0, v));
    }
}

proof fn lemma_assoc_dom_len(s: Seq<(Seq<char>, EndpointView)>)
    requires
        unique_keys(s),
    ensures
        assoc_map(s).dom().finite(),
        assoc_map(s).dom().len() == s.len(),
    decreases s.len(),
{
    if s.len() > 0 {
        assert(unique_keys(s.drop_last()));
        lemma_assoc_dom_len(s.drop_last());
        lemma_assoc_contains(s.drop_last(), s.last().0);
        assert(forall|i: int| 0 <= i < s.drop_last().len() ==> s[i].0 != s.last().0);
        assert(!assoc_map(s.drop_last()).dom().contains(s.last().0));
    }
}

/// The index at which `entries` binds `id`, if any.
fn find_index(entries: &Vec<(String, Endpoint)>, id: &str) -> (o: Option<usize>)
    ensures
        match o {
            Some(i) => i < entries@.len() && entries@[i as int].0@ == id@,
            None => forall|j: int| 0 <= j < entries@.len() ==> entries@[j].0@ != id@,
        },
{
    let key: String = id.to_owned();
    let n = entries.len();
    let mut j: usize = 0;
    while j < n
        invariant
            n == entries@.len(),
            j <= n,
            key@ == id@,
            forall|t: int| 0 <= t < j ==> entries@[t].0@ != id@,
        decreases n - j,
    {
        if entries[j].0 == key {
            return Some(j);
        }
        j += 1;
    }
    None
}

/// The identifier-to-endpoint mapping shared read-only by every request
/// handler after construction.
pub struct Registry {
    entries: Vec<(String, Endpoint)>,
}

impl View for Registry {
    type V = Map<Seq<char>, EndpointView>;

    closed spec fn view(&self) -> Map<Seq<char>, EndpointView> {
        assoc_map(kv(self.entries@))
    }
}

impl Registry {
    #[verifier::type_invariant]
    spec fn inv(self) -> bool {
        unique_keys(kv(self.entries@))
    }

    /// An empty registry.
    pub fn new() -> (r: Registry)
        ensures
            r@ == Map::<Seq<char>, EndpointView>::empty(),
    {
        Registry { entries: Vec::new() }
    }

    /// Whether `id` is bound in the registry.
    pub fn contains(&self, id: &str) -> (b: bool)
        ensures
            b == self@.dom().contains(id@),
    {
        proof {
            use_type_invariant(&*self);
            lemma_assoc_contains(kv(self.entries@), id@);
            lemma_kv_index(self.entries@);
        }
        let o = find_index(&self.entries, id);
        match o {
            Some(i) => {
                proof {
                    assert(kv(self.entries@)[i as int].0 == id@);
                }
                true
            },
            None => {
                proof {
                    assert(forall|j: int|
                        0 <= j < kv(self.entries@).len() ==> kv(self.entries@)[j].0 != id@);
                }
                false
            },
        }
    }

    /// The endpoint answering for `id`, if any.
    pub fn get(&self, id: &str) -> (o: Option<&Endpoint>)
        ensures
            match o {
                Some(e) => self@.dom().contains(id@) && e@ == self@[id@],
                None => !self@.dom().contains(id@),
            },
    {
        proof {
            use_type_invariant(&*self);
            lemma_assoc_contains(kv(self.entries@), id@);
            lemma_kv_index(self.entries@);
        }
        match find_index(&self.entries, id) {
            Some(i) => {
                proof {
                    lemma_assoc_get(kv(self.entries@), i as int);
                }
                Some(&self.entries[i].1)
            },
            None => None,
        }
    }

    /// Binds `id` to `e`, replacing any existing binding.
    pub fn insert(&mut self, id: String, e: Endpoint)
        ensures
            final(self)@ == old(self)@.insert(id@, e@),
    {
        proof {
            use_type_invariant(&*self);
            lemma_kv_index(self.entries@);
        }
        let ghost s0 = kv(self.entries@);
        let mut entries: Vec<(String, Endpoint)> = Vec::new();
        core::mem::swap(&mut entries, &mut self.entries);
        match find_index(&entries, id.as_str()) {
            Some(i) => {
                proof {
                    lemma_assoc_update(s0, i as int, e@);
                }
                entries.set(i, (id, e));
                proof {
                    lemma_kv_index(entries@);
                    assert(kv(entries@) =~= s0.update(i as int, (s0[i as int].0, e@)));
                    assert(unique_keys(kv(entries@)));
                }
            },
            None => {
                proof {
                    lemma_assoc_push(s0, (id@, e@));
                }
                entries.push((id, e));
                proof {
                    lemma_kv_index(entries@);
                    assert(kv(entries@) =~= s0.push((id@, e@)));
                    assert(unique_keys(kv(entries@)));
                }
            },
        }
        self.entries = entries;
    }

    /// Binds `id` to `e` only when `id` is not yet bound: the one operation
    /// through which built-ins enter, so that discovered bundles are never
    /// silently overwritten.
    pub fn insert_if_absent(&mut self, id: String, e: Endpoint)
        ensures
            final(self)@ == if old(self)@.dom().contains(id@) {
                old(self)@
            } else {
                old(self)@.insert(id@, e@)
            },
    {
        proof {
            use_type_invariant(&*self);
            lemma_assoc_contains(kv(self.entries@), id@);
            lemma_kv_index(self.entries@);
        }
        let ghost s0 = kv(self.entries@);
        let mut entries: Vec<(String, Endpoint)> = Vec::new();
        core::mem::swap(&mut entries, &mut self.entries);
        match find_index(&entries, id.as_str()) {
            Some(i) => {
                proof {
                    assert(s0[i as int].0 == id@);
                    assert(old(self)@.dom().contains(id@));
                }
            },
            None => {
                proof {
                    assert(forall|j: int| 0 <= j < s0.len() ==> s0[j].0 != id@);
                    assert(!old(self)@.dom().contains(id@));
                }
                proof {
                    lemma_assoc_push(s0, (id@, e@));
                }
                entries.push((id, e));
                proof {
                    lemma_kv_index(entries@);
                    assert(kv(entries@) =~= s0.push((id@, e@)));
                    assert(unique_keys(kv(entries@)));
                }
            },
        }
        self.entries = entries;
    }

    /// How many identifiers are bound.
    pub fn len(&self) -> (n: usize)
        ensures
            n == self@.dom().len(),
    {
        proof {
            use_type_invariant(&*self);
            lemma_assoc_dom_len(kv(self.entries@));
        }
        self.entries.len()
    }
}

} // verus!
