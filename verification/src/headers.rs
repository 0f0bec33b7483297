use vstd::prelude::*;

verus! {

/// The URL query: an ordered sequence of name/value pairs. Order is
/// significant and duplicate names are allowed.
pub type Query = Vec<(String, String)>;

/// Request or response metadata: a mapping from header name to the
/// ordered list of that header's values. Abstractly a map, so each
/// name has exactly one current value list; inserting a name again
/// replaces its values.
///
/// The representation keeps entries in insertion order; an entry is
/// shadowed by a later entry with the same name. The view collapses
/// the list into the map where the latest entry for a name wins.
#[derive(Debug, Clone)]
pub struct Headers {
    entries: Vec<(String, Vec<String>)>,
}

/// The mapping an entry list denotes: each entry binds its name to its
/// value list, and a later entry for the same name wins.
pub open spec fn map_of(s: Seq<(String, Vec<String>)>) -> Map<Seq<char>, Seq<Seq<char>>>
    decreases s.len(),
{
    if s.len() == 0 {
        Map::empty()
    } else {
        map_of(s.drop_last()).insert(s.last().0@, s.last().1.deep_view())
    }
}

impl View for Headers {
    type V = Map<Seq<char>, Seq<Seq<char>>>;

    closed spec fn view(&self) -> Map<Seq<char>, Seq<Seq<char>>> {
        map_of(self.entries@)
    }
}

/// A name is in the mapping exactly when some entry carries it.
proof fn lemma_map_of_contains(s: Seq<(String, Vec<String>)>, k: Seq<char>)
    ensures
        map_of(s).contains_key(k) <==> exists|i: int| 0 <= i < s.len() && (#[trigger] s[i]).0@ == k,
    decreases s.len(),
{
    if s.len() > 0 {
        lemma_map_of_contains(s.drop_last(), k);
        if map_of(s).contains_key(k) {
            if s.last().0@ == k {
                assert(s[s.len() - 1].0@ == k);
            } else {
                let i = choose|i: int| 0 <= i < s.drop_last().len() && (#[trigger] s.drop_last()[i]).0@ == k;
                assert(s[i].0@ == k);
            }
        }
        if exists|i: int| 0 <= i < s.len() && (#[trigger] s[i]).0@ == k {
            let i = choose|i: int| 0 <= i < s.len() && (#[trigger] s[i]).0@ == k;
            if i < s.len() - 1 {
                assert(s.drop_last()[i].0@ == k);
            }
        }
    }
}

/// The value bound to an entry's name is that entry's value list,
/// provided no later entry carries the same name.
proof fn lemma_map_of_value(s: Seq<(String, Vec<String>)>, i: int)
    requires
        0 <= i < s.len(),
        forall|j: int| i < j < s.len() ==> (#[trigger] s[j]).0@ != s[i].0@,
    ensures
        map_of(s).contains_key(s[i].0@),
        map_of(s)[s[i].0@] == s[i].1.deep_view(),
    decreases s.len(),
{
    if i == s.len() - 1 {
        assert(s.last() == s[i]);
    } else {
        assert(s.last() == s[s.len() - 1]);
        assert(s.last().0@ != s[i].0@);
        assert(s.drop_last()[i] == s[i]);
        lemma_map_of_value(s.drop_last(), i);
    }
}

impl Headers {
    /// An empty header mapping.
    pub fn new() -> (h: Headers)
        ensures
            h@ == Map::<Seq<char>, Seq<Seq<char>>>::empty(),
    {
        Headers { entries: Vec::new() }
    }

    /// Bind `name` to `values`, replacing any values `name` had.
    pub fn insert(&mut self, name: String, values: Vec<String>)
        ensures
            final(self)@ == old(self)@.insert(name@, values.deep_view()),
    {
        let ghost ghost_name = name@;
        let ghost ghost_values = values.deep_view();
        let ghost before = self.entries@;
        self.entries.push((name, values));
        proof {
            assert(self.entries@.drop_last() =~= before);
            assert(self.entries@.last().0@ == ghost_name);
            assert(self.entries@.last().1.deep_view() == ghost_values);
        }
    }

    /// The index of the entry currently bound to `name`: the latest
    /// entry carrying `name`, if any.
    fn index_of(&self, name: &String) -> (r: Option<usize>)
        ensures
            match r {
                Some(i) => i < self.entries@.len() && self.entries@[i as int].0@ == name@
                    && forall|j: int| i < j < self.entries@.len() ==> (#[trigger] self.entries@[j]).0@ != name@,
                None => forall|j: int| 0 <= j < self.entries@.len() ==> (#[trigger] self.entries@[j]).0@ != name@,
            },
    {
        let mut r: Option<usize> = None;
        let mut i: usize = 0;
        while i < self.entries.len()
            invariant
                i <= self.entries@.len(),
                match r {
                    Some(m) => m < i && self.entries@[m as int].0@ == name@
                        && forall|j: int| m < j < i ==> (#[trigger] self.entries@[j]).0@ != name@,
                    None => forall|j: int| 0 <= j < i ==> (#[trigger] self.entries@[j]).0@ != name@,
                },
            decreases self.entries@.len() - i,
        {
            if self.entries[i].0 == *name {
                r = Some(i);
            }
            i = i + 1;
        }
        r
    }

    /// The value list currently bound to `name`, if any.
    pub fn get(&self, name: &String) -> (r: Option<&Vec<String>>)
        ensures
            match r {
                Some(v) => self@.contains_key(name@) && self@[name@] == v.deep_view(),
                None => !self@.contains_key(name@),
            },
    {
        match self.index_of(name) {
            Some(i) => {
                proof {
                    lemma_map_of_value(self.entries@, i as int);
                }
                Some(&self.entries[i].1)
            },
            None => {
                proof {
                    lemma_map_of_contains(self.entries@, name@);
                }
                None
            },
        }
    }

    /// The entries as stored, in insertion order; a later entry for a
    /// name shadows an earlier one. Every entry's name is in the map,
    /// and the latest entry for a name carries the map's value for it.
    pub fn entries(&self) -> (r: &Vec<(String, Vec<String>)>)
        ensures
            forall|i: int| 0 <= i < r@.len() ==> self@.contains_key((#[trigger] r@[i]).0@),
            forall|i: int| 0 <= i < r@.len()
                && (forall|j: int| i < j < r@.len() ==> (#[trigger] r@[j]).0@ != r@[i].0@)
                ==> self@[(#[trigger] r@[i]).0@] == r@[i].1.deep_view(),
            forall|k: Seq<char>| self@.contains_key(k)
                ==> exists|i: int| 0 <= i < r@.len() && (#[trigger] r@[i]).0@ == k,
    {
        proof {
            assert forall|i: int| 0 <= i < self.entries@.len()
                implies self@.contains_key((#[trigger] self.entries@[i]).0@) by {
                lemma_map_of_contains(self.entries@, self.entries@[i].0@);
            }
            assert forall|i: int| 0 <= i < self.entries@.len()
                && (forall|j: int| i < j < self.entries@.len() ==> (#[trigger] self.entries@[j]).0@ != self.entries@[i].0@)
                implies self@[(#[trigger] self.entries@[i]).0@] == self.entries@[i].1.deep_view() by {
                lemma_map_of_value(self.entries@, i);
            }
            assert forall|k: Seq<char>| self@.contains_key(k)
                implies exists|i: int| 0 <= i < self.entries@.len() && (#[trigger] self.entries@[i]).0@ == k by {
                lemma_map_of_contains(self.entries@, k);
            }
        }
        &self.entries
    }
}

/// Two value lists are equal exactly when they hold the same strings
/// in the same order.
fn value_lists_equal(a: &Vec<String>, b: &Vec<String>) -> (r: bool)
    ensures
        r == (a.deep_view() == b.deep_view()),
{
    if a.len() != b.len() {
        proof {
            assert(a.deep_view().len() == a@.len());
            assert(b.deep_view().len() == b@.len());
        }
        return false;
    }
    let mut i: usize = 0;
    while i < a.len()
        invariant
            a@.len() == b@.len(),
            i <= a@.len(),
            forall|j: int| 0 <= j < i ==> (#[trigger] a@[j])@ == b@[j]@,
        decreases a@.len() - i,
    {
        if a[i] != b[i] {
            proof {
                assert(a.deep_view()[i as int] == a@[i as int]@);
                assert(b.deep_view()[i as int] == b@[i as int]@);
            }
            return false;
        }
        i = i + 1;
    }
    proof {
        assert(a.deep_view() =~= b.deep_view());
    }
    true
}

/// Every binding of `a` is also a binding of `b`.
fn contained_in(a: &Headers, b: &Headers) -> (r: bool)
    ensures
        r == (forall|k: Seq<char>| #[trigger] a@.contains_key(k)
            ==> b@.contains_key(k) && b@[k] == a@[k]),
{
    let n = a.entries.len();
    let mut i: usize = 0;
    while i < n
        invariant
            n == a.entries@.len(),
            i <= n,
            forall|j: int| 0 <= j < i ==> {
                let k = (#[trigger] a.entries@[j]).0@;
                b@.contains_key(k) && b@[k] == a@[k]
            },
        decreases n - i,
    {
        let name = &a.entries[i].0;
        proof {
            lemma_map_of_contains(a.entries@, name@);
        }
        // `name` is an entry's own key, so this lookup cannot miss.
        let av = match a.get(name) {
            Some(v) => v,
            None => {
                proof {
                    assert(false);
                }
                return false;
            },
        };
        match b.get(name) {
            Some(bv) => {
                if !value_lists_equal(av, bv) {
                    return false;
                }
            },
            None => {
                return false;
            },
        }
        i = i + 1;
    }
    proof {
        assert forall|k: Seq<char>| #[trigger] a@.contains_key(k)
            implies b@.contains_key(k) && b@[k] == a@[k] by {
            lemma_map_of_contains(a.entries@, k);
            let j = choose|j: int| 0 <= j < a.entries@.len() && (#[trigger] a.entries@[j]).0@ == k;
            assert(b@.contains_key(a.entries@[j].0@) && b@[a.entries@[j].0@] == a@[a.entries@[j].0@]);
        }
    }
    true
}

impl PartialEq for Headers {
    /// Header mappings are compared as mappings: the same names bound
    /// to the same value lists, regardless of insertion order.
    fn eq(&self, other: &Headers) -> (r: bool) {
        let r = contained_in(self, other) && contained_in(other, self);
        proof {
            if r {
                assert(self@ =~= other@);
            }
        }
        r
    }
}

impl vstd::std_specs::cmp::PartialEqSpecImpl for Headers {
    open spec fn obeys_eq_spec() -> bool {
        true
    }

    open spec fn eq_spec(&self, other: &Headers) -> bool {
        self@ == other@
    }
}

} // verus!
