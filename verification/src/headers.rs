//! The header container of the response model: a mapping from header name
//! to header value. Names are case-sensitive here; adapters store names
//! lowercased, and the engine itself only uses lowercase names.

use vstd::prelude::*;

use crate::text::str_eq;

verus! {

/// True when some entry of `s` has the key `k`.
pub open spec fn has_key(s: Seq<(String, String)>, k: Seq<char>) -> bool {
    exists|i: int| 0 <= i < s.len() && s[i].0@ == k
}

/// The value of the entry of `s` with key `k`.
pub open spec fn value_of(s: Seq<(String, String)>, k: Seq<char>) -> Seq<char> {
    s[choose|i: int| 0 <= i < s.len() && s[i].0@ == k].1@
}

/// The map `m` with every entry of `l` inserted, in order: on a repeated
/// key the later entry wins.
pub open spec fn merged(
    m: Map<Seq<char>, Seq<char>>,
    l: Seq<(String, String)>,
) -> Map<Seq<char>, Seq<char>>
    decreases l.len(),
{
    if l.len() == 0 {
        m
    } else {
        merged(m, l.drop_last()).insert(l.last().0@, l.last().1@)
    }
}

/// True when no two entries of `s` share a key.
pub open spec fn keys_unique(s: Seq<(String, String)>) -> bool {
    forall|i: int, j: int| 0 <= i < j < s.len() ==> s[i].0@ != s[j].0@
}

/// A mapping from header name to header value, with insert-overwrites
/// semantics. Viewed as a `Map<Seq<char>, Seq<char>>`.
#[derive(Debug, Clone)]
pub struct Headers {
    entries: Vec<(String, String)>,
}

impl View for Headers {
    type V = Map<Seq<char>, Seq<char>>;

    closed spec fn view(&self) -> Map<Seq<char>, Seq<char>> {
        Map::new(
            |k: Seq<char>| has_key(self.entries@, k),
            |k: Seq<char>| value_of(self.entries@, k),
        )
    }
}

impl Headers {
    /// True when no two entries share a key; every `Headers` built and
    /// changed through these methods satisfies it.
    pub closed spec fn wf(&self) -> bool {
        keys_unique(self.entries@)
    }

    /// The underlying sequence of `(name, value)` entries.
    pub closed spec fn entry_seq(&self) -> Seq<(String, String)> {
        self.entries@
    }

    /// Creates an empty header map.
    pub fn new() -> (r: Headers)
        ensures
            r.wf(),
            r@ == Map::<Seq<char>, Seq<char>>::empty(),
    {
        let r = Headers { entries: Vec::new() };
        proof {
            assert(r@ =~= Map::<Seq<char>, Seq<char>>::empty());
        }
        r
    }

    /// Looks the header `key` up.
    pub fn get<'a>(&'a self, key: &str) -> (r: Option<&'a String>)
        requires
            self.wf(),
        ensures
            match r {
                Some(v) => self@.contains_key(key@) && v@ == self@[key@],
                None => !self@.contains_key(key@),
            },
    {
        let n = self.entries.len();
        let mut i: usize = 0;
        while i < n
            invariant
                self.wf(),
                n == self.entries@.len(),
                i <= n,
                forall|j: int| 0 <= j < i ==> self.entries@[j].0@ != key@,
            decreases n - i,
        {
            if str_eq(self.entries[i].0.as_str(), key) {
                return Some(&self.entries[i].1);
            }
            i = i + 1;
        }
        None
    }

    /// True when the header `key` is present.
    pub fn contains_key(&self, key: &str) -> (r: bool)
        requires
            self.wf(),
        ensures
            r == self@.contains_key(key@),
    {
        self.get(key).is_some()
    }

    /// Inserts the header `key` with `value`, replacing any existing value.
    pub fn insert(&mut self, key: String, value: String)
        requires
            old(self).wf(),
        ensures
            final(self).wf(),
            final(self)@ == old(self)@.insert(key@, value@),
    {
        let n = self.entries.len();
        let mut i: usize = 0;
        while i < n
            invariant
                self.wf(),
                self == old(self),
                n == self.entries@.len(),
                i <= n,
                forall|j: int| 0 <= j < i ==> self.entries@[j].0@ != key@,
            decreases n - i,
        {
            if str_eq(self.entries[i].0.as_str(), key.as_str()) {
                self.entries[i] = (key, value);
                proof {
                    let se = self.entries@;
                    let oe = old(self).entries@;
                    assert(forall|j: int| 0 <= j < se.len() ==> (#[trigger] se[j]).0@ == oe[j].0@);
                    assert forall|k: Seq<char>| has_key(se, k) implies has_key(oe, k) by {
                        let j = choose|j: int| 0 <= j < se.len() && se[j].0@ == k;
                        assert(oe[j].0@ == k);
                    }
                    assert forall|k: Seq<char>| has_key(oe, k) implies has_key(se, k) by {
                        let j = choose|j: int| 0 <= j < oe.len() && oe[j].0@ == k;
                        assert(se[j].0@ == k);
                    }
                    assert forall|k: Seq<char>| has_key(se, k) && k != key@ implies value_of(
                        se,
                        k,
                    ) == value_of(oe, k) by {
                        let j = choose|j: int| 0 <= j < se.len() && se[j].0@ == k;
                        assert(j != i);
                        assert(se[j] == oe[j]);
                        let j1 = choose|j1: int| 0 <= j1 < oe.len() && oe[j1].0@ == k;
                        assert(j1 == j);
                    }
                    assert(value_of(se, key@) == value@) by {
                        let j = choose|j: int| 0 <= j < se.len() && se[j].0@ == key@;
                        assert(j == i);
                    }
                    assert(final(self)@ =~= old(self)@.insert(key@, value@));
                }
                return;
            }
            i = i + 1;
        }
        self.entries.push((key, value));
        proof {
            let se = self.entries@;
            let oe = old(self).entries@;
            let n1 = oe.len() as int;
            assert(forall|j: int| 0 <= j < n1 ==> oe[j] == #[trigger] se[j]);
            assert(se[n1] == (key, value));
            assert forall|k: Seq<char>| has_key(se, k) implies has_key(oe, k) || k == key@ by {
                let j = choose|j: int| 0 <= j < se.len() && se[j].0@ == k;
                if j < n1 {
                    assert(oe[j].0@ == k);
                }
            }
            assert forall|k: Seq<char>| has_key(se, k) && k != key@ implies value_of(se, k)
                == value_of(oe, k) by {
                let j = choose|j: int| 0 <= j < se.len() && se[j].0@ == k;
                assert(j < n1);
                assert(oe[j].0@ == k);
                let j1 = choose|j1: int| 0 <= j1 < oe.len() && oe[j1].0@ == k;
                assert(se[j1].0@ == k);
            }
            assert(value_of(se, key@) == value@) by {
                let j = choose|j: int| 0 <= j < se.len() && se[j].0@ == key@;
                if j < n1 {
                    assert(oe[j].0@ == key@);
                }
            }
            assert(has_key(se, key@)) by {
                assert(se[n1].0@ == key@);
            }
            assert forall|k: Seq<char>| has_key(oe, k) implies has_key(se, k) by {
                let j = choose|j: int| 0 <= j < oe.len() && oe[j].0@ == k;
                assert(se[j].0@ == k);
            }
            assert(final(self).wf());
            assert(final(self)@ =~= old(self)@.insert(key@, value@));
        }
    }

    /// Removes the header `key` if present.
    pub fn remove(&mut self, key: &str)
        requires
            old(self).wf(),
        ensures
            final(self).wf(),
            final(self)@ == old(self)@.remove(key@),
    {
        let n = self.entries.len();
        let mut i: usize = 0;
        while i < n
            invariant
                self.wf(),
                self == old(self),
                n == self.entries@.len(),
                i <= n,
                forall|j: int| 0 <= j < i ==> self.entries@[j].0@ != key@,
            decreases n - i,
        {
            if str_eq(self.entries[i].0.as_str(), key) {
                self.entries.remove(i);
                proof {
                    let se = self.entries@;
                    let oe = old(self).entries@;
                    assert forall|k: Seq<char>| has_key(se, k) implies has_key(oe, k) && k != key@
                        && value_of(se, k) == value_of(oe, k) by {
                        let j = choose|j: int| 0 <= j < se.len() && se[j].0@ == k;
                        let j0: int = if j < i { j } else { j + 1 };
                        assert(oe[j0].0@ == k);
                        let j1 = choose|j1: int| 0 <= j1 < oe.len() && oe[j1].0@ == k;
                        assert(oe[j1] == se[j]);
                    }
                    assert forall|k: Seq<char>| has_key(oe, k) && k != key@ implies has_key(se, k) by {
                        let j = choose|j: int| 0 <= j < oe.len() && oe[j].0@ == k;
                        let j0: int = if j < i { j } else { j - 1 };
                        assert(se[j0].0@ == k);
                    }
                    assert(final(self)@ =~= old(self)@.remove(key@));
                }
                return;
            }
            i = i + 1;
        }
        proof {
            assert(final(self)@ =~= old(self)@.remove(key@));
        }
    }

    /// The entries, for adapters that need to walk every header.
    pub fn entries(&self) -> (r: &Vec<(String, String)>)
        ensures
            r@ == self.entry_seq(),
    {
        &self.entries
    }

}

} // verus!
