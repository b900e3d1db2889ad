//! The attribute map of one scanned asset declaration.
//!
//! A declaration is a mapping of attribute name to attribute value, immutable
//! once scanned. It is kept as an association list whose lookup takes the
//! first binding of a name; element attributes are unique in well-formed
//! HTML, so duplicate names do not arise in practice.

use vstd::prelude::*;
use vstd::string::*;

verus! {

/// First-match lookup of `name` in an association list of attributes.
pub open spec fn attrs_get(entries: Seq<(Seq<char>, Seq<char>)>, name: Seq<char>) -> Option<
    Seq<char>,
>
    decreases entries.len(),
{
    if entries.len() == 0 {
        None
    } else if entries[0].0 == name {
        Some(entries[0].1)
    } else {
        attrs_get(entries.drop_first(), name)
    }
}

/// All attributes of one asset declaration.
pub struct Attrs {
    entries: Vec<(String, String)>,
}

impl View for Attrs {
    type V = Seq<(Seq<char>, Seq<char>)>;

    closed spec fn view(&self) -> Seq<(Seq<char>, Seq<char>)> {
        self.entries@.map_values(|p: (String, String)| (p.0@, p.1@))
    }
}

proof fn lemma_attrs_get_skip(entries: Seq<(Seq<char>, Seq<char>)>, name: Seq<char>, i: int)
    requires
        0 <= i <= entries.len(),
        forall|j: int| 0 <= j < i ==> entries[j].0 != name,
    ensures
        attrs_get(entries, name) == attrs_get(entries.skip(i), name),
    decreases i,
{
    if i > 0 {
        assert(entries[0].0 != name);
        lemma_attrs_get_skip(entries.drop_first(), name, i - 1);
        assert(entries.drop_first().skip(i - 1) =~= entries.skip(i));
    } else {
        assert(entries.skip(0) =~= entries);
    }
}

impl Attrs {
    /// An attribute map with no bindings.
    pub fn new() -> (r: Attrs)
        ensures
            r@ == Seq::<(Seq<char>, Seq<char>)>::empty(),
    {
        let r = Attrs { entries: Vec::new() };
        proof {
            assert(r@ =~= Seq::<(Seq<char>, Seq<char>)>::empty());
        }
        r
    }

    /// Add one binding. Lookup takes the first binding of a name, so a
    /// repeated name does not shadow an earlier one.
    pub fn insert(&mut self, name: String, value: String)
        ensures
            final(self)@ == old(self)@.push((name@, value@)),
    {
        let ghost pre = self@;
        self.entries.push((name, value));
        proof {
            assert(self@ =~= pre.push((name@, value@)));
        }
    }

    /// Look the value of `name` up, first binding first.
    pub fn get<'a>(&'a self, name: &str) -> (r: Option<&'a String>)
        ensures
            match r {
                Some(v) => attrs_get(self@, name@) == Some(v@),
                None => attrs_get(self@, name@) is None,
            },
    {
        let key = name.to_owned();
        let n = self.entries.len();
        let mut i: usize = 0;
        while i < n
            invariant
                n == self.entries.len(),
                key@ == name@,
                0 <= i <= n,
                forall|j: int| 0 <= j < i ==> self@[j].0 != name@,
            decreases n - i,
        {
            proof {
                assert(self@[i as int] == (self.entries@[i as int].0@, self.entries@[i as int].1@));
            }
            if self.entries[i].0.eq(&key) {
                proof {
                    lemma_attrs_get_skip(self@, name@, i as int);
                    assert(self@.skip(i as int)[0] == self@[i as int]);
                }
                return Some(&self.entries[i].1);
            }
            i = i + 1;
        }
        proof {
            lemma_attrs_get_skip(self@, name@, n as int);
            assert(self@.skip(n as int) =~= Seq::<(Seq<char>, Seq<char>)>::empty());
        }
        None
    }
}

} // verus!
