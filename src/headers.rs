//! A header multimap: an ordered list of (name, value) pairs whose names are
//! kept in ASCII lower case, so that lookups ignore case.
use vstd::prelude::*;
use crate::bytes::{copy_bytes, lower_bytes, same_bytes, to_lower_ascii};

verus! {

/// The value of the first entry named `name`, if any.
pub open spec fn first_value(entries: Seq<(Seq<u8>, Seq<u8>)>, name: Seq<u8>) -> Option<Seq<u8>>
    decreases entries.len(),
{
    if entries.len() == 0 {
        None
    } else if entries[0].0 == name {
        Some(entries[0].1)
    } else {
        first_value(entries.drop_first(), name)
    }
}

/// The entries that are not named `name`, in their order.
pub open spec fn without_name(entries: Seq<(Seq<u8>, Seq<u8>)>, name: Seq<u8>) -> Seq<
    (Seq<u8>, Seq<u8>),
>
    decreases entries.len(),
{
    if entries.len() == 0 {
        entries
    } else {
        let rest = without_name(entries.drop_last(), name);
        if entries.last().0 == name {
            rest
        } else {
            rest.push(entries.last())
        }
    }
}

/// Every name is in lower case.
pub open spec fn names_lowercase(entries: Seq<(Seq<u8>, Seq<u8>)>) -> bool {
    forall|i: int| 0 <= i < entries.len() ==> lower_bytes(#[trigger] entries[i].0) == entries[i].0
}

pub struct Headers {
    entries: Vec<(Vec<u8>, Vec<u8>)>,
}

impl View for Headers {
    type V = Seq<(Seq<u8>, Seq<u8>)>;

    closed spec fn view(&self) -> Seq<(Seq<u8>, Seq<u8>)> {
        self.entries@.map_values(|e: (Vec<u8>, Vec<u8>)| (e.0@, e.1@))
    }
}

proof fn lemma_lower_idempotent(s: Seq<u8>)
    ensures
        lower_bytes(lower_bytes(s)) == lower_bytes(s),
{
    assert(lower_bytes(lower_bytes(s)) =~= lower_bytes(s));
}

proof fn lemma_without_keeps_lowercase(entries: Seq<(Seq<u8>, Seq<u8>)>, name: Seq<u8>)
    requires
        names_lowercase(entries),
    ensures
        names_lowercase(without_name(entries, name)),
    decreases entries.len(),
{
    if entries.len() > 0 {
        lemma_without_keeps_lowercase(entries.drop_last(), name);
    }
}

impl Headers {
    /// Names are stored in lower case.
    #[verifier::type_invariant]
    spec fn names_are_lowercase(&self) -> bool {
        names_lowercase(self@)
    }

    /// An empty header map.
    pub fn new() -> (r: Headers)
        ensures
            r@ == Seq::<(Seq<u8>, Seq<u8>)>::empty(),
    {
        let r = Headers { entries: Vec::new() };
        assert(r@ =~= Seq::<(Seq<u8>, Seq<u8>)>::empty());
        r
    }

    /// The number of entries.
    pub fn len(&self) -> (r: usize)
        ensures
            r == self@.len(),
    {
        self.entries.len()
    }

    /// The name of entry `i`.
    pub fn name_at(&self, i: usize) -> (r: &Vec<u8>)
        requires
            i < self@.len(),
        ensures
            r@ == self@[i as int].0,
    {
        &self.entries[i].0
    }

    /// The value of entry `i`.
    pub fn value_at(&self, i: usize) -> (r: &Vec<u8>)
        requires
            i < self@.len(),
        ensures
            r@ == self@[i as int].1,
    {
        &self.entries[i].1
    }

    /// Adds an entry after the others, keeping those already under the name.
    pub fn append(&mut self, name: &[u8], value: &[u8])
        ensures
            final(self)@ == old(self)@.push((lower_bytes(name@), value@)),
    {
        proof {
            use_type_invariant(&*self);
        }
        let n = to_lower_ascii(name);
        let v = copy_bytes(value);
        proof {
            lemma_lower_idempotent(name@);
        }
        let mut entries: Vec<(Vec<u8>, Vec<u8>)> = Vec::new();
        std::mem::swap(&mut entries, &mut self.entries);
        entries.push((n, v));
        assert(entries@.map_values(|e: (Vec<u8>, Vec<u8>)| (e.0@, e.1@)) =~= old(self)@.push(
            (lower_bytes(name@), value@),
        ));
        self.entries = entries;
    }

    /// Sets the value under a name: every earlier entry under it is removed
    /// and one entry with the new value is added after the rest.
    pub fn insert(&mut self, name: &[u8], value: &[u8])
        ensures
            final(self)@ == without_name(old(self)@, lower_bytes(name@)).push(
                (lower_bytes(name@), value@),
            ),
    {
        proof {
            use_type_invariant(&*self);
        }
        let n = to_lower_ascii(name);
        let ghost key = lower_bytes(name@);
        let ghost old_view = self@;
        let mut kept: Vec<(Vec<u8>, Vec<u8>)> = Vec::new();
        let mut i: usize = 0;
        while i < self.entries.len()
            invariant
                i <= old_view.len(),
                self@ == old_view,
                n@ == key,
                kept@.map_values(|e: (Vec<u8>, Vec<u8>)| (e.0@, e.1@)) == without_name(
                    old_view.subrange(0, i as int),
                    key,
                ),
            decreases old_view.len() - i,
        {
            let ghost before = kept@.map_values(|e: (Vec<u8>, Vec<u8>)| (e.0@, e.1@));
            assert(old_view.subrange(0, i + 1).drop_last() =~= old_view.subrange(0, i as int));
            assert(old_view[i as int] == (self.entries@[i as int].0@, self.entries@[i as int].1@));
            if !same_bytes(self.entries[i].0.as_slice(), n.as_slice()) {
                let e0 = copy_bytes(self.entries[i].0.as_slice());
                let e1 = copy_bytes(self.entries[i].1.as_slice());
                kept.push((e0, e1));
                assert(kept@.map_values(|e: (Vec<u8>, Vec<u8>)| (e.0@, e.1@)) =~= before.push(
                    old_view[i as int],
                ));
            }
            i = i + 1;
        }
        assert(old_view.subrange(0, i as int) =~= old_view);
        let v = copy_bytes(value);
        proof {
            lemma_lower_idempotent(name@);
            lemma_without_keeps_lowercase(old_view, key);
        }
        let ghost kept_view = kept@.map_values(|e: (Vec<u8>, Vec<u8>)| (e.0@, e.1@));
        kept.push((n, v));
        assert(kept@.map_values(|e: (Vec<u8>, Vec<u8>)| (e.0@, e.1@)) =~= kept_view.push(
            (key, value@),
        ));
        self.entries = kept;
    }

    /// The value of the first entry under a name, the name read without case.
    pub fn get(&self, name: &[u8]) -> (r: Option<&Vec<u8>>)
        ensures
            first_value(self@, lower_bytes(name@)) == match r {
                Some(v) => Some(v@),
                None => None,
            },
    {
        let n = to_lower_ascii(name);
        let mut i: usize = 0;
        assert(self@.subrange(0, self@.len() as int) =~= self@);
        while i < self.entries.len()
            invariant
                i <= self@.len(),
                n@ == lower_bytes(name@),
                first_value(self@, n@) == first_value(self@.subrange(i as int, self@.len() as int), n@),
            decreases self@.len() - i,
        {
            let ghost rest = self@.subrange(i as int, self@.len() as int);
            assert(rest.drop_first() =~= self@.subrange(i + 1, self@.len() as int));
            assert(rest[0] == (self.entries@[i as int].0@, self.entries@[i as int].1@));
            if same_bytes(self.entries[i].0.as_slice(), n.as_slice()) {
                return Some(&self.entries[i].1);
            }
            i = i + 1;
        }
        None
    }
}

} // verus!
