//! A set of names.
use vstd::prelude::*;

verus! {

/// The texts that occur in `v`.
pub open spec fn text_set(v: Seq<String>) -> Set<Seq<char>> {
    Set::new(|name: Seq<char>| exists|i: int| 0 <= i < v.len() && v[i]@ == name)
}

/// A set of names, kept as a list in which no name occurs twice.
#[derive(Debug)]
pub struct NameSet {
    names: Vec<String>,
}

impl View for NameSet {
    type V = Set<Seq<char>>;

    closed spec fn view(&self) -> Set<Seq<char>> {
        text_set(self.names@)
    }
}

impl NameSet {
    /// No name occurs twice.
    #[verifier::type_invariant]
    spec fn distinct(self) -> bool {
        forall|i: int, j: int|
            0 <= i < j < self.names.len() ==> self.names[i]@ != self.names[j]@
    }

    /// The empty set.
    pub fn new() -> (r: NameSet)
        ensures
            r@ == Set::<Seq<char>>::empty(),
    {
        let r = NameSet { names: Vec::new() };
        assert(r@ =~= Set::<Seq<char>>::empty());
        r
    }

    /// Whether `name` is in the set.
    pub fn contains(&self, name: &String) -> (r: bool)
        ensures
            r == self@.contains(name@),
    {
        let mut i: usize = 0;
        while i < self.names.len()
            invariant
                i <= self.names.len(),
                forall|j: int| 0 <= j < i ==> self.names[j]@ != name@,
            decreases self.names.len() - i,
        {
            if self.names[i] == *name {
                return true;
            }
            i += 1;
        }
        false
    }

    /// Puts `name` into the set.
    pub fn insert(&mut self, name: String)
        ensures
            final(self)@ == old(self)@.insert(name@),
    {
        if !self.contains(&name) {
            proof {
                use_type_invariant(&*self);
            }
            let ghost before = self.names@;
            let mut taken = NameSet { names: Vec::new() };
            core::mem::swap(self, &mut taken);
            let mut names = taken.names;
            names.push(name);
            *self = NameSet { names };
            assert(self@ =~= old(self)@.insert(name@)) by {
                assert forall|n: Seq<char>|
                    old(self)@.insert(name@).contains(n) implies self@.contains(n) by {
                    if n == name@ {
                        assert(self.names[before.len() as int]@ == n);
                    } else {
                        let i = choose|i: int| 0 <= i < before.len() && before[i]@ == n;
                        assert(self.names[i]@ == n);
                    }
                }
            }
        } else {
            assert(self@ =~= old(self)@.insert(name@));
        }
    }

    /// Whether the set holds no name.
    pub fn is_empty(&self) -> (r: bool)
        ensures
            r == (self@ == Set::<Seq<char>>::empty()),
    {
        if self.names.len() == 0 {
            assert(self@ =~= Set::<Seq<char>>::empty());
            true
        } else {
            assert(self@.contains(self.names[0]@));
            false
        }
    }

    /// Takes every name out of the set.
    pub fn clear(&mut self)
        ensures
            final(self)@ == Set::<Seq<char>>::empty(),
    {
        *self = NameSet { names: Vec::new() };
        assert(self@ =~= Set::<Seq<char>>::empty());
    }

    /// The names of the set, each once.
    pub fn to_vec(&self) -> (r: Vec<String>)
        ensures
            text_set(r@) == self@,
            forall|i: int, j: int| 0 <= i < j < r.len() ==> r[i]@ != r[j]@,
    {
        proof {
            use_type_invariant(self);
        }
        let mut out: Vec<String> = Vec::new();
        let mut i: usize = 0;
        while i < self.names.len()
            invariant
                i <= self.names.len(),
                out.len() == i,
                forall|j: int| 0 <= j < i ==> out[j]@ == self.names[j]@,
            decreases self.names.len() - i,
        {
            out.push(self.names[i].clone());
            i += 1;
        }
        assert(text_set(out@) =~= self@) by {
            assert forall|n: Seq<char>| self@.contains(n) implies text_set(out@).contains(n) by {
                let k = choose|k: int| 0 <= k < self.names.len() && self.names[k]@ == n;
                assert(out[k]@ == n);
            }
            assert forall|n: Seq<char>| text_set(out@).contains(n) implies self@.contains(n) by {
                let k = choose|k: int| 0 <= k < out.len() && out[k]@ == n;
                assert(self.names[k]@ == n);
            }
        }
        out
    }
}

impl Clone for NameSet {
    /// A set of the same names.
    fn clone(&self) -> (r: NameSet)
        ensures
            r@ == self@,
    {
        let names = self.to_vec();
        NameSet { names }
    }
}

} // verus!
