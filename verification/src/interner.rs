//! The table of identifiers: every name of the program is kept once and
//! stood for by its index.

use crate::ast::Name;
use vstd::prelude::*;

verus! {

/// The index of the first entry of `names` from `from` on that is `s`.
pub open spec fn position_of(names: Seq<Seq<char>>, s: Seq<char>, from: int) -> Option<int>
    decreases names.len() - from,
{
    if from < 0 || from >= names.len() {
        None
    } else if names[from] == s {
        Some(from)
    } else {
        position_of(names, s, from + 1)
    }
}

/// The table of identifiers.
#[derive(Debug)]
pub struct Interner {
    names: Vec<String>,
}

impl View for Interner {
    type V = Seq<Seq<char>>;

    closed spec fn view(&self) -> Seq<Seq<char>> {
        self.names@.map_values(|s: String| s@)
    }
}

impl Interner {
    /// The empty table.
    pub fn new() -> (i: Interner)
        ensures
            i@ == Seq::<Seq<char>>::empty(),
    {
        let i = Interner { names: Vec::new() };
        assert(i@ =~= Seq::<Seq<char>>::empty());
        i
    }

    /// Number of names.
    pub fn len(&self) -> (n: usize)
        ensures
            n == self@.len(),
    {
        self.names.len()
    }

    /// The name that stands for `s`: the one it has, or else a new one.
    pub fn intern(&mut self, s: &str) -> (name: Name)
        ensures
            match position_of(old(self)@, s@, 0) {
                Some(i) => name.0 == i && final(self)@ == old(self)@,
                None => name.0 == old(self)@.len() && final(self)@ == old(self)@.push(s@),
            },
            name.0 < final(self)@.len(),
            final(self)@[name.0 as int] == s@,
    {
        let owned = s.to_owned();
        let mut i: usize = 0;
        while i < self.names.len()
            invariant
                i <= self.names.len(),
                owned@ == s@,
                self.names@ == old(self).names@,
                position_of(self@, s@, 0) == position_of(self@, s@, i as int),
            decreases self.names.len() - i,
        {
            if self.names[i] == owned {
                return Name(i);
            }
            i += 1;
        }
        self.names.push(owned);
        proof {
            assert(self@ =~= old(self)@.push(s@));
        }
        Name(i)
    }

    /// The text that `name` stands for.
    pub fn str(&self, name: Name) -> (r: &str)
        requires
            name.0 < self@.len(),
        ensures
            r@ == self@[name.0 as int],
    {
        self.names[name.0].as_str()
    }
}

} // verus!
