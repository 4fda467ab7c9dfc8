//! Interned symbol names.
use vstd::prelude::*;

verus! {

/// An opaque handle to a name held by a `NameStore`.
#[derive(Clone, Copy, Debug, PartialEq, Eq, Structural)]
pub struct Name {
    id: u32,
}

impl Name {
    /// Position of the name in the store that made it.
    pub closed spec fn index(self) -> nat {
        self.id as nat
    }
}

/// Holds the text of each interned name; a `Name` is a position in it.
pub struct NameStore {
    names: Vec<String>,
}

impl View for NameStore {
    type V = Seq<Seq<char>>;

    closed spec fn view(&self) -> Seq<Seq<char>> {
        Seq::new(self.names@.len(), |i: int| self.names@[i]@)
    }
}

impl NameStore {
    /// Whether `n` names an entry of this store.
    pub open spec fn has(&self, n: Name) -> bool {
        n.index() < self@.len()
    }

    /// Text of `n` in this store.
    pub open spec fn text(&self, n: Name) -> Seq<char> {
        self@[n.index() as int]
    }

    /// Creates an empty store.
    pub fn new() -> (r: NameStore)
        ensures
            r@ == Seq::<Seq<char>>::empty(),
    {
        let r = NameStore { names: Vec::new() };
        assert(r@ =~= Seq::<Seq<char>>::empty());
        r
    }

    /// Returns the name for `s`, adding it to the store if no entry holds
    /// that text yet.
    pub fn add(&mut self, s: &str) -> (r: Name)
        requires
            old(self)@.len() < u32::MAX,
        ensures
            final(self).has(r),
            final(self).text(r) == s@,
            (exists|i: int| 0 <= i < old(self)@.len() && old(self)@[i] == s@) ==> final(self)@
                == old(self)@,
            !(exists|i: int| 0 <= i < old(self)@.len() && old(self)@[i] == s@) ==> final(self)@
                == old(self)@.push(s@),
    {
        let owned = String::from_str(s);
        let mut i: usize = 0;
        while i < self.names.len()
            invariant
                i <= self.names@.len(),
                self@ == old(self)@,
                owned@ == s@,
                self.names@.len() < u32::MAX,
                forall|j: int| 0 <= j < i ==> old(self)@[j] != s@,
            decreases self.names@.len() - i,
        {
            if self.names[i] == owned {
                assert(self@[i as int] == s@);
                return Name { id: i as u32 };
            }
            i = i + 1;
        }
        let id = self.names.len() as u32;
        self.names.push(owned);
        assert(self@ =~= old(self)@.push(s@));
        Name { id }
    }

    /// Returns the text of `n`.
    pub fn get(&self, n: Name) -> (r: &str)
        requires
            self.has(n),
        ensures
            r@ == self.text(n),
    {
        self.names[n.id as usize].as_str()
    }

    /// Number of names in the store.
    pub fn len(&self) -> (r: usize)
        ensures
            r == self@.len(),
    {
        self.names.len()
    }
}

} // verus!
