//! A set of strings held as a vector without duplicates.
use vstd::prelude::*;
use vstd::string::*;

verus! {

/// A finite set of strings; the vector never holds two equal strings.
#[derive(Debug, Clone)]
pub struct StringSet {
    items: Vec<String>,
}

/// The set of the views of the strings in `s`.
pub open spec fn views_of(s: Seq<String>) -> Set<Seq<char>> {
    Set::new(|x: Seq<char>| exists|i: int| 0 <= i < s.len() && (#[trigger] s[i])@ == x)
}

impl View for StringSet {
    type V = Set<Seq<char>>;

    closed spec fn view(&self) -> Set<Seq<char>> {
        views_of(self.items@)
    }
}

impl StringSet {
    /// No two stored strings are equal.
    pub closed spec fn wf(&self) -> bool {
        forall|i: int, j: int|
            0 <= i < self.items@.len() && 0 <= j < self.items@.len() && i != j ==> (
            #[trigger] self.items@[i])@ != (#[trigger] self.items@[j])@
    }

    /// The empty set.
    pub fn new() -> (s: StringSet)
        ensures
            s@ == Set::<Seq<char>>::empty(),
            s.wf(),
    {
        let s = StringSet { items: Vec::new() };
        assert(s@ =~= Set::<Seq<char>>::empty());
        s
    }

    /// Whether `x` is in the set.
    pub fn contains(&self, x: &str) -> (b: bool)
        ensures
            b == self@.contains(x@),
    {
        let key = String::from_str(x);
        let n = self.items.len();
        let mut i: usize = 0;
        while i < n
            invariant
                n == self.items@.len(),
                key@ == x@,
                0 <= i <= n,
                forall|j: int| 0 <= j < i ==> (#[trigger] self.items@[j])@ != x@,
            decreases n - i,
        {
            if self.items[i] == key {
                assert(self.items@[i as int]@ == x@);
                return true;
            }
            i = i + 1;
        }
        false
    }

    /// Adds `x`; returns whether it was absent.
    pub fn insert(&mut self, x: String) -> (added: bool)
        requires
            old(self).wf(),
        ensures
            final(self).wf(),
            final(self)@ == old(self)@.insert(x@),
            added == !old(self)@.contains(x@),
    {
        if self.contains(x.as_str()) {
            return false;
        }
        let ghost old_items = self.items@;
        let ghost xv = x@;
        self.items.push(x);
        assert(self.items@ == old_items.push(self.items@[old_items.len() as int]));
        assert(self@ =~= views_of(old_items).insert(xv)) by {
            assert forall|y: Seq<char>| views_of(old_items).insert(xv).contains(y) implies self@.contains(y) by {
                if y == xv {
                    assert(self.items@[old_items.len() as int]@ == y);
                } else {
                    let i = choose|i: int| 0 <= i < old_items.len() && (#[trigger] old_items[i])@ == y;
                    assert(self.items@[i] == old_items[i]);
                }
            }
            assert forall|y: Seq<char>| self@.contains(y) implies views_of(old_items).insert(xv).contains(y) by {
                let i = choose|i: int| 0 <= i < self.items@.len() && (#[trigger] self.items@[i])@ == y;
                if i < old_items.len() {
                    assert(old_items[i] == self.items@[i]);
                }
            }
        }
        true
    }

    /// The set of the distinct strings of `v`.
    pub fn from_vec(v: Vec<String>) -> (s: StringSet)
        ensures
            s.wf(),
            s@ == views_of(v@),
    {
        let mut s = StringSet::new();
        let n = v.len();
        let mut i: usize = 0;
        while i < n
            invariant
                n == v@.len(),
                0 <= i <= n,
                s.wf(),
                s@ == views_of(v@.take(i as int)),
            decreases n - i,
        {
            s.insert(v[i].clone());
            assert(views_of(v@.take(i + 1)) =~= views_of(v@.take(i as int)).insert(v@[i as int]@)) by {
                assert forall|y: Seq<char>| views_of(v@.take(i + 1)).contains(y) implies views_of(v@.take(i as int)).insert(v@[i as int]@).contains(y) by {
                    let j = choose|j: int| 0 <= j < i + 1 && (#[trigger] v@.take(i + 1)[j])@ == y;
                    if j < i {
                        assert(v@.take(i as int)[j] == v@.take(i + 1)[j]);
                    }
                }
                assert forall|y: Seq<char>| views_of(v@.take(i as int)).insert(v@[i as int]@).contains(y) implies views_of(v@.take(i + 1)).contains(y) by {
                    if y == v@[i as int]@ {
                        assert(v@.take(i + 1)[i as int] == v@[i as int]);
                    } else {
                        let j = choose|j: int| 0 <= j < i && (#[trigger] v@.take(i as int)[j])@ == y;
                        assert(v@.take(i + 1)[j] == v@.take(i as int)[j]);
                    }
                }
            }
            i = i + 1;
        }
        assert(v@.take(n as int) == v@);
        s
    }

    /// Whether the set is empty.
    pub fn is_empty(&self) -> (b: bool)
        ensures
            b == (self@ == Set::<Seq<char>>::empty()),
    {
        let b = self.items.len() == 0;
        if !b {
            assert(self@.contains(self.items@[0]@));
        } else {
            assert(self@ =~= Set::<Seq<char>>::empty());
        }
        b
    }
}

} // verus!
