//! A set of order ids.

use vstd::prelude::*;

verus! {

/// The characters of an id, if there is one.
pub open spec fn id_view(id: Option<String>) -> Option<Seq<char>> {
    match id {
        Some(s) => Some(s@),
        None => None,
    }
}

/// Decides whether two ids are the same: both absent, or both present with
/// the same characters.
pub fn same_id(a: &Option<String>, b: &Option<String>) -> (r: bool)
    ensures
        r == (id_view(*a) == id_view(*b)),
{
    match a {
        Some(x) => match b {
            Some(y) => *x == *y,
            None => false,
        },
        None => b.is_none(),
    }
}

/// A set of ids, kept in the order in which they came.
#[derive(Debug)]
pub struct IdSet {
    ids: Vec<String>,
}

impl IdSet {
    /// No id is held twice.
    pub closed spec fn wf(&self) -> bool {
        forall|i: int, j: int|
            0 <= i < j < self.ids@.len() ==> (#[trigger] self.ids@[i])@ != (#[trigger] self.ids@[j])@
    }

    /// The ids of the set.
    pub closed spec fn view(&self) -> Set<Seq<char>> {
        Set::new(|s: Seq<char>| exists|i: int| 0 <= i < self.ids@.len() && (#[trigger] self.ids@[i])@ == s)
    }

    /// Builds the empty set.
    pub fn new() -> (r: IdSet)
        ensures
            r.wf(),
            r@ == Set::<Seq<char>>::empty(),
    {
        let r = IdSet { ids: Vec::new() };
        assert(r@ =~= Set::<Seq<char>>::empty());
        r
    }

    /// Decides whether the set holds no id.
    pub fn is_empty(&self) -> (r: bool)
        ensures
            r == (self@ == Set::<Seq<char>>::empty()),
    {
        let r = self.ids.len() == 0;
        proof {
            if r {
                assert(self@ =~= Set::<Seq<char>>::empty());
            } else {
                assert(self@.contains(self.ids@[0]@));
            }
        }
        r
    }

    /// Returns where the id stands, if the set holds it.
    fn position(&self, id: &String) -> (r: Option<usize>)
        ensures
            r is Some ==> r->Some_0 < self.ids@.len() && self.ids@[r->Some_0 as int]@ == id@,
            r is None ==> forall|i: int| 0 <= i < self.ids@.len() ==> (#[trigger] self.ids@[i])@ != id@,
            r is Some <==> self@.contains(id@),
    {
        let mut i: usize = 0;
        while i < self.ids.len()
            invariant
                i <= self.ids@.len(),
                forall|k: int| 0 <= k < i ==> (#[trigger] self.ids@[k])@ != id@,
            decreases self.ids.len() - i,
        {
            if self.ids[i] == *id {
                return Some(i);
            }
            i = i + 1;
        }
        None
    }

    /// Decides whether the set holds the id.
    pub fn contains(&self, id: &String) -> (r: bool)
        ensures
            r == self@.contains(id@),
    {
        self.position(id).is_some()
    }

    /// Puts the id into the set.
    pub fn insert(&mut self, id: String)
        requires
            old(self).wf(),
        ensures
            final(self).wf(),
            final(self)@ == old(self)@.insert(id@),
    {
        if self.position(&id).is_none() {
            let ghost before = self.ids@;
            self.ids.push(id);
            proof {
                assert forall|s: Seq<char>| self@.contains(s) == old(self)@.insert(id@).contains(
                    s,
                ) by {
                    if old(self)@.contains(s) {
                        let i = choose|i: int| 0 <= i < before.len() && (#[trigger] before[i])@ == s;
                        assert(self.ids@[i]@ == s);
                    }
                    if s == id@ {
                        assert(self.ids@[before.len() as int]@ == s);
                    }
                }
                assert(self@ =~= old(self)@.insert(id@));
            }
        } else {
            assert(self@ =~= old(self)@.insert(id@));
        }
    }

    /// Takes the id out of the set.
    pub fn remove(&mut self, id: &String)
        requires
            old(self).wf(),
        ensures
            final(self).wf(),
            final(self)@ == old(self)@.remove(id@),
    {
        match self.position(id) {
            Some(at) => {
                let ghost before = self.ids@;
                self.ids.remove(at);
                proof {
                    assert(self.ids@ =~= before.remove(at as int));
                    assert forall|s: Seq<char>| self@.contains(s) == old(self)@.remove(
                        id@,
                    ).contains(s) by {
                        if self@.contains(s) {
                            let i = choose|i: int|
                                0 <= i < self.ids@.len() && (#[trigger] self.ids@[i])@ == s;
                            if i < at {
                                assert(before[i]@ == s);
                            } else {
                                assert(before[i + 1]@ == s);
                            }
                        }
                        if old(self)@.remove(id@).contains(s) {
                            let i = choose|i: int| 0 <= i < before.len() && (#[trigger] before[i])@ == s;
                            if i < at {
                                assert(self.ids@[i]@ == s);
                            } else {
                                assert(self.ids@[i - 1]@ == s);
                            }
                        }
                    }
                    assert(self@ =~= old(self)@.remove(id@));
                }
            },
            None => {
                assert(self@ =~= old(self)@.remove(id@));
            },
        }
    }
}

} // verus!
