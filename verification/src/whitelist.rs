//! The registry of liquidity pools that may receive custody funds.

use vstd::prelude::*;
use crate::address::Address;

verus! {

/// Removing the entry at `i` from a duplicate-free sequence leaves a
/// duplicate-free sequence that holds every other entry and not that one.
pub proof fn lemma_remove_unique(s: Seq<Address>, i: int)
    requires
        s.no_duplicates(),
        0 <= i < s.len(),
    ensures
        s.remove(i).no_duplicates(),
        s.remove(i).to_set() == s.to_set().remove(s[i]),
{
    let r = s.remove(i);
    assert forall|x: Address| r.to_set().contains(x) <==> s.to_set().remove(s[i]).contains(
        x,
    ) by {
        if r.contains(x) {
            let j = choose|j: int| 0 <= j < r.len() && r[j] == x;
            if j < i {
                assert(s[j] == x);
            } else {
                assert(s[j + 1] == x);
            }
        }
        if s.contains(x) && x != s[i] {
            let k = choose|k: int| 0 <= k < s.len() && s[k] == x;
            if k < i {
                assert(r[k] == x);
            } else {
                assert(r[k - 1] == x);
            }
        }
    }
    assert(r.to_set() =~= s.to_set().remove(s[i]));
}

/// A set of trusted pool identities. Membership is all that is recorded of a
/// pool; each member is stored once.
#[derive(Clone, Debug)]
pub struct Whitelist {
    entries: Vec<Address>,
}

impl View for Whitelist {
    type V = Set<Address>;

    open spec fn view(&self) -> Set<Address> {
        self.entries().to_set()
    }
}

impl Whitelist {
    /// The members as they are stored.
    pub closed spec fn entries(&self) -> Seq<Address> {
        self.entries@
    }

    /// No member is stored twice.
    pub open spec fn wf(&self) -> bool {
        self.entries().no_duplicates()
    }

    /// The registry with no member.
    pub fn new() -> (w: Whitelist)
        ensures
            w.wf(),
            w.entries() == Seq::<Address>::empty(),
            w@ == Set::<Address>::empty(),
    {
        let w = Whitelist { entries: Vec::new() };
        proof {
            assert(w.entries() =~= Seq::<Address>::empty());
            assert(w@ =~= Set::<Address>::empty());
        }
        w
    }

    /// Where `target` is stored, if it is a member.
    fn position(&self, target: &Address) -> (r: Option<usize>)
        ensures
            match r {
                Some(i) => i < self.entries().len() && self.entries()[i as int] == *target,
                None => !self@.contains(*target),
            },
    {
        let mut i: usize = 0;
        while i < self.entries.len()
            invariant
                i <= self.entries@.len(),
                forall|j: int| 0 <= j < i ==> self.entries@[j] != *target,
            decreases self.entries@.len() - i,
        {
            if self.entries[i] == *target {
                return Some(i);
            }
            i += 1;
        }
        None
    }

    /// Tells whether `target` is a member.
    pub fn contains(&self, target: &Address) -> (r: bool)
        ensures
            r == self@.contains(*target),
    {
        match self.position(target) {
            Some(i) => {
                assert(self.entries().contains(*target));
                true
            },
            None => false,
        }
    }

    /// How many members there are.
    pub fn len(&self) -> (n: usize)
        requires
            self.wf(),
        ensures
            n == self@.len(),
    {
        proof {
            self.entries@.unique_seq_to_set();
        }
        self.entries.len()
    }

    /// Makes `target` a member. Adding a member again changes nothing.
    pub fn add(&mut self, target: Address)
        requires
            old(self).wf(),
        ensures
            final(self).wf(),
            final(self)@ == old(self)@.insert(target),
            old(self)@.contains(target) ==> *final(self) == *old(self),
    {
        match self.position(&target) {
            Some(i) => {
                assert(self.entries().contains(target));
                assert(self@ =~= self@.insert(target));
            },
            None => {
                proof {
                    self.entries@.lemma_push_to_set_commute(target);
                }
                self.entries.push(target);
            },
        }
    }

    /// Takes `target` out of the registry. Removing an identity that is not a
    /// member is accepted and changes nothing.
    pub fn remove(&mut self, target: &Address)
        requires
            old(self).wf(),
        ensures
            final(self).wf(),
            final(self)@ == old(self)@.remove(*target),
            !old(self)@.contains(*target) ==> *final(self) == *old(self),
    {
        match self.position(target) {
            Some(i) => {
                assert(self.entries().contains(*target));
                proof {
                    lemma_remove_unique(self.entries@, i as int);
                }
                self.entries.remove(i);
            },
            None => {
                assert(self@ =~= self@.remove(*target));
            },
        }
    }
}

} // verus!
