//! Who is connected.

use vstd::prelude::*;

verus! {

/// The identities of the live connections, in the order in which they were
/// registered. No identity stands in it twice.
#[derive(Debug)]
pub struct TraderDirectory {
    ids: Vec<u16>,
}

impl View for TraderDirectory {
    type V = Seq<u16>;

    closed spec fn view(&self) -> Seq<u16> {
        self.ids@
    }
}

impl Default for TraderDirectory {
    fn default() -> (r: Self)
        ensures
            r@ == Seq::<u16>::empty(),
    {
        TraderDirectory { ids: Vec::new() }
    }
}

/// Taking one element out of a sequence without repetitions leaves one
/// without repetitions.
pub proof fn lemma_remove_keeps_unique(s: Seq<u16>, at: int)
    requires
        s.no_duplicates(),
        0 <= at < s.len(),
    ensures
        s.remove(at).no_duplicates(),
{
    let r = s.remove(at);
    assert forall|i: int, j: int| 0 <= i < r.len() && 0 <= j < r.len() && i != j implies r[i]
        != r[j] by {
        let a = if i < at { i } else { i + 1 };
        let b = if j < at { j } else { j + 1 };
        assert(r[i] == s[a] && r[j] == s[b]);
    }
}

impl TraderDirectory {
    #[verifier::type_invariant]
    spec fn unique(self) -> bool {
        self.ids@.no_duplicates()
    }

    /// How many identities are registered.
    pub fn len(&self) -> (r: usize)
        ensures
            r == self@.len(),
            self@.no_duplicates(),
    {
        proof {
            use_type_invariant(self);
        }
        self.ids.len()
    }

    /// The identity that was registered as number `index`.
    pub fn get(&self, index: usize) -> (r: u16)
        requires
            index < self@.len(),
        ensures
            r == self@[index as int],
    {
        self.ids[index]
    }

    /// Whether `trader_id` is registered.
    pub fn contains(&self, trader_id: u16) -> (r: bool)
        ensures
            r == self@.contains(trader_id),
    {
        let mut at: usize = 0;
        while at < self.ids.len()
            invariant
                at <= self.ids@.len(),
                forall|j: int| 0 <= j < at ==> self.ids@[j] != trader_id,
            decreases self.ids@.len() - at,
        {
            if self.ids[at] == trader_id {
                return true;
            }
            at = at + 1;
        }
        false
    }

    /// Registers `trader_id`. One that is registered already keeps its place.
    pub fn insert(&mut self, trader_id: u16)
        ensures
            final(self)@ == if old(self)@.contains(trader_id) {
                old(self)@
            } else {
                old(self)@.push(trader_id)
            },
    {
        proof {
            use_type_invariant(&*self);
        }
        if !self.contains(trader_id) {
            let mut ids: Vec<u16> = Vec::new();
            std::mem::swap(&mut ids, &mut self.ids);
            ids.push(trader_id);
            self.ids = ids;
        }
    }

    /// Takes `trader_id` out, if it is registered.
    pub fn remove(&mut self, trader_id: u16)
        ensures
            final(self)@ == old(self)@.remove_value(trader_id),
    {
        proof {
            use_type_invariant(&*self);
        }
        let mut ids: Vec<u16> = Vec::new();
        std::mem::swap(&mut ids, &mut self.ids);
        let mut at: usize = 0;
        while at < ids.len()
            invariant
                at <= ids@.len(),
                ids@ == old(self)@,
                ids@.no_duplicates(),
                self.ids@ == Seq::<u16>::empty(),
                forall|j: int| 0 <= j < at ==> ids@[j] != trader_id,
            decreases ids@.len() - at,
        {
            if ids[at] == trader_id {
                proof {
                    ids@.index_of_first_ensures(trader_id);
                    lemma_remove_keeps_unique(ids@, at as int);
                }
                ids.remove(at);
                self.ids = ids;
                return ;
            }
            at = at + 1;
        }
        proof {
            ids@.index_of_first_ensures(trader_id);
        }
        self.ids = ids;
    }
}

} // verus!
