//! The record of cards that were picked before, keyed by name and set.

use vstd::prelude::*;
use crate::selector::Card;

verus! {

/// What tells two cards apart when posts are deduplicated: name and set.
#[derive(Clone, Debug)]
pub struct Identity {
    pub name: String,
    pub set: String,
}

impl View for Identity {
    type V = (Seq<char>, Seq<char>);

    open spec fn view(&self) -> (Seq<char>, Seq<char>) {
        (self.name@, self.set@)
    }
}

/// The identity of a card: its name and its set.
pub open spec fn identity_of(card: Card) -> (Seq<char>, Seq<char>) {
    (card.name@, card.set_name@)
}

impl Identity {
    pub fn of_card(card: &Card) -> (r: Identity)
        ensures
            r@ == identity_of(*card),
    {
        Identity { name: card.name.clone(), set: card.set_name.clone() }
    }
}

/// What the record holds after one identity was checked: it is recorded,
/// whether or not it was before.
pub open spec fn after_check(used: Set<(Seq<char>, Seq<char>)>, id: (Seq<char>, Seq<char>)) -> Set<
    (Seq<char>, Seq<char>),
> {
    used.insert(id)
}

/// What the record holds after a run of checks, one identity after another.
pub open spec fn after_checks(
    used: Set<(Seq<char>, Seq<char>)>,
    ids: Seq<(Seq<char>, Seq<char>)>,
) -> Set<(Seq<char>, Seq<char>)>
    decreases ids.len(),
{
    if ids.len() == 0 {
        used
    } else {
        after_check(after_checks(used, ids.drop_last()), ids.last())
    }
}

/// Once an identity is checked, every later check of it reports it used,
/// whatever was checked in between; the first check of a fresh identity
/// reports it unused.
pub proof fn lemma_check_marks_for_good(
    used: Set<(Seq<char>, Seq<char>)>,
    id: (Seq<char>, Seq<char>),
    between: Seq<(Seq<char>, Seq<char>)>,
)
    ensures
        after_checks(after_check(used, id), between).contains(id),
        after_check(after_check(used, id), id) == after_check(used, id),
    decreases between.len(),
{
    if between.len() > 0 {
        lemma_check_marks_for_good(used, id, between.drop_last());
    }
    assert(after_check(after_check(used, id), id) =~= after_check(used, id));
}

/// The identities of cards picked before, held in memory.
pub struct UsedSet {
    entries: Vec<Identity>,
}

impl View for UsedSet {
    type V = Set<(Seq<char>, Seq<char>)>;

    closed spec fn view(&self) -> Set<(Seq<char>, Seq<char>)> {
        self.entries@.map_values(|e: Identity| e@).to_set()
    }
}

impl UsedSet {
    pub fn new() -> (r: UsedSet)
        ensures
            r@ == Set::<(Seq<char>, Seq<char>)>::empty(),
    {
        let r = UsedSet { entries: Vec::new() };
        proof {
            assert(r.entries@.map_values(|e: Identity| e@) =~= Seq::<(Seq<char>, Seq<char>)>::empty());
        }
        r
    }

    /// Whether the identity was recorded. Changes nothing.
    pub fn has_been_used(&self, id: &Identity) -> (r: bool)
        ensures
            r == self@.contains(id@),
    {
        let ghost ids = self.entries@.map_values(|e: Identity| e@);
        let mut i: usize = 0;
        while i < self.entries.len()
            invariant
                i <= self.entries.len(),
                ids == self.entries@.map_values(|e: Identity| e@),
                forall|j: int| 0 <= j < i ==> ids[j] != id@,
            decreases self.entries.len() - i,
        {
            let e = &self.entries[i];
            if e.name == id.name && e.set == id.set {
                proof {
                    assert(ids[i as int] == id@);
                    assert(ids.to_set().contains(id@));
                }
                return true;
            }
            i = i + 1;
        }
        proof {
            if ids.to_set().contains(id@) {
                let j = choose|j: int| 0 <= j < ids.len() && ids[j] == id@;
                assert(ids[j] == id@);
            }
        }
        false
    }

    /// Records the identity; recording one that is already there changes
    /// nothing.
    pub fn mark_used(&mut self, id: &Identity)
        ensures
            final(self)@ == after_check(old(self)@, id@),
    {
        if !self.has_been_used(id) {
            let ghost before = self.entries@;
            self.entries.push(Identity { name: id.name.clone(), set: id.set.clone() });
            proof {
                assert(self.entries@.map_values(|e: Identity| e@) =~= before.map_values(
                    |e: Identity| e@,
                ).push(id@));
                before.map_values(|e: Identity| e@).lemma_push_to_set_commute(id@);
            }
        } else {
            assert(self@.insert(id@) =~= self@);
        }
    }

    /// Reports whether the identity was recorded before, and records it.
    pub fn check_and_mark(&mut self, id: &Identity) -> (r: bool)
        ensures
            r == old(self)@.contains(id@),
            final(self)@ == after_check(old(self)@, id@),
    {
        let used = self.has_been_used(id);
        self.mark_used(id);
        used
    }
}

} // verus!
