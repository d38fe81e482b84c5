//! The crafting machine: a container that collects dropped-in items and
//! turns a matching combination of them into a product.

use vstd::prelude::*;

use crate::recipes::Recipes;

verus! {

/// Hit points a freshly placed machine starts with.
pub const MACHINE_MAX_HP: i32 = 5;

/// Capacity a freshly placed machine starts with.
pub const MACHINE_CAPACITY: usize = 5;

/// A machine body: the item names it currently holds, its capacity and
/// its hit points.
#[derive(Debug)]
pub struct Machine {
    pub items: Vec<String>,
    pub capacity: usize,
    pub hp: i32,
}

impl Machine {
    /// A freshly placed machine: empty, with the standard capacity and
    /// hit points.
    pub fn new() -> (r: Machine)
        ensures
            r.items@ == Seq::<String>::empty(),
            r.capacity == MACHINE_CAPACITY,
            r.hp == MACHINE_MAX_HP,
    {
        Machine { items: Vec::new(), capacity: MACHINE_CAPACITY, hp: MACHINE_MAX_HP }
    }

    /// Accepts a dropped-in item name while the machine still has room:
    /// an item is taken iff the count of held items is below the
    /// capacity, so the machine never holds more than `capacity` items.
    pub fn try_insert(&mut self, name: String) -> (inserted: bool)
        ensures
            inserted == (old(self).items@.len() < old(self).capacity),
            inserted ==> final(self).items@ == old(self).items@.push(name),
            !inserted ==> final(self).items@ == old(self).items@,
            final(self).capacity == old(self).capacity,
            final(self).hp == old(self).hp,
    {
        if self.items.len() < self.capacity {
            self.items.push(name);
            true
        } else {
            false
        }
    }

    /// Looks the held items up in the recipe table, taken as a set.  On a
    /// match the machine empties itself and hands back the name of the
    /// produced item; otherwise it is left as it is.
    pub fn produce(&mut self, recipes: &Recipes) -> (r: Option<String>)
        requires
            recipes.wf(),
        ensures
            final(self).capacity == old(self).capacity,
            final(self).hp == old(self).hp,
            match r {
                Some(res) => (exists|i: int|
                    0 <= i < recipes.0@.len() && #[trigger] recipes.entry_matches(
                        i,
                        old(self).items@,
                    ) && res@ == recipes.0@[i].result@) && final(self).items@
                    == Seq::<String>::empty(),
                None => (forall|i: int|
                    0 <= i < recipes.0@.len() ==> !recipes.entry_matches(i, old(self).items@))
                    && *final(self) == *old(self),
            },
    {
        let ingredients = self.items.clone();
        proof {
            assert forall|i: int| 0 <= i < self.items@.len() implies ingredients@[i]
                == self.items@[i] by {
                assert(cloned::<String>(self.items@[i], ingredients@[i]));
            }
            assert(ingredients@ =~= self.items@);
        }
        match recipes.check_machine(ingredients) {
            Some(result) => {
                let res = result.clone();
                self.items.clear();
                Some(res)
            },
            None => None,
        }
    }
}

} // verus!
