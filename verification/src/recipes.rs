//! The crafting table: which combination of ingredient names yields which
//! item.
//!
//! A recipe is keyed by the *set* of its ingredient names: the order in
//! which a machine collected the ingredients, and duplicates among them,
//! make no difference to the lookup.

use vstd::prelude::*;

use crate::names::{name_set, same_name_set};

verus! {

/// One crafting rule: a combination of ingredient names and the name of
/// the item it produces.
#[derive(Debug)]
pub struct Recipe {
    pub ingredients: Vec<String>,
    pub result: String,
}

/// The table of crafting rules.
#[derive(Debug)]
pub struct Recipes(pub Vec<Recipe>);

impl Default for Recipes {
    /// An empty table: no combination crafts anything.
    fn default() -> (r: Recipes)
        ensures
            r.0@ == Seq::<Recipe>::empty(),
            r.wf(),
    {
        Recipes(Vec::new())
    }
}

impl Recipes {
    /// Entry `i` is keyed by exactly the names in `names`.
    pub open spec fn entry_matches(self, i: int, names: Seq<String>) -> bool {
        name_set(self.0@[i].ingredients@) == name_set(names)
    }

    /// Distinct entries are keyed by distinct ingredient sets, so any
    /// combination of ingredients matches at most one entry.
    pub open spec fn wf(self) -> bool {
        forall|i: int, j: int|
            0 <= i < j < self.0@.len() ==> name_set(self.0@[i].ingredients@) != name_set(
                self.0@[j].ingredients@,
            )
    }

    /// Decides well-formedness, so that a caller holding an arbitrary
    /// table can establish it before looking anything up.
    pub fn is_wf(&self) -> (r: bool)
        ensures
            r == self.wf(),
    {
        let mut i: usize = 1;
        while i < self.0.len()
            invariant
                1 <= i,
                forall|a: int, b: int|
                    0 <= a < b < i ==> name_set(self.0@[a].ingredients@) != name_set(
                        self.0@[b].ingredients@,
                    ),
            decreases self.0@.len() - i,
        {
            let mut j: usize = 0;
            while j < i
                invariant
                    j <= i < self.0@.len(),
                    forall|a: int|
                        0 <= a < j ==> name_set(self.0@[a].ingredients@) != name_set(
                            self.0@[i as int].ingredients@,
                        ),
                decreases i - j,
            {
                if same_name_set(&self.0[j].ingredients, &self.0[i].ingredients) {
                    assert(!self.wf());
                    return false;
                }
                j = j + 1;
            }
            i = i + 1;
        }
        true
    }

    /// Looks up the recipe keyed by the given ingredients, taken as a set:
    /// order and duplicates are disregarded.  Returns the name of the
    /// produced item, or `None` when no recipe is keyed by that set.
    pub fn check_machine(&self, machine_ingredients: Vec<String>) -> (r: Option<&String>)
        requires
            self.wf(),
        ensures
            match r {
                Some(res) => exists|i: int|
                    0 <= i < self.0@.len() && #[trigger] self.entry_matches(
                        i,
                        machine_ingredients@,
                    ) && res@ == self.0@[i].result@,
                None => forall|i: int|
                    0 <= i < self.0@.len() ==> !self.entry_matches(i, machine_ingredients@),
            },
    {
        let mut i: usize = 0;
        while i < self.0.len()
            invariant
                i <= self.0@.len(),
                forall|j: int| 0 <= j < i ==> !self.entry_matches(j, machine_ingredients@),
            decreases self.0@.len() - i,
        {
            if same_name_set(&self.0[i].ingredients, &machine_ingredients) {
                assert(self.entry_matches(i as int, machine_ingredients@));
                return Some(&self.0[i].result);
            }
            i = i + 1;
        }
        None
    }

    /// The game's built-in table: the three primary colours pair up into
    /// their blends, and all three together yield white.
    pub fn standard() -> (r: Recipes)
        ensures
            r.wf(),
            r.0@.len() == 4,
            name_set(r.0@[0].ingredients@) == set!["red"@, "green"@],
            r.0@[0].result@ == "yellow"@,
            name_set(r.0@[1].ingredients@) == set!["red"@, "blue"@],
            r.0@[1].result@ == "violet"@,
            name_set(r.0@[2].ingredients@) == set!["green"@, "blue"@],
            r.0@[2].result@ == "turkeu"@,
            name_set(r.0@[3].ingredients@) == set!["red"@, "green"@, "blue"@],
            r.0@[3].result@ == "white"@,
    {
        let recipes = Recipes(
            vec![
                Recipe {
                    ingredients: vec!["red".to_owned(), "green".to_owned()],
                    result: "yellow".to_owned(),
                },
                Recipe {
                    ingredients: vec!["red".to_owned(), "blue".to_owned()],
                    result: "violet".to_owned(),
                },
                Recipe {
                    ingredients: vec!["green".to_owned(), "blue".to_owned()],
                    result: "turkeu".to_owned(),
                },
                Recipe {
                    ingredients: vec!["red".to_owned(), "green".to_owned(), "blue".to_owned()],
                    result: "white".to_owned(),
                },
            ],
        );
        proof {
            reveal_strlit("red");
            reveal_strlit("green");
            reveal_strlit("blue");
            assert(name_set(recipes.0@[0].ingredients@) =~= set!["red"@, "green"@]);
            assert(name_set(recipes.0@[1].ingredients@) =~= set!["red"@, "blue"@]);
            assert(name_set(recipes.0@[2].ingredients@) =~= set!["green"@, "blue"@]);
            assert(name_set(recipes.0@[3].ingredients@) =~= set!["red"@, "green"@, "blue"@]);
            assert("red"@.len() == 3 && "green"@.len() == 5 && "blue"@.len() == 4);
            assert("red"@ != "green"@);
            assert("red"@ != "blue"@);
            assert("green"@ != "blue"@);
            assert(set!["red"@, "green"@].contains("green"@) && !set!["red"@, "blue"@].contains(
                "green"@,
            ));
            assert(set!["red"@, "green"@] != set!["red"@, "blue"@]);
            assert(set!["red"@, "green"@].contains("red"@) && !set!["green"@, "blue"@].contains(
                "red"@,
            ));
            assert(set!["red"@, "green"@] != set!["green"@, "blue"@]);
            assert(set!["red"@, "green"@, "blue"@].contains("blue"@) && !set![
                "red"@,
                "green"@,
            ].contains("blue"@));
            assert(set!["red"@, "green"@] != set!["red"@, "green"@, "blue"@]);
            assert(set!["red"@, "blue"@].contains("red"@));
            assert(set!["red"@, "blue"@] != set!["green"@, "blue"@]);
            assert(set!["red"@, "green"@, "blue"@].contains("green"@) && !set![
                "red"@,
                "blue"@,
            ].contains("green"@));
            assert(set!["red"@, "blue"@] != set!["red"@, "green"@, "blue"@]);
            assert(!set!["green"@, "blue"@].contains("red"@));
            assert(set!["green"@, "blue"@] != set!["red"@, "green"@, "blue"@]);
        }
        recipes
    }
}

} // verus!
