//! Items and the catalog of spawnable item kinds.

use vstd::prelude::*;

use crate::names::{contains_name, name_set};

verus! {

/// Tag carried by every item body: the name of the item kind.
#[derive(Debug, Clone, PartialEq)]
pub struct Item {
    pub name: String,
}

/// The names of the item kinds the game can spawn.  Each name appears
/// once; the sprite and collider that go with a name belong to the
/// engine-facing shell.
#[derive(Debug)]
pub struct ItemCatalog(pub Vec<String>);

impl ItemCatalog {
    /// Each catalog entry is keyed by a distinct name.
    pub open spec fn wf(self) -> bool {
        forall|i: int, j: int| 0 <= i < j < self.0@.len() ==> self.0@[i]@ != self.0@[j]@
    }

    /// Whether the catalog knows an item kind of the given name; only
    /// such items can be spawned.
    pub fn contains(&self, name: &String) -> (r: bool)
        ensures
            r == name_set(self.0@).contains(name@),
    {
        contains_name(&self.0, name)
    }

    /// The game's built-in catalog: the three primary colours, their
    /// blends, white, and trash.
    pub fn standard() -> (r: ItemCatalog)
        ensures
            r.wf(),
            r.0@.len() == 8,
            r.0@[0]@ == "trash"@,
            r.0@[1]@ == "red"@,
            r.0@[2]@ == "green"@,
            r.0@[3]@ == "blue"@,
            r.0@[4]@ == "yellow"@,
            r.0@[5]@ == "violet"@,
            r.0@[6]@ == "turkeu"@,
            r.0@[7]@ == "white"@,
    {
        let catalog = ItemCatalog(
            vec![
                "trash".to_owned(),
                "red".to_owned(),
                "green".to_owned(),
                "blue".to_owned(),
                "yellow".to_owned(),
                "violet".to_owned(),
                "turkeu".to_owned(),
                "white".to_owned(),
            ],
        );
        proof {
            reveal_strlit("trash");
            reveal_strlit("red");
            reveal_strlit("green");
            reveal_strlit("blue");
            reveal_strlit("yellow");
            reveal_strlit("violet");
            reveal_strlit("turkeu");
            reveal_strlit("white");
            assert("trash"@.len() == 5 && "red"@.len() == 3 && "green"@.len() == 5 && "blue"@.len()
                == 4 && "yellow"@.len() == 6 && "violet"@.len() == 6 && "turkeu"@.len() == 6
                && "white"@.len() == 5);
            assert("trash"@[0] != "green"@[0] && "trash"@[0] != "white"@[0] && "green"@[0]
                != "white"@[0]);
            assert("yellow"@[0] != "violet"@[0] && "yellow"@[0] != "turkeu"@[0] && "violet"@[0]
                != "turkeu"@[0]);
            assert("trash"@ != "green"@ && "trash"@ != "white"@ && "green"@ != "white"@);
            assert("yellow"@ != "violet"@ && "yellow"@ != "turkeu"@ && "violet"@ != "turkeu"@);
            assert(catalog.wf());
        }
        catalog
    }
}

} // verus!
