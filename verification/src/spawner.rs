//! Item dispensers that pour out a randomly chosen item kind.

use vstd::prelude::*;

use crate::items::ItemCatalog;
use crate::names::name_set;

verus! {

/// A dispenser: the item kinds it can pour out.  Where it stands and
/// where the items appear is the shell's affair.
#[derive(Debug)]
pub struct ItemSpawner {
    pub item_list: Vec<String>,
}

/// Relies on rand's `IndexedRandom::choose` with the thread rng: `None`
/// exactly on an empty slice, otherwise some element of the slice.
#[verifier::external_body]
fn choose_name(items: &Vec<String>) -> (r: Option<&String>)
    ensures
        r is None <==> items@.len() == 0,
        r matches Some(s) ==> exists|i: int| 0 <= i < items@.len() && items@[i] == *s,
{
    rand::seq::IndexedRandom::choose(items.as_slice(), &mut rand::rng())
}

impl ItemSpawner {
    /// Draws one of the dispenser's item kinds at random; the draw
    /// counts only when the catalog knows the kind, since only such
    /// items can be spawned.  An empty dispenser yields nothing; a
    /// non-empty one whose kinds the catalog all knows always pours one
    /// out, though which listed kind comes back varies from call to
    /// call.
    pub fn spawn_choice(&self, catalog: &ItemCatalog) -> (r: Option<String>)
        ensures
            self.item_list@.len() == 0 ==> r is None,
            self.item_list@.len() > 0 && (forall|i: int|
                0 <= i < self.item_list@.len() ==> name_set(catalog.0@).contains(
                    #[trigger] self.item_list@[i]@,
                )) ==> r is Some,
            r matches Some(name) ==> name_set(self.item_list@).contains(name@) && name_set(
                catalog.0@,
            ).contains(name@),
    {
        match choose_name(&self.item_list) {
            Some(picked) => {
                let name = picked.clone();
                if catalog.contains(&name) {
                    proof {
                        assert(name_set(self.item_list@).contains(name@));
                    }
                    Some(name)
                } else {
                    proof {
                        let i = choose|i: int|
                            0 <= i < self.item_list@.len() && self.item_list@[i] == *picked;
                        assert(self.item_list@[i]@ == name@);
                    }
                    None
                }
            },
            None => None,
        }
    }
}

} // verus!
