use vstd::prelude::*;

verus! {

/// A to-do item in the lightweight tracker: a title and whether it was
/// completed today.
#[derive(Debug)]
pub struct Todo {
    pub title: String,
    pub completed_today: bool,
}

impl Todo {
    /// Mark the item done for today.
    pub fn mark_done(&mut self)
        ensures
            final(self).completed_today,
            final(self).title == old(self).title,
    {
        self.completed_today = true;
    }
}

} // verus!
