use vstd::prelude::*;

verus! {

/// How often a tracked habit recurs.
#[derive(Clone, Copy, Debug, PartialEq, Eq, Structural)]
pub enum Frequency {
    Daily,
    Weekly,
}

/// A habit in the lightweight tracker: a name, the current streak, and
/// whether it was already completed today.
#[derive(Debug)]
pub struct Habit {
    pub name: String,
    pub streak: u32,
    pub completed_today: bool,
    pub frequency: Frequency,
}

impl Habit {
    /// Mark the habit done for today: the streak grows by one.
    pub fn mark_done(&mut self)
        requires
            old(self).streak < u32::MAX,
        ensures
            final(self).streak == old(self).streak + 1,
            final(self).completed_today,
            final(self).name == old(self).name,
            final(self).frequency == old(self).frequency,
    {
        self.streak = self.streak + 1;
        self.completed_today = true;
    }
}

} // verus!
