use vstd::prelude::*;

verus! {

/// A recurring habit tracked by the habit service. Instants are kept as
/// whole seconds since the Unix epoch; `frequency` is free text such as
/// "daily" or "weekly".
#[derive(Debug)]
pub struct Habit {
    pub id: u32,
    pub name: String,
    pub description: Option<String>,
    pub frequency: String,
    pub streak: u32,
    pub created_at: i64,
    pub last_completed_at: Option<i64>,
}

impl Clone for Habit {
    fn clone(&self) -> (res: Self)
        ensures
            res == *self,
    {
        Habit {
            id: self.id,
            name: self.name.clone(),
            description: match &self.description {
                Some(d) => Some(d.clone()),
                None => None,
            },
            frequency: self.frequency.clone(),
            streak: self.streak,
            created_at: self.created_at,
            last_completed_at: self.last_completed_at,
        }
    }
}

/// The largest id among the habits, or 0 when there are none. Freshly
/// created habits get this plus one.
pub open spec fn max_habit_id(s: Seq<Habit>) -> int
    decreases s.len(),
{
    if s.len() == 0 {
        0
    } else {
        let rest = max_habit_id(s.drop_last());
        if s.last().id as int > rest {
            s.last().id as int
        } else {
            rest
        }
    }
}

/// Some habit in the sequence carries the given id.
pub open spec fn habit_id_found(s: Seq<Habit>, id: u32) -> bool {
    exists|i: int| 0 <= i < s.len() && s[i].id == id
}

/// `i` is the position of the first habit carrying the given id; services
/// always act on that occurrence.
pub open spec fn is_first_habit_index(s: Seq<Habit>, id: u32, i: int) -> bool {
    &&& 0 <= i < s.len()
    &&& s[i].id == id
    &&& forall|j: int| 0 <= j < i ==> s[j].id != id
}

/// The habit as `update_habit` leaves it: each `Some` argument replaces the
/// corresponding field, and an increment raises the streak by one and
/// stamps the completion instant with `now`.
pub open spec fn habit_updated(
    h: Habit,
    name: Option<String>,
    description: Option<String>,
    frequency: Option<String>,
    increment_streak: bool,
    now: i64,
) -> Habit {
    Habit {
        id: h.id,
        name: match name {
            Some(n) => n,
            None => h.name,
        },
        description: match description {
            Some(d) => Some(d),
            None => h.description,
        },
        frequency: match frequency {
            Some(f) => f,
            None => h.frequency,
        },
        streak: if increment_streak {
            (h.streak + 1) as u32
        } else {
            h.streak
        },
        created_at: h.created_at,
        last_completed_at: if increment_streak {
            Some(now)
        } else {
            h.last_completed_at
        },
    }
}

} // verus!
