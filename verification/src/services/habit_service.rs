use vstd::prelude::*;

use crate::clock::now_timestamp;
use crate::error::ServiceError;
use crate::models::habit::{
    habit_id_found, habit_updated, is_first_habit_index, max_habit_id, Habit,
};

verus! {

/// Create, list, delete and update habits. The service owns the habit
/// collection; callers load it from wherever it is kept, run operations
/// here, and write `habits` back out.
pub struct HabitService {
    pub habits: Vec<Habit>,
}

impl HabitService {
    pub fn new(habits: Vec<Habit>) -> (s: Self)
        ensures
            s.habits == habits,
    {
        HabitService { habits }
    }

    /// Append a freshly numbered habit with an empty streak, stamped with
    /// the current clock. The new habit's id is one above the largest id
    /// already present.
    pub fn create_habit(
        &mut self,
        name: String,
        description: Option<String>,
        frequency: String,
    ) -> (r: Result<Habit, ServiceError>)
        requires
            max_habit_id(old(self).habits@) < u32::MAX,
        ensures
            r matches Ok(h)
                && h.id as int == max_habit_id(old(self).habits@) + 1
                && h.name == name
                && h.description == description
                && h.frequency == frequency
                && h.streak == 0
                && h.created_at >= 0
                && h.last_completed_at is None
                && final(self).habits@ == old(self).habits@.push(h),
    {
        let now = now_timestamp();
        self.create_habit_at(name, description, frequency, now)
    }

    /// `create_habit` with the creation instant supplied by the caller.
    pub fn create_habit_at(
        &mut self,
        name: String,
        description: Option<String>,
        frequency: String,
        now: i64,
    ) -> (r: Result<Habit, ServiceError>)
        requires
            max_habit_id(old(self).habits@) < u32::MAX,
        ensures
            r matches Ok(h)
                && h.id as int == max_habit_id(old(self).habits@) + 1
                && h.name == name
                && h.description == description
                && h.frequency == frequency
                && h.streak == 0
                && h.created_at == now
                && h.last_completed_at is None
                && final(self).habits@ == old(self).habits@.push(h),
    {
        let id = max_id(&self.habits) + 1;
        let new_habit = Habit {
            id,
            name,
            description,
            frequency,
            streak: 0,
            created_at: now,
            last_completed_at: None,
        };
        let returned = new_habit.clone();
        self.habits.push(new_habit);
        Ok(returned)
    }

    /// Hand out a copy of every habit.
    pub fn list_habits(&self) -> (r: Result<Vec<Habit>, ServiceError>)
        ensures
            r matches Ok(hs) && hs@ == self.habits@,
    {
        Ok(self.habits.clone())
    }

    /// Remove the first habit carrying `id`; report which id was missing
    /// otherwise.
    pub fn delete_habit(&mut self, id: u32) -> (r: Result<(), ServiceError>)
        ensures
            r is Ok <==> habit_id_found(old(self).habits@, id),
            r is Ok ==> exists|i: int|
                #[trigger] is_first_habit_index(old(self).habits@, id, i)
                    && final(self).habits@ == old(self).habits@.remove(i),
            r is Err ==> r == Err::<(), ServiceError>(ServiceError::HabitNotFound(id))
                && final(self).habits@ == old(self).habits@,
    {
        match position_of_habit(&self.habits, id) {
            Some(pos) => {
                self.habits.remove(pos);
                Ok(())
            },
            None => Err(ServiceError::HabitNotFound(id)),
        }
    }

    /// Overwrite the fields of the first habit carrying `id` with whatever
    /// arguments are `Some`; `increment_streak` additionally raises the
    /// streak by one and stamps the completion instant with the current
    /// clock. A copy of the updated habit is handed back.
    pub fn update_habit(
        &mut self,
        id: u32,
        name: Option<String>,
        description: Option<String>,
        frequency: Option<String>,
        increment_streak: bool,
    ) -> (r: Result<Habit, ServiceError>)
        requires
            increment_streak ==> forall|i: int|
                is_first_habit_index(old(self).habits@, id, i) ==> old(
                    self,
                ).habits@[i].streak < u32::MAX,
        ensures
            r is Ok <==> habit_id_found(old(self).habits@, id),
            r matches Ok(h) ==> exists|i: int, now: i64|
                is_first_habit_index(old(self).habits@, id, i)
                    && now >= 0
                    && #[trigger] habit_updated(
                    old(self).habits@[i],
                    name,
                    description,
                    frequency,
                    increment_streak,
                    now,
                ) == h
                    && final(self).habits@ == old(self).habits@.update(i, h),
            r is Err ==> r == Err::<Habit, ServiceError>(ServiceError::HabitNotFound(id))
                && final(self).habits@ == old(self).habits@,
    {
        let now = now_timestamp();
        self.update_habit_at(id, name, description, frequency, increment_streak, now)
    }

    /// `update_habit` with the completion instant supplied by the caller.
    pub fn update_habit_at(
        &mut self,
        id: u32,
        name: Option<String>,
        description: Option<String>,
        frequency: Option<String>,
        increment_streak: bool,
        now: i64,
    ) -> (r: Result<Habit, ServiceError>)
        requires
            increment_streak ==> forall|i: int|
                is_first_habit_index(old(self).habits@, id, i) ==> old(
                    self,
                ).habits@[i].streak < u32::MAX,
        ensures
            r is Ok <==> habit_id_found(old(self).habits@, id),
            r matches Ok(h) ==> exists|i: int|
                is_first_habit_index(old(self).habits@, id, i)
                    && #[trigger] habit_updated(
                    old(self).habits@[i],
                    name,
                    description,
                    frequency,
                    increment_streak,
                    now,
                ) == h
                    && final(self).habits@ == old(self).habits@.update(i, h),
            r is Err ==> r == Err::<Habit, ServiceError>(ServiceError::HabitNotFound(id))
                && final(self).habits@ == old(self).habits@,
    {
        match position_of_habit(&self.habits, id) {
            Some(pos) => {
                let ghost old_habits = self.habits@;
                let h = self.habits.remove(pos);
                let updated = Habit {
                    id: h.id,
                    name: match name {
                        Some(n) => n,
                        None => h.name,
                    },
                    description: match description {
                        Some(d) => Some(d),
                        None => h.description,
                    },
                    frequency: match frequency {
                        Some(f) => f,
                        None => h.frequency,
                    },
                    streak: if increment_streak {
                        h.streak + 1
                    } else {
                        h.streak
                    },
                    created_at: h.created_at,
                    last_completed_at: if increment_streak {
                        Some(now)
                    } else {
                        h.last_completed_at
                    },
                };
                let returned = updated.clone();
                self.habits.insert(pos, updated);
                proof {
                    assert(self.habits@ =~= old_habits.update(pos as int, returned));
                    assert(habit_updated(
                        old_habits[pos as int],
                        name,
                        description,
                        frequency,
                        increment_streak,
                        now,
                    ) == returned);
                }
                Ok(returned)
            },
            None => Err(ServiceError::HabitNotFound(id)),
        }
    }
}

/// The position of the first habit carrying `id`, if any.
fn position_of_habit(habits: &Vec<Habit>, id: u32) -> (r: Option<usize>)
    ensures
        match r {
            Some(i) => is_first_habit_index(habits@, id, i as int),
            None => !habit_id_found(habits@, id),
        },
{
    let mut i: usize = 0;
    while i < habits.len()
        invariant
            0 <= i <= habits.len(),
            forall|j: int| 0 <= j < i ==> habits@[j].id != id,
        decreases habits.len() - i,
    {
        if habits[i].id == id {
            return Some(i);
        }
        i = i + 1;
    }
    None
}

/// The largest id in the collection, 0 when it is empty.
fn max_id(habits: &Vec<Habit>) -> (m: u32)
    ensures
        m as int == max_habit_id(habits@),
{
    let mut m: u32 = 0;
    let mut i: usize = 0;
    while i < habits.len()
        invariant
            0 <= i <= habits.len(),
            m as int == max_habit_id(habits@.take(i as int)),
        decreases habits.len() - i,
    {
        proof {
            lemma_max_habit_id_take_step(habits@, i as int);
        }
        if habits[i].id > m {
            m = habits[i].id;
        }
        i = i + 1;
    }
    proof {
        assert(habits@.take(habits@.len() as int) =~= habits@);
    }
    m
}

/// Extending a prefix by one element moves its largest id to the larger of
/// the old largest and the new element's id.
proof fn lemma_max_habit_id_take_step(s: Seq<Habit>, i: int)
    requires
        0 <= i < s.len(),
    ensures
        max_habit_id(s.take(i + 1)) == if s[i].id as int > max_habit_id(s.take(i)) {
            s[i].id as int
        } else {
            max_habit_id(s.take(i))
        },
{
    assert(s.take(i + 1).drop_last() =~= s.take(i));
    assert(s.take(i + 1).last() == s[i]);
}

} // verus!
