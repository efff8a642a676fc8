use vstd::prelude::*;

verus! {

/// A task tracked by the task service. Creation and completion instants are
/// kept as whole seconds since the Unix epoch.
#[derive(Debug)]
pub struct Task {
    pub id: u32,
    pub title: String,
    pub description: Option<String>,
    pub created_at: i64,
    pub completed: bool,
    pub completed_at: Option<i64>,
}

impl Clone for Task {
    fn clone(&self) -> (res: Self)
        ensures
            res == *self,
    {
        Task {
            id: self.id,
            title: self.title.clone(),
            description: match &self.description {
                Some(d) => Some(d.clone()),
                None => None,
            },
            created_at: self.created_at,
            completed: self.completed,
            completed_at: self.completed_at,
        }
    }
}

/// The largest id among the tasks, or 0 when there are none. Freshly created
/// tasks get this plus one.
pub open spec fn max_task_id(s: Seq<Task>) -> int
    decreases s.len(),
{
    if s.len() == 0 {
        0
    } else {
        let rest = max_task_id(s.drop_last());
        if s.last().id as int > rest {
            s.last().id as int
        } else {
            rest
        }
    }
}

/// Some task in the sequence carries the given id.
pub open spec fn task_id_found(s: Seq<Task>, id: u32) -> bool {
    exists|i: int| 0 <= i < s.len() && s[i].id == id
}

/// `i` is the position of the first task carrying the given id; services
/// always act on that occurrence.
pub open spec fn is_first_task_index(s: Seq<Task>, id: u32, i: int) -> bool {
    &&& 0 <= i < s.len()
    &&& s[i].id == id
    &&& forall|j: int| 0 <= j < i ==> s[j].id != id
}

/// The task as `update_task` leaves it: each `Some` argument replaces the
/// corresponding field, and marking done or undone stamps or clears the
/// completion instant with `now`.
pub open spec fn task_updated(
    t: Task,
    title: Option<String>,
    description: Option<String>,
    completed: Option<bool>,
    now: i64,
) -> Task {
    Task {
        id: t.id,
        title: match title {
            Some(n) => n,
            None => t.title,
        },
        description: match description {
            Some(d) => Some(d),
            None => t.description,
        },
        created_at: t.created_at,
        completed: match completed {
            Some(c) => c,
            None => t.completed,
        },
        completed_at: match completed {
            Some(c) => if c {
                Some(now)
            } else {
                None
            },
            None => t.completed_at,
        },
    }
}

} // verus!
