use vstd::prelude::*;

use crate::clock::now_timestamp;
use crate::error::ServiceError;
use crate::models::task::{is_first_task_index, max_task_id, task_id_found, task_updated, Task};

verus! {

/// Create, list, delete and update tasks. The service owns the task
/// collection; callers load it from wherever it is kept, run operations
/// here, and write `tasks` back out.
pub struct TaskService {
    pub tasks: Vec<Task>,
}

impl TaskService {
    pub fn new(tasks: Vec<Task>) -> (s: Self)
        ensures
            s.tasks == tasks,
    {
        TaskService { tasks }
    }

    /// Append a freshly numbered task stamped with the current clock. The
    /// new task's id is one above the largest id already present.
    pub fn create_task(&mut self, title: String, description: Option<String>) -> (r: Result<
        Task,
        ServiceError,
    >)
        requires
            max_task_id(old(self).tasks@) < u32::MAX,
        ensures
            r matches Ok(t)
                && t.id as int == max_task_id(old(self).tasks@) + 1
                && t.title == title
                && t.description == description
                && t.created_at >= 0
                && !t.completed
                && t.completed_at is None
                && final(self).tasks@ == old(self).tasks@.push(t),
    {
        let now = now_timestamp();
        self.create_task_at(title, description, now)
    }

    /// `create_task` with the creation instant supplied by the caller.
    pub fn create_task_at(&mut self, title: String, description: Option<String>, now: i64) -> (r:
        Result<Task, ServiceError>)
        requires
            max_task_id(old(self).tasks@) < u32::MAX,
        ensures
            r matches Ok(t)
                && t.id as int == max_task_id(old(self).tasks@) + 1
                && t.title == title
                && t.description == description
                && t.created_at == now
                && !t.completed
                && t.completed_at is None
                && final(self).tasks@ == old(self).tasks@.push(t),
    {
        let id = max_id(&self.tasks) + 1;
        let new_task = Task {
            id,
            title,
            description,
            created_at: now,
            completed: false,
            completed_at: None,
        };
        let returned = new_task.clone();
        self.tasks.push(new_task);
        Ok(returned)
    }

    /// Hand out a copy of every task.
    pub fn list_tasks(&self) -> (r: Result<Vec<Task>, ServiceError>)
        ensures
            r matches Ok(ts) && ts@ == self.tasks@,
    {
        Ok(self.tasks.clone())
    }

    /// Remove the first task carrying `id`; report which id was missing
    /// otherwise.
    pub fn delete_task(&mut self, id: u32) -> (r: Result<(), ServiceError>)
        ensures
            r is Ok <==> task_id_found(old(self).tasks@, id),
            r is Ok ==> exists|i: int|
                #[trigger] is_first_task_index(old(self).tasks@, id, i)
                    && final(self).tasks@ == old(self).tasks@.remove(i),
            r is Err ==> r == Err::<(), ServiceError>(ServiceError::TaskNotFound(id))
                && final(self).tasks@ == old(self).tasks@,
    {
        match position_of_task(&self.tasks, id) {
            Some(pos) => {
                self.tasks.remove(pos);
                Ok(())
            },
            None => Err(ServiceError::TaskNotFound(id)),
        }
    }

    /// Overwrite the fields of the first task carrying `id` with whatever
    /// arguments are `Some`, stamping the completion instant with the
    /// current clock, and hand back a copy of the updated task.
    pub fn update_task(
        &mut self,
        id: u32,
        title: Option<String>,
        description: Option<String>,
        completed: Option<bool>,
    ) -> (r: Result<Task, ServiceError>)
        ensures
            r is Ok <==> task_id_found(old(self).tasks@, id),
            r matches Ok(t) ==> exists|i: int, now: i64|
                is_first_task_index(old(self).tasks@, id, i)
                    && now >= 0
                    && #[trigger] task_updated(
                    old(self).tasks@[i],
                    title,
                    description,
                    completed,
                    now,
                ) == t
                    && final(self).tasks@ == old(self).tasks@.update(i, t),
            r is Err ==> r == Err::<Task, ServiceError>(ServiceError::TaskNotFound(id))
                && final(self).tasks@ == old(self).tasks@,
    {
        let now = now_timestamp();
        self.update_task_at(id, title, description, completed, now)
    }

    /// `update_task` with the completion instant supplied by the caller.
    pub fn update_task_at(
        &mut self,
        id: u32,
        title: Option<String>,
        description: Option<String>,
        completed: Option<bool>,
        now: i64,
    ) -> (r: Result<Task, ServiceError>)
        ensures
            r is Ok <==> task_id_found(old(self).tasks@, id),
            r matches Ok(t) ==> exists|i: int|
                #[trigger] is_first_task_index(old(self).tasks@, id, i)
                    && t == task_updated(old(self).tasks@[i], title, description, completed, now)
                    && final(self).tasks@ == old(self).tasks@.update(i, t),
            r is Err ==> r == Err::<Task, ServiceError>(ServiceError::TaskNotFound(id))
                && final(self).tasks@ == old(self).tasks@,
    {
        match position_of_task(&self.tasks, id) {
            Some(pos) => {
                let ghost old_tasks = self.tasks@;
                let t = self.tasks.remove(pos);
                let updated = Task {
                    id: t.id,
                    title: match title {
                        Some(n) => n,
                        None => t.title,
                    },
                    description: match description {
                        Some(d) => Some(d),
                        None => t.description,
                    },
                    created_at: t.created_at,
                    completed: match completed {
                        Some(c) => c,
                        None => t.completed,
                    },
                    completed_at: match completed {
                        Some(c) => if c {
                            Some(now)
                        } else {
                            None
                        },
                        None => t.completed_at,
                    },
                };
                let returned = updated.clone();
                self.tasks.insert(pos, updated);
                proof {
                    assert(self.tasks@ =~= old_tasks.update(pos as int, returned));
                }
                Ok(returned)
            },
            None => Err(ServiceError::TaskNotFound(id)),
        }
    }
}

/// The position of the first task carrying `id`, if any.
fn position_of_task(tasks: &Vec<Task>, id: u32) -> (r: Option<usize>)
    ensures
        match r {
            Some(i) => is_first_task_index(tasks@, id, i as int),
            None => !task_id_found(tasks@, id),
        },
{
    let mut i: usize = 0;
    while i < tasks.len()
        invariant
            0 <= i <= tasks.len(),
            forall|j: int| 0 <= j < i ==> tasks@[j].id != id,
        decreases tasks.len() - i,
    {
        if tasks[i].id == id {
            return Some(i);
        }
        i = i + 1;
    }
    None
}

/// The largest id in the collection, 0 when it is empty.
fn max_id(tasks: &Vec<Task>) -> (m: u32)
    ensures
        m as int == max_task_id(tasks@),
{
    let mut m: u32 = 0;
    let mut i: usize = 0;
    while i < tasks.len()
        invariant
            0 <= i <= tasks.len(),
            m as int == max_task_id(tasks@.take(i as int)),
        decreases tasks.len() - i,
    {
        proof {
            lemma_max_task_id_take_step(tasks@, i as int);
        }
        if tasks[i].id > m {
            m = tasks[i].id;
        }
        i = i + 1;
    }
    proof {
        assert(tasks@.take(tasks@.len() as int) =~= tasks@);
    }
    m
}

/// Extending a prefix by one element moves its largest id to the larger of
/// the old largest and the new element's id.
proof fn lemma_max_task_id_take_step(s: Seq<Task>, i: int)
    requires
        0 <= i < s.len(),
    ensures
        max_task_id(s.take(i + 1)) == if s[i].id as int > max_task_id(s.take(i)) {
            s[i].id as int
        } else {
            max_task_id(s.take(i))
        },
{
    assert(s.take(i + 1).drop_last() =~= s.take(i));
    assert(s.take(i + 1).last() == s[i]);
}

} // verus!
