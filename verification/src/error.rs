use vstd::prelude::*;

verus! {

/// The ways a service call can fail. Each variant carries what a caller
/// needs to render the failure: the id that was looked up and missed, or
/// nothing at all for a missing pomodoro session.
#[derive(Clone, Copy, Debug, PartialEq, Eq, Structural)]
pub enum ServiceError {
    /// No task with the given id exists in the collection.
    TaskNotFound(u32),
    /// No habit with the given id exists in the collection.
    HabitNotFound(u32),
    /// A pomodoro operation was asked for while no session is active.
    NoActiveSession,
}

} // verus!
