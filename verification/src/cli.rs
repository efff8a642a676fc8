use vstd::prelude::*;

use crate::models::task::Task;

verus! {

/// A parsed command line: one subcommand.
#[derive(Debug)]
pub struct Cli {
    pub command: Commands,
}

/// The subcommands the timer understands.
#[derive(Debug)]
pub enum Commands {
    /// Start a new pomodoro.
    Start(StartArgs),
    /// Stop the current pomodoro.
    Stop,
    /// Show the status of the current pomodoro.
    Status,
    /// List all tasks.
    Tasks,
}

/// The flags of the `start` subcommand. All durations are in minutes.
#[derive(Clone, Copy, Debug)]
pub struct StartArgs {
    pub work: u32,
    pub short_break: u32,
    pub long_break: u32,
    pub sessions: u32,
    pub sessions_before_long: u32,
    pub no_task: bool,
}

impl Default for StartArgs {
    /// The stock schedule: 25 minutes of work, 5 of short break, 15 of
    /// long break, 6 sessions with a long break every 4, and a task asked
    /// for.
    fn default() -> (a: Self)
        ensures
            a.work == 25,
            a.short_break == 5,
            a.long_break == 15,
            a.sessions == 6,
            a.sessions_before_long == 4,
            !a.no_task,
    {
        StartArgs {
            work: 25,
            short_break: 5,
            long_break: 15,
            sessions: 6,
            sessions_before_long: 4,
            no_task: false,
        }
    }
}

/// Build the task a user typed in when starting a pomodoro: an empty title
/// means no task, and the id is drawn from the low digits of the clock
/// reading exactly as a 32-bit truncation of `now` would give them.
pub fn task_from_input(title: String, description: Option<String>, now: i64) -> (r: Option<Task>)
    requires
        now >= 0,
    ensures
        title@.len() == 0 ==> r is None,
        title@.len() > 0 ==> (r matches Some(t)
            && t.id as int == ((now as int) % 0x1_0000_0000) % 10000
            && t.title == title
            && t.description == description
            && t.created_at == now
            && !t.completed
            && t.completed_at is None),
{
    if title.as_str().is_empty() {
        return None;
    }
    let low: u64 = (now as u64) % 0x1_0000_0000;
    let id: u32 = (low % 10000) as u32;
    Some(
        Task {
            id,
            title,
            description,
            created_at: now,
            completed: false,
            completed_at: None,
        },
    )
}

} // verus!
