pub mod habit;
pub mod pomodoro;
pub mod task;
