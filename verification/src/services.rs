pub mod habit_service;
pub mod pomodoro_service;
pub mod task_service;
